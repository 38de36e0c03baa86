use openbangla_engine::keycode::{
    ibus_to_riti_keycode, VC_0, VC_9, VC_A, VC_A_SHIFT, VC_BACK_SLASH, VC_EXCLAIM, VC_GRAVE,
    VC_KP_0, VC_KP_9, VC_KP_ENTER, VC_QUOTE, VC_SEMICOLON, VC_TILDE, VC_Z, VC_Z_SHIFT,
};
use openbangla_engine::keys::{
    ASCII_TILDE, BACKSLASH, BACKSPACE, DEAD_GRAVE, DOWN, EXCLAM, GRAVE, KP_0, KP_9, KP_ENTER,
    LEFT, LOWERCASE_A, LOWERCASE_Z, NUM_0, NUM_9, QUOTE_DBL, RETURN, RIGHT, SEMICOLON, SPACE,
    TAB, UP, UPPERCASE_A, UPPERCASE_Z,
};

#[test]
fn translate_is_pure() {
    for k in 0..0x10000 {
        assert_eq!(ibus_to_riti_keycode(k), ibus_to_riti_keycode(k));
    }
}

#[test]
fn translate_grave_and_tilde() {
    assert_eq!(ibus_to_riti_keycode(GRAVE), Some(VC_GRAVE));
    assert_eq!(ibus_to_riti_keycode(DEAD_GRAVE), Some(VC_GRAVE));
    assert_eq!(ibus_to_riti_keycode(ASCII_TILDE), Some(VC_TILDE));
}

#[test]
fn translate_digit_row() {
    assert_eq!(ibus_to_riti_keycode(NUM_0), Some(VC_0));
    assert_eq!(ibus_to_riti_keycode(NUM_9), Some(VC_9));
    assert_eq!(ibus_to_riti_keycode(NUM_0 + 5), Some(VC_0 + 5));
    assert_eq!(ibus_to_riti_keycode(EXCLAM), Some(VC_EXCLAIM));
}

#[test]
fn translate_letters_shifted_and_unshifted() {
    assert_eq!(ibus_to_riti_keycode(LOWERCASE_A), Some(VC_A));
    assert_eq!(ibus_to_riti_keycode(LOWERCASE_Z), Some(VC_Z));
    assert_eq!(ibus_to_riti_keycode(LOWERCASE_A + 2), Some(VC_A + 2));
    assert_eq!(ibus_to_riti_keycode(UPPERCASE_A), Some(VC_A_SHIFT));
    assert_eq!(ibus_to_riti_keycode(UPPERCASE_Z), Some(VC_Z_SHIFT));
    assert_ne!(
        ibus_to_riti_keycode(LOWERCASE_A),
        ibus_to_riti_keycode(UPPERCASE_A)
    );
}

#[test]
fn translate_punctuation_pairs() {
    assert_eq!(ibus_to_riti_keycode(BACKSLASH), Some(VC_BACK_SLASH));
    assert_eq!(ibus_to_riti_keycode(SEMICOLON), Some(VC_SEMICOLON));
    assert_eq!(ibus_to_riti_keycode(QUOTE_DBL), Some(VC_QUOTE));
}

#[test]
fn translate_numeric_keypad() {
    assert_eq!(ibus_to_riti_keycode(KP_0), Some(VC_KP_0));
    assert_eq!(ibus_to_riti_keycode(KP_9), Some(VC_KP_9));
    assert_eq!(ibus_to_riti_keycode(KP_0 + 4), Some(VC_KP_0 + 4));
    assert_eq!(ibus_to_riti_keycode(KP_ENTER), Some(VC_KP_ENTER));
}

#[test]
fn translate_unsupported_keys_absent() {
    // Escape, F1, Home, and the special keys the dispatcher consumes
    // itself are all outside the table.
    assert_eq!(ibus_to_riti_keycode(0xff1b), None);
    assert_eq!(ibus_to_riti_keycode(0xffbe), None);
    assert_eq!(ibus_to_riti_keycode(0xff50), None);
    assert_eq!(ibus_to_riti_keycode(BACKSPACE), None);
    assert_eq!(ibus_to_riti_keycode(RETURN), None);
    assert_eq!(ibus_to_riti_keycode(TAB), None);
    assert_eq!(ibus_to_riti_keycode(LEFT), None);
    assert_eq!(ibus_to_riti_keycode(RIGHT), None);
    assert_eq!(ibus_to_riti_keycode(UP), None);
    assert_eq!(ibus_to_riti_keycode(DOWN), None);
    assert_eq!(ibus_to_riti_keycode(0), None);
    assert_eq!(ibus_to_riti_keycode(-1), None);
}

#[test]
fn translate_space_is_in_no_table_row() {
    assert_eq!(ibus_to_riti_keycode(SPACE), None);
}
