//! The key translator: maps host key identifiers to the engine's key-code
//! vocabulary over a fixed table.  Keys outside the table translate to
//! nothing, which callers treat as "not handleable by the engine".

use vstd::prelude::*;

use crate::keys::{
    AMPERSAND, APOSTROPHE, ASCII_CIRCUM, ASCII_TILDE, ASTERISK, AT, BACKSLASH, BAR, BRACE_LEFT,
    BRACE_RIGHT, BRACKET_LEFT, BRACKET_RIGHT, COLON, COMMA, DEAD_GRAVE, DOLLAR, EQUAL, EXCLAM,
    GRAVE, GREATER, KP_0, KP_9, KP_ADD, KP_DECIMAL, KP_DIVIDE, KP_ENTER, KP_EQUAL, KP_MULTIPLY,
    KP_SUBTRACT, LESS, LOWERCASE_A, LOWERCASE_Z, MINUS, NUMBER_SIGN, NUM_0, NUM_9, PAREN_LEFT,
    PAREN_RIGHT, PERCENT, PERIOD, PLUS, QUESTION, QUOTE_DBL, SEMICOLON, SLASH, UNDERSCORE,
    UPPERCASE_A, UPPERCASE_Z,
};

verus! {

// The engine's key-code vocabulary.
pub const VC_GRAVE: u16 = 1;
pub const VC_TILDE: u16 = 2;

pub const VC_0: u16 = 10;
pub const VC_9: u16 = 19;

pub const VC_PAREN_RIGHT: u16 = 20;
pub const VC_EXCLAIM: u16 = 21;
pub const VC_AT: u16 = 22;
pub const VC_HASH: u16 = 23;
pub const VC_DOLLAR: u16 = 24;
pub const VC_PERCENT: u16 = 25;
pub const VC_CIRCUM: u16 = 26;
pub const VC_AMPERSAND: u16 = 27;
pub const VC_ASTERISK: u16 = 28;
pub const VC_PAREN_LEFT: u16 = 29;

pub const VC_MINUS: u16 = 30;
pub const VC_UNDERSCORE: u16 = 31;
pub const VC_EQUALS: u16 = 32;
pub const VC_PLUS: u16 = 33;

pub const VC_A: u16 = 40;
pub const VC_Z: u16 = 65;
pub const VC_A_SHIFT: u16 = 70;
pub const VC_Z_SHIFT: u16 = 95;

pub const VC_BRACKET_LEFT: u16 = 100;
pub const VC_BRACE_LEFT: u16 = 101;
pub const VC_BRACKET_RIGHT: u16 = 102;
pub const VC_BRACE_RIGHT: u16 = 103;
pub const VC_BACK_SLASH: u16 = 104;
pub const VC_BAR: u16 = 105;
pub const VC_SLASH: u16 = 106;
pub const VC_QUESTION: u16 = 107;
pub const VC_SEMICOLON: u16 = 108;
pub const VC_COLON: u16 = 109;
pub const VC_COMMA: u16 = 110;
pub const VC_LESS: u16 = 111;
pub const VC_PERIOD: u16 = 112;
pub const VC_GREATER: u16 = 113;
pub const VC_APOSTROPHE: u16 = 114;
pub const VC_QUOTE: u16 = 115;

pub const VC_KP_DIVIDE: u16 = 120;
pub const VC_KP_MULTIPLY: u16 = 121;
pub const VC_KP_SUBTRACT: u16 = 122;
pub const VC_KP_EQUALS: u16 = 123;
pub const VC_KP_ADD: u16 = 124;
pub const VC_KP_ENTER: u16 = 125;
pub const VC_KP_DECIMAL: u16 = 126;

pub const VC_KP_0: u16 = 130;
pub const VC_KP_9: u16 = 139;

// The engine's modifier-byte bits.
pub const MODIFIER_SHIFT: u8 = 1;
pub const MODIFIER_ALT_GR: u8 = 2;

/// The translation table, stated once as the specification that the
/// executable translator is proved against.  Letter, digit and keypad-digit
/// rows are contiguous on both sides, so they are stated as ranges; every
/// other supported key is listed by itself.
pub open spec fn spec_translate(k: i32) -> Option<u16> {
    if k == GRAVE || k == DEAD_GRAVE {
        Some(VC_GRAVE)
    } else if k == ASCII_TILDE {
        Some(VC_TILDE)
    } else if NUM_0 <= k <= NUM_9 {
        Some((VC_0 + (k - NUM_0)) as u16)
    } else if k == PAREN_RIGHT {
        Some(VC_PAREN_RIGHT)
    } else if k == EXCLAM {
        Some(VC_EXCLAIM)
    } else if k == AT {
        Some(VC_AT)
    } else if k == NUMBER_SIGN {
        Some(VC_HASH)
    } else if k == DOLLAR {
        Some(VC_DOLLAR)
    } else if k == PERCENT {
        Some(VC_PERCENT)
    } else if k == ASCII_CIRCUM {
        Some(VC_CIRCUM)
    } else if k == AMPERSAND {
        Some(VC_AMPERSAND)
    } else if k == ASTERISK {
        Some(VC_ASTERISK)
    } else if k == PAREN_LEFT {
        Some(VC_PAREN_LEFT)
    } else if k == MINUS {
        Some(VC_MINUS)
    } else if k == UNDERSCORE {
        Some(VC_UNDERSCORE)
    } else if k == EQUAL {
        Some(VC_EQUALS)
    } else if k == PLUS {
        Some(VC_PLUS)
    } else if UPPERCASE_A <= k <= UPPERCASE_Z {
        Some((VC_A_SHIFT + (k - UPPERCASE_A)) as u16)
    } else if LOWERCASE_A <= k <= LOWERCASE_Z {
        Some((VC_A + (k - LOWERCASE_A)) as u16)
    } else if k == BRACKET_LEFT {
        Some(VC_BRACKET_LEFT)
    } else if k == BRACE_LEFT {
        Some(VC_BRACE_LEFT)
    } else if k == BRACKET_RIGHT {
        Some(VC_BRACKET_RIGHT)
    } else if k == BRACE_RIGHT {
        Some(VC_BRACE_RIGHT)
    } else if k == BACKSLASH {
        Some(VC_BACK_SLASH)
    } else if k == BAR {
        Some(VC_BAR)
    } else if k == SLASH {
        Some(VC_SLASH)
    } else if k == QUESTION {
        Some(VC_QUESTION)
    } else if k == SEMICOLON {
        Some(VC_SEMICOLON)
    } else if k == COLON {
        Some(VC_COLON)
    } else if k == COMMA {
        Some(VC_COMMA)
    } else if k == LESS {
        Some(VC_LESS)
    } else if k == PERIOD {
        Some(VC_PERIOD)
    } else if k == GREATER {
        Some(VC_GREATER)
    } else if k == APOSTROPHE {
        Some(VC_APOSTROPHE)
    } else if k == QUOTE_DBL {
        Some(VC_QUOTE)
    } else if k == KP_DIVIDE {
        Some(VC_KP_DIVIDE)
    } else if k == KP_MULTIPLY {
        Some(VC_KP_MULTIPLY)
    } else if k == KP_SUBTRACT {
        Some(VC_KP_SUBTRACT)
    } else if k == KP_EQUAL {
        Some(VC_KP_EQUALS)
    } else if k == KP_ADD {
        Some(VC_KP_ADD)
    } else if k == KP_ENTER {
        Some(VC_KP_ENTER)
    } else if k == KP_DECIMAL {
        Some(VC_KP_DECIMAL)
    } else if KP_0 <= k <= KP_9 {
        Some((VC_KP_0 + (k - KP_0)) as u16)
    } else {
        None
    }
}

/// Whether the host key is in the supported table at all.
pub open spec fn spec_translatable(k: i32) -> bool {
    spec_translate(k) is Some
}

/// Translates one host key identifier into the engine's key code, over the
/// fixed table.  The translation is a pure function of the key alone: the
/// result is pinned to `spec_translate`, so repeated calls on the same key
/// yield the same code, and every key outside the table yields `None`.
pub fn ibus_to_riti_keycode(ibus_keycode: i32) -> (r: Option<u16>)
    ensures
        r == spec_translate(ibus_keycode),
        r is None <==> !spec_translatable(ibus_keycode),
{
    let k = ibus_keycode;
    if k == GRAVE || k == DEAD_GRAVE {
        Some(VC_GRAVE)
    } else if k == ASCII_TILDE {
        Some(VC_TILDE)
    } else if NUM_0 <= k && k <= NUM_9 {
        Some(VC_0 + ((k - NUM_0) as u16))
    } else if k == PAREN_RIGHT {
        Some(VC_PAREN_RIGHT)
    } else if k == EXCLAM {
        Some(VC_EXCLAIM)
    } else if k == AT {
        Some(VC_AT)
    } else if k == NUMBER_SIGN {
        Some(VC_HASH)
    } else if k == DOLLAR {
        Some(VC_DOLLAR)
    } else if k == PERCENT {
        Some(VC_PERCENT)
    } else if k == ASCII_CIRCUM {
        Some(VC_CIRCUM)
    } else if k == AMPERSAND {
        Some(VC_AMPERSAND)
    } else if k == ASTERISK {
        Some(VC_ASTERISK)
    } else if k == PAREN_LEFT {
        Some(VC_PAREN_LEFT)
    } else if k == MINUS {
        Some(VC_MINUS)
    } else if k == UNDERSCORE {
        Some(VC_UNDERSCORE)
    } else if k == EQUAL {
        Some(VC_EQUALS)
    } else if k == PLUS {
        Some(VC_PLUS)
    } else if UPPERCASE_A <= k && k <= UPPERCASE_Z {
        Some(VC_A_SHIFT + ((k - UPPERCASE_A) as u16))
    } else if LOWERCASE_A <= k && k <= LOWERCASE_Z {
        Some(VC_A + ((k - LOWERCASE_A) as u16))
    } else if k == BRACKET_LEFT {
        Some(VC_BRACKET_LEFT)
    } else if k == BRACE_LEFT {
        Some(VC_BRACE_LEFT)
    } else if k == BRACKET_RIGHT {
        Some(VC_BRACKET_RIGHT)
    } else if k == BRACE_RIGHT {
        Some(VC_BRACE_RIGHT)
    } else if k == BACKSLASH {
        Some(VC_BACK_SLASH)
    } else if k == BAR {
        Some(VC_BAR)
    } else if k == SLASH {
        Some(VC_SLASH)
    } else if k == QUESTION {
        Some(VC_QUESTION)
    } else if k == SEMICOLON {
        Some(VC_SEMICOLON)
    } else if k == COLON {
        Some(VC_COLON)
    } else if k == COMMA {
        Some(VC_COMMA)
    } else if k == LESS {
        Some(VC_LESS)
    } else if k == PERIOD {
        Some(VC_PERIOD)
    } else if k == GREATER {
        Some(VC_GREATER)
    } else if k == APOSTROPHE {
        Some(VC_APOSTROPHE)
    } else if k == QUOTE_DBL {
        Some(VC_QUOTE)
    } else if k == KP_DIVIDE {
        Some(VC_KP_DIVIDE)
    } else if k == KP_MULTIPLY {
        Some(VC_KP_MULTIPLY)
    } else if k == KP_SUBTRACT {
        Some(VC_KP_SUBTRACT)
    } else if k == KP_EQUAL {
        Some(VC_KP_EQUALS)
    } else if k == KP_ADD {
        Some(VC_KP_ADD)
    } else if k == KP_ENTER {
        Some(VC_KP_ENTER)
    } else if k == KP_DECIMAL {
        Some(VC_KP_DECIMAL)
    } else if KP_0 <= k && k <= KP_9 {
        Some(VC_KP_0 + ((k - KP_0) as u16))
    } else {
        None
    }
}

/// The translator is a pure function of the key: any two results obtained
/// for the same key — as `ibus_to_riti_keycode` ensures of every call —
/// are the same.
pub proof fn lemma_translate_deterministic(k: i32, r1: Option<u16>, r2: Option<u16>)
    requires
        r1 == spec_translate(k),
        r2 == spec_translate(k),
    ensures
        r1 == r2,
{
}

} // verus!
