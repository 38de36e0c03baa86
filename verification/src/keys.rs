//! Host-side key vocabulary: the key identifiers delivered with each key
//! event (standard X11 keysym values, as the host framework reports them)
//! and the bits of the host's modifier bitmask.

use vstd::prelude::*;

verus! {

// Alphanumeric zone.
pub const GRAVE: i32 = 0x0060;
pub const DEAD_GRAVE: i32 = 0xfe50;
pub const ASCII_TILDE: i32 = 0x007e;

pub const NUM_0: i32 = 0x0030;
pub const NUM_1: i32 = 0x0031;
pub const NUM_2: i32 = 0x0032;
pub const NUM_3: i32 = 0x0033;
pub const NUM_4: i32 = 0x0034;
pub const NUM_5: i32 = 0x0035;
pub const NUM_6: i32 = 0x0036;
pub const NUM_7: i32 = 0x0037;
pub const NUM_8: i32 = 0x0038;
pub const NUM_9: i32 = 0x0039;

pub const PAREN_RIGHT: i32 = 0x0029;
pub const EXCLAM: i32 = 0x0021;
pub const AT: i32 = 0x0040;
pub const NUMBER_SIGN: i32 = 0x0023;
pub const DOLLAR: i32 = 0x0024;
pub const PERCENT: i32 = 0x0025;
pub const ASCII_CIRCUM: i32 = 0x005e;
pub const AMPERSAND: i32 = 0x0026;
pub const ASTERISK: i32 = 0x002a;
pub const PAREN_LEFT: i32 = 0x0028;

pub const MINUS: i32 = 0x002d;
pub const UNDERSCORE: i32 = 0x005f;
pub const EQUAL: i32 = 0x003d;
pub const PLUS: i32 = 0x002b;

pub const UPPERCASE_A: i32 = 0x0041;
pub const UPPERCASE_Z: i32 = 0x005a;
pub const LOWERCASE_A: i32 = 0x0061;
pub const LOWERCASE_Z: i32 = 0x007a;

pub const BRACKET_LEFT: i32 = 0x005b;
pub const BRACE_LEFT: i32 = 0x007b;
pub const BRACKET_RIGHT: i32 = 0x005d;
pub const BRACE_RIGHT: i32 = 0x007d;
pub const BACKSLASH: i32 = 0x005c;
pub const BAR: i32 = 0x007c;
pub const SLASH: i32 = 0x002f;
pub const QUESTION: i32 = 0x003f;
pub const SEMICOLON: i32 = 0x003b;
pub const COLON: i32 = 0x003a;
pub const COMMA: i32 = 0x002c;
pub const LESS: i32 = 0x003c;
pub const PERIOD: i32 = 0x002e;
pub const GREATER: i32 = 0x003e;
pub const APOSTROPHE: i32 = 0x0027;
pub const QUOTE_DBL: i32 = 0x0022;

// Numeric keypad zone.
pub const KP_DIVIDE: i32 = 0xffaf;
pub const KP_MULTIPLY: i32 = 0xffaa;
pub const KP_SUBTRACT: i32 = 0xffad;
pub const KP_EQUAL: i32 = 0xffbd;
pub const KP_ADD: i32 = 0xffab;
pub const KP_ENTER: i32 = 0xff8d;
pub const KP_DECIMAL: i32 = 0xffae;

pub const KP_0: i32 = 0xffb0;
pub const KP_9: i32 = 0xffb9;

// Editing, navigation and modifier keys.
pub const BACKSPACE: i32 = 0xff08;
pub const TAB: i32 = 0xff09;
pub const RETURN: i32 = 0xff0d;
pub const SPACE: i32 = 0x0020;
pub const LEFT: i32 = 0xff51;
pub const UP: i32 = 0xff52;
pub const RIGHT: i32 = 0xff53;
pub const DOWN: i32 = 0xff54;

pub const SHIFT_L: i32 = 0xffe1;
pub const SHIFT_R: i32 = 0xffe2;
pub const CONTROL_L: i32 = 0xffe3;
pub const CONTROL_R: i32 = 0xffe4;
pub const META_L: i32 = 0xffe7;
pub const META_R: i32 = 0xffe8;
pub const ALT_L: i32 = 0xffe9;
pub const ALT_R: i32 = 0xffea;
pub const ISO_LEVEL3_SHIFT: i32 = 0xfe03;

// Bits of the host's modifier bitmask.
pub const SHIFT_MASK: u32 = 0x1;
pub const LOCK_MASK: u32 = 0x2;
pub const CONTROL_MASK: u32 = 0x4;
pub const MOD1_MASK: u32 = 0x8;
pub const MOD2_MASK: u32 = 0x10;
pub const MOD3_MASK: u32 = 0x20;
pub const MOD4_MASK: u32 = 0x40;
pub const MOD5_MASK: u32 = 0x80;
pub const BUTTON1_MASK: u32 = 0x100;
pub const BUTTON2_MASK: u32 = 0x200;
pub const BUTTON3_MASK: u32 = 0x400;
pub const BUTTON4_MASK: u32 = 0x800;
pub const BUTTON5_MASK: u32 = 0x1000;
pub const HANDLED_MASK: u32 = 0x1000000;
pub const FORWARD_MASK: u32 = 0x2000000;
pub const SUPER_MASK: u32 = 0x4000000;
pub const HYPER_MASK: u32 = 0x8000000;
pub const META_MASK: u32 = 0x10000000;
pub const RELEASE_MASK: u32 = 0x40000000;

/// Every bit the host may set in a modifier bitmask; a bitmask with any
/// other bit set is a host contract violation and is never handed to the
/// dispatcher.
pub const KNOWN_MODIFIER_MASK: u32 = 0x5f001fff;

/// Whether the host's modifier bitmask holds only known bits.
pub open spec fn spec_valid_modifier_bits(m: u32) -> bool {
    m & !KNOWN_MODIFIER_MASK == 0
}

/// Checks a raw modifier bitmask before it may enter the dispatcher.
pub fn valid_modifier_bits(m: u32) -> (r: bool)
    ensures
        r == spec_valid_modifier_bits(m),
{
    m & !KNOWN_MODIFIER_MASK == 0
}

/// Whether the event is a key release.
pub open spec fn spec_is_release(m: u32) -> bool {
    m & RELEASE_MASK != 0
}

/// Whether the shift modifier is held.
pub open spec fn spec_has_shift(m: u32) -> bool {
    m & SHIFT_MASK != 0
}

/// Whether the control modifier is held.
pub open spec fn spec_has_control(m: u32) -> bool {
    m & CONTROL_MASK != 0
}

/// Whether the primary Alt modifier is held.
pub open spec fn spec_has_alt(m: u32) -> bool {
    m & MOD1_MASK != 0
}

} // verus!
