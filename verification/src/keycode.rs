//! Keycodes: the symbolic key a scancode names, the set-1 decoding table
//! (US layout), the printable byte of each key, and the modifier-key
//! bookkeeping.

use vstd::prelude::*;
use crate::keyboard::Scanset;

verus! {

pub const MOD_CONTROL_LEFT: u16 = 0x0001;

pub const MOD_CONTROL_RIGHT: u16 = 0x0002;

pub const MOD_ALT_LEFT: u16 = 0x0004;

pub const MOD_ALT_RIGHT: u16 = 0x0008;

pub const MOD_SHIFT_LEFT: u16 = 0x0010;

pub const MOD_SHIFT_RIGHT: u16 = 0x0020;

pub const MOD_META_LEFT: u16 = 0x0040;

pub const MOD_META_RIGHT: u16 = 0x0080;

pub const MOD_SUPER_LEFT: u16 = 0x0100;

pub const MOD_SUPER_RIGHT: u16 = 0x0200;

/// The set of modifier keys currently held, one bit per key.
#[derive(Clone, Copy, Debug, PartialEq, Eq, Hash, Structural)]
pub struct Mod {
    bits: u16,
}

impl Mod {
    pub closed spec fn view(&self) -> u16 {
        self.bits
    }

    /// No modifier held.
    pub fn empty() -> (r: Mod)
        ensures
            r@ == 0u16,
    {
        Mod { bits: 0 }
    }

    /// Records one modifier key going down or up.
    pub fn set_flag(&mut self, bit: u16, value: bool)
        ensures
            final(self)@ == if value {
                old(self)@ | bit
            } else {
                old(self)@ & !bit
            },
    {
        if value {
            self.bits = self.bits | bit;
        } else {
            self.bits = self.bits & !bit;
        }
    }

    /// Whether either control key is held.
    pub fn iscontrol(&self) -> (r: bool)
        ensures
            r == (self@ & (MOD_CONTROL_LEFT | MOD_CONTROL_RIGHT) != 0),
    {
        self.bits & (MOD_CONTROL_LEFT | MOD_CONTROL_RIGHT) != 0
    }

    /// Whether either alt key is held.
    pub fn isalt(&self) -> (r: bool)
        ensures
            r == (self@ & (MOD_ALT_LEFT | MOD_ALT_RIGHT) != 0),
    {
        self.bits & (MOD_ALT_LEFT | MOD_ALT_RIGHT) != 0
    }

    /// Whether either shift key is held.
    pub fn isshift(&self) -> (r: bool)
        ensures
            r == (self@ & (MOD_SHIFT_LEFT | MOD_SHIFT_RIGHT) != 0),
    {
        self.bits & (MOD_SHIFT_LEFT | MOD_SHIFT_RIGHT) != 0
    }

    /// Whether either meta key is held.
    pub fn ismeta(&self) -> (r: bool)
        ensures
            r == (self@ & (MOD_META_LEFT | MOD_META_RIGHT) != 0),
    {
        self.bits & (MOD_META_LEFT | MOD_META_RIGHT) != 0
    }

    /// Whether either super key is held.
    pub fn issuper(&self) -> (r: bool)
        ensures
            r == (self@ & (MOD_SUPER_LEFT | MOD_SUPER_RIGHT) != 0),
    {
        self.bits & (MOD_SUPER_LEFT | MOD_SUPER_RIGHT) != 0
    }
}

/// The symbolic keys this keyboard distinguishes.
#[derive(Clone, Copy, Debug, PartialEq, Eq, Hash, Structural)]
pub enum Keycode {
    Zero,
    One,
    Two,
    Three,
    Four,
    Five,
    Six,
    Seven,
    Eight,
    Nine,
    A,
    B,
    C,
    D,
    E,
    F,
    G,
    H,
    I,
    J,
    K,
    L,
    M,
    N,
    O,
    P,
    Q,
    R,
    S,
    T,
    U,
    V,
    W,
    X,
    Y,
    Z,
    Plus,
    Minus,
    Asterisk,
    Equal,
    Backslash,
    Slash,
    BracketLeft,
    BracketRight,
    Semicolon,
    Colon,
    SingleQuote,
    DoubleQuote,
    Backtick,
    Comma,
    Period,
    Enter,
    Space,
    Tab,
    Backspace,
    NumPlus,
    NumMinus,
    NumAsterisk,
    NumSlash,
    NumComma,
    NumPeriod,
    NumZero,
    NumOne,
    NumTwo,
    NumThree,
    NumFour,
    NumFive,
    NumSix,
    NumSeven,
    NumEight,
    NumNine,
    CapsLock,
    NumLock,
    ScrollLock,
    Escape,
    F1,
    F2,
    F3,
    F4,
    F5,
    F6,
    F7,
    F8,
    F9,
    F10,
    F11,
    F12,
    ControlLeft,
    ControlRight,
    AltLeft,
    AltRight,
    ShiftLeft,
    ShiftRight,
    MetaLeft,
    MetaRight,
    SuperLeft,
    SuperRight,
    Unknown,
}

/// The position of a keycode in declaration order, the index under which
/// the key's state and printable byte are kept.
pub open spec fn keycode_index(k: Keycode) -> u8 {
    match k {
        Keycode::Zero => 0,
        Keycode::One => 1,
        Keycode::Two => 2,
        Keycode::Three => 3,
        Keycode::Four => 4,
        Keycode::Five => 5,
        Keycode::Six => 6,
        Keycode::Seven => 7,
        Keycode::Eight => 8,
        Keycode::Nine => 9,
        Keycode::A => 10,
        Keycode::B => 11,
        Keycode::C => 12,
        Keycode::D => 13,
        Keycode::E => 14,
        Keycode::F => 15,
        Keycode::G => 16,
        Keycode::H => 17,
        Keycode::I => 18,
        Keycode::J => 19,
        Keycode::K => 20,
        Keycode::L => 21,
        Keycode::M => 22,
        Keycode::N => 23,
        Keycode::O => 24,
        Keycode::P => 25,
        Keycode::Q => 26,
        Keycode::R => 27,
        Keycode::S => 28,
        Keycode::T => 29,
        Keycode::U => 30,
        Keycode::V => 31,
        Keycode::W => 32,
        Keycode::X => 33,
        Keycode::Y => 34,
        Keycode::Z => 35,
        Keycode::Plus => 36,
        Keycode::Minus => 37,
        Keycode::Asterisk => 38,
        Keycode::Equal => 39,
        Keycode::Backslash => 40,
        Keycode::Slash => 41,
        Keycode::BracketLeft => 42,
        Keycode::BracketRight => 43,
        Keycode::Semicolon => 44,
        Keycode::Colon => 45,
        Keycode::SingleQuote => 46,
        Keycode::DoubleQuote => 47,
        Keycode::Backtick => 48,
        Keycode::Comma => 49,
        Keycode::Period => 50,
        Keycode::Enter => 51,
        Keycode::Space => 52,
        Keycode::Tab => 53,
        Keycode::Backspace => 54,
        Keycode::NumPlus => 55,
        Keycode::NumMinus => 56,
        Keycode::NumAsterisk => 57,
        Keycode::NumSlash => 58,
        Keycode::NumComma => 59,
        Keycode::NumPeriod => 60,
        Keycode::NumZero => 61,
        Keycode::NumOne => 62,
        Keycode::NumTwo => 63,
        Keycode::NumThree => 64,
        Keycode::NumFour => 65,
        Keycode::NumFive => 66,
        Keycode::NumSix => 67,
        Keycode::NumSeven => 68,
        Keycode::NumEight => 69,
        Keycode::NumNine => 70,
        Keycode::CapsLock => 71,
        Keycode::NumLock => 72,
        Keycode::ScrollLock => 73,
        Keycode::Escape => 74,
        Keycode::F1 => 75,
        Keycode::F2 => 76,
        Keycode::F3 => 77,
        Keycode::F4 => 78,
        Keycode::F5 => 79,
        Keycode::F6 => 80,
        Keycode::F7 => 81,
        Keycode::F8 => 82,
        Keycode::F9 => 83,
        Keycode::F10 => 84,
        Keycode::F11 => 85,
        Keycode::F12 => 86,
        Keycode::ControlLeft => 87,
        Keycode::ControlRight => 88,
        Keycode::AltLeft => 89,
        Keycode::AltRight => 90,
        Keycode::ShiftLeft => 91,
        Keycode::ShiftRight => 92,
        Keycode::MetaLeft => 93,
        Keycode::MetaRight => 94,
        Keycode::SuperLeft => 95,
        Keycode::SuperRight => 96,
        Keycode::Unknown => 97,
    }
}

/// Every keycode's index fits the 256-slot key-state table.
pub proof fn lemma_keycode_index_bound(k: Keycode)
    ensures
        keycode_index(k) < 98,
{
}

/// The modifier bit a key carries, if it is a modifier key.
pub open spec fn modifier_bit(k: Keycode) -> Option<u16> {
    match k {
        Keycode::ControlLeft => Some(MOD_CONTROL_LEFT),
        Keycode::ControlRight => Some(MOD_CONTROL_RIGHT),
        Keycode::AltLeft => Some(MOD_ALT_LEFT),
        Keycode::AltRight => Some(MOD_ALT_RIGHT),
        Keycode::ShiftLeft => Some(MOD_SHIFT_LEFT),
        Keycode::ShiftRight => Some(MOD_SHIFT_RIGHT),
        Keycode::MetaLeft => Some(MOD_META_LEFT),
        Keycode::MetaRight => Some(MOD_META_RIGHT),
        Keycode::SuperLeft => Some(MOD_SUPER_LEFT),
        Keycode::SuperRight => Some(MOD_SUPER_RIGHT),
        _ => None,
    }
}

/// The printable byte of a key, where it has one.
pub open spec fn spec_keycode_char(k: Keycode) -> Option<u8> {
    match k {
        Keycode::Zero => Some(48u8),
        Keycode::One => Some(49u8),
        Keycode::Two => Some(50u8),
        Keycode::Three => Some(51u8),
        Keycode::Four => Some(52u8),
        Keycode::Five => Some(53u8),
        Keycode::Six => Some(54u8),
        Keycode::Seven => Some(55u8),
        Keycode::Eight => Some(56u8),
        Keycode::Nine => Some(57u8),
        Keycode::A => Some(97u8),
        Keycode::B => Some(98u8),
        Keycode::C => Some(99u8),
        Keycode::D => Some(100u8),
        Keycode::E => Some(101u8),
        Keycode::F => Some(102u8),
        Keycode::G => Some(103u8),
        Keycode::H => Some(104u8),
        Keycode::I => Some(105u8),
        Keycode::J => Some(106u8),
        Keycode::K => Some(107u8),
        Keycode::L => Some(108u8),
        Keycode::M => Some(109u8),
        Keycode::N => Some(110u8),
        Keycode::O => Some(111u8),
        Keycode::P => Some(112u8),
        Keycode::Q => Some(113u8),
        Keycode::R => Some(114u8),
        Keycode::S => Some(115u8),
        Keycode::T => Some(116u8),
        Keycode::U => Some(117u8),
        Keycode::V => Some(118u8),
        Keycode::W => Some(119u8),
        Keycode::X => Some(120u8),
        Keycode::Y => Some(121u8),
        Keycode::Z => Some(122u8),
        Keycode::Plus => Some(43u8),
        Keycode::Minus => Some(45u8),
        Keycode::Asterisk => Some(42u8),
        Keycode::Equal => Some(61u8),
        Keycode::Backslash => Some(92u8),
        Keycode::Slash => Some(47u8),
        Keycode::BracketLeft => Some(91u8),
        Keycode::BracketRight => Some(93u8),
        Keycode::Semicolon => Some(59u8),
        Keycode::Colon => Some(58u8),
        Keycode::SingleQuote => Some(39u8),
        Keycode::DoubleQuote => Some(34u8),
        Keycode::Backtick => Some(96u8),
        Keycode::Comma => Some(44u8),
        Keycode::Period => Some(46u8),
        Keycode::Enter => Some(10u8),
        Keycode::Space => Some(32u8),
        Keycode::Tab => Some(9u8),
        Keycode::Backspace => Some(0x08),
        Keycode::NumPlus => Some(43u8),
        Keycode::NumMinus => Some(45u8),
        Keycode::NumAsterisk => Some(42u8),
        Keycode::NumSlash => Some(47u8),
        Keycode::NumComma => Some(44u8),
        Keycode::NumPeriod => Some(46u8),
        Keycode::NumZero => Some(48u8),
        Keycode::NumOne => Some(49u8),
        Keycode::NumTwo => Some(50u8),
        Keycode::NumThree => Some(51u8),
        Keycode::NumFour => Some(52u8),
        Keycode::NumFive => Some(53u8),
        Keycode::NumSix => Some(54u8),
        Keycode::NumSeven => Some(55u8),
        Keycode::NumEight => Some(56u8),
        Keycode::NumNine => Some(57u8),
        Keycode::CapsLock => None,
        Keycode::NumLock => None,
        Keycode::ScrollLock => None,
        Keycode::Escape => None,
        Keycode::F1 => None,
        Keycode::F2 => None,
        Keycode::F3 => None,
        Keycode::F4 => None,
        Keycode::F5 => None,
        Keycode::F6 => None,
        Keycode::F7 => None,
        Keycode::F8 => None,
        Keycode::F9 => None,
        Keycode::F10 => None,
        Keycode::F11 => None,
        Keycode::F12 => None,
        Keycode::ControlLeft => None,
        Keycode::ControlRight => None,
        Keycode::AltLeft => None,
        Keycode::AltRight => None,
        Keycode::ShiftLeft => None,
        Keycode::ShiftRight => None,
        Keycode::MetaLeft => None,
        Keycode::MetaRight => None,
        Keycode::SuperLeft => None,
        Keycode::SuperRight => None,
        Keycode::Unknown => None,
    }
}

/// The US-layout set-1 decoding table: which key a 7-bit make code names.
pub open spec fn spec_scanset1(code: u8) -> Keycode {
    if code == 1 {
        Keycode::Escape
    } else if code == 2 {
        Keycode::One
    } else if code == 3 {
        Keycode::Two
    } else if code == 4 {
        Keycode::Three
    } else if code == 5 {
        Keycode::Four
    } else if code == 6 {
        Keycode::Five
    } else if code == 7 {
        Keycode::Six
    } else if code == 8 {
        Keycode::Seven
    } else if code == 9 {
        Keycode::Eight
    } else if code == 10 {
        Keycode::Nine
    } else if code == 11 {
        Keycode::Zero
    } else if code == 12 {
        Keycode::Minus
    } else if code == 13 {
        Keycode::Equal
    } else if code == 14 {
        Keycode::Backspace
    } else if code == 15 {
        Keycode::Tab
    } else if code == 16 {
        Keycode::Q
    } else if code == 17 {
        Keycode::W
    } else if code == 18 {
        Keycode::E
    } else if code == 19 {
        Keycode::R
    } else if code == 20 {
        Keycode::T
    } else if code == 21 {
        Keycode::Y
    } else if code == 22 {
        Keycode::U
    } else if code == 23 {
        Keycode::I
    } else if code == 24 {
        Keycode::O
    } else if code == 25 {
        Keycode::P
    } else if code == 26 {
        Keycode::BracketLeft
    } else if code == 27 {
        Keycode::BracketRight
    } else if code == 28 {
        Keycode::Enter
    } else if code == 29 {
        Keycode::ControlLeft
    } else if code == 30 {
        Keycode::A
    } else if code == 31 {
        Keycode::S
    } else if code == 32 {
        Keycode::D
    } else if code == 33 {
        Keycode::F
    } else if code == 34 {
        Keycode::G
    } else if code == 35 {
        Keycode::H
    } else if code == 36 {
        Keycode::J
    } else if code == 37 {
        Keycode::K
    } else if code == 38 {
        Keycode::L
    } else if code == 39 {
        Keycode::Semicolon
    } else if code == 40 {
        Keycode::SingleQuote
    } else if code == 41 {
        Keycode::Backtick
    } else if code == 42 {
        Keycode::ShiftLeft
    } else if code == 43 {
        Keycode::Backslash
    } else if code == 44 {
        Keycode::Z
    } else if code == 45 {
        Keycode::X
    } else if code == 46 {
        Keycode::C
    } else if code == 47 {
        Keycode::V
    } else if code == 48 {
        Keycode::B
    } else if code == 49 {
        Keycode::N
    } else if code == 50 {
        Keycode::M
    } else if code == 51 {
        Keycode::Comma
    } else if code == 52 {
        Keycode::Period
    } else if code == 53 {
        Keycode::Slash
    } else if code == 54 {
        Keycode::ShiftRight
    } else if code == 55 {
        Keycode::NumAsterisk
    } else if code == 56 {
        Keycode::AltLeft
    } else if code == 57 {
        Keycode::Space
    } else if code == 58 {
        Keycode::CapsLock
    } else if code == 59 {
        Keycode::F1
    } else if code == 60 {
        Keycode::F2
    } else if code == 61 {
        Keycode::F3
    } else if code == 62 {
        Keycode::F4
    } else if code == 63 {
        Keycode::F5
    } else if code == 64 {
        Keycode::F6
    } else if code == 65 {
        Keycode::F7
    } else if code == 66 {
        Keycode::F8
    } else if code == 67 {
        Keycode::F9
    } else if code == 68 {
        Keycode::F10
    } else if code == 69 {
        Keycode::NumLock
    } else if code == 70 {
        Keycode::ScrollLock
    } else if code == 71 {
        Keycode::NumSeven
    } else if code == 72 {
        Keycode::NumEight
    } else if code == 73 {
        Keycode::NumNine
    } else if code == 74 {
        Keycode::NumMinus
    } else if code == 75 {
        Keycode::NumFour
    } else if code == 76 {
        Keycode::NumFive
    } else if code == 77 {
        Keycode::NumSix
    } else if code == 78 {
        Keycode::NumPlus
    } else if code == 79 {
        Keycode::NumOne
    } else if code == 80 {
        Keycode::NumTwo
    } else if code == 81 {
        Keycode::NumThree
    } else if code == 82 {
        Keycode::NumZero
    } else if code == 83 {
        Keycode::NumPeriod
    } else if code == 87 {
        Keycode::F11
    } else if code == 88 {
        Keycode::F12
    } else {
        Keycode::Unknown
    }
}

/// Looks a make code up in the set-1 table.
pub fn scanset1(code: u8) -> (r: Keycode)
    ensures
        r == spec_scanset1(code),
{
    match code {
        1 => Keycode::Escape,
        2 => Keycode::One,
        3 => Keycode::Two,
        4 => Keycode::Three,
        5 => Keycode::Four,
        6 => Keycode::Five,
        7 => Keycode::Six,
        8 => Keycode::Seven,
        9 => Keycode::Eight,
        10 => Keycode::Nine,
        11 => Keycode::Zero,
        12 => Keycode::Minus,
        13 => Keycode::Equal,
        14 => Keycode::Backspace,
        15 => Keycode::Tab,
        16 => Keycode::Q,
        17 => Keycode::W,
        18 => Keycode::E,
        19 => Keycode::R,
        20 => Keycode::T,
        21 => Keycode::Y,
        22 => Keycode::U,
        23 => Keycode::I,
        24 => Keycode::O,
        25 => Keycode::P,
        26 => Keycode::BracketLeft,
        27 => Keycode::BracketRight,
        28 => Keycode::Enter,
        29 => Keycode::ControlLeft,
        30 => Keycode::A,
        31 => Keycode::S,
        32 => Keycode::D,
        33 => Keycode::F,
        34 => Keycode::G,
        35 => Keycode::H,
        36 => Keycode::J,
        37 => Keycode::K,
        38 => Keycode::L,
        39 => Keycode::Semicolon,
        40 => Keycode::SingleQuote,
        41 => Keycode::Backtick,
        42 => Keycode::ShiftLeft,
        43 => Keycode::Backslash,
        44 => Keycode::Z,
        45 => Keycode::X,
        46 => Keycode::C,
        47 => Keycode::V,
        48 => Keycode::B,
        49 => Keycode::N,
        50 => Keycode::M,
        51 => Keycode::Comma,
        52 => Keycode::Period,
        53 => Keycode::Slash,
        54 => Keycode::ShiftRight,
        55 => Keycode::NumAsterisk,
        56 => Keycode::AltLeft,
        57 => Keycode::Space,
        58 => Keycode::CapsLock,
        59 => Keycode::F1,
        60 => Keycode::F2,
        61 => Keycode::F3,
        62 => Keycode::F4,
        63 => Keycode::F5,
        64 => Keycode::F6,
        65 => Keycode::F7,
        66 => Keycode::F8,
        67 => Keycode::F9,
        68 => Keycode::F10,
        69 => Keycode::NumLock,
        70 => Keycode::ScrollLock,
        71 => Keycode::NumSeven,
        72 => Keycode::NumEight,
        73 => Keycode::NumNine,
        74 => Keycode::NumMinus,
        75 => Keycode::NumFour,
        76 => Keycode::NumFive,
        77 => Keycode::NumSix,
        78 => Keycode::NumPlus,
        79 => Keycode::NumOne,
        80 => Keycode::NumTwo,
        81 => Keycode::NumThree,
        82 => Keycode::NumZero,
        83 => Keycode::NumPeriod,
        87 => Keycode::F11,
        88 => Keycode::F12,
        _ => Keycode::Unknown,
    }
}

impl Keycode {
    /// Decodes a scancode with the default scanset.
    pub fn from_scancode(code: [u8; 8]) -> (r: Keycode)
        requires
            code[0] != 0xe0,
            code[0] != 0xe1,
        ensures
            r == spec_scanset1(if code[0] >= 0x80 {
                (code[0] - 0x80) as u8
            } else {
                code[0]
            }),
    {
        Keycode::from_scancode_with_scanset(code, Scanset::default())
    }

    /// Decodes a scancode: the first byte, with the release bit dropped,
    /// names the key. Multi-byte codes (0xe0/0xe1 prefixes) are not
    /// decoded by this table and are excluded.
    pub fn from_scancode_with_scanset(scancode: [u8; 8], _set: Scanset) -> (r: Keycode)
        requires
            scancode[0] != 0xe0,
            scancode[0] != 0xe1,
        ensures
            r == spec_scanset1(if scancode[0] >= 0x80 {
                (scancode[0] - 0x80) as u8
            } else {
                scancode[0]
            }),
    {
        let byte = scancode[0];
        if byte >= 0x80 {
            scanset1(byte - 0x80)
        } else {
            scanset1(byte)
        }
    }

    /// The key's position in declaration order; unique per key.
    pub fn as_byte(&self) -> (r: u8)
        ensures
            r == keycode_index(*self),
    {
        match *self {
            Keycode::Zero => 0,
            Keycode::One => 1,
            Keycode::Two => 2,
            Keycode::Three => 3,
            Keycode::Four => 4,
            Keycode::Five => 5,
            Keycode::Six => 6,
            Keycode::Seven => 7,
            Keycode::Eight => 8,
            Keycode::Nine => 9,
            Keycode::A => 10,
            Keycode::B => 11,
            Keycode::C => 12,
            Keycode::D => 13,
            Keycode::E => 14,
            Keycode::F => 15,
            Keycode::G => 16,
            Keycode::H => 17,
            Keycode::I => 18,
            Keycode::J => 19,
            Keycode::K => 20,
            Keycode::L => 21,
            Keycode::M => 22,
            Keycode::N => 23,
            Keycode::O => 24,
            Keycode::P => 25,
            Keycode::Q => 26,
            Keycode::R => 27,
            Keycode::S => 28,
            Keycode::T => 29,
            Keycode::U => 30,
            Keycode::V => 31,
            Keycode::W => 32,
            Keycode::X => 33,
            Keycode::Y => 34,
            Keycode::Z => 35,
            Keycode::Plus => 36,
            Keycode::Minus => 37,
            Keycode::Asterisk => 38,
            Keycode::Equal => 39,
            Keycode::Backslash => 40,
            Keycode::Slash => 41,
            Keycode::BracketLeft => 42,
            Keycode::BracketRight => 43,
            Keycode::Semicolon => 44,
            Keycode::Colon => 45,
            Keycode::SingleQuote => 46,
            Keycode::DoubleQuote => 47,
            Keycode::Backtick => 48,
            Keycode::Comma => 49,
            Keycode::Period => 50,
            Keycode::Enter => 51,
            Keycode::Space => 52,
            Keycode::Tab => 53,
            Keycode::Backspace => 54,
            Keycode::NumPlus => 55,
            Keycode::NumMinus => 56,
            Keycode::NumAsterisk => 57,
            Keycode::NumSlash => 58,
            Keycode::NumComma => 59,
            Keycode::NumPeriod => 60,
            Keycode::NumZero => 61,
            Keycode::NumOne => 62,
            Keycode::NumTwo => 63,
            Keycode::NumThree => 64,
            Keycode::NumFour => 65,
            Keycode::NumFive => 66,
            Keycode::NumSix => 67,
            Keycode::NumSeven => 68,
            Keycode::NumEight => 69,
            Keycode::NumNine => 70,
            Keycode::CapsLock => 71,
            Keycode::NumLock => 72,
            Keycode::ScrollLock => 73,
            Keycode::Escape => 74,
            Keycode::F1 => 75,
            Keycode::F2 => 76,
            Keycode::F3 => 77,
            Keycode::F4 => 78,
            Keycode::F5 => 79,
            Keycode::F6 => 80,
            Keycode::F7 => 81,
            Keycode::F8 => 82,
            Keycode::F9 => 83,
            Keycode::F10 => 84,
            Keycode::F11 => 85,
            Keycode::F12 => 86,
            Keycode::ControlLeft => 87,
            Keycode::ControlRight => 88,
            Keycode::AltLeft => 89,
            Keycode::AltRight => 90,
            Keycode::ShiftLeft => 91,
            Keycode::ShiftRight => 92,
            Keycode::MetaLeft => 93,
            Keycode::MetaRight => 94,
            Keycode::SuperLeft => 95,
            Keycode::SuperRight => 96,
            Keycode::Unknown => 97,
        }
    }

    /// The key's printable byte, if it has one.
    pub fn into_char(self) -> (r: Option<u8>)
        ensures
            r == spec_keycode_char(self),
    {
        match self {
            Keycode::Zero => Some(48u8),
            Keycode::One => Some(49u8),
            Keycode::Two => Some(50u8),
            Keycode::Three => Some(51u8),
            Keycode::Four => Some(52u8),
            Keycode::Five => Some(53u8),
            Keycode::Six => Some(54u8),
            Keycode::Seven => Some(55u8),
            Keycode::Eight => Some(56u8),
            Keycode::Nine => Some(57u8),
            Keycode::A => Some(97u8),
            Keycode::B => Some(98u8),
            Keycode::C => Some(99u8),
            Keycode::D => Some(100u8),
            Keycode::E => Some(101u8),
            Keycode::F => Some(102u8),
            Keycode::G => Some(103u8),
            Keycode::H => Some(104u8),
            Keycode::I => Some(105u8),
            Keycode::J => Some(106u8),
            Keycode::K => Some(107u8),
            Keycode::L => Some(108u8),
            Keycode::M => Some(109u8),
            Keycode::N => Some(110u8),
            Keycode::O => Some(111u8),
            Keycode::P => Some(112u8),
            Keycode::Q => Some(113u8),
            Keycode::R => Some(114u8),
            Keycode::S => Some(115u8),
            Keycode::T => Some(116u8),
            Keycode::U => Some(117u8),
            Keycode::V => Some(118u8),
            Keycode::W => Some(119u8),
            Keycode::X => Some(120u8),
            Keycode::Y => Some(121u8),
            Keycode::Z => Some(122u8),
            Keycode::Plus => Some(43u8),
            Keycode::Minus => Some(45u8),
            Keycode::Asterisk => Some(42u8),
            Keycode::Equal => Some(61u8),
            Keycode::Backslash => Some(92u8),
            Keycode::Slash => Some(47u8),
            Keycode::BracketLeft => Some(91u8),
            Keycode::BracketRight => Some(93u8),
            Keycode::Semicolon => Some(59u8),
            Keycode::Colon => Some(58u8),
            Keycode::SingleQuote => Some(39u8),
            Keycode::DoubleQuote => Some(34u8),
            Keycode::Backtick => Some(96u8),
            Keycode::Comma => Some(44u8),
            Keycode::Period => Some(46u8),
            Keycode::Enter => Some(10u8),
            Keycode::Space => Some(32u8),
            Keycode::Tab => Some(9u8),
            Keycode::Backspace => Some(0x08),
            Keycode::NumPlus => Some(43u8),
            Keycode::NumMinus => Some(45u8),
            Keycode::NumAsterisk => Some(42u8),
            Keycode::NumSlash => Some(47u8),
            Keycode::NumComma => Some(44u8),
            Keycode::NumPeriod => Some(46u8),
            Keycode::NumZero => Some(48u8),
            Keycode::NumOne => Some(49u8),
            Keycode::NumTwo => Some(50u8),
            Keycode::NumThree => Some(51u8),
            Keycode::NumFour => Some(52u8),
            Keycode::NumFive => Some(53u8),
            Keycode::NumSix => Some(54u8),
            Keycode::NumSeven => Some(55u8),
            Keycode::NumEight => Some(56u8),
            Keycode::NumNine => Some(57u8),
            Keycode::CapsLock => None,
            Keycode::NumLock => None,
            Keycode::ScrollLock => None,
            Keycode::Escape => None,
            Keycode::F1 => None,
            Keycode::F2 => None,
            Keycode::F3 => None,
            Keycode::F4 => None,
            Keycode::F5 => None,
            Keycode::F6 => None,
            Keycode::F7 => None,
            Keycode::F8 => None,
            Keycode::F9 => None,
            Keycode::F10 => None,
            Keycode::F11 => None,
            Keycode::F12 => None,
            Keycode::ControlLeft => None,
            Keycode::ControlRight => None,
            Keycode::AltLeft => None,
            Keycode::AltRight => None,
            Keycode::ShiftLeft => None,
            Keycode::ShiftRight => None,
            Keycode::MetaLeft => None,
            Keycode::MetaRight => None,
            Keycode::SuperLeft => None,
            Keycode::SuperRight => None,
            Keycode::Unknown => None,
        }
    }
}

} // verus!
