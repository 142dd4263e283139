use vstd::prelude::*;

verus! {

/// Default values for hardware keyboard keys.
///
/// Taken from the USB HID Usage Tables document at
/// https://usb.org/sites/default/files/hut1_22.pdf.
///
/// Each variant stands for one physical key position and owns a fixed
/// numeric identity, its USB HID usage code: `usage` gives it in
/// specifications, `usage_code` at run time, and `from_i64` and its
/// siblings convert an identity back to the variant that owns it.
#[derive(Copy, Clone, Debug, Eq, Hash, Ord, PartialEq, PartialOrd, Structural)]
pub enum Scancode {
    A,
    B,
    C,
    D,
    E,
    F,
    G,
    H,
    I,
    J,
    K,
    L,
    M,
    N,
    O,
    P,
    Q,
    R,
    S,
    T,
    U,
    V,
    W,
    X,
    Y,
    Z,
    Num1,
    Num2,
    Num3,
    Num4,
    Num5,
    Num6,
    Num7,
    Num8,
    Num9,
    Num0,
    Enter,
    Escape,
    Backspace,
    Tab,
    Space,
    Minus,
    Equals,
    LeftBracket,
    RightBracket,
    Backslash,
    NonUsHash,
    Semicolon,
    Apostrophe,
    Grave,
    Comma,
    Period,
    Slash,
    CapsLock,
    F1,
    F2,
    F3,
    F4,
    F5,
    F6,
    F7,
    F8,
    F9,
    F10,
    F11,
    F12,
    PrintScreen,
    ScrollLock,
    Pause,
    Insert,
    Home,
    PageUp,
    Delete,
    End,
    PageDown,
    Right,
    Left,
    Down,
    Up,
    NumLock,
    PadDivide,
    PadMultiply,
    PadMinus,
    PadPlus,
    PadEnter,
    Pad1,
    Pad2,
    Pad3,
    Pad4,
    Pad5,
    Pad6,
    Pad7,
    Pad8,
    Pad9,
    Pad0,
    PadDecimal,
    NonUsBackslash,
    PadEquals,
    Menu,
    Mute,
    VolumeUp,
    VolumeDown,
    SysReq,
    LeftControl,
    LeftShift,
    LeftAlt,
    LeftGui,
    RightControl,
    RightShift,
    RightAlt,
    RightGui,
}

/// The key whose USB HID usage code is `value`, if the enumeration has
/// one: the inverse of `Scancode::usage`.
pub open spec fn from_usage(value: int) -> Option<Scancode> {
    if value == 4 { Some(Scancode::A)
    } else if value == 5 { Some(Scancode::B)
    } else if value == 6 { Some(Scancode::C)
    } else if value == 7 { Some(Scancode::D)
    } else if value == 8 { Some(Scancode::E)
    } else if value == 9 { Some(Scancode::F)
    } else if value == 10 { Some(Scancode::G)
    } else if value == 11 { Some(Scancode::H)
    } else if value == 12 { Some(Scancode::I)
    } else if value == 13 { Some(Scancode::J)
    } else if value == 14 { Some(Scancode::K)
    } else if value == 15 { Some(Scancode::L)
    } else if value == 16 { Some(Scancode::M)
    } else if value == 17 { Some(Scancode::N)
    } else if value == 18 { Some(Scancode::O)
    } else if value == 19 { Some(Scancode::P)
    } else if value == 20 { Some(Scancode::Q)
    } else if value == 21 { Some(Scancode::R)
    } else if value == 22 { Some(Scancode::S)
    } else if value == 23 { Some(Scancode::T)
    } else if value == 24 { Some(Scancode::U)
    } else if value == 25 { Some(Scancode::V)
    } else if value == 26 { Some(Scancode::W)
    } else if value == 27 { Some(Scancode::X)
    } else if value == 28 { Some(Scancode::Y)
    } else if value == 29 { Some(Scancode::Z)
    } else if value == 30 { Some(Scancode::Num1)
    } else if value == 31 { Some(Scancode::Num2)
    } else if value == 32 { Some(Scancode::Num3)
    } else if value == 33 { Some(Scancode::Num4)
    } else if value == 34 { Some(Scancode::Num5)
    } else if value == 35 { Some(Scancode::Num6)
    } else if value == 36 { Some(Scancode::Num7)
    } else if value == 37 { Some(Scancode::Num8)
    } else if value == 38 { Some(Scancode::Num9)
    } else if value == 39 { Some(Scancode::Num0)
    } else if value == 40 { Some(Scancode::Enter)
    } else if value == 41 { Some(Scancode::Escape)
    } else if value == 42 { Some(Scancode::Backspace)
    } else if value == 43 { Some(Scancode::Tab)
    } else if value == 44 { Some(Scancode::Space)
    } else if value == 45 { Some(Scancode::Minus)
    } else if value == 46 { Some(Scancode::Equals)
    } else if value == 47 { Some(Scancode::LeftBracket)
    } else if value == 48 { Some(Scancode::RightBracket)
    } else if value == 49 { Some(Scancode::Backslash)
    } else if value == 50 { Some(Scancode::NonUsHash)
    } else if value == 51 { Some(Scancode::Semicolon)
    } else if value == 52 { Some(Scancode::Apostrophe)
    } else if value == 53 { Some(Scancode::Grave)
    } else if value == 54 { Some(Scancode::Comma)
    } else if value == 55 { Some(Scancode::Period)
    } else if value == 56 { Some(Scancode::Slash)
    } else if value == 57 { Some(Scancode::CapsLock)
    } else if value == 58 { Some(Scancode::F1)
    } else if value == 59 { Some(Scancode::F2)
    } else if value == 60 { Some(Scancode::F3)
    } else if value == 61 { Some(Scancode::F4)
    } else if value == 62 { Some(Scancode::F5)
    } else if value == 63 { Some(Scancode::F6)
    } else if value == 64 { Some(Scancode::F7)
    } else if value == 65 { Some(Scancode::F8)
    } else if value == 66 { Some(Scancode::F9)
    } else if value == 67 { Some(Scancode::F10)
    } else if value == 68 { Some(Scancode::F11)
    } else if value == 69 { Some(Scancode::F12)
    } else if value == 70 { Some(Scancode::PrintScreen)
    } else if value == 71 { Some(Scancode::ScrollLock)
    } else if value == 72 { Some(Scancode::Pause)
    } else if value == 73 { Some(Scancode::Insert)
    } else if value == 74 { Some(Scancode::Home)
    } else if value == 75 { Some(Scancode::PageUp)
    } else if value == 76 { Some(Scancode::Delete)
    } else if value == 77 { Some(Scancode::End)
    } else if value == 78 { Some(Scancode::PageDown)
    } else if value == 79 { Some(Scancode::Right)
    } else if value == 80 { Some(Scancode::Left)
    } else if value == 81 { Some(Scancode::Down)
    } else if value == 82 { Some(Scancode::Up)
    } else if value == 83 { Some(Scancode::NumLock)
    } else if value == 84 { Some(Scancode::PadDivide)
    } else if value == 85 { Some(Scancode::PadMultiply)
    } else if value == 86 { Some(Scancode::PadMinus)
    } else if value == 87 { Some(Scancode::PadPlus)
    } else if value == 88 { Some(Scancode::PadEnter)
    } else if value == 89 { Some(Scancode::Pad1)
    } else if value == 90 { Some(Scancode::Pad2)
    } else if value == 91 { Some(Scancode::Pad3)
    } else if value == 92 { Some(Scancode::Pad4)
    } else if value == 93 { Some(Scancode::Pad5)
    } else if value == 94 { Some(Scancode::Pad6)
    } else if value == 95 { Some(Scancode::Pad7)
    } else if value == 96 { Some(Scancode::Pad8)
    } else if value == 97 { Some(Scancode::Pad9)
    } else if value == 98 { Some(Scancode::Pad0)
    } else if value == 99 { Some(Scancode::PadDecimal)
    } else if value == 100 { Some(Scancode::NonUsBackslash)
    } else if value == 103 { Some(Scancode::PadEquals)
    } else if value == 118 { Some(Scancode::Menu)
    } else if value == 127 { Some(Scancode::Mute)
    } else if value == 128 { Some(Scancode::VolumeUp)
    } else if value == 129 { Some(Scancode::VolumeDown)
    } else if value == 154 { Some(Scancode::SysReq)
    } else if value == 224 { Some(Scancode::LeftControl)
    } else if value == 225 { Some(Scancode::LeftShift)
    } else if value == 226 { Some(Scancode::LeftAlt)
    } else if value == 227 { Some(Scancode::LeftGui)
    } else if value == 228 { Some(Scancode::RightControl)
    } else if value == 229 { Some(Scancode::RightShift)
    } else if value == 230 { Some(Scancode::RightAlt)
    } else if value == 231 { Some(Scancode::RightGui)
    } else { None }
}

impl Scancode {
    /// The fixed numeric identity of this key: its USB HID usage code.
    pub open spec fn usage(self) -> int {
        match self {
            Scancode::A => 4,
            Scancode::B => 5,
            Scancode::C => 6,
            Scancode::D => 7,
            Scancode::E => 8,
            Scancode::F => 9,
            Scancode::G => 10,
            Scancode::H => 11,
            Scancode::I => 12,
            Scancode::J => 13,
            Scancode::K => 14,
            Scancode::L => 15,
            Scancode::M => 16,
            Scancode::N => 17,
            Scancode::O => 18,
            Scancode::P => 19,
            Scancode::Q => 20,
            Scancode::R => 21,
            Scancode::S => 22,
            Scancode::T => 23,
            Scancode::U => 24,
            Scancode::V => 25,
            Scancode::W => 26,
            Scancode::X => 27,
            Scancode::Y => 28,
            Scancode::Z => 29,
            Scancode::Num1 => 30,
            Scancode::Num2 => 31,
            Scancode::Num3 => 32,
            Scancode::Num4 => 33,
            Scancode::Num5 => 34,
            Scancode::Num6 => 35,
            Scancode::Num7 => 36,
            Scancode::Num8 => 37,
            Scancode::Num9 => 38,
            Scancode::Num0 => 39,
            Scancode::Enter => 40,
            Scancode::Escape => 41,
            Scancode::Backspace => 42,
            Scancode::Tab => 43,
            Scancode::Space => 44,
            Scancode::Minus => 45,
            Scancode::Equals => 46,
            Scancode::LeftBracket => 47,
            Scancode::RightBracket => 48,
            Scancode::Backslash => 49,
            Scancode::NonUsHash => 50,
            Scancode::Semicolon => 51,
            Scancode::Apostrophe => 52,
            Scancode::Grave => 53,
            Scancode::Comma => 54,
            Scancode::Period => 55,
            Scancode::Slash => 56,
            Scancode::CapsLock => 57,
            Scancode::F1 => 58,
            Scancode::F2 => 59,
            Scancode::F3 => 60,
            Scancode::F4 => 61,
            Scancode::F5 => 62,
            Scancode::F6 => 63,
            Scancode::F7 => 64,
            Scancode::F8 => 65,
            Scancode::F9 => 66,
            Scancode::F10 => 67,
            Scancode::F11 => 68,
            Scancode::F12 => 69,
            Scancode::PrintScreen => 70,
            Scancode::ScrollLock => 71,
            Scancode::Pause => 72,
            Scancode::Insert => 73,
            Scancode::Home => 74,
            Scancode::PageUp => 75,
            Scancode::Delete => 76,
            Scancode::End => 77,
            Scancode::PageDown => 78,
            Scancode::Right => 79,
            Scancode::Left => 80,
            Scancode::Down => 81,
            Scancode::Up => 82,
            Scancode::NumLock => 83,
            Scancode::PadDivide => 84,
            Scancode::PadMultiply => 85,
            Scancode::PadMinus => 86,
            Scancode::PadPlus => 87,
            Scancode::PadEnter => 88,
            Scancode::Pad1 => 89,
            Scancode::Pad2 => 90,
            Scancode::Pad3 => 91,
            Scancode::Pad4 => 92,
            Scancode::Pad5 => 93,
            Scancode::Pad6 => 94,
            Scancode::Pad7 => 95,
            Scancode::Pad8 => 96,
            Scancode::Pad9 => 97,
            Scancode::Pad0 => 98,
            Scancode::PadDecimal => 99,
            Scancode::NonUsBackslash => 100,
            Scancode::PadEquals => 103,
            Scancode::Menu => 118,
            Scancode::Mute => 127,
            Scancode::VolumeUp => 128,
            Scancode::VolumeDown => 129,
            Scancode::SysReq => 154,
            Scancode::LeftControl => 224,
            Scancode::LeftShift => 225,
            Scancode::LeftAlt => 226,
            Scancode::LeftGui => 227,
            Scancode::RightControl => 228,
            Scancode::RightShift => 229,
            Scancode::RightAlt => 230,
            Scancode::RightGui => 231,
        }
    }

    /// The numeric identity of this key at run time; agrees with `usage`.
    pub fn usage_code(self) -> (code: u8)
        ensures
            code as int == self.usage(),
    {
        match self {
            Scancode::A => 4,
            Scancode::B => 5,
            Scancode::C => 6,
            Scancode::D => 7,
            Scancode::E => 8,
            Scancode::F => 9,
            Scancode::G => 10,
            Scancode::H => 11,
            Scancode::I => 12,
            Scancode::J => 13,
            Scancode::K => 14,
            Scancode::L => 15,
            Scancode::M => 16,
            Scancode::N => 17,
            Scancode::O => 18,
            Scancode::P => 19,
            Scancode::Q => 20,
            Scancode::R => 21,
            Scancode::S => 22,
            Scancode::T => 23,
            Scancode::U => 24,
            Scancode::V => 25,
            Scancode::W => 26,
            Scancode::X => 27,
            Scancode::Y => 28,
            Scancode::Z => 29,
            Scancode::Num1 => 30,
            Scancode::Num2 => 31,
            Scancode::Num3 => 32,
            Scancode::Num4 => 33,
            Scancode::Num5 => 34,
            Scancode::Num6 => 35,
            Scancode::Num7 => 36,
            Scancode::Num8 => 37,
            Scancode::Num9 => 38,
            Scancode::Num0 => 39,
            Scancode::Enter => 40,
            Scancode::Escape => 41,
            Scancode::Backspace => 42,
            Scancode::Tab => 43,
            Scancode::Space => 44,
            Scancode::Minus => 45,
            Scancode::Equals => 46,
            Scancode::LeftBracket => 47,
            Scancode::RightBracket => 48,
            Scancode::Backslash => 49,
            Scancode::NonUsHash => 50,
            Scancode::Semicolon => 51,
            Scancode::Apostrophe => 52,
            Scancode::Grave => 53,
            Scancode::Comma => 54,
            Scancode::Period => 55,
            Scancode::Slash => 56,
            Scancode::CapsLock => 57,
            Scancode::F1 => 58,
            Scancode::F2 => 59,
            Scancode::F3 => 60,
            Scancode::F4 => 61,
            Scancode::F5 => 62,
            Scancode::F6 => 63,
            Scancode::F7 => 64,
            Scancode::F8 => 65,
            Scancode::F9 => 66,
            Scancode::F10 => 67,
            Scancode::F11 => 68,
            Scancode::F12 => 69,
            Scancode::PrintScreen => 70,
            Scancode::ScrollLock => 71,
            Scancode::Pause => 72,
            Scancode::Insert => 73,
            Scancode::Home => 74,
            Scancode::PageUp => 75,
            Scancode::Delete => 76,
            Scancode::End => 77,
            Scancode::PageDown => 78,
            Scancode::Right => 79,
            Scancode::Left => 80,
            Scancode::Down => 81,
            Scancode::Up => 82,
            Scancode::NumLock => 83,
            Scancode::PadDivide => 84,
            Scancode::PadMultiply => 85,
            Scancode::PadMinus => 86,
            Scancode::PadPlus => 87,
            Scancode::PadEnter => 88,
            Scancode::Pad1 => 89,
            Scancode::Pad2 => 90,
            Scancode::Pad3 => 91,
            Scancode::Pad4 => 92,
            Scancode::Pad5 => 93,
            Scancode::Pad6 => 94,
            Scancode::Pad7 => 95,
            Scancode::Pad8 => 96,
            Scancode::Pad9 => 97,
            Scancode::Pad0 => 98,
            Scancode::PadDecimal => 99,
            Scancode::NonUsBackslash => 100,
            Scancode::PadEquals => 103,
            Scancode::Menu => 118,
            Scancode::Mute => 127,
            Scancode::VolumeUp => 128,
            Scancode::VolumeDown => 129,
            Scancode::SysReq => 154,
            Scancode::LeftControl => 224,
            Scancode::LeftShift => 225,
            Scancode::LeftAlt => 226,
            Scancode::LeftGui => 227,
            Scancode::RightControl => 228,
            Scancode::RightShift => 229,
            Scancode::RightAlt => 230,
            Scancode::RightGui => 231,
        }
    }

    /// Convert a USB HID usage code into the key that owns it, or `None`
    /// where no key carries that identity.
    pub fn from_u64(value: u64) -> (key: Option<Scancode>)
        ensures
            key == from_usage(value as int),
    {
        match value {
            4 => Some(Scancode::A),
            5 => Some(Scancode::B),
            6 => Some(Scancode::C),
            7 => Some(Scancode::D),
            8 => Some(Scancode::E),
            9 => Some(Scancode::F),
            10 => Some(Scancode::G),
            11 => Some(Scancode::H),
            12 => Some(Scancode::I),
            13 => Some(Scancode::J),
            14 => Some(Scancode::K),
            15 => Some(Scancode::L),
            16 => Some(Scancode::M),
            17 => Some(Scancode::N),
            18 => Some(Scancode::O),
            19 => Some(Scancode::P),
            20 => Some(Scancode::Q),
            21 => Some(Scancode::R),
            22 => Some(Scancode::S),
            23 => Some(Scancode::T),
            24 => Some(Scancode::U),
            25 => Some(Scancode::V),
            26 => Some(Scancode::W),
            27 => Some(Scancode::X),
            28 => Some(Scancode::Y),
            29 => Some(Scancode::Z),
            30 => Some(Scancode::Num1),
            31 => Some(Scancode::Num2),
            32 => Some(Scancode::Num3),
            33 => Some(Scancode::Num4),
            34 => Some(Scancode::Num5),
            35 => Some(Scancode::Num6),
            36 => Some(Scancode::Num7),
            37 => Some(Scancode::Num8),
            38 => Some(Scancode::Num9),
            39 => Some(Scancode::Num0),
            40 => Some(Scancode::Enter),
            41 => Some(Scancode::Escape),
            42 => Some(Scancode::Backspace),
            43 => Some(Scancode::Tab),
            44 => Some(Scancode::Space),
            45 => Some(Scancode::Minus),
            46 => Some(Scancode::Equals),
            47 => Some(Scancode::LeftBracket),
            48 => Some(Scancode::RightBracket),
            49 => Some(Scancode::Backslash),
            50 => Some(Scancode::NonUsHash),
            51 => Some(Scancode::Semicolon),
            52 => Some(Scancode::Apostrophe),
            53 => Some(Scancode::Grave),
            54 => Some(Scancode::Comma),
            55 => Some(Scancode::Period),
            56 => Some(Scancode::Slash),
            57 => Some(Scancode::CapsLock),
            58 => Some(Scancode::F1),
            59 => Some(Scancode::F2),
            60 => Some(Scancode::F3),
            61 => Some(Scancode::F4),
            62 => Some(Scancode::F5),
            63 => Some(Scancode::F6),
            64 => Some(Scancode::F7),
            65 => Some(Scancode::F8),
            66 => Some(Scancode::F9),
            67 => Some(Scancode::F10),
            68 => Some(Scancode::F11),
            69 => Some(Scancode::F12),
            70 => Some(Scancode::PrintScreen),
            71 => Some(Scancode::ScrollLock),
            72 => Some(Scancode::Pause),
            73 => Some(Scancode::Insert),
            74 => Some(Scancode::Home),
            75 => Some(Scancode::PageUp),
            76 => Some(Scancode::Delete),
            77 => Some(Scancode::End),
            78 => Some(Scancode::PageDown),
            79 => Some(Scancode::Right),
            80 => Some(Scancode::Left),
            81 => Some(Scancode::Down),
            82 => Some(Scancode::Up),
            83 => Some(Scancode::NumLock),
            84 => Some(Scancode::PadDivide),
            85 => Some(Scancode::PadMultiply),
            86 => Some(Scancode::PadMinus),
            87 => Some(Scancode::PadPlus),
            88 => Some(Scancode::PadEnter),
            89 => Some(Scancode::Pad1),
            90 => Some(Scancode::Pad2),
            91 => Some(Scancode::Pad3),
            92 => Some(Scancode::Pad4),
            93 => Some(Scancode::Pad5),
            94 => Some(Scancode::Pad6),
            95 => Some(Scancode::Pad7),
            96 => Some(Scancode::Pad8),
            97 => Some(Scancode::Pad9),
            98 => Some(Scancode::Pad0),
            99 => Some(Scancode::PadDecimal),
            100 => Some(Scancode::NonUsBackslash),
            103 => Some(Scancode::PadEquals),
            118 => Some(Scancode::Menu),
            127 => Some(Scancode::Mute),
            128 => Some(Scancode::VolumeUp),
            129 => Some(Scancode::VolumeDown),
            154 => Some(Scancode::SysReq),
            224 => Some(Scancode::LeftControl),
            225 => Some(Scancode::LeftShift),
            226 => Some(Scancode::LeftAlt),
            227 => Some(Scancode::LeftGui),
            228 => Some(Scancode::RightControl),
            229 => Some(Scancode::RightShift),
            230 => Some(Scancode::RightAlt),
            231 => Some(Scancode::RightGui),
            _ => None,
        }
    }

    /// Convert a USB HID usage code into the key that owns it, or `None`
    /// where no key carries that identity.
    pub fn from_i64(value: i64) -> (key: Option<Scancode>)
        ensures
            key == from_usage(value as int),
    {
        if value >= 0 {
            Scancode::from_u64(value as u64)
        } else {
            None
        }
    }

    /// Convert a USB HID usage code into the key that owns it, or `None`
    /// where no key carries that identity.
    pub fn from_u32(value: u32) -> (key: Option<Scancode>)
        ensures
            key == from_usage(value as int),
    {
        Scancode::from_u64(value as u64)
    }

    /// Convert a USB HID usage code into the key that owns it, or `None`
    /// where no key carries that identity.
    pub fn from_i32(value: i32) -> (key: Option<Scancode>)
        ensures
            key == from_usage(value as int),
    {
        Scancode::from_i64(value as i64)
    }
}

/// Round trip: every key's numeric identity converts back to exactly
/// that key.
pub proof fn lemma_usage_round_trip(key: Scancode)
    ensures
        from_usage(key.usage()) == Some(key),
{
}

/// A value that converts to a key is that key's own numeric identity;
/// every other value converts to `None`.
pub proof fn lemma_from_usage_sound(value: int)
    ensures
        from_usage(value) matches Some(key) ==> key.usage() == value,
{
}

/// Numeric identities are globally unique within the enumeration.
pub proof fn lemma_usage_unique(key1: Scancode, key2: Scancode)
    requires
        key1.usage() == key2.usage(),
    ensures
        key1 == key2,
{
    lemma_usage_round_trip(key1);
    lemma_usage_round_trip(key2);
}

/// Every identity lies within the USB HID keyboard usage range.
pub proof fn lemma_usage_in_range(key: Scancode)
    ensures
        4 <= key.usage() <= 231,
{
}

} // verus!
