use vstd::prelude::*;

use crate::keys::Scancode;
use crate::keys::from_usage;
use crate::keys::lemma_from_usage_sound;
use crate::keys::lemma_usage_in_range;
use crate::keys::lemma_usage_round_trip;

verus! {

/// The platform families whose native scancode numbering schemes a
/// translation table is written for. `Unsupported` stands for any other
/// build target and carries the empty table, so that translation there
/// degrades to "always absent" instead of failing.
#[derive(Copy, Clone, Debug, Eq, PartialEq, Structural)]
pub enum Platform {
    Unix,
    MacOs,
    Windows,
    Unsupported,
}

/// The length of a platform's translation table: one past the highest
/// native code that the platform is known to emit with a defined mapping.
pub open spec fn table_len(platform: Platform) -> int {
    match platform {
        Platform::Unix => 232,
        Platform::MacOs => 127,
        Platform::Windows => 89,
        Platform::Unsupported => 0,
    }
}

/// The slot of the Unix/Linux-style table at `code`. That numbering
/// reports the USB HID usage codes themselves, so the table follows the
/// inverse of the identity assignment, over the usage range it covers.
pub open spec fn unix_slot(code: int) -> Option<Scancode> {
    if 0 <= code < 232 {
        from_usage(code)
    } else {
        None
    }
}

/// The slot of the macOS table at `code`: the virtual key code numbering
/// of that platform's ANSI layout, with the PC equivalents of the Mac-only
/// keys (the command keys as the GUI keys, the function keys past F12 as
/// PrintScreen, ScrollLock and Pause, Help as Insert). Codes the platform
/// never emits, or whose key has no equivalent here, are absent.
pub open spec fn macos_slot(code: int) -> Option<Scancode> {
    if code == 0 { Some(Scancode::A)
    } else if code == 1 { Some(Scancode::S)
    } else if code == 2 { Some(Scancode::D)
    } else if code == 3 { Some(Scancode::F)
    } else if code == 4 { Some(Scancode::H)
    } else if code == 5 { Some(Scancode::G)
    } else if code == 6 { Some(Scancode::Z)
    } else if code == 7 { Some(Scancode::X)
    } else if code == 8 { Some(Scancode::C)
    } else if code == 9 { Some(Scancode::V)
    } else if code == 10 { Some(Scancode::NonUsBackslash)
    } else if code == 11 { Some(Scancode::B)
    } else if code == 12 { Some(Scancode::Q)
    } else if code == 13 { Some(Scancode::W)
    } else if code == 14 { Some(Scancode::E)
    } else if code == 15 { Some(Scancode::R)
    } else if code == 16 { Some(Scancode::Y)
    } else if code == 17 { Some(Scancode::T)
    } else if code == 18 { Some(Scancode::Num1)
    } else if code == 19 { Some(Scancode::Num2)
    } else if code == 20 { Some(Scancode::Num3)
    } else if code == 21 { Some(Scancode::Num4)
    } else if code == 22 { Some(Scancode::Num6)
    } else if code == 23 { Some(Scancode::Num5)
    } else if code == 24 { Some(Scancode::Equals)
    } else if code == 25 { Some(Scancode::Num9)
    } else if code == 26 { Some(Scancode::Num7)
    } else if code == 27 { Some(Scancode::Minus)
    } else if code == 28 { Some(Scancode::Num8)
    } else if code == 29 { Some(Scancode::Num0)
    } else if code == 30 { Some(Scancode::RightBracket)
    } else if code == 31 { Some(Scancode::O)
    } else if code == 32 { Some(Scancode::U)
    } else if code == 33 { Some(Scancode::LeftBracket)
    } else if code == 34 { Some(Scancode::I)
    } else if code == 35 { Some(Scancode::P)
    } else if code == 36 { Some(Scancode::Enter)
    } else if code == 37 { Some(Scancode::L)
    } else if code == 38 { Some(Scancode::J)
    } else if code == 39 { Some(Scancode::Apostrophe)
    } else if code == 40 { Some(Scancode::K)
    } else if code == 41 { Some(Scancode::Semicolon)
    } else if code == 42 { Some(Scancode::Backslash)
    } else if code == 43 { Some(Scancode::Comma)
    } else if code == 44 { Some(Scancode::Slash)
    } else if code == 45 { Some(Scancode::N)
    } else if code == 46 { Some(Scancode::M)
    } else if code == 47 { Some(Scancode::Period)
    } else if code == 48 { Some(Scancode::Tab)
    } else if code == 49 { Some(Scancode::Space)
    } else if code == 50 { Some(Scancode::Grave)
    } else if code == 51 { Some(Scancode::Backspace)
    } else if code == 53 { Some(Scancode::Escape)
    } else if code == 54 { Some(Scancode::RightGui)
    } else if code == 55 { Some(Scancode::LeftGui)
    } else if code == 56 { Some(Scancode::LeftShift)
    } else if code == 57 { Some(Scancode::CapsLock)
    } else if code == 58 { Some(Scancode::LeftAlt)
    } else if code == 59 { Some(Scancode::LeftControl)
    } else if code == 60 { Some(Scancode::RightShift)
    } else if code == 61 { Some(Scancode::RightAlt)
    } else if code == 62 { Some(Scancode::RightControl)
    } else if code == 65 { Some(Scancode::PadDecimal)
    } else if code == 67 { Some(Scancode::PadMultiply)
    } else if code == 69 { Some(Scancode::PadPlus)
    } else if code == 71 { Some(Scancode::NumLock)
    } else if code == 72 { Some(Scancode::VolumeUp)
    } else if code == 73 { Some(Scancode::VolumeDown)
    } else if code == 74 { Some(Scancode::Mute)
    } else if code == 75 { Some(Scancode::PadDivide)
    } else if code == 76 { Some(Scancode::PadEnter)
    } else if code == 78 { Some(Scancode::PadMinus)
    } else if code == 81 { Some(Scancode::PadEquals)
    } else if code == 82 { Some(Scancode::Pad0)
    } else if code == 83 { Some(Scancode::Pad1)
    } else if code == 84 { Some(Scancode::Pad2)
    } else if code == 85 { Some(Scancode::Pad3)
    } else if code == 86 { Some(Scancode::Pad4)
    } else if code == 87 { Some(Scancode::Pad5)
    } else if code == 88 { Some(Scancode::Pad6)
    } else if code == 89 { Some(Scancode::Pad7)
    } else if code == 91 { Some(Scancode::Pad8)
    } else if code == 92 { Some(Scancode::Pad9)
    } else if code == 96 { Some(Scancode::F5)
    } else if code == 97 { Some(Scancode::F6)
    } else if code == 98 { Some(Scancode::F7)
    } else if code == 99 { Some(Scancode::F3)
    } else if code == 100 { Some(Scancode::F8)
    } else if code == 101 { Some(Scancode::F9)
    } else if code == 103 { Some(Scancode::F11)
    } else if code == 105 { Some(Scancode::PrintScreen)
    } else if code == 107 { Some(Scancode::ScrollLock)
    } else if code == 109 { Some(Scancode::F10)
    } else if code == 110 { Some(Scancode::Menu)
    } else if code == 111 { Some(Scancode::F12)
    } else if code == 113 { Some(Scancode::Pause)
    } else if code == 114 { Some(Scancode::Insert)
    } else if code == 115 { Some(Scancode::Home)
    } else if code == 116 { Some(Scancode::PageUp)
    } else if code == 117 { Some(Scancode::Delete)
    } else if code == 118 { Some(Scancode::F4)
    } else if code == 119 { Some(Scancode::End)
    } else if code == 120 { Some(Scancode::F2)
    } else if code == 121 { Some(Scancode::PageDown)
    } else if code == 122 { Some(Scancode::F1)
    } else if code == 123 { Some(Scancode::Left)
    } else if code == 124 { Some(Scancode::Right)
    } else if code == 125 { Some(Scancode::Down)
    } else if code == 126 { Some(Scancode::Up)
    } else { None }
}

/// The slot of the Windows table at `code`: the PS/2 "set 1" single-byte
/// make codes. Keys whose make code carries an `E0` prefix (the navigation
/// block, the arrow keys, the right-hand modifiers, the keypad divide and
/// enter) have no single-byte code and are absent.
pub open spec fn windows_slot(code: int) -> Option<Scancode> {
    if code == 1 { Some(Scancode::Escape)
    } else if code == 2 { Some(Scancode::Num1)
    } else if code == 3 { Some(Scancode::Num2)
    } else if code == 4 { Some(Scancode::Num3)
    } else if code == 5 { Some(Scancode::Num4)
    } else if code == 6 { Some(Scancode::Num5)
    } else if code == 7 { Some(Scancode::Num6)
    } else if code == 8 { Some(Scancode::Num7)
    } else if code == 9 { Some(Scancode::Num8)
    } else if code == 10 { Some(Scancode::Num9)
    } else if code == 11 { Some(Scancode::Num0)
    } else if code == 12 { Some(Scancode::Minus)
    } else if code == 13 { Some(Scancode::Equals)
    } else if code == 14 { Some(Scancode::Backspace)
    } else if code == 15 { Some(Scancode::Tab)
    } else if code == 16 { Some(Scancode::Q)
    } else if code == 17 { Some(Scancode::W)
    } else if code == 18 { Some(Scancode::E)
    } else if code == 19 { Some(Scancode::R)
    } else if code == 20 { Some(Scancode::T)
    } else if code == 21 { Some(Scancode::Y)
    } else if code == 22 { Some(Scancode::U)
    } else if code == 23 { Some(Scancode::I)
    } else if code == 24 { Some(Scancode::O)
    } else if code == 25 { Some(Scancode::P)
    } else if code == 26 { Some(Scancode::LeftBracket)
    } else if code == 27 { Some(Scancode::RightBracket)
    } else if code == 28 { Some(Scancode::Enter)
    } else if code == 29 { Some(Scancode::LeftControl)
    } else if code == 30 { Some(Scancode::A)
    } else if code == 31 { Some(Scancode::S)
    } else if code == 32 { Some(Scancode::D)
    } else if code == 33 { Some(Scancode::F)
    } else if code == 34 { Some(Scancode::G)
    } else if code == 35 { Some(Scancode::H)
    } else if code == 36 { Some(Scancode::J)
    } else if code == 37 { Some(Scancode::K)
    } else if code == 38 { Some(Scancode::L)
    } else if code == 39 { Some(Scancode::Semicolon)
    } else if code == 40 { Some(Scancode::Apostrophe)
    } else if code == 41 { Some(Scancode::Grave)
    } else if code == 42 { Some(Scancode::LeftShift)
    } else if code == 43 { Some(Scancode::Backslash)
    } else if code == 44 { Some(Scancode::Z)
    } else if code == 45 { Some(Scancode::X)
    } else if code == 46 { Some(Scancode::C)
    } else if code == 47 { Some(Scancode::V)
    } else if code == 48 { Some(Scancode::B)
    } else if code == 49 { Some(Scancode::N)
    } else if code == 50 { Some(Scancode::M)
    } else if code == 51 { Some(Scancode::Comma)
    } else if code == 52 { Some(Scancode::Period)
    } else if code == 53 { Some(Scancode::Slash)
    } else if code == 54 { Some(Scancode::RightShift)
    } else if code == 55 { Some(Scancode::PadMultiply)
    } else if code == 56 { Some(Scancode::LeftAlt)
    } else if code == 57 { Some(Scancode::Space)
    } else if code == 58 { Some(Scancode::CapsLock)
    } else if code == 59 { Some(Scancode::F1)
    } else if code == 60 { Some(Scancode::F2)
    } else if code == 61 { Some(Scancode::F3)
    } else if code == 62 { Some(Scancode::F4)
    } else if code == 63 { Some(Scancode::F5)
    } else if code == 64 { Some(Scancode::F6)
    } else if code == 65 { Some(Scancode::F7)
    } else if code == 66 { Some(Scancode::F8)
    } else if code == 67 { Some(Scancode::F9)
    } else if code == 68 { Some(Scancode::F10)
    } else if code == 69 { Some(Scancode::NumLock)
    } else if code == 70 { Some(Scancode::ScrollLock)
    } else if code == 71 { Some(Scancode::Pad7)
    } else if code == 72 { Some(Scancode::Pad8)
    } else if code == 73 { Some(Scancode::Pad9)
    } else if code == 74 { Some(Scancode::PadMinus)
    } else if code == 75 { Some(Scancode::Pad4)
    } else if code == 76 { Some(Scancode::Pad5)
    } else if code == 77 { Some(Scancode::Pad6)
    } else if code == 78 { Some(Scancode::PadPlus)
    } else if code == 79 { Some(Scancode::Pad1)
    } else if code == 80 { Some(Scancode::Pad2)
    } else if code == 81 { Some(Scancode::Pad3)
    } else if code == 82 { Some(Scancode::Pad0)
    } else if code == 83 { Some(Scancode::PadDecimal)
    } else if code == 84 { Some(Scancode::SysReq)
    } else if code == 86 { Some(Scancode::NonUsBackslash)
    } else if code == 87 { Some(Scancode::F11)
    } else if code == 88 { Some(Scancode::F12)
    } else { None }
}

/// The slot that a platform's translation table holds at a native code:
/// the key mapped there, or `None` where the slot is unmapped or the
/// code lies at or past the table's length.
pub open spec fn table_slot(platform: Platform, code: int) -> Option<Scancode> {
    match platform {
        Platform::Unix => unix_slot(code),
        Platform::MacOs => macos_slot(code),
        Platform::Windows => windows_slot(code),
        Platform::Unsupported => None,
    }
}

/// The native code documented for a key on macOS, or `None` for a key
/// that platform has no code for.
pub open spec fn macos_code(key: Scancode) -> Option<int> {
    match key {
        Scancode::A => Some(0),
        Scancode::B => Some(11),
        Scancode::C => Some(8),
        Scancode::D => Some(2),
        Scancode::E => Some(14),
        Scancode::F => Some(3),
        Scancode::G => Some(5),
        Scancode::H => Some(4),
        Scancode::I => Some(34),
        Scancode::J => Some(38),
        Scancode::K => Some(40),
        Scancode::L => Some(37),
        Scancode::M => Some(46),
        Scancode::N => Some(45),
        Scancode::O => Some(31),
        Scancode::P => Some(35),
        Scancode::Q => Some(12),
        Scancode::R => Some(15),
        Scancode::S => Some(1),
        Scancode::T => Some(17),
        Scancode::U => Some(32),
        Scancode::V => Some(9),
        Scancode::W => Some(13),
        Scancode::X => Some(7),
        Scancode::Y => Some(16),
        Scancode::Z => Some(6),
        Scancode::Num1 => Some(18),
        Scancode::Num2 => Some(19),
        Scancode::Num3 => Some(20),
        Scancode::Num4 => Some(21),
        Scancode::Num5 => Some(23),
        Scancode::Num6 => Some(22),
        Scancode::Num7 => Some(26),
        Scancode::Num8 => Some(28),
        Scancode::Num9 => Some(25),
        Scancode::Num0 => Some(29),
        Scancode::Enter => Some(36),
        Scancode::Escape => Some(53),
        Scancode::Backspace => Some(51),
        Scancode::Tab => Some(48),
        Scancode::Space => Some(49),
        Scancode::Minus => Some(27),
        Scancode::Equals => Some(24),
        Scancode::LeftBracket => Some(33),
        Scancode::RightBracket => Some(30),
        Scancode::Backslash => Some(42),
        Scancode::NonUsHash => None,
        Scancode::Semicolon => Some(41),
        Scancode::Apostrophe => Some(39),
        Scancode::Grave => Some(50),
        Scancode::Comma => Some(43),
        Scancode::Period => Some(47),
        Scancode::Slash => Some(44),
        Scancode::CapsLock => Some(57),
        Scancode::F1 => Some(122),
        Scancode::F2 => Some(120),
        Scancode::F3 => Some(99),
        Scancode::F4 => Some(118),
        Scancode::F5 => Some(96),
        Scancode::F6 => Some(97),
        Scancode::F7 => Some(98),
        Scancode::F8 => Some(100),
        Scancode::F9 => Some(101),
        Scancode::F10 => Some(109),
        Scancode::F11 => Some(103),
        Scancode::F12 => Some(111),
        Scancode::PrintScreen => Some(105),
        Scancode::ScrollLock => Some(107),
        Scancode::Pause => Some(113),
        Scancode::Insert => Some(114),
        Scancode::Home => Some(115),
        Scancode::PageUp => Some(116),
        Scancode::Delete => Some(117),
        Scancode::End => Some(119),
        Scancode::PageDown => Some(121),
        Scancode::Right => Some(124),
        Scancode::Left => Some(123),
        Scancode::Down => Some(125),
        Scancode::Up => Some(126),
        Scancode::NumLock => Some(71),
        Scancode::PadDivide => Some(75),
        Scancode::PadMultiply => Some(67),
        Scancode::PadMinus => Some(78),
        Scancode::PadPlus => Some(69),
        Scancode::PadEnter => Some(76),
        Scancode::Pad1 => Some(83),
        Scancode::Pad2 => Some(84),
        Scancode::Pad3 => Some(85),
        Scancode::Pad4 => Some(86),
        Scancode::Pad5 => Some(87),
        Scancode::Pad6 => Some(88),
        Scancode::Pad7 => Some(89),
        Scancode::Pad8 => Some(91),
        Scancode::Pad9 => Some(92),
        Scancode::Pad0 => Some(82),
        Scancode::PadDecimal => Some(65),
        Scancode::NonUsBackslash => Some(10),
        Scancode::PadEquals => Some(81),
        Scancode::Menu => Some(110),
        Scancode::Mute => Some(74),
        Scancode::VolumeUp => Some(72),
        Scancode::VolumeDown => Some(73),
        Scancode::SysReq => None,
        Scancode::LeftControl => Some(59),
        Scancode::LeftShift => Some(56),
        Scancode::LeftAlt => Some(58),
        Scancode::LeftGui => Some(55),
        Scancode::RightControl => Some(62),
        Scancode::RightShift => Some(60),
        Scancode::RightAlt => Some(61),
        Scancode::RightGui => Some(54),
    }
}

/// The native single-byte make code documented for a key on Windows, or
/// `None` for a key that platform has no such code for.
pub open spec fn windows_code(key: Scancode) -> Option<int> {
    match key {
        Scancode::A => Some(30),
        Scancode::B => Some(48),
        Scancode::C => Some(46),
        Scancode::D => Some(32),
        Scancode::E => Some(18),
        Scancode::F => Some(33),
        Scancode::G => Some(34),
        Scancode::H => Some(35),
        Scancode::I => Some(23),
        Scancode::J => Some(36),
        Scancode::K => Some(37),
        Scancode::L => Some(38),
        Scancode::M => Some(50),
        Scancode::N => Some(49),
        Scancode::O => Some(24),
        Scancode::P => Some(25),
        Scancode::Q => Some(16),
        Scancode::R => Some(19),
        Scancode::S => Some(31),
        Scancode::T => Some(20),
        Scancode::U => Some(22),
        Scancode::V => Some(47),
        Scancode::W => Some(17),
        Scancode::X => Some(45),
        Scancode::Y => Some(21),
        Scancode::Z => Some(44),
        Scancode::Num1 => Some(2),
        Scancode::Num2 => Some(3),
        Scancode::Num3 => Some(4),
        Scancode::Num4 => Some(5),
        Scancode::Num5 => Some(6),
        Scancode::Num6 => Some(7),
        Scancode::Num7 => Some(8),
        Scancode::Num8 => Some(9),
        Scancode::Num9 => Some(10),
        Scancode::Num0 => Some(11),
        Scancode::Enter => Some(28),
        Scancode::Escape => Some(1),
        Scancode::Backspace => Some(14),
        Scancode::Tab => Some(15),
        Scancode::Space => Some(57),
        Scancode::Minus => Some(12),
        Scancode::Equals => Some(13),
        Scancode::LeftBracket => Some(26),
        Scancode::RightBracket => Some(27),
        Scancode::Backslash => Some(43),
        Scancode::NonUsHash => None,
        Scancode::Semicolon => Some(39),
        Scancode::Apostrophe => Some(40),
        Scancode::Grave => Some(41),
        Scancode::Comma => Some(51),
        Scancode::Period => Some(52),
        Scancode::Slash => Some(53),
        Scancode::CapsLock => Some(58),
        Scancode::F1 => Some(59),
        Scancode::F2 => Some(60),
        Scancode::F3 => Some(61),
        Scancode::F4 => Some(62),
        Scancode::F5 => Some(63),
        Scancode::F6 => Some(64),
        Scancode::F7 => Some(65),
        Scancode::F8 => Some(66),
        Scancode::F9 => Some(67),
        Scancode::F10 => Some(68),
        Scancode::F11 => Some(87),
        Scancode::F12 => Some(88),
        Scancode::PrintScreen => None,
        Scancode::ScrollLock => Some(70),
        Scancode::Pause => None,
        Scancode::Insert => None,
        Scancode::Home => None,
        Scancode::PageUp => None,
        Scancode::Delete => None,
        Scancode::End => None,
        Scancode::PageDown => None,
        Scancode::Right => None,
        Scancode::Left => None,
        Scancode::Down => None,
        Scancode::Up => None,
        Scancode::NumLock => Some(69),
        Scancode::PadDivide => None,
        Scancode::PadMultiply => Some(55),
        Scancode::PadMinus => Some(74),
        Scancode::PadPlus => Some(78),
        Scancode::PadEnter => None,
        Scancode::Pad1 => Some(79),
        Scancode::Pad2 => Some(80),
        Scancode::Pad3 => Some(81),
        Scancode::Pad4 => Some(75),
        Scancode::Pad5 => Some(76),
        Scancode::Pad6 => Some(77),
        Scancode::Pad7 => Some(71),
        Scancode::Pad8 => Some(72),
        Scancode::Pad9 => Some(73),
        Scancode::Pad0 => Some(82),
        Scancode::PadDecimal => Some(83),
        Scancode::NonUsBackslash => Some(86),
        Scancode::PadEquals => None,
        Scancode::Menu => None,
        Scancode::Mute => None,
        Scancode::VolumeUp => None,
        Scancode::VolumeDown => None,
        Scancode::SysReq => Some(84),
        Scancode::LeftControl => Some(29),
        Scancode::LeftShift => Some(42),
        Scancode::LeftAlt => Some(56),
        Scancode::LeftGui => None,
        Scancode::RightControl => None,
        Scancode::RightShift => Some(54),
        Scancode::RightAlt => None,
        Scancode::RightGui => None,
    }
}

/// The native code documented for a key on a platform, or `None` for a
/// key the platform has no code for. Each table's slots hold exactly
/// these mappings, as the lemmas below state.
pub open spec fn native_code(platform: Platform, key: Scancode) -> Option<int> {
    match platform {
        Platform::Unix => Some(key.usage()),
        Platform::MacOs => macos_code(key),
        Platform::Windows => windows_code(key),
        Platform::Unsupported => None,
    }
}

/// The platform family whose translation table this build of the library
/// compiles in. Selection among the other numbering schemes is a build
/// concern of the embedding application, through `lookup`.
pub open spec fn active_platform() -> Platform {
    Platform::Unix
}

fn macos_lookup(code: u32) -> (key: Option<Scancode>)
    ensures
        key == macos_slot(code as int),
{
    match code {
        0 => Some(Scancode::A),
        1 => Some(Scancode::S),
        2 => Some(Scancode::D),
        3 => Some(Scancode::F),
        4 => Some(Scancode::H),
        5 => Some(Scancode::G),
        6 => Some(Scancode::Z),
        7 => Some(Scancode::X),
        8 => Some(Scancode::C),
        9 => Some(Scancode::V),
        10 => Some(Scancode::NonUsBackslash),
        11 => Some(Scancode::B),
        12 => Some(Scancode::Q),
        13 => Some(Scancode::W),
        14 => Some(Scancode::E),
        15 => Some(Scancode::R),
        16 => Some(Scancode::Y),
        17 => Some(Scancode::T),
        18 => Some(Scancode::Num1),
        19 => Some(Scancode::Num2),
        20 => Some(Scancode::Num3),
        21 => Some(Scancode::Num4),
        22 => Some(Scancode::Num6),
        23 => Some(Scancode::Num5),
        24 => Some(Scancode::Equals),
        25 => Some(Scancode::Num9),
        26 => Some(Scancode::Num7),
        27 => Some(Scancode::Minus),
        28 => Some(Scancode::Num8),
        29 => Some(Scancode::Num0),
        30 => Some(Scancode::RightBracket),
        31 => Some(Scancode::O),
        32 => Some(Scancode::U),
        33 => Some(Scancode::LeftBracket),
        34 => Some(Scancode::I),
        35 => Some(Scancode::P),
        36 => Some(Scancode::Enter),
        37 => Some(Scancode::L),
        38 => Some(Scancode::J),
        39 => Some(Scancode::Apostrophe),
        40 => Some(Scancode::K),
        41 => Some(Scancode::Semicolon),
        42 => Some(Scancode::Backslash),
        43 => Some(Scancode::Comma),
        44 => Some(Scancode::Slash),
        45 => Some(Scancode::N),
        46 => Some(Scancode::M),
        47 => Some(Scancode::Period),
        48 => Some(Scancode::Tab),
        49 => Some(Scancode::Space),
        50 => Some(Scancode::Grave),
        51 => Some(Scancode::Backspace),
        53 => Some(Scancode::Escape),
        54 => Some(Scancode::RightGui),
        55 => Some(Scancode::LeftGui),
        56 => Some(Scancode::LeftShift),
        57 => Some(Scancode::CapsLock),
        58 => Some(Scancode::LeftAlt),
        59 => Some(Scancode::LeftControl),
        60 => Some(Scancode::RightShift),
        61 => Some(Scancode::RightAlt),
        62 => Some(Scancode::RightControl),
        65 => Some(Scancode::PadDecimal),
        67 => Some(Scancode::PadMultiply),
        69 => Some(Scancode::PadPlus),
        71 => Some(Scancode::NumLock),
        72 => Some(Scancode::VolumeUp),
        73 => Some(Scancode::VolumeDown),
        74 => Some(Scancode::Mute),
        75 => Some(Scancode::PadDivide),
        76 => Some(Scancode::PadEnter),
        78 => Some(Scancode::PadMinus),
        81 => Some(Scancode::PadEquals),
        82 => Some(Scancode::Pad0),
        83 => Some(Scancode::Pad1),
        84 => Some(Scancode::Pad2),
        85 => Some(Scancode::Pad3),
        86 => Some(Scancode::Pad4),
        87 => Some(Scancode::Pad5),
        88 => Some(Scancode::Pad6),
        89 => Some(Scancode::Pad7),
        91 => Some(Scancode::Pad8),
        92 => Some(Scancode::Pad9),
        96 => Some(Scancode::F5),
        97 => Some(Scancode::F6),
        98 => Some(Scancode::F7),
        99 => Some(Scancode::F3),
        100 => Some(Scancode::F8),
        101 => Some(Scancode::F9),
        103 => Some(Scancode::F11),
        105 => Some(Scancode::PrintScreen),
        107 => Some(Scancode::ScrollLock),
        109 => Some(Scancode::F10),
        110 => Some(Scancode::Menu),
        111 => Some(Scancode::F12),
        113 => Some(Scancode::Pause),
        114 => Some(Scancode::Insert),
        115 => Some(Scancode::Home),
        116 => Some(Scancode::PageUp),
        117 => Some(Scancode::Delete),
        118 => Some(Scancode::F4),
        119 => Some(Scancode::End),
        120 => Some(Scancode::F2),
        121 => Some(Scancode::PageDown),
        122 => Some(Scancode::F1),
        123 => Some(Scancode::Left),
        124 => Some(Scancode::Right),
        125 => Some(Scancode::Down),
        126 => Some(Scancode::Up),
        _ => None,
    }
}

fn windows_lookup(code: u32) -> (key: Option<Scancode>)
    ensures
        key == windows_slot(code as int),
{
    match code {
        1 => Some(Scancode::Escape),
        2 => Some(Scancode::Num1),
        3 => Some(Scancode::Num2),
        4 => Some(Scancode::Num3),
        5 => Some(Scancode::Num4),
        6 => Some(Scancode::Num5),
        7 => Some(Scancode::Num6),
        8 => Some(Scancode::Num7),
        9 => Some(Scancode::Num8),
        10 => Some(Scancode::Num9),
        11 => Some(Scancode::Num0),
        12 => Some(Scancode::Minus),
        13 => Some(Scancode::Equals),
        14 => Some(Scancode::Backspace),
        15 => Some(Scancode::Tab),
        16 => Some(Scancode::Q),
        17 => Some(Scancode::W),
        18 => Some(Scancode::E),
        19 => Some(Scancode::R),
        20 => Some(Scancode::T),
        21 => Some(Scancode::Y),
        22 => Some(Scancode::U),
        23 => Some(Scancode::I),
        24 => Some(Scancode::O),
        25 => Some(Scancode::P),
        26 => Some(Scancode::LeftBracket),
        27 => Some(Scancode::RightBracket),
        28 => Some(Scancode::Enter),
        29 => Some(Scancode::LeftControl),
        30 => Some(Scancode::A),
        31 => Some(Scancode::S),
        32 => Some(Scancode::D),
        33 => Some(Scancode::F),
        34 => Some(Scancode::G),
        35 => Some(Scancode::H),
        36 => Some(Scancode::J),
        37 => Some(Scancode::K),
        38 => Some(Scancode::L),
        39 => Some(Scancode::Semicolon),
        40 => Some(Scancode::Apostrophe),
        41 => Some(Scancode::Grave),
        42 => Some(Scancode::LeftShift),
        43 => Some(Scancode::Backslash),
        44 => Some(Scancode::Z),
        45 => Some(Scancode::X),
        46 => Some(Scancode::C),
        47 => Some(Scancode::V),
        48 => Some(Scancode::B),
        49 => Some(Scancode::N),
        50 => Some(Scancode::M),
        51 => Some(Scancode::Comma),
        52 => Some(Scancode::Period),
        53 => Some(Scancode::Slash),
        54 => Some(Scancode::RightShift),
        55 => Some(Scancode::PadMultiply),
        56 => Some(Scancode::LeftAlt),
        57 => Some(Scancode::Space),
        58 => Some(Scancode::CapsLock),
        59 => Some(Scancode::F1),
        60 => Some(Scancode::F2),
        61 => Some(Scancode::F3),
        62 => Some(Scancode::F4),
        63 => Some(Scancode::F5),
        64 => Some(Scancode::F6),
        65 => Some(Scancode::F7),
        66 => Some(Scancode::F8),
        67 => Some(Scancode::F9),
        68 => Some(Scancode::F10),
        69 => Some(Scancode::NumLock),
        70 => Some(Scancode::ScrollLock),
        71 => Some(Scancode::Pad7),
        72 => Some(Scancode::Pad8),
        73 => Some(Scancode::Pad9),
        74 => Some(Scancode::PadMinus),
        75 => Some(Scancode::Pad4),
        76 => Some(Scancode::Pad5),
        77 => Some(Scancode::Pad6),
        78 => Some(Scancode::PadPlus),
        79 => Some(Scancode::Pad1),
        80 => Some(Scancode::Pad2),
        81 => Some(Scancode::Pad3),
        82 => Some(Scancode::Pad0),
        83 => Some(Scancode::PadDecimal),
        84 => Some(Scancode::SysReq),
        86 => Some(Scancode::NonUsBackslash),
        87 => Some(Scancode::F11),
        88 => Some(Scancode::F12),
        _ => None,
    }
}

/// Look a native hardware scancode up in the given platform's
/// translation table. Bounds are checked here, not trusted from the
/// caller: any code at or past the table's length, and any code whose
/// slot is unmapped, translates to `None`.
pub fn lookup(platform: Platform, code: u32) -> (key: Option<Scancode>)
    ensures
        key == table_slot(platform, code as int),
{
    match platform {
        Platform::Unix => {
            if code < 232 {
                Scancode::from_u32(code)
            } else {
                None
            }
        },
        Platform::MacOs => macos_lookup(code),
        Platform::Windows => windows_lookup(code),
        Platform::Unsupported => None,
    }
}

impl Scancode {
    /// Try to convert a hardware scancode from the numbering this build
    /// compiles in, the Unix/Linux-style table, to a Scancode enum value;
    /// the tables of the other platform families are reached through
    /// `lookup`.
    #[inline]
    pub fn new(hardware_scancode: u32) -> (key: Option<Scancode>)
        ensures
            key == table_slot(active_platform(), hardware_scancode as int),
    {
        lookup(Platform::Unix, hardware_scancode)
    }
}

/// Out of range means absent: a native code outside `[0, table_len)` of
/// a platform's table translates to nothing, on every platform.
pub proof fn lemma_out_of_range_absent(platform: Platform, code: int)
    requires
        !(0 <= code < table_len(platform)),
    ensures
        table_slot(platform, code) is None,
{
}

/// Every documented mapping is honoured: where a platform documents a
/// native code for a key, that code lies within the table and its slot
/// holds exactly that key.
pub proof fn lemma_documented_code_found(platform: Platform, key: Scancode)
    ensures
        native_code(platform, key) matches Some(code) ==> 0 <= code
            < table_len(platform) && table_slot(platform, code) == Some(key),
{
    if platform is Unix {
        lemma_usage_round_trip(key);
        lemma_usage_in_range(key);
    }
}

/// A filled slot is a documented mapping: a table never maps a native
/// code to a key other than the one documented for it.
pub proof fn lemma_slot_documented(platform: Platform, code: int)
    ensures
        table_slot(platform, code) matches Some(key) ==> native_code(
            platform, key) == Some(code),
{
    if platform is Unix {
        lemma_from_usage_sound(code);
    }
}

/// No aliasing: none of the tables maps two distinct native codes to the
/// same key, so each table is injective where it is defined.
pub proof fn lemma_no_alias(platform: Platform, code1: int, code2: int, key: Scancode)
    requires
        table_slot(platform, code1) == Some(key),
        table_slot(platform, code2) == Some(key),
    ensures
        code1 == code2,
{
    lemma_slot_documented(platform, code1);
    lemma_slot_documented(platform, code2);
}

} // verus!
