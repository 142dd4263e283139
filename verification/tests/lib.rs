use scancode::Scancode;

fn all_keys() -> Vec<Scancode> {
    vec![
        Scancode::A, Scancode::B, Scancode::C, Scancode::D, Scancode::E, Scancode::F,
        Scancode::G, Scancode::H, Scancode::I, Scancode::J, Scancode::K, Scancode::L,
        Scancode::M, Scancode::N, Scancode::O, Scancode::P, Scancode::Q, Scancode::R,
        Scancode::S, Scancode::T, Scancode::U, Scancode::V, Scancode::W, Scancode::X,
        Scancode::Y, Scancode::Z, Scancode::Num1, Scancode::Num2, Scancode::Num3, Scancode::Num4,
        Scancode::Num5, Scancode::Num6, Scancode::Num7, Scancode::Num8, Scancode::Num9, Scancode::Num0,
        Scancode::Enter, Scancode::Escape, Scancode::Backspace, Scancode::Tab, Scancode::Space, Scancode::Minus,
        Scancode::Equals, Scancode::LeftBracket, Scancode::RightBracket, Scancode::Backslash, Scancode::NonUsHash, Scancode::Semicolon,
        Scancode::Apostrophe, Scancode::Grave, Scancode::Comma, Scancode::Period, Scancode::Slash, Scancode::CapsLock,
        Scancode::F1, Scancode::F2, Scancode::F3, Scancode::F4, Scancode::F5, Scancode::F6,
        Scancode::F7, Scancode::F8, Scancode::F9, Scancode::F10, Scancode::F11, Scancode::F12,
        Scancode::PrintScreen, Scancode::ScrollLock, Scancode::Pause, Scancode::Insert, Scancode::Home, Scancode::PageUp,
        Scancode::Delete, Scancode::End, Scancode::PageDown, Scancode::Right, Scancode::Left, Scancode::Down,
        Scancode::Up, Scancode::NumLock, Scancode::PadDivide, Scancode::PadMultiply, Scancode::PadMinus, Scancode::PadPlus,
        Scancode::PadEnter, Scancode::Pad1, Scancode::Pad2, Scancode::Pad3, Scancode::Pad4, Scancode::Pad5,
        Scancode::Pad6, Scancode::Pad7, Scancode::Pad8, Scancode::Pad9, Scancode::Pad0, Scancode::PadDecimal,
        Scancode::NonUsBackslash, Scancode::PadEquals, Scancode::Menu, Scancode::Mute, Scancode::VolumeUp, Scancode::VolumeDown,
        Scancode::SysReq, Scancode::LeftControl, Scancode::LeftShift, Scancode::LeftAlt, Scancode::LeftGui, Scancode::RightControl,
        Scancode::RightShift, Scancode::RightAlt, Scancode::RightGui,
    ]
}

#[test]
fn test_from_primitive() {
    assert_eq!(Scancode::from_i32(0), None);
    assert_eq!(Scancode::from_i32(4), Some(Scancode::A));
}

#[test]
fn adapter_round_trips_every_variant() {
    for key in all_keys() {
        let code: u8 = key.usage_code();
        assert_eq!(Scancode::from_u64(code as u64), Some(key));
        assert_eq!(Scancode::from_i64(code as i64), Some(key));
        assert_eq!(Scancode::from_u32(code as u32), Some(key));
        assert_eq!(Scancode::from_i32(code as i32), Some(key));
    }
}

#[test]
fn adapter_rejects_values_without_a_key() {
    let assigned: Vec<u8> = all_keys().iter().map(|k| k.usage_code()).collect();
    for value in 0u32..=255 {
        if !assigned.contains(&(value as u8)) {
            assert_eq!(Scancode::from_u32(value), None);
        }
    }
    assert_eq!(Scancode::from_u64(232), None);
    assert_eq!(Scancode::from_u64(u64::MAX), None);
    assert_eq!(Scancode::from_i64(-1), None);
    assert_eq!(Scancode::from_i64(i64::MIN), None);
    assert_eq!(Scancode::from_i32(-4), None);
}

#[test]
fn usage_codes_are_unique() {
    let keys = all_keys();
    for i in 0..keys.len() {
        for j in 0..keys.len() {
            if i != j {
                assert_ne!(keys[i].usage_code(), keys[j].usage_code());
            }
        }
    }
}

#[test]
fn usage_codes_match_the_standard() {
    assert_eq!(Scancode::A.usage_code(), 4);
    assert_eq!(Scancode::Z.usage_code(), 29);
    assert_eq!(Scancode::Num1.usage_code(), 30);
    assert_eq!(Scancode::Num0.usage_code(), 39);
    assert_eq!(Scancode::Enter.usage_code(), 40);
    assert_eq!(Scancode::CapsLock.usage_code(), 57);
    assert_eq!(Scancode::F1.usage_code(), 58);
    assert_eq!(Scancode::F12.usage_code(), 69);
    assert_eq!(Scancode::M.usage_code(), 16);
    assert_eq!(Scancode::N.usage_code(), 17);
    assert_eq!(Scancode::NonUsBackslash.usage_code(), 100);
    assert_eq!(Scancode::PadEquals.usage_code(), 103);
    assert_eq!(Scancode::Menu.usage_code(), 118);
    assert_eq!(Scancode::Mute.usage_code(), 127);
    assert_eq!(Scancode::SysReq.usage_code(), 154);
    assert_eq!(Scancode::LeftControl.usage_code(), 224);
    assert_eq!(Scancode::RightGui.usage_code(), 231);
}
