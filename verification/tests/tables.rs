use scancode::lookup;
use scancode::Platform;
use scancode::Scancode;

fn platforms() -> Vec<(Platform, u32)> {
    vec![
        (Platform::Unix, 232),
        (Platform::MacOs, 127),
        (Platform::Windows, 89),
        (Platform::Unsupported, 0),
    ]
}

#[test]
fn out_of_range_codes_are_absent() {
    for (platform, len) in platforms() {
        assert_eq!(lookup(platform, len), None);
        assert_eq!(lookup(platform, len + 1), None);
        assert_eq!(lookup(platform, 1000), None);
        assert_eq!(lookup(platform, u32::MAX), None);
    }
}

#[test]
fn boundary_slots_per_platform() {
    assert_eq!(lookup(Platform::Unix, 0), None);
    assert_eq!(lookup(Platform::Unix, 231), Some(Scancode::RightGui));
    assert_eq!(lookup(Platform::Unix, 232), None);
    assert_eq!(lookup(Platform::MacOs, 0), Some(Scancode::A));
    assert_eq!(lookup(Platform::MacOs, 126), Some(Scancode::Up));
    assert_eq!(lookup(Platform::MacOs, 127), None);
    assert_eq!(lookup(Platform::Windows, 0), None);
    assert_eq!(lookup(Platform::Windows, 88), Some(Scancode::F12));
    assert_eq!(lookup(Platform::Windows, 89), None);
    assert_eq!(lookup(Platform::Unsupported, 0), None);
}

#[test]
fn scenario_unix_table() {
    assert_eq!(Scancode::new(4), Some(Scancode::A));
    assert_eq!(Scancode::new(0), None);
    assert_eq!(Scancode::new(4_294_967_295), None);
}

#[test]
fn new_agrees_with_the_unix_table() {
    for code in 0u32..300 {
        assert_eq!(Scancode::new(code), lookup(Platform::Unix, code));
    }
    assert_eq!(Scancode::new(u32::MAX), lookup(Platform::Unix, u32::MAX));
}

#[test]
fn unix_table_follows_the_usage_identities() {
    for code in 0u32..232 {
        let found = lookup(Platform::Unix, code);
        assert_eq!(found, Scancode::from_u32(code));
        if let Some(key) = found {
            assert_eq!(key.usage_code() as u32, code);
        }
    }
}

#[test]
fn documented_macos_samples() {
    assert_eq!(lookup(Platform::MacOs, 0), Some(Scancode::A));
    assert_eq!(lookup(Platform::MacOs, 11), Some(Scancode::B));
    assert_eq!(lookup(Platform::MacOs, 18), Some(Scancode::Num1));
    assert_eq!(lookup(Platform::MacOs, 29), Some(Scancode::Num0));
    assert_eq!(lookup(Platform::MacOs, 36), Some(Scancode::Enter));
    assert_eq!(lookup(Platform::MacOs, 10), Some(Scancode::NonUsBackslash));
    assert_eq!(lookup(Platform::MacOs, 55), Some(Scancode::LeftGui));
    assert_eq!(lookup(Platform::MacOs, 71), Some(Scancode::NumLock));
    assert_eq!(lookup(Platform::MacOs, 81), Some(Scancode::PadEquals));
    assert_eq!(lookup(Platform::MacOs, 99), Some(Scancode::F3));
    assert_eq!(lookup(Platform::MacOs, 105), Some(Scancode::PrintScreen));
    assert_eq!(lookup(Platform::MacOs, 110), Some(Scancode::Menu));
    assert_eq!(lookup(Platform::MacOs, 113), Some(Scancode::Pause));
    assert_eq!(lookup(Platform::MacOs, 114), Some(Scancode::Insert));
    assert_eq!(lookup(Platform::MacOs, 123), Some(Scancode::Left));
    assert_eq!(lookup(Platform::MacOs, 52), None);
    assert_eq!(lookup(Platform::MacOs, 63), None);
}

#[test]
fn documented_windows_samples() {
    assert_eq!(lookup(Platform::Windows, 1), Some(Scancode::Escape));
    assert_eq!(lookup(Platform::Windows, 2), Some(Scancode::Num1));
    assert_eq!(lookup(Platform::Windows, 11), Some(Scancode::Num0));
    assert_eq!(lookup(Platform::Windows, 16), Some(Scancode::Q));
    assert_eq!(lookup(Platform::Windows, 28), Some(Scancode::Enter));
    assert_eq!(lookup(Platform::Windows, 30), Some(Scancode::A));
    assert_eq!(lookup(Platform::Windows, 41), Some(Scancode::Grave));
    assert_eq!(lookup(Platform::Windows, 50), Some(Scancode::M));
    assert_eq!(lookup(Platform::Windows, 49), Some(Scancode::N));
    assert_eq!(lookup(Platform::Windows, 57), Some(Scancode::Space));
    assert_eq!(lookup(Platform::Windows, 59), Some(Scancode::F1));
    assert_eq!(lookup(Platform::Windows, 69), Some(Scancode::NumLock));
    assert_eq!(lookup(Platform::Windows, 83), Some(Scancode::PadDecimal));
    assert_eq!(lookup(Platform::Windows, 84), Some(Scancode::SysReq));
    assert_eq!(lookup(Platform::Windows, 86), Some(Scancode::NonUsBackslash));
    assert_eq!(lookup(Platform::Windows, 88), Some(Scancode::F12));
    assert_eq!(lookup(Platform::Windows, 85), None);
}

#[test]
fn unsupported_platform_is_always_absent() {
    for code in 0u32..300 {
        assert_eq!(lookup(Platform::Unsupported, code), None);
    }
}

#[test]
fn no_two_codes_share_a_key() {
    for (platform, len) in platforms() {
        let mut seen: Vec<(u32, Scancode)> = Vec::new();
        for code in 0..len {
            if let Some(key) = lookup(platform, code) {
                for (other_code, other_key) in &seen {
                    assert!(
                        *other_key != key,
                        "codes {} and {} share a key on {:?}",
                        other_code, code, platform
                    );
                }
                seen.push((code, key));
            }
        }
    }
}

#[test]
fn lookup_is_stable_across_calls() {
    for (platform, len) in platforms() {
        for code in 0..len + 5 {
            assert_eq!(lookup(platform, code), lookup(platform, code));
        }
    }
}
