use lock_keys::{LockKeyError, LockKeyState};

#[test]
fn toggle_is_the_opposite_state() {
    assert_eq!(LockKeyState::Enabled.toggle(), LockKeyState::Disabled);
    assert_eq!(LockKeyState::Disabled.toggle(), LockKeyState::Enabled);
}

#[test]
fn state_from_bool() {
    assert_eq!(LockKeyState::from(true), LockKeyState::Enabled);
    assert_eq!(LockKeyState::from(false), LockKeyState::Disabled);
}

#[test]
fn bool_from_state() {
    assert!(bool::from(LockKeyState::Enabled));
    assert!(!bool::from(LockKeyState::Disabled));
}

#[test]
fn bool_round_trip_is_lossless() {
    assert_eq!(
        LockKeyState::from(bool::from(LockKeyState::Enabled)),
        LockKeyState::Enabled
    );
    assert_eq!(
        LockKeyState::from(bool::from(LockKeyState::Disabled)),
        LockKeyState::Disabled
    );
}

#[test]
fn state_text_is_stable() {
    assert_eq!(LockKeyState::Enabled.text(), "enabled");
    assert_eq!(LockKeyState::Disabled.text(), "disabled");
}

#[test]
fn error_descriptions_name_the_native_operation() {
    assert_eq!(
        LockKeyError::XkbLockModifiers.description(),
        "XkbLockModifiers"
    );
    assert_eq!(
        LockKeyError::IoHidModifierLockState.description(),
        "IOHIDModifierLockState"
    );
    assert_eq!(
        LockKeyError::UnsupportedKey.description(),
        "unsupported lock key"
    );
}
