use lock_keys::linux::{
    keysym_for, lock_modifier_args, set_outcome, state_from_record, XkbStateRec,
};
use lock_keys::macos::{modifier_lock_outcome, modifier_lock_read, selector_for};
use lock_keys::windows::{needs_pulse, state_from_key_state, virtual_key_for};
use lock_keys::{LockKeyError, LockKeyState, LockKeys};

fn record_with_locked_mods(locked_mods: u8) -> XkbStateRec {
    XkbStateRec {
        group: 0,
        locked_group: 0,
        base_group: 0,
        latched_group: 0,
        mods: 0,
        base_mods: 0,
        latched_mods: 0,
        locked_mods,
        compat_state: 0,
        grab_mods: 0,
        compat_grab_mods: 0,
        lookup_mods: 0,
        compat_lookup_mods: 0,
        ptr_buttons: 0,
    }
}

#[test]
fn xkb_keysyms() {
    assert_eq!(keysym_for(LockKeys::CapitalLock), 0xffe5);
    assert_eq!(keysym_for(LockKeys::NumberLock), 0xff7f);
    assert_eq!(keysym_for(LockKeys::ScrollingLock), 0xff14);
}

#[test]
fn xkb_lock_request_arguments() {
    assert_eq!(
        lock_modifier_args(0x02, LockKeyState::Enabled),
        (0x02, 0x02)
    );
    assert_eq!(
        lock_modifier_args(0x02, LockKeyState::Disabled),
        (0x02, 0x00)
    );
    assert_eq!(
        lock_modifier_args(0x10, LockKeyState::Enabled),
        (0x10, 0x10)
    );
}

#[test]
fn xkb_set_outcome() {
    assert_eq!(
        set_outcome(1, LockKeyState::Enabled),
        Ok(LockKeyState::Enabled)
    );
    assert_eq!(
        set_outcome(1, LockKeyState::Disabled),
        Ok(LockKeyState::Disabled)
    );
    assert_eq!(
        set_outcome(0, LockKeyState::Enabled),
        Err(LockKeyError::XkbLockModifiers)
    );
}

#[test]
fn xkb_state_read_back() {
    let caps_locked = record_with_locked_mods(0x02);
    assert_eq!(state_from_record(&caps_locked, 0x02), LockKeyState::Enabled);
    assert_eq!(
        state_from_record(&caps_locked, 0x10),
        LockKeyState::Disabled
    );
    let nothing_locked = record_with_locked_mods(0x00);
    assert_eq!(
        state_from_record(&nothing_locked, 0x02),
        LockKeyState::Disabled
    );
}

#[test]
fn hid_selectors() {
    assert_eq!(selector_for(LockKeys::CapitalLock), Ok(0x1));
    assert_eq!(selector_for(LockKeys::NumberLock), Ok(0x2));
    assert_eq!(
        selector_for(LockKeys::ScrollingLock),
        Err(LockKeyError::UnsupportedKey)
    );
}

#[test]
fn hid_set_outcome() {
    assert_eq!(
        modifier_lock_outcome(0, LockKeyState::Enabled),
        Ok(LockKeyState::Enabled)
    );
    assert_eq!(
        modifier_lock_outcome(-1, LockKeyState::Enabled),
        Err(LockKeyError::IoHidModifierLockState)
    );
}

#[test]
fn hid_state_read() {
    assert_eq!(modifier_lock_read(0, true), Ok(LockKeyState::Enabled));
    assert_eq!(modifier_lock_read(0, false), Ok(LockKeyState::Disabled));
    assert_eq!(
        modifier_lock_read(5, true),
        Err(LockKeyError::IoHidModifierLockState)
    );
}

#[test]
fn winuser_virtual_keys() {
    assert_eq!(virtual_key_for(LockKeys::CapitalLock), 0x14);
    assert_eq!(virtual_key_for(LockKeys::NumberLock), 0x90);
    assert_eq!(virtual_key_for(LockKeys::ScrollingLock), 0x91);
}

#[test]
fn winuser_state_read() {
    assert_eq!(state_from_key_state(1), LockKeyState::Enabled);
    assert_eq!(state_from_key_state(0), LockKeyState::Disabled);
    assert_eq!(state_from_key_state(-127), LockKeyState::Disabled);
}

#[test]
fn winuser_pulse_only_on_disagreement() {
    assert!(needs_pulse(LockKeyState::Enabled, LockKeyState::Disabled));
    assert!(needs_pulse(LockKeyState::Disabled, LockKeyState::Enabled));
    assert!(!needs_pulse(LockKeyState::Enabled, LockKeyState::Enabled));
    assert!(!needs_pulse(LockKeyState::Disabled, LockKeyState::Disabled));
}
