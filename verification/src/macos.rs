//! Decision logic of the IOKit (HID) adapter.
//!
//! On this platform the adapter owns a connection to the HID system service
//! and issues `IOHIDSetModifierLockState` / `IOHIDGetModifierLockState`
//! calls against it. The native primitive assigns the exact state, so no
//! read-compare step is needed; what the library decides is which HID
//! selector stands for a key — Scrolling Lock has none and is a declared
//! unsupported failure — and what result each kernel return code yields.

use vstd::prelude::*;

use crate::{spec_state_of_bool, LockKeyError, LockKeyResult, LockKeyState, LockKeys};

verus! {

/// Connection type for the HID parameter connection to the system service.
#[allow(non_upper_case_globals)]
pub const kIOHIDParamConnectType: u32 = 1;

/// HID selector of the Caps Lock modifier.
#[allow(non_upper_case_globals)]
pub const kIOHIDCapsLockState: i32 = 0x00000001;

/// HID selector of the Num Lock modifier.
#[allow(non_upper_case_globals)]
pub const kIOHIDNumLockState: i32 = 0x00000002;

/// The kernel return code that reports success.
pub const KERN_SUCCESS: i32 = 0;

/// The HID selector that stands for `key` in the modifier-lock calls.
/// Scrolling Lock has no HID modifier-lock selector, so handling it is a
/// predictable failure rather than a mutation of some other key.
pub fn selector_for(key: LockKeys) -> (r: Result<i32, LockKeyError>)
    ensures
        key == LockKeys::CapitalLock ==> r == Ok::<i32, LockKeyError>(kIOHIDCapsLockState),
        key == LockKeys::NumberLock ==> r == Ok::<i32, LockKeyError>(kIOHIDNumLockState),
        key == LockKeys::ScrollingLock ==> r == Err::<i32, LockKeyError>(
            LockKeyError::UnsupportedKey,
        ),
{
    match key {
        LockKeys::CapitalLock => Ok(kIOHIDCapsLockState),
        LockKeys::NumberLock => Ok(kIOHIDNumLockState),
        LockKeys::ScrollingLock => Err(LockKeyError::UnsupportedKey),
    }
}

/// The result of a set call from the code `IOHIDSetModifierLockState`
/// returned: on success the key now holds `state`; any other code is the
/// named native failure.
pub fn modifier_lock_outcome(kern_return: i32, state: LockKeyState) -> (r: LockKeyResult)
    ensures
        kern_return == KERN_SUCCESS ==> r == Ok::<LockKeyState, LockKeyError>(state),
        kern_return != KERN_SUCCESS ==> r == Err::<LockKeyState, LockKeyError>(
            LockKeyError::IoHidModifierLockState,
        ),
{
    if kern_return != KERN_SUCCESS {
        Err(LockKeyError::IoHidModifierLockState)
    } else {
        Ok(state)
    }
}

/// The result of a state query from the code `IOHIDGetModifierLockState`
/// returned and the flag it wrote: on success the flag is the key's state,
/// `true` for enabled; any other code is the named native failure.
pub fn modifier_lock_read(kern_return: i32, flag: bool) -> (r: LockKeyResult)
    ensures
        kern_return == KERN_SUCCESS ==> r == Ok::<LockKeyState, LockKeyError>(
            spec_state_of_bool(flag),
        ),
        kern_return != KERN_SUCCESS ==> r == Err::<LockKeyState, LockKeyError>(
            LockKeyError::IoHidModifierLockState,
        ),
{
    if kern_return != KERN_SUCCESS {
        Err(LockKeyError::IoHidModifierLockState)
    } else {
        Ok(LockKeyState::from(flag))
    }
}

} // verus!
