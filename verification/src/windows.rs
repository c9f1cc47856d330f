//! Decision logic of the winuser adapter.
//!
//! The only native write primitive on this platform is a key pulse — a
//! synthesized press and release of the virtual key — which flips the lock
//! state, never assigns it. `set` therefore reads the current state first
//! and pulses only when it disagrees with the target (read-compare-flip), so
//! that an already-matching key is left alone and a repeated `set` cannot
//! double-flip. The functions here pick the virtual-key code, interpret the
//! native state read, and decide whether to pulse; the lemma shows that the
//! read-compare-flip sequence reaches the target exactly and is idempotent.

use vstd::prelude::*;

use crate::LockKeyState;
use crate::LockKeys;

verus! {

/// Virtual-key code of the Caps Lock key.
pub const VK_CAPITAL: i32 = 0x14;

/// Virtual-key code of the Num Lock key.
pub const VK_NUMLOCK: i32 = 0x90;

/// Virtual-key code of the Scroll Lock key.
pub const VK_SCROLL: i32 = 0x91;

/// The virtual-key code that selects `key` in `GetKeyState` and in the
/// synthesized key events.
pub fn virtual_key_for(key: LockKeys) -> (r: i32)
    ensures
        key == LockKeys::CapitalLock ==> r == VK_CAPITAL,
        key == LockKeys::NumberLock ==> r == VK_NUMLOCK,
        key == LockKeys::ScrollingLock ==> r == VK_SCROLL,
{
    match key {
        LockKeys::CapitalLock => VK_CAPITAL,
        LockKeys::NumberLock => VK_NUMLOCK,
        LockKeys::ScrollingLock => VK_SCROLL,
    }
}

/// The lock state `GetKeyState` reports: its low-order bit — the value 1 for
/// a lock key — says the key is toggled on.
pub fn state_from_key_state(key_state: i16) -> (r: LockKeyState)
    ensures
        key_state == 1 ==> r == LockKeyState::Enabled,
        key_state != 1 ==> r == LockKeyState::Disabled,
{
    if key_state == 1 {
        LockKeyState::Enabled
    } else {
        LockKeyState::Disabled
    }
}

/// Whether `set` must pulse the key: only when the state read from the
/// keyboard disagrees with the target.
pub fn needs_pulse(current: LockKeyState, target: LockKeyState) -> (r: bool)
    ensures
        r == (current != target),
{
    current != target
}

/// The key's state after a conditional pulse: flipped when pulsed,
/// unchanged otherwise.
pub open spec fn spec_after_pulse(current: LockKeyState, pulse: bool) -> LockKeyState {
    if pulse {
        current.spec_toggle()
    } else {
        current
    }
}

/// The key's state after the read-compare-flip sequence that `set` performs:
/// pulse exactly when the current state disagrees with the target.
pub open spec fn spec_pulse_set(current: LockKeyState, target: LockKeyState) -> LockKeyState {
    spec_after_pulse(current, current != target)
}

/// Law: read-compare-flip forces the key into exactly the target state from
/// either starting state, and doing it again with the same target changes
/// nothing — no double flip on a platform whose only write primitive is a
/// toggle pulse.
pub proof fn lemma_pulse_set(current: LockKeyState, target: LockKeyState)
    ensures
        spec_pulse_set(current, target) == target,
        spec_pulse_set(spec_pulse_set(current, target), target) == spec_pulse_set(
            current,
            target,
        ),
{
}

} // verus!
