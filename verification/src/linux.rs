//! Decision logic of the X11 (Xkb) adapter.
//!
//! On this platform every operation is a request over a display connection:
//! `set` asks `XkbLockModifiers` to drive the key's modifier bits, `state`
//! reads the locked-modifier byte back with `XkbGetState`. The functions here
//! compute everything those requests need — the keysym that selects a key,
//! the affect/values pair of a lock request, the interpretation of the state
//! record and of the request's status — and the lemmas show that a lock
//! request followed by a read-back observes exactly the requested state,
//! given the documented effect of `XkbLockModifiers` on the locked-modifier
//! byte.

use vstd::prelude::*;

use crate::{spec_state_of_bool, LockKeyError, LockKeyResult, LockKeyState, LockKeys};

verus! {

/// Device specifier addressing the core keyboard in Xkb requests.
#[allow(non_upper_case_globals)]
pub const XkbUseCoreKbd: u32 = 0x0100;

/// X keysym of the Caps Lock key.
#[allow(non_upper_case_globals)]
pub const XK_Caps_Lock: u32 = 0xffe5;

/// X keysym of the Num Lock key.
#[allow(non_upper_case_globals)]
pub const XK_Num_Lock: u32 = 0xff7f;

/// X keysym of the Scroll Lock key.
#[allow(non_upper_case_globals)]
pub const XK_Scroll_Lock: u32 = 0xff14;

/// An X keysym, as `XkbKeysymToModifiers` takes it.
pub type KeySym = u64;

/// Opaque stand-in for the X display connection. The library never makes
/// one; a front end owns a pointer to it for the lifetime of its adapter.
pub struct Display {
    hidden: (),
}

/// The Xkb keyboard state record returned by `XkbGetState`; the adapter only
/// reads `locked_mods`, the byte of currently locked modifier bits.
#[derive(Clone, Copy, Debug)]
pub struct XkbStateRec {
    pub group: u8,
    pub locked_group: u8,
    pub base_group: u16,
    pub latched_group: u16,
    pub mods: u8,
    pub base_mods: u8,
    pub latched_mods: u8,
    pub locked_mods: u8,
    pub compat_state: u8,
    pub grab_mods: u8,
    pub compat_grab_mods: u8,
    pub lookup_mods: u8,
    pub compat_lookup_mods: u8,
    pub ptr_buttons: u16,
}

/// The keysym that selects `key`; its modifier mask is what
/// `XkbKeysymToModifiers` resolves it to on the live keyboard map.
pub fn keysym_for(key: LockKeys) -> (r: KeySym)
    ensures
        key == LockKeys::CapitalLock ==> r == XK_Caps_Lock,
        key == LockKeys::NumberLock ==> r == XK_Num_Lock,
        key == LockKeys::ScrollingLock ==> r == XK_Scroll_Lock,
{
    match key {
        LockKeys::CapitalLock => XK_Caps_Lock as KeySym,
        LockKeys::NumberLock => XK_Num_Lock as KeySym,
        LockKeys::ScrollingLock => XK_Scroll_Lock as KeySym,
    }
}

/// The `values` argument of a lock request: drive the masked bits high for
/// `Enabled` and low for `Disabled`.
pub open spec fn spec_lock_values(mask: u32, state: LockKeyState) -> u32 {
    if state == LockKeyState::Enabled {
        mask
    } else {
        0u32
    }
}

/// The affect/values pair handed to `XkbLockModifiers` to force the key with
/// modifier mask `mask` into `state`: touch exactly the key's own modifier
/// bits, and set or clear them as the target state asks.
pub fn lock_modifier_args(mask: u32, state: LockKeyState) -> (r: (u32, u32))
    ensures
        r.0 == mask,
        r.1 == spec_lock_values(mask, state),
{
    match state {
        LockKeyState::Enabled => (mask, mask),
        LockKeyState::Disabled => (mask, 0u32),
    }
}

/// The locked-modifier byte after the server honors
/// `XkbLockModifiers(affect, values)`: bits in `affect` are driven to their
/// value in `values`, all other bits keep their value.
pub open spec fn spec_apply_lock_modifiers(locked_mods: u8, affect: u32, values: u32) -> u8 {
    ((((locked_mods as u32) & !affect) | (values & affect)) & 0xffu32) as u8
}

/// The state a state record reports for the key with modifier mask `mask`:
/// enabled exactly when one of the key's modifier bits is locked.
pub open spec fn spec_locked_state(locked_mods: u8, mask: u32) -> LockKeyState {
    spec_state_of_bool((locked_mods as u32) & mask != 0)
}

/// Reads the key's state out of an Xkb state record.
pub fn state_from_record(rec: &XkbStateRec, mask: u32) -> (r: LockKeyState)
    ensures
        r == spec_locked_state(rec.locked_mods, mask),
{
    if (rec.locked_mods as u32) & mask != 0 {
        LockKeyState::Enabled
    } else {
        LockKeyState::Disabled
    }
}

/// The result of a set request from the status `XkbLockModifiers` returned:
/// the X `True` (1) means the request was honored and the key now holds
/// `state`; anything else is the named native failure.
pub fn set_outcome(status: i32, state: LockKeyState) -> (r: LockKeyResult)
    ensures
        status == 1 ==> r == Ok::<LockKeyState, LockKeyError>(state),
        status != 1 ==> r == Err::<LockKeyState, LockKeyError>(LockKeyError::XkbLockModifiers),
{
    if status != 1 {
        Err(LockKeyError::XkbLockModifiers)
    } else {
        Ok(state)
    }
}

/// Law: a lock request built by `lock_modifier_args` for a key whose
/// modifier mask is `mask`, once applied by the server, makes a state
/// read-back observe exactly the requested state — and leaves the modifier
/// bits of every other key (any `other` mask disjoint from `mask`)
/// untouched. Modifier masks are nonzero bytes, and distinct lock keys hold
/// disjoint bits of the locked-modifier byte.
pub proof fn lemma_lock_modifiers_round_trip(
    locked_mods: u8,
    mask: u32,
    other: u32,
    state: LockKeyState,
)
    requires
        mask != 0,
        mask < 0x100,
        other & mask == 0,
    ensures
        spec_locked_state(
            spec_apply_lock_modifiers(locked_mods, mask, spec_lock_values(mask, state)),
            mask,
        ) == state,
        (spec_apply_lock_modifiers(locked_mods, mask, spec_lock_values(mask, state)) as u32)
            & other == (locked_mods as u32) & other,
{
    match state {
        LockKeyState::Enabled => {
            assert((spec_apply_lock_modifiers(locked_mods, mask, mask) as u32) & mask != 0)
                by (bit_vector)
                requires
                    mask != 0,
                    mask < 0x100,
            ;
            assert((spec_apply_lock_modifiers(locked_mods, mask, mask) as u32) & other == (
            locked_mods as u32) & other)
                by (bit_vector)
                requires
                    other & mask == 0,
                    mask < 0x100,
            ;
        },
        LockKeyState::Disabled => {
            assert((spec_apply_lock_modifiers(locked_mods, mask, 0u32) as u32) & mask == 0)
                by (bit_vector)
                requires
                    mask < 0x100,
            ;
            assert((spec_apply_lock_modifiers(locked_mods, mask, 0u32) as u32) & other == (
            locked_mods as u32) & other)
                by (bit_vector)
                requires
                    other & mask == 0,
                    mask < 0x100,
            ;
        },
    }
}

/// Law: applying the same lock request twice leaves the same
/// locked-modifier byte as applying it once — the request is an idempotent
/// assignment of the masked bits.
pub proof fn lemma_lock_modifiers_idempotent(locked_mods: u8, mask: u32, state: LockKeyState)
    ensures
        spec_apply_lock_modifiers(
            spec_apply_lock_modifiers(locked_mods, mask, spec_lock_values(mask, state)),
            mask,
            spec_lock_values(mask, state),
        ) == spec_apply_lock_modifiers(locked_mods, mask, spec_lock_values(mask, state)),
{
    let values: u32 = spec_lock_values(mask, state);
    assert(spec_apply_lock_modifiers(
        spec_apply_lock_modifiers(locked_mods, mask, values),
        mask,
        values,
    ) == spec_apply_lock_modifiers(locked_mods, mask, values)) by (bit_vector);
}

} // verus!
