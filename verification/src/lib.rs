//! Uniform handling of the three keyboard lock keys — Capital Lock, Number
//! Lock and Scrolling Lock — over heterogeneous native mechanisms.
//!
//! The library holds the vocabulary (keys, states, conversions), the
//! capability contract every adapter must meet ([`LockKeyWrapper`]), a
//! verified adapter over library-owned keyboard state ([`LockKey`]), and the
//! decision logic of each platform front end (the `linux`, `macos` and
//! `windows` modules). The native calls themselves live outside the library;
//! every value they need and every interpretation of what they return is
//! computed here, under contract.

pub mod linux;
pub mod macos;
pub mod windows;

use vstd::prelude::*;

verus! {

/// The state of a lock key: its LED and its effect are either on or off.
#[derive(Clone, Copy, Debug, Eq, Hash, Ord, PartialEq, PartialOrd, Structural)]
pub enum LockKeyState {
    Enabled,
    Disabled,
}

impl LockKeyState {
    /// The opposite state.
    pub open spec fn spec_toggle(self) -> Self {
        match self {
            LockKeyState::Enabled => LockKeyState::Disabled,
            LockKeyState::Disabled => LockKeyState::Enabled,
        }
    }

    /// Pure transform to the opposite state; no side effect.
    #[verifier::when_used_as_spec(spec_toggle)]
    pub fn toggle(self) -> (r: Self)
        ensures
            r == self.spec_toggle(),
    {
        match self {
            LockKeyState::Enabled => LockKeyState::Disabled,
            LockKeyState::Disabled => LockKeyState::Enabled,
        }
    }

    /// Stable user-facing text for the state.
    pub fn text(self) -> (r: &'static str)
        ensures
            self == LockKeyState::Enabled ==> r@ == "enabled"@,
            self == LockKeyState::Disabled ==> r@ == "disabled"@,
    {
        match self {
            LockKeyState::Enabled => "enabled",
            LockKeyState::Disabled => "disabled",
        }
    }
}

/// The state that a boolean stands for: `true` is `Enabled`.
pub open spec fn spec_state_of_bool(val: bool) -> LockKeyState {
    if val {
        LockKeyState::Enabled
    } else {
        LockKeyState::Disabled
    }
}

/// The boolean that a state stands for: `Enabled` is `true`.
pub open spec fn spec_bool_of_state(state: LockKeyState) -> bool {
    state == LockKeyState::Enabled
}

impl From<bool> for LockKeyState {
    fn from(val: bool) -> (r: Self) {
        if val {
            LockKeyState::Enabled
        } else {
            LockKeyState::Disabled
        }
    }
}

impl vstd::std_specs::convert::FromSpecImpl<bool> for LockKeyState {
    open spec fn obeys_from_spec() -> bool {
        true
    }

    open spec fn from_spec(val: bool) -> Self {
        spec_state_of_bool(val)
    }
}

impl From<LockKeyState> for bool {
    fn from(val: LockKeyState) -> (r: Self) {
        match val {
            LockKeyState::Enabled => true,
            LockKeyState::Disabled => false,
        }
    }
}

impl vstd::std_specs::convert::FromSpecImpl<LockKeyState> for bool {
    open spec fn obeys_from_spec() -> bool {
        true
    }

    open spec fn from_spec(val: LockKeyState) -> Self {
        spec_bool_of_state(val)
    }
}

/// Law: converting a state to its boolean form and back returns the state
/// unchanged, for both states.
pub proof fn lemma_state_bool_round_trip(state: LockKeyState)
    ensures
        spec_state_of_bool(spec_bool_of_state(state)) == state,
{
}

/// Why a lock-key operation failed. Each variant of the first two names the
/// native operation whose result code reported the failure.
#[derive(Clone, Copy, Debug, Eq, Hash, PartialEq, Structural)]
pub enum LockKeyError {
    /// The X server refused the modifier-lock request.
    XkbLockModifiers,
    /// The HID modifier-lock call reported a non-success code.
    IoHidModifierLockState,
    /// The key has no native selector on the platform in use.
    UnsupportedKey,
}

impl LockKeyError {
    /// Stable diagnostic text identifying which native operation failed.
    pub fn description(self) -> (r: &'static str)
        ensures
            self == LockKeyError::XkbLockModifiers ==> r@ == "XkbLockModifiers"@,
            self == LockKeyError::IoHidModifierLockState ==> r@ == "IOHIDModifierLockState"@,
            self == LockKeyError::UnsupportedKey ==> r@ == "unsupported lock key"@,
    {
        match self {
            LockKeyError::XkbLockModifiers => "XkbLockModifiers",
            LockKeyError::IoHidModifierLockState => "IOHIDModifierLockState",
            LockKeyError::UnsupportedKey => "unsupported lock key",
        }
    }
}

/// A specialized `Result` type for lock key handling.
pub type LockKeyResult = Result<LockKeyState, LockKeyError>;

/// The available lock keys for handling, i.e. Capital Lock, Number Lock and
/// Scrolling Lock.
#[derive(Clone, Copy, Debug, Eq, Hash, Ord, PartialEq, PartialOrd, Structural)]
pub enum LockKeys {
    CapitalLock,
    NumberLock,
    ScrollingLock,
}

/// A collection of methods that are required for lock key handling.
///
/// Every adapter maps the same three keys and two states onto its own native
/// mechanism; the contracts below pin the observable behavior all of them
/// share. An operation that returns `Ok` reports the state the key then has;
/// an operation may fail only by returning `Err`, and even then it leaves
/// every key other than its argument untouched.
pub trait LockKeyWrapper: Sized {
    /// The state of `key` as this adapter currently observes it.
    spec fn key_state(&self, key: LockKeys) -> LockKeyState;

    /// Creates a new lock key object, acquiring whatever resource the
    /// adapter needs.
    fn new() -> Self;

    /// Sets a new state for the lock key. On success the key holds exactly
    /// `state`, whatever it held before.
    fn set(&mut self, key: LockKeys, state: LockKeyState) -> (r: LockKeyResult)
        ensures
            r matches Ok(s) ==> s == state && final(self).key_state(key) == state,
            forall|k: LockKeys|
                k != key ==> #[trigger] final(self).key_state(k) == old(self).key_state(k),
    ;

    /// Enables the lock key; equivalent to `set(key, Enabled)`.
    fn enable(&mut self, key: LockKeys) -> (r: LockKeyResult)
        ensures
            r matches Ok(s) ==> s == LockKeyState::Enabled && final(self).key_state(key)
                == LockKeyState::Enabled,
            forall|k: LockKeys|
                k != key ==> #[trigger] final(self).key_state(k) == old(self).key_state(k),
    ;

    /// Disables the lock key; equivalent to `set(key, Disabled)`.
    fn disable(&mut self, key: LockKeys) -> (r: LockKeyResult)
        ensures
            r matches Ok(s) ==> s == LockKeyState::Disabled && final(self).key_state(key)
                == LockKeyState::Disabled,
            forall|k: LockKeys|
                k != key ==> #[trigger] final(self).key_state(k) == old(self).key_state(k),
    ;

    /// Toggles the lock key state, returning the state the key had just
    /// before the call; on success the key then holds the opposite value.
    fn toggle(&mut self, key: LockKeys) -> (r: LockKeyResult)
        ensures
            r matches Ok(s) ==> s == old(self).key_state(key) && final(self).key_state(key)
                == old(self).key_state(key).spec_toggle(),
            forall|k: LockKeys|
                k != key ==> #[trigger] final(self).key_state(k) == old(self).key_state(k),
    ;

    /// Retrieves the lock key state: a pure query, no mutation.
    fn state(&self, key: LockKeys) -> (r: LockKeyResult)
        ensures
            r matches Ok(s) ==> s == self.key_state(key),
    ;
}

/// The lock key object. It exclusively owns the keyboard-lock state it
/// manages: one slot per key, mutated only through the operations of
/// [`LockKeyWrapper`]. The native front ends layer their platform calls over
/// the same decision functions (see the `linux`, `macos` and `windows`
/// modules) and own a connection handle in this object's place.
#[derive(Debug)]
pub struct LockKey {
    capital: LockKeyState,
    number: LockKeyState,
    scrolling: LockKeyState,
}

impl LockKey {
    /// The keyboard in which `key` has been forced to `state` and every
    /// other key keeps its value.
    pub closed spec fn spec_set(self, key: LockKeys, state: LockKeyState) -> LockKey {
        match key {
            LockKeys::CapitalLock => LockKey { capital: state, ..self },
            LockKeys::NumberLock => LockKey { number: state, ..self },
            LockKeys::ScrollingLock => LockKey { scrolling: state, ..self },
        }
    }
}

impl LockKeyWrapper for LockKey {
    closed spec fn key_state(&self, key: LockKeys) -> LockKeyState {
        match key {
            LockKeys::CapitalLock => self.capital,
            LockKeys::NumberLock => self.number,
            LockKeys::ScrollingLock => self.scrolling,
        }
    }

    /// A fresh object with every key disabled.
    fn new() -> (r: Self)
        ensures
            forall|k: LockKeys| #[trigger] r.key_state(k) == LockKeyState::Disabled,
    {
        LockKey {
            capital: LockKeyState::Disabled,
            number: LockKeyState::Disabled,
            scrolling: LockKeyState::Disabled,
        }
    }

    fn set(&mut self, key: LockKeys, state: LockKeyState) -> (r: LockKeyResult)
        ensures
            r == Ok::<LockKeyState, LockKeyError>(state),
            *final(self) == old(self).spec_set(key, state),
    {
        match key {
            LockKeys::CapitalLock => self.capital = state,
            LockKeys::NumberLock => self.number = state,
            LockKeys::ScrollingLock => self.scrolling = state,
        }
        Ok(state)
    }

    fn enable(&mut self, key: LockKeys) -> (r: LockKeyResult)
        ensures
            r == Ok::<LockKeyState, LockKeyError>(LockKeyState::Enabled),
            *final(self) == old(self).spec_set(key, LockKeyState::Enabled),
    {
        self.set(key, LockKeyState::Enabled)
    }

    fn disable(&mut self, key: LockKeys) -> (r: LockKeyResult)
        ensures
            r == Ok::<LockKeyState, LockKeyError>(LockKeyState::Disabled),
            *final(self) == old(self).spec_set(key, LockKeyState::Disabled),
    {
        self.set(key, LockKeyState::Disabled)
    }

    fn toggle(&mut self, key: LockKeys) -> (r: LockKeyResult)
        ensures
            r == Ok::<LockKeyState, LockKeyError>(old(self).key_state(key)),
            *final(self) == old(self).spec_set(key, old(self).key_state(key).spec_toggle()),
    {
        let previous = match self.state(key) {
            Ok(s) => s,
            Err(e) => return Err(e),
        };
        match self.set(key, previous.toggle()) {
            Ok(_) => Ok(previous),
            Err(e) => Err(e),
        }
    }

    fn state(&self, key: LockKeys) -> (r: LockKeyResult)
        ensures
            r == Ok::<LockKeyState, LockKeyError>(self.key_state(key)),
    {
        Ok(
            match key {
                LockKeys::CapitalLock => self.capital,
                LockKeys::NumberLock => self.number,
                LockKeys::ScrollingLock => self.scrolling,
            },
        )
    }
}

/// Law: setting a key and then reading that key yields exactly the state
/// that was set, from any starting keyboard.
pub proof fn lemma_set_then_state(lk: LockKey, key: LockKeys, state: LockKeyState)
    ensures
        lk.spec_set(key, state).key_state(key) == state,
{
}

/// Law: enabling a key leaves it reading `Enabled`, and disabling a key
/// leaves it reading `Disabled`, from any starting keyboard.
pub proof fn lemma_enable_disable(lk: LockKey, key: LockKeys)
    ensures
        lk.spec_set(key, LockKeyState::Enabled).key_state(key) == LockKeyState::Enabled,
        lk.spec_set(key, LockKeyState::Disabled).key_state(key) == LockKeyState::Disabled,
{
}

/// Law: after a toggle — a set to the opposite of the state read just before
/// it — the key reads as that opposite value, and every other key is
/// untouched. The toggle operation itself returns the pre-toggle state; see
/// the contract of [`LockKeyWrapper::toggle`].
pub proof fn lemma_toggle_flips(lk: LockKey, key: LockKeys)
    ensures
        lk.spec_set(key, lk.key_state(key).spec_toggle()).key_state(key) == lk.key_state(
            key,
        ).spec_toggle(),
        forall|k: LockKeys|
            k != key ==> #[trigger] lk.spec_set(key, lk.key_state(key).spec_toggle()).key_state(k)
                == lk.key_state(k),
{
}

/// Law: a set is an idempotent assignment — repeating it with the same state
/// is a no-op on the whole keyboard, so no key flickers through an
/// intermediate value.
pub proof fn lemma_set_idempotent(lk: LockKey, key: LockKeys, state: LockKeyState)
    ensures
        lk.spec_set(key, state).spec_set(key, state) == lk.spec_set(key, state),
{
}

} // verus!
