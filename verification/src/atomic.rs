//! The latch that threads can share.

use core::sync::atomic::AtomicBool;
use core::sync::atomic::Ordering;
use vstd::prelude::*;
use crate::error::AlreadyZappedError;
use crate::fuse::Fuse;

verus! {

/// Atomic software fuse, with custom initial state.
///
/// Default constructor uses `false` as the initial state.
///
/// The fuse may be shared between threads, and any of them may zap it at any
/// moment. Its contracts therefore speak only of what no other thread can
/// change: the initial state, and the value that a zap reports. What a call
/// does with the flag it has read is the state machine of [`Fuse`].
#[derive(Debug)]
pub struct AtomicFuse {
    initial_state: bool,
    zapped: AtomicBool,
}

impl AtomicFuse {
    /// The state that this fuse was made with. It never changes.
    pub closed spec fn spec_initial_state(&self) -> bool {
        self.initial_state
    }

    /// Return a new fuse with the given initial state.
    pub fn new(initial_state: bool) -> (fuse: Self)
        ensures
            fuse.initial_state() == initial_state,
    {
        Self { initial_state, zapped: AtomicBool::new(false) }
    }

    /// Return the initial state of this fuse.
    #[verifier::when_used_as_spec(spec_initial_state)]
    pub fn initial_state(&self) -> (initial: bool)
        ensures
            initial == self.initial_state(),
    {
        self.initial_state
    }

    /// The fuse as it stands at the moment of the call.
    fn snapshot(&self) -> (seen: Fuse)
        ensures
            seen@.initial_state == self.initial_state(),
    {
        Fuse::observed(self.initial_state, self.zapped.load(Ordering::SeqCst))
    }

    /// Return current fuse value as a boolean.
    ///
    /// The value is read once, with sequentially consistent ordering. It may
    /// be out of date as soon as it is returned, so nothing is promised of it.
    pub fn as_bool(&self) -> (value: bool) {
        self.snapshot().as_bool()
    }

    /// Zap this fuse (unconditionally), toggling its value permanently.
    ///
    /// It returns the new value of this fuse, which is the opposite of its
    /// initial state whether or not this call was the first to zap it.
    pub fn zap(&self) -> (value: bool)
        ensures
            value == !self.initial_state(),
    {
        let previous = self.zapped.fetch_or(true, Ordering::SeqCst);
        let mut seen = Fuse::observed(self.initial_state, previous);
        seen.zap()
    }

    /// Zap this fuse (conditionally), toggling its value permanently.
    ///
    /// If the fuse was already previously zapped, it returns an
    /// [`AlreadyZappedError`] error.
    /// Otherwise, it returns the new value of this fuse.
    ///
    /// The flag is set by one compare-and-exchange from `false` to `true`, so
    /// of all the calls on one fuse a single one finds it unset. Which one is
    /// up to the threads: the contract gives the two possible outcomes.
    pub fn zap_once(&self) -> (outcome: Result<bool, AlreadyZappedError>)
        ensures
            outcome == Ok::<bool, AlreadyZappedError>(!self.initial_state()) || outcome == Err::<
                bool,
                AlreadyZappedError,
            >(AlreadyZappedError),
    {
        let previous = match self.zapped.compare_exchange(
            false,
            true,
            Ordering::SeqCst,
            Ordering::SeqCst,
        ) {
            Ok(flag) => flag,
            Err(flag) => flag,
        };
        let mut seen = Fuse::observed(self.initial_state, previous);
        seen.zap_once()
    }

    /// Whether this fuse has already been zapped.
    ///
    /// The flag is read once, with sequentially consistent ordering. A `false`
    /// may be out of date as soon as it is returned, so nothing is promised
    /// of the answer.
    pub fn is_zapped(&self) -> (zapped: bool) {
        self.snapshot().is_zapped()
    }
}

impl Default for AtomicFuse {
    /// A fuse whose initial state is `false`.
    fn default() -> (fuse: Self)
        ensures
            fuse.initial_state() == false,
    {
        Self::new(false)
    }
}

impl From<bool> for AtomicFuse {
    /// A fresh fuse whose initial state is `b`.
    fn from(b: bool) -> (fuse: Self)
        ensures
            fuse.initial_state() == b,
    {
        Self { initial_state: b, zapped: AtomicBool::new(false) }
    }
}

/// Every conversion makes a flag of its own, so the fuse it returns is no
/// function of the boolean alone.
impl vstd::std_specs::convert::FromSpecImpl<bool> for AtomicFuse {
    open spec fn obeys_from_spec() -> bool {
        false
    }

    closed spec fn from_spec(b: bool) -> Self {
        arbitrary()
    }
}

impl Into<bool> for AtomicFuse {
    /// The value of the fuse at the end of its life.
    ///
    /// The flag is taken out of the fuse; the answer is then the value of the
    /// fuse that was found, as [`Fuse`] defines it.
    fn into(self) -> (value: bool) {
        Fuse::observed(self.initial_state, self.zapped.into_inner()).as_bool()
    }
}

/// The value depends on the flag, which is no part of what the fuse is in a
/// contract.
impl vstd::std_specs::convert::IntoSpecImpl<bool> for AtomicFuse {
    open spec fn obeys_into_spec() -> bool {
        false
    }

    closed spec fn into_spec(self) -> bool {
        arbitrary()
    }
}

impl Clone for AtomicFuse {
    /// An independent fuse with the same initial state, zapped if this one
    /// was at the moment of the call.
    fn clone(&self) -> (copy: Self)
        ensures
            copy.initial_state() == self.initial_state(),
    {
        let zapped = self.zapped.load(Ordering::SeqCst);
        Self { initial_state: self.initial_state, zapped: AtomicBool::new(zapped) }
    }
}

impl PartialEq for AtomicFuse {
    /// Compares what the two fuses are at the moment of the call.
    fn eq(&self, other: &Self) -> (equal: bool)
        ensures
            equal ==> self.initial_state() == other.initial_state(),
    {
        self.snapshot() == other.snapshot()
    }
}

impl Eq for AtomicFuse {}

/// Equality reads the two flags as they stand, so it is no function of the
/// two fuses as contracts see them.
impl vstd::std_specs::cmp::PartialEqSpecImpl for AtomicFuse {
    open spec fn obeys_eq_spec() -> bool {
        false
    }

    closed spec fn eq_spec(&self, other: &Self) -> bool {
        arbitrary()
    }
}

impl core::ops::Not for AtomicFuse {
    type Output = bool;

    /// The opposite of the fuse's value at the moment of the call.
    ///
    /// The flag is read once; the answer is then the negation of the fuse
    /// that was seen, as [`Fuse`] defines it.
    fn not(self) -> (negated: bool) {
        core::ops::Not::not(self.snapshot())
    }
}

/// The negation depends on the flag, as the value does.
impl vstd::std_specs::ops::NotSpecImpl for AtomicFuse {
    open spec fn obeys_not_spec() -> bool {
        false
    }

    open spec fn not_req(self) -> bool {
        true
    }

    closed spec fn not_spec(self) -> bool {
        arbitrary()
    }
}

impl core::hash::Hash for AtomicFuse {
    /// Feeds the initial state, then whether the fuse is zapped at the
    /// moment of the call.
    fn hash<H: core::hash::Hasher>(&self, state: &mut H) {
        self.initial_state.hash(state);
        self.is_zapped().hash(state);
    }
}

} // verus!
