//! The exclusively-owned latch.

use vstd::prelude::*;
use vstd::std_specs::convert::FromSpec;
use crate::error::AlreadyZappedError;
use crate::state::LatchState;

verus! {

/// Software fuse, with custom initial state.
///
/// Default constructor uses `false` as the initial state.
#[derive(Clone, Copy, Debug)]
pub struct Fuse {
    initial_state: bool,
    zapped: bool,
}

impl View for Fuse {
    type V = LatchState;

    closed spec fn view(&self) -> LatchState {
        LatchState { initial_state: self.initial_state, zapped: self.zapped }
    }
}

impl Fuse {
    /// Return a new fuse with the given initial state.
    pub fn new(initial_state: bool) -> (fuse: Self)
        ensures
            fuse@ == LatchState::fresh(initial_state),
    {
        Self { initial_state, zapped: false }
    }

    /// A fuse that was made with `initial_state` and was seen zapped, or not.
    pub(crate) fn observed(initial_state: bool, zapped: bool) -> (fuse: Self)
        ensures
            fuse@ == (LatchState { initial_state, zapped }),
    {
        Self { initial_state, zapped }
    }

    /// Return the initial state of this fuse.
    pub fn initial_state(&self) -> (initial: bool)
        ensures
            initial == self@.initial_state,
    {
        self.initial_state
    }

    /// Return current fuse value as a boolean.
    pub fn as_bool(&self) -> (value: bool)
        ensures
            value == self@.value(),
    {
        self.initial_state ^ self.zapped
    }

    /// Zap this fuse (unconditionally), toggling its value permanently.
    ///
    /// It returns the new value of this fuse.
    pub fn zap(&mut self) -> (value: bool)
        ensures
            final(self)@ == old(self)@.zap(),
            value == final(self)@.value(),
            value == !old(self)@.initial_state,
    {
        self.zapped = true;
        self.initial_state ^ true
    }

    /// Zap this fuse (conditionally), toggling its value permanently.
    ///
    /// If the fuse was already previously zapped, it returns an
    /// [`AlreadyZappedError`] error.
    /// Otherwise, it returns the new value of this fuse.
    pub fn zap_once(&mut self) -> (outcome: Result<bool, AlreadyZappedError>)
        ensures
            outcome == old(self)@.zap_once_result(),
            final(self)@ == old(self)@.zap(),
            outcome is Err ==> final(self)@ == old(self)@,
    {
        if self.zapped {
            return Err(AlreadyZappedError);
        }
        Ok(self.zap())
    }

    /// Whether this fuse has already been zapped.
    pub fn is_zapped(&self) -> (zapped: bool)
        ensures
            zapped == self@.zapped,
    {
        self.zapped
    }

    /// A fuse is its state and nothing more: two fuses with the same state
    /// are the same fuse.
    pub proof fn view_is_injective(self, other: Fuse)
        ensures
            self@ == other@ <==> self == other,
    {
    }

    /// The fuse that the conversion from a boolean stands for is a fresh one.
    pub proof fn from_spec_is_fresh(b: bool)
        ensures
            Fuse::from_spec(b)@ == LatchState::fresh(b),
    {
    }
}

impl Default for Fuse {
    /// A fuse whose initial state is `false`.
    fn default() -> (fuse: Self)
        ensures
            fuse@ == LatchState::fresh(false),
    {
        Self::new(false)
    }
}

impl PartialEq for Fuse {
    /// Two fuses are equal when they were made with the same state and
    /// agree on whether they have been zapped.
    fn eq(&self, other: &Self) -> (equal: bool) {
        self.initial_state == other.initial_state && self.zapped == other.zapped
    }
}

impl Eq for Fuse {}

impl vstd::std_specs::cmp::PartialEqSpecImpl for Fuse {
    open spec fn obeys_eq_spec() -> bool {
        true
    }

    open spec fn eq_spec(&self, other: &Self) -> bool {
        self@ == other@
    }
}

impl From<bool> for Fuse {
    /// A fresh fuse whose initial state is `b`.
    fn from(b: bool) -> (fuse: Self)
        ensures
            fuse@ == LatchState::fresh(b),
    {
        Self { initial_state: b, zapped: false }
    }
}

impl vstd::std_specs::convert::FromSpecImpl<bool> for Fuse {
    open spec fn obeys_from_spec() -> bool {
        true
    }

    closed spec fn from_spec(b: bool) -> Self {
        Fuse { initial_state: b, zapped: false }
    }
}

impl Into<bool> for Fuse {
    /// The current value of the fuse.
    fn into(self) -> (value: bool) {
        self.initial_state ^ self.zapped
    }
}

impl vstd::std_specs::convert::IntoSpecImpl<bool> for Fuse {
    open spec fn obeys_into_spec() -> bool {
        true
    }

    open spec fn into_spec(self) -> bool {
        self@.value()
    }
}

impl core::ops::Not for Fuse {
    type Output = bool;

    /// The opposite of the fuse's current value.
    fn not(self) -> (negated: bool) {
        !self.as_bool()
    }
}

impl vstd::std_specs::ops::NotSpecImpl for Fuse {
    open spec fn obeys_not_spec() -> bool {
        true
    }

    open spec fn not_req(self) -> bool {
        true
    }

    open spec fn not_spec(self) -> bool {
        !self@.value()
    }
}

impl core::hash::Hash for Fuse {
    /// Feeds the initial state, then whether the fuse is zapped.
    fn hash<H: core::hash::Hasher>(&self, state: &mut H) {
        self.initial_state.hash(state);
        self.is_zapped().hash(state);
    }
}

} // verus!
