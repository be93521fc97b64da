//! The abstract state machine that every latch follows.

use vstd::prelude::*;
use crate::error::AlreadyZappedError;

verus! {

/// What a latch is, mathematically: the value it was made with, and whether
/// it has been zapped since.
pub struct LatchState {
    pub initial_state: bool,
    pub zapped: bool,
}

impl LatchState {
    /// The state of a latch that was just made.
    pub open spec fn fresh(initial_state: bool) -> LatchState {
        LatchState { initial_state, zapped: false }
    }

    /// The boolean that the latch currently stands for.
    pub open spec fn value(self) -> bool {
        self.initial_state != self.zapped
    }

    /// The state after a zap, conditional or not.
    pub open spec fn zap(self) -> LatchState {
        LatchState { initial_state: self.initial_state, zapped: true }
    }

    /// The state after `n` zaps in a row, conditional or not.
    pub open spec fn after_zaps(self, n: nat) -> LatchState
        decreases n,
    {
        if n == 0 {
            self
        } else {
            self.after_zaps((n - 1) as nat).zap()
        }
    }

    /// What a conditional zap reports in this state.
    pub open spec fn zap_once_result(self) -> Result<bool, AlreadyZappedError> {
        if self.zapped {
            Err(AlreadyZappedError)
        } else {
            Ok(!self.initial_state)
        }
    }
}

} // verus!
