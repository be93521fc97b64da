//! The one failure a latch can report.

use vstd::prelude::*;

verus! {

/// Attempted to `zap_once` an already zapped fuse.
#[derive(Clone, Copy, Debug, Default, Eq, Hash, PartialEq, Structural)]
pub struct AlreadyZappedError;

} // verus!
