//! The functions of the standard library that the fuses call and that vstd
//! leaves without a specification. Each is declared here with its signature
//! alone: nothing is assumed of what it returns.

use core::sync::atomic::AtomicBool;
use vstd::prelude::*;

verus! {

/// `AtomicBool::into_inner` consumes the atomic and hands back the boolean it
/// held. Nothing is claimed of that boolean.
pub assume_specification[ AtomicBool::into_inner ](flag: AtomicBool) -> bool;

/// `<bool as Hash>::hash` feeds one boolean to the hasher. Nothing is claimed
/// of the hasher afterwards.
pub assume_specification<H: core::hash::Hasher>[ <bool as core::hash::Hash>::hash ](
    value: &bool,
    state: &mut H,
);

} // verus!
