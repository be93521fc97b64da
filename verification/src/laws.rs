//! What holds of every latch, proved over the abstract state machine and over
//! the fuse that follows it.

use vstd::prelude::*;
use vstd::std_specs::cmp::PartialEqSpec;
use vstd::std_specs::convert::FromSpec;
use vstd::std_specs::convert::IntoSpec;
use crate::error::AlreadyZappedError;
use crate::fuse::Fuse;
use crate::state::LatchState;

verus! {

/// A latch that was just made reports the state it was made with and is not
/// zapped.
pub proof fn fresh_reports_initial_state(initial_state: bool)
    ensures
        LatchState::fresh(initial_state).value() == initial_state,
        LatchState::fresh(initial_state).initial_state == initial_state,
        !LatchState::fresh(initial_state).zapped,
{
}

/// A zap keeps the initial state, leaves the latch zapped, and makes it
/// report the opposite of its initial state, whatever it reported before.
pub proof fn zap_toggles(state: LatchState)
    ensures
        state.zap().initial_state == state.initial_state,
        state.zap().zapped,
        state.zap().value() == !state.initial_state,
        !state.zapped ==> state.zap().value() == !state.value(),
{
}

/// A zapped latch is at its end: another zap changes nothing.
pub proof fn zapped_is_terminal(state: LatchState)
    requires
        state.zapped,
    ensures
        state.zap() == state,
        state.zap().value() == state.value(),
{
}

/// Zapping is idempotent: one zap or many leave the latch in the same state,
/// zapped and reporting the opposite of its initial state.
pub proof fn zap_is_idempotent(state: LatchState, n: nat)
    requires
        n >= 1,
    ensures
        state.after_zaps(n) == state.zap(),
        state.after_zaps(n).zapped,
        state.after_zaps(n).value() == !state.initial_state,
    decreases n,
{
    if n > 1 {
        zap_is_idempotent(state, (n - 1) as nat);
    } else {
        assert(state.after_zaps(0) == state);
    }
}

/// No number of zaps brings a zapped latch back, or changes what it reports.
pub proof fn never_unzaps(state: LatchState, n: nat)
    requires
        state.zapped,
    ensures
        state.after_zaps(n) == state,
    decreases n,
{
    if n > 0 {
        never_unzaps(state, (n - 1) as nat);
    }
}

/// The value of a latch changes at most once, and only from its initial
/// state to the opposite: after any number of zaps it reports the initial
/// state if there was no zap at all, and the opposite otherwise.
pub proof fn value_changes_at_most_once(initial_state: bool, n: nat)
    ensures
        LatchState::fresh(initial_state).after_zaps(n).value() == (if n == 0 {
            initial_state
        } else {
            !initial_state
        }),
{
    if n >= 1 {
        zap_is_idempotent(LatchState::fresh(initial_state), n);
    }
}

/// A conditional zap succeeds exactly once per latch. On a latch that has
/// seen `earlier` zaps since it was made, it reports the new value if
/// `earlier` is zero and fails otherwise; either way the latch is then in the
/// state that one zap leaves it in.
pub proof fn zap_once_succeeds_exactly_once(initial_state: bool, earlier: nat)
    ensures
        LatchState::fresh(initial_state).after_zaps(earlier).zap_once_result() == (if earlier
            == 0 {
            Ok::<bool, AlreadyZappedError>(!initial_state)
        } else {
            Err::<bool, AlreadyZappedError>(AlreadyZappedError)
        }),
        LatchState::fresh(initial_state).after_zaps(earlier + 1) == LatchState::fresh(
            initial_state,
        ).zap(),
{
    if earlier >= 1 {
        zap_is_idempotent(LatchState::fresh(initial_state), earlier);
    }
    zap_is_idempotent(LatchState::fresh(initial_state), earlier + 1);
}

/// A conditional zap fails exactly on a zapped latch, and a success reports
/// the opposite of the initial state.
pub proof fn zap_once_fails_iff_zapped(state: LatchState)
    ensures
        state.zap_once_result() is Err <==> state.zapped,
        state.zap_once_result() is Ok ==> state.zap_once_result() == Ok::<
            bool,
            AlreadyZappedError,
        >(state.zap().value()),
{
}

/// Round trip: turning a fuse into a boolean and that boolean into a fuse
/// keeps the value and forgets the zap. The new fuse is not zapped, and its
/// initial state is what the first one reported.
pub proof fn round_trip_forgets_zap(fuse: Fuse)
    ensures
        IntoSpec::<bool>::into_spec(fuse) == fuse@.value(),
        Fuse::from_spec(IntoSpec::<bool>::into_spec(fuse))@ == LatchState::fresh(fuse@.value()),
        !Fuse::from_spec(IntoSpec::<bool>::into_spec(fuse))@.zapped,
        Fuse::from_spec(IntoSpec::<bool>::into_spec(fuse))@.initial_state == fuse@.value(),
        Fuse::from_spec(IntoSpec::<bool>::into_spec(fuse))@.value() == fuse@.value(),
{
    Fuse::from_spec_is_fresh(fuse@.value());
}

/// Two fuses are equal exactly when they agree on the initial state and on
/// whether they are zapped.
pub proof fn equality_is_structural(a: Fuse, b: Fuse)
    ensures
        a.eq_spec(&b) <==> (a@.initial_state == b@.initial_state && a@.zapped == b@.zapped),
        a.eq_spec(&b) <==> a == b,
{
    a.view_is_injective(b);
}

/// Reporting the same value does not make two latches equal: a zapped latch
/// made with `true` and a fresh one made with `false` both report `false`,
/// and differ.
pub proof fn equal_values_do_not_make_equal(a: Fuse, b: Fuse)
    requires
        a@ == LatchState::fresh(true).zap(),
        b@ == LatchState::fresh(false),
    ensures
        a@.value() == b@.value(),
        !a.eq_spec(&b),
{
}

} // verus!
