//! The laws of the state machine: what whole runs of the operations do,
//! proved over the same transition functions the operations are specified
//! with.

use vstd::prelude::*;
use crate::controller::{hotkey_transition, reset_transition, toggle_transition};

verus! {

/// How many attempts in a run of toggle calls succeeded, that is, found the
/// window present. An attempt is recorded as the `window_exists` value its
/// call saw.
pub open spec fn successful_toggles(attempts: Seq<bool>) -> nat
    decreases attempts.len(),
{
    if attempts.len() == 0 {
        0
    } else {
        successful_toggles(attempts.drop_last()) + if attempts.last() {
            1nat
        } else {
            0nat
        }
    }
}

/// The flag after a run of toggle calls from `init`, with no reset in
/// between: each attempt flips it exactly when its call found the window.
pub open spec fn penetrable_after_attempts(init: bool, attempts: Seq<bool>) -> bool
    decreases attempts.len(),
{
    if attempts.len() == 0 {
        init
    } else {
        toggle_transition(penetrable_after_attempts(init, attempts.drop_last()), attempts.last())
    }
}

/// Any run of toggle calls with no reset in between leaves the flag at
/// `init` flipped once per successful call: its value is decided by the
/// parity of the successes alone. Failed attempts — calls that found no
/// window — leave the parity, and so the flag, untouched.
pub proof fn lemma_toggle_parity(init: bool, attempts: Seq<bool>)
    ensures
        penetrable_after_attempts(init, attempts) == (init != (successful_toggles(attempts) % 2
            == 1)),
    decreases attempts.len(),
{
    if attempts.len() > 0 {
        lemma_toggle_parity(init, attempts.drop_last());
    }
}

/// From the initial interactive state, a run of toggle calls with no reset
/// in between leaves the overlay click-through exactly when the number of
/// successful toggles is odd.
pub proof fn lemma_parity_from_start(attempts: Seq<bool>)
    ensures
        penetrable_after_attempts(false, attempts) == (successful_toggles(attempts) % 2 == 1),
{
    lemma_toggle_parity(false, attempts);
}

/// The close-time reset always lands in the interactive state, whatever
/// held before, and is idempotent: a second reset changes nothing.
pub proof fn lemma_reset_forces_interactive(p: bool)
    ensures
        !reset_transition(p),
        reset_transition(reset_transition(p)) == reset_transition(p),
{
}

/// A hotkey firing against a present, visible window moves the flag exactly
/// as a successful toggle command does: the two triggers drive one machine.
pub proof fn lemma_hotkey_agrees_with_toggle(p: bool)
    ensures
        hotkey_transition(p, true, true) == toggle_transition(p, true),
{
}

/// The flag after `n` successful toggles from `init`, in the one serialized
/// order the lock imposes on concurrent callers.
pub open spec fn after_n_toggles(init: bool, n: nat) -> bool
    decreases n,
{
    if n == 0 {
        init
    } else {
        !after_n_toggles(init, (n - 1) as nat)
    }
}

/// The value the `i`-th successful toggle (counting from zero) returns in
/// that serialized order: the flag after `i + 1` flips.
pub open spec fn toggle_return(init: bool, i: nat) -> bool {
    after_n_toggles(init, i + 1)
}

/// After `n` successful toggles the flag is `init` flipped `n` times: its
/// value is decided by the parity of `n`.
pub proof fn lemma_n_toggles_parity(init: bool, n: nat)
    ensures
        after_n_toggles(init, n) == (init != (n % 2 == 1)),
    decreases n,
{
    if n > 0 {
        lemma_n_toggles_parity(init, (n - 1) as nat);
    }
}

/// In the serialized order of any set of concurrent successful toggles,
/// adjacent calls return opposite values: no two calls observe the same new
/// value from the same prior state, and each call's outcome is the flip of
/// its predecessor's.
pub proof fn lemma_serialized_returns_alternate(init: bool, i: nat)
    ensures
        toggle_return(init, i + 1) == !toggle_return(init, i),
{
}

} // verus!
