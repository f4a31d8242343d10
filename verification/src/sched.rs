//! The error-budget scheduler for the steady-state cycle.
//!
//! Each wake cycle's outcome updates a persisted consecutive-failure
//! counter: any success resets it to zero, a failure advances it, and the
//! failure that brings it to the threshold erases every durable record —
//! the device's only self-healing path against a permanently invalid token,
//! wrong network credentials or a deregistered backend identity.

use vstd::prelude::*;
use crate::settings::FlashState;
use crate::settings::StoreView;
use crate::settings::store_empty;
use crate::settings::store_num_errors;

verus! {

/// Consecutive failed cycles after which every durable record is erased.
pub const ERROR_THRESHOLD: u32 = 10;

/// Failed attempts of one cycle's measurement before the cycle counts as
/// failed (one initial attempt plus two retries, with a short fixed delay).
pub const CYCLE_RETRIES: u32 = 2;

/// What the durable records look like after one cycle's outcome is
/// recorded: success resets the counter, a failure advances it, and the
/// failure that reaches the threshold erases everything.
pub open spec fn cycle_recorded(s: StoreView, success: bool) -> StoreView {
    if success {
        StoreView { num_errors: Some(0), ..s }
    } else if store_num_errors(s) + 1 >= ERROR_THRESHOLD {
        store_empty()
    } else {
        StoreView { num_errors: Some((store_num_errors(s) + 1) as u32), ..s }
    }
}

/// Records one cycle's outcome in the durable records.
pub fn record_cycle_outcome(store: &mut FlashState, success: bool)
    ensures
        final(store)@ == cycle_recorded(old(store)@, success),
{
    if success {
        store.reset_errors();
    } else {
        let n = store.get_num_errors();
        if n >= ERROR_THRESHOLD - 1 {
            store.erase_settings();
        } else {
            store.increment_errors();
        }
    }
}

/// The durable records after a whole run of cycles, first outcome first.
pub open spec fn cycles_recorded(s: StoreView, outcomes: Seq<bool>) -> StoreView
    decreases outcomes.len(),
{
    if outcomes.len() == 0 {
        s
    } else {
        cycles_recorded(cycle_recorded(s, outcomes[0]), outcomes.drop_first())
    }
}

/// Fewer consecutive failures than the threshold only advance the counter:
/// every other record is left exactly as it was.
pub proof fn lemma_failures_below_threshold(s: StoreView, outcomes: Seq<bool>)
    requires
        forall|i: int| 0 <= i < outcomes.len() ==> !outcomes[i],
        store_num_errors(s) + outcomes.len() < ERROR_THRESHOLD,
    ensures
        cycles_recorded(s, outcomes) == (StoreView {
            num_errors: if outcomes.len() == 0 {
                s.num_errors
            } else {
                Some((store_num_errors(s) + outcomes.len()) as u32)
            },
            ..s
        }),
    decreases outcomes.len(),
{
    if outcomes.len() == 0 {
        assert(cycles_recorded(s, outcomes) == s);
        assert(s == (StoreView { num_errors: s.num_errors, ..s }));
    } else {
        let s1 = cycle_recorded(s, outcomes[0]);
        lemma_failures_below_threshold(s1, outcomes.drop_first());
    }
}

/// The error-budget law: starting from a zero counter, the threshold-th
/// consecutive failure erases every durable record, while one failure fewer
/// leaves all of them in place with the counter one below the threshold.
pub proof fn lemma_error_budget_threshold(s: StoreView, outcomes: Seq<bool>)
    requires
        forall|i: int| 0 <= i < outcomes.len() ==> !outcomes[i],
        store_num_errors(s) == 0,
    ensures
        outcomes.len() == ERROR_THRESHOLD ==> cycles_recorded(s, outcomes) == store_empty(),
        outcomes.len() == ERROR_THRESHOLD - 1 ==> cycles_recorded(s, outcomes) == (StoreView {
            num_errors: Some((ERROR_THRESHOLD - 1) as u32),
            ..s
        }),
{
    if outcomes.len() == ERROR_THRESHOLD {
        let front = outcomes.take(outcomes.len() - 1);
        lemma_failures_below_threshold(s, front);
        let s9 = cycles_recorded(s, front);
        lemma_cycles_recorded_snoc(s, front, outcomes[outcomes.len() - 1]);
        assert(outcomes == front.push(outcomes[outcomes.len() - 1]));
        assert(cycle_recorded(s9, false) == store_empty());
    } else if outcomes.len() == ERROR_THRESHOLD - 1 {
        lemma_failures_below_threshold(s, outcomes);
    }
}

/// Recording a run of outcomes and then one more is recording the run
/// extended by that outcome.
pub proof fn lemma_cycles_recorded_snoc(s: StoreView, outcomes: Seq<bool>, last: bool)
    ensures
        cycles_recorded(s, outcomes.push(last)) == cycle_recorded(
            cycles_recorded(s, outcomes),
            last,
        ),
    decreases outcomes.len(),
{
    if outcomes.len() == 0 {
        assert(outcomes.push(last).drop_first() =~= outcomes);
        assert(outcomes.push(last)[0] == last);
    } else {
        assert(outcomes.push(last).drop_first() =~= outcomes.drop_first().push(last));
        assert(outcomes.push(last)[0] == outcomes[0]);
        lemma_cycles_recorded_snoc(cycle_recorded(s, outcomes[0]), outcomes.drop_first(), last);
    }
}

/// Any successful cycle resets the counter to zero and touches nothing
/// else.
pub proof fn lemma_success_resets_counter(s: StoreView)
    ensures
        cycle_recorded(s, true) == (StoreView { num_errors: Some(0), ..s }),
        store_num_errors(cycle_recorded(s, true)) == 0,
{
}

} // verus!
