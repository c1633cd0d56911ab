//! The confirmation gate: how long to wait for a destination chain to
//! bury a block under enough confirmations.
//!
//! The chain is polled at most ten times. The first poll is made at once;
//! the poll with number `k` (counting from 0) follows a pause of `2^k` time
//! units. A wait succeeds on the first poll that reports the required depth
//! and is given up when the tenth poll has not.

use vstd::arithmetic::power2::{lemma2_to64, pow2};
use vstd::prelude::*;

verus! {

/// The number of polls after which a wait is given up.
pub const MAX_ATTEMPTS: u32 = 10;

/// The pause that the backoff starts from, in time units.
pub const INITIAL_DELAY: u64 = 1;

/// The decision that follows a poll.
#[derive(Debug, Clone, Copy, PartialEq, Eq, Structural)]
pub enum GateDecision {
    /// The required depth is reached.
    Confirmed,
    /// Pause for `delay` time units, then make the poll numbered `attempt`.
    Retry { attempt: u32, delay: u64 },
    /// The polls allowed are used up.
    Timeout,
}

/// The pause before the poll numbered `attempt`.
pub open spec fn backoff_delay(attempt: nat) -> nat {
    INITIAL_DELAY as nat * pow2(attempt)
}

/// The decision after the poll numbered `attempt` (the first is 0) has
/// reported `confirmations`.
///
/// A report from a poll beyond the cap opens nothing.
pub open spec fn gate_decision(attempt: u32, confirmations: u64, required_confirmations: u64)
    -> GateDecision {
    if attempt >= MAX_ATTEMPTS {
        GateDecision::Timeout
    } else if confirmations >= required_confirmations {
        GateDecision::Confirmed
    } else if attempt + 1 >= MAX_ATTEMPTS {
        GateDecision::Timeout
    } else {
        GateDecision::Retry {
            attempt: (attempt + 1) as u32,
            delay: backoff_delay((attempt + 1) as nat) as u64,
        }
    }
}

/// The pause before the poll numbered `attempt`, for the polls allowed.
pub fn delay_before(attempt: u32) -> (delay: u64)
    requires
        attempt < MAX_ATTEMPTS,
    ensures
        delay == backoff_delay(attempt as nat),
        1 <= delay <= 512,
{
    let mut delay: u64 = INITIAL_DELAY;
    let mut k: u32 = 0;
    proof {
        lemma2_to64();
    }
    while k < attempt
        invariant
            k <= attempt < MAX_ATTEMPTS,
            delay == backoff_delay(k as nat),
            delay <= pow2(9),
            pow2(9) == 512,
        decreases attempt - k,
    {
        proof {
            vstd::arithmetic::power2::lemma_pow2_unfold((k + 1) as nat);
            if k + 1 < 9 {
                vstd::arithmetic::power2::lemma_pow2_strictly_increases((k + 1) as nat, 9);
            }
        }
        delay = delay * 2;
        k += 1;
    }
    delay
}

/// Decides what follows the poll numbered `attempt`, which reported
/// `confirmations`.
pub fn wait_for_confirmations(attempt: u32, confirmations: u64, required_confirmations: u64) -> (decision:
    GateDecision)
    ensures
        decision == gate_decision(attempt, confirmations, required_confirmations),
{
    if attempt >= MAX_ATTEMPTS {
        return GateDecision::Timeout;
    }
    if confirmations >= required_confirmations {
        return GateDecision::Confirmed;
    }
    let next = attempt + 1;
    if next >= MAX_ATTEMPTS {
        return GateDecision::Timeout;
    }
    GateDecision::Retry { attempt: next, delay: delay_before(next) }
}

/// Where a wait stands.
pub enum GateState {
    /// The poll numbered `attempt` is awaited.
    Polling { attempt: u32 },
    /// The required depth was reported.
    Confirmed,
    /// The polls allowed are used up.
    TimedOut,
}

/// The state after a poll's report, from the state before it. A report that
/// reaches a wait which has ended changes nothing.
pub open spec fn gate_step(state: GateState, confirmations: u64, required_confirmations: u64)
    -> GateState {
    match state {
        GateState::Polling { attempt } => match gate_decision(
            attempt,
            confirmations,
            required_confirmations,
        ) {
            GateDecision::Confirmed => GateState::Confirmed,
            GateDecision::Retry { attempt: next, .. } => GateState::Polling { attempt: next },
            GateDecision::Timeout => GateState::TimedOut,
        },
        GateState::Confirmed => GateState::Confirmed,
        GateState::TimedOut => GateState::TimedOut,
    }
}

/// The state of a wait that began with poll 0 and has seen `reports` in
/// order.
pub open spec fn gate_run(reports: Seq<u64>, required_confirmations: u64) -> GateState
    decreases reports.len(),
{
    if reports.len() == 0 {
        GateState::Polling { attempt: 0 }
    } else {
        gate_step(
            gate_run(reports.drop_last(), required_confirmations),
            reports.last(),
            required_confirmations,
        )
    }
}

/// The number of polls that the wait has issued by the time it has seen
/// `reports`: one for each report that reached a wait still going on.
pub open spec fn polls_issued(reports: Seq<u64>, required_confirmations: u64) -> nat
    decreases reports.len(),
{
    if reports.len() == 0 {
        0
    } else {
        let earlier = polls_issued(reports.drop_last(), required_confirmations);
        if gate_run(reports.drop_last(), required_confirmations) is Polling {
            earlier + 1
        } else {
            earlier
        }
    }
}

/// A wait still going on awaits the poll whose number is the count of polls
/// issued so far, and that number is below the cap.
proof fn lemma_polling_counts(reports: Seq<u64>, required_confirmations: u64)
    ensures
        polls_issued(reports, required_confirmations) <= MAX_ATTEMPTS,
        polls_issued(reports, required_confirmations) <= reports.len(),
        gate_run(reports, required_confirmations) matches GateState::Polling { attempt }
            ==> attempt == polls_issued(reports, required_confirmations) && attempt
            < MAX_ATTEMPTS && attempt == reports.len(),
        gate_run(reports, required_confirmations) is Confirmed ==> 0 < polls_issued(
            reports,
            required_confirmations,
        ) && reports[polls_issued(reports, required_confirmations) - 1]
            >= required_confirmations,
    decreases reports.len(),
{
    if reports.len() > 0 {
        lemma_polling_counts(reports.drop_last(), required_confirmations);
    }
}

/// Whatever the chain reports, a wait issues at most ten polls, and it ends
/// in success only on a poll that reported the required depth.
pub proof fn lemma_gate_bounded(reports: Seq<u64>, required_confirmations: u64)
    ensures
        polls_issued(reports, required_confirmations) <= MAX_ATTEMPTS,
        reports.len() >= MAX_ATTEMPTS ==> !(gate_run(reports, required_confirmations) is Polling),
        gate_run(reports, required_confirmations) is Confirmed ==> exists|i: int|
            0 <= i < reports.len() && i < MAX_ATTEMPTS && reports[i] >= required_confirmations,
{
    lemma_polling_counts(reports, required_confirmations);
    if gate_run(reports, required_confirmations) is Confirmed {
        let i = polls_issued(reports, required_confirmations) - 1;
        assert(0 <= i < reports.len() && i < MAX_ATTEMPTS && reports[i] >= required_confirmations);
    }
}

} // verus!
