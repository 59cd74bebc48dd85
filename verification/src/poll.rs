//! What a poll of the node yields, and what a waiter asks for in return.

use vstd::prelude::*;

verus! {

/// Seconds that pass between two polls while a waiter keeps waiting.
pub const POLL_INTERVAL_SECS: u64 = 1;

/// The answer to one "latest block" query.
#[derive(Clone, Copy, Debug, PartialEq, Eq, Structural)]
pub enum QueryOutcome {
    /// The node answered; its latest block has this height.
    Success(u64),
    /// The query failed, for whatever reason.
    Failure,
}

/// What the caller of a waiter has to do next.
#[derive(Clone, Copy, Debug, PartialEq, Eq, Structural)]
pub enum Directive {
    /// Let `delay_secs` seconds pass, then query the node and hand the outcome in.
    Poll { delay_secs: u64 },
    /// The wait is over: return to the caller.
    Finish,
    /// A query failed where no failure is tolerated: give up at once.
    Abort,
}

/// How a wait stands after a number of polls.
#[derive(Clone, Copy, Debug, PartialEq, Eq, Structural)]
pub enum WaitStatus {
    /// Every poll so far asked for another one.
    Pending,
    /// The awaited condition was seen.
    Returned,
    /// A query failure ended the wait.
    Aborted,
}

/// The index of the first poll at or after `from` whose outcome is not
/// `steady`, or the number of polls if there is none.
pub open spec fn steady_end(polls: Seq<QueryOutcome>, steady: QueryOutcome, from: int) -> int
    decreases polls.len() - from,
{
    if 0 <= from < polls.len() && polls[from] == steady {
        steady_end(polls, steady, from + 1)
    } else {
        from
    }
}

/// `steady_end` is the one index at or after `from` before which every outcome
/// is `steady` and at which, if there is a poll there, the outcome is not.
pub proof fn lemma_steady_end(polls: Seq<QueryOutcome>, steady: QueryOutcome, from: int)
    requires
        0 <= from <= polls.len(),
    ensures
        from <= steady_end(polls, steady, from) <= polls.len(),
        forall|i: int| from <= i < steady_end(polls, steady, from) ==> polls[i] == steady,
        steady_end(polls, steady, from) < polls.len() ==> polls[steady_end(polls, steady, from)]
            != steady,
    decreases polls.len() - from,
{
    if from < polls.len() && polls[from] == steady {
        lemma_steady_end(polls, steady, from + 1);
    }
}

/// An index that bounds a run of `steady` outcomes from `from` and is followed
/// by another outcome, or by nothing, is `steady_end`.
pub proof fn lemma_steady_end_unique(
    polls: Seq<QueryOutcome>,
    steady: QueryOutcome,
    from: int,
    end: int,
)
    requires
        0 <= from <= end <= polls.len(),
        forall|i: int| from <= i < end ==> polls[i] == steady,
        end < polls.len() ==> polls[end] != steady,
    ensures
        steady_end(polls, steady, from) == end,
    decreases end - from,
{
    if from < end {
        lemma_steady_end_unique(polls, steady, from + 1, end);
    }
}

} // verus!
