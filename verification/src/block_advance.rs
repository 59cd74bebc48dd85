//! Waiting until the chain's height has moved.
//!
//! The first successful poll fixes the baseline height. Every later poll is
//! compared with it: the same height asks for another poll after the fixed
//! interval, any other height ends the wait. A failed query is never retried:
//! it aborts the wait on the spot, at the baseline poll as at any later one.

use vstd::prelude::*;
use crate::poll::{steady_end, Directive, QueryOutcome, WaitStatus, POLL_INTERVAL_SECS};
use crate::poll::{lemma_steady_end, lemma_steady_end_unique};

verus! {

/// Where a wait for the next block stands.
#[derive(Clone, Copy, Debug, PartialEq, Eq, Structural)]
pub enum BlockAdvanceWaiter {
    /// No poll has been answered yet.
    AwaitingBaseline,
    /// The baseline is taken; polls are compared with it.
    Watching { baseline: u64 },
    /// A height other than the baseline was seen.
    Advanced,
    /// A query failed.
    Faulted,
}

impl BlockAdvanceWaiter {
    /// The wait is over, one way or the other.
    pub open spec fn is_finished(self) -> bool {
        self is Advanced || self is Faulted
    }

    /// The state and the directive that follow the outcome of one poll.
    pub open spec fn spec_step(self, outcome: QueryOutcome) -> (Self, Directive) {
        match (self, outcome) {
            (Self::AwaitingBaseline, QueryOutcome::Success(height)) => (
                Self::Watching { baseline: height },
                Directive::Poll { delay_secs: 0 },
            ),
            (Self::Watching { baseline }, QueryOutcome::Success(height)) => {
                if height == baseline {
                    (self, Directive::Poll { delay_secs: POLL_INTERVAL_SECS })
                } else {
                    (Self::Advanced, Directive::Finish)
                }
            },
            (Self::AwaitingBaseline, QueryOutcome::Failure)
            | (Self::Watching { .. }, QueryOutcome::Failure) => (Self::Faulted, Directive::Abort),
            (Self::Advanced, _) => (self, Directive::Finish),
            (Self::Faulted, _) => (self, Directive::Abort),
        }
    }

    /// The state after the outcomes `polls` were handed in one by one.
    pub open spec fn after(self, polls: Seq<QueryOutcome>) -> Self
        decreases polls.len(),
    {
        if polls.len() == 0 {
            self
        } else {
            self.after(polls.drop_last()).spec_step(polls.last()).0
        }
    }

    /// What the wait has come to: pending until it is finished.
    pub open spec fn spec_status(self) -> WaitStatus {
        match self {
            Self::Advanced => WaitStatus::Returned,
            Self::Faulted => WaitStatus::Aborted,
            _ => WaitStatus::Pending,
        }
    }

    /// A waiter that has seen nothing yet. Its first poll is due at once.
    pub fn new() -> (waiter: Self)
        ensures
            waiter == Self::AwaitingBaseline,
    {
        BlockAdvanceWaiter::AwaitingBaseline
    }

    /// Whether the wait is over.
    pub fn finished(&self) -> (done: bool)
        ensures
            done == self.is_finished(),
    {
        match self {
            BlockAdvanceWaiter::Advanced | BlockAdvanceWaiter::Faulted => true,
            _ => false,
        }
    }

    /// What the wait has come to so far.
    pub fn status(&self) -> (status: WaitStatus)
        ensures
            status == self.spec_status(),
    {
        match self {
            BlockAdvanceWaiter::Advanced => WaitStatus::Returned,
            BlockAdvanceWaiter::Faulted => WaitStatus::Aborted,
            _ => WaitStatus::Pending,
        }
    }

    /// Takes the outcome of the poll that was asked for and says what comes
    /// next. A finished waiter stays as it is and repeats its last word.
    pub fn step(self, outcome: QueryOutcome) -> (next: (Self, Directive))
        ensures
            next == self.spec_step(outcome),
            next.1 is Poll <==> !next.0.is_finished(),
            self is Watching && !next.0.is_finished() ==> next.0 == self,
            self is AwaitingBaseline && next.1 is Poll ==> next.1->delay_secs == 0,
            self is Watching && next.1 is Poll ==> next.1->delay_secs == POLL_INTERVAL_SECS,
    {
        match self {
            BlockAdvanceWaiter::AwaitingBaseline => match outcome {
                QueryOutcome::Success(height) => (
                    BlockAdvanceWaiter::Watching { baseline: height },
                    Directive::Poll { delay_secs: 0 },
                ),
                QueryOutcome::Failure => (BlockAdvanceWaiter::Faulted, Directive::Abort),
            },
            BlockAdvanceWaiter::Watching { baseline } => match outcome {
                QueryOutcome::Success(height) => {
                    if height == baseline {
                        (self, Directive::Poll { delay_secs: POLL_INTERVAL_SECS })
                    } else {
                        (BlockAdvanceWaiter::Advanced, Directive::Finish)
                    }
                },
                QueryOutcome::Failure => (BlockAdvanceWaiter::Faulted, Directive::Abort),
            },
            BlockAdvanceWaiter::Advanced => (self, Directive::Finish),
            BlockAdvanceWaiter::Faulted => (self, Directive::Abort),
        }
    }
}

/// The number of polls that a wait for the next block makes when the node
/// answers with `polls`, in this order: all of them if the wait is still
/// pending after the last, else up to the one that ends it.
pub open spec fn block_wait_polls(polls: Seq<QueryOutcome>) -> int {
    if polls.len() == 0 {
        0
    } else if polls[0] is Failure {
        1
    } else {
        let end = steady_end(polls, polls[0], 1);
        if end < polls.len() {
            end + 1
        } else {
            end
        }
    }
}

/// How a wait for the next block stands once the node has answered with
/// `polls`: pending while every answer is the baseline height, returned at the
/// first other height, aborted at the first failure.
pub open spec fn block_wait_status(polls: Seq<QueryOutcome>) -> WaitStatus {
    let made = block_wait_polls(polls);
    if made == 0 {
        WaitStatus::Pending
    } else if polls[made - 1] is Failure {
        WaitStatus::Aborted
    } else if polls[made - 1] != polls[0] {
        WaitStatus::Returned
    } else {
        WaitStatus::Pending
    }
}

/// The pause before the poll with index `i` of a wait for the next block: none
/// before the baseline poll and the one after it, the interval from then on.
pub open spec fn block_wait_delay(i: int) -> u64 {
    if i <= 1 {
        0
    } else {
        POLL_INTERVAL_SECS
    }
}

/// The pauses before the polls of a wait for the next block, one for each
/// poll that it makes on these answers.
pub open spec fn block_wait_delays(polls: Seq<QueryOutcome>) -> Seq<u64> {
    Seq::new(block_wait_polls(polls) as nat, |i: int| block_wait_delay(i))
}

/// What the outcome of a wait for the next block says about the answers: a
/// pending wait has seen the baseline height and nothing else; a wait that
/// returned has seen it up to its last poll, which gave another height; a wait
/// that aborted has seen it up to its last poll, which failed.
pub proof fn lemma_block_wait_outcome(polls: Seq<QueryOutcome>)
    ensures
        0 <= block_wait_polls(polls) <= polls.len(),
        forall|i: int|
            0 <= i < block_wait_polls(polls) - 1 ==> (#[trigger] polls[i]) is Success && polls[i]
                == polls[0],
        block_wait_status(polls) is Pending ==> {
            &&& block_wait_polls(polls) == polls.len()
            &&& polls.len() > 0 ==> polls.last() is Success && polls.last() == polls[0]
        },
        block_wait_status(polls) is Returned ==> {
            &&& block_wait_polls(polls) >= 2
            &&& polls[block_wait_polls(polls) - 1] is Success
            &&& polls[block_wait_polls(polls) - 1] != polls[0]
        },
        block_wait_status(polls) is Aborted ==> {
            &&& block_wait_polls(polls) >= 1
            &&& polls[block_wait_polls(polls) - 1] is Failure
        },
{
    if polls.len() > 0 {
        lemma_steady_end(polls, polls[0], 1);
    }
}

/// For answers that begin with `n` times the height `baseline`, `n` at least
/// one, and go on with another height, the wait returns with that answer: it
/// makes `n + 1` polls, and what the node would have answered later plays no
/// part.
pub proof fn lemma_block_wait_returns(polls: Seq<QueryOutcome>, baseline: u64, n: int)
    requires
        1 <= n < polls.len(),
        forall|i: int| 0 <= i < n ==> polls[i] == QueryOutcome::Success(baseline),
        polls[n] is Success,
        polls[n] != QueryOutcome::Success(baseline),
    ensures
        block_wait_status(polls) == WaitStatus::Returned,
        block_wait_polls(polls) == n + 1,
{
    lemma_steady_end_unique(polls, polls[0], 1, n);
}

/// While the node answers with one height and nothing else, the wait is
/// pending, however many answers there are, and has asked for every one.
pub proof fn lemma_block_wait_pending(polls: Seq<QueryOutcome>, baseline: u64)
    requires
        forall|i: int| 0 <= i < polls.len() ==> polls[i] == QueryOutcome::Success(baseline),
    ensures
        block_wait_status(polls) == WaitStatus::Pending,
        block_wait_polls(polls) == polls.len(),
{
    if polls.len() > 0 {
        lemma_steady_end_unique(polls, polls[0], 1, polls.len() as int);
    }
}

/// A failed query aborts the wait at that poll, be it the baseline poll
/// (`n == 0`) or one that follows `n` answers with the baseline height: the
/// wait makes `n + 1` polls and none after the failure.
pub proof fn lemma_block_wait_aborts(polls: Seq<QueryOutcome>, baseline: u64, n: int)
    requires
        0 <= n < polls.len(),
        forall|i: int| 0 <= i < n ==> polls[i] == QueryOutcome::Success(baseline),
        polls[n] is Failure,
    ensures
        block_wait_status(polls) == WaitStatus::Aborted,
        block_wait_polls(polls) == n + 1,
{
    if n > 0 {
        lemma_steady_end_unique(polls, polls[0], 1, n);
    }
}

/// The baseline poll and the poll after it are made at once; before every
/// later poll of the wait exactly one interval passes.
pub proof fn lemma_block_wait_pace(polls: Seq<QueryOutcome>, i: int)
    requires
        0 <= i < block_wait_polls(polls),
    ensures
        block_wait_delays(polls).len() == block_wait_polls(polls),
        i <= 1 ==> block_wait_delays(polls)[i] == 0,
        i >= 2 ==> block_wait_delays(polls)[i] == POLL_INTERVAL_SECS,
{
}

/// Handing the answers to a fresh waiter one by one leads where
/// `block_wait_status` says, and answers handed in after the end change
/// nothing. As long as the waiter watches, its baseline is the first height
/// and every answer so far has been that height.
pub proof fn lemma_block_steps_agree(polls: Seq<QueryOutcome>)
    ensures
        BlockAdvanceWaiter::AwaitingBaseline.after(polls).spec_status() == block_wait_status(
            polls,
        ),
        BlockAdvanceWaiter::AwaitingBaseline.after(polls) is AwaitingBaseline <==> polls.len()
            == 0,
        BlockAdvanceWaiter::AwaitingBaseline.after(polls) matches BlockAdvanceWaiter::Watching {
            baseline,
        } ==> forall|i: int| 0 <= i < polls.len() ==> polls[i] == QueryOutcome::Success(baseline),
    decreases polls.len(),
{
    if polls.len() > 0 {
        let seen = polls.drop_last();
        let before = BlockAdvanceWaiter::AwaitingBaseline.after(seen);
        lemma_block_steps_agree(seen);
        lemma_block_wait_outcome(seen);
        let last = polls.len() - 1;
        assert forall|i: int| 0 <= i < last implies seen[i] == polls[i] by {}
        match before {
            BlockAdvanceWaiter::AwaitingBaseline => {
                if polls[0] is Success {
                    lemma_block_wait_pending(polls, polls[0]->0);
                } else {
                    lemma_block_wait_aborts(polls, 0, 0);
                }
            },
            BlockAdvanceWaiter::Watching { baseline } => {
                if polls[last] is Failure {
                    lemma_block_wait_aborts(polls, baseline, last);
                } else if polls[last] == QueryOutcome::Success(baseline) {
                    lemma_block_wait_pending(polls, baseline);
                } else {
                    lemma_block_wait_returns(polls, baseline, last);
                }
            },
            BlockAdvanceWaiter::Advanced => {
                let n = block_wait_polls(seen) - 1;
                lemma_block_wait_returns(polls, polls[0]->0, n);
            },
            BlockAdvanceWaiter::Faulted => {
                let n = block_wait_polls(seen) - 1;
                if n > 0 {
                    }
                lemma_block_wait_aborts(polls, polls[0]->0, n);
            },
        }
    }
}

} // verus!
