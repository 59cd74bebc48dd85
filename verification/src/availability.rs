//! Waiting until the node answers.
//!
//! A failed query is what is being waited out: it asks for another poll after
//! the fixed interval, without end. The first query that succeeds ends the
//! wait; the height it reports plays no part.

use vstd::prelude::*;
use crate::poll::{steady_end, Directive, QueryOutcome, WaitStatus, POLL_INTERVAL_SECS};
use crate::poll::{lemma_steady_end, lemma_steady_end_unique};

verus! {

/// Where a wait for the node to come online stands.
#[derive(Clone, Copy, Debug, PartialEq, Eq, Structural)]
pub enum NodeAvailabilityWaiter {
    /// No query has succeeded yet.
    Offline,
    /// A query has succeeded.
    Online,
}

impl NodeAvailabilityWaiter {
    /// The wait is over.
    pub open spec fn is_finished(self) -> bool {
        self is Online
    }

    /// The state and the directive that follow the outcome of one poll.
    pub open spec fn spec_step(self, outcome: QueryOutcome) -> (Self, Directive) {
        if self is Offline && outcome is Failure {
            (Self::Offline, Directive::Poll { delay_secs: POLL_INTERVAL_SECS })
        } else {
            (Self::Online, Directive::Finish)
        }
    }

    /// The state after the outcomes `polls` were handed in one by one.
    pub open spec fn after(self, polls: Seq<QueryOutcome>) -> Self
        decreases polls.len(),
    {
        if polls.len() == 0 {
            self
        } else {
            self.after(polls.drop_last()).spec_step(polls.last()).0
        }
    }

    /// What the wait has come to: pending until it is finished.
    pub open spec fn spec_status(self) -> WaitStatus {
        match self {
            Self::Offline => WaitStatus::Pending,
            Self::Online => WaitStatus::Returned,
        }
    }

    /// A waiter that has seen nothing yet. Its first poll is due at once.
    pub fn new() -> (waiter: Self)
        ensures
            waiter == Self::Offline,
    {
        NodeAvailabilityWaiter::Offline
    }

    /// Whether the wait is over.
    pub fn finished(&self) -> (done: bool)
        ensures
            done == self.is_finished(),
    {
        match self {
            NodeAvailabilityWaiter::Online => true,
            NodeAvailabilityWaiter::Offline => false,
        }
    }

    /// What the wait has come to so far.
    pub fn status(&self) -> (status: WaitStatus)
        ensures
            status == self.spec_status(),
    {
        match self {
            NodeAvailabilityWaiter::Online => WaitStatus::Returned,
            NodeAvailabilityWaiter::Offline => WaitStatus::Pending,
        }
    }

    /// Takes the outcome of the poll that was asked for and says what comes
    /// next. A finished waiter stays as it is and repeats its last word.
    pub fn step(self, outcome: QueryOutcome) -> (next: (Self, Directive))
        ensures
            next == self.spec_step(outcome),
            next.1 is Poll <==> !next.0.is_finished(),
            next.1 !is Abort,
            next.1 matches Directive::Poll { delay_secs } ==> delay_secs == POLL_INTERVAL_SECS,
    {
        match self {
            NodeAvailabilityWaiter::Offline => match outcome {
                QueryOutcome::Success(_) => (NodeAvailabilityWaiter::Online, Directive::Finish),
                QueryOutcome::Failure => (
                    NodeAvailabilityWaiter::Offline,
                    Directive::Poll { delay_secs: POLL_INTERVAL_SECS },
                ),
            },
            NodeAvailabilityWaiter::Online => (self, Directive::Finish),
        }
    }
}

/// The number of polls that a wait for the node makes when the node answers
/// with `polls`, in this order: all of them if none succeeds, else up to the
/// first success.
pub open spec fn online_wait_polls(polls: Seq<QueryOutcome>) -> int {
    let end = steady_end(polls, QueryOutcome::Failure, 0);
    if end < polls.len() {
        end + 1
    } else {
        end
    }
}

/// How a wait for the node stands once the node has answered with `polls`:
/// returned if one of them is a success, pending if not. It never aborts.
pub open spec fn online_wait_status(polls: Seq<QueryOutcome>) -> WaitStatus {
    if steady_end(polls, QueryOutcome::Failure, 0) < polls.len() {
        WaitStatus::Returned
    } else {
        WaitStatus::Pending
    }
}

/// The pause before the poll with index `i` of a wait for the node: none
/// before the first, the interval before every other.
pub open spec fn online_wait_delay(i: int) -> u64 {
    if i <= 0 {
        0
    } else {
        POLL_INTERVAL_SECS
    }
}

/// The pauses before the polls of a wait for the node, one for each poll that
/// it makes on these answers.
pub open spec fn online_wait_delays(polls: Seq<QueryOutcome>) -> Seq<u64> {
    Seq::new(online_wait_polls(polls) as nat, |i: int| online_wait_delay(i))
}

/// What the outcome of a wait for the node says about the answers: every
/// poll but the last one made has failed; a wait that returned has a success
/// as its last poll; a pending wait has seen failures only.
pub proof fn lemma_online_wait_outcome(polls: Seq<QueryOutcome>)
    ensures
        0 <= online_wait_polls(polls) <= polls.len(),
        online_wait_status(polls) !is Aborted,
        forall|i: int| 0 <= i < online_wait_polls(polls) - 1 ==> polls[i] is Failure,
        online_wait_status(polls) is Pending ==> {
            &&& online_wait_polls(polls) == polls.len()
            &&& polls.len() > 0 ==> polls.last() is Failure
        },
        online_wait_status(polls) is Returned ==> {
            &&& online_wait_polls(polls) >= 1
            &&& polls[online_wait_polls(polls) - 1] is Success
        },
{
    lemma_steady_end(polls, QueryOutcome::Failure, 0);
}

/// If the first query succeeds, the wait returns after that one poll.
pub proof fn lemma_online_wait_first_success(polls: Seq<QueryOutcome>)
    requires
        polls.len() > 0,
        polls[0] is Success,
    ensures
        online_wait_status(polls) == WaitStatus::Returned,
        online_wait_polls(polls) == 1,
{
    lemma_online_wait_returns(polls, 0);
}

/// After `k` failed queries and then a success, the wait returns with the
/// success: it makes `k + 1` polls and none after it.
pub proof fn lemma_online_wait_returns(polls: Seq<QueryOutcome>, k: int)
    requires
        0 <= k < polls.len(),
        forall|i: int| 0 <= i < k ==> polls[i] is Failure,
        polls[k] is Success,
    ensures
        online_wait_status(polls) == WaitStatus::Returned,
        online_wait_polls(polls) == k + 1,
{
    lemma_steady_end_unique(polls, QueryOutcome::Failure, 0, k);
}

/// While every query fails, the wait is pending, however many there are, and
/// has asked for every one: a failure is retried and never passed on.
pub proof fn lemma_online_wait_pending(polls: Seq<QueryOutcome>)
    requires
        forall|i: int| 0 <= i < polls.len() ==> polls[i] is Failure,
    ensures
        online_wait_status(polls) == WaitStatus::Pending,
        online_wait_polls(polls) == polls.len(),
{
    lemma_steady_end_unique(polls, QueryOutcome::Failure, 0, polls.len() as int);
}

/// The first poll is made at once; before every later poll of the wait
/// exactly one interval passes.
pub proof fn lemma_online_wait_pace(polls: Seq<QueryOutcome>, i: int)
    requires
        0 <= i < online_wait_polls(polls),
    ensures
        online_wait_delays(polls).len() == online_wait_polls(polls),
        i == 0 ==> online_wait_delays(polls)[i] == 0,
        i >= 1 ==> online_wait_delays(polls)[i] == POLL_INTERVAL_SECS,
{
}

/// Handing the answers to a fresh waiter one by one leads where
/// `online_wait_status` says, and answers handed in after the success change
/// nothing.
pub proof fn lemma_online_steps_agree(polls: Seq<QueryOutcome>)
    ensures
        NodeAvailabilityWaiter::Offline.after(polls).spec_status() == online_wait_status(polls),
    decreases polls.len(),
{
    if polls.len() > 0 {
        let seen = polls.drop_last();
        let last = polls.len() - 1;
        lemma_online_steps_agree(seen);
        lemma_online_wait_outcome(seen);
        assert forall|i: int| 0 <= i < last implies seen[i] == polls[i] by {}
        if NodeAvailabilityWaiter::Offline.after(seen) is Online {
            lemma_online_wait_returns(polls, online_wait_polls(seen) - 1);
        } else if polls[last] is Success {
            lemma_online_wait_returns(polls, last);
        } else {
            lemma_online_wait_pending(polls);
        }
    }
}

} // verus!
