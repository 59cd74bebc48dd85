//! The two waits, run to the end against a prepared list of poll outcomes.
//!
//! Each function plays the part of the caller of a waiter: it hands in the
//! outcomes one by one, in place of querying a node, and notes the pause that
//! the waiter asked for before each poll, in place of sleeping. It stops when
//! the waiter is finished or the list is used up, whichever comes first.

use vstd::prelude::*;
use crate::availability::{online_wait_delay, online_wait_delays, online_wait_polls};
use crate::availability::online_wait_status;
use crate::availability::NodeAvailabilityWaiter;
use crate::block_advance::{block_wait_delay, block_wait_delays, block_wait_polls};
use crate::block_advance::block_wait_status;
use crate::block_advance::BlockAdvanceWaiter;
use crate::poll::{lemma_steady_end, steady_end, Directive, QueryOutcome, WaitStatus};

verus! {

/// What a wait did with a list of poll outcomes.
#[derive(Debug, PartialEq, Eq)]
pub struct WaitReport {
    /// How the wait stood when it stopped taking outcomes.
    pub status: WaitStatus,
    /// The pause, in seconds, taken before each poll that was made, in order.
    pub delays: Vec<u64>,
}

impl WaitReport {
    /// The number of polls that were made.
    pub fn polls(&self) -> (n: usize)
        ensures
            n == self.delays@.len(),
    {
        self.delays.len()
    }
}

/// Waits for the next block on a node that answers with `polls`, in this
/// order. The wait returns at the first height that differs from the first
/// one, aborts at the first failure, and is still pending if the list ends
/// before either; no poll is made after the one that ends it.
pub fn wait_for_next_cosmos_block(polls: &Vec<QueryOutcome>) -> (report: WaitReport)
    ensures
        report.status == block_wait_status(polls@),
        report.delays@ == block_wait_delays(polls@),
{
    let mut waiter = BlockAdvanceWaiter::new();
    let mut delays: Vec<u64> = Vec::new();
    let mut pause: u64 = 0;
    let mut made: usize = 0;
    while made < polls.len() && !waiter.finished()
        invariant
            made <= polls.len(),
            delays@.len() == made,
            forall|i: int| 0 <= i < made ==> delays@[i] == block_wait_delay(i),
            !waiter.is_finished() ==> pause == block_wait_delay(made as int),
            made == 0 ==> waiter == BlockAdvanceWaiter::AwaitingBaseline,
            made > 0 && !waiter.is_finished() ==> {
                &&& polls@[0] == QueryOutcome::Success(waiter->baseline)
                &&& waiter is Watching
                &&& steady_end(polls@, polls@[0], 1) == steady_end(polls@, polls@[0], made as int)
            },
            waiter.is_finished() ==> {
                &&& made == block_wait_polls(polls@)
                &&& waiter.spec_status() == block_wait_status(polls@)
            },
        decreases polls.len() - made,
    {
        delays.push(pause);
        let (next, directive) = waiter.step(polls[made]);
        made = made + 1;
        waiter = next;
        if let Directive::Poll { delay_secs } = directive {
            pause = delay_secs;
        }
    }
    proof {
        if polls@.len() > 0 {
            lemma_steady_end(polls@, polls@[0], 1);
        }
        assert(delays@ =~= block_wait_delays(polls@));
    }
    WaitReport { status: waiter.status(), delays }
}

/// Waits for a node to come online that answers with `polls`, in this order.
/// The wait returns at the first success, whatever its height, and is still
/// pending if the list ends before one; failures are retried, never passed on,
/// and no poll is made after the success.
pub fn wait_for_cosmos_online(polls: &Vec<QueryOutcome>) -> (report: WaitReport)
    ensures
        report.status == online_wait_status(polls@),
        report.delays@ == online_wait_delays(polls@),
{
    let mut waiter = NodeAvailabilityWaiter::new();
    let mut delays: Vec<u64> = Vec::new();
    let mut pause: u64 = 0;
    let mut made: usize = 0;
    while made < polls.len() && !waiter.finished()
        invariant
            made <= polls.len(),
            delays@.len() == made,
            forall|i: int| 0 <= i < made ==> delays@[i] == online_wait_delay(i),
            !waiter.is_finished() ==> {
                &&& pause == online_wait_delay(made as int)
                &&& steady_end(polls@, QueryOutcome::Failure, 0) == steady_end(
                    polls@,
                    QueryOutcome::Failure,
                    made as int,
                )
            },
            waiter.is_finished() ==> {
                &&& made == online_wait_polls(polls@)
                &&& online_wait_status(polls@) == WaitStatus::Returned
            },
        decreases polls.len() - made,
    {
        delays.push(pause);
        let (next, directive) = waiter.step(polls[made]);
        made = made + 1;
        waiter = next;
        if let Directive::Poll { delay_secs } = directive {
            pause = delay_secs;
        }
    }
    proof {
        assert(delays@ =~= online_wait_delays(polls@));
    }
    WaitReport { status: waiter.status(), delays }
}

} // verus!
