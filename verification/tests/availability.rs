use cosmos_peggy::availability::NodeAvailabilityWaiter;
use cosmos_peggy::poll::{Directive, QueryOutcome, WaitStatus, POLL_INTERVAL_SECS};
use cosmos_peggy::utils::{wait_for_cosmos_online, WaitReport};

fn failures_then(k: usize, tail: &[QueryOutcome]) -> Vec<QueryOutcome> {
    let mut polls = vec![QueryOutcome::Failure; k];
    polls.extend_from_slice(tail);
    polls
}

#[test]
fn online_wait_returns_after_one_successful_poll() {
    let report = wait_for_cosmos_online(&vec![QueryOutcome::Success(12)]);
    assert_eq!(report, WaitReport { status: WaitStatus::Returned, delays: vec![0] });
    assert_eq!(report.polls(), 1);
}

#[test]
fn online_wait_makes_no_poll_after_the_success() {
    let polls = vec![QueryOutcome::Success(12), QueryOutcome::Failure, QueryOutcome::Success(13)];
    let report = wait_for_cosmos_online(&polls);
    assert_eq!(report.status, WaitStatus::Returned);
    assert_eq!(report.polls(), 1);
}

#[test]
fn online_wait_returns_after_k_failures_and_a_success() {
    for k in 0..40usize {
        let polls = failures_then(k, &[QueryOutcome::Success(1), QueryOutcome::Failure]);
        let report = wait_for_cosmos_online(&polls);
        assert_eq!(report.status, WaitStatus::Returned);
        assert_eq!(report.polls(), k + 1);
    }
}

#[test]
fn online_wait_retries_every_failure() {
    for k in 0..40usize {
        let report = wait_for_cosmos_online(&failures_then(k, &[]));
        assert_eq!(report.status, WaitStatus::Pending);
        assert_eq!(report.polls(), k);
    }
}

#[test]
fn online_wait_never_aborts() {
    let polls = failures_then(3, &[QueryOutcome::Success(0), QueryOutcome::Failure]);
    for n in 0..=polls.len() {
        let report = wait_for_cosmos_online(&polls[..n].to_vec());
        assert_ne!(report.status, WaitStatus::Aborted);
    }
}

#[test]
fn online_wait_ignores_the_height() {
    for h in [0, 1, 77, u64::MAX] {
        let report = wait_for_cosmos_online(&failures_then(2, &[QueryOutcome::Success(h)]));
        assert_eq!(report, WaitReport { status: WaitStatus::Returned, delays: vec![0, 1, 1] });
    }
}

#[test]
fn online_wait_pauses_one_interval_between_polls() {
    let report = wait_for_cosmos_online(&failures_then(4, &[QueryOutcome::Success(3)]));
    assert_eq!(POLL_INTERVAL_SECS, 1);
    assert_eq!(report.delays, vec![0, 1, 1, 1, 1]);
    let slept: u64 = report.delays.iter().sum();
    assert_eq!(slept, 4);
}

#[test]
fn online_waiter_retries_on_failure() {
    let waiter = NodeAvailabilityWaiter::new();
    assert_eq!(waiter, NodeAvailabilityWaiter::Offline);
    assert!(!waiter.finished());
    assert_eq!(waiter.status(), WaitStatus::Pending);
    assert_eq!(
        waiter.step(QueryOutcome::Failure),
        (NodeAvailabilityWaiter::Offline, Directive::Poll { delay_secs: 1 })
    );
}

#[test]
fn online_waiter_finishes_on_success() {
    assert_eq!(
        NodeAvailabilityWaiter::new().step(QueryOutcome::Success(5)),
        (NodeAvailabilityWaiter::Online, Directive::Finish)
    );
    assert!(NodeAvailabilityWaiter::Online.finished());
    assert_eq!(NodeAvailabilityWaiter::Online.status(), WaitStatus::Returned);
}

#[test]
fn online_waiter_stays_finished() {
    for outcome in [QueryOutcome::Success(1), QueryOutcome::Failure] {
        assert_eq!(
            NodeAvailabilityWaiter::Online.step(outcome),
            (NodeAvailabilityWaiter::Online, Directive::Finish)
        );
    }
}

#[test]
fn online_waiter_driven_by_hand_agrees_with_the_run() {
    let polls = failures_then(3, &[QueryOutcome::Success(8), QueryOutcome::Success(9)]);
    let mut waiter = NodeAvailabilityWaiter::new();
    let mut made = 0;
    for outcome in &polls {
        if waiter.finished() {
            break;
        }
        waiter = waiter.step(*outcome).0;
        made += 1;
    }
    let report = wait_for_cosmos_online(&polls);
    assert_eq!(report.status, waiter.status());
    assert_eq!(report.polls(), made);
    assert_eq!(made, 4);
}
