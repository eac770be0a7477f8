use chain_follower::chain::{BlockHash, Header};
use chain_follower::error::FollowError;
use chain_follower::finalized_headers::{Notification, Phase};
use chain_follower::follow_chain::{DriverState, SnapshotReport};
use chain_follower::follower::{Follower, Reply, Report, Request, Turn};
use chain_follower::session::{ReplaySession, Session, SpecIdentity, StateVersion};

const METHOD: &str = "TryRuntime_execute_block_no_check";

fn hash(height: u64) -> BlockHash {
    let mut bytes = [0u8; 32];
    bytes[..8].copy_from_slice(&height.to_le_bytes());
    bytes[31] = 0xaa;
    BlockHash { bytes }
}

fn header(height: u64) -> Header {
    Header { hash: hash(height), number: height, parent_hash: hash(height - 1) }
}

fn root_after(height: u64) -> BlockHash {
    BlockHash { bytes: [height as u8; 32] }
}

fn snapshot(root: BlockHash, local: &str, remote: &str) -> SnapshotReport {
    SnapshotReport {
        root,
        state_version: StateVersion::V0,
        local: SpecIdentity::new(String::from(local), 7),
        remote: SpecIdentity::new(String::from(remote), 7),
    }
}

fn ask(request: Request) -> Turn {
    Turn { report: None, request }
}

/// Serves the follower from a subscription that delivers `deliveries` and
/// then closes. Gives every request that was served, the reports, and the
/// follower as the run left it.
fn follow(deliveries: &[u64], local: &str, remote: &str) -> (Vec<Request>, Vec<Report>, Follower) {
    let mut follower = Follower::new();
    let mut feed = deliveries.iter();
    let mut requests = Vec::new();
    let mut reports = Vec::new();
    let mut current = 0u64;
    let mut turn = follower.poll();
    loop {
        if let Some(report) = turn.report {
            reports.push(report);
        }
        requests.push(turn.request);
        let reply = match turn.request {
            Request::AwaitSubscription => Reply::Notified(match feed.next() {
                Some(height) => Notification::Finalized(header(*height)),
                None => Notification::Closed,
            }),
            Request::FetchHeader(wanted) => {
                let height = u64::from_le_bytes(wanted.bytes[..8].try_into().unwrap());
                Reply::Header(Some(header(height)))
            }
            Request::FetchBlock(wanted) => {
                current = u64::from_le_bytes(wanted.bytes[..8].try_into().unwrap());
                Reply::Block(true)
            }
            Request::BuildSnapshot { at } => {
                assert_eq!(at, hash(current - 1));
                Reply::Snapshot(Some(snapshot(root_after(current - 1), local, remote)))
            }
            Request::Execute { block, method } => {
                assert_eq!(block, hash(current));
                assert_eq!(method, METHOD);
                Reply::Executed(Some((current + 100).to_le_bytes().to_vec()))
            }
            Request::Commit { .. } => Reply::Committed(Some(root_after(current))),
            Request::Finish | Request::Abort(_) | Request::Ignored => {
                return (requests, reports, follower);
            }
        };
        turn = follower.step(reply);
    }
}

#[test]
fn headers_five_to_seven_are_replayed_in_turn() {
    let (requests, reports, follower) = follow(&[5, 6, 7], "node", "node");
    let block = |height: u64| {
        vec![
            Request::FetchBlock(hash(height)),
            Request::Execute { block: hash(height), method: METHOD },
            Request::Commit { state_version: StateVersion::V0 },
            Request::AwaitSubscription,
        ]
    };
    let mut expected = vec![Request::AwaitSubscription, Request::FetchBlock(hash(5))];
    expected.push(Request::BuildSnapshot { at: hash(4) });
    expected.extend(block(5).into_iter().skip(1));
    expected.extend(block(6));
    expected.extend(block(7));
    expected.push(Request::Finish);
    assert_eq!(requests, expected);
    assert_eq!(
        reports,
        vec![
            Report { number: 5, weight: 105, root: root_after(5) },
            Report { number: 6, weight: 106, root: root_after(6) },
            Report { number: 7, weight: 107, root: root_after(7) },
        ]
    );
    let session = ReplaySession {
        anchor: hash(4),
        tip: hash(7),
        root: root_after(7),
        state_version: StateVersion::V0,
    };
    assert_eq!(follower.driver().state(), DriverState::Finished(Session::Active(session)));
    assert_eq!(follower.headers().last_returned(), Some(7));
    assert_eq!(follower.headers().phase(), Phase::Ended(FollowError::SubscriptionClosed));
}

#[test]
fn skipped_blocks_are_replayed_too() {
    let (requests, reports, _) = follow(&[10, 13], "node", "node");
    let heights: Vec<u64> = reports.iter().map(|report| report.number).collect();
    assert_eq!(heights, vec![10, 11, 12, 13]);
    let fetched: Vec<Request> = requests
        .iter()
        .copied()
        .filter(|request| matches!(request, Request::FetchHeader(_)))
        .collect();
    assert_eq!(fetched, vec![Request::FetchHeader(hash(12)), Request::FetchHeader(hash(11))]);
    let built = requests
        .iter()
        .filter(|request| matches!(request, Request::BuildSnapshot { .. }))
        .count();
    assert_eq!(built, 1);
    let executed: Vec<Request> = requests
        .iter()
        .copied()
        .filter(|request| matches!(request, Request::Execute { .. }))
        .collect();
    assert_eq!(
        executed,
        vec![
            Request::Execute { block: hash(10), method: METHOD },
            Request::Execute { block: hash(11), method: METHOD },
            Request::Execute { block: hash(12), method: METHOD },
            Request::Execute { block: hash(13), method: METHOD },
        ]
    );
}

#[test]
fn buffered_header_follows_a_finished_block_at_once() {
    let mut follower = Follower::new();
    assert_eq!(follower.poll(), ask(Request::AwaitSubscription));
    follower.step(Reply::Notified(Notification::Finalized(header(1))));
    follower.step(Reply::Block(true));
    follower.step(Reply::Snapshot(Some(snapshot(root_after(0), "a", "a"))));
    follower.step(Reply::Executed(Some(vec![1, 0, 0, 0, 0, 0, 0, 0])));
    assert_eq!(
        follower.step(Reply::Committed(Some(root_after(1)))),
        Turn {
            report: Some(Report { number: 1, weight: 1, root: root_after(1) }),
            request: Request::AwaitSubscription,
        }
    );
    assert_eq!(
        follower.step(Reply::Notified(Notification::Finalized(header(3)))),
        ask(Request::FetchHeader(hash(2)))
    );
    assert_eq!(
        follower.step(Reply::Header(Some(header(2)))),
        ask(Request::FetchBlock(hash(2)))
    );
    assert_eq!(
        follower.step(Reply::Block(true)),
        ask(Request::Execute { block: hash(2), method: METHOD })
    );
    follower.step(Reply::Executed(Some(vec![2, 0, 0, 0, 0, 0, 0, 0])));
    // block 3 is buffered: it is next without another wait
    assert_eq!(
        follower.step(Reply::Committed(Some(root_after(2)))),
        Turn {
            report: Some(Report { number: 2, weight: 2, root: root_after(2) }),
            request: Request::FetchBlock(hash(3)),
        }
    );
}

#[test]
fn mismatch_aborts_the_follower_before_any_execution() {
    let (requests, reports, follower) = follow(&[5, 6, 7], "node", "another");
    assert_eq!(
        requests,
        vec![
            Request::AwaitSubscription,
            Request::FetchBlock(hash(5)),
            Request::BuildSnapshot { at: hash(4) },
            Request::Abort(FollowError::IdentityMismatch),
        ]
    );
    assert!(reports.is_empty());
    assert_eq!(follower.driver().session(), Session::Uninitialized);
}

#[test]
fn closed_subscription_finishes_the_follower() {
    let (requests, reports, follower) = follow(&[], "node", "node");
    assert_eq!(requests, vec![Request::AwaitSubscription, Request::Finish]);
    assert!(reports.is_empty());
    assert_eq!(follower.driver().state(), DriverState::Finished(Session::Uninitialized));
}

#[test]
fn header_that_cannot_be_fetched_aborts_the_follower() {
    let mut follower = Follower::new();
    follower.step(Reply::Notified(Notification::Finalized(header(1))));
    follower.step(Reply::Block(true));
    follower.step(Reply::Snapshot(Some(snapshot(root_after(0), "a", "a"))));
    follower.step(Reply::Executed(Some(vec![0; 8])));
    follower.step(Reply::Committed(Some(root_after(1))));
    follower.step(Reply::Notified(Notification::Finalized(header(4))));
    assert_eq!(follower.step(Reply::Header(None)), ask(Request::Abort(FollowError::FetchFailure)));
    assert_eq!(follower.poll(), ask(Request::Abort(FollowError::FetchFailure)));
    // the snapshot stays as the last block left it
    assert_eq!(follower.driver().session().root(), Some(root_after(1)));
}

#[test]
fn undecodable_notification_finishes_the_follower() {
    let mut follower = Follower::new();
    assert_eq!(
        follower.step(Reply::Notified(Notification::Undecodable)),
        ask(Request::Finish)
    );
    assert_eq!(follower.poll(), ask(Request::Finish));
}

#[test]
fn replies_that_the_follower_did_not_wait_for_are_ignored() {
    let mut follower = Follower::new();
    assert_eq!(follower.step(Reply::Block(true)), ask(Request::Ignored));
    assert_eq!(follower.step(Reply::Committed(Some(root_after(1)))), ask(Request::Ignored));
    assert_eq!(follower.poll(), ask(Request::AwaitSubscription));
    assert_eq!(
        follower.step(Reply::Notified(Notification::Finalized(header(5)))),
        ask(Request::FetchBlock(hash(5)))
    );
    // the driver is at work: nothing is taken for the stream
    assert_eq!(
        follower.step(Reply::Notified(Notification::Finalized(header(6)))),
        ask(Request::Ignored)
    );
    assert_eq!(follower.step(Reply::Notified(Notification::Closed)), ask(Request::Ignored));
    assert_eq!(follower.step(Reply::Header(Some(header(4)))), ask(Request::Ignored));
    assert_eq!(follower.headers().last_returned(), Some(5));
    assert_eq!(follower.headers().buffered(), 0);
    assert_eq!(follower.poll(), ask(Request::FetchBlock(hash(5))));
    assert_eq!(follower.step(Reply::Block(true)), ask(Request::BuildSnapshot { at: hash(4) }));
    assert_eq!(follower.poll(), ask(Request::BuildSnapshot { at: hash(4) }));
}
