//! What the replay driver guarantees over a whole run, whatever is reported
//! to it and in whatever order.

use crate::chain::{is_parent_of, BlockHash, Header};
use crate::error::FollowError;
use crate::finalized_headers::{Notification, Step, StreamView};
use crate::follow_chain::{
    opened_session, Action, DriverEventView, DriverState, SnapshotReportView,
    EXECUTE_BLOCK_NO_CHECK,
};
use crate::session::{ReplaySession, Session};
use vstd::prelude::*;

verus! {

/// The driver after it took `events` one after the other.
pub open spec fn run(state: DriverState, events: Seq<DriverEventView>) -> DriverState
    decreases events.len(),
{
    if events.len() == 0 {
        state
    } else {
        run(state.step(events[0]).0, events.subrange(1, events.len() as int))
    }
}

/// How often the driver asks for a snapshot while it takes `events`.
pub open spec fn snapshots_built(state: DriverState, events: Seq<DriverEventView>) -> nat
    decreases events.len(),
{
    if events.len() == 0 {
        0
    } else {
        let after = state.step(events[0]);
        let rest = snapshots_built(after.0, events.subrange(1, events.len() as int));
        if after.1 is BuildSnapshot {
            rest + 1
        } else {
            rest
        }
    }
}

/// How often the driver asks for a block to be executed while it takes
/// `events`.
pub open spec fn executions(state: DriverState, events: Seq<DriverEventView>) -> nat
    decreases events.len(),
{
    if events.len() == 0 {
        0
    } else {
        let after = state.step(events[0]);
        let rest = executions(after.0, events.subrange(1, events.len() as int));
        if after.1 is Execute {
            rest + 1
        } else {
            rest
        }
    }
}

/// `event` reports a snapshot for which the local runtime is the remote one.
pub open spec fn confirms_identity(event: DriverEventView) -> bool {
    match event {
        DriverEventView::Snapshot(Some(report)) => report.local == report.remote,
        _ => false,
    }
}

/// The snapshot of the run has not been asked for yet, and the run is not
/// over.
pub open spec fn before_snapshot(state: DriverState) -> bool {
    match state {
        DriverState::Idle(session) => session is Uninitialized,
        DriverState::FetchingBlock(session, _) => session is Uninitialized,
        _ => false,
    }
}

/// A run that is over stays as it is and asks for nothing more.
pub proof fn law_over_is_final(state: DriverState, events: Seq<DriverEventView>)
    requires
        state.is_over(),
    ensures
        run(state, events) == state,
        snapshots_built(state, events) == 0,
        executions(state, events) == 0,
    decreases events.len(),
{
    if events.len() > 0 {
        law_over_is_final(state, events.subrange(1, events.len() as int));
    }
}

/// Once the snapshot was asked for, it is never asked for again.
proof fn lemma_no_second_snapshot(state: DriverState, events: Seq<DriverEventView>)
    requires
        !before_snapshot(state),
    ensures
        snapshots_built(state, events) == 0,
    decreases events.len(),
{
    if events.len() > 0 {
        lemma_no_second_snapshot(
            state.step(events[0]).0,
            events.subrange(1, events.len() as int),
        );
    }
}

/// Until the snapshot is asked for, nothing is executed; and from then on it
/// was asked for once.
proof fn lemma_snapshot_before_execution(state: DriverState, events: Seq<DriverEventView>)
    requires
        before_snapshot(state),
    ensures
        snapshots_built(state, events) <= 1,
        executions(state, events) > 0 ==> snapshots_built(state, events) == 1,
    decreases events.len(),
{
    if events.len() > 0 {
        let after = state.step(events[0]);
        let tail = events.subrange(1, events.len() as int);
        if before_snapshot(after.0) {
            lemma_snapshot_before_execution(after.0, tail);
        } else {
            lemma_no_second_snapshot(after.0, tail);
            if after.0.is_over() {
                law_over_is_final(after.0, tail);
            }
        }
    }
}

/// Session singleton: over a whole run the snapshot is asked for at most
/// once, and exactly once where any block is executed, however many blocks
/// follow.
pub proof fn law_session_singleton(events: Seq<DriverEventView>)
    ensures
        snapshots_built(DriverState::start(), events) <= 1,
        executions(DriverState::start(), events) > 0 ==> snapshots_built(
            DriverState::start(),
            events,
        ) == 1,
{
    lemma_snapshot_before_execution(DriverState::start(), events);
}

/// The session is never reset: once it is active it stays active, and the
/// block that its snapshot was built at stays the same.
pub proof fn law_session_stays(
    state: DriverState,
    events: Seq<DriverEventView>,
    session: ReplaySession,
)
    requires
        state.session() == Session::Active(session),
    ensures
        run(state, events).session() matches Session::Active(later) && later.anchor
            == session.anchor && later.state_version == session.state_version,
    decreases events.len(),
{
    if events.len() > 0 {
        let after = state.step(events[0]).0;
        let next = after.session()->Active_0;
        law_session_stays(after, events.subrange(1, events.len() as int), next);
    }
}

/// No block is executed before a snapshot was reported for which the local
/// runtime is the one that the remote chain reports.
pub proof fn law_no_execution_without_identity(state: DriverState, events: Seq<DriverEventView>)
    requires
        state.session() is Uninitialized,
        forall|i: int| 0 <= i < events.len() ==> !confirms_identity(#[trigger] events[i]),
    ensures
        executions(state, events) == 0,
        run(state, events).session() is Uninitialized,
    decreases events.len(),
{
    if events.len() > 0 {
        let tail = events.subrange(1, events.len() as int);
        assert(!confirms_identity(events[0]));
        assert forall|i: int| 0 <= i < tail.len() implies !confirms_identity(
            #[trigger] tail[i],
        ) by {
            assert(tail[i] == events[i + 1]);
        }
        law_no_execution_without_identity(state.step(events[0]).0, tail);
    }
}

/// Fatal on mismatch: where the local runtime is not the one that the remote
/// chain reports, the run aborts with that error as soon as the snapshot is
/// reported, and no block is executed, whatever is reported afterwards.
pub proof fn law_fatal_on_mismatch(
    first: Header,
    report: SnapshotReportView,
    events: Seq<DriverEventView>,
)
    requires
        report.local != report.remote,
    ensures
        DriverState::BuildingSnapshot(first).on_snapshot(Some(report)) == (
            DriverState::Aborted(Session::Uninitialized, FollowError::IdentityMismatch),
            Action::Abort(FollowError::IdentityMismatch),
        ),
        executions(DriverState::BuildingSnapshot(first).on_snapshot(Some(report)).0, events) == 0,
        run(DriverState::BuildingSnapshot(first).on_snapshot(Some(report)).0, events)
            == DriverState::Aborted(Session::Uninitialized, FollowError::IdentityMismatch),
{
    law_over_is_final(
        DriverState::Aborted(Session::Uninitialized, FollowError::IdentityMismatch),
        events,
    );
}

/// Clean termination: where the subscription reports that it is closed while
/// nothing is buffered, the stream is over for good, and the driver finishes
/// the run without an error.
pub proof fn law_clean_termination(stream: StreamView, session: Session)
    requires
        stream.awaits_subscription(),
    ensures
        stream.fetch(Notification::Closed).1 == Step::Done(FollowError::SubscriptionClosed),
        stream.fetch(Notification::Closed).0.next() == (
            stream.fetch(Notification::Closed).0,
            Step::Done(FollowError::SubscriptionClosed),
        ),
        DriverState::Idle(session).on_end(FollowError::SubscriptionClosed) == (
            DriverState::Finished(session),
            Action::Finish,
        ),
{
}

/// The first block of a run is executed on the snapshot as it was built:
/// at the state of the parent of that block, with the root that was reported.
pub proof fn law_first_block_runs_on_its_parent(first: Header, report: SnapshotReportView)
    requires
        report.local == report.remote,
    ensures
        DriverState::BuildingSnapshot(first).on_snapshot(Some(report)) == (
            DriverState::Executing(opened_session(first, report), first),
            Action::Execute { block: first.hash, method: EXECUTE_BLOCK_NO_CHECK },
        ),
        opened_session(first, report).anchor == first.parent_hash,
        opened_session(first, report).tip == first.parent_hash,
        opened_session(first, report).root == report.root,
{
}

/// Every later block is executed on the state that the block before it left:
/// where the changes of `done` were applied and led to `root`, and `next` is
/// the child of `done`, the block of `next` is executed on a snapshot that
/// stands at the parent of `next` and has the root `root`.
pub proof fn law_next_block_runs_on_its_parent(
    session: ReplaySession,
    done: Header,
    weight: u64,
    root: BlockHash,
    next: Header,
)
    requires
        is_parent_of(done, next),
    ensures
        DriverState::Committing(session, done, weight).on_committed(Some(root)).0.on_header(
            next,
        ).0.on_block(true) == (
            DriverState::Executing(session.advanced(done.hash, root), next),
            Action::Execute { block: next.hash, method: EXECUTE_BLOCK_NO_CHECK },
        ),
        session.advanced(done.hash, root).tip == next.parent_hash,
        session.advanced(done.hash, root).root == root,
        session.advanced(done.hash, root).anchor == session.anchor,
{
}

/// The driver adds nothing of its own to a replay: two sessions whose
/// snapshots have the same root and the same state version, and which are told
/// the same outcome of executing the same block, report the same weight and
/// the same root, and end with the same root.
pub proof fn law_replay_is_repeatable(
    one: ReplaySession,
    other: ReplaySession,
    block: Header,
    result: Option<Seq<u8>>,
    root: Option<BlockHash>,
)
    requires
        one.root == other.root,
        one.state_version == other.state_version,
    ensures
        DriverState::Executing(one, block).on_executed(result).1 == DriverState::Executing(
            other,
            block,
        ).on_executed(result).1,
        DriverState::Executing(one, block).on_executed(result).0.on_committed(root).1
            == DriverState::Executing(other, block).on_executed(result).0.on_committed(root).1,
        DriverState::Executing(one, block).on_executed(result).0.on_committed(
            root,
        ).0.session().storage_root() == DriverState::Executing(other, block).on_executed(
            result,
        ).0.on_committed(root).0.session().storage_root(),
{
}

} // verus!
