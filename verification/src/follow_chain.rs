//! The replay driver: what happens to each finalized header of a run.
//!
//! For every header the block is fetched and executed against the one
//! snapshot of the run, which is built before the first execution, and the
//! changes that the execution made are applied to that snapshot. The driver
//! decides; the caller does the work that an [`Action`] names and reports its
//! outcome with the call that the action names.

use crate::chain::{BlockHash, Header};
use crate::error::FollowError;
use crate::session::{IdentityView, ReplaySession, Session, SpecIdentity, StateVersion};
use crate::weight::{decode_weight, weight_of};
use vstd::prelude::*;

verus! {

/// Configurations of the command that follows a chain.
#[derive(Clone, Debug)]
pub struct FollowChainCmd {
    /// The url to connect to.
    uri: String,
}

impl FollowChainCmd {
    pub closed spec fn spec_uri(&self) -> Seq<char> {
        self.uri@
    }

    pub fn new(uri: String) -> (command: Self)
        ensures
            command.spec_uri() == uri@,
    {
        FollowChainCmd { uri }
    }

    /// The url to connect to.
    pub fn uri(&self) -> (uri: &String)
        ensures
            uri@ == self.spec_uri(),
    {
        &self.uri
    }
}

/// The method of the runtime that executes a block without checking the
/// result against the header of the block.
pub const EXECUTE_BLOCK_NO_CHECK: &'static str = "TryRuntime_execute_block_no_check";

/// What the caller learned while it built the snapshot.
#[derive(Clone, Debug)]
pub struct SnapshotReport {
    /// The storage root of the snapshot as it was built.
    pub root: BlockHash,
    /// The state version that the local runtime asks for.
    pub state_version: StateVersion,
    /// The runtime that the caller executes blocks with.
    pub local: SpecIdentity,
    /// The runtime that the remote chain reports.
    pub remote: SpecIdentity,
}

/// A report as contracts see it.
pub struct SnapshotReportView {
    pub root: BlockHash,
    pub state_version: StateVersion,
    pub local: IdentityView,
    pub remote: IdentityView,
}

impl View for SnapshotReport {
    type V = SnapshotReportView;

    open spec fn view(&self) -> SnapshotReportView {
        SnapshotReportView {
            root: self.root,
            state_version: self.state_version,
            local: self.local@,
            remote: self.remote@,
        }
    }
}

/// What the caller has to do for the driver.
#[derive(Clone, Copy, Debug, PartialEq, Eq)]
pub enum Action {
    /// Get the next finalized header and hand it to `on_header`; where the
    /// stream is over, say so with `on_end`.
    NextHeader,
    /// Fetch the block with this hash and report with `on_block`.
    FetchBlock(BlockHash),
    /// Build the snapshot at the state of block `at`, find the local and the
    /// remote runtime, and report with `on_snapshot`.
    BuildSnapshot { at: BlockHash },
    /// Execute the block with this hash against the snapshot, by the method of
    /// the runtime that is named, and report with `on_executed`.
    Execute { block: BlockHash, method: &'static str },
    /// Turn the changes of the execution into a storage diff under this state
    /// version, apply it to the snapshot and report with `on_committed`.
    Commit { state_version: StateVersion },
    /// The block at height `number` is done: it consumed `weight` and left the
    /// snapshot at `root`. Go on as for `NextHeader`.
    Report { number: u64, weight: u64, root: BlockHash },
    /// The feed ended; the run is over.
    Finish,
    /// The run failed at the stage that the error names.
    Abort(FollowError),
    /// The driver did not wait for what was reported. Nothing changed.
    Ignored,
}

/// Where the driver stands.
#[derive(Clone, Copy, Debug, PartialEq, Eq)]
pub enum DriverState {
    /// Waiting for the next finalized header.
    Idle(Session),
    /// Waiting for the block of this header.
    FetchingBlock(Session, Header),
    /// Waiting for the snapshot, which the first header of the run asks for.
    BuildingSnapshot(Header),
    /// Waiting for the execution of the block of this header.
    Executing(ReplaySession, Header),
    /// Waiting for the changes of this block, which consumed the given
    /// weight, to be applied.
    Committing(ReplaySession, Header, u64),
    /// The feed ended.
    Finished(Session),
    /// The run failed.
    Aborted(Session, FollowError),
}

/// One thing that the caller reports to the driver.
#[derive(Clone, Debug)]
pub enum DriverEvent {
    /// The stream yielded this header.
    Header(Header),
    /// The stream is over.
    End(FollowError),
    /// The block was fetched, or could not be.
    Block(bool),
    /// The snapshot was built; `None` where that failed.
    Snapshot(Option<SnapshotReport>),
    /// The bytes that the execution returned; `None` where it failed.
    Executed(Option<Vec<u8>>),
    /// The storage root after the changes were applied; `None` where they
    /// could not be.
    Committed(Option<BlockHash>),
}

/// A report to the driver as contracts see it.
pub enum DriverEventView {
    Header(Header),
    End(FollowError),
    Block(bool),
    Snapshot(Option<SnapshotReportView>),
    Executed(Option<Seq<u8>>),
    Committed(Option<BlockHash>),
}

impl View for DriverEvent {
    type V = DriverEventView;

    open spec fn view(&self) -> DriverEventView {
        match *self {
            DriverEvent::Header(header) => DriverEventView::Header(header),
            DriverEvent::End(why) => DriverEventView::End(why),
            DriverEvent::Block(found) => DriverEventView::Block(found),
            DriverEvent::Snapshot(report) => DriverEventView::Snapshot(
                match report {
                    Some(report) => Some(report@),
                    None => None,
                },
            ),
            DriverEvent::Executed(result) => DriverEventView::Executed(
                match result {
                    Some(bytes) => Some(bytes@),
                    None => None,
                },
            ),
            DriverEvent::Committed(root) => DriverEventView::Committed(root),
        }
    }
}

/// The session that a run begins with when its snapshot was built for the
/// block of `first` and reported as `report`: it stands at the parent of that
/// block.
pub open spec fn opened_session(first: Header, report: SnapshotReportView) -> ReplaySession {
    ReplaySession {
        anchor: first.parent_hash,
        tip: first.parent_hash,
        root: report.root,
        state_version: report.state_version,
    }
}

impl DriverState {
    /// A run of which nothing has happened yet.
    pub open spec fn start() -> DriverState {
        DriverState::Idle(Session::Uninitialized)
    }

    /// The session of the run.
    pub open spec fn session(self) -> Session {
        match self {
            DriverState::Idle(session) => session,
            DriverState::FetchingBlock(session, _) => session,
            DriverState::BuildingSnapshot(_) => Session::Uninitialized,
            DriverState::Executing(session, _) => Session::Active(session),
            DriverState::Committing(session, _, _) => Session::Active(session),
            DriverState::Finished(session) => session,
            DriverState::Aborted(session, _) => session,
        }
    }

    /// The run is over.
    pub open spec fn is_over(self) -> bool {
        self is Finished || self is Aborted
    }

    /// What the driver waits for the caller to do.
    pub open spec fn expects(self) -> Action {
        match self {
            DriverState::Idle(_) => Action::NextHeader,
            DriverState::FetchingBlock(_, header) => Action::FetchBlock(header.hash),
            DriverState::BuildingSnapshot(header) => Action::BuildSnapshot {
                at: header.parent_hash,
            },
            DriverState::Executing(_, header) => Action::Execute {
                block: header.hash,
                method: EXECUTE_BLOCK_NO_CHECK,
            },
            DriverState::Committing(session, _, _) => Action::Commit {
                state_version: session.state_version,
            },
            DriverState::Finished(_) => Action::Finish,
            DriverState::Aborted(_, why) => Action::Abort(why),
        }
    }

    /// A header arrived: its block is fetched.
    pub open spec fn on_header(self, header: Header) -> (DriverState, Action) {
        match self {
            DriverState::Idle(session) => (
                DriverState::FetchingBlock(session, header),
                Action::FetchBlock(header.hash),
            ),
            _ => (self, Action::Ignored),
        }
    }

    /// The stream is over: the run finishes where the feed merely ended, and
    /// fails where a header could not be had.
    pub open spec fn on_end(self, why: FollowError) -> (DriverState, Action) {
        match self {
            DriverState::Idle(session) => if why.end_of_feed() {
                (DriverState::Finished(session), Action::Finish)
            } else {
                (DriverState::Aborted(session, why), Action::Abort(why))
            },
            _ => (self, Action::Ignored),
        }
    }

    /// The block arrived: it is executed, after the snapshot was built if
    /// there is none yet.
    pub open spec fn on_block(self, found: bool) -> (DriverState, Action) {
        match self {
            DriverState::FetchingBlock(session, header) => if !found {
                (
                    DriverState::Aborted(session, FollowError::FetchFailure),
                    Action::Abort(FollowError::FetchFailure),
                )
            } else {
                match session {
                    Session::Uninitialized => (
                        DriverState::BuildingSnapshot(header),
                        Action::BuildSnapshot { at: header.parent_hash },
                    ),
                    Session::Active(session) => (
                        DriverState::Executing(session, header),
                        Action::Execute { block: header.hash, method: EXECUTE_BLOCK_NO_CHECK },
                    ),
                }
            },
            _ => (self, Action::Ignored),
        }
    }

    /// The snapshot was built: the session begins, unless the local runtime
    /// is not the remote one.
    pub open spec fn on_snapshot(self, report: Option<SnapshotReportView>) -> (
        DriverState,
        Action,
    ) {
        match self {
            DriverState::BuildingSnapshot(header) => match report {
                None => (
                    DriverState::Aborted(Session::Uninitialized, FollowError::FetchFailure),
                    Action::Abort(FollowError::FetchFailure),
                ),
                Some(report) => if report.local == report.remote {
                    (
                        DriverState::Executing(opened_session(header, report), header),
                        Action::Execute { block: header.hash, method: EXECUTE_BLOCK_NO_CHECK },
                    )
                } else {
                    (
                        DriverState::Aborted(Session::Uninitialized, FollowError::IdentityMismatch),
                        Action::Abort(FollowError::IdentityMismatch),
                    )
                },
            },
            _ => (self, Action::Ignored),
        }
    }

    /// The block was executed: its changes are committed, unless the result
    /// does not hold a weight.
    pub open spec fn on_executed(self, result: Option<Seq<u8>>) -> (DriverState, Action) {
        match self {
            DriverState::Executing(session, header) => match result {
                None => (
                    DriverState::Aborted(Session::Active(session), FollowError::ExecutionFailure),
                    Action::Abort(FollowError::ExecutionFailure),
                ),
                Some(encoded_result) => match weight_of(encoded_result) {
                    Ok(weight) => (
                        DriverState::Committing(session, header, weight),
                        Action::Commit { state_version: session.state_version },
                    ),
                    Err(why) => (
                        DriverState::Aborted(Session::Active(session), why),
                        Action::Abort(why),
                    ),
                },
            },
            _ => (self, Action::Ignored),
        }
    }

    /// The changes were applied: the snapshot stands at the executed block,
    /// with the new root, and the driver waits for the next header.
    pub open spec fn on_committed(self, root: Option<BlockHash>) -> (DriverState, Action) {
        match self {
            DriverState::Committing(session, header, weight) => match root {
                None => (
                    DriverState::Aborted(Session::Active(session), FollowError::ExecutionFailure),
                    Action::Abort(FollowError::ExecutionFailure),
                ),
                Some(root) => (
                    DriverState::Idle(Session::Active(session.advanced(header.hash, root))),
                    Action::Report { number: header.number, weight, root },
                ),
            },
            _ => (self, Action::Ignored),
        }
    }

    /// The driver after `event`, and what the caller has to do then.
    pub open spec fn step(self, event: DriverEventView) -> (DriverState, Action) {
        match event {
            DriverEventView::Header(header) => self.on_header(header),
            DriverEventView::End(why) => self.on_end(why),
            DriverEventView::Block(found) => self.on_block(found),
            DriverEventView::Snapshot(report) => self.on_snapshot(report),
            DriverEventView::Executed(result) => self.on_executed(result),
            DriverEventView::Committed(root) => self.on_committed(root),
        }
    }
}

/// The driver of a run. It owns the session of the run.
#[derive(Debug)]
pub struct ReplayDriver {
    state: DriverState,
}

impl View for ReplayDriver {
    type V = DriverState;

    closed spec fn view(&self) -> DriverState {
        self.state
    }
}

impl ReplayDriver {
    pub fn new() -> (driver: Self)
        ensures
            driver@ == DriverState::start(),
    {
        ReplayDriver { state: DriverState::Idle(Session::Uninitialized) }
    }

    pub fn state(&self) -> (state: DriverState)
        ensures
            state == self@,
    {
        self.state
    }

    /// Whether the driver waits for the next header.
    pub fn is_idle(&self) -> (idle: bool)
        ensures
            idle == (self@ is Idle),
    {
        match self.state {
            DriverState::Idle(_) => true,
            _ => false,
        }
    }

    /// The session of the run.
    pub fn session(&self) -> (session: Session)
        ensures
            session == self@.session(),
    {
        match self.state {
            DriverState::Idle(session) => session,
            DriverState::FetchingBlock(session, _) => session,
            DriverState::BuildingSnapshot(_) => Session::Uninitialized,
            DriverState::Executing(session, _) => Session::Active(session),
            DriverState::Committing(session, _, _) => Session::Active(session),
            DriverState::Finished(session) => session,
            DriverState::Aborted(session, _) => session,
        }
    }

    /// What the driver waits for the caller to do.
    pub fn expects(&self) -> (action: Action)
        ensures
            action == self@.expects(),
    {
        match self.state {
            DriverState::Idle(_) => Action::NextHeader,
            DriverState::FetchingBlock(_, header) => Action::FetchBlock(header.hash),
            DriverState::BuildingSnapshot(header) => Action::BuildSnapshot {
                at: header.parent_hash,
            },
            DriverState::Executing(_, header) => Action::Execute {
                block: header.hash,
                method: EXECUTE_BLOCK_NO_CHECK,
            },
            DriverState::Committing(session, _, _) => Action::Commit {
                state_version: session.state_version,
            },
            DriverState::Finished(_) => Action::Finish,
            DriverState::Aborted(_, why) => Action::Abort(why),
        }
    }

    /// Takes the next finalized header.
    pub fn on_header(&mut self, header: Header) -> (action: Action)
        ensures
            (final(self)@, action) == old(self)@.on_header(header),
    {
        match self.state {
            DriverState::Idle(session) => {
                self.state = DriverState::FetchingBlock(session, header);
                Action::FetchBlock(header.hash)
            },
            _ => Action::Ignored,
        }
    }

    /// Takes the end of the stream of headers.
    pub fn on_end(&mut self, why: FollowError) -> (action: Action)
        ensures
            (final(self)@, action) == old(self)@.on_end(why),
    {
        match self.state {
            DriverState::Idle(session) => {
                if why.is_end_of_feed() {
                    self.state = DriverState::Finished(session);
                    Action::Finish
                } else {
                    self.state = DriverState::Aborted(session, why);
                    Action::Abort(why)
                }
            },
            _ => Action::Ignored,
        }
    }

    /// Takes the news that the block of the current header was fetched, or
    /// that it could not be.
    pub fn on_block(&mut self, found: bool) -> (action: Action)
        ensures
            (final(self)@, action) == old(self)@.on_block(found),
    {
        match self.state {
            DriverState::FetchingBlock(session, header) => {
                if !found {
                    self.state = DriverState::Aborted(session, FollowError::FetchFailure);
                    Action::Abort(FollowError::FetchFailure)
                } else {
                    match session {
                        // create the snapshot at the state before this block,
                        // whatever is the first header of the run.
                        Session::Uninitialized => {
                            self.state = DriverState::BuildingSnapshot(header);
                            Action::BuildSnapshot { at: header.parent_hash }
                        },
                        Session::Active(session) => {
                            self.state = DriverState::Executing(session, header);
                            Action::Execute { block: header.hash, method: EXECUTE_BLOCK_NO_CHECK }
                        },
                    }
                }
            },
            _ => Action::Ignored,
        }
    }

    /// Takes the report on the snapshot and begins the session of the run,
    /// unless the local runtime is not the one that the chain runs.
    pub fn on_snapshot(&mut self, report: Option<SnapshotReport>) -> (action: Action)
        ensures
            (final(self)@, action) == old(self)@.on_snapshot(
                match report {
                    Some(report) => Some(report@),
                    None => None,
                },
            ),
    {
        match self.state {
            DriverState::BuildingSnapshot(header) => match report {
                None => {
                    self.state = DriverState::Aborted(
                        Session::Uninitialized,
                        FollowError::FetchFailure,
                    );
                    Action::Abort(FollowError::FetchFailure)
                },
                Some(report) => {
                    if report.local.matches(&report.remote) {
                        let session = ReplaySession {
                            anchor: header.parent_hash,
                            tip: header.parent_hash,
                            root: report.root,
                            state_version: report.state_version,
                        };
                        self.state = DriverState::Executing(session, header);
                        Action::Execute { block: header.hash, method: EXECUTE_BLOCK_NO_CHECK }
                    } else {
                        self.state = DriverState::Aborted(
                            Session::Uninitialized,
                            FollowError::IdentityMismatch,
                        );
                        Action::Abort(FollowError::IdentityMismatch)
                    }
                },
            },
            _ => Action::Ignored,
        }
    }

    /// Takes the bytes that the execution of the current block returned and
    /// reads the consumed weight out of them.
    pub fn on_executed(&mut self, result: Option<Vec<u8>>) -> (action: Action)
        ensures
            (final(self)@, action) == old(self)@.on_executed(
                match result {
                    Some(encoded_result) => Some(encoded_result@),
                    None => None,
                },
            ),
    {
        match self.state {
            DriverState::Executing(session, header) => match result {
                None => {
                    self.state = DriverState::Aborted(
                        Session::Active(session),
                        FollowError::ExecutionFailure,
                    );
                    Action::Abort(FollowError::ExecutionFailure)
                },
                Some(encoded_result) => match decode_weight(encoded_result.as_slice()) {
                    Ok(consumed_weight) => {
                        self.state = DriverState::Committing(session, header, consumed_weight);
                        Action::Commit { state_version: session.state_version }
                    },
                    Err(why) => {
                        self.state = DriverState::Aborted(Session::Active(session), why);
                        Action::Abort(why)
                    },
                },
            },
            _ => Action::Ignored,
        }
    }

    /// Takes the storage root that the snapshot has after the changes of the
    /// current block were applied to it.
    pub fn on_committed(&mut self, root: Option<BlockHash>) -> (action: Action)
        ensures
            (final(self)@, action) == old(self)@.on_committed(root),
    {
        match self.state {
            DriverState::Committing(session, header, weight) => match root {
                None => {
                    self.state = DriverState::Aborted(
                        Session::Active(session),
                        FollowError::ExecutionFailure,
                    );
                    Action::Abort(FollowError::ExecutionFailure)
                },
                Some(root) => {
                    let mut session = session;
                    session.advance(header.hash, root);
                    self.state = DriverState::Idle(Session::Active(session));
                    Action::Report { number: header.number, weight, root }
                },
            },
            _ => Action::Ignored,
        }
    }

    /// Hands `event` to the call that takes it.
    pub fn step(&mut self, event: DriverEvent) -> (action: Action)
        ensures
            (final(self)@, action) == old(self)@.step(event@),
    {
        match event {
            DriverEvent::Header(header) => self.on_header(header),
            DriverEvent::End(why) => self.on_end(why),
            DriverEvent::Block(found) => self.on_block(found),
            DriverEvent::Snapshot(report) => self.on_snapshot(report),
            DriverEvent::Executed(result) => self.on_executed(result),
            DriverEvent::Committed(root) => self.on_committed(root),
        }
    }
}

} // verus!
