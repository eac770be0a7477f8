//! The follower of a chain: the stream of finalized headers and the replay
//! driver, put together.
//!
//! The follower gets every header from the stream and hands it to the driver,
//! so that all that is left to the caller is the work itself: to await the
//! subscription, to fetch, to build the snapshot, to execute and to commit.
//! Each call answers with a [`Turn`]: the [`Request`] to serve next, and the
//! [`Report`] on a block where one was finished.

use crate::chain::{BlockHash, Header};
use crate::error::FollowError;
use crate::finalized_headers::{FinalizedHeaders, Notification, Step, StreamView};
use crate::follow_chain::{
    Action, DriverState, ReplayDriver, SnapshotReport, SnapshotReportView,
};
use crate::session::StateVersion;
use vstd::prelude::*;

verus! {

/// What the caller has to do for the follower.
#[derive(Clone, Copy, Debug, PartialEq, Eq)]
pub enum Request {
    /// Await the subscription and reply with what it gives.
    AwaitSubscription,
    /// Retrieve the header with this hash and reply with it.
    FetchHeader(BlockHash),
    /// Fetch the block with this hash and reply whether it came.
    FetchBlock(BlockHash),
    /// Build the snapshot at the state of block `at` and reply with the
    /// report on it.
    BuildSnapshot { at: BlockHash },
    /// Execute the block with this hash against the snapshot, by the method of
    /// the runtime that is named, and reply with the bytes that it returns.
    Execute { block: BlockHash, method: &'static str },
    /// Apply the changes of the execution to the snapshot, under this state
    /// version, and reply with the new storage root.
    Commit { state_version: StateVersion },
    /// The feed ended; the run is over.
    Finish,
    /// The run failed at the stage that the error names.
    Abort(FollowError),
    /// The follower did not wait for this reply. Nothing changed.
    Ignored,
}

/// A block that was replayed: its height, the weight that it consumed and the
/// storage root that it left.
#[derive(Clone, Copy, Debug, PartialEq, Eq)]
pub struct Report {
    pub number: u64,
    pub weight: u64,
    pub root: BlockHash,
}

/// The answer of the follower to one reply.
#[derive(Clone, Copy, Debug, PartialEq, Eq)]
pub struct Turn {
    /// The block that was finished with this reply, if one was.
    pub report: Option<Report>,
    /// What the caller has to do next.
    pub request: Request,
}

/// The outcome of the work that a request asked for.
#[derive(Clone, Debug)]
pub enum Reply {
    /// What the subscription gave.
    Notified(Notification),
    /// The header that was asked for; `None` where it could not be had.
    Header(Option<Header>),
    /// Whether the block that was asked for came.
    Block(bool),
    /// The report on the snapshot; `None` where it could not be built.
    Snapshot(Option<SnapshotReport>),
    /// The bytes that the execution returned; `None` where it failed.
    Executed(Option<Vec<u8>>),
    /// The storage root after the changes were applied; `None` where they
    /// could not be.
    Committed(Option<BlockHash>),
}

/// A reply as contracts see it.
pub enum ReplyView {
    Notified(Notification),
    Header(Option<Header>),
    Block(bool),
    Snapshot(Option<SnapshotReportView>),
    Executed(Option<Seq<u8>>),
    Committed(Option<BlockHash>),
}

impl View for Reply {
    type V = ReplyView;

    open spec fn view(&self) -> ReplyView {
        match *self {
            Reply::Notified(notification) => ReplyView::Notified(notification),
            Reply::Header(fetched) => ReplyView::Header(fetched),
            Reply::Block(found) => ReplyView::Block(found),
            Reply::Snapshot(report) => ReplyView::Snapshot(
                match report {
                    Some(report) => Some(report@),
                    None => None,
                },
            ),
            Reply::Executed(result) => ReplyView::Executed(
                match result {
                    Some(bytes) => Some(bytes@),
                    None => None,
                },
            ),
            Reply::Committed(root) => ReplyView::Committed(root),
        }
    }
}

/// The request that serves an action of the driver. The follower gets the
/// headers for the driver itself, so the actions that ask for the next header
/// stand for no request.
pub open spec fn request_for(action: Action) -> Request {
    match action {
        Action::FetchBlock(hash) => Request::FetchBlock(hash),
        Action::BuildSnapshot { at } => Request::BuildSnapshot { at },
        Action::Execute { block, method } => Request::Execute { block, method },
        Action::Commit { state_version } => Request::Commit { state_version },
        Action::Finish => Request::Finish,
        Action::Abort(why) => Request::Abort(why),
        Action::NextHeader => Request::Ignored,
        Action::Report { number, weight, root } => Request::Ignored,
        Action::Ignored => Request::Ignored,
    }
}

/// The follower as contracts see it.
pub struct FollowerView {
    pub stream: StreamView,
    pub driver: DriverState,
}

impl FollowerView {
    /// A follower of which nothing has happened yet.
    pub open spec fn start() -> FollowerView {
        FollowerView { stream: StreamView::start(), driver: DriverState::start() }
    }

    pub open spec fn with_driver(self, driver: DriverState) -> FollowerView {
        FollowerView { stream: self.stream, driver }
    }

    pub open spec fn with_stream(self, stream: StreamView) -> FollowerView {
        FollowerView { stream, driver: self.driver }
    }

    /// What the stream answered goes to the driver: a header that it yields
    /// and its end are handed over, a request of its own is passed on to the
    /// caller.
    pub open spec fn hand_over(self, step: Step, report: Option<Report>) -> (FollowerView, Turn) {
        match step {
            Step::Yield(header) => (
                self.with_driver(self.driver.on_header(header).0),
                Turn { report, request: request_for(self.driver.on_header(header).1) },
            ),
            Step::AwaitSubscription => (self, Turn { report, request: Request::AwaitSubscription }),
            Step::FetchHeader(hash) => (self, Turn { report, request: Request::FetchHeader(hash) }),
            Step::Done(why) => (
                self.with_driver(self.driver.on_end(why).0),
                Turn { report, request: request_for(self.driver.on_end(why).1) },
            ),
        }
    }

    /// What the caller has to do now. A driver that waits for a header gets
    /// the next one from the stream.
    pub open spec fn poll(self) -> (FollowerView, Turn) {
        if self.driver is Idle {
            self.with_stream(self.stream.next().0).hand_over(self.stream.next().1, None)
        } else {
            (self, Turn { report: None, request: request_for(self.driver.expects()) })
        }
    }

    /// The driver answered a reply with `action`: where a block is finished
    /// with it, the next header is got from the stream at once.
    pub open spec fn proceed(self, action: Action) -> (FollowerView, Turn) {
        match action {
            Action::Report { number, weight, root } => self.with_stream(
                self.stream.next().0,
            ).hand_over(self.stream.next().1, Some(Report { number, weight, root })),
            action => (self, Turn { report: None, request: request_for(action) }),
        }
    }

    /// The follower after `reply`, and its answer. What comes from the node
    /// for the stream is taken while the driver waits for a header, and
    /// ignored otherwise.
    pub open spec fn step(self, reply: ReplyView) -> (FollowerView, Turn) {
        match reply {
            ReplyView::Notified(notification) => if self.driver is Idle {
                self.with_stream(self.stream.fetch(notification).0).hand_over(
                    self.stream.fetch(notification).1,
                    None,
                )
            } else {
                (self, Turn { report: None, request: Request::Ignored })
            },
            ReplyView::Header(fetched) => if self.driver is Idle {
                self.with_stream(self.stream.fill_gap(fetched).0).hand_over(
                    self.stream.fill_gap(fetched).1,
                    None,
                )
            } else {
                (self, Turn { report: None, request: Request::Ignored })
            },
            ReplyView::Block(found) => self.with_driver(self.driver.on_block(found).0).proceed(
                self.driver.on_block(found).1,
            ),
            ReplyView::Snapshot(report) => self.with_driver(
                self.driver.on_snapshot(report).0,
            ).proceed(self.driver.on_snapshot(report).1),
            ReplyView::Executed(result) => self.with_driver(
                self.driver.on_executed(result).0,
            ).proceed(self.driver.on_executed(result).1),
            ReplyView::Committed(root) => self.with_driver(
                self.driver.on_committed(root).0,
            ).proceed(self.driver.on_committed(root).1),
        }
    }
}

/// The follower of a chain. It owns the stream of headers and the driver of
/// the replay.
pub struct Follower {
    headers: FinalizedHeaders,
    driver: ReplayDriver,
}

impl View for Follower {
    type V = FollowerView;

    closed spec fn view(&self) -> FollowerView {
        FollowerView { stream: self.headers@, driver: self.driver@ }
    }
}

/// The request that serves `action`.
fn to_request(action: Action) -> (request: Request)
    ensures
        request == request_for(action),
{
    match action {
        Action::FetchBlock(hash) => Request::FetchBlock(hash),
        Action::BuildSnapshot { at } => Request::BuildSnapshot { at },
        Action::Execute { block, method } => Request::Execute { block, method },
        Action::Commit { state_version } => Request::Commit { state_version },
        Action::Finish => Request::Finish,
        Action::Abort(why) => Request::Abort(why),
        Action::NextHeader => Request::Ignored,
        Action::Report { number, weight, root } => Request::Ignored,
        Action::Ignored => Request::Ignored,
    }
}

impl Follower {
    pub fn new() -> (follower: Self)
        ensures
            follower@ == FollowerView::start(),
    {
        Follower { headers: FinalizedHeaders::new(), driver: ReplayDriver::new() }
    }

    /// The stream of headers.
    pub fn headers(&self) -> (headers: &FinalizedHeaders)
        ensures
            headers@ == self@.stream,
    {
        &self.headers
    }

    /// The driver of the replay.
    pub fn driver(&self) -> (driver: &ReplayDriver)
        ensures
            driver@ == self@.driver,
    {
        &self.driver
    }

    /// Hands what the stream answered to the driver.
    fn hand_over(&mut self, step: Step, report: Option<Report>) -> (turn: Turn)
        ensures
            (final(self)@, turn) == old(self)@.hand_over(step, report),
    {
        match step {
            Step::Yield(header) => {
                let action = self.driver.on_header(header);
                Turn { report, request: to_request(action) }
            },
            Step::AwaitSubscription => Turn { report, request: Request::AwaitSubscription },
            Step::FetchHeader(hash) => Turn { report, request: Request::FetchHeader(hash) },
            Step::Done(why) => {
                let action = self.driver.on_end(why);
                Turn { report, request: to_request(action) }
            },
        }
    }

    /// Gets the next header from the stream for a driver that has finished a
    /// block, and passes on what another answer of the driver asks for.
    fn proceed(&mut self, action: Action) -> (turn: Turn)
        ensures
            (final(self)@, turn) == old(self)@.proceed(action),
    {
        match action {
            Action::Report { number, weight, root } => {
                let step = self.headers.next();
                self.hand_over(step, Some(Report { number, weight, root }))
            },
            action => Turn { report: None, request: to_request(action) },
        }
    }

    /// Tells what the caller has to do now.
    pub fn poll(&mut self) -> (turn: Turn)
        ensures
            (final(self)@, turn) == old(self)@.poll(),
    {
        if self.driver.is_idle() {
            let step = self.headers.next();
            self.hand_over(step, None)
        } else {
            Turn { report: None, request: to_request(self.driver.expects()) }
        }
    }

    /// Takes the outcome of the work that was asked for, and answers with what
    /// is to be done next.
    pub fn step(&mut self, reply: Reply) -> (turn: Turn)
        ensures
            (final(self)@, turn) == old(self)@.step(reply@),
    {
        match reply {
            Reply::Notified(notification) => {
                if self.driver.is_idle() {
                    let step = self.headers.fetch(notification);
                    self.hand_over(step, None)
                } else {
                    Turn { report: None, request: Request::Ignored }
                }
            },
            Reply::Header(fetched) => {
                if self.driver.is_idle() {
                    let step = self.headers.fill_gap(fetched);
                    self.hand_over(step, None)
                } else {
                    Turn { report: None, request: Request::Ignored }
                }
            },
            Reply::Block(found) => {
                let action = self.driver.on_block(found);
                self.proceed(action)
            },
            Reply::Snapshot(report) => {
                let action = self.driver.on_snapshot(report);
                self.proceed(action)
            },
            Reply::Executed(result) => {
                let action = self.driver.on_executed(result);
                self.proceed(action)
            },
            Reply::Committed(root) => {
                let action = self.driver.on_committed(root);
                self.proceed(action)
            },
        }
    }
}

} // verus!
