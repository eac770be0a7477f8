//! The stream of all finalized headers, one per height.
//!
//! A subscription to finalized heads may skip heights. The stream recovers the
//! skipped headers by walking back along the parent hashes from the header
//! that arrived. It does no input or output itself: each call answers with the
//! [`Step`] that the caller has to take, and the caller hands the outcome of
//! that step to the next call.

use crate::chain::{missing_before, BlockHash, Header};
use crate::error::FollowError;
use std::collections::VecDeque;
use vstd::prelude::*;

verus! {

/// What the subscription gave when it was awaited.
#[derive(Clone, Copy, Debug, PartialEq, Eq)]
pub enum Notification {
    /// The next finalized header that the remote node announced.
    Finalized(Header),
    /// Something arrived that is no header.
    Undecodable,
    /// The subscription is closed.
    Closed,
}

/// What the caller of the stream has to do next.
#[derive(Clone, Copy, Debug, PartialEq, Eq)]
pub enum Step {
    /// This is the next finalized header.
    Yield(Header),
    /// Await the subscription and hand what it gives to `fetch`.
    AwaitSubscription,
    /// Retrieve the header with this hash and hand it to `fill_gap`.
    FetchHeader(BlockHash),
    /// The stream is over and yields nothing more.
    Done(FollowError),
}

/// Where the stream stands between two calls.
#[derive(Clone, Copy, Debug, PartialEq, Eq)]
pub enum Phase {
    /// Buffered headers are handed out; with none left the subscription is
    /// awaited.
    Idle,
    /// Skipped headers are being recovered: `missing` of them are still to be
    /// retrieved, the next one being the block with hash `parent_hash`.
    Backfilling { parent_hash: BlockHash, missing: u64 },
    /// The stream is over.
    Ended(FollowError),
}

/// One thing that can happen to the stream.
#[derive(Clone, Copy, Debug, PartialEq, Eq)]
pub enum Event {
    /// The caller asks for the next header.
    Poll,
    /// The subscription was awaited and gave this.
    Notified(Notification),
    /// A header was asked for by its hash; `None` where it could not be had.
    Fetched(Option<Header>),
}

/// The stream as contracts see it.
pub struct StreamView {
    /// The headers not yet handed out, oldest first.
    pub pending: Seq<Header>,
    /// The height of the header handed out last.
    pub last_height: Option<u64>,
    pub phase: Phase,
}

impl StreamView {
    /// A stream that has seen nothing yet.
    pub open spec fn start() -> StreamView {
        StreamView { pending: Seq::empty(), last_height: None, phase: Phase::Idle }
    }

    /// Nothing is buffered and nothing is being recovered: the next header can
    /// only come from the subscription.
    pub open spec fn awaits_subscription(self) -> bool {
        self.phase is Idle && self.pending.len() == 0
    }

    pub open spec fn with_phase(self, phase: Phase) -> StreamView {
        StreamView { phase, ..self }
    }

    /// The stream with `header` put before all that is buffered.
    pub open spec fn with_front(self, header: Header) -> StreamView {
        StreamView { pending: seq![header] + self.pending, ..self }
    }

    /// The stream after its oldest buffered header was handed out.
    pub open spec fn without_front(self) -> StreamView {
        StreamView {
            pending: self.pending.subrange(1, self.pending.len() as int),
            last_height: Some(self.pending[0].number),
            phase: self.phase,
        }
    }

    /// Asking for the next header: the oldest buffered one, if there is one;
    /// else what has to happen first.
    pub open spec fn next(self) -> (StreamView, Step) {
        match self.phase {
            Phase::Ended(why) => (self, Step::Done(why)),
            Phase::Backfilling { parent_hash, missing } => (self, Step::FetchHeader(parent_hash)),
            Phase::Idle => if self.pending.len() == 0 {
                (self, Step::AwaitSubscription)
            } else {
                (self.without_front(), Step::Yield(self.pending[0]))
            },
        }
    }

    /// Taking what the subscription gave. A stream that did not wait for the
    /// subscription drops it.
    pub open spec fn fetch(self, notification: Notification) -> (StreamView, Step) {
        if !self.awaits_subscription() {
            self.next()
        } else {
            match notification {
                Notification::Closed => (
                    self.with_phase(Phase::Ended(FollowError::SubscriptionClosed)),
                    Step::Done(FollowError::SubscriptionClosed),
                ),
                Notification::Undecodable => (
                    self.with_phase(Phase::Ended(FollowError::DecodeFailure)),
                    Step::Done(FollowError::DecodeFailure),
                ),
                Notification::Finalized(header) => {
                    let missing = missing_before(self.last_height, header.number);
                    if missing == 0 {
                        self.with_front(header).next()
                    } else {
                        (
                            self.with_front(header).with_phase(
                                Phase::Backfilling {
                                    parent_hash: header.parent_hash,
                                    missing: missing as u64,
                                },
                            ),
                            Step::FetchHeader(header.parent_hash),
                        )
                    }
                },
            }
        }
    }

    /// Taking a header that was retrieved by its hash. A stream that recovers
    /// no gap drops it.
    pub open spec fn fill_gap(self, fetched: Option<Header>) -> (StreamView, Step) {
        match self.phase {
            Phase::Backfilling { parent_hash, missing } => match fetched {
                None => (
                    self.with_phase(Phase::Ended(FollowError::FetchFailure)),
                    Step::Done(FollowError::FetchFailure),
                ),
                Some(parent) => if missing <= 1 {
                    self.with_front(parent).with_phase(Phase::Idle).next()
                } else {
                    (
                        self.with_front(parent).with_phase(
                            Phase::Backfilling {
                                parent_hash: parent.parent_hash,
                                missing: (missing - 1) as u64,
                            },
                        ),
                        Step::FetchHeader(parent.parent_hash),
                    )
                },
            },
            _ => self.next(),
        }
    }

    /// The stream after `event`, and what the caller has to do then.
    pub open spec fn step(self, event: Event) -> (StreamView, Step) {
        match event {
            Event::Poll => self.next(),
            Event::Notified(notification) => self.fetch(notification),
            Event::Fetched(fetched) => self.fill_gap(fetched),
        }
    }
}

/// The header that a notification carries, or the reason why the stream ends
/// with it.
pub open spec fn header_of(notification: Notification) -> Result<Header, FollowError> {
    match notification {
        Notification::Finalized(header) => Ok(header),
        Notification::Undecodable => Err(FollowError::DecodeFailure),
        Notification::Closed => Err(FollowError::SubscriptionClosed),
    }
}

/// Stream of all finalized headers.
///
/// The headers that it yields are ordered and none is missing, also where the
/// subscription skipped some of them.
pub struct FinalizedHeaders {
    fetched_headers: VecDeque<Header>,
    last_returned: Option<u64>,
    phase: Phase,
}

impl View for FinalizedHeaders {
    type V = StreamView;

    closed spec fn view(&self) -> StreamView {
        StreamView {
            pending: self.fetched_headers@,
            last_height: self.last_returned,
            phase: self.phase,
        }
    }
}

impl FinalizedHeaders {
    pub fn new() -> (stream: Self)
        ensures
            stream@ == StreamView::start(),
    {
        let stream = FinalizedHeaders {
            fetched_headers: VecDeque::new(),
            last_returned: None,
            phase: Phase::Idle,
        };
        assert(stream@.pending =~= Seq::<Header>::empty());
        stream
    }

    /// The height of the header that was yielded last.
    pub fn last_returned(&self) -> (last: Option<u64>)
        ensures
            last == self@.last_height,
    {
        self.last_returned
    }

    /// The number of headers that are buffered.
    pub fn buffered(&self) -> (count: usize)
        ensures
            count == self@.pending.len(),
    {
        self.fetched_headers.len()
    }

    pub fn phase(&self) -> (phase: Phase)
        ensures
            phase == self@.phase,
    {
        self.phase
    }

    /// Tells a header that the subscription delivered from the two ways in
    /// which the subscription ends.
    pub fn next_from_subscription(notification: Notification) -> (header: Result<
        Header,
        FollowError,
    >)
        ensures
            header == header_of(notification),
    {
        match notification {
            Notification::Finalized(header) => Ok(header),
            Notification::Undecodable => Err(FollowError::DecodeFailure),
            Notification::Closed => Err(FollowError::SubscriptionClosed),
        }
    }

    /// Get the next finalized header, or learn what has to happen before there
    /// is one.
    pub fn next(&mut self) -> (step: Step)
        ensures
            (final(self)@, step) == old(self)@.next(),
    {
        match self.phase {
            Phase::Ended(why) => Step::Done(why),
            Phase::Backfilling { parent_hash, missing } => Step::FetchHeader(parent_hash),
            Phase::Idle => match self.fetched_headers.pop_front() {
                Some(header) => {
                    self.last_returned = Some(header.number);
                    Step::Yield(header)
                },
                None => Step::AwaitSubscription,
            },
        }
    }

    /// Takes what the subscription gave. Where it is a header and headers
    /// were skipped before it, the walk back along the parent hashes begins.
    pub fn fetch(&mut self, notification: Notification) -> (step: Step)
        ensures
            (final(self)@, step) == old(self)@.fetch(notification),
    {
        let waiting = match self.phase {
            Phase::Idle => self.fetched_headers.len() == 0,
            _ => false,
        };
        if !waiting {
            return self.next();
        }
        match Self::next_from_subscription(notification) {
            Err(why) => {
                self.phase = Phase::Ended(why);
                Step::Done(why)
            },
            Ok(last_finalized) => {
                self.fetched_headers.push_front(last_finalized);
                let missing: u64 = last_finalized.gap_after(self.last_returned);
                if missing == 0 {
                    self.next()
                } else {
                    self.phase = Phase::Backfilling {
                        parent_hash: last_finalized.parent_hash,
                        missing,
                    };
                    Step::FetchHeader(last_finalized.parent_hash)
                }
            },
        }
    }

    /// Takes a header that was retrieved while a gap is recovered, and goes on
    /// from its parent until the gap is closed.
    pub fn fill_gap(&mut self, fetched: Option<Header>) -> (step: Step)
        ensures
            (final(self)@, step) == old(self)@.fill_gap(fetched),
    {
        match self.phase {
            Phase::Backfilling { parent_hash, missing } => match fetched {
                None => {
                    self.phase = Phase::Ended(FollowError::FetchFailure);
                    Step::Done(FollowError::FetchFailure)
                },
                Some(parent_header) => {
                    self.fetched_headers.push_front(parent_header);
                    if missing <= 1 {
                        self.phase = Phase::Idle;
                        self.next()
                    } else {
                        self.phase = Phase::Backfilling {
                            parent_hash: parent_header.parent_hash,
                            missing: missing - 1,
                        };
                        Step::FetchHeader(parent_header.parent_hash)
                    }
                },
            },
            _ => self.next(),
        }
    }

    /// Hands `event` to the call that takes it.
    pub fn advance(&mut self, event: Event) -> (step: Step)
        ensures
            (final(self)@, step) == old(self)@.step(event),
    {
        match event {
            Event::Poll => self.next(),
            Event::Notified(notification) => self.fetch(notification),
            Event::Fetched(fetched) => self.fill_gap(fetched),
        }
    }
}

} // verus!
