//! What the follower guarantees from the stream to the snapshot: every block
//! is executed on the state that its parent left.
//!
//! The guarantee holds as long as the remote side shows one chain without
//! forks.

use crate::chain::{is_parent_of, BlockHash, Header};
use crate::finalized_headers::{Event, Notification, Phase, StreamView};
use crate::follow_chain::DriverState;
use crate::follower::{FollowerView, ReplyView, Report, Request};
use crate::ordering::{follows_chain, in_order, lemma_step_in_order};
use crate::session::Session;
use vstd::prelude::*;

verus! {

/// The header that `stream` hands out next from its buffer, if it has one
/// ready, is the child of the block with hash `hash`.
pub open spec fn continues(stream: StreamView, hash: BlockHash) -> bool {
    stream.phase is Idle && stream.pending.len() > 0 ==> stream.pending[0].parent_hash == hash
}

/// The driver works on `header`, the header that the stream yielded last.
pub open spec fn busy_with(follower: FollowerView, header: Header) -> bool {
    &&& follower.stream.last_height == Some(header.number)
    &&& follower.stream.phase is Idle
    &&& continues(follower.stream, header.hash)
}

/// Stream and driver agree: the stream is in order, the snapshot stands at
/// the parent of the block that the driver works on, and what the stream
/// hands out next is the child of the block that was replayed last.
pub open spec fn aligned(follower: FollowerView) -> bool {
    &&& in_order(follower.stream)
    &&& match follower.driver {
        DriverState::Idle(session) => match session {
            Session::Uninitialized => follower.stream.last_height is None,
            Session::Active(session) => follower.stream.last_height is Some && continues(
                follower.stream,
                session.tip,
            ),
        },
        DriverState::FetchingBlock(session, header) => busy_with(follower, header) && (
        session matches Session::Active(session) ==> session.tip == header.parent_hash),
        DriverState::BuildingSnapshot(header) => busy_with(follower, header),
        DriverState::Executing(session, header) => busy_with(follower, header) && session.tip
            == header.parent_hash,
        DriverState::Committing(session, header, _) => busy_with(follower, header)
            && session.tip == header.parent_hash,
        DriverState::Finished(_) => true,
        DriverState::Aborted(_, _) => true,
    }
}

/// A driver that waits for a header with its snapshot built has the
/// snapshot at the state of the block with hash `hash`.
pub open spec fn stands_at(driver: DriverState, hash: BlockHash) -> bool {
    match driver {
        DriverState::Idle(Session::Active(session)) => session.tip == hash,
        _ => true,
    }
}

/// `reply` is what one chain without forks can show to `follower`: a header
/// that is delivered lies above the one yielded last, and is its child where
/// it lies right above it; a header that is retrieved is the parent of the
/// oldest buffered one, and the one that closes the gap is the child of the
/// block replayed last.
pub open spec fn on_one_chain(follower: FollowerView, reply: ReplyView) -> bool {
    match reply {
        ReplyView::Notified(Notification::Finalized(header)) => follower.driver is Idle
            && follower.stream.awaits_subscription() ==> (match follower.stream.last_height {
            Some(last) => {
                &&& header.number > last
                &&& header.number == last + 1 ==> stands_at(follower.driver, header.parent_hash)
            },
            None => true,
        }),
        ReplyView::Header(Some(parent)) => follower.driver is Idle ==> (
        match follower.stream.phase {
            Phase::Backfilling { parent_hash, missing } => {
                &&& follower.stream.pending.len() > 0
                &&& is_parent_of(parent, follower.stream.pending[0])
                &&& missing <= 1 ==> stands_at(follower.driver, parent.parent_hash)
            },
            _ => true,
        }),
        _ => true,
    }
}

/// The follower after it took `replies` one after the other.
pub open spec fn after(follower: FollowerView, replies: Seq<ReplyView>) -> FollowerView
    decreases replies.len(),
{
    if replies.len() == 0 {
        follower
    } else {
        after(follower.step(replies[0]).0, replies.subrange(1, replies.len() as int))
    }
}

/// Each of `replies` lies on one chain in the state in which the follower
/// takes it.
pub open spec fn all_on_one_chain(follower: FollowerView, replies: Seq<ReplyView>) -> bool
    decreases replies.len(),
{
    replies.len() > 0 ==> on_one_chain(follower, replies[0]) && all_on_one_chain(
        follower.step(replies[0]).0,
        replies.subrange(1, replies.len() as int),
    )
}

/// Getting the next header from the buffer of the stream keeps stream and
/// driver in agreement.
proof fn lemma_next_header_aligned(follower: FollowerView)
    requires
        follower.driver is Idle,
        aligned(follower),
    ensures
        aligned(
            follower.with_stream(follower.stream.next().0).hand_over(
                follower.stream.next().1,
                None,
            ).0,
        ),
{
    lemma_step_in_order(follower.stream, Event::Poll);
    if follower.stream.phase is Idle && follower.stream.pending.len() > 0 {
        let rest = follower.stream.without_front().pending;
        if rest.len() > 0 {
            assert(rest[0] == follower.stream.pending[1]);
            assert(is_parent_of(follower.stream.pending[0], follower.stream.pending[1]));
        }
    }
}

/// One reply that lies on one chain keeps stream and driver in agreement.
pub proof fn lemma_step_aligned(follower: FollowerView, reply: ReplyView)
    requires
        aligned(follower),
        on_one_chain(follower, reply),
    ensures
        aligned(follower.step(reply).0),
{
    let stream = follower.stream;
    match reply {
        ReplyView::Notified(notification) => {
            if follower.driver is Idle {
                if stream.awaits_subscription() {
                    match notification {
                        Notification::Finalized(header) => {
                            assert(follows_chain(stream, Event::Notified(notification)));
                            lemma_step_in_order(stream, Event::Notified(notification));
                            let fronted = stream.with_front(header);
                            assert(fronted.pending =~= seq![header]);
                            assert(fronted.without_front().pending.len() == 0);
                        },
                        _ => {},
                    }
                } else {
                    lemma_next_header_aligned(follower);
                }
            }
        },
        ReplyView::Header(fetched) => {
            if follower.driver is Idle {
                match stream.phase {
                    Phase::Backfilling { parent_hash, missing } => match fetched {
                        Some(parent) => {
                            assert(follows_chain(stream, Event::Fetched(fetched)));
                            lemma_step_in_order(stream, Event::Fetched(fetched));
                            let fronted = stream.with_front(parent).with_phase(Phase::Idle);
                            assert(fronted.pending[0] == parent);
                            assert(fronted.pending[1] == stream.pending[0]);
                            assert(fronted.without_front().pending =~= stream.pending);
                        },
                        None => {},
                    },
                    _ => {
                        lemma_next_header_aligned(follower);
                    },
                }
            }
        },
        ReplyView::Committed(root) => {
            let driven = follower.driver.on_committed(root);
            if follower.driver is Committing && root is Some {
                lemma_next_header_aligned(follower.with_driver(driven.0));
            }
        },
        _ => {},
    }
}

/// A new follower has stream and driver in agreement.
pub proof fn law_new_follower_is_aligned()
    ensures
        aligned(FollowerView::start()),
{
}

/// Every block is executed on the state of its parent: as long as the
/// remote side shows one chain, stream and driver stay in agreement over a
/// whole run, and whenever the driver waits for an execution, the snapshot
/// stands at the parent of the block to execute.
pub proof fn law_blocks_run_on_their_parents(follower: FollowerView, replies: Seq<ReplyView>)
    requires
        aligned(follower),
        all_on_one_chain(follower, replies),
    ensures
        aligned(after(follower, replies)),
        after(follower, replies).driver matches DriverState::Executing(session, header)
            ==> session.tip == header.parent_hash,
    decreases replies.len(),
{
    if replies.len() > 0 {
        lemma_step_aligned(follower, replies[0]);
        law_blocks_run_on_their_parents(
            follower.step(replies[0]).0,
            replies.subrange(1, replies.len() as int),
        );
    }
}

/// A request to execute names the block that the driver then waits for, and
/// a request to build the snapshot names the parent of the first block.
pub proof fn law_requests_name_the_block(follower: FollowerView, reply: ReplyView)
    ensures
        follower.step(reply).1.request matches Request::Execute { block, method }
            ==> follower.step(reply).0.driver matches DriverState::Executing(_, header)
            && header.hash == block,
        follower.step(reply).1.request matches Request::BuildSnapshot { at } ==> follower.step(
            reply,
        ).0.driver matches DriverState::BuildingSnapshot(header) && header.parent_hash == at,
{
}

/// The reports that `follower` gives while it takes `replies` one after the
/// other.
pub open spec fn reported(follower: FollowerView, replies: Seq<ReplyView>) -> Seq<Report>
    decreases replies.len(),
{
    if replies.len() == 0 {
        Seq::empty()
    } else {
        let stepped = follower.step(replies[0]);
        let rest = reported(stepped.0, replies.subrange(1, replies.len() as int));
        match stepped.1.report {
            Some(report) => seq![report] + rest,
            None => rest,
        }
    }
}

/// The height of the block that `follower` reports next, as far as it is
/// settled: the height of the block that the driver works on, or the one
/// above the block replayed last.
pub open spec fn next_height(follower: FollowerView) -> Option<int> {
    match follower.driver {
        DriverState::Idle(Session::Uninitialized) => None,
        DriverState::Idle(Session::Active(_)) => match follower.stream.last_height {
            Some(last) => Some(last + 1),
            None => None,
        },
        DriverState::FetchingBlock(_, header) => Some(header.number as int),
        DriverState::BuildingSnapshot(header) => Some(header.number as int),
        DriverState::Executing(_, header) => Some(header.number as int),
        DriverState::Committing(_, header, _) => Some(header.number as int),
        DriverState::Finished(_) => None,
        DriverState::Aborted(_, _) => None,
    }
}

/// A run that is over reports nothing more.
proof fn lemma_over_reports_nothing(follower: FollowerView, replies: Seq<ReplyView>)
    requires
        follower.driver.is_over(),
    ensures
        reported(follower, replies) == Seq::<Report>::empty(),
    decreases replies.len(),
{
    if replies.len() > 0 {
        lemma_over_reports_nothing(
            follower.step(replies[0]).0,
            replies.subrange(1, replies.len() as int),
        );
    }
}

/// One reply on one chain reports the block whose height was settled, and
/// leaves the next height settled one above it; without a report the height
/// that was settled stays.
proof fn lemma_step_heights(follower: FollowerView, reply: ReplyView)
    requires
        aligned(follower),
        on_one_chain(follower, reply),
    ensures
        match follower.step(reply).1.report {
            Some(report) => {
                &&& next_height(follower) == Some(report.number as int)
                &&& next_height(follower.step(reply).0) matches Some(next) ==> next
                    == report.number + 1
            },
            None => next_height(follower) matches Some(settled) ==> (next_height(
                follower.step(reply).0,
            ) matches Some(next) ==> next == settled),
        },
        next_height(follower.step(reply).0) is None && next_height(follower) is Some
            ==> follower.step(reply).0.driver.is_over(),
{
    let stream = follower.stream;
    lemma_step_aligned(follower, reply);
    match reply {
        ReplyView::Notified(notification) => {
            if follower.driver is Idle {
                if stream.awaits_subscription() {
                    match notification {
                        Notification::Finalized(header) => {
                            assert(follows_chain(stream, Event::Notified(notification)));
                            lemma_step_in_order(stream, Event::Notified(notification));
                        },
                        _ => {},
                    }
                } else {
                    lemma_step_in_order(stream, Event::Poll);
                }
            }
        },
        ReplyView::Header(fetched) => {
            if follower.driver is Idle {
                match stream.phase {
                    Phase::Backfilling { parent_hash, missing } => match fetched {
                        Some(parent) => {
                            assert(follows_chain(stream, Event::Fetched(fetched)));
                            lemma_step_in_order(stream, Event::Fetched(fetched));
                        },
                        None => {},
                    },
                    _ => {
                        lemma_step_in_order(stream, Event::Poll);
                    },
                }
            }
        },
        ReplyView::Committed(root) => {
            lemma_step_in_order(stream, Event::Poll);
        },
        _ => {},
    }
}

/// No block is missed and none is replayed twice: as long as the remote side
/// shows one chain, the heights of the blocks that the follower reports go up
/// by one from each report to the next, and the first report is on the block
/// whose height was settled before.
pub proof fn law_blocks_are_replayed_in_order(follower: FollowerView, replies: Seq<ReplyView>)
    requires
        aligned(follower),
        all_on_one_chain(follower, replies),
    ensures
        forall|i: int|
            0 <= i && i + 1 < reported(follower, replies).len() ==> (#[trigger] reported(
                follower,
                replies,
            )[i]).number + 1 == reported(follower, replies)[i + 1].number,
        reported(follower, replies).len() > 0 ==> (next_height(follower) matches Some(settled)
            ==> reported(follower, replies)[0].number == settled),
    decreases replies.len(),
{
    if replies.len() > 0 {
        let stepped = follower.step(replies[0]);
        let tail = replies.subrange(1, replies.len() as int);
        let rest = reported(stepped.0, tail);
        lemma_step_aligned(follower, replies[0]);
        lemma_step_heights(follower, replies[0]);
        law_blocks_are_replayed_in_order(stepped.0, tail);
        if stepped.0.driver.is_over() {
            lemma_over_reports_nothing(stepped.0, tail);
        }
        match stepped.1.report {
            Some(report) => {
                let all = seq![report] + rest;
                assert(reported(follower, replies) == all);
                assert forall|i: int| 0 <= i && i + 1 < all.len() implies (#[trigger] all[i]).number
                    + 1 == all[i + 1].number by {
                    if i > 0 {
                        assert(all[i] == rest[i - 1]);
                        assert(all[i + 1] == rest[i]);
                    } else {
                        assert(all[0] == report);
                        assert(all[1] == rest[0]);
                    }
                }
            },
            None => {},
        }
    }
}

} // verus!
