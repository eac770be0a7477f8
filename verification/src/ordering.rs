//! What the stream of finalized headers guarantees over a whole run.
//!
//! The guarantees hold as long as the remote side shows one chain: every
//! header that the subscription delivers lies above the one yielded last, and
//! every header retrieved by its hash is the parent that was asked for.

use crate::chain::{chained, consecutive, is_parent_of, missing_before, Header};
use crate::finalized_headers::{Event, Notification, Phase, Step, StreamView};
use vstd::prelude::*;

verus! {

/// The buffered headers of `stream` form a chain that continues the headers
/// yielded so far, and a walk that is under way ends right above the height
/// yielded last.
pub open spec fn in_order(stream: StreamView) -> bool {
    &&& chained(stream.pending)
    &&& match stream.last_height {
        Some(last) => match stream.phase {
            Phase::Idle => stream.pending.len() > 0 ==> stream.pending[0].number == last + 1,
            Phase::Backfilling { parent_hash, missing } => {
                &&& stream.pending.len() > 0
                &&& missing >= 1
                &&& stream.pending[0].number == last + 1 + missing
                &&& parent_hash == stream.pending[0].parent_hash
            },
            Phase::Ended(_) => true,
        },
        None => stream.pending.len() == 0 && !(stream.phase is Backfilling),
    }
}

/// `event` is what one chain without forks can show to `stream`: a delivered
/// header lies above the height yielded last, and a retrieved header is the
/// parent of the oldest buffered one.
pub open spec fn follows_chain(stream: StreamView, event: Event) -> bool {
    match event {
        Event::Poll => true,
        Event::Notified(notification) => match notification {
            Notification::Finalized(header) => stream.awaits_subscription() ==> (
            match stream.last_height {
                Some(last) => header.number > last,
                None => true,
            }),
            _ => true,
        },
        Event::Fetched(fetched) => match fetched {
            Some(parent) => stream.phase is Backfilling ==> stream.pending.len() > 0
                && is_parent_of(parent, stream.pending[0]),
            None => true,
        },
    }
}

/// The headers that `stream` yields while it takes `events` one after the
/// other.
pub open spec fn yielded(stream: StreamView, events: Seq<Event>) -> Seq<Header>
    decreases events.len(),
{
    if events.len() == 0 {
        Seq::empty()
    } else {
        let after = stream.step(events[0]);
        let rest = yielded(after.0, events.subrange(1, events.len() as int));
        match after.1 {
            Step::Yield(header) => seq![header] + rest,
            _ => rest,
        }
    }
}

/// Each of `events` follows the chain in the state in which the stream takes
/// it.
pub open spec fn faithful(stream: StreamView, events: Seq<Event>) -> bool
    decreases events.len(),
{
    events.len() > 0 ==> follows_chain(stream, events[0]) && faithful(
        stream.step(events[0]).0,
        events.subrange(1, events.len() as int),
    )
}

/// A stream that has seen nothing is in order.
pub proof fn law_new_stream_is_in_order()
    ensures
        in_order(StreamView::start()),
{
}

/// One event that follows the chain keeps the stream in order, and a header
/// that it yields lies one above the header yielded before.
pub proof fn lemma_step_in_order(stream: StreamView, event: Event)
    requires
        in_order(stream),
        follows_chain(stream, event),
    ensures
        in_order(stream.step(event).0),
        match stream.step(event).1 {
            Step::Yield(header) => {
                &&& stream.step(event).0.last_height == Some(header.number)
                &&& stream.last_height matches Some(last) ==> header.number == last + 1
            },
            _ => stream.step(event).0.last_height == stream.last_height,
        },
{
    let after = stream.step(event).0;
    match event {
        Event::Poll => {
            lemma_next_in_order(stream);
        },
        Event::Notified(notification) => {
            if stream.awaits_subscription() {
                match notification {
                    Notification::Finalized(header) => {
                        let fronted = stream.with_front(header);
                        assert(fronted.pending =~= seq![header]);
                        if stream.last_height is None {
                            assert(after.pending =~= Seq::<Header>::empty());
                        } else if missing_before(stream.last_height, header.number) == 0 {
                            lemma_next_in_order(fronted);
                        }
                    },
                    _ => {},
                }
            } else {
                lemma_next_in_order(stream);
            }
        },
        Event::Fetched(fetched) => {
            match stream.phase {
                Phase::Backfilling { parent_hash, missing } => match fetched {
                    Some(parent) => {
                        let fronted = stream.with_front(parent);
                        assert(fronted.pending[0] == parent);
                        assert forall|i: int|
                            0 <= i && i + 1 < fronted.pending.len() implies is_parent_of(
                            #[trigger] fronted.pending[i],
                            fronted.pending[i + 1],
                        ) by {
                            if i > 0 {
                                assert(fronted.pending[i] == stream.pending[i - 1]);
                                assert(fronted.pending[i + 1] == stream.pending[i]);
                            } else {
                                assert(fronted.pending[1] == stream.pending[0]);
                            }
                        }
                        if missing <= 1 {
                            lemma_next_in_order(fronted.with_phase(Phase::Idle));
                        }
                    },
                    None => {},
                },
                _ => {
                    lemma_next_in_order(stream);
                },
            }
        },
    }
}

/// Asking an ordered stream for its next header keeps it in order.
proof fn lemma_next_in_order(stream: StreamView)
    requires
        in_order(stream),
    ensures
        in_order(stream.next().0),
        match stream.next().1 {
            Step::Yield(header) => {
                &&& stream.next().0.last_height == Some(header.number)
                &&& stream.last_height matches Some(last) ==> header.number == last + 1
            },
            _ => stream.next().0.last_height == stream.last_height,
        },
{
    if stream.phase is Idle && stream.pending.len() > 0 {
        let rest = stream.without_front().pending;
        assert forall|i: int| 0 <= i && i + 1 < rest.len() implies is_parent_of(
            #[trigger] rest[i],
            rest[i + 1],
        ) by {
            assert(rest[i] == stream.pending[i + 1]);
            assert(rest[i + 1] == stream.pending[i + 2]);
        }
        if rest.len() > 0 {
            assert(rest[0] == stream.pending[1]);
            assert(is_parent_of(stream.pending[0], stream.pending[1]));
        }
    }
}

/// Ordering: whatever the subscription skips, the heights of the headers that
/// the stream yields go up by one from each to the next, and the first of
/// them continues the header yielded before the run.
pub proof fn law_yields_in_order(stream: StreamView, events: Seq<Event>)
    requires
        in_order(stream),
        faithful(stream, events),
    ensures
        consecutive(yielded(stream, events)),
        yielded(stream, events).len() > 0 ==> (stream.last_height matches Some(last) ==> yielded(
            stream,
            events,
        )[0].number == last + 1),
    decreases events.len(),
{
    if events.len() > 0 {
        let after = stream.step(events[0]);
        let tail = events.subrange(1, events.len() as int);
        let rest = yielded(after.0, tail);
        lemma_step_in_order(stream, events[0]);
        law_yields_in_order(after.0, tail);
        match after.1 {
            Step::Yield(header) => {
                let all = seq![header] + rest;
                assert(yielded(stream, events) == all);
                assert forall|i: int| 0 <= i && i + 1 < all.len() implies (#[trigger] all[i]).number
                    + 1 == all[i + 1].number by {
                    if i > 0 {
                        assert(all[i] == rest[i - 1]);
                        assert(all[i + 1] == rest[i]);
                    } else {
                        assert(all[0] == header);
                        assert(all[1] == rest[0]);
                    }
                }
            },
            _ => {},
        }
    }
}

/// No height appears twice: the header yielded at place `i` of a run lies `i`
/// heights above the first one.
pub proof fn law_heights_count_up(stream: StreamView, events: Seq<Event>, i: int)
    requires
        in_order(stream),
        faithful(stream, events),
        0 <= i < yielded(stream, events).len(),
    ensures
        yielded(stream, events)[i].number == yielded(stream, events)[0].number + i,
    decreases i,
{
    law_yields_in_order(stream, events);
    if i > 0 {
        law_heights_count_up(stream, events, i - 1);
        assert(yielded(stream, events)[i - 1].number + 1 == yielded(stream, events)[i - 1
            + 1].number);
    }
}

/// A new stream starts at the first height that it observes: where the first
/// thing that the subscription gives is a header, that header is the first
/// one yielded.
pub proof fn law_starts_at_first_header(events: Seq<Event>, at: int, header: Header)
    requires
        0 <= at < events.len(),
        events[at] == Event::Notified(Notification::Finalized(header)),
        forall|j: int| 0 <= j < at ==> !(#[trigger] events[j] is Notified),
    ensures
        yielded(StreamView::start(), events).len() > 0,
        yielded(StreamView::start(), events)[0] == header,
    decreases at,
{
    let start = StreamView::start();
    let tail = events.subrange(1, events.len() as int);
    if at == 0 {
        let fronted = start.with_front(header);
        assert(fronted.pending =~= seq![header]);
        assert(start.step(events[0]).1 == Step::Yield(header));
    } else {
        assert(!(events[0] is Notified));
        assert(start.step(events[0]) == (start, Step::AwaitSubscription));
        assert(tail[at - 1] == events[at]);
        assert forall|j: int| 0 <= j < at - 1 implies !(#[trigger] tail[j] is Notified) by {
            assert(tail[j] == events[j + 1]);
        }
        law_starts_at_first_header(tail, at - 1, header);
    }
}

} // verus!
