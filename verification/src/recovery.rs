//! What the stream of finalized headers does with a gap: every header that
//! the subscription skipped is yielded, before the header that revealed the
//! gap.

use crate::chain::{
    chained, consecutive, lemma_chained_is_consecutive, missing_before, Header,
};
use crate::finalized_headers::{Event, Notification, Phase, Step, StreamView};
use crate::ordering::yielded;
use vstd::prelude::*;

verus! {

/// The stream after it took `events` one after the other.
pub open spec fn after(stream: StreamView, events: Seq<Event>) -> StreamView
    decreases events.len(),
{
    if events.len() == 0 {
        stream
    } else {
        after(stream.step(events[0]).0, events.subrange(1, events.len() as int))
    }
}

/// Asking for the next header `count` times.
pub open spec fn polls(count: nat) -> Seq<Event> {
    Seq::new(count, |i: int| Event::Poll)
}

/// The headers of `parents` as a walk back along the parent hashes retrieves
/// them: the highest first.
pub open spec fn fetches(parents: Seq<Header>) -> Seq<Event> {
    Seq::new(parents.len(), |i: int| Event::Fetched(Some(parents[parents.len() - 1 - i])))
}

/// What happens from the moment at which the subscription delivers `header`
/// until `header` itself is yielded, where the headers before it are
/// `parents`, the lowest first: the delivery, the walk back, and as many
/// requests for the next header as the gap is long.
pub open spec fn recovery(header: Header, parents: Seq<Header>) -> Seq<Event> {
    seq![Event::Notified(Notification::Finalized(header))] + fetches(parents) + polls(
        parents.len(),
    )
}

/// A run in two parts yields what the first part yields and then what the
/// second part yields from where the first one ended.
pub proof fn lemma_yielded_in_parts(stream: StreamView, first: Seq<Event>, then: Seq<Event>)
    ensures
        yielded(stream, first + then) == yielded(stream, first) + yielded(
            after(stream, first),
            then,
        ),
        after(stream, first + then) == after(after(stream, first), then),
    decreases first.len(),
{
    let all = first + then;
    if first.len() == 0 {
        assert(all =~= then);
        assert(yielded(stream, first) + yielded(stream, then) =~= yielded(stream, then));
    } else {
        let stepped = stream.step(first[0]);
        let first_tail = first.subrange(1, first.len() as int);
        assert(all[0] == first[0]);
        assert(all.subrange(1, all.len() as int) =~= first_tail + then);
        lemma_yielded_in_parts(stepped.0, first_tail, then);
        let head = yielded(stepped.0, first_tail);
        let tail = yielded(after(stepped.0, first_tail), then);
        match stepped.1 {
            Step::Yield(header) => {
                assert(seq![header] + (head + tail) =~= (seq![header] + head) + tail);
            },
            _ => {},
        }
    }
}

/// A stream that is asked for the next header as often as it has headers
/// buffered yields them all, oldest first.
proof fn lemma_polls_drain(stream: StreamView)
    requires
        stream.phase is Idle,
    ensures
        yielded(stream, polls(stream.pending.len())) == stream.pending,
    decreases stream.pending.len(),
{
    let count = stream.pending.len();
    let events = polls(count);
    if count == 0 {
        assert(stream.pending =~= Seq::<Header>::empty());
    } else {
        let rest = stream.without_front();
        assert(events[0] == Event::Poll);
        assert(stream.step(events[0]) == (rest, Step::Yield(stream.pending[0])));
        assert(events.subrange(1, count as int) =~= polls((count - 1) as nat));
        lemma_polls_drain(rest);
        assert(seq![stream.pending[0]] + rest.pending =~= stream.pending);
    }
}

/// A walk back that retrieves all the headers it is out for ends with the
/// lowest of them yielded and the others buffered before what was buffered.
proof fn lemma_fetches_fill(stream: StreamView, parents: Seq<Header>)
    requires
        parents.len() >= 1,
        stream.phase matches Phase::Backfilling { parent_hash, missing } && missing
            == parents.len(),
    ensures
        yielded(stream, fetches(parents)) == seq![parents[0]],
        after(stream, fetches(parents)) == (StreamView {
            pending: parents.subrange(1, parents.len() as int) + stream.pending,
            last_height: Some(parents[0].number),
            phase: Phase::Idle,
        }),
    decreases parents.len(),
{
    let count = parents.len() as int;
    let events = fetches(parents);
    let tail = events.subrange(1, count);
    let highest = parents[count - 1];
    assert(events[0] == Event::Fetched(Some(highest)));
    let stepped = stream.step(events[0]);
    if count == 1 {
        let fronted = stream.with_front(highest).with_phase(Phase::Idle);
        assert(fronted.pending[0] == highest);
        assert(stepped == fronted.next());
        assert(stepped.1 == Step::Yield(highest));
        assert(stepped.0.pending =~= parents.subrange(1, count) + stream.pending);
        assert(yielded(stepped.0, tail) =~= Seq::<Header>::empty());
        assert(seq![highest] + Seq::<Header>::empty() =~= seq![parents[0]]);
        assert(after(stepped.0, tail) == stepped.0);
        assert(after(stream, events) == stepped.0);
    } else {
        let lower = parents.subrange(0, count - 1);
        assert(tail =~= fetches(lower));
        assert(stepped.1 == Step::FetchHeader(highest.parent_hash));
        lemma_fetches_fill(stepped.0, lower);
        assert(lower[0] == parents[0]);
        assert(stepped.0.pending == seq![highest] + stream.pending);
        assert(lower.subrange(1, count - 1) + stepped.0.pending =~= parents.subrange(1, count)
            + stream.pending);
        assert(after(stream, events) == after(stepped.0, tail));
    }
}

/// Gap recovery: where the subscription delivers a header while the stream
/// waits for it, and the walk back retrieves the headers that were skipped
/// before it, the stream yields the skipped headers, lowest first, and then
/// the header that was delivered.
pub proof fn law_gap_is_recovered(stream: StreamView, header: Header, parents: Seq<Header>)
    requires
        stream.awaits_subscription(),
        parents.len() == missing_before(stream.last_height, header.number),
    ensures
        yielded(stream, recovery(header, parents)) == parents + seq![header],
{
    let delivery = seq![Event::Notified(Notification::Finalized(header))];
    let walk = fetches(parents);
    let drain = polls(parents.len());
    let delivered = stream.step(delivery[0]);
    let fronted = stream.with_front(header);
    assert(fronted.pending =~= seq![header]);
    assert(delivery.subrange(1, 1) =~= Seq::<Event>::empty());
    assert(after(delivered.0, delivery.subrange(1, 1)) == delivered.0);
    assert(yielded(delivered.0, delivery.subrange(1, 1)) =~= Seq::<Header>::empty());
    lemma_yielded_in_parts(stream, delivery + walk, drain);
    lemma_yielded_in_parts(stream, delivery, walk);
    if parents.len() == 0 {
        assert(delivered.1 == Step::Yield(header));
        assert(yielded(stream, delivery) =~= seq![header]);
        assert(yielded(after(stream, delivery), walk) =~= Seq::<Header>::empty());
        assert(yielded(after(stream, delivery + walk), drain) =~= Seq::<Header>::empty());
        assert(yielded(stream, recovery(header, parents)) =~= parents + seq![header]);
    } else {
        assert(delivered.1 == Step::FetchHeader(header.parent_hash));
        assert(yielded(stream, delivery) =~= Seq::<Header>::empty());
        lemma_fetches_fill(delivered.0, parents);
        let filled = after(delivered.0, walk);
        assert(filled.pending.len() == parents.len());
        lemma_polls_drain(filled);
        assert(yielded(stream, recovery(header, parents)) =~= parents + seq![header]);
    }
}

/// Where the headers that the walk back retrieves form a chain that ends in
/// the header delivered, the heights that come out of the recovery go up by
/// one from each to the next.
pub proof fn law_recovered_heights_are_consecutive(
    stream: StreamView,
    header: Header,
    parents: Seq<Header>,
)
    requires
        stream.awaits_subscription(),
        parents.len() == missing_before(stream.last_height, header.number),
        chained(parents + seq![header]),
    ensures
        consecutive(yielded(stream, recovery(header, parents))),
        stream.last_height matches Some(last) ==> (header.number > last ==> yielded(
            stream,
            recovery(header, parents),
        )[0].number == last + 1),
{
    let all = parents + seq![header];
    law_gap_is_recovered(stream, header, parents);
    lemma_chained_is_consecutive(all);
    lemma_heights_from_the_end(all, 0);
}

/// In a chain every header lies as far below the last one as it stands
/// before it.
proof fn lemma_heights_from_the_end(headers: Seq<Header>, at: int)
    requires
        chained(headers),
        0 <= at < headers.len(),
    ensures
        headers[at].number + (headers.len() - 1 - at) == headers[headers.len() - 1].number,
    decreases headers.len() - at,
{
    if at + 1 < headers.len() {
        lemma_heights_from_the_end(headers, at + 1);
    }
}

} // verus!
