//! End to end: what reaches a client, set against what was published.
//!
//! Between an adapter and a session lies the hub, a channel that this
//! library calls and does not prove. The channel documents that a receiver is
//! handed values in the order in which they were sent, from its subscription
//! on, some of them skipped where it lagged. The laws below take that as
//! their hypothesis and show what follows for the client of a session.

use crate::adapter;
use crate::envelope::{fields_of, is_identifier};
use crate::session::{
    delivered, forwarded, lemma_forwards_deliveries_in_order, run, Session, SessionEventView,
};
use vstd::prelude::*;

verus! {

/// Whether `part` can be had from `whole` by leaving frames out, the order of
/// the others kept.
pub open spec fn is_subsequence(part: Seq<Seq<char>>, whole: Seq<Seq<char>>) -> bool
    decreases whole.len(),
{
    part.len() == 0 || (whole.len() > 0 && ((part.last() == whole.last() && is_subsequence(
        part.drop_last(),
        whole.drop_last(),
    )) || is_subsequence(part, whole.drop_last())))
}

/// Whether `frame` is an envelope of the feed `exchange`.
pub open spec fn comes_from(frame: Seq<char>, exchange: Seq<char>) -> bool {
    fields_of(frame) matches Some(fields) && fields.0 == exchange
}

/// The envelopes of the feed `exchange` among `frames`, in order.
pub open spec fn from_feed(frames: Seq<Seq<char>>, exchange: Seq<char>) -> Seq<Seq<char>>
    decreases frames.len(),
{
    if frames.len() == 0 {
        Seq::empty()
    } else if comes_from(frames.last(), exchange) {
        from_feed(frames.drop_last(), exchange).push(frames.last())
    } else {
        from_feed(frames.drop_last(), exchange)
    }
}

/// The first frames of a sequence are a subsequence of it.
proof fn lemma_prefix_is_subsequence(whole: Seq<Seq<char>>, n: int)
    requires
        0 <= n <= whole.len(),
    ensures
        is_subsequence(whole.take(n), whole),
    decreases whole.len(),
{
    if 0 < n {
        if n == whole.len() {
            assert(whole.take(n) =~= whole);
            lemma_prefix_is_subsequence(whole.drop_last(), n - 1);
            assert(whole.drop_last().take(n - 1) =~= whole.drop_last());
        } else {
            lemma_prefix_is_subsequence(whole.drop_last(), n);
            assert(whole.drop_last().take(n) =~= whole.take(n));
        }
    }
}

/// A subsequence of a subsequence is a subsequence.
proof fn lemma_subsequence_of_subsequence(
    a: Seq<Seq<char>>,
    b: Seq<Seq<char>>,
    c: Seq<Seq<char>>,
)
    requires
        is_subsequence(a, b),
        is_subsequence(b, c),
    ensures
        is_subsequence(a, c),
    decreases c.len(),
{
    if a.len() > 0 {
        if b.last() == c.last() && is_subsequence(b.drop_last(), c.drop_last()) {
            if a.last() == b.last() && is_subsequence(a.drop_last(), b.drop_last()) {
                lemma_subsequence_of_subsequence(a.drop_last(), b.drop_last(), c.drop_last());
            } else {
                lemma_subsequence_of_subsequence(a, b.drop_last(), c.drop_last());
            }
        } else {
            lemma_subsequence_of_subsequence(a, b, c.drop_last());
        }
    }
}

/// Every frame of a subsequence stands in the whole.
proof fn lemma_subsequence_holds_nothing_new(part: Seq<Seq<char>>, whole: Seq<Seq<char>>)
    requires
        is_subsequence(part, whole),
    ensures
        forall|i: int|
            0 <= i < part.len() ==> exists|k: int|
                0 <= k < whole.len() && #[trigger] part[i] == #[trigger] whole[k],
    decreases whole.len(),
{
    if part.len() > 0 {
        let rest = whole.drop_last();
        if part.last() == whole.last() && is_subsequence(part.drop_last(), rest) {
            lemma_subsequence_holds_nothing_new(part.drop_last(), rest);
            assert forall|i: int| 0 <= i < part.len() implies exists|k: int|
                0 <= k < whole.len() && #[trigger] part[i] == #[trigger] whole[k] by {
                if i < part.len() - 1 {
                    let k = choose|k: int|
                        0 <= k < rest.len() && #[trigger] part.drop_last()[i] == #[trigger] rest[k];
                    assert(part[i] == whole[k]);
                } else {
                    assert(part[i] == whole[whole.len() - 1]);
                }
            }
        } else {
            lemma_subsequence_holds_nothing_new(part, rest);
            assert forall|i: int| 0 <= i < part.len() implies exists|k: int|
                0 <= k < whole.len() && #[trigger] part[i] == #[trigger] whole[k] by {
                let k = choose|k: int|
                    0 <= k < rest.len() && #[trigger] part[i] == #[trigger] rest[k];
                assert(part[i] == whole[k]);
            }
        }
    }
}

/// Picking the envelopes of one feed keeps a subsequence a subsequence.
proof fn lemma_from_feed_keeps_subsequence(
    part: Seq<Seq<char>>,
    whole: Seq<Seq<char>>,
    exchange: Seq<char>,
)
    requires
        is_subsequence(part, whole),
    ensures
        is_subsequence(from_feed(part, exchange), from_feed(whole, exchange)),
    decreases whole.len(),
{
    if part.len() > 0 {
        let picked = from_feed(whole.drop_last(), exchange);
        if comes_from(whole.last(), exchange) {
            assert(picked.push(whole.last()).drop_last() =~= picked);
        }
        if part.last() == whole.last() && is_subsequence(part.drop_last(), whole.drop_last()) {
            lemma_from_feed_keeps_subsequence(part.drop_last(), whole.drop_last(), exchange);
            if comes_from(part.last(), exchange) {
                assert(from_feed(part.drop_last(), exchange).push(part.last()).drop_last()
                    =~= from_feed(part.drop_last(), exchange));
            }
        } else {
            lemma_from_feed_keeps_subsequence(part, whole.drop_last(), exchange);
        }
    }
}

/// No phantom history, and order at the client. Let `log` be what the hub
/// took in after a session's cursor was made, and let the envelopes delivered
/// to the session be a subsequence of it, as the channel documents. Then the
/// frames that the session sends to its client are a subsequence of `log`,
/// and so are, feed by feed, those of each feed: in publish order, none
/// twice, none made up, none from before the cursor.
pub proof fn lemma_client_sees_each_feed_in_order(
    log: Seq<Seq<char>>,
    events: Seq<SessionEventView>,
    exchange: Seq<char>,
)
    requires
        is_subsequence(delivered(events), log),
    ensures
        is_subsequence(forwarded(run(Session::Waiting, events).1), log),
        is_subsequence(
            from_feed(forwarded(run(Session::Waiting, events).1), exchange),
            from_feed(log, exchange),
        ),
{
    let sent = forwarded(run(Session::Waiting, events).1);
    lemma_forwards_deliveries_in_order(Session::Waiting, events);
    assert(sent =~= delivered(events).take(sent.len() as int));
    lemma_prefix_is_subsequence(delivered(events), sent.len() as int);
    lemma_subsequence_of_subsequence(sent, delivered(events), log);
    lemma_from_feed_keeps_subsequence(sent, log, exchange);
}

/// Per-source order. Fix a session and an adapter. Let `log` be what the hub
/// took in after the session's cursor was made: of the adapter's envelopes it
/// holds a subsequence of what the adapter published, and the session is
/// delivered a subsequence of `log`. Then the envelopes of that adapter's
/// feed which the session sends to its client are a subsequence, in order, of
/// the envelopes the adapter published.
pub proof fn lemma_per_source_order(
    start: adapter::AdapterView,
    upstream: Seq<adapter::UpstreamEventView>,
    log: Seq<Seq<char>>,
    events: Seq<SessionEventView>,
)
    requires
        is_subsequence(
            from_feed(log, start.feed.exchange),
            adapter::published(adapter::run(start, upstream).1),
        ),
        is_subsequence(delivered(events), log),
    ensures
        is_subsequence(
            from_feed(forwarded(run(Session::Waiting, events).1), start.feed.exchange),
            adapter::published(adapter::run(start, upstream).1),
        ),
{
    lemma_client_sees_each_feed_in_order(log, events, start.feed.exchange);
    lemma_subsequence_of_subsequence(
        from_feed(forwarded(run(Session::Waiting, events).1), start.feed.exchange),
        from_feed(log, start.feed.exchange),
        adapter::published(adapter::run(start, upstream).1),
    );
}

/// Payload preservation at the client. With the hypotheses of
/// `lemma_per_source_order`, every envelope of the adapter's feed that the
/// session sends to its client carries, character for character, one of the
/// text frames that the adapter received.
pub proof fn lemma_client_frames_carry_upstream_text(
    start: adapter::AdapterView,
    upstream: Seq<adapter::UpstreamEventView>,
    log: Seq<Seq<char>>,
    events: Seq<SessionEventView>,
)
    requires
        is_identifier(start.feed.exchange),
        is_subsequence(
            from_feed(log, start.feed.exchange),
            adapter::published(adapter::run(start, upstream).1),
        ),
        is_subsequence(delivered(events), log),
    ensures
        forall|i: int|
            0 <= i < from_feed(
                forwarded(run(Session::Waiting, events).1),
                start.feed.exchange,
            ).len() ==> exists|k: int|
                0 <= k < adapter::text_frames(upstream).len() && fields_of(
                    #[trigger] from_feed(
                        forwarded(run(Session::Waiting, events).1),
                        start.feed.exchange,
                    )[i],
                ) == Some((start.feed.exchange, #[trigger] adapter::text_frames(upstream)[k])),
{
    let seen = from_feed(forwarded(run(Session::Waiting, events).1), start.feed.exchange);
    let out = adapter::published(adapter::run(start, upstream).1);
    let texts = adapter::text_frames(upstream);
    lemma_per_source_order(start, upstream, log, events);
    lemma_subsequence_holds_nothing_new(seen, out);
    adapter::lemma_publishes_text_frames_in_order(start, upstream);
    adapter::lemma_published_envelopes_carry_text_frames(start, upstream);
    assert forall|i: int| 0 <= i < seen.len() implies exists|k: int|
        0 <= k < texts.len() && fields_of(#[trigger] seen[i]) == Some(
            (start.feed.exchange, #[trigger] texts[k]),
        ) by {
        let k = choose|k: int| 0 <= k < out.len() && #[trigger] seen[i] == #[trigger] out[k];
        assert(fields_of(out[k]) == Some((start.feed.exchange, texts[k])));
    }
}

} // verus!
