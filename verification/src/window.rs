//! The sliding window behind both rate limiters.
//!
//! A window is an ordered sequence of request timestamps. A check first
//! discards every timestamp that is older than the window, then admits the
//! request if fewer than `ceiling` timestamps remain. A timestamp that is
//! exactly one window old is not older than the window: it stays and counts.
//! Only admitted requests are recorded, so a denied request does not count
//! against the window.

use vstd::prelude::*;
use crate::clock::{duration_since, elapsed, Instant, Span};

verus! {

/// `t` still counts at `now`: no more than `window` has passed since it.
pub open spec fn in_window(t: Instant, now: Instant, window: Span) -> bool {
    elapsed(now, t) <= window
}

/// [`in_window`] as a predicate on timestamps.
pub open spec fn fresh_at(now: Instant, window: Span) -> spec_fn(Instant) -> bool {
    |t: Instant| in_window(t, now, window)
}

/// The timestamps that survive pruning at `now`, in the order in which they
/// were recorded.
pub open spec fn retained(hits: Seq<Instant>, now: Instant, window: Span) -> Seq<Instant> {
    hits.filter(fresh_at(now, window))
}

/// A request at `now` is admitted: after pruning, the window holds fewer than
/// `ceiling` timestamps.
pub open spec fn admits(hits: Seq<Instant>, now: Instant, window: Span, ceiling: nat) -> bool {
    retained(hits, now, window).len() < ceiling
}

/// The window after a check at `now`: pruned, and with `now` appended if the
/// request was admitted.
pub open spec fn checked(hits: Seq<Instant>, now: Instant, window: Span, ceiling: nat) -> Seq<
    Instant,
> {
    if admits(hits, now, window, ceiling) {
        retained(hits, now, window).push(now)
    } else {
        retained(hits, now, window)
    }
}

/// The window after a run of checks at the given times, one after another.
pub open spec fn replayed(hits: Seq<Instant>, times: Seq<Instant>, window: Span, ceiling: nat) -> Seq<
    Instant,
>
    decreases times.len(),
{
    if times.len() == 0 {
        hits
    } else {
        checked(replayed(hits, times.drop_last(), window, ceiling), times.last(), window, ceiling)
    }
}

/// The timestamps lie within one window: at each of them, every other still
/// counts.
pub open spec fn within_one_window(times: Seq<Instant>, window: Span) -> bool {
    forall|i: int, j: int|
        0 <= i < times.len() && 0 <= j < times.len() ==> elapsed(
            #[trigger] times[j],
            #[trigger] times[i],
        ) <= window
}

/// No timestamp is earlier than the one before it.
pub open spec fn nondecreasing(times: Seq<Instant>) -> bool {
    forall|i: int, j: int| 0 <= i <= j < times.len() ==> times[i] <= times[j]
}

/// Unfolds [`retained`] at the last timestamp.
pub proof fn lemma_retained_step(hits: Seq<Instant>, now: Instant, window: Span)
    requires
        hits.len() > 0,
    ensures
        retained(hits, now, window) == if in_window(hits.last(), now, window) {
            retained(hits.drop_last(), now, window).push(hits.last())
        } else {
            retained(hits.drop_last(), now, window)
        },
{
    reveal(Seq::filter);
}

/// Pruning an empty window leaves it empty.
pub proof fn lemma_retained_empty(now: Instant, window: Span)
    ensures
        retained(Seq::<Instant>::empty(), now, window) == Seq::<Instant>::empty(),
{
    reveal(Seq::filter);
}

/// The timestamps of `hits` that are still within the window at `now`.
pub fn pruned(hits: &Vec<Instant>, now: Instant, window: Span) -> (kept: Vec<Instant>)
    ensures
        kept@ == retained(hits@, now, window),
        forall|i: int| 0 <= i < kept@.len() ==> in_window(#[trigger] kept@[i], now, window),
{
    let mut kept: Vec<Instant> = Vec::new();
    let mut i: usize = 0;
    proof {
        lemma_retained_empty(now, window);
        assert(hits@.take(0) == Seq::<Instant>::empty());
    }
    while i < hits.len()
        invariant
            i <= hits.len(),
            kept@ == retained(hits@.take(i as int), now, window),
            forall|k: int| 0 <= k < kept@.len() ==> in_window(#[trigger] kept@[k], now, window),
        decreases hits.len() - i,
    {
        let t: Instant = hits[i];
        proof {
            let upto = hits@.take(i + 1);
            assert(upto.drop_last() == hits@.take(i as int));
            lemma_retained_step(upto, now, window);
        }
        if duration_since(now, t) <= window {
            kept.push(t);
        }
        i += 1;
    }
    proof {
        assert(hits@.take(hits.len() as int) == hits@);
    }
    kept
}

/// Discards the timestamps that have aged out of the window at `now`.
pub fn prune(hits: &mut Vec<Instant>, now: Instant, window: Span)
    ensures
        final(hits)@ == retained(old(hits)@, now, window),
        forall|i: int|
            0 <= i < final(hits)@.len() ==> in_window(#[trigger] final(hits)@[i], now, window),
{
    let kept = pruned(hits, now, window);
    *hits = kept;
}

/// Checks one request against the window and records it if it is admitted.
pub fn check_and_record(hits: &mut Vec<Instant>, now: Instant, window: Span, ceiling: usize) -> (allowed:
    bool)
    ensures
        allowed == admits(old(hits)@, now, window, ceiling as nat),
        final(hits)@ == checked(old(hits)@, now, window, ceiling as nat),
{
    prune(hits, now, window);
    if hits.len() < ceiling {
        hits.push(now);
        true
    } else {
        false
    }
}

// Laws of the sliding window.

/// The invariant of a window. After a check at `now`, every timestamp it
/// holds is within the window of `now`, and the window holds no more than
/// the ceiling allows unless it held more before.
pub proof fn lemma_checked_within_window(
    hits: Seq<Instant>,
    now: Instant,
    window: Span,
    ceiling: nat,
)
    ensures
        forall|i: int|
            0 <= i < checked(hits, now, window, ceiling).len() ==> in_window(
                #[trigger] checked(hits, now, window, ceiling)[i],
                now,
                window,
            ),
        checked(hits, now, window, ceiling).len() <= hits.len() + 1,
        hits.len() <= ceiling ==> checked(hits, now, window, ceiling).len() <= ceiling,
{
    lemma_retained_within_window(hits, now, window);
}

/// What pruning at `now` keeps is within the window of `now`, and it is no
/// more than there was.
pub proof fn lemma_retained_within_window(hits: Seq<Instant>, now: Instant, window: Span)
    ensures
        forall|i: int|
            0 <= i < retained(hits, now, window).len() ==> in_window(
                #[trigger] retained(hits, now, window)[i],
                now,
                window,
            ),
        retained(hits, now, window).len() <= hits.len(),
    decreases hits.len(),
{
    if hits.len() == 0 {
        lemma_retained_empty(now, window);
    } else {
        lemma_retained_within_window(hits.drop_last(), now, window);
        lemma_retained_step(hits, now, window);
    }
}

/// Pruning keeps a window whose timestamps all still count as it is.
pub proof fn lemma_retained_all_fresh(hits: Seq<Instant>, now: Instant, window: Span)
    requires
        forall|i: int| 0 <= i < hits.len() ==> in_window(#[trigger] hits[i], now, window),
    ensures
        retained(hits, now, window) == hits,
    decreases hits.len(),
{
    if hits.len() == 0 {
        lemma_retained_empty(now, window);
        assert(hits == Seq::<Instant>::empty());
    } else {
        lemma_retained_all_fresh(hits.drop_last(), now, window);
        lemma_retained_step(hits, now, window);
        assert(in_window(hits[hits.len() - 1], now, window));
        assert(hits.drop_last().push(hits.last()) == hits);
    }
}

/// Pruning empties a window whose timestamps have all aged out.
pub proof fn lemma_retained_all_stale(hits: Seq<Instant>, now: Instant, window: Span)
    requires
        forall|i: int| 0 <= i < hits.len() ==> !in_window(#[trigger] hits[i], now, window),
    ensures
        retained(hits, now, window) == Seq::<Instant>::empty(),
    decreases hits.len(),
{
    if hits.len() == 0 {
        lemma_retained_empty(now, window);
    } else {
        lemma_retained_all_stale(hits.drop_last(), now, window);
        lemma_retained_step(hits, now, window);
        assert(!in_window(hits[hits.len() - 1], now, window));
    }
}

/// Old timestamps drop off one by one. Where the first `aged` timestamps of
/// a window have aged out and the others have not, pruning removes those
/// `aged` and keeps every other timestamp, in order.
pub proof fn lemma_retained_drops_aged_prefix(
    hits: Seq<Instant>,
    now: Instant,
    window: Span,
    aged: int,
)
    requires
        0 <= aged <= hits.len(),
        forall|i: int| 0 <= i < aged ==> !in_window(#[trigger] hits[i], now, window),
        forall|i: int| aged <= i < hits.len() ==> in_window(#[trigger] hits[i], now, window),
    ensures
        retained(hits, now, window) == hits.skip(aged),
{
    let old_part = hits.take(aged);
    let new_part = hits.skip(aged);
    assert(hits == old_part + new_part);
    Seq::filter_distributes_over_add(old_part, new_part, fresh_at(now, window));
    lemma_retained_all_stale(old_part, now, window);
    lemma_retained_all_fresh(new_part, now, window);
    assert(Seq::<Instant>::empty() + new_part == new_part);
}

/// A window that holds `ceiling` timestamps or more, all of which still
/// count, denies the request and records nothing.
pub proof fn lemma_full_window_denies(hits: Seq<Instant>, now: Instant, window: Span, ceiling: nat)
    requires
        hits.len() >= ceiling,
        forall|i: int| 0 <= i < hits.len() ==> in_window(#[trigger] hits[i], now, window),
    ensures
        !admits(hits, now, window, ceiling),
        checked(hits, now, window, ceiling) == hits,
{
    lemma_retained_all_fresh(hits, now, window);
}

/// Requests that all lie within one window of each other, no more of them
/// than the ceiling allows, are all admitted and all recorded.
pub proof fn lemma_burst_is_admitted(times: Seq<Instant>, window: Span, ceiling: nat)
    requires
        within_one_window(times, window),
        times.len() <= ceiling,
    ensures
        replayed(Seq::empty(), times, window, ceiling) == times,
        forall|k: int|
            0 <= k < times.len() ==> admits(
                #[trigger] replayed(Seq::empty(), times.take(k), window, ceiling),
                times[k],
                window,
                ceiling,
            ),
    decreases times.len(),
{
    if times.len() == 0 {
        assert(times == Seq::<Instant>::empty());
    } else {
        let earlier = times.drop_last();
        let last = times.last();
        assert forall|i: int, j: int| 0 <= i < earlier.len() && 0 <= j < earlier.len() implies elapsed(
            #[trigger] earlier[j],
            #[trigger] earlier[i],
        ) <= window by {
            assert(elapsed(times[j], times[i]) <= window);
        }
        lemma_burst_is_admitted(earlier, window, ceiling);
        assert forall|i: int| 0 <= i < earlier.len() implies in_window(
            #[trigger] earlier[i],
            last,
            window,
        ) by {
            assert(elapsed(times[times.len() - 1], times[i]) <= window);
        }
        lemma_retained_all_fresh(earlier, last, window);
        assert(earlier.push(last) == times);
        assert forall|k: int| 0 <= k < times.len() implies admits(
            #[trigger] replayed(Seq::empty(), times.take(k), window, ceiling),
            times[k],
            window,
            ceiling,
        ) by {
            if k < times.len() - 1 {
                assert(times.take(k) == earlier.take(k));
            } else {
                assert(times.take(k) == earlier);
            }
        }
    }
}

/// The ceiling holds. After as many requests as the ceiling allows, all
/// within one window, the next request within that window is denied, and it
/// is not recorded.
pub proof fn lemma_request_over_ceiling_denied(
    times: Seq<Instant>,
    next: Instant,
    window: Span,
    ceiling: nat,
)
    requires
        times.len() == ceiling,
        within_one_window(times.push(next), window),
    ensures
        replayed(Seq::empty(), times, window, ceiling) == times,
        !admits(times, next, window, ceiling),
        checked(times, next, window, ceiling) == times,
        replayed(Seq::empty(), times.push(next), window, ceiling) == times,
{
    let all = times.push(next);
    assert forall|i: int, j: int| 0 <= i < times.len() && 0 <= j < times.len() implies elapsed(
        #[trigger] times[j],
        #[trigger] times[i],
    ) <= window by {
        assert(elapsed(all[j], all[i]) <= window);
    }
    lemma_burst_is_admitted(times, window, ceiling);
    assert forall|i: int| 0 <= i < times.len() implies in_window(#[trigger] times[i], next, window) by {
        assert(elapsed(all[times.len() as int], all[i]) <= window);
    }
    lemma_full_window_denies(times, next, window, ceiling);
    assert(all.drop_last() == times);
}

/// Requests that come in order lie within one window if the last comes no
/// more than a window after the first.
pub proof fn lemma_ordered_within_one_window(times: Seq<Instant>, window: Span)
    requires
        nondecreasing(times),
        times.len() > 0,
        elapsed(times.last(), times[0]) <= window,
    ensures
        within_one_window(times, window),
{
    assert forall|i: int, j: int| 0 <= i < times.len() && 0 <= j < times.len() implies elapsed(
        #[trigger] times[j],
        #[trigger] times[i],
    ) <= window by {
        assert(times[0] <= times[i] <= times[times.len() - 1]);
        assert(times[0] <= times[j] <= times[times.len() - 1]);
    }
}

/// The window slides. Once the oldest timestamps of a window have aged out,
/// a request is admitted again; it takes the place of the aged ones only,
/// and every timestamp that still counts stays.
pub proof fn lemma_request_admitted_after_window(
    hits: Seq<Instant>,
    now: Instant,
    window: Span,
    ceiling: nat,
    aged: int,
)
    requires
        0 < aged <= hits.len(),
        hits.len() <= ceiling,
        forall|i: int| 0 <= i < aged ==> !in_window(#[trigger] hits[i], now, window),
        forall|i: int| aged <= i < hits.len() ==> in_window(#[trigger] hits[i], now, window),
    ensures
        admits(hits, now, window, ceiling),
        checked(hits, now, window, ceiling) == hits.skip(aged).push(now),
{
    lemma_retained_drops_aged_prefix(hits, now, window, aged);
}

/// `count` requests, all at `now`.
pub open spec fn repeated(now: Instant, count: nat) -> Seq<Instant> {
    Seq::new(count, |i: int| now)
}

/// A window that holds fewer timestamps than the ceiling allows, all of
/// which still count, admits the request and records it after them.
pub proof fn lemma_window_with_room_admits(
    hits: Seq<Instant>,
    now: Instant,
    window: Span,
    ceiling: nat,
)
    requires
        hits.len() < ceiling,
        forall|i: int| 0 <= i < hits.len() ==> in_window(#[trigger] hits[i], now, window),
    ensures
        admits(hits, now, window, ceiling),
        checked(hits, now, window, ceiling) == hits.push(now),
{
    lemma_retained_all_fresh(hits, now, window);
}

/// What pruning at `now` has left, followed by requests at `now`, still
/// counts at `now`.
proof fn lemma_kept_and_new_are_fresh(
    hits: Seq<Instant>,
    now: Instant,
    window: Span,
    aged: int,
    count: nat,
)
    requires
        0 <= aged <= hits.len(),
        forall|i: int| aged <= i < hits.len() ==> in_window(#[trigger] hits[i], now, window),
    ensures
        forall|i: int|
            0 <= i < (hits.skip(aged) + repeated(now, count)).len() ==> in_window(
                #[trigger] (hits.skip(aged) + repeated(now, count))[i],
                now,
                window,
            ),
{
    let kept = hits.skip(aged);
    let all = kept + repeated(now, count);
    assert forall|i: int| 0 <= i < all.len() implies in_window(#[trigger] all[i], now, window) by {
        if i < kept.len() {
            assert(all[i] == hits[i + aged]);
        } else {
            assert(all[i] == now);
        }
    }
}

/// In a full window of which the first `aged` timestamps have aged out at
/// `now`, the first `count` requests at `now` are recorded in their place,
/// as long as there are no more of them than timestamps have aged out.
pub proof fn lemma_replay_into_aged_places(
    hits: Seq<Instant>,
    now: Instant,
    window: Span,
    ceiling: nat,
    aged: int,
    count: nat,
)
    requires
        hits.len() == ceiling,
        1 <= count <= aged <= hits.len(),
        forall|i: int| 0 <= i < aged ==> !in_window(#[trigger] hits[i], now, window),
        forall|i: int| aged <= i < hits.len() ==> in_window(#[trigger] hits[i], now, window),
    ensures
        replayed(hits, repeated(now, count), window, ceiling) == hits.skip(aged) + repeated(
            now,
            count,
        ),
        admits(
            replayed(hits, repeated(now, (count - 1) as nat), window, ceiling),
            now,
            window,
            ceiling,
        ),
    decreases count,
{
    let requests = repeated(now, count);
    let earlier = repeated(now, (count - 1) as nat);
    let kept = hits.skip(aged);
    assert(requests.drop_last() =~= earlier);
    assert(requests.last() == now);
    assert(replayed(hits, requests, window, ceiling) == checked(
        replayed(hits, earlier, window, ceiling),
        now,
        window,
        ceiling,
    ));
    if count == 1 {
        assert(replayed(hits, earlier, window, ceiling) == hits);
        lemma_retained_drops_aged_prefix(hits, now, window, aged);
        assert(kept.push(now) =~= kept + requests);
    } else {
        lemma_replay_into_aged_places(hits, now, window, ceiling, aged, (count - 1) as nat);
        let before = kept + earlier;
        lemma_kept_and_new_are_fresh(hits, now, window, aged, (count - 1) as nat);
        lemma_window_with_room_admits(before, now, window, ceiling);
        assert(before.push(now) =~= kept + requests);
    }
}

/// The window is not reset. In a full window of which `aged` timestamps
/// have aged out at `now`, exactly `aged` requests at `now` are admitted:
/// each takes one freed place, and the request after them is denied.
pub proof fn lemma_only_aged_places_are_free(
    hits: Seq<Instant>,
    now: Instant,
    window: Span,
    ceiling: nat,
    aged: int,
)
    requires
        hits.len() == ceiling,
        0 <= aged <= hits.len(),
        forall|i: int| 0 <= i < aged ==> !in_window(#[trigger] hits[i], now, window),
        forall|i: int| aged <= i < hits.len() ==> in_window(#[trigger] hits[i], now, window),
    ensures
        forall|count: nat|
            count < aged ==> admits(
                #[trigger] replayed(hits, repeated(now, count), window, ceiling),
                now,
                window,
                ceiling,
            ),
        !admits(replayed(hits, repeated(now, aged as nat), window, ceiling), now, window, ceiling),
        replayed(hits, repeated(now, aged as nat), window, ceiling).len() == ceiling,
{
    assert forall|count: nat| count < aged implies admits(
        #[trigger] replayed(hits, repeated(now, count), window, ceiling),
        now,
        window,
        ceiling,
    ) by {
        lemma_replay_into_aged_places(hits, now, window, ceiling, aged, count + 1);
    }
    if aged == 0 {
        assert(repeated(now, 0) =~= Seq::<Instant>::empty());
        assert(replayed(hits, repeated(now, 0), window, ceiling) == hits);
        lemma_full_window_denies(hits, now, window, ceiling);
    } else {
        lemma_replay_into_aged_places(hits, now, window, ceiling, aged, aged as nat);
        lemma_kept_and_new_are_fresh(hits, now, window, aged, aged as nat);
        lemma_full_window_denies(
            hits.skip(aged) + repeated(now, aged as nat),
            now,
            window,
            ceiling,
        );
    }
}

/// In a window whose timestamps come in order, the aged ones are the oldest:
/// if the timestamp at `aged - 1` has aged out at `now` and the one at
/// `aged` has not, the same holds of all before and all after.
pub proof fn lemma_aged_are_oldest(hits: Seq<Instant>, now: Instant, window: Span, aged: int)
    requires
        nondecreasing(hits),
        0 <= aged <= hits.len(),
        aged > 0 ==> !in_window(hits[aged - 1], now, window),
        aged < hits.len() ==> in_window(hits[aged], now, window),
    ensures
        forall|i: int| 0 <= i < aged ==> !in_window(#[trigger] hits[i], now, window),
        forall|i: int| aged <= i < hits.len() ==> in_window(#[trigger] hits[i], now, window),
{
    assert forall|i: int| 0 <= i < aged implies !in_window(#[trigger] hits[i], now, window) by {
        assert(hits[i] <= hits[aged - 1]);
    }
    assert forall|i: int| aged <= i < hits.len() implies in_window(
        #[trigger] hits[i],
        now,
        window,
    ) by {
        assert(hits[aged] <= hits[i]);
    }
}

} // verus!
