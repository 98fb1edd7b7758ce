//! Whole runs of a task: what a feed comes to when the answers of the hosts
//! are given beforehand.

use crate::article::article_of;
use crate::catalog::FeedSourceView;
use crate::feed::{eligible, RawFeedItemView, UtcInstant};
use crate::image::{accepts, probe_targets, ProbeOutcomeView};
use crate::task::{
    after_begin, after_probe, initial, inv, lemma_begin_keeps_inv, lemma_probe_keeps_inv,
    lemma_probe_makes_progress, lemma_settled_inv, probe_url, settled, work_left, FeedTaskView,
    Phase, ProbeRecord, MAX_ARTICLES_PER_FEED,
};
use vstd::prelude::*;

verus! {

/// The task after `steps` probes at most, each answered as `answer` says for
/// the item and the target under probe, all at instant `now`. A task that
/// awaits no probe is left as it is.
pub open spec fn driven(
    v: FeedTaskView,
    answer: spec_fn(int, int) -> ProbeOutcomeView,
    now: UtcInstant,
    steps: nat,
) -> FeedTaskView
    decreases steps,
{
    if steps == 0 || v.phase != Phase::Validating {
        v
    } else {
        driven(
            after_probe(v, answer(v.cursor as int, v.tried as int), now),
            answer,
            now,
            (steps - 1) as nat,
        )
    }
}

/// Item `i` can still get its image from its `j`-th probe target on: it is
/// eligible, and one of those targets is answered as an image.
pub open spec fn winnable(
    items: Seq<RawFeedItemView>,
    answer: spec_fn(int, int) -> ProbeOutcomeView,
    i: int,
    j: int,
) -> bool {
    &&& 0 <= i < items.len()
    &&& eligible(items[i])
    &&& exists|t: int| j <= t < probe_targets(items[i]).len() && accepts(#[trigger] answer(i, t))
}

/// An item is valid when it is eligible and one of its probe targets is
/// answered as an image.
pub open spec fn valid_item(
    items: Seq<RawFeedItemView>,
    answer: spec_fn(int, int) -> ProbeOutcomeView,
    i: int,
) -> bool {
    winnable(items, answer, i, 0)
}

/// How many items from place `from` on are valid.
pub open spec fn valid_from(
    items: Seq<RawFeedItemView>,
    answer: spec_fn(int, int) -> ProbeOutcomeView,
    from: int,
) -> nat
    decreases items.len() - from,
{
    if from < 0 || from >= items.len() {
        0
    } else {
        (if valid_item(items, answer, from) {
            1nat
        } else {
            0nat
        }) + valid_from(items, answer, from + 1)
    }
}

/// How many articles a task at item `i`, target `j`, can still gain.
pub open spec fn gains(
    items: Seq<RawFeedItemView>,
    answer: spec_fn(int, int) -> ProbeOutcomeView,
    i: int,
    j: int,
) -> nat {
    (if winnable(items, answer, i, j) {
        1nat
    } else {
        0nat
    }) + valid_from(items, answer, i + 1)
}

/// The smaller of a number and the limit of articles for one feed.
pub open spec fn capped(n: int) -> int {
    if n <= MAX_ARTICLES_PER_FEED {
        n
    } else {
        MAX_ARTICLES_PER_FEED as int
    }
}

/// The phase in which a task comes to rest with `n` articles: it awaits
/// their insert, or is done where there is none.
pub open spec fn rest_phase(n: nat) -> Phase {
    if n > 0 {
        Phase::Inserting
    } else {
        Phase::Done
    }
}

/// At the start of an item, what can be gained is the number of valid items
/// from it on.
proof fn lemma_gains_at_start(
    items: Seq<RawFeedItemView>,
    answer: spec_fn(int, int) -> ProbeOutcomeView,
    i: int,
)
    requires
        0 <= i,
    ensures
        gains(items, answer, i, 0) == valid_from(items, answer, i),
{
    if i >= items.len() {
        assert(valid_from(items, answer, i + 1) == 0);
    }
}

/// Settling loses no gain: it skips only what cannot be won, and ends only
/// where the limit is reached or nothing is left to gain.
proof fn lemma_settled_gains(v: FeedTaskView, answer: spec_fn(int, int) -> ProbeOutcomeView)
    ensures
        settled(v).accepted == v.accepted,
        settled(v).items == v.items,
        settled(v).phase == Phase::Validating ==> gains(
            v.items,
            answer,
            settled(v).cursor as int,
            settled(v).tried as int,
        ) == gains(v.items, answer, v.cursor as int, v.tried as int),
        settled(v).phase != Phase::Validating ==> v.accepted.len() >= MAX_ARTICLES_PER_FEED
            || gains(v.items, answer, v.cursor as int, v.tried as int) == 0,
        settled(v).phase != Phase::Validating ==> settled(v).phase == rest_phase(
            v.accepted.len(),
        ),
    decreases v.items.len() - v.cursor,
{
    if v.accepted.len() >= MAX_ARTICLES_PER_FEED || v.cursor >= v.items.len() {
        if v.cursor >= v.items.len() {
            assert(valid_from(v.items, answer, v.cursor as int + 1) == 0);
        }
    } else if eligible(v.items[v.cursor as int]) && v.tried < probe_targets(
        v.items[v.cursor as int],
    ).len() {
    } else {
        let next = FeedTaskView { cursor: v.cursor + 1, tried: 0, ..v };
        assert(!winnable(v.items, answer, v.cursor as int, v.tried as int));
        lemma_gains_at_start(v.items, answer, v.cursor as int + 1);
        lemma_settled_gains(next, answer);
    }
}

/// A task that awaits a probe, driven for as many steps as it has work
/// left, comes to rest with as many articles as it had and could gain, up
/// to the limit.
proof fn lemma_driven_count(
    v: FeedTaskView,
    answer: spec_fn(int, int) -> ProbeOutcomeView,
    now: UtcInstant,
    steps: nat,
)
    requires
        inv(v),
        v.phase == Phase::Validating,
        steps >= work_left(v),
    ensures
        driven(v, answer, now, steps).phase == rest_phase(
            driven(v, answer, now, steps).accepted.len(),
        ),
        driven(v, answer, now, steps).items == v.items,
        driven(v, answer, now, steps).accepted.len() == capped(
            (v.accepted.len() + gains(v.items, answer, v.cursor as int, v.tried as int)) as int,
        ),
    decreases steps,
{
    let c = v.cursor as int;
    let t = v.tried as int;
    let outcome = answer(c, t);
    let next = after_probe(v, outcome, now);
    let probes = v.probes.push(ProbeRecord { url: probe_url(v), outcome });
    lemma_probe_makes_progress(v, outcome, now);
    lemma_probe_keeps_inv(v, outcome, now);
    assert(steps > 0);
    let rest = (steps - 1) as nat;
    assert(driven(v, answer, now, steps) == driven(next, answer, now, rest));
    if next.phase != Phase::Validating {
        assert(driven(next, answer, now, rest) == next);
    }
    if accepts(outcome) {
        let before = FeedTaskView {
            accepted: v.accepted.push(article_of(v.items[c], v.source, probe_url(v), now)),
            origins: v.origins.push(v.cursor),
            cursor: v.cursor + 1,
            tried: 0,
            probes,
            ..v
        };
        assert(next == settled(before));
        lemma_settled_gains(before, answer);
        assert(winnable(v.items, answer, c, t));
        lemma_gains_at_start(v.items, answer, c + 1);
        if next.phase == Phase::Validating {
            lemma_driven_count(next, answer, now, rest);
        }
    } else {
        let before = FeedTaskView { tried: v.tried + 1, probes, ..v };
        assert(next == settled(before));
        lemma_settled_gains(before, answer);
        if winnable(v.items, answer, c, t) {
            let w = choose|w: int|
                t <= w < probe_targets(v.items[c]).len() && accepts(#[trigger] answer(c, w));
            assert(t + 1 <= w);
            assert(winnable(v.items, answer, c, t + 1));
        }
        if next.phase == Phase::Validating {
            lemma_driven_count(next, answer, now, rest);
        }
    }
}

/// A feed whose hosts answer as `answer` says comes to exactly as many
/// articles as it has valid items, and to four where it has more: after no
/// more than two probes for each item the task awaits no further probe, and
/// the batch it then holds has that many rows.
pub proof fn lemma_batch_counts_the_valid_items(
    source: FeedSourceView,
    items: Seq<RawFeedItemView>,
    answer: spec_fn(int, int) -> ProbeOutcomeView,
    now: UtcInstant,
)
    ensures
        ({
            let end = driven(
                after_begin(initial(source), items),
                answer,
                now,
                (2 + 2 * items.len()) as nat,
            );
            &&& end.accepted.len() == capped(valid_from(items, answer, 0) as int)
            &&& end.phase == rest_phase(end.accepted.len())
            &&& end.phase == Phase::Inserting <==> valid_from(items, answer, 0) > 0
        }),
{
    let fresh = FeedTaskView { items, cursor: 0, tried: 0, ..initial(source) };
    let start = after_begin(initial(source), items);
    let steps = (2 + 2 * items.len()) as nat;
    assert(start == settled(fresh));
    lemma_begin_keeps_inv(initial(source), items);
    lemma_settled_inv(fresh);
    lemma_settled_gains(fresh, answer);
    lemma_gains_at_start(items, answer, 0);
    if start.phase == Phase::Validating {
        lemma_probe_makes_progress(start, answer(start.cursor as int, start.tried as int), now);
        lemma_driven_count(start, answer, now, steps);
    } else {
        assert(driven(start, answer, now, steps) == start);
    }
    lemma_driven_inv(start, answer, now, steps);
}

/// Driving a task keeps its invariant.
pub proof fn lemma_driven_inv(
    v: FeedTaskView,
    answer: spec_fn(int, int) -> ProbeOutcomeView,
    now: UtcInstant,
    steps: nat,
)
    requires
        inv(v),
    ensures
        inv(driven(v, answer, now, steps)),
    decreases steps,
{
    if steps == 0 || v.phase != Phase::Validating {
    } else {
        let next = after_probe(v, answer(v.cursor as int, v.tried as int), now);
        lemma_probe_keeps_inv(v, answer(v.cursor as int, v.tried as int), now);
        lemma_driven_inv(next, answer, now, (steps - 1) as nat);
    }
}

} // verus!
