//! The work on one feed as a state machine. The driver performs what
//! `pending` asks for (a fetch, a probe, an insert) and reports how it
//! ended; every decision is taken here.

use crate::article::{article_of, normalize_at, now_utc, ArticleCandidate, ArticleView};
use crate::catalog::{FeedSource, FeedSourceView};
use crate::denylist::{is_banned, names_banned_host};
use crate::feed::{
    eligible, feed_items, is_eligible, parse_feed, published_at, RawFeedItem, RawFeedItemView,
    UtcInstant,
};
use crate::image::{
    accepts, admissible, checked_candidates, probe_accepts, probe_plan, probe_targets, probed_test,
    ProbeOutcome, ProbeOutcomeView, MAX_CANDIDATES_PER_ITEM, PROBE_TIMEOUT_MS,
};
use crate::urls::url_parts;
use vstd::prelude::*;

verus! {

/// No feed contributes more articles than this to one run.
pub const MAX_ARTICLES_PER_FEED: usize = 4;

/// How long the fetch of a feed may take, in milliseconds.
pub const FETCH_TIMEOUT_MS: u64 = 2000;

/// Where the work on a feed stands.
#[derive(Debug, Clone, Copy, PartialEq, Eq, Structural)]
pub enum Phase {
    /// The feed body is awaited.
    Fetching,
    /// The probe of a candidate image is awaited.
    Validating,
    /// The insert of the accepted articles is awaited.
    Inserting,
    /// Nothing more happens for this feed in this run.
    Done,
}

/// Why the work on a feed ended without its articles being stored. None of
/// these fails the run.
#[derive(Debug, Clone, Copy, PartialEq, Eq, Structural)]
pub enum TaskFailure {
    FetchTimedOut,
    FetchFailed,
    FeedMalformed,
    StoreFailed,
}

/// How the fetch of a feed ended.
#[derive(Debug)]
pub enum FetchOutcome {
    TimedOut,
    Failed,
    Body(Vec<u8>),
}

/// A fetch outcome as plain values.
pub enum FetchOutcomeView {
    TimedOut,
    Failed,
    Body(Seq<u8>),
}

impl View for FetchOutcome {
    type V = FetchOutcomeView;

    open spec fn view(&self) -> FetchOutcomeView {
        match self {
            FetchOutcome::TimedOut => FetchOutcomeView::TimedOut,
            FetchOutcome::Failed => FetchOutcomeView::Failed,
            FetchOutcome::Body(bytes) => FetchOutcomeView::Body(bytes@),
        }
    }
}

/// What the driver is to do next.
#[derive(Debug)]
pub enum Action {
    /// Get the feed body, within the deadline.
    Fetch { url: String, timeout_ms: u64 },
    /// Ask the host of a candidate image for its headers, within the deadline.
    Probe { url: String, timeout_ms: u64 },
    /// Insert the rows in one batch; a row whose `original_url` is already
    /// stored is skipped.
    Insert { rows: Vec<ArticleCandidate> },
    /// Nothing: the work on this feed is over.
    Finish { failure: Option<TaskFailure> },
}

/// An action as plain values.
pub enum ActionView {
    Fetch { url: Seq<char>, timeout_ms: u64 },
    Probe { url: Seq<char>, timeout_ms: u64 },
    Insert { rows: Seq<ArticleView> },
    Finish { failure: Option<TaskFailure> },
}

impl View for Action {
    type V = ActionView;

    open spec fn view(&self) -> ActionView {
        match self {
            Action::Fetch { url, timeout_ms } => ActionView::Fetch {
                url: url@,
                timeout_ms: *timeout_ms,
            },
            Action::Probe { url, timeout_ms } => ActionView::Probe {
                url: url@,
                timeout_ms: *timeout_ms,
            },
            Action::Insert { rows } => ActionView::Insert { rows: rows.deep_view() },
            Action::Finish { failure } => ActionView::Finish { failure: *failure },
        }
    }
}

/// One probe that was made: the URL and how it ended.
pub struct ProbeRecord {
    pub url: Seq<char>,
    pub outcome: ProbeOutcomeView,
}

/// The work on one feed.
pub struct FeedTask {
    source: FeedSource,
    phase: Phase,
    failure: Option<TaskFailure>,
    items: Vec<RawFeedItem>,
    cursor: usize,
    plan: Vec<String>,
    tried: usize,
    accepted: Vec<ArticleCandidate>,
    origins: Ghost<Seq<nat>>,
    probes: Ghost<Seq<ProbeRecord>>,
}

/// The state of a task as plain values: the item under validation is
/// `items[cursor]`, the URL being probed the `tried`-th of its probe
/// targets; `origins` holds, for each accepted article, the place in the feed
/// of the item that it was made from; `probes` is every probe made so far,
/// in order.
pub struct FeedTaskView {
    pub source: FeedSourceView,
    pub phase: Phase,
    pub failure: Option<TaskFailure>,
    pub items: Seq<RawFeedItemView>,
    pub cursor: nat,
    pub tried: nat,
    pub accepted: Seq<ArticleView>,
    pub origins: Seq<nat>,
    pub probes: Seq<ProbeRecord>,
}

/// Some probe of `url` was answered as an image.
pub open spec fn vouched(probes: Seq<ProbeRecord>, url: Seq<char>) -> bool {
    exists|j: int|
        0 <= j < probes.len() && (#[trigger] probes[j]).url == url && accepts(probes[j].outcome)
}

/// The `k`-th accepted article is what its item became: the item stands
/// before the cursor and is eligible, the image is one of its probe targets,
/// and the article is the item normalised with that image.
pub open spec fn stems_from_item(v: FeedTaskView, k: int) -> bool {
    let i = v.origins[k] as int;
    let article = v.accepted[k];
    &&& i < v.cursor
    &&& i < v.items.len()
    &&& eligible(v.items[i])
    &&& probe_targets(v.items[i]).contains(article.image_url)
    &&& article == article_of(v.items[i], v.source, article.image_url, article.created_at)
}

/// What holds of the articles and probes of a task at all times: at most
/// four articles, each made from an item of the feed, in feed order and no
/// two from one item, each with an image that a probe vouched for; and no
/// probe of a URL that is not admissible.
pub open spec fn records_sound(v: FeedTaskView) -> bool {
    &&& v.accepted.len() <= MAX_ARTICLES_PER_FEED
    &&& v.origins.len() == v.accepted.len()
    &&& forall|k: int| 0 <= k < v.accepted.len() ==> #[trigger] stems_from_item(v, k)
    &&& forall|k: int, m: int| 0 <= k < m < v.origins.len() ==> v.origins[k] < v.origins[m]
    &&& forall|k: int|
        0 <= k < v.accepted.len() ==> (#[trigger] v.accepted[k]).image_url.len() > 0 && vouched(
            v.probes,
            v.accepted[k].image_url,
        )
    &&& forall|j: int| 0 <= j < v.probes.len() ==> admissible((#[trigger] v.probes[j]).url)
}

/// The invariant of a task.
pub open spec fn inv(v: FeedTaskView) -> bool {
    &&& records_sound(v)
    &&& v.phase == Phase::Fetching ==> v.accepted.len() == 0 && v.probes.len() == 0
    &&& v.phase == Phase::Validating ==> {
        &&& v.cursor < v.items.len()
        &&& eligible(v.items[v.cursor as int])
        &&& v.tried < probe_targets(v.items[v.cursor as int]).len()
        &&& v.accepted.len() < MAX_ARTICLES_PER_FEED
    }
    &&& v.phase == Phase::Inserting ==> v.accepted.len() > 0
}

/// A task that has not started.
pub open spec fn initial(source: FeedSourceView) -> FeedTaskView {
    FeedTaskView {
        source,
        phase: Phase::Fetching,
        failure: None,
        items: Seq::empty(),
        cursor: 0,
        tried: 0,
        accepted: Seq::empty(),
        origins: Seq::empty(),
        probes: Seq::empty(),
    }
}

/// The task ended: nothing more is awaited.
pub open spec fn ended(v: FeedTaskView, failure: Option<TaskFailure>) -> FeedTaskView {
    FeedTaskView { phase: Phase::Done, failure, ..v }
}

/// From a position that may not be a probe target to the next decision: the
/// first probe target at or after it, in feed order, while fewer than four
/// articles are accepted; else the insert of what was accepted, or the end
/// where nothing was.
pub open spec fn settled(v: FeedTaskView) -> FeedTaskView
    decreases v.items.len() - v.cursor,
{
    if v.accepted.len() >= MAX_ARTICLES_PER_FEED || v.cursor >= v.items.len() {
        if v.accepted.len() > 0 {
            FeedTaskView { phase: Phase::Inserting, ..v }
        } else {
            FeedTaskView { phase: Phase::Done, ..v }
        }
    } else if eligible(v.items[v.cursor as int]) && v.tried < probe_targets(
        v.items[v.cursor as int],
    ).len() {
        FeedTaskView { phase: Phase::Validating, ..v }
    } else {
        settled(FeedTaskView { cursor: v.cursor + 1, tried: 0, ..v })
    }
}

/// The task after the items of its feed were parsed.
pub open spec fn after_begin(v: FeedTaskView, items: Seq<RawFeedItemView>) -> FeedTaskView {
    if v.phase == Phase::Fetching {
        settled(FeedTaskView { items, cursor: 0, tried: 0, ..v })
    } else {
        v
    }
}

/// The task after its fetch ended.
pub open spec fn after_fetch(v: FeedTaskView, outcome: FetchOutcomeView) -> FeedTaskView {
    if v.phase == Phase::Fetching {
        match outcome {
            FetchOutcomeView::TimedOut => ended(v, Some(TaskFailure::FetchTimedOut)),
            FetchOutcomeView::Failed => ended(v, Some(TaskFailure::FetchFailed)),
            FetchOutcomeView::Body(bytes) => match feed_items(bytes) {
                Some(items) => after_begin(v, items),
                None => ended(v, Some(TaskFailure::FeedMalformed)),
            },
        }
    } else {
        v
    }
}

/// The URL that a validating task has under probe.
pub open spec fn probe_url(v: FeedTaskView) -> Seq<char> {
    probe_targets(v.items[v.cursor as int])[v.tried as int]
}

/// The task after a probe ended at instant `now`: an accepting answer makes
/// the item an article and moves on to the next item; any other outcome
/// moves on to the item's next target.
pub open spec fn after_probe(
    v: FeedTaskView,
    outcome: ProbeOutcomeView,
    now: UtcInstant,
) -> FeedTaskView {
    if v.phase == Phase::Validating {
        let probes = v.probes.push(ProbeRecord { url: probe_url(v), outcome });
        if accepts(outcome) {
            let article = article_of(v.items[v.cursor as int], v.source, probe_url(v), now);
            settled(
                FeedTaskView {
                    accepted: v.accepted.push(article),
                    origins: v.origins.push(v.cursor),
                    cursor: v.cursor + 1,
                    tried: 0,
                    probes,
                    ..v
                },
            )
        } else {
            settled(FeedTaskView { tried: v.tried + 1, probes, ..v })
        }
    } else {
        v
    }
}

/// The task after its insert ended.
pub open spec fn after_insert(v: FeedTaskView, stored: bool) -> FeedTaskView {
    if v.phase == Phase::Inserting {
        ended(
            v,
            if stored {
                None
            } else {
                Some(TaskFailure::StoreFailed)
            },
        )
    } else {
        v
    }
}

/// What a task awaits.
pub open spec fn pending_action(v: FeedTaskView) -> ActionView {
    match v.phase {
        Phase::Fetching => ActionView::Fetch {
            url: v.source.feed_url,
            timeout_ms: FETCH_TIMEOUT_MS,
        },
        Phase::Validating => ActionView::Probe { url: probe_url(v), timeout_ms: PROBE_TIMEOUT_MS },
        Phase::Inserting => ActionView::Insert { rows: v.accepted },
        Phase::Done => ActionView::Finish { failure: v.failure },
    }
}

/// Every probe target of an item is admissible.
pub proof fn lemma_targets_admissible(item: RawFeedItemView, j: int)
    requires
        0 <= j < probe_targets(item).len(),
    ensures
        admissible(probe_targets(item)[j]),
{
    let kept = checked_candidates(item).filter(probed_test());
    checked_candidates(item).lemma_filter_pred(probed_test(), j);
    assert(probed_test()(kept[j]));
}

/// What holds of articles and probes depends only on them, on the feed and
/// on how far the cursor has come.
pub proof fn lemma_records_carry(v: FeedTaskView, w: FeedTaskView)
    requires
        records_sound(v),
        w.accepted == v.accepted,
        w.origins == v.origins,
        w.probes == v.probes,
        w.items == v.items,
        w.source == v.source,
        w.cursor >= v.cursor,
    ensures
        records_sound(w),
{
    assert forall|k: int| 0 <= k < w.accepted.len() implies #[trigger] stems_from_item(w, k) by {
        assert(stems_from_item(v, k));
    }
}

/// Settling keeps what holds of articles and probes, and ends in a state
/// that meets the invariant.
pub proof fn lemma_settled_inv(v: FeedTaskView)
    requires
        records_sound(v),
    ensures
        inv(settled(v)),
        settled(v).phase != Phase::Fetching,
        settled(v).accepted == v.accepted,
        settled(v).origins == v.origins,
        settled(v).probes == v.probes,
        settled(v).items == v.items,
        settled(v).source == v.source,
        settled(v).failure == v.failure,
        settled(v).cursor >= v.cursor,
    decreases v.items.len() - v.cursor,
{
    if v.accepted.len() >= MAX_ARTICLES_PER_FEED || v.cursor >= v.items.len() {
        lemma_records_carry(v, settled(v));
    } else if eligible(v.items[v.cursor as int]) && v.tried < probe_targets(
        v.items[v.cursor as int],
    ).len() {
        lemma_records_carry(v, settled(v));
    } else {
        let next = FeedTaskView { cursor: v.cursor + 1, tried: 0, ..v };
        lemma_records_carry(v, next);
        lemma_settled_inv(next);
    }
}

/// A probe keeps what holds of articles and probes.
pub proof fn lemma_probe_keeps_records(v: FeedTaskView, outcome: ProbeOutcomeView, now: UtcInstant)
    requires
        inv(v),
        v.phase == Phase::Validating,
    ensures
        accepts(outcome) ==> records_sound(
            FeedTaskView {
                accepted: v.accepted.push(
                    article_of(v.items[v.cursor as int], v.source, probe_url(v), now),
                ),
                origins: v.origins.push(v.cursor),
                cursor: v.cursor + 1,
                tried: 0,
                probes: v.probes.push(ProbeRecord { url: probe_url(v), outcome }),
                ..v
            },
        ),
        !accepts(outcome) ==> records_sound(
            FeedTaskView {
                tried: v.tried + 1,
                probes: v.probes.push(ProbeRecord { url: probe_url(v), outcome }),
                ..v
            },
        ),
{
    let record = ProbeRecord { url: probe_url(v), outcome };
    let probes = v.probes.push(record);
    lemma_targets_admissible(v.items[v.cursor as int], v.tried as int);
    assert forall|k: int| 0 <= k < v.accepted.len() implies vouched(
        probes,
        (#[trigger] v.accepted[k]).image_url,
    ) by {
        let j = choose|j: int|
            0 <= j < v.probes.len() && (#[trigger] v.probes[j]).url == v.accepted[k].image_url
                && accepts(v.probes[j].outcome);
        assert(probes[j] == v.probes[j]);
    }
    assert forall|j: int| 0 <= j < probes.len() implies admissible((#[trigger] probes[j]).url) by {
        if j < v.probes.len() {
            assert(probes[j] == v.probes[j]);
        }
    }
    if accepts(outcome) {
        let article = article_of(v.items[v.cursor as int], v.source, probe_url(v), now);
        let accepted = v.accepted.push(article);
        let next = FeedTaskView {
            accepted,
            origins: v.origins.push(v.cursor),
            cursor: v.cursor + 1,
            tried: 0,
            probes,
            ..v
        };
        assert(probes[v.probes.len() as int] == record);
        assert(vouched(probes, article.image_url));
        assert forall|k: int| 0 <= k < accepted.len() implies (#[trigger] accepted[
            k
        ]).image_url.len() > 0 && vouched(probes, accepted[k].image_url) by {
            if k < v.accepted.len() {
                assert(accepted[k] == v.accepted[k]);
            }
        }
        assert forall|k: int| 0 <= k < next.accepted.len() implies #[trigger] stems_from_item(
            next,
            k,
        ) by {
            if k < v.accepted.len() {
                assert(stems_from_item(v, k));
            } else {
                assert(probe_targets(v.items[v.cursor as int])[v.tried as int] == probe_url(v));
            }
        }
        assert forall|k: int, m: int| 0 <= k < m < next.origins.len() implies next.origins[k]
            < next.origins[m] by {
            assert(stems_from_item(v, k));
        }
    } else {
        let next = FeedTaskView { tried: v.tried + 1, probes, ..v };
        assert forall|k: int| 0 <= k < next.accepted.len() implies #[trigger] stems_from_item(
            next,
            k,
        ) by {
            assert(stems_from_item(v, k));
        }
    }
}

/// A copy of the rows, in order.
fn clone_rows(rows: &Vec<ArticleCandidate>) -> (copy: Vec<ArticleCandidate>)
    ensures
        copy.deep_view() == rows.deep_view(),
{
    let mut copy: Vec<ArticleCandidate> = Vec::new();
    let mut i: usize = 0;
    while i < rows.len()
        invariant
            i <= rows.len(),
            copy.len() == i,
            forall|k: int| 0 <= k < i ==> (#[trigger] copy[k])@ == rows[k]@,
        decreases rows.len() - i,
    {
        copy.push(rows[i].clone());
        i += 1;
    }
    assert(copy.deep_view() =~= rows.deep_view());
    copy
}

impl View for FeedTask {
    type V = FeedTaskView;

    closed spec fn view(&self) -> FeedTaskView {
        FeedTaskView {
            source: self.source@,
            phase: self.phase,
            failure: self.failure,
            items: self.items.deep_view(),
            cursor: self.cursor as nat,
            tried: self.tried as nat,
            accepted: self.accepted.deep_view(),
            origins: self.origins@,
            probes: self.probes@,
        }
    }
}

impl FeedTask {
    /// The task is well formed: its state meets the invariant, and while it
    /// validates it holds the probe targets of the item under validation.
    pub closed spec fn wf(&self) -> bool {
        &&& inv(self@)
        &&& self.cursor <= self.items.len()
        &&& self.phase == Phase::Validating ==> self.plan.deep_view() == probe_targets(
            self.items[self.cursor as int]@,
        )
    }

    /// A well-formed task meets the invariant.
    pub proof fn lemma_wf_inv(&self)
        requires
            self.wf(),
        ensures
            inv(self@),
    {
    }

    /// A task for one feed source, before anything was fetched.
    pub fn new(source: FeedSource) -> (task: FeedTask)
        ensures
            task.wf(),
            task@ == initial(source@),
    {
        let task = FeedTask {
            source,
            phase: Phase::Fetching,
            failure: None,
            items: Vec::new(),
            cursor: 0,
            plan: Vec::new(),
            tried: 0,
            accepted: Vec::new(),
            origins: Ghost(Seq::empty()),
            probes: Ghost(Seq::empty()),
        };
        assert(task@.items =~= Seq::empty());
        assert(task@.accepted =~= Seq::empty());
        task
    }

    /// Where the work stands.
    pub fn phase(&self) -> (phase: Phase)
        ensures
            phase == self@.phase,
    {
        self.phase
    }

    /// Why the work ended without a store, if it did.
    pub fn failure(&self) -> (failure: Option<TaskFailure>)
        ensures
            failure == self@.failure,
    {
        self.failure
    }

    /// The feed source that the work is on.
    pub fn source(&self) -> (source: &FeedSource)
        ensures
            source@ == self@.source,
    {
        &self.source
    }

    /// The articles accepted so far, in feed order.
    pub fn accepted(&self) -> (rows: &Vec<ArticleCandidate>)
        ensures
            rows.deep_view() == self@.accepted,
    {
        &self.accepted
    }

    /// What the driver is to do next.
    pub fn pending(&self) -> (action: Action)
        requires
            self.wf(),
        ensures
            action@ == pending_action(self@),
    {
        match self.phase {
            Phase::Fetching => Action::Fetch {
                url: self.source.feed_url.clone(),
                timeout_ms: FETCH_TIMEOUT_MS,
            },
            Phase::Validating => {
                assert(self.plan.deep_view()[self.tried as int] == self.plan[self.tried as int]@);
                Action::Probe { url: self.plan[self.tried].clone(), timeout_ms: PROBE_TIMEOUT_MS }
            },
            Phase::Inserting => Action::Insert { rows: clone_rows(&self.accepted) },
            Phase::Done => Action::Finish { failure: self.failure },
        }
    }

    /// Moves from the start of the item at the cursor to the next decision.
    fn advance(&mut self)
        requires
            records_sound(old(self)@),
            old(self).tried == 0,
            old(self).cursor <= old(self).items.len(),
        ensures
            final(self).wf(),
            final(self)@ == settled(old(self)@),
    {
        proof {
            lemma_settled_inv(self@);
        }
        loop
            invariant
                self.tried == 0,
                self.cursor <= self.items.len(),
                settled(self@) == settled(old(self)@),
                inv(settled(self@)),
            decreases self.items.len() - self.cursor,
        {
            if self.accepted.len() >= MAX_ARTICLES_PER_FEED || self.cursor >= self.items.len() {
                if self.accepted.len() > 0 {
                    self.phase = Phase::Inserting;
                } else {
                    self.phase = Phase::Done;
                }
                return ;
            }
            if is_eligible(&self.items[self.cursor]) {
                let plan = probe_plan(&self.items[self.cursor]);
                if plan.len() > 0 {
                    self.plan = plan;
                    self.phase = Phase::Validating;
                    return ;
                }
            }
            self.cursor += 1;
        }
    }

    /// Takes the items of the fetched feed and moves to the first decision
    /// on them. Outside the fetching phase nothing changes.
    pub fn begin(&mut self, items: Vec<RawFeedItem>)
        requires
            old(self).wf(),
        ensures
            final(self).wf(),
            final(self)@ == after_begin(old(self)@, items.deep_view()),
    {
        match self.phase {
            Phase::Fetching => {
                self.items = items;
                self.cursor = 0;
                self.tried = 0;
                self.advance();
            },
            _ => {},
        }
    }

    /// Takes the outcome of the fetch. A body that parses as a feed starts
    /// the selection; a timeout, a transport error or a body that is no feed
    /// ends the work on this feed, with no insert. Outside the fetching
    /// phase nothing changes.
    pub fn fetched(&mut self, outcome: FetchOutcome)
        requires
            old(self).wf(),
        ensures
            final(self).wf(),
            final(self)@ == after_fetch(old(self)@, outcome@),
    {
        match self.phase {
            Phase::Fetching => {},
            _ => {
                return ;
            },
        }
        match outcome {
            FetchOutcome::TimedOut => {
                self.phase = Phase::Done;
                self.failure = Some(TaskFailure::FetchTimedOut);
            },
            FetchOutcome::Failed => {
                self.phase = Phase::Done;
                self.failure = Some(TaskFailure::FetchFailed);
            },
            FetchOutcome::Body(bytes) => {
                match parse_feed(bytes.as_slice()) {
                    Some(items) => {
                        self.begin(items);
                    },
                    None => {
                        self.phase = Phase::Done;
                        self.failure = Some(TaskFailure::FeedMalformed);
                    },
                }
            },
        }
    }

    /// Takes the outcome of the probe that was pending, ended at instant
    /// `now`. Outside the validating phase nothing changes.
    pub fn probed_at(&mut self, outcome: &ProbeOutcome, now: UtcInstant)
        requires
            old(self).wf(),
        ensures
            final(self).wf(),
            final(self)@ == after_probe(old(self)@, outcome@, now),
    {
        match self.phase {
            Phase::Validating => {},
            _ => {
                return ;
            },
        }
        let ghost before = self@;
        let url = self.plan[self.tried].clone();
        proof {
            assert(self.plan.deep_view()[self.tried as int] == self.plan[self.tried as int]@);
            assert(url@ == probe_url(before));
            lemma_targets_admissible(before.items[before.cursor as int], before.tried as int);
            lemma_probe_keeps_records(before, outcome@, now);
            assert(self.items.deep_view()[self.cursor as int] == self.items[self.cursor as int]@);
        }
        self.probes = Ghost(self.probes@.push(ProbeRecord { url: url@, outcome: outcome@ }));
        if probe_accepts(outcome) {
            let made = normalize_at(&self.items[self.cursor], &self.source, url.as_str(), now);
            assert(made is Some);
            if let Some(article) = made {
                self.accepted.push(article);
                self.origins = Ghost(self.origins@.push(self.cursor as nat));
            }
            self.cursor += 1;
            self.tried = 0;
            proof {
                assert(self@.accepted =~= before.accepted.push(
                    article_of(before.items[before.cursor as int], before.source, url@, now),
                ));
            }
            self.advance();
        } else {
            self.tried += 1;
            if self.tried >= self.plan.len() {
                let ghost stuck = self@;
                self.cursor += 1;
                self.tried = 0;
                proof {
                    assert(settled(stuck) == settled(self@));
                    lemma_records_carry(stuck, self@);
                }
                self.advance();
            } else {
                proof {
                    assert(self@ == settled(self@));
                }
            }
        }
    }

    /// Takes the outcome of the probe that was pending, with the present
    /// instant as the time at which it ended. Whatever the clock says, the
    /// task moves as `probed_at` moves it for that instant.
    pub fn probed(&mut self, outcome: &ProbeOutcome)
        requires
            old(self).wf(),
        ensures
            final(self).wf(),
            exists|now: UtcInstant|
                final(self)@ == #[trigger] after_probe(old(self)@, outcome@, now),
    {
        let now = now_utc();
        self.probed_at(outcome, now);
    }

    /// Takes the outcome of the insert that was pending and ends the work
    /// on this feed. Outside the inserting phase nothing changes.
    pub fn inserted(&mut self, stored: bool)
        requires
            old(self).wf(),
        ensures
            final(self).wf(),
            final(self)@ == after_insert(old(self)@, stored),
    {
        match self.phase {
            Phase::Inserting => {
                self.phase = Phase::Done;
                self.failure = if stored {
                    None
                } else {
                    Some(TaskFailure::StoreFailed)
                };
                proof {
                    lemma_records_carry(old(self)@, self@);
                }
            },
            _ => {},
        }
    }
}

/// A task that has not started meets the invariant.
pub proof fn lemma_initial_inv(source: FeedSourceView)
    ensures
        inv(initial(source)),
{
}

/// Taking the items of a feed keeps the invariant.
pub proof fn lemma_begin_keeps_inv(v: FeedTaskView, items: Seq<RawFeedItemView>)
    requires
        inv(v),
    ensures
        inv(after_begin(v, items)),
{
    if v.phase == Phase::Fetching {
        lemma_settled_inv(FeedTaskView { items, cursor: 0, tried: 0, ..v });
    }
}

/// The end of a fetch keeps the invariant.
pub proof fn lemma_fetch_keeps_inv(v: FeedTaskView, outcome: FetchOutcomeView)
    requires
        inv(v),
    ensures
        inv(after_fetch(v, outcome)),
{
    if v.phase == Phase::Fetching {
        match outcome {
            FetchOutcomeView::Body(bytes) => {
                if let Some(items) = feed_items(bytes) {
                    lemma_begin_keeps_inv(v, items);
                }
            },
            _ => {},
        }
    }
}

/// The end of a probe keeps the invariant.
pub proof fn lemma_probe_keeps_inv(v: FeedTaskView, outcome: ProbeOutcomeView, now: UtcInstant)
    requires
        inv(v),
    ensures
        inv(after_probe(v, outcome, now)),
{
    if v.phase == Phase::Validating {
        lemma_probe_keeps_records(v, outcome, now);
        let probes = v.probes.push(ProbeRecord { url: probe_url(v), outcome });
        if accepts(outcome) {
            lemma_settled_inv(
                FeedTaskView {
                    accepted: v.accepted.push(
                        article_of(v.items[v.cursor as int], v.source, probe_url(v), now),
                    ),
                    origins: v.origins.push(v.cursor),
                    cursor: v.cursor + 1,
                    tried: 0,
                    probes,
                    ..v
                },
            );
        } else {
            lemma_settled_inv(FeedTaskView { tried: v.tried + 1, probes, ..v });
        }
    }
}

/// The end of an insert keeps the invariant.
pub proof fn lemma_insert_keeps_inv(v: FeedTaskView, stored: bool)
    requires
        inv(v),
    ensures
        inv(after_insert(v, stored)),
{
    lemma_records_carry(v, after_insert(v, stored));
}

/// In every state of a task there are at most four accepted articles, and
/// each has an image URL that is not empty and that some probe answered with
/// a success and an image content type.
pub proof fn lemma_articles_bounded_and_vouched(v: FeedTaskView)
    requires
        inv(v),
    ensures
        v.accepted.len() <= MAX_ARTICLES_PER_FEED,
        forall|k: int|
            0 <= k < v.accepted.len() ==> (#[trigger] v.accepted[k]).image_url.len() > 0 && vouched(
                v.probes,
                v.accepted[k].image_url,
            ),
        pending_action(v) matches ActionView::Insert { rows } ==> 0 < rows.len()
            <= MAX_ARTICLES_PER_FEED,
{
}

/// The `k`-th accepted article follows its item: it stands under the
/// category and the publisher of the feed source, with the link of the item
/// as its key, the publish date of the item as its UTC instant, and one of
/// the probe targets of the item as its image.
pub open spec fn follows_item(v: FeedTaskView, k: int) -> bool {
    let item = v.items[v.origins[k] as int];
    let article = v.accepted[k];
    &&& v.origins[k] < v.items.len()
    &&& eligible(item)
    &&& article.tag == v.source.category
    &&& article.publisher == v.source.publisher_name
    &&& article.original_url == item.link->0
    &&& article.published_at == published_at(item)->0
    &&& probe_targets(item).contains(article.image_url)
}

/// In every state of a task, the accepted articles follow the feed: each was
/// made from an eligible item of the feed and follows it, and a later
/// article was made from a later item.
pub proof fn lemma_articles_follow_the_feed(v: FeedTaskView)
    requires
        inv(v),
    ensures
        v.origins.len() == v.accepted.len(),
        forall|k: int, m: int| 0 <= k < m < v.origins.len() ==> v.origins[k] < v.origins[m],
        forall|k: int| 0 <= k < v.accepted.len() ==> #[trigger] follows_item(v, k),
{
    assert forall|k: int| 0 <= k < v.accepted.len() implies #[trigger] follows_item(v, k) by {
        assert(stems_from_item(v, k));
    }
}

/// No probe target of any item has a banned host.
pub proof fn lemma_banned_is_no_target(item: RawFeedItemView, j: int)
    requires
        0 <= j < probe_targets(item).len(),
    ensures
        !is_banned(probe_targets(item)[j]),
        url_parts(probe_targets(item)[j]) is Some,
        !names_banned_host(url_parts(probe_targets(item)[j])),
{
    lemma_targets_admissible(item, j);
}

/// A candidate URL whose host is a banned domain is no probe target of any
/// item, wherever among the candidates it stands.
pub proof fn lemma_banned_candidate_is_never_probed(item: RawFeedItemView, url: Seq<char>)
    requires
        is_banned(url),
    ensures
        !probe_targets(item).contains(url),
{
    if probe_targets(item).contains(url) {
        let j = choose|j: int| 0 <= j < probe_targets(item).len() && probe_targets(item)[j] == url;
        lemma_targets_admissible(item, j);
    }
}

/// In every state of a task, no URL with a banned host was probed, is about
/// to be probed, or is the image of an accepted article.
pub proof fn lemma_banned_never_probed(v: FeedTaskView)
    requires
        inv(v),
    ensures
        forall|j: int| 0 <= j < v.probes.len() ==> !is_banned((#[trigger] v.probes[j]).url),
        pending_action(v) matches ActionView::Probe { url, .. } ==> admissible(url),
        forall|k: int|
            0 <= k < v.accepted.len() ==> !is_banned((#[trigger] v.accepted[k]).image_url),
{
    if v.phase == Phase::Validating {
        lemma_targets_admissible(v.items[v.cursor as int], v.tried as int);
    }
    assert forall|k: int| 0 <= k < v.accepted.len() implies !is_banned(
        (#[trigger] v.accepted[k]).image_url,
    ) by {
        let j = choose|j: int|
            0 <= j < v.probes.len() && (#[trigger] v.probes[j]).url == v.accepted[k].image_url
                && accepts(v.probes[j].outcome);
        assert(admissible(v.probes[j].url));
    }
}

/// No item of `items` from `from` on can be validated: each lacks a link, a
/// date that parses, or a probe target.
pub open spec fn none_valid_from(items: Seq<RawFeedItemView>, from: int) -> bool {
    forall|i: int|
        from <= i < items.len() ==> !(eligible(#[trigger] items[i]) && probe_targets(items[i]).len()
            > 0)
}

/// Settling at the start of an item, with no valid item left, keeps the
/// accepted articles and awaits no probe.
proof fn lemma_settled_without_valid(v: FeedTaskView)
    requires
        none_valid_from(v.items, v.cursor as int),
        v.tried == 0,
    ensures
        settled(v).phase != Phase::Validating,
        settled(v).accepted == v.accepted,
        settled(v).failure == v.failure,
    decreases v.items.len() - v.cursor,
{
    if v.accepted.len() >= MAX_ARTICLES_PER_FEED || v.cursor >= v.items.len() {
    } else {
        assert(!(eligible(v.items[v.cursor as int]) && probe_targets(v.items[v.cursor as int]).len()
            > 0));
        lemma_settled_without_valid(FeedTaskView { cursor: v.cursor + 1, tried: 0, ..v });
    }
}

/// A feed without a valid item ends the task at once: no probe and no
/// insert is asked for, and no failure is recorded.
pub proof fn lemma_no_valid_item_no_write(source: FeedSourceView, items: Seq<RawFeedItemView>)
    requires
        none_valid_from(items, 0),
    ensures
        after_begin(initial(source), items).phase == Phase::Done,
        after_begin(initial(source), items).accepted.len() == 0,
        after_begin(initial(source), items).probes.len() == 0,
        pending_action(after_begin(initial(source), items)) == (ActionView::Finish {
            failure: None,
        }),
{
    lemma_settled_without_valid(FeedTaskView { items, cursor: 0, tried: 0, ..initial(source) });
    lemma_settled_inv(FeedTaskView { items, cursor: 0, tried: 0, ..initial(source) });
}

/// No item has more than two probe targets.
pub proof fn lemma_targets_bounded(item: RawFeedItemView)
    ensures
        probe_targets(item).len() <= MAX_CANDIDATES_PER_ITEM,
{
    checked_candidates(item).lemma_filter_len(probed_test());
}

/// How many events a task can still take, at most, once its feed is parsed:
/// two probes for each item from the cursor on, less those already made for
/// the item at the cursor, then one insert.
pub open spec fn work_left(v: FeedTaskView) -> int {
    match v.phase {
        Phase::Done => 0,
        Phase::Inserting => 1,
        _ => 2 + 2 * (v.items.len() - v.cursor) - v.tried,
    }
}

/// Where settling ends: at the position it started from if that is a probe
/// target, else at the start of a later item, or past the selection.
proof fn lemma_settled_position(v: FeedTaskView)
    ensures
        settled(v).phase != Phase::Fetching,
        settled(v).phase == Phase::Validating ==> {
            &&& settled(v).cursor < v.items.len()
            &&& settled(v).cursor >= v.cursor
            &&& settled(v).cursor == v.cursor ==> settled(v).tried == v.tried
            &&& settled(v).cursor > v.cursor ==> settled(v).tried == 0
        },
        settled(v).items == v.items,
    decreases v.items.len() - v.cursor,
{
    if v.accepted.len() >= MAX_ARTICLES_PER_FEED || v.cursor >= v.items.len() {
    } else if eligible(v.items[v.cursor as int]) && v.tried < probe_targets(
        v.items[v.cursor as int],
    ).len() {
    } else {
        lemma_settled_position(FeedTaskView { cursor: v.cursor + 1, tried: 0, ..v });
    }
}

/// Every probe brings the end of the task nearer: a feed of `n` items takes
/// no more than `2 * n` probes and one insert.
pub proof fn lemma_probe_makes_progress(v: FeedTaskView, outcome: ProbeOutcomeView, now: UtcInstant)
    requires
        inv(v),
        v.phase == Phase::Validating,
    ensures
        0 <= work_left(after_probe(v, outcome, now)) < work_left(v),
        work_left(v) <= 2 + 2 * v.items.len(),
{
    lemma_targets_bounded(v.items[v.cursor as int]);
    let probes = v.probes.push(ProbeRecord { url: probe_url(v), outcome });
    if accepts(outcome) {
        lemma_settled_position(
            FeedTaskView {
                accepted: v.accepted.push(
                    article_of(v.items[v.cursor as int], v.source, probe_url(v), now),
                ),
                origins: v.origins.push(v.cursor),
                cursor: v.cursor + 1,
                tried: 0,
                probes,
                ..v
            },
        );
    } else {
        lemma_settled_position(FeedTaskView { tried: v.tried + 1, probes, ..v });
    }
}

/// The insert ends the task.
pub proof fn lemma_insert_ends(v: FeedTaskView, stored: bool)
    requires
        v.phase == Phase::Inserting,
    ensures
        work_left(after_insert(v, stored)) == 0,
        after_insert(v, stored).phase == Phase::Done,
{
}

} // verus!
