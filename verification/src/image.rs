//! The image rules: which media URLs of an item are tried, and which answer
//! of a probe makes a URL the item's image.

use crate::bounded::{at_most, lemma_filter_empty, lemma_selection_settled};
use crate::denylist::{has_banned_host, names_banned_host};
use crate::feed::{RawFeedItem, RawFeedItemView};
use crate::text::{begins_with, same_text, starts_with_text};
use crate::urls::{parse_url, url_parts, UrlParts, UrlPartsView};
use vstd::prelude::*;

verus! {

/// No more candidates than this are checked for one item.
pub const MAX_CANDIDATES_PER_ITEM: usize = 2;

/// How long a probe may take, in milliseconds.
pub const PROBE_TIMEOUT_MS: u64 = 800;

/// What the content type of an image begins with.
pub const IMAGE_TYPE_PREFIX: &'static str = "image/";

/// How a probe of a candidate URL ended.
#[derive(Debug)]
pub enum ProbeOutcome {
    /// No answer came within the deadline.
    TimedOut,
    /// The request failed in transport.
    Failed,
    /// The host answered: whether with a success status, and the content
    /// type it named, if it named one in readable text.
    Answered { success: bool, content_type: Option<String> },
}

/// A probe outcome as plain values.
pub enum ProbeOutcomeView {
    TimedOut,
    Failed,
    Answered { success: bool, content_type: Option<Seq<char>> },
}

impl View for ProbeOutcome {
    type V = ProbeOutcomeView;

    open spec fn view(&self) -> ProbeOutcomeView {
        match self {
            ProbeOutcome::TimedOut => ProbeOutcomeView::TimedOut,
            ProbeOutcome::Failed => ProbeOutcomeView::Failed,
            ProbeOutcome::Answered { success, content_type } => ProbeOutcomeView::Answered {
                success: *success,
                content_type: content_type.deep_view(),
            },
        }
    }
}

/// The schemes under which an image is fetched.
pub open spec fn web_scheme(scheme: Seq<char>) -> bool {
    scheme == "http"@ || scheme == "https"@
}

/// The rule by which a URL may be probed, over what its parser gave: the
/// text is not empty, it parsed as an absolute URL with a web scheme, and its
/// host is no banned domain.
pub open spec fn parts_admit(url: Seq<char>, parts: Option<UrlPartsView>) -> bool {
    &&& url.len() > 0
    &&& parts matches Some(p)
    &&& web_scheme(p.scheme)
    &&& !names_banned_host(parts)
}

/// A URL may be probed when it parses as an absolute URL with a web scheme
/// and its host is no banned domain. (No empty text parses; the rule says so
/// itself, so that the image of an article is never empty.)
pub open spec fn admissible(url: Seq<char>) -> bool {
    parts_admit(url, url_parts(url))
}

/// An answer makes the probed URL an image when it is a success and names a
/// content type that begins with `image/`.
pub open spec fn accepts(outcome: ProbeOutcomeView) -> bool {
    &&& outcome matches ProbeOutcomeView::Answered { success, content_type }
    &&& success
    &&& content_type matches Some(named)
    &&& begins_with(named, IMAGE_TYPE_PREFIX@)
}

/// A media element is a candidate, and counts toward the limit, when it has
/// a URL: banned or not, well formed or not.
pub open spec fn counts(candidate: Option<Seq<char>>) -> bool {
    candidate is Some
}

/// `counts`, as a function value.
pub open spec fn counts_test() -> spec_fn(Option<Seq<char>>) -> bool {
    |c: Option<Seq<char>>| counts(c)
}

/// A checked candidate is probed when its URL is admissible; one with a
/// banned host or an unfit URL is rejected without a probe.
pub open spec fn probed(candidate: Option<Seq<char>>) -> bool {
    candidate matches Some(url) && admissible(url)
}

/// `probed`, as a function value.
pub open spec fn probed_test() -> spec_fn(Option<Seq<char>>) -> bool {
    |c: Option<Seq<char>>| probed(c)
}

/// The candidates of an item that are checked: in document order, the first
/// two media elements that have a URL. What follows them is never looked at.
pub open spec fn checked_candidates(item: RawFeedItemView) -> Seq<Option<Seq<char>>> {
    match item.media {
        Some(media) => at_most(media.filter(counts_test()), MAX_CANDIDATES_PER_ITEM as int),
        None => Seq::empty(),
    }
}

/// The URLs of an item that are probed, in the order in which they are
/// tried: of the checked candidates those that are admissible.
pub open spec fn probe_targets(item: RawFeedItemView) -> Seq<Seq<char>> {
    let kept = checked_candidates(item).filter(probed_test());
    Seq::new(kept.len(), |i: int| kept[i]->0)
}

/// Whether a URL may be probed, given what its parser made of it.
pub fn parts_admissible(url: &str, parts: &Option<UrlParts>) -> (b: bool)
    ensures
        b == parts_admit(url@, parts.deep_view()),
{
    if url.is_empty() {
        return false;
    }
    match parts {
        Some(p) => {
            let web = same_text(p.scheme.as_str(), "http") || same_text(p.scheme.as_str(), "https");
            web && !has_banned_host(parts)
        },
        None => false,
    }
}

/// Whether a URL may be probed.
pub fn may_probe(url: &str) -> (b: bool)
    ensures
        b == admissible(url@),
{
    parts_admissible(url, &parse_url(url))
}

/// Whether the answer of a probe makes the probed URL an image.
pub fn probe_accepts(outcome: &ProbeOutcome) -> (b: bool)
    ensures
        b == accepts(outcome@),
{
    match outcome {
        ProbeOutcome::Answered { success, content_type } => {
            match content_type {
                Some(named) => *success && starts_with_text(named.as_str(), IMAGE_TYPE_PREFIX),
                None => false,
            }
        },
        _ => false,
    }
}

/// Whether a candidate URL is the image of its item, given how its probe
/// ended: the URL must be admissible and the answer that of an image.
pub fn validate_image(url: &str, outcome: &ProbeOutcome) -> (b: bool)
    ensures
        b == (admissible(url@) && accepts(outcome@)),
{
    may_probe(url) && probe_accepts(outcome)
}

/// The URLs of an item that are to be probed, in order.
pub fn probe_plan(item: &RawFeedItem) -> (plan: Vec<String>)
    ensures
        plan.deep_view() == probe_targets(item@),
        plan.len() == probe_targets(item@).len(),
        plan.len() <= MAX_CANDIDATES_PER_ITEM,
{
    let mut plan: Vec<String> = Vec::new();
    let media = match &item.media {
        Some(media) => media,
        None => {
            proof {
                lemma_filter_empty(probed_test());
                assert(plan.deep_view() =~= probe_targets(item@));
            }
            return plan;
        },
    };
    let ghost all = media.deep_view();
    let ghost mut seen: Seq<Option<Seq<char>>> = Seq::empty();
    let ghost mut checked: Seq<Option<Seq<char>>> = Seq::empty();
    let mut counted: usize = 0;
    let mut i: usize = 0;
    proof {
        lemma_filter_empty(counts_test());
        lemma_filter_empty(probed_test());
    }
    while i < media.len() && counted < MAX_CANDIDATES_PER_ITEM
        invariant
            i <= media.len(),
            all == media.deep_view(),
            seen == all.take(i as int),
            checked == seen.filter(counts_test()),
            counted == checked.len(),
            counted <= MAX_CANDIDATES_PER_ITEM,
            plan.len() == checked.filter(probed_test()).len(),
            plan.len() <= counted,
            forall|k: int|
                0 <= k < plan.len() ==> Some((#[trigger] plan[k])@) == checked.filter(
                    probed_test(),
                )[k],
        decreases media.len() - i,
    {
        let ghost c = all[i as int];
        proof {
            assert(c == media[i as int].deep_view());
            assert(all.take(i + 1) =~= seen.push(c));
            seen.lemma_filter_push(c, counts_test());
            checked.lemma_filter_push(c, probed_test());
        }
        match &media[i] {
            Some(url) => {
                counted += 1;
                if may_probe(url.as_str()) {
                    plan.push(url.clone());
                }
                proof {
                    checked = checked.push(c);
                }
            },
            None => {},
        }
        proof {
            seen = seen.push(c);
        }
        i += 1;
    }
    proof {
        if i == media.len() {
            assert(seen =~= all);
        } else {
            assert(all =~= seen + all.skip(i as int));
            lemma_selection_settled(
                seen,
                all.skip(i as int),
                counts_test(),
                MAX_CANDIDATES_PER_ITEM as int,
            );
        }
        assert(checked_candidates(item@) == checked);
        assert(plan.deep_view() =~= probe_targets(item@));
    }
    plan
}

/// No more than two candidates of an item are checked, and every URL that
/// is probed is one of them: what stands behind the first two candidates is
/// neither probed nor accepted.
pub proof fn lemma_targets_are_checked(item: RawFeedItemView, j: int)
    requires
        0 <= j < probe_targets(item).len(),
    ensures
        checked_candidates(item).len() <= MAX_CANDIDATES_PER_ITEM,
        checked_candidates(item).contains(Some(probe_targets(item)[j])),
        admissible(probe_targets(item)[j]),
{
    let checked = checked_candidates(item);
    let kept = checked.filter(probed_test());
    checked.lemma_filter_pred(probed_test(), j);
    assert(probed_test()(kept[j]));
    assert(kept.contains(kept[j]));
    checked.lemma_filter_contains_rev(probed_test(), kept[j]);
    assert(kept[j] == Some(probe_targets(item)[j]));
    match item.media {
        Some(media) => {
            media.filter(counts_test()).lemma_filter_len(counts_test());
        },
        None => {},
    }
}

} // verus!
