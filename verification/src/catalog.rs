//! The catalog loader: from one category file to its bounded list of feed
//! sources.

use crate::bounded::{at_most, lemma_selection_settled};
use crate::text::{head_before, is_head_before, lemma_head_before_exists, lemma_head_before_unique};
use vstd::prelude::*;
use vstd::seq_lib::lemma_flatten_concat;

verus! {

/// No category contributes more feeds than this.
pub const MAX_FEEDS_PER_CATEGORY: usize = 7;

/// The publisher name of an entry that carries no title.
pub const UNKNOWN_PUBLISHER: &'static str = "Unknown";

/// One syndication endpoint of a category.
#[derive(Debug)]
pub struct FeedSource {
    pub feed_url: String,
    pub category: String,
    pub publisher_name: String,
}

/// What a feed source is, as plain text.
pub struct FeedSourceView {
    pub feed_url: Seq<char>,
    pub category: Seq<char>,
    pub publisher_name: Seq<char>,
}

impl View for FeedSource {
    type V = FeedSourceView;

    open spec fn view(&self) -> FeedSourceView {
        FeedSourceView {
            feed_url: self.feed_url@,
            category: self.category@,
            publisher_name: self.publisher_name@,
        }
    }
}

impl DeepView for FeedSource {
    type V = FeedSourceView;

    open spec fn deep_view(&self) -> FeedSourceView {
        self@
    }
}

impl Clone for FeedSource {
    fn clone(&self) -> (copy: Self)
        ensures
            copy@ == self@,
    {
        FeedSource {
            feed_url: self.feed_url.clone(),
            category: self.category.clone(),
            publisher_name: self.publisher_name.clone(),
        }
    }
}

/// What the loader reads of one outline entry of a category file.
#[derive(Debug)]
pub struct OutlineEntry {
    pub title: Option<String>,
    pub xml_url: Option<String>,
}

/// An outline entry as plain text.
pub struct OutlineEntryView {
    pub title: Option<Seq<char>>,
    pub xml_url: Option<Seq<char>>,
}

impl View for OutlineEntry {
    type V = OutlineEntryView;

    open spec fn view(&self) -> OutlineEntryView {
        OutlineEntryView { title: self.title.deep_view(), xml_url: self.xml_url.deep_view() }
    }
}

impl DeepView for OutlineEntry {
    type V = OutlineEntryView;

    open spec fn deep_view(&self) -> OutlineEntryView {
        self@
    }
}

/// Why a catalog could not be loaded. Either aborts the whole run.
#[derive(Debug, Clone, Copy, PartialEq, Eq, Structural)]
pub enum CatalogError {
    /// The catalog directory or one of its files could not be read.
    Unreadable,
    /// A category file is not a well-formed outline document.
    Malformed,
}

/// The outline groups that the `opml` crate reads from the text of a
/// category file: for each top-level outline its child entries, in document
/// order; `None` where the crate rejects the document.
pub uninterp spec fn opml_outline_groups(content: Seq<char>) -> Option<
    Seq<Seq<OutlineEntryView>>,
>;

/// Calls `opml::OPML::from_str` and keeps, of each child of each top-level
/// outline, its title and its feed URL. The contract only names the result:
/// nothing is claimed about which documents the crate accepts.
#[verifier::external_body]
fn read_outline_groups(content: &str) -> (r: Option<Vec<Vec<OutlineEntry>>>)
    ensures
        r.deep_view() == opml_outline_groups(content@),
{
    let document = opml::OPML::from_str(content).ok()?;
    Some(
        document.body.outlines.into_iter().map(
            |group|
                group.outlines.into_iter().map(
                    |o| OutlineEntry { title: o.title, xml_url: o.xml_url },
                ).collect(),
        ).collect(),
    )
}

/// What `str::to_uppercase` returns for a text.
pub uninterp spec fn uppercase_of(s: Seq<char>) -> Seq<char>;

/// Calls `str::to_uppercase`. The contract only names the result.
#[verifier::external_body]
fn to_uppercase(s: &str) -> (r: String)
    ensures
        r@ == uppercase_of(s@),
{
    s.to_uppercase()
}

/// The part of a file name that stands before its first dot.
pub open spec fn base_label(file_name: Seq<char>) -> Seq<char> {
    choose|head: Seq<char>| is_head_before(file_name, '.', head)
}

/// The base label of a file name is the part of it before its first dot:
/// there is one, and only one.
pub proof fn lemma_base_label(file_name: Seq<char>)
    ensures
        is_head_before(file_name, '.', base_label(file_name)),
        forall|head: Seq<char>|
            is_head_before(file_name, '.', head) ==> head == base_label(file_name),
{
    lemma_head_before_exists(file_name, '.');
    assert forall|head: Seq<char>| is_head_before(file_name, '.', head) implies head == base_label(
        file_name,
    ) by {
        lemma_head_before_unique(file_name, '.', head, base_label(file_name));
    }
}

/// The category that a file name stands for: its base label in upper case.
pub open spec fn category_label(file_name: Seq<char>) -> Seq<char> {
    uppercase_of(base_label(file_name))
}

/// An entry can be fetched when it carries a feed URL.
pub open spec fn has_feed(e: OutlineEntryView) -> bool {
    e.xml_url is Some
}

/// The test by which entries are kept, as a function value.
pub open spec fn feed_test() -> spec_fn(OutlineEntryView) -> bool {
    |e: OutlineEntryView| has_feed(e)
}

/// The entries of a category file that are taken: of the children of its
/// top-level outlines, in document order, the first seven with a feed URL.
pub open spec fn selected_entries(groups: Seq<Seq<OutlineEntryView>>) -> Seq<OutlineEntryView> {
    at_most(groups.flatten().filter(feed_test()), MAX_FEEDS_PER_CATEGORY as int)
}

/// The feed source that an entry with a feed URL stands for.
pub open spec fn source_of(category: Seq<char>, e: OutlineEntryView) -> FeedSourceView {
    FeedSourceView {
        feed_url: e.xml_url->0,
        category,
        publisher_name: match e.title {
            Some(t) => t,
            None => UNKNOWN_PUBLISHER@,
        },
    }
}

/// The feed sources of a category file.
pub open spec fn catalog_sources(
    category: Seq<char>,
    groups: Seq<Seq<OutlineEntryView>>,
) -> Seq<FeedSourceView> {
    Seq::new(
        selected_entries(groups).len(),
        |i: int| source_of(category, selected_entries(groups)[i]),
    )
}

/// The category of a category file, from its file name.
pub fn category_of(file_name: &str) -> (category: String)
    ensures
        category@ == category_label(file_name@),
{
    let head = head_before(file_name, '.');
    proof {
        lemma_base_label(file_name@);
    }
    to_uppercase(head.as_str())
}

/// The flattened entries split at entry `ei` of group `gi`.
proof fn lemma_flatten_split<A>(groups: Seq<Seq<A>>, gi: int, ei: int)
    requires
        0 <= gi < groups.len(),
        0 <= ei <= groups[gi].len(),
    ensures
        groups.flatten() == (groups.take(gi).flatten() + groups[gi].take(ei)) + (groups[gi].skip(
            ei,
        ) + groups.skip(gi + 1).flatten()),
{
    let before = groups.take(gi);
    let after = groups.skip(gi + 1);
    let one = seq![groups[gi]];
    assert(groups =~= before + (one + after));
    lemma_flatten_concat(before, one + after);
    lemma_flatten_concat(one, after);
    one.lemma_flatten_one_element();
    assert(groups[gi] =~= groups[gi].take(ei) + groups[gi].skip(ei));
    assert(groups.flatten() =~= (before.flatten() + groups[gi].take(ei)) + (groups[gi].skip(ei)
        + after.flatten()));
}

/// The feed sources of a category, from the outline groups of its file: of
/// the entries in document order the first seven that carry a feed URL, each
/// under the category and with its title as publisher.
pub fn feed_sources(category: &str, groups: &Vec<Vec<OutlineEntry>>) -> (out: Vec<FeedSource>)
    ensures
        out.deep_view() == catalog_sources(category@, groups.deep_view()),
        out.len() <= MAX_FEEDS_PER_CATEGORY,
{
    let ghost all = groups.deep_view();
    let ghost mut seen: Seq<OutlineEntryView> = Seq::empty();
    let mut out: Vec<FeedSource> = Vec::new();
    let mut gi: usize = 0;
    proof {
        assert(all.take(0) =~= Seq::<Seq<OutlineEntryView>>::empty());
        assert(seen.filter(feed_test()) =~= Seq::<OutlineEntryView>::empty()) by {
            reveal(Seq::filter);
        }
    }
    while gi < groups.len() && out.len() < MAX_FEEDS_PER_CATEGORY
        invariant
            gi <= groups.len(),
            all == groups.deep_view(),
            seen == all.take(gi as int).flatten(),
            out.len() <= MAX_FEEDS_PER_CATEGORY,
            out.len() == seen.filter(feed_test()).len(),
            forall|k: int|
                0 <= k < out.len() ==> (#[trigger] out[k])@ == source_of(
                    category@,
                    seen.filter(feed_test())[k],
                ),
        decreases groups.len() - gi,
    {
        let group = &groups[gi];
        let ghost before = seen;
        let mut ei: usize = 0;
        proof {
            assert(all[gi as int] == group.deep_view());
            assert(group.deep_view().take(0) =~= Seq::<OutlineEntryView>::empty());
            assert(seen =~= before + group.deep_view().take(0));
        }
        while ei < group.len() && out.len() < MAX_FEEDS_PER_CATEGORY
            invariant
                ei <= group.len(),
                gi < groups.len(),
                all == groups.deep_view(),
                all[gi as int] == group.deep_view(),
                before == all.take(gi as int).flatten(),
                seen == before + group.deep_view().take(ei as int),
                out.len() <= MAX_FEEDS_PER_CATEGORY,
                out.len() == seen.filter(feed_test()).len(),
                forall|k: int|
                    0 <= k < out.len() ==> (#[trigger] out[k])@ == source_of(
                        category@,
                        seen.filter(feed_test())[k],
                    ),
            decreases group.len() - ei,
        {
            let entry = &group[ei];
            let ghost e = entry@;
            proof {
                assert(group.deep_view()[ei as int] == e);
                assert(group.deep_view().take(ei + 1) =~= group.deep_view().take(ei as int).push(
                    e,
                ));
                assert(before + group.deep_view().take(ei + 1) =~= seen.push(e));
                seen.lemma_filter_push(e, feed_test());
            }
            match &entry.xml_url {
                Some(url) => {
                    let publisher = match &entry.title {
                        Some(t) => t.clone(),
                        None => UNKNOWN_PUBLISHER.to_owned(),
                    };
                    out.push(
                        FeedSource {
                            feed_url: url.clone(),
                            category: category.to_owned(),
                            publisher_name: publisher,
                        },
                    );
                },
                None => {},
            }
            proof {
                seen = seen.push(e);
            }
            ei += 1;
        }
        proof {
            if ei == group.len() {
                assert(group.deep_view().take(ei as int) =~= group.deep_view());
                assert(all.take(gi + 1) =~= all.take(gi as int).push(all[gi as int]));
                all.take(gi as int).lemma_flatten_push(all[gi as int]);
            } else {
                lemma_flatten_split(all, gi as int, ei as int);
                let rest = group.deep_view().skip(ei as int) + all.skip(gi + 1).flatten();
                lemma_selection_settled(seen, rest, feed_test(), MAX_FEEDS_PER_CATEGORY as int);
                assert(selected_entries(all) == seen.filter(feed_test()));
                assert(out.deep_view() =~= catalog_sources(category@, all));
            }
        }
        if ei < group.len() {
            return out;
        }
        gi += 1;
    }
    proof {
        if gi == groups.len() {
            assert(all.take(gi as int) =~= all);
            seen.filter(feed_test()).lemma_filter_len(feed_test());
        } else {
            let rest = all.skip(gi as int).flatten();
            assert(all =~= all.take(gi as int) + all.skip(gi as int));
            lemma_flatten_concat(all.take(gi as int), all.skip(gi as int));
            lemma_selection_settled(seen, rest, feed_test(), MAX_FEEDS_PER_CATEGORY as int);
        }
        assert(selected_entries(all) == seen.filter(feed_test()));
        assert(out.deep_view() =~= catalog_sources(category@, all));
    }
    out
}

/// Loads one category file: its category comes from the file name, its feed
/// sources from the outline document that is its content. A document that
/// the outline parser rejects is an error; nothing else is.
pub fn load_category(file_name: &str, content: &str) -> (r: Result<Vec<FeedSource>, CatalogError>)
    ensures
        match opml_outline_groups(content@) {
            Some(groups) => r is Ok && r->Ok_0.deep_view() == catalog_sources(
                category_label(file_name@),
                groups,
            ),
            None => r == Err::<Vec<FeedSource>, CatalogError>(CatalogError::Malformed),
        },
        r matches Ok(sources) ==> sources.len() <= MAX_FEEDS_PER_CATEGORY,
{
    match read_outline_groups(content) {
        Some(groups) => {
            let category = category_of(file_name);
            Ok(feed_sources(category.as_str(), &groups))
        },
        None => Err(CatalogError::Malformed),
    }
}

/// One file of the catalog directory: its name and what was read from it,
/// `None` where it could not be read.
#[derive(Debug)]
pub struct CategoryFile {
    pub file_name: String,
    pub content: Option<String>,
}

/// A category file as plain text.
pub struct CategoryFileView {
    pub file_name: Seq<char>,
    pub content: Option<Seq<char>>,
}

impl View for CategoryFile {
    type V = CategoryFileView;

    open spec fn view(&self) -> CategoryFileView {
        CategoryFileView { file_name: self.file_name@, content: self.content.deep_view() }
    }
}

impl DeepView for CategoryFile {
    type V = CategoryFileView;

    open spec fn deep_view(&self) -> CategoryFileView {
        self@
    }
}

/// What is wrong with a category file, if anything: it could not be read,
/// or what was read is no well-formed outline document.
pub open spec fn file_failure(file: CategoryFileView) -> Option<CatalogError> {
    match file.content {
        None => Some(CatalogError::Unreadable),
        Some(content) => if opml_outline_groups(content) is None {
            Some(CatalogError::Malformed)
        } else {
            None
        },
    }
}

/// The first `n` files of a catalog are all sound.
pub open spec fn sound_before(files: Seq<CategoryFileView>, n: int) -> bool {
    forall|i: int| 0 <= i < n && i < files.len() ==> file_failure(#[trigger] files[i]) is None
}

/// The feed sources of one sound category file.
pub open spec fn file_sources(file: CategoryFileView) -> Seq<FeedSourceView> {
    catalog_sources(category_label(file.file_name), opml_outline_groups(file.content->0)->0)
}

/// The feed sources of the first `n` files of a catalog, file after file.
pub open spec fn sources_of_first(files: Seq<CategoryFileView>, n: nat) -> Seq<FeedSourceView>
    decreases n,
{
    if n == 0 {
        Seq::empty()
    } else {
        sources_of_first(files, (n - 1) as nat) + file_sources(files[n - 1])
    }
}

/// Loads a whole catalog: the feed sources of its files, file after file.
/// The first file that could not be read, or that is no well-formed outline
/// document, fails the whole catalog with its failure.
pub fn load_catalog(files: &Vec<CategoryFile>) -> (r: Result<Vec<FeedSource>, CatalogError>)
    ensures
        r is Ok <==> sound_before(files.deep_view(), files.len() as int),
        r matches Ok(sources) ==> sources.deep_view() == sources_of_first(
            files.deep_view(),
            files.len() as nat,
        ),
        r matches Err(e) ==> exists|i: int|
            0 <= i < files.len() && sound_before(files.deep_view(), i) && file_failure(
                #[trigger] files.deep_view()[i],
            ) == Some(e),
{
    let mut sources: Vec<FeedSource> = Vec::new();
    let mut i: usize = 0;
    while i < files.len()
        invariant
            i <= files.len(),
            sound_before(files.deep_view(), i as int),
            sources.deep_view() == sources_of_first(files.deep_view(), i as nat),
        decreases files.len() - i,
    {
        let ghost before = sources.deep_view();
        proof {
            assert(files.deep_view()[i as int] == files[i as int]@);
        }
        let content = match &files[i].content {
            Some(content) => content,
            None => {
                return Err(CatalogError::Unreadable);
            },
        };
        match load_category(files[i].file_name.as_str(), content.as_str()) {
            Ok(found) => {
                let mut k: usize = 0;
                while k < found.len()
                    invariant
                        k <= found.len(),
                        sources.deep_view() == before + found.deep_view().take(k as int),
                    decreases found.len() - k,
                {
                    let ghost held = sources.deep_view();
                    let copy = found[k].clone();
                    sources.push(copy);
                    proof {
                        assert(found.deep_view()[k as int] == found[k as int]@);
                        assert(sources.deep_view() =~= held.push(copy@));
                        assert(found.deep_view().take(k + 1) =~= found.deep_view().take(
                            k as int,
                        ).push(copy@));
                    }
                    k += 1;
                }
                proof {
                    assert(found.deep_view().take(found.len() as int) =~= found.deep_view());
                }
            },
            Err(e) => {
                return Err(e);
            },
        }
        i += 1;
    }
    Ok(sources)
}

/// A category file with at most seven entries that carry a feed URL yields
/// exactly that many feed sources, one for each such entry in document order,
/// each under the category of the file: its base label in upper case.
pub proof fn lemma_small_file_yields_all(category: Seq<char>, groups: Seq<Seq<OutlineEntryView>>)
    requires
        groups.flatten().filter(feed_test()).len() <= MAX_FEEDS_PER_CATEGORY,
    ensures
        catalog_sources(category, groups).len() == groups.flatten().filter(feed_test()).len(),
        forall|k: int|
            0 <= k < catalog_sources(category, groups).len() ==> {
                &&& (#[trigger] catalog_sources(category, groups)[k]).category == category
                &&& catalog_sources(category, groups)[k] == source_of(
                    category,
                    groups.flatten().filter(feed_test())[k],
                )
            },
{
}

/// No category file yields more than seven feed sources, and those it yields
/// stand for its first entries with a feed URL, in document order: an entry
/// beyond the seventh is never a source.
pub proof fn lemma_fan_out_capped(category: Seq<char>, groups: Seq<Seq<OutlineEntryView>>)
    ensures
        catalog_sources(category, groups).len() <= MAX_FEEDS_PER_CATEGORY,
        catalog_sources(category, groups).len() <= groups.flatten().filter(feed_test()).len(),
        forall|k: int|
            0 <= k < catalog_sources(category, groups).len() ==> {
                &&& (#[trigger] catalog_sources(category, groups)[k]) == source_of(
                    category,
                    groups.flatten().filter(feed_test())[k],
                )
                &&& has_feed(groups.flatten().filter(feed_test())[k])
            },
{
    let feeds = groups.flatten().filter(feed_test());
    assert forall|k: int| 0 <= k < feeds.len() implies has_feed(#[trigger] feeds[k]) by {
        groups.flatten().lemma_filter_pred(feed_test(), k);
    }
}

} // verus!
