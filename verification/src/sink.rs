//! The rule of the deduplicating sink, and a store in memory that follows
//! it: a row whose `original_url` is already stored is skipped, never
//! overwritten.

use crate::article::{ArticleCandidate, ArticleView};
use vstd::prelude::*;

verus! {

/// Some stored row has this `original_url`.
pub open spec fn holds_url(rows: Seq<ArticleView>, url: Seq<char>) -> bool {
    exists|i: int| 0 <= i < rows.len() && (#[trigger] rows[i]).original_url == url
}

/// No two rows share an `original_url`.
pub open spec fn unique_urls(rows: Seq<ArticleView>) -> bool {
    forall|i: int, j: int|
        0 <= i < j < rows.len() ==> (#[trigger] rows[i]).original_url
            != (#[trigger] rows[j]).original_url
}

/// The rows after one row was offered: it is appended unless its
/// `original_url` is already stored.
pub open spec fn offer(rows: Seq<ArticleView>, row: ArticleView) -> Seq<ArticleView> {
    if holds_url(rows, row.original_url) {
        rows
    } else {
        rows.push(row)
    }
}

/// The rows after a batch was inserted: its rows are offered in order.
pub open spec fn insert_skipping(rows: Seq<ArticleView>, batch: Seq<ArticleView>) -> Seq<
    ArticleView,
>
    decreases batch.len(),
{
    if batch.len() == 0 {
        rows
    } else {
        offer(insert_skipping(rows, batch.drop_last()), batch.last())
    }
}

/// A store of articles in memory, keyed by `original_url`: begun empty and
/// filled by `insert_many` alone, no two of its rows share one.
pub struct MemorySink {
    rows: Vec<ArticleCandidate>,
}

impl View for MemorySink {
    type V = Seq<ArticleView>;

    closed spec fn view(&self) -> Seq<ArticleView> {
        self.rows.deep_view()
    }
}

impl MemorySink {
    /// An empty store.
    pub fn new() -> (sink: MemorySink)
        ensures
            sink@ == Seq::<ArticleView>::empty(),
    {
        let sink = MemorySink { rows: Vec::new() };
        assert(sink@ =~= Seq::<ArticleView>::empty());
        sink
    }

    /// The stored rows, in the order in which they were stored.
    pub fn rows(&self) -> (rows: &Vec<ArticleCandidate>)
        ensures
            rows.deep_view() == self@,
    {
        &self.rows
    }

    /// The number of stored rows.
    pub fn len(&self) -> (n: usize)
        ensures
            n == self@.len(),
    {
        self.rows.len()
    }

    /// Whether a row with this `original_url` is stored.
    pub fn contains_url(&self, url: &str) -> (b: bool)
        ensures
            b == holds_url(self@, url@),
    {
        let mut i: usize = 0;
        while i < self.rows.len()
            invariant
                i <= self.rows.len(),
                forall|k: int| 0 <= k < i ==> (#[trigger] self@[k]).original_url != url@,
            decreases self.rows.len() - i,
        {
            assert(self@[i as int] == self.rows[i as int]@);
            if crate::text::same_text(self.rows[i].original_url.as_str(), url) {
                return true;
            }
            i += 1;
        }
        false
    }

    /// Inserts a batch: each row is stored unless a row with its
    /// `original_url` is stored already, in which case it is skipped and
    /// the stored row stays as it is. Returns how many rows were stored.
    pub fn insert_many(&mut self, batch: Vec<ArticleCandidate>) -> (stored: usize)
        ensures
            final(self)@ == insert_skipping(old(self)@, batch.deep_view()),
            stored == final(self)@.len() - old(self)@.len(),
            unique_urls(old(self)@) ==> unique_urls(final(self)@),
    {
        let ghost offered = batch.deep_view();
        let mut stored: usize = 0;
        let mut i: usize = 0;
        assert(offered.take(0) =~= Seq::<ArticleView>::empty());
        while i < batch.len()
            invariant
                i <= batch.len(),
                offered == batch.deep_view(),
                self@ == insert_skipping(old(self)@, offered.take(i as int)),
                stored == self@.len() - old(self)@.len(),
                stored <= i,
            decreases batch.len() - i,
        {
            let ghost before = self@;
            proof {
                assert(offered[i as int] == batch[i as int]@);
                assert(offered.take(i + 1).drop_last() =~= offered.take(i as int));
                assert(offered.take(i + 1).last() == offered[i as int]);
            }
            if !self.contains_url(batch[i].original_url.as_str()) {
                self.rows.push(batch[i].clone());
                stored += 1;
                assert(self@ =~= before.push(offered[i as int]));
            }
            i += 1;
        }
        proof {
            assert(offered.take(batch.len() as int) =~= offered);
            if unique_urls(old(self)@) {
                lemma_insert_keeps_unique(old(self)@, offered);
            }
        }
        stored
    }
}

/// Inserting keeps every stored row where and as it was.
pub proof fn lemma_insert_keeps_rows(rows: Seq<ArticleView>, batch: Seq<ArticleView>)
    ensures
        rows.len() <= insert_skipping(rows, batch).len() <= rows.len() + batch.len(),
        insert_skipping(rows, batch).take(rows.len() as int) == rows,
    decreases batch.len(),
{
    if batch.len() > 0 {
        lemma_insert_keeps_rows(rows, batch.drop_last());
        let mid = insert_skipping(rows, batch.drop_last());
        assert(offer(mid, batch.last()).take(rows.len() as int) =~= mid.take(rows.len() as int));
    } else {
        assert(rows.take(rows.len() as int) =~= rows);
    }
}

/// A URL that is stored stays stored.
pub proof fn lemma_insert_keeps_urls(
    rows: Seq<ArticleView>,
    batch: Seq<ArticleView>,
    url: Seq<char>,
)
    requires
        holds_url(rows, url),
    ensures
        holds_url(insert_skipping(rows, batch), url),
{
    lemma_insert_keeps_rows(rows, batch);
    let i = choose|i: int| 0 <= i < rows.len() && (#[trigger] rows[i]).original_url == url;
    let after = insert_skipping(rows, batch);
    assert(after.take(rows.len() as int)[i] == after[i]);
    assert(after[i].original_url == url);
}

/// After a batch was inserted, the URL of each of its rows is stored.
pub proof fn lemma_inserted_urls_held(rows: Seq<ArticleView>, batch: Seq<ArticleView>, k: int)
    requires
        0 <= k < batch.len(),
    ensures
        holds_url(insert_skipping(rows, batch), batch[k].original_url),
    decreases batch.len(),
{
    let mid = insert_skipping(rows, batch.drop_last());
    let after = insert_skipping(rows, batch);
    if k == batch.len() - 1 {
        if !holds_url(mid, batch.last().original_url) {
            assert(after[mid.len() as int] == batch.last());
        }
    } else {
        lemma_inserted_urls_held(rows, batch.drop_last(), k);
        assert(batch.drop_last()[k] == batch[k]);
        let i = choose|i: int|
            0 <= i < mid.len() && (#[trigger] mid[i]).original_url == batch[k].original_url;
        assert(after[i] == mid[i]);
    }
}

/// Inserting keeps the key unique: where no two stored rows shared an
/// `original_url`, none do afterwards.
pub proof fn lemma_insert_keeps_unique(rows: Seq<ArticleView>, batch: Seq<ArticleView>)
    requires
        unique_urls(rows),
    ensures
        unique_urls(insert_skipping(rows, batch)),
    decreases batch.len(),
{
    if batch.len() > 0 {
        lemma_insert_keeps_unique(rows, batch.drop_last());
    }
}

/// A batch all of whose URLs are stored changes nothing.
pub proof fn lemma_known_batch_is_noop(rows: Seq<ArticleView>, batch: Seq<ArticleView>)
    requires
        forall|k: int| 0 <= k < batch.len() ==> holds_url(rows, (#[trigger] batch[k]).original_url),
    ensures
        insert_skipping(rows, batch) == rows,
    decreases batch.len(),
{
    if batch.len() > 0 {
        assert forall|k: int| 0 <= k < batch.drop_last().len() implies holds_url(
            rows,
            (#[trigger] batch.drop_last()[k]).original_url,
        ) by {
            assert(batch.drop_last()[k] == batch[k]);
        }
        lemma_known_batch_is_noop(rows, batch.drop_last());
        assert(holds_url(rows, batch[batch.len() - 1].original_url));
    }
}

/// Inserting the same batch a second time changes nothing: every row of
/// the second insert is skipped.
pub proof fn lemma_reinsert_is_noop(rows: Seq<ArticleView>, batch: Seq<ArticleView>)
    ensures
        insert_skipping(insert_skipping(rows, batch), batch) == insert_skipping(rows, batch),
{
    let after = insert_skipping(rows, batch);
    assert forall|k: int| 0 <= k < batch.len() implies holds_url(
        after,
        (#[trigger] batch[k]).original_url,
    ) by {
        lemma_inserted_urls_held(rows, batch, k);
    }
    lemma_known_batch_is_noop(after, batch);
}

/// A later batch whose rows carry the URLs of rows that some earlier batch
/// inserted changes nothing, whatever else its rows hold.
pub proof fn lemma_seen_urls_are_skipped(
    rows: Seq<ArticleView>,
    first: Seq<ArticleView>,
    second: Seq<ArticleView>,
)
    requires
        forall|k: int|
            0 <= k < second.len() ==> exists|m: int|
                0 <= m < first.len() && (#[trigger] first[m]).original_url
                    == (#[trigger] second[k]).original_url,
    ensures
        insert_skipping(insert_skipping(rows, first), second) == insert_skipping(rows, first),
{
    let after = insert_skipping(rows, first);
    assert forall|k: int| 0 <= k < second.len() implies holds_url(
        after,
        (#[trigger] second[k]).original_url,
    ) by {
        let m = choose|m: int|
            0 <= m < first.len() && (#[trigger] first[m]).original_url == second[k].original_url;
        lemma_inserted_urls_held(rows, first, m);
    }
    lemma_known_batch_is_noop(after, second);
}

} // verus!
