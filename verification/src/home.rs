//! What the home page shows of a stored article.

use crate::article::{ArticleCandidate, ArticleView};
use crate::timeago::{format_time_ago, time_ago};
use vstd::prelude::*;

verus! {

/// The home page shows the latest article of this many tags at most.
pub const HOME_TAG_LIMIT: u64 = 9;

/// An article as the home page shows it.
#[derive(Debug)]
pub struct ArticleDisplay {
    pub title: String,
    pub authors: String,
    pub publishers: String,
    pub description: String,
    pub content: String,
    pub original_url: String,
    pub tag: String,
    pub image_url: String,
    pub time_ago: String,
}

/// A displayed article as plain text.
pub struct ArticleDisplayView {
    pub title: Seq<char>,
    pub authors: Seq<char>,
    pub publishers: Seq<char>,
    pub description: Seq<char>,
    pub content: Seq<char>,
    pub original_url: Seq<char>,
    pub tag: Seq<char>,
    pub image_url: Seq<char>,
    pub time_ago: Seq<char>,
}

impl View for ArticleDisplay {
    type V = ArticleDisplayView;

    open spec fn view(&self) -> ArticleDisplayView {
        ArticleDisplayView {
            title: self.title@,
            authors: self.authors@,
            publishers: self.publishers@,
            description: self.description@,
            content: self.content@,
            original_url: self.original_url@,
            tag: self.tag@,
            image_url: self.image_url@,
            time_ago: self.time_ago@,
        }
    }
}

/// What is shown of an article at the instant `now_secs`: its texts as they
/// are stored, and how long ago it was published.
pub open spec fn displayed(article: ArticleView, now_secs: i64) -> ArticleDisplayView {
    ArticleDisplayView {
        title: article.title,
        authors: article.authors,
        publishers: article.publisher,
        description: article.description,
        content: article.content,
        original_url: article.original_url,
        tag: article.tag,
        image_url: article.image_url,
        time_ago: time_ago(now_secs - article.published_at.secs),
    }
}

/// What the home page shows of an article at `now_secs`, in seconds since
/// the Unix epoch.
pub fn display_article(article: &ArticleCandidate, now_secs: i64) -> (shown: ArticleDisplay)
    ensures
        shown@ == displayed(article@, now_secs),
{
    ArticleDisplay {
        title: article.title.clone(),
        authors: article.authors.clone(),
        publishers: article.publisher.clone(),
        description: article.description.clone(),
        content: article.content.clone(),
        original_url: article.original_url.clone(),
        tag: article.tag.clone(),
        image_url: article.image_url.clone(),
        time_ago: format_time_ago(now_secs, article.published_at.secs),
    }
}

} // verus!
