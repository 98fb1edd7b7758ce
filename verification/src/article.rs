//! The content normaliser: from a raw feed item and its validated image to
//! the article that is persisted.

use crate::catalog::{FeedSource, FeedSourceView};
use crate::feed::{
    eligible, publish_instant, published_at, RawFeedItem, RawFeedItemView, UtcInstant,
};
use vstd::prelude::*;

verus! {

/// The title of an item that has none.
pub const NO_TITLE: &'static str = "No title";

/// The author of an item that names none.
pub const UNKNOWN_AUTHOR: &'static str = "Unknown";

/// A normalised article, ready to be persisted. Its image URL is not empty.
#[derive(Debug)]
pub struct ArticleCandidate {
    pub title: String,
    pub authors: String,
    pub publisher: String,
    pub description: String,
    pub content: String,
    pub original_url: String,
    pub tag: String,
    pub image_url: String,
    pub published_at: UtcInstant,
    pub created_at: UtcInstant,
}

/// An article as plain values.
pub struct ArticleView {
    pub title: Seq<char>,
    pub authors: Seq<char>,
    pub publisher: Seq<char>,
    pub description: Seq<char>,
    pub content: Seq<char>,
    pub original_url: Seq<char>,
    pub tag: Seq<char>,
    pub image_url: Seq<char>,
    pub published_at: UtcInstant,
    pub created_at: UtcInstant,
}

impl View for ArticleCandidate {
    type V = ArticleView;

    open spec fn view(&self) -> ArticleView {
        ArticleView {
            title: self.title@,
            authors: self.authors@,
            publisher: self.publisher@,
            description: self.description@,
            content: self.content@,
            original_url: self.original_url@,
            tag: self.tag@,
            image_url: self.image_url@,
            published_at: self.published_at,
            created_at: self.created_at,
        }
    }
}

impl DeepView for ArticleCandidate {
    type V = ArticleView;

    open spec fn deep_view(&self) -> ArticleView {
        self@
    }
}

impl Clone for ArticleCandidate {
    fn clone(&self) -> (copy: Self)
        ensures
            copy@ == self@,
    {
        ArticleCandidate {
            title: self.title.clone(),
            authors: self.authors.clone(),
            publisher: self.publisher.clone(),
            description: self.description.clone(),
            content: self.content.clone(),
            original_url: self.original_url.clone(),
            tag: self.tag.clone(),
            image_url: self.image_url.clone(),
            published_at: self.published_at,
            created_at: self.created_at,
        }
    }
}

/// The plain text that `nanohtml2text` makes of a piece of markup.
pub uninterp spec fn html_text(html: Seq<char>) -> Seq<char>;

/// Calls `nanohtml2text::html2text`. The contract only names the result.
#[verifier::external_body]
fn html2text(html: &str) -> (text: String)
    ensures
        text@ == html_text(html@),
{
    nanohtml2text::html2text(html)
}

/// Calls `chrono::Utc::now`. Nothing is claimed of the instant that comes
/// back: it is whatever the clock of the machine says.
#[verifier::external_body]
pub(crate) fn now_utc() -> UtcInstant {
    let now = chrono::Utc::now();
    UtcInstant { secs: now.timestamp(), nanos: now.timestamp_subsec_nanos() }
}

/// A text where there is one, else the fallback.
pub open spec fn text_or(text: Option<Seq<char>>, fallback: Seq<char>) -> Seq<char> {
    match text {
        Some(t) => t,
        None => fallback,
    }
}

/// The markup of an item's description; nothing where it has none.
pub open spec fn description_markup(item: RawFeedItemView) -> Seq<char> {
    text_or(item.description, Seq::empty())
}

/// The markup that an item's content is made from: its body, or its
/// description where the body is missing or empty.
pub open spec fn content_markup(item: RawFeedItemView) -> Seq<char> {
    match item.content {
        Some(body) => if body.len() > 0 {
            body
        } else {
            description_markup(item)
        },
        None => description_markup(item),
    }
}

/// The article assembled from an item with a link, the source of its feed,
/// its image, the plain text of its description and content, and the two
/// instants.
pub open spec fn assembled(
    item: RawFeedItemView,
    source: FeedSourceView,
    image_url: Seq<char>,
    description: Seq<char>,
    content: Seq<char>,
    published: UtcInstant,
    created: UtcInstant,
) -> ArticleView {
    ArticleView {
        title: text_or(item.title, NO_TITLE@),
        authors: text_or(item.author, UNKNOWN_AUTHOR@),
        publisher: source.publisher_name,
        description,
        content,
        original_url: item.link->0,
        tag: source.category,
        image_url,
        published_at: published,
        created_at: created,
    }
}

/// The article that an eligible item becomes with a given image, created at
/// a given instant.
pub open spec fn article_of(
    item: RawFeedItemView,
    source: FeedSourceView,
    image_url: Seq<char>,
    created: UtcInstant,
) -> ArticleView {
    assembled(
        item,
        source,
        image_url,
        html_text(description_markup(item)),
        html_text(content_markup(item)),
        published_at(item)->0,
        created,
    )
}

/// A text where there is one, else the fallback.
fn owned_or(text: &Option<String>, fallback: &str) -> (r: String)
    ensures
        r@ == text_or(text.deep_view(), fallback@),
{
    match text {
        Some(t) => t.clone(),
        None => fallback.to_owned(),
    }
}

/// Assembles an article from values that are already converted. Defaults
/// stand in for a missing title and author. There is no article without a
/// link or without an image.
pub fn assemble(
    item: &RawFeedItem,
    source: &FeedSource,
    image_url: &str,
    description: String,
    content: String,
    published: UtcInstant,
    created: UtcInstant,
) -> (r: Option<ArticleCandidate>)
    ensures
        r is Some <==> item@.link is Some && image_url@.len() > 0,
        r matches Some(article) ==> article@ == assembled(
            item@,
            source@,
            image_url@,
            description@,
            content@,
            published,
            created,
        ),
{
    if image_url.is_empty() {
        return None;
    }
    match &item.link {
        Some(link) => Some(
            ArticleCandidate {
                title: owned_or(&item.title, NO_TITLE),
                authors: owned_or(&item.author, UNKNOWN_AUTHOR),
                publisher: source.publisher_name.clone(),
                description,
                content,
                original_url: link.clone(),
                tag: source.category.clone(),
                image_url: image_url.to_owned(),
                published_at: published,
                created_at: created,
            },
        ),
        None => None,
    }
}

/// Normalises an eligible item whose image was validated: markup becomes
/// plain text, the publish date a UTC instant. An item that is not eligible,
/// or an empty image URL, gives no article.
pub fn normalize_at(
    item: &RawFeedItem,
    source: &FeedSource,
    image_url: &str,
    created: UtcInstant,
) -> (r: Option<ArticleCandidate>)
    ensures
        r is Some <==> eligible(item@) && image_url@.len() > 0,
        r matches Some(article) ==> article@ == article_of(item@, source@, image_url@, created),
{
    let published = match publish_instant(item) {
        Some(instant) => instant,
        None => {
            return None;
        },
    };
    let description_source = owned_or(&item.description, "");
    proof {
        reveal_strlit("");
        assert(""@ =~= Seq::<char>::empty());
    }
    let description = html2text(description_source.as_str());
    let content = match &item.content {
        Some(body) => if body.as_str().is_empty() {
            description.clone()
        } else {
            html2text(body.as_str())
        },
        None => description.clone(),
    };
    assemble(item, source, image_url, description, content, published, created)
}

/// Normalises an item as `normalize_at` does, with the present instant as
/// the time of creation. Whatever the clock says, the article is that of
/// `normalize_at` for that instant.
pub fn normalize(item: &RawFeedItem, source: &FeedSource, image_url: &str) -> (r: Option<
    ArticleCandidate,
>)
    ensures
        r is Some <==> eligible(item@) && image_url@.len() > 0,
        r matches Some(article) ==> article@ == article_of(
            item@,
            source@,
            image_url@,
            article.created_at,
        ),
{
    normalize_at(item, source, image_url, now_utc())
}

} // verus!
