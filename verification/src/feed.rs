//! Feed parsing: the items of a fetched feed as plain values, and the rule
//! by which an item is eligible for selection.

use vstd::prelude::*;

verus! {

/// The namespace prefix of the media extension.
pub const MEDIA_NAMESPACE: &'static str = "media";

/// The media element that carries a candidate image.
pub const MEDIA_ELEMENT: &'static str = "content";

/// The attribute of a media element that holds its URL.
pub const MEDIA_URL_ATTRIBUTE: &'static str = "url";

/// An instant in UTC: whole seconds since the Unix epoch and the nanoseconds
/// within the second (a leap second counts on from one thousand million).
#[derive(Debug, Clone, Copy, PartialEq, Eq, Structural)]
pub struct UtcInstant {
    pub secs: i64,
    pub nanos: u32,
}

/// One entry of a feed as it was parsed: nothing is defaulted or converted
/// yet. `media` holds, for each media element of the item in document order,
/// its URL attribute where it has one; it is `None` where the item has no
/// media element at all.
#[derive(Debug)]
pub struct RawFeedItem {
    pub title: Option<String>,
    pub author: Option<String>,
    pub link: Option<String>,
    pub pub_date: Option<String>,
    pub description: Option<String>,
    pub content: Option<String>,
    pub media: Option<Vec<Option<String>>>,
}

/// A raw feed item as plain text.
pub struct RawFeedItemView {
    pub title: Option<Seq<char>>,
    pub author: Option<Seq<char>>,
    pub link: Option<Seq<char>>,
    pub pub_date: Option<Seq<char>>,
    pub description: Option<Seq<char>>,
    pub content: Option<Seq<char>>,
    pub media: Option<Seq<Option<Seq<char>>>>,
}

impl View for RawFeedItem {
    type V = RawFeedItemView;

    open spec fn view(&self) -> RawFeedItemView {
        RawFeedItemView {
            title: self.title.deep_view(),
            author: self.author.deep_view(),
            link: self.link.deep_view(),
            pub_date: self.pub_date.deep_view(),
            description: self.description.deep_view(),
            content: self.content.deep_view(),
            media: self.media.deep_view(),
        }
    }
}

impl DeepView for RawFeedItem {
    type V = RawFeedItemView;

    open spec fn deep_view(&self) -> RawFeedItemView {
        self@
    }
}

/// The items that the `rss` crate reads from the bytes of a feed, in feed
/// order, with the chosen attribute of each extension element of the chosen
/// namespace and name; `None` where the crate rejects the bytes.
pub uninterp spec fn rss_items(
    bytes: Seq<u8>,
    namespace: Seq<char>,
    element: Seq<char>,
    attribute: Seq<char>,
) -> Option<Seq<RawFeedItemView>>;

/// Calls `rss::Channel::read_from` and copies out of each item the fields
/// that selection and normalisation read. The contract only names the
/// result: nothing is claimed about which feeds the crate accepts.
#[verifier::external_body]
fn read_items(bytes: &[u8], namespace: &str, element: &str, attribute: &str) -> (r: Option<
    Vec<RawFeedItem>,
>)
    ensures
        r.deep_view() == rss_items(bytes@, namespace@, element@, attribute@),
{
    let channel = rss::Channel::read_from(bytes).ok()?;
    let items = channel.into_items().into_iter();
    Some(items.map(|item| RawFeedItem {
        media: item.extensions.get(namespace).and_then(|m| m.get(element)).map(
            |found| found.iter().map(|x| x.attrs.get(attribute).cloned()).collect()),
        title: item.title,
        author: item.author,
        link: item.link,
        pub_date: item.pub_date,
        description: item.description,
        content: item.content,
    }).collect())
}

/// The instant that `chrono` reads from a date in RFC 2822 form, converted
/// to UTC; `None` where `chrono` rejects the text.
pub uninterp spec fn rfc2822_instant(text: Seq<char>) -> Option<UtcInstant>;

/// Calls `chrono::DateTime::parse_from_rfc2822` and converts the result to
/// UTC. The contract only names the result.
#[verifier::external_body]
fn parse_rfc2822(text: &str) -> (r: Option<UtcInstant>)
    ensures
        r == rfc2822_instant(text@),
{
    let utc = chrono::DateTime::parse_from_rfc2822(text).ok()?.with_timezone(&chrono::Utc);
    Some(UtcInstant { secs: utc.timestamp(), nanos: utc.timestamp_subsec_nanos() })
}

/// The items of a feed, with the media URLs that the image rules read.
pub open spec fn feed_items(bytes: Seq<u8>) -> Option<Seq<RawFeedItemView>> {
    rss_items(bytes, MEDIA_NAMESPACE@, MEDIA_ELEMENT@, MEDIA_URL_ATTRIBUTE@)
}

/// When an item was published: known only where the item carries a date
/// that parses strictly.
pub open spec fn published_at(item: RawFeedItemView) -> Option<UtcInstant> {
    match item.pub_date {
        Some(date) => rfc2822_instant(date),
        None => None,
    }
}

/// The rule of eligibility over what the date parser gave: the item has a
/// link, and its publish date parsed.
pub open spec fn eligible_with(item: RawFeedItemView, published: Option<UtcInstant>) -> bool {
    item.link is Some && published is Some
}

/// An item is eligible for selection when it has a link and a publish date
/// that parses.
pub open spec fn eligible(item: RawFeedItemView) -> bool {
    eligible_with(item, published_at(item))
}

/// Parses the bytes of a fetched feed into its items.
pub fn parse_feed(bytes: &[u8]) -> (r: Option<Vec<RawFeedItem>>)
    ensures
        r.deep_view() == feed_items(bytes@),
{
    read_items(bytes, MEDIA_NAMESPACE, MEDIA_ELEMENT, MEDIA_URL_ATTRIBUTE)
}

/// The publish instant of an item, where it has one.
pub fn publish_instant(item: &RawFeedItem) -> (r: Option<UtcInstant>)
    ensures
        r == published_at(item@),
{
    match &item.pub_date {
        Some(date) => parse_rfc2822(date.as_str()),
        None => None,
    }
}

/// Whether an item is eligible for selection, given what the date parser
/// made of its publish date.
pub fn is_eligible_with(item: &RawFeedItem, published: Option<UtcInstant>) -> (b: bool)
    ensures
        b == eligible_with(item@, published),
{
    item.link.is_some() && published.is_some()
}

/// Whether an item is eligible for selection.
pub fn is_eligible(item: &RawFeedItem) -> (b: bool)
    ensures
        b == eligible(item@),
{
    is_eligible_with(item, publish_instant(item))
}

} // verus!
