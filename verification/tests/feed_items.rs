use feed_ingest::feed::{
    is_eligible, is_eligible_with, parse_feed, publish_instant, RawFeedItem, UtcInstant,
};

fn feed_bytes(items: &str) -> Vec<u8> {
    format!(
        "<?xml version=\"1.0\" encoding=\"UTF-8\"?>\
         <rss version=\"2.0\" xmlns:media=\"http://search.yahoo.com/mrss/\" \
         xmlns:content=\"http://purl.org/rss/1.0/modules/content/\">\
         <channel><title>T</title><link>https://example.org</link>\
         <description>D</description>{items}</channel></rss>"
    )
    .into_bytes()
}

fn item_with_date(date: Option<&str>, link: Option<&str>) -> RawFeedItem {
    RawFeedItem {
        title: None,
        author: None,
        link: link.map(String::from),
        pub_date: date.map(String::from),
        description: None,
        content: None,
        media: None,
    }
}

#[test]
fn parse_feed_reads_the_fields_of_an_item() {
    let items = parse_feed(&feed_bytes(
        "<item><title>First</title><link>https://example.org/a</link>\
         <author>ann@example.org</author>\
         <pubDate>Wed, 18 Feb 2015 23:16:09 +0200</pubDate>\
         <description>short</description>\
         <content:encoded>long body</content:encoded>\
         <media:content url=\"https://img.example.org/a.jpg\" medium=\"image\"/></item>",
    ))
    .unwrap();
    assert_eq!(items.len(), 1);
    let item = &items[0];
    assert_eq!(item.title.as_deref(), Some("First"));
    assert_eq!(item.link.as_deref(), Some("https://example.org/a"));
    assert_eq!(item.author.as_deref(), Some("ann@example.org"));
    assert_eq!(item.pub_date.as_deref(), Some("Wed, 18 Feb 2015 23:16:09 +0200"));
    assert_eq!(item.description.as_deref(), Some("short"));
    assert_eq!(item.content.as_deref(), Some("long body"));
    assert_eq!(item.media, Some(vec![Some("https://img.example.org/a.jpg".to_string())]));
}

#[test]
fn parse_feed_keeps_media_in_document_order() {
    let items = parse_feed(&feed_bytes(
        "<item><title>x</title>\
         <media:content url=\"https://one.example/1.jpg\"/>\
         <media:content medium=\"image\"/>\
         <media:content url=\"https://two.example/2.jpg\"/>\
         <media:thumbnail url=\"https://thumb.example/t.jpg\"/></item>",
    ))
    .unwrap();
    assert_eq!(
        items[0].media,
        Some(vec![
            Some("https://one.example/1.jpg".to_string()),
            None,
            Some("https://two.example/2.jpg".to_string()),
        ])
    );
}

#[test]
fn parse_feed_item_without_media_has_none() {
    let items = parse_feed(&feed_bytes("<item><title>x</title></item>")).unwrap();
    assert_eq!(items.len(), 1);
    assert_eq!(items[0].media, None);
    assert_eq!(items[0].link, None);
    assert_eq!(items[0].pub_date, None);
}

#[test]
fn parse_feed_keeps_feed_order() {
    let items = parse_feed(&feed_bytes(
        "<item><title>one</title></item><item><title>two</title></item>\
         <item><title>three</title></item>",
    ))
    .unwrap();
    let titles: Vec<Option<&str>> = items.iter().map(|i| i.title.as_deref()).collect();
    assert_eq!(titles, vec![Some("one"), Some("two"), Some("three")]);
}

#[test]
fn parse_feed_of_an_empty_channel_has_no_items() {
    assert_eq!(parse_feed(&feed_bytes("")).unwrap().len(), 0);
}

#[test]
fn parse_feed_rejects_what_is_no_feed() {
    assert!(parse_feed(b"<html><body>hello</body></html>").is_none());
    assert!(parse_feed(b"").is_none());
    assert!(parse_feed(b"plain text").is_none());
}

#[test]
fn publish_instant_is_converted_to_utc() {
    let item = item_with_date(Some("Wed, 18 Feb 2015 23:16:09 +0200"), None);
    assert_eq!(publish_instant(&item), Some(UtcInstant { secs: 1424294169, nanos: 0 }));
    let gmt = item_with_date(Some("Mon, 01 Jan 2024 00:00:00 GMT"), None);
    assert_eq!(publish_instant(&gmt), Some(UtcInstant { secs: 1704067200, nanos: 0 }));
}

#[test]
fn publish_instant_rejects_other_date_forms() {
    assert_eq!(publish_instant(&item_with_date(Some("2015-02-18T23:16:09Z"), None)), None);
    assert_eq!(publish_instant(&item_with_date(Some("yesterday"), None)), None);
    assert_eq!(publish_instant(&item_with_date(Some(""), None)), None);
    assert_eq!(publish_instant(&item_with_date(None, None)), None);
}

#[test]
fn eligible_needs_link_and_date() {
    let good = "Mon, 01 Jan 2024 00:00:00 GMT";
    assert!(is_eligible(&item_with_date(Some(good), Some("https://example.org/a"))));
    assert!(!is_eligible(&item_with_date(Some(good), None)));
    assert!(!is_eligible(&item_with_date(None, Some("https://example.org/a"))));
    assert!(!is_eligible(&item_with_date(Some("01/01/2024"), Some("https://example.org/a"))));
}

#[test]
fn eligibility_follows_the_given_date() {
    let at = Some(UtcInstant { secs: 0, nanos: 0 });
    let linked = item_with_date(Some("whatever stands here"), Some("https://example.org/a"));
    let unlinked = item_with_date(Some("Mon, 01 Jan 2024 00:00:00 GMT"), None);
    assert!(is_eligible_with(&linked, at));
    assert!(!is_eligible_with(&linked, None));
    assert!(!is_eligible_with(&unlinked, at));
    assert!(!is_eligible_with(&unlinked, None));
}
