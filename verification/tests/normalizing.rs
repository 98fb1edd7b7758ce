use feed_ingest::article::{assemble, normalize, normalize_at, NO_TITLE, UNKNOWN_AUTHOR};
use feed_ingest::catalog::FeedSource;
use feed_ingest::feed::{RawFeedItem, UtcInstant};

const DATE: &str = "Wed, 18 Feb 2015 23:16:09 +0200";

fn example_source() -> FeedSource {
    FeedSource {
        feed_url: "https://example.org/rss".to_string(),
        category: "TECH".to_string(),
        publisher_name: "Example".to_string(),
    }
}

fn full_item() -> RawFeedItem {
    RawFeedItem {
        title: Some("A title".to_string()),
        author: Some("ann@example.org".to_string()),
        link: Some("https://example.org/a".to_string()),
        pub_date: Some(DATE.to_string()),
        description: Some("click <a href=\"test\">here</a>".to_string()),
        content: Some("strong <strong>text</strong>".to_string()),
        media: None,
    }
}

fn created() -> UtcInstant {
    UtcInstant { secs: 1_700_000_000, nanos: 5 }
}

#[test]
fn normalize_at_fills_every_field() {
    let a = normalize_at(&full_item(), &example_source(), "https://img.example.org/a.jpg", created())
        .unwrap();
    assert_eq!(a.title, "A title");
    assert_eq!(a.authors, "ann@example.org");
    assert_eq!(a.publisher, "Example");
    assert_eq!(a.description, "click here (test)");
    assert_eq!(a.content, "strong text");
    assert_eq!(a.original_url, "https://example.org/a");
    assert_eq!(a.tag, "TECH");
    assert_eq!(a.image_url, "https://img.example.org/a.jpg");
    assert_eq!(a.published_at, UtcInstant { secs: 1424294169, nanos: 0 });
    assert_eq!(a.created_at, created());
}

#[test]
fn missing_title_and_author_get_defaults() {
    let mut item = full_item();
    item.title = None;
    item.author = None;
    let a = normalize_at(&item, &example_source(), "https://img.example.org/a.jpg", created()).unwrap();
    assert_eq!(a.title, "No title");
    assert_eq!(a.title, NO_TITLE);
    assert_eq!(a.authors, "Unknown");
    assert_eq!(a.authors, UNKNOWN_AUTHOR);
}

#[test]
fn missing_body_reuses_the_plain_description() {
    let mut item = full_item();
    item.content = None;
    let a = normalize_at(&item, &example_source(), "https://img.example.org/a.jpg", created()).unwrap();
    assert_eq!(a.description, "click here (test)");
    assert_eq!(a.content, "click here (test)");
}

#[test]
fn empty_body_reuses_the_plain_description() {
    let mut item = full_item();
    item.content = Some(String::new());
    let a = normalize_at(&item, &example_source(), "https://img.example.org/a.jpg", created()).unwrap();
    assert_eq!(a.content, "click here (test)");
}

#[test]
fn missing_description_is_empty_text() {
    let mut item = full_item();
    item.description = None;
    item.content = None;
    let a = normalize_at(&item, &example_source(), "https://img.example.org/a.jpg", created()).unwrap();
    assert_eq!(a.description, "");
    assert_eq!(a.content, "");
}

#[test]
fn no_article_without_link_date_or_image() {
    let mut no_link = full_item();
    no_link.link = None;
    assert!(normalize_at(&no_link, &example_source(), "https://img.example.org/a.jpg", created())
        .is_none());
    let mut no_date = full_item();
    no_date.pub_date = None;
    assert!(normalize_at(&no_date, &example_source(), "https://img.example.org/a.jpg", created())
        .is_none());
    let mut bad_date = full_item();
    bad_date.pub_date = Some("2015-02-18".to_string());
    assert!(normalize_at(&bad_date, &example_source(), "https://img.example.org/a.jpg", created())
        .is_none());
    assert!(normalize_at(&full_item(), &example_source(), "", created()).is_none());
}

#[test]
fn normalize_stamps_the_present_time() {
    let a = normalize(&full_item(), &example_source(), "https://img.example.org/a.jpg").unwrap();
    assert!(a.created_at.secs > 1_700_000_000);
    assert_eq!(a.published_at, UtcInstant { secs: 1424294169, nanos: 0 });
    assert_eq!(a.description, "click here (test)");
}

#[test]
fn assemble_takes_converted_values_as_they_are() {
    let published = UtcInstant { secs: 10, nanos: 1 };
    let a = assemble(
        &full_item(),
        &example_source(),
        "https://img.example.org/a.jpg",
        "<b>kept</b>".to_string(),
        "body".to_string(),
        published,
        created(),
    )
    .unwrap();
    assert_eq!(a.description, "<b>kept</b>");
    assert_eq!(a.content, "body");
    assert_eq!(a.published_at, published);
    assert_eq!(a.created_at, created());
    assert_eq!(a.tag, "TECH");
}

#[test]
fn assemble_needs_link_and_image() {
    let mut no_link = full_item();
    no_link.link = None;
    let at = UtcInstant { secs: 0, nanos: 0 };
    assert!(assemble(&no_link, &example_source(), "https://i/", String::new(), String::new(), at, at)
        .is_none());
    assert!(assemble(&full_item(), &example_source(), "", String::new(), String::new(), at, at).is_none());
}
