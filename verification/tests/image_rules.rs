use feed_ingest::feed::RawFeedItem;
use feed_ingest::urls::UrlParts;
use feed_ingest::image::{
    may_probe, parts_admissible, probe_accepts, probe_plan, validate_image, ProbeOutcome,
    MAX_CANDIDATES_PER_ITEM, PROBE_TIMEOUT_MS,
};

fn item_with_media(media: Option<Vec<Option<&str>>>) -> RawFeedItem {
    RawFeedItem {
        title: None,
        author: None,
        link: None,
        pub_date: None,
        description: None,
        content: None,
        media: media.map(|m| m.into_iter().map(|u| u.map(String::from)).collect()),
    }
}

fn answered(success: bool, content_type: Option<&str>) -> ProbeOutcome {
    ProbeOutcome::Answered { success, content_type: content_type.map(String::from) }
}

#[test]
fn limits_are_as_stated() {
    assert_eq!(MAX_CANDIDATES_PER_ITEM, 2);
    assert_eq!(PROBE_TIMEOUT_MS, 800);
}

#[test]
fn web_urls_may_be_probed() {
    assert!(may_probe("https://img.example.org/a.jpg"));
    assert!(may_probe("http://img.example.org/a.jpg"));
    assert!(may_probe("HTTPS://IMG.EXAMPLE.ORG/a.jpg"));
}

#[test]
fn other_schemes_may_not_be_probed() {
    assert!(!may_probe("ftp://img.example.org/a.jpg"));
    assert!(!may_probe("data:image/png;base64,AAAA"));
    assert!(!may_probe("file:///etc/passwd"));
}

#[test]
fn what_is_no_absolute_url_may_not_be_probed() {
    assert!(!may_probe("/relative/a.jpg"));
    assert!(!may_probe("img.example.org/a.jpg"));
    assert!(!may_probe("not a url"));
    assert!(!may_probe(""));
}

#[test]
fn urls_with_a_banned_host_may_not_be_probed() {
    assert!(!may_probe("https://bbc.pdn.tritondigital.com/a.jpg"));
    assert!(!may_probe("https://open.live.bbc.co.uk/a.jpg"));
}

#[test]
fn banned_name_outside_the_host_does_not_forbid_the_probe() {
    assert!(may_probe("https://proxy.example/?u=open.live.bbc.co.uk"));
    assert!(may_probe("https://example.com/a.jpg?ref=open.live.bbc.co.uk"));
    assert!(may_probe("https://example.com/bbc.pdn.tritondigital.com/a.jpg"));
}

#[test]
fn parts_admissible_reads_the_given_parts() {
    let parts = |scheme: &str, host: Option<&str>| {
        Some(UrlParts { scheme: scheme.to_string(), host: host.map(String::from) })
    };
    assert!(parts_admissible("x", &parts("https", Some("example.com"))));
    assert!(parts_admissible("x", &parts("http", Some("example.com"))));
    assert!(parts_admissible("x", &parts("http", None)));
    assert!(!parts_admissible("x", &parts("ftp", Some("example.com"))));
    assert!(!parts_admissible("x", &parts("HTTPS", Some("example.com"))));
    assert!(!parts_admissible("x", &parts("https", Some("open.live.bbc.co.uk"))));
    assert!(!parts_admissible("x", &parts("https", Some("bbc.pdn.tritondigital.com"))));
    assert!(!parts_admissible("x", &None));
    assert!(!parts_admissible("", &parts("https", Some("example.com"))));
}

#[test]
fn banned_host_is_found_however_it_is_written() {
    assert!(!may_probe("https://BBC.PDN.TRITONDIGITAL.COM/a.jpg"));
    assert!(!may_probe("https://Open.Live.BBC.co.uk/a.jpg"));
}

#[test]
fn probe_accepts_a_successful_image_answer() {
    assert!(probe_accepts(&answered(true, Some("image/jpeg"))));
    assert!(probe_accepts(&answered(true, Some("image/png; charset=binary"))));
    assert!(probe_accepts(&answered(true, Some("image/"))));
}

#[test]
fn probe_rejects_everything_else() {
    assert!(!probe_accepts(&answered(false, Some("image/jpeg"))));
    assert!(!probe_accepts(&answered(true, Some("text/html"))));
    assert!(!probe_accepts(&answered(true, Some("Image/jpeg"))));
    assert!(!probe_accepts(&answered(true, Some(" image/jpeg"))));
    assert!(!probe_accepts(&answered(true, None)));
    assert!(!probe_accepts(&answered(false, None)));
    assert!(!probe_accepts(&ProbeOutcome::TimedOut));
    assert!(!probe_accepts(&ProbeOutcome::Failed));
}

#[test]
fn plan_of_an_item_without_media_is_empty() {
    assert_eq!(probe_plan(&item_with_media(None)), Vec::<String>::new());
    assert_eq!(probe_plan(&item_with_media(Some(vec![]))), Vec::<String>::new());
    assert_eq!(probe_plan(&item_with_media(Some(vec![None, None]))), Vec::<String>::new());
}

#[test]
fn plan_holds_at_most_two_candidates() {
    let item = item_with_media(Some(vec![
        Some("https://a.example/1.jpg"),
        Some("https://b.example/2.jpg"),
        Some("https://c.example/3.jpg"),
    ]));
    assert_eq!(probe_plan(&item), vec!["https://a.example/1.jpg", "https://b.example/2.jpg"]);
}

#[test]
fn media_elements_without_url_do_not_count() {
    let item = item_with_media(Some(vec![
        None,
        Some("https://a.example/1.jpg"),
        None,
        Some("https://b.example/2.jpg"),
        Some("https://c.example/3.jpg"),
    ]));
    assert_eq!(probe_plan(&item), vec!["https://a.example/1.jpg", "https://b.example/2.jpg"]);
}

#[test]
fn banned_candidates_count_toward_the_two() {
    let both_banned = item_with_media(Some(vec![
        Some("https://bbc.pdn.tritondigital.com/x.mp3"),
        Some("https://open.live.bbc.co.uk/y"),
        Some("https://good.example/3.png"),
    ]));
    assert_eq!(probe_plan(&both_banned), Vec::<String>::new());
    let one_banned = item_with_media(Some(vec![
        Some("https://bbc.pdn.tritondigital.com/x.mp3"),
        Some("https://a.example/1.jpg"),
        Some("https://b.example/2.jpg"),
    ]));
    assert_eq!(probe_plan(&one_banned), vec!["https://a.example/1.jpg"]);
}

#[test]
fn banned_name_in_the_query_leaves_a_candidate_in_the_plan() {
    let item = item_with_media(Some(vec![Some("https://example.com/a.jpg?ref=open.live.bbc.co.uk")]));
    assert_eq!(probe_plan(&item), vec!["https://example.com/a.jpg?ref=open.live.bbc.co.uk"]);
}

#[test]
fn candidates_that_fail_the_url_rules_count_but_are_not_probed() {
    let item = item_with_media(Some(vec![
        Some("ftp://a.example/1.jpg"),
        Some("https://b.example/2.jpg"),
        Some("https://c.example/3.jpg"),
    ]));
    assert_eq!(probe_plan(&item), vec!["https://b.example/2.jpg"]);
    let none = item_with_media(Some(vec![
        Some("/relative.jpg"),
        Some(""),
        Some("https://c.example/3.jpg"),
    ]));
    assert_eq!(probe_plan(&none), Vec::<String>::new());
}

#[test]
fn only_banned_candidates_give_an_empty_plan() {
    let item = item_with_media(Some(vec![Some("https://bbc.pdn.tritondigital.com/a.jpg")]));
    assert_eq!(probe_plan(&item), Vec::<String>::new());
}

#[test]
fn validate_image_needs_an_admissible_url_and_an_image_answer() {
    let image = answered(true, Some("image/webp"));
    assert!(validate_image("https://img.example.org/a.webp", &image));
    assert!(!validate_image("https://img.example.org/a.webp", &answered(true, Some("text/html"))));
    assert!(!validate_image("https://img.example.org/a.webp", &ProbeOutcome::TimedOut));
    assert!(!validate_image("https://open.live.bbc.co.uk/a.webp", &image));
    assert!(validate_image("https://example.com/a.webp?ref=open.live.bbc.co.uk", &image));
    assert!(!validate_image("ftp://img.example.org/a.webp", &image));
    assert!(!validate_image("", &image));
}
