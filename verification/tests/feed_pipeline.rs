use reddit_rss::feed::{
    canonicalize_url, check_feed_status, feed_filter, feed_links, feed_url, parse_feed,
    FeedFetchError,
};

fn feed_xml(entries: &str) -> String {
    format!(
        "<?xml version=\"1.0\" encoding=\"utf-8\"?><feed xmlns=\"http://www.w3.org/2005/Atom\"><title>scores</title><id>feed-1</id><updated>2024-01-01T00:00:00Z</updated>{}</feed>",
        entries
    )
}

fn entry_xml(id: &str, link: Option<&str>) -> String {
    let link = match link {
        Some(href) => format!("<link href=\"{}\"/>", href),
        None => String::new(),
    };
    format!(
        "<entry><title>{}</title><id>{}</id><updated>2024-01-01T00:00:00Z</updated>{}</entry>",
        id, id, link
    )
}

#[test]
fn canonicalize_strips_the_site_prefix() {
    assert_eq!(
        canonicalize_url("https://www.reddit.com/r/rust/comments/1/a_post/"),
        "r/rust/comments/1/a_post/"
    );
    assert_eq!(canonicalize_url("r/rust/comments/1/"), "r/rust/comments/1/");
    assert_eq!(canonicalize_url(""), "");
    // Every occurrence goes, not only a leading one.
    assert_eq!(
        canonicalize_url("https://www.reddit.com/https://www.reddit.com/x"),
        "x"
    );
}

#[test]
fn feed_url_shape() {
    assert_eq!(feed_url("r/rust"), "https://reddit.com/r/rust/.rss");
}

#[test]
fn feed_status_check() {
    assert_eq!(check_feed_status(200), Ok(()));
    assert_eq!(check_feed_status(399), Ok(()));
    assert_eq!(
        check_feed_status(404),
        Err(FeedFetchError::BadStatus { status: 404 })
    );
    assert_eq!(
        check_feed_status(500),
        Err(FeedFetchError::BadStatus { status: 500 })
    );
    assert_eq!(check_feed_status(600), Ok(()));
}

#[test]
fn unparsable_feed_is_rejected() {
    assert!(matches!(
        parse_feed("this is no feed"),
        Err(FeedFetchError::Unparsable)
    ));
}

#[test]
fn filter_keeps_scores_at_least_minimum_in_order() {
    // Entries scored [10, 55, 3] with a minimum of 10: exactly the first
    // two remain, in their original order.
    let xml = feed_xml(&format!(
        "{}{}{}",
        entry_xml("post-a", Some("https://www.reddit.com/r/rust/comments/a/")),
        entry_xml("post-b", Some("https://www.reddit.com/r/rust/comments/b/")),
        entry_xml("post-c", Some("https://www.reddit.com/r/rust/comments/c/")),
    ));
    let feed = parse_feed(&xml).unwrap();
    let links = feed_links(&feed);
    assert_eq!(links.len(), 3);
    assert_eq!(
        links[0].as_deref(),
        Some("https://www.reddit.com/r/rust/comments/a/")
    );

    let scores = vec![Some(10), Some(55), Some(3)];
    let filtered = feed_filter(feed, &scores, 10);
    let ids: Vec<&str> = filtered.entries.iter().map(|e| e.id.as_str()).collect();
    assert_eq!(ids, vec!["post-a", "post-b"]);
}

#[test]
fn entry_without_link_is_excluded_not_fatal() {
    // The middle entry has no link: it gets no score and is left out, and
    // the request still succeeds.
    let xml = feed_xml(&format!(
        "{}{}{}",
        entry_xml("post-a", Some("https://www.reddit.com/r/rust/comments/a/")),
        entry_xml("post-b", None),
        entry_xml("post-c", Some("https://www.reddit.com/r/rust/comments/c/")),
    ));
    let feed = parse_feed(&xml).unwrap();
    let links = feed_links(&feed);
    assert_eq!(links.len(), 3);
    assert!(links[1].is_none());

    let scores = vec![Some(100), None, Some(100)];
    let filtered = feed_filter(feed, &scores, 1);
    let ids: Vec<&str> = filtered.entries.iter().map(|e| e.id.as_str()).collect();
    assert_eq!(ids, vec!["post-a", "post-c"]);
}

#[test]
fn filtered_feed_serializes_back() {
    let xml = feed_xml(&entry_xml(
        "post-a",
        Some("https://www.reddit.com/r/rust/comments/a/"),
    ));
    let feed = parse_feed(&xml).unwrap();
    let filtered = feed_filter(feed, &vec![Some(5)], 1);
    let out = filtered.to_string();
    assert!(out.contains("post-a"));
    let reparsed = parse_feed(&out).unwrap();
    assert_eq!(reparsed.entries.len(), 1);
}
