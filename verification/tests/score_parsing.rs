use reddit_rss::comments::{
    classify_child, extract_score, parse_score_body, CommentChild, ResponseShapeError,
};
use reddit_rss::json::{parse_json_text, JsonNum, JsonVal};

#[test]
fn deserialize_test() {
    // A listing in the score endpoint's shape: the post thread first, the
    // comment thread second, extra fields everywhere, as the endpoint
    // sends them.
    let data = r#"[
        {"kind": "Listing", "data": {"after": null, "dist": 1, "children": [
            {"kind": "t3", "data": {"subreddit": "rust", "title": "a post", "score": 1234, "ups": 1300, "downs": 0}}
        ], "before": null}},
        {"kind": "Listing", "data": {"after": null, "dist": null, "children": [
            {"kind": "t1", "data": {"body": "a comment", "score": 77}}
        ], "before": null}}
    ]"#;
    assert_eq!(parse_score_body(data), Ok(1234));
}

#[test]
fn score_parsing_literal() {
    let body = r#"[{"data":{"children":[{"data":{"score":42}}]}}]"#;
    assert_eq!(parse_score_body(body), Ok(42));
}

#[test]
fn score_parsing_no_children() {
    let body = r#"[{"data":{"children":[]}}]"#;
    assert_eq!(parse_score_body(body), Err(ResponseShapeError::NoChildren));
}

#[test]
fn score_parsing_not_json() {
    assert_eq!(
        parse_score_body("not json at all"),
        Err(ResponseShapeError::NotJson)
    );
}

#[test]
fn score_parsing_not_a_list() {
    assert_eq!(
        parse_score_body(r#"{"data":{}}"#),
        Err(ResponseShapeError::NotCommentList)
    );
    assert_eq!(
        parse_score_body(r#"[{"data":{"children":[]}}, 5]"#),
        Err(ResponseShapeError::NotCommentList)
    );
}

#[test]
fn score_parsing_empty_threads() {
    assert_eq!(parse_score_body("[]"), Err(ResponseShapeError::EmptyThreads));
}

#[test]
fn score_parsing_first_child_is_a_string() {
    let body = r#"[{"data":{"children":["more"]}}]"#;
    assert_eq!(parse_score_body(body), Err(ResponseShapeError::ChildNotItem));
}

#[test]
fn score_parsing_first_child_is_a_nested_thread() {
    let body = r#"[{"data":{"children":[{"data":{"children":[]}}]}}]"#;
    assert_eq!(parse_score_body(body), Err(ResponseShapeError::ChildNotItem));
}

#[test]
fn score_parsing_first_child_unknown() {
    let body = r#"[{"data":{"children":[5]}}]"#;
    assert_eq!(parse_score_body(body), Err(ResponseShapeError::ChildUnknown));
}

#[test]
fn score_parsing_fractional_score_is_no_item() {
    // A score of 42.5 does not read as an unsigned integer, so the child
    // is of no recognized kind.
    let body = r#"[{"data":{"children":[{"data":{"score":42.5}}]}}]"#;
    assert_eq!(parse_score_body(body), Err(ResponseShapeError::ChildUnknown));
}

#[test]
fn classify_child_kinds() {
    let item = parse_json_text(r#"{"data":{"score":7}}"#).unwrap();
    assert_eq!(classify_child(&item), CommentChild::Item { score: 7 });

    let text = JsonVal::Str(String::from("more"));
    assert_eq!(classify_child(&text), CommentChild::Text);

    let nested = parse_json_text(r#"{"data":{"children":[]}}"#).unwrap();
    assert_eq!(classify_child(&nested), CommentChild::Thread);

    let unknown = JsonVal::Num(JsonNum {
        as_u64: Some(5),
        as_i64: Some(5),
    });
    assert_eq!(classify_child(&unknown), CommentChild::Unknown);
}

#[test]
fn extract_score_prefers_item_over_thread_shape() {
    // An object carrying both a score and children classifies as an item:
    // the kinds are tried in order.
    let doc =
        parse_json_text(r#"[{"data":{"children":[{"data":{"score":3,"children":[]}}]}}]"#).unwrap();
    assert_eq!(extract_score(&doc), Ok(3));
}
