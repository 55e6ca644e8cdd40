use reddit_rss::client::{
    attempt_outcome, build_score_request, classify_response, AttemptOutcome, FetchProgress,
    LimitHeader, RateLimitReadError, RateLimitSignal, ResponseInfo, ScoreFetchError, ScoreFetcher,
};
use reddit_rss::comments::ResponseShapeError;

fn plain_response(status: u16, body: &str) -> ResponseInfo {
    ResponseInfo {
        status,
        retry_after: None,
        ratelimit_used: None,
        ratelimit_remaining: None,
        ratelimit_reset: None,
        body: String::from(body),
    }
}

fn hard_limited(retry_after: &str) -> ResponseInfo {
    ResponseInfo {
        retry_after: Some(String::from(retry_after)),
        ..plain_response(429, "")
    }
}

const GOOD_BODY: &str = r#"[{"data":{"children":[{"data":{"score":42}}]}}]"#;

#[test]
fn classify_hard_stop() {
    assert_eq!(
        classify_response(&hard_limited("1")),
        Ok(RateLimitSignal::Hard { wait_ms: 1000 })
    );
    assert_eq!(
        classify_response(&plain_response(429, "")),
        Err(RateLimitReadError::MissingRetryAfter)
    );
    assert_eq!(
        classify_response(&hard_limited("soon")),
        Err(RateLimitReadError::Malformed(LimitHeader::RetryAfter))
    );
}

#[test]
fn classify_soft_warning() {
    let mut r = plain_response(200, GOOD_BODY);
    r.ratelimit_remaining = Some(String::from("1.0"));
    assert_eq!(
        classify_response(&r),
        Ok(RateLimitSignal::Soft { wait_ms: 1000 })
    );
    r.ratelimit_reset = Some(String::from("2"));
    assert_eq!(
        classify_response(&r),
        Ok(RateLimitSignal::Soft { wait_ms: 2000 })
    );
    r.ratelimit_remaining = Some(String::from("596.0"));
    assert_eq!(classify_response(&r), Ok(RateLimitSignal::Clear));
}

#[test]
fn classify_malformed_quota_headers() {
    let mut r = plain_response(200, GOOD_BODY);
    r.ratelimit_used = Some(String::from("x"));
    assert_eq!(
        classify_response(&r),
        Err(RateLimitReadError::Malformed(LimitHeader::Used))
    );
    let mut r = plain_response(200, GOOD_BODY);
    r.ratelimit_remaining = Some(String::from("x"));
    assert_eq!(
        classify_response(&r),
        Err(RateLimitReadError::Malformed(LimitHeader::Remaining))
    );
    let mut r = plain_response(200, GOOD_BODY);
    r.ratelimit_reset = Some(String::from("x"));
    assert_eq!(
        classify_response(&r),
        Err(RateLimitReadError::Malformed(LimitHeader::Reset))
    );
}

#[test]
fn attempt_reads_status_and_body() {
    assert_eq!(
        attempt_outcome(&plain_response(200, GOOD_BODY)),
        AttemptOutcome::Score { score: 42 }
    );
    assert_eq!(
        attempt_outcome(&plain_response(404, "")),
        AttemptOutcome::Aborted(ScoreFetchError::UpstreamStatus { status: 404 })
    );
    assert_eq!(
        attempt_outcome(&plain_response(200, "[]")),
        AttemptOutcome::Aborted(ScoreFetchError::ResponseShape(
            ResponseShapeError::EmptyThreads
        ))
    );
}

#[test]
fn rate_limit_retry_succeeds_on_third_call() {
    // A fake endpoint answering 429 twice, then the score: three calls,
    // two sleeps, the third resolves.
    let answers = [
        hard_limited("1"),
        hard_limited("1"),
        plain_response(200, GOOD_BODY),
    ];
    let mut fetcher = ScoreFetcher::new();
    let mut calls = 0;
    let mut resolved = None;
    for a in answers.iter() {
        calls += 1;
        match fetcher.on_response(a) {
            FetchProgress::Sleep { wait_ms } => assert_eq!(wait_ms, 1000),
            FetchProgress::Done { score } => {
                resolved = Some(score);
                break;
            }
            other => panic!("unexpected progress {:?}", other),
        }
    }
    assert_eq!(calls, 3);
    assert_eq!(resolved, Some(42));
}

#[test]
fn retries_exhaust_after_three_attempts() {
    // An endpoint that always rate-limits: the third response exhausts
    // the budget.
    let mut fetcher = ScoreFetcher::new();
    assert!(matches!(
        fetcher.on_response(&hard_limited("1")),
        FetchProgress::Sleep { wait_ms: 1000 }
    ));
    assert!(matches!(
        fetcher.on_response(&hard_limited("2")),
        FetchProgress::Sleep { wait_ms: 2000 }
    ));
    assert!(matches!(
        fetcher.on_response(&hard_limited("3")),
        FetchProgress::Exhausted { wait_ms: 3000 }
    ));
}

#[test]
fn abort_consumes_no_budget() {
    let mut fetcher = ScoreFetcher::new();
    assert!(matches!(
        fetcher.on_response(&plain_response(500, "")),
        FetchProgress::Failed(ScoreFetchError::UpstreamStatus { status: 500 })
    ));
    assert_eq!(fetcher.attempts_used, 0);
}

#[test]
fn score_request_shape() {
    let r = build_score_request("r/rust/comments/1234/a_post/", "tok");
    assert_eq!(r.url, "https://oauth.reddit.com/r/rust/comments/1234/a_post/");
    assert_eq!(r.query.len(), 2);
    assert_eq!(r.query[0], (String::from("limit"), String::from("1")));
    assert_eq!(r.query[1], (String::from("depth"), String::from("1")));
    assert_eq!(r.authorization, "Bearer tok");
}
