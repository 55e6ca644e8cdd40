use reddit_rss::auth::{
    build_auth_request, build_credentials, parse_auth_response, AuthRequestError, Credentials,
    RedditAuth, SecretKey, TokenQuery, TOKEN_TTL_MS,
};

fn full_credentials() -> Credentials {
    build_credentials(
        Some(String::from("id")),
        Some(String::from("SECRET-REDACTED")),
        Some(String::from("user")),
        Some(String::from("pass")),
    )
    .unwrap()
}

#[test]
fn credentials_complete() {
    let c = full_credentials();
    assert_eq!(c.client_id, "id");
    assert_eq!(c.client_secret, "SECRET-REDACTED");
    assert_eq!(c.username, "user");
    assert_eq!(c.password, "pass");
}

#[test]
fn credentials_name_the_missing_secret() {
    let r = build_credentials(
        None,
        Some(String::from("s")),
        Some(String::from("u")),
        Some(String::from("p")),
    );
    assert!(matches!(r, Err(e) if e.missing == SecretKey::ClientId));
    let r = build_credentials(Some(String::from("i")), None, Some(String::from("u")), None);
    assert!(matches!(r, Err(e) if e.missing == SecretKey::ClientSecret));
    let r = build_credentials(
        Some(String::from("i")),
        Some(String::from("s")),
        None,
        Some(String::from("p")),
    );
    assert!(matches!(r, Err(e) if e.missing == SecretKey::Username));
    let r = build_credentials(
        Some(String::from("i")),
        Some(String::from("s")),
        Some(String::from("u")),
        None,
    );
    assert!(matches!(r, Err(e) if e.missing == SecretKey::Password));
}

#[test]
fn auth_request_shape() {
    let r = build_auth_request(&full_credentials());
    assert_eq!(r.url, "https://oauth.reddit.com/api/v1/access_token");
    assert_eq!(r.basic_user, "id");
    assert_eq!(r.basic_password, "SECRET-REDACTED");
    assert_eq!(r.form.len(), 3);
    assert_eq!(r.form[0], (String::from("grant_type"), String::from("password")));
    assert_eq!(r.form[1], (String::from("username"), String::from("user")));
    assert_eq!(r.form[2], (String::from("password"), String::from("pass")));
}

#[test]
fn auth_response_success() {
    let body = r#"{"access_token":"tok-1","expires_in":86400,"scope":"*","token_type":"bearer"}"#;
    let t = parse_auth_response(200, body).unwrap();
    assert_eq!(t.access_token, "tok-1");
    assert_eq!(t.expires_in, 86400);
    assert_eq!(t.scope, "*");
    assert_eq!(t.token_type, "bearer");
}

#[test]
fn auth_response_bad_status() {
    let body = r#"{"access_token":"tok-1","expires_in":86400,"scope":"*","token_type":"bearer"}"#;
    assert_eq!(
        parse_auth_response(401, body).map(|t| t.access_token),
        Err(AuthRequestError::BadStatus { status: 401 })
    );
}

#[test]
fn auth_response_bad_bodies() {
    let missing = r#"{"access_token":"tok-1","scope":"*","token_type":"bearer"}"#;
    assert_eq!(
        parse_auth_response(200, missing).map(|t| t.access_token),
        Err(AuthRequestError::BadBody)
    );
    let wrong_type = r#"{"access_token":5,"expires_in":1,"scope":"*","token_type":"bearer"}"#;
    assert_eq!(
        parse_auth_response(200, wrong_type).map(|t| t.access_token),
        Err(AuthRequestError::BadBody)
    );
    let fractional = r#"{"access_token":"t","expires_in":1.5,"scope":"*","token_type":"b"}"#;
    assert_eq!(
        parse_auth_response(200, fractional).map(|t| t.access_token),
        Err(AuthRequestError::BadBody)
    );
    assert_eq!(
        parse_auth_response(200, "[]").map(|t| t.access_token),
        Err(AuthRequestError::BadBody)
    );
    assert_eq!(
        parse_auth_response(200, "{").map(|t| t.access_token),
        Err(AuthRequestError::BadBody)
    );
}

#[test]
fn token_reuse_within_ttl() {
    // Two sequential asks within the time-to-live: one fetch, the same
    // token twice.
    let mut auth = RedditAuth::new();
    let mut fetches = 0;
    let r = auth.get_token(1000);
    assert_eq!(r, TokenQuery::StartFetch);
    fetches += 1;
    auth.store_token(String::from("tok-a"), 1000);

    let r1 = auth.get_token(2000);
    let r2 = auth.get_token(1000 + TOKEN_TTL_MS - 1);
    assert_eq!(r1, TokenQuery::Cached(String::from("tok-a")));
    assert_eq!(r2, TokenQuery::Cached(String::from("tok-a")));
    assert_eq!(fetches, 1);
}

#[test]
fn token_refresh_after_ttl() {
    // Once the time-to-live has elapsed, the next ask starts exactly one
    // new fetch; a concurrent ask awaits it.
    let mut auth = RedditAuth::new();
    assert_eq!(auth.get_token(0), TokenQuery::StartFetch);
    auth.store_token(String::from("tok-a"), 0);

    assert_eq!(auth.get_token(TOKEN_TTL_MS), TokenQuery::StartFetch);
    assert_eq!(auth.get_token(TOKEN_TTL_MS), TokenQuery::AwaitInFlight);
    auth.store_token(String::from("tok-b"), TOKEN_TTL_MS);
    assert_eq!(
        auth.get_token(TOKEN_TTL_MS + 1),
        TokenQuery::Cached(String::from("tok-b"))
    );
}

#[test]
fn failed_fetch_releases_the_flight() {
    let mut auth = RedditAuth::new();
    assert_eq!(auth.get_token(0), TokenQuery::StartFetch);
    auth.fetch_failed();
    assert_eq!(auth.get_token(1), TokenQuery::StartFetch);
}
