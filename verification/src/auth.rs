//! The bearer-token provider.
//!
//! One token is cached for the whole process. A caller asking for the
//! token either receives the cached one (while its fixed time-to-live
//! lasts), starts the single fetch (a password-grant request to the
//! identity endpoint), or awaits a fetch already in flight — never a
//! second concurrent fetch. The program around the library sends the
//! request and hands the response back; building the request from the
//! configured secrets and reading the token out of the response are
//! decided here.

use vstd::prelude::*;

use crate::json::{json_doc, member, parse_json_text, spec_member, JsonVal};

verus! {

/// The four configured secrets of the password grant.
pub struct Credentials {
    pub client_id: String,
    pub client_secret: String,
    pub username: String,
    pub password: String,
}

/// Which secret is missing from the configuration.
#[derive(Clone, Copy, Debug, PartialEq, Eq, Structural)]
pub enum SecretKey {
    ClientId,
    ClientSecret,
    Username,
    Password,
}

/// A configuration problem: a secret is absent. Fatal to the lookup that
/// needed the token.
#[derive(Clone, Copy, Debug, PartialEq, Eq, Structural)]
pub struct CredentialError {
    pub missing: SecretKey,
}

/// Assembles the credentials, naming the first missing secret in the
/// order they are looked up.
pub fn build_credentials(
    client_id: Option<String>,
    client_secret: Option<String>,
    username: Option<String>,
    password: Option<String>,
) -> (r: Result<Credentials, CredentialError>)
    ensures
        match r {
            Ok(c) => {
                &&& client_id == Some(c.client_id)
                &&& client_secret == Some(c.client_secret)
                &&& username == Some(c.username)
                &&& password == Some(c.password)
            },
            Err(e) => {
                &&& e.missing is ClientId <==> client_id is None
                &&& e.missing is ClientSecret <==> client_id is Some && client_secret is None
                &&& e.missing is Username <==> client_id is Some && client_secret is Some
                    && username is None
                &&& e.missing is Password <==> client_id is Some && client_secret is Some
                    && username is Some && password is None
            },
        },
        r is Err <==> client_id is None || client_secret is None || username is None || password
            is None,
{
    let client_id = match client_id {
        Some(v) => v,
        None => {
            return Err(CredentialError { missing: SecretKey::ClientId });
        },
    };
    let client_secret = match client_secret {
        Some(v) => v,
        None => {
            return Err(CredentialError { missing: SecretKey::ClientSecret });
        },
    };
    let username = match username {
        Some(v) => v,
        None => {
            return Err(CredentialError { missing: SecretKey::Username });
        },
    };
    let password = match password {
        Some(v) => v,
        None => {
            return Err(CredentialError { missing: SecretKey::Password });
        },
    };
    Ok(Credentials { client_id, client_secret, username, password })
}

/// The password-grant request: the identity endpoint, HTTP basic auth
/// with the client id and secret, and the form body.
pub struct AuthRequest {
    pub url: String,
    pub basic_user: String,
    pub basic_password: String,
    pub form: Vec<(String, String)>,
}

/// Builds the password-grant request for the configured credentials.
pub fn build_auth_request(creds: &Credentials) -> (r: AuthRequest)
    ensures
        r.url@ == "https://oauth.reddit.com/api/v1/access_token"@,
        r.basic_user@ == creds.client_id@,
        r.basic_password@ == creds.client_secret@,
        r.form@.len() == 3,
        r.form@[0].0@ == "grant_type"@ && r.form@[0].1@ == "password"@,
        r.form@[1].0@ == "username"@ && r.form@[1].1@ == creds.username@,
        r.form@[2].0@ == "password"@ && r.form@[2].1@ == creds.password@,
{
    let mut form: Vec<(String, String)> = Vec::new();
    form.push(("grant_type".to_owned(), "password".to_owned()));
    form.push(("username".to_owned(), creds.username.clone()));
    form.push(("password".to_owned(), creds.password.clone()));
    AuthRequest {
        url: "https://oauth.reddit.com/api/v1/access_token".to_owned(),
        basic_user: creds.client_id.clone(),
        basic_password: creds.client_secret.clone(),
        form,
    }
}

/// Why no token came back from the identity endpoint. Fatal to the
/// lookup; never retried here.
#[derive(Clone, Copy, Debug, PartialEq, Eq, Structural)]
pub enum AuthRequestError {
    /// The identity endpoint answered with a non-success status.
    BadStatus { status: u16 },
    /// The body is not the expected JSON object.
    BadBody,
}

/// What a well-formed identity response denotes: the views of
/// `access_token`, `scope` and `token_type`, and `expires_in` as a signed
/// count — exactly the four fields, each of its type.
pub open spec fn spec_auth_token(s: Seq<char>) -> Option<(Seq<char>, i64, Seq<char>, Seq<char>)> {
    match json_doc(s) {
        Some(JsonVal::Obj(ms)) => match spec_member(ms@, "access_token"@) {
            Some(JsonVal::Str(tok)) => match spec_member(ms@, "expires_in"@) {
                Some(JsonVal::Num(n)) => match n.as_i64 {
                    Some(expires_in) => match spec_member(ms@, "scope"@) {
                        Some(JsonVal::Str(scope)) => match spec_member(ms@, "token_type"@) {
                            Some(JsonVal::Str(token_type)) => Some(
                                (tok@, expires_in, scope@, token_type@),
                            ),
                            _ => None,
                        },
                        _ => None,
                    },
                    _ => None,
                },
                _ => None,
            },
            _ => None,
        },
        _ => None,
    }
}

/// The fields of a successful identity response.
pub struct AuthToken {
    pub access_token: String,
    pub expires_in: i64,
    pub scope: String,
    pub token_type: String,
}

/// Reads the identity endpoint's answer: a success status and a body
/// holding the four grant fields yield the token; anything else is the
/// error that names what was wrong.
pub fn parse_auth_response(status: u16, body: &str) -> (r: Result<AuthToken, AuthRequestError>)
    ensures
        !(200 <= status < 300) ==> r == Err::<AuthToken, AuthRequestError>(
            AuthRequestError::BadStatus { status },
        ),
        200 <= status < 300 ==> match spec_auth_token(body@) {
            Some((tok, expires_in, scope, token_type)) => {
                &&& r is Ok
                &&& r matches Ok(t) && t.access_token@ == tok && t.expires_in == expires_in
                    && t.scope@ == scope && t.token_type@ == token_type
            },
            None => r == Err::<AuthToken, AuthRequestError>(AuthRequestError::BadBody),
        },
{
    if status < 200 || status >= 300 {
        return Err(AuthRequestError::BadStatus { status });
    }
    let doc = match parse_json_text(body) {
        Some(doc) => doc,
        None => {
            return Err(AuthRequestError::BadBody);
        },
    };
    let ms = match &doc {
        JsonVal::Obj(ms) => ms,
        _ => {
            return Err(AuthRequestError::BadBody);
        },
    };
    let access_token = match member(ms, &"access_token".to_owned()) {
        Some(JsonVal::Str(tok)) => tok.clone(),
        _ => {
            return Err(AuthRequestError::BadBody);
        },
    };
    let expires_in = match member(ms, &"expires_in".to_owned()) {
        Some(JsonVal::Num(n)) => match n.as_i64 {
            Some(e) => e,
            None => {
                return Err(AuthRequestError::BadBody);
            },
        },
        _ => {
            return Err(AuthRequestError::BadBody);
        },
    };
    let scope = match member(ms, &"scope".to_owned()) {
        Some(JsonVal::Str(sc)) => sc.clone(),
        _ => {
            return Err(AuthRequestError::BadBody);
        },
    };
    let token_type = match member(ms, &"token_type".to_owned()) {
        Some(JsonVal::Str(tt)) => tt.clone(),
        _ => {
            return Err(AuthRequestError::BadBody);
        },
    };
    Ok(AuthToken { access_token, expires_in, scope, token_type })
}

/// How long a fetched token is served from the cache: four hours.
pub const TOKEN_TTL_MS: u64 = 14400000;

/// A cached token and the instant it was stored.
pub struct CachedToken {
    pub token: String,
    pub stored_at_ms: u64,
}

/// What a call for the token is to do.
#[derive(Clone, Copy, Debug, PartialEq, Eq, Structural)]
pub enum TokenDecision {
    /// Serve the cached token.
    UseCached,
    /// No usable token and no fetch under way: this caller performs the
    /// one fetch.
    StartFetch,
    /// A fetch is under way: await its result.
    AwaitInFlight,
}

/// What a call for the token receives: the cached text, or the decision
/// it is to carry out.
#[derive(Debug, PartialEq, Eq)]
pub enum TokenQuery {
    /// The cached token, still fresh.
    Cached(String),
    /// No usable token and no fetch under way: this caller performs the
    /// one fetch.
    StartFetch,
    /// A fetch is under way: await its result.
    AwaitInFlight,
}

/// The provider of the single shared token: one cached slot and the
/// single-flight flag.
pub struct RedditAuth {
    pub cached: Option<CachedToken>,
    pub fetch_in_flight: bool,
}

impl RedditAuth {
    /// The cached token is usable at `now_ms`: stored no later, and its
    /// time-to-live not yet over.
    pub open spec fn token_fresh(self, now_ms: u64) -> bool {
        match self.cached {
            Some(c) => c.stored_at_ms <= now_ms && now_ms - c.stored_at_ms < TOKEN_TTL_MS,
            None => false,
        }
    }

    /// The cached token's text.
    pub open spec fn spec_token(self) -> Seq<char> {
        match self.cached {
            Some(c) => c.token@,
            None => Seq::empty(),
        }
    }

    /// The decision a call at `now_ms` reaches, and the state it leaves.
    pub open spec fn spec_decide(self, now_ms: u64) -> (RedditAuth, TokenDecision) {
        if self.token_fresh(now_ms) {
            (self, TokenDecision::UseCached)
        } else if self.fetch_in_flight {
            (self, TokenDecision::AwaitInFlight)
        } else {
            (RedditAuth { cached: self.cached, fetch_in_flight: true }, TokenDecision::StartFetch)
        }
    }

    /// The state after a fetched token is stored at `now_ms`.
    pub open spec fn spec_store(self, token: String, now_ms: u64) -> RedditAuth {
        RedditAuth {
            cached: Some(CachedToken { token, stored_at_ms: now_ms }),
            fetch_in_flight: false,
        }
    }

    /// A fresh provider: nothing cached, no fetch in flight.
    pub fn new() -> (a: RedditAuth)
        ensures
            a.cached is None,
            !a.fetch_in_flight,
    {
        RedditAuth { cached: None, fetch_in_flight: false }
    }

    /// Asks for the token at `now_ms`: the cached text while it is fresh,
    /// else the instruction to start the one fetch or to await the one in
    /// flight.
    pub fn get_token(&mut self, now_ms: u64) -> (r: TokenQuery)
        ensures
            *final(self) == old(self).spec_decide(now_ms).0,
            match r {
                TokenQuery::Cached(tok) => old(self).spec_decide(now_ms).1 is UseCached && tok@
                    == old(self).spec_token(),
                TokenQuery::StartFetch => old(self).spec_decide(now_ms).1 is StartFetch,
                TokenQuery::AwaitInFlight => old(self).spec_decide(now_ms).1 is AwaitInFlight,
            },
    {
        match &self.cached {
            Some(c) => {
                if c.stored_at_ms <= now_ms && now_ms - c.stored_at_ms < TOKEN_TTL_MS {
                    return TokenQuery::Cached(c.token.clone());
                }
            },
            None => {},
        }
        if self.fetch_in_flight {
            TokenQuery::AwaitInFlight
        } else {
            self.fetch_in_flight = true;
            TokenQuery::StartFetch
        }
    }

    /// Stores the token the one fetch returned, stamped `now_ms`, and
    /// releases the single-flight hold.
    pub fn store_token(&mut self, token: String, now_ms: u64)
        ensures
            *final(self) == old(self).spec_store(token, now_ms),
    {
        self.cached = Some(CachedToken { token, stored_at_ms: now_ms });
        self.fetch_in_flight = false;
    }

    /// Releases the single-flight hold after a failed fetch; nothing is
    /// cached, so the next call fetches anew.
    pub fn fetch_failed(&mut self)
        ensures
            final(self).cached == old(self).cached,
            !final(self).fetch_in_flight,
    {
        self.fetch_in_flight = false;
    }
}

/// Law (token reuse): once a fetched token is stored, any two sequential
/// calls within its time-to-live serve that very token from the cache and
/// leave the provider unchanged — no further identity-endpoint call
/// starts.
pub proof fn lemma_token_reuse(a: RedditAuth, token: String, t: u64, now1: u64, now2: u64)
    requires
        t <= now1 <= now2,
        now2 - t < TOKEN_TTL_MS,
    ensures
        ({
            let stored = a.spec_store(token, t);
            let (s1, d1) = stored.spec_decide(now1);
            let (s2, d2) = s1.spec_decide(now2);
            &&& d1 == TokenDecision::UseCached
            &&& d2 == TokenDecision::UseCached
            &&& s1 == stored
            &&& s2 == stored
            &&& s1.spec_token() == token@
            &&& s2.spec_token() == token@
        }),
{
}

/// Law (token refresh): once the time-to-live of the stored token has
/// elapsed, the next call starts exactly one new identity-endpoint call —
/// it fetches, and every further call while that fetch is in flight and
/// the token is stale awaits it instead of starting another.
pub proof fn lemma_token_refresh(a: RedditAuth, token: String, t: u64, now: u64)
    requires
        now - t >= TOKEN_TTL_MS,
        t <= now,
    ensures
        ({
            let stored = a.spec_store(token, t);
            let (s1, d1) = stored.spec_decide(now);
            &&& d1 == TokenDecision::StartFetch
            &&& s1.fetch_in_flight
            &&& forall|later: u64|
                !s1.token_fresh(later) ==> (#[trigger] s1.spec_decide(later)).1
                    == TokenDecision::AwaitInFlight
        }),
{
}

} // verus!
