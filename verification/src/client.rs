//! The score client's decisions.
//!
//! A score lookup issues a GET for the post's path with a bearer token,
//! then reads the response for a rate-limit signal: a hard stop (status
//! 429 with a required `Retry-After`) or a soft warning (remaining quota
//! at most one second's worth). Either signal closes the shared valve and
//! costs one of three attempts; any other response is final — an error
//! status or a malformed body fails at once, a well-shaped body yields
//! the score. The program around the library sends the requests and
//! sleeps; every decision about a response is made here.

use vstd::prelude::*;

use crate::comments::{spec_parse_score_body, parse_score_body, ResponseShapeError};
use crate::headers::{clamped_decimal_ms, decimal_shape, parse_decimal_ms};

verus! {

/// What a response tells the client, as plain values: the status code and
/// the four rate-limit headers, each as its text when present, and the
/// body text.
pub struct ResponseInfo {
    pub status: u16,
    pub retry_after: Option<String>,
    pub ratelimit_used: Option<String>,
    pub ratelimit_remaining: Option<String>,
    pub ratelimit_reset: Option<String>,
    pub body: String,
}

/// The rate-limit headers, named for error reports.
#[derive(Clone, Copy, Debug, PartialEq, Eq, Structural)]
pub enum LimitHeader {
    RetryAfter,
    Used,
    Remaining,
    Reset,
}

/// Why a response's rate-limit signaling could not be read.
#[derive(Clone, Copy, Debug, PartialEq, Eq, Structural)]
pub enum RateLimitReadError {
    /// Status 429 came without a `Retry-After` header.
    MissingRetryAfter,
    /// A rate-limit header is present but not a decimal number.
    Malformed(LimitHeader),
}

/// The rate-limit signal a response carries.
#[derive(Clone, Copy, Debug, PartialEq, Eq, Structural)]
pub enum RateLimitSignal {
    /// Hard stop: wait the required time, then retry.
    Hard { wait_ms: u64 },
    /// Soft warning: the remaining quota is at most one second's worth;
    /// wait the suggested reset time, by default one second.
    Soft { wait_ms: u64 },
    /// No signal.
    Clear,
}

/// Why a score lookup failed. Rate limiting is not among these until the
/// attempt budget is spent: it is a scheduling signal, not an error.
#[derive(Clone, Copy, Debug, PartialEq, Eq, Structural)]
pub enum ScoreFetchError {
    /// The response's rate-limit signaling could not be read.
    RateLimitHeader(RateLimitReadError),
    /// A normal response carried an error status.
    UpstreamStatus { status: u16 },
    /// A success response carried a body of the wrong shape.
    ResponseShape(ResponseShapeError),
    /// Three attempts in a row were rate-limited.
    RetriesExhausted,
}

/// Reads a header's milliseconds value in a spec: meaningful only for
/// texts of decimal shape.
pub open spec fn spec_header_ms(h: Option<String>) -> Option<u64> {
    match h {
        None => None,
        Some(s) => Some(clamped_decimal_ms(s@)),
    }
}

/// Whether a present header fails to parse.
pub open spec fn spec_header_bad(h: Option<String>) -> bool {
    match h {
        None => false,
        Some(s) => !decimal_shape(s@),
    }
}

/// The rate-limit signal of a response: status 429 demands `Retry-After`
/// and stops hard; otherwise the three quota headers are read, and a
/// remaining quota of at most one second warns softly, waiting the reset
/// time or one second. A present but unreadable header is an error.
pub open spec fn spec_classify(r: ResponseInfo) -> Result<RateLimitSignal, RateLimitReadError> {
    if r.status == 429 {
        match r.retry_after {
            None => Err(RateLimitReadError::MissingRetryAfter),
            Some(s) => if decimal_shape(s@) {
                Ok(RateLimitSignal::Hard { wait_ms: clamped_decimal_ms(s@) })
            } else {
                Err(RateLimitReadError::Malformed(LimitHeader::RetryAfter))
            },
        }
    } else if spec_header_bad(r.ratelimit_used) {
        Err(RateLimitReadError::Malformed(LimitHeader::Used))
    } else if spec_header_bad(r.ratelimit_remaining) {
        Err(RateLimitReadError::Malformed(LimitHeader::Remaining))
    } else if spec_header_bad(r.ratelimit_reset) {
        Err(RateLimitReadError::Malformed(LimitHeader::Reset))
    } else {
        match spec_header_ms(r.ratelimit_remaining) {
            Some(remaining_ms) => if remaining_ms <= 1000 {
                Ok(
                    RateLimitSignal::Soft {
                        wait_ms: match spec_header_ms(r.ratelimit_reset) {
                            Some(reset_ms) => reset_ms,
                            None => 1000,
                        },
                    },
                )
            } else {
                Ok(RateLimitSignal::Clear)
            },
            None => Ok(RateLimitSignal::Clear),
        }
    }
}

/// Reads one rate-limit header; errors name the header.
fn read_limit_header(h: &Option<String>, which: LimitHeader) -> (r: Result<
    Option<u64>,
    RateLimitReadError,
>)
    ensures
        match *h {
            None => r == Ok::<Option<u64>, RateLimitReadError>(None::<u64>),
            Some(s) => if decimal_shape(s@) {
                r == Ok::<Option<u64>, RateLimitReadError>(Some(clamped_decimal_ms(s@)))
            } else {
                r == Err::<Option<u64>, RateLimitReadError>(RateLimitReadError::Malformed(which))
            },
        },
{
    match h {
        None => Ok(None),
        Some(s) => match parse_decimal_ms(s.as_str()) {
            Some(ms) => Ok(Some(ms)),
            None => Err(RateLimitReadError::Malformed(which)),
        },
    }
}

/// Classifies a response's rate-limit signaling.
pub fn classify_response(r: &ResponseInfo) -> (sig: Result<RateLimitSignal, RateLimitReadError>)
    ensures
        sig == spec_classify(*r),
{
    if r.status == 429 {
        match &r.retry_after {
            None => Err(RateLimitReadError::MissingRetryAfter),
            Some(s) => match parse_decimal_ms(s.as_str()) {
                Some(wait_ms) => Ok(RateLimitSignal::Hard { wait_ms }),
                None => Err(RateLimitReadError::Malformed(LimitHeader::RetryAfter)),
            },
        }
    } else {
        let _used = match read_limit_header(&r.ratelimit_used, LimitHeader::Used) {
            Ok(v) => v,
            Err(e) => {
                return Err(e);
            },
        };
        let remaining = match read_limit_header(&r.ratelimit_remaining, LimitHeader::Remaining) {
            Ok(v) => v,
            Err(e) => {
                return Err(e);
            },
        };
        let reset = match read_limit_header(&r.ratelimit_reset, LimitHeader::Reset) {
            Ok(v) => v,
            Err(e) => {
                return Err(e);
            },
        };
        match remaining {
            Some(remaining_ms) => if remaining_ms <= 1000 {
                Ok(
                    RateLimitSignal::Soft {
                        wait_ms: match reset {
                            Some(reset_ms) => reset_ms,
                            None => 1000,
                        },
                    },
                )
            } else {
                Ok(RateLimitSignal::Clear)
            },
            None => Ok(RateLimitSignal::Clear),
        }
    }
}

/// An error status in the sense of the upstream check: a client or server
/// error aborts a lookup that carried no rate-limit signal.
pub open spec fn spec_error_status(status: u16) -> bool {
    400 <= status < 600
}

/// What one attempt's response means, before the attempt budget is
/// considered.
#[derive(Clone, Copy, Debug, PartialEq, Eq, Structural)]
pub enum AttemptOutcome {
    /// The response was a rate-limit signal: close the valve for this long
    /// and treat the attempt as inconclusive.
    RateLimited { wait_ms: u64 },
    /// A normal success response with a well-shaped body.
    Score { score: u64 },
    /// A final failure: not retried.
    Aborted(ScoreFetchError),
}

/// The meaning of one response: rate-limit signals first, then the status
/// check, then the body's shape.
pub open spec fn spec_attempt(r: ResponseInfo) -> AttemptOutcome {
    match spec_classify(r) {
        Err(e) => AttemptOutcome::Aborted(ScoreFetchError::RateLimitHeader(e)),
        Ok(RateLimitSignal::Hard { wait_ms }) => AttemptOutcome::RateLimited { wait_ms },
        Ok(RateLimitSignal::Soft { wait_ms }) => AttemptOutcome::RateLimited { wait_ms },
        Ok(RateLimitSignal::Clear) => if spec_error_status(r.status) {
            AttemptOutcome::Aborted(ScoreFetchError::UpstreamStatus { status: r.status })
        } else {
            match spec_parse_score_body(r.body@) {
                Ok(score) => AttemptOutcome::Score { score },
                Err(e) => AttemptOutcome::Aborted(ScoreFetchError::ResponseShape(e)),
            }
        },
    }
}

/// Evaluates one response.
pub fn attempt_outcome(r: &ResponseInfo) -> (o: AttemptOutcome)
    ensures
        o == spec_attempt(*r),
{
    match classify_response(r) {
        Err(e) => AttemptOutcome::Aborted(ScoreFetchError::RateLimitHeader(e)),
        Ok(RateLimitSignal::Hard { wait_ms }) => AttemptOutcome::RateLimited { wait_ms },
        Ok(RateLimitSignal::Soft { wait_ms }) => AttemptOutcome::RateLimited { wait_ms },
        Ok(RateLimitSignal::Clear) => {
            if 400 <= r.status && r.status < 600 {
                AttemptOutcome::Aborted(ScoreFetchError::UpstreamStatus { status: r.status })
            } else {
                match parse_score_body(r.body.as_str()) {
                    Ok(score) => AttemptOutcome::Score { score },
                    Err(e) => AttemptOutcome::Aborted(ScoreFetchError::ResponseShape(e)),
                }
            }
        },
    }
}

/// How many rate-limited attempts a lookup may consume.
pub const MAX_ATTEMPTS: u8 = 3;

/// What a lookup does next after a response.
#[derive(Clone, Copy, Debug, PartialEq, Eq, Structural)]
pub enum FetchProgress {
    /// Rate-limited with budget left: close the valve for this long, sleep,
    /// and send the next attempt.
    Sleep { wait_ms: u64 },
    /// Rate-limited on the last attempt: close the valve for this long;
    /// the lookup then fails with `RetriesExhausted`.
    Exhausted { wait_ms: u64 },
    /// The score is resolved.
    Done { score: u64 },
    /// A final failure: not retried.
    Failed(ScoreFetchError),
}

/// The retry state of one score lookup: how many attempts rate-limit
/// signals have consumed.
pub struct ScoreFetcher {
    pub attempts_used: u8,
}

impl ScoreFetcher {
    /// The state and decision after one more response.
    pub open spec fn spec_step(self, r: ResponseInfo) -> (ScoreFetcher, FetchProgress) {
        match spec_attempt(r) {
            AttemptOutcome::RateLimited { wait_ms } => if self.attempts_used + 1
                >= MAX_ATTEMPTS as int {
                (
                    ScoreFetcher { attempts_used: (self.attempts_used + 1) as u8 },
                    FetchProgress::Exhausted { wait_ms },
                )
            } else {
                (
                    ScoreFetcher { attempts_used: (self.attempts_used + 1) as u8 },
                    FetchProgress::Sleep { wait_ms },
                )
            },
            AttemptOutcome::Score { score } => (self, FetchProgress::Done { score }),
            AttemptOutcome::Aborted(e) => (self, FetchProgress::Failed(e)),
        }
    }

    /// A fresh lookup has its whole budget.
    pub fn new() -> (f: ScoreFetcher)
        ensures
            f.attempts_used == 0,
    {
        ScoreFetcher { attempts_used: 0 }
    }

    /// Feeds one response into the lookup. Only a rate-limit signal
    /// consumes budget; on the third such signal in a row the lookup is
    /// exhausted.
    pub fn on_response(&mut self, r: &ResponseInfo) -> (p: FetchProgress)
        requires
            old(self).attempts_used < MAX_ATTEMPTS,
        ensures
            (*final(self), p) == old(self).spec_step(*r),
            final(self).attempts_used <= MAX_ATTEMPTS,
    {
        match attempt_outcome(r) {
            AttemptOutcome::RateLimited { wait_ms } => {
                self.attempts_used = self.attempts_used + 1;
                if self.attempts_used >= MAX_ATTEMPTS {
                    FetchProgress::Exhausted { wait_ms }
                } else {
                    FetchProgress::Sleep { wait_ms }
                }
            },
            AttemptOutcome::Score { score } => FetchProgress::Done { score },
            AttemptOutcome::Aborted(e) => FetchProgress::Failed(e),
        }
    }
}

/// Law (rate-limit retry): a fresh lookup whose first two responses are
/// rate-limit signals and whose third is a normal success sleeps twice and
/// resolves the third response's score — exactly three attempts.
pub proof fn lemma_rate_limit_retry(
    r1: ResponseInfo,
    r2: ResponseInfo,
    r3: ResponseInfo,
    w1: u64,
    w2: u64,
    score: u64,
)
    requires
        spec_attempt(r1) == (AttemptOutcome::RateLimited { wait_ms: w1 }),
        spec_attempt(r2) == (AttemptOutcome::RateLimited { wait_ms: w2 }),
        spec_attempt(r3) == (AttemptOutcome::Score { score }),
    ensures
        ({
            let f0 = ScoreFetcher { attempts_used: 0 };
            let (f1, p1) = f0.spec_step(r1);
            let (f2, p2) = f1.spec_step(r2);
            let (f3, p3) = f2.spec_step(r3);
            &&& p1 == (FetchProgress::Sleep { wait_ms: w1 })
            &&& p2 == (FetchProgress::Sleep { wait_ms: w2 })
            &&& p3 == (FetchProgress::Done { score })
            &&& f3.attempts_used == 2
        }),
{
}

/// Law (retry exhaustion): a fresh lookup whose three responses are all
/// rate-limit signals sleeps twice and is exhausted by the third — it
/// fails after exactly three attempts, and no attempt remains.
pub proof fn lemma_retry_exhaustion(
    r1: ResponseInfo,
    r2: ResponseInfo,
    r3: ResponseInfo,
    w1: u64,
    w2: u64,
    w3: u64,
)
    requires
        spec_attempt(r1) == (AttemptOutcome::RateLimited { wait_ms: w1 }),
        spec_attempt(r2) == (AttemptOutcome::RateLimited { wait_ms: w2 }),
        spec_attempt(r3) == (AttemptOutcome::RateLimited { wait_ms: w3 }),
    ensures
        ({
            let f0 = ScoreFetcher { attempts_used: 0 };
            let (f1, p1) = f0.spec_step(r1);
            let (f2, p2) = f1.spec_step(r2);
            let (f3, p3) = f2.spec_step(r3);
            &&& p1 == (FetchProgress::Sleep { wait_ms: w1 })
            &&& p2 == (FetchProgress::Sleep { wait_ms: w2 })
            &&& p3 == (FetchProgress::Exhausted { wait_ms: w3 })
            &&& f3.attempts_used == MAX_ATTEMPTS
        }),
{
}

/// The request one attempt sends: the oauth host with the post's path,
/// the fixed depth-limiting query, and the bearer authorization header.
pub struct ScoreRequest {
    pub url: String,
    pub query: Vec<(String, String)>,
    pub authorization: String,
}

/// Builds the request for a post's path and a bearer token.
pub fn build_score_request(path: &str, token: &str) -> (r: ScoreRequest)
    ensures
        r.url@ == "https://oauth.reddit.com/"@ + path@,
        r.query@.len() == 2,
        r.query@[0].0@ == "limit"@ && r.query@[0].1@ == "1"@,
        r.query@[1].0@ == "depth"@ && r.query@[1].1@ == "1"@,
        r.authorization@ == "Bearer "@ + token@,
{
    let url = ("https://oauth.reddit.com/".to_owned()).concat(path);
    let mut query: Vec<(String, String)> = Vec::new();
    query.push(("limit".to_owned(), "1".to_owned()));
    query.push(("depth".to_owned(), "1".to_owned()));
    let authorization = ("Bearer ".to_owned()).concat(token);
    ScoreRequest { url, query, authorization }
}

} // verus!
