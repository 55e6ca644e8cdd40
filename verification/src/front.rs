//! The feed route's answers.
//!
//! The route takes the subreddit from the path and the minimum score and
//! the caller's token from the query. An unauthorized request is answered
//! before any work; a filtered feed is answered as it is; any failure is
//! answered as a generic server error, its detail kept out of the
//! response.

use vstd::prelude::*;

verus! {

/// The route's query parameter: the minimum score an entry must reach.
pub struct Filter {
    pub min_score: u64,
}

/// The answer to a request whose token did not authorize it.
pub fn unauthorized_response() -> (r: (u16, String))
    ensures
        r.0 == 401,
        r.1@ == "Unauthorized"@,
{
    (401, "Unauthorized".to_owned())
}

/// The answer once the filtered feed's text is produced — or not: a
/// produced text is served as it is; any failure is a generic server
/// error.
pub fn feed_response(outcome: Option<String>) -> (r: (u16, String))
    ensures
        match outcome {
            Some(body) => r.0 == 200 && r.1 == body,
            None => r.0 == 500 && r.1@ == "Something went wrong"@,
        },
{
    match outcome {
        Some(body) => (200, body),
        None => (500, "Something went wrong".to_owned()),
    }
}

} // verus!
