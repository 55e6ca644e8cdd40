//! Request authorization.
//!
//! Feed readers cannot send headers, so the caller's token travels as a
//! query parameter and is compared against the configured one. The
//! configured token is looked up by the program around the library and
//! handed in as a plain value.

use vstd::prelude::*;

verus! {

/// The token a request carries as a query parameter.
pub struct QueryToken {
    pub token: String,
}

/// The doorkeeper: holds the configured token.
pub struct Authorization {
    expected: String,
}

impl Authorization {
    /// The token that authorizes a request.
    pub closed spec fn spec_expected(&self) -> Seq<char> {
        self.expected@
    }

    /// A doorkeeper for the configured token.
    pub fn new(expected: String) -> (a: Authorization)
        ensures
            a.spec_expected() == expected@,
    {
        Authorization { expected }
    }

    /// A request is authorized exactly when its token reads as the
    /// configured one.
    pub fn authorize(&self, query_token: &QueryToken) -> (r: bool)
        ensures
            r == (query_token.token@ == self.spec_expected()),
    {
        query_token.token.eq(&self.expected)
    }
}

} // verus!
