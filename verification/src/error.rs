//! Error taxonomy of the library. Every fetch operation either yields a new
//! value or one of these kinds; the caller decides user-facing wording.

use vstd::prelude::*;

verus! {

/// The kinds of failure a browsing operation can report.
///
/// `Transport` covers connectivity, timeout and non-2xx failures of the
/// remote; `Decode` a response that does not match the expected envelope
/// shape; `NotFound` a valid request that matched no record; `InvalidPage`
/// a non-positive page number, rejected before any request is issued.
#[derive(Clone, Copy, Debug, PartialEq, Eq, Structural)]
pub enum APIError {
    NotFound,
    InvalidPage,
    Transport,
    Decode,
}

impl APIError {
    /// A short description of the error, for display by the caller.
    pub fn message(&self) -> (r: &'static str)
        ensures
            r@.len() > 0,
            *self == APIError::NotFound ==> r@ == "can not find object"@,
            *self == APIError::InvalidPage ==> r@ == "invalid page should be >= 1"@,
            *self == APIError::Transport ==> r@ == "fetch failed"@,
            *self == APIError::Decode ==> r@ == "unexpected response shape"@,
    {
        proof {
            reveal_strlit("can not find object");
            reveal_strlit("invalid page should be >= 1");
            reveal_strlit("fetch failed");
            reveal_strlit("unexpected response shape");
        }
        match self {
            APIError::NotFound => "can not find object",
            APIError::InvalidPage => "invalid page should be >= 1",
            APIError::Transport => "fetch failed",
            APIError::Decode => "unexpected response shape",
        }
    }
}

} // verus!
