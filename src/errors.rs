//! Errors of the API and the response each one turns into. A response carries
//! a fixed message per kind of failure, never the text of its cause, and a URL
//! that cannot be read is answered exactly as one that may not be fetched.

use vstd::prelude::*;
use vstd::string::*;

verus! {

/// Status for a request that is refused.
pub const BAD_REQUEST: u16 = 400;

/// Status for a failure inside this service.
pub const INTERNAL_SERVER_ERROR: u16 = 500;

/// Status for a failure of the remote host the proxy fetched from.
pub const BAD_GATEWAY: u16 = 502;

/// Why a request failed. The outside failures keep the text of their cause
/// for diagnostics; it is not sent to the caller.
#[derive(Debug, Clone, PartialEq, Eq)]
pub enum ApiError {
    /// A required query parameter is missing.
    MissingQuery(&'static str),
    /// The URL to fetch does not percent-decode to UTF-8, or does not parse.
    InvalidUrl,
    /// The URL may not be fetched: its scheme, its literal address, or every
    /// address its host resolves to is not allowed.
    BlockedTarget,
    /// Fetching from the remote host failed: timeout, refused connection,
    /// TLS or protocol error.
    Upstream(String),
    /// The outbound response could not be assembled.
    Relay(String),
    /// The metadata index could not be queried.
    Sqlx(String),
}

pub open spec fn invalid_url_message() -> Seq<char> {
    "invalid url"@
}

pub open spec fn upstream_message() -> Seq<char> {
    "upstream fetch failed"@
}

pub open spec fn relay_message() -> Seq<char> {
    "unable to relay the response"@
}

pub open spec fn search_message() -> Seq<char> {
    "search failed"@
}

/// The status that an error is answered with.
pub open spec fn error_status(e: ApiError) -> u16 {
    match e {
        ApiError::MissingQuery(_) => BAD_REQUEST,
        ApiError::InvalidUrl => BAD_REQUEST,
        ApiError::BlockedTarget => BAD_REQUEST,
        ApiError::Upstream(_) => BAD_GATEWAY,
        ApiError::Relay(_) => INTERNAL_SERVER_ERROR,
        ApiError::Sqlx(_) => INTERNAL_SERVER_ERROR,
    }
}

/// The message that an error is answered with.
pub open spec fn error_message(e: ApiError) -> Seq<char> {
    match e {
        ApiError::MissingQuery(m) => m@,
        ApiError::InvalidUrl => invalid_url_message(),
        ApiError::BlockedTarget => invalid_url_message(),
        ApiError::Upstream(_) => upstream_message(),
        ApiError::Relay(_) => relay_message(),
        ApiError::Sqlx(_) => search_message(),
    }
}

/// The error for a failed fetch: a refusal of the target when the failure
/// came from the resolver finding no address that may be reached, an
/// upstream failure otherwise.
pub fn fetch_failure(blocked: bool, cause: String) -> (r: ApiError)
    ensures
        blocked ==> r == ApiError::BlockedTarget,
        !blocked ==> r == ApiError::Upstream(cause),
{
    if blocked {
        ApiError::BlockedTarget
    } else {
        ApiError::Upstream(cause)
    }
}

impl ApiError {
    /// The status and the message body of the response for this error.
    pub fn into_response(self) -> (r: (u16, String))
        ensures
            r.0 == error_status(self),
            r.1@ == error_message(self),
    {
        let status = match &self {
            ApiError::MissingQuery(_) => BAD_REQUEST,
            ApiError::InvalidUrl => BAD_REQUEST,
            ApiError::BlockedTarget => BAD_REQUEST,
            ApiError::Upstream(_) => BAD_GATEWAY,
            ApiError::Relay(_) => INTERNAL_SERVER_ERROR,
            ApiError::Sqlx(_) => INTERNAL_SERVER_ERROR,
        };
        let message = match self {
            ApiError::MissingQuery(msg) => String::from_str(msg),
            ApiError::InvalidUrl => String::from_str("invalid url"),
            ApiError::BlockedTarget => String::from_str("invalid url"),
            ApiError::Upstream(_) => String::from_str("upstream fetch failed"),
            ApiError::Relay(_) => String::from_str("unable to relay the response"),
            ApiError::Sqlx(_) => String::from_str("search failed"),
        };
        (status, message)
    }
}

/// A URL that cannot be read and a URL that may not be fetched get the same
/// response, so the caller cannot tell which check refused it.
pub proof fn lemma_refusals_indistinguishable()
    ensures
        error_status(ApiError::InvalidUrl) == error_status(ApiError::BlockedTarget),
        error_message(ApiError::InvalidUrl) == error_message(ApiError::BlockedTarget),
{
}

/// No response to a failure of an outside service carries the text of its
/// cause.
pub proof fn lemma_causes_not_sent(a: String, b: String)
    ensures
        error_message(ApiError::Upstream(a)) == error_message(ApiError::Upstream(b)),
        error_message(ApiError::Relay(a)) == error_message(ApiError::Relay(b)),
        error_message(ApiError::Sqlx(a)) == error_message(ApiError::Sqlx(b)),
{
}

} // verus!
