//! The download proxy: from the query parameter to the URL to fetch, and the
//! check that the URL may be fetched.

use vstd::prelude::*;
use crate::errors::ApiError;
use crate::util::{TargetUrl, is_global_ip_url, url_allowed};

verus! {

/// Query parameters of the download proxy: the percent-encoded URL to fetch,
/// absent when empty.
#[derive(Debug, Clone, PartialEq, Eq)]
pub struct Params {
    pub url: Option<String>,
}

/// What percent-decoding a string and reading the bytes as UTF-8 gives, or
/// nothing when the bytes are not UTF-8.
pub uninterp spec fn percent_decoded_utf8(s: Seq<char>) -> Option<Seq<char>>;

/// Relies on `percent_encoding::percent_decode_str(..).decode_utf8()`: the
/// result depends on the string alone, and a string without `%` decodes to
/// itself.
#[verifier::external_body]
fn percent_decode(s: &str) -> (r: Option<String>)
    ensures
        match r {
            Some(d) => percent_decoded_utf8(s@) == Some(d@),
            None => percent_decoded_utf8(s@) is None,
        },
        !s@.contains('%') ==> r is Some && r.unwrap()@ == s@,
{
    match percent_encoding::percent_decode_str(s).decode_utf8() {
        Ok(d) => Some(d.into_owned()),
        Err(_) => None,
    }
}

/// The URL to fetch once percent-decoding has been attempted: the decoded
/// text, or an invalid URL when it was not UTF-8.
pub fn decoded_target(decoded: Option<String>) -> (r: Result<String, ApiError>)
    ensures
        match decoded {
            Some(d) => r == Ok::<String, ApiError>(d),
            None => r == Err::<String, ApiError>(ApiError::InvalidUrl),
        },
{
    match decoded {
        Some(d) => Ok(d),
        None => Err(ApiError::InvalidUrl),
    }
}

/// The URL that the proxy is asked to fetch, percent-decoded once; an error
/// when the parameter is missing or does not decode to UTF-8.
pub fn target_from_params(params: &Params) -> (r: Result<String, ApiError>)
    ensures
        match params.url {
            None => r matches Err(ApiError::MissingQuery(m)) && m@ == "missing url param"@,
            Some(u) => match percent_decoded_utf8(u@) {
                Some(d) => r matches Ok(t) && t@ == d,
                None => r == Err::<String, ApiError>(ApiError::InvalidUrl),
            },
        },
{
    match &params.url {
        None => Err(ApiError::MissingQuery("missing url param")),
        Some(u) => decoded_target(percent_decode(u.as_str())),
    }
}

/// Refuses a URL that may not be fetched, whichever check refused it.
pub fn check_target(url: &TargetUrl) -> (r: Result<(), ApiError>)
    ensures
        url_allowed(*url) ==> r == Ok::<(), ApiError>(()),
        !url_allowed(*url) ==> r == Err::<(), ApiError>(ApiError::BlockedTarget),
{
    if is_global_ip_url(url) {
        Ok(())
    } else {
        Err(ApiError::BlockedTarget)
    }
}

} // verus!
