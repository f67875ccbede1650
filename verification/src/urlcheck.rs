//! URL validation.
//!
//! A command-line target must be a syntactically valid absolute URL. The
//! check is the url crate's parser; on success the original string is
//! returned unchanged, with no normalization.

use vstd::prelude::*;
use vstd::string::*;

use crate::errors::HttpError;

verus! {

/// Whether a string parses as an absolute URL. The url crate's parser
/// decides; two calls on the same string agree.
pub uninterp spec fn url_parses(s: Seq<char>) -> bool;

/// Relies on `url::Url::parse`: whether a string parses as an absolute URL
/// depends on the string alone.
#[verifier::external_body]
fn url_is_valid(s: &str) -> (r: bool)
    ensures
        r == url_parses(s@),
{
    url::Url::parse(s).is_ok()
}

/// Validates a command-line target. A string the URL parser accepts comes
/// back unchanged; every other string is an `InvalidUrl` error.
pub fn parse_url(url: &str) -> (r: Result<String, HttpError>)
    ensures
        match r {
            Result::Ok(u) => url_parses(url@) && u@ == url@,
            Result::Err(e) => !url_parses(url@) && e == HttpError::InvalidUrl,
        },
{
    if url_is_valid(url) {
        Ok(String::from_str(url))
    } else {
        Err(HttpError::InvalidUrl)
    }
}

} // verus!
