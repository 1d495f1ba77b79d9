//! Building the request URL for one search: the fixed endpoint with the
//! rendered query path appended, parsed by the url crate.

use vstd::prelude::*;
use vstd::string::StringExecFns;
use crate::params::{path_spec, QueryParams};
use crate::results::SearchError;

verus! {

/// The search endpoint that every rendered query path is appended to.
pub open spec fn base_url() -> Seq<char> {
    "https://rest.opensubtitles.org/search/"@
}

/// Declares url's `Url` so that a parsed request URL can be carried through
/// signatures; the value is opaque here.
#[verifier::external_type_specification]
#[verifier::external_body]
pub struct ExUrl(url::Url);

/// Declares url's `ParseError` so that the parse wrapper can return it; the
/// value is opaque here and is mapped to the library's own error.
#[verifier::external_type_specification]
#[verifier::external_body]
pub struct ExParseError(url::ParseError);

/// Whether `url::Url::parse` accepts a string as an absolute URL; the
/// outcome depends on the characters of the string alone.
pub uninterp spec fn url_parse_accepts(s: Seq<char>) -> bool;

/// Relies on url's `Url::parse`: parses an absolute URL from a string and
/// returns an error exactly when the string cannot be parsed as one.
#[verifier::external_body]
fn parse_url(s: &str) -> (r: Result<url::Url, url::ParseError>)
    ensures
        r is Ok <==> url_parse_accepts(s@),
{
    url::Url::parse(s)
}

/// The full URL string for a rendered query path.
pub fn search_url_string(path: &str) -> (r: String)
    ensures
        r@ == base_url() + path@,
{
    let mut out = String::from_str("https://rest.opensubtitles.org/search/");
    out.append(path);
    out
}

/// Builds the request URL for a rendered query path; fails exactly when the
/// full URL string is not a well-formed absolute URL.
pub fn search_url(path: &str) -> (r: Result<url::Url, SearchError>)
    ensures
        r is Ok <==> url_parse_accepts(base_url() + path@),
        r is Err ==> r == Err::<url::Url, SearchError>(SearchError::BadUrl),
{
    let full = search_url_string(path);
    match parse_url(full.as_str()) {
        Ok(u) => Ok(u),
        Err(_) => Err(SearchError::BadUrl),
    }
}

/// Renders a builder's accumulated parameters and builds the request URL
/// for them; fails exactly when the resulting URL string is not a
/// well-formed absolute URL.
pub fn search_request_url(params: QueryParams) -> (r: Result<url::Url, SearchError>)
    ensures
        r is Ok <==> url_parse_accepts(base_url() + path_spec(params@)),
        r is Err ==> r == Err::<url::Url, SearchError>(SearchError::BadUrl),
{
    let path = params.query_path();
    search_url(path.as_str())
}

} // verus!
