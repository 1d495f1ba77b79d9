//! The subtitle listings of a response: the record type, the printed line
//! for one listing, the selection of the first few listings, the failure
//! taxonomy of a run, and the decision over one request/response exchange.

use vstd::prelude::*;
use vstd::string::{StrSliceExecFns, StringExecFns};
use crate::strutil::{dec_spec, u64_to_string};

verus! {

/// The largest number of result lines that a run prints.
pub const MAX_PRINTED: usize = 5;

/// One subtitle listing returned by the search service.
pub struct SearchResult {
    pub id_subtitle_file: String,
    pub sub_file_name: String,
    pub movie_release_name: String,
    pub movie_name: String,
    pub sub_download_link: String,
}

/// The printed line for one listing: the release name and the download
/// link, separated by a spaced colon.
pub open spec fn line_spec(r: SearchResult) -> Seq<char> {
    r.movie_release_name@ + " : "@ + r.sub_download_link@
}

impl SearchResult {
    /// Renders the printed line for this listing.
    pub fn line(&self) -> (r: String)
        ensures
            r@ == line_spec(*self),
    {
        let mut out = self.movie_release_name.clone();
        out.append(" : ");
        out.append(self.sub_download_link.as_str());
        out
    }
}

/// How many lines a result set of the given size yields.
pub open spec fn printed_count(n: nat) -> nat {
    if n < MAX_PRINTED as nat {
        n
    } else {
        MAX_PRINTED as nat
    }
}

/// Renders the printed lines for a result set: one line per listing, in the
/// given order, capped at `MAX_PRINTED` lines.
pub fn top_lines(results: &Vec<SearchResult>) -> (r: Vec<String>)
    ensures
        r@.len() == printed_count(results@.len()),
        forall|i: int| 0 <= i < r@.len() ==> r@[i]@ == line_spec(results@[i]),
{
    let count = if results.len() < MAX_PRINTED {
        results.len()
    } else {
        MAX_PRINTED
    };
    let mut r: Vec<String> = Vec::new();
    let mut i: usize = 0;
    while i < count
        invariant
            count == printed_count(results@.len()),
            count <= results@.len(),
            i <= count,
            r@.len() == i,
            forall|k: int| 0 <= k < i ==> r@[k]@ == line_spec(results@[k]),
        decreases count - i,
    {
        let item = &results[i];
        r.push(item.line());
        i = i + 1;
    }
    r
}

/// The reasons a search run fails. Every one of them ends the run: nothing
/// is retried and nothing is printed as a result.
#[derive(Debug, PartialEq, Eq)]
pub enum SearchError {
    /// The rendered query path did not form a valid request URL.
    BadUrl,
    /// The request could not be sent or no response came back.
    Network,
    /// The server answered with a status code outside the success range.
    HttpStatus(u16),
    /// The response body was not a JSON array of the expected records.
    BadBody,
}

/// The human-readable description of a failure.
pub open spec fn message_spec(e: SearchError) -> Seq<char> {
    match e {
        SearchError::BadUrl => "the rendered query path does not form a valid URL"@,
        SearchError::Network => "the request could not be completed"@,
        SearchError::HttpStatus(code) => "the server answered with HTTP status "@ + dec_spec(
            code as nat,
        ),
        SearchError::BadBody => "the response body is not a JSON array of subtitle records"@,
    }
}

impl SearchError {
    /// A human-readable description, distinct for each kind of failure.
    pub fn message(&self) -> (r: String)
        ensures
            r@ == message_spec(*self),
    {
        match self {
            SearchError::BadUrl => String::from_str(
                "the rendered query path does not form a valid URL",
            ),
            SearchError::Network => String::from_str("the request could not be completed"),
            SearchError::HttpStatus(code) => {
                let mut s = String::from_str("the server answered with HTTP status ");
                let num = u64_to_string(*code as u64);
                s.append(num.as_str());
                s
            },
            SearchError::BadBody => String::from_str(
                "the response body is not a JSON array of subtitle records",
            ),
        }
    }
}

/// Whether an HTTP status code counts as success.
pub open spec fn is_success_spec(status: u16) -> bool {
    200 <= status < 300
}

/// Tests an HTTP status code for success.
pub fn is_success(status: u16) -> (r: bool)
    ensures
        r == is_success_spec(status),
{
    200 <= status && status < 300
}

/// Decides the outcome of one search exchange from the response status and
/// the parsed body (`None` when the body was not a JSON array of the
/// expected records): a non-success status fails with that status, an
/// unparseable body fails as such — never as an empty result — and a
/// success yields the printed lines of the first listings in server order.
pub fn handle_response(status: u16, parsed: Option<Vec<SearchResult>>) -> (r: Result<
    Vec<String>,
    SearchError,
>)
    ensures
        r is Ok <==> (is_success_spec(status) && parsed is Some),
        !is_success_spec(status) ==> r == Err::<Vec<String>, SearchError>(
            SearchError::HttpStatus(status),
        ),
        (is_success_spec(status) && parsed is None) ==> r == Err::<Vec<String>, SearchError>(
            SearchError::BadBody,
        ),
        r is Ok ==> r->Ok_0@.len() == printed_count(parsed->Some_0@.len()),
        r is Ok ==> (forall|i: int|
            0 <= i < r->Ok_0@.len() ==> r->Ok_0@[i]@ == line_spec(parsed->Some_0@[i])),
{
    if !is_success(status) {
        Err(SearchError::HttpStatus(status))
    } else {
        match parsed {
            None => Err(SearchError::BadBody),
            Some(results) => Ok(top_lines(&results)),
        }
    }
}

} // verus!
