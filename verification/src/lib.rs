//! A small client library for a subtitle search service.
//!
//! `params` builds the slash-delimited query path for the search endpoint,
//! `results` selects and formats the listing lines of a response, and
//! `web` turns a query path into a parsed request URL.

pub mod params;
pub mod results;
pub mod strutil;
pub mod web;

pub use params::ParamName;
pub use params::QueryParams;
pub use results::SearchError;
pub use results::SearchResult;
pub use results::MAX_PRINTED;
pub use results::handle_response;
pub use results::is_success;
pub use results::top_lines;
pub use web::search_request_url;
pub use web::search_url;
pub use web::search_url_string;
pub use strutil::encode_spaces;
pub use strutil::encode_spaces_spec;
pub use strutil::u64_to_string;
