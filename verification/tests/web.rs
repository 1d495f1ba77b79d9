use opensub::{search_request_url, search_url, search_url_string, ParamName, QueryParams};

#[test]
fn url_string_is_base_plus_path() {
    assert_eq!(
        search_url_string("episode-8/season-7"),
        "https://rest.opensubtitles.org/search/episode-8/season-7"
    );
}

#[test]
fn url_parses_and_keeps_the_path() {
    let u = search_url("episode-8/query-brooklyn%20nine%20nine/season-7/sublanguageid-eng")
        .unwrap();
    assert_eq!(u.scheme(), "https");
    assert_eq!(u.host_str(), Some("rest.opensubtitles.org"));
    assert_eq!(
        u.path(),
        "/search/episode-8/query-brooklyn%20nine%20nine/season-7/sublanguageid-eng"
    );
}

#[test]
fn empty_path_still_parses() {
    let u = search_url("").unwrap();
    assert_eq!(u.as_str(), "https://rest.opensubtitles.org/search/");
}

#[test]
fn request_url_from_builder() {
    let p = QueryParams::new()
        .set(ParamName::Query, "brooklyn nine nine".to_string())
        .set(ParamName::Season, "7".to_string())
        .set(ParamName::Episode, "8".to_string())
        .set(ParamName::Sublanguageid, "eng".to_string());
    let u = search_request_url(p).unwrap();
    assert_eq!(
        u.as_str(),
        "https://rest.opensubtitles.org/search/episode-8/query-brooklyn%20nine%20nine/season-7/sublanguageid-eng"
    );
}
