use opensub::{encode_spaces, ParamName, QueryParams};

#[test]
fn empty_renders_empty() {
    assert_eq!(QueryParams::new().query_path(), "");
}

#[test]
fn single_param_has_no_slashes() {
    let p = QueryParams::new().set(ParamName::Query, "foo".to_string());
    assert_eq!(p.query_path(), "query-foo");
}

#[test]
fn order_independent_render() {
    let a = QueryParams::new()
        .set(ParamName::Season, "7".to_string())
        .set(ParamName::Query, "brooklyn nine nine".to_string())
        .set(ParamName::Episode, "8".to_string());
    let b = QueryParams::new()
        .set(ParamName::Episode, "8".to_string())
        .set(ParamName::Query, "brooklyn nine nine".to_string())
        .set(ParamName::Season, "7".to_string());
    assert_eq!(a.query_path(), b.query_path());
}

#[test]
fn keys_sorted_lexicographically() {
    let p = QueryParams::new()
        .set(ParamName::Tag, "hdtv".to_string())
        .set(ParamName::Imdbid, "0056801".to_string())
        .set(ParamName::Sublanguageid, "eng".to_string());
    assert_eq!(p.query_path(), "imdbid-0056801/sublanguageid-eng/tag-hdtv");
}

#[test]
fn overwrite_keeps_last_value() {
    let p = QueryParams::new()
        .set(ParamName::Season, "1".to_string())
        .set(ParamName::Season, "2".to_string());
    assert_eq!(p.query_path(), "season-2");
}

#[test]
fn full_example_path() {
    let p = QueryParams::new()
        .set(ParamName::Query, "brooklyn nine nine".to_string())
        .set(ParamName::Season, "7".to_string())
        .set(ParamName::Episode, "8".to_string())
        .set(ParamName::Sublanguageid, "eng".to_string());
    assert_eq!(
        p.query_path(),
        "episode-8/query-brooklyn%20nine%20nine/season-7/sublanguageid-eng"
    );
}

#[test]
fn no_leading_or_trailing_slash() {
    let p = QueryParams::new()
        .set(ParamName::Episode, "8".to_string())
        .set(ParamName::Tag, "web".to_string());
    let path = p.query_path();
    assert!(!path.starts_with('/'));
    assert!(!path.ends_with('/'));
    assert_eq!(path, "episode-8/tag-web");
}

#[test]
fn query_spaces_are_encoded() {
    let p = QueryParams::new().set(ParamName::Query, "one two three".to_string());
    assert_eq!(p.query_path(), "query-one%20two%20three");
}

#[test]
fn tag_spaces_are_encoded() {
    let p = QueryParams::new().set(ParamName::Tag, "some tag".to_string());
    assert_eq!(p.query_path(), "tag-some%20tag");
}

#[test]
fn other_values_pass_through() {
    let p = QueryParams::new().set(ParamName::Moviehash, "18379ac9af039390".to_string());
    assert_eq!(p.query_path(), "moviehash-18379ac9af039390");
}

#[test]
fn encode_spaces_replaces_every_space() {
    assert_eq!(encode_spaces("a b c"), "a%20b%20c");
    assert_eq!(encode_spaces(""), "");
    assert_eq!(encode_spaces("nospace"), "nospace");
    assert_eq!(encode_spaces("  "), "%20%20");
}
