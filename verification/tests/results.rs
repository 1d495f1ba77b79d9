use opensub::{handle_response, is_success, top_lines, u64_to_string, SearchError, SearchResult};

fn rec(n: usize) -> SearchResult {
    SearchResult {
        id_subtitle_file: format!("id{}", n),
        sub_file_name: format!("file{}.srt", n),
        movie_release_name: format!("Release.{}", n),
        movie_name: format!("Movie {}", n),
        sub_download_link: format!("https://dl.example/{}", n),
    }
}

fn recs(n: usize) -> Vec<SearchResult> {
    (0..n).map(rec).collect()
}

#[test]
fn line_is_release_and_link() {
    let r = rec(3);
    assert_eq!(r.line(), "Release.3 : https://dl.example/3");
}

#[test]
fn top_lines_empty() {
    assert_eq!(top_lines(&recs(0)).len(), 0);
}

#[test]
fn top_lines_one() {
    let lines = top_lines(&recs(1));
    assert_eq!(lines, vec!["Release.0 : https://dl.example/0".to_string()]);
}

#[test]
fn top_lines_five() {
    let lines = top_lines(&recs(5));
    assert_eq!(lines.len(), 5);
    for (i, line) in lines.iter().enumerate() {
        assert_eq!(line, &format!("Release.{} : https://dl.example/{}", i, i));
    }
}

#[test]
fn top_lines_caps_at_five() {
    let lines = top_lines(&recs(8));
    assert_eq!(lines.len(), 5);
    for (i, line) in lines.iter().enumerate() {
        assert_eq!(line, &format!("Release.{} : https://dl.example/{}", i, i));
    }
}

#[test]
fn non_success_status_fails() {
    let r = handle_response(503, Some(recs(3)));
    assert_eq!(r, Err(SearchError::HttpStatus(503)));
}

#[test]
fn status_boundaries() {
    assert_eq!(
        handle_response(199, Some(recs(1))),
        Err(SearchError::HttpStatus(199))
    );
    assert_eq!(
        handle_response(300, Some(recs(1))),
        Err(SearchError::HttpStatus(300))
    );
    assert!(handle_response(200, Some(recs(1))).is_ok());
    assert!(handle_response(299, Some(recs(1))).is_ok());
}

#[test]
fn unparseable_body_is_an_error_not_empty_output() {
    let r = handle_response(200, None);
    assert_eq!(r, Err(SearchError::BadBody));
}

#[test]
fn success_prints_up_to_five_lines() {
    let r = handle_response(200, Some(recs(8))).unwrap();
    assert_eq!(r.len(), 5);
    assert_eq!(r[0], "Release.0 : https://dl.example/0");
    assert_eq!(r[4], "Release.4 : https://dl.example/4");
}

#[test]
fn success_with_no_results_prints_nothing() {
    let r = handle_response(200, Some(recs(0))).unwrap();
    assert!(r.is_empty());
}

#[test]
fn messages_are_distinct_and_name_the_status() {
    let m1 = SearchError::BadUrl.message();
    let m2 = SearchError::Network.message();
    let m3 = SearchError::HttpStatus(503).message();
    let m4 = SearchError::BadBody.message();
    assert_eq!(m3, "the server answered with HTTP status 503");
    let all = [&m1, &m2, &m3, &m4];
    for i in 0..all.len() {
        for j in 0..all.len() {
            if i != j {
                assert_ne!(all[i], all[j]);
            }
        }
    }
}

#[test]
fn is_success_matches_the_range() {
    assert!(!is_success(199));
    assert!(is_success(200));
    assert!(is_success(204));
    assert!(is_success(299));
    assert!(!is_success(300));
    assert!(!is_success(404));
    assert!(!is_success(503));
}

#[test]
fn u64_to_string_renders_decimal() {
    assert_eq!(u64_to_string(0), "0");
    assert_eq!(u64_to_string(7), "7");
    assert_eq!(u64_to_string(10), "10");
    assert_eq!(u64_to_string(65535), "65535");
    assert_eq!(u64_to_string(18446744073709551615), "18446744073709551615");
}
