use streamvault::error::AppError;
use streamvault::stream::{
    plan_hls_playlist, plan_hls_segment, plan_stream, segment_name_is_safe, segment_not_found,
    video_not_found, HeaderField, PlaylistPlan,
};

fn pairs(h: &[HeaderField]) -> Vec<(String, String)> {
    h.iter().map(|f| (f.name.clone(), f.value.clone())).collect()
}

fn p(a: &str, b: &str) -> (String, String) {
    (a.to_string(), b.to_string())
}

#[test]
fn range_request_gets_partial_content() {
    let plan = plan_stream("video/mp4", 52428800, Some("bytes=0-1048575"));
    assert_eq!(plan.status, 206);
    assert_eq!(plan.range, Some((0, 1048575)));
    assert_eq!(plan.body_len, 1048576);
    assert_eq!(plan.seek_to, None);
    assert_eq!(
        pairs(&plan.headers),
        vec![
            p("content-type", "video/mp4"),
            p("content-length", "1048576"),
            p("content-range", "bytes 0-1048575/52428800"),
            p("accept-ranges", "bytes"),
            p("cache-control", "public, max-age=3600"),
        ]
    );
}

#[test]
fn range_in_the_middle_seeks() {
    let plan = plan_stream("video/webm", 1000, Some("bytes=500-"));
    assert_eq!(plan.status, 206);
    assert_eq!(plan.seek_to, Some(500));
    assert_eq!(plan.body_len, 500);
    assert!(pairs(&plan.headers).contains(&p("content-range", "bytes 500-999/1000")));
}

#[test]
fn no_range_gets_whole_file_without_content_range() {
    let plan = plan_stream("video/mp4", 52428800, None);
    assert_eq!(plan.status, 200);
    assert_eq!(plan.range, None);
    assert_eq!(plan.body_len, 52428800);
    assert_eq!(plan.seek_to, None);
    assert_eq!(
        pairs(&plan.headers),
        vec![
            p("content-type", "video/mp4"),
            p("content-length", "52428800"),
            p("accept-ranges", "bytes"),
            p("cache-control", "public, max-age=3600"),
        ]
    );
}

#[test]
fn malformed_range_gets_whole_file() {
    let plan = plan_stream("video/mp4", 100, Some("lines=1-2"));
    assert_eq!(plan.status, 200);
    assert!(plan.headers.iter().all(|h| h.name != "content-range"));
}

#[test]
fn empty_file_with_any_range_gets_whole_empty_file() {
    for h in [Some("bytes=0-"), Some("lines=1-2"), Some("bytes=0-0"), None] {
        let plan = plan_stream("video/mp4", 0, h);
        assert_eq!(plan.status, 200);
        assert_eq!(plan.body_len, 0);
        assert!(plan.headers.iter().all(|f| f.name != "content-range"));
    }
}

#[test]
fn unreadable_range_end_gets_whole_file() {
    let plan = plan_stream("video/mp4", 100, Some("bytes=0-abc"));
    assert_eq!(plan.status, 200);
    assert_eq!(plan.body_len, 100);
}

#[test]
fn empty_file_without_range() {
    let plan = plan_stream("video/mp4", 0, None);
    assert_eq!(plan.status, 200);
    assert_eq!(plan.body_len, 0);
}

#[test]
fn playlist_redirects_until_ready() {
    match plan_hls_playlist("a3f7bc12", false) {
        PlaylistPlan::RedirectToStream { headers } => assert_eq!(
            pairs(&headers),
            vec![p("location", "/api/stream/a3f7bc12"), p("cache-control", "no-store")]
        ),
        other => panic!("unexpected {:?}", other),
    }
}

#[test]
fn playlist_served_when_ready() {
    match plan_hls_playlist("a3f7bc12", true) {
        PlaylistPlan::ServePlaylist { path, headers } => {
            assert_eq!(path, vec!["hls", "a3f7bc12", "playlist.m3u8"]);
            assert_eq!(
                pairs(&headers),
                vec![
                    p("content-type", "application/vnd.apple.mpegurl"),
                    p("cache-control", "no-cache, no-store"),
                ]
            );
        },
        other => panic!("unexpected {:?}", other),
    }
}

#[test]
fn segment_names() {
    assert!(segment_name_is_safe("seg001.ts"));
    assert!(segment_name_is_safe("a.b.ts"));
    assert!(!segment_name_is_safe("../../../etc/passwd"));
    assert!(!segment_name_is_safe("a/b.ts"));
    assert!(!segment_name_is_safe(".hidden"));
    assert!(!segment_name_is_safe("a..b"));
    assert!(!segment_name_is_safe(".."));
    assert!(segment_name_is_safe(""));
}

#[test]
fn segment_plan() {
    let plan = plan_hls_segment("tok", "seg002.ts").unwrap();
    assert_eq!(plan.path, vec!["hls", "tok", "seg002.ts"]);
    assert_eq!(
        pairs(&plan.headers),
        vec![p("content-type", "video/mp2t"), p("cache-control", "public, max-age=86400, immutable")]
    );
    let e = plan_hls_segment("tok", "../db").unwrap_err();
    assert!(matches!(&e, AppError::BadRequest(m) if m == "Invalid segment name"));
    assert_eq!(e.status_code(), 400);
    for bad_token in ["/etc", "a/b", "../x"] {
        let e = plan_hls_segment(bad_token, "passwd").unwrap_err();
        assert!(matches!(&e, AppError::BadRequest(m) if m == "Invalid token"));
    }
    // The segment name is judged first, whatever the token.
    let e = plan_hls_segment("/etc", "../x").unwrap_err();
    assert!(matches!(&e, AppError::BadRequest(m) if m == "Invalid segment name"));
    let e = plan_hls_segment(".x", ".hidden").unwrap_err();
    assert!(matches!(&e, AppError::BadRequest(m) if m == "Invalid segment name"));
    // Tokens without a slash are looked up as they are.
    for token in [".x", "a..b", ".."] {
        let plan = plan_hls_segment(token, "seg000.ts").unwrap();
        assert_eq!(plan.path, vec!["hls", token, "seg000.ts"]);
    }
}

#[test]
fn not_found_errors() {
    let e = video_not_found("zzzzzzzz");
    assert!(matches!(&e, AppError::NotFound(m) if m == "Video zzzzzzzz not found"));
    assert_eq!(e.status_code(), 404);
    assert_eq!(e.message(), "Video zzzzzzzz not found");
    let e = segment_not_found("seg999.ts");
    assert!(matches!(&e, AppError::NotFound(m) if m == "Segment seg999.ts not found"));
}
