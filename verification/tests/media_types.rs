use streamvault::media::{
    content_type_for_extension, extension_from_content_type, file_extension, infer_content_type,
    is_allowed_type,
};

#[test]
fn declared_type_is_kept() {
    assert_eq!(infer_content_type("clip.mkv", "video/webm"), "video/webm");
    assert_eq!(infer_content_type("notes.txt", "text/plain"), "text/plain");
}

#[test]
fn generic_type_is_inferred_from_extension() {
    let generic = "application/octet-stream";
    assert_eq!(infer_content_type("demo.mp4", generic), "video/mp4");
    assert_eq!(infer_content_type("demo.m4v", generic), "video/mp4");
    assert_eq!(infer_content_type("a.webm", generic), "video/webm");
    assert_eq!(infer_content_type("a.mov", generic), "video/quicktime");
    assert_eq!(infer_content_type("a.avi", generic), "video/x-msvideo");
    assert_eq!(infer_content_type("a.mkv", generic), "video/x-matroska");
    assert_eq!(infer_content_type("a.ts", generic), "video/mp2t");
    assert_eq!(infer_content_type("a.mpeg", generic), "video/mpeg");
    assert_eq!(infer_content_type("a.mpg", generic), "video/mpeg");
}

#[test]
fn extension_is_lowercased_before_matching() {
    let generic = "application/octet-stream";
    assert_eq!(infer_content_type("HOLIDAY.MP4", generic), "video/mp4");
    assert_eq!(infer_content_type("x.MoV", generic), "video/quicktime");
}

#[test]
fn unknown_extension_keeps_generic_type() {
    let generic = "application/octet-stream";
    assert_eq!(infer_content_type("clip.ogg", generic), generic);
    assert_eq!(infer_content_type("noextension", generic), generic);
    assert_eq!(infer_content_type("", generic), generic);
}

#[test]
fn allowed_types() {
    for t in [
        "video/mp4", "video/webm", "video/quicktime", "video/x-msvideo", "video/x-matroska",
        "video/mp2t", "video/mpeg", "video/ogg", "application/octet-stream",
    ] {
        assert!(is_allowed_type(t));
    }
    assert!(!is_allowed_type("text/plain"));
    assert!(!is_allowed_type("video/MP4"));
    assert!(!is_allowed_type(""));
}

#[test]
fn generic_upload_is_never_refused() {
    for name in ["a.exe", "b", "c.MKV", "d.tar.gz", ".hidden"] {
        let t = infer_content_type(name, "application/octet-stream");
        assert!(is_allowed_type(&t));
    }
}

#[test]
fn stored_extensions() {
    assert_eq!(extension_from_content_type("video/mp4"), "mp4");
    assert_eq!(extension_from_content_type("video/webm"), "webm");
    assert_eq!(extension_from_content_type("video/quicktime"), "mov");
    assert_eq!(extension_from_content_type("video/x-msvideo"), "avi");
    assert_eq!(extension_from_content_type("video/x-matroska"), "mkv");
    assert_eq!(extension_from_content_type("video/mp2t"), "ts");
    assert_eq!(extension_from_content_type("video/mpeg"), "mpeg");
    assert_eq!(extension_from_content_type("video/ogg"), "ogg");
    assert_eq!(extension_from_content_type("application/octet-stream"), "bin");
    assert_eq!(extension_from_content_type("text/plain"), "bin");
}

#[test]
fn stored_extension_names_its_type_again() {
    for t in [
        "video/mp4", "video/webm", "video/quicktime", "video/x-msvideo", "video/x-matroska",
        "video/mp2t", "video/mpeg",
    ] {
        let ext = extension_from_content_type(t);
        assert_eq!(content_type_for_extension(&ext, "application/octet-stream"), t);
    }
}

#[test]
fn last_segment_of_names() {
    assert_eq!(file_extension("a.b.c"), "c");
    assert_eq!(file_extension("plain"), "plain");
    assert_eq!(file_extension("trailing."), "");
    assert_eq!(file_extension(".hidden"), "hidden");
}
