use streamvault::error::AppError;
use streamvault::models::VideoResponse;
use streamvault::upload::{
    begin_upload, finish_upload, is_video_field, missing_video_field, multipart_error,
    plan_upload, read_error, upload_type_accepted, ChunkEvent, ChunkStep, UploadProgress,
    MAX_UPLOAD_BYTES,
};

#[test]
fn only_the_video_field_carries_the_upload() {
    assert!(is_video_field(Some("video")));
    assert!(!is_video_field(Some("Video")));
    assert!(!is_video_field(Some("file")));
    assert!(!is_video_field(None));
}

#[test]
fn plan_of_an_accepted_upload() {
    let p = plan_upload(Some("demo.mp4"), Some("video/mp4"), "a3f7bc12", "0000-id").unwrap();
    assert_eq!(p.token, "a3f7bc12");
    assert_eq!(p.original_name, "demo.mp4");
    assert_eq!(p.content_type, "video/mp4");
    assert_eq!(p.stored_filename, "0000-id.mp4");
}

#[test]
fn plan_defaults_name_and_type() {
    let p = plan_upload(None, None, "tok", "id").unwrap();
    assert_eq!(p.original_name, "upload");
    assert_eq!(p.content_type, "application/octet-stream");
    assert_eq!(p.stored_filename, "id.bin");
}

#[test]
fn plan_infers_type_from_name_for_generic_uploads() {
    let p = plan_upload(Some("Trip.MOV"), Some("application/octet-stream"), "t", "id").unwrap();
    assert_eq!(p.content_type, "video/quicktime");
    assert_eq!(p.stored_filename, "id.mov");
}

#[test]
fn stored_name_takes_nothing_from_client_name() {
    let p = plan_upload(Some("a./x"), Some("video/ogg"), "t", "id").unwrap();
    assert_eq!(p.stored_filename, "id.ogg");
    let p = plan_upload(Some("../../etc/passwd"), None, "t", "id").unwrap();
    assert_eq!(p.stored_filename, "id.bin");
    assert_eq!(p.original_name, "../../etc/passwd");
}

#[test]
fn unsupported_format_is_refused() {
    let r = plan_upload(Some("notes.txt"), Some("text/plain"), "t", "id");
    assert!(matches!(r, Err(AppError::UnsupportedFormat)));
    assert!(!upload_type_accepted(Some("notes.txt"), Some("text/plain")));
    let r = begin_upload(Some("notes.txt"), Some("text/plain"));
    assert!(matches!(r, Err(AppError::UnsupportedFormat)));
    assert_eq!(AppError::UnsupportedFormat.status_code(), 415);
}

#[test]
fn begin_upload_names_stored_file_by_uuid() {
    let p = begin_upload(Some("demo.webm"), None).unwrap();
    assert_eq!(p.content_type, "video/webm");
    assert_eq!(p.token.chars().count(), 8);
    assert_eq!(p.stored_filename.len(), 36 + ".webm".len());
    assert!(!p.stored_filename.contains('/'));
    assert!(p.stored_filename.ends_with(".webm"));
    let id = &p.stored_filename[..36];
    for (i, c) in id.chars().enumerate() {
        if [8, 13, 18, 23].contains(&i) {
            assert_eq!(c, '-');
        } else {
            assert!(c.is_ascii_hexdigit() && !c.is_ascii_uppercase());
        }
    }
    assert_eq!(id.chars().nth(14), Some('4'));
    assert!(matches!(id.chars().nth(19), Some('8' | '9' | 'a' | 'b')));
    let q = begin_upload(Some("demo.webm"), None).unwrap();
    assert_ne!(p.stored_filename, q.stored_filename);
}

#[test]
fn size_limit_is_one_gibibyte() {
    assert_eq!(MAX_UPLOAD_BYTES, 1024 * 1024 * 1024);
    let mut p = UploadProgress::new();
    assert_eq!(p.total(), 0);
    assert!(p.add_chunk(64 * 1024).is_ok());
    assert!(p.add_chunk(MAX_UPLOAD_BYTES - 64 * 1024).is_ok());
    assert_eq!(p.total(), MAX_UPLOAD_BYTES);
    assert!(p.add_chunk(0).is_ok());
    assert!(matches!(p.add_chunk(1), Err(AppError::FileTooLarge)));
    assert_eq!(p.total(), MAX_UPLOAD_BYTES);
    assert_eq!(AppError::FileTooLarge.status_code(), 413);
}

#[test]
fn huge_chunk_is_refused_without_overflow() {
    let mut p = UploadProgress::new();
    assert!(p.add_chunk(10).is_ok());
    assert!(matches!(p.add_chunk(usize::MAX), Err(AppError::FileTooLarge)));
    assert_eq!(p.total(), 10);
}

#[test]
fn finished_upload_record_and_answer() {
    let plan = plan_upload(Some("demo.mp4"), Some("video/mp4"), "a3f7bc12", "uuid").unwrap();
    let (video, resp) = finish_upload(plan, 52428800, "http://localhost");
    assert_eq!(video.id, None);
    assert_eq!(video.token, "a3f7bc12");
    assert_eq!(video.filename, "uuid.mp4");
    assert_eq!(video.original_name, "demo.mp4");
    assert_eq!(video.content_type, "video/mp4");
    assert_eq!(video.size_bytes, 52428800);
    assert!(!video.hls_ready);
    assert_eq!(video.created_at, "");
    assert_eq!(resp.token, "a3f7bc12");
    assert_eq!(resp.original_name, "demo.mp4");
    assert_eq!(resp.size_bytes, 52428800);
    assert_eq!(resp.share_url, "http://localhost/watch/a3f7bc12");
    assert_eq!(resp.stream_url, "http://localhost/api/stream/a3f7bc12");
    let listed = VideoResponse::from_video(&video, "http://localhost");
    assert_eq!(listed.share_url, resp.share_url);
    assert_eq!(listed.stream_url, resp.stream_url);
}

#[test]
fn bad_request_errors() {
    let e = missing_video_field();
    assert!(matches!(&e, AppError::BadRequest(m) if m == "No `video` field in form"));
    assert_eq!(e.status_code(), 400);
    assert_eq!(e.message(), "No `video` field in form");
    let e = multipart_error("boundary missing");
    assert!(matches!(&e, AppError::BadRequest(m) if m == "Multipart error: boundary missing"));
    let e = read_error("connection reset");
    assert!(matches!(&e, AppError::BadRequest(m) if m == "Read error: connection reset"));
}

#[test]
fn internal_errors_hide_their_detail() {
    let e = AppError::Internal("disk full".to_string());
    assert_eq!(e.status_code(), 500);
    assert_eq!(e.message(), "Internal server error");
}

#[test]
fn chunk_events() {
    let mut p = UploadProgress::new();
    assert!(matches!(p.on_chunk(ChunkEvent::Received(100)), ChunkStep::Write));
    assert_eq!(p.total(), 100);
    match p.on_chunk(ChunkEvent::ReadFailed("connection reset".to_string())) {
        ChunkStep::Abort(AppError::BadRequest(m)) => assert_eq!(m, "Read error: connection reset"),
        other => panic!("unexpected {:?}", other),
    }
    assert_eq!(p.total(), 100);
    assert!(matches!(
        p.on_chunk(ChunkEvent::Received(MAX_UPLOAD_BYTES)),
        ChunkStep::Abort(AppError::FileTooLarge)
    ));
    assert_eq!(p.total(), 100);
}
