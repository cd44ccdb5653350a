use streamvault::config::{database_url, Settings};
use streamvault::models::{responses_from_videos, share_url, stream_url, Video, VideoResponse};
use streamvault::transcode::{ffmpeg_args, follow_up, TranscodeFollowUp, TranscodeOutcome};

fn video(token: &str, ready: bool) -> Video {
    Video {
        id: Some(1),
        token: token.to_string(),
        filename: "f.mp4".to_string(),
        original_name: "demo.mp4".to_string(),
        content_type: "video/mp4".to_string(),
        size_bytes: 52428800,
        duration_secs_bits: Some(12.5f64.to_bits()),
        width: None,
        height: None,
        hls_ready: ready,
        created_at: "2026-04-05 23:02:49".to_string(),
    }
}

#[test]
fn links_of_a_token() {
    assert_eq!(stream_url("http://localhost", "a3f7bc12"), "http://localhost/api/stream/a3f7bc12");
    assert_eq!(share_url("http://localhost", "a3f7bc12"), "http://localhost/watch/a3f7bc12");
}

#[test]
fn video_response_copies_record() {
    let v = video("a3f7bc12", true);
    let r = VideoResponse::from_video(&v, "http://localhost");
    assert_eq!(r.token, "a3f7bc12");
    assert_eq!(r.original_name, "demo.mp4");
    assert_eq!(r.content_type, "video/mp4");
    assert_eq!(r.size_bytes, 52428800);
    assert_eq!(r.duration_secs_bits.map(f64::from_bits), Some(12.5));
    assert!(r.hls_ready);
    assert_eq!(r.created_at, "2026-04-05 23:02:49");
    assert_eq!(r.stream_url, "http://localhost/api/stream/a3f7bc12");
    assert_eq!(r.share_url, "http://localhost/watch/a3f7bc12");
}

#[test]
fn listing_keeps_order() {
    let vs = vec![video("bbbbbbbb", false), video("aaaaaaaa", true)];
    let rs = responses_from_videos(&vs, "https://s.example");
    assert_eq!(rs.len(), 2);
    assert_eq!(rs[0].token, "bbbbbbbb");
    assert_eq!(rs[1].share_url, "https://s.example/watch/aaaaaaaa");
    assert!(responses_from_videos(&[], "x").is_empty());
}

#[test]
fn remux_command_line() {
    let args = ffmpeg_args("/data/uploads/u.mp4", "/data/uploads/hls/t/seg%03d.ts", "/data/uploads/hls/t/playlist.m3u8");
    let expected = vec![
        "-i", "/data/uploads/u.mp4", "-c:v", "copy", "-c:a", "aac", "-hls_time", "2",
        "-hls_list_size", "0", "-hls_segment_type", "mpegts", "-hls_segment_filename",
        "/data/uploads/hls/t/seg%03d.ts", "-f", "hls", "/data/uploads/hls/t/playlist.m3u8",
    ];
    assert_eq!(args, expected);
}

#[test]
fn only_successful_remux_marks_ready() {
    assert_eq!(follow_up(TranscodeOutcome::Succeeded), TranscodeFollowUp::MarkHlsReady);
    assert_eq!(follow_up(TranscodeOutcome::Failed), TranscodeFollowUp::DiscardPartialOutput);
    assert_eq!(follow_up(TranscodeOutcome::NotStarted), TranscodeFollowUp::KeepRawStreamOnly);
}

#[test]
fn settings_defaults() {
    let s = Settings::from_values(None, None, None, None);
    assert_eq!(s.upload_dir, "/data/uploads");
    assert_eq!(s.db_path, "/app/streamvault.db");
    assert_eq!(s.base_url, "http://localhost");
    assert_eq!(s.bind_addr, "0.0.0.0:3000");
}

#[test]
fn settings_from_environment() {
    let s = Settings::from_values(
        Some("/tmp/sv-uploads".to_string()),
        Some("/tmp/sv.db".to_string()),
        Some("http://192.168.1.100:3000".to_string()),
        Some("127.0.0.1:8080".to_string()),
    );
    assert_eq!(s.upload_dir, "/tmp/sv-uploads");
    assert_eq!(s.db_path, "/tmp/sv.db");
    assert_eq!(s.base_url, "http://192.168.1.100:3000");
    assert_eq!(s.bind_addr, "127.0.0.1:8080");
}

#[test]
fn sqlite_url() {
    assert_eq!(database_url("/app/streamvault.db"), "sqlite:///app/streamvault.db?mode=rwc");
}
