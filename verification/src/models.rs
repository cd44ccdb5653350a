//! Stored video records and the JSON shapes handed to clients.

use vstd::prelude::*;
use crate::text::{concat3, owned};

verus! {

/// A stored video, as kept in the database.
///
/// The clip duration is held as the bit pattern of an `f64`
/// (`f64::to_bits`); the library only carries it along.
#[derive(Debug)]
pub struct Video {
    pub id: Option<i64>,
    pub token: String,
    pub filename: String,
    pub original_name: String,
    pub content_type: String,
    pub size_bytes: i64,
    pub duration_secs_bits: Option<u64>,
    pub width: Option<i64>,
    pub height: Option<i64>,
    pub hls_ready: bool,
    pub created_at: String,
}

/// What a client is told about a stored video.
#[derive(Debug)]
pub struct VideoResponse {
    pub token: String,
    pub original_name: String,
    pub content_type: String,
    pub size_bytes: i64,
    pub duration_secs_bits: Option<u64>,
    pub hls_ready: bool,
    pub created_at: String,
    pub stream_url: String,
    pub share_url: String,
}

/// What a client is told after a successful upload.
#[derive(Debug)]
pub struct UploadResponse {
    pub token: String,
    pub share_url: String,
    pub stream_url: String,
    pub original_name: String,
    pub size_bytes: i64,
}

/// Path of the byte-range stream of a token, below the base URL.
pub open spec fn stream_path_of(token: Seq<char>) -> Seq<char> {
    "/api/stream/"@ + token
}

/// URL of the byte-range stream of a token.
pub open spec fn stream_url_of(base_url: Seq<char>, token: Seq<char>) -> Seq<char> {
    base_url + stream_path_of(token)
}

/// URL of the watch page of a token, the link that is shared.
pub open spec fn share_url_of(base_url: Seq<char>, token: Seq<char>) -> Seq<char> {
    base_url + "/watch/"@ + token
}

/// The path of the byte-range stream of a token.
pub fn stream_path(token: &str) -> (out: String)
    ensures
        out@ == stream_path_of(token@),
{
    let mut out = owned("/api/stream/");
    crate::text::push_all(&mut out, token);
    out
}

/// The URL of the byte-range stream of a token.
pub fn stream_url(base_url: &str, token: &str) -> (out: String)
    ensures
        out@ == stream_url_of(base_url@, token@),
{
    let out = concat3(base_url, "/api/stream/", token);
    assert(out@ == stream_url_of(base_url@, token@));
    out
}

/// The URL of the watch page of a token.
pub fn share_url(base_url: &str, token: &str) -> (out: String)
    ensures
        out@ == share_url_of(base_url@, token@),
{
    concat3(base_url, "/watch/", token)
}

impl VideoResponse {
    /// The client's view of a stored video, with its links under `base_url`.
    pub fn from_video(v: &Video, base_url: &str) -> (r: Self)
        ensures
            r.token@ == v.token@,
            r.original_name@ == v.original_name@,
            r.content_type@ == v.content_type@,
            r.size_bytes == v.size_bytes,
            r.duration_secs_bits == v.duration_secs_bits,
            r.hls_ready == v.hls_ready,
            r.created_at@ == v.created_at@,
            r.stream_url@ == stream_url_of(base_url@, v.token@),
            r.share_url@ == share_url_of(base_url@, v.token@),
    {
        VideoResponse {
            token: owned(v.token.as_str()),
            original_name: owned(v.original_name.as_str()),
            content_type: owned(v.content_type.as_str()),
            size_bytes: v.size_bytes,
            duration_secs_bits: v.duration_secs_bits,
            hls_ready: v.hls_ready,
            created_at: owned(v.created_at.as_str()),
            stream_url: stream_url(base_url, v.token.as_str()),
            share_url: share_url(base_url, v.token.as_str()),
        }
    }
}

/// The client's view of each video of a listing, in the listing's order.
pub fn responses_from_videos(videos: &[Video], base_url: &str) -> (out: Vec<VideoResponse>)
    ensures
        out@.len() == videos@.len(),
        forall|i: int|
            0 <= i < videos@.len() ==> {
                let r = #[trigger] out@[i];
                let v = videos@[i];
                &&& r.token@ == v.token@
                &&& r.original_name@ == v.original_name@
                &&& r.content_type@ == v.content_type@
                &&& r.size_bytes == v.size_bytes
                &&& r.duration_secs_bits == v.duration_secs_bits
                &&& r.hls_ready == v.hls_ready
                &&& r.created_at@ == v.created_at@
                &&& r.stream_url@ == stream_url_of(base_url@, v.token@)
                &&& r.share_url@ == share_url_of(base_url@, v.token@)
            },
{
    let mut out: Vec<VideoResponse> = Vec::new();
    let n = videos.len();
    for k in 0..n
        invariant
            n == videos@.len(),
            out@.len() == k,
            forall|i: int|
                0 <= i < k ==> {
                    let r = #[trigger] out@[i];
                    let v = videos@[i];
                    &&& r.token@ == v.token@
                    &&& r.original_name@ == v.original_name@
                    &&& r.content_type@ == v.content_type@
                    &&& r.size_bytes == v.size_bytes
                    &&& r.duration_secs_bits == v.duration_secs_bits
                    &&& r.hls_ready == v.hls_ready
                    &&& r.created_at@ == v.created_at@
                    &&& r.stream_url@ == stream_url_of(base_url@, v.token@)
                    &&& r.share_url@ == share_url_of(base_url@, v.token@)
                },
    {
        out.push(VideoResponse::from_video(&videos[k], base_url));
    }
    out
}

} // verus!
