//! Responses of the streaming endpoints, decided from what the request asks
//! and what is stored: byte-range streaming of the raw upload, the HLS
//! playlist with its fallback to the raw stream, and HLS segments.

use vstd::prelude::*;
use crate::error::AppError;
use crate::models::{stream_path, stream_path_of};
use crate::range::{lemma_open_range_runs_to_end, open_range_header, parse_range, range_of};
use crate::text::{
    all_digits, chars_of, concat3, decimal, has_char, is_digit, owned, push_all, push_decimal,
};

verus! {

/// One response header, by lower-case name.
#[derive(Debug)]
pub struct HeaderField {
    pub name: String,
    pub value: String,
}

/// The (name, value) text of each header, in order.
pub open spec fn header_texts(h: Seq<HeaderField>) -> Seq<(Seq<char>, Seq<char>)> {
    h.map_values(|f: HeaderField| (f.name@, f.value@))
}

fn header(name: &str, value: &str) -> (f: HeaderField)
    ensures
        f.name@ == name@,
        f.value@ == value@,
{
    HeaderField { name: owned(name), value: owned(value) }
}

/// The caching rule for the raw byte-range stream.
pub open spec fn stream_cache_rule() -> Seq<char> {
    "public, max-age=3600"@
}

/// The `Content-Range` value for bytes `start..=end` of a file of `size` bytes.
pub open spec fn content_range_text(start: u64, end: u64, size: u64) -> Seq<char> {
    "bytes "@ + decimal(start as nat) + "-"@ + decimal(end as nat) + "/"@ + decimal(size as nat)
}

/// How the raw upload is streamed for one request.
#[derive(Debug)]
pub struct StreamPlan {
    /// 206 for a byte range, 200 for the whole file.
    pub status: u16,
    /// The inclusive byte range sent, or `None` for the whole file.
    pub range: Option<(u64, u64)>,
    /// Number of bytes in the body.
    pub body_len: u64,
    /// Where to seek in the file before reading the body, when the body does
    /// not start at its first byte.
    pub seek_to: Option<u64>,
    pub headers: Vec<HeaderField>,
}

/// The byte range a request asks for, if it sends a `Range` header that is
/// understood.
pub open spec fn requested_range(range_header: Option<Seq<char>>, file_size: u64) -> Option<(u64, u64)> {
    match range_header {
        Some(h) => range_of(h, file_size),
        None => None,
    }
}

/// The headers of a streamed response.
pub open spec fn stream_headers(content_type: Seq<char>, file_size: u64, range: Option<(u64, u64)>) -> Seq<(Seq<char>, Seq<char>)> {
    match range {
        Some((s, e)) => seq![
            ("content-type"@, content_type),
            ("content-length"@, decimal((e - s + 1) as nat)),
            ("content-range"@, content_range_text(s, e, file_size)),
            ("accept-ranges"@, "bytes"@),
            ("cache-control"@, stream_cache_rule()),
        ],
        None => seq![
            ("content-type"@, content_type),
            ("content-length"@, decimal(file_size as nat)),
            ("accept-ranges"@, "bytes"@),
            ("cache-control"@, stream_cache_rule()),
        ],
    }
}

/// Decides how to stream a stored file of `file_size` bytes and media type
/// `content_type`, given the request's `Range` header value if it has one
/// (RFC 7233): 206 Partial Content with a `Content-Range` for a range that
/// is understood, otherwise 200 OK with the whole file and no
/// `Content-Range`. Both advertise `Accept-Ranges: bytes`.
pub fn plan_stream(content_type: &str, file_size: u64, range_header: Option<&str>) -> (p: StreamPlan)
    ensures
        ({
            let asked = requested_range(
                match range_header {
                    Some(h) => Some(h@),
                    None => None,
                },
                file_size,
            );
            &&& p.range == asked
            &&& header_texts(p.headers@) == stream_headers(content_type@, file_size, asked)
            &&& p.body_len == body_len_of(file_size, asked)
            &&& match asked {
                Some((s, e)) => {
                    &&& p.status == 206
                    &&& p.body_len == e - s + 1
                    &&& s <= e < file_size
                    &&& p.seek_to == if s > 0 { Some(s) } else { None::<u64> }
                },
                None => p.status == 200 && p.body_len == file_size && p.seek_to is None,
            }
        }),
{
    let range = match range_header {
        Some(h) => parse_range(h, file_size),
        None => None,
    };
    let mut headers: Vec<HeaderField> = Vec::new();
    headers.push(header("content-type", content_type));
    match range {
        Some((start, end)) => {
            let len = end - start + 1;
            let mut cr = owned("bytes ");
            push_decimal(&mut cr, start);
            push_all(&mut cr, "-");
            push_decimal(&mut cr, end);
            push_all(&mut cr, "/");
            push_decimal(&mut cr, file_size);
            let mut cl = String::new();
            push_decimal(&mut cl, len);
            headers.push(HeaderField { name: owned("content-length"), value: cl });
            headers.push(HeaderField { name: owned("content-range"), value: cr });
            headers.push(header("accept-ranges", "bytes"));
            headers.push(header("cache-control", "public, max-age=3600"));
            assert(header_texts(headers@) =~= stream_headers(content_type@, file_size, range));
            let seek_to = if start > 0 {
                Some(start)
            } else {
                None
            };
            StreamPlan { status: 206, range, body_len: len, seek_to, headers }
        },
        None => {
            let mut cl = String::new();
            push_decimal(&mut cl, file_size);
            headers.push(HeaderField { name: owned("content-length"), value: cl });
            headers.push(header("accept-ranges", "bytes"));
            headers.push(header("cache-control", "public, max-age=3600"));
            assert(header_texts(headers@) =~= stream_headers(content_type@, file_size, range));
            StreamPlan { status: 200, range, body_len: file_size, seek_to: None, headers }
        },
    }
}

/// Whether a header list names `name`.
pub open spec fn has_header(h: Seq<(Seq<char>, Seq<char>)>, name: Seq<char>) -> bool {
    exists|i: int| 0 <= i < h.len() && (#[trigger] h[i]).0 == name
}

/// Law: a streamed response carries `Content-Range` exactly when it is a
/// 206 partial response; a 200 full-file response never does (RFC 7233
/// section 4.1).
pub proof fn lemma_content_range_only_on_partial(
    content_type: Seq<char>,
    file_size: u64,
    range: Option<(u64, u64)>,
)
    ensures
        has_header(stream_headers(content_type, file_size, range), "content-range"@) <==> range
            is Some,
{
    reveal_strlit("content-range");
    reveal_strlit("content-type");
    reveal_strlit("content-length");
    reveal_strlit("accept-ranges");
    reveal_strlit("cache-control");
    let h = stream_headers(content_type, file_size, range);
    if range is Some {
        assert(h[2].0 == "content-range"@);
    } else {
        assert forall|i: int| 0 <= i < h.len() implies (#[trigger] h[i]).0 != "content-range"@ by {
            assert("content-type"@[8] != "content-range"@[8]);
            assert("content-length"@[8] != "content-range"@[8]);
        }
    }
}

/// The number of body bytes sent for a file of `file_size` bytes.
pub open spec fn body_len_of(file_size: u64, range: Option<(u64, u64)>) -> nat {
    match range {
        Some((s, e)) => (e - s + 1) as nat,
        None => file_size as nat,
    }
}

/// Law: the `Content-Length` of a streamed response is the decimal number
/// of body bytes sent, for a partial and for a full response alike.
pub proof fn lemma_content_length_matches_body(
    content_type: Seq<char>,
    file_size: u64,
    range: Option<(u64, u64)>,
)
    requires
        range matches Some((s, e)) ==> s <= e,
    ensures
        stream_headers(content_type, file_size, range)[1] == ("content-length"@, decimal(
            body_len_of(file_size, range),
        )),
{
}

/// Law: the body of a partial response is exactly the requested bytes and
/// lies inside the file: it starts at `start`, ends at `end`, and
/// `end < file_size`.
pub proof fn lemma_partial_body_inside_file(range_header: Seq<char>, file_size: u64)
    ensures
        range_of(range_header, file_size) matches Some((s, e)) ==> (s + (e - s + 1) == e + 1 && e
            + 1 <= file_size),
{
}

/// Law: a request with a `Range` header is answered with exactly the range
/// that the header names in the file, when it names one, whatever that range
/// is (one that covers the whole file included); a request without the header
/// gets the whole file.
pub proof fn lemma_range_header_decides_range(range_header: Seq<char>, file_size: u64)
    ensures
        requested_range(Some(range_header), file_size) == range_of(range_header, file_size),
        requested_range(None, file_size) is None,
{
}

/// Law: `bytes=0-`, the first request a media player sends, asks for the
/// whole of a non-empty file as a range, so it is answered 206 with the range
/// from the first byte to the last.
pub proof fn lemma_open_range_from_start_is_whole_file(file_size: u64)
    requires
        file_size > 0,
    ensures
        requested_range(Some(open_range_header(0)), file_size) == Some(
            (0u64, (file_size - 1) as u64),
        ),
{
    lemma_open_range_runs_to_end(0, file_size);
}

// ---------------------------------------------------------------------------
// HLS

/// The file name of a token's HLS playlist.
pub const PLAYLIST_FILE: &'static str = "playlist.m3u8";

/// The file name of a token's HLS playlist.
pub open spec fn playlist_name() -> Seq<char> {
    PLAYLIST_FILE@
}

/// How the HLS playlist endpoint answers.
#[derive(Debug)]
pub enum PlaylistPlan {
    /// The remux is not finished: 307 to the raw byte-range stream.
    RedirectToStream { headers: Vec<HeaderField> },
    /// 200 with the playlist file read from `hls/<token>/playlist.m3u8`
    /// below the upload directory.
    ServePlaylist { path: Vec<String>, headers: Vec<HeaderField> },
}

impl PlaylistPlan {
    /// The HTTP status of the answer: 307 Temporary Redirect, which keeps
    /// the method and is not remembered, or 200 OK.
    pub fn status_code(&self) -> (code: u16)
        ensures
            self is RedirectToStream ==> code == 307,
            self is ServePlaylist ==> code == 200,
    {
        match self {
            PlaylistPlan::RedirectToStream { .. } => 307,
            PlaylistPlan::ServePlaylist { .. } => 200,
        }
    }
}

/// The path segments of a token's HLS directory, below the upload directory.
pub fn hls_dir(token: &str) -> (p: Vec<String>)
    ensures
        p@.map_values(|s: String| s@) == seq!["hls"@, token@],
{
    let mut p: Vec<String> = Vec::new();
    p.push(owned("hls"));
    p.push(owned(token));
    assert(p@.map_values(|s: String| s@) =~= seq!["hls"@, token@]);
    p
}

/// The path segments of a file of a token's HLS output, below the upload
/// directory.
pub open spec fn hls_path_of(token: Seq<char>, file: Seq<char>) -> Seq<Seq<char>> {
    seq!["hls"@, token, file]
}

/// The path segments of a file of a token's HLS output.
pub fn hls_path(token: &str, file: &str) -> (p: Vec<String>)
    ensures
        p@.map_values(|s: String| s@) == hls_path_of(token@, file@),
{
    let mut p: Vec<String> = Vec::new();
    p.push(owned("hls"));
    p.push(owned(token));
    p.push(owned(file));
    assert(p@.map_values(|s: String| s@) =~= hls_path_of(token@, file@));
    p
}

/// Decides the answer of the HLS playlist endpoint for a stored video.
/// While its remux is not ready the client is sent, with 307 Temporary
/// Redirect and `Cache-Control: no-store`, to the raw stream of the same
/// token; once ready the playlist is served uncached.
pub fn plan_hls_playlist(token: &str, hls_ready: bool) -> (p: PlaylistPlan)
    ensures
        !hls_ready ==> (p matches PlaylistPlan::RedirectToStream { headers } && header_texts(
            headers@,
        ) == seq![("location"@, stream_path_of(token@)), ("cache-control"@, "no-store"@)]),
        hls_ready ==> (p matches PlaylistPlan::ServePlaylist { path, headers } && path@.map_values(
            |s: String| s@,
        ) == hls_path_of(token@, playlist_name()) && header_texts(headers@) == seq![
            ("content-type"@, "application/vnd.apple.mpegurl"@),
            ("cache-control"@, "no-cache, no-store"@),
        ]),
{
    let mut headers: Vec<HeaderField> = Vec::new();
    if !hls_ready {
        headers.push(HeaderField { name: owned("location"), value: stream_path(token) });
        headers.push(header("cache-control", "no-store"));
        assert(header_texts(headers@) =~= seq![
            ("location"@, stream_path_of(token@)),
            ("cache-control"@, "no-store"@),
        ]);
        PlaylistPlan::RedirectToStream { headers }
    } else {
        headers.push(header("content-type", "application/vnd.apple.mpegurl"));
        headers.push(header("cache-control", "no-cache, no-store"));
        assert(header_texts(headers@) =~= seq![
            ("content-type"@, "application/vnd.apple.mpegurl"@),
            ("cache-control"@, "no-cache, no-store"@),
        ]);
        PlaylistPlan::ServePlaylist { path: hls_path(token, PLAYLIST_FILE), headers }
    }
}

/// Law: the place the playlist endpoint sends a client while the remux is
/// not ready is the raw stream whose full URL the video's `stream_url`
/// gives: that URL is the base URL followed by the redirect's location.
pub proof fn lemma_fallback_redirect_is_stream_url(base_url: Seq<char>, token: Seq<char>)
    ensures
        crate::models::stream_url_of(base_url, token) == base_url + stream_path_of(token),
{
}

/// `s` contains `..`.
pub open spec fn has_double_dot(s: Seq<char>) -> bool {
    exists|i: int| 0 <= i < s.len() - 1 && #[trigger] s[i] == '.' && s[i + 1] == '.'
}

/// A segment name that cannot leave the token's HLS directory: no `/`, no
/// `..`, and no leading `.`.
pub open spec fn is_safe_segment_name(s: Seq<char>) -> bool {
    &&& !has_char(s, '/')
    &&& !has_double_dot(s)
    &&& !(s.len() > 0 && s[0] == '.')
}

/// Law: a segment name is refused only for what could leave the token's
/// directory: a `/`, two dots in a row, or a leading dot. Any other name is
/// accepted, whatever its length.
pub proof fn lemma_segment_refused_only_for_escape(s: Seq<char>)
    ensures
        is_safe_segment_name(s) <==> ({
            &&& forall|i: int| 0 <= i < s.len() ==> #[trigger] s[i] != '/'
            &&& forall|i: int| 0 <= i < s.len() - 1 ==> !(#[trigger] s[i] == '.' && s[i + 1] == '.')
            &&& s.len() == 0 || s[0] != '.'
        }),
{
}

/// Law: every segment name that `ffmpeg` writes for the pattern `seg%03d.ts`
/// (`seg`, decimal digits, `.ts`) is accepted, however many digits the
/// number has.
pub proof fn lemma_numbered_segments_accepted(digits: Seq<char>)
    requires
        all_digits(digits),
    ensures
        is_safe_segment_name(seq!['s', 'e', 'g'] + digits + seq!['.', 't', 's']),
{
    let s = seq!['s', 'e', 'g'] + digits + seq!['.', 't', 's'];
    let n = digits.len() as int;
    assert forall|i: int| 0 <= i < s.len() implies #[trigger] s[i] != '/' && (s[i] == '.'
        <==> i == 3 + n) by {
        if 3 <= i < 3 + n {
            assert(s[i] == digits[i - 3]);
            assert(is_digit(digits[i - 3]));
        }
    }
    lemma_segment_refused_only_for_escape(s);
}

/// Whether a requested segment name is a plain file name.
pub fn segment_name_is_safe(segment: &str) -> (ok: bool)
    ensures
        ok == is_safe_segment_name(segment@),
{
    let cs = chars_of(segment);
    let n = cs.len();
    if n > 0 && cs[0] == '.' {
        return false;
    }
    for i in 0..n
        invariant
            n == cs@.len(),
            cs@ == segment@,
            !(n > 0 && cs@[0] == '.'),
            forall|j: int| 0 <= j < i ==> cs@[j] != '/',
            forall|j: int| 0 <= j < i && j + 1 < n ==> !(#[trigger] cs@[j] == '.' && cs@[j + 1] == '.'),
    {
        if cs[i] == '/' {
            return false;
        }
        if i + 1 < n && cs[i] == '.' && cs[i + 1] == '.' {
            return false;
        }
    }
    true
}

/// How the HLS segment endpoint answers when the segment name is accepted.
#[derive(Debug)]
pub struct SegmentPlan {
    /// Path segments below the upload directory.
    pub path: Vec<String>,
    pub headers: Vec<HeaderField>,
}

/// Decides the answer of the HLS segment endpoint. A segment name that
/// could escape the token's directory (`/`, `..`, or a leading `.`) is
/// refused with 400, whatever the token; then a token with a `/` (which an
/// encoded `%2F` can carry) is refused with 400, as it could lead out of
/// the upload directory. Otherwise the segment file is served as MPEG-TS
/// and may be cached for a day, as segments never change.
pub fn plan_hls_segment(token: &str, segment: &str) -> (r: Result<SegmentPlan, AppError>)
    ensures
        !is_safe_segment_name(segment@) ==> (r matches Err(AppError::BadRequest(m)) && m@
            == "Invalid segment name"@),
        is_safe_segment_name(segment@) && has_char(token@, '/') ==> (r matches Err(
            AppError::BadRequest(m),
        ) && m@ == "Invalid token"@),
        is_safe_segment_name(segment@) && !has_char(token@, '/') ==> (r matches Ok(p)
            && p.path@.map_values(|s: String| s@) == hls_path_of(token@, segment@) && header_texts(
            p.headers@,
        ) == seq![
            ("content-type"@, "video/mp2t"@),
            ("cache-control"@, "public, max-age=86400, immutable"@),
        ]),
{
    if !segment_name_is_safe(segment) {
        return Err(AppError::BadRequest(owned("Invalid segment name")));
    }
    if has_slash(token) {
        return Err(AppError::BadRequest(owned("Invalid token")));
    }
    let mut headers: Vec<HeaderField> = Vec::new();
    headers.push(header("content-type", "video/mp2t"));
    headers.push(header("cache-control", "public, max-age=86400, immutable"));
    assert(header_texts(headers@) =~= seq![
        ("content-type"@, "video/mp2t"@),
        ("cache-control"@, "public, max-age=86400, immutable"@),
    ]);
    Ok(SegmentPlan { path: hls_path(token, segment), headers })
}

/// Whether `s` contains a `/`.
pub fn has_slash(s: &str) -> (b: bool)
    ensures
        b == has_char(s@, '/'),
{
    let cs = chars_of(s);
    let n = cs.len();
    for i in 0..n
        invariant
            n == cs@.len(),
            cs@ == s@,
            forall|j: int| 0 <= j < i ==> cs@[j] != '/',
    {
        if cs[i] == '/' {
            return true;
        }
    }
    false
}

/// Law: a segment path that is served is `hls`, a token with no `/`, and a
/// plain segment name with no `/`, no `..` and no leading `.`. With no `/`
/// in any part, the path goes at most one level up from `hls` (a token
/// `..`) and so stays inside the upload directory.
pub proof fn lemma_segment_path_stays_in_upload_dir(token: Seq<char>, segment: Seq<char>)
    requires
        !has_char(token, '/'),
        is_safe_segment_name(segment),
    ensures
        hls_path_of(token, segment)[0] == "hls"@,
        forall|k: int| 0 <= k < 3 ==> !has_char(#[trigger] hls_path_of(token, segment)[k], '/'),
        !has_double_dot(hls_path_of(token, segment)[2]),
        !(segment.len() > 0 && hls_path_of(token, segment)[2][0] == '.'),
{
    reveal_strlit("hls");
    assert(!has_char("hls"@, '/')) by {
        assert forall|i: int| 0 <= i < "hls"@.len() implies "hls"@[i] != '/' by {}
    }
}

/// The error for a segment file that cannot be opened.
pub fn segment_not_found(segment: &str) -> (e: AppError)
    ensures
        e matches AppError::NotFound(m) && m@ == "Segment "@ + segment@ + " not found"@,
{
    AppError::NotFound(concat3("Segment ", segment, " not found"))
}

/// The error for a token that names no stored video.
pub fn video_not_found(token: &str) -> (e: AppError)
    ensures
        e matches AppError::NotFound(m) && m@ == "Video "@ + token@ + " not found"@,
{
    AppError::NotFound(concat3("Video ", token, " not found"))
}

} // verus!
