//! Decisions of an upload: which multipart field carries the video, whether
//! its type is accepted, the names it is stored and shared under, and the
//! running size check against the 1 GB limit.

use vstd::prelude::*;
use crate::error::AppError;
use crate::media::{
    allowed_type, extension_for, extension_from_content_type, infer_content_type, inferred_type,
    is_allowed_type, is_stored_extension, lemma_stored_extension_fixed, octet_stream,
};
use crate::models::{Video, UploadResponse, share_url, share_url_of, stream_url, stream_url_of};
use crate::text::{concat2, concat3, has_char, owned, str_equal};
use crate::token::{generate_token, is_token, random_source_failed};

verus! {

/// The largest upload accepted, in bytes (1 GiB).
pub const MAX_UPLOAD_BYTES: usize = 1073741824;

/// A lower-case hexadecimal digit.
pub open spec fn is_lower_hex(c: char) -> bool {
    ('0' <= c && c <= '9') || ('a' <= c && c <= 'f')
}

/// The lower-case hexadecimal digit of a value below 16.
pub open spec fn hex_digit(n: u8) -> char {
    if n < 10 {
        (n + 48) as char
    } else {
        (n - 10 + 97) as char
    }
}

/// Sixteen random bytes with the version-4 and RFC 4122 variant bits set:
/// byte 6 gets high nibble 4, byte 8 gets high bits `10`.
pub open spec fn uuid_v4_bytes(random: Seq<u8>) -> Seq<u8> {
    random.update(6, (random[6] & 0x0fu8) | 0x40u8).update(8, (random[8] & 0x3fu8) | 0x80u8)
}

/// The number of hyphens before position `i` of the hyphenated form.
pub open spec fn hyphens_before(i: int) -> int {
    if i < 8 {
        0
    } else if i < 13 {
        1
    } else if i < 18 {
        2
    } else if i < 23 {
        3
    } else {
        4
    }
}

/// Half-byte `j` of `b`, the high half of each byte first.
pub open spec fn nibble(b: Seq<u8>, j: int) -> u8 {
    if j % 2 == 0 {
        b[j / 2] >> 4u8
    } else {
        b[j / 2] & 0x0fu8
    }
}

/// The lower-case hyphenated form of sixteen bytes, as `8-4-4-4-12`
/// hexadecimal digits.
pub open spec fn hyphenated_hex(b: Seq<u8>) -> Seq<char> {
    Seq::new(
        36,
        |i: int|
            if i == 8 || i == 13 || i == 18 || i == 23 {
                '-'
            } else {
                hex_digit(nibble(b, i - hyphens_before(i)))
            },
    )
}

/// Calls `uuid::Builder::from_random_bytes` (with `into_uuid`) and writes
/// the UUID with its `Display` impl through `format!`. The builder sets the
/// version-4 and RFC 4122 variant bits of the given bytes, and `Display`
/// writes the lower-case hyphenated form of the sixteen bytes.
#[verifier::external_body]
fn uuid_v4_text(random: [u8; 16]) -> (t: String)
    ensures
        t@ == hyphenated_hex(uuid_v4_bytes(random@)),
{
    format!("{}", uuid::Builder::from_random_bytes(random).into_uuid())
}

/// The hyphenated text form of a random (version 4) UUID: 36 characters,
/// `-` at positions 8, 13, 18 and 23, lower-case hexadecimal digits
/// elsewhere, `4` at position 14 and one of `8`, `9`, `a`, `b` at 19.
pub open spec fn is_uuid_text(t: Seq<char>) -> bool {
    &&& t.len() == 36
    &&& forall|i: int|
        0 <= i < 36 ==> if i == 8 || i == 13 || i == 18 || i == 23 {
            #[trigger] t[i] == '-'
        } else {
            is_lower_hex(t[i])
        }
    &&& t[14] == '4'
    &&& (t[19] == '8' || t[19] == '9' || t[19] == 'a' || t[19] == 'b')
}

proof fn lemma_nibble_small(b: u8)
    ensures
        b >> 4u8 < 16,
        b & 0x0fu8 < 16,
{
    assert(b >> 4u8 < 16) by (bit_vector);
    assert(b & 0x0fu8 < 16) by (bit_vector);
}

/// Law: the text of a UUID made from any sixteen random bytes is a
/// well-formed version-4 UUID text.
pub proof fn lemma_uuid_v4_text_shape(random: Seq<u8>)
    requires
        random.len() == 16,
    ensures
        is_uuid_text(hyphenated_hex(uuid_v4_bytes(random))),
{
    let b = uuid_v4_bytes(random);
    let t = hyphenated_hex(b);
    assert forall|i: int|
        0 <= i < 36 implies if i == 8 || i == 13 || i == 18 || i == 23 {
        #[trigger] t[i] == '-'
    } else {
        is_lower_hex(t[i])
    } by {
        if !(i == 8 || i == 13 || i == 18 || i == 23) {
            let j = i - hyphens_before(i);
            lemma_nibble_small(b[j / 2]);
        }
    }
    let b6 = random[6];
    let b8 = random[8];
    assert(((b6 & 0x0fu8) | 0x40u8) >> 4u8 == 4u8) by (bit_vector);
    assert(8u8 <= ((b8 & 0x3fu8) | 0x80u8) >> 4u8 <= 11u8) by (bit_vector);
    assert(t[14] == hex_digit(nibble(b, 12)));
    assert(t[19] == hex_digit(nibble(b, 16)));
}

/// Calls `RngCore::try_fill_bytes` on `rand::rngs::OsRng`, which fills the
/// buffer from the operating system's random source (`getrandom`) and
/// reports a failure of that source as an error instead of panicking.
/// Returns whether it succeeded; the buffer keeps its length. Which bytes
/// it holds afterwards is chance and is left unsaid.
#[verifier::external_body]
fn fill_from_os(buf: &mut Vec<u8>) -> (ok: bool)
    ensures
        final(buf)@.len() == old(buf)@.len(),
{
    rand::RngCore::try_fill_bytes(&mut rand::rngs::OsRng, buf.as_mut_slice()).is_ok()
}

/// A buffer of `n` zero bytes.
fn zero_bytes(n: usize) -> (buf: Vec<u8>)
    ensures
        buf@.len() == n,
{
    let mut buf: Vec<u8> = Vec::new();
    for _i in 0..n
        invariant
            buf@.len() == _i,
    {
        buf.push(0u8);
    }
    buf
}

/// Law: a stored name made of a UUID text, `.`, and a stored extension has
/// no `/`, so it names a file directly inside the upload directory.
pub proof fn lemma_stored_name_has_no_slash(id: Seq<char>, ext: Seq<char>)
    requires
        is_uuid_text(id),
        is_stored_extension(ext),
    ensures
        !has_char(id + "."@ + ext, '/'),
{
    reveal_strlit(".");
    reveal_strlit("mp4");
    reveal_strlit("webm");
    reveal_strlit("mov");
    reveal_strlit("avi");
    reveal_strlit("mkv");
    reveal_strlit("ts");
    reveal_strlit("mpeg");
    reveal_strlit("ogg");
    reveal_strlit("bin");
    let s = id + "."@ + ext;
    assert forall|i: int| 0 <= i < s.len() implies s[i] != '/' by {
        if i < 36 {
            assert(s[i] == id[i]);
        } else if i == 36 {
            assert(s[i] == '.');
        } else {
            assert(s[i] == ext[i - 37]);
        }
    }
}

/// Sixteen random bytes from the operating system, or `None` when its
/// random source fails.
fn random_16_bytes() -> (out: Option<[u8; 16]>) {
    let mut buf = zero_bytes(16);
    if !fill_from_os(&mut buf) {
        return None;
    }
    Some(
        [
            buf[0],
            buf[1],
            buf[2],
            buf[3],
            buf[4],
            buf[5],
            buf[6],
            buf[7],
            buf[8],
            buf[9],
            buf[10],
            buf[11],
            buf[12],
            buf[13],
            buf[14],
            buf[15],
        ],
    )
}

/// The view of an optional string.
pub open spec fn opt_view(o: Option<&str>) -> Option<Seq<char>> {
    match o {
        Some(s) => Some(s@),
        None => None,
    }
}

/// The multipart field named `video` carries the upload.
pub open spec fn is_video_field_name(name: Option<Seq<char>>) -> bool {
    name == Some("video"@)
}

/// The file name recorded for an upload: the one sent, or `upload`.
pub open spec fn original_name_of(file_name: Option<Seq<char>>) -> Seq<char> {
    match file_name {
        Some(n) => n,
        None => "upload"@,
    }
}

/// The declared media type of an upload: the one sent, or the generic one.
pub open spec fn declared_type_of(content_type: Option<Seq<char>>) -> Seq<char> {
    match content_type {
        Some(t) => t,
        None => octet_stream(),
    }
}

/// The media type an upload is stored with.
pub open spec fn upload_type_of(file_name: Option<Seq<char>>, content_type: Option<Seq<char>>) -> Seq<char> {
    inferred_type(original_name_of(file_name), declared_type_of(content_type))
}

/// The extension a stored upload gets.
pub open spec fn upload_extension_of(file_name: Option<Seq<char>>, content_type: Option<Seq<char>>) -> Seq<char> {
    extension_for(upload_type_of(file_name, content_type))
}

/// Where and under which names an accepted upload is kept.
#[derive(Debug)]
pub struct UploadPlan {
    pub token: String,
    pub original_name: String,
    pub content_type: String,
    pub stored_filename: String,
}

/// Whether a multipart field is the one that carries the video.
pub fn is_video_field(name: Option<&str>) -> (b: bool)
    ensures
        b == is_video_field_name(opt_view(name)),
{
    match name {
        Some(n) => str_equal(n, "video"),
        None => false,
    }
}

/// Whether an upload with the given multipart file name and declared type
/// has an accepted media type.
pub fn upload_type_accepted(file_name: Option<&str>, content_type: Option<&str>) -> (ok: bool)
    ensures
        ok == allowed_type(upload_type_of(opt_view(file_name), opt_view(content_type))),
{
    let original_name: &str = match file_name {
        Some(n) => n,
        None => "upload",
    };
    let declared: &str = match content_type {
        Some(t) => t,
        None => "application/octet-stream",
    };
    let ct = infer_content_type(original_name, declared);
    is_allowed_type(ct.as_str())
}

/// The plan for an upload with the given multipart file name and declared
/// type, once its token and the identifier of its stored file are chosen.
pub fn plan_upload(
    file_name: Option<&str>,
    content_type: Option<&str>,
    token: &str,
    file_id: &str,
) -> (r: Result<UploadPlan, AppError>)
    ensures
        !allowed_type(upload_type_of(opt_view(file_name), opt_view(content_type))) ==> r
            == Err::<UploadPlan, AppError>(AppError::UnsupportedFormat),
        allowed_type(upload_type_of(opt_view(file_name), opt_view(content_type))) ==> (r matches Ok(
            p,
        ) && p.token@ == token@ && p.original_name@ == original_name_of(opt_view(file_name))
            && p.content_type@ == upload_type_of(opt_view(file_name), opt_view(content_type))
            && p.stored_filename@ == file_id@ + "."@ + upload_extension_of(
            opt_view(file_name),
            opt_view(content_type),
        )),
{
    let original_name: &str = match file_name {
        Some(n) => n,
        None => "upload",
    };
    let declared: &str = match content_type {
        Some(t) => t,
        None => "application/octet-stream",
    };
    let ct = infer_content_type(original_name, declared);
    if !is_allowed_type(ct.as_str()) {
        return Err(AppError::UnsupportedFormat);
    }
    let ext = extension_from_content_type(ct.as_str());
    let stored = concat3(file_id, ".", ext.as_str());
    Ok(
        UploadPlan {
            token: owned(token),
            original_name: owned(original_name),
            content_type: ct,
            stored_filename: stored,
        },
    )
}

/// Starts an upload: checks its media type and, when it is accepted, draws
/// a fresh share token and a random version-4 UUID that names the stored
/// file. The stored name is the UUID text, `.`, and an extension from a
/// fixed set; nothing of the client's file name goes into it. Fails with an
/// internal error when the operating system's random source fails.
pub fn begin_upload(file_name: Option<&str>, content_type: Option<&str>) -> (r: Result<
    UploadPlan,
    AppError,
>)
    ensures
        !allowed_type(upload_type_of(opt_view(file_name), opt_view(content_type))) ==> r
            == Err::<UploadPlan, AppError>(AppError::UnsupportedFormat),
        allowed_type(upload_type_of(opt_view(file_name), opt_view(content_type))) ==> match r {
            Ok(p) => {
                &&& is_token(p.token@)
                &&& p.original_name@ == original_name_of(opt_view(file_name))
                &&& p.content_type@ == upload_type_of(opt_view(file_name), opt_view(content_type))
                &&& is_uuid_text(p.stored_filename@.take(36))
                &&& p.stored_filename@ == p.stored_filename@.take(36) + "."@ + upload_extension_of(
                    opt_view(file_name),
                    opt_view(content_type),
                )
                &&& !has_char(p.stored_filename@, '/')
                &&& is_stored_extension(upload_extension_of(opt_view(file_name), opt_view(content_type)))
            },
            Err(e) => e matches AppError::Internal(m) && m@ == "random source unavailable"@,
        },
{
    if !upload_type_accepted(file_name, content_type) {
        return Err(AppError::UnsupportedFormat);
    }
    let token = match generate_token() {
        Ok(t) => t,
        Err(e) => {
            return Err(e);
        },
    };
    let random = match random_16_bytes() {
        Some(b) => b,
        None => {
            return Err(random_source_failed());
        },
    };
    let id = uuid_v4_text(random);
    proof {
        lemma_uuid_v4_text_shape(random@);
    }
    let r = plan_upload(file_name, content_type, token.as_str(), id.as_str());
    proof {
        lemma_stored_extension_fixed(upload_type_of(opt_view(file_name), opt_view(content_type)));
        if r is Ok {
            let stored = r->Ok_0.stored_filename@;
            let ext = upload_extension_of(opt_view(file_name), opt_view(content_type));
            assert(stored.take(36) =~= id@);
            assert(stored == id@ + "."@ + ext);
            lemma_stored_name_has_no_slash(id@, ext);
        }
    }
    r
}

/// The running byte count of an upload being received; it never exceeds
/// `MAX_UPLOAD_BYTES`.
pub struct UploadProgress {
    total: usize,
}

impl UploadProgress {
    #[verifier::type_invariant]
    spec fn within_limit(self) -> bool {
        self.total <= MAX_UPLOAD_BYTES
    }

    /// Bytes received so far.
    pub closed spec fn received(self) -> nat {
        self.total as nat
    }

    /// No bytes received yet.
    pub fn new() -> (p: Self)
        ensures
            p.received() == 0,
    {
        UploadProgress { total: 0 }
    }

    /// Counts a received chunk of `len` bytes. When the upload would then
    /// exceed the limit, the chunk is refused with `FileTooLarge` and the
    /// count stays as it was.
    pub fn add_chunk(&mut self, len: usize) -> (r: Result<(), AppError>)
        ensures
            old(self).received() + len <= MAX_UPLOAD_BYTES ==> r == Ok::<(), AppError>(())
                && final(self).received() == old(self).received() + len,
            old(self).received() + len > MAX_UPLOAD_BYTES ==> r == Err::<(), AppError>(
                AppError::FileTooLarge,
            ) && final(self).received() == old(self).received(),
    {
        proof {
            use_type_invariant(&*self);
        }
        if len > MAX_UPLOAD_BYTES - self.total {
            Err(AppError::FileTooLarge)
        } else {
            self.total = self.total + len;
            Ok(())
        }
    }

    /// Bytes received so far.
    pub fn total(&self) -> (n: usize)
        ensures
            n == self.received(),
            n <= MAX_UPLOAD_BYTES,
    {
        proof {
            use_type_invariant(self);
        }
        self.total
    }
}

/// What happened while reading the next chunk of the video field.
#[derive(Debug)]
pub enum ChunkEvent {
    /// A chunk of this many bytes arrived.
    Received(usize),
    /// The chunk could not be read (the client went away, for instance),
    /// with the reader's description.
    ReadFailed(String),
}

/// What to do after a chunk event.
#[derive(Debug)]
pub enum ChunkStep {
    /// Write the chunk to the stored file and go on.
    Write,
    /// Stop: delete the partial file, store no record, and answer with the
    /// error.
    Abort(AppError),
}

impl UploadProgress {
    /// Decides what follows a chunk event. A chunk that keeps the upload
    /// within the limit is counted and written; one that crosses the limit,
    /// or a read failure, aborts the upload, and the partial file is
    /// removed so that it does not linger.
    pub fn on_chunk(&mut self, event: ChunkEvent) -> (step: ChunkStep)
        ensures
            match event {
                ChunkEvent::Received(len) => if old(self).received() + len <= MAX_UPLOAD_BYTES {
                    step is Write && final(self).received() == old(self).received() + len
                } else {
                    step matches ChunkStep::Abort(AppError::FileTooLarge) && final(self).received()
                        == old(self).received()
                },
                ChunkEvent::ReadFailed(d) => step matches ChunkStep::Abort(AppError::BadRequest(m))
                    && m@ == "Read error: "@ + d@ && final(self).received() == old(self).received(),
            },
    {
        match event {
            ChunkEvent::Received(len) => match self.add_chunk(len) {
                Ok(()) => ChunkStep::Write,
                Err(e) => ChunkStep::Abort(e),
            },
            ChunkEvent::ReadFailed(d) => ChunkStep::Abort(read_error(d.as_str())),
        }
    }
}

/// The stored record and the client's answer for an upload of `size` bytes
/// that was received in full. The answer's links are the ones a later
/// listing shows for the stored record.
pub fn finish_upload(plan: UploadPlan, size: usize, base_url: &str) -> (out: (Video, UploadResponse))
    requires
        size <= MAX_UPLOAD_BYTES,
    ensures
        out.0.id is None,
        out.0.token@ == plan.token@,
        out.0.filename@ == plan.stored_filename@,
        out.0.original_name@ == plan.original_name@,
        out.0.content_type@ == plan.content_type@,
        out.0.size_bytes == size,
        out.0.duration_secs_bits is None,
        out.0.width is None,
        out.0.height is None,
        !out.0.hls_ready,
        out.0.created_at@ == Seq::<char>::empty(),
        out.1.token@ == plan.token@,
        out.1.original_name@ == plan.original_name@,
        out.1.size_bytes == size,
        out.1.share_url@ == share_url_of(base_url@, out.0.token@),
        out.1.stream_url@ == stream_url_of(base_url@, out.0.token@),
{
    let size_bytes = size as i64;
    let response = UploadResponse {
        share_url: share_url(base_url, plan.token.as_str()),
        stream_url: stream_url(base_url, plan.token.as_str()),
        token: owned(plan.token.as_str()),
        original_name: owned(plan.original_name.as_str()),
        size_bytes,
    };
    let video = Video {
        id: None,
        token: plan.token,
        filename: plan.stored_filename,
        original_name: plan.original_name,
        content_type: plan.content_type,
        size_bytes,
        duration_secs_bits: None,
        width: None,
        height: None,
        hls_ready: false,
        created_at: String::new(),
    };
    (video, response)
}

/// The error for a form without a `video` field.
pub fn missing_video_field() -> (e: AppError)
    ensures
        e matches AppError::BadRequest(m) && m@ == "No `video` field in form"@,
{
    AppError::BadRequest(owned("No `video` field in form"))
}

/// The error for a multipart stream that could not be read, with the
/// reader's own description.
pub fn multipart_error(detail: &str) -> (e: AppError)
    ensures
        e matches AppError::BadRequest(m) && m@ == "Multipart error: "@ + detail@,
{
    AppError::BadRequest(concat2("Multipart error: ", detail))
}

/// The error for a chunk of the video field that could not be read, with
/// the reader's own description.
pub fn read_error(detail: &str) -> (e: AppError)
    ensures
        e matches AppError::BadRequest(m) && m@ == "Read error: "@ + detail@,
{
    AppError::BadRequest(concat2("Read error: ", detail))
}

} // verus!
