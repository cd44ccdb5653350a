//! Media types of uploaded videos: which are accepted, how a type is
//! inferred from a file name, and which extension a stored file gets.

use vstd::prelude::*;
use vstd::slice::slice_subrange;
use crate::text::{chars_of, lemma_last_index, str_equal, string_from_chars};

verus! {

/// The generic binary type that browsers send when they do not know better.
pub open spec fn octet_stream() -> Seq<char> {
    "application/octet-stream"@
}

/// The media types an upload may have.
pub open spec fn allowed_type(ct: Seq<char>) -> bool {
    ||| ct == "video/mp4"@
    ||| ct == "video/webm"@
    ||| ct == "video/quicktime"@
    ||| ct == "video/x-msvideo"@
    ||| ct == "video/x-matroska"@
    ||| ct == "video/mp2t"@
    ||| ct == "video/mpeg"@
    ||| ct == "video/ogg"@
    ||| ct == "application/octet-stream"@
}

/// The part of a file name after its last `.`, or the whole name when it
/// has none (what `name.rsplit('.').next()` yields).
pub open spec fn last_segment(name: Seq<char>) -> Seq<char> {
    match name.index_of_last('.') {
        Some(i) => name.skip(i + 1),
        None => name,
    }
}

/// The video type that a lower-case file extension stands for.
pub open spec fn type_of_extension(ext: Seq<char>) -> Option<Seq<char>> {
    if ext == "mp4"@ || ext == "m4v"@ {
        Some("video/mp4"@)
    } else if ext == "webm"@ {
        Some("video/webm"@)
    } else if ext == "mov"@ {
        Some("video/quicktime"@)
    } else if ext == "avi"@ {
        Some("video/x-msvideo"@)
    } else if ext == "mkv"@ {
        Some("video/x-matroska"@)
    } else if ext == "ts"@ {
        Some("video/mp2t"@)
    } else if ext == "mpeg"@ || ext == "mpg"@ {
        Some("video/mpeg"@)
    } else {
        None
    }
}

/// What `str::to_lowercase` returns for a string: its lower-case form
/// under Unicode's case mapping.
pub uninterp spec fn unicode_lowercase(s: Seq<char>) -> Seq<char>;

/// Every character is ASCII.
pub open spec fn is_ascii_text(s: Seq<char>) -> bool {
    forall|i: int| 0 <= i < s.len() ==> (#[trigger] s[i]) as u32 <= 0x7f
}

/// ASCII letters `A`..`Z` lowered, every other character kept.
pub open spec fn ascii_lowercase(s: Seq<char>) -> Seq<char> {
    s.map_values(|c: char| if 'A' <= c && c <= 'Z' { ((c as u32) + 32) as char } else { c })
}

/// Calls `str::to_lowercase`. The result is named by `unicode_lowercase`;
/// for ASCII text it is the ASCII lower-case form, letter by letter, as the
/// Unicode case mapping lowers `A`..`Z` to `a`..`z` and keeps the rest.
/// What it gives for other characters is left unsaid.
#[verifier::external_body]
fn to_lowercase(s: &str) -> (out: String)
    ensures
        out@ == unicode_lowercase(s@),
        is_ascii_text(s@) ==> out@ == ascii_lowercase(s@),
{
    s.to_lowercase()
}

/// The media type used for an upload: the declared one, unless it is the
/// generic `application/octet-stream`, in which case the lower-cased file
/// extension decides when it names a known video type.
pub open spec fn inferred_type(filename: Seq<char>, declared: Seq<char>) -> Seq<char> {
    if declared != octet_stream() {
        declared
    } else {
        match type_of_extension(unicode_lowercase(last_segment(filename))) {
            Some(t) => t,
            None => declared,
        }
    }
}

/// The extension a stored file gets for its media type. It never comes from
/// the client's file name: types without an extension of their own get
/// `ogg` (for `video/ogg`) or `bin`.
pub open spec fn extension_for(ct: Seq<char>) -> Seq<char> {
    if ct == "video/mp4"@ {
        "mp4"@
    } else if ct == "video/webm"@ {
        "webm"@
    } else if ct == "video/quicktime"@ {
        "mov"@
    } else if ct == "video/x-msvideo"@ {
        "avi"@
    } else if ct == "video/x-matroska"@ {
        "mkv"@
    } else if ct == "video/mp2t"@ {
        "ts"@
    } else if ct == "video/mpeg"@ {
        "mpeg"@
    } else if ct == "video/ogg"@ {
        "ogg"@
    } else {
        "bin"@
    }
}

/// The extensions a stored file can have.
pub open spec fn is_stored_extension(e: Seq<char>) -> bool {
    ||| e == "mp4"@
    ||| e == "webm"@
    ||| e == "mov"@
    ||| e == "avi"@
    ||| e == "mkv"@
    ||| e == "ts"@
    ||| e == "mpeg"@
    ||| e == "ogg"@
    ||| e == "bin"@
}

/// The part of `name` after its last `.`, or all of `name`.
pub fn file_extension(name: &str) -> (out: String)
    ensures
        out@ == last_segment(name@),
{
    let cs = chars_of(name);
    let n = cs.len();
    let mut i: usize = n;
    while i > 0 && cs[i - 1] != '.'
        invariant
            i <= n,
            n == cs@.len(),
            forall|j: int| i <= j < n ==> cs@[j] != '.',
        decreases i,
    {
        i = i - 1;
    }
    proof {
        lemma_last_index(name@, '.', i - 1);
    }
    let tail = slice_subrange(cs.as_slice(), i, n);
    assert(tail@ =~= last_segment(name@));
    string_from_chars(tail)
}

/// Whether a media type may be uploaded.
pub fn is_allowed_type(ct: &str) -> (ok: bool)
    ensures
        ok == allowed_type(ct@),
{
    str_equal(ct, "video/mp4") || str_equal(ct, "video/webm") || str_equal(ct, "video/quicktime")
        || str_equal(ct, "video/x-msvideo") || str_equal(ct, "video/x-matroska") || str_equal(
        ct,
        "video/mp2t",
    ) || str_equal(ct, "video/mpeg") || str_equal(ct, "video/ogg") || str_equal(
        ct,
        "application/octet-stream",
    )
}

/// The media type for an already lower-cased extension, or `declared` when
/// the extension names no known video type.
pub fn content_type_for_extension(ext: &str, declared: &str) -> (out: String)
    ensures
        out@ == match type_of_extension(ext@) {
            Some(t) => t,
            None => declared@,
        },
{
    let t: &str = if str_equal(ext, "mp4") || str_equal(ext, "m4v") {
        "video/mp4"
    } else if str_equal(ext, "webm") {
        "video/webm"
    } else if str_equal(ext, "mov") {
        "video/quicktime"
    } else if str_equal(ext, "avi") {
        "video/x-msvideo"
    } else if str_equal(ext, "mkv") {
        "video/x-matroska"
    } else if str_equal(ext, "ts") {
        "video/mp2t"
    } else if str_equal(ext, "mpeg") || str_equal(ext, "mpg") {
        "video/mpeg"
    } else {
        declared
    };
    t.to_owned()
}

/// Infers the media type of an upload from its declared type and file name.
/// For an ASCII extension the lower-casing is the ASCII one, so that
/// `clip.MP4` sent as `application/octet-stream` is `video/mp4`.
pub fn infer_content_type(filename: &str, declared: &str) -> (out: String)
    ensures
        out@ == inferred_type(filename@, declared@),
        declared@ == octet_stream() && is_ascii_text(last_segment(filename@)) ==> out@
            == match type_of_extension(ascii_lowercase(last_segment(filename@))) {
            Some(t) => t,
            None => declared@,
        },
{
    if !str_equal(declared, "application/octet-stream") {
        return declared.to_owned();
    }
    let ext = file_extension(filename);
    let lower = to_lowercase(ext.as_str());
    content_type_for_extension(lower.as_str(), declared)
}

/// The extension for a stored file of media type `ct`.
pub fn extension_from_content_type(ct: &str) -> (out: String)
    ensures
        out@ == extension_for(ct@),
        is_stored_extension(out@),
{
    let e: &str = if str_equal(ct, "video/mp4") {
        "mp4"
    } else if str_equal(ct, "video/webm") {
        "webm"
    } else if str_equal(ct, "video/quicktime") {
        "mov"
    } else if str_equal(ct, "video/x-msvideo") {
        "avi"
    } else if str_equal(ct, "video/x-matroska") {
        "mkv"
    } else if str_equal(ct, "video/mp2t") {
        "ts"
    } else if str_equal(ct, "video/mpeg") {
        "mpeg"
    } else if str_equal(ct, "video/ogg") {
        "ogg"
    } else {
        "bin"
    };
    e.to_owned()
}


/// Law: an upload is refused for its type exactly when it declares a
/// specific type (not `application/octet-stream`) that is not a video type
/// on the list; in particular an upload without a specific declared type is
/// never refused, whatever its file name.
pub proof fn lemma_refused_iff_declared_unknown(filename: Seq<char>, declared: Seq<char>)
    ensures
        !allowed_type(inferred_type(filename, declared)) <==> (declared != octet_stream()
            && !allowed_type(declared)),
{
}

/// Law: the extension of a stored file is one of a fixed set, whatever the
/// media type; none of it comes from the client.
pub proof fn lemma_stored_extension_fixed(ct: Seq<char>)
    ensures
        is_stored_extension(extension_for(ct)),
{
}

/// Law: a declared specific type is kept as it is, whatever the file name.
pub proof fn lemma_declared_type_kept(filename: Seq<char>, declared: Seq<char>)
    requires
        declared != octet_stream(),
    ensures
        inferred_type(filename, declared) == declared,
{
}

/// Law: the extension given to a stored file of a known video type names
/// that same type again.
pub proof fn lemma_extension_names_type(ct: Seq<char>)
    requires
        ct == "video/mp4"@ || ct == "video/webm"@ || ct == "video/quicktime"@ || ct
            == "video/x-msvideo"@ || ct == "video/x-matroska"@ || ct == "video/mp2t"@ || ct
            == "video/mpeg"@,
    ensures
        type_of_extension(extension_for(ct)) == Some(ct),
{
    reveal_strlit("video/mp4");
    reveal_strlit("video/webm");
    reveal_strlit("video/quicktime");
    reveal_strlit("video/x-msvideo");
    reveal_strlit("video/x-matroska");
    reveal_strlit("video/mp2t");
    reveal_strlit("video/mpeg");
    reveal_strlit("mp4");
    reveal_strlit("m4v");
    reveal_strlit("webm");
    reveal_strlit("mov");
    reveal_strlit("avi");
    reveal_strlit("mkv");
    reveal_strlit("ts");
    reveal_strlit("mpeg");
    reveal_strlit("mpg");
    // Literals of equal length differ at a character.
    assert("mov"@[1] != "mp4"@[1] && "mov"@[1] != "m4v"@[1]);
    assert("avi"@[0] != "mp4"@[0] && "avi"@[0] != "m4v"@[0] && "avi"@[0] != "mov"@[0]);
    assert("mkv"@[1] != "mp4"@[1] && "mkv"@[1] != "m4v"@[1] && "mkv"@[1] != "mov"@[1]);
    assert("mkv"@[0] != "avi"@[0]);
    assert("mpeg"@[0] != "webm"@[0]);
    assert("video/x-msvideo"@[6] != "video/quicktime"@[6]);
    assert("video/mp2t"@[6] != "video/webm"@[6]);
    assert("video/mpeg"@[6] != "video/webm"@[6]);
    assert("video/mpeg"@[8] != "video/mp2t"@[8]);
    if ct == "video/mp4"@ {
        assert(extension_for(ct) == "mp4"@);
    } else if ct == "video/webm"@ {
        assert(extension_for(ct) == "webm"@);
    } else if ct == "video/quicktime"@ {
        assert(extension_for(ct) == "mov"@);
    } else if ct == "video/x-msvideo"@ {
        assert(extension_for(ct) == "avi"@);
    } else if ct == "video/x-matroska"@ {
        assert(extension_for(ct) == "mkv"@);
    } else if ct == "video/mp2t"@ {
        assert(extension_for(ct) == "ts"@);
    } else {
        assert(extension_for(ct) == "mpeg"@);
    }
}

/// Law: exactly nine media types may be uploaded, the eight video types of
/// the list and `application/octet-stream`; no other text is accepted.
pub proof fn lemma_allowed_types_are_the_list(ct: Seq<char>)
    ensures
        allowed_type(ct) <==> seq![
            "video/mp4"@,
            "video/webm"@,
            "video/quicktime"@,
            "video/x-msvideo"@,
            "video/x-matroska"@,
            "video/mp2t"@,
            "video/mpeg"@,
            "video/ogg"@,
            "application/octet-stream"@,
        ].contains(ct),
{
    let listed: Seq<Seq<char>> = seq![
        "video/mp4"@,
        "video/webm"@,
        "video/quicktime"@,
        "video/x-msvideo"@,
        "video/x-matroska"@,
        "video/mp2t"@,
        "video/mpeg"@,
        "video/ogg"@,
        "application/octet-stream"@,
    ];
    if allowed_type(ct) {
        let k: int = if ct == listed[0] {
            0
        } else if ct == listed[1] {
            1
        } else if ct == listed[2] {
            2
        } else if ct == listed[3] {
            3
        } else if ct == listed[4] {
            4
        } else if ct == listed[5] {
            5
        } else if ct == listed[6] {
            6
        } else if ct == listed[7] {
            7
        } else {
            8
        };
        assert(listed[k] == ct);
    }
    if listed.contains(ct) {
        let k = choose|k: int| 0 <= k < listed.len() && listed[k] == ct;
        assert(0 <= k < 9);
    }
}

/// Law: exactly nine file extensions name a video type: `mp4`, `m4v`,
/// `webm`, `mov`, `avi`, `mkv`, `ts`, `mpeg` and `mpg`. Every other extension
/// names none.
pub proof fn lemma_known_extensions_are_the_list(ext: Seq<char>)
    ensures
        type_of_extension(ext) is Some <==> seq![
            "mp4"@,
            "m4v"@,
            "webm"@,
            "mov"@,
            "avi"@,
            "mkv"@,
            "ts"@,
            "mpeg"@,
            "mpg"@,
        ].contains(ext),
{
    let listed: Seq<Seq<char>> = seq![
        "mp4"@,
        "m4v"@,
        "webm"@,
        "mov"@,
        "avi"@,
        "mkv"@,
        "ts"@,
        "mpeg"@,
        "mpg"@,
    ];
    if type_of_extension(ext) is Some {
        let k: int = if ext == listed[0] {
            0
        } else if ext == listed[1] {
            1
        } else if ext == listed[2] {
            2
        } else if ext == listed[3] {
            3
        } else if ext == listed[4] {
            4
        } else if ext == listed[5] {
            5
        } else if ext == listed[6] {
            6
        } else if ext == listed[7] {
            7
        } else {
            8
        };
        assert(listed[k] == ext);
    }
    if listed.contains(ext) {
        let k = choose|k: int| 0 <= k < listed.len() && listed[k] == ext;
        assert(0 <= k < 9);
    }
}

/// Law: the video type each known extension stands for.
pub proof fn lemma_extension_types()
    ensures
        type_of_extension("mp4"@) == Some("video/mp4"@),
        type_of_extension("m4v"@) == Some("video/mp4"@),
        type_of_extension("webm"@) == Some("video/webm"@),
        type_of_extension("mov"@) == Some("video/quicktime"@),
        type_of_extension("avi"@) == Some("video/x-msvideo"@),
        type_of_extension("mkv"@) == Some("video/x-matroska"@),
        type_of_extension("ts"@) == Some("video/mp2t"@),
        type_of_extension("mpeg"@) == Some("video/mpeg"@),
        type_of_extension("mpg"@) == Some("video/mpeg"@),
{
    reveal_strlit("mp4");
    reveal_strlit("m4v");
    reveal_strlit("webm");
    reveal_strlit("mov");
    reveal_strlit("avi");
    reveal_strlit("mkv");
    reveal_strlit("ts");
    reveal_strlit("mpeg");
    reveal_strlit("mpg");
    // Extensions of equal length differ at a character.
    assert("mov"@[1] != "mp4"@[1] && "mov"@[1] != "m4v"@[1]);
    assert("avi"@[0] != "mp4"@[0] && "avi"@[0] != "m4v"@[0] && "avi"@[0] != "mov"@[0]);
    assert("mkv"@[1] != "mp4"@[1] && "mkv"@[1] != "m4v"@[1] && "mkv"@[1] != "mov"@[1]);
    assert("mkv"@[0] != "avi"@[0]);
    assert("mpeg"@[0] != "webm"@[0]);
    assert("mpg"@[1] != "m4v"@[1] && "mpg"@[2] != "mp4"@[2]);
    assert("mpg"@[0] != "avi"@[0] && "mpg"@[1] != "mov"@[1] && "mpg"@[1] != "mkv"@[1]);
}

/// Law: an upload sent as `application/octet-stream` whose lower-cased
/// extension is not one of the known nine keeps that declared type.
pub proof fn lemma_unknown_extension_keeps_declared(filename: Seq<char>, declared: Seq<char>)
    requires
        declared == octet_stream(),
        !seq![
            "mp4"@,
            "m4v"@,
            "webm"@,
            "mov"@,
            "avi"@,
            "mkv"@,
            "ts"@,
            "mpeg"@,
            "mpg"@,
        ].contains(unicode_lowercase(last_segment(filename))),
    ensures
        inferred_type(filename, declared) == declared,
{
    lemma_known_extensions_are_the_list(unicode_lowercase(last_segment(filename)));
}

/// Law: the extension of a stored file for each video type on the list, and
/// `bin` for every other media type (`application/octet-stream` among them).
pub proof fn lemma_stored_extension_table(ct: Seq<char>)
    ensures
        extension_for("video/mp4"@) == "mp4"@,
        extension_for("video/webm"@) == "webm"@,
        extension_for("video/quicktime"@) == "mov"@,
        extension_for("video/x-msvideo"@) == "avi"@,
        extension_for("video/x-matroska"@) == "mkv"@,
        extension_for("video/mp2t"@) == "ts"@,
        extension_for("video/mpeg"@) == "mpeg"@,
        extension_for("video/ogg"@) == "ogg"@,
        !seq![
            "video/mp4"@,
            "video/webm"@,
            "video/quicktime"@,
            "video/x-msvideo"@,
            "video/x-matroska"@,
            "video/mp2t"@,
            "video/mpeg"@,
            "video/ogg"@,
        ].contains(ct) ==> extension_for(ct) == "bin"@,
{
    reveal_strlit("video/mp4");
    reveal_strlit("video/webm");
    reveal_strlit("video/quicktime");
    reveal_strlit("video/x-msvideo");
    reveal_strlit("video/x-matroska");
    reveal_strlit("video/mp2t");
    reveal_strlit("video/mpeg");
    reveal_strlit("video/ogg");
    // Types of equal length differ at a character.
    assert("video/x-msvideo"@[6] != "video/quicktime"@[6]);
    assert("video/mp2t"@[6] != "video/webm"@[6]);
    assert("video/mpeg"@[6] != "video/webm"@[6]);
    assert("video/mpeg"@[8] != "video/mp2t"@[8]);
    assert("video/ogg"@[6] != "video/mp4"@[6]);
    assert("video/x-matroska"@.len() == 16);
    let listed: Seq<Seq<char>> = seq![
        "video/mp4"@,
        "video/webm"@,
        "video/quicktime"@,
        "video/x-msvideo"@,
        "video/x-matroska"@,
        "video/mp2t"@,
        "video/mpeg"@,
        "video/ogg"@,
    ];
    if !listed.contains(ct) {
        assert(ct != listed[0] && ct != listed[1] && ct != listed[2] && ct != listed[3]);
        assert(ct != listed[4] && ct != listed[5] && ct != listed[6] && ct != listed[7]);
    }
}

} // verus!
