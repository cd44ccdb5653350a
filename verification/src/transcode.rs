//! The background HLS remux: the `ffmpeg` command line it runs, and what is
//! done once `ffmpeg` has finished or could not be started.

use vstd::prelude::*;
use crate::text::owned;

verus! {

/// The name pattern of the MPEG-TS segments `ffmpeg` writes into a token's
/// HLS directory (`seg000.ts`, `seg001.ts`, ...).
pub const SEGMENT_PATTERN: &'static str = "seg%03d.ts";

/// The arguments of the remux: copy the video stream, encode audio as AAC,
/// cut two-second MPEG-TS segments, keep every segment in the playlist.
pub open spec fn ffmpeg_args_of(input: Seq<char>, segment_pattern: Seq<char>, playlist: Seq<char>) -> Seq<Seq<char>> {
    seq![
        "-i"@,
        input,
        "-c:v"@,
        "copy"@,
        "-c:a"@,
        "aac"@,
        "-hls_time"@,
        "2"@,
        "-hls_list_size"@,
        "0"@,
        "-hls_segment_type"@,
        "mpegts"@,
        "-hls_segment_filename"@,
        segment_pattern,
        "-f"@,
        "hls"@,
        playlist,
    ]
}

/// The `ffmpeg` arguments that remux `input` into an HLS playlist and its
/// segments.
pub fn ffmpeg_args(input: &str, segment_pattern: &str, playlist: &str) -> (args: Vec<String>)
    ensures
        args@.map_values(|s: String| s@) == ffmpeg_args_of(input@, segment_pattern@, playlist@),
{
    let mut args: Vec<String> = Vec::new();
    args.push(owned("-i"));
    args.push(owned(input));
    args.push(owned("-c:v"));
    args.push(owned("copy"));
    args.push(owned("-c:a"));
    args.push(owned("aac"));
    args.push(owned("-hls_time"));
    args.push(owned("2"));
    args.push(owned("-hls_list_size"));
    args.push(owned("0"));
    args.push(owned("-hls_segment_type"));
    args.push(owned("mpegts"));
    args.push(owned("-hls_segment_filename"));
    args.push(owned(segment_pattern));
    args.push(owned("-f"));
    args.push(owned("hls"));
    args.push(owned(playlist));
    assert(args@.map_values(|s: String| s@) =~= ffmpeg_args_of(
        input@,
        segment_pattern@,
        playlist@,
    ));
    args
}

/// How a run of `ffmpeg` ended.
#[derive(Debug, Clone, Copy, PartialEq, Eq)]
pub enum TranscodeOutcome {
    /// It ran and exited with success.
    Succeeded,
    /// It ran and exited with a failure status.
    Failed,
    /// It could not be started (for instance, it is not installed).
    NotStarted,
}

/// What follows a run of `ffmpeg`.
#[derive(Debug, Clone, Copy, PartialEq, Eq)]
pub enum TranscodeFollowUp {
    /// Record that the video's HLS output is ready.
    MarkHlsReady,
    /// Remove the partial HLS output so that no broken segment is served;
    /// the raw byte-range stream stays in use.
    DiscardPartialOutput,
    /// Nothing was written; the raw byte-range stream stays in use.
    KeepRawStreamOnly,
}

/// The follow-up of a run of `ffmpeg`.
pub open spec fn follow_up_of(outcome: TranscodeOutcome) -> TranscodeFollowUp {
    match outcome {
        TranscodeOutcome::Succeeded => TranscodeFollowUp::MarkHlsReady,
        TranscodeOutcome::Failed => TranscodeFollowUp::DiscardPartialOutput,
        TranscodeOutcome::NotStarted => TranscodeFollowUp::KeepRawStreamOnly,
    }
}

/// Decides what follows a run of `ffmpeg`: only a successful run marks the
/// video's HLS output ready; a failed run has its partial output removed;
/// a run that could not start leaves everything as it is. The raw stream
/// is never taken away.
pub fn follow_up(outcome: TranscodeOutcome) -> (f: TranscodeFollowUp)
    ensures
        f == follow_up_of(outcome),
        (f == TranscodeFollowUp::MarkHlsReady) <==> (outcome == TranscodeOutcome::Succeeded),
{
    match outcome {
        TranscodeOutcome::Succeeded => TranscodeFollowUp::MarkHlsReady,
        TranscodeOutcome::Failed => TranscodeFollowUp::DiscardPartialOutput,
        TranscodeOutcome::NotStarted => TranscodeFollowUp::KeepRawStreamOnly,
    }
}

/// Whether a stored video's HLS output is marked ready after the runs of
/// `ffmpeg` with the given outcomes, each followed up in turn, starting
/// from `ready`.
pub open spec fn ready_after(ready: bool, outcomes: Seq<TranscodeOutcome>) -> bool
    decreases outcomes.len(),
{
    if outcomes.len() == 0 {
        ready
    } else {
        ready_after(ready, outcomes.drop_last()) || follow_up_of(outcomes.last())
            == TranscodeFollowUp::MarkHlsReady
    }
}

/// Law: a video, which is stored with its HLS output not ready, is marked
/// ready only once some run of `ffmpeg` on it has succeeded.
pub proof fn lemma_ready_only_after_success(outcomes: Seq<TranscodeOutcome>)
    ensures
        ready_after(false, outcomes) ==> exists|i: int|
            0 <= i < outcomes.len() && outcomes[i] == TranscodeOutcome::Succeeded,
    decreases outcomes.len(),
{
    if outcomes.len() > 0 {
        lemma_ready_only_after_success(outcomes.drop_last());
        if ready_after(false, outcomes.drop_last()) {
            let i = choose|i: int|
                0 <= i < outcomes.drop_last().len() && outcomes.drop_last()[i]
                    == TranscodeOutcome::Succeeded;
            assert(outcomes[i] == TranscodeOutcome::Succeeded);
        } else if ready_after(false, outcomes) {
            assert(outcomes[outcomes.len() - 1] == TranscodeOutcome::Succeeded);
        }
    }
}

} // verus!
