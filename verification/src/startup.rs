//! Startup recovery: the keyframe / resync / failure timeline of a chain
//! that receives video RTP but has not presented a frame yet, and the codec
//! downgrade ladder used when no decoder could produce a frame.
use vstd::prelude::*;
use crate::stall::sat_sub;
use crate::text::{is_unicode_whitespace, str_eq, trim, trim_end_seq, trim_seq, trim_start_seq, upper_eq, upper_seq};

verus! {

/// Incoming RTP time (ms) after which a keyframe is requested.
pub const VIDEO_STARTUP_KEYFRAME_MS: u64 = 2_500;
/// Incoming RTP time (ms) after which the pipeline latency is resynced.
pub const VIDEO_STARTUP_RESYNC_MS: u64 = 5_000;
/// Incoming RTP time (ms) after which startup is declared failed.
pub const VIDEO_STARTUP_FATAL_MS: u64 = 8_000;

/// Which startup rungs already fired in the current window.
#[derive(Debug, Clone, Copy, PartialEq, Eq, Structural)]
pub struct StartupFlags {
    pub keyframe_requested: bool,
    pub resync_requested: bool,
    pub fatal_reported: bool,
    pub downgrade_requested: bool,
}

/// What one startup-recovery tick asks for.
#[derive(Debug, Clone, Copy, PartialEq, Eq, Structural)]
pub struct StartupStep {
    /// How long encoded video RTP has been arriving (ms).
    pub encoded_active_ms: u64,
    pub request_keyframe: bool,
    pub request_resync: bool,
    /// The failure rung fired: try the decoder fallback, then downgrade or
    /// report the failure.
    pub startup_failed: bool,
}

/// One startup tick: gated on live encoded RTP (a first packet seen, the
/// latest at most `VIDEO_STARTUP_KEYFRAME_MS` old); each rung fires once,
/// when the RTP has been arriving for its due time.
pub open spec fn startup_step_for(flags: StartupFlags, first_encoded_ms: u64, last_encoded_ms: u64, now_ms: u64) -> Option<(StartupFlags, StartupStep)> {
    if first_encoded_ms == 0 || sat_sub(now_ms, last_encoded_ms) > VIDEO_STARTUP_KEYFRAME_MS {
        None
    } else {
        let active = sat_sub(now_ms, first_encoded_ms);
        let keyframe = active >= VIDEO_STARTUP_KEYFRAME_MS && !flags.keyframe_requested;
        let resync = active >= VIDEO_STARTUP_RESYNC_MS && !flags.resync_requested;
        let fatal = active >= VIDEO_STARTUP_FATAL_MS && !flags.fatal_reported;
        Some((
            StartupFlags {
                keyframe_requested: flags.keyframe_requested || active >= VIDEO_STARTUP_KEYFRAME_MS,
                resync_requested: flags.resync_requested || active >= VIDEO_STARTUP_RESYNC_MS,
                fatal_reported: flags.fatal_reported || active >= VIDEO_STARTUP_FATAL_MS,
                downgrade_requested: flags.downgrade_requested,
            },
            StartupStep { encoded_active_ms: active, request_keyframe: keyframe, request_resync: resync, startup_failed: fatal },
        ))
    }
}

/// Each startup rung fires at most once per window: once it fired, no later
/// tick fires it again (until the window is reset).
pub proof fn lemma_startup_rungs_fire_once(flags: StartupFlags, first: u64, last: u64, now: u64, last2: u64, now2: u64)
    requires
        startup_step_for(flags, first, last, now) is Some,
    ensures
        ({
            let (f1, s1) = startup_step_for(flags, first, last, now)->0;
            match startup_step_for(f1, first, last2, now2) {
                Some((_, s2)) => {
                    &&& s1.request_keyframe ==> !s2.request_keyframe
                    &&& s1.request_resync ==> !s2.request_resync
                    &&& s1.startup_failed ==> !s2.startup_failed
                },
                None => true,
            }
        }),
{
}

/// The codec to relaunch with when `codec` produced no frame on any decoder:
/// AV1 → H265, H265 (or HEVC) → H264, nothing below H264. Case-insensitive,
/// surrounding whitespace ignored.
pub open spec fn downgrade_of(codec: Seq<char>) -> Option<Seq<char>> {
    let c = upper_seq(trim_seq(codec));
    if c == "AV1"@ {
        Some("H265"@)
    } else if c == "H265"@ || c == "HEVC"@ {
        Some("H264"@)
    } else {
        None
    }
}

pub fn codec_downgrade_target(codec: &str) -> (to: Option<&'static str>)
    ensures
        to matches Some(t) ==> downgrade_of(codec@) == Some(t@),
        to is None ==> downgrade_of(codec@) is None,
{
    let c = trim(codec);
    if upper_eq(c, "AV1") {
        Some("H265")
    } else if upper_eq(c, "H265") || upper_eq(c, "HEVC") {
        Some("H264")
    } else {
        None
    }
}

/// A codec name without surrounding whitespace or lower-case letters is
/// its own normalization.
proof fn lemma_normalized_literal(s: Seq<char>)
    requires
        s.len() > 0,
        !is_unicode_whitespace(s[0]),
        !is_unicode_whitespace(s.last()),
        forall|i: int| 0 <= i < s.len() ==> !('a' <= #[trigger] s[i] <= 'z'),
    ensures
        upper_seq(trim_seq(s)) == s,
{
    assert(trim_start_seq(s) == s);
    assert(trim_end_seq(s) == s);
    assert(upper_seq(s) =~= s);
}

/// The downgrade ladder always ends: at most two downgrades (AV1 → H265 →
/// H264) lead to a codec with no further fallback.
pub proof fn lemma_downgrade_ladder_terminates(codec: Seq<char>)
    ensures
        downgrade_of(codec) matches Some(t1) ==> match downgrade_of(t1) {
            Some(t2) => t2 == "H264"@ && downgrade_of(t2) is None,
            None => true,
        },
{
    reveal_strlit("AV1");
    reveal_strlit("H265");
    reveal_strlit("H264");
    reveal_strlit("HEVC");
    lemma_normalized_literal("H265"@);
    lemma_normalized_literal("H264"@);
    assert("H264"@ != "AV1"@);
    assert("H264"@ != "H265"@);
    assert("H264"@ != "HEVC"@);
    assert("H265"@ != "AV1"@);
}

/// The codec name a downgrade reports leaving: the normalized AV1, H265 or
/// HEVC label.
pub fn downgrade_source_label(codec: &str) -> (label: Option<&'static str>)
    ensures
        label matches Some(l) ==> downgrade_of(codec@) is Some && l@ == upper_seq(trim_seq(codec@)),
        label is None ==> downgrade_of(codec@) is None,
{
    let c = trim(codec);
    if upper_eq(c, "AV1") {
        Some("AV1")
    } else if upper_eq(c, "H265") {
        Some("H265")
    } else if upper_eq(c, "HEVC") {
        Some("HEVC")
    } else {
        None
    }
}

/// Whether a first decoded buffer on the sink for `media_label` is the
/// session's first video frame at the renderer: a video sink whose
/// streaming status was not reported yet.
pub fn is_first_video_frame(media_label: &str, already_reported: bool) -> (first: bool)
    ensures
        first == (media_label@ == "video"@ && !already_reported),
{
    !already_reported && str_eq(media_label, "video")
}

/// The "streaming" status owed once the first video frame reached the
/// renderer: none while the window reveal is deferred (the platform shows
/// the renderer window only once it exists, and it could not be revealed
/// yet; the reveal then sends the status); else the message naming the
/// external window or the child-surface renderer.
pub open spec fn streaming_status_message_of(revealed_now: bool, defer_until_revealed: bool, external_window: bool) -> Option<Seq<char>> {
    if defer_until_revealed && !revealed_now {
        None
    } else if external_window {
        Some("Native video frames reached the external low-latency GStreamer renderer window."@)
    } else {
        Some("Native video frames reached the internal child-surface GStreamer renderer."@)
    }
}

pub fn streaming_status_message(revealed_now: bool, defer_until_revealed: bool, external_window: bool) -> (m: Option<&'static str>)
    ensures
        m is Some == streaming_status_message_of(revealed_now, defer_until_revealed, external_window) is Some,
        m is Some ==> m->0@ == streaming_status_message_of(revealed_now, defer_until_revealed, external_window)->0,
{
    if defer_until_revealed && !revealed_now {
        None
    } else if external_window {
        Some("Native video frames reached the external low-latency GStreamer renderer window.")
    } else {
        Some("Native video frames reached the internal child-surface GStreamer renderer.")
    }
}

} // verus!
