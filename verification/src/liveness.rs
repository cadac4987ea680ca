//! The video liveness state of one streaming session: activity stamps and
//! counters, duplicate-frame detection, decode→present pairing, adaptive
//! buffering, outgoing-RTCP counters, startup recovery flags, transition
//! telemetry and HUD settings. Times are the watchdog clock in ms, passed in
//! by the caller.
use vstd::prelude::*;
use crate::adaptive::{NetworkAdaptation, NetworkAssessment};
use crate::caps::{caps_framerate_of, caps_framerate_summary, contains_seq, contains_str, find_seq, is_zero_copy_memory_mode, is_zero_copy_mode, memory_mode_from_caps, memory_mode_of};
use crate::frame::{frame_checksum_of, frame_content_checksum};
use crate::network::{overlay_color_for, verdict_label, verdict_overlay_color_for};
use crate::pairing::{DecodePresentPairing, expire_stale, window_median, window_push};
use crate::present::{pacing_label_for, pacing_mode_hud_label};
use crate::rtcp::RtcpMessageCounts;
use crate::stall::sat_sub;
use crate::startup::StartupFlags;
use crate::text::{ascii_lowercase, decimal_seq, decimal_string, lower_seq, parse_u32_of, trim, trim_seq};

verus! {

/// Post-decode queue depth restored after a transition recovers.
pub const DEFAULT_VIDEO_QUEUE_DEPTH: u32 = 1;
/// Post-decode queue depth used right after a transition flush.
pub const TRANSITION_FLUSH_QUEUE_DEPTH: u32 = 2;
/// Previous-PTS marker for "no decoded frame yet".
pub const NO_PTS: u64 = u64::MAX;

/// `a + b` modulo 2^64 (an atomic `fetch_add`).
pub open spec fn wadd(a: u64, b: u64) -> u64 {
    vstd::wrapping::u64_specs::wrapping_add(a, b)
}

/// What the session negotiated and how the stream currently looks.
pub struct SessionInfo {
    pub codec: String,
    pub resolution: String,
    pub hardware_acceleration: String,
    pub memory_mode: String,
    pub caps_framerate: Option<String>,
    pub requested_features_summary: String,
    pub finalized_features_summary: String,
    pub target_bitrate_kbps: u32,
    pub requested_fps: u32,
    pub zero_copy_d3d11: bool,
    pub zero_copy_d3d12: bool,
    pub transition_flush_escalation_enabled: bool,
}

/// Activity stamps (watchdog ms, 0 = never) and totals of the video path.
#[derive(Debug, Clone, Copy, PartialEq, Eq, Structural)]
pub struct ActivityClock {
    pub encoded_bytes_total: u64,
    pub last_encoded_ms: u64,
    pub last_decoded_ms: u64,
    pub last_sink_ms: u64,
    pub last_audio_ms: u64,
    pub first_startup_audio_ms: u64,
    pub first_startup_encoded_ms: u64,
    pub decoded_total: u64,
    pub sink_total: u64,
}

/// Duplicate-frame detection over consecutive decoded frames.
#[derive(Debug, Clone, Copy, PartialEq, Eq, Structural)]
pub struct DuplicateDetector {
    pub frames_seen: u64,
    pub frames_unique: u64,
    pub prev_frame_hash: u64,
    pub prev_hash_valid: bool,
    /// Previous frame's PTS (ns); `NO_PTS` before the first one.
    pub prev_frame_pts: u64,
}

/// What was recorded of the last caps transition of the session.
#[derive(Debug, Clone, PartialEq, Eq)]
pub struct TransitionSnapshot {
    pub transition_type: String,
    pub source: String,
    /// Watchdog time of the transition (ms).
    pub at_ms: u64,
    pub old_caps: Option<String>,
    pub new_caps: Option<String>,
    pub old_framerate: Option<String>,
    pub new_framerate: Option<String>,
    pub old_memory_mode: Option<String>,
    pub new_memory_mode: Option<String>,
    /// Time since the last present (`None` before the first one).
    pub render_gap_ms: Option<u64>,
    pub requested_fps: Option<u32>,
    /// The new caps' framerate field.
    pub caps_framerate: Option<String>,
    /// A high-rate stream whose new framerate is not the requested one.
    pub high_fps_risk: bool,
    /// One-line description, as logged.
    pub summary: String,
}

/// Counters of the transition recovery path, and the last transition.
#[derive(Debug, Clone, PartialEq, Eq)]
pub struct TransitionTelemetry {
    pub queue_depth: u32,
    pub queue_depth_changes: u32,
    pub present_pacing_changes: u32,
    pub partial_flush_count: u32,
    pub complete_flush_count: u32,
    pub last_transition: Option<TransitionSnapshot>,
}

/// One-shot flags: things done once per session (or once per monitor).
#[derive(Debug, Clone, Copy, PartialEq, Eq, Structural)]
pub struct OnceFlags {
    pub first_encoded_logged: bool,
    pub framerate_mismatch_warned: bool,
    pub rtp_bitrate_probe_installed: bool,
    pub rtp_payload_dump_installed: bool,
    pub rtcp_send_probe_installed: bool,
}

/// HUD settings.
pub struct HudState {
    /// Normalized pacing mode of the last `pacing` command.
    pub pacing_mode: String,
    pub stats_overlay_visible: bool,
    /// Last tint written to the overlay (0 = none yet).
    pub overlay_color_applied: u32,
}

/// Outcome of a startup that failed on every decoder candidate.
#[derive(Debug, Clone, Copy, PartialEq, Eq)]
pub enum StartupFailure {
    /// Relaunch the session one step down the codec ladder.
    Downgrade { from_codec: &'static str, to_codec: &'static str },
    /// Report the startup as failed.
    Failed,
}

/// The liveness state of one session.
pub struct LivenessState {
    pub session: SessionInfo,
    pub activity: ActivityClock,
    pub duplicates: DuplicateDetector,
    pub pairing: DecodePresentPairing,
    pub network: NetworkAdaptation,
    pub rtcp_sent: RtcpMessageCounts,
    pub startup: StartupFlags,
    pub telemetry: TransitionTelemetry,
    pub once: OnceFlags,
    pub hud: HudState,
}

/// The duplicate detector after one decoded frame with presentation time
/// `pts` and (unless the frame is zero-copy GPU memory) content `frame`: a
/// frame repeating the previous PTS, or the previous content checksum, is a
/// duplicate; the content is only compared when the PTS did not already
/// decide.
pub open spec fn duplicate_step(d: DuplicateDetector, pts: Option<u64>, frame: Option<Seq<u8>>, zero_copy_memory: bool) -> DuplicateDetector {
    let same_pts = pts is Some && d.prev_frame_pts != NO_PTS && pts->0 == d.prev_frame_pts;
    let prev_pts = if pts is Some { pts->0 } else { d.prev_frame_pts };
    let checksum = if !same_pts && !zero_copy_memory && frame is Some { frame_checksum_of(frame->0) } else { None };
    let same_content = checksum is Some && d.prev_hash_valid && d.prev_frame_hash == checksum->0;
    let duplicate = same_pts || same_content;
    DuplicateDetector {
        frames_seen: wadd(d.frames_seen, 1),
        frames_unique: if duplicate { d.frames_unique } else { wadd(d.frames_unique, 1) },
        prev_frame_hash: if checksum is Some { checksum->0 } else { d.prev_frame_hash },
        prev_hash_valid: d.prev_hash_valid || checksum is Some,
        prev_frame_pts: prev_pts,
    }
}

/// A frame is never counted as unique more often than as seen: the unique
/// count stays at most the total (short of the 2^64 wrap of the total).
pub proof fn lemma_unique_never_exceeds_seen(d: DuplicateDetector, pts: Option<u64>, frame: Option<Seq<u8>>, zero_copy_memory: bool)
    requires
        d.frames_unique <= d.frames_seen,
        d.frames_seen < u64::MAX,
    ensures
        duplicate_step(d, pts, frame, zero_copy_memory).frames_unique <= duplicate_step(d, pts, frame, zero_copy_memory).frames_seen,
{
}

/// The outgoing-RTCP summary: "none" while nothing was sent, else every
/// counter by name.
pub open spec fn rtcp_summary_of(c: RtcpMessageCounts) -> Seq<char> {
    if c.sr == 0 && c.rr == 0 && c.twcc == 0 && c.nack == 0 && c.pli == 0 && c.fir == 0 && c.other == 0 {
        "none"@
    } else {
        "SR="@ + decimal_seq(c.sr as nat) + " RR="@ + decimal_seq(c.rr as nat) + " TWCC="@ + decimal_seq(c.twcc as nat)
            + " NACK="@ + decimal_seq(c.nack as nat) + " PLI="@ + decimal_seq(c.pli as nat) + " FIR="@ + decimal_seq(
            c.fir as nat,
        ) + " other="@ + decimal_seq(c.other as nat)
    }
}

fn append_counter(s: &mut String, label: &str, value: u64)
    ensures
        final(s)@ == old(s)@ + label@ + decimal_seq(value as nat),
{
    s.append(label);
    let digits = decimal_string(value);
    s.append(digits.as_str());
}

/// The negotiated stream rate: the requested rate when known, else the
/// numerator of the caps framerate.
pub open spec fn stream_fps_of(requested_fps: u32, caps_framerate: Option<Seq<char>>) -> Option<u32> {
    if requested_fps > 0 {
        Some(requested_fps)
    } else {
        match caps_framerate {
            Some(f) => {
                let numerator = match find_seq(f, "/"@) {
                    Some(i) => f.subrange(0, i),
                    None => f,
                };
                parse_u32_of(trim_seq(numerator))
            },
            None => None,
        }
    }
}

/// The server-reported game fps shown on the HUD: capped at twice the stream
/// rate, and never above 360, so uncapped menu spikes stay out while real
/// in-game rates show; 0 = no stats.
pub open spec fn clamped_game_fps_for(game_fps: u32, stream_fps: Option<u32>) -> u32 {
    if game_fps == 0 {
        0
    } else {
        match stream_fps {
            Some(s) => if s > 0 {
                let ceiling = if s * 2 > 360 { 360 } else { s * 2 };
                if game_fps <= ceiling { game_fps } else { ceiling as u32 }
            } else {
                game_fps
            },
            None => game_fps,
        }
    }
}

/// The optional owned string, seen as characters.
pub open spec fn opt_view(s: Option<String>) -> Option<Seq<char>> {
    match s {
        Some(v) => Some(v@),
        None => None,
    }
}

impl LivenessState {
    /// The pairing queue and the adaptive buffers keep their invariants.
    pub open spec fn wf(&self) -> bool {
        &&& self.pairing.wf()
        &&& self.network.wf()
    }

    pub fn new() -> (s: Self)
        ensures
            s.wf(),
            s.session.codec@.len() == 0,
            s.session.resolution@.len() == 0,
            s.session.hardware_acceleration@.len() == 0,
            s.session.memory_mode@ == "system-memory"@,
            s.session.caps_framerate is None,
            s.session.requested_features_summary@ == "none"@,
            s.session.finalized_features_summary@ == "none"@,
            s.session.target_bitrate_kbps == 0,
            s.session.requested_fps == 0,
            !s.session.zero_copy_d3d11,
            !s.session.zero_copy_d3d12,
            s.session.transition_flush_escalation_enabled,
            s.activity == (ActivityClock {
                encoded_bytes_total: 0,
                last_encoded_ms: 0,
                last_decoded_ms: 0,
                last_sink_ms: 0,
                last_audio_ms: 0,
                first_startup_audio_ms: 0,
                first_startup_encoded_ms: 0,
                decoded_total: 0,
                sink_total: 0,
            }),
            s.duplicates == (DuplicateDetector {
                frames_seen: 0,
                frames_unique: 0,
                prev_frame_hash: 0,
                prev_hash_valid: false,
                prev_frame_pts: NO_PTS,
            }),
            s.pairing.decode_timestamps@.len() == 0,
            s.pairing.deltas@.len() == 0,
            s.pairing.median_ms == 0,
            s.network.rtt_ema_ms == 0,
            s.network.loss_ema_e5 == 0,
            s.network.pre_decode_depth == crate::network::VIDEO_COMPRESSED_QUEUE_MAX_BUFFERS,
            s.network.webrtc_latency_ms == crate::network::WEBRTC_LATENCY_BASE_MS,
            s.network.burst_hold_until_ms == 0,
            s.network.jitter_history@.len() == 0,
            s.network.adjb_jitter_p99 == 0,
            s.network.last_assessment is None,
            s.network.last_assessment_emitted_ms == 0,
            s.rtcp_sent == (RtcpMessageCounts { sr: 0, rr: 0, twcc: 0, nack: 0, pli: 0, fir: 0, other: 0 }),
            s.startup == (StartupFlags {
                keyframe_requested: false,
                resync_requested: false,
                fatal_reported: false,
                downgrade_requested: false,
            }),
            s.telemetry == (TransitionTelemetry {
                queue_depth: DEFAULT_VIDEO_QUEUE_DEPTH,
                queue_depth_changes: 0,
                present_pacing_changes: 0,
                partial_flush_count: 0,
                complete_flush_count: 0,
                last_transition: None,
            }),
            s.once == (OnceFlags {
                first_encoded_logged: false,
                framerate_mismatch_warned: false,
                rtp_bitrate_probe_installed: false,
                rtp_payload_dump_installed: false,
                rtcp_send_probe_installed: false,
            }),
            s.hud.pacing_mode@ == "auto"@,
            !s.hud.stats_overlay_visible,
            s.hud.overlay_color_applied == 0,
    {
        LivenessState {
            session: SessionInfo {
                codec: String::new(),
                resolution: String::new(),
                hardware_acceleration: String::new(),
                memory_mode: String::from_str("system-memory"),
                caps_framerate: None,
                requested_features_summary: String::from_str("none"),
                finalized_features_summary: String::from_str("none"),
                target_bitrate_kbps: 0,
                requested_fps: 0,
                zero_copy_d3d11: false,
                zero_copy_d3d12: false,
                transition_flush_escalation_enabled: true,
            },
            activity: ActivityClock {
                encoded_bytes_total: 0,
                last_encoded_ms: 0,
                last_decoded_ms: 0,
                last_sink_ms: 0,
                last_audio_ms: 0,
                first_startup_audio_ms: 0,
                first_startup_encoded_ms: 0,
                decoded_total: 0,
                sink_total: 0,
            },
            duplicates: DuplicateDetector {
                frames_seen: 0,
                frames_unique: 0,
                prev_frame_hash: 0,
                prev_hash_valid: false,
                prev_frame_pts: NO_PTS,
            },
            pairing: DecodePresentPairing::new(),
            network: NetworkAdaptation::new(),
            rtcp_sent: RtcpMessageCounts { sr: 0, rr: 0, twcc: 0, nack: 0, pli: 0, fir: 0, other: 0 },
            startup: StartupFlags {
                keyframe_requested: false,
                resync_requested: false,
                fatal_reported: false,
                downgrade_requested: false,
            },
            telemetry: TransitionTelemetry {
                queue_depth: DEFAULT_VIDEO_QUEUE_DEPTH,
                queue_depth_changes: 0,
                present_pacing_changes: 0,
                partial_flush_count: 0,
                complete_flush_count: 0,
                last_transition: None,
            },
            once: OnceFlags {
                first_encoded_logged: false,
                framerate_mismatch_warned: false,
                rtp_bitrate_probe_installed: false,
                rtp_payload_dump_installed: false,
                rtcp_send_probe_installed: false,
            },
            hud: HudState { pacing_mode: String::from_str("auto"), stats_overlay_visible: false, overlay_color_applied: 0 },
        }
    }

    /// Start a session: record the negotiated settings, reset the telemetry,
    /// the per-session one-shot flags, the startup stamps and the startup
    /// recovery flags. Missing feature summaries read "none"; transition
    /// flush escalation stays on unless the diagnostics disable it.
    pub fn configure(
        &mut self,
        codec: &str,
        resolution: &str,
        requested_features_summary: Option<&str>,
        finalized_features_summary: Option<&str>,
        disable_transition_flush_escalation: Option<bool>,
        target_bitrate_kbps: u32,
        requested_fps: u32,
    )
        requires
            old(self).wf(),
        ensures
            final(self).wf(),
            final(self).session.codec@ == codec@,
            final(self).session.resolution@ == resolution@,
            final(self).session.caps_framerate is None,
            final(self).session.requested_features_summary@ == (match requested_features_summary {
                Some(s) => s@,
                None => "none"@,
            }),
            final(self).session.finalized_features_summary@ == (match finalized_features_summary {
                Some(s) => s@,
                None => "none"@,
            }),
            final(self).session.target_bitrate_kbps == target_bitrate_kbps,
            final(self).session.requested_fps == requested_fps,
            final(self).session.transition_flush_escalation_enabled == (match disable_transition_flush_escalation {
                Some(d) => !d,
                None => true,
            }),
            final(self).session.hardware_acceleration == old(self).session.hardware_acceleration,
            final(self).session.memory_mode == old(self).session.memory_mode,
            final(self).session.zero_copy_d3d11 == old(self).session.zero_copy_d3d11,
            final(self).session.zero_copy_d3d12 == old(self).session.zero_copy_d3d12,
            final(self).telemetry == (TransitionTelemetry {
                queue_depth: DEFAULT_VIDEO_QUEUE_DEPTH,
                queue_depth_changes: 0,
                present_pacing_changes: 0,
                partial_flush_count: 0,
                complete_flush_count: 0,
                last_transition: None,
            }),
            final(self).once == (OnceFlags { first_encoded_logged: false, framerate_mismatch_warned: false, ..old(self).once }),
            final(self).activity == (ActivityClock { first_startup_audio_ms: 0, first_startup_encoded_ms: 0, ..old(self).activity }),
            final(self).startup == (StartupFlags {
                keyframe_requested: false,
                resync_requested: false,
                fatal_reported: false,
                downgrade_requested: false,
            }),
            final(self).duplicates == old(self).duplicates,
            final(self).pairing == old(self).pairing,
            final(self).network == old(self).network,
            final(self).rtcp_sent == old(self).rtcp_sent,
            final(self).hud == old(self).hud,
    {
        proof {
            reveal_strlit("none");
        }
        self.session.codec = String::from_str(codec);
        self.session.resolution = String::from_str(resolution);
        self.session.caps_framerate = None;
        self.session.requested_features_summary = match requested_features_summary {
            Some(s) => String::from_str(s),
            None => String::from_str("none"),
        };
        self.session.finalized_features_summary = match finalized_features_summary {
            Some(s) => String::from_str(s),
            None => String::from_str("none"),
        };
        self.telemetry = TransitionTelemetry {
            queue_depth: DEFAULT_VIDEO_QUEUE_DEPTH,
            queue_depth_changes: 0,
            present_pacing_changes: 0,
            partial_flush_count: 0,
            complete_flush_count: 0,
            last_transition: None,
        };
        self.session.target_bitrate_kbps = target_bitrate_kbps;
        self.session.requested_fps = requested_fps;
        self.once.framerate_mismatch_warned = false;
        self.once.first_encoded_logged = false;
        self.activity.first_startup_audio_ms = 0;
        self.activity.first_startup_encoded_ms = 0;
        self.session.transition_flush_escalation_enabled = match disable_transition_flush_escalation {
            Some(d) => !d,
            None => true,
        };
        self.startup = StartupFlags {
            keyframe_requested: false,
            resync_requested: false,
            fatal_reported: false,
            downgrade_requested: false,
        };
    }
}

/// The verdict tint of the last assessment (white before the first one).
pub open spec fn verdict_color_of(last: Option<NetworkAssessment>) -> u32 {
    match last {
        Some(a) => overlay_color_for(verdict_label(a.verdict)),
        None => overlay_color_for(""@),
    }
}

impl LivenessState {
    /// Replace the codec with the one negotiated in the WebRTC answer.
    pub fn update_negotiated_codec(&mut self, codec: &str)
        ensures
            final(self).session == (SessionInfo { codec: final(self).session.codec, ..old(self).session }),
            final(self).session.codec@ == codec@,
            final(self).activity == old(self).activity,
            final(self).duplicates == old(self).duplicates,
            final(self).pairing == old(self).pairing,
            final(self).network == old(self).network,
            final(self).rtcp_sent == old(self).rtcp_sent,
            final(self).startup == old(self).startup,
            final(self).telemetry == old(self).telemetry,
            final(self).once == old(self).once,
            final(self).hud == old(self).hud,
    {
        self.session.codec = String::from_str(codec);
    }

    /// Record the hardware acceleration the decode chain reports.
    pub fn update_hardware_acceleration(&mut self, value: &str)
        ensures
            final(self).session == (SessionInfo { hardware_acceleration: final(self).session.hardware_acceleration, ..old(self).session }),
            final(self).session.hardware_acceleration@ == value@,
            final(self).activity == old(self).activity,
            final(self).duplicates == old(self).duplicates,
            final(self).pairing == old(self).pairing,
            final(self).network == old(self).network,
            final(self).rtcp_sent == old(self).rtcp_sent,
            final(self).startup == old(self).startup,
            final(self).telemetry == old(self).telemetry,
            final(self).once == old(self).once,
            final(self).hud == old(self).hud,
    {
        self.session.hardware_acceleration = String::from_str(value);
    }

    /// Add one classified outgoing RTCP packet to the send counters (each
    /// counter wraps at 2^64, as an atomic add does).
    pub fn record_rtcp_message(&mut self, counts: RtcpMessageCounts)
        ensures
            final(self).rtcp_sent == (RtcpMessageCounts {
                sr: wadd(old(self).rtcp_sent.sr, counts.sr),
                rr: wadd(old(self).rtcp_sent.rr, counts.rr),
                twcc: wadd(old(self).rtcp_sent.twcc, counts.twcc),
                nack: wadd(old(self).rtcp_sent.nack, counts.nack),
                pli: wadd(old(self).rtcp_sent.pli, counts.pli),
                fir: wadd(old(self).rtcp_sent.fir, counts.fir),
                other: wadd(old(self).rtcp_sent.other, counts.other),
            }),
            final(self).session == old(self).session,
            final(self).activity == old(self).activity,
            final(self).duplicates == old(self).duplicates,
            final(self).pairing == old(self).pairing,
            final(self).network == old(self).network,
            final(self).startup == old(self).startup,
            final(self).telemetry == old(self).telemetry,
            final(self).once == old(self).once,
            final(self).hud == old(self).hud,
    {
        self.rtcp_sent.sr = self.rtcp_sent.sr.wrapping_add(counts.sr);
        self.rtcp_sent.rr = self.rtcp_sent.rr.wrapping_add(counts.rr);
        self.rtcp_sent.twcc = self.rtcp_sent.twcc.wrapping_add(counts.twcc);
        self.rtcp_sent.nack = self.rtcp_sent.nack.wrapping_add(counts.nack);
        self.rtcp_sent.pli = self.rtcp_sent.pli.wrapping_add(counts.pli);
        self.rtcp_sent.fir = self.rtcp_sent.fir.wrapping_add(counts.fir);
        self.rtcp_sent.other = self.rtcp_sent.other.wrapping_add(counts.other);
    }

    /// Human-readable snapshot of the outgoing RTCP counters; "none" while
    /// the client has not sent a single RTCP packet.
    pub fn rtcp_sent_summary(&self) -> (s: String)
        ensures
            s@ == rtcp_summary_of(self.rtcp_sent),
    {
        let c = self.rtcp_sent;
        if c.sr == 0 && c.rr == 0 && c.twcc == 0 && c.nack == 0 && c.pli == 0 && c.fir == 0 && c.other == 0 {
            return String::from_str("none");
        }
        let mut s = String::new();
        append_counter(&mut s, "SR=", c.sr);
        append_counter(&mut s, " RR=", c.rr);
        append_counter(&mut s, " TWCC=", c.twcc);
        append_counter(&mut s, " NACK=", c.nack);
        append_counter(&mut s, " PLI=", c.pli);
        append_counter(&mut s, " FIR=", c.fir);
        append_counter(&mut s, " other=", c.other);
        s
    }

    /// One encoded video RTP buffer of `size` bytes arrived at `now_ms`: stamp
    /// it, count its bytes (wrapping) and, for the first one of the startup
    /// window, open that window.
    pub fn record_encoded_buffer(&mut self, size: usize, now_ms: u64)
        ensures
            final(self).activity == (ActivityClock {
                last_encoded_ms: now_ms,
                encoded_bytes_total: wadd(old(self).activity.encoded_bytes_total, size as u64),
                first_startup_encoded_ms: if old(self).activity.first_startup_encoded_ms == 0 {
                    now_ms
                } else {
                    old(self).activity.first_startup_encoded_ms
                },
                ..old(self).activity
            }),
            final(self).session == old(self).session,
            final(self).duplicates == old(self).duplicates,
            final(self).pairing == old(self).pairing,
            final(self).network == old(self).network,
            final(self).rtcp_sent == old(self).rtcp_sent,
            final(self).startup == old(self).startup,
            final(self).telemetry == old(self).telemetry,
            final(self).once == old(self).once,
            final(self).hud == old(self).hud,
    {
        self.activity.last_encoded_ms = now_ms;
        self.activity.encoded_bytes_total = self.activity.encoded_bytes_total.wrapping_add(size as u64);
        if self.activity.first_startup_encoded_ms == 0 {
            self.activity.first_startup_encoded_ms = now_ms;
        }
    }

    /// One audio buffer reached the audio sink at `now_ms`: stamp it and,
    /// before the first video present, note the first startup audio.
    pub fn record_audio_buffer(&mut self, now_ms: u64)
        ensures
            final(self).activity == (ActivityClock {
                last_audio_ms: now_ms,
                first_startup_audio_ms: if old(self).activity.last_sink_ms == 0 && old(self).activity.first_startup_audio_ms == 0 {
                    now_ms
                } else {
                    old(self).activity.first_startup_audio_ms
                },
                ..old(self).activity
            }),
            final(self).session == old(self).session,
            final(self).duplicates == old(self).duplicates,
            final(self).pairing == old(self).pairing,
            final(self).network == old(self).network,
            final(self).rtcp_sent == old(self).rtcp_sent,
            final(self).startup == old(self).startup,
            final(self).telemetry == old(self).telemetry,
            final(self).once == old(self).once,
            final(self).hud == old(self).hud,
    {
        self.activity.last_audio_ms = now_ms;
        if self.activity.last_sink_ms == 0 && self.activity.first_startup_audio_ms == 0 {
            self.activity.first_startup_audio_ms = now_ms;
        }
    }

    /// True exactly once per session: whether the first encoded buffer is
    /// still to be logged.
    pub fn log_first_encoded_once(&mut self) -> (first: bool)
        ensures
            first == !old(self).once.first_encoded_logged,
            final(self).once == (OnceFlags { first_encoded_logged: true, ..old(self).once }),
            final(self).session == old(self).session,
            final(self).activity == old(self).activity,
            final(self).duplicates == old(self).duplicates,
            final(self).pairing == old(self).pairing,
            final(self).network == old(self).network,
            final(self).rtcp_sent == old(self).rtcp_sent,
            final(self).startup == old(self).startup,
            final(self).telemetry == old(self).telemetry,
            final(self).hud == old(self).hud,
    {
        let first = !self.once.first_encoded_logged;
        self.once.first_encoded_logged = true;
        first
    }

    /// True exactly once per session: whether a framerate mismatch is still
    /// to be warned about.
    pub fn warn_framerate_mismatch_once(&mut self) -> (first: bool)
        ensures
            first == !old(self).once.framerate_mismatch_warned,
            final(self).once == (OnceFlags { framerate_mismatch_warned: true, ..old(self).once }),
            final(self).session == old(self).session,
            final(self).activity == old(self).activity,
            final(self).duplicates == old(self).duplicates,
            final(self).pairing == old(self).pairing,
            final(self).network == old(self).network,
            final(self).rtcp_sent == old(self).rtcp_sent,
            final(self).startup == old(self).startup,
            final(self).telemetry == old(self).telemetry,
            final(self).hud == old(self).hud,
    {
        let first = !self.once.framerate_mismatch_warned;
        self.once.framerate_mismatch_warned = true;
        first
    }

    /// Show or hide the HUD stats overlay.
    pub fn set_stats_overlay_visible(&mut self, visible: bool)
        ensures
            final(self).hud == (HudState { stats_overlay_visible: visible, ..old(self).hud }),
            final(self).session == old(self).session,
            final(self).activity == old(self).activity,
            final(self).duplicates == old(self).duplicates,
            final(self).pairing == old(self).pairing,
            final(self).network == old(self).network,
            final(self).rtcp_sent == old(self).rtcp_sent,
            final(self).startup == old(self).startup,
            final(self).telemetry == old(self).telemetry,
            final(self).once == old(self).once,
    {
        self.hud.stats_overlay_visible = visible;
    }

    /// Whether the overlay shows after its text is set to `text`: only while
    /// visible and with something to show.
    pub fn overlay_text_visible(&self, text: &str) -> (b: bool)
        ensures
            b == (self.hud.stats_overlay_visible && text@.len() > 0),
    {
        self.hud.stats_overlay_visible && !text.is_empty()
    }

    /// The last emitted network assessment (`None` before the first one).
    pub fn last_network_assessment(&self) -> (a: Option<NetworkAssessment>)
        ensures
            a == self.network.last_assessment,
    {
        self.network.last_assessment
    }

    /// Record the pacing mode of a runtime `pacing` command, normalized
    /// (trimmed, ASCII-lowercased).
    pub fn set_pacing_mode(&mut self, mode: &str)
        ensures
            final(self).hud == (HudState { pacing_mode: final(self).hud.pacing_mode, ..old(self).hud }),
            final(self).hud.pacing_mode@ == lower_seq(trim_seq(mode@)),
            pacing_label_for(final(self).hud.pacing_mode@) == pacing_label_for(mode@),
            final(self).session == old(self).session,
            final(self).activity == old(self).activity,
            final(self).duplicates == old(self).duplicates,
            final(self).pairing == old(self).pairing,
            final(self).network == old(self).network,
            final(self).rtcp_sent == old(self).rtcp_sent,
            final(self).startup == old(self).startup,
            final(self).telemetry == old(self).telemetry,
            final(self).once == old(self).once,
    {
        self.hud.pacing_mode = ascii_lowercase(trim(mode));
        proof {
            crate::present::lemma_pacing_label_normalized(mode@);
        }
    }

    /// HUD label of the active pacing mode.
    pub fn pacing_mode_hud_label(&self) -> (label: String)
        ensures
            label@ == pacing_label_for(self.hud.pacing_mode@),
    {
        pacing_mode_hud_label(self.hud.pacing_mode.as_str())
    }

    /// Overlay color of the current verdict.
    /// Amber marks a degraded link, a red tint a poor one, white anything else.
    pub fn verdict_overlay_color(&self) -> (color: u32)
        ensures
            color == verdict_color_of(self.network.last_assessment),
    {
        match self.network.last_assessment {
            Some(a) => verdict_overlay_color_for(a.verdict.as_str()),
            None => verdict_overlay_color_for(""),
        }
    }

    /// The tint to write to the overlay now: the verdict tint when it differs
    /// from the one last applied and an overlay is there to take it (it is
    /// then recorded as applied); `None` otherwise.
    pub fn overlay_color_update(&mut self, overlay_present: bool) -> (write: Option<u32>)
        ensures
            ({
                let color = verdict_color_of(old(self).network.last_assessment);
                let apply = color != old(self).hud.overlay_color_applied && overlay_present;
                &&& write == if apply { Some(color) } else { None }
                &&& final(self).hud == (HudState {
                    overlay_color_applied: if apply { color } else { old(self).hud.overlay_color_applied },
                    ..old(self).hud
                })
            }),
            final(self).session == old(self).session,
            final(self).activity == old(self).activity,
            final(self).duplicates == old(self).duplicates,
            final(self).pairing == old(self).pairing,
            final(self).network == old(self).network,
            final(self).rtcp_sent == old(self).rtcp_sent,
            final(self).startup == old(self).startup,
            final(self).telemetry == old(self).telemetry,
            final(self).once == old(self).once,
    {
        let color = self.verdict_overlay_color();
        if color == self.hud.overlay_color_applied || !overlay_present {
            return None;
        }
        self.hud.overlay_color_applied = color;
        Some(color)
    }
}

/// The bytes of an optional mapped frame.
pub open spec fn opt_bytes(frame: Option<&[u8]>) -> Option<Seq<u8>> {
    match frame {
        Some(f) => Some(f@),
        None => None,
    }
}

/// The duplicate detector of a fresh decode chain.
pub open spec fn fresh_duplicates() -> DuplicateDetector {
    DuplicateDetector { frames_seen: 0, frames_unique: 0, prev_frame_hash: 0, prev_hash_valid: false, prev_frame_pts: NO_PTS }
}

/// The startup flags of a fresh startup window.
pub open spec fn fresh_startup() -> StartupFlags {
    StartupFlags { keyframe_requested: false, resync_requested: false, fatal_reported: false, downgrade_requested: false }
}

impl LivenessState {
    /// One frame left the decoder at `now_ms`: stamp it, count it (wrapping)
    /// and queue its decode time for pairing with its present.
    pub fn record_decoded_buffer(&mut self, now_ms: u64)
        requires
            old(self).wf(),
        ensures
            final(self).wf(),
            final(self).activity == (ActivityClock {
                last_decoded_ms: now_ms,
                decoded_total: wadd(old(self).activity.decoded_total, 1),
                ..old(self).activity
            }),
            final(self).pairing.decode_timestamps@ == (if old(self).pairing.decode_timestamps@.len() + 1
                > crate::pairing::DECODE_TIMESTAMP_QUEUE_MAX {
                old(self).pairing.decode_timestamps@.push(now_ms).drop_first()
            } else {
                old(self).pairing.decode_timestamps@.push(now_ms)
            }),
            final(self).pairing.deltas@ == old(self).pairing.deltas@,
            final(self).pairing.median_ms == old(self).pairing.median_ms,
            final(self).session == old(self).session,
            final(self).duplicates == old(self).duplicates,
            final(self).network == old(self).network,
            final(self).rtcp_sent == old(self).rtcp_sent,
            final(self).startup == old(self).startup,
            final(self).telemetry == old(self).telemetry,
            final(self).once == old(self).once,
            final(self).hud == old(self).hud,
    {
        self.activity.last_decoded_ms = now_ms;
        self.activity.decoded_total = self.activity.decoded_total.wrapping_add(1);
        self.pairing.record_decoded(now_ms);
    }

    /// Classify one decoded frame for the unique/total metric: `pts` is its
    /// presentation time (ns) when it has one, `frame` its mapped bytes (when
    /// they could be mapped); with `zero_copy_memory` the pixels are on the
    /// GPU and only the same-PTS check runs.
    pub fn record_duplicate_sample(&mut self, pts: Option<u64>, frame: Option<&[u8]>, zero_copy_memory: bool)
        ensures
            final(self).duplicates == duplicate_step(old(self).duplicates, pts, opt_bytes(frame), zero_copy_memory),
            final(self).session == old(self).session,
            final(self).activity == old(self).activity,
            final(self).pairing == old(self).pairing,
            final(self).network == old(self).network,
            final(self).rtcp_sent == old(self).rtcp_sent,
            final(self).startup == old(self).startup,
            final(self).telemetry == old(self).telemetry,
            final(self).once == old(self).once,
            final(self).hud == old(self).hud,
    {
        self.duplicates.frames_seen = self.duplicates.frames_seen.wrapping_add(1);
        let mut is_duplicate = false;
        if let Some(p) = pts {
            let prev = self.duplicates.prev_frame_pts;
            is_duplicate = prev != NO_PTS && p == prev;
            self.duplicates.prev_frame_pts = p;
        }
        if !is_duplicate && !zero_copy_memory {
            if let Some(bytes) = frame {
                if let Some(hash) = frame_content_checksum(bytes) {
                    if self.duplicates.prev_hash_valid && self.duplicates.prev_frame_hash == hash {
                        is_duplicate = true;
                    }
                    self.duplicates.prev_frame_hash = hash;
                    self.duplicates.prev_hash_valid = true;
                }
            }
        }
        if !is_duplicate {
            self.duplicates.frames_unique = self.duplicates.frames_unique.wrapping_add(1);
        }
    }

    /// A present-limiter drop: the dropped frame's decode time leaves the
    /// pairing queue.
    pub fn record_sink_limiter_drop(&mut self)
        requires
            old(self).wf(),
        ensures
            final(self).wf(),
            final(self).pairing.decode_timestamps@ == (if old(self).pairing.decode_timestamps@.len() > 0 {
                old(self).pairing.decode_timestamps@.drop_first()
            } else {
                old(self).pairing.decode_timestamps@
            }),
            final(self).pairing.deltas@ == old(self).pairing.deltas@,
            final(self).pairing.median_ms == old(self).pairing.median_ms,
            final(self).session == old(self).session,
            final(self).activity == old(self).activity,
            final(self).duplicates == old(self).duplicates,
            final(self).network == old(self).network,
            final(self).rtcp_sent == old(self).rtcp_sent,
            final(self).startup == old(self).startup,
            final(self).telemetry == old(self).telemetry,
            final(self).once == old(self).once,
            final(self).hud == old(self).hud,
    {
        self.pairing.record_limiter_drop();
    }

    /// Drop every pending decode time (the sink is stalled).
    pub fn clear_decode_timestamps(&mut self)
        requires
            old(self).wf(),
        ensures
            final(self).wf(),
            final(self).pairing.decode_timestamps@.len() == 0,
            final(self).pairing.deltas@ == old(self).pairing.deltas@,
            final(self).pairing.median_ms == old(self).pairing.median_ms,
            final(self).session == old(self).session,
            final(self).activity == old(self).activity,
            final(self).duplicates == old(self).duplicates,
            final(self).network == old(self).network,
            final(self).rtcp_sent == old(self).rtcp_sent,
            final(self).startup == old(self).startup,
            final(self).telemetry == old(self).telemetry,
            final(self).once == old(self).once,
            final(self).hud == old(self).hud,
    {
        self.pairing.clear_timestamps();
    }

    /// One frame reached the video sink at `now_ms`: stamp it, count it
    /// (wrapping) and pair it with the oldest plausible pending decode time.
    pub fn record_sink_buffer(&mut self, now_ms: u64)
        requires
            old(self).wf(),
        ensures
            final(self).wf(),
            final(self).activity == (ActivityClock {
                last_sink_ms: now_ms,
                sink_total: wadd(old(self).activity.sink_total, 1),
                ..old(self).activity
            }),
            ({
                let pending = expire_stale(old(self).pairing.decode_timestamps@, now_ms);
                if pending.len() > 0 {
                    let delta = sat_sub(now_ms, pending[0]) as u32;
                    &&& final(self).pairing.decode_timestamps@ == pending.drop_first()
                    &&& final(self).pairing.deltas@ == window_push(old(self).pairing.deltas@, delta)
                    &&& final(self).pairing.median_ms == window_median(final(self).pairing.deltas@)
                } else {
                    &&& final(self).pairing.decode_timestamps@ == pending
                    &&& final(self).pairing.deltas@ == old(self).pairing.deltas@
                    &&& final(self).pairing.median_ms == old(self).pairing.median_ms
                }
            }),
            final(self).session == old(self).session,
            final(self).duplicates == old(self).duplicates,
            final(self).network == old(self).network,
            final(self).rtcp_sent == old(self).rtcp_sent,
            final(self).startup == old(self).startup,
            final(self).telemetry == old(self).telemetry,
            final(self).once == old(self).once,
            final(self).hud == old(self).hud,
    {
        self.activity.last_sink_ms = now_ms;
        self.activity.sink_total = self.activity.sink_total.wrapping_add(1);
        self.pairing.record_present(now_ms);
    }

    /// Median decode→present latency (ms), `None` until the first paired
    /// present.
    pub fn decode_present_median_ms(&self) -> (m: Option<u32>)
        ensures
            m == (if self.pairing.median_ms > 0 { Some(self.pairing.median_ms) } else { None }),
    {
        self.pairing.median()
    }

    /// Decoded frames not presented yet (0 when the sink is ahead).
    pub fn frames_pending_to_present(&self) -> (n: u64)
        ensures
            n == sat_sub(self.activity.decoded_total, self.activity.sink_total),
    {
        self.activity.decoded_total.saturating_sub(self.activity.sink_total)
    }

    /// Record newly negotiated caps: the zero-copy D3D flags, the memory path
    /// and the framerate field.
    pub fn update_caps(&mut self, caps: &str)
        ensures
            final(self).session.zero_copy_d3d11 == contains_seq(caps@, "memory:D3D11Memory"@),
            final(self).session.zero_copy_d3d12 == contains_seq(caps@, "memory:D3D12Memory"@),
            final(self).session.memory_mode@ == memory_mode_of(caps@),
            opt_view(final(self).session.caps_framerate) == caps_framerate_of(caps@),
            final(self).session == (SessionInfo {
                zero_copy_d3d11: final(self).session.zero_copy_d3d11,
                zero_copy_d3d12: final(self).session.zero_copy_d3d12,
                memory_mode: final(self).session.memory_mode,
                caps_framerate: final(self).session.caps_framerate,
                ..old(self).session
            }),
            final(self).activity == old(self).activity,
            final(self).duplicates == old(self).duplicates,
            final(self).pairing == old(self).pairing,
            final(self).network == old(self).network,
            final(self).rtcp_sent == old(self).rtcp_sent,
            final(self).startup == old(self).startup,
            final(self).telemetry == old(self).telemetry,
            final(self).once == old(self).once,
            final(self).hud == old(self).hud,
    {
        self.session.zero_copy_d3d11 = contains_str(caps, "memory:D3D11Memory");
        self.session.zero_copy_d3d12 = contains_str(caps, "memory:D3D12Memory");
        self.session.memory_mode = String::from_str(memory_mode_from_caps(caps));
        self.session.caps_framerate = caps_framerate_summary(caps);
    }

    /// Give a rebuilt decode chain a fresh startup window: the startup stamp,
    /// the decode/present counters and stamps, the duplicate detector and the
    /// startup recovery flags start over.
    pub fn reset_startup_window(&mut self)
        ensures
            final(self).activity == (ActivityClock {
                first_startup_encoded_ms: 0,
                decoded_total: 0,
                sink_total: 0,
                last_decoded_ms: 0,
                last_sink_ms: 0,
                ..old(self).activity
            }),
            final(self).duplicates == fresh_duplicates(),
            final(self).startup == fresh_startup(),
            final(self).session == old(self).session,
            final(self).pairing == old(self).pairing,
            final(self).network == old(self).network,
            final(self).rtcp_sent == old(self).rtcp_sent,
            final(self).telemetry == old(self).telemetry,
            final(self).once == old(self).once,
            final(self).hud == old(self).hud,
    {
        self.activity.first_startup_encoded_ms = 0;
        self.activity.decoded_total = 0;
        self.activity.sink_total = 0;
        self.activity.last_decoded_ms = 0;
        self.activity.last_sink_ms = 0;
        self.duplicates = DuplicateDetector {
            frames_seen: 0,
            frames_unique: 0,
            prev_frame_hash: 0,
            prev_hash_valid: false,
            prev_frame_pts: NO_PTS,
        };
        self.startup = StartupFlags {
            keyframe_requested: false,
            resync_requested: false,
            fatal_reported: false,
            downgrade_requested: false,
        };
    }

    pub fn zero_copy_d3d11(&self) -> (b: bool)
        ensures
            b == self.session.zero_copy_d3d11,
    {
        self.session.zero_copy_d3d11
    }

    pub fn zero_copy_d3d12(&self) -> (b: bool)
        ensures
            b == self.session.zero_copy_d3d12,
    {
        self.session.zero_copy_d3d12
    }

    /// The current memory path ("system-memory" until caps are seen).
    pub fn memory_mode(&self) -> (m: String)
        ensures
            m@ == self.session.memory_mode@,
    {
        self.session.memory_mode.clone()
    }

    /// Whether the current memory path is zero-copy GPU memory.
    pub fn zero_copy(&self) -> (b: bool)
        ensures
            b == is_zero_copy_mode(self.session.memory_mode@),
    {
        is_zero_copy_memory_mode(self.session.memory_mode.as_str())
    }

    /// The requested stream rate, `None` when unset (0).
    pub fn requested_fps(&self) -> (f: Option<u32>)
        ensures
            f == (if self.session.requested_fps > 0 { Some(self.session.requested_fps) } else { None }),
    {
        if self.session.requested_fps > 0 { Some(self.session.requested_fps) } else { None }
    }

    /// The framerate field of the last caps, when they had one.
    pub fn caps_framerate(&self) -> (f: Option<String>)
        ensures
            opt_view(f) == opt_view(self.session.caps_framerate),
    {
        match &self.session.caps_framerate {
            Some(v) => Some(v.clone()),
            None => None,
        }
    }

    pub fn requested_streaming_features_summary(&self) -> (s: String)
        ensures
            s@ == self.session.requested_features_summary@,
    {
        self.session.requested_features_summary.clone()
    }

    pub fn finalized_streaming_features_summary(&self) -> (s: String)
        ensures
            s@ == self.session.finalized_features_summary@,
    {
        self.session.finalized_features_summary.clone()
    }

    pub fn transition_flush_escalation_enabled(&self) -> (b: bool)
        ensures
            b == self.session.transition_flush_escalation_enabled,
    {
        self.session.transition_flush_escalation_enabled
    }

    /// The post-decode queue depth the telemetry last recorded.
    pub fn queue_depth(&self) -> (d: u32)
        ensures
            d == self.telemetry.queue_depth,
    {
        self.telemetry.queue_depth
    }

    /// Record a post-decode queue depth of `max_buffers`; a change is counted
    /// (saturating) and reported as `true` so the caller logs it.
    pub fn set_queue_depth(&mut self, max_buffers: u32) -> (changed: bool)
        ensures
            changed == (old(self).telemetry.queue_depth != max_buffers),
            final(self).telemetry == (if changed {
                TransitionTelemetry {
                    queue_depth: max_buffers,
                    queue_depth_changes: if old(self).telemetry.queue_depth_changes == u32::MAX {
                        u32::MAX
                    } else {
                        (old(self).telemetry.queue_depth_changes + 1) as u32
                    },
                    ..old(self).telemetry
                }
            } else {
                old(self).telemetry
            }),
            final(self).session == old(self).session,
            final(self).activity == old(self).activity,
            final(self).duplicates == old(self).duplicates,
            final(self).pairing == old(self).pairing,
            final(self).network == old(self).network,
            final(self).rtcp_sent == old(self).rtcp_sent,
            final(self).startup == old(self).startup,
            final(self).once == old(self).once,
            final(self).hud == old(self).hud,
    {
        if self.telemetry.queue_depth == max_buffers {
            return false;
        }
        self.telemetry.queue_depth = max_buffers;
        self.telemetry.queue_depth_changes = self.telemetry.queue_depth_changes.saturating_add(1);
        true
    }

    /// Count one present-pacing change (saturating).
    pub fn record_present_pacing_change(&mut self)
        ensures
            final(self).telemetry == (TransitionTelemetry {
                present_pacing_changes: if old(self).telemetry.present_pacing_changes == u32::MAX {
                    u32::MAX
                } else {
                    (old(self).telemetry.present_pacing_changes + 1) as u32
                },
                ..old(self).telemetry
            }),
            final(self).session == old(self).session,
            final(self).activity == old(self).activity,
            final(self).duplicates == old(self).duplicates,
            final(self).pairing == old(self).pairing,
            final(self).network == old(self).network,
            final(self).rtcp_sent == old(self).rtcp_sent,
            final(self).startup == old(self).startup,
            final(self).once == old(self).once,
            final(self).hud == old(self).hud,
    {
        self.telemetry.present_pacing_changes = self.telemetry.present_pacing_changes.saturating_add(1);
    }

    /// Count one partial transition flush (saturating).
    pub fn increment_partial_flush_count(&mut self)
        ensures
            final(self).telemetry == (TransitionTelemetry {
                partial_flush_count: if old(self).telemetry.partial_flush_count == u32::MAX {
                    u32::MAX
                } else {
                    (old(self).telemetry.partial_flush_count + 1) as u32
                },
                ..old(self).telemetry
            }),
            final(self).session == old(self).session,
            final(self).activity == old(self).activity,
            final(self).duplicates == old(self).duplicates,
            final(self).pairing == old(self).pairing,
            final(self).network == old(self).network,
            final(self).rtcp_sent == old(self).rtcp_sent,
            final(self).startup == old(self).startup,
            final(self).once == old(self).once,
            final(self).hud == old(self).hud,
    {
        self.telemetry.partial_flush_count = self.telemetry.partial_flush_count.saturating_add(1);
    }

    /// Count one complete transition flush (saturating).
    pub fn increment_complete_flush_count(&mut self)
        ensures
            final(self).telemetry == (TransitionTelemetry {
                complete_flush_count: if old(self).telemetry.complete_flush_count == u32::MAX {
                    u32::MAX
                } else {
                    (old(self).telemetry.complete_flush_count + 1) as u32
                },
                ..old(self).telemetry
            }),
            final(self).session == old(self).session,
            final(self).activity == old(self).activity,
            final(self).duplicates == old(self).duplicates,
            final(self).pairing == old(self).pairing,
            final(self).network == old(self).network,
            final(self).rtcp_sent == old(self).rtcp_sent,
            final(self).startup == old(self).startup,
            final(self).once == old(self).once,
            final(self).hud == old(self).hud,
    {
        self.telemetry.complete_flush_count = self.telemetry.complete_flush_count.saturating_add(1);
    }
}


/// The probes installed at most once per session (their pads outlive
/// decode-chain rebuilds, so a second install would double-count).
#[derive(Debug, Clone, Copy, PartialEq, Eq, Structural)]
pub enum SessionProbe {
    RtpBitrate,
    RtpPayloadDump,
    RtcpSend,
}

/// Whether a probe is already installed.
pub open spec fn probe_installed(o: OnceFlags, probe: SessionProbe) -> bool {
    match probe {
        SessionProbe::RtpBitrate => o.rtp_bitrate_probe_installed,
        SessionProbe::RtpPayloadDump => o.rtp_payload_dump_installed,
        SessionProbe::RtcpSend => o.rtcp_send_probe_installed,
    }
}

/// The one-shot flags with a probe marked installed.
pub open spec fn with_probe_installed(o: OnceFlags, probe: SessionProbe) -> OnceFlags {
    match probe {
        SessionProbe::RtpBitrate => OnceFlags { rtp_bitrate_probe_installed: true, ..o },
        SessionProbe::RtpPayloadDump => OnceFlags { rtp_payload_dump_installed: true, ..o },
        SessionProbe::RtcpSend => OnceFlags { rtcp_send_probe_installed: true, ..o },
    }
}

impl LivenessState {
    /// Claim the installation of a once-per-session probe: `true` for the
    /// first claim (the caller installs it), `false` afterwards.
    pub fn claim_probe(&mut self, probe: SessionProbe) -> (first: bool)
        ensures
            first == !probe_installed(old(self).once, probe),
            final(self).once == with_probe_installed(old(self).once, probe),
            probe_installed(final(self).once, probe),
            final(self).session == old(self).session,
            final(self).activity == old(self).activity,
            final(self).duplicates == old(self).duplicates,
            final(self).pairing == old(self).pairing,
            final(self).network == old(self).network,
            final(self).rtcp_sent == old(self).rtcp_sent,
            final(self).startup == old(self).startup,
            final(self).telemetry == old(self).telemetry,
            final(self).hud == old(self).hud,
    {
        match probe {
            SessionProbe::RtpBitrate => {
                let first = !self.once.rtp_bitrate_probe_installed;
                self.once.rtp_bitrate_probe_installed = true;
                first
            },
            SessionProbe::RtpPayloadDump => {
                let first = !self.once.rtp_payload_dump_installed;
                self.once.rtp_payload_dump_installed = true;
                first
            },
            SessionProbe::RtcpSend => {
                let first = !self.once.rtcp_send_probe_installed;
                self.once.rtcp_send_probe_installed = true;
                first
            },
        }
    }
}

} // verus!
