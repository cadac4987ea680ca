//! The decisions of the liveness watchdog, one tick at a time: the startup
//! recovery timeline, the stall ladder with its transition flushes and
//! decoder fallbacks, and the HUD game-rate ceiling. The caller performs
//! the I/O each decision asks for and reports back.
use vstd::prelude::*;
use crate::adaptive::{ADJB_JITTER_HISTORY_MAX, NetworkAssessment, assessment_from, assessment_of, jitter_p99_of, loss_ema_next, positive, positive_u32, rtt_step, should_emit_assessment};
use crate::caps::{find_str, framerate_matches_requested, high_fps_risk_for, high_fps_transition_risk, lemma_find_from_bounds, requested_framerate_text};
use crate::network::{ADJB_CONVERGENCE_PERCENT, converged_for, pre_decode_depth_for, webrtc_latency_for};
use crate::liveness::{ActivityClock, DEFAULT_VIDEO_QUEUE_DEPTH, LivenessState, OnceFlags, StartupFailure, TRANSITION_FLUSH_QUEUE_DEPTH, TransitionSnapshot, TransitionTelemetry, clamped_game_fps_for, fresh_duplicates, fresh_startup, opt_view, stream_fps_of};

use crate::stall::{ACTIVE_RECENT_MS, VIDEO_STALL_WARNING_MS, VideoStallAction, VideoStallStage, VideoStallTracker, age_since, age_since_ms, idle_tracker, sat_sub, stall_stage, stall_stage_for, stall_step};
use crate::startup::{StartupFlags, StartupStep, codec_downgrade_target, downgrade_of, downgrade_source_label, startup_step_for};
use crate::text::{decimal_seq, decimal_string, parse_u32, trim, trim_seq, upper_seq};

verus! {

/// Which elements a transition flush resets.
#[derive(Debug, Clone, Copy, PartialEq, Eq, Structural)]
pub enum TransitionFlushKind {
    /// The pre-decode and post-decode queues.
    Partial,
    /// The queues and the decoder.
    Complete,
}

/// The outcome of one stall-watch tick on a chain that has presented.
#[derive(Debug, Clone, Copy, PartialEq, Eq)]
pub struct StallTick {
    pub encoded_age_ms: Option<u64>,
    pub decoded_age_ms: Option<u64>,
    pub sink_age_ms: Option<u64>,
    /// Where the stall most likely sits.
    pub stage: VideoStallStage,
    /// Encoded RTP keeps arriving while the decoder produces nothing.
    pub transition_stall: bool,
    /// The pending decode times were dropped (the sink is stalled).
    pub timestamps_cleared: bool,
    /// The stall ladder's action.
    pub action: VideoStallAction,
    /// Try rebuilding the decode chain with the next decoder candidate.
    pub try_chain_fallback: bool,
    /// Flush the transition path first.
    pub flush: Option<TransitionFlushKind>,
    /// The post-decode queue depth went back to its default (the caller
    /// reconfigures the queue and logs it).
    pub queue_depth_restored: bool,
}

/// `a + 1`, saturating at `u32::MAX`.
pub open spec fn sat_inc(a: u32) -> u32 {
    if a == u32::MAX { u32::MAX } else { (a + 1) as u32 }
}

/// The telemetry after recording a post-decode queue depth of `depth`.
pub open spec fn with_queue_depth(t: TransitionTelemetry, depth: u32) -> TransitionTelemetry {
    if t.queue_depth != depth {
        TransitionTelemetry { queue_depth: depth, queue_depth_changes: sat_inc(t.queue_depth_changes), ..t }
    } else {
        t
    }
}

/// Whether the stall ladder's action asks for a decoder fallback: after the
/// second keyframe request of a transition stall, and on the fatal rung.
pub open spec fn wants_chain_fallback(action: VideoStallAction, transition_stall: bool) -> bool {
    match action {
        VideoStallAction::RequestKeyframe { attempt, .. } => attempt >= 2 && transition_stall,
        VideoStallAction::Fatal { .. } => true,
        _ => false,
    }
}

/// The decoder-chain fallback is always tried on the fatal rung, whatever
/// the stall, and on a repeated keyframe request of a transition stall; no
/// other action (no action, the first keyframe request, resync, flushes,
/// recovery) ever asks for it.
pub proof fn lemma_chain_fallback_rule(action: VideoStallAction, transition_stall: bool)
    ensures
        action is Fatal ==> wants_chain_fallback(action, transition_stall),
        (action matches VideoStallAction::RequestKeyframe { attempt, .. } && attempt >= 2 && transition_stall)
            ==> wants_chain_fallback(action, transition_stall),
        wants_chain_fallback(action, transition_stall) ==> action is Fatal || (action matches VideoStallAction::RequestKeyframe {
            attempt,
            ..
        } && attempt >= 2 && transition_stall),
{
}

/// The transition flush the ladder's action asks for: only for a transition
/// stall with flush escalation enabled.
pub open spec fn wanted_flush(action: VideoStallAction, transition_stall: bool, escalation_enabled: bool) -> Option<TransitionFlushKind> {
    if transition_stall && escalation_enabled {
        match action {
            VideoStallAction::PartialFlush { .. } => Some(TransitionFlushKind::Partial),
            VideoStallAction::CompleteFlush { .. } => Some(TransitionFlushKind::Complete),
            _ => None,
        }
    } else {
        None
    }
}

impl LivenessState {
    /// One startup-recovery tick at `now_ms` (for a chain that has not
    /// presented yet): the rungs due now, each at most once per window.
    /// `None` while no live encoded video RTP gates the recovery.
    pub fn startup_recovery_step(&mut self, now_ms: u64) -> (step: Option<StartupStep>)
        ensures
            match startup_step_for(old(self).startup, old(self).activity.first_startup_encoded_ms, old(self).activity.last_encoded_ms, now_ms) {
                Some((flags, st)) => step == Some(st) && final(self).startup == flags,
                None => step is None && final(self).startup == old(self).startup,
            },
            final(self).session == old(self).session,
            final(self).activity == old(self).activity,
            final(self).duplicates == old(self).duplicates,
            final(self).pairing == old(self).pairing,
            final(self).network == old(self).network,
            final(self).rtcp_sent == old(self).rtcp_sent,
            final(self).telemetry == old(self).telemetry,
            final(self).once == old(self).once,
            final(self).hud == old(self).hud,
    {
        let first = self.activity.first_startup_encoded_ms;
        let last = self.activity.last_encoded_ms;
        if first == 0 || now_ms.saturating_sub(last) > crate::startup::VIDEO_STARTUP_KEYFRAME_MS {
            return None;
        }
        let active = now_ms.saturating_sub(first);
        let keyframe = active >= crate::startup::VIDEO_STARTUP_KEYFRAME_MS && !self.startup.keyframe_requested;
        let resync = active >= crate::startup::VIDEO_STARTUP_RESYNC_MS && !self.startup.resync_requested;
        let fatal = active >= crate::startup::VIDEO_STARTUP_FATAL_MS && !self.startup.fatal_reported;
        if active >= crate::startup::VIDEO_STARTUP_KEYFRAME_MS {
            self.startup.keyframe_requested = true;
        }
        if active >= crate::startup::VIDEO_STARTUP_RESYNC_MS {
            self.startup.resync_requested = true;
        }
        if active >= crate::startup::VIDEO_STARTUP_FATAL_MS {
            self.startup.fatal_reported = true;
        }
        Some(StartupStep { encoded_active_ms: active, request_keyframe: keyframe, request_resync: resync, startup_failed: fatal })
    }

    /// The outcome of a startup that failed with no decoder fallback left:
    /// when the negotiated codec has a downgrade, nothing was decoded or
    /// presented, and no downgrade was requested in this window, ask for the
    /// downgrade (once); otherwise report the failure.
    pub fn startup_failure_outcome(&mut self) -> (outcome: StartupFailure)
        ensures
            ({
                let codec = old(self).session.codec@;
                let candidate = downgrade_of(codec) is Some && old(self).activity.decoded_total == 0
                    && old(self).activity.sink_total == 0;
                &&& final(self).startup == (StartupFlags {
                    downgrade_requested: old(self).startup.downgrade_requested || candidate,
                    ..old(self).startup
                })
                &&& if candidate && !old(self).startup.downgrade_requested {
                    outcome matches StartupFailure::Downgrade { from_codec, to_codec } && from_codec@ == upper_seq(
                        trim_seq(codec),
                    ) && downgrade_of(codec) == Some(to_codec@)
                } else {
                    outcome == StartupFailure::Failed
                }
            }),
            final(self).session == old(self).session,
            final(self).activity == old(self).activity,
            final(self).duplicates == old(self).duplicates,
            final(self).pairing == old(self).pairing,
            final(self).network == old(self).network,
            final(self).rtcp_sent == old(self).rtcp_sent,
            final(self).telemetry == old(self).telemetry,
            final(self).once == old(self).once,
            final(self).hud == old(self).hud,
    {
        let target = codec_downgrade_target(self.session.codec.as_str());
        let source = downgrade_source_label(self.session.codec.as_str());
        match (target, source) {
            (Some(to_codec), Some(from_codec)) => {
                if self.activity.decoded_total == 0 && self.activity.sink_total == 0 {
                    let already = self.startup.downgrade_requested;
                    self.startup.downgrade_requested = true;
                    if !already {
                        return StartupFailure::Downgrade { from_codec, to_codec };
                    }
                }
                StartupFailure::Failed
            },
            _ => StartupFailure::Failed,
        }
    }

    /// One stall-watch tick at `now_ms`. `None` (and nothing changes) while
    /// the chain has not presented a frame: that is the startup path. Else:
    /// the ages and likely stage, the pending decode times dropped once the
    /// sink is stalled, the ladder evaluated on the last present, and what
    /// its action asks for; a recovery restores the default post-decode
    /// queue depth.
    pub fn stall_tick(&mut self, tracker: &mut VideoStallTracker, now_ms: u64) -> (tick: Option<StallTick>)
        requires
            old(self).wf(),
            old(tracker).wf(),
        ensures
            final(self).wf(),
            final(tracker).wf(),
            old(self).activity.last_sink_ms == 0 ==> tick is None && *final(tracker) == *old(tracker)
                && final(self).pairing == old(self).pairing && final(self).telemetry == old(self).telemetry,
            old(self).activity.last_sink_ms != 0 ==> (tick matches Some(k) && {
                let last_sink = old(self).activity.last_sink_ms;
                let enc = age_since(now_ms, old(self).activity.last_encoded_ms);
                let dec = age_since(now_ms, old(self).activity.last_decoded_ms);
                let sink = age_since(now_ms, last_sink);
                let stage = stall_stage_for(enc, dec, sink);
                let transition = stage == VideoStallStage::DecodeChainStalled && enc is Some && enc->0 <= ACTIVE_RECENT_MS;
                let cleared = sat_sub(now_ms, last_sink) >= VIDEO_STALL_WARNING_MS;
                let restored = k.action is Recovered && old(self).telemetry.queue_depth > DEFAULT_VIDEO_QUEUE_DEPTH;
                &&& k.encoded_age_ms == enc
                &&& k.decoded_age_ms == dec
                &&& k.sink_age_ms == sink
                &&& k.stage == stage
                &&& k.transition_stall == transition
                &&& k.timestamps_cleared == cleared
                &&& (*final(tracker), k.action) == stall_step(*old(tracker), now_ms, last_sink)
                &&& k.try_chain_fallback == wants_chain_fallback(k.action, transition)
                &&& (k.action is Fatal ==> k.try_chain_fallback)
                &&& (k.action matches VideoStallAction::RequestKeyframe { attempt, .. } && attempt >= 2 && transition
                    ==> k.try_chain_fallback)
                &&& (k.try_chain_fallback ==> k.action is Fatal || k.action is RequestKeyframe)
                &&& (k.flush is Some ==> transition && old(self).session.transition_flush_escalation_enabled)
                &&& (k.flush == Some(TransitionFlushKind::Partial) <==> (k.action is PartialFlush && transition
                    && old(self).session.transition_flush_escalation_enabled))
                &&& (k.flush == Some(TransitionFlushKind::Complete) <==> (k.action is CompleteFlush && transition
                    && old(self).session.transition_flush_escalation_enabled))
                &&& (k.queue_depth_restored ==> k.action is Recovered)
                &&& k.flush == wanted_flush(k.action, transition, old(self).session.transition_flush_escalation_enabled)
                &&& k.queue_depth_restored == restored
                &&& final(self).telemetry == if restored {
                    with_queue_depth(old(self).telemetry, DEFAULT_VIDEO_QUEUE_DEPTH)
                } else {
                    old(self).telemetry
                }
                &&& final(self).pairing.decode_timestamps@.len() == if cleared {
                    0
                } else {
                    old(self).pairing.decode_timestamps@.len()
                }
                &&& !cleared ==> final(self).pairing.decode_timestamps@ == old(self).pairing.decode_timestamps@
            }),
            final(self).pairing.deltas@ == old(self).pairing.deltas@,
            final(self).pairing.median_ms == old(self).pairing.median_ms,
            final(self).session == old(self).session,
            final(self).activity == old(self).activity,
            final(self).duplicates == old(self).duplicates,
            final(self).network == old(self).network,
            final(self).rtcp_sent == old(self).rtcp_sent,
            final(self).startup == old(self).startup,
            final(self).once == old(self).once,
            final(self).hud == old(self).hud,
    {
        let last_sink = self.activity.last_sink_ms;
        if last_sink == 0 {
            return None;
        }
        let encoded_age_ms = age_since_ms(now_ms, self.activity.last_encoded_ms);
        let decoded_age_ms = age_since_ms(now_ms, self.activity.last_decoded_ms);
        let sink_age_ms = age_since_ms(now_ms, last_sink);
        let stage = stall_stage(encoded_age_ms, decoded_age_ms, sink_age_ms);
        let recent = match encoded_age_ms {
            Some(age) => age <= ACTIVE_RECENT_MS,
            None => false,
        };
        let transition_stall = match stage {
            VideoStallStage::DecodeChainStalled => recent,
            _ => false,
        };
        let cleared = now_ms.saturating_sub(last_sink) >= VIDEO_STALL_WARNING_MS;
        if cleared {
            self.clear_decode_timestamps();
        }
        let action = tracker.evaluate(now_ms, last_sink);
        let try_chain_fallback = match action {
            VideoStallAction::RequestKeyframe { attempt, .. } => attempt >= 2 && transition_stall,
            VideoStallAction::Fatal { .. } => true,
            _ => false,
        };
        let escalate = transition_stall && self.session.transition_flush_escalation_enabled;
        let flush = match action {
            VideoStallAction::PartialFlush { .. } => if escalate { Some(TransitionFlushKind::Partial) } else { None },
            VideoStallAction::CompleteFlush { .. } => if escalate { Some(TransitionFlushKind::Complete) } else { None },
            _ => None,
        };
        let mut queue_depth_restored = false;
        if let VideoStallAction::Recovered { .. } = action {
            if self.telemetry.queue_depth > DEFAULT_VIDEO_QUEUE_DEPTH {
                let _ = self.set_queue_depth(DEFAULT_VIDEO_QUEUE_DEPTH);
                queue_depth_restored = true;
            }
        }
        Some(StallTick {
            encoded_age_ms,
            decoded_age_ms,
            sink_age_ms,
            stage,
            transition_stall,
            timestamps_cleared: cleared,
            action,
            try_chain_fallback,
            flush,
            queue_depth_restored,
        })
    }

    /// Finish a transition flush after the caller flushed the registered
    /// elements: when anything was flushed, count the flush and deepen the
    /// post-decode queue to `TRANSITION_FLUSH_QUEUE_DEPTH`. Returns whether
    /// the recorded depth changed.
    pub fn complete_transition_flush(&mut self, kind: TransitionFlushKind, flushed_any: bool) -> (depth_changed: bool)
        ensures
            !flushed_any ==> !depth_changed && final(self).telemetry == old(self).telemetry,
            flushed_any ==> {
                let counted = match kind {
                    TransitionFlushKind::Partial => TransitionTelemetry {
                        partial_flush_count: sat_inc(old(self).telemetry.partial_flush_count),
                        ..old(self).telemetry
                    },
                    TransitionFlushKind::Complete => TransitionTelemetry {
                        complete_flush_count: sat_inc(old(self).telemetry.complete_flush_count),
                        ..old(self).telemetry
                    },
                };
                &&& depth_changed == (old(self).telemetry.queue_depth != TRANSITION_FLUSH_QUEUE_DEPTH)
                &&& final(self).telemetry == with_queue_depth(counted, TRANSITION_FLUSH_QUEUE_DEPTH)
            },
            final(self).session == old(self).session,
            final(self).activity == old(self).activity,
            final(self).duplicates == old(self).duplicates,
            final(self).pairing == old(self).pairing,
            final(self).network == old(self).network,
            final(self).rtcp_sent == old(self).rtcp_sent,
            final(self).startup == old(self).startup,
            final(self).once == old(self).once,
            final(self).hud == old(self).hud,
    {
        if !flushed_any {
            return false;
        }
        match kind {
            TransitionFlushKind::Partial => self.increment_partial_flush_count(),
            TransitionFlushKind::Complete => self.increment_complete_flush_count(),
        }
        self.set_queue_depth(TRANSITION_FLUSH_QUEUE_DEPTH)
    }

    /// A stalled chain was rebuilt with the next decoder candidate: it gets a
    /// fresh startup window and a fresh stall ladder.
    pub fn chain_rebuilt_after_stall(&mut self, tracker: &mut VideoStallTracker)
        ensures
            *final(tracker) == idle_tracker(),
            final(tracker).wf(),
            final(self).activity == (ActivityClock {
                first_startup_encoded_ms: 0,
                decoded_total: 0,
                sink_total: 0,
                last_decoded_ms: 0,
                last_sink_ms: 0,
                ..old(self).activity
            }),
            final(self).duplicates == fresh_duplicates(),
            final(self).startup == fresh_startup(),
            final(self).session == old(self).session,
            final(self).pairing == old(self).pairing,
            final(self).network == old(self).network,
            final(self).rtcp_sent == old(self).rtcp_sent,
            final(self).telemetry == old(self).telemetry,
            final(self).once == old(self).once,
            final(self).hud == old(self).hud,
    {
        self.reset_startup_window();
        *tracker = VideoStallTracker::new();
    }

    /// The server-reported game rate for the HUD, capped at twice the stream
    /// rate (the requested rate, else the caps framerate's numerator) and
    /// never above 360; 0 while there are no stats.
    pub fn clamped_server_game_fps(&self, game_fps: u32) -> (fps: u32)
        ensures
            fps == clamped_game_fps_for(game_fps, stream_fps_of(self.session.requested_fps, opt_view(self.session.caps_framerate))),
    {
        if game_fps == 0 {
            return 0;
        }
        let stream_fps: Option<u32> = if self.session.requested_fps > 0 {
            Some(self.session.requested_fps)
        } else {
            match &self.session.caps_framerate {
                Some(f) => {
                    let text = f.as_str();
                    let numerator = match find_str(text, "/") {
                        Some(i) => {
                            proof {
                                lemma_find_from_bounds(text@, "/"@, 0);
                            }
                            text.substring_char(0, i)
                        },
                        None => text,
                    };
                    parse_u32(trim(numerator))
                },
                None => None,
            }
        };
        match stream_fps {
            Some(s) => if s > 0 {
                let ceiling: u32 = if s > 180 { 360 } else { s * 2 };
                if game_fps <= ceiling { game_fps } else { ceiling }
            } else {
                game_fps
            },
            None => game_fps,
        }
    }
}

/// A local RTCP round-trip older than this (ms) is expired.
pub const LOCAL_RTCP_FRESH_AGE_MS: u32 = 15_000;
/// Receive jitter is only reported while encoded RTP arrived within this
/// window (ms).
pub const JITTER_FRESH_AGE_MS: u64 = 5_000;
/// Stream rate assumed when none was requested.
pub const FALLBACK_STREAM_FPS: u32 = 60;

/// Freshness of the local RTCP round-trip: the last `(rtt_ms, rb_lsr)`
/// sample and when it last changed (a new receiver report changes it).
#[derive(Debug, Clone, Copy, PartialEq, Eq)]
pub struct LocalRtcpFreshness {
    pub last_sample: Option<(u32, u64)>,
    pub last_change_ms: u64,
}

/// `v` capped to `u32`.
pub open spec fn cap_u32(v: u64) -> u32 {
    if v > u32::MAX { u32::MAX } else { v as u32 }
}

impl LocalRtcpFreshness {
    pub fn new(now_ms: u64) -> (f: Self)
        ensures
            f.last_sample is None,
            f.last_change_ms == now_ms,
    {
        LocalRtcpFreshness { last_sample: None, last_change_ms: now_ms }
    }

    /// Observe this tick's sample at `now_ms`: a changed sample re-bases the
    /// freshness stamp. Returns the round-trip while it is fresh and the age
    /// (ms, capped to `u32`) of the stamp.
    pub fn observe(&mut self, sample: Option<(u32, u64)>, now_ms: u64) -> (r: (Option<u32>, u32))
        ensures
            ({
                let at = if sample != old(self).last_sample { now_ms } else { old(self).last_change_ms };
                let age = cap_u32(sat_sub(now_ms, at));
                &&& *final(self) == (LocalRtcpFreshness { last_sample: sample, last_change_ms: at })
                &&& r.1 == age
                &&& r.0 == match sample {
                    Some((rtt, _)) => if age <= LOCAL_RTCP_FRESH_AGE_MS { Some(rtt) } else { None },
                    None => None,
                }
            }),
    {
        let same = match (sample, self.last_sample) {
            (Some((a, b)), Some((c, d))) => a == c && b == d,
            (None, None) => true,
            _ => false,
        };
        if !same {
            self.last_sample = sample;
            self.last_change_ms = now_ms;
        }
        let elapsed = now_ms.saturating_sub(self.last_change_ms);
        let age: u32 = if elapsed > u32::MAX as u64 { u32::MAX } else { elapsed as u32 };
        let rtt = match sample {
            Some((rtt, _)) => if age <= LOCAL_RTCP_FRESH_AGE_MS { Some(rtt) } else { None },
            None => None,
        };
        (rtt, age)
    }
}

/// What one watchdog tick measured about the network.
#[derive(Debug, Clone, Copy, PartialEq, Eq)]
pub struct NetworkTickInputs {
    pub now_ms: u64,
    /// The local RTCP round-trip, already freshness-gated.
    pub local_rtcp_rtt_ms: Option<u32>,
    /// The server-reported round-trip (0 = none).
    pub server_rtt_ms: u32,
    /// The server-reported packet loss (1e-5 units), when known.
    pub loss_e5: Option<u64>,
    /// The local receive jitter of the video stream, as read.
    pub raw_jitter_ms: Option<u32>,
    /// A pre-decode queue is registered to be resized.
    pub queue_present: bool,
    /// The webrtcbin is there to take a new playout latency.
    pub webrtcbin_present: bool,
}

/// What one watchdog tick decided about the network.
#[derive(Debug, Clone, Copy, PartialEq, Eq)]
pub struct NetworkTickOutcome {
    /// The receive jitter while encoded RTP is fresh.
    pub local_jitter_ms: Option<u32>,
    /// The pre-decode buffer depth in ms of video, while RTP is fresh.
    pub pre_decode_jitter_buffer_ms: Option<u32>,
    /// The round-trip the buffers were driven by (local, else server).
    pub effective_rtt_ms: Option<u32>,
    /// The new pre-decode depth, when it was resized.
    pub resized_depth: Option<u32>,
    /// The new RTP playout latency, when it moved.
    pub playout_latency_ms: Option<u32>,
    /// The assessment to emit, when one is due.
    pub assessment: Option<NetworkAssessment>,
}

/// Whether encoded RTP is fresh enough (or never seen) for jitter readings.
pub open spec fn jitter_fresh(now_ms: u64, last_encoded_ms: u64) -> bool {
    match age_since(now_ms, last_encoded_ms) {
        Some(age) => age <= JITTER_FRESH_AGE_MS,
        None => true,
    }
}

/// The round-trip driving the buffers: the local RTCP one, else a positive
/// server one.
pub open spec fn effective_rtt(local_rtcp_rtt_ms: Option<u32>, server_rtt_ms: u32) -> Option<u32> {
    if local_rtcp_rtt_ms is Some {
        local_rtcp_rtt_ms
    } else if server_rtt_ms > 0 {
        Some(server_rtt_ms)
    } else {
        None
    }
}

/// The pre-decode depth in ms of video at the requested rate (60 fps when
/// none was requested); `None` for an empty buffer.
pub open spec fn jitter_buffer_ms_for(depth: u32, requested_fps: u32) -> Option<u32> {
    if depth > 0 {
        let fps = if requested_fps > 0 { requested_fps } else { FALLBACK_STREAM_FPS };
        Some(((depth * 1000) / (fps as int)) as u32)
    } else {
        None
    }
}

/// The jitter window after one sample.
pub open spec fn jitter_window_push(h: Seq<u32>, jitter_ms: u32) -> Seq<u32> {
    if h.len() + 1 > ADJB_JITTER_HISTORY_MAX { h.push(jitter_ms).drop_first() } else { h.push(jitter_ms) }
}

impl LivenessState {
    /// The network half of one watchdog tick: gate the jitter on fresh RTP
    /// and feed it to the ADJB window, drive the pre-decode queue by the
    /// effective round-trip and the loss, ease the RTP playout latency, and
    /// decide whether to emit a new assessment.
    pub fn network_tick(&mut self, input: NetworkTickInputs) -> (out: NetworkTickOutcome)
        requires
            old(self).wf(),
        ensures
            final(self).wf(),
            ({
                let now = input.now_ms;
                let a0 = old(self).network;
                let fresh = jitter_fresh(now, old(self).activity.last_encoded_ms);
                let jitter = if fresh { input.raw_jitter_ms } else { None };
                let history = if jitter is Some { jitter_window_push(a0.jitter_history@, jitter->0) } else { a0.jitter_history@ };
                let p99 = if jitter is Some { positive_u32(jitter_p99_of(history)) } else { a0.p99() };
                let rtt = effective_rtt(input.local_rtcp_rtt_ms, input.server_rtt_ms);
                let ema = if rtt is Some { rtt_step(a0.rtt_ema_ms, a0.burst_hold_until_ms, rtt->0, now).0 } else { a0.rtt_ema_ms };
                let hold_until = if rtt is Some {
                    rtt_step(a0.rtt_ema_ms, a0.burst_hold_until_ms, rtt->0, now).1
                } else {
                    a0.burst_hold_until_ms
                };
                let loss = if rtt is Some && input.loss_e5 is Some {
                    loss_ema_next(a0.loss_ema_e5, input.loss_e5->0)
                } else {
                    a0.loss_ema_e5
                };
                let loss_used = if input.loss_e5 is Some { Some(loss) } else { None };
                let depth_target = pre_decode_depth_for(ema, loss_used, now < hold_until, p99);
                let resized = rtt is Some && depth_target != a0.pre_decode_depth && input.queue_present;
                let latency_target = webrtc_latency_for(if p99 is Some { p99 } else { jitter }, ema, positive(loss), now < hold_until);
                let latency_next = converged_for(a0.webrtc_latency_ms, latency_target, ADJB_CONVERGENCE_PERCENT);
                let moved = latency_next != a0.webrtc_latency_ms && input.webrtcbin_present;
                let next = assessment_from(p99, ema, positive(loss), jitter);
                let emit = should_emit_assessment(a0.last_assessment, next, a0.last_assessment_emitted_ms, now);
                &&& out.local_jitter_ms == jitter
                &&& out.pre_decode_jitter_buffer_ms == if fresh {
                    jitter_buffer_ms_for(a0.pre_decode_depth, old(self).session.requested_fps)
                } else {
                    None
                }
                &&& out.effective_rtt_ms == rtt
                &&& final(self).network.jitter_history@ == history
                &&& final(self).network.p99() == p99
                &&& final(self).network.rtt_ema_ms == ema
                &&& final(self).network.burst_hold_until_ms == hold_until
                &&& final(self).network.loss_ema_e5 == loss
                &&& final(self).network.pre_decode_depth == if resized { depth_target } else { a0.pre_decode_depth }
                &&& out.resized_depth == if resized { Some(depth_target) } else { None }
                &&& final(self).network.webrtc_latency_ms == if moved { latency_next } else { a0.webrtc_latency_ms }
                &&& out.playout_latency_ms == if moved { Some(latency_next) } else { None }
                &&& out.assessment == if emit { Some(next) } else { None }
                &&& final(self).network.last_assessment == if emit { Some(next) } else { a0.last_assessment }
                &&& final(self).network.last_assessment_emitted_ms == if emit { now } else { a0.last_assessment_emitted_ms }
            }),
            final(self).session == old(self).session,
            final(self).activity == old(self).activity,
            final(self).duplicates == old(self).duplicates,
            final(self).pairing == old(self).pairing,
            final(self).rtcp_sent == old(self).rtcp_sent,
            final(self).startup == old(self).startup,
            final(self).telemetry == old(self).telemetry,
            final(self).once == old(self).once,
            final(self).hud == old(self).hud,
    {
        let now = input.now_ms;
        let fresh = match age_since_ms(now, self.activity.last_encoded_ms) {
            Some(age) => age <= JITTER_FRESH_AGE_MS,
            None => true,
        };
        let local_jitter_ms = if fresh { input.raw_jitter_ms } else { None };
        let ghost a0 = self.network;
        if let Some(j) = local_jitter_ms {
            self.network.record_jitter_sample(j);
        }
        let ghost a1 = self.network;
        let depth = self.network.pre_decode_depth;
        let pre_decode_jitter_buffer_ms = if fresh && depth > 0 {
            let fps = if self.session.requested_fps > 0 { self.session.requested_fps } else { FALLBACK_STREAM_FPS };
            Some(((depth as u64 * 1000) / fps as u64) as u32)
        } else {
            None
        };
        let effective_rtt_ms = match input.local_rtcp_rtt_ms {
            Some(r) => Some(r),
            None => if input.server_rtt_ms > 0 { Some(input.server_rtt_ms) } else { None },
        };
        let resized_depth = match effective_rtt_ms {
            Some(rtt) => self.network.adjust_pre_decode_queue(rtt, input.loss_e5, now, input.queue_present),
            None => None,
        };
        let ghost a2 = self.network;
        assert(a2.p99() == a1.p99());
        let playout_latency_ms = self.network.adjust_webrtc_latency(local_jitter_ms, now, input.webrtcbin_present);
        let ghost a3 = self.network;
        assert(assessment_of(a3, local_jitter_ms) == assessment_from(a1.p99(), a2.rtt_ema_ms, a2.loss_ema(), local_jitter_ms));
        let assessment = self.network.assessment_update(local_jitter_ms, now);
        NetworkTickOutcome {
            local_jitter_ms,
            pre_decode_jitter_buffer_ms,
            effective_rtt_ms,
            resized_depth,
            playout_latency_ms,
            assessment,
        }
    }
}

/// What a recorded caps transition reports about the session.
#[derive(Debug, Clone, Copy, PartialEq, Eq)]
pub struct TransitionFacts {
    pub requested_fps: Option<u32>,
    /// Time since the last present (`None` before the first one).
    pub render_gap_ms: Option<u64>,
    /// A high-rate stream whose new framerate is not the requested one.
    pub high_fps_risk: bool,
}

/// The optional string slice, seen as characters.
pub open spec fn opt_str_view(s: Option<&str>) -> Option<Seq<char>> {
    match s {
        Some(v) => Some(v@),
        None => None,
    }
}

/// An optional field as the transition summary shows it.
pub open spec fn or_unknown(s: Option<Seq<char>>) -> Seq<char> {
    match s {
        Some(v) => v,
        None => "unknown"@,
    }
}

/// The one-line description of a caps transition: its type and source, the
/// framerate before and after ("unknown" when absent), the requested rate
/// ("n/a" when unset), and a marker when the change puts a high-rate
/// stream at risk.
pub open spec fn transition_summary_of(
    transition_type: Seq<char>,
    source: Seq<char>,
    requested_fps: Option<u32>,
    old_framerate: Option<Seq<char>>,
    new_framerate: Option<Seq<char>>,
    high_fps_risk: bool,
) -> Seq<char> {
    transition_type + " from "@ + source + ": framerate "@ + or_unknown(old_framerate) + " -> "@ + or_unknown(
        new_framerate,
    ) + " requestedFps="@ + (match requested_fps {
        Some(f) => decimal_seq(f as nat),
        None => "n/a"@,
    }) + (if high_fps_risk { " highFpsRisk"@ } else { Seq::<char>::empty() })
}

pub fn transition_summary(
    transition_type: &str,
    source: &str,
    requested_fps: Option<u32>,
    old_framerate: Option<&str>,
    new_framerate: Option<&str>,
    high_fps_risk: bool,
) -> (s: String)
    ensures
        s@ == transition_summary_of(
            transition_type@,
            source@,
            requested_fps,
            opt_str_view(old_framerate),
            opt_str_view(new_framerate),
            high_fps_risk,
        ),
{
    let mut s = String::from_str(transition_type);
    s.append(" from ");
    s.append(source);
    s.append(": framerate ");
    match old_framerate {
        Some(f) => s.append(f),
        None => s.append("unknown"),
    }
    s.append(" -> ");
    match new_framerate {
        Some(f) => s.append(f),
        None => s.append("unknown"),
    }
    s.append(" requestedFps=");
    match requested_fps {
        Some(f) => {
            let d = decimal_string(f as u64);
            s.append(d.as_str());
        },
        None => s.append("n/a"),
    }
    if high_fps_risk {
        s.append(" highFpsRisk");
    } else {
        assert(s@ + Seq::<char>::empty() =~= s@);
    }
    s
}

/// The optional string slice as an owned string.
fn owned_opt(s: Option<&str>) -> (r: Option<String>)
    ensures
        opt_view(r) == opt_str_view(s),
{
    match s {
        Some(v) => Some(String::from_str(v)),
        None => None,
    }
}

/// Whether `s` records a transition of `transition_type` seen on `source`
/// at `at_ms`, with the given caps, framerates and memory modes, when the
/// session requested `requested_fps` and had last presented `render_gap_ms`
/// ago.
pub open spec fn snapshot_records(
    s: TransitionSnapshot,
    transition_type: Seq<char>,
    source: Seq<char>,
    at_ms: u64,
    old_caps: Option<Seq<char>>,
    new_caps: Option<Seq<char>>,
    old_framerate: Option<Seq<char>>,
    new_framerate: Option<Seq<char>>,
    old_memory_mode: Option<Seq<char>>,
    new_memory_mode: Option<Seq<char>>,
    render_gap_ms: Option<u64>,
    requested_fps: Option<u32>,
) -> bool {
    let risk = high_fps_risk_for(requested_fps, new_framerate);
    &&& s.transition_type@ == transition_type
    &&& s.source@ == source
    &&& s.at_ms == at_ms
    &&& opt_view(s.old_caps) == old_caps
    &&& opt_view(s.new_caps) == new_caps
    &&& opt_view(s.old_framerate) == old_framerate
    &&& opt_view(s.new_framerate) == new_framerate
    &&& opt_view(s.old_memory_mode) == old_memory_mode
    &&& opt_view(s.new_memory_mode) == new_memory_mode
    &&& s.render_gap_ms == render_gap_ms
    &&& s.requested_fps == requested_fps
    &&& opt_view(s.caps_framerate) == new_framerate
    &&& s.high_fps_risk == risk
    &&& s.summary@ == transition_summary_of(transition_type, source, requested_fps, old_framerate, new_framerate, risk)
}

impl LivenessState {
    /// Record a caps transition seen on `source` at `now_ms` as the
    /// session's last transition; the counters are kept.
    pub fn record_transition(
        &mut self,
        transition_type: &str,
        source: &str,
        old_caps: Option<&str>,
        new_caps: Option<&str>,
        old_framerate: Option<&str>,
        new_framerate: Option<&str>,
        old_memory_mode: Option<&str>,
        new_memory_mode: Option<&str>,
        now_ms: u64,
    )
        ensures
            final(self).telemetry == (TransitionTelemetry {
                last_transition: final(self).telemetry.last_transition,
                ..old(self).telemetry
            }),
            final(self).telemetry.last_transition is Some,
            snapshot_records(
                final(self).telemetry.last_transition->0,
                transition_type@,
                source@,
                now_ms,
                opt_str_view(old_caps),
                opt_str_view(new_caps),
                opt_str_view(old_framerate),
                opt_str_view(new_framerate),
                opt_str_view(old_memory_mode),
                opt_str_view(new_memory_mode),
                age_since(now_ms, old(self).activity.last_sink_ms),
                if old(self).session.requested_fps > 0 { Some(old(self).session.requested_fps) } else { None },
            ),
            final(self).session == old(self).session,
            final(self).activity == old(self).activity,
            final(self).duplicates == old(self).duplicates,
            final(self).pairing == old(self).pairing,
            final(self).network == old(self).network,
            final(self).rtcp_sent == old(self).rtcp_sent,
            final(self).startup == old(self).startup,
            final(self).once == old(self).once,
            final(self).hud == old(self).hud,
    {
        let facts = self.transition_facts(new_framerate, now_ms);
        let summary = transition_summary(
            transition_type,
            source,
            facts.requested_fps,
            old_framerate,
            new_framerate,
            facts.high_fps_risk,
        );
        let snapshot = TransitionSnapshot {
            transition_type: String::from_str(transition_type),
            source: String::from_str(source),
            at_ms: now_ms,
            old_caps: owned_opt(old_caps),
            new_caps: owned_opt(new_caps),
            old_framerate: owned_opt(old_framerate),
            new_framerate: owned_opt(new_framerate),
            old_memory_mode: owned_opt(old_memory_mode),
            new_memory_mode: owned_opt(new_memory_mode),
            render_gap_ms: facts.render_gap_ms,
            requested_fps: facts.requested_fps,
            caps_framerate: owned_opt(new_framerate),
            high_fps_risk: facts.high_fps_risk,
            summary,
        };
        self.telemetry.last_transition = Some(snapshot);
    }

    /// The facts recorded with a caps transition at `now_ms` whose new
    /// framerate field is `new_framerate`.
    pub fn transition_facts(&self, new_framerate: Option<&str>, now_ms: u64) -> (f: TransitionFacts)
        ensures
            f.requested_fps == (if self.session.requested_fps > 0 { Some(self.session.requested_fps) } else { None }),
            f.render_gap_ms == age_since(now_ms, self.activity.last_sink_ms),
            f.high_fps_risk == high_fps_risk_for(f.requested_fps, opt_str_view(new_framerate)),
    {
        let requested_fps = self.requested_fps();
        TransitionFacts {
            requested_fps,
            render_gap_ms: age_since_ms(now_ms, self.activity.last_sink_ms),
            high_fps_risk: high_fps_transition_risk(requested_fps, new_framerate),
        }
    }

    /// Whether a pad's caps framerate contradicts the requested rate and the
    /// mismatch was not warned about yet this session (it is then marked as
    /// warned).
    pub fn framerate_mismatch_first_seen(&mut self, caps_framerate: Option<&str>) -> (warn: bool)
        ensures
            ({
                let mismatch = old(self).session.requested_fps > 0 && caps_framerate is Some
                    && caps_framerate->0@ != requested_framerate_text(old(self).session.requested_fps);
                &&& warn == (mismatch && !old(self).once.framerate_mismatch_warned)
                &&& final(self).once == (OnceFlags {
                    framerate_mismatch_warned: old(self).once.framerate_mismatch_warned || mismatch,
                    ..old(self).once
                })
            }),
            final(self).session == old(self).session,
            final(self).activity == old(self).activity,
            final(self).duplicates == old(self).duplicates,
            final(self).pairing == old(self).pairing,
            final(self).network == old(self).network,
            final(self).rtcp_sent == old(self).rtcp_sent,
            final(self).startup == old(self).startup,
            final(self).telemetry == old(self).telemetry,
            final(self).hud == old(self).hud,
    {
        let fps = self.session.requested_fps;
        if fps == 0 {
            return false;
        }
        match caps_framerate {
            Some(f) => {
                if !framerate_matches_requested(f, fps) {
                    self.warn_framerate_mismatch_once()
                } else {
                    false
                }
            },
            None => false,
        }
    }
}

} // verus!
