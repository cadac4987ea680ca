//! Adaptive buffering state: the smoothed RTT and loss, the spike hold, the
//! ADJB jitter window, the current pre-decode depth and RTP playout latency,
//! and the last emitted network assessment.
use std::collections::VecDeque;
use vstd::prelude::*;
use crate::network::{
    ADJB_CONVERGENCE_PERCENT, ADJB_QUANTILE_PERCENT, NetworkVerdict, VIDEO_COMPRESSED_QUEUE_BASE_BUFFERS,
    VIDEO_COMPRESSED_QUEUE_MAX_BUFFERS, WEBRTC_LATENCY_BASE_MS, WEBRTC_LATENCY_MAX_MS, adjb_converged, assess_network,
    assessment_for, converged_for, pre_decode_depth_for, target_pre_decode_depth, target_webrtc_latency_ms,
    webrtc_latency_for,
};
use crate::order::{ascending, nearest_rank_index, percentile_quantile};
use crate::stall::sat_sub;

verus! {

/// How long a detected RTT spike holds the buffers at their maximum (ms).
pub const JITTER_BURST_HOLD_MS: u64 = 4_000;
/// Capacity of the ADJB jitter window (samples).
pub const ADJB_JITTER_HISTORY_MAX: usize = 96;
/// Minimum spacing (ms) of two assessment emits that only flip the verdict.
pub const NETWORK_ASSESSMENT_EMIT_INTERVAL_MS: u64 = 5_000;

/// One runtime network assessment as emitted to the main process.
#[derive(Debug, Clone, Copy, PartialEq, Eq, Structural)]
pub struct NetworkAssessment {
    pub verdict: NetworkVerdict,
    pub jitter_ms: Option<u32>,
    pub rtt_ms: Option<u32>,
    pub loss_e5: Option<u64>,
    pub recommend_lower_fps: bool,
    pub recommend_lower_resolution: bool,
    pub suggest_keyframe: bool,
}

/// The smoothed network picture and the buffer sizes derived from it.
pub struct NetworkAdaptation {
    /// EMA (ms) of the effective network RTT; 0 before the first sample.
    pub rtt_ema_ms: u32,
    /// EMA of the packet loss in 1e-5 units; 0 before the first sample.
    pub loss_ema_e5: u64,
    /// Current pre-decode queue depth (compressed frames).
    pub pre_decode_depth: u32,
    /// Current RTP playout latency (ms).
    pub webrtc_latency_ms: u32,
    /// Watchdog clock (ms) until which a spike holds the buffers at maximum.
    pub burst_hold_until_ms: u64,
    /// Recent receive-jitter samples (ms), oldest first.
    pub jitter_history: VecDeque<u32>,
    /// ADJB 99th-percentile of `jitter_history` (0 while empty).
    pub adjb_jitter_p99: u32,
    /// The last emitted assessment.
    pub last_assessment: Option<NetworkAssessment>,
    /// Watchdog clock (ms) of the last emit.
    pub last_assessment_emitted_ms: u64,
}

/// One EMA step (75% history, 25% latest); the first sample is taken as is.
pub open spec fn rtt_ema_next(current: u32, sample: u32) -> u32 {
    if current == 0 { sample } else { ((current * 3 + sample) / 4) as u32 }
}

/// The loss EMA step, in 1e-5 units.
pub open spec fn loss_ema_next(current: u64, sample: u64) -> u64 {
    if current == 0 { sample } else { ((current * 3 + sample) / 4) as u64 }
}

/// An RTT spike: the raw sample is above 1.5× the EMA and at least 30 ms
/// above it.
pub open spec fn is_rtt_spike(rtt_ms: u32, ema: u32) -> bool {
    let half_up = if ema * 3 > u32::MAX { u32::MAX as int } else { ema * 3 };
    rtt_ms > half_up / 2 && rtt_ms - ema >= 30
}

/// The end of a spike hold that starts at `now_ms` (saturating).
pub open spec fn hold_end(now_ms: u64) -> u64 {
    if now_ms + JITTER_BURST_HOLD_MS > u64::MAX { u64::MAX } else { (now_ms + JITTER_BURST_HOLD_MS) as u64 }
}

/// The RTT EMA and the spike-hold end after one RTT sample `rtt_ms` taken
/// at `now_ms`: a spike above the new EMA starts a hold.
pub open spec fn rtt_step(ema: u32, hold_until: u64, rtt_ms: u32, now_ms: u64) -> (u32, u64) {
    let e = rtt_ema_next(ema, rtt_ms);
    (e, if is_rtt_spike(rtt_ms, e) { hold_end(now_ms) } else { hold_until })
}

/// What one RTT sample does to the EMA and the spike hold: the EMA moves a
/// quarter of the way to the sample (the first sample is taken as is); a
/// sample more than half again above the new EMA and at least 30 ms above
/// it starts a hold of `JITTER_BURST_HOLD_MS` from `now_ms`; a sample less
/// than 30 ms above the new EMA, or no more than half again above it, leaves
/// the hold as it was.
pub proof fn lemma_rtt_step_rule(ema: u32, hold_until: u64, rtt_ms: u32, now_ms: u64)
    ensures
        rtt_step(ema, hold_until, rtt_ms, now_ms).0 == (if ema == 0 { rtt_ms as int } else { (3 * ema + rtt_ms) / 4 }),
        rtt_ms < rtt_step(ema, hold_until, rtt_ms, now_ms).0 + 30 ==> rtt_step(ema, hold_until, rtt_ms, now_ms).1
            == hold_until,
        2 * rtt_ms <= 3 * rtt_step(ema, hold_until, rtt_ms, now_ms).0 && 3 * rtt_step(ema, hold_until, rtt_ms, now_ms).0
            <= u32::MAX ==> rtt_step(ema, hold_until, rtt_ms, now_ms).1 == hold_until,
        2 * rtt_ms > 3 * rtt_step(ema, hold_until, rtt_ms, now_ms).0 && rtt_ms >= rtt_step(ema, hold_until, rtt_ms, now_ms).0
            + 30 ==> rtt_step(ema, hold_until, rtt_ms, now_ms).1 == (if now_ms + JITTER_BURST_HOLD_MS > u64::MAX {
            u64::MAX as int
        } else {
            now_ms + JITTER_BURST_HOLD_MS
        }),
{
    let e = rtt_ema_next(ema, rtt_ms);
    assert(e <= u32::MAX);
}

/// The RTT EMA and the spike-hold end after a run of RTT samples
/// `(rtt_ms, now_ms)`, oldest first.
pub open spec fn rtt_steps(ema: u32, hold_until: u64, steps: Seq<(u32, u64)>) -> (u32, u64)
    decreases steps.len(),
{
    if steps.len() == 0 {
        (ema, hold_until)
    } else {
        let before = rtt_steps(ema, hold_until, steps.drop_last());
        rtt_step(before.0, before.1, steps.last().0, steps.last().1)
    }
}

proof fn lemma_hold_stays(ema: u32, hold_until: u64, steps: Seq<(u32, u64)>, t: u64)
    requires
        hold_until >= hold_end(t),
        forall|i: int| 0 <= i < steps.len() ==> (#[trigger] steps[i]).1 >= t,
    ensures
        rtt_steps(ema, hold_until, steps).1 >= hold_end(t),
    decreases steps.len(),
{
    if steps.len() > 0 {
        let d = steps.drop_last();
        assert forall|i: int| 0 <= i < d.len() implies (#[trigger] d[i]).1 >= t by {
            assert(d[i] == steps[i]);
        }
        lemma_hold_stays(ema, hold_until, d, t);
        assert(steps.last() == steps[steps.len() - 1]);
    }
}

/// A spike holds the buffers for its whole window. After an RTT sample at
/// `t` that spikes above the new EMA, and whatever RTT samples follow at
/// times from `t` on (the other adaptation steps keep the EMA and the hold
/// end), the hold end stays at `t + JITTER_BURST_HOLD_MS`
/// or later: the spiking sample and every later one taken before then see
/// the hold, and under the hold the pre-decode target is the maximum depth,
/// whatever the EMA, loss and jitter.
pub proof fn lemma_spike_hold_window(ema: u32, hold_until: u64, rtt_ms: u32, t: u64, steps: Seq<(u32, u64)>)
    requires
        is_rtt_spike(rtt_ms, rtt_ema_next(ema, rtt_ms)),
        t + JITTER_BURST_HOLD_MS <= u64::MAX,
        forall|i: int| 0 <= i < steps.len() ==> (#[trigger] steps[i]).1 >= t,
    ensures
        t < rtt_step(ema, hold_until, rtt_ms, t).1,
        forall|i: int| 0 <= i < steps.len() ==> #[trigger] rtt_steps(
            rtt_step(ema, hold_until, rtt_ms, t).0,
            rtt_step(ema, hold_until, rtt_ms, t).1,
            steps.take(i + 1),
        ).1 >= t + JITTER_BURST_HOLD_MS,
        forall|i: int| 0 <= i < steps.len() && steps[i].1 < t + JITTER_BURST_HOLD_MS ==> steps[i].1 < #[trigger] rtt_steps(
            rtt_step(ema, hold_until, rtt_ms, t).0,
            rtt_step(ema, hold_until, rtt_ms, t).1,
            steps.take(i + 1),
        ).1,
        forall|e: u32, l: Option<u64>, j: Option<u32>|
            #[trigger] pre_decode_depth_for(e, l, true, j) == VIDEO_COMPRESSED_QUEUE_MAX_BUFFERS,
{
    let first = rtt_step(ema, hold_until, rtt_ms, t);
    assert forall|i: int| 0 <= i < steps.len() implies #[trigger] rtt_steps(first.0, first.1, steps.take(i + 1)).1
        >= t + JITTER_BURST_HOLD_MS by {
        let p = steps.take(i + 1);
        assert forall|k: int| 0 <= k < p.len() implies (#[trigger] p[k]).1 >= t by {
            assert(p[k] == steps[k]);
        }
        lemma_hold_stays(first.0, first.1, p, t);
    }
}

/// The 99th-percentile of a non-empty jitter window.
pub open spec fn jitter_p99_of(h: Seq<u32>) -> u32 {
    ascending(h)[nearest_rank_index(h.len(), ADJB_QUANTILE_PERCENT)]
}

/// `Some(v)` for a positive reading, `None` for 0 (no sample yet).
pub open spec fn positive(v: u64) -> Option<u64> {
    if v > 0 { Some(v) } else { None }
}

pub open spec fn positive_u32(v: u32) -> Option<u32> {
    if v > 0 { Some(v) } else { None }
}


/// The assessment of the current picture: classified on the ADJB quantile
/// (or the raw jitter before the first quantile), reporting the raw jitter,
/// the RTT EMA (when known) and the loss EMA (when known).
pub open spec fn assessment_of(a: NetworkAdaptation, raw_jitter_ms: Option<u32>) -> NetworkAssessment {
    assessment_from(a.p99(), a.rtt_ema_ms, a.loss_ema(), raw_jitter_ms)
}

/// The assessment for an ADJB quantile, RTT EMA, loss EMA and raw jitter.
pub open spec fn assessment_from(p99: Option<u32>, rtt_ema_ms: u32, loss_ema: Option<u64>, raw_jitter_ms: Option<u32>) -> NetworkAssessment {
    let jitter = if p99 is Some { p99 } else { raw_jitter_ms };
    let (verdict, lower_fps, lower_res, keyframe) = assessment_for(jitter, rtt_ema_ms, loss_ema);
    NetworkAssessment {
        verdict,
        jitter_ms: raw_jitter_ms,
        rtt_ms: positive_u32(rtt_ema_ms),
        loss_e5: loss_ema,
        recommend_lower_fps: lower_fps,
        recommend_lower_resolution: lower_res,
        suggest_keyframe: keyframe,
    }
}

/// Whether two assessments say the same: the same verdict and the same
/// three recommendations (the reported figures may differ).
pub open spec fn same_outcome(a: NetworkAssessment, b: NetworkAssessment) -> bool {
    &&& a.verdict == b.verdict
    &&& a.recommend_lower_fps == b.recommend_lower_fps
    &&& a.recommend_lower_resolution == b.recommend_lower_resolution
    &&& a.suggest_keyframe == b.suggest_keyframe
}

/// Whether the outcome of `next` differs from that of the last emitted
/// assessment (always, before the first one).
pub open spec fn outcome_changed(last: Option<NetworkAssessment>, next: NetworkAssessment) -> bool {
    !(last is Some && same_outcome(last->0, next))
}

/// Whether an assessment is emitted: its verdict or one of its
/// recommendations must differ from the last emitted one, and such a change
/// is throttled to one per `NETWORK_ASSESSMENT_EMIT_INTERVAL_MS` unless it
/// newly suggests a keyframe.
pub open spec fn should_emit_assessment(last: Option<NetworkAssessment>, next: NetworkAssessment, last_emitted_ms: u64, now_ms: u64) -> bool {
    let changed = outcome_changed(last, next);
    let new_keyframe = next.suggest_keyframe && !(last is Some && last->0.suggest_keyframe);
    let throttled = sat_sub(now_ms, last_emitted_ms) < NETWORK_ASSESSMENT_EMIT_INTERVAL_MS;
    changed && (!throttled || new_keyframe)
}

/// An EMA step lands between the previous EMA and the new sample, and a
/// steady signal keeps a steady EMA.
pub proof fn lemma_ema_between(current: u32, sample: u32)
    ensures
        current > 0 && current <= sample ==> current <= rtt_ema_next(current, sample) <= sample,
        current > 0 && sample <= current ==> sample <= rtt_ema_next(current, sample) <= current,
        current == sample ==> rtt_ema_next(current, sample) == sample,
        current == 0 ==> rtt_ema_next(current, sample) == sample,
{
}

/// Emission happens only on a change of verdict or recommendations (never
/// for moved figures alone), a new keyframe suggestion is never held back by
/// the throttle, and any such change goes out once the throttle has passed.
pub proof fn lemma_assessment_emission(last: Option<NetworkAssessment>, next: NetworkAssessment, last_emitted_ms: u64, now_ms: u64)
    ensures
        should_emit_assessment(last, next, last_emitted_ms, now_ms) ==> outcome_changed(last, next),
        last is Some && same_outcome(last->0, next) ==> !should_emit_assessment(last, next, last_emitted_ms, now_ms),
        next.suggest_keyframe && !(last is Some && last->0.suggest_keyframe)
            ==> should_emit_assessment(last, next, last_emitted_ms, now_ms),
        outcome_changed(last, next) && sat_sub(now_ms, last_emitted_ms) >= NETWORK_ASSESSMENT_EMIT_INTERVAL_MS
            ==> should_emit_assessment(last, next, last_emitted_ms, now_ms),
{
}

impl NetworkAdaptation {
    pub open spec fn wf(&self) -> bool {
        &&& self.jitter_history@.len() <= ADJB_JITTER_HISTORY_MAX
        &&& self.jitter_history@.len() == 0 ==> self.adjb_jitter_p99 == 0
        &&& self.jitter_history@.len() > 0 ==> self.adjb_jitter_p99 == jitter_p99_of(self.jitter_history@)
        &&& VIDEO_COMPRESSED_QUEUE_BASE_BUFFERS <= self.pre_decode_depth <= VIDEO_COMPRESSED_QUEUE_MAX_BUFFERS
        &&& WEBRTC_LATENCY_BASE_MS <= self.webrtc_latency_ms <= WEBRTC_LATENCY_MAX_MS
    }

    /// The spike hold at `now_ms`.
    pub open spec fn burst_hold_at(&self, now_ms: u64) -> bool {
        now_ms < self.burst_hold_until_ms
    }

    /// The ADJB quantile, `None` before the first sample.
    pub open spec fn p99(&self) -> Option<u32> {
        positive_u32(self.adjb_jitter_p99)
    }

    /// The loss EMA, `None` before the first loss sample.
    pub open spec fn loss_ema(&self) -> Option<u64> {
        positive(self.loss_ema_e5)
    }

    pub fn new() -> (a: Self)
        ensures
            a.wf(),
            a.rtt_ema_ms == 0,
            a.loss_ema_e5 == 0,
            a.pre_decode_depth == VIDEO_COMPRESSED_QUEUE_MAX_BUFFERS,
            a.webrtc_latency_ms == WEBRTC_LATENCY_BASE_MS,
            a.burst_hold_until_ms == 0,
            a.jitter_history@.len() == 0,
            a.last_assessment is None,
            a.last_assessment_emitted_ms == 0,
    {
        NetworkAdaptation {
            rtt_ema_ms: 0,
            loss_ema_e5: 0,
            pre_decode_depth: VIDEO_COMPRESSED_QUEUE_MAX_BUFFERS,
            webrtc_latency_ms: WEBRTC_LATENCY_BASE_MS,
            burst_hold_until_ms: 0,
            jitter_history: VecDeque::new(),
            adjb_jitter_p99: 0,
            last_assessment: None,
            last_assessment_emitted_ms: 0,
        }
    }

    /// Whether a spike still holds the buffers at their maximum.
    pub fn burst_hold_active(&self, now_ms: u64) -> (b: bool)
        ensures
            b == self.burst_hold_at(now_ms),
    {
        now_ms < self.burst_hold_until_ms
    }

    /// The ADJB 99th-percentile receive jitter, `None` before the first
    /// sample.
    pub fn adjb_jitter_p99(&self) -> (p: Option<u32>)
        ensures
            p == self.p99(),
    {
        if self.adjb_jitter_p99 > 0 { Some(self.adjb_jitter_p99) } else { None }
    }

    /// The loss EMA in 1e-5 units, `None` before the first loss sample.
    pub fn loss_ema_e5(&self) -> (l: Option<u64>)
        ensures
            l == self.loss_ema(),
    {
        if self.loss_ema_e5 > 0 { Some(self.loss_ema_e5) } else { None }
    }

    /// Feed one RTT sample (and the loss sample, when there is one) at
    /// `now_ms`: update both EMAs, start a spike hold when the raw sample
    /// spikes above the EMA, and resize the pre-decode queue to the new
    /// target. Returns the new depth when it changed and a queue is there to
    /// resize (the depth is only recorded then).
    pub fn adjust_pre_decode_queue(&mut self, rtt_ms: u32, loss_e5: Option<u64>, now_ms: u64, queue_present: bool) -> (changed: Option<u32>)
        requires
            old(self).wf(),
        ensures
            final(self).wf(),
            ({
                let ema = rtt_step(old(self).rtt_ema_ms, old(self).burst_hold_until_ms, rtt_ms, now_ms).0;
                let hold_until = rtt_step(old(self).rtt_ema_ms, old(self).burst_hold_until_ms, rtt_ms, now_ms).1;
                let loss = match loss_e5 {
                    Some(l) => loss_ema_next(old(self).loss_ema_e5, l),
                    None => old(self).loss_ema_e5,
                };
                let loss_used = match loss_e5 {
                    Some(l) => Some(loss),
                    None => None,
                };
                let target = pre_decode_depth_for(ema, loss_used, now_ms < hold_until, old(self).p99());
                let applied = target != old(self).pre_decode_depth && queue_present;
                &&& final(self).rtt_ema_ms == ema
                &&& final(self).burst_hold_until_ms == hold_until
                &&& final(self).rtt_ema_ms == (if old(self).rtt_ema_ms == 0 {
                    rtt_ms as int
                } else {
                    (3 * old(self).rtt_ema_ms + rtt_ms) / 4
                })
                &&& (rtt_ms < final(self).rtt_ema_ms + 30 ==> final(self).burst_hold_until_ms == old(self).burst_hold_until_ms)
                &&& (2 * rtt_ms <= 3 * final(self).rtt_ema_ms && 3 * final(self).rtt_ema_ms <= u32::MAX
                    ==> final(self).burst_hold_until_ms == old(self).burst_hold_until_ms)
                &&& (2 * rtt_ms > 3 * final(self).rtt_ema_ms && rtt_ms >= final(self).rtt_ema_ms + 30
                    ==> final(self).burst_hold_until_ms == (if now_ms + JITTER_BURST_HOLD_MS > u64::MAX {
                    u64::MAX as int
                } else {
                    now_ms + JITTER_BURST_HOLD_MS
                }))
                &&& final(self).loss_ema_e5 == loss
                &&& final(self).pre_decode_depth == if applied { target } else { old(self).pre_decode_depth }
                &&& changed == if applied { Some(target) } else { None }
            }),
            final(self).webrtc_latency_ms == old(self).webrtc_latency_ms,
            final(self).jitter_history == old(self).jitter_history,
            final(self).adjb_jitter_p99 == old(self).adjb_jitter_p99,
            final(self).last_assessment == old(self).last_assessment,
            final(self).last_assessment_emitted_ms == old(self).last_assessment_emitted_ms,
    {
        let current = self.rtt_ema_ms;
        let ema: u32 = if current == 0 {
            rtt_ms
        } else {
            ((current as u64 * 3 + rtt_ms as u64) / 4) as u32
        };
        self.rtt_ema_ms = ema;
        let tripled: u64 = ema as u64 * 3;
        let saturated: u32 = if tripled > u32::MAX as u64 { u32::MAX } else { tripled as u32 };
        let spike = rtt_ms > saturated / 2 && rtt_ms.saturating_sub(ema) >= 30;
        if spike {
            self.burst_hold_until_ms = now_ms.saturating_add(JITTER_BURST_HOLD_MS);
        }
        let loss_used: Option<u64> = match loss_e5 {
            Some(scaled) => {
                let c = self.loss_ema_e5;
                let next: u64 = if c == 0 {
                    scaled
                } else {
                    ((c as u128 * 3 + scaled as u128) / 4) as u64
                };
                self.loss_ema_e5 = next;
                Some(next)
            },
            None => None,
        };
        let burst_hold = now_ms < self.burst_hold_until_ms;
        let jitter = self.adjb_jitter_p99();
        let target = target_pre_decode_depth(ema, loss_used, burst_hold, jitter);
        if target == self.pre_decode_depth {
            return None;
        }
        if !queue_present {
            return None;
        }
        proof {
            crate::network::lemma_pre_decode_depth_bounded(ema, loss_used, burst_hold, jitter);
        }
        self.pre_decode_depth = target;
        Some(target)
    }

    /// Record one fresh receive-jitter sample into the ADJB window (oldest
    /// samples dropped beyond its capacity) and recompute the quantile.
    pub fn record_jitter_sample(&mut self, jitter_ms: u32)
        requires
            old(self).wf(),
        ensures
            final(self).wf(),
            final(self).jitter_history@ == (if old(self).jitter_history@.len() + 1 > ADJB_JITTER_HISTORY_MAX {
                old(self).jitter_history@.push(jitter_ms).drop_first()
            } else {
                old(self).jitter_history@.push(jitter_ms)
            }),
            final(self).adjb_jitter_p99 == jitter_p99_of(final(self).jitter_history@),
            final(self).rtt_ema_ms == old(self).rtt_ema_ms,
            final(self).loss_ema_e5 == old(self).loss_ema_e5,
            final(self).pre_decode_depth == old(self).pre_decode_depth,
            final(self).webrtc_latency_ms == old(self).webrtc_latency_ms,
            final(self).burst_hold_until_ms == old(self).burst_hold_until_ms,
            final(self).last_assessment == old(self).last_assessment,
            final(self).last_assessment_emitted_ms == old(self).last_assessment_emitted_ms,
    {
        self.jitter_history.push_back(jitter_ms);
        if self.jitter_history.len() > ADJB_JITTER_HISTORY_MAX {
            let _ = self.jitter_history.pop_front();
        }
        let p99 = match percentile_quantile(&self.jitter_history, ADJB_QUANTILE_PERCENT) {
            Some(p) => p,
            None => jitter_ms,
        };
        self.adjb_jitter_p99 = p99;
    }

    /// Ease the RTP playout latency toward its target for the current
    /// picture (jitter: the ADJB quantile when there is one, else the raw
    /// sample). Returns the new latency when it moved and the webrtcbin is
    /// there to take it (it is only recorded then).
    pub fn adjust_webrtc_latency(&mut self, local_jitter_ms: Option<u32>, now_ms: u64, webrtcbin_present: bool) -> (changed: Option<u32>)
        requires
            old(self).wf(),
        ensures
            final(self).wf(),
            ({
                let jitter = if old(self).p99() is Some { old(self).p99() } else { local_jitter_ms };
                let target = webrtc_latency_for(jitter, old(self).rtt_ema_ms, old(self).loss_ema(), old(self).burst_hold_at(now_ms));
                let next = converged_for(old(self).webrtc_latency_ms, target, ADJB_CONVERGENCE_PERCENT);
                let applied = next != old(self).webrtc_latency_ms && webrtcbin_present;
                &&& final(self).webrtc_latency_ms == if applied { next } else { old(self).webrtc_latency_ms }
                &&& changed == if applied { Some(next) } else { None }
            }),
            final(self).rtt_ema_ms == old(self).rtt_ema_ms,
            final(self).loss_ema_e5 == old(self).loss_ema_e5,
            final(self).pre_decode_depth == old(self).pre_decode_depth,
            final(self).burst_hold_until_ms == old(self).burst_hold_until_ms,
            final(self).jitter_history == old(self).jitter_history,
            final(self).adjb_jitter_p99 == old(self).adjb_jitter_p99,
            final(self).last_assessment == old(self).last_assessment,
            final(self).last_assessment_emitted_ms == old(self).last_assessment_emitted_ms,
    {
        let jitter_for_target = match self.adjb_jitter_p99() {
            Some(p) => Some(p),
            None => local_jitter_ms,
        };
        let target = target_webrtc_latency_ms(
            jitter_for_target,
            self.rtt_ema_ms,
            self.loss_ema_e5(),
            self.burst_hold_active(now_ms),
        );
        let current = self.webrtc_latency_ms;
        let converged = adjb_converged(current, target, ADJB_CONVERGENCE_PERCENT);
        if converged == current {
            return None;
        }
        if !webrtcbin_present {
            return None;
        }
        proof {
            crate::network::lemma_webrtc_latency_bounded(jitter_for_target, self.rtt_ema_ms, self.loss_ema(), self.burst_hold_at(now_ms));
            crate::network::lemma_adjb_converges(current, target, ADJB_CONVERGENCE_PERCENT);
        }
        self.webrtc_latency_ms = converged;
        Some(converged)
    }

    /// Assess the current picture and decide whether to emit it; an emitted
    /// assessment becomes the last one, stamped with `now_ms`.
    pub fn assessment_update(&mut self, raw_jitter_ms: Option<u32>, now_ms: u64) -> (emit: Option<NetworkAssessment>)
        requires
            old(self).wf(),
        ensures
            final(self).wf(),
            ({
                let next = assessment_of(*old(self), raw_jitter_ms);
                if should_emit_assessment(old(self).last_assessment, next, old(self).last_assessment_emitted_ms, now_ms) {
                    &&& emit == Some(next)
                    &&& final(self).last_assessment == Some(next)
                    &&& final(self).last_assessment_emitted_ms == now_ms
                } else {
                    &&& emit is None
                    &&& final(self).last_assessment == old(self).last_assessment
                    &&& final(self).last_assessment_emitted_ms == old(self).last_assessment_emitted_ms
                }
            }),
            final(self).rtt_ema_ms == old(self).rtt_ema_ms,
            final(self).loss_ema_e5 == old(self).loss_ema_e5,
            final(self).pre_decode_depth == old(self).pre_decode_depth,
            final(self).webrtc_latency_ms == old(self).webrtc_latency_ms,
            final(self).burst_hold_until_ms == old(self).burst_hold_until_ms,
            final(self).jitter_history == old(self).jitter_history,
            final(self).adjb_jitter_p99 == old(self).adjb_jitter_p99,
    {
        let jitter = match self.adjb_jitter_p99() {
            Some(p) => Some(p),
            None => raw_jitter_ms,
        };
        let (verdict, lower_fps, lower_res, keyframe) = assess_network(jitter, self.rtt_ema_ms, self.loss_ema_e5());
        let next = NetworkAssessment {
            verdict,
            jitter_ms: raw_jitter_ms,
            rtt_ms: if self.rtt_ema_ms > 0 { Some(self.rtt_ema_ms) } else { None },
            loss_e5: self.loss_ema_e5(),
            recommend_lower_fps: lower_fps,
            recommend_lower_resolution: lower_res,
            suggest_keyframe: keyframe,
        };
        let (changed, previous_keyframe) = match self.last_assessment {
            None => (true, false),
            Some(last) => (!(last.verdict == next.verdict && last.recommend_lower_fps == next.recommend_lower_fps
                && last.recommend_lower_resolution == next.recommend_lower_resolution && last.suggest_keyframe
                == next.suggest_keyframe), last.suggest_keyframe),
        };
        let new_keyframe_suggestion = keyframe && !previous_keyframe;
        let throttled = now_ms.saturating_sub(self.last_assessment_emitted_ms) < NETWORK_ASSESSMENT_EMIT_INTERVAL_MS;
        if !changed || (throttled && !new_keyframe_suggestion) {
            return None;
        }
        self.last_assessment_emitted_ms = now_ms;
        self.last_assessment = Some(next);
        Some(next)
    }

}

} // verus!
