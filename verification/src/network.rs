//! Adaptive network buffering: the pre-decode jitter-buffer depth and the
//! RTP playout latency ramps, the ADJB convergence step, the runtime network
//! verdict and the RTCP-derived jitter/round-trip measurements.
//!
//! Packet-loss fractions are carried in units of 1e-5 (`loss_e5`: a loss of
//! 0.0002 is 20), the resolution at which the streamer smooths them.
use vstd::prelude::*;


verus! {

/// Shallow pre-decode depth (compressed frames) for stable links.
pub const VIDEO_COMPRESSED_QUEUE_BASE_BUFFERS: u32 = 3;
/// Pre-decode depth while packet loss reaches the mid band.
pub const VIDEO_COMPRESSED_QUEUE_MID_BUFFERS: u32 = 10;
/// Deepest pre-decode depth (heavy loss, burst hold, high RTT/jitter).
pub const VIDEO_COMPRESSED_QUEUE_MAX_BUFFERS: u32 = 15;
/// RTP playout latency (ms) on stable links.
pub const WEBRTC_LATENCY_BASE_MS: u32 = 25;
/// RTP playout latency (ms) while packet loss reaches the mid band.
pub const WEBRTC_LATENCY_MID_MS: u32 = 50;
/// RTP playout latency (ms) on degraded links.
pub const WEBRTC_LATENCY_MAX_MS: u32 = 100;

/// Loss (1e-5 units) at which the buffers are forced to their maximum (0.5%).
pub const LOSS_MAX_E5: u64 = 500;
/// Loss (1e-5 units) at which the buffers floor at the mid band (0.15%).
pub const LOSS_MID_E5: u64 = 150;
/// Loss (1e-5 units) at which a proactive keyframe is suggested (0.2%).
pub const LOSS_KEYFRAME_E5: u64 = 200;

/// Jitter ramp: at or below this (ms) the jitter adds no depth.
pub const JITTER_RAMP_LO_MS: u32 = 5;
/// Jitter ramp: at or above this (ms) the jitter asks for the maximum.
pub const JITTER_RAMP_HI_MS: u32 = 40;
/// RTT ramp: at or below this (ms) the RTT adds no depth.
pub const RTT_RAMP_LO_MS: u32 = 30;
/// RTT ramp: at or above this (ms) the RTT asks for the maximum.
pub const RTT_RAMP_HI_MS: u32 = 150;

/// ADJB convergence factor, in percent of the remaining distance per tick.
pub const ADJB_CONVERGENCE_PERCENT: u32 = 35;
/// ADJB quantile, in percent.
pub const ADJB_QUANTILE_PERCENT: u32 = 99;

pub open spec fn min_u32(a: u32, b: u32) -> u32 {
    if a <= b { a } else { b }
}

pub open spec fn max_u32(a: u32, b: u32) -> u32 {
    if a >= b { a } else { b }
}

/// Linear ramp of `signal` from `lo` (adds nothing) to `hi` (adds
/// `out_span`), clipped above `hi`, rounded down.
pub open spec fn ramp(signal: u32, lo: u32, hi: u32, out_span: u32) -> u32
    recommends
        lo < hi,
{
    if signal <= lo {
        0
    } else {
        ((out_span as int) * (min_u32((signal - lo) as u32, (hi - lo) as u32) as int) / ((hi - lo) as int)) as u32
    }
}

/// Whether an optional loss sample reaches `threshold`.
pub open spec fn loss_at_least(loss_e5: Option<u64>, threshold: u64) -> bool {
    match loss_e5 {
        Some(loss) => loss >= threshold,
        None => false,
    }
}

/// The pre-decode depth the ramps ask for: the shallow base plus the larger
/// of the jitter and RTT ramps.
pub open spec fn pre_decode_ramp_depth(rtt_ema_ms: u32, jitter_p99: Option<u32>) -> u32 {
    let span = (VIDEO_COMPRESSED_QUEUE_MAX_BUFFERS - VIDEO_COMPRESSED_QUEUE_BASE_BUFFERS) as u32;
    (VIDEO_COMPRESSED_QUEUE_BASE_BUFFERS + max_u32(
        ramp(jitter_p99.unwrap_or(0), JITTER_RAMP_LO_MS, JITTER_RAMP_HI_MS, span),
        ramp(rtt_ema_ms, RTT_RAMP_LO_MS, RTT_RAMP_HI_MS, span),
    )) as u32
}

/// Depth (compressed frames) the pre-decode jitter buffer should hold: the
/// maximum on a burst hold or heavy loss; otherwise the ramp depth, floored
/// at the mid band on moderate loss.
pub open spec fn pre_decode_depth_for(rtt_ema_ms: u32, loss_e5: Option<u64>, burst_hold: bool, jitter_p99: Option<u32>) -> u32 {
    if burst_hold || loss_at_least(loss_e5, LOSS_MAX_E5) {
        VIDEO_COMPRESSED_QUEUE_MAX_BUFFERS
    } else if loss_at_least(loss_e5, LOSS_MID_E5) {
        max_u32(VIDEO_COMPRESSED_QUEUE_MID_BUFFERS, pre_decode_ramp_depth(rtt_ema_ms, jitter_p99))
    } else {
        pre_decode_ramp_depth(rtt_ema_ms, jitter_p99)
    }
}

/// The RTP playout latency the ramps ask for: the base plus the larger of
/// the jitter and RTT ramps.
pub open spec fn webrtc_ramp_latency(local_jitter_ms: Option<u32>, rtt_ema_ms: u32) -> u32 {
    let span = (WEBRTC_LATENCY_MAX_MS - WEBRTC_LATENCY_BASE_MS) as u32;
    (WEBRTC_LATENCY_BASE_MS + max_u32(
        ramp(local_jitter_ms.unwrap_or(0), JITTER_RAMP_LO_MS, JITTER_RAMP_HI_MS, span),
        ramp(rtt_ema_ms, RTT_RAMP_LO_MS, RTT_RAMP_HI_MS, span),
    )) as u32
}

/// RTP playout latency (ms): the maximum on a burst hold or heavy loss;
/// otherwise the ramp latency, floored at the mid band on moderate loss.
pub open spec fn webrtc_latency_for(local_jitter_ms: Option<u32>, rtt_ema_ms: u32, loss_e5: Option<u64>, burst_hold: bool) -> u32 {
    if burst_hold || loss_at_least(loss_e5, LOSS_MAX_E5) {
        WEBRTC_LATENCY_MAX_MS
    } else if loss_at_least(loss_e5, LOSS_MID_E5) {
        max_u32(WEBRTC_LATENCY_MID_MS, webrtc_ramp_latency(local_jitter_ms, rtt_ema_ms))
    } else {
        webrtc_ramp_latency(local_jitter_ms, rtt_ema_ms)
    }
}

proof fn lemma_ramp_bounds(signal: u32, lo: u32, hi: u32, out_span: u32)
    requires
        lo < hi,
        out_span <= 1000,
    ensures
        ramp(signal, lo, hi, out_span) <= out_span,
        signal >= hi ==> ramp(signal, lo, hi, out_span) == out_span,
        signal > lo ==> ramp(signal, lo, hi, out_span) as int == (out_span as int) * (min_u32(
            (signal - lo) as u32,
            (hi - lo) as u32,
        ) as int) / ((hi - lo) as int),
{
    if signal > lo {
        let m = min_u32((signal - lo) as u32, (hi - lo) as u32) as int;
        let d = (hi - lo) as int;
        assert(out_span * m / d <= out_span) by (nonlinear_arith)
            requires
                0 <= m <= d,
                d > 0,
                out_span >= 0,
        {
            assert(out_span * m <= out_span * d);
            vstd::arithmetic::div_mod::lemma_div_is_ordered(out_span * m, out_span * d, d);
            vstd::arithmetic::div_mod::lemma_div_by_multiple(out_span as int, d);
        }
        assert(out_span * m / d >= 0) by (nonlinear_arith)
            requires
                0 <= m,
                d > 0,
                out_span >= 0,
        ;
        if signal >= hi {
            assert(out_span * d / d == out_span) by (nonlinear_arith)
                requires
                    d > 0,
            {
                vstd::arithmetic::div_mod::lemma_div_by_multiple(out_span as int, d);
            }
        }
    }
}

proof fn lemma_ramp_monotonic(a: u32, b: u32, lo: u32, hi: u32, out_span: u32)
    requires
        lo < hi,
        out_span <= 1000,
        a <= b,
    ensures
        ramp(a, lo, hi, out_span) <= ramp(b, lo, hi, out_span),
{
    if a > lo {
        let ma = min_u32((a - lo) as u32, (hi - lo) as u32) as int;
        let mb = min_u32((b - lo) as u32, (hi - lo) as u32) as int;
        let d = (hi - lo) as int;
        let o = out_span as int;
        assert(ma <= mb);
        assert(o * ma <= o * mb) by (nonlinear_arith)
            requires
                ma <= mb,
                o >= 0,
        ;
        vstd::arithmetic::div_mod::lemma_div_is_ordered(o * ma, o * mb, d);
        lemma_ramp_bounds(a, lo, hi, out_span);
        lemma_ramp_bounds(b, lo, hi, out_span);
        assert(ramp(a, lo, hi, out_span) == o * ma / d);
        assert(ramp(b, lo, hi, out_span) == o * mb / d);
    }
}

/// Target pre-decode jitter-buffer depth in compressed frames.
pub fn target_pre_decode_depth(rtt_ema_ms: u32, loss_e5: Option<u64>, burst_hold: bool, jitter_p99: Option<u32>) -> (depth: u32)
    ensures
        depth == pre_decode_depth_for(rtt_ema_ms, loss_e5, burst_hold, jitter_p99),
{
    let heavy = match loss_e5 {
        Some(loss) => loss >= LOSS_MAX_E5,
        None => false,
    };
    if burst_hold || heavy {
        return VIDEO_COMPRESSED_QUEUE_MAX_BUFFERS;
    }
    let moderate = match loss_e5 {
        Some(loss) => loss >= LOSS_MID_E5,
        None => false,
    };
    let depth_span = VIDEO_COMPRESSED_QUEUE_MAX_BUFFERS - VIDEO_COMPRESSED_QUEUE_BASE_BUFFERS;
    let jitter_depth: u32 = match jitter_p99 {
        None => 0,
        Some(jitter) => {
            if jitter <= JITTER_RAMP_LO_MS {
                0
            } else {
                let span = JITTER_RAMP_HI_MS - JITTER_RAMP_LO_MS;
                let d = jitter - JITTER_RAMP_LO_MS;
                let frac = if d < span { d } else { span };
                depth_span * frac / span
            }
        },
    };
    let rtt_depth: u32 = if rtt_ema_ms <= RTT_RAMP_LO_MS {
        0
    } else if rtt_ema_ms >= RTT_RAMP_HI_MS {
        depth_span
    } else {
        let span = RTT_RAMP_HI_MS - RTT_RAMP_LO_MS;
        let frac = rtt_ema_ms - RTT_RAMP_LO_MS;
        depth_span * frac / span
    };
    proof {
        lemma_ramp_bounds(jitter_p99.unwrap_or(0), JITTER_RAMP_LO_MS, JITTER_RAMP_HI_MS, depth_span);
        lemma_ramp_bounds(rtt_ema_ms, RTT_RAMP_LO_MS, RTT_RAMP_HI_MS, depth_span);
    }
    let depth = VIDEO_COMPRESSED_QUEUE_BASE_BUFFERS + if jitter_depth >= rtt_depth { jitter_depth } else { rtt_depth };
    if moderate && depth < VIDEO_COMPRESSED_QUEUE_MID_BUFFERS {
        VIDEO_COMPRESSED_QUEUE_MID_BUFFERS
    } else {
        depth
    }
}

/// Target RTP playout latency (ms) for the webrtcbin jitter buffers.
pub fn target_webrtc_latency_ms(local_jitter_ms: Option<u32>, rtt_ema_ms: u32, loss_e5: Option<u64>, burst_hold: bool) -> (latency: u32)
    ensures
        latency == webrtc_latency_for(local_jitter_ms, rtt_ema_ms, loss_e5, burst_hold),
{
    let heavy = match loss_e5 {
        Some(loss) => loss >= LOSS_MAX_E5,
        None => false,
    };
    if burst_hold || heavy {
        return WEBRTC_LATENCY_MAX_MS;
    }
    let moderate = match loss_e5 {
        Some(loss) => loss >= LOSS_MID_E5,
        None => false,
    };
    let latency_span = WEBRTC_LATENCY_MAX_MS - WEBRTC_LATENCY_BASE_MS;
    proof {
        lemma_ramp_bounds(local_jitter_ms.unwrap_or(0), JITTER_RAMP_LO_MS, JITTER_RAMP_HI_MS, latency_span);
        lemma_ramp_bounds(rtt_ema_ms, RTT_RAMP_LO_MS, RTT_RAMP_HI_MS, latency_span);
    }
    let mut target = WEBRTC_LATENCY_BASE_MS;
    if let Some(jitter) = local_jitter_ms {
        if jitter > JITTER_RAMP_LO_MS {
            let span = JITTER_RAMP_HI_MS - JITTER_RAMP_LO_MS;
            let d = jitter - JITTER_RAMP_LO_MS;
            let frac = if d < span { d } else { span };
            let candidate = WEBRTC_LATENCY_BASE_MS + latency_span * frac / span;
            if candidate > target {
                target = candidate;
            }
        }
    }
    if rtt_ema_ms > RTT_RAMP_LO_MS {
        let span = RTT_RAMP_HI_MS - RTT_RAMP_LO_MS;
        let d = rtt_ema_ms - RTT_RAMP_LO_MS;
        let frac = if d < span { d } else { span };
        let candidate = WEBRTC_LATENCY_BASE_MS + latency_span * frac / span;
        if candidate > target {
            target = candidate;
        }
    }
    if moderate && target < WEBRTC_LATENCY_MID_MS {
        WEBRTC_LATENCY_MID_MS
    } else {
        target
    }
}

/// The pre-decode depth always lies between the shallow base and the
/// maximum depth.
pub proof fn lemma_pre_decode_depth_bounded(rtt_ema_ms: u32, loss_e5: Option<u64>, burst_hold: bool, jitter_p99: Option<u32>)
    ensures
        VIDEO_COMPRESSED_QUEUE_BASE_BUFFERS <= pre_decode_depth_for(rtt_ema_ms, loss_e5, burst_hold, jitter_p99)
            <= VIDEO_COMPRESSED_QUEUE_MAX_BUFFERS,
{
    lemma_ramp_bounds(jitter_p99.unwrap_or(0), JITTER_RAMP_LO_MS, JITTER_RAMP_HI_MS, 12);
    lemma_ramp_bounds(rtt_ema_ms, RTT_RAMP_LO_MS, RTT_RAMP_HI_MS, 12);
}

/// The RTP playout latency always lies between its base and its maximum.
pub proof fn lemma_webrtc_latency_bounded(local_jitter_ms: Option<u32>, rtt_ema_ms: u32, loss_e5: Option<u64>, burst_hold: bool)
    ensures
        WEBRTC_LATENCY_BASE_MS <= webrtc_latency_for(local_jitter_ms, rtt_ema_ms, loss_e5, burst_hold) <= WEBRTC_LATENCY_MAX_MS,
{
    lemma_ramp_bounds(local_jitter_ms.unwrap_or(0), JITTER_RAMP_LO_MS, JITTER_RAMP_HI_MS, 75);
    lemma_ramp_bounds(rtt_ema_ms, RTT_RAMP_LO_MS, RTT_RAMP_HI_MS, 75);
}

/// A higher RTT never makes the pre-decode buffer shallower, and neither does
/// a higher jitter quantile.
pub proof fn lemma_pre_decode_depth_monotonic(rtt1: u32, rtt2: u32, jitter1: u32, jitter2: u32, loss_e5: Option<u64>, burst_hold: bool)
    requires
        rtt1 <= rtt2,
        jitter1 <= jitter2,
    ensures
        pre_decode_depth_for(rtt1, loss_e5, burst_hold, Some(jitter1)) <= pre_decode_depth_for(rtt2, loss_e5, burst_hold, Some(jitter2)),
        pre_decode_depth_for(rtt1, loss_e5, burst_hold, None) <= pre_decode_depth_for(rtt2, loss_e5, burst_hold, None),
{
    lemma_ramp_monotonic(jitter1, jitter2, JITTER_RAMP_LO_MS, JITTER_RAMP_HI_MS, 12);
    lemma_ramp_monotonic(0, jitter2, JITTER_RAMP_LO_MS, JITTER_RAMP_HI_MS, 12);
    lemma_ramp_monotonic(rtt1, rtt2, RTT_RAMP_LO_MS, RTT_RAMP_HI_MS, 12);
    lemma_ramp_bounds(jitter2, JITTER_RAMP_LO_MS, JITTER_RAMP_HI_MS, 12);
    lemma_ramp_bounds(rtt2, RTT_RAMP_LO_MS, RTT_RAMP_HI_MS, 12);
}

/// A higher receive jitter or RTT never lowers the RTP playout latency.
pub proof fn lemma_webrtc_latency_monotonic(jitter1: u32, jitter2: u32, rtt1: u32, rtt2: u32, loss_e5: Option<u64>, burst_hold: bool)
    requires
        jitter1 <= jitter2,
        rtt1 <= rtt2,
    ensures
        webrtc_latency_for(Some(jitter1), rtt1, loss_e5, burst_hold) <= webrtc_latency_for(Some(jitter2), rtt2, loss_e5, burst_hold),
        webrtc_latency_for(None, rtt1, loss_e5, burst_hold) <= webrtc_latency_for(None, rtt2, loss_e5, burst_hold),
{
    lemma_ramp_monotonic(jitter1, jitter2, JITTER_RAMP_LO_MS, JITTER_RAMP_HI_MS, 75);
    lemma_ramp_monotonic(rtt1, rtt2, RTT_RAMP_LO_MS, RTT_RAMP_HI_MS, 75);
    lemma_ramp_bounds(jitter2, JITTER_RAMP_LO_MS, JITTER_RAMP_HI_MS, 75);
    lemma_ramp_bounds(rtt2, RTT_RAMP_LO_MS, RTT_RAMP_HI_MS, 75);
}

/// Packet loss only floors the buffers: with loss the depth and the latency
/// are never below what the same RTT and jitter give without loss, and
/// moderate loss gives at least the mid band.
pub proof fn lemma_loss_only_raises(rtt_ema_ms: u32, jitter: Option<u32>, loss_e5: u64, burst_hold: bool)
    ensures
        pre_decode_depth_for(rtt_ema_ms, Some(loss_e5), burst_hold, jitter) >= pre_decode_depth_for(rtt_ema_ms, None, burst_hold, jitter),
        webrtc_latency_for(jitter, rtt_ema_ms, Some(loss_e5), burst_hold) >= webrtc_latency_for(jitter, rtt_ema_ms, None, burst_hold),
        loss_e5 >= LOSS_MID_E5 ==> pre_decode_depth_for(rtt_ema_ms, Some(loss_e5), burst_hold, jitter) >= VIDEO_COMPRESSED_QUEUE_MID_BUFFERS,
        loss_e5 >= LOSS_MID_E5 ==> webrtc_latency_for(jitter, rtt_ema_ms, Some(loss_e5), burst_hold) >= WEBRTC_LATENCY_MID_MS,
{
    lemma_ramp_bounds(jitter.unwrap_or(0), JITTER_RAMP_LO_MS, JITTER_RAMP_HI_MS, 12);
    lemma_ramp_bounds(rtt_ema_ms, RTT_RAMP_LO_MS, RTT_RAMP_HI_MS, 12);
    lemma_ramp_bounds(jitter.unwrap_or(0), JITTER_RAMP_LO_MS, JITTER_RAMP_HI_MS, 75);
    lemma_ramp_bounds(rtt_ema_ms, RTT_RAMP_LO_MS, RTT_RAMP_HI_MS, 75);
}

/// A detected burst forces both buffers to their maximum, whatever the other
/// signals say.
pub proof fn lemma_burst_hold_forces_max(rtt_ema_ms: u32, loss_e5: Option<u64>, jitter: Option<u32>)
    ensures
        pre_decode_depth_for(rtt_ema_ms, loss_e5, true, jitter) == VIDEO_COMPRESSED_QUEUE_MAX_BUFFERS,
        webrtc_latency_for(jitter, rtt_ema_ms, loss_e5, true) == WEBRTC_LATENCY_MAX_MS,
{
}

/// Round-half-up of `n / 100` for `n >= 0`, mirrored for negative `n` (the
/// `f64::round` of a percentage step).
pub open spec fn round_percent(n: int) -> int {
    if n >= 0 { (n + 50) / 100 } else { -((-n + 50) / 100) }
}

/// One ADJB convergence step from `current` toward `target`, moving
/// `factor_percent` (clamped to 100) of the remaining distance, rounded; a
/// step that rounds to zero converges all the way. A zero factor, or an
/// already reached target, leaves `current` unchanged.
pub open spec fn converged_for(current: u32, target: u32, factor_percent: u32) -> u32 {
    if current == target || factor_percent == 0 {
        current
    } else {
        let f = if factor_percent > 100 { 100 } else { factor_percent as int };
        let step = round_percent((target - current) * f);
        if step == 0 { target } else { (current + step) as u32 }
    }
}

proof fn lemma_round_percent_bounds(delta: int, f: int)
    requires
        0 < f <= 100,
    ensures
        delta >= 0 ==> 0 <= round_percent(delta * f) <= delta,
        delta < 0 ==> delta <= round_percent(delta * f) <= 0,
{
    if delta >= 0 {
        assert(0 <= delta * f <= delta * 100) by (nonlinear_arith)
            requires
                delta >= 0,
                0 < f <= 100,
        ;
        vstd::arithmetic::div_mod::lemma_div_is_ordered(delta * f + 50, delta * 100 + 50, 100);
        vstd::arithmetic::div_mod::lemma_fundamental_div_mod(delta * 100 + 50, 100);
    } else {
        let e = -delta;
        assert(-(delta * f) == e * f) by (nonlinear_arith)
            requires
                e == -delta,
        ;
        assert(0 <= e * f <= e * 100) by (nonlinear_arith)
            requires
                e >= 0,
                0 < f <= 100,
        ;
        vstd::arithmetic::div_mod::lemma_div_is_ordered(e * f + 50, e * 100 + 50, 100);
        vstd::arithmetic::div_mod::lemma_fundamental_div_mod(e * 100 + 50, 100);
    }
}

/// ADJB convergence (the `adjbQuantileConvergenceFactor` analogue): ease
/// `current` toward `target` by `factor_percent` of the distance per tick.
pub fn adjb_converged(current: u32, target: u32, factor_percent: u32) -> (next: u32)
    ensures
        next == converged_for(current, target, factor_percent),
{
    if current == target || factor_percent == 0 {
        return current;
    }
    let f: i64 = if factor_percent > 100 { 100 } else { factor_percent as i64 };
    let delta: i64 = target as i64 - current as i64;
    assert(-0x1_0000_0000 * 100 <= delta * f <= 0x1_0000_0000 * 100) by (nonlinear_arith)
        requires
            -0x1_0000_0000 <= delta <= 0x1_0000_0000,
            0 <= f <= 100,
    ;
    let n: i64 = delta * f;
    let step: i64 = if n >= 0 { (n + 50) / 100 } else { -((-n + 50) / 100) };
    if step == 0 {
        return target;
    }
    proof {
        lemma_round_percent_bounds(delta as int, f as int);
    }
    (current as i64 + step) as u32
}

/// ADJB convergence never overshoots and always makes progress: the next
/// value lies between `current` and `target`, and unless the target is
/// already reached (or the factor is zero) it is strictly closer to it.
pub proof fn lemma_adjb_converges(current: u32, target: u32, factor_percent: u32)
    ensures
        current <= target ==> current <= converged_for(current, target, factor_percent) <= target,
        target <= current ==> target <= converged_for(current, target, factor_percent) <= current,
        current != target && factor_percent > 0 ==> converged_for(current, target, factor_percent) != current,
{
    if current != target && factor_percent > 0 {
        let f = if factor_percent > 100 { 100 } else { factor_percent as int };
        lemma_round_percent_bounds(target - current, f);
    }
}

/// Runtime network verdict.
#[derive(Debug, Clone, Copy, PartialEq, Eq, Structural)]
pub enum NetworkVerdict {
    Stable,
    Degraded,
    Poor,
}

/// The wire name of a verdict.
pub open spec fn verdict_label(v: NetworkVerdict) -> Seq<char> {
    match v {
        NetworkVerdict::Stable => "stable"@,
        NetworkVerdict::Degraded => "degraded"@,
        NetworkVerdict::Poor => "poor"@,
    }
}

impl NetworkVerdict {
    pub fn as_str(&self) -> (s: &'static str)
        ensures
            s@ == verdict_label(*self),
    {
        match self {
            NetworkVerdict::Stable => "stable",
            NetworkVerdict::Degraded => "degraded",
            NetworkVerdict::Poor => "poor",
        }
    }
}

pub open spec fn loss_or_zero(loss_e5: Option<u64>) -> u64 {
    match loss_e5 {
        Some(loss) => loss,
        None => 0,
    }
}

/// Poor network: loss ≥ 0.5%, RTT ≥ 150 ms or jitter ≥ 40 ms.
pub open spec fn network_is_poor(jitter_ms: Option<u32>, rtt_ema_ms: u32, loss_e5: Option<u64>) -> bool {
    loss_or_zero(loss_e5) >= LOSS_MAX_E5 || rtt_ema_ms >= 150 || jitter_ms.unwrap_or(0) >= 40
}

/// Degraded network: loss ≥ 0.15%, RTT ≥ 60 ms or jitter ≥ 15 ms.
pub open spec fn network_is_degraded(jitter_ms: Option<u32>, rtt_ema_ms: u32, loss_e5: Option<u64>) -> bool {
    loss_or_zero(loss_e5) >= LOSS_MID_E5 || rtt_ema_ms >= 60 || jitter_ms.unwrap_or(0) >= 15
}

/// The verdict and the recovery recommendations (lower fps, lower
/// resolution, proactive keyframe) for a smoothed network picture.
pub open spec fn assessment_for(jitter_ms: Option<u32>, rtt_ema_ms: u32, loss_e5: Option<u64>) -> (NetworkVerdict, bool, bool, bool) {
    let poor = network_is_poor(jitter_ms, rtt_ema_ms, loss_e5);
    let degraded = network_is_degraded(jitter_ms, rtt_ema_ms, loss_e5);
    let verdict = if poor {
        NetworkVerdict::Poor
    } else if degraded {
        NetworkVerdict::Degraded
    } else {
        NetworkVerdict::Stable
    };
    (verdict, degraded, poor, loss_or_zero(loss_e5) >= LOSS_KEYFRAME_E5)
}

/// Classify the smoothed network picture: `(verdict, recommend lower fps,
/// recommend lower resolution, suggest keyframe)`.
pub fn assess_network(jitter_ms: Option<u32>, rtt_ema_ms: u32, loss_e5: Option<u64>) -> (r: (NetworkVerdict, bool, bool, bool))
    ensures
        r == assessment_for(jitter_ms, rtt_ema_ms, loss_e5),
{
    let loss = match loss_e5 {
        Some(l) => l,
        None => 0,
    };
    let jitter = match jitter_ms {
        Some(j) => j,
        None => 0,
    };
    let poor = loss >= LOSS_MAX_E5 || rtt_ema_ms >= 150 || jitter >= 40;
    let degraded = loss >= LOSS_MID_E5 || rtt_ema_ms >= 60 || jitter >= 15;
    let verdict = if poor {
        NetworkVerdict::Poor
    } else if degraded {
        NetworkVerdict::Degraded
    } else {
        NetworkVerdict::Stable
    };
    (verdict, degraded, poor, loss >= LOSS_KEYFRAME_E5)
}

/// A poor verdict always comes with the lower-fps recommendation too, and the
/// verdict is poor exactly when lowering the resolution is recommended.
pub proof fn lemma_poor_implies_degraded(jitter_ms: Option<u32>, rtt_ema_ms: u32, loss_e5: Option<u64>)
    ensures
        assessment_for(jitter_ms, rtt_ema_ms, loss_e5).2 ==> assessment_for(jitter_ms, rtt_ema_ms, loss_e5).1,
        (assessment_for(jitter_ms, rtt_ema_ms, loss_e5).0 == NetworkVerdict::Poor) == assessment_for(jitter_ms, rtt_ema_ms, loss_e5).2,
        (assessment_for(jitter_ms, rtt_ema_ms, loss_e5).0 == NetworkVerdict::Stable) == !assessment_for(jitter_ms, rtt_ema_ms, loss_e5).1,
{
}

/// The verdict agrees with what the adaptive buffers already do: a degraded
/// or poor network has both buffers above their base, and a poor one has
/// both at least at the mid band.
pub proof fn lemma_verdict_agrees_with_buffers(jitter_ms: Option<u32>, rtt_ema_ms: u32, loss_e5: Option<u64>)
    ensures
        assessment_for(jitter_ms, rtt_ema_ms, loss_e5).0 != NetworkVerdict::Stable ==> {
            &&& pre_decode_depth_for(rtt_ema_ms, loss_e5, false, jitter_ms) > VIDEO_COMPRESSED_QUEUE_BASE_BUFFERS
            &&& webrtc_latency_for(jitter_ms, rtt_ema_ms, loss_e5, false) > WEBRTC_LATENCY_BASE_MS
        },
        assessment_for(jitter_ms, rtt_ema_ms, loss_e5).0 == NetworkVerdict::Poor ==> {
            &&& pre_decode_depth_for(rtt_ema_ms, loss_e5, false, jitter_ms) >= VIDEO_COMPRESSED_QUEUE_MID_BUFFERS
            &&& webrtc_latency_for(jitter_ms, rtt_ema_ms, loss_e5, false) >= WEBRTC_LATENCY_MID_MS
        },
{
    let j = jitter_ms.unwrap_or(0);
    lemma_ramp_monotonic(15, if j >= 15 { j } else { 15 }, JITTER_RAMP_LO_MS, JITTER_RAMP_HI_MS, 12);
    lemma_ramp_monotonic(15, if j >= 15 { j } else { 15 }, JITTER_RAMP_LO_MS, JITTER_RAMP_HI_MS, 75);
    lemma_ramp_monotonic(60, if rtt_ema_ms >= 60 { rtt_ema_ms } else { 60 }, RTT_RAMP_LO_MS, RTT_RAMP_HI_MS, 12);
    lemma_ramp_monotonic(60, if rtt_ema_ms >= 60 { rtt_ema_ms } else { 60 }, RTT_RAMP_LO_MS, RTT_RAMP_HI_MS, 75);
    lemma_ramp_bounds(15, JITTER_RAMP_LO_MS, JITTER_RAMP_HI_MS, 12);
    lemma_ramp_bounds(15, JITTER_RAMP_LO_MS, JITTER_RAMP_HI_MS, 75);
    lemma_ramp_bounds(60, RTT_RAMP_LO_MS, RTT_RAMP_HI_MS, 12);
    lemma_ramp_bounds(60, RTT_RAMP_LO_MS, RTT_RAMP_HI_MS, 75);
    lemma_ramp_bounds(j, JITTER_RAMP_LO_MS, JITTER_RAMP_HI_MS, 12);
    lemma_ramp_bounds(j, JITTER_RAMP_LO_MS, JITTER_RAMP_HI_MS, 75);
    lemma_ramp_bounds(rtt_ema_ms, RTT_RAMP_LO_MS, RTT_RAMP_HI_MS, 12);
    lemma_ramp_bounds(rtt_ema_ms, RTT_RAMP_LO_MS, RTT_RAMP_HI_MS, 75);
    assert(ramp(15, JITTER_RAMP_LO_MS, JITTER_RAMP_HI_MS, 12) == 3);
    assert(ramp(15, JITTER_RAMP_LO_MS, JITTER_RAMP_HI_MS, 75) == 21);
    assert(ramp(60, RTT_RAMP_LO_MS, RTT_RAMP_HI_MS, 12) == 3);
    assert(ramp(60, RTT_RAMP_LO_MS, RTT_RAMP_HI_MS, 75) == 18);
}

/// HUD tint (ARGB) for a healthy or unknown verdict.
pub const OVERLAY_COLOR_DEFAULT: u32 = 0xFFFF_FFFF;
/// HUD tint (ARGB) while the network is degraded (amber).
pub const OVERLAY_COLOR_DEGRADED: u32 = 0xFFFF_B300;
/// HUD tint (ARGB) while the network is poor (red).
pub const OVERLAY_COLOR_POOR: u32 = 0xFFFF_3B30;

/// The HUD tint of a verdict name: amber for "degraded", red for "poor",
/// the default white for anything else (case-sensitive).
pub open spec fn overlay_color_for(verdict: Seq<char>) -> u32 {
    if verdict == "degraded"@ {
        OVERLAY_COLOR_DEGRADED
    } else if verdict == "poor"@ {
        OVERLAY_COLOR_POOR
    } else {
        OVERLAY_COLOR_DEFAULT
    }
}

/// Map a network verdict name to the HUD tint.
pub fn verdict_overlay_color_for(verdict: &str) -> (color: u32)
    ensures
        color == overlay_color_for(verdict@),
{
    if crate::text::str_eq(verdict, "degraded") {
        OVERLAY_COLOR_DEGRADED
    } else if crate::text::str_eq(verdict, "poor") {
        OVERLAY_COLOR_POOR
    } else {
        OVERLAY_COLOR_DEFAULT
    }
}

/// Only a degraded or poor verdict tints the HUD; the two tints differ.
pub proof fn lemma_only_bad_verdicts_tint(v: NetworkVerdict)
    ensures
        (overlay_color_for(verdict_label(v)) == OVERLAY_COLOR_DEFAULT) == (v == NetworkVerdict::Stable),
        v == NetworkVerdict::Degraded ==> overlay_color_for(verdict_label(v)) == OVERLAY_COLOR_DEGRADED,
        v == NetworkVerdict::Poor ==> overlay_color_for(verdict_label(v)) == OVERLAY_COLOR_POOR,
{
    reveal_strlit("stable");
    reveal_strlit("degraded");
    reveal_strlit("poor");
    assert("stable"@.len() == 6);
    assert("degraded"@.len() == 8);
    assert("poor"@.len() == 4);
}

/// Round-half-up of `num / den` for non-negative `num` and positive `den`.
pub open spec fn round_div(num: int, den: int) -> int {
    (2 * num + den) / (2 * den)
}

/// RFC 3550 interarrival jitter converted from RTP timestamp units to
/// milliseconds, rounded; `None` for a zero count, a zero clock rate, or a
/// result outside the plausible (0, 1000] ms range.
pub open spec fn jitter_ms_for(jitter_units: u32, clock_rate: u32) -> Option<u32> {
    if jitter_units == 0 || clock_rate == 0 {
        None
    } else {
        let ms = round_div(jitter_units * 1000, clock_rate as int);
        if 0 < ms <= 1000 { Some(ms as u32) } else { None }
    }
}

/// Convert RFC 3550 jitter from RTP timestamp units to milliseconds.
pub fn rtcp_jitter_to_ms(jitter_units: u32, clock_rate: u32) -> (ms: Option<u32>)
    ensures
        ms == jitter_ms_for(jitter_units, clock_rate),
{
    if jitter_units == 0 || clock_rate == 0 {
        return None;
    }
    let num: u64 = jitter_units as u64 * 1000;
    let ms: u64 = (2 * num + clock_rate as u64) / (2 * clock_rate as u64);
    if ms > 0 && ms <= 1000 {
        Some(ms as u32)
    } else {
        None
    }
}

/// An RTCP round trip given in 16.16 fixed-point seconds, in milliseconds
/// (rounded); `None` outside the plausible (0, 2000] ms range.
pub open spec fn rtt_ms_for(rtt_fixed: u64) -> Option<u32> {
    let ms = round_div(rtt_fixed * 1000, 65536);
    if 0 < ms <= 2000 { Some(ms as u32) } else { None }
}

pub fn rtcp_rtt_fixed_to_ms(rtt_fixed: u64) -> (ms: Option<u32>)
    ensures
        ms == rtt_ms_for(rtt_fixed),
{
    let num: u128 = rtt_fixed as u128 * 1000;
    let ms: u128 = (2 * num + 65536) / 131072;
    if ms > 0 && ms <= 2000 {
        Some(ms as u32)
    } else {
        None
    }
}

/// Receiver-report fields of one rtpsession source, as read from its
/// `source-stats`: whether a report block arrived, the `rb-round-trip`
/// value when readable, and the echoed `rb-lsr`.
#[derive(Debug, Clone, Copy, PartialEq, Eq)]
pub struct RbSourceStats {
    pub have_rb: bool,
    pub rb_round_trip: Option<u64>,
    pub rb_lsr: u64,
}

/// The first source (in session order) with a report block and a plausible
/// round trip, as `(rtt_ms, rb_lsr)`.
pub open spec fn first_rtt_sample(sources: Seq<RbSourceStats>) -> Option<(u32, u64)>
    decreases sources.len(),
{
    if sources.len() == 0 {
        None
    } else {
        let s = sources[0];
        if s.have_rb && s.rb_round_trip is Some && rtt_ms_for(s.rb_round_trip->0) is Some {
            Some((rtt_ms_for(s.rb_round_trip->0)->0, s.rb_lsr))
        } else {
            first_rtt_sample(sources.drop_first())
        }
    }
}

/// The local RTCP round trip: the first source with a report block whose
/// round trip is plausible, with its `rb-lsr` freshness marker.
pub fn local_rtcp_rtt_sample(sources: &Vec<RbSourceStats>) -> (r: Option<(u32, u64)>)
    ensures
        r == first_rtt_sample(sources@),
{
    let n = sources.len();
    let mut i: usize = 0;
    assert(sources@.subrange(0, n as int) =~= sources@);
    while i < n
        invariant
            n == sources@.len(),
            i <= n,
            first_rtt_sample(sources@) == first_rtt_sample(sources@.subrange(i as int, n as int)),
        decreases n - i,
    {
        let s = sources[i];
        proof {
            let rest = sources@.subrange(i as int, n as int);
            assert(rest[0] == s);
            assert(rest.drop_first() =~= sources@.subrange(i + 1, n as int));
        }
        if s.have_rb {
            if let Some(rtt_fixed) = s.rb_round_trip {
                if let Some(ms) = rtcp_rtt_fixed_to_ms(rtt_fixed) {
                    return Some((ms, s.rb_lsr));
                }
            }
        }
        i = i + 1;
    }
    proof {
        assert(sources@.subrange(n as int, n as int).len() == 0);
    }
    None
}

/// Receive-side fields of one rtpsession source: packets received, the EWMA
/// and raw RFC 3550 jitter (RTP units) when readable, and the clock rate.
#[derive(Debug, Clone, Copy, PartialEq, Eq)]
pub struct RecvSourceStats {
    pub packets_received: u64,
    pub avg_jitter: Option<u32>,
    pub jitter: Option<u32>,
    pub clock_rate: Option<u32>,
}

/// A source's `(packets, jitter units, clock rate)` when it received packets
/// and reports a non-zero jitter (the EWMA preferred over the raw value; the
/// clock rate defaults to 90 kHz).
pub open spec fn jitter_candidate(s: RecvSourceStats) -> Option<(u64, u32, u32)> {
    let units: u32 = if s.avg_jitter is Some && s.avg_jitter->0 > 0 {
        s.avg_jitter->0
    } else if s.jitter is Some && s.jitter->0 > 0 {
        s.jitter->0
    } else {
        0
    };
    if s.packets_received == 0 || units == 0 {
        None
    } else {
        Some((s.packets_received, units, s.clock_rate.unwrap_or(90_000)))
    }
}

/// Packet count of an optional candidate (0 for none).
pub open spec fn packets_of(c: Option<(u64, u32, u32)>) -> u64 {
    match c {
        Some(v) => v.0,
        None => 0,
    }
}

/// The candidate with the most received packets (the earliest on a tie).
pub open spec fn best_jitter_source(sources: Seq<RecvSourceStats>) -> Option<(u64, u32, u32)>
    decreases sources.len(),
{
    if sources.len() == 0 {
        None
    } else {
        let best = best_jitter_source(sources.drop_last());
        match jitter_candidate(sources.last()) {
            None => best,
            Some(c) => if best is None || c.0 > packets_of(best) { Some(c) } else { best },
        }
    }
}

/// The chosen source received at least as many packets as every other
/// candidate, and is itself a candidate of the window.
pub proof fn lemma_best_jitter_source_is_busiest(sources: Seq<RecvSourceStats>)
    ensures
        best_jitter_source(sources) is Some ==> exists|i: int| 0 <= i < sources.len() && jitter_candidate(#[trigger] sources[i]) == best_jitter_source(sources),
        forall|i: int| 0 <= i < sources.len() && jitter_candidate(#[trigger] sources[i]) is Some ==> best_jitter_source(sources) is Some && packets_of(jitter_candidate(sources[i])) <= packets_of(best_jitter_source(sources)),
    decreases sources.len(),
{
    if sources.len() > 0 {
        let init = sources.drop_last();
        lemma_best_jitter_source_is_busiest(init);
        assert forall|i: int| 0 <= i < init.len() implies init[i] == sources[i] by {}
        if best_jitter_source(sources) is Some && best_jitter_source(sources) == best_jitter_source(init) {
            let i = choose|i: int| 0 <= i < init.len() && jitter_candidate(#[trigger] init[i]) == best_jitter_source(init);
            assert(jitter_candidate(sources[i]) == best_jitter_source(sources));
        }
        if best_jitter_source(sources) is Some && best_jitter_source(sources) != best_jitter_source(init) {
            assert(jitter_candidate(sources[sources.len() - 1]) == best_jitter_source(sources));
        }
        assert forall|i: int| 0 <= i < sources.len() && jitter_candidate(#[trigger] sources[i]) is Some implies best_jitter_source(sources) is Some && packets_of(jitter_candidate(sources[i])) <= packets_of(best_jitter_source(sources)) by {
            if i < init.len() {
                assert(jitter_candidate(init[i]) is Some);
            }
        }
    }
}

/// Local receive jitter (ms) of the incoming video: the RFC 3550 jitter of
/// the source receiving the most RTP packets, converted to milliseconds.
pub fn local_receive_jitter_ms(sources: &Vec<RecvSourceStats>) -> (ms: Option<u32>)
    ensures
        ms == (match best_jitter_source(sources@) {
            Some(b) => jitter_ms_for(b.1, b.2),
            None => None,
        }),
{
    let n = sources.len();
    let mut best: Option<(u64, u32, u32)> = None;
    let mut i: usize = 0;
    while i < n
        invariant
            n == sources@.len(),
            i <= n,
            best == best_jitter_source(sources@.take(i as int)),
        decreases n - i,
    {
        let s = sources[i];
        proof {
            assert(sources@.take(i + 1).drop_last() =~= sources@.take(i as int));
            assert(sources@.take(i + 1).last() == s);
        }
        let units: u32 = match s.avg_jitter {
            Some(j) if j > 0 => j,
            _ => match s.jitter {
                Some(j) if j > 0 => j,
                _ => 0,
            },
        };
        if s.packets_received != 0 && units != 0 {
            let clock = match s.clock_rate {
                Some(c) => c,
                None => 90_000,
            };
            let replace = match best {
                None => true,
                Some(b) => s.packets_received > b.0,
            };
            if replace {
                best = Some((s.packets_received, units, clock));
            }
        }
        i = i + 1;
    }
    proof {
        assert(sources@.take(n as int) =~= sources@);
    }
    match best {
        Some(b) => rtcp_jitter_to_ms(b.1, b.2),
        None => None,
    }
}

} // verus!
