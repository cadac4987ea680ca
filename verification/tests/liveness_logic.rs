use std::collections::VecDeque;

use opennow_streamer::liveness::LivenessState;
use opennow_streamer::network::{
    NetworkVerdict, OVERLAY_COLOR_DEFAULT, OVERLAY_COLOR_DEGRADED, OVERLAY_COLOR_POOR,
    VIDEO_COMPRESSED_QUEUE_BASE_BUFFERS, VIDEO_COMPRESSED_QUEUE_MAX_BUFFERS, VIDEO_COMPRESSED_QUEUE_MID_BUFFERS,
    WEBRTC_LATENCY_BASE_MS, WEBRTC_LATENCY_MAX_MS, WEBRTC_LATENCY_MID_MS, ADJB_CONVERGENCE_PERCENT,
    ADJB_QUANTILE_PERCENT, adjb_converged, assess_network, rtcp_jitter_to_ms, target_pre_decode_depth,
    target_webrtc_latency_ms, verdict_overlay_color_for,
};
use opennow_streamer::order::{median_of_deltas, percentile_quantile};
use opennow_streamer::present::{
    PRESENT_LIMITER_BACKLOG_TOLERANCE_NS, cinematic_present_intervals, clamped_present_target_fps,
    pacing_mode_hud_label, present_limiter_should_drop, present_limiter_should_hold, vrr_corrected_present_duration,
};
use std::time::Duration;
use opennow_streamer::rtcp::{RtcpMessageCounts, classify_rtcp_messages};
use opennow_streamer::startup::codec_downgrade_target;

const MS: u64 = 1_000_000;

/// A packet-loss fraction in the 1e-5 units the library smooths it in.
fn loss(fraction: f64) -> Option<u64> {
    Some((fraction * 100_000.0).round() as u64)
}

#[test]
fn pre_decode_depth_adapts_to_rtt_loss_and_bursts() {
    assert_eq!(target_pre_decode_depth(0, None, false, None), VIDEO_COMPRESSED_QUEUE_BASE_BUFFERS);
    assert_eq!(target_pre_decode_depth(38, None, false, Some(3)), VIDEO_COMPRESSED_QUEUE_BASE_BUFFERS);
    assert_eq!(target_pre_decode_depth(45, None, false, None), 4);
    assert_eq!(target_pre_decode_depth(60, None, false, None), 6);
    assert_eq!(target_pre_decode_depth(100, None, false, None), 10);
    assert_eq!(target_pre_decode_depth(150, None, false, None), VIDEO_COMPRESSED_QUEUE_MAX_BUFFERS);
    assert_eq!(target_pre_decode_depth(250, None, false, None), VIDEO_COMPRESSED_QUEUE_MAX_BUFFERS);
    assert_eq!(target_pre_decode_depth(10, None, false, Some(10)), 3 + 12 * 5 / 35);
    assert_eq!(target_pre_decode_depth(10, None, false, Some(20)), 3 + 12 * 15 / 35);
    assert_eq!(target_pre_decode_depth(10, None, false, Some(40)), VIDEO_COMPRESSED_QUEUE_MAX_BUFFERS);
    assert_eq!(target_pre_decode_depth(10, None, false, Some(80)), VIDEO_COMPRESSED_QUEUE_MAX_BUFFERS);
    assert_eq!(target_pre_decode_depth(60, None, false, Some(20)), 3 + 12 * 15 / 35);
    assert_eq!(target_pre_decode_depth(38, loss(0.001), false, None), VIDEO_COMPRESSED_QUEUE_BASE_BUFFERS);
    assert_eq!(target_pre_decode_depth(38, loss(0.0015), false, None), VIDEO_COMPRESSED_QUEUE_MID_BUFFERS);
    assert_eq!(target_pre_decode_depth(38, loss(0.005), false, None), VIDEO_COMPRESSED_QUEUE_MAX_BUFFERS);
    assert_eq!(target_pre_decode_depth(38, None, true, None), VIDEO_COMPRESSED_QUEUE_MAX_BUFFERS);
    assert_eq!(target_pre_decode_depth(250, loss(0.005), true, None), VIDEO_COMPRESSED_QUEUE_MAX_BUFFERS);
    let mut last = target_pre_decode_depth(0, None, false, None);
    for rtt in 1..=200 {
        let depth = target_pre_decode_depth(rtt, None, false, None);
        assert!(depth >= last, "depth must not decrease as RTT grows: rtt={rtt} depth={depth} < last={last}");
        last = depth;
    }
    let mut last = target_pre_decode_depth(10, None, false, Some(0));
    for jitter in 1..=80 {
        let depth = target_pre_decode_depth(10, None, false, Some(jitter));
        assert!(
            depth >= last,
            "depth must not decrease as jitter p99 grows: jitter={jitter} depth={depth} < last={last}"
        );
        last = depth;
    }
}

#[test]
fn webrtc_latency_adapts_to_jitter_loss_and_bursts() {
    assert_eq!(target_webrtc_latency_ms(None, 0, None, false), WEBRTC_LATENCY_BASE_MS);
    assert_eq!(target_webrtc_latency_ms(Some(5), 0, None, false), WEBRTC_LATENCY_BASE_MS);
    assert_eq!(target_webrtc_latency_ms(None, 30, None, false), WEBRTC_LATENCY_BASE_MS);
    assert_eq!(target_webrtc_latency_ms(Some(20), 0, None, false), 57);
    assert_eq!(target_webrtc_latency_ms(Some(40), 0, None, false), WEBRTC_LATENCY_MAX_MS);
    assert_eq!(target_webrtc_latency_ms(None, 90, None, false), 62);
    assert_eq!(target_webrtc_latency_ms(None, 150, None, false), WEBRTC_LATENCY_MAX_MS);
    assert_eq!(target_webrtc_latency_ms(Some(40), 90, None, false), WEBRTC_LATENCY_MAX_MS);
    assert_eq!(target_webrtc_latency_ms(None, 0, loss(0.001), false), WEBRTC_LATENCY_BASE_MS);
    assert_eq!(target_webrtc_latency_ms(None, 0, loss(0.0015), false), WEBRTC_LATENCY_MID_MS);
    assert_eq!(target_webrtc_latency_ms(None, 0, loss(0.005), false), WEBRTC_LATENCY_MAX_MS);
    assert_eq!(target_webrtc_latency_ms(None, 0, None, true), WEBRTC_LATENCY_MAX_MS);
    assert_eq!(target_webrtc_latency_ms(Some(0), 0, loss(0.005), true), WEBRTC_LATENCY_MAX_MS);
    let mut last = target_webrtc_latency_ms(Some(0), 0, None, false);
    for jitter in 1..=60 {
        let latency = target_webrtc_latency_ms(Some(jitter), 0, None, false);
        assert!(
            latency >= last,
            "latency must not decrease as jitter grows: jitter={jitter} latency={latency} < last={last}"
        );
        last = latency;
    }
}

#[test]
fn rtcp_jitter_to_ms_converts_rtp_timestamp_units() {
    assert_eq!(rtcp_jitter_to_ms(90, 90_000), Some(1));
    assert_eq!(rtcp_jitter_to_ms(450, 90_000), Some(5));
    assert_eq!(rtcp_jitter_to_ms(900, 90_000), Some(10));
    assert_eq!(rtcp_jitter_to_ms(48, 48_000), Some(1));
    assert_eq!(rtcp_jitter_to_ms(0, 90_000), None);
    assert_eq!(rtcp_jitter_to_ms(90, 0), None);
    assert_eq!(rtcp_jitter_to_ms(u32::MAX, 90_000), None);
}

/// One RTCP message: byte0 = version(2)|P(0)|count/FMT(5), byte1 = PT,
/// bytes2-3 = length words minus 1, then `payload` padded to 32 bits.
fn rtcp_message(count_or_fmt: u8, pt: u8, payload: &[u8]) -> Vec<u8> {
    let mut body = vec![count_or_fmt, pt, 0, 0];
    let payload_len = payload.len();
    let padded = payload_len.div_ceil(4) * 4;
    body.extend_from_slice(payload);
    body.resize(4 + padded, 0);
    let length_words = (body.len() / 4 - 1) as u16;
    body[2] = (length_words >> 8) as u8;
    body[3] = (length_words & 0xFF) as u8;
    body
}

#[test]
fn classify_rtcp_messages_counts_feedback_types() {
    let rr = rtcp_message(1, 201, &[0u8; 24]);
    let sr = rtcp_message(0, 200, &[0u8; 20]);
    let twcc = rtcp_message(15, 205, &[0u8; 12]);
    let nack = rtcp_message(1, 205, &[0u8; 8]);
    let pli = rtcp_message(1, 206, &[0u8; 8]);
    let fir = rtcp_message(4, 206, &[0u8; 8]);
    let sdes = rtcp_message(1, 202, &[0u8; 8]);

    let mut compound = Vec::new();
    compound.extend_from_slice(&rr);
    compound.extend_from_slice(&sr);
    compound.extend_from_slice(&twcc);
    compound.extend_from_slice(&nack);
    compound.extend_from_slice(&pli);
    compound.extend_from_slice(&fir);
    compound.extend_from_slice(&sdes);

    let counts = classify_rtcp_messages(&compound);
    assert_eq!(counts.sr, 1);
    assert_eq!(counts.rr, 1);
    assert_eq!(counts.twcc, 1);
    assert_eq!(counts.nack, 1);
    assert_eq!(counts.pli, 1);
    assert_eq!(counts.fir, 1);
    assert_eq!(counts.other, 1);
}

#[test]
fn classify_rtcp_messages_handles_truncated_and_empty_buffers() {
    let counts = classify_rtcp_messages(&[]);
    assert_eq!(counts, RtcpMessageCounts::default());
    let counts = classify_rtcp_messages(&[0x80, 0xC9]);
    assert_eq!(counts, RtcpMessageCounts::default());
    let mut truncated = rtcp_message(15, 205, &[0u8; 12]);
    truncated.truncate(6);
    let counts = classify_rtcp_messages(&truncated);
    assert_eq!(counts, RtcpMessageCounts::default());
}

#[test]
fn median_of_deltas_ignores_a_single_inflated_spike() {
    let mut deltas = VecDeque::new();
    for _ in 0..31 {
        deltas.push_back(8);
    }
    deltas.push_back(5_000);
    assert_eq!(median_of_deltas(&deltas), 8);

    let mut even = VecDeque::new();
    even.push_back(7);
    even.push_back(8);
    even.push_back(8);
    even.push_back(5_000);
    assert_eq!(median_of_deltas(&even), 8);
}

#[test]
fn present_limiter_only_drops_deep_backlog() {
    let base: u64 = 10_000 * MS;
    let grid = base + 16 * MS;
    let budget = PRESENT_LIMITER_BACKLOG_TOLERANCE_NS;

    assert!(!present_limiter_should_drop(base, grid, budget));
    assert!(!present_limiter_should_drop(base, base + 100 * MS, budget));
    assert!(!present_limiter_should_drop(base, base, budget));
    assert!(!present_limiter_should_drop(base + 30 * MS, base, budget));
    assert!(present_limiter_should_drop(base, base + budget + MS, budget));
    assert!(present_limiter_should_drop(base, base + 1_000 * MS, budget));
    assert!(!present_limiter_should_drop(base, base + budget, budget));
}

#[test]
fn present_target_fps_clamp_never_zeroes_the_frame_interval() {
    assert_eq!(clamped_present_target_fps(0), 0);
    assert_eq!(clamped_present_target_fps(60), 60);
    assert_eq!(clamped_present_target_fps(144), 144);
    assert_eq!(clamped_present_target_fps(240), 240);
    assert_eq!(clamped_present_target_fps(u32::MAX), 1_000);
    assert_eq!(clamped_present_target_fps(u32::MAX - 1), 1_000);
    assert_eq!(clamped_present_target_fps(u32::MAX - 2), 1_000);
    assert_eq!(
        Duration::from_secs_f64(1.0 / f64::from(clamped_present_target_fps(u32::MAX))),
        Duration::from_millis(1)
    );
}

/// A duration as whole nanoseconds.
fn ns(d: Duration) -> u64 {
    d.as_nanos() as u64
}

/// Seconds as whole nanoseconds.
fn secs_ns(s: f64) -> u64 {
    (s * 1e9) as u64
}

#[test]
fn present_limiter_holds_frames_before_their_slot() {
    let base = 10_000 * MS;
    let step = Duration::from_millis(16);
    let s = ns(step);
    assert!(present_limiter_should_hold(base, base + s, s));
    assert!(present_limiter_should_hold(base + ns(step.mul_f64(0.5)), base + s, s));
    assert!(!present_limiter_should_hold(base + ns(step.mul_f64(0.9)), base + s, s));
    assert!(!present_limiter_should_hold(base + s, base + s, s));
    assert!(!present_limiter_should_hold(base + ns(step * 2), base + s, s));
    let step33 = Duration::from_millis(33);
    let s33 = ns(step33);
    assert!(present_limiter_should_hold(base, base + s33, s33));
    assert!(!present_limiter_should_hold(base + ns(step33.mul_f64(0.9)), base + s33, s33));
}

#[test]
fn vrr_correction_eases_schedule_toward_stream_interval() {
    let frame = ns(Duration::from_secs_f64(1.0 / 60.0));
    let natural = ns(Duration::from_secs_f64(1.0 / 60.0));
    let step_s = frame as f64 / 1e9;
    let natural_s = natural as f64 / 1e9;

    assert_eq!(vrr_corrected_present_duration(frame, natural, None), frame);
    assert_eq!(vrr_corrected_present_duration(frame, natural, Some(secs_ns(step_s))), frame);
    assert_eq!(vrr_corrected_present_duration(frame, natural, Some(secs_ns(step_s - 0.001))), frame);

    let ema_slow = 1.0 / 59.94;
    let corrected = vrr_corrected_present_duration(frame, natural, Some(secs_ns(ema_slow)));
    let expected_slow = step_s - step_s.min(ema_slow - natural_s) * 0.01;
    assert!(
        (corrected as f64 / 1e9 - expected_slow).abs() < 1e-9,
        "gap-proportional correction: got {} s, want {} s",
        corrected as f64 / 1e9,
        expected_slow
    );

    let corrected_big = vrr_corrected_present_duration(frame, natural, Some(secs_ns(1.0 / 30.0)));
    let expected_big = step_s - step_s * 0.01;
    assert!(
        (corrected_big as f64 / 1e9 - expected_big).abs() < 1e-9,
        "1% cap: got {} s, want {} s",
        corrected_big as f64 / 1e9,
        expected_big
    );

    let display_step = ns(Duration::from_secs_f64(1.0 / 165.0));
    assert_eq!(vrr_corrected_present_duration(display_step, natural, Some(secs_ns(1.0 / 165.0))), display_step);
    let natural_240 = ns(Duration::from_secs_f64(1.0 / 240.0));
    let ema_display = 1.0 / 165.0;
    let corrected_display = vrr_corrected_present_duration(display_step, natural_240, Some(secs_ns(ema_display)));
    let display_s = display_step as f64 / 1e9;
    let expected_display = display_s - display_s.min(ema_display - natural_240 as f64 / 1e9) * 0.01;
    assert!(
        (corrected_display as f64 / 1e9 - expected_display).abs() < 1e-9,
        "stream-reference in auto mode: got {} s, want {} s",
        corrected_display as f64 / 1e9,
        expected_display
    );

    let mut last = vrr_corrected_present_duration(frame, natural, Some(secs_ns(step_s)));
    for fps in (31..=60).rev() {
        let step = vrr_corrected_present_duration(frame, natural, Some(secs_ns(1.0 / f64::from(fps))));
        assert!(step <= last + 1, "step must not grow with the cadence gap: fps={fps}");
        last = step;
    }
}

#[test]
fn cinematic_cadence_anchors_grid_to_refresh_intervals() {
    assert_eq!(cinematic_present_intervals(59, 60, None), 1);
    assert_eq!(cinematic_present_intervals(75, 60, None), 1);
    assert_eq!(cinematic_present_intervals(0, 60, None), 1);
    assert_eq!(cinematic_present_intervals(144, 0, None), 1);
    assert_eq!(cinematic_present_intervals(120, 60, None), 2);
    assert_eq!(cinematic_present_intervals(144, 60, None), 2);
    assert_eq!(cinematic_present_intervals(165, 60, None), 3);
    assert_eq!(cinematic_present_intervals(240, 60, None), 4);
    assert_eq!(cinematic_present_intervals(480, 60, None), 4);
    assert_eq!(cinematic_present_intervals(144, 120, None), 1);

    let on_time = 1.0 / 60.0;
    assert_eq!(cinematic_present_intervals(144, 60, Some(secs_ns(on_time))), 2);
    let jittery = 1.0 / 60.0 * 1.1;
    assert_eq!(cinematic_present_intervals(144, 60, Some(secs_ns(jittery))), 2);
    let falling_behind = 1.0 / 60.0 * 1.3;
    assert_eq!(cinematic_present_intervals(144, 60, Some(secs_ns(falling_behind))), 1);
    let very_behind = 1.0 / 30.0;
    assert_eq!(cinematic_present_intervals(480, 60, Some(secs_ns(very_behind))), 3);
}

#[test]
fn present_limiter_drop_consumes_one_pairing_entry() {
    let mut state = LivenessState::new();
    let now: u64 = 60_000;
    state.record_decoded_buffer(now - 1_000);
    state.record_decoded_buffer(now - 100);
    state.record_decoded_buffer(now - 50);
    state.record_sink_limiter_drop();
    state.record_sink_buffer(now);
    state.record_sink_buffer(now);
    let median = state.pairing.median_ms;
    assert!(
        median <= 100 && median > 0,
        "decode→present median should stay small after a limiter drop, got {median}"
    );
}

#[test]
fn clear_decode_timestamps_drops_stall_backlog() {
    let mut state = LivenessState::new();
    let now: u64 = 60_000;
    state.record_decoded_buffer(now - 5_000);
    state.record_decoded_buffer(now - 3_000);
    state.record_decoded_buffer(now - 2_500);
    state.clear_decode_timestamps();
    assert!(state.pairing.decode_timestamps.is_empty());
    state.record_sink_buffer(now);
    assert_eq!(state.pairing.median_ms, 0);
}

#[test]
fn record_sink_buffer_skips_stale_pairing_entry() {
    let mut state = LivenessState::new();
    let now: u64 = 60_000;
    state.record_decoded_buffer(now - 4_000);
    state.record_decoded_buffer(now - 60);
    state.record_sink_buffer(now);
    let median = state.pairing.median_ms;
    assert!(median > 0 && median <= 100, "stale entry must be skipped; delta should be ~60ms, got {median}");
}

#[test]
fn codec_downgrade_ladder_cascades_av1_to_h265_to_h264() {
    assert_eq!(codec_downgrade_target("AV1"), Some("H265"));
    assert_eq!(codec_downgrade_target("H265"), Some("H264"));
    assert_eq!(codec_downgrade_target("HEVC"), Some("H264"));
    assert_eq!(codec_downgrade_target("av1"), Some("H265"));
    assert_eq!(codec_downgrade_target("H264"), None);
    assert_eq!(codec_downgrade_target(""), None);
    assert_eq!(codec_downgrade_target("VP9"), None);
}

#[test]
fn adjb_percentile_quantile_reports_tail_not_average() {
    let mut history = VecDeque::new();
    for _ in 0..95 {
        history.push_back(3);
    }
    history.push_back(40);
    assert_eq!(percentile_quantile(&history, ADJB_QUANTILE_PERCENT), Some(40));
    assert_eq!(percentile_quantile(&history, 50), Some(3));
    assert_eq!(percentile_quantile(&VecDeque::new(), ADJB_QUANTILE_PERCENT), None);
    let mut one = VecDeque::new();
    one.push_back(17);
    assert_eq!(percentile_quantile(&one, ADJB_QUANTILE_PERCENT), Some(17));
    assert_eq!(percentile_quantile(&one, 200), Some(17));
}

#[test]
fn adjb_convergence_eases_toward_target_without_stepping() {
    assert_eq!(adjb_converged(100, 60, ADJB_CONVERGENCE_PERCENT), 86);
    assert_eq!(adjb_converged(60, 60, ADJB_CONVERGENCE_PERCENT), 60);
    assert_eq!(adjb_converged(100, 99, ADJB_CONVERGENCE_PERCENT), 99);
    assert_eq!(adjb_converged(100, 60, 100), 60);
    assert_eq!(adjb_converged(100, 60, 0), 100);
    assert_eq!(adjb_converged(60, 100, ADJB_CONVERGENCE_PERCENT), 74);
    let step = adjb_converged(100, 60, ADJB_CONVERGENCE_PERCENT);
    assert!(step > 60 && step < 100);
}

#[test]
fn assess_network_verdicts_track_the_buffer_ramps() {
    let (v, fps, res, keyframe) = assess_network(Some(3), 20, loss(0.0001));
    assert_eq!(v, NetworkVerdict::Stable);
    assert!(!fps && !res && !keyframe);
    let (v, fps, res, _keyframe) = assess_network(Some(18), 30, loss(0.0005));
    assert_eq!(v, NetworkVerdict::Degraded);
    assert!(fps && !res);
    let (v, fps, _res, _keyframe) = assess_network(None, 80, None);
    assert_eq!(v, NetworkVerdict::Degraded);
    assert!(fps);
    let (v, fps, res, keyframe) = assess_network(Some(5), 20, loss(0.002));
    assert_eq!(v, NetworkVerdict::Degraded);
    assert!(fps && !res && keyframe);
    let (v, fps, res, _keyframe) = assess_network(Some(45), 30, loss(0.0001));
    assert_eq!(v, NetworkVerdict::Poor);
    assert!(fps && res);
    let (v, fps, res, _keyframe) = assess_network(None, 200, None);
    assert_eq!(v, NetworkVerdict::Poor);
    assert!(fps && res);
    let (v, fps, res, keyframe) = assess_network(None, 20, loss(0.01));
    assert_eq!(v, NetworkVerdict::Poor);
    assert!(fps && res && keyframe);
    let (v, fps, res, keyframe) = assess_network(None, 0, None);
    assert_eq!(v, NetworkVerdict::Stable);
    assert!(!fps && !res && !keyframe);
}

#[test]
fn verdict_overlay_color_tints_only_degraded_and_poor() {
    assert_eq!(verdict_overlay_color_for("stable"), OVERLAY_COLOR_DEFAULT);
    assert_eq!(verdict_overlay_color_for(""), OVERLAY_COLOR_DEFAULT);
    assert_eq!(verdict_overlay_color_for("bogus"), OVERLAY_COLOR_DEFAULT);
    assert_eq!(verdict_overlay_color_for("degraded"), OVERLAY_COLOR_DEGRADED);
    assert_eq!(verdict_overlay_color_for("poor"), OVERLAY_COLOR_POOR);
    assert_ne!(OVERLAY_COLOR_DEGRADED, OVERLAY_COLOR_POOR);
    assert_eq!(verdict_overlay_color_for("POOR"), OVERLAY_COLOR_DEFAULT);
}

#[test]
fn pacing_mode_hud_label_matches_limiter_modes() {
    assert_eq!(pacing_mode_hud_label("auto"), "auto");
    assert_eq!(pacing_mode_hud_label("  AUTO "), "auto");
    assert_eq!(pacing_mode_hud_label("stream"), "stream");
    assert_eq!(pacing_mode_hud_label("vrr"), "vrr");
    assert_eq!(pacing_mode_hud_label("off"), "off");
    assert_eq!(pacing_mode_hud_label("disabled"), "off");
    assert_eq!(pacing_mode_hud_label("none"), "off");
    assert_eq!(pacing_mode_hud_label("144"), "144fps");
    assert_eq!(pacing_mode_hud_label("60"), "60fps");
    assert_eq!(pacing_mode_hud_label(" 120 "), "120fps");
    assert_eq!(pacing_mode_hud_label("turbo"), "?");
    assert_eq!(pacing_mode_hud_label(""), "?");
}

#[test]
fn pacing_mode_hud_tracks_set_pacing_mode_command() {
    let mut state = LivenessState::new();
    assert_eq!(state.pacing_mode_hud_label(), "auto");
    state.set_pacing_mode("stream");
    assert_eq!(state.pacing_mode_hud_label(), "stream");
    state.set_pacing_mode(" 144 ");
    assert_eq!(state.pacing_mode_hud_label(), "144fps");
    state.set_pacing_mode("disabled");
    assert_eq!(state.pacing_mode_hud_label(), "off");
    state.set_pacing_mode("vrr");
    assert_eq!(state.pacing_mode_hud_label(), "vrr");
}
