use std::collections::VecDeque;

use opennow_streamer::adaptive::NetworkAdaptation;
use opennow_streamer::liveness::LivenessState;
use opennow_streamer::network::{
    VIDEO_COMPRESSED_QUEUE_MAX_BUFFERS, VIDEO_COMPRESSED_QUEUE_MID_BUFFERS, WEBRTC_LATENCY_MAX_MS,
    WEBRTC_LATENCY_MID_MS, target_pre_decode_depth, target_webrtc_latency_ms,
};
use opennow_streamer::network::NetworkVerdict;
use opennow_streamer::order::{median_of_deltas, percentile_quantile};
use opennow_streamer::present::{FrameFate, PresentLimiter};
use opennow_streamer::rtcp::{RtcpMessageCounts, classify_rtcp_messages};
use opennow_streamer::stall::{VideoStallAction, VideoStallTracker};
use opennow_streamer::startup::{is_first_video_frame, streaming_status_message};
use opennow_streamer::watchdog::transition_summary;

/// A packet-loss fraction in the 1e-5 units the library smooths it in.
fn loss(fraction: f64) -> Option<u64> {
    Some((fraction * 100_000.0).round() as u64)
}

#[test]
fn moderate_loss_only_raises_the_pre_decode_depth() {
    // The RTT ramp already asks for the maximum: loss keeps it.
    assert_eq!(target_pre_decode_depth(150, loss(0.002), false, None), VIDEO_COMPRESSED_QUEUE_MAX_BUFFERS);
    assert_eq!(target_pre_decode_depth(150, None, false, None), VIDEO_COMPRESSED_QUEUE_MAX_BUFFERS);
    // A low RTT is floored at the mid depth.
    assert_eq!(target_pre_decode_depth(38, loss(0.002), false, None), VIDEO_COMPRESSED_QUEUE_MID_BUFFERS);
    assert_eq!(target_pre_decode_depth(60, loss(0.002), false, None), VIDEO_COMPRESSED_QUEUE_MID_BUFFERS);
    // The jitter ramp above the floor is kept.
    assert_eq!(target_pre_decode_depth(10, loss(0.002), false, Some(40)), VIDEO_COMPRESSED_QUEUE_MAX_BUFFERS);
    // Heavy loss gives the maximum.
    assert_eq!(target_pre_decode_depth(0, loss(0.006), false, None), VIDEO_COMPRESSED_QUEUE_MAX_BUFFERS);
}

#[test]
fn moderate_loss_only_raises_the_playout_latency() {
    assert_eq!(target_webrtc_latency_ms(Some(40), 150, loss(0.002), false), WEBRTC_LATENCY_MAX_MS);
    assert_eq!(target_webrtc_latency_ms(Some(40), 150, None, false), WEBRTC_LATENCY_MAX_MS);
    assert_eq!(target_webrtc_latency_ms(None, 0, loss(0.002), false), WEBRTC_LATENCY_MID_MS);
    assert_eq!(target_webrtc_latency_ms(Some(1), 10, loss(0.002), false), WEBRTC_LATENCY_MID_MS);
}

#[test]
fn stall_ladder_over_a_history_with_spacing_and_a_second_stall() {
    let mut t = VideoStallTracker::new();
    let last = 10_000;
    assert_eq!(t.evaluate(12_500, last), VideoStallAction::RequestKeyframe { attempt: 1, stall_ms: 2_500 });
    // Too soon after the first request, then below the next threshold.
    assert_eq!(t.evaluate(13_000, last), VideoStallAction::NoAction);
    assert_eq!(t.evaluate(14_000, last), VideoStallAction::NoAction);
    assert_eq!(t.evaluate(15_000, last), VideoStallAction::RequestKeyframe { attempt: 2, stall_ms: 5_000 });
    // Frames flow again: the stall is measured from its first late frame.
    assert_eq!(t.evaluate(15_100, 15_050), VideoStallAction::Recovered { stall_ms: 5_100 });
    assert_eq!(t.evaluate(15_200, 15_150), VideoStallAction::NoAction);
    // The next stall starts over at the first rung.
    assert_eq!(t.evaluate(20_000, 17_000), VideoStallAction::RequestKeyframe { attempt: 1, stall_ms: 3_000 });
    assert_eq!(t.evaluate(20_100, 20_050), VideoStallAction::Recovered { stall_ms: 3_100 });
}

#[test]
fn rtcp_classification_adds_up_over_whole_messages() {
    // A whole compound packet: PLI (4 bytes) and SR (8 bytes).
    let a: Vec<u8> = vec![0x81, 206, 0, 0, 0x80, 200, 0, 1, 0, 0, 0, 0];
    // Transport-cc, then a truncated receiver report.
    let b: Vec<u8> = vec![0x8F, 205, 0, 0, 0x80, 201, 0, 5, 0, 0];
    let mut joined = a.clone();
    joined.extend_from_slice(&b);
    let ca = classify_rtcp_messages(&a);
    let cb = classify_rtcp_messages(&b);
    let cj = classify_rtcp_messages(&joined);
    assert_eq!(ca, RtcpMessageCounts { sr: 1, pli: 1, ..RtcpMessageCounts::default() });
    assert_eq!(cb, RtcpMessageCounts { twcc: 1, ..RtcpMessageCounts::default() });
    assert_eq!(cj, RtcpMessageCounts { sr: 1, pli: 1, twcc: 1, ..RtcpMessageCounts::default() });
    // A sub-header tail adds nothing.
    let mut short = a.clone();
    short.extend_from_slice(&[0x80, 201]);
    assert_eq!(classify_rtcp_messages(&short), ca);
}

#[test]
fn transition_is_recorded_as_the_last_one() {
    let mut s = LivenessState::new();
    s.configure("H265", "2560x1440", None, None, None, 50_000, 240);
    assert!(s.telemetry.last_transition.is_none());
    s.record_sink_buffer(6_000);
    s.record_transition(
        "caps-change",
        "decoder",
        Some("video/x-raw, framerate=240/1"),
        Some("video/x-raw, framerate=120/1"),
        Some("240/1"),
        Some("120/1"),
        Some("SystemMemory"),
        Some("D3D11Memory"),
        7_000,
    );
    let t = s.telemetry.last_transition.clone().expect("recorded");
    assert_eq!(t.transition_type, "caps-change");
    assert_eq!(t.source, "decoder");
    assert_eq!(t.at_ms, 7_000);
    assert_eq!(t.old_caps.as_deref(), Some("video/x-raw, framerate=240/1"));
    assert_eq!(t.new_framerate.as_deref(), Some("120/1"));
    assert_eq!(t.caps_framerate.as_deref(), Some("120/1"));
    assert_eq!(t.new_memory_mode.as_deref(), Some("D3D11Memory"));
    assert_eq!(t.render_gap_ms, Some(1_000));
    assert_eq!(t.requested_fps, Some(240));
    assert!(t.high_fps_risk);
    assert_eq!(t.summary, "caps-change from decoder: framerate 240/1 -> 120/1 requestedFps=240 highFpsRisk");
    assert_eq!(s.telemetry.partial_flush_count, 0);
    // A later transition replaces it; a new session clears it.
    s.record_transition("caps-change", "sink", None, Some("video/x-raw"), None, None, None, None, 8_000);
    let t = s.telemetry.last_transition.clone().expect("recorded");
    assert_eq!(t.at_ms, 8_000);
    assert!(!t.high_fps_risk);
    assert_eq!(t.summary, "caps-change from sink: framerate unknown -> unknown requestedFps=240");
    s.configure("H264", "1280x720", None, None, None, 10_000, 60);
    assert!(s.telemetry.last_transition.is_none());
}

#[test]
fn transition_summary_without_requested_rate() {
    assert_eq!(
        transition_summary("high-fps-transition-risk", "video", None, None, Some("60/1"), false),
        "high-fps-transition-risk from video: framerate unknown -> 60/1 requestedFps=n/a"
    );
}

#[test]
fn pacer_collision_counts_as_dropped() {
    let mut l = PresentLimiter::new(0);
    let before = l;
    l.collision_drop();
    assert_eq!(l.dropped, 1);
    assert_eq!(l.passed, before.passed);
    assert_eq!(l.next_present_ns, before.next_present_ns);
    assert_eq!(l.holding, before.holding);
    assert_eq!(l.take_log_window(1_000_000_000), Some((0, 1)));
}

#[test]
fn first_video_frame_reports_streaming_unless_deferred() {
    assert!(is_first_video_frame("video", false));
    assert!(!is_first_video_frame("video", true));
    assert!(!is_first_video_frame("audio", false));
    assert_eq!(streaming_status_message(false, true, false), None);
    assert_eq!(
        streaming_status_message(true, true, true),
        Some("Native video frames reached the external low-latency GStreamer renderer window.")
    );
    assert_eq!(
        streaming_status_message(false, false, false),
        Some("Native video frames reached the internal child-surface GStreamer renderer.")
    );
}

#[test]
fn assessment_is_resent_only_on_a_new_outcome() {
    let mut a = NetworkAdaptation::new();
    a.adjust_pre_decode_queue(70, None, 0, true);
    let first = a.assessment_update(Some(2), 6_000).expect("first assessment");
    assert_eq!(first.verdict, NetworkVerdict::Degraded);
    assert_eq!(first.rtt_ms, Some(70));
    // The RTT average moves to 80: same verdict and recommendations.
    a.adjust_pre_decode_queue(110, None, 7_000, true);
    assert_eq!(a.rtt_ema_ms, 80);
    assert_eq!(a.assessment_update(Some(2), 16_000), None);
    assert_eq!(a.last_assessment, Some(first));
    assert_eq!(a.last_assessment_emitted_ms, 6_000);
    // A new verdict within the throttle waits, then goes out.
    a.adjust_pre_decode_queue(360, None, 17_000, true);
    assert_eq!(a.rtt_ema_ms, 150);
    let poor = a.assessment_update(Some(2), 17_000).expect("new verdict after the throttle");
    assert_eq!(poor.verdict, NetworkVerdict::Poor);
    a.adjust_pre_decode_queue(40, None, 18_000, true);
    assert_eq!(a.assessment_update(Some(2), 18_000), None);
}

#[test]
fn spike_hold_covers_its_window_across_other_steps() {
    let mut a = NetworkAdaptation::new();
    assert_eq!(a.adjust_pre_decode_queue(40, None, 0, true), Some(4));
    // A spike at 1 s: the EMA is 80 and the queue goes to the maximum.
    assert_eq!(a.adjust_pre_decode_queue(200, None, 1_000, true), Some(VIDEO_COMPRESSED_QUEUE_MAX_BUFFERS));
    assert_eq!(a.rtt_ema_ms, 80);
    a.record_jitter_sample(2);
    a.adjust_webrtc_latency(Some(2), 2_000, true);
    // Calm samples inside the window keep the maximum.
    assert_eq!(a.adjust_pre_decode_queue(80, None, 3_000, true), None);
    assert_eq!(a.pre_decode_depth, VIDEO_COMPRESSED_QUEUE_MAX_BUFFERS);
    assert!(a.burst_hold_active(4_999));
    assert_eq!(a.adjust_pre_decode_queue(80, None, 4_999, true), None);
    // The window closes: the ramp depth returns.
    assert!(!a.burst_hold_active(5_000));
    assert_eq!(a.adjust_pre_decode_queue(80, None, 5_000, true), Some(8));
}

#[test]
fn quantile_and_median_are_window_samples_independent_of_order() {
    let w: VecDeque<u32> = VecDeque::from(vec![9, 1, 7, 3, 5, 3]);
    let mut r: VecDeque<u32> = w.iter().rev().copied().collect();
    r.rotate_left(2);
    for p in [0, 10, 50, 90, 99, 100, 150] {
        let q = percentile_quantile(&w, p).expect("non-empty window");
        assert!(w.contains(&q));
        assert_eq!(percentile_quantile(&r, p), Some(q));
    }
    let mut previous = 0;
    for p in 0..=100 {
        let q = percentile_quantile(&w, p).unwrap();
        assert!(q >= previous);
        previous = q;
    }
    let m = median_of_deltas(&w);
    assert_eq!(m, 3);
    assert_eq!(median_of_deltas(&r), m);
    assert!(w.iter().filter(|x| **x <= m).count() >= (w.len() + 1) / 2);
    assert!(w.iter().filter(|x| **x >= m).count() >= w.len() / 2 + 1);
}

#[test]
fn present_limiter_frame_rule() {
    const MS: u64 = 1_000_000;
    let step = 1_000_000_000 / 60;
    let mut l = PresentLimiter::new(0);
    // Pacing off: the frame passes.
    let d = l.handle_frame(0, 0, None, None);
    assert_eq!(d.fate, FrameFate::PassThrough);
    assert_eq!(d.frames_dropped, 0);
    // A new target restarts the grid at now and presents.
    assert!(l.pacing_change_pending(60));
    let d = l.handle_frame(60, 0, Some(60), None);
    assert!(d.pacing_changed);
    assert_eq!(d.fate, FrameFate::Presented { previous_frame_ns: None });
    assert_eq!(d.step_ns, step);
    assert_eq!(l.next_present_ns, step);
    assert!(!l.pacing_change_pending(60));
    // Early frames are held; a newer one replaces the held frame (one drop).
    let d = l.handle_frame(60, 5 * MS, Some(60), None);
    assert_eq!(d.fate, FrameFate::Held);
    assert_eq!(d.frames_dropped, 0);
    let d = l.handle_frame(60, 6 * MS, Some(60), None);
    assert_eq!(d.fate, FrameFate::Held);
    assert!(d.discarded_held);
    assert_eq!(d.frames_dropped, 1);
    // Near the slot the frame is presented and the held one is overtaken.
    let d = l.handle_frame(60, 16 * MS, Some(60), None);
    assert_eq!(d.fate, FrameFate::Presented { previous_frame_ns: Some(0) });
    assert_eq!(d.frames_dropped, 1);
    assert_eq!(l.dropped, 2);
    assert_eq!(l.passed, 2);
    // At 1 fps a frame far ahead of its slot is dropped.
    let d = l.handle_frame(1, 100 * MS, None, None);
    assert!(d.pacing_changed);
    assert_eq!(d.fate, FrameFate::Presented { previous_frame_ns: None });
    let d = l.handle_frame(1, 300 * MS, None, None);
    assert_eq!(d.fate, FrameFate::Dropped);
    assert_eq!(d.frames_dropped, 1);
}
