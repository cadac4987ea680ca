use std::collections::VecDeque;

use opennow_streamer::caps::{
    CapsObservation, CapsTransitionTracker, caps_framerate_summary, high_fps_transition_risk, is_zero_copy_memory_mode,
    memory_mode_from_caps,
};
use opennow_streamer::frame::frame_content_checksum;
use opennow_streamer::hud::hud_ping_ms;
use opennow_streamer::liveness::{
    DEFAULT_VIDEO_QUEUE_DEPTH, LivenessState, SessionProbe, StartupFailure, TRANSITION_FLUSH_QUEUE_DEPTH,
};
use opennow_streamer::network::{NetworkVerdict, RbSourceStats, RecvSourceStats, local_receive_jitter_ms, local_rtcp_rtt_sample};
use opennow_streamer::order::median_of_deltas;
use opennow_streamer::present::{
    Admission, Placement, PresentLimiter, cinematic_base_intervals, next_present_slot, present_limiter_should_hold,
    present_step_ns,
};
use opennow_streamer::rtcp::{
    PayloadCodec, RtcpMessageCounts, RtpDumpTracker, h264_packet_kind, h265_packet_kind, payload_dump_codec,
    rtp_header_summary,
};
use opennow_streamer::stall::{VideoStallAction, VideoStallTracker, classify_video_stall, format_age_ms};
use opennow_streamer::startup::codec_downgrade_target;
use opennow_streamer::text::{ascii_lowercase, parse_u32, trim};
use opennow_streamer::values::{StatValue, StickyEventKind, has_media_sticky_events, stat_counter_u64, stat_round_trip_fixed};
use opennow_streamer::watchdog::{LocalRtcpFreshness, NetworkTickInputs, TransitionFlushKind};

const MS: u64 = 1_000_000;

#[test]
fn stall_ladder_fires_rungs_in_order_and_recovers() {
    let mut t = VideoStallTracker::new();
    let last_video = 10_000;
    assert_eq!(t.evaluate(11_000, last_video), VideoStallAction::NoAction);
    assert_eq!(t.evaluate(12_500, last_video), VideoStallAction::RequestKeyframe { attempt: 1, stall_ms: 2_500 });
    // A second request is spaced at least 2 s from the first.
    assert_eq!(t.evaluate(15_000, last_video), VideoStallAction::RequestKeyframe { attempt: 2, stall_ms: 5_000 });
    assert_eq!(t.evaluate(18_000, last_video), VideoStallAction::Resync { attempt: 3, stall_ms: 8_000 });
    assert_eq!(t.evaluate(22_000, last_video), VideoStallAction::PartialFlush { attempt: 4, stall_ms: 12_000 });
    assert_eq!(t.evaluate(26_000, last_video), VideoStallAction::CompleteFlush { attempt: 5, stall_ms: 16_000 });
    assert_eq!(t.evaluate(30_000, last_video), VideoStallAction::Fatal { attempt: 6, stall_ms: 20_000 });
    assert_eq!(t.evaluate(40_000, last_video), VideoStallAction::NoAction);
    assert_eq!(t.evaluate(40_100, 40_000), VideoStallAction::Recovered { stall_ms: 30_100 });
    assert!(!t.in_stall);
}

#[test]
fn stall_stage_labels_and_ages() {
    assert_eq!(classify_video_stall(Some(3_000), Some(3_000), Some(3_000)), "video-rtp-idle");
    assert_eq!(classify_video_stall(Some(200), Some(3_000), Some(3_000)), "decode-chain-stalled");
    assert_eq!(classify_video_stall(Some(200), Some(200), Some(3_000)), "present-chain-stalled");
    assert_eq!(classify_video_stall(None, Some(200), Some(200)), "video-rtp-not-observed");
    assert_eq!(classify_video_stall(Some(2_000), Some(2_000), Some(2_000)), "video-output-stalled");
    assert_eq!(format_age_ms(Some(42)), "42ms");
    assert_eq!(format_age_ms(None), "n/a");
}

#[test]
fn startup_recovery_fires_each_rung_once_and_downgrades_once() {
    let mut s = LivenessState::new();
    s.configure("AV1", "1920x1080", None, None, None, 20_000, 60);
    assert_eq!(s.startup_recovery_step(1_000), None);
    s.record_encoded_buffer(1_200, 1_000);
    let step = s.startup_recovery_step(2_000).unwrap();
    assert_eq!(step.encoded_active_ms, 1_000);
    assert!(!step.request_keyframe && !step.request_resync && !step.startup_failed);
    s.record_encoded_buffer(1_200, 3_600);
    let step = s.startup_recovery_step(3_600).unwrap();
    assert!(step.request_keyframe && !step.request_resync);
    let step = s.startup_recovery_step(3_700).unwrap();
    assert!(!step.request_keyframe);
    s.record_encoded_buffer(1_200, 9_000);
    let step = s.startup_recovery_step(9_100).unwrap();
    assert!(step.request_resync && step.startup_failed);
    let step = s.startup_recovery_step(9_200).unwrap();
    assert!(!step.request_resync && !step.startup_failed);
    // Stale RTP gates the recovery off.
    assert_eq!(s.startup_recovery_step(20_000), None);
    assert_eq!(s.startup_failure_outcome(), StartupFailure::Downgrade { from_codec: "AV1", to_codec: "H265" });
    assert_eq!(s.startup_failure_outcome(), StartupFailure::Failed);
    // A rebuilt chain gets a fresh window.
    s.reset_startup_window();
    assert!(!s.startup.downgrade_requested && !s.startup.keyframe_requested);
    assert_eq!(s.activity.first_startup_encoded_ms, 0);
}

#[test]
fn startup_failure_without_downgrade_reports_failure() {
    let mut s = LivenessState::new();
    s.configure("H264", "1280x720", Some("hdr"), None, Some(true), 10_000, 120);
    assert_eq!(s.startup_failure_outcome(), StartupFailure::Failed);
    assert!(!s.session.transition_flush_escalation_enabled);
    assert_eq!(s.session.requested_features_summary, "hdr");
    assert_eq!(s.session.finalized_features_summary, "none");
    let mut s = LivenessState::new();
    s.configure("h265", "1280x720", None, None, None, 10_000, 120);
    s.record_decoded_buffer(5);
    assert_eq!(s.startup_failure_outcome(), StartupFailure::Failed);
    assert_eq!(codec_downgrade_target(" hevc "), Some("H264"));
}

#[test]
fn stall_tick_clears_backlog_and_escalates_transition_stalls() {
    let mut s = LivenessState::new();
    let mut t = VideoStallTracker::new();
    assert!(s.stall_tick(&mut t, 1_000).is_none());
    s.record_decoded_buffer(1_000);
    s.record_sink_buffer(1_000);
    // Decoding stops while RTP keeps flowing.
    s.record_decoded_buffer(1_100);
    s.record_encoded_buffer(500, 3_900);
    let tick = s.stall_tick(&mut t, 4_000).unwrap();
    assert_eq!(tick.sink_age_ms, Some(3_000));
    assert!(tick.timestamps_cleared);
    assert!(s.pairing.decode_timestamps.is_empty());
    assert!(tick.transition_stall);
    assert_eq!(tick.action, VideoStallAction::RequestKeyframe { attempt: 1, stall_ms: 3_000 });
    assert!(!tick.try_chain_fallback);
    s.record_encoded_buffer(500, 6_000);
    let tick = s.stall_tick(&mut t, 6_100).unwrap();
    assert_eq!(tick.action, VideoStallAction::RequestKeyframe { attempt: 2, stall_ms: 5_100 });
    assert!(tick.try_chain_fallback);
    s.chain_rebuilt_after_stall(&mut t);
    assert_eq!(s.activity.last_sink_ms, 0);
    assert!(s.stall_tick(&mut t, 6_200).is_none());
}

#[test]
fn transition_flush_deepens_then_recovery_restores_queue() {
    let mut s = LivenessState::new();
    assert!(!s.complete_transition_flush(TransitionFlushKind::Partial, false));
    assert_eq!(s.telemetry.partial_flush_count, 0);
    assert!(s.complete_transition_flush(TransitionFlushKind::Partial, true));
    assert_eq!(s.telemetry.partial_flush_count, 1);
    assert_eq!(s.queue_depth(), TRANSITION_FLUSH_QUEUE_DEPTH);
    assert!(!s.complete_transition_flush(TransitionFlushKind::Complete, true));
    assert_eq!(s.telemetry.complete_flush_count, 1);
    assert_eq!(s.telemetry.queue_depth_changes, 1);
    let mut t = VideoStallTracker::new();
    s.record_sink_buffer(1_000);
    let tick = s.stall_tick(&mut t, 4_000).unwrap();
    assert!(matches!(tick.action, VideoStallAction::RequestKeyframe { .. }));
    s.record_sink_buffer(4_100);
    let tick = s.stall_tick(&mut t, 4_200).unwrap();
    assert_eq!(tick.action, VideoStallAction::Recovered { stall_ms: 3_200 });
    assert!(tick.queue_depth_restored);
    assert_eq!(s.queue_depth(), DEFAULT_VIDEO_QUEUE_DEPTH);
}

fn inputs(now_ms: u64, server_rtt_ms: u32, raw_jitter_ms: Option<u32>) -> NetworkTickInputs {
    NetworkTickInputs {
        now_ms,
        local_rtcp_rtt_ms: None,
        server_rtt_ms,
        loss_e5: None,
        raw_jitter_ms,
        queue_present: true,
        webrtcbin_present: true,
    }
}

#[test]
fn network_tick_resizes_buffers_and_throttles_assessments() {
    let mut s = LivenessState::new();
    s.configure("H264", "1920x1080", None, None, None, 20_000, 60);
    // Within the first 5 s a new verdict is held back by the throttle.
    let out = s.network_tick(inputs(1_000, 20, Some(2)));
    assert!(out.assessment.is_none());
    let mut s = LivenessState::new();
    s.configure("H264", "1920x1080", None, None, None, 20_000, 60);
    // Stable link: the deep initial queue shrinks to the base depth.
    let out = s.network_tick(inputs(6_000, 20, Some(2)));
    assert_eq!(out.local_jitter_ms, Some(2));
    assert_eq!(out.effective_rtt_ms, Some(20));
    assert_eq!(out.pre_decode_jitter_buffer_ms, Some(250));
    assert_eq!(out.resized_depth, Some(3));
    assert_eq!(out.playout_latency_ms, None);
    let first = out.assessment.unwrap();
    assert_eq!(first.verdict, NetworkVerdict::Stable);
    assert_eq!(first.rtt_ms, Some(20));
    // Same picture: nothing new to emit.
    let out = s.network_tick(inputs(6_250, 20, Some(2)));
    assert_eq!(out.resized_depth, None);
    assert!(out.assessment.is_none());
    // A spike holds the buffers deep and eases the playout latency up.
    let out = s.network_tick(inputs(6_500, 200, Some(2)));
    assert_eq!(out.resized_depth, Some(15));
    assert!(out.playout_latency_ms.unwrap() > 25);
    assert!(s.network.burst_hold_until_ms > 6_500);
    // Jitter is not reported once encoded RTP went stale.
    s.record_encoded_buffer(100, 7_000);
    let out = s.network_tick(inputs(14_000, 0, Some(7)));
    assert_eq!(out.local_jitter_ms, None);
    assert_eq!(out.pre_decode_jitter_buffer_ms, None);
    assert_eq!(out.effective_rtt_ms, None);
}

#[test]
fn local_rtcp_round_trip_expires_without_new_reports() {
    let mut f = LocalRtcpFreshness::new(0);
    assert_eq!(f.observe(Some((40, 7)), 1_000), (Some(40), 0));
    assert_eq!(f.observe(Some((40, 7)), 10_000), (Some(40), 9_000));
    assert_eq!(f.observe(Some((40, 7)), 16_001), (None, 15_001));
    assert_eq!(f.observe(Some((40, 8)), 16_100), (Some(40), 0));
    assert_eq!(f.observe(None, 16_200), (None, 0));
}

#[test]
fn rtcp_source_stats_pick_round_trip_and_busiest_jitter() {
    let sources = vec![
        RbSourceStats { have_rb: false, rb_round_trip: Some(6_554), rb_lsr: 1 },
        RbSourceStats { have_rb: true, rb_round_trip: Some(3_277), rb_lsr: 2 },
    ];
    assert_eq!(local_rtcp_rtt_sample(&sources), Some((50, 2)));
    let recv = vec![
        RecvSourceStats { packets_received: 10, avg_jitter: Some(900), jitter: None, clock_rate: Some(90_000) },
        RecvSourceStats { packets_received: 500, avg_jitter: Some(0), jitter: Some(450), clock_rate: None },
        RecvSourceStats { packets_received: 0, avg_jitter: Some(9_000), jitter: None, clock_rate: Some(90_000) },
    ];
    assert_eq!(local_receive_jitter_ms(&recv), Some(5));
}

#[test]
fn present_limiter_holds_passes_and_releases_frames() {
    let mut l = PresentLimiter::new(0);
    assert_eq!(l.accept_frame(0, 1 * MS), Admission::PassThrough { discarded_held: false });
    let a = l.accept_frame(60, 10 * MS);
    assert_eq!(a, Admission::Schedule { target_fps: 60, pacing_changed: true, discarded_held: false });
    assert_eq!(l.next_present_ns, 10 * MS);
    // On its slot: presented, the next slot is one step later.
    assert_eq!(l.place(10 * MS, 16 * MS), Placement::Pass { discarded_held: false, previous_frame_ns: None });
    assert_eq!(l.next_present_ns, 26 * MS);
    // Far before its slot: held.
    assert_eq!(l.accept_frame(60, 12 * MS), Admission::Schedule { target_fps: 60, pacing_changed: false, discarded_held: false });
    assert_eq!(l.place(12 * MS, 16 * MS), Placement::Hold { replaced_held: false });
    // A newer early frame replaces the held one.
    assert_eq!(l.place(13 * MS, 16 * MS), Placement::Hold { replaced_held: true });
    assert_eq!(l.dropped, 1);
    assert!(!l.release_due(20 * MS));
    assert!(l.release_due(26 * MS));
    assert_eq!(l.release(26 * MS), Some(Some(10 * MS)));
    assert_eq!(l.next_present_ns, 42 * MS);
    assert!(!l.holding);
    assert_eq!(l.release(27 * MS), None);
    // A frame more than the catch-up budget early is dropped.
    l.next_present_ns = 400 * MS;
    assert_eq!(l.accept_frame(60, 100 * MS), Admission::Drop { pacing_changed: false, discarded_held: false });
    // A late frame advances the grid past now.
    l.next_present_ns = 42 * MS;
    assert!(matches!(l.place(100 * MS, 16 * MS), Placement::Pass { .. }));
    assert_eq!(l.next_present_ns, 106 * MS);
    assert_eq!(next_present_slot(42 * MS, 100 * MS, 16 * MS), 106 * MS);
    assert_eq!(l.take_log_window(500 * MS), None);
    assert_eq!(l.take_log_window(1_000 * MS), None);
    assert_eq!(l.take_log_window(1_010 * MS), Some((3, 2)));
    assert_eq!((l.passed, l.dropped), (0, 0));
    l.place(1_001 * MS, 16 * MS);
    l.next_present_ns = 2_000 * MS;
    l.place(1_002 * MS, 16 * MS);
    assert!(l.end_of_stream());
    assert!(!l.end_of_stream());
}

#[test]
fn caps_transitions_are_detected_once_per_change() {
    let mut t = CapsTransitionTracker::new();
    let a = "video/x-raw(memory:D3D11Memory), format=NV12, framerate=(fraction)60/1";
    let b = "video/x-raw, format=NV12, framerate=(fraction)120/1";
    assert!(matches!(t.observe(a), CapsObservation::First));
    assert!(matches!(t.observe(a), CapsObservation::Unchanged));
    match t.observe(b) {
        CapsObservation::Changed { old, new } => {
            assert_eq!(old.caps, a);
            assert_eq!(old.framerate.as_deref(), Some("60/1"));
            assert_eq!(old.memory_mode, "D3D11Memory");
            assert_eq!(new.framerate.as_deref(), Some("120/1"));
            assert_eq!(new.memory_mode, "system-memory");
        },
        _ => panic!("expected a transition"),
    }
    assert!(matches!(t.observe(b), CapsObservation::Unchanged));
}

#[test]
fn caps_helpers_read_framerate_and_memory_path() {
    let caps = "video/x-raw(memory:D3D12Memory), framerate=(fraction) 144/1 ;width=(int)1920";
    assert_eq!(caps_framerate_summary(caps).as_deref(), Some("144/1"));
    assert_eq!(caps_framerate_summary("video/x-raw"), None);
    assert_eq!(memory_mode_from_caps(caps), "D3D12Memory");
    assert!(is_zero_copy_memory_mode("D3D12Memory"));
    assert!(!is_zero_copy_memory_mode("system-memory"));
    assert!(high_fps_transition_risk(Some(240), Some("120/1")));
    assert!(!high_fps_transition_risk(Some(240), Some("240/1")));
    assert!(!high_fps_transition_risk(Some(120), Some("60/1")));
}

#[test]
fn rtp_payload_dump_tracks_first_packets() {
    assert_eq!(payload_dump_codec("av1"), Some(PayloadCodec::Av1));
    assert_eq!(payload_dump_codec("HEVC"), Some(PayloadCodec::H265));
    assert_eq!(payload_dump_codec("vp9"), None);
    let mut t = RtpDumpTracker::new();
    assert_eq!(t.next_buffer(), Some(0));
    assert_eq!(t.record_sequence(100), (100, 0));
    assert_eq!(t.next_buffer(), Some(1));
    assert_eq!(t.record_sequence(103), (100, 3));
    for _ in 0..4 {
        assert!(t.next_buffer().is_some());
    }
    assert_eq!(t.next_buffer(), None);
    let h = rtp_header_summary(&[0x80, 0xE0, 0x01, 0x02, 0, 0, 0x01, 0x00, 0, 0, 0, 0, 0x7C]);
    assert!(h.marker);
    assert_eq!(h.seq, 0x0102);
    assert_eq!(h.timestamp, 256);
    assert_eq!(h.payload_first, Some(0x7C));
    assert_eq!(h264_packet_kind(28), "FU-A");
    assert_eq!(h265_packet_kind(49), "FU");
}

#[test]
fn stats_values_and_sticky_events() {
    assert_eq!(stat_counter_u64(StatValue::UInt(7)), Some(7));
    assert_eq!(stat_counter_u64(StatValue::Int(-1)), None);
    assert_eq!(stat_counter_u64(StatValue::Int64(9)), Some(9));
    assert_eq!(stat_counter_u64(StatValue::UChar(3)), None);
    assert_eq!(stat_round_trip_fixed(StatValue::UChar(3)), Some(3));
    assert_eq!(stat_round_trip_fixed(StatValue::Int(3)), None);
    assert!(has_media_sticky_events(&[
        StickyEventKind::StreamStart,
        StickyEventKind::Caps,
        StickyEventKind::Other,
        StickyEventKind::Segment,
    ]));
    assert!(!has_media_sticky_events(&[StickyEventKind::StreamStart, StickyEventKind::Caps]));
    assert!(!has_media_sticky_events(&[]));
}

#[test]
fn hud_texts_follow_state() {
    let mut s = LivenessState::new();
    assert_eq!(s.hud_status_line(), "Pace auto");
    s.set_pacing_mode("144");
    s.configure("H264", "1920x1080", None, None, None, 20_000, 60);
    let _ = s.network_tick(inputs(10_000, 200, None));
    assert_eq!(s.hud_status_line(), "Pace 144fps  Net POOR (lowerFps, lowerRes)");
    assert_eq!(s.verdict_overlay_color(), opennow_streamer::network::OVERLAY_COLOR_POOR);
    assert_eq!(s.overlay_color_update(false), None);
    assert_eq!(s.overlay_color_update(true), Some(opennow_streamer::network::OVERLAY_COLOR_POOR));
    assert_eq!(s.overlay_color_update(true), None);
    assert_eq!(s.memory_path_label(), "system-memory");
    s.update_caps("video/x-raw(memory:D3D11Memory), framerate=(fraction)60/1");
    s.update_hardware_acceleration("d3d11");
    assert_eq!(s.memory_path_label(), "d3d11 D3D11Memory zero-copy");
    assert!(s.zero_copy() && s.zero_copy_d3d11() && !s.zero_copy_d3d12());
    assert_eq!(hud_ping_ms(Some(12), 40, None), Some(12));
    assert_eq!(hud_ping_ms(None, 40, Some(20_000)), None);
    assert_eq!(hud_ping_ms(None, 40, Some(1_000)), Some(40));
    assert_eq!(hud_ping_ms(None, 0, None), None);
    assert!(s.overlay_text_visible("x") == s.hud.stats_overlay_visible);
    s.set_stats_overlay_visible(true);
    assert!(s.overlay_text_visible("x"));
    assert!(!s.overlay_text_visible(""));
}

#[test]
fn game_rate_is_capped_at_twice_the_stream_rate() {
    let mut s = LivenessState::new();
    assert_eq!(s.clamped_server_game_fps(0), 0);
    assert_eq!(s.clamped_server_game_fps(500), 500);
    s.update_caps("video/x-raw, framerate=(fraction) 60/1");
    assert_eq!(s.clamped_server_game_fps(200), 120);
    s.configure("H264", "1280x720", None, None, None, 10_000, 120);
    assert_eq!(s.clamped_server_game_fps(500), 240);
    assert_eq!(s.clamped_server_game_fps(100), 100);
    s.configure("H264", "1280x720", None, None, None, 10_000, 20);
    assert_eq!(s.clamped_server_game_fps(100), 40);
    assert_eq!(s.clamped_server_game_fps(30), 30);
}

#[test]
fn duplicate_frames_are_detected_by_pts_or_content() {
    let mut s = LivenessState::new();
    let frame = vec![1u8, 2, 3, 4];
    s.record_duplicate_sample(Some(100), Some(&frame), false);
    s.record_duplicate_sample(Some(100), Some(&frame), false);
    s.record_duplicate_sample(Some(200), Some(&frame), false);
    s.record_duplicate_sample(Some(300), Some(&[9u8, 9]), false);
    s.record_duplicate_sample(Some(400), Some(&[9u8, 9]), true);
    assert_eq!(s.duplicates.frames_seen, 5);
    assert_eq!(s.duplicates.frames_unique, 3);
    assert_eq!(frame_content_checksum(&[]), None);
    assert!(frame_content_checksum(&frame).is_some());
    s.reset_startup_window();
    assert_eq!(s.duplicates.frames_seen, 0);
}

#[test]
fn outgoing_rtcp_summary_lists_every_counter() {
    let mut s = LivenessState::new();
    assert_eq!(s.rtcp_sent_summary(), "none");
    s.record_rtcp_message(RtcpMessageCounts { sr: 1, rr: 2, twcc: 3, nack: 0, pli: 4, fir: 0, other: 10 });
    s.record_rtcp_message(RtcpMessageCounts { sr: 1, ..RtcpMessageCounts::default() });
    assert_eq!(s.rtcp_sent_summary(), "SR=2 RR=2 TWCC=3 NACK=0 PLI=4 FIR=0 other=10");
}

#[test]
fn activity_stamps_and_once_flags() {
    let mut s = LivenessState::new();
    s.record_audio_buffer(500);
    assert_eq!(s.activity.first_startup_audio_ms, 500);
    s.record_audio_buffer(600);
    assert_eq!(s.activity.first_startup_audio_ms, 500);
    assert_eq!(s.activity.last_audio_ms, 600);
    s.record_encoded_buffer(1_000, 700);
    s.record_encoded_buffer(500, 800);
    assert_eq!(s.activity.encoded_bytes_total, 1_500);
    assert_eq!(s.activity.first_startup_encoded_ms, 700);
    assert!(s.log_first_encoded_once());
    assert!(!s.log_first_encoded_once());
    assert!(s.warn_framerate_mismatch_once());
    assert!(!s.warn_framerate_mismatch_once());
    s.record_decoded_buffer(900);
    s.record_decoded_buffer(910);
    s.record_sink_buffer(950);
    assert_eq!(s.frames_pending_to_present(), 1);
    assert_eq!(s.decode_present_median_ms(), Some(50));
    s.record_present_pacing_change();
    s.increment_partial_flush_count();
    assert_eq!(s.telemetry.present_pacing_changes, 1);
    s.update_negotiated_codec("AV1");
    assert_eq!(s.session.codec, "AV1");
}

#[test]
fn text_helpers_normalize() {
    assert_eq!(ascii_lowercase("AbC-Ünï 9"), "abc-Ünï 9");
    assert_eq!(trim("\t x y \n"), "x y");
    assert_eq!(parse_u32(" 12".trim()), Some(12));
    assert_eq!(parse_u32("4294967296"), None);
    assert_eq!(parse_u32(""), None);
}

#[test]
fn median_window_law_on_concrete_values() {
    let mut w = VecDeque::new();
    w.push_back(12);
    w.push_back(4_000);
    w.push_back(10);
    assert_eq!(median_of_deltas(&w), 12);
}

#[test]
fn cinematic_cadence_rounds_the_refresh_ratio() {
    assert_eq!(cinematic_base_intervals(144, 60), 2);
    assert_eq!(cinematic_base_intervals(75, 60), 1);
    assert_eq!(cinematic_base_intervals(150, 60), 3);
    assert_eq!(cinematic_base_intervals(120, 60), 2);
    assert_eq!(cinematic_base_intervals(360, 60), 4);
    assert_eq!(cinematic_base_intervals(1, 60), 1);
    assert_eq!(cinematic_base_intervals(144, 0), 1);
}

#[test]
fn hold_gate_uses_a_tenth_of_the_step() {
    let base = 1_000 * MS;
    let step = 16 * MS;
    assert!(present_limiter_should_hold(base, base + step, step));
    assert!(present_limiter_should_hold(base + step / 2, base + step, step));
    assert!(!present_limiter_should_hold(base + step * 9 / 10, base + step, step));
    assert!(!present_limiter_should_hold(base + step, base + step, step));
    assert!(!present_limiter_should_hold(base + 2 * step, base + step, step));
}

#[test]
fn transition_facts_and_framerate_mismatch() {
    let mut s = LivenessState::new();
    s.configure("H265", "2560x1440", None, None, None, 50_000, 240);
    let facts = s.transition_facts(Some("120/1"), 5_000);
    assert_eq!(facts.requested_fps, Some(240));
    assert_eq!(facts.render_gap_ms, None);
    assert!(facts.high_fps_risk);
    s.record_sink_buffer(4_000);
    let facts = s.transition_facts(Some("240/1"), 5_000);
    assert_eq!(facts.render_gap_ms, Some(1_000));
    assert!(!facts.high_fps_risk);
    assert!(!s.framerate_mismatch_first_seen(Some("240/1")));
    assert!(!s.framerate_mismatch_first_seen(None));
    assert!(s.framerate_mismatch_first_seen(Some("120/1")));
    assert!(!s.framerate_mismatch_first_seen(Some("120/1")));
}

#[test]
fn present_step_follows_cinematic_and_vrr_rules() {
    // 60 fps stream on a 144 Hz display: two refreshes per frame.
    assert_eq!(present_step_ns(144, Some(60), Some(144), None), 2 * 1_000_000_000 / 144);
    // No display rate: the frame interval of the target.
    assert_eq!(present_step_ns(60, Some(60), None, None), 1_000_000_000 / 60);
    // A slow real cadence shortens the step by 1% of the gap.
    assert_eq!(present_step_ns(60, Some(60), None, Some(17_666_666)), 16_666_666 - 10_000);
    // Pacing target 0 is treated as one frame per second.
    assert_eq!(present_step_ns(0, None, None, None), 1_000_000_000);
    // The cadence average is kept by passes and releases.
    let mut l = PresentLimiter::new(0);
    l.accept_frame(60, 0);
    l.place(0, 16 * MS);
    assert_eq!(l.present_duration_ema_ns, None);
    l.place(20 * MS, 16 * MS);
    assert_eq!(l.present_duration_ema_ns, Some(20 * MS));
    l.place(32 * MS, 16 * MS);
    assert_eq!(l.present_duration_ema_ns, Some((3 * 20 * MS + 12 * MS) / 4));
    assert_eq!(l.present_step(60, Some(60), None), present_step_ns(60, Some(60), None, Some(18 * MS)));
}

#[test]
fn session_probes_install_once() {
    let mut s = LivenessState::new();
    assert!(s.claim_probe(SessionProbe::RtpBitrate));
    assert!(!s.claim_probe(SessionProbe::RtpBitrate));
    assert!(s.claim_probe(SessionProbe::RtcpSend));
    assert!(s.claim_probe(SessionProbe::RtpPayloadDump));
    assert!(!s.claim_probe(SessionProbe::RtpPayloadDump));
    // A new session keeps the probes: their pads outlive the chain.
    s.configure("H264", "1280x720", None, None, None, 10_000, 60);
    assert!(!s.claim_probe(SessionProbe::RtcpSend));
}
