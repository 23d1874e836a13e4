//! The sending end: pacing, control traffic, changes of profile, and how a run ends.

use agoralink_media::choices::RepairMode;
use agoralink_media::cli_values::FecMode;
use agoralink_media::close_handshake::CloseTimings;
use agoralink_media::h264_send_probe::{
    cancelled_transition_text, change_carried_out, collect_join_errors, end_run,
    evaluate_keyframe_interval, failure_lines, is_expected_mft_shutdown_cancellation,
    is_quiet_end, missing_action_text, observed_idr_intervals, pipeline_done,
    prepare_failure_text, remaining_duration, reports_start, run_self_test, sender_close,
    shutdown_reason, spawn_failure_text, summarize_run_rates, target_text, FailureLines,
    H264SendMode, PacketPacing, PipelineDone, PipelineStep, RunReport, WorkerShutdownSummary,
};
use agoralink_media::media_control::{
    CapabilityFeedback, CapabilityFeedbackTracker, Metric, ProfileAck, StreamClose,
    StreamCloseAck, CAPABILITY_FEEDBACK_VERSION, FEEDBACK_FLAG_FIRST_FRAME_RENDERED,
    FEEDBACK_FLAG_FIRST_IDR_DECODED, FEEDBACK_FLAG_PROFILE_ACKNOWLEDGED,
    FEEDBACK_FLAG_PROFILE_SETTLED, FEEDBACK_FLAG_RENDER_READY, FEEDBACK_FLAG_SAMPLE_ELIGIBLE,
    MEDIA_CONTROL_VERSION,
};
use agoralink_media::media_packet::{
    FLAG_CONFIG, FLAG_FEC, FLAG_H264_ANNEX_B, FLAG_KEYFRAME, STREAM_VIDEO,
};
use agoralink_media::pacer::{
    batch_size_for_frame, data_payload_size, frame_interval, send_failure_text, wait_until,
    FramePacing, PacedFrame, PacingCounters, SendResult, PACING_TICK,
};
use agoralink_media::real_number::Real;
use agoralink_media::receiver_stats::TimingMetric;
use agoralink_media::sender_control::{
    sender_peer_timeout_due, ControlCounters, ControlEvent, RepairOutcome, SenderControl,
    MAX_REPAIRS_PER_WINDOW,
};
use agoralink_media::sender_state::{
    adaptive_action_changes_video_structure, is_hard_fps_cap, sample_flags, update_av_delta,
    AdaptiveAction, ControllerQuery, PendingAction, PipelineControl, Refresh, SampleContents,
    SampleState, SenderState, SessionState, Switch, Totals,
};
use agoralink_media::shutdown::{AudioJoin, StopReason, WorkerJoinStatus};
use agoralink_media::transition_book::{
    ack_wait, exchange_stop_reason, next_session_id, rejection_text, AckDecision, ActionKind,
    ExchangeAction, ExchangeEvent, QualityProfile, TransitionBook,
};

const MILLISECOND: u64 = 1_000_000;
const SECOND: u64 = 1_000_000_000;

fn mbps(value: f64) -> Real {
    Real { bits: value.to_bits() }
}

fn metric(value: f32) -> Metric {
    Metric { bits: value.to_bits() }
}

fn timings() -> CloseTimings {
    CloseTimings {
        retry_initial: 100 * MILLISECOND,
        retry_max: 200 * MILLISECOND,
        handshake_timeout: SECOND,
    }
}

fn close(session_id: u64) -> StreamClose {
    StreamClose {
        version: MEDIA_CONTROL_VERSION,
        stream_id: STREAM_VIDEO,
        reason_code: 1,
        video_session_id: session_id,
        close_id: 7,
        timestamp_us: 0,
        last_frame_id: 0,
    }
}

fn profile() -> QualityProfile {
    QualityProfile { width: 1280, height: 720, fps: 30, bitrate_mbps: metric(8.0) }
}

fn state() -> SenderState<String> {
    SenderState::new(SessionState::new(17, 60, 120, 0), mbps(22.0))
}

fn feedback(session_id: u64, generation: u64, sequence: u64, flags: u32) -> CapabilityFeedback {
    CapabilityFeedback {
        version: CAPABILITY_FEEDBACK_VERSION,
        session_id,
        feedback_sequence: sequence,
        display_generation: 1,
        display_refresh_numerator: 60,
        display_refresh_denominator: 1,
        display_width: 1920,
        display_height: 1080,
        present_fps_measured: metric(60.0),
        present_interval_p95_ms: metric(17.0),
        active_render_fps: metric(60.0),
        decoder_input_fps: metric(60.0),
        decode_queue_drops_delta: 0,
        render_replacements_delta: 0,
        repair_deadline_missed_delta: 0,
        damaged_gop_delta: 0,
        packets_lost_delta: 0,
        timestamp_us: 5,
        profile_generation: generation,
        state_flags: flags,
        valid_feedback_windows: 3,
        transition_settle_windows: 3,
        transition_settle_duration_ms: 40,
        profile_transition_started_us: 0,
    }
}

fn settled_flags() -> u32 {
    FEEDBACK_FLAG_SAMPLE_ELIGIBLE
        | FEEDBACK_FLAG_RENDER_READY
        | FEEDBACK_FLAG_PROFILE_SETTLED
        | FEEDBACK_FLAG_FIRST_IDR_DECODED
        | FEEDBACK_FLAG_FIRST_FRAME_RENDERED
        | FEEDBACK_FLAG_PROFILE_ACKNOWLEDGED
}

fn summary() -> WorkerShutdownSummary {
    WorkerShutdownSummary {
        audio: "not_started",
        pacer: WorkerJoinStatus::Joined,
        control: WorkerJoinStatus::Joined,
        join_error: None,
        runtime_error: None,
        cleanup_ms: "1.000".to_string(),
        close_sent: 1,
        close_retry_count: 0,
        close_ack_received: true,
        close_handshake_timeout: false,
        peer_timeout_triggered: false,
        cleanup_deadline_ms: 3000,
        lifecycle_state: "stopped",
        retained_workers: vec![],
    }
}

#[test]
fn bitrate_only_action_is_not_a_structural_profile_change() {
    assert!(!adaptive_action_changes_video_structure(&AdaptiveAction::SetBitrate {
        bitrate_mbps: mbps(42.0),
        reason: "test".to_string(),
    }));
    assert!(adaptive_action_changes_video_structure(&AdaptiveAction::SetResolution {
        width: 1600,
        height: 900,
        reason: "test".to_string(),
    }));
    assert!(adaptive_action_changes_video_structure(&AdaptiveAction::SetFps {
        fps: 30,
        reason: "test".to_string(),
    }));
}

#[test]
fn global_rates_survive_many_profile_rebuilds() {
    let total_frames = 3_600;
    let total_bytes = 375_000_000;
    let total_seconds = 60.0;
    let profile_seconds = 2.0;
    let rates =
        summarize_run_rates(total_frames, total_bytes, total_frames - 120, total_bytes - 12_500_000);
    assert_eq!(rates.total_frames, total_frames);
    assert_eq!(rates.total_bytes, total_bytes);
    let global_fps: f64 = rates.total_frames as f64 / total_seconds;
    assert!((global_fps - 60.0).abs() < f64::EPSILON);
    let global_mbps: f64 = rates.total_bytes as f64 * 8.0 / total_seconds / 1_000_000.0;
    assert!((global_mbps - 50.0).abs() < f64::EPSILON);
    assert_eq!(rates.current_profile_frames_sent, 120);
    let profile_fps: f64 = rates.current_profile_frames_sent as f64 / profile_seconds;
    assert!((profile_fps - 60.0).abs() < f64::EPSILON);
    let profile_mbps: f64 =
        rates.current_profile_bytes_sent as f64 * 8.0 / profile_seconds / 1_000_000.0;
    assert!((profile_mbps - 50.0).abs() < f64::EPSILON);
}

#[test]
fn sender_peer_timeout_requires_screen_media_or_valid_feedback_age() {
    let timeout = 5 * SECOND;
    let ms = |value: u64| Some(value * MILLISECOND);
    assert!(!sender_peer_timeout_due(H264SendMode::Screen, ms(4_999), None, false, timeout));
    assert!(sender_peer_timeout_due(H264SendMode::Screen, ms(5_000), None, false, timeout));
    assert!(!sender_peer_timeout_due(H264SendMode::Probe, ms(30_000), None, false, timeout));
    assert!(!sender_peer_timeout_due(
        H264SendMode::Screen,
        ms(30_000),
        ms(4_999),
        false,
        timeout
    ));
    assert!(sender_peer_timeout_due(H264SendMode::Screen, ms(1_000), ms(5_000), false, timeout));
    assert!(!sender_peer_timeout_due(
        H264SendMode::Screen,
        ms(30_000),
        ms(30_000),
        true,
        timeout
    ));
}

#[test]
fn the_self_test_of_the_sender_passes() {
    assert!(run_self_test().is_ok());
}

#[test]
fn batches_fill_the_interval() {
    assert_eq!(batch_size_for_frame(0, 16_666_666, PACING_TICK), 1);
    assert_eq!(batch_size_for_frame(100, 16_666_666, 0), 100);
    assert_eq!(batch_size_for_frame(17, 16_666_666, PACING_TICK), 1);
    assert_eq!(batch_size_for_frame(18, 16_666_666, PACING_TICK), 2);
    assert_eq!(batch_size_for_frame(5, 0, PACING_TICK), 5);
    assert_eq!(frame_interval(60), 16_666_666);
    assert_eq!(frame_interval(30), 33_333_333);
    assert_eq!(wait_until(10, 10), None);
    assert_eq!(wait_until(0, MILLISECOND), Some(500_000));
    assert_eq!(wait_until(500_000, MILLISECOND), None);
}

#[test]
fn payloads_leave_room_for_headers() {
    assert_eq!(data_payload_size(1452, 20, FecMode::Off), 1452 - 38);
}

#[test]
fn a_paced_frame_is_counted() {
    let frame = PacedFrame {
        packet_count: 3,
        data_packet_count: 2,
        fec_packet_count: 1,
        fec_bytes: 50,
        frame_interval: 2 * MILLISECOND,
    };
    let mut pacing = FramePacing::start(frame, PacketPacing::Auto, 100);
    assert_eq!(pacing.start_target(), Some(100));
    let mut batches = vec![];
    while let Some(batch) = pacing.next_batch(100) {
        for _ in batch.first..batch.end {
            assert!(pacing.packet_sent(50, SendResult::Sent(50), 7));
        }
        pacing.batch_done();
        batches.push((batch.first, batch.end, batch.target, batch.late));
    }
    assert_eq!(batches, vec![(0, 2, Some(100), 0), (2, 3, Some(100 + MILLISECOND), 0)]);
    let mut counters = PacingCounters::new();
    assert!(pacing.finish(&mut counters, MILLISECOND, 9));
    assert_eq!(
        (counters.packets_sent, counters.frames_sent, counters.bytes_sent),
        (3, 1, 150)
    );
    assert_eq!(
        (counters.data_packets_sent, counters.fec_packets_sent, counters.fec_bytes_sent),
        (2, 1, 50)
    );
    assert_eq!((counters.pacing_batches, counters.pacing_batch_max), (2, 2));
    assert_eq!((counters.video_send_syscalls, counters.send_errors), (3, 0));
}

#[test]
fn a_late_batch_plans_anew_and_a_failure_ends_the_frame() {
    let frame = PacedFrame {
        packet_count: 4,
        data_packet_count: 4,
        fec_packet_count: 0,
        fec_bytes: 0,
        frame_interval: 2 * MILLISECOND,
    };
    let mut pacing = FramePacing::start(frame, PacketPacing::Batch, 0);
    let batch = pacing.next_batch(3 * MILLISECOND).unwrap();
    assert_eq!((batch.target, batch.late), (Some(3 * MILLISECOND), 3 * MILLISECOND));
    assert_eq!(pacing.overrun_ticks, 1);
    assert!(!pacing.packet_sent(10, SendResult::Sent(9), 1));
    pacing.batch_done();
    assert!(pacing.next_batch(4 * MILLISECOND).is_none());
    let mut counters = PacingCounters::new();
    assert!(!pacing.finish(&mut counters, 3 * MILLISECOND, 1));
    assert_eq!((counters.frames_sent, counters.send_errors), (0, 1));
    assert_eq!(counters.pacing_overrun_frames, 1);
    assert_eq!(
        send_failure_text("h:1", 10, SendResult::Sent(9), ""),
        "UDP short send to h:1: expected 10, sent 9"
    );
    assert_eq!(
        send_failure_text("h:1", 10, SendResult::Failed, "gone"),
        "UDP send to h:1 failed: gone"
    );
}

#[test]
fn data_packets_are_kept_for_repairs() {
    let frame = PacedFrame {
        packet_count: 3,
        data_packet_count: 2,
        fec_packet_count: 1,
        fec_bytes: 1,
        frame_interval: 1,
    };
    let pacing = FramePacing::start(frame, PacketPacing::Off, 0);
    assert!(pacing.keeps(RepairMode::Nack, 1, Some(FLAG_KEYFRAME)));
    assert!(!pacing.keeps(RepairMode::Nack, 1, Some(FLAG_FEC)));
    assert!(!pacing.keeps(RepairMode::Nack, 2, Some(0)));
    assert!(!pacing.keeps(RepairMode::Off, 0, Some(0)));
    assert!(!pacing.keeps(RepairMode::Nack, 0, None));
    assert_eq!(pacing.start_target(), None);
}

#[test]
fn a_close_of_the_session_ends_the_run() {
    let mut control = SenderControl::new(17, 0, 0);
    let event = control.on_datagram(
        &close(16).encode().unwrap(),
        17,
        false,
        RepairMode::Nack,
        timings(),
        5,
    );
    assert_eq!(event, ControlEvent::Done);
    assert_eq!(control.state.counters.stream_close_invalid, 1);
    assert!(!control.state.token.is_cancelled());
    assert_eq!(control.tracker.peer_activity_age(5), None);
    let event = control.on_datagram(
        &close(17).encode().unwrap(),
        17,
        false,
        RepairMode::Nack,
        timings(),
        6,
    );
    assert_eq!(event, ControlEvent::Acknowledge(close(17).ack()));
    control.ack_sent(true);
    assert_eq!(control.state.counters.stream_close_ack_packets_sent, 1);
    assert_eq!(control.state.token.reason(), Some(StopReason::PeerClosed));
    assert!(control.goes_on(true, 6));
    assert!(!control.goes_on(true, 6 + 10 * SECOND));
}

#[test]
fn answers_are_put_aside_for_whoever_waits() {
    let mut control = SenderControl::new(17, 0, 0);
    let ack: StreamCloseAck = close(17).ack();
    control.on_datagram(
        &ack.encode().unwrap(),
        17,
        false,
        RepairMode::Nack,
        timings(),
        1,
    );
    assert_eq!(control.close_acks, vec![ack]);
    let mut change_state = state();
    let change = change_state.next_change(99, 2, profile(), ActionKind::Resolution, 8);
    let accepted = ProfileAck::accepted(change);
    control.on_datagram(
        &accepted.encode().unwrap(),
        17,
        false,
        RepairMode::Nack,
        timings(),
        2,
    );
    assert_eq!(control.profile_acks, vec![accepted]);
    assert_eq!(control.tracker.peer_activity_age(3), Some(1));
}

#[test]
fn repairs_have_a_limit() {
    let mut control = SenderControl::new(17, 0, 0);
    assert!(control.on_requests(17, 6000, 17, 0));
    assert!(!control.on_requests(16, 1, 17, 0));
    let mut sent = 0;
    while control.admit_request() {
        control.request_done(RepairOutcome::Sent(100, true));
        sent += 1;
    }
    assert_eq!(sent, MAX_REPAIRS_PER_WINDOW);
    assert_eq!(control.state.counters.repair_rate_limited, 1);
    assert_eq!(control.state.counters.repair_send_bytes, 100 * MAX_REPAIRS_PER_WINDOW);
    assert!(control.on_requests(17, 1, 17, 2 * SECOND));
    assert!(control.admit_request());
    control.request_done(RepairOutcome::Missing(false));
    assert_eq!(control.state.counters.repair_cache_misses, 1);
}

#[test]
fn silence_ends_a_shared_screen() {
    let mut probe = SenderControl::new(17, 0, 0);
    assert!(!probe.on_silence(5, H264SendMode::Probe, SECOND, 10 * SECOND));
    let mut screen = SenderControl::new(17, 0, 0);
    assert!(!screen.on_silence(5, H264SendMode::Screen, SECOND, 10 * SECOND));
    assert!(screen.on_silence(5, H264SendMode::Screen, SECOND, 20 * SECOND));
    assert_eq!(screen.state.token.reason(), Some(StopReason::PeerTimeout));
}

#[test]
fn sessions_are_told_apart() {
    assert_eq!(next_session_id(17, 99), 99);
    assert_eq!(next_session_id(17, 17), 18);
    assert_eq!(next_session_id(u64::MAX, u64::MAX), 1);
    let mut sender = state();
    let change = sender.next_change(99, 1, profile(), ActionKind::Fps, 8);
    assert_eq!((change.old_session_id, change.new_session_id), (17, 99));
    assert_eq!((change.width, change.height, change.fps), (1280, 720, 30));
    assert_eq!(change.reason_code, 3);
    assert!(change.profile_generation > sender.session.generation);
    assert!(change.encode().is_ok());
}

#[test]
fn an_exchange_ends_once() {
    let mut tracker = CapabilityFeedbackTracker::new();
    let mut book = TransitionBook::new();
    book.begin(&mut tracker, 10 * SECOND);
    assert!(book.active);
    assert!(tracker.transition_grace_active(SECOND));
    let turn = ExchangeEvent::Turn { cancelled: false, duration_elapsed: false, send_due: true };
    assert!(matches!(
        book.on_exchange_event(&mut tracker, &turn, "announce", "await_ack"),
        ExchangeAction::SendChange
    ));
    let sent = ExchangeEvent::ChangeSent { attempt: 1, length: 65, sent: Ok(65) };
    book.on_exchange_event(&mut tracker, &sent, "announce", "await_ack");
    assert_eq!(book.mprf_packets_sent, 1);
    let ack = ExchangeEvent::Ack { decision: AckDecision::Rejected(4), rtt: 5 };
    match book.on_exchange_event(&mut tracker, &ack, "announce", "await_ack") {
        ExchangeAction::GiveUp(error) => assert_eq!(error, rejection_text(4)),
        other => panic!("expected the end of the exchange, got {other:?}"),
    }
    assert!(!book.active);
    assert!(!tracker.transition_grace_active(SECOND));
    assert_eq!(book.failure_count, 1);
    assert_eq!(book.last_failure_stage.as_deref(), Some("await_ack"));
    assert!(!book.fail_active(&mut tracker, "later", "nothing runs"));
    assert_eq!(book.failure_count, 1);
}

#[test]
fn an_exchange_stops_for_a_reason() {
    assert_eq!(exchange_stop_reason(false, false), None);
    assert_eq!(exchange_stop_reason(true, true), Some("profile-control-cancelled"));
    assert_eq!(exchange_stop_reason(false, true), Some("profile-control-duration-expired"));
    assert_eq!(rejection_text(4), "profile-control-rejected:4");
    assert_eq!(ack_wait(SECOND, 2 * SECOND, 0), 50 * MILLISECOND);
    assert_eq!(ack_wait(10, 20, 5), 5);
}

#[test]
fn only_settled_feedback_steers() {
    let mut tracker = CapabilityFeedbackTracker::new();
    let mut sender = state();
    let change = sender.next_change(99, 1, profile(), ActionKind::Resolution, 8);
    sender.book.begin(&mut tracker, 100 * SECOND);
    sender.switch_session(
        &mut tracker,
        Switch {
            change,
            kind: ActionKind::Resolution,
            keyframe_target_frames: 60,
            started_at: 10,
            frames_sent: 500,
            bytes_sent: 9000,
        },
        "resolution",
        "test",
    );
    assert_eq!(sender.session.session_id, 99);
    assert_eq!(sender.session.old_session_id, Some(17));
    assert!(!sender.receiver.sample_eligible);
    let old = feedback(99, change.profile_generation - 1, 1, settled_flags());
    assert!(!sender.transition_settles(&Some(old)));
    let refused = Err("not yet".to_string());
    let refreshed = sender.refresh(&mut tracker, Some(old), &refused, None, "ready", "stage", 20);
    assert!(matches!(refreshed, Refresh::Steady));
    assert!(!sender.receiver.sample_eligible);
    assert!(sender.book.active);
    let settled = feedback(99, change.profile_generation, 2, settled_flags());
    assert!(sender.transition_settles(&Some(settled)));
    let refreshed =
        sender.refresh(&mut tracker, Some(settled), &Ok(()), None, "ready", "stage", 30);
    assert!(matches!(refreshed, Refresh::Settled));
    assert!(!sender.book.active);
    assert!(!sender.transition_settles(&Some(settled)));
    let refreshed =
        sender.refresh(&mut tracker, Some(settled), &Ok(()), None, "ready", "stage", 40);
    assert!(matches!(refreshed, Refresh::Steady));
    assert!(sender.receiver.sample_eligible);
    assert!(matches!(sender.controller_query("none"), ControllerQuery::Sample(_)));
}

#[test]
fn an_overdue_transition_fails() {
    let mut tracker = CapabilityFeedbackTracker::new();
    let mut sender = state();
    sender.book.begin(&mut tracker, 100);
    match sender.refresh(&mut tracker, None, &Ok(()), Some("too slow"), "ready", "stage", 200) {
        Refresh::TimedOut(error) => assert_eq!(error, "too slow"),
        other => panic!("expected a timeout, got {other:?}"),
    }
    assert!(!sender.book.active);
    assert_eq!(sender.book.timeout_count, 1);
}

#[test]
fn a_change_of_bitrate_keeps_the_session() {
    let mut sender = state();
    sender.keep_action(
        None,
        Some(PendingAction {
            kind: ActionKind::Bitrate,
            bitrate_mbps: mbps(12.0),
            profile: profile(),
        }),
    );
    let target = match sender.take_control(Some(mbps(12.0)), 5) {
        PipelineControl::UpdateBitrate(target) => target,
        other => panic!("expected a change of bitrate, got {other:?}"),
    };
    assert_eq!(target, mbps(12.0));
    assert!(!sender.on_bitrate_update_result(target, &Ok(()), true, 25));
    assert_eq!(sender.session.session_id, 17);
    assert_eq!(sender.bitrate.success, Some(true));
    assert_eq!(sender.bitrate.applied_mbps, Some(mbps(12.0)));
    assert_eq!(sender.bitrate.latency, 20);
    let failed: Result<(), String> = Err("no".to_string());
    sender.on_bitrate_update_result(mbps(5.0), &failed, false, 30);
    assert_eq!(sender.bitrate.success, Some(false));
    assert_eq!(sender.bitrate.error.as_deref(), Some("no"));
    assert_eq!(sender.session.session_id, 17);
}

#[test]
fn frames_are_numbered_and_flagged() {
    let mut sender = state();
    let sample =
        SampleContents { keyframe: true, has_idr_slice: true, has_sps: true, has_pps: true };
    assert!(sender.on_encoded(sample));
    let flags = sender.on_stamped(true, true, true, 1000, true);
    assert_eq!(flags, FLAG_KEYFRAME | FLAG_H264_ANNEX_B | FLAG_CONFIG);
    sender.on_enqueued(true, 4000, 1000, 5);
    assert_eq!(sender.session.next_frame_id, 1);
    assert_eq!(sender.session.last_idr_frame_id, Some(0));
    assert_eq!(sender.samples.h264_bytes, 4000);
    assert_eq!(sample_flags(false, true, false), FLAG_H264_ANNEX_B);
    assert_eq!(sample_flags(false, false, false), 0);
}

#[test]
fn keyframe_intervals_are_judged() {
    assert_eq!(evaluate_keyframe_interval(true, 120, Some((240, 2)), 0), None);
    assert_eq!(evaluate_keyframe_interval(true, 120, Some((300, 2)), 0), None);
    assert_eq!(
        evaluate_keyframe_interval(true, 120, Some((301, 2)), 0),
        Some("observed-idr-interval-deviates")
    );
    assert_eq!(evaluate_keyframe_interval(true, 4, Some((12, 2)), 0), None);
    assert_eq!(
        evaluate_keyframe_interval(true, 120, None, 0),
        Some("insufficient-idr-observations")
    );
    assert_eq!(
        evaluate_keyframe_interval(true, 120, Some((240, 2)), 1),
        Some("forced-idr-request-failed")
    );
    assert_eq!(
        evaluate_keyframe_interval(false, 120, None, 0),
        Some("encoder-keyframe-control-unavailable")
    );
    let mut samples = SampleState::new();
    assert_eq!(observed_idr_intervals(&samples), None);
    samples.idr_interval_frames_total = 240;
    samples.idr_interval_count = 2;
    assert_eq!(observed_idr_intervals(&samples), Some((240, 2)));
}

#[test]
fn runs_end_with_a_reason() {
    assert_eq!(target_text("h", 1), "h:1");
    assert_eq!(remaining_duration(None, 5), None);
    assert_eq!(remaining_duration(Some(3), SECOND / 2), Some(3));
    assert_eq!(remaining_duration(Some(3), SECOND), Some(2));
    assert_eq!(remaining_duration(Some(3), 9 * SECOND), Some(1));
    assert_eq!(
        shutdown_reason(Some(StopReason::PeerClosed), None, true, StopReason::InternalError),
        StopReason::PeerClosed
    );
    let done = PipelineDone { reconfigure_requested: false, stopped_by_console: false };
    assert_eq!(
        shutdown_reason(None, Some(done), false, StopReason::InternalError),
        StopReason::Duration
    );
    assert!(is_expected_mft_shutdown_cancellation(StopReason::LocalStop, true));
    assert!(!is_expected_mft_shutdown_cancellation(StopReason::LocalStop, false));
    assert_eq!(
        cancelled_transition_text(StopReason::PeerClosed),
        "profile-transition-cancelled-by-peer-close"
    );
    let (result, report) = end_run(Ok(()), StopReason::Duration, &summary(), false);
    assert!(result.is_ok());
    assert_eq!(report, RunReport::Done(StopReason::Duration));
    let broken =
        WorkerShutdownSummary { join_error: Some("pacer: timed out".to_string()), ..summary() };
    let (result, report) = end_run(Ok(()), StopReason::Duration, &broken, false);
    assert!(result.is_err());
    assert!(matches!(report, RunReport::Failed(_)));
}

#[test]
fn a_close_is_told_to_the_peer_of_a_shared_screen() {
    let told = sender_close(H264SendMode::Screen, true, 1, 17, 7, 9, 100).unwrap();
    assert_eq!((told.video_session_id, told.close_id, told.timestamp_us), (17, 7, 9));
    assert_eq!(told.last_frame_id, 99);
    assert!(sender_close(H264SendMode::Probe, true, 1, 17, 7, 9, 100).is_none());
    assert!(sender_close(H264SendMode::Screen, false, 1, 17, 7, 9, 100).is_none());
}

#[test]
fn workers_that_did_not_end_are_named() {
    assert!(summary().clean());
    let failed = WorkerShutdownSummary {
        runtime_error: Some("encoder \"gone\"".to_string()),
        ..summary()
    };
    assert!(failed.join_clean());
    assert!(!failed.clean());
    assert!(failed.json_fragment().contains(r#""runtime_error":"encoder \"gone\"""#));
    assert_eq!(
        collect_join_errors(
            &AudioJoin::NotStarted,
            WorkerJoinStatus::Joined,
            WorkerJoinStatus::Joined,
            "tag",
            &vec![],
        ),
        None
    );
    let errors = collect_join_errors(
        &AudioJoin::Incomplete("late".to_string()),
        WorkerJoinStatus::TimedOut,
        WorkerJoinStatus::Panicked,
        "tag",
        &vec!["pacer".to_string()],
    )
    .unwrap();
    assert!(errors.contains("pacer"));
    assert!(spawn_failure_text("no", WorkerJoinStatus::Joined, "tag").contains("no"));
}

#[test]
fn a_pipeline_is_followed_by_the_end_or_by_another() {
    let mut tracker = CapabilityFeedbackTracker::new();
    let mut sender = state();
    sender.book.begin(&mut tracker, 100 * SECOND);
    let over = PipelineDone { reconfigure_requested: false, stopped_by_console: true };
    assert_eq!(
        pipeline_done(&mut sender, &mut tracker, "stage", over, false),
        PipelineStep::Finish
    );
    assert!(!sender.book.active);
    assert_eq!(
        sender.book.last_failure_reason.as_deref(),
        Some("profile-transition-console-stop")
    );
    assert_eq!(sender.book.last_failure_stage.as_deref(), Some("cancelled"));
    let again = PipelineDone { reconfigure_requested: true, stopped_by_console: false };
    assert_eq!(
        pipeline_done(&mut sender, &mut tracker, "stage", again, false),
        PipelineStep::NoAction
    );
    let action = PendingAction {
        kind: ActionKind::Fps,
        bitrate_mbps: mbps(8.0),
        profile: profile(),
    };
    sender.keep_action(Some(action), None);
    assert_eq!(sender.take_control(None, 1), PipelineControl::Restart);
    assert_eq!(
        pipeline_done(&mut sender, &mut tracker, "stage", again, false),
        PipelineStep::Prepare(action)
    );
    sender.book.pipeline_prepared(&Ok(()));
    assert_eq!(sender.book.prepare_success, 1);
    sender.book.pipeline_prepared(&Err("no".to_string()));
    assert_eq!(sender.book.prepare_last_error.as_deref(), Some("no"));
    change_carried_out(&mut sender);
    assert_eq!(sender.pending, None);
    assert_eq!(
        missing_action_text(),
        "capture pipeline requested reconfiguration without an adaptive action"
    );
    assert_eq!(prepare_failure_text("no"), "prepare new profile pipeline failed: no");
    assert!(is_quiet_end("profile-control-cancelled"));
    assert!(!is_quiet_end("profile-control-rejected:4"));
}

#[test]
fn failures_are_reported_for_shared_screens() {
    assert_eq!(failure_lines(H264SendMode::Probe, false), FailureLines::Nothing);
    assert_eq!(failure_lines(H264SendMode::Screen, true), FailureLines::End);
    assert_eq!(failure_lines(H264SendMode::Screen, false), FailureLines::ErrorAndEnd);
    assert!(reports_start(H264SendMode::Screen, false));
    assert!(!reports_start(H264SendMode::Screen, true));
    assert!(!reports_start(H264SendMode::Probe, false));
}

#[test]
fn intervals_are_differences_of_totals() {
    let pacing = PacingCounters { packets_sent: 10, bytes_sent: 900, ..PacingCounters::new() };
    let control = ControlCounters { repair_packets_resent: 3, ..ControlCounters::new() };
    let earlier = Totals::now(&PacingCounters::new(), &ControlCounters::new(), 1, 0);
    let now = Totals::now(&pacing, &control, 5, 2);
    let interval = now.since(&earlier);
    assert_eq!((interval.packets, interval.bytes, interval.repair_packets), (10, 900, 3));
    assert_eq!((interval.encode_lag_skips, interval.capture_dropped), (4, 2));
    let mut delta = TimingMetric::new();
    update_av_delta(&mut delta, Some(100), None);
    update_av_delta(&mut delta, Some(100), Some(350));
    assert_eq!((delta.samples, delta.max), (1, 250));
    assert!(is_hard_fps_cap("user"));
    assert!(!is_hard_fps_cap("capture"));
}
