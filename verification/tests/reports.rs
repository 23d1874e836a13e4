//! What sender and receiver report.

use agoralink_media::choices::{AvSyncMode, DisplayRefreshDetect, MaxFps, RepairMode};
use agoralink_media::cli::{parse_args, Command};
use agoralink_media::cli_values::FecMode;
use agoralink_media::decode_queue::{
    DecodeQueue, DecodeState, DecodeStep, DecoderSetup, VideoDimensions,
};
use agoralink_media::h264_recv_view::{
    H264RecvViewConfig, H264RecvViewMode, ReceiverWorkerShutdownSummary,
};
use agoralink_media::h264_send_probe::{
    AudioSendMode, H264SendMode, PacketPacing, RunRateSummary, WorkerShutdownSummary,
};
use agoralink_media::json::{
    json_escape, json_string_array, optional_bool_json, optional_duration_text,
    optional_json_string, u64_json_array, Fragment,
};
use agoralink_media::media_clock::MediaTimestampUs;
use agoralink_media::media_control::FeedbackTrackerStats;
use agoralink_media::pacer::PacingCounters;
use agoralink_media::playout_buffer::PlayoutBuffer;
use agoralink_media::readiness::CapabilityFeedbackSource;
use agoralink_media::real_number::Real;
use agoralink_media::receive_loop::ReceiveLoop;
use agoralink_media::receiver_report;
use agoralink_media::receiver_report::{
    audio_receiver_fragment, final_summary, receiver_error_line, receiver_repair_fragment,
    receiver_started_line, receiver_startup_failure_line, receiver_transport_fragment,
    screen_done_line, transport_progress, AudioReceiveStats, AudioReceiverFragmentTexts,
    DamageSummary, DamagedGopStats, DoneLineTexts, NetworkSnapshot, QueueSummary,
    ReassemblyStats, ReassemblySummary, ReceiverNetworkFragmentTexts, ReceiverProfileFragmentTexts,
    ReceiverRepairFragmentTexts, ReceiverTimingFragmentTexts, ReceiverTransportFragmentTexts,
    StatsLineTexts, TransportParts, TransportProgress, ViewerStats,
};
use agoralink_media::render_worker::{AvSyncState, RenderWorkerState};
use agoralink_media::sender_control::ControlCounters;
use agoralink_media::sender_report;
use agoralink_media::sender_report::{
    adaptive_metrics_fragment, audio_metrics_fragment, conversion_metrics_fragment, final_sender_summary_fragment,
    keyframe_interval_warning, keyframe_metrics_fragment, profile_transition_metrics_fragment,
    repair_metrics_fragment, sender_error_line, sender_failed_line, sender_startup_error_line,
    sender_startup_failure_line, transport_metrics_fragment, AdaptiveMetricsFragmentTexts,
    AudioMetricsFragmentTexts, CaptureCounts, Ending, ProbeDoneLineTexts, ProbeStatsLineTexts,
    ReportParts, ScreenDoneLineTexts, ScreenStatsLineTexts,
    AudioSendStats, ConversionMetricsFragmentTexts, EncoderWaits, KeyframeForceStats,
    KeyframeMetricsFragmentTexts, LatencyMetricsFragmentTexts, PacingMetricsFragmentTexts,
    ProfileTransitionMetricsFragmentTexts, RepairCacheStats, RepairMetricsFragmentTexts,
    SenderErrorLineTexts, SenderFailedLineTexts, SenderSetup, TransportMetricsFragmentTexts,
};
use agoralink_media::sender_state::{KeyframeControl, SenderState, SessionState, Totals};
use agoralink_media::shutdown::WorkerJoinStatus;
use agoralink_media::transition_book::AckDecision;

fn text(text: &str) -> String {
    text.to_string()
}

fn config() -> H264RecvViewConfig<String> {
    let args: Vec<String> =
        ["screen-recv", "--port", "55134", "--title", "a \"b\""].map(text).to_vec();
    let numbers = vec![None; args.len()];
    match parse_args(&args, &numbers, &Err(text("no quality is asked for"))) {
        Ok(Command::ScreenRecv(config)) => config,
        other => panic!("expected screen-recv command, got {other:?}"),
    }
}

fn reassembly() -> ReassemblyStats {
    ReassemblyStats {
        frames_missing_after_fec: 0,
        frames_dropped_after_fec: 0,
        reassembly_frames_active: 0,
        reassembly_packets_active: 0,
        reassembly_packet_slots_reserved: 0,
        reassembly_payload_bytes_reserved: 0,
        reassembly_budget_rejected_frames: 0,
        reassembly_oversize_frames: 0,
        reassembly_allocations_estimate: 0,
        reassembly_complete_scan_count: 0,
        frames_incomplete_expired: 2,
        fec_packets_received: 0,
        fec_frames_recovered: 0,
        fec_packets_recovered: 0,
        fec_recovery_failed_multi_missing: 0,
        fec_recovery_failed_no_parity: 0,
        fec_recovery_failed_invalid: 0,
        next_decode_frame_id: None,
        decode_gate_stalls: 0,
        decode_gate_gap_events: 0,
        frames_discarded_decode_gate: 0,
        reorder_wait_ms: 0,
        nack_requests_cancelled_by_progress: 0,
        packets_received: 90,
        packets_invalid: 1,
        packets_lost_estimate: 3,
        frames_complete: 30,
        last_frame_id: Some(31),
        bytes_received: 9000,
        fec_protected_data_packets_received: 0,
        last_damaged_frame_id: None,
    }
}

fn damage() -> DamagedGopStats {
    DamagedGopStats {
        damaged_gop_count: 1,
        frames_discarded_damaged_gop: 0,
        frames_discarded_waiting_keyframe: 0,
        waiting_keyframe_entries: 0,
        waiting_keyframe_exits: 0,
        idr_frames_received: 0,
        idr_frames_used_for_recovery: 0,
        non_idr_frames_discarded_waiting: 0,
        recovery_wait_frames_max: 0,
    }
}

fn snapshot() -> NetworkSnapshot {
    let playout = PlayoutBuffer::new(120).unwrap();
    NetworkSnapshot {
        reassembly: reassembly(),
        session_id: Some(17),
        inflight_frames: 0,
        completed_waiting: 0,
        queue: QueueSummary {
            decode_queue: 0,
            decode_queue_peak: 0,
            frames_predecode_dropped: 0,
            frames_waiting_keyframe_dropped: 0,
            keyframe_recovery_count: 0,
            last_keyframe_id: None,
            waiting_keyframe: false,
            complete_frame_queue_drops: 0,
        },
        damaged_gop: damage(),
        drop_damaged_gop: true,
        udp_recv_buffer_bytes: 4096,
        udp_recv_buffer_bytes_requested: 8192,
        playout: playout.stats(),
        playout_buffer_frames: 0,
        playout_delay_ms: 120,
        state: ReceiveLoop::new(RepairMode::Nack, 120, 1000, 0).state,
        transition: CapabilityFeedbackSource::new().transition_snapshot(),
    }
}

fn viewer() -> ViewerStats {
    ViewerStats {
        frames_decoded: 29,
        frames_decoder_input: 30,
        frames_rendered: 28,
        frames_render_skipped: 0,
        frames_decoded_not_rendered: 1,
        frames_predecode_dropped: 0,
        frames_waiting_keyframe_dropped: 0,
        keyframe_recovery_count: 0,
        decoder_errors: 0,
        decoder_resets: 0,
        decoder_configured_fps: 60,
        render_queue_peak: 1,
        decoded_frame_queue_len: 0,
        decoded_frame_queue_drops: 0,
        render_frame_copies: 0,
        render_buffer_reused: 0,
        render_buffer_generation: 0,
        nv12_y_stride: 0,
        nv12_uv_stride: 0,
        nv12_uv_offset: 0,
        nv12_allocated_height: 0,
        nv12_buffer_len: 0,
        expected_tight_len: 0,
        decoder_used_2d_buffer: false,
        video_frames_dropped_for_av_sync: 0,
        video_frames_held_for_av_sync: 0,
        av_sync_offset_samples: 0,
        video_sync_gating_enabled: false,
        av_sync_state_transitions: 0,
        av_sync_forced_release_count: 0,
        av_sync_hold_epoch_ms: 0,
        av_sync_mode: AvSyncMode::Off,
        av_sync_state: AvSyncState::Disabled,
        av_sync_bypass_reason: None,
        decoder_sample_duration_us: 0,
        display_generation: 0,
    }
}

fn setup() -> SenderSetup {
    SenderSetup {
        host: text("h\\1"),
        port: 9,
        target: text("h:9"),
        udp_send_buffer_bytes: 1,
        udp_send_buffer_bytes_requested: 2,
        udp_payload_size: 1452,
        data_payload_size: 1414,
        packet_pacing: PacketPacing::Auto,
        fec_mode: FecMode::Off,
        repair_mode: RepairMode::Nack,
        repair_cache_ms: 2000,
        audio_mode: AudioSendMode::Off,
        display_refresh_detect: DisplayRefreshDetect::Auto,
        max_fps: MaxFps::Auto,
        control_running: true,
    }
}

fn sender() -> SenderState<String> {
    let bits = 22.0f64.to_bits();
    let mut state = SenderState::new(SessionState::new(17, 60, 120, 0), Real { bits });
    state.on_started(
        KeyframeControl {
            configured: true,
            force_supported: true,
            config_method: text("gop"),
            config_applied: true,
            config_error: None,
        },
        None,
    );
    state
}

fn pacing() -> PacingCounters {
    PacingCounters { frames_sent: 30, packets_sent: 90, bytes_sent: 9000, ..PacingCounters::new() }
}

fn force() -> KeyframeForceStats {
    KeyframeForceStats {
        requests: 2,
        failures: 0,
        last_requested_frame_id: Some(5),
        last_effective_frame_id: None,
        latency_frames_max: 3,
        request_frame_ids: vec![4, 5],
        effective_frame_ids: vec![],
        latency_frames: vec![3],
    }
}

fn keyframe_texts() -> KeyframeMetricsFragmentTexts {
    KeyframeMetricsFragmentTexts {
        keyframe_interval_requested_sec: text("2.000"),
        keyframe_interval_observed_sec: text("null"),
        keyframe_interval_observed_frames_avg: text("null"),
        keyframe_force_latency_frames_avg: text("3.000"),
    }
}

fn receiver_repair_texts() -> ReceiverRepairFragmentTexts {
    ReceiverRepairFragmentTexts {
        nack_items_per_requested_frame_avg: text("1.000"),
        repair_deadline_ms_avg: text("2.000"),
        repair_deadline_ms_max: text("3.000"),
        repair_wait_ms_avg: text("4.000"),
        repair_wait_ms_max: text("5.000"),
        repair_overhead_ratio_vs_data: text("0.125"),
    }
}

fn receiver_audio_texts() -> AudioReceiverFragmentTexts {
    AudioReceiverFragmentTexts {
        audio_jitter_buffer_ms: text("20.000"),
        audio_jitter_buffer_ms_current: text("21.000"),
        audio_jitter_buffer_ms_avg: text("22.000"),
        audio_jitter_buffer_ms_max: text("23.000"),
        audio_queue_depth_ms: text("24.000"),
        audio_device_padding_ms: text("25.000"),
        audio_packet_parse_ms_avg: text("0.000026"),
        audio_packet_parse_ms_max: text("0.000027"),
        av_sync_offset_ms_avg: text("28.000"),
        av_sync_offset_ms_max: text("29.000"),
    }
}

fn receiver_transport_texts() -> ReceiverTransportFragmentTexts {
    ReceiverTransportFragmentTexts {
        network: ReceiverNetworkFragmentTexts {
            packets_per_second: text("90.00"),
            playout_delay_actual_ms_avg: text("120.500"),
            playout_delay_actual_ms_max: text("121.500"),
            decoder_input_fps: text("30.00"),
            render_output_fps: text("28.00"),
            recovery_wait_ms_avg: text("31.000"),
            recovery_wait_ms_max: text("32.000"),
            recovery_wait_frames_avg: text("33.000"),
            decode_gate_gap_to_damage_ms_avg: text("34.000"),
            decode_gate_gap_to_damage_ms_max: text("35.000"),
            video_packet_dispatch_ms_avg: text("0.000036"),
            video_packet_dispatch_ms_max: text("0.000037"),
        },
        audio: receiver_audio_texts(),
        repair: receiver_repair_texts(),
        timing: ReceiverTimingFragmentTexts {
            missing_first_detected_age_ms: text("1.100"),
            missing_first_detected_age_ms_min: text("1.200"),
            missing_first_detected_age_ms_max: text("1.300"),
            missing_first_detected_to_deadline_ms_avg: text("1.400"),
            missing_first_detected_to_deadline_ms_min: text("1.500"),
            missing_first_detected_to_deadline_ms_max: text("1.600"),
            nack_first_sent_age_ms: text("1.700"),
            nack_first_sent_age_ms_min: text("1.800"),
            nack_first_sent_age_ms_max: text("1.900"),
            first_nack_to_deadline_ms_avg: text("2.100"),
            first_nack_to_deadline_ms_min: text("2.200"),
            first_nack_to_deadline_ms_max: text("2.300"),
            repair_arrival_to_deadline_ms_avg: text("2.400"),
            repair_arrival_to_deadline_ms_min: text("2.500"),
            repair_arrival_to_deadline_ms_max: text("2.600"),
            nack_first_round_budget_ms_avg: text("2.700"),
            nack_first_round_budget_ms_min: text("2.800"),
            nack_second_round_budget_ms_avg: text("2.900"),
            nack_second_round_budget_ms_min: text("3.100"),
        },
        profile: ReceiverProfileFragmentTexts {
            receiver_refresh_hz: text("59.940"),
            receiver_present_fps_measured: text("58.000"),
            profile_target_bitrate_mbps: text("22.000"),
            new_session_first_packet_wait_ms_avg: text("0.000"),
            new_session_first_packet_wait_ms_max: text("0.000"),
            new_session_first_idr_wait_ms: text("null"),
        },
        far_audio_video_delta_ms: text("far"),
    }
}

fn received_sound() -> AudioReceiveStats {
    AudioReceiveStats {
        thread_started: true,
        playback_started: true,
        audio_playhead_valid: true,
        packets_received: 50,
        audio_packets_invalid: 0,
        audio_packets_dropped_session_mismatch: 0,
        audio_session_matched: true,
        audio_session_id: Some(17),
        expected_video_session_id: Some(17),
        packets_lost_estimate: 0,
        jitter_buffer_target_ms: 120,
        audio_playhead_timestamp_us: None,
        audio_submitted_timestamp_us: None,
        latest_audio_packet_timestamp_us: None,
        audio_samples_rendered_total: 0,
        audio_media_samples_rendered_total: 0,
        audio_media_samples_submitted_total: 0,
        audio_media_samples_audible_estimated_total: 0,
        audio_samples_queued_current: 0,
        audio_samples_dropped_for_latency: 0,
        audio_latency_drop_discontinuities: 0,
        audio_master_reanchors: 0,
        audio_device_padding_frames: 0,
        audio_device_padding_valid: false,
        audio_callback_empty_polls: 0,
        audio_real_underruns: 0,
        audio_silence_filled_frames: 0,
        audio_device_silence_filled_frames: 0,
        audio_prestart_silence_frames: 0,
        audio_poststream_silence_frames: 0,
        audio_playhead_discontinuities: 0,
        late_packets: 0,
        audio_queue_drops: 0,
        enabled: true,
        unavailable_reason: None,
        sample_rate: 48_000,
        channels: 2,
    }
}

fn done_texts() -> DoneLineTexts {
    DoneLineTexts {
        decode_ms_avg: text("1.000"),
        render_ms_avg: text("2.000"),
        duration_sec: text("5.000"),
    }
}

fn sent_sound() -> AudioSendStats {
    AudioSendStats {
        thread_started: false,
        capture_thread_started: false,
        send_thread_started: false,
        packets_sent: 0,
        bytes_sent: 0,
        capture_glitches: 0,
        capture_empty_polls: 0,
        audio_capture_qpc_available: false,
        audio_capture_qpc_errors: 0,
        audio_capture_timestamp_discontinuities: 0,
        audio_send_queue_depth_current: 0,
        audio_send_queue_depth_max: 0,
        audio_send_queue_drops: 0,
        last_audio_timestamp_us: None,
        enabled: false,
        sample_rate: 48_000,
        channels: 2,
        audio_capture_timestamp_source: text(""),
        unavailable_reason: None,
    }
}

fn transport_texts() -> TransportMetricsFragmentTexts {
    TransportMetricsFragmentTexts {
        pacing: PacingMetricsFragmentTexts {
            packets_per_second: text("90.00"),
            avg_packets_per_frame: text("3.000"),
            packet_pacing_batch_avg: text("2.500"),
            packet_pacing_late_us_avg: text("0.100"),
            packet_pacing_late_us_max: text("0.200"),
            packet_pacing_sleep_ms_avg: text("0.300"),
            video_pacing_late_us_p50: text("0.400"),
            video_pacing_late_us_p95: text("0.500"),
            video_pacing_late_us_p99: text("0.600"),
            video_send_syscall_ms_avg: text("0.000001"),
            video_send_syscall_ms_max: text("0.000002"),
            video_worker_loop_ms_avg: text("0.700"),
            video_worker_loop_ms_max: text("0.800"),
            fec_overhead_ratio: text("0.000000"),
        },
        audio: AudioMetricsFragmentTexts {
            audio_send_syscall_ms_avg: text("0.000003"),
            audio_send_syscall_ms_max: text("0.000004"),
            audio_worker_loop_ms_avg: text("0.000005"),
            audio_worker_loop_ms_max: text("0.000006"),
            av_timestamp_delta_ms_avg: text("0.900"),
            av_timestamp_delta_ms_max: text("1.000"),
        },
        repair: RepairMetricsFragmentTexts {
            repair_overhead_ratio_vs_data: text("0.010000"),
            repair_resend_packets_per_second: text("1.00"),
            repair_cache_hit_rate: text("0.500000"),
            duplicate_repair_ratio_1s: text("null"),
            duplicate_repair_ratio_run_total: text("0.250000"),
        },
        keyframe: keyframe_texts(),
        latency: LatencyMetricsFragmentTexts {
            packetize_send_ms_p50: text("1.001"),
            packetize_send_ms_p95: text("1.002"),
            packetize_send_ms_p99: text("1.003"),
            video_worker_loop_ms_p50: text("1.004"),
            video_worker_loop_ms_p95: text("1.005"),
            video_worker_loop_ms_p99: text("1.006"),
            video_send_syscall_ms_p95: text("1.000007"),
            video_send_syscall_ms_p99: text("1.000008"),
        },
    }
}

#[test]
fn text_is_escaped() {
    assert_eq!(json_escape("a\"b\\c\r\nd"), "a\\\"b\\\\c\\r\\nd");
    assert_eq!(optional_json_string(Some("x")), "\"x\"");
    assert_eq!(optional_json_string(None), "null");
    assert_eq!(optional_bool_json(Some(true)), "true");
    assert_eq!(optional_bool_json(None), "null");
    assert_eq!(u64_json_array(&[1, 20, 300]), "[1,20,300]");
    assert_eq!(u64_json_array(&[]), "[]");
    assert_eq!(json_string_array(&[text("a"), text("b\"")]), "[\"a\",\"b\\\"\"]");
    assert_eq!(optional_duration_text(None), "unlimited");
    assert_eq!(optional_duration_text(Some(12)), "12");
}

#[test]
fn members_are_written_in_turn() {
    let line = Fragment::new()
        .number("a", 1)
        .signed("b", -2)
        .flag("c", true)
        .maybe("d", None)
        .quoted("e", "\"")
        .name("f", "g")
        .maybe_quoted("h", Some("i"))
        .raw("j", "0.5")
        .fragment("\"k\":3")
        .finish_object();
    assert_eq!(
        line,
        r#"{"a":1,"b":-2,"c":true,"d":null,"e":"\"","f":"g","h":"i","j":0.5,"k":3}"#
    );
}

#[test]
fn the_receiver_reports_its_start() {
    assert_eq!(
        receiver_started_line(&config(), "\"render\":1", "\"context\":2"),
        r#"{"type":"NATIVE_SCREEN_STARTED","role":"receiver","mode":"screen-recv","bind":"0.0.0.0","port":55134,"strict_decode_order":true,"drop_damaged_gop":true,"playout_delay_ms":120,"audio_mode":"off","av_sync_mode":"off","audio_jitter_buffer_ms":120,"title":"a \"b\"","render":1,"context":2}"#
    );
}

#[test]
fn the_receiver_reports_what_kept_it_from_starting() {
    assert_eq!(
        receiver_error_line("no \"window\"", "\"context\":2"),
        r#"{"type":"NATIVE_SCREEN_ERROR","role":"receiver","mode":"screen-recv","error":"no \"window\"","context":2}"#
    );
    assert_eq!(
        receiver_startup_failure_line(
            "NATIVE_SCREEN_STOPPED",
            "startup_failure",
            &config(),
            false,
            0,
            "no",
            "\"context\":2",
        ),
        r#"{"type":"NATIVE_SCREEN_STOPPED","role":"receiver","mode":"screen-recv","reason":"startup_failure","bind":"0.0.0.0","port":55134,"frames_complete":0,"frames_decoded":0,"frames_rendered":0,"packets_received":0,"bytes_received":0,"duration_sec":0.0,"profile_transition_phase":"idle","profile_transition_active":false,"transition_timeout_count":0,"transition_failure_reason":null,"qsv_async_wait_timeouts":0,"qsv_async_wait_cancelled":0,"qsv_drain_timeouts":0,"worker_join_render":"not_started","worker_join_network":"not_started","worker_join_audio":"not_started","worker_join_all_clean":true,"retained_worker_count":0,"close_received":false,"close_ack_sent":false,"peer_timeout_triggered":false,"pending_nack_cancelled":0,"pending_repair_state":"not_started","final_complete_frames":0,"final_decoded_frames":0,"final_rendered_frames":0,"last_error":"no","cleanup_duration_ms":0.0,"context":2}"#
    );
}

fn ended(
    network: WorkerJoinStatus,
    runtime_error: Option<String>,
) -> ReceiverWorkerShutdownSummary {
    ReceiverWorkerShutdownSummary {
        render: WorkerJoinStatus::Joined,
        network,
        audio: "not_started",
        join_error: None,
        runtime_error,
        cleanup_ms: text("1.000"),
        cleanup_deadline_ms: 3_000,
        lifecycle_state: "stopped",
        retained_workers: Vec::new(),
    }
}

#[test]
fn the_receiver_names_its_last_error() {
    let late = ReceiverWorkerShutdownSummary {
        join_error: Some(text("late")),
        ..ended(WorkerJoinStatus::TimedOut, None)
    };
    let line = final_summary(&snapshot(), &viewer(), &late);
    assert!(line.contains(r#""pending_repair_state":"incomplete""#));
    assert!(line.ends_with(r#""last_error":"late""#));
    let both = ReceiverWorkerShutdownSummary { runtime_error: Some(text("broken")), ..late };
    assert!(final_summary(&snapshot(), &viewer(), &both).ends_with(r#""last_error":"broken""#));
}

#[test]
fn the_receiver_sums_up() {
    assert_eq!(
        final_summary(&snapshot(), &viewer(), &ended(WorkerJoinStatus::Joined, None)),
        r#""close_received":false,"close_ack_sent":false,"peer_timeout_triggered":false,"pending_nack_cancelled":0,"pending_repair_state":"cleared","final_complete_frames":30,"final_decoded_frames":29,"final_rendered_frames":28,"last_error":null"#
    );
    let line = screen_done_line(
        "NATIVE_SCREEN_STOPPED",
        "duration",
        &config(),
        &snapshot(),
        &viewer(),
        false,
        VideoDimensions { width: 1920, height: 1080 },
        "\"color\":1",
        "\"metadata\":2",
        "\"transport\":3",
        "\"context\":4",
        &done_texts(),
    );
    assert!(line.starts_with(
        r#"{"type":"NATIVE_SCREEN_STOPPED","role":"receiver","mode":"screen-recv","reason":"duration","bind":"0.0.0.0","port":55134,"frames_complete":30,"frames_decoded":29,"frames_rendered":28,"packets_received":90,"bytes_received":9000,"packets_lost_estimate":3,"#
    ));
    assert!(line.contains(r#""duration_sec":5.000"#));
    assert!(line.ends_with(r#""transport":3,"context":4}"#));
}

#[test]
fn the_receiver_reports_repairs() {
    let mut known = snapshot();
    known.state.dispatch.video_data_packets_received = 80;
    let fragment = receiver_repair_fragment(
        &known,
        &receiver_repair_texts(),
    );
    assert!(fragment.starts_with(
        r#""repair_mode":"nack","video_data_packets_received":80,"video_fec_packets_received":0,"#
    ));
    assert!(fragment.contains(
        r#""packet_type_dispatch_counts":{"video_data":80,"video_fec":0,"audio":0,"unknown":0,"nack_control":0}"#
    ));
    assert!(fragment.contains(r#""repair_wait_ms_max":5.000"#));
}

#[test]
fn snapshots_take_over_what_is_counted() {
    let mut known = snapshot();
    let queue = DecodeQueue::new(4);
    let playout = PlayoutBuffer::new(30).unwrap();
    let mut receiver = ReceiveLoop::new(RepairMode::Off, 30, 1000, 0);
    receiver.on_dispatched(70);
    known.update_network_snapshot(
        ReassemblySummary {
            stats: ReassemblyStats { frames_complete: 31, ..reassembly() },
            session_id: Some(18),
            inflight_frames: 2,
            completed_waiting: 1,
        },
        &queue,
        DamageSummary { stats: damage(), waiting_keyframe: true, enabled: false },
        &playout,
        receiver.state,
    );
    assert_eq!(known.reassembly.frames_complete, 31);
    assert_eq!(known.session_id, Some(18));
    assert_eq!((known.inflight_frames, known.completed_waiting), (2, 1));
    assert_eq!(known.playout_delay_ms, 30);
    assert_eq!(known.state.timing.ns_max, 70);
    assert!(!known.drop_damaged_gop);
    let mut source = CapabilityFeedbackSource::new();
    source.begin_profile_transition(18, 2, 9, 1000);
    known.write_transition_snapshot(source.transition_snapshot());
    assert!(known.transition.profile_transition_active);
    let mut stats = viewer();
    let mut decoder = DecodeState::new();
    decoder.offer_frame(1, true);
    let size = VideoDimensions { width: 16, height: 8 };
    assert_eq!(decoder.decoder_made(1, DecoderSetup::Ready(size)), DecodeStep::Decode(0));
    decoder.frame_decoded(Some(1));
    stats.sync_decoder_stats(&decoder);
    assert_eq!((stats.frames_decoded, stats.frames_decoder_input), (1, 1));
    let mut worker = RenderWorkerState::new(AvSyncMode::Conservative, true);
    worker.frame_rendered();
    stats.sync_render_worker_stats(&worker);
    assert_eq!(stats.frames_rendered, 1);
    assert_eq!(stats.av_sync_state, AvSyncState::WaitingForRenderer);
}

#[test]
fn the_sender_reports_keyframes() {
    let force = force();
    assert_eq!(
        keyframe_interval_warning(&sender(), 0),
        Some("insufficient-idr-observations")
    );
    assert_eq!(
        keyframe_metrics_fragment(
            &sender(),
            &force,
            &keyframe_texts(),
        ),
        r#""keyframe_interval_requested_sec":2.000,"keyframe_interval_target_frames":120,"keyframe_interval_observed_sec":null,"keyframe_interval_observed_frames_avg":null,"keyframe_interval_warning":"insufficient-idr-observations","keyframe_config_method":"gop","keyframe_config_applied":true,"keyframe_config_error":null,"keyframe_force_supported":true,"keyframe_force_requests":2,"keyframe_force_failures":0,"keyframe_force_last_requested_frame_id":5,"keyframe_force_last_effective_frame_id":null,"keyframe_force_request_frame_ids":[4,5],"keyframe_force_effective_frame_ids":[],"keyframe_force_latency_frames":[3],"keyframe_force_latency_frames_avg":3.000,"keyframe_force_latency_frames_max":3,"idr_frames_sent":0,"sps_pps_repeated":0"#
    );
}

#[test]
fn the_sender_sums_up() {
    assert_eq!(
        final_sender_summary_fragment(
            &sender(),
            &pacing(),
            &ControlCounters { repair_send_bytes: 70, ..ControlCounters::new() },
            &None,
            40,
            31,
            "Q0",
            Some("late"),
        ),
        r#""final_frames_captured":40,"final_frames_encoded":31,"final_frames_sent":30,"final_bytes_sent":9000,"final_repair_bytes":70,"final_profile":"Q0","active_video_session_id":17,"pending_video_session_id":null,"last_error":"late""#
    );
    assert_eq!(
        conversion_metrics_fragment(
            "\"backend\":\"cpu\"",
            &ConversionMetricsFragmentTexts {
                gpu_convert_ms_avg: text("0.000"),
                cpu_convert_ms_avg: text("1.500"),
            },
        ),
        r#""backend":"cpu","gpu_convert_ms_avg":0.000,"cpu_convert_ms_avg":1.500"#
    );
    let waits =
        EncoderWaits { async_wait_timeouts: 3, async_wait_cancelled: 1, drain_timeouts: 0 };
    let more = EncoderWaits { async_wait_timeouts: 2, async_wait_cancelled: 5, drain_timeouts: 0 };
    assert_eq!(
        waits.at_least(more),
        EncoderWaits { async_wait_timeouts: 3, async_wait_cancelled: 5, drain_timeouts: 0 }
    );
}

#[test]
fn the_sender_reports_errors() {
    assert_eq!(
        sender_error_line(
            &pacing(),
            "no \"encoder\"",
            "\"t\":1",
            "\"a\":2",
            "\"c\":3",
            &SenderErrorLineTexts { duration_sec: text("1.500") },
        ),
        r#"{"type":"NATIVE_SCREEN_ERROR","role":"sender","mode":"screen-send","error":"no \"encoder\"","frames_sent":30,"packets_sent":90,"bytes_sent":9000,"duration_sec":1.500,"t":1,"a":2,"c":3}"#
    );
    assert_eq!(
        sender_failed_line(
            "NATIVE_SCREEN_SHUTDOWN_FAILED",
            "internal_error",
            &setup(),
            &pacing(),
            1920,
            1080,
            "\"t\":1",
            "\"a\":2",
            "\"c\":3",
            &SenderFailedLineTexts {
                duration_sec: text("1.500"),
                fps: text("20.00"),
                mbps: text("0.048"),
                target_bitrate_mbps: text("22.000"),
            },
        ),
        r#"{"type":"NATIVE_SCREEN_SHUTDOWN_FAILED","role":"sender","mode":"screen-send","reason":"internal_error","host":"h\\1","port":9,"frames_sent":30,"packets_sent":90,"bytes_sent":9000,"duration_sec":1.500,"fps":20.00,"mbps":0.048,"target_bitrate_mbps":22.000,"width":1920,"height":1080,"t":1,"a":2,"c":3}"#
    );
    assert_eq!(
        sender_startup_error_line("no", "\"c\":3"),
        r#"{"type":"NATIVE_SCREEN_ERROR","role":"sender","mode":"screen-send","error":"no","c":3}"#
    );
    let line = sender_startup_failure_line(
        "NATIVE_SCREEN_SHUTDOWN_FAILED",
        "startup_failure",
        &setup(),
        "no",
        true,
        1,
        "\"c\":3",
    );
    assert!(line.contains(r#""worker_join_all_clean":false,"capture_thread_state":"retained_unjoined""#));
    assert!(line.contains(r#""retained_worker_count":1,"close_sent":false"#));
    assert!(line.ends_with(r#""last_error":"no","cleanup_duration_ms":0.0,"c":3}"#));
}

#[test]
fn the_receiver_reports_the_transport() {
    let mut known = snapshot();
    known.state.media_anchor.observe_video(MediaTimestampUs(2_000), 50);
    known.state.media_anchor.observe_audio(MediaTimestampUs(750), 60);
    known.state.repair.repair_unique_packets_received = 4;
    known.state.repair.repair_duplicate_packets_received = 5;
    let texts = receiver_transport_texts();
    let fragment = receiver_transport_fragment(
        &known,
        &viewer(),
        &received_sound(),
        Some(7),
        "\"renderer\":1",
        "\"display\":2",
        &texts,
    );
    assert!(fragment.starts_with(
        r#""udp_recv_buffer_bytes":4096,"udp_recv_buffer_bytes_requested":8192,"udp_recv_buffer_bytes_actual":4096,"packets_per_second":90.00,"udp_recv_packets_per_second":90.00,"udp_recv_loop_overruns":0,"complete_frame_queue_len":0,"#
    ));
    assert!(fragment.contains(
        r#""playout_delay_actual_ms_max":121.500,"media_clock":"instant","first_media_timestamp_us":2000,"receiver_clock_anchor_us":120050,"audio_video_timestamp_delta_ms":-1.250,"decoder_configured_fps":60,"decoder_sample_duration_us":0,"decoder_input_fps":30.00,"render_output_fps":28.00,"active_render_fps":28.00,"decode_thread_fps":30.00,"render_thread_fps":28.00,"#
    ));
    assert!(fragment.contains(r#""last_keyframe_id":7,"decoder_resets":0,"#));
    let sound = audio_receiver_fragment(&received_sound(), &viewer(), &receiver_audio_texts());
    let repair = receiver_repair_fragment(&known, &receiver_repair_texts());
    assert!(sound.starts_with(r#""audio_enabled":true,"audio_thread_started":true,"#));
    assert!(fragment.contains(&format!(
        r#""video_packet_dispatch_ms_max":0.000037,{sound},{repair},"renderer":1,"repair_unique_packets_received":4,"repair_duplicate_packets_received":5,"#
    )));
    assert!(fragment.contains(
        r#""nack_second_round_budget_ms_min":3.100,"receiver_capability_feedback_sent":0,"#
    ));
    assert!(fragment.ends_with(
        r#""new_session_first_packet_wait_ms_max":0.000,"new_session_first_idr_wait_ms":null,"display":2"#
    ));
    assert_eq!(
        transport_progress(&known, &viewer(), &ReassemblyStats { packets_received: 80, ..reassembly() }, 31, 20),
        TransportProgress { packets_received: 10, frames_decoder_input: 0, frames_rendered: 8 }
    );
}

#[test]
fn the_sender_reports_the_transport() {
    let control = ControlCounters {
        repair_unique_packets_resent: 6,
        repair_duplicate_packets_resent: 7,
        ..ControlCounters::new()
    };
    let cache = RepairCacheStats { packets: 8, bytes: 9, evictions: 10 };
    let texts = transport_texts();
    let report = |setup: &SenderSetup| {
        transport_metrics_fragment(
            setup,
            &sender(),
            &pacing(),
            &control,
            &sent_sound(),
            &cache,
            &force(),
            &texts,
        )
    };
    let fragment = report(&setup());
    assert!(fragment.starts_with(
        r#""udp_send_buffer_bytes":1,"udp_send_buffer_bytes_requested":2,"udp_send_buffer_bytes_actual":1,"udp_payload_size":1452,"packets_per_second":90.00,"avg_packets_per_frame":3.000,"max_packets_per_frame":0,"packet_pacing":"auto","packet_pacing_mode":"batch","packet_pacing_tick_ms":1.000,"packet_pacing_batch_avg":2.500,"#
    ));
    assert!(fragment.contains(r#""video_pacing_late_us_p99":0.600,"video_pacing_late_us_max":0.200,"#));
    assert!(fragment.contains(r#""keyframe_interval_sec":2.000,"keyframe_interval_applied":false,"#));
    let sound = audio_metrics_fragment(&setup(), &sender(), &sent_sound(), &texts.audio);
    let repair = repair_metrics_fragment(&setup(), &pacing(), &control, &cache, &texts.repair);
    let keyframe = keyframe_metrics_fragment(&sender(), &force(), &texts.keyframe);
    assert!(repair.contains(
        r#""repair_overhead_ratio_vs_data":0.010000,"repair_overhead_ratio_run_total":0.010000,"#
    ));
    assert!(fragment.ends_with(&format!(
        r#""audio_video_timestamp_delta_ms":null,{sound},{repair},{keyframe},"repair_unique_packets_resent":6,"repair_duplicate_packets_resent":7,"packetize_send_ms_p50":1.001,"packetize_send_ms_p95":1.002,"packetize_send_ms_p99":1.003,"video_worker_loop_ms_p50":1.004,"video_worker_loop_ms_p95":1.005,"video_worker_loop_ms_p99":1.006,"video_send_syscall_ms_p95":1.000007,"video_send_syscall_ms_p99":1.000008"#
    )));
    let unpaced = SenderSetup { packet_pacing: PacketPacing::Off, ..setup() };
    assert!(report(&unpaced).contains(r#""packet_pacing_tick_ms":0.000,"#));
}

#[test]
fn acknowledgements_that_fit_nothing_are_reported() {
    let mut state = sender();
    state.book.on_ack(AckDecision::Unmatched, 0);
    state.book.on_ack(AckDecision::Unmatched, 0);
    let fragment = profile_transition_metrics_fragment(
        &state,
        &ControlCounters {
            mprf_ack_packets_received: 6,
            mprf_ack_invalid: 3,
            ..ControlCounters::new()
        },
        &None,
        &EncoderWaits { async_wait_timeouts: 0, async_wait_cancelled: 0, drain_timeouts: 0 },
        0,
        0,
        &ProfileTransitionMetricsFragmentTexts {
            profile_transition_elapsed_ms: text("null"),
            mprf_ack_rtt_ms_avg: text("0.000"),
            mprf_ack_rtt_ms_max: text("0.000"),
        },
    );
    assert!(fragment.contains(
        r#""mprf_ack_packets_received":6,"mprf_ack_invalid":5,"mprf_ack_timeout":0,"#
    ));
}

#[test]
fn the_receiver_reports_by_its_mode() {
    let known = snapshot();
    let texts = receiver_transport_texts();
    let sound = received_sound();
    let parts = TransportParts {
        audio: &sound,
        decoder_last_keyframe_id: Some(7),
        render: "\"renderer\":1",
        display: "\"display\":2",
        texts: &texts,
    };
    let transport = receiver_transport_fragment(
        &known,
        &viewer(),
        &sound,
        Some(7),
        "\"renderer\":1",
        "\"display\":2",
        &texts,
    );
    let report = |mode: H264RecvViewMode| {
        receiver_report::stats_line(
            mode,
            true,
            &known,
            &viewer(),
            false,
            None,
            "\"color\":1",
            "\"metadata\":2",
            &parts,
            "\"context\":3",
            &StatsLineTexts {
                fps_decode: text("29.00"),
                fps_render: text("28.00"),
                mbps: text("0.072"),
                decode_ms_avg: text("1.000"),
                render_ms_avg: text("2.000"),
            },
        )
    };
    let probe = report(H264RecvViewMode::Probe);
    assert!(probe.starts_with(r#"{"type":"H264_RECV_VIEW_STATS","mode":"h264_recv_view","#));
    assert!(probe.ends_with(&format!(
        r#""width":0,"height":0,"color":1,"metadata":2,{transport}}}"#
    )));
    let screen = report(H264RecvViewMode::Screen);
    assert!(screen.starts_with(r#"{"type":"NATIVE_SCREEN_STATS","role":"receiver","#));
    assert!(screen.ends_with(&format!(
        r#""width":0,"height":0,"color":1,"metadata":2,{transport},"context":3}}"#
    )));
    let shutdown = ended(WorkerJoinStatus::Joined, Some(text("broken")));
    let summary = final_summary(&known, &viewer(), &shutdown);
    let workers = shutdown.json_fragment();
    let line = receiver_report::done_line(
        &config(),
        "internal_error",
        &known,
        &viewer(),
        false,
        VideoDimensions { width: 16, height: 8 },
        false,
        false,
        "\"color\":1",
        "\"metadata\":2",
        &parts,
        &shutdown,
        "\"context\":3",
        &done_texts(),
    );
    assert!(line.starts_with(
        r#"{"type":"NATIVE_SCREEN_SHUTDOWN_FAILED","role":"receiver","mode":"screen-recv","reason":"internal_error","#
    ));
    assert!(line.ends_with(&format!(
        r#""color":1,"metadata":2,{transport},{workers},{summary},"context":3}}"#
    )));
}

fn sender_ended(runtime_error: Option<String>) -> WorkerShutdownSummary {
    WorkerShutdownSummary {
        pacer: WorkerJoinStatus::Joined,
        control: WorkerJoinStatus::Joined,
        audio: "not_started",
        join_error: None,
        runtime_error,
        cleanup_ms: text("1.000"),
        cleanup_deadline_ms: 3_000,
        close_sent: 0,
        close_retry_count: 0,
        close_ack_received: false,
        close_handshake_timeout: false,
        peer_timeout_triggered: false,
        lifecycle_state: "stopped",
        retained_workers: Vec::new(),
    }
}

#[test]
fn the_sender_reports_by_its_mode() {
    let control = ControlCounters::new();
    let sound = sent_sound();
    let cache = RepairCacheStats { packets: 8, bytes: 9, evictions: 10 };
    let forced = force();
    let transport_texts = transport_texts();
    let adaptive_texts = AdaptiveMetricsFragmentTexts {
        receiver_refresh_hz: text("0.000"),
        receiver_present_fps: text("0.000"),
        receiver_present_interval_p95_ms: text("0.000"),
        frame_budget_ms: text("16.667"),
        capture_fps_ratio: text("1.0000"),
        encode_fps_ratio: text("0.9000"),
        receiver_fps_ratio: text("0.0000"),
        profile_change_duration_ms: text("0.000"),
        bitrate_update_requested_mbps: text("null"),
        bitrate_update_applied_mbps: text("null"),
        bitrate_reconfigure_latency_ms: text("0.000"),
        old_bitrate_bps: text("0"),
        new_bitrate_bps: text("22000000"),
        transition_settle_duration_ms: text("0.000"),
        transition: ProfileTransitionMetricsFragmentTexts {
            profile_transition_elapsed_ms: text("null"),
            mprf_ack_rtt_ms_avg: text("0.000"),
            mprf_ack_rtt_ms_max: text("0.000"),
        },
    };
    let waits = EncoderWaits { async_wait_timeouts: 4, async_wait_cancelled: 0, drain_timeouts: 0 };
    let heard = FeedbackTrackerStats { received: 3, invalid: 1, stale_events: 0 };
    let parts = ReportParts {
        control: &control,
        audio: &sound,
        cache: &cache,
        force: &forced,
        transport: &transport_texts,
        transition: &None,
        waits: &waits,
        runtime_started: 0,
        now: 0,
        feedback: &None,
        feedback_stats: &heard,
        display: "\"display\":1",
        frame_rate: "\"rate\":2",
        controller: "\"controller\":3",
        adaptive: &adaptive_texts,
        bitrate: "\"b\":4",
        conversion: "\"v\":5",
        encoder_choice: "\"e\":6",
        color: "\"c\":7",
        input_color: "\"i\":8",
        output_color: "\"o\":9",
        context: "\"x\":10",
    };
    let transport = transport_metrics_fragment(
        &setup(),
        &sender(),
        &pacing(),
        &control,
        &sound,
        &cache,
        &forced,
        &transport_texts,
    );
    let adaptive = adaptive_metrics_fragment(
        &setup(),
        &sender(),
        &control,
        &None,
        &waits,
        0,
        0,
        &None,
        &heard,
        "\"display\":1",
        "\"rate\":2",
        "\"controller\":3",
        &adaptive_texts,
    );
    assert!(adaptive.contains(r#""encode_fps_ratio":0.9000,"sender_fps_ratio":0.9000,"#));
    assert!(adaptive.contains(r#""max_fps_requested":"auto","profile_transition_phase":"idle","#));
    assert!(adaptive.ends_with(
        r#""qsv_async_wait_timeouts":4,"qsv_async_wait_cancelled":0,"qsv_drain_timeouts":0"#
    ));
    let capture = CaptureCounts {
        capture_raw_frames: 40,
        capture_latest_updates: 0,
        encode_ticks: 0,
        no_new_frame_skipped: 0,
        no_new_frame_reused: 0,
        frames_encoded: 31,
        encode_lag_skips: 0,
        target_fps: 60,
        width: 16,
        height: 8,
        capture_dropped: 0,
        capture_callback_skipped: 0,
        samples_out: 0,
    };
    let report = |mode: H264SendMode| {
        sender_report::stats_line(
            mode,
            "enc",
            &setup(),
            &sender(),
            &pacing(),
            &capture,
            &Totals::now(&PacingCounters::new(), &ControlCounters::new(), 0, 0),
            &parts,
            &ProbeStatsLineTexts {
                mbps: text("0.072"),
                target_bitrate_mbps: text("22.000"),
                raw_fps: text("60.00"),
                accepted_fps: text("59.00"),
                encode_fps: text("58.00"),
                copy_ms_avg: text("0.100"),
                convert_ms_avg: text("0.200"),
                encode_ms_avg: text("0.300"),
                packetize_send_ms_avg: text("0.400"),
            },
            &ScreenStatsLineTexts {
                mbps: text("0.072"),
                target_bitrate_mbps: text("22.000"),
                copy_ms_avg: text("0.100"),
                convert_ms_avg: text("0.200"),
                encode_ms_avg: text("0.300"),
                packetize_send_ms_avg: text("0.400"),
            },
        )
    };
    let own = r#""b":4,"v":5,"e":6,"c":7,"i":8,"o":9"#;
    let probe = report(H264SendMode::Probe);
    assert!(probe.starts_with(r#"{"type":"H264_SEND_STATS","mode":"h264_send_probe","encoder":"enc","#));
    assert!(probe.ends_with(&format!("{own},{transport},{adaptive}}}")));
    let screen = report(H264SendMode::Screen);
    assert!(screen.starts_with(r#"{"type":"NATIVE_SCREEN_STATS","role":"sender","#));
    assert!(screen.ends_with(&format!(r#"{own},{transport},{adaptive},"x":10}}"#)));
    let shutdown = sender_ended(None);
    let ending = Ending {
        shutdown: &shutdown,
        frames_captured: 40,
        frames_encoded: 31,
        profile_name: "Q0",
        last_error: None,
    };
    let summary =
        final_sender_summary_fragment(&sender(), &pacing(), &control, &None, 40, 31, "Q0", None);
    let workers = shutdown.json_fragment();
    let done = sender_report::done_line(
        H264SendMode::Screen,
        "enc",
        "duration",
        &setup(),
        &sender(),
        &pacing(),
        &capture,
        &RunRateSummary {
            total_frames: 30,
            total_bytes: 9000,
            current_profile_frames_sent: 30,
            current_profile_bytes_sent: 9000,
        },
        &parts,
        &ending,
        &ProbeDoneLineTexts {
            duration_sec: text("5.000"),
            media_duration_sec: text("5.000"),
            fps: text("6.00"),
            mbps: text("0.014"),
            current_profile_duration_sec: text("5.000"),
            current_profile_fps: text("6.00"),
            current_profile_mbps: text("0.014"),
            target_bitrate_mbps: text("22.000"),
            copy_ms_avg: text("0.100"),
            convert_ms_avg: text("0.200"),
            encode_ms_avg: text("0.300"),
            packetize_send_ms_avg: text("0.400"),
        },
        &ScreenDoneLineTexts {
            duration_sec: text("5.000"),
            fps: text("6.00"),
            mbps: text("0.014"),
            current_profile_duration_sec: text("5.000"),
            current_profile_fps: text("6.00"),
            current_profile_mbps: text("0.014"),
            target_bitrate_mbps: text("22.000"),
            copy_ms_avg: text("0.100"),
            convert_ms_avg: text("0.200"),
            encode_ms_avg: text("0.300"),
            packetize_send_ms_avg: text("0.400"),
        },
    );
    assert!(done.starts_with(r#"{"type":"NATIVE_SCREEN_STOPPED","role":"sender","mode":"screen-send","reason":"duration","#));
    assert!(done.ends_with(&format!(
        r#"{own},{transport},{adaptive},{workers},{summary},"x":10}}"#
    )));
    let broken = sender_ended(Some(text("gone")));
    let ending = Ending { shutdown: &broken, last_error: Some("gone"), ..ending };
    let failed = SenderFailedLineTexts {
        duration_sec: text("1.500"),
        fps: text("20.00"),
        mbps: text("0.048"),
        target_bitrate_mbps: text("22.000"),
    };
    let report = |ending: &Ending| {
        sender_report::failure_report(
            "internal_error",
            &setup(),
            &sender(),
            &pacing(),
            16,
            8,
            &parts,
            "\"y\":11",
            ending,
            &SenderErrorLineTexts { duration_sec: text("1.500") },
            &failed,
        )
    };
    let (told, last) = report(&ending);
    let told = told.unwrap();
    assert!(told.starts_with(
        r#"{"type":"NATIVE_SCREEN_ERROR","role":"sender","mode":"screen-send","error":"gone","#
    ));
    assert!(told.ends_with(r#""last_error":"gone","x":10}"#));
    assert!(last.starts_with(
        r#"{"type":"NATIVE_SCREEN_SHUTDOWN_FAILED","role":"sender","mode":"screen-send","reason":"internal_error","#
    ));
    assert!(last.ends_with(r#""last_error":"gone","y":11}"#));
    let (told, last) = report(&Ending { shutdown: &shutdown, last_error: None, ..ending });
    assert_eq!(told, None);
    assert!(last.starts_with(r#"{"type":"NATIVE_SCREEN_STOPPED","#));
}
