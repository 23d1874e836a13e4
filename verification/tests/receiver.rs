//! The receiving end: readiness, the decoder's queue, the renderer, repairs, and the loop
//! over the network.

use agoralink_media::choices::{AvSyncMode, RepairMode};
use agoralink_media::close_handshake::{CloseResult, PeerAddress, ReceiveError};
use agoralink_media::decode_queue::{
    DecodeQueue, DecodeQueueItem, DecodeState, DecodeStep, DecoderSetup, FramePreparation,
    VideoDimensions,
};
use agoralink_media::encoded_frame::EncodedFrame;
use agoralink_media::h264_recv_view::{
    collect_join_errors, decoder_frame_rate, end_run, report_due, run_self_test, stop_reason,
    viewer_turn, ReceiverWorkerShutdownSummary,
};
use agoralink_media::media_control::{
    Metric, ProfileAck, ProfileChange, StreamClose, FEEDBACK_FLAG_PROFILE_TRANSITION_ACTIVE,
    FEEDBACK_FLAG_SAMPLE_ELIGIBLE, MEDIA_CONTROL_VERSION,
};
use agoralink_media::media_packet::{MediaPacket, FLAG_KEYFRAME, STREAM_VIDEO};
use agoralink_media::playout_buffer::PlayoutBuffer;
use agoralink_media::readiness::{
    capability_feedback_readiness_self_test, CapabilityFeedbackSource, FeedbackMetrics,
    ReceiverMoment,
};
use agoralink_media::receive_loop::{
    AudioIngress, DatagramAction, ExpiryReport, MediaAction, MediaKey, PendingProfile,
    ProfileDecision, ReceiveLoop, MAX_DATAGRAMS_PER_TICK,
};
use agoralink_media::receiver_stats::{NackCollectionStats, TimingMetric};
use agoralink_media::render_worker::{
    video_offset_us, AvSyncDecision, AvSyncState, AvSyncTelemetry, DebugFrameDumper,
    PendingRender, RenderWorkerState,
};
use agoralink_media::repair_book::{Arrival, CompletedFrame, MissedRepairs, PacketKey, RepairBook};
use agoralink_media::shutdown::{
    combine_errors, duration_elapsed, startup_failure_text, startup_stop_reason,
    terminal_event_type, AudioJoin, CancellationToken, StopReason, WorkerJoinStatus,
};

const MILLISECOND: u64 = 1_000_000;
const SECOND: u64 = 1_000_000_000;

fn metric(value: f32) -> Metric {
    Metric { bits: value.to_bits() }
}

fn peer() -> PeerAddress {
    PeerAddress::V4(0x7f00_0001, 55134)
}

fn stranger() -> PeerAddress {
    PeerAddress::V4(0x7f00_0001, 55135)
}

fn close() -> StreamClose {
    StreamClose {
        version: MEDIA_CONTROL_VERSION,
        stream_id: STREAM_VIDEO,
        reason_code: 1,
        video_session_id: 17,
        close_id: 3,
        timestamp_us: 0,
        last_frame_id: 0,
    }
}

fn change() -> ProfileChange {
    ProfileChange {
        version: MEDIA_CONTROL_VERSION,
        old_session_id: 17,
        new_session_id: 18,
        change_sequence: 1,
        profile_generation: 2,
        width: 1280,
        height: 720,
        fps: 30,
        bitrate_mbps: metric(8.0),
        timestamp_us: 4,
        reason_code: 2,
    }
}

fn frame(frame_id: u64, keyframe: bool) -> EncodedFrame {
    EncodedFrame {
        frame_id,
        flags: if keyframe { FLAG_KEYFRAME } else { 0 },
        timestamp_ms: frame_id * 33,
        bytes: vec![0, 0, 0, 1],
    }
}

fn prepared(frame: EncodedFrame) -> FramePreparation {
    FramePreparation { was_damaged: false, still_damaged: false, frame: Some(frame) }
}

fn picture(frame_id: u64) -> PendingRender {
    PendingRender { frame_id, timestamp_us: frame_id * 33_000, width: 16, height: 8 }
}

fn key(frame_id: u64, packet_index: u16) -> PacketKey {
    PacketKey { frame_id, packet_index }
}

fn media(session_id: u64, frame_id: u64, packet_index: u16) -> MediaKey {
    MediaKey { session_id, key: key(frame_id, packet_index), flags: 0 }
}

fn started() -> ReceiveLoop {
    let mut receiver = ReceiveLoop::new(RepairMode::Nack, 120, 500, 0);
    let mut playout = PlayoutBuffer::new(0).unwrap();
    let report = ExpiryReport { frames_incomplete_expired: 0, last_damaged_frame_id: None };
    receiver.on_video(media(17, 0, 0), false, None, 1);
    receiver.on_frames(
        vec![frame(0, true)],
        peer(),
        Some(17),
        false,
        report,
        None,
        &mut playout,
        1,
    );
    receiver
}

#[test]
fn receiver_feedback_requires_readiness_and_transition_settle() {
    capability_feedback_readiness_self_test().unwrap();
}

#[test]
fn runtime_failure_does_not_pollute_worker_join_status() {
    let summary = ReceiverWorkerShutdownSummary {
        render: WorkerJoinStatus::Joined,
        network: WorkerJoinStatus::Joined,
        audio: "not_started",
        join_error: None,
        runtime_error: Some("injected render runtime failure".to_string()),
        cleanup_ms: "1.000".to_string(),
        cleanup_deadline_ms: 3_000,
        lifecycle_state: "stopped",
        retained_workers: Vec::new(),
    };
    assert!(summary.join_clean());
    assert!(!summary.runtime_completed_clean());
    assert!(!summary.clean());
    assert_eq!(terminal_event_type(summary.clean()), "NATIVE_SCREEN_SHUTDOWN_FAILED");
    let fragment = summary.json_fragment();
    assert!(fragment.contains("\"worker_join_all_clean\":true"));
    assert!(fragment.contains("\"runtime_completed_clean\":false"));
    assert!(fragment.contains("\"retained_worker_count\":0"));
    assert_eq!(end_run(&summary).unwrap_err(), "injected render runtime failure");
    let late = ReceiverWorkerShutdownSummary {
        join_error: Some("render worker shutdown: timed_out".to_string()),
        runtime_error: None,
        ..summary
    };
    assert_eq!(end_run(&late).unwrap_err(), "render worker shutdown: timed_out");
    assert!(end_run(&ReceiverWorkerShutdownSummary { join_error: None, ..late }).is_ok());
}

#[test]
fn the_self_test_of_the_receiver_passes() {
    run_self_test().unwrap();
}

#[test]
fn a_full_queue_waits_for_a_keyframe() {
    let mut queue = DecodeQueue::new(2);
    queue.enqueue_frame(prepared(frame(0, true)), 2);
    queue.enqueue_frame(prepared(frame(1, false)), 2);
    assert_eq!(queue.frame_len(), 2);
    queue.enqueue_frame(prepared(frame(2, false)), 2);
    assert!(queue.waiting_for_keyframe);
    assert_eq!(queue.frame_len(), 0);
    queue.enqueue_frame(prepared(frame(3, false)), 2);
    assert_eq!(queue.frame_len(), 0);
    queue.enqueue_frame(prepared(frame(4, true)), 2);
    assert!(!queue.waiting_for_keyframe);
    let items = queue.take_items();
    assert_eq!(items.len(), 2);
    assert!(matches!(items[0], DecodeQueueItem::Reset));
    match &items[1] {
        DecodeQueueItem::Frame(frame) => assert_eq!(frame.frame_id, 4),
        other => panic!("expected a frame, got {other:?}"),
    }
    assert_eq!(queue.frame_len(), 0);
}

#[test]
fn a_run_of_frames_stays_in_order() {
    let mut queue = DecodeQueue::new(3);
    let keyframes = [true, false, false, false, false, true, false, false, false, true, false];
    let mut longest = 0;
    for (id, keyframe) in keyframes.iter().enumerate() {
        queue.enqueue_frame(prepared(frame(id as u64, *keyframe)), 3);
        longest = longest.max(queue.frame_len());
        assert!(queue.frame_len() <= 3);
        assert_eq!(
            queue.frame_len() as u64 + queue.frames_predecode_dropped,
            id as u64 + 1
        );
        assert!(!queue.waiting_for_keyframe || queue.frame_len() == 0);
    }
    assert_eq!((longest, queue.decode_queue_peak), (3, 3));
    let items = queue.take_items();
    assert!(matches!(items[0], DecodeQueueItem::Reset));
    let kept: Vec<u64> = items[1..]
        .iter()
        .map(|item| match item {
            DecodeQueueItem::Frame(frame) => frame.frame_id,
            DecodeQueueItem::Reset => panic!("a reset stands first only"),
        })
        .collect();
    assert_eq!(kept, [9, 10]);
}

#[test]
fn a_closed_stream_lingers() {
    let mut receiver = ReceiveLoop::new(RepairMode::Nack, 120, 1000, 0);
    assert!(!receiver.only_lingers(true));
    assert!(!receiver.expects_reset(ReceiveError::ConnectionReset));
    assert!(!receiver.searches_missing(Some(17)));
    receiver.state.peer = Some(peer());
    receiver.state.last_valid_peer_activity = Some(5);
    assert!(receiver.searches_missing(Some(17)));
    assert!(!receiver.searches_missing(None));
    assert!(receiver.expects_reset(ReceiveError::ConnectionReset));
    assert!(!receiver.expects_reset(ReceiveError::Other));
    receiver.state.peer_close_linger_until = Some(9);
    assert!(receiver.only_lingers(true));
    assert!(!receiver.only_lingers(false));
    receiver.state.repair_mode = RepairMode::Off;
    assert!(!receiver.searches_missing(Some(17)));
}

#[test]
fn decoding_starts_at_a_keyframe() {
    let mut state = DecodeState::new();
    assert_eq!(state.offer_frame(1, false), DecodeStep::Drop);
    assert_eq!(state.counters.frames_waiting_keyframe_dropped, 1);
    assert_eq!(state.offer_frame(2, true), DecodeStep::MakeDecoder);
    assert_eq!(state.decoder_made(2, DecoderSetup::NoSize), DecodeStep::Drop);
    assert_eq!(state.offer_frame(3, true), DecodeStep::MakeDecoder);
    let size = VideoDimensions { width: 16, height: 8 };
    assert_eq!(state.decoder_made(3, DecoderSetup::Ready(size)), DecodeStep::Decode(0));
    state.frame_decoded(Some(1));
    assert_eq!(state.offer_frame(4, false), DecodeStep::Decode(1));
    assert_eq!(state.next_generation(), 1);
    state.frame_decoded(None);
    assert_eq!(state.offer_frame(5, false), DecodeStep::Drop);
    assert_eq!(state.counters.decoder_resets, 1);
    assert_eq!(state.counters.decoder_errors, 1);
    assert_eq!(state.counters.frames_decoded, 1);
}

#[test]
fn pictures_are_shown_or_counted() {
    let mut worker = RenderWorkerState::new(AvSyncMode::Conservative, true);
    assert_eq!(worker.av_sync_state, AvSyncState::WaitingForRenderer);
    worker.submit_render_frame(picture(1));
    worker.submit_render_frame(picture(2));
    assert_eq!(worker.frames_replaced, 1);
    let pending = worker.take_pending().unwrap();
    assert_eq!(pending, picture(2));
    assert!(!worker.apply_decision(AvSyncDecision::Hold, pending));
    assert_eq!(worker.pending, Some(picture(2)));
    let pending = worker.take_pending().unwrap();
    assert!(worker.apply_decision(AvSyncDecision::RenderNow, pending));
    worker.frame_rendered();
    assert_eq!(worker.frames_rendered, 1);
    assert!(!worker.apply_decision(AvSyncDecision::DropLateFrame, picture(3)));
    assert_eq!(worker.pending, None);
    worker.note_offset(1_000, 400, 100);
    assert_eq!(worker.av_sync_offset_us_max, 500);
    worker.apply_av_sync_telemetry(
        AvSyncMode::Conservative,
        AvSyncTelemetry {
            state: AvSyncState::Active,
            bypass_reason: None,
            state_transitions: 1,
            forced_release_count: 2,
            hold_epoch_ms: 3,
            video_frames_actually_held: 4,
            video_frames_actually_dropped: 5,
        },
    );
    assert!(worker.video_sync_gating_enabled);
    assert_eq!(worker.video_frames_dropped_for_av_sync, 5);
    worker.disable_av_sync(AvSyncMode::Off);
    assert_eq!(worker.av_sync_state, AvSyncState::Disabled);
    assert_eq!(video_offset_us(250, 100), 150_000);
    assert_eq!(video_offset_us(50, 100), 0);
}

#[test]
fn pictures_are_dumped_up_to_a_limit() {
    let mut dumper = DebugFrameDumper::new(true, 2);
    assert_eq!(dumper.next_dump(), Some(1));
    assert_eq!(dumper.next_dump(), Some(2));
    assert_eq!(dumper.next_dump(), None);
    assert_eq!(DebugFrameDumper::new(false, 2).next_dump(), None);
}

#[test]
fn repairs_are_counted_once() {
    let mut book = RepairBook::new();
    assert_eq!(book.packet_arrived(key(1, 0), 5), Arrival::Unrequested);
    book.request(&[key(1, 0), key(1, 1), key(2, 0)], 10);
    assert_eq!(book.packet_arrived(key(1, 0), 15), Arrival::Requested);
    assert_eq!(book.packet_arrived(key(1, 0), 16), Arrival::Repeated);
    assert_eq!(
        book.frame_completed(1, 30),
        Some(CompletedFrame { wait: 20, cancelled: 1 })
    );
    assert_eq!(book.frame_completed(1, 31), None);
    assert_eq!(
        book.frames_missed(2, 50),
        MissedRepairs { frames: 1, total_wait: 40, longest_wait: 40 }
    );
    book.forget_old(10 * SECOND);
    assert_eq!(book.packet_arrived(key(1, 0), 10 * SECOND), Arrival::Unrequested);
    book.request(&[key(5, 0)], 11 * SECOND);
    book.clear();
    assert_eq!(book.packet_arrived(key(5, 0), 12 * SECOND), Arrival::Unrequested);
}

#[test]
fn timings_are_gathered() {
    let mut metric = TimingMetric::new();
    metric.observe(5);
    metric.observe(3);
    assert_eq!((metric.samples, metric.total, metric.min, metric.max), (2, 8, 3, 5));
    let mut other = TimingMetric::new();
    other.observe(9);
    metric.merge(other);
    assert_eq!((metric.samples, metric.total, metric.min, metric.max), (3, 17, 3, 9));
}

#[test]
fn the_peer_of_a_stream_is_pinned() {
    let mut receiver = started();
    assert_eq!(receiver.state.peer, Some(peer()));
    assert_eq!(
        receiver.on_datagram(&close().encode().unwrap(), stranger(), Some(17), false, 5, SECOND),
        DatagramAction::Ignore
    );
    assert_eq!(receiver.state.dispatch.stream_close_rejected_peer, 1);
    assert_eq!(
        receiver.on_datagram(&close().encode().unwrap(), peer(), Some(17), false, 6, SECOND),
        DatagramAction::AcknowledgeClose { ack: close().ack(), stop: true }
    );
    receiver.on_close_ack_sent(true);
    assert_eq!(receiver.state.dispatch.stream_close_ack_sent, 1);
    assert_eq!(
        receiver.on_datagram(&close().encode().unwrap(), peer(), Some(17), true, 7, SECOND),
        DatagramAction::AcknowledgeClose { ack: close().ack(), stop: false }
    );
    assert_eq!(receiver.state.dispatch.stream_close_duplicate, 1);
    assert!(receiver.goes_on(true, 7));
    assert!(!receiver.goes_on(true, 10 * SECOND));
}

#[test]
fn short_datagrams_and_sounds_are_told_apart() {
    let mut receiver = started();
    assert_eq!(
        receiver.on_datagram(&[7; 100], peer(), Some(17), false, 5, SECOND),
        DatagramAction::OfferToAudio
    );
    assert!(!receiver.on_audio(AudioIngress::Accepted));
    assert!(receiver.on_audio(AudioIngress::NotAudio));
    assert_eq!(receiver.state.dispatch.audio_packets_received, 1);
    assert_eq!(
        receiver.on_media(&[7; 100], peer(), Some(17), None),
        MediaAction::Ignore
    );
    assert_eq!(receiver.state.dispatch.unknown_packets_received, 1);
    assert_eq!(receiver.on_media(b"NAC", peer(), Some(17), None), MediaAction::Ignore);
    assert_eq!(receiver.state.dispatch.nack_control_packets_received, 0);
    assert_eq!(receiver.on_media(b"NACK", peer(), Some(17), None), MediaAction::Ignore);
    assert_eq!(receiver.state.dispatch.nack_control_packets_received, 1);
    assert_eq!(receiver.state.dispatch.unknown_packets_received, 3);
    assert_eq!(
        receiver.on_media(&[7; 100], peer(), Some(17), Some(media(17, 1, 0))),
        MediaAction::Dispatch
    );
}

#[test]
fn a_profile_begins_with_its_first_packet() {
    let mut receiver = started();
    assert_eq!(
        receiver.on_datagram(&change().encode().unwrap(), peer(), Some(17), false, 5, SECOND),
        DatagramAction::CheckProfileChange(change())
    );
    let ack = ProfileAck::accepted(change());
    assert_eq!(receiver.on_profile_decision(ProfileDecision::Ack(ack), 6), Some(ack));
    assert_eq!(receiver.on_profile_decision(ProfileDecision::Refused, 6), None);
    assert_eq!(
        receiver.on_media(&[7; 100], peer(), Some(17), Some(media(18, 0, 0))),
        MediaAction::Ignore
    );
    let packet = MediaPacket {
        stream_id: STREAM_VIDEO,
        flags: 0,
        session_id: 18,
        frame_id: 0,
        packet_index: 0,
        packet_count: 1,
        timestamp_ms: 0,
        payload: vec![1],
    };
    assert_eq!(
        receiver.on_media(&packet.encode().unwrap(), peer(), Some(17), Some(media(18, 0, 0))),
        MediaAction::Activate(18)
    );
    let mut queue = DecodeQueue::new(4);
    queue.enqueue_frame(prepared(frame(1, true)), 4);
    let mut playout = PlayoutBuffer::new(10).unwrap();
    let mut source = CapabilityFeedbackSource::new();
    let pending = PendingProfile { change: change(), created_at: 5, expires_at: SECOND };
    assert!(receiver.activate(
        Some(pending),
        0,
        false,
        &mut queue,
        &mut playout,
        &mut source,
        10,
        1_000,
        5 * SECOND,
    ));
    assert_eq!(receiver.state.profile.generation, 2);
    assert_eq!(
        (receiver.state.profile.target_width, receiver.state.profile.target_height),
        (1280, 720)
    );
    assert_eq!(queue.frame_len(), 0);
    assert!(source.transition_snapshot().profile_transition_active);
    assert_ne!(source.state_flags() & FEEDBACK_FLAG_PROFILE_TRANSITION_ACTIVE, 0);
    assert_eq!(source.state_flags() & FEEDBACK_FLAG_SAMPLE_ELIGIBLE, 0);
    source.cancel_profile_transition();
    assert!(!source.transition_snapshot().profile_transition_active);
}

#[test]
fn silence_is_noticed_once() {
    let mut receiver = started();
    assert!(!receiver.check_timeout(SECOND, 5 * SECOND));
    assert!(receiver.check_timeout(6 * SECOND, 5 * SECOND));
    assert!(receiver.state.dispatch.peer_timeout_triggered);
}

#[test]
fn feedback_is_sent_in_turn() {
    let mut receiver = started();
    let metrics = FeedbackMetrics {
        present_fps_measured: metric(60.0),
        present_interval_p95_ms: metric(17.0),
        active_render_fps: metric(60.0),
        decoder_input_fps: metric(60.0),
    };
    let mut source = CapabilityFeedbackSource::new();
    source.packets_lost_total = 4;
    let (to, first) = receiver
        .next_feedback(source, Some(17), metrics, 9, 600 * MILLISECOND)
        .expect("feedback is due");
    assert_eq!(to, peer());
    assert_eq!((first.session_id, first.packets_lost_delta), (17, 4));
    receiver.on_feedback_sent(source, true);
    assert!(receiver.next_feedback(source, Some(17), metrics, 9, 700 * MILLISECOND).is_none());
    let (_, second) = receiver
        .next_feedback(source, Some(17), metrics, 9, 1_300 * MILLISECOND)
        .expect("feedback is due again");
    assert_eq!(second.packets_lost_delta, 0);
    assert_eq!(second.feedback_sequence, first.feedback_sequence + 1);
}

#[test]
fn missing_packets_are_asked_for() {
    let mut receiver = started();
    let found = NackCollectionStats { candidate_frames: 1, ..NackCollectionStats::new() };
    assert!(!receiver.on_missing(found, &[], 5));
    assert!(receiver.on_missing(found, &[key(3, 0), key(3, 1)], 6));
    assert_eq!(receiver.state.repair.nack_candidate_frames, 2);
    receiver.on_nack_sent(2, true);
    assert_eq!(receiver.state.repair.nack_items_sent, 2);
    receiver.on_video(media(17, 3, 0), true, Some(5), 20);
    assert_eq!(receiver.state.repair.repair_packets_received, 1);
    receiver.on_drained(MAX_DATAGRAMS_PER_TICK);
    assert_eq!(receiver.state.udp_recv_loop_overruns, 1);
    receiver.on_dispatched(9);
    assert_eq!(receiver.state.timing.ns_max, 9);
    receiver.forget_old_repairs(10 * SECOND);
}

#[test]
fn the_end_is_told_to_the_peer() {
    let mut receiver = started();
    let (to, close) = receiver
        .finish(true, 2, Some(17), Some(9), 5, 77, SECOND)
        .expect("the peer is told");
    assert_eq!(to, peer());
    assert_eq!((close.video_session_id, close.last_frame_id, close.reason_code), (17, 9, 2));
    receiver.on_closed(CloseResult { sent: 2, retries: 1, ack_received: true, timed_out: false });
    assert_eq!(receiver.state.dispatch.stream_close_sent, 2);
    assert!(receiver.state.dispatch.stream_close_ack_received);
    assert!(started().finish(false, 2, Some(17), None, 5, 77, SECOND).is_none());
    let mut unheard = ReceiveLoop::new(RepairMode::Nack, 120, 500, 0);
    assert!(unheard.finish(true, 2, Some(17), None, 5, 77, SECOND).is_none());
}

#[test]
fn windows_need_a_session() {
    let source = CapabilityFeedbackSource::new();
    let moment = ReceiverMoment {
        session_id: None,
        profile_generation: 0,
        render_initialized: true,
        frames_rendered_total: 5,
        first_idr_decoded: true,
        now: 1,
        wall_us: 1,
        hard_deadline: SECOND,
    };
    let mut updated = source;
    updated.update_readiness(moment, None);
    assert!(!updated.transition_snapshot().feedback_sample_eligible);
    assert_eq!(updated.state_flags() & FEEDBACK_FLAG_SAMPLE_ELIGIBLE, 0);
}

#[test]
fn the_viewer_ends_for_a_reason() {
    let mut token = CancellationToken::new();
    assert!(viewer_turn(&mut token, false, 0, SECOND, Some(2), false));
    assert!(!viewer_turn(&mut token, false, 0, 2 * SECOND, Some(2), false));
    assert_eq!(token.reason(), Some(StopReason::Duration));
    let mut token = CancellationToken::new();
    assert!(!viewer_turn(&mut token, false, 0, 0, None, true));
    assert_eq!(token.reason(), Some(StopReason::WindowClosed));
    assert_eq!(stop_reason(None, false, None), StopReason::Duration);
    assert_eq!(
        stop_reason(None, false, Some(StopReason::InternalError)),
        StopReason::InternalError
    );
    assert!(duration_elapsed(0, 2 * SECOND, Some(2)));
    assert!(!duration_elapsed(0, 2 * SECOND, None));
    assert_eq!(decoder_frame_rate(0), 1);
    assert_eq!(decoder_frame_rate(60), 60);
    assert!(report_due(0, SECOND, 1000));
    assert!(!report_due(0, SECOND - 1, 1000));
}

#[test]
fn errors_of_workers_are_joined() {
    assert_eq!(
        collect_join_errors(
            WorkerJoinStatus::Joined,
            WorkerJoinStatus::Joined,
            &AudioJoin::Joined,
            "tag",
            &vec![],
        ),
        None
    );
    assert!(collect_join_errors(
        WorkerJoinStatus::TimedOut,
        WorkerJoinStatus::Joined,
        &AudioJoin::Joined,
        "tag",
        &vec![],
    )
    .unwrap()
    .starts_with("render"));
    assert_eq!(combine_errors(&vec![]), None);
    assert_eq!(
        combine_errors(&vec!["a".to_string(), "b".to_string()]).as_deref(),
        Some("a; b")
    );
    assert_eq!(startup_stop_reason(true), StopReason::CtrlC);
    assert_eq!(startup_stop_reason(false), StopReason::StartupFailure);
    assert!(startup_failure_text("no window", None, None, "tag").starts_with("no window"));
    assert_eq!(terminal_event_type(true), "NATIVE_SCREEN_STOPPED");
}
