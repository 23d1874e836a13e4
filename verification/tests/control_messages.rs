//! Control messages and the tracking of feedback.

use agoralink_media::media_control::{
    is_capability_feedback, is_profile_ack, is_profile_change, is_stream_close,
    is_stream_close_ack, CapabilityFeedback, CapabilityFeedbackTracker, ControlError, Metric,
    ProfileAck, ProfileChange, StreamClose, StreamCloseAck, CAPABILITY_FEEDBACK_LEN,
    CAPABILITY_FEEDBACK_V1_LEN, CAPABILITY_FEEDBACK_VERSION, CAPABILITY_STALE_AFTER,
    FEEDBACK_FLAG_PROFILE_SETTLED, FEEDBACK_FLAG_RENDER_READY, FEEDBACK_FLAG_SAMPLE_ELIGIBLE,
    MEDIA_CONTROL_VERSION, PROFILE_ACK_LEN, PROFILE_CHANGE_LEN, STREAM_CLOSE_ACK_LEN,
    STREAM_CLOSE_LEN,
};
use agoralink_media::media_packet::STREAM_VIDEO;
use agoralink_media::shutdown::{CancellationToken, StopReason};

const MILLISECOND: u64 = 1_000_000;
const SECOND: u64 = 1_000_000_000;
const LOCAL_STOP_CODE: u8 = 1;
const CTRL_C_CODE: u8 = 2;

fn metric(value: f32) -> Metric {
    Metric { bits: value.to_bits() }
}

fn close() -> StreamClose {
    StreamClose {
        version: MEDIA_CONTROL_VERSION,
        stream_id: STREAM_VIDEO,
        reason_code: LOCAL_STOP_CODE,
        video_session_id: 17,
        close_id: 23,
        timestamp_us: 42,
        last_frame_id: 99,
    }
}

fn change() -> ProfileChange {
    ProfileChange {
        version: MEDIA_CONTROL_VERSION,
        old_session_id: 10,
        new_session_id: 20,
        change_sequence: 3,
        profile_generation: 4,
        width: 1280,
        height: 720,
        fps: 30,
        bitrate_mbps: metric(4.0),
        timestamp_us: 5,
        reason_code: 2,
    }
}

fn feedback(session_id: u64, feedback_sequence: u64) -> CapabilityFeedback {
    CapabilityFeedback {
        version: CAPABILITY_FEEDBACK_VERSION,
        session_id,
        feedback_sequence,
        display_refresh_denominator: 1,
        ..CapabilityFeedback::default()
    }
}

#[test]
fn malformed_and_foreign_feedback_is_rejected() {
    let now = 5 * SECOND;
    let mut tracker = CapabilityFeedbackTracker::new();
    assert!(tracker.observe(b"bad", 1, now).is_err());
    let packet = CapabilityFeedback {
        version: CAPABILITY_FEEDBACK_VERSION,
        session_id: 2,
        feedback_sequence: 1,
        display_refresh_denominator: 1,
        ..CapabilityFeedback::default()
    };
    assert!(tracker.observe(&packet.encode().unwrap(), 1, now).is_err());
}

#[test]
fn stale_sequence_and_invalid_refresh_are_rejected() {
    let now = 5 * SECOND;
    let mut tracker = CapabilityFeedbackTracker::new();
    let packet = CapabilityFeedback {
        version: CAPABILITY_FEEDBACK_VERSION,
        session_id: 11,
        feedback_sequence: 7,
        display_refresh_numerator: 60_000,
        display_refresh_denominator: 1001,
        display_width: 1920,
        display_height: 1080,
        ..CapabilityFeedback::default()
    };
    let encoded = packet.encode().unwrap();
    assert!(tracker.observe(&encoded, 11, now).unwrap());
    assert!(tracker.observe(&encoded, 11, now + MILLISECOND).is_err());

    let invalid = CapabilityFeedback {
        feedback_sequence: 8,
        display_refresh_denominator: 0,
        ..packet
    };
    assert!(invalid.encode().is_err());
}

#[test]
fn legacy_feedback_decodes_but_is_never_eligible() {
    let legacy = CapabilityFeedback {
        version: MEDIA_CONTROL_VERSION,
        session_id: 11,
        feedback_sequence: 8,
        display_refresh_numerator: 60_000,
        display_refresh_denominator: 1001,
        display_width: 1920,
        display_height: 1080,
        present_fps_measured: metric(60.0),
        active_render_fps: metric(60.0),
        decoder_input_fps: metric(60.0),
        ..CapabilityFeedback::default()
    };
    let encoded = legacy.encode().unwrap();
    assert_eq!(encoded.len(), CAPABILITY_FEEDBACK_V1_LEN);
    let decoded = CapabilityFeedback::decode(&encoded).unwrap();
    assert_eq!(decoded.version, MEDIA_CONTROL_VERSION);
    assert!(!decoded.sample_eligible());
    assert_eq!(decoded.profile_generation, 0);
    assert_eq!(decoded.state_flags, 0);
}

#[test]
fn profile_ack_round_trip_and_reserved_validation() {
    let change = ProfileChange {
        version: MEDIA_CONTROL_VERSION,
        old_session_id: 10,
        new_session_id: 20,
        change_sequence: 3,
        profile_generation: 4,
        width: 1280,
        height: 720,
        fps: 30,
        bitrate_mbps: metric(4.0),
        timestamp_us: 5,
        reason_code: 2,
    };
    let ack = ProfileAck::accepted(change);
    let bytes = ack.encode().unwrap();
    assert_eq!(ProfileAck::decode(&bytes).unwrap(), ack);
    let mut malformed = bytes;
    malformed[7] = 1;
    assert!(ProfileAck::decode(&malformed).is_err());
}

#[test]
fn profile_change_requires_monotonic_fields_and_known_reason() {
    let valid = ProfileChange {
        version: MEDIA_CONTROL_VERSION,
        old_session_id: 10,
        new_session_id: 20,
        change_sequence: 1,
        profile_generation: 1,
        width: 1280,
        height: 720,
        fps: 30,
        bitrate_mbps: metric(4.0),
        timestamp_us: 1,
        reason_code: 2,
    };
    assert!(valid.validate().is_ok());
    assert!(ProfileChange { change_sequence: 0, ..valid }.validate().is_err());
    assert!(ProfileChange { profile_generation: 0, ..valid }.validate().is_err());
    assert!(ProfileChange { reason_code: 9, ..valid }.validate().is_err());
}

#[test]
fn stream_close_ack_requires_exact_stream_session_and_close_id() {
    let close = StreamClose {
        version: MEDIA_CONTROL_VERSION,
        stream_id: STREAM_VIDEO,
        reason_code: LOCAL_STOP_CODE,
        video_session_id: 17,
        close_id: 23,
        timestamp_us: 42,
        last_frame_id: 99,
    };
    assert!(close.ack().matches(close));
    assert!(!StreamCloseAck { close_id: 24, ..close.ack() }.matches(close));
    assert!(!StreamCloseAck { video_session_id: 18, ..close.ack() }.matches(close));
    assert!(!StreamCloseAck { stream_id: 2, ..close.ack() }.matches(close));
}

#[test]
fn duplicate_stream_close_is_reackable_but_shutdown_reason_is_idempotent() {
    let close = StreamClose {
        version: MEDIA_CONTROL_VERSION,
        stream_id: STREAM_VIDEO,
        reason_code: CTRL_C_CODE,
        video_session_id: 17,
        close_id: 23,
        timestamp_us: 42,
        last_frame_id: 99,
    };
    let mut cancellation = CancellationToken::new();
    assert!(cancellation.cancel(StopReason::PeerClosed));
    assert!(!cancellation.cancel(StopReason::PeerClosed));
    assert!(close.ack().matches(close));
    assert!(close.ack().matches(close));
    assert_eq!(cancellation.reason(), Some(StopReason::PeerClosed));
}

#[test]
fn invalid_feedback_does_not_refresh_peer_activity() {
    let now = 5 * SECOND;
    let mut tracker = CapabilityFeedbackTracker::new();
    let valid = feedback(9, 1);
    tracker.observe(&valid.encode().unwrap(), 9, now).unwrap();
    let valid_at = tracker.last_valid_at();
    let invalid = CapabilityFeedback { feedback_sequence: 2, session_id: 10, ..valid };
    assert!(tracker.observe(&invalid.encode().unwrap(), 9, now + SECOND).is_err());
    assert_eq!(tracker.last_valid_at(), valid_at);
}

#[test]
fn session_rollover_separates_peer_liveness_from_profile_eligibility() {
    let start = 5 * SECOND;
    let mut tracker = CapabilityFeedbackTracker::new();
    let old_session = feedback(9, 1);
    tracker.observe(&old_session.encode().unwrap(), 9, start).unwrap();
    tracker.reset_for_session();
    assert!(tracker.profile_eligible_feedback_age(start).is_none());

    let during_rollover = start + 25 * MILLISECOND;
    let stale_profile = CapabilityFeedback { feedback_sequence: 2, ..old_session };
    assert!(tracker
        .observe(&stale_profile.encode().unwrap(), 10, during_rollover)
        .is_err());
    assert_eq!(tracker.peer_activity_age(during_rollover), Some(0));
    assert!(tracker.profile_eligible_feedback_age(during_rollover).is_none());

    tracker.begin_transition_grace(during_rollover + SECOND);
    assert!(tracker.transition_grace_active(during_rollover));
    tracker.clear_transition_grace();
    assert!(!tracker.transition_grace_active(during_rollover));
}

#[test]
fn a_stream_close_has_its_bytes() {
    let bytes = close().encode().unwrap();
    assert_eq!(bytes.len(), STREAM_CLOSE_LEN);
    assert_eq!(&bytes[..8], b"MCLS\x01\x01\x01\x00");
    assert_eq!(&bytes[8..16], &17u64.to_be_bytes());
    assert_eq!(&bytes[16..24], &23u64.to_be_bytes());
    assert_eq!(&bytes[24..32], &42u64.to_be_bytes());
    assert_eq!(&bytes[32..], &99u64.to_be_bytes());
    assert_eq!(StreamClose::decode(&bytes).unwrap(), close());
    assert!(is_stream_close(&bytes));
    assert!(!is_stream_close_ack(&bytes));
}

#[test]
fn a_stream_close_ack_has_its_bytes() {
    let bytes = close().ack().encode().unwrap();
    assert_eq!(bytes.len(), STREAM_CLOSE_ACK_LEN);
    assert_eq!(&bytes[..8], b"MCLA\x01\x01\x00\x00");
    assert_eq!(StreamCloseAck::decode(&bytes).unwrap(), close().ack());
    assert!(is_stream_close_ack(&bytes));
}

#[test]
fn a_profile_change_has_its_bytes() {
    let bytes = change().encode().unwrap();
    assert_eq!(bytes.len(), PROFILE_CHANGE_LEN);
    assert_eq!(&bytes[..4], b"MPRF");
    assert!(is_profile_change(&bytes));
    assert_eq!(ProfileChange::decode(&bytes).unwrap(), change());
    assert_eq!(ProfileAck::accepted(change()).encode().unwrap().len(), PROFILE_ACK_LEN);
    assert!(is_profile_ack(&ProfileAck::accepted(change()).encode().unwrap()));
    assert!(ProfileAck::accepted(change()).is_accepted());
}

#[test]
fn feedback_of_the_current_form_survives_the_wire() {
    let sent = CapabilityFeedback {
        profile_generation: 6,
        state_flags: FEEDBACK_FLAG_SAMPLE_ELIGIBLE | FEEDBACK_FLAG_RENDER_READY,
        valid_feedback_windows: 3,
        present_fps_measured: metric(59.94),
        ..feedback(8, 2)
    };
    let bytes = sent.encode().unwrap();
    assert_eq!(bytes.len(), CAPABILITY_FEEDBACK_LEN);
    assert!(is_capability_feedback(&bytes));
    let received = CapabilityFeedback::decode(&bytes).unwrap();
    assert_eq!(received, sent);
    assert!(received.sample_eligible());
    assert!(received.render_ready());
    assert!(!received.has_flag(FEEDBACK_FLAG_PROFILE_SETTLED));
}

#[test]
fn messages_that_break_a_rule_name_it() {
    assert_eq!(
        StreamClose { close_id: 0, ..close() }.encode().unwrap_err(),
        ControlError::StreamCloseFields
    );
    assert_eq!(StreamClose::decode(b"MCLS").unwrap_err(), ControlError::NotStreamClose);
    let mut bytes = close().encode().unwrap();
    bytes[7] = 1;
    assert_eq!(StreamClose::decode(&bytes).unwrap_err(), ControlError::StreamCloseHeader);
    assert_eq!(
        StreamCloseAck { stream_id: 0, ..close().ack() }.encode().unwrap_err(),
        ControlError::StreamCloseAckFields
    );
}

#[test]
fn refused_feedback_names_the_reason_and_is_counted() {
    let mut tracker = CapabilityFeedbackTracker::new();
    let first = feedback(4, 5).encode().unwrap();
    assert_eq!(tracker.observe(&first, 4, SECOND), Ok(true));
    assert_eq!(tracker.observe(&first, 4, SECOND), Err(ControlError::FeedbackSequence));
    let foreign = feedback(3, 9).encode().unwrap();
    assert_eq!(tracker.observe(&foreign, 4, SECOND), Err(ControlError::FeedbackOtherSession));
    assert_eq!(tracker.stats().received, 1);
    assert_eq!(tracker.stats().invalid, 2);
}

#[test]
fn feedback_grows_stale_and_that_is_counted_once() {
    let mut tracker = CapabilityFeedbackTracker::new();
    tracker.observe(&feedback(4, 5).encode().unwrap(), 4, SECOND).unwrap();
    let last_fresh = SECOND + CAPABILITY_STALE_AFTER;
    assert!(tracker.latest_fresh(last_fresh, CAPABILITY_STALE_AFTER).is_some());
    assert!(tracker.latest_fresh(last_fresh + 1, CAPABILITY_STALE_AFTER).is_none());
    assert!(tracker.latest_fresh(last_fresh + 2, CAPABILITY_STALE_AFTER).is_none());
    assert_eq!(tracker.stats().stale_events, 1);
    assert_eq!(tracker.valid_feedback_age(last_fresh), Some(CAPABILITY_STALE_AFTER));
}
