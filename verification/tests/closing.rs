//! How two ends agree that a stream is over.

use agoralink_media::close_handshake::{
    classify_incoming_stream_close, classify_short_or_nack, discard_acks,
    is_expected_udp_peer_reset, is_retryable_control_receive_error, take_ack, CloseHandshake,
    CloseReply, CloseResult, CloseStep, CloseTimings, IncomingStreamCloseDecision, PeerAddress,
    ReceiveError,
};
use agoralink_media::media_control::{StreamClose, StreamCloseAck, MEDIA_CONTROL_VERSION};
use agoralink_media::media_packet::STREAM_VIDEO;
use agoralink_media::shutdown::{CancellationToken, StopReason};

const MILLISECOND: u64 = 1_000_000;
const LOCALHOST: u32 = 0x7f00_0001;

fn test_close(close_id: u64) -> StreamClose {
    StreamClose {
        version: MEDIA_CONTROL_VERSION,
        stream_id: STREAM_VIDEO,
        reason_code: 1,
        video_session_id: 17,
        close_id,
        timestamp_us: 42,
        last_frame_id: 99,
    }
}

fn test_peer() -> PeerAddress {
    PeerAddress::V4(LOCALHOST, 55134)
}

fn close_test_config() -> CloseTimings {
    CloseTimings {
        retry_initial: 15 * MILLISECOND,
        retry_max: 30 * MILLISECOND,
        handshake_timeout: 250 * MILLISECOND,
    }
}

#[test]
fn pre_session_close_is_ignored() {
    let close = test_close(1);
    let decision = classify_incoming_stream_close(
        &close.encode().unwrap(),
        test_peer(),
        None,
        None,
        None,
    );
    assert_eq!(decision, IncomingStreamCloseDecision::RejectPreSession);
}

#[test]
fn zero_session_close_is_ignored() {
    let close = StreamClose { video_session_id: 0, ..test_close(2) };
    let decision = classify_incoming_stream_close(
        &close.encode().unwrap(),
        test_peer(),
        Some(test_peer()),
        Some(17),
        None,
    );
    assert_eq!(decision, IncomingStreamCloseDecision::RejectSession);
}

#[test]
fn foreign_peer_close_is_ignored() {
    let close = test_close(3);
    let decision = classify_incoming_stream_close(
        &close.encode().unwrap(),
        PeerAddress::V4(LOCALHOST, 55135),
        Some(test_peer()),
        Some(17),
        None,
    );
    assert_eq!(decision, IncomingStreamCloseDecision::RejectPeer);
}

#[test]
fn stale_session_close_is_ignored() {
    let close = StreamClose { video_session_id: 16, ..test_close(4) };
    let decision = classify_incoming_stream_close(
        &close.encode().unwrap(),
        test_peer(),
        Some(test_peer()),
        Some(17),
        None,
    );
    assert_eq!(decision, IncomingStreamCloseDecision::RejectSession);
}

#[test]
fn valid_close_is_acked_and_stops() {
    let close = test_close(5);
    let source = test_peer();
    assert_eq!(
        classify_incoming_stream_close(
            &close.encode().unwrap(),
            source,
            Some(source),
            Some(17),
            None,
        ),
        IncomingStreamCloseDecision::Accept(close)
    );
    let bytes = close.ack().encode().unwrap();
    assert!(StreamCloseAck::decode(&bytes).unwrap().matches(close));
    let mut cancellation = CancellationToken::new();
    assert!(cancellation.cancel(StopReason::PeerClosed));
    assert_eq!(cancellation.reason(), Some(StopReason::PeerClosed));
}

#[test]
fn duplicate_close_is_idempotent() {
    let close = test_close(6);
    let peer = test_peer();
    let mut cancellation = CancellationToken::new();
    assert!(cancellation.cancel(StopReason::PeerClosed));
    assert_eq!(
        classify_incoming_stream_close(
            &close.encode().unwrap(),
            peer,
            Some(peer),
            Some(17),
            Some((peer, close)),
        ),
        IncomingStreamCloseDecision::Duplicate(close)
    );
    assert!(!cancellation.cancel(StopReason::PeerClosed));
}

#[test]
fn another_close_after_the_first_is_invalid() {
    let peer = test_peer();
    assert_eq!(
        classify_incoming_stream_close(
            &test_close(8).encode().unwrap(),
            peer,
            Some(peer),
            Some(17),
            Some((peer, test_close(7))),
        ),
        IncomingStreamCloseDecision::RejectInvalid
    );
    assert_eq!(
        classify_incoming_stream_close(b"MCLS", peer, Some(peer), Some(17), None),
        IncomingStreamCloseDecision::RejectInvalid
    );
}

#[test]
fn short_datagram_uses_received_length() {
    let mut buffer = [0u8; 64];
    buffer[..4].copy_from_slice(b"NACK");
    for length in 0..4 {
        assert_eq!(classify_short_or_nack(&buffer[..length]), (true, false));
    }
    buffer[..4].copy_from_slice(b"NOPE");
    assert_eq!(classify_short_or_nack(&buffer[..4]), (false, false));
}

#[test]
fn reused_buffer_does_not_misclassify_short_packet() {
    let mut buffer = [0u8; 64];
    buffer[..4].copy_from_slice(b"NACK");
    assert_eq!(classify_short_or_nack(&buffer[..4]), (true, true));
    buffer[0] = b'X';
    assert_eq!(classify_short_or_nack(&buffer[..1]), (true, false));
    buffer[..4].copy_from_slice(b"MCLS");
    buffer[..2].copy_from_slice(b"OK");
    assert_eq!(classify_short_or_nack(&buffer[..2]), (true, false));
}

#[test]
fn udp_connection_reset_defers_to_liveness_for_a_known_peer() {
    assert!(is_expected_udp_peer_reset(ReceiveError::ConnectionReset, true));
    assert!(!is_expected_udp_peer_reset(ReceiveError::ConnectionReset, false));
    assert!(!is_expected_udp_peer_reset(ReceiveError::Other, true));
}

#[test]
fn control_socket_connection_reset_keeps_liveness_polling() {
    assert!(is_retryable_control_receive_error(ReceiveError::ConnectionReset));
    assert!(is_retryable_control_receive_error(ReceiveError::TimedOut));
    assert!(!is_retryable_control_receive_error(ReceiveError::Other));
}

#[test]
fn receiver_close_retries_after_socket_timeout_and_accepts_matching_ack() {
    let close = test_close(101);
    let (mut handshake, bytes) = CloseHandshake::begin(close, close_test_config(), 0).unwrap();
    let observed = StreamClose::decode(&bytes).unwrap();
    assert_eq!(handshake.next_step(0), CloseStep::Send);
    handshake.close_sent(true, 0);
    assert_eq!(handshake.next_step(0), CloseStep::Receive(15 * MILLISECOND));
    assert_eq!(handshake.next_step(15 * MILLISECOND), CloseStep::Send);
    handshake.close_sent(true, 15 * MILLISECOND);
    assert_eq!(
        handshake.next_step(35 * MILLISECOND),
        CloseStep::Receive(45 * MILLISECOND)
    );
    let ack = observed.ack().encode().unwrap();
    let result = match handshake.datagram_received(true, &ack) {
        CloseReply::Done(result) => result,
        other => panic!("expected the end of the handshake, got {other:?}"),
    };
    assert!(result.sent >= 2, "a timeout must cause a retry");
    assert!(result.retries >= 1);
    assert!(result.ack_received);
    assert!(!result.timed_out);
}

#[test]
fn receiver_close_ignores_wrong_close_id_before_matching_ack() {
    let close = test_close(202);
    let (mut handshake, bytes) = CloseHandshake::begin(close, close_test_config(), 0).unwrap();
    assert_eq!(handshake.next_step(0), CloseStep::Send);
    handshake.close_sent(true, 0);
    let observed = StreamClose::decode(&bytes).unwrap();
    let wrong = StreamCloseAck { close_id: observed.close_id + 1, ..observed.ack() };
    assert_eq!(
        handshake.datagram_received(true, &wrong.encode().unwrap()),
        CloseReply::Ignore
    );
    let result = match handshake.datagram_received(true, &observed.ack().encode().unwrap()) {
        CloseReply::Done(result) => result,
        other => panic!("expected the end of the handshake, got {other:?}"),
    };
    assert!(result.ack_received);
    assert!(!result.timed_out);
}

#[test]
fn receiver_close_ignores_full_size_media_datagram_before_ack() {
    let close = test_close(252);
    let (mut handshake, bytes) = CloseHandshake::begin(close, close_test_config(), 0).unwrap();
    assert_eq!(handshake.next_step(0), CloseStep::Send);
    handshake.close_sent(true, 0);
    let observed = StreamClose::decode(&bytes).unwrap();
    assert_eq!(
        handshake.datagram_received(true, &vec![0xA5; 1_452]),
        CloseReply::Ignore
    );
    let result = match handshake.datagram_received(true, &observed.ack().encode().unwrap()) {
        CloseReply::Done(result) => result,
        other => panic!("expected the end of the handshake, got {other:?}"),
    };
    assert!(result.ack_received);
    assert!(!result.timed_out);
}

#[test]
fn simultaneous_close_is_acknowledged_before_local_ack_arrives() {
    let close = test_close(303);
    let (mut handshake, bytes) = CloseHandshake::begin(close, close_test_config(), 0).unwrap();
    assert_eq!(handshake.next_step(0), CloseStep::Send);
    handshake.close_sent(true, 0);
    let observed = StreamClose::decode(&bytes).unwrap();
    let peer_close = test_close(404);
    let ack = match handshake.datagram_received(true, &peer_close.encode().unwrap()) {
        CloseReply::Acknowledge(ack) => ack,
        other => panic!("expected an acknowledgement, got {other:?}"),
    };
    assert!(ack.matches(peer_close));
    let result = match handshake.datagram_received(true, &observed.ack().encode().unwrap()) {
        CloseReply::Done(result) => result,
        other => panic!("expected the end of the handshake, got {other:?}"),
    };
    assert!(result.ack_received);
    assert!(!result.timed_out);
}

#[test]
fn a_silent_peer_ends_the_handshake() {
    let (mut handshake, _) = CloseHandshake::begin(test_close(9), close_test_config(), 0).unwrap();
    let mut now = 0;
    let result = loop {
        match handshake.next_step(now) {
            CloseStep::Send => handshake.close_sent(true, now),
            CloseStep::Receive(until) => now = until,
            CloseStep::Done(result) => break result,
        }
    };
    assert_eq!(now, 250 * MILLISECOND);
    assert_eq!(
        result,
        CloseResult { sent: 9, retries: 8, ack_received: false, timed_out: true }
    );
}

#[test]
fn a_close_that_cannot_be_sent_is_a_timeout() {
    let broken = StreamClose { close_id: 0, ..test_close(1) };
    assert_eq!(
        CloseHandshake::begin(broken, close_test_config(), 0).unwrap_err(),
        CloseResult { sent: 0, retries: 0, ack_received: false, timed_out: true }
    );
}

#[test]
fn inboxes_give_up_matching_acks_only() {
    let first = test_close(1);
    let second = test_close(2);
    let mut inbox = vec![first.ack(), second.ack(), first.ack()];
    assert!(take_ack(&mut inbox, second));
    assert_eq!(inbox, vec![first.ack(), first.ack()]);
    assert!(!take_ack(&mut inbox, second));
    discard_acks(&mut inbox, first);
    assert!(inbox.is_empty());
}
