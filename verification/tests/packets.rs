//! Media packets, frames made of them, and streams of made-up frames.

use agoralink_media::media_packet::{
    build_frame_packets, packetize_media_payload, validate_udp_payload_size, MediaPacket,
    FLAG_CONFIG, FLAG_END_OF_FRAME, FLAG_H264_ANNEX_B, FLAG_KEYFRAME, HEADER_LEN,
    LEGACY_MEDIA_PAYLOAD, LEGACY_UDP_PAYLOAD_SIZE, MAX_UDP_PAYLOAD_SIZE, MAX_VIDEO_FRAME_BYTES,
    MAX_VIDEO_PACKET_COUNT, STREAM_VIDEO,
};
use agoralink_media::reassembler::{Reassembler, FRAME_TTL};
use agoralink_media::synthetic_stream::{
    make_session_id, receiver_stats_line, sender_stats_line, SyntheticReceiver, SyntheticSender,
    WindowReport,
};

const SECOND: u64 = 1_000_000_000;

fn packet() -> MediaPacket {
    MediaPacket {
        stream_id: STREAM_VIDEO,
        flags: FLAG_END_OF_FRAME,
        session_id: 1,
        frame_id: 2,
        packet_index: 0,
        packet_count: 1,
        timestamp_ms: 3,
        payload: vec![0x41],
    }
}

fn encoded_packet_with_count(packet_count: u16) -> Vec<u8> {
    let mut bytes = packet().encode().unwrap();
    bytes[26..28].copy_from_slice(&packet_count.to_be_bytes());
    bytes
}

#[test]
fn packet_count_zero_rejected() {
    assert!(MediaPacket::decode(&encoded_packet_with_count(0)).is_err());
}

#[test]
fn packet_count_over_limit_rejected_before_allocation() {
    let over_limit = u16::try_from(MAX_VIDEO_PACKET_COUNT + 1).unwrap();
    assert!(MediaPacket::decode(&encoded_packet_with_count(over_limit)).is_err());
}

#[test]
fn max_legal_packet_count_accepted() {
    let max_legal = u16::try_from(MAX_VIDEO_PACKET_COUNT).unwrap();
    let packet = MediaPacket::decode(&encoded_packet_with_count(max_legal)).unwrap();
    assert_eq!(packet.packet_count, max_legal);
}

#[test]
fn a_packet_has_its_bytes() {
    let bytes = packet().encode().unwrap();
    assert_eq!(bytes.len(), HEADER_LEN + 1);
    assert_eq!(&bytes[..8], b"AGM1\x01\x01\x00\x02");
    assert_eq!(&bytes[8..16], &1u64.to_be_bytes());
    assert_eq!(&bytes[16..24], &2u64.to_be_bytes());
    assert_eq!(&bytes[24..28], &[0, 0, 0, 1]);
    assert_eq!(&bytes[28..36], &3u64.to_be_bytes());
    assert_eq!(&bytes[36..], &[0, 1, 0x41]);
}

#[test]
fn packets_that_break_a_rule_say_which() {
    let too_large = MediaPacket { payload: vec![0; LEGACY_MEDIA_PAYLOAD + 1], ..packet() };
    assert_eq!(too_large.encode().unwrap_err(), "payload too large: 1163");
    let uncounted = MediaPacket { packet_count: 0, ..packet() };
    assert_eq!(uncounted.encode().unwrap_err(), "packet_count must be greater than zero");
    let outside = MediaPacket { packet_index: 1, ..packet() };
    assert_eq!(
        outside.encode().unwrap_err(),
        "packet_index must be less than packet_count"
    );
    assert_eq!(MediaPacket::decode(&[0; 10]).unwrap_err(), "packet too short");
    assert_eq!(
        MediaPacket::decode(&vec![0; MAX_UDP_PAYLOAD_SIZE + 1]).unwrap_err(),
        "datagram exceeds UDP payload limit: 1473"
    );
    let mut bytes = packet().encode().unwrap();
    bytes[0] = b'X';
    assert_eq!(MediaPacket::decode(&bytes).unwrap_err(), "bad magic");
}

#[test]
fn datagram_sizes_have_bounds() {
    assert!(validate_udp_payload_size(576).is_ok());
    assert!(validate_udp_payload_size(1472).is_ok());
    assert_eq!(
        validate_udp_payload_size(575).unwrap_err(),
        "udp-payload-size must be between 576 and 1472"
    );
    assert!(validate_udp_payload_size(1473).is_err());
}

#[test]
fn a_payload_is_cut_and_joined() {
    let payload: Vec<u8> = (0..5000u32).map(|i| (i % 251) as u8).collect();
    let flags = FLAG_KEYFRAME | FLAG_CONFIG | FLAG_H264_ANNEX_B;
    let datagrams = packetize_media_payload(3, 11, 3000, &payload, flags).unwrap();
    assert_eq!(datagrams.len(), 5);
    let mut joined = Vec::new();
    for (index, datagram) in datagrams.iter().enumerate() {
        assert!(datagram.len() <= LEGACY_UDP_PAYLOAD_SIZE);
        let packet = MediaPacket::decode(datagram).unwrap();
        assert_eq!(packet.packet_index as usize, index);
        assert_eq!(packet.packet_count, 5);
        assert_eq!(packet.flags & flags == flags, index == 0);
        assert_eq!(packet.flags & FLAG_END_OF_FRAME != 0, index == 4);
        joined.extend_from_slice(&packet.payload);
    }
    assert_eq!(joined, payload);
}

#[test]
fn an_empty_payload_is_one_packet() {
    let datagrams = packetize_media_payload(3, 11, 3000, &[], 0).unwrap();
    assert_eq!(datagrams.len(), 1);
    assert!(MediaPacket::decode(&datagrams[0]).unwrap().payload.is_empty());
}

#[test]
fn frames_that_are_too_large_are_refused() {
    assert_eq!(
        build_frame_packets(1, 2, 3, MAX_VIDEO_FRAME_BYTES + 1, false).unwrap_err(),
        "frame exceeds encoded byte limit: 16777217 > 16777216"
    );
    assert_eq!(
        packetize_media_payload(1, 2, 3, &vec![0; MAX_VIDEO_FRAME_BYTES + 1], 0).unwrap_err(),
        "encoded frame exceeds byte limit: 16777217 > 16777216"
    );
}

#[test]
fn a_frame_completes_in_any_order() {
    let datagrams = build_frame_packets(1, 9, 1000, 5000, true).unwrap();
    for order in [[0, 1, 2, 3, 4], [4, 3, 2, 1, 0], [2, 0, 4, 1, 3]] {
        let mut frames = Reassembler::new(FRAME_TTL);
        for (step, index) in order.iter().enumerate() {
            let packet = MediaPacket::decode(&datagrams[*index]).unwrap();
            assert_eq!(frames.accept(packet, 7), step == 4);
        }
        assert_eq!(frames.stats().frames_complete, 1);
        assert_eq!(frames.stats().last_frame_id, 9);
        assert_eq!(frames.inflight_frames(), 0);
    }
}

#[test]
fn a_repeated_packet_completes_nothing() {
    let datagrams = build_frame_packets(1, 9, 1000, 2000, true).unwrap();
    let mut frames = Reassembler::new(FRAME_TTL);
    for _ in 0..3 {
        assert!(!frames.accept(MediaPacket::decode(&datagrams[0]).unwrap(), 1));
    }
    assert_eq!(frames.inflight_frames(), 1);
    assert!(frames.accept(MediaPacket::decode(&datagrams[1]).unwrap(), 1));
}

#[test]
fn a_frame_completes_with_its_last_index() {
    let datagrams = build_frame_packets(1, 9, 1000, 3000, true).unwrap();
    assert_eq!(datagrams.len(), 3);
    let mut frames = Reassembler::new(FRAME_TTL);
    let run = [2, 2, 0, 2, 0, 0, 1];
    for (step, index) in run.iter().enumerate() {
        let now = 5 + step as u64 * FRAME_TTL / 8;
        let packet = MediaPacket::decode(&datagrams[*index]).unwrap();
        assert_eq!(frames.accept(packet, now), step == run.len() - 1);
        frames.expire(now);
    }
    let stats = frames.stats();
    assert_eq!(stats.packets_received, 7);
    assert_eq!(stats.frames_complete, 1);
    assert_eq!(stats.last_frame_id, 9);
    assert_eq!(stats.packets_dropped_or_lost_estimate, 0);
    assert_eq!(stats.frames_incomplete_expired, 0);
    assert_eq!(frames.inflight_frames(), 0);
}

#[test]
fn an_overdue_frame_is_given_up() {
    let datagrams = build_frame_packets(2, 10, 2000, 3000, false).unwrap();
    let mut frames = Reassembler::new(1_000_000);
    frames.accept(MediaPacket::decode(&datagrams[0]).unwrap(), 5);
    frames.expire(1_000_005);
    assert_eq!(frames.inflight_frames(), 1);
    frames.expire(1_000_006);
    assert_eq!(frames.inflight_frames(), 0);
    assert_eq!(frames.stats().frames_incomplete_expired, 1);
    assert_eq!(frames.stats().packets_dropped_or_lost_estimate, 2);
}

#[test]
fn a_synthetic_stream_arrives() {
    let mut sender = SyntheticSender::new(77, 2, 3000, 0);
    let mut receiver = SyntheticReceiver::new(FRAME_TTL, 0);
    for frame in 0..3u64 {
        let packets = sender.next_packets(frame * 500).unwrap();
        for packet in &packets {
            receiver.on_datagram(packet, frame);
            sender.packet_sent(packet.len());
        }
        let first = MediaPacket::decode(&packets[0]).unwrap();
        assert_eq!(first.frame_id, frame);
        assert_eq!(first.flags & FLAG_KEYFRAME != 0, frame % 2 == 0);
        assert_eq!(sender.frame_sent(1), None);
    }
    receiver.on_datagram(b"no packet", 3);
    assert_eq!(receiver.frames.stats().frames_complete, 3);
    assert_eq!(receiver.frames.stats().packets_dropped_or_lost_estimate, 1);
    assert_eq!(sender.frames_sent, 3);
    assert_eq!(sender.packets_sent, 9);
    let bytes = 3 * (3000 + 3 * HEADER_LEN as u64);
    assert_eq!(
        receiver.tick(2 * SECOND),
        Some(WindowReport { bytes, frames: 3, elapsed: 2 * SECOND })
    );
    assert_eq!(receiver.tick(2 * SECOND + 1), None);
    assert_eq!(
        sender.frame_sent(SECOND),
        Some(WindowReport { bytes, frames: 4, elapsed: SECOND })
    );
}

#[test]
fn a_late_sender_does_not_rush() {
    let mut sender = SyntheticSender::new(1, 50, 100, 0);
    assert_eq!(sender.wait_time(0), 0);
    sender.schedule(5);
    assert_eq!(sender.next_frame_at, 20_000_000);
    assert_eq!(sender.wait_time(5), 19_999_995);
    sender.schedule(900_000_000);
    assert_eq!(sender.next_frame_at, 920_000_000);
}

#[test]
fn synthetic_streams_report() {
    assert_eq!(
        sender_stats_line(10, 2, "1.500", "30.00", "4.000"),
        r#"{"type":"MEDIA_STATS","mode":"sender","packets_sent":10,"frames_sent":2,"mbps":1.500,"fps":30.00,"target_bitrate_mbps":4.000}"#
    );
    let receiver = SyntheticReceiver::new(FRAME_TTL, 0);
    assert_eq!(
        receiver_stats_line(receiver.frames.stats(), "0.000", "0.00", 1),
        r#"{"type":"MEDIA_STATS","mode":"receiver","packets_received":0,"packets_dropped_or_lost_estimate":0,"frames_complete":0,"frames_incomplete_expired":0,"mbps":0.000,"fps":0.00,"last_frame_id":0,"inflight_frames":1}"#
    );
    assert_eq!(make_session_id(5, 1), 5 ^ (1 << 32));
}
