//! The self-test of the program.

use vstd::prelude::*;

use crate::cli_self_test::command_line_self_test;
use crate::h264_recv_view;
use crate::h264_send_probe;
use crate::json;
use crate::json::{Fragment, Member, Value};
use crate::media_clock;
use crate::media_control;
use crate::media_packet;
use crate::media_packet::{
    build_frame_packets, packetize_media_payload, MediaPacket, FLAG_CONFIG, FLAG_END_OF_FRAME,
    FLAG_H264_ANNEX_B, FLAG_KEYFRAME, HEADER_LEN, LEGACY_UDP_PAYLOAD_SIZE, STREAM_VIDEO,
};
use crate::nv12_synthetic;
use crate::nv12_to_bgra;
use crate::playout_buffer;
use crate::reassembler;
use crate::reassembler::{Reassembler, FRAME_TTL};
use crate::text;

verus! {

/// Whether two pieces of memory hold the same bytes.
pub fn same_bytes(a: &[u8], b: &[u8]) -> (r: bool)
    ensures
        r == (a@ == b@),
{
    if a.len() != b.len() {
        return false;
    }
    let mut i: usize = 0;
    while i < a.len()
        invariant
            a@.len() == b@.len(),
            i <= a@.len(),
            a@.take(i as int) =~= b@.take(i as int),
        decreases a@.len() - i,
    {
        if a[i] != b[i] {
            return false;
        }
        i = i + 1;
        assert(a@.take(i as int) =~= a@.take(i - 1).push(a@[i - 1]));
        assert(b@.take(i as int) =~= b@.take(i - 1).push(b@[i - 1]));
    }
    assert(a@.take(a@.len() as int) =~= a@);
    assert(b@.take(b@.len() as int) =~= b@);
    true
}

/// Checks that the pictures of the test pattern have their size, and move.
pub fn picture_self_test() -> (r: Result<(), String>)
    ensures
        r is Ok,
{
    let size: usize = nv12_synthetic::buffer_size(16, 16)?;
    if size != 16 * 16 * 3 / 2 {
        return Err("NV12 buffer size mismatch".to_string());
    }
    let mut first: Vec<u8> = vec![0u8; size];
    let mut second: Vec<u8> = vec![0u8; size];
    nv12_synthetic::fill_frame(first.as_mut_slice(), 16, 16, 0)?;
    nv12_synthetic::fill_frame(second.as_mut_slice(), 16, 16, 1)?;
    proof {
        nv12_synthetic::law_first_pictures_differ(16, 16);
    }
    if same_bytes(first.as_slice(), second.as_slice()) {
        return Err("synthetic NV12 frames did not change over time".to_string());
    }
    Ok(())
}

/// Checks that a packet is what it was once it has been sent.
pub fn packet_self_test() -> (r: Result<(), String>)
    ensures
        r is Ok,
{
    let packet: MediaPacket = MediaPacket {
        stream_id: STREAM_VIDEO,
        flags: FLAG_KEYFRAME | FLAG_END_OF_FRAME,
        session_id: 123,
        frame_id: 456,
        packet_index: 0,
        packet_count: 1,
        timestamp_ms: 789,
        payload: vec![7; 32],
    };
    proof {
        media_packet::law_packet_round_trip(packet@, LEGACY_UDP_PAYLOAD_SIZE);
    }
    let encoded: Vec<u8> = packet.encode()?;
    if encoded.len() != HEADER_LEN + 32 {
        return Err("encoded length mismatch".to_string());
    }
    let decoded: MediaPacket = MediaPacket::decode(encoded.as_slice())?;
    if decoded.session_id != packet.session_id || decoded.frame_id != packet.frame_id
        || decoded.flags != packet.flags || !same_bytes(
        decoded.payload.as_slice(),
        packet.payload.as_slice(),
    ) {
        return Err("packet roundtrip mismatch".to_string());
    }
    Ok(())
}

/// Checks that a frame is cut into packets of the right number, size and flags.
pub fn packetizing_self_test() -> (r: Result<(), String>)
    ensures
        r is Ok,
{
    let packets: Vec<Vec<u8>> = build_frame_packets(1, 9, 1000, 5000, true)?;
    if packets.len() != 5 {
        return Err(count_mismatch("expected 5 packets, got ", packets.len()));
    }
    let mut i: usize = 0;
    while i < packets.len()
        invariant
            i <= packets@.len(),
            packets@.len() == media_packet::packet_total(5000),
            forall|k: int|
                0 <= k < packets@.len() ==> (#[trigger] packets@[k])@
                    == media_packet::filled_packet(
                    media_packet::FrameHeader { session_id: 1, frame_id: 9, timestamp_ms: 1000 },
                    5000,
                    true,
                    k,
                ).wire(),
        decreases packets@.len() - i,
    {
        proof {
            media_packet::law_synthetic_datagrams_decode(
                media_packet::FrameHeader { session_id: 1, frame_id: 9, timestamp_ms: 1000 },
                5000,
                true,
                i as int,
            );
        }
        if packets[i].len() > LEGACY_UDP_PAYLOAD_SIZE {
            return Err("packet exceeded UDP payload limit".to_string());
        }
        i = i + 1;
    }
    let payload: Vec<u8> = vec![0x55; 5000];
    let flags: u16 = FLAG_KEYFRAME | FLAG_CONFIG | FLAG_H264_ANNEX_B;
    let encoded: Vec<Vec<u8>> = packetize_media_payload(3, 11, 3000, payload.as_slice(), flags)?;
    if encoded.len() != 5 {
        return Err(count_mismatch("expected 5 encoded media packets, got ", encoded.len()));
    }
    proof {
        let header = media_packet::FrameHeader { session_id: 3, frame_id: 11, timestamp_ms: 3000 };
        media_packet::law_frame_datagrams_decode(header, payload@, flags, 0);
        media_packet::law_frame_datagrams_decode(header, payload@, flags, 4);
        assert(flags & flags == flags) by (bit_vector);
    }
    let first: MediaPacket = MediaPacket::decode(encoded[0].as_slice())?;
    let last: MediaPacket = MediaPacket::decode(encoded[4].as_slice())?;
    if first.flags & flags != flags || last.flags & FLAG_END_OF_FRAME == 0 {
        return Err("encoded media packet flags mismatch".to_string());
    }
    Ok(())
}

fn count_mismatch(what: &str, count: usize) -> (r: String)
    ensures
        r@ == what@ + text::decimal(count as nat),
{
    let mut message: String = what.to_string();
    text::push_decimal(&mut message, count as u64);
    message
}

/// The packets of the frame that is put together backwards.
spec fn reversed_packets() -> Seq<media_packet::PacketModel> {
    Seq::new(
        5,
        |k: int|
            media_packet::filled_packet(
                media_packet::FrameHeader { session_id: 1, frame_id: 9, timestamp_ms: 1000 },
                5000,
                true,
                4 - k,
            ),
    )
}

/// Checks that a frame is put together whatever the order of its packets.
pub fn reassembly_self_test(now: u64) -> (r: Result<(), String>)
    ensures
        r is Ok,
{
    let packets: Vec<Vec<u8>> = build_frame_packets(1, 9, 1000, 5000, true)?;
    let ghost header = media_packet::FrameHeader {
        session_id: 1,
        frame_id: 9,
        timestamp_ms: 1000,
    };
    let ghost whole = reversed_packets();
    let mut frames: Reassembler = Reassembler::new(FRAME_TTL);
    let ghost start = frames@;
    assert(whole.take(0) =~= Seq::empty());
    let mut k: usize = 0;
    while k < packets.len()
        invariant
            k <= packets@.len(),
            packets@.len() == 5,
            whole == reversed_packets(),
            header == (media_packet::FrameHeader {
                session_id: 1,
                frame_id: 9,
                timestamp_ms: 1000,
            }),
            forall|i: int|
                0 <= i < packets@.len() ==> (#[trigger] packets@[i])@
                    == media_packet::filled_packet(header, 5000, true, i).wire(),
            frames.inv(),
            frames@ == reassembler::delivered(start, whole.take(k as int), now),
        decreases packets@.len() - k,
    {
        let at: usize = packets.len() - 1 - k;
        proof {
            media_packet::law_synthetic_datagrams_decode(header, 5000, true, at as int);
        }
        let packet: MediaPacket = MediaPacket::decode(packets[at].as_slice())?;
        proof {
            assert(whole[k as int] == packet@);
            assert(whole.take(k + 1).drop_last() =~= whole.take(k as int));
            assert(whole.take(k + 1).last() == packet@);
        }
        frames.accept(packet, now);
        k = k + 1;
    }
    proof {
        assert(whole.take(5) =~= whole);
        reassembler::law_whole_frame_completes_in_any_order(start, whole, now);
    }
    if frames.stats().frames_complete != 1 {
        return Err("reassembler did not complete frame".to_string());
    }
    Ok(())
}

/// Checks that a frame that stays incomplete is given up, and its packets counted as lost.
pub fn expiry_self_test() -> (r: Result<(), String>)
    ensures
        r is Ok,
{
    let ghost header = media_packet::FrameHeader {
        session_id: 2,
        frame_id: 10,
        timestamp_ms: 2000,
    };
    let mut frames: Reassembler = Reassembler::new(1_000_000);
    let packets: Vec<Vec<u8>> = build_frame_packets(2, 10, 2000, 3000, false)?;
    proof {
        media_packet::law_synthetic_datagrams_decode(header, 3000, false, 0);
    }
    let first: MediaPacket = MediaPacket::decode(packets[0].as_slice())?;
    let ghost packet = first@;
    let ghost before = frames@;
    frames.accept(first, 0);
    let ghost held = frames@;
    proof {
        let fresh = reassembler::AssemblyModel::fresh(packet.packet_count, 0);
        assert(packet.packet_count == 3);
        let frame = fresh.with_packet(0, packet.payload.len() as usize);
        assert(frame.received =~= fresh.received.update(0, true));
        assert(!frame.received[1]);
        assert(!reassembler::all_true(frame.received));
        assert(!before.completes(packet, 0));
        assert(held.frames =~= before.frames.insert(10, frame));
        assert(held.overdue(10, 10_000_000));
        reassembler::law_incomplete_frame_misses_packets(frame);
    }
    frames.expire(10_000_000);
    proof {
        let ids = choose|ids: Seq<u64>| #[trigger]
            held.lists_overdue(ids, 10_000_000) && frames@ == held.expired(ids);
        assert(ids.contains(10));
        assert(forall|id: u64| ids.contains(id) ==> id == 10);
        assert(ids.len() == 1) by {
            let i = choose|i: int| 0 <= i < ids.len() && ids[i] == 10;
            if ids.len() > 1 {
                assert(ids.contains(ids[0]));
                assert(ids.contains(ids[1]));
            }
        }
        assert(ids.drop_last() =~= Seq::empty());
        assert(reassembler::missing_total(held.frames, ids.drop_last()) == 0);
    }
    if frames.stats().frames_incomplete_expired != 1 {
        return Err("expired incomplete frame was not counted".to_string());
    }
    if frames.stats().packets_dropped_or_lost_estimate == 0 {
        return Err("lost packet estimate was not updated".to_string());
    }
    Ok(())
}

/// Checks the parts of the library against each other.
pub fn media_self_test(now: u64) -> (r: Result<(), String>)
    ensures
        r is Ok,
{
    h264_recv_view::run_self_test()?;
    h264_send_probe::run_self_test()?;
    media_clock::run_self_test()?;
    media_control::run_self_test()?;
    nv12_to_bgra::run_self_test()?;
    playout_buffer::run_self_test()?;
    picture_self_test()?;
    packet_self_test()?;
    packetizing_self_test()?;
    reassembly_self_test(now)?;
    expiry_self_test()
}

/// Checks the command line and the parts of the library.
pub fn run_self_test(now: u64) -> (r: Result<(), String>)
    ensures
        r is Ok,
{
    command_line_self_test()?;
    media_self_test(now)
}

/// What the program can do.
pub open spec fn capabilities() -> Seq<Member> {
    seq![
        Member::Pair("screen_send"@, Value::Flag(true)),
        Member::Pair("screen_recv"@, Value::Flag(true)),
        Member::Pair("audio_send"@, Value::Flag(true)),
        Member::Pair("audio_recv_play"@, Value::Flag(true)),
        Member::Pair("hardware_runtime_probe_required"@, Value::Flag(true)),
    ]
}

/// What is reported of a self-test that passed.
pub open spec fn success_members(version: Seq<char>) -> Seq<Member> {
    seq![
        Member::Pair("type"@, Value::Name("SELF_TEST"@)),
        Member::Pair("ok"@, Value::Flag(true)),
        Member::Pair("version"@, Value::Name(version)),
        Member::Pair("packet_format"@, Value::Name("AGM1"@)),
        Member::Pair("capabilities"@, Value::Raw(json::object(capabilities()))),
    ]
}

/// Reports a self-test that passed.
pub fn self_test_success_json(version: &str) -> (r: String)
    ensures
        r@ == json::object(success_members(version@)),
{
    let abilities: Fragment = Fragment::new().flag("screen_send", true).flag(
        "screen_recv",
        true,
    ).flag("audio_send", true).flag("audio_recv_play", true).flag(
        "hardware_runtime_probe_required",
        true,
    );
    assert(abilities@ =~= capabilities());
    let abilities: String = abilities.finish_object();
    let members: Fragment = Fragment::new().name("type", "SELF_TEST").flag("ok", true).name(
        "version",
        version,
    ).name("packet_format", "AGM1").raw("capabilities", abilities.as_str());
    assert(members@ =~= success_members(version@));
    members.finish_object()
}

/// What is reported of a self-test that failed.
pub open spec fn failure_members(error: Seq<char>) -> Seq<Member> {
    seq![
        Member::Pair("type"@, Value::Name("SELF_TEST"@)),
        Member::Pair("ok"@, Value::Flag(false)),
        Member::Pair("error"@, Value::Name(text::escaped(error, false))),
    ]
}

/// Reports a self-test that failed.
pub fn self_test_failure_json(error: &str) -> (r: String)
    ensures
        r@ == json::object(failure_members(error@)),
{
    let escaped: String = text::escape_text(error, false);
    let members: Fragment = Fragment::new().name("type", "SELF_TEST").flag("ok", false).name(
        "error",
        escaped.as_str(),
    );
    assert(members@ =~= failure_members(error@));
    members.finish_object()
}

} // verus!
