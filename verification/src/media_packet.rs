//! Media packets: one frame travels as a run of datagrams, each with the header
//! `AGM1` and a slice of the frame.

use vstd::prelude::*;

use crate::text;
use crate::text::push_decimal;
use crate::wire;
use crate::wire::{push_u16, push_u32, push_u64, read_u16, read_u32, read_u64};

verus! {

broadcast use crate::wire::group_wire;

/// `AGM1`
pub const MAGIC: u32 = 0x4147_4d31;

pub const VERSION: u8 = 1;

pub const STREAM_VIDEO: u8 = 1;

pub const FLAG_KEYFRAME: u16 = 0x01;

pub const FLAG_END_OF_FRAME: u16 = 0x02;

pub const FLAG_CONFIG: u16 = 0x04;

pub const FLAG_H264_ANNEX_B: u16 = 0x08;

pub const FLAG_FEC: u16 = 0x10;

pub const FLAG_FEC_PROTECTED: u16 = 0x20;

pub const HEADER_LEN: usize = 38;

pub const MIN_UDP_PAYLOAD_SIZE: usize = 576;

pub const LEGACY_UDP_PAYLOAD_SIZE: usize = 1200;

pub const DEFAULT_REALTIME_UDP_PAYLOAD_SIZE: usize = 1452;

pub const MAX_UDP_PAYLOAD_SIZE: usize = 1472;

pub const MAX_MEDIA_PAYLOAD: usize = MAX_UDP_PAYLOAD_SIZE - HEADER_LEN;

pub const MIN_MEDIA_PAYLOAD: usize = MIN_UDP_PAYLOAD_SIZE - HEADER_LEN;

pub const LEGACY_MEDIA_PAYLOAD: usize = LEGACY_UDP_PAYLOAD_SIZE - HEADER_LEN;

/// 16 MiB
pub const MAX_VIDEO_FRAME_BYTES: usize = 16_777_216;

pub const FEC_PARITY_PACKET_ALLOWANCE: usize = 1;

pub const VIDEO_PACKET_COUNT_SAFETY_MARGIN: usize = 4;

/// The packets of the largest frame at the smallest payload, with an allowance.
pub const MAX_VIDEO_PACKET_COUNT: usize = (16_777_216 + 537) / 538 + FEC_PARITY_PACKET_ALLOWANCE
    + VIDEO_PACKET_COUNT_SAFETY_MARGIN;

/// One datagram of a frame.
#[derive(Clone, Debug)]
pub struct MediaPacket {
    pub stream_id: u8,
    pub flags: u16,
    pub session_id: u64,
    pub frame_id: u64,
    pub packet_index: u16,
    pub packet_count: u16,
    pub timestamp_ms: u64,
    pub payload: Vec<u8>,
}

/// What a packet holds.
pub struct PacketModel {
    pub stream_id: u8,
    pub flags: u16,
    pub session_id: u64,
    pub frame_id: u64,
    pub packet_index: u16,
    pub packet_count: u16,
    pub timestamp_ms: u64,
    pub payload: Seq<u8>,
}

impl View for MediaPacket {
    type V = PacketModel;

    open spec fn view(&self) -> PacketModel {
        PacketModel {
            stream_id: self.stream_id,
            flags: self.flags,
            session_id: self.session_id,
            frame_id: self.frame_id,
            packet_index: self.packet_index,
            packet_count: self.packet_count,
            timestamp_ms: self.timestamp_ms,
            payload: self.payload@,
        }
    }
}

/// The text of a refused datagram size.
pub open spec fn payload_size_error() -> Seq<char> {
    "udp-payload-size must be between "@ + text::decimal(MIN_UDP_PAYLOAD_SIZE as nat) + " and "@
        + text::decimal(MAX_UDP_PAYLOAD_SIZE as nat)
}

/// Whether datagrams of this size may be sent.
pub open spec fn payload_size_ok(value: int) -> bool {
    MIN_UDP_PAYLOAD_SIZE <= value <= MAX_UDP_PAYLOAD_SIZE
}

/// Checks the size of the datagrams.
pub fn validate_udp_payload_size(value: usize) -> (r: Result<(), String>)
    ensures
        text::agrees(
            r,
            if payload_size_ok(value as int) {
                Ok(())
            } else {
                Err(payload_size_error())
            },
        ),
{
    if MIN_UDP_PAYLOAD_SIZE <= value && value <= MAX_UDP_PAYLOAD_SIZE {
        Ok(())
    } else {
        let mut error: String = "udp-payload-size must be between ".to_string();
        push_decimal(&mut error, MIN_UDP_PAYLOAD_SIZE as u64);
        error.append(" and ");
        push_decimal(&mut error, MAX_UDP_PAYLOAD_SIZE as u64);
        Err(error)
    }
}

/// The text that refuses a packet count above the limit.
pub open spec fn packet_count_error(packet_count: u16) -> Seq<char> {
    "packet_count exceeds video frame limit: "@ + text::decimal(packet_count as nat) + " > "@
        + text::decimal(MAX_VIDEO_PACKET_COUNT as nat)
}

fn packet_count_message(packet_count: u16) -> (r: String)
    ensures
        r@ == packet_count_error(packet_count),
{
    let mut error: String = "packet_count exceeds video frame limit: ".to_string();
    push_decimal(&mut error, packet_count as u64);
    error.append(" > ");
    push_decimal(&mut error, MAX_VIDEO_PACKET_COUNT as u64);
    error
}

impl PacketModel {
    /// The bytes of the packet.
    pub open spec fn wire(self) -> Seq<u8> {
        wire::be_bytes(MAGIC as nat, 4).push(VERSION).push(self.stream_id) + wire::be_bytes(
            self.flags as nat,
            2,
        ) + wire::be_bytes(self.session_id as nat, 8) + wire::be_bytes(self.frame_id as nat, 8)
            + wire::be_bytes(self.packet_index as nat, 2) + wire::be_bytes(
            self.packet_count as nat,
            2,
        ) + wire::be_bytes(self.timestamp_ms as nat, 8) + wire::be_bytes(self.payload.len(), 2)
            + self.payload
    }

    /// The first rule that the packet breaks in a datagram of at most
    /// `udp_payload_size` bytes.
    pub open spec fn encode_error(self, udp_payload_size: usize) -> Option<Seq<char>> {
        if !payload_size_ok(udp_payload_size as int) {
            Some(payload_size_error())
        } else if self.payload.len() + HEADER_LEN > udp_payload_size {
            Some("payload too large: "@ + text::decimal(self.payload.len()))
        } else if self.packet_count == 0 {
            Some("packet_count must be greater than zero"@)
        } else if self.packet_count > MAX_VIDEO_PACKET_COUNT {
            Some(packet_count_error(self.packet_count))
        } else if self.packet_index >= self.packet_count {
            Some("packet_index must be less than packet_count"@)
        } else {
            None
        }
    }

    /// The packet that `bytes` carry, or the first rule that they break.  Bytes
    /// behind the payload are ignored.
    pub open spec fn parse(bytes: Seq<u8>) -> Result<PacketModel, Seq<char>> {
        if bytes.len() > MAX_UDP_PAYLOAD_SIZE {
            Err("datagram exceeds UDP payload limit: "@ + text::decimal(bytes.len()))
        } else if bytes.len() < HEADER_LEN {
            Err("packet too short"@)
        } else if wire::be_at(bytes, 0, 4) != MAGIC {
            Err("bad magic"@)
        } else if bytes[4] != VERSION {
            Err("unsupported version: "@ + text::decimal(bytes[4] as nat))
        } else {
            let packet_index = wire::be_at(bytes, 24, 2) as u16;
            let packet_count = wire::be_at(bytes, 26, 2) as u16;
            let payload_len = wire::be_at(bytes, 36, 2);
            if packet_count == 0 {
                Err("packet_count is zero"@)
            } else if packet_count > MAX_VIDEO_PACKET_COUNT {
                Err(packet_count_error(packet_count))
            } else if packet_index >= packet_count {
                Err("packet_index out of range"@)
            } else if payload_len > MAX_MEDIA_PAYLOAD {
                Err("payload_len exceeds limit: "@ + text::decimal(payload_len))
            } else if HEADER_LEN + payload_len > bytes.len() {
                Err("payload_len exceeds datagram length"@)
            } else {
                Ok(
                    PacketModel {
                        stream_id: bytes[5],
                        flags: wire::be_at(bytes, 6, 2) as u16,
                        session_id: wire::be_at(bytes, 8, 8) as u64,
                        frame_id: wire::be_at(bytes, 16, 8) as u64,
                        packet_index,
                        packet_count,
                        timestamp_ms: wire::be_at(bytes, 28, 8) as u64,
                        payload: bytes.subrange(HEADER_LEN as int, HEADER_LEN + payload_len),
                    },
                )
            }
        }
    }
}

/// Decoding an encoded packet gives it back, at every size of the datagrams.
pub proof fn law_packet_round_trip(packet: PacketModel, udp_payload_size: usize)
    requires
        packet.encode_error(udp_payload_size) is None,
    ensures
        PacketModel::parse(packet.wire()) == Ok::<PacketModel, Seq<char>>(packet),
        packet.wire().len() == HEADER_LEN + packet.payload.len(),
        packet.wire().len() <= udp_payload_size,
{
    let w = packet.wire();
    assert(w.len() == HEADER_LEN + packet.payload.len());
    assert(w.subrange(0, 4) =~= wire::be_bytes(MAGIC as nat, 4));
    assert(w.subrange(6, 8) =~= wire::be_bytes(packet.flags as nat, 2));
    assert(w.subrange(8, 16) =~= wire::be_bytes(packet.session_id as nat, 8));
    assert(w.subrange(16, 24) =~= wire::be_bytes(packet.frame_id as nat, 8));
    assert(w.subrange(24, 26) =~= wire::be_bytes(packet.packet_index as nat, 2));
    assert(w.subrange(26, 28) =~= wire::be_bytes(packet.packet_count as nat, 2));
    assert(w.subrange(28, 36) =~= wire::be_bytes(packet.timestamp_ms as nat, 8));
    assert(w.subrange(36, 38) =~= wire::be_bytes(packet.payload.len(), 2));
    wire::lemma_two_bytes(packet.payload.len() as u16);
    assert(w.subrange(38, w.len() as int) =~= packet.payload);
    assert(PacketModel::parse(w)->Ok_0 == packet);
}

/// A datagram that decodes begins with the encoding of what it decodes to.
pub proof fn law_packet_canonical(bytes: Seq<u8>)
    requires
        PacketModel::parse(bytes) is Ok,
    ensures
        PacketModel::parse(bytes)->Ok_0.encode_error(MAX_UDP_PAYLOAD_SIZE) is None,
        PacketModel::parse(bytes)->Ok_0.wire() == bytes.subrange(
            0,
            HEADER_LEN + PacketModel::parse(bytes)->Ok_0.payload.len(),
        ),
{
    let packet = PacketModel::parse(bytes)->Ok_0;
    wire::lemma_field(bytes, 0, 4);
    wire::lemma_field(bytes, 6, 2);
    wire::lemma_field(bytes, 8, 8);
    wire::lemma_field(bytes, 16, 8);
    wire::lemma_field(bytes, 24, 2);
    wire::lemma_field(bytes, 26, 2);
    wire::lemma_field(bytes, 28, 8);
    wire::lemma_field(bytes, 36, 2);
    assert(packet.wire() =~= bytes.subrange(0, HEADER_LEN + packet.payload.len()));
}

/// A copy of `bytes[start..end]`.
pub fn copy_range(bytes: &[u8], start: usize, end: usize) -> (r: Vec<u8>)
    requires
        start <= end <= bytes.len(),
    ensures
        r@ == bytes@.subrange(start as int, end as int),
{
    let mut r: Vec<u8> = Vec::with_capacity(end - start);
    let mut i: usize = start;
    while i < end
        invariant
            start <= i <= end <= bytes.len(),
            r@ == bytes@.subrange(start as int, i as int),
        decreases end - i,
    {
        r.push(bytes[i]);
        assert(bytes@.subrange(start as int, i + 1) =~= bytes@.subrange(start as int, i as int).push(
            bytes@[i as int],
        ));
        i = i + 1;
    }
    r
}

impl MediaPacket {
    /// Encodes the packet for datagrams of the legacy size.
    pub fn encode(&self) -> (r: Result<Vec<u8>, String>)
        ensures
            match self@.encode_error(LEGACY_UDP_PAYLOAD_SIZE) {
                None => r is Ok && r->Ok_0@ == self@.wire(),
                Some(error) => r is Err && r->Err_0@ == error,
            },
    {
        self.encode_with_udp_payload_size(LEGACY_UDP_PAYLOAD_SIZE)
    }

    /// Encodes the packet for datagrams of at most `udp_payload_size` bytes.
    pub fn encode_with_udp_payload_size(&self, udp_payload_size: usize) -> (r: Result<
        Vec<u8>,
        String,
    >)
        ensures
            match self@.encode_error(udp_payload_size) {
                None => r is Ok && r->Ok_0@ == self@.wire(),
                Some(error) => r is Err && r->Err_0@ == error,
            },
    {
        validate_udp_payload_size(udp_payload_size)?;
        let media_payload_size: usize = udp_payload_size - HEADER_LEN;
        if self.payload.len() > media_payload_size {
            let mut error: String = "payload too large: ".to_string();
            push_decimal(&mut error, self.payload.len() as u64);
            return Err(error);
        }
        if self.packet_count == 0 {
            return Err("packet_count must be greater than zero".to_string());
        }
        if self.packet_count as usize > MAX_VIDEO_PACKET_COUNT {
            return Err(packet_count_message(self.packet_count));
        }
        if self.packet_index >= self.packet_count {
            return Err("packet_index must be less than packet_count".to_string());
        }
        let mut out: Vec<u8> = Vec::with_capacity(HEADER_LEN + self.payload.len());
        push_u32(&mut out, MAGIC);
        out.push(VERSION);
        out.push(self.stream_id);
        push_u16(&mut out, self.flags);
        push_u64(&mut out, self.session_id);
        push_u64(&mut out, self.frame_id);
        push_u16(&mut out, self.packet_index);
        push_u16(&mut out, self.packet_count);
        push_u64(&mut out, self.timestamp_ms);
        push_u16(&mut out, self.payload.len() as u16);
        out.extend_from_slice(self.payload.as_slice());
        assert(out@ =~= self@.wire());
        Ok(out)
    }

    /// Decodes a datagram.
    pub fn decode(buf: &[u8]) -> (r: Result<MediaPacket, String>)
        ensures
            match PacketModel::parse(buf@) {
                Ok(packet) => r is Ok && r->Ok_0@ == packet,
                Err(error) => r is Err && r->Err_0@ == error,
            },
    {
        if buf.len() > MAX_UDP_PAYLOAD_SIZE {
            let mut error: String = "datagram exceeds UDP payload limit: ".to_string();
            push_decimal(&mut error, buf.len() as u64);
            return Err(error);
        }
        if buf.len() < HEADER_LEN {
            return Err("packet too short".to_string());
        }
        if read_u32(buf, 0) != MAGIC {
            return Err("bad magic".to_string());
        }
        if buf[4] != VERSION {
            let mut error: String = "unsupported version: ".to_string();
            push_decimal(&mut error, buf[4] as u64);
            return Err(error);
        }
        let packet_index: u16 = read_u16(buf, 24);
        let packet_count: u16 = read_u16(buf, 26);
        let payload_len: usize = read_u16(buf, 36) as usize;
        if packet_count == 0 {
            return Err("packet_count is zero".to_string());
        }
        if packet_count as usize > MAX_VIDEO_PACKET_COUNT {
            return Err(packet_count_message(packet_count));
        }
        if packet_index >= packet_count {
            return Err("packet_index out of range".to_string());
        }
        if payload_len > MAX_MEDIA_PAYLOAD {
            let mut error: String = "payload_len exceeds limit: ".to_string();
            push_decimal(&mut error, payload_len as u64);
            return Err(error);
        }
        if HEADER_LEN + payload_len > buf.len() {
            return Err("payload_len exceeds datagram length".to_string());
        }
        Ok(
            MediaPacket {
                stream_id: buf[5],
                flags: read_u16(buf, 6),
                session_id: read_u64(buf, 8),
                frame_id: read_u64(buf, 16),
                packet_index,
                packet_count,
                timestamp_ms: read_u64(buf, 28),
                payload: copy_range(buf, HEADER_LEN, HEADER_LEN + payload_len),
            },
        )
    }
}

// Frames as runs of packets.

/// The number of packets of a frame of `len` bytes: none is empty but the only
/// packet of an empty frame.
pub open spec fn packet_total(len: nat) -> nat {
    if len == 0 {
        1
    } else {
        (len + LEGACY_MEDIA_PAYLOAD - 1) as nat / LEGACY_MEDIA_PAYLOAD as nat
    }
}

/// Where the slice of packet `i` ends in a frame of `len` bytes.
pub open spec fn slice_end(len: nat, i: int) -> int {
    if (i + 1) * LEGACY_MEDIA_PAYLOAD <= len {
        (i + 1) * LEGACY_MEDIA_PAYLOAD
    } else {
        len as int
    }
}

/// The last packet of a frame carries the end flag.
pub open spec fn with_end_flag(flags: u16, len: nat, i: int) -> u16 {
    if i + 1 == packet_total(len) {
        flags | FLAG_END_OF_FRAME
    } else {
        flags
    }
}

/// What stays the same over the packets of one frame.
pub struct FrameHeader {
    pub session_id: u64,
    pub frame_id: u64,
    pub timestamp_ms: u64,
}

/// Packet `i` of the frame `payload`; the first packet carries `frame_flags`.
pub open spec fn payload_packet(
    header: FrameHeader,
    payload: Seq<u8>,
    frame_flags: u16,
    i: int,
) -> PacketModel {
    PacketModel {
        stream_id: STREAM_VIDEO,
        flags: with_end_flag(
            if i == 0 {
                frame_flags
            } else {
                0
            },
            payload.len(),
            i,
        ),
        session_id: header.session_id,
        frame_id: header.frame_id,
        packet_index: i as u16,
        packet_count: packet_total(payload.len()) as u16,
        timestamp_ms: header.timestamp_ms,
        payload: payload.subrange(i * LEGACY_MEDIA_PAYLOAD, slice_end(payload.len(), i)),
    }
}

/// Packet `i` of a synthetic frame of `len` bytes; each packet is filled with one
/// byte, which moves with the frame and the packet.
pub open spec fn filled_packet(
    header: FrameHeader,
    len: nat,
    keyframe: bool,
    i: int,
) -> PacketModel {
    PacketModel {
        stream_id: STREAM_VIDEO,
        flags: with_end_flag(
            if keyframe {
                FLAG_KEYFRAME
            } else {
                0
            },
            len,
            i,
        ),
        session_id: header.session_id,
        frame_id: header.frame_id,
        packet_index: i as u16,
        packet_count: packet_total(len) as u16,
        timestamp_ms: header.timestamp_ms,
        payload: Seq::new(
            (slice_end(len, i) - i * LEGACY_MEDIA_PAYLOAD) as nat,
            |k: int| ((header.frame_id + i) % 256) as u8,
        ),
    }
}

/// The bounds of packet `i` within a frame that is not too large.
pub proof fn lemma_slices(len: nat, i: int)
    requires
        len <= MAX_VIDEO_FRAME_BYTES,
        0 <= i < packet_total(len),
    ensures
        1 <= packet_total(len) <= MAX_VIDEO_PACKET_COUNT,
        packet_total(len) <= 14_439,
        0 <= i * LEGACY_MEDIA_PAYLOAD <= slice_end(len, i) <= len,
        slice_end(len, i) - i * LEGACY_MEDIA_PAYLOAD <= LEGACY_MEDIA_PAYLOAD,
        i + 1 == packet_total(len) ==> slice_end(len, i) == len,
        i + 1 < packet_total(len) ==> slice_end(len, i) == (i + 1) * LEGACY_MEDIA_PAYLOAD,
        (i + 1) * LEGACY_MEDIA_PAYLOAD == i * LEGACY_MEDIA_PAYLOAD + LEGACY_MEDIA_PAYLOAD,
{
    assert(i * LEGACY_MEDIA_PAYLOAD == i * 1162);
    assert((i + 1) * LEGACY_MEDIA_PAYLOAD == (i + 1) * 1162);
}

/// Splits an encoded frame into datagrams.
pub fn packetize_media_payload(
    session_id: u64,
    frame_id: u64,
    timestamp_ms: u64,
    payload: &[u8],
    frame_flags: u16,
) -> (r: Result<Vec<Vec<u8>>, String>)
    ensures
        payload@.len() > MAX_VIDEO_FRAME_BYTES ==> r is Err && r->Err_0@
            == "encoded frame exceeds byte limit: "@ + text::decimal(payload@.len()) + " > "@
            + text::decimal(MAX_VIDEO_FRAME_BYTES as nat),
        payload@.len() <= MAX_VIDEO_FRAME_BYTES ==> {
            &&& r is Ok
            &&& r->Ok_0@.len() == packet_total(payload@.len())
            &&& forall|i: int|
                0 <= i < r->Ok_0@.len() ==> (#[trigger] r->Ok_0@[i])@ == payload_packet(
                    FrameHeader { session_id, frame_id, timestamp_ms },
                    payload@,
                    frame_flags,
                    i,
                ).wire()
        },
{
    let length: usize = payload.len();
    if length > MAX_VIDEO_FRAME_BYTES {
        let mut error: String = "encoded frame exceeds byte limit: ".to_string();
        push_decimal(&mut error, length as u64);
        error.append(" > ");
        push_decimal(&mut error, MAX_VIDEO_FRAME_BYTES as u64);
        return Err(error);
    }
    let ghost header = FrameHeader { session_id, frame_id, timestamp_ms };
    let packet_count: usize = if length == 0 {
        1
    } else {
        (length + (LEGACY_MEDIA_PAYLOAD - 1)) / LEGACY_MEDIA_PAYLOAD
    };
    assert(packet_count == packet_total(payload@.len()));
    let mut packets: Vec<Vec<u8>> = Vec::with_capacity(packet_count);
    let mut packet_index: usize = 0;
    while packet_index < packet_count
        invariant
            length == payload@.len(),
            length <= MAX_VIDEO_FRAME_BYTES,
            packet_count == packet_total(payload@.len()),
            packet_index <= packet_count,
            packets@.len() == packet_index,
            header == (FrameHeader { session_id, frame_id, timestamp_ms }),
            forall|i: int|
                0 <= i < packet_index ==> (#[trigger] packets@[i])@ == payload_packet(
                    header,
                    payload@,
                    frame_flags,
                    i,
                ).wire(),
        decreases packet_count - packet_index,
    {
        proof {
            lemma_slices(payload@.len(), packet_index as int);
        }
        let start: usize = packet_index * LEGACY_MEDIA_PAYLOAD;
        let end: usize = (start + LEGACY_MEDIA_PAYLOAD).min(length);
        let mut flags: u16 = if packet_index == 0 {
            frame_flags
        } else {
            0
        };
        if packet_index + 1 == packet_count {
            flags = flags | FLAG_END_OF_FRAME;
        }
        let packet = MediaPacket {
            stream_id: STREAM_VIDEO,
            flags,
            session_id,
            frame_id,
            packet_index: packet_index as u16,
            packet_count: packet_count as u16,
            timestamp_ms,
            payload: copy_range(payload, start, end),
        };
        assert(packet@ == payload_packet(header, payload@, frame_flags, packet_index as int));
        packets.push(packet.encode()?);
        packet_index = packet_index + 1;
    }
    Ok(packets)
}

/// Builds the datagrams of a synthetic frame of `payload_size` bytes.
pub fn build_frame_packets(
    session_id: u64,
    frame_id: u64,
    timestamp_ms: u64,
    payload_size: usize,
    keyframe: bool,
) -> (r: Result<Vec<Vec<u8>>, String>)
    ensures
        payload_size > MAX_VIDEO_FRAME_BYTES ==> r is Err && r->Err_0@
            == "frame exceeds encoded byte limit: "@ + text::decimal(payload_size as nat) + " > "@
            + text::decimal(MAX_VIDEO_FRAME_BYTES as nat),
        payload_size <= MAX_VIDEO_FRAME_BYTES ==> {
            &&& r is Ok
            &&& r->Ok_0@.len() == packet_total(payload_size as nat)
            &&& forall|i: int|
                0 <= i < r->Ok_0@.len() ==> (#[trigger] r->Ok_0@[i])@ == filled_packet(
                    FrameHeader { session_id, frame_id, timestamp_ms },
                    payload_size as nat,
                    keyframe,
                    i,
                ).wire()
        },
{
    if payload_size > MAX_VIDEO_FRAME_BYTES {
        let mut error: String = "frame exceeds encoded byte limit: ".to_string();
        push_decimal(&mut error, payload_size as u64);
        error.append(" > ");
        push_decimal(&mut error, MAX_VIDEO_FRAME_BYTES as u64);
        return Err(error);
    }
    let ghost header = FrameHeader { session_id, frame_id, timestamp_ms };
    let packet_count: usize = if payload_size == 0 {
        1
    } else {
        (payload_size + (LEGACY_MEDIA_PAYLOAD - 1)) / LEGACY_MEDIA_PAYLOAD
    };
    let mut packets: Vec<Vec<u8>> = Vec::with_capacity(packet_count);
    let mut remaining: usize = payload_size;
    let mut packet_index: usize = 0;
    while packet_index < packet_count
        invariant
            payload_size <= MAX_VIDEO_FRAME_BYTES,
            packet_count == packet_total(payload_size as nat),
            packet_index <= packet_count,
            packets@.len() == packet_index,
            packet_index < packet_count ==> remaining == payload_size - packet_index
                * LEGACY_MEDIA_PAYLOAD,
            header == (FrameHeader { session_id, frame_id, timestamp_ms }),
            forall|i: int|
                0 <= i < packet_index ==> (#[trigger] packets@[i])@ == filled_packet(
                    header,
                    payload_size as nat,
                    keyframe,
                    i,
                ).wire(),
        decreases packet_count - packet_index,
    {
        proof {
            lemma_slices(payload_size as nat, packet_index as int);
        }
        let chunk_len: usize = remaining.min(LEGACY_MEDIA_PAYLOAD);
        remaining = remaining - chunk_len;
        let mut flags: u16 = 0;
        if keyframe {
            flags = FLAG_KEYFRAME;
        }
        if packet_index + 1 == packet_count {
            flags = flags | FLAG_END_OF_FRAME;
        }
        let fill: u8 = ((frame_id % 256 + packet_index as u64 % 256) % 256) as u8;
        let packet = MediaPacket {
            stream_id: STREAM_VIDEO,
            flags,
            session_id,
            frame_id,
            packet_index: packet_index as u16,
            packet_count: packet_count as u16,
            timestamp_ms,
            payload: vec![fill; chunk_len],
        };
        proof {
            let wanted = filled_packet(
                header,
                payload_size as nat,
                keyframe,
                packet_index as int,
            );
            assert((frame_id % 256 + packet_index % 256) % 256 == (frame_id + packet_index) % 256);
            assert(packet@.payload.len() == wanted.payload.len());
            assert(forall|k: int| 0 <= k < chunk_len ==> packet@.payload[k] == fill);
            assert(packet@.payload =~= wanted.payload);
            assert(packet@ == wanted);
        }
        packets.push(packet.encode()?);
        packet_index = packet_index + 1;
    }
    Ok(packets)
}

/// The payloads of `packets`, one behind the other.
pub open spec fn joined_payloads(packets: Seq<PacketModel>) -> Seq<u8>
    decreases packets.len(),
{
    if packets.len() == 0 {
        Seq::empty()
    } else {
        joined_payloads(packets.drop_last()) + packets.last().payload
    }
}

/// The first `n` packets of a frame.
pub open spec fn payload_packets(
    header: FrameHeader,
    payload: Seq<u8>,
    frame_flags: u16,
    n: nat,
) -> Seq<PacketModel> {
    Seq::new(n, |i: int| payload_packet(header, payload, frame_flags, i))
}

/// The payloads of a frame's packets, joined in order, are the frame.
pub proof fn law_packets_join_to_the_frame(
    header: FrameHeader,
    payload: Seq<u8>,
    frame_flags: u16,
)
    requires
        payload.len() <= MAX_VIDEO_FRAME_BYTES,
    ensures
        joined_payloads(
            payload_packets(header, payload, frame_flags, packet_total(payload.len())),
        ) == payload,
{
    let total = packet_total(payload.len());
    lemma_slices(payload.len(), total - 1);
    lemma_joined_prefix(header, payload, frame_flags, total);
    assert(payload.subrange(0, payload.len() as int) =~= payload);
}

proof fn lemma_joined_prefix(header: FrameHeader, payload: Seq<u8>, frame_flags: u16, n: nat)
    requires
        payload.len() <= MAX_VIDEO_FRAME_BYTES,
        0 < n <= packet_total(payload.len()),
    ensures
        joined_payloads(payload_packets(header, payload, frame_flags, n)) == payload.subrange(
            0,
            slice_end(payload.len(), n - 1),
        ),
    decreases n,
{
    let packets = payload_packets(header, payload, frame_flags, n);
    let front = payload_packets(header, payload, frame_flags, (n - 1) as nat);
    assert(packets.drop_last() =~= front);
    lemma_slices(payload.len(), n - 1);
    if n > 1 {
        lemma_joined_prefix(header, payload, frame_flags, (n - 1) as nat);
        lemma_slices(payload.len(), n - 2);
    } else {
        assert(front =~= Seq::empty());
        assert(joined_payloads(front) =~= Seq::empty());
    }
    assert(joined_payloads(packets) =~= payload.subrange(0, slice_end(payload.len(), n - 1)));
}

/// Each datagram of a frame fits the legacy size, decodes to its packet, and only
/// the last one ends the frame.
pub proof fn law_frame_datagrams_decode(
    header: FrameHeader,
    payload: Seq<u8>,
    frame_flags: u16,
    i: int,
)
    requires
        payload.len() <= MAX_VIDEO_FRAME_BYTES,
        0 <= i < packet_total(payload.len()),
    ensures
        payload_packet(header, payload, frame_flags, i).wire().len() <= LEGACY_UDP_PAYLOAD_SIZE,
        PacketModel::parse(payload_packet(header, payload, frame_flags, i).wire()) == Ok::<
            PacketModel,
            Seq<char>,
        >(payload_packet(header, payload, frame_flags, i)),
        i + 1 == packet_total(payload.len()) ==> payload_packet(
            header,
            payload,
            frame_flags,
            i,
        ).flags & FLAG_END_OF_FRAME != 0,
        0 < i && i + 1 < packet_total(payload.len()) ==> payload_packet(
            header,
            payload,
            frame_flags,
            i,
        ).flags == 0,
{
    let packet = payload_packet(header, payload, frame_flags, i);
    lemma_slices(payload.len(), i);
    law_packet_round_trip(packet, LEGACY_UDP_PAYLOAD_SIZE);
    let flags: u16 = if i == 0 {
        frame_flags
    } else {
        0
    };
    assert((flags | 0x02u16) & 0x02u16 != 0) by (bit_vector);
}

/// Each datagram of a synthetic frame fits the legacy size and decodes to its
/// packet.
pub proof fn law_synthetic_datagrams_decode(
    header: FrameHeader,
    len: nat,
    keyframe: bool,
    i: int,
)
    requires
        len <= MAX_VIDEO_FRAME_BYTES,
        0 <= i < packet_total(len),
    ensures
        filled_packet(header, len, keyframe, i).wire().len() <= LEGACY_UDP_PAYLOAD_SIZE,
        PacketModel::parse(filled_packet(header, len, keyframe, i).wire()) == Ok::<
            PacketModel,
            Seq<char>,
        >(filled_packet(header, len, keyframe, i)),
{
    lemma_slices(len, i);
    law_packet_round_trip(filled_packet(header, len, keyframe, i), LEGACY_UDP_PAYLOAD_SIZE);
}

/// A media packet is `AGM1` and the version 1, with each field at its place and the payload
/// behind the 38 bytes of the header; its index lies within its count.
pub proof fn law_packet_layout(bytes: Seq<u8>)
    ensures
        PacketModel::parse(bytes) is Ok <==> {
            &&& 38 <= bytes.len() <= 1472
            &&& bytes[0] == 0x41
            &&& bytes[1] == 0x47
            &&& bytes[2] == 0x4d
            &&& bytes[3] == 0x31
            &&& bytes[4] == 1
            &&& wire::be_at(bytes, 24, 2) < wire::be_at(bytes, 26, 2) <= 31190
            &&& 38 + wire::be_at(bytes, 36, 2) <= bytes.len()
        },
        PacketModel::parse(bytes) matches Ok(packet) ==> {
            &&& packet.stream_id == bytes[5]
            &&& packet.flags == wire::be_at(bytes, 6, 2)
            &&& packet.session_id == wire::be_at(bytes, 8, 8)
            &&& packet.frame_id == wire::be_at(bytes, 16, 8)
            &&& packet.packet_index == wire::be_at(bytes, 24, 2)
            &&& packet.packet_count == wire::be_at(bytes, 26, 2)
            &&& packet.timestamp_ms == wire::be_at(bytes, 28, 8)
            &&& packet.payload.len() == wire::be_at(bytes, 36, 2)
            &&& forall|i: int| 0 <= i < packet.payload.len() ==> packet.payload[i] == bytes[38 + i]
        },
{
    assert(MAX_VIDEO_PACKET_COUNT == 31190);
    if bytes.len() >= 38 {
        wire::law_most_significant_byte_first(bytes, 0);
        wire::lemma_field(bytes, 6, 2);
        wire::lemma_field(bytes, 8, 8);
        wire::lemma_field(bytes, 16, 8);
        wire::lemma_field(bytes, 24, 2);
        wire::lemma_field(bytes, 26, 2);
        wire::lemma_field(bytes, 28, 8);
        wire::lemma_field(bytes, 36, 2);
    }
}

/// A packet can be sent where it fits the datagram, the datagram has an allowed size, and
/// its index lies within its count.
pub proof fn law_sound_packets_are_sent(packet: PacketModel, udp_payload_size: usize)
    ensures
        packet.encode_error(udp_payload_size) is None <==> {
            &&& 576 <= udp_payload_size <= 1472
            &&& 38 + packet.payload.len() <= udp_payload_size
            &&& packet.packet_index < packet.packet_count <= 31190
        },
{
    assert(MAX_VIDEO_PACKET_COUNT == 31190);
}

/// A frame is cut into as few packets as hold it, 1162 bytes in each but the last; the
/// packets count from zero, say how many they are, and carry what the frame is.
pub proof fn law_frame_is_cut_into_full_packets(
    header: FrameHeader,
    payload: Seq<u8>,
    frame_flags: u16,
    i: int,
)
    requires
        0 < payload.len() <= MAX_VIDEO_FRAME_BYTES,
        0 <= i < packet_total(payload.len()),
    ensures
        (packet_total(payload.len()) - 1) * 1162 < payload.len() <= packet_total(payload.len())
            * 1162,
        ({
            let packet = payload_packet(header, payload, frame_flags, i);
            &&& packet.stream_id == 1
            &&& packet.session_id == header.session_id
            &&& packet.frame_id == header.frame_id
            &&& packet.timestamp_ms == header.timestamp_ms
            &&& packet.packet_index == i
            &&& packet.packet_count == packet_total(payload.len())
            &&& i + 1 < packet_total(payload.len()) ==> packet.payload.len() == 1162
            &&& forall|j: int|
                0 <= j < packet.payload.len() ==> packet.payload[j] == payload[i * 1162 + j]
            &&& i == 0 ==> packet.flags == if packet_total(payload.len()) == 1 {
                frame_flags | 0x02
            } else {
                frame_flags
            }
            &&& i > 0 ==> packet.flags == if i + 1 == packet_total(payload.len()) {
                0x02u16
            } else {
                0
            }
        }),
{
    lemma_slices(payload.len(), i);
    lemma_slices(payload.len(), packet_total(payload.len()) - 1);
    assert(0u16 | 0x02u16 == 0x02u16) by (bit_vector);
    let n = packet_total(payload.len()) as int;
    let length = payload.len() as int;
    assert(n == (length + 1161) / 1162);
    assert((n - 1) * 1162 < length <= n * 1162);
    assert((n - 1) * LEGACY_MEDIA_PAYLOAD == (n - 1) * 1162);
    assert(i * LEGACY_MEDIA_PAYLOAD == i * 1162);
}

/// The packets of a synthetic frame hold its bytes, tell a keyframe, and are filled with one
/// byte that moves with the frame and the packet.
pub proof fn law_synthetic_packets_tell_their_frame(
    header: FrameHeader,
    len: nat,
    keyframe: bool,
    i: int,
)
    requires
        0 < len <= MAX_VIDEO_FRAME_BYTES,
        0 <= i < packet_total(len),
    ensures
        (packet_total(len) - 1) * 1162 < len <= packet_total(len) * 1162,
        ({
            let packet = filled_packet(header, len, keyframe, i);
            &&& packet.stream_id == 1
            &&& packet.session_id == header.session_id
            &&& packet.frame_id == header.frame_id
            &&& packet.timestamp_ms == header.timestamp_ms
            &&& packet.packet_index == i
            &&& packet.packet_count == packet_total(len)
            &&& packet.payload.len() == if i + 1 < packet_total(len) {
                1162
            } else {
                len - i * 1162
            }
            &&& forall|j: int|
                0 <= j < packet.payload.len() ==> packet.payload[j] == (header.frame_id + i) % 256
            &&& packet.flags == if keyframe {
                0x01u16
            } else {
                0
            } | if i + 1 == packet_total(len) {
                0x02u16
            } else {
                0
            }
        }),
{
    lemma_slices(len, i);
    lemma_slices(len, packet_total(len) - 1);
    assert(0x01u16 | 0u16 == 0x01u16) by (bit_vector);
    assert(0u16 | 0u16 == 0u16) by (bit_vector);
    let n = packet_total(len) as int;
    assert(n == (len as int + 1161) / 1162);
    assert((n - 1) * 1162 < len as int <= n * 1162);
    assert((n - 1) * LEGACY_MEDIA_PAYLOAD == (n - 1) * 1162);
    assert(i * LEGACY_MEDIA_PAYLOAD == i * 1162);
}

/// Datagrams may be 576 to 1472 bytes long.
pub proof fn law_datagram_sizes(value: int)
    ensures
        payload_size_ok(value) == (576 <= value <= 1472),
{
}

} // verus!
