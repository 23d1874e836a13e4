//! Control messages between the two ends of a stream.
//!
//! Five messages share one header: a magic word, a version byte and three
//! bytes that are reserved or specific to the message.  All integers are
//! big-endian.  For each message `wire` gives the bytes of a value, `parse`
//! the value of some bytes, and `check` the first rule that a value breaks.

use vstd::prelude::*;

use crate::text;
use crate::text::push_decimal;
use crate::wire;
use crate::wire::{push_u32, push_u64, read_u32, read_u64};

verus! {

broadcast use crate::wire::group_wire;

/// `MCFB`
pub const CAPABILITY_MAGIC: u32 = 0x4d43_4642;

/// `MPRF`
pub const PROFILE_CHANGE_MAGIC: u32 = 0x4d50_5246;

/// `MPAK`
pub const PROFILE_ACK_MAGIC: u32 = 0x4d50_414b;

/// `MCLS`
pub const STREAM_CLOSE_MAGIC: u32 = 0x4d43_4c53;

/// `MCLA`
pub const STREAM_CLOSE_ACK_MAGIC: u32 = 0x4d43_4c41;

pub const MEDIA_CONTROL_VERSION: u8 = 1;

pub const CAPABILITY_FEEDBACK_VERSION: u8 = 2;

pub const CAPABILITY_FEEDBACK_V1_LEN: usize = 112;

pub const CAPABILITY_FEEDBACK_LEN: usize = 144;

pub const PROFILE_CHANGE_LEN: usize = 65;

pub const PROFILE_ACK_LEN: usize = 40;

pub const STREAM_CLOSE_LEN: usize = 40;

pub const STREAM_CLOSE_ACK_LEN: usize = 24;

/// Two seconds, in nanoseconds.
pub const CAPABILITY_STALE_AFTER: u64 = 2_000_000_000;

pub const FEEDBACK_FLAG_SAMPLE_ELIGIBLE: u32 = 0x01;

pub const FEEDBACK_FLAG_RENDER_READY: u32 = 0x02;

pub const FEEDBACK_FLAG_PROFILE_SETTLED: u32 = 0x04;

pub const FEEDBACK_FLAG_FIRST_IDR_DECODED: u32 = 0x08;

pub const FEEDBACK_FLAG_FIRST_FRAME_RENDERED: u32 = 0x10;

pub const FEEDBACK_FLAG_PROFILE_TRANSITION_ACTIVE: u32 = 0x20;

pub const FEEDBACK_FLAG_PROFILE_ACKNOWLEDGED: u32 = 0x40;

/// All flags that have a meaning.
pub const FEEDBACK_KNOWN_FLAGS: u32 = 0x7f;

pub const PROFILE_ACK_STATUS_ACCEPTED: u8 = 1;

pub const PROFILE_ACK_STATUS_REJECTED: u8 = 2;

pub const PROFILE_ACK_REASON_NONE: u8 = 0;

/// The largest display width and height that a message may carry.
pub const MAX_DISPLAY_EXTENT: u32 = 32_768;

/// A measured rate or duration as it travels: an IEEE 754 single-precision
/// number, held by its bit pattern.
#[derive(Clone, Copy, Debug, PartialEq, Eq, Structural)]
pub struct Metric {
    pub bits: u32,
}

/// The bit patterns of 0.1, 1000.0 and 10000.0.
pub const TENTH_BITS: u32 = 0x3dcc_cccd;

pub const THOUSAND_BITS: u32 = 0x447a_0000;

pub const TEN_THOUSAND_BITS: u32 = 0x461c_4000;

/// The bit pattern of negative zero.
pub const NEGATIVE_ZERO_BITS: u32 = 0x8000_0000;

impl Metric {
    /// Finite and between zero and the positive number with the bit pattern
    /// `max`: non-negative numbers are ordered as their bit patterns are, and
    /// negative zero equals zero.
    pub open spec fn within(self, max: u32) -> bool {
        self.bits <= max || self.bits == NEGATIVE_ZERO_BITS
    }

    /// Tests `within`.
    pub fn is_within(self, max: u32) -> (r: bool)
        ensures
            r == self.within(max),
    {
        self.bits <= max || self.bits == NEGATIVE_ZERO_BITS
    }
}

/// The measurements of a capability feedback that are bounded.
#[derive(Clone, Copy, Debug, PartialEq, Eq, Structural)]
pub enum MetricName {
    PresentFpsMeasured,
    PresentIntervalP95Ms,
    ActiveRenderFps,
    DecoderInputFps,
}

/// Why a control message was refused.
#[derive(Clone, Copy, Debug, PartialEq, Eq, Structural)]
pub enum ControlError {
    NotFeedback,
    FeedbackVersion { version: u8 },
    FeedbackLength { version: u8, length: usize },
    FeedbackReserved,
    FeedbackSessionZero,
    FeedbackDenominatorZero,
    FeedbackRefresh { numerator: u32, denominator: u32 },
    FeedbackDimensions,
    FeedbackMetric { name: MetricName },
    FeedbackFlags,
    FeedbackOtherSession,
    FeedbackSequence,
    NotProfileChange,
    ProfileChangeHeader,
    ProfileChangeSessions,
    ProfileChangeDimensions,
    ProfileChangeRate,
    ProfileChangeReason,
    NotProfileAck,
    ProfileAckHeader,
    ProfileAckFields,
    ProfileAckAcceptedReason,
    NotStreamClose,
    StreamCloseHeader,
    StreamCloseFields,
    NotStreamCloseAck,
    StreamCloseAckHeader,
    StreamCloseAckFields,
}

// Stream close and its acknowledgement.

/// Announces that one end stops sending a stream.
#[derive(Clone, Copy, Debug, PartialEq, Eq, Structural)]
pub struct StreamClose {
    pub version: u8,
    pub stream_id: u8,
    pub reason_code: u8,
    pub video_session_id: u64,
    pub close_id: u64,
    pub timestamp_us: u64,
    pub last_frame_id: u64,
}

/// Confirms a `StreamClose`.
#[derive(Clone, Copy, Debug, PartialEq, Eq, Structural)]
pub struct StreamCloseAck {
    pub version: u8,
    pub stream_id: u8,
    pub video_session_id: u64,
    pub close_id: u64,
}

/// Whether `bytes` begin with the magic word `magic`.
pub open spec fn starts_with_magic(bytes: Seq<u8>, magic: u32) -> bool {
    bytes.len() >= 4 && wire::be_at(bytes, 0, 4) == magic
}

fn has_magic(bytes: &[u8], magic: u32) -> (r: bool)
    ensures
        r == starts_with_magic(bytes@, magic),
{
    bytes.len() >= 4 && read_u32(bytes, 0) == magic
}

impl StreamClose {
    /// The first rule that the fields break.
    pub open spec fn check(self) -> Result<(), ControlError> {
        if self.version != MEDIA_CONTROL_VERSION || self.stream_id == 0 || self.reason_code == 0
            || self.close_id == 0 {
            Err(ControlError::StreamCloseFields)
        } else {
            Ok(())
        }
    }

    /// The bytes of the message.
    pub open spec fn wire(self) -> Seq<u8> {
        wire::be_bytes(STREAM_CLOSE_MAGIC as nat, 4).push(self.version).push(
            self.stream_id,
        ).push(self.reason_code).push(0) + wire::be_bytes(self.video_session_id as nat, 8)
            + wire::be_bytes(self.close_id as nat, 8) + wire::be_bytes(
            self.timestamp_us as nat,
            8,
        ) + wire::be_bytes(self.last_frame_id as nat, 8)
    }

    /// The value that `bytes` carry, or the first rule that they break.
    pub open spec fn parse(bytes: Seq<u8>) -> Result<StreamClose, ControlError> {
        if bytes.len() != STREAM_CLOSE_LEN || !starts_with_magic(bytes, STREAM_CLOSE_MAGIC) {
            Err(ControlError::NotStreamClose)
        } else if bytes[4] != MEDIA_CONTROL_VERSION || bytes[7] != 0 {
            Err(ControlError::StreamCloseHeader)
        } else {
            let close = StreamClose {
                version: bytes[4],
                stream_id: bytes[5],
                reason_code: bytes[6],
                video_session_id: wire::be_at(bytes, 8, 8) as u64,
                close_id: wire::be_at(bytes, 16, 8) as u64,
                timestamp_us: wire::be_at(bytes, 24, 8) as u64,
                last_frame_id: wire::be_at(bytes, 32, 8) as u64,
            };
            match close.check() {
                Ok(_) => Ok(close),
                Err(error) => Err(error),
            }
        }
    }

    /// Encodes a valid message.
    pub fn encode(self) -> (r: Result<Vec<u8>, ControlError>)
        ensures
            match self.check() {
                Ok(_) => r is Ok && r->Ok_0@ == self.wire(),
                Err(error) => r == Err::<Vec<u8>, ControlError>(error),
            },
    {
        self.validate()?;
        let mut output: Vec<u8> = Vec::with_capacity(STREAM_CLOSE_LEN);
        push_u32(&mut output, STREAM_CLOSE_MAGIC);
        output.push(self.version);
        output.push(self.stream_id);
        output.push(self.reason_code);
        output.push(0);
        push_u64(&mut output, self.video_session_id);
        push_u64(&mut output, self.close_id);
        push_u64(&mut output, self.timestamp_us);
        push_u64(&mut output, self.last_frame_id);
        assert(output@ =~= self.wire());
        Ok(output)
    }

    /// Decodes a message.
    pub fn decode(bytes: &[u8]) -> (r: Result<StreamClose, ControlError>)
        ensures
            r == Self::parse(bytes@),
    {
        if bytes.len() != STREAM_CLOSE_LEN || !has_magic(bytes, STREAM_CLOSE_MAGIC) {
            return Err(ControlError::NotStreamClose);
        }
        if bytes[4] != MEDIA_CONTROL_VERSION || bytes[7] != 0 {
            return Err(ControlError::StreamCloseHeader);
        }
        let close = StreamClose {
            version: bytes[4],
            stream_id: bytes[5],
            reason_code: bytes[6],
            video_session_id: read_u64(bytes, 8),
            close_id: read_u64(bytes, 16),
            timestamp_us: read_u64(bytes, 24),
            last_frame_id: read_u64(bytes, 32),
        };
        close.validate()?;
        Ok(close)
    }

    /// Checks the fields.
    pub fn validate(self) -> (r: Result<(), ControlError>)
        ensures
            r == self.check(),
    {
        if self.version != MEDIA_CONTROL_VERSION || self.stream_id == 0 || self.reason_code == 0
            || self.close_id == 0 {
            return Err(ControlError::StreamCloseFields);
        }
        Ok(())
    }

    /// The acknowledgement of this message.
    pub open spec fn acknowledgement(self) -> StreamCloseAck {
        StreamCloseAck {
            version: MEDIA_CONTROL_VERSION,
            stream_id: self.stream_id,
            video_session_id: self.video_session_id,
            close_id: self.close_id,
        }
    }

    /// Makes the acknowledgement of this message.
    pub fn ack(self) -> (r: StreamCloseAck)
        ensures
            r == self.acknowledgement(),
    {
        StreamCloseAck {
            version: MEDIA_CONTROL_VERSION,
            stream_id: self.stream_id,
            video_session_id: self.video_session_id,
            close_id: self.close_id,
        }
    }
}

/// Decoding an encoded stream close gives it back.
pub proof fn law_stream_close_round_trip(close: StreamClose)
    requires
        close.check() is Ok,
    ensures
        StreamClose::parse(close.wire()) == Ok::<StreamClose, ControlError>(close),
        close.wire().len() == STREAM_CLOSE_LEN,
{
    let w = close.wire();
    assert(w.subrange(0, 4) =~= wire::be_bytes(STREAM_CLOSE_MAGIC as nat, 4));
    assert(w.subrange(8, 16) =~= wire::be_bytes(close.video_session_id as nat, 8));
    assert(w.subrange(16, 24) =~= wire::be_bytes(close.close_id as nat, 8));
    assert(w.subrange(24, 32) =~= wire::be_bytes(close.timestamp_us as nat, 8));
    assert(w.subrange(32, 40) =~= wire::be_bytes(close.last_frame_id as nat, 8));
}

/// Bytes that decode are the encoding of what they decode to.
pub proof fn law_stream_close_canonical(bytes: Seq<u8>)
    requires
        StreamClose::parse(bytes) is Ok,
    ensures
        StreamClose::parse(bytes)->Ok_0.check() is Ok,
        StreamClose::parse(bytes)->Ok_0.wire() == bytes,
{
    let close = StreamClose::parse(bytes)->Ok_0;
    wire::lemma_field(bytes, 0, 4);
    wire::lemma_field(bytes, 8, 8);
    wire::lemma_field(bytes, 16, 8);
    wire::lemma_field(bytes, 24, 8);
    wire::lemma_field(bytes, 32, 8);
    assert(close.wire() =~= bytes);
}

impl StreamCloseAck {
    /// The first rule that the fields break.
    pub open spec fn check(self) -> Result<(), ControlError> {
        if self.version != MEDIA_CONTROL_VERSION || self.stream_id == 0 || self.close_id == 0 {
            Err(ControlError::StreamCloseAckFields)
        } else {
            Ok(())
        }
    }

    /// The bytes of the message.
    pub open spec fn wire(self) -> Seq<u8> {
        wire::be_bytes(STREAM_CLOSE_ACK_MAGIC as nat, 4).push(self.version).push(
            self.stream_id,
        ).push(0).push(0) + wire::be_bytes(self.video_session_id as nat, 8) + wire::be_bytes(
            self.close_id as nat,
            8,
        )
    }

    /// The value that `bytes` carry, or the first rule that they break.
    pub open spec fn parse(bytes: Seq<u8>) -> Result<StreamCloseAck, ControlError> {
        if bytes.len() != STREAM_CLOSE_ACK_LEN || !starts_with_magic(
            bytes,
            STREAM_CLOSE_ACK_MAGIC,
        ) {
            Err(ControlError::NotStreamCloseAck)
        } else if bytes[4] != MEDIA_CONTROL_VERSION || bytes[6] != 0 || bytes[7] != 0 {
            Err(ControlError::StreamCloseAckHeader)
        } else {
            let ack = StreamCloseAck {
                version: bytes[4],
                stream_id: bytes[5],
                video_session_id: wire::be_at(bytes, 8, 8) as u64,
                close_id: wire::be_at(bytes, 16, 8) as u64,
            };
            match ack.check() {
                Ok(_) => Ok(ack),
                Err(error) => Err(error),
            }
        }
    }

    /// Whether this acknowledges `close`: same stream, session and close id.
    pub open spec fn acknowledges(self, close: StreamClose) -> bool {
        self.stream_id == close.stream_id && self.video_session_id == close.video_session_id
            && self.close_id == close.close_id
    }

    /// Encodes a valid message.
    pub fn encode(self) -> (r: Result<Vec<u8>, ControlError>)
        ensures
            match self.check() {
                Ok(_) => r is Ok && r->Ok_0@ == self.wire(),
                Err(error) => r == Err::<Vec<u8>, ControlError>(error),
            },
    {
        self.validate()?;
        let mut output: Vec<u8> = Vec::with_capacity(STREAM_CLOSE_ACK_LEN);
        push_u32(&mut output, STREAM_CLOSE_ACK_MAGIC);
        output.push(self.version);
        output.push(self.stream_id);
        output.push(0);
        output.push(0);
        push_u64(&mut output, self.video_session_id);
        push_u64(&mut output, self.close_id);
        assert(output@ =~= self.wire());
        Ok(output)
    }

    /// Decodes a message.
    pub fn decode(bytes: &[u8]) -> (r: Result<StreamCloseAck, ControlError>)
        ensures
            r == Self::parse(bytes@),
    {
        if bytes.len() != STREAM_CLOSE_ACK_LEN || !has_magic(bytes, STREAM_CLOSE_ACK_MAGIC) {
            return Err(ControlError::NotStreamCloseAck);
        }
        if bytes[4] != MEDIA_CONTROL_VERSION || bytes[6] != 0 || bytes[7] != 0 {
            return Err(ControlError::StreamCloseAckHeader);
        }
        let ack = StreamCloseAck {
            version: bytes[4],
            stream_id: bytes[5],
            video_session_id: read_u64(bytes, 8),
            close_id: read_u64(bytes, 16),
        };
        ack.validate()?;
        Ok(ack)
    }

    /// Checks the fields.
    pub fn validate(self) -> (r: Result<(), ControlError>)
        ensures
            r == self.check(),
    {
        if self.version != MEDIA_CONTROL_VERSION || self.stream_id == 0 || self.close_id == 0 {
            return Err(ControlError::StreamCloseAckFields);
        }
        Ok(())
    }

    /// Whether this acknowledges `close`.
    pub fn matches(self, close: StreamClose) -> (r: bool)
        ensures
            r == self.acknowledges(close),
    {
        self.stream_id == close.stream_id && self.video_session_id == close.video_session_id
            && self.close_id == close.close_id
    }
}

/// Decoding an encoded acknowledgement gives it back.
pub proof fn law_stream_close_ack_round_trip(ack: StreamCloseAck)
    requires
        ack.check() is Ok,
    ensures
        StreamCloseAck::parse(ack.wire()) == Ok::<StreamCloseAck, ControlError>(ack),
        ack.wire().len() == STREAM_CLOSE_ACK_LEN,
{
    let w = ack.wire();
    assert(w.subrange(0, 4) =~= wire::be_bytes(STREAM_CLOSE_ACK_MAGIC as nat, 4));
    assert(w.subrange(8, 16) =~= wire::be_bytes(ack.video_session_id as nat, 8));
    assert(w.subrange(16, 24) =~= wire::be_bytes(ack.close_id as nat, 8));
}

/// Bytes that decode are the encoding of what they decode to.
pub proof fn law_stream_close_ack_canonical(bytes: Seq<u8>)
    requires
        StreamCloseAck::parse(bytes) is Ok,
    ensures
        StreamCloseAck::parse(bytes)->Ok_0.check() is Ok,
        StreamCloseAck::parse(bytes)->Ok_0.wire() == bytes,
{
    let ack = StreamCloseAck::parse(bytes)->Ok_0;
    wire::lemma_field(bytes, 0, 4);
    wire::lemma_field(bytes, 8, 8);
    wire::lemma_field(bytes, 16, 8);
    assert(ack.wire() =~= bytes);
}

// Profile changes and their acknowledgements.

/// Announces that the sender moves to a new session with another profile.
#[derive(Clone, Copy, Debug, PartialEq, Eq, Structural)]
pub struct ProfileChange {
    pub version: u8,
    pub old_session_id: u64,
    pub new_session_id: u64,
    pub change_sequence: u64,
    pub profile_generation: u64,
    pub width: u32,
    pub height: u32,
    pub fps: u32,
    pub bitrate_mbps: Metric,
    pub timestamp_us: u64,
    pub reason_code: u8,
}

/// Answers a `ProfileChange`.
#[derive(Clone, Copy, Debug, PartialEq, Eq, Structural)]
pub struct ProfileAck {
    pub version: u8,
    pub status: u8,
    pub reason_code: u8,
    pub old_session_id: u64,
    pub new_session_id: u64,
    pub change_sequence: u64,
    pub profile_generation: u64,
}

impl ProfileChange {
    /// The first rule that the fields break.
    pub open spec fn check(self) -> Result<(), ControlError> {
        if self.version != MEDIA_CONTROL_VERSION || self.old_session_id == 0 || self.new_session_id
            == 0 || self.old_session_id == self.new_session_id || self.change_sequence == 0
            || self.profile_generation == 0 {
            Err(ControlError::ProfileChangeSessions)
        } else if self.width == 0 || self.height == 0 || self.width % 2 != 0 || self.height % 2 != 0
            || self.width > MAX_DISPLAY_EXTENT || self.height > MAX_DISPLAY_EXTENT {
            Err(ControlError::ProfileChangeDimensions)
        } else if !(1 <= self.fps <= 240) || !(TENTH_BITS <= self.bitrate_mbps.bits
            <= THOUSAND_BITS) {
            Err(ControlError::ProfileChangeRate)
        } else if !(1 <= self.reason_code <= 3) {
            Err(ControlError::ProfileChangeReason)
        } else {
            Ok(())
        }
    }

    /// The bytes of the message.
    pub open spec fn wire(self) -> Seq<u8> {
        (wire::be_bytes(PROFILE_CHANGE_MAGIC as nat, 4).push(MEDIA_CONTROL_VERSION).push(0).push(
            0,
        ).push(0) + wire::be_bytes(self.old_session_id as nat, 8) + wire::be_bytes(
            self.new_session_id as nat,
            8,
        ) + wire::be_bytes(self.change_sequence as nat, 8) + wire::be_bytes(
            self.profile_generation as nat,
            8,
        ) + wire::be_bytes(self.width as nat, 4) + wire::be_bytes(self.height as nat, 4)
            + wire::be_bytes(self.fps as nat, 4) + wire::be_bytes(self.bitrate_mbps.bits as nat, 4)
            + wire::be_bytes(self.timestamp_us as nat, 8)).push(self.reason_code)
    }

    /// The value that `bytes` carry, or the first rule that they break.
    pub open spec fn parse(bytes: Seq<u8>) -> Result<ProfileChange, ControlError> {
        if bytes.len() != PROFILE_CHANGE_LEN || !starts_with_magic(bytes, PROFILE_CHANGE_MAGIC) {
            Err(ControlError::NotProfileChange)
        } else if bytes[4] != MEDIA_CONTROL_VERSION || bytes[5] != 0 || bytes[6] != 0 || bytes[7]
            != 0 {
            Err(ControlError::ProfileChangeHeader)
        } else {
            let change = ProfileChange {
                version: bytes[4],
                old_session_id: wire::be_at(bytes, 8, 8) as u64,
                new_session_id: wire::be_at(bytes, 16, 8) as u64,
                change_sequence: wire::be_at(bytes, 24, 8) as u64,
                profile_generation: wire::be_at(bytes, 32, 8) as u64,
                width: wire::be_at(bytes, 40, 4) as u32,
                height: wire::be_at(bytes, 44, 4) as u32,
                fps: wire::be_at(bytes, 48, 4) as u32,
                bitrate_mbps: Metric { bits: wire::be_at(bytes, 52, 4) as u32 },
                timestamp_us: wire::be_at(bytes, 56, 8) as u64,
                reason_code: bytes[64],
            };
            match change.check() {
                Ok(_) => Ok(change),
                Err(error) => Err(error),
            }
        }
    }

    /// Encodes a valid message.
    pub fn encode(self) -> (r: Result<Vec<u8>, ControlError>)
        ensures
            match self.check() {
                Ok(_) => r is Ok && r->Ok_0@ == self.wire(),
                Err(error) => r == Err::<Vec<u8>, ControlError>(error),
            },
    {
        self.validate()?;
        let mut output: Vec<u8> = Vec::with_capacity(PROFILE_CHANGE_LEN);
        push_u32(&mut output, PROFILE_CHANGE_MAGIC);
        output.push(MEDIA_CONTROL_VERSION);
        output.push(0);
        output.push(0);
        output.push(0);
        push_u64(&mut output, self.old_session_id);
        push_u64(&mut output, self.new_session_id);
        push_u64(&mut output, self.change_sequence);
        push_u64(&mut output, self.profile_generation);
        push_u32(&mut output, self.width);
        push_u32(&mut output, self.height);
        push_u32(&mut output, self.fps);
        push_u32(&mut output, self.bitrate_mbps.bits);
        push_u64(&mut output, self.timestamp_us);
        output.push(self.reason_code);
        assert(output@ =~= self.wire());
        Ok(output)
    }

    /// Decodes a message.
    pub fn decode(bytes: &[u8]) -> (r: Result<ProfileChange, ControlError>)
        ensures
            r == Self::parse(bytes@),
    {
        if bytes.len() != PROFILE_CHANGE_LEN || !has_magic(bytes, PROFILE_CHANGE_MAGIC) {
            return Err(ControlError::NotProfileChange);
        }
        if bytes[4] != MEDIA_CONTROL_VERSION || bytes[5] != 0 || bytes[6] != 0 || bytes[7] != 0 {
            return Err(ControlError::ProfileChangeHeader);
        }
        let change = ProfileChange {
            version: bytes[4],
            old_session_id: read_u64(bytes, 8),
            new_session_id: read_u64(bytes, 16),
            change_sequence: read_u64(bytes, 24),
            profile_generation: read_u64(bytes, 32),
            width: read_u32(bytes, 40),
            height: read_u32(bytes, 44),
            fps: read_u32(bytes, 48),
            bitrate_mbps: Metric { bits: read_u32(bytes, 52) },
            timestamp_us: read_u64(bytes, 56),
            reason_code: bytes[64],
        };
        change.validate()?;
        Ok(change)
    }

    /// Checks the fields.
    pub fn validate(self) -> (r: Result<(), ControlError>)
        ensures
            r == self.check(),
    {
        if self.version != MEDIA_CONTROL_VERSION || self.old_session_id == 0 || self.new_session_id
            == 0 || self.old_session_id == self.new_session_id || self.change_sequence == 0
            || self.profile_generation == 0 {
            return Err(ControlError::ProfileChangeSessions);
        }
        if self.width == 0 || self.height == 0 || self.width % 2 != 0 || self.height % 2 != 0
            || self.width > MAX_DISPLAY_EXTENT || self.height > MAX_DISPLAY_EXTENT {
            return Err(ControlError::ProfileChangeDimensions);
        }
        if self.fps < 1 || self.fps > 240 || self.bitrate_mbps.bits < TENTH_BITS
            || self.bitrate_mbps.bits > THOUSAND_BITS {
            return Err(ControlError::ProfileChangeRate);
        }
        if self.reason_code < 1 || self.reason_code > 3 {
            return Err(ControlError::ProfileChangeReason);
        }
        Ok(())
    }
}

/// Decoding an encoded profile change gives it back.
pub proof fn law_profile_change_round_trip(change: ProfileChange)
    requires
        change.check() is Ok,
    ensures
        ProfileChange::parse(change.wire()) == Ok::<ProfileChange, ControlError>(change),
        change.wire().len() == PROFILE_CHANGE_LEN,
{
    let w = change.wire();
    assert(w.subrange(0, 4) =~= wire::be_bytes(PROFILE_CHANGE_MAGIC as nat, 4));
    assert(w.subrange(8, 16) =~= wire::be_bytes(change.old_session_id as nat, 8));
    assert(w.subrange(16, 24) =~= wire::be_bytes(change.new_session_id as nat, 8));
    assert(w.subrange(24, 32) =~= wire::be_bytes(change.change_sequence as nat, 8));
    assert(w.subrange(32, 40) =~= wire::be_bytes(change.profile_generation as nat, 8));
    assert(w.subrange(40, 44) =~= wire::be_bytes(change.width as nat, 4));
    assert(w.subrange(44, 48) =~= wire::be_bytes(change.height as nat, 4));
    assert(w.subrange(48, 52) =~= wire::be_bytes(change.fps as nat, 4));
    assert(w.subrange(52, 56) =~= wire::be_bytes(change.bitrate_mbps.bits as nat, 4));
    assert(w.subrange(56, 64) =~= wire::be_bytes(change.timestamp_us as nat, 8));
}

/// Bytes that decode are the encoding of what they decode to.
pub proof fn law_profile_change_canonical(bytes: Seq<u8>)
    requires
        ProfileChange::parse(bytes) is Ok,
    ensures
        ProfileChange::parse(bytes)->Ok_0.check() is Ok,
        ProfileChange::parse(bytes)->Ok_0.wire() == bytes,
{
    let change = ProfileChange::parse(bytes)->Ok_0;
    wire::lemma_field(bytes, 0, 4);
    wire::lemma_field(bytes, 8, 8);
    wire::lemma_field(bytes, 16, 8);
    wire::lemma_field(bytes, 24, 8);
    wire::lemma_field(bytes, 32, 8);
    wire::lemma_field(bytes, 40, 4);
    wire::lemma_field(bytes, 44, 4);
    wire::lemma_field(bytes, 48, 4);
    wire::lemma_field(bytes, 52, 4);
    wire::lemma_field(bytes, 56, 8);
    assert(change.wire() =~= bytes);
}

impl ProfileAck {
    /// The first rule that the fields break.
    pub open spec fn check(self) -> Result<(), ControlError> {
        if self.version != MEDIA_CONTROL_VERSION || (self.status != PROFILE_ACK_STATUS_ACCEPTED
            && self.status != PROFILE_ACK_STATUS_REJECTED) || self.old_session_id == 0
            || self.new_session_id == 0 || self.old_session_id == self.new_session_id
            || self.change_sequence == 0 || self.profile_generation == 0 {
            Err(ControlError::ProfileAckFields)
        } else if self.status == PROFILE_ACK_STATUS_ACCEPTED && self.reason_code
            != PROFILE_ACK_REASON_NONE {
            Err(ControlError::ProfileAckAcceptedReason)
        } else {
            Ok(())
        }
    }

    /// The bytes of the message.
    pub open spec fn wire(self) -> Seq<u8> {
        wire::be_bytes(PROFILE_ACK_MAGIC as nat, 4).push(self.version).push(self.status).push(
            self.reason_code,
        ).push(0) + wire::be_bytes(self.old_session_id as nat, 8) + wire::be_bytes(
            self.new_session_id as nat,
            8,
        ) + wire::be_bytes(self.change_sequence as nat, 8) + wire::be_bytes(
            self.profile_generation as nat,
            8,
        )
    }

    /// The value that `bytes` carry, or the first rule that they break.
    pub open spec fn parse(bytes: Seq<u8>) -> Result<ProfileAck, ControlError> {
        if bytes.len() != PROFILE_ACK_LEN || !starts_with_magic(bytes, PROFILE_ACK_MAGIC) {
            Err(ControlError::NotProfileAck)
        } else if bytes[4] != MEDIA_CONTROL_VERSION || bytes[7] != 0 {
            Err(ControlError::ProfileAckHeader)
        } else {
            let ack = ProfileAck {
                version: bytes[4],
                status: bytes[5],
                reason_code: bytes[6],
                old_session_id: wire::be_at(bytes, 8, 8) as u64,
                new_session_id: wire::be_at(bytes, 16, 8) as u64,
                change_sequence: wire::be_at(bytes, 24, 8) as u64,
                profile_generation: wire::be_at(bytes, 32, 8) as u64,
            };
            match ack.check() {
                Ok(_) => Ok(ack),
                Err(error) => Err(error),
            }
        }
    }

    /// The acknowledgement that accepts `change`.
    pub fn accepted(change: ProfileChange) -> (r: ProfileAck)
        ensures
            r == (ProfileAck {
                version: MEDIA_CONTROL_VERSION,
                status: PROFILE_ACK_STATUS_ACCEPTED,
                reason_code: PROFILE_ACK_REASON_NONE,
                old_session_id: change.old_session_id,
                new_session_id: change.new_session_id,
                change_sequence: change.change_sequence,
                profile_generation: change.profile_generation,
            }),
            change.check() is Ok ==> r.check() is Ok,
    {
        ProfileAck {
            version: MEDIA_CONTROL_VERSION,
            status: PROFILE_ACK_STATUS_ACCEPTED,
            reason_code: PROFILE_ACK_REASON_NONE,
            old_session_id: change.old_session_id,
            new_session_id: change.new_session_id,
            change_sequence: change.change_sequence,
            profile_generation: change.profile_generation,
        }
    }

    /// Whether the change was accepted.
    pub fn is_accepted(self) -> (r: bool)
        ensures
            r == (self.status == PROFILE_ACK_STATUS_ACCEPTED),
    {
        self.status == PROFILE_ACK_STATUS_ACCEPTED
    }

    /// Encodes a valid message.
    pub fn encode(self) -> (r: Result<Vec<u8>, ControlError>)
        ensures
            match self.check() {
                Ok(_) => r is Ok && r->Ok_0@ == self.wire(),
                Err(error) => r == Err::<Vec<u8>, ControlError>(error),
            },
    {
        self.validate()?;
        let mut output: Vec<u8> = Vec::with_capacity(PROFILE_ACK_LEN);
        push_u32(&mut output, PROFILE_ACK_MAGIC);
        output.push(self.version);
        output.push(self.status);
        output.push(self.reason_code);
        output.push(0);
        push_u64(&mut output, self.old_session_id);
        push_u64(&mut output, self.new_session_id);
        push_u64(&mut output, self.change_sequence);
        push_u64(&mut output, self.profile_generation);
        assert(output@ =~= self.wire());
        Ok(output)
    }

    /// Decodes a message.
    pub fn decode(bytes: &[u8]) -> (r: Result<ProfileAck, ControlError>)
        ensures
            r == Self::parse(bytes@),
    {
        if bytes.len() != PROFILE_ACK_LEN || !has_magic(bytes, PROFILE_ACK_MAGIC) {
            return Err(ControlError::NotProfileAck);
        }
        if bytes[4] != MEDIA_CONTROL_VERSION || bytes[7] != 0 {
            return Err(ControlError::ProfileAckHeader);
        }
        let ack = ProfileAck {
            version: bytes[4],
            status: bytes[5],
            reason_code: bytes[6],
            old_session_id: read_u64(bytes, 8),
            new_session_id: read_u64(bytes, 16),
            change_sequence: read_u64(bytes, 24),
            profile_generation: read_u64(bytes, 32),
        };
        ack.validate()?;
        Ok(ack)
    }

    /// Checks the fields.
    pub fn validate(self) -> (r: Result<(), ControlError>)
        ensures
            r == self.check(),
    {
        if self.version != MEDIA_CONTROL_VERSION || (self.status != PROFILE_ACK_STATUS_ACCEPTED
            && self.status != PROFILE_ACK_STATUS_REJECTED) || self.old_session_id == 0
            || self.new_session_id == 0 || self.old_session_id == self.new_session_id
            || self.change_sequence == 0 || self.profile_generation == 0 {
            return Err(ControlError::ProfileAckFields);
        }
        if self.status == PROFILE_ACK_STATUS_ACCEPTED && self.reason_code
            != PROFILE_ACK_REASON_NONE {
            return Err(ControlError::ProfileAckAcceptedReason);
        }
        Ok(())
    }
}

/// Decoding an encoded acknowledgement gives it back.
pub proof fn law_profile_ack_round_trip(ack: ProfileAck)
    requires
        ack.check() is Ok,
    ensures
        ProfileAck::parse(ack.wire()) == Ok::<ProfileAck, ControlError>(ack),
        ack.wire().len() == PROFILE_ACK_LEN,
{
    let w = ack.wire();
    assert(w.subrange(0, 4) =~= wire::be_bytes(PROFILE_ACK_MAGIC as nat, 4));
    assert(w.subrange(8, 16) =~= wire::be_bytes(ack.old_session_id as nat, 8));
    assert(w.subrange(16, 24) =~= wire::be_bytes(ack.new_session_id as nat, 8));
    assert(w.subrange(24, 32) =~= wire::be_bytes(ack.change_sequence as nat, 8));
    assert(w.subrange(32, 40) =~= wire::be_bytes(ack.profile_generation as nat, 8));
}

/// Bytes that decode are the encoding of what they decode to.
pub proof fn law_profile_ack_canonical(bytes: Seq<u8>)
    requires
        ProfileAck::parse(bytes) is Ok,
    ensures
        ProfileAck::parse(bytes)->Ok_0.check() is Ok,
        ProfileAck::parse(bytes)->Ok_0.wire() == bytes,
{
    let ack = ProfileAck::parse(bytes)->Ok_0;
    wire::lemma_field(bytes, 0, 4);
    wire::lemma_field(bytes, 8, 8);
    wire::lemma_field(bytes, 16, 8);
    wire::lemma_field(bytes, 24, 8);
    wire::lemma_field(bytes, 32, 8);
    assert(ack.wire() =~= bytes);
}

// Capability feedback.

/// What a receiver reports about its display, decoder and losses.
#[derive(Clone, Copy, Debug, PartialEq, Eq, Structural)]
pub struct CapabilityFeedback {
    pub version: u8,
    pub session_id: u64,
    pub feedback_sequence: u64,
    pub display_generation: u64,
    pub display_refresh_numerator: u32,
    pub display_refresh_denominator: u32,
    pub display_width: u32,
    pub display_height: u32,
    pub present_fps_measured: Metric,
    pub present_interval_p95_ms: Metric,
    pub active_render_fps: Metric,
    pub decoder_input_fps: Metric,
    pub decode_queue_drops_delta: u64,
    pub render_replacements_delta: u64,
    pub repair_deadline_missed_delta: u64,
    pub damaged_gop_delta: u64,
    pub packets_lost_delta: u64,
    pub timestamp_us: u64,
    pub profile_generation: u64,
    pub state_flags: u32,
    pub valid_feedback_windows: u32,
    pub transition_settle_windows: u32,
    pub transition_settle_duration_ms: u32,
    pub profile_transition_started_us: u64,
}

impl CapabilityFeedback {
    /// Feedback that says nothing.
    pub open spec fn blank() -> CapabilityFeedback {
        CapabilityFeedback {
            version: 0,
            session_id: 0,
            feedback_sequence: 0,
            display_generation: 0,
            display_refresh_numerator: 0,
            display_refresh_denominator: 0,
            display_width: 0,
            display_height: 0,
            present_fps_measured: Metric { bits: 0 },
            present_interval_p95_ms: Metric { bits: 0 },
            active_render_fps: Metric { bits: 0 },
            decoder_input_fps: Metric { bits: 0 },
            decode_queue_drops_delta: 0,
            render_replacements_delta: 0,
            repair_deadline_missed_delta: 0,
            damaged_gop_delta: 0,
            packets_lost_delta: 0,
            timestamp_us: 0,
            profile_generation: 0,
            state_flags: 0,
            valid_feedback_windows: 0,
            transition_settle_windows: 0,
            transition_settle_duration_ms: 0,
            profile_transition_started_us: 0,
        }
    }
}

impl Default for CapabilityFeedback {
    fn default() -> (r: CapabilityFeedback)
        ensures
            r == Self::blank(),
    {
        CapabilityFeedback {
            version: 0,
            session_id: 0,
            feedback_sequence: 0,
            display_generation: 0,
            display_refresh_numerator: 0,
            display_refresh_denominator: 0,
            display_width: 0,
            display_height: 0,
            present_fps_measured: Metric { bits: 0 },
            present_interval_p95_ms: Metric { bits: 0 },
            active_render_fps: Metric { bits: 0 },
            decoder_input_fps: Metric { bits: 0 },
            decode_queue_drops_delta: 0,
            render_replacements_delta: 0,
            repair_deadline_missed_delta: 0,
            damaged_gop_delta: 0,
            packets_lost_delta: 0,
            timestamp_us: 0,
            profile_generation: 0,
            state_flags: 0,
            valid_feedback_windows: 0,
            transition_settle_windows: 0,
            transition_settle_duration_ms: 0,
            profile_transition_started_us: 0,
        }
    }
}

/// The length of a feedback datagram of the given version.
pub open spec fn feedback_len(version: u8) -> Option<usize> {
    if version == 1 {
        Some(CAPABILITY_FEEDBACK_V1_LEN)
    } else if version == CAPABILITY_FEEDBACK_VERSION {
        Some(CAPABILITY_FEEDBACK_LEN)
    } else {
        None
    }
}

impl CapabilityFeedback {
    /// The refresh rate lies between 10 and 1000 Hz, or is not known.
    pub open spec fn refresh_ok(self) -> bool {
        self.display_refresh_numerator == 0 || 10 * self.display_refresh_denominator
            <= self.display_refresh_numerator <= 1000 * self.display_refresh_denominator
    }

    /// The first rule that the fields break.
    pub open spec fn check(self) -> Result<(), ControlError> {
        if self.version != 1 && self.version != CAPABILITY_FEEDBACK_VERSION {
            Err(ControlError::FeedbackVersion { version: self.version })
        } else if self.session_id == 0 {
            Err(ControlError::FeedbackSessionZero)
        } else if self.display_refresh_denominator == 0 {
            Err(ControlError::FeedbackDenominatorZero)
        } else if !self.refresh_ok() {
            Err(
                ControlError::FeedbackRefresh {
                    numerator: self.display_refresh_numerator,
                    denominator: self.display_refresh_denominator,
                },
            )
        } else if self.display_width > MAX_DISPLAY_EXTENT || self.display_height
            > MAX_DISPLAY_EXTENT {
            Err(ControlError::FeedbackDimensions)
        } else if !self.present_fps_measured.within(THOUSAND_BITS) {
            Err(ControlError::FeedbackMetric { name: MetricName::PresentFpsMeasured })
        } else if !self.present_interval_p95_ms.within(TEN_THOUSAND_BITS) {
            Err(ControlError::FeedbackMetric { name: MetricName::PresentIntervalP95Ms })
        } else if !self.active_render_fps.within(THOUSAND_BITS) {
            Err(ControlError::FeedbackMetric { name: MetricName::ActiveRenderFps })
        } else if !self.decoder_input_fps.within(THOUSAND_BITS) {
            Err(ControlError::FeedbackMetric { name: MetricName::DecoderInputFps })
        } else if self.state_flags & !FEEDBACK_KNOWN_FLAGS != 0 {
            Err(ControlError::FeedbackFlags)
        } else {
            Ok(())
        }
    }

    /// The bytes that both versions share.
    pub open spec fn common_wire(self) -> Seq<u8> {
        wire::be_bytes(CAPABILITY_MAGIC as nat, 4).push(self.version).push(0).push(0).push(0)
            + wire::be_bytes(self.session_id as nat, 8) + wire::be_bytes(
            self.feedback_sequence as nat,
            8,
        ) + wire::be_bytes(self.display_generation as nat, 8) + wire::be_bytes(
            self.display_refresh_numerator as nat,
            4,
        ) + wire::be_bytes(self.display_refresh_denominator as nat, 4) + wire::be_bytes(
            self.display_width as nat,
            4,
        ) + wire::be_bytes(self.display_height as nat, 4) + wire::be_bytes(
            self.present_fps_measured.bits as nat,
            4,
        ) + wire::be_bytes(self.present_interval_p95_ms.bits as nat, 4) + wire::be_bytes(
            self.active_render_fps.bits as nat,
            4,
        ) + wire::be_bytes(self.decoder_input_fps.bits as nat, 4) + wire::be_bytes(
            self.decode_queue_drops_delta as nat,
            8,
        ) + wire::be_bytes(self.render_replacements_delta as nat, 8) + wire::be_bytes(
            self.repair_deadline_missed_delta as nat,
            8,
        ) + wire::be_bytes(self.damaged_gop_delta as nat, 8) + wire::be_bytes(
            self.packets_lost_delta as nat,
            8,
        ) + wire::be_bytes(self.timestamp_us as nat, 8)
    }

    /// The bytes of the message.
    pub open spec fn wire(self) -> Seq<u8> {
        if self.version >= CAPABILITY_FEEDBACK_VERSION {
            self.common_wire() + wire::be_bytes(self.profile_generation as nat, 8) + wire::be_bytes(
                self.state_flags as nat,
                4,
            ) + wire::be_bytes(self.valid_feedback_windows as nat, 4) + wire::be_bytes(
                self.transition_settle_windows as nat,
                4,
            ) + wire::be_bytes(self.transition_settle_duration_ms as nat, 4) + wire::be_bytes(
                self.profile_transition_started_us as nat,
                8,
            )
        } else {
            self.common_wire()
        }
    }

    /// The value without what version 1 does not carry.
    pub open spec fn without_profile(self) -> CapabilityFeedback {
        CapabilityFeedback {
            profile_generation: 0,
            state_flags: 0,
            valid_feedback_windows: 0,
            transition_settle_windows: 0,
            transition_settle_duration_ms: 0,
            profile_transition_started_us: 0,
            ..self
        }
    }

    /// What a receiver of this message sees.
    pub open spec fn carried(self) -> CapabilityFeedback {
        if self.version >= CAPABILITY_FEEDBACK_VERSION {
            self
        } else {
            self.without_profile()
        }
    }

    /// The fields that stand in `bytes`.
    pub open spec fn fields(bytes: Seq<u8>) -> CapabilityFeedback {
        CapabilityFeedback {
            version: bytes[4],
            session_id: wire::be_at(bytes, 8, 8) as u64,
            feedback_sequence: wire::be_at(bytes, 16, 8) as u64,
            display_generation: wire::be_at(bytes, 24, 8) as u64,
            display_refresh_numerator: wire::be_at(bytes, 32, 4) as u32,
            display_refresh_denominator: wire::be_at(bytes, 36, 4) as u32,
            display_width: wire::be_at(bytes, 40, 4) as u32,
            display_height: wire::be_at(bytes, 44, 4) as u32,
            present_fps_measured: Metric { bits: wire::be_at(bytes, 48, 4) as u32 },
            present_interval_p95_ms: Metric { bits: wire::be_at(bytes, 52, 4) as u32 },
            active_render_fps: Metric { bits: wire::be_at(bytes, 56, 4) as u32 },
            decoder_input_fps: Metric { bits: wire::be_at(bytes, 60, 4) as u32 },
            decode_queue_drops_delta: wire::be_at(bytes, 64, 8) as u64,
            render_replacements_delta: wire::be_at(bytes, 72, 8) as u64,
            repair_deadline_missed_delta: wire::be_at(bytes, 80, 8) as u64,
            damaged_gop_delta: wire::be_at(bytes, 88, 8) as u64,
            packets_lost_delta: wire::be_at(bytes, 96, 8) as u64,
            timestamp_us: wire::be_at(bytes, 104, 8) as u64,
            profile_generation: if bytes[4] >= CAPABILITY_FEEDBACK_VERSION {
                wire::be_at(bytes, 112, 8) as u64
            } else {
                0
            },
            state_flags: if bytes[4] >= CAPABILITY_FEEDBACK_VERSION {
                wire::be_at(bytes, 120, 4) as u32
            } else {
                0
            },
            valid_feedback_windows: if bytes[4] >= CAPABILITY_FEEDBACK_VERSION {
                wire::be_at(bytes, 124, 4) as u32
            } else {
                0
            },
            transition_settle_windows: if bytes[4] >= CAPABILITY_FEEDBACK_VERSION {
                wire::be_at(bytes, 128, 4) as u32
            } else {
                0
            },
            transition_settle_duration_ms: if bytes[4] >= CAPABILITY_FEEDBACK_VERSION {
                wire::be_at(bytes, 132, 4) as u32
            } else {
                0
            },
            profile_transition_started_us: if bytes[4] >= CAPABILITY_FEEDBACK_VERSION {
                wire::be_at(bytes, 136, 8) as u64
            } else {
                0
            },
        }
    }

    /// The value that `bytes` carry, or the first rule that they break.
    pub open spec fn parse(bytes: Seq<u8>) -> Result<CapabilityFeedback, ControlError> {
        if bytes.len() < 5 || !starts_with_magic(bytes, CAPABILITY_MAGIC) {
            Err(ControlError::NotFeedback)
        } else {
            match feedback_len(bytes[4]) {
                None => Err(ControlError::FeedbackVersion { version: bytes[4] }),
                Some(expected) => if bytes.len() != expected {
                    Err(
                        ControlError::FeedbackLength {
                            version: bytes[4],
                            length: bytes.len() as usize,
                        },
                    )
                } else if bytes[5] != 0 || bytes[6] != 0 || bytes[7] != 0 {
                    Err(ControlError::FeedbackReserved)
                } else {
                    match Self::fields(bytes).check() {
                        Ok(_) => Ok(Self::fields(bytes)),
                        Err(error) => Err(error),
                    }
                },
            }
        }
    }

    /// Encodes a valid message.
    pub fn encode(self) -> (r: Result<Vec<u8>, ControlError>)
        ensures
            match self.check() {
                Ok(_) => r is Ok && r->Ok_0@ == self.wire(),
                Err(error) => r == Err::<Vec<u8>, ControlError>(error),
            },
    {
        self.validate()?;
        let output_len: usize = if self.version == 1 {
            CAPABILITY_FEEDBACK_V1_LEN
        } else {
            CAPABILITY_FEEDBACK_LEN
        };
        let mut output: Vec<u8> = Vec::with_capacity(output_len);
        push_u32(&mut output, CAPABILITY_MAGIC);
        output.push(self.version);
        output.push(0);
        output.push(0);
        output.push(0);
        push_u64(&mut output, self.session_id);
        push_u64(&mut output, self.feedback_sequence);
        push_u64(&mut output, self.display_generation);
        push_u32(&mut output, self.display_refresh_numerator);
        push_u32(&mut output, self.display_refresh_denominator);
        push_u32(&mut output, self.display_width);
        push_u32(&mut output, self.display_height);
        push_u32(&mut output, self.present_fps_measured.bits);
        push_u32(&mut output, self.present_interval_p95_ms.bits);
        push_u32(&mut output, self.active_render_fps.bits);
        push_u32(&mut output, self.decoder_input_fps.bits);
        push_u64(&mut output, self.decode_queue_drops_delta);
        push_u64(&mut output, self.render_replacements_delta);
        push_u64(&mut output, self.repair_deadline_missed_delta);
        push_u64(&mut output, self.damaged_gop_delta);
        push_u64(&mut output, self.packets_lost_delta);
        push_u64(&mut output, self.timestamp_us);
        assert(output@ == self.common_wire()) by {
            assert(Seq::<u8>::empty() + wire::be_bytes(CAPABILITY_MAGIC as nat, 4)
                =~= wire::be_bytes(CAPABILITY_MAGIC as nat, 4));
        }
        if self.version >= CAPABILITY_FEEDBACK_VERSION {
            push_u64(&mut output, self.profile_generation);
            push_u32(&mut output, self.state_flags);
            push_u32(&mut output, self.valid_feedback_windows);
            push_u32(&mut output, self.transition_settle_windows);
            push_u32(&mut output, self.transition_settle_duration_ms);
            push_u64(&mut output, self.profile_transition_started_us);
        }
        Ok(output)
    }

    /// Decodes a message.
    pub fn decode(bytes: &[u8]) -> (r: Result<CapabilityFeedback, ControlError>)
        ensures
            r == Self::parse(bytes@),
    {
        if bytes.len() < 5 || !has_magic(bytes, CAPABILITY_MAGIC) {
            return Err(ControlError::NotFeedback);
        }
        let version: u8 = bytes[4];
        let expected_len: usize = if version == 1 {
            CAPABILITY_FEEDBACK_V1_LEN
        } else if version == CAPABILITY_FEEDBACK_VERSION {
            CAPABILITY_FEEDBACK_LEN
        } else {
            return Err(ControlError::FeedbackVersion { version });
        };
        if bytes.len() != expected_len {
            return Err(ControlError::FeedbackLength { version, length: bytes.len() });
        }
        if bytes[5] != 0 || bytes[6] != 0 || bytes[7] != 0 {
            return Err(ControlError::FeedbackReserved);
        }
        let extended: bool = version >= CAPABILITY_FEEDBACK_VERSION;
        let decoded = CapabilityFeedback {
            version,
            session_id: read_u64(bytes, 8),
            feedback_sequence: read_u64(bytes, 16),
            display_generation: read_u64(bytes, 24),
            display_refresh_numerator: read_u32(bytes, 32),
            display_refresh_denominator: read_u32(bytes, 36),
            display_width: read_u32(bytes, 40),
            display_height: read_u32(bytes, 44),
            present_fps_measured: Metric { bits: read_u32(bytes, 48) },
            present_interval_p95_ms: Metric { bits: read_u32(bytes, 52) },
            active_render_fps: Metric { bits: read_u32(bytes, 56) },
            decoder_input_fps: Metric { bits: read_u32(bytes, 60) },
            decode_queue_drops_delta: read_u64(bytes, 64),
            render_replacements_delta: read_u64(bytes, 72),
            repair_deadline_missed_delta: read_u64(bytes, 80),
            damaged_gop_delta: read_u64(bytes, 88),
            packets_lost_delta: read_u64(bytes, 96),
            timestamp_us: read_u64(bytes, 104),
            profile_generation: if extended {
                read_u64(bytes, 112)
            } else {
                0
            },
            state_flags: if extended {
                read_u32(bytes, 120)
            } else {
                0
            },
            valid_feedback_windows: if extended {
                read_u32(bytes, 124)
            } else {
                0
            },
            transition_settle_windows: if extended {
                read_u32(bytes, 128)
            } else {
                0
            },
            transition_settle_duration_ms: if extended {
                read_u32(bytes, 132)
            } else {
                0
            },
            profile_transition_started_us: if extended {
                read_u64(bytes, 136)
            } else {
                0
            },
        };
        assert(decoded == Self::fields(bytes@));
        decoded.validate()?;
        Ok(decoded)
    }

    /// Checks the fields.
    pub fn validate(self) -> (r: Result<(), ControlError>)
        ensures
            r == self.check(),
    {
        if self.version != 1 && self.version != CAPABILITY_FEEDBACK_VERSION {
            return Err(ControlError::FeedbackVersion { version: self.version });
        }
        if self.session_id == 0 {
            return Err(ControlError::FeedbackSessionZero);
        }
        if self.display_refresh_denominator == 0 {
            return Err(ControlError::FeedbackDenominatorZero);
        }
        let numerator: u64 = self.display_refresh_numerator as u64;
        let denominator: u64 = self.display_refresh_denominator as u64;
        if numerator != 0 && (numerator < 10 * denominator || numerator > 1000 * denominator) {
            return Err(
                ControlError::FeedbackRefresh {
                    numerator: self.display_refresh_numerator,
                    denominator: self.display_refresh_denominator,
                },
            );
        }
        if self.display_width > MAX_DISPLAY_EXTENT || self.display_height > MAX_DISPLAY_EXTENT {
            return Err(ControlError::FeedbackDimensions);
        }
        if !self.present_fps_measured.is_within(THOUSAND_BITS) {
            return Err(ControlError::FeedbackMetric { name: MetricName::PresentFpsMeasured });
        }
        if !self.present_interval_p95_ms.is_within(TEN_THOUSAND_BITS) {
            return Err(ControlError::FeedbackMetric { name: MetricName::PresentIntervalP95Ms });
        }
        if !self.active_render_fps.is_within(THOUSAND_BITS) {
            return Err(ControlError::FeedbackMetric { name: MetricName::ActiveRenderFps });
        }
        if !self.decoder_input_fps.is_within(THOUSAND_BITS) {
            return Err(ControlError::FeedbackMetric { name: MetricName::DecoderInputFps });
        }
        if self.state_flags & !FEEDBACK_KNOWN_FLAGS != 0 {
            return Err(ControlError::FeedbackFlags);
        }
        Ok(())
    }

    /// The flag word has a bit of `flag` set.
    pub open spec fn flagged(self, flag: u32) -> bool {
        self.state_flags & flag != 0
    }

    /// Whether a bit of `flag` is set.
    pub fn has_flag(self, flag: u32) -> (r: bool)
        ensures
            r == self.flagged(flag),
    {
        self.state_flags & flag != 0
    }

    /// The sample may drive the adaptive controller: version 1 never may.
    pub open spec fn eligible(self) -> bool {
        self.version >= CAPABILITY_FEEDBACK_VERSION && self.flagged(FEEDBACK_FLAG_SAMPLE_ELIGIBLE)
    }

    pub fn sample_eligible(self) -> (r: bool)
        ensures
            r == self.eligible(),
    {
        self.version >= CAPABILITY_FEEDBACK_VERSION && self.has_flag(FEEDBACK_FLAG_SAMPLE_ELIGIBLE)
    }

    pub fn render_ready(self) -> (r: bool)
        ensures
            r == self.flagged(FEEDBACK_FLAG_RENDER_READY),
    {
        self.has_flag(FEEDBACK_FLAG_RENDER_READY)
    }

    pub fn profile_settled(self) -> (r: bool)
        ensures
            r == self.flagged(FEEDBACK_FLAG_PROFILE_SETTLED),
    {
        self.has_flag(FEEDBACK_FLAG_PROFILE_SETTLED)
    }

    pub fn profile_transition_active(self) -> (r: bool)
        ensures
            r == self.flagged(FEEDBACK_FLAG_PROFILE_TRANSITION_ACTIVE),
    {
        self.has_flag(FEEDBACK_FLAG_PROFILE_TRANSITION_ACTIVE)
    }

    pub fn first_idr_decoded(self) -> (r: bool)
        ensures
            r == self.flagged(FEEDBACK_FLAG_FIRST_IDR_DECODED),
    {
        self.has_flag(FEEDBACK_FLAG_FIRST_IDR_DECODED)
    }

    pub fn first_frame_rendered(self) -> (r: bool)
        ensures
            r == self.flagged(FEEDBACK_FLAG_FIRST_FRAME_RENDERED),
    {
        self.has_flag(FEEDBACK_FLAG_FIRST_FRAME_RENDERED)
    }

    pub fn profile_acknowledged(self) -> (r: bool)
        ensures
            r == self.flagged(FEEDBACK_FLAG_PROFILE_ACKNOWLEDGED),
    {
        self.has_flag(FEEDBACK_FLAG_PROFILE_ACKNOWLEDGED)
    }
}

/// Decoding an encoded feedback gives back what its version carries: everything
/// in version 2, everything but the profile fields in version 1.
pub proof fn law_feedback_round_trip(feedback: CapabilityFeedback)
    requires
        feedback.check() is Ok,
    ensures
        CapabilityFeedback::parse(feedback.wire()) == Ok::<CapabilityFeedback, ControlError>(
            feedback.carried(),
        ),
        feedback_len(feedback.version) == Some(feedback.wire().len() as usize),
{
    let w = feedback.wire();
    lemma_common_fields(feedback);
    if feedback.version >= CAPABILITY_FEEDBACK_VERSION {
        lemma_profile_fields(feedback);
    } else {
        assert(0u32 & !FEEDBACK_KNOWN_FLAGS == 0) by (bit_vector);
    }
    assert(CapabilityFeedback::fields(w) == feedback.carried());
}

proof fn lemma_common_fields(feedback: CapabilityFeedback)
    ensures
        feedback.wire().len() >= 112,
        feedback.version < CAPABILITY_FEEDBACK_VERSION ==> feedback.wire().len() == 112,
        feedback.wire()[4] == feedback.version,
        feedback.wire()[5] == 0,
        feedback.wire()[6] == 0,
        feedback.wire()[7] == 0,
        wire::be_at(feedback.wire(), 0, 4) == CAPABILITY_MAGIC,
        wire::be_at(feedback.wire(), 8, 8) == feedback.session_id,
        wire::be_at(feedback.wire(), 16, 8) == feedback.feedback_sequence,
        wire::be_at(feedback.wire(), 24, 8) == feedback.display_generation,
        wire::be_at(feedback.wire(), 32, 4) == feedback.display_refresh_numerator,
        wire::be_at(feedback.wire(), 36, 4) == feedback.display_refresh_denominator,
        wire::be_at(feedback.wire(), 40, 4) == feedback.display_width,
        wire::be_at(feedback.wire(), 44, 4) == feedback.display_height,
        wire::be_at(feedback.wire(), 48, 4) == feedback.present_fps_measured.bits,
        wire::be_at(feedback.wire(), 52, 4) == feedback.present_interval_p95_ms.bits,
        wire::be_at(feedback.wire(), 56, 4) == feedback.active_render_fps.bits,
        wire::be_at(feedback.wire(), 60, 4) == feedback.decoder_input_fps.bits,
        wire::be_at(feedback.wire(), 64, 8) == feedback.decode_queue_drops_delta,
        wire::be_at(feedback.wire(), 72, 8) == feedback.render_replacements_delta,
        wire::be_at(feedback.wire(), 80, 8) == feedback.repair_deadline_missed_delta,
        wire::be_at(feedback.wire(), 88, 8) == feedback.damaged_gop_delta,
        wire::be_at(feedback.wire(), 96, 8) == feedback.packets_lost_delta,
        wire::be_at(feedback.wire(), 104, 8) == feedback.timestamp_us,
{
    let w = feedback.wire();
    assert(w.subrange(0, 4) =~= wire::be_bytes(CAPABILITY_MAGIC as nat, 4));
    assert(w.subrange(8, 16) =~= wire::be_bytes(feedback.session_id as nat, 8));
    assert(w.subrange(16, 24) =~= wire::be_bytes(feedback.feedback_sequence as nat, 8));
    assert(w.subrange(24, 32) =~= wire::be_bytes(feedback.display_generation as nat, 8));
    assert(w.subrange(32, 36) =~= wire::be_bytes(feedback.display_refresh_numerator as nat, 4));
    assert(w.subrange(36, 40) =~= wire::be_bytes(feedback.display_refresh_denominator as nat, 4));
    assert(w.subrange(40, 44) =~= wire::be_bytes(feedback.display_width as nat, 4));
    assert(w.subrange(44, 48) =~= wire::be_bytes(feedback.display_height as nat, 4));
    assert(w.subrange(48, 52) =~= wire::be_bytes(feedback.present_fps_measured.bits as nat, 4));
    assert(w.subrange(52, 56) =~= wire::be_bytes(feedback.present_interval_p95_ms.bits as nat, 4));
    assert(w.subrange(56, 60) =~= wire::be_bytes(feedback.active_render_fps.bits as nat, 4));
    assert(w.subrange(60, 64) =~= wire::be_bytes(feedback.decoder_input_fps.bits as nat, 4));
    assert(w.subrange(64, 72) =~= wire::be_bytes(feedback.decode_queue_drops_delta as nat, 8));
    assert(w.subrange(72, 80) =~= wire::be_bytes(feedback.render_replacements_delta as nat, 8));
    assert(w.subrange(80, 88) =~= wire::be_bytes(feedback.repair_deadline_missed_delta as nat, 8));
    assert(w.subrange(88, 96) =~= wire::be_bytes(feedback.damaged_gop_delta as nat, 8));
    assert(w.subrange(96, 104) =~= wire::be_bytes(feedback.packets_lost_delta as nat, 8));
    assert(w.subrange(104, 112) =~= wire::be_bytes(feedback.timestamp_us as nat, 8));
}

proof fn lemma_profile_fields(feedback: CapabilityFeedback)
    requires
        feedback.version >= CAPABILITY_FEEDBACK_VERSION,
    ensures
        feedback.wire().len() == 144,
        wire::be_at(feedback.wire(), 112, 8) == feedback.profile_generation,
        wire::be_at(feedback.wire(), 120, 4) == feedback.state_flags,
        wire::be_at(feedback.wire(), 124, 4) == feedback.valid_feedback_windows,
        wire::be_at(feedback.wire(), 128, 4) == feedback.transition_settle_windows,
        wire::be_at(feedback.wire(), 132, 4) == feedback.transition_settle_duration_ms,
        wire::be_at(feedback.wire(), 136, 8) == feedback.profile_transition_started_us,
{
    let w = feedback.wire();
    assert(feedback.common_wire().len() == 112);
    assert(w.subrange(112, 120) =~= wire::be_bytes(feedback.profile_generation as nat, 8));
    assert(w.subrange(120, 124) =~= wire::be_bytes(feedback.state_flags as nat, 4));
    assert(w.subrange(124, 128) =~= wire::be_bytes(feedback.valid_feedback_windows as nat, 4));
    assert(w.subrange(128, 132) =~= wire::be_bytes(feedback.transition_settle_windows as nat, 4));
    assert(w.subrange(132, 136) =~= wire::be_bytes(
        feedback.transition_settle_duration_ms as nat,
        4,
    ));
    assert(w.subrange(136, 144) =~= wire::be_bytes(
        feedback.profile_transition_started_us as nat,
        8,
    ));
}

/// Bytes that decode are the encoding of what they decode to.
pub proof fn law_feedback_canonical(bytes: Seq<u8>)
    requires
        CapabilityFeedback::parse(bytes) is Ok,
    ensures
        CapabilityFeedback::parse(bytes)->Ok_0.check() is Ok,
        CapabilityFeedback::parse(bytes)->Ok_0.wire() == bytes,
{
    let feedback = CapabilityFeedback::fields(bytes);
    wire::lemma_field(bytes, 0, 4);
    wire::lemma_field(bytes, 8, 8);
    wire::lemma_field(bytes, 16, 8);
    wire::lemma_field(bytes, 24, 8);
    wire::lemma_field(bytes, 32, 4);
    wire::lemma_field(bytes, 36, 4);
    wire::lemma_field(bytes, 40, 4);
    wire::lemma_field(bytes, 44, 4);
    wire::lemma_field(bytes, 48, 4);
    wire::lemma_field(bytes, 52, 4);
    wire::lemma_field(bytes, 56, 4);
    wire::lemma_field(bytes, 60, 4);
    wire::lemma_field(bytes, 64, 8);
    wire::lemma_field(bytes, 72, 8);
    wire::lemma_field(bytes, 80, 8);
    wire::lemma_field(bytes, 88, 8);
    wire::lemma_field(bytes, 96, 8);
    wire::lemma_field(bytes, 104, 8);
    assert(feedback.common_wire() =~= bytes.subrange(0, 112));
    if bytes[4] >= CAPABILITY_FEEDBACK_VERSION {
        wire::lemma_field(bytes, 112, 8);
        wire::lemma_field(bytes, 120, 4);
        wire::lemma_field(bytes, 124, 4);
        wire::lemma_field(bytes, 128, 4);
        wire::lemma_field(bytes, 132, 4);
        wire::lemma_field(bytes, 136, 8);
        assert(feedback.wire() =~= bytes);
    } else {
        assert(bytes.subrange(0, 112) =~= bytes);
    }
}

/// A version 1 feedback is never eligible as a sample, whatever it was built with.
pub proof fn law_legacy_feedback_is_never_eligible(bytes: Seq<u8>)
    requires
        CapabilityFeedback::parse(bytes) is Ok,
        CapabilityFeedback::parse(bytes)->Ok_0.version == 1,
    ensures
        !CapabilityFeedback::parse(bytes)->Ok_0.eligible(),
        CapabilityFeedback::parse(bytes)->Ok_0.state_flags == 0,
        CapabilityFeedback::parse(bytes)->Ok_0.profile_generation == 0,
{
}

/// The acknowledgement of a valid close is valid, survives the wire and matches
/// that close.
pub proof fn law_ack_matches_its_close(close: StreamClose, ack: StreamCloseAck)
    requires
        close.check() is Ok,
        ack == (StreamCloseAck {
            version: MEDIA_CONTROL_VERSION,
            stream_id: close.stream_id,
            video_session_id: close.video_session_id,
            close_id: close.close_id,
        }),
    ensures
        ack.check() is Ok,
        StreamCloseAck::parse(ack.wire()) is Ok,
        StreamCloseAck::parse(ack.wire())->Ok_0.acknowledges(close),
{
    law_stream_close_ack_round_trip(ack);
}

pub fn is_capability_feedback(bytes: &[u8]) -> (r: bool)
    ensures
        r == starts_with_magic(bytes@, CAPABILITY_MAGIC),
{
    has_magic(bytes, CAPABILITY_MAGIC)
}

pub fn is_profile_change(bytes: &[u8]) -> (r: bool)
    ensures
        r == starts_with_magic(bytes@, PROFILE_CHANGE_MAGIC),
{
    has_magic(bytes, PROFILE_CHANGE_MAGIC)
}

pub fn is_profile_ack(bytes: &[u8]) -> (r: bool)
    ensures
        r == starts_with_magic(bytes@, PROFILE_ACK_MAGIC),
{
    has_magic(bytes, PROFILE_ACK_MAGIC)
}

pub fn is_stream_close(bytes: &[u8]) -> (r: bool)
    ensures
        r == starts_with_magic(bytes@, STREAM_CLOSE_MAGIC),
{
    has_magic(bytes, STREAM_CLOSE_MAGIC)
}

pub fn is_stream_close_ack(bytes: &[u8]) -> (r: bool)
    ensures
        r == starts_with_magic(bytes@, STREAM_CLOSE_ACK_MAGIC),
{
    has_magic(bytes, STREAM_CLOSE_ACK_MAGIC)
}

// Tracking of received feedback.

/// How many feedback datagrams were taken, refused, and found stale.
#[derive(Clone, Copy, Debug, PartialEq, Eq, Structural)]
pub struct FeedbackTrackerStats {
    pub received: u64,
    pub invalid: u64,
    pub stale_events: u64,
}

/// Follows the feedback of one peer.  Times are nanoseconds of a monotonic
/// clock.
pub struct CapabilityFeedbackTracker {
    latest: Option<(CapabilityFeedback, u64)>,
    last_any_valid_peer_control_at: Option<u64>,
    last_any_valid_capability_feedback_at: Option<u64>,
    last_profile_eligible_feedback_at: Option<u64>,
    transition_grace_until: Option<u64>,
    stats: FeedbackTrackerStats,
    stale_reported: bool,
}

/// What a tracker holds.
pub struct TrackerModel {
    /// The feedback taken last in the current session, and when.
    pub latest: Option<(CapabilityFeedback, u64)>,
    /// When the peer last sent a valid control datagram of any session.
    pub peer_control_at: Option<u64>,
    /// When the peer last sent a valid feedback of any session.
    pub feedback_at: Option<u64>,
    /// When feedback was last taken for the current session.
    pub eligible_at: Option<u64>,
    /// Until when a profile transition excuses silence.
    pub grace_until: Option<u64>,
    pub stats: FeedbackTrackerStats,
    /// The current silence has been counted as stale.
    pub stale_reported: bool,
}

impl View for CapabilityFeedbackTracker {
    type V = TrackerModel;

    closed spec fn view(&self) -> TrackerModel {
        TrackerModel {
            latest: self.latest,
            peer_control_at: self.last_any_valid_peer_control_at,
            feedback_at: self.last_any_valid_capability_feedback_at,
            eligible_at: self.last_profile_eligible_feedback_at,
            grace_until: self.transition_grace_until,
            stats: self.stats,
            stale_reported: self.stale_reported,
        }
    }
}

/// The time since `then`, zero where `then` is ahead of `now`.
pub open spec fn age(now: u64, then: u64) -> u64 {
    if now >= then {
        (now - then) as u64
    } else {
        0
    }
}

/// The later of two optional times.
pub open spec fn later(a: Option<u64>, b: Option<u64>) -> Option<u64> {
    match (a, b) {
        (Some(x), Some(y)) => Some(if x > y {
            x
        } else {
            y
        }),
        (Some(x), None) => Some(x),
        (None, y) => y,
    }
}

/// The age of an optional time.
pub open spec fn optional_age(now: u64, then: Option<u64>) -> Option<u64> {
    match then {
        Some(t) => Some(age(now, t)),
        None => None,
    }
}

impl TrackerModel {
    /// The model of a new tracker.
    pub open spec fn empty() -> TrackerModel {
        TrackerModel {
            latest: None,
            peer_control_at: None,
            feedback_at: None,
            eligible_at: None,
            grace_until: None,
            stats: FeedbackTrackerStats { received: 0, invalid: 0, stale_events: 0 },
            stale_reported: false,
        }
    }

    /// One more refused datagram.
    pub open spec fn with_invalid(self) -> TrackerModel {
        TrackerModel {
            stats: FeedbackTrackerStats {
                invalid: self.stats.invalid.saturating_add(1),
                ..self.stats
            },
            ..self
        }
    }

    /// The peer has shown life through a valid feedback.
    pub open spec fn with_life(self, now: u64) -> TrackerModel {
        TrackerModel { peer_control_at: Some(now), feedback_at: Some(now), ..self }
    }

    /// `feedback` is taken.
    pub open spec fn with_feedback(self, feedback: CapabilityFeedback, now: u64) -> TrackerModel {
        TrackerModel {
            latest: Some((feedback, now)),
            eligible_at: Some(now),
            stats: FeedbackTrackerStats {
                received: self.stats.received.saturating_add(1),
                ..self.stats
            },
            stale_reported: false,
            ..self
        }
    }

    /// Why a well-formed feedback is refused: it belongs to another session, or
    /// its sequence does not advance.
    pub open spec fn refusal(
        self,
        feedback: CapabilityFeedback,
        expected_session_id: u64,
    ) -> Option<
        ControlError,
    > {
        if feedback.session_id != expected_session_id {
            Some(ControlError::FeedbackOtherSession)
        } else if self.latest is Some && feedback.feedback_sequence
            <= (self.latest->0).0.feedback_sequence {
            Some(ControlError::FeedbackSequence)
        } else {
            None
        }
    }

    /// The state after `bytes` arrived at `now`.
    pub open spec fn observed(
        self,
        bytes: Seq<u8>,
        expected_session_id: u64,
        now: u64,
    ) -> TrackerModel {
        match CapabilityFeedback::parse(bytes) {
            Err(_) => self.with_invalid(),
            Ok(feedback) => match self.refusal(feedback, expected_session_id) {
                Some(_) => self.with_life(now).with_invalid(),
                None => self.with_life(now).with_feedback(feedback, now),
            },
        }
    }

    /// What the caller learns of `bytes`.
    pub open spec fn verdict(self, bytes: Seq<u8>, expected_session_id: u64) -> Result<
        bool,
        ControlError,
    > {
        match CapabilityFeedback::parse(bytes) {
            Err(error) => Err(error),
            Ok(feedback) => match self.refusal(feedback, expected_session_id) {
                Some(error) => Err(error),
                None => Ok(true),
            },
        }
    }

    /// The latest feedback is older than `stale_after`.
    pub open spec fn stale(self, now: u64, stale_after: u64) -> bool {
        self.latest is Some && age(now, (self.latest->0).1) > stale_after
    }

    /// The state after the latest feedback was asked for.
    pub open spec fn asked(self, now: u64, stale_after: u64) -> TrackerModel {
        if self.stale(now, stale_after) && !self.stale_reported {
            TrackerModel {
                stats: FeedbackTrackerStats {
                    stale_events: self.stats.stale_events.saturating_add(1),
                    ..self.stats
                },
                stale_reported: true,
                ..self
            }
        } else {
            self
        }
    }
}

impl CapabilityFeedbackTracker {
    pub fn new() -> (r: CapabilityFeedbackTracker)
        ensures
            r@ == TrackerModel::empty(),
    {
        CapabilityFeedbackTracker {
            latest: None,
            last_any_valid_peer_control_at: None,
            last_any_valid_capability_feedback_at: None,
            last_profile_eligible_feedback_at: None,
            transition_grace_until: None,
            stats: FeedbackTrackerStats { received: 0, invalid: 0, stale_events: 0 },
            stale_reported: false,
        }
    }

    /// Takes a feedback datagram.  A malformed one changes the count of invalid
    /// datagrams alone; a well-formed one shows that the peer lives even where
    /// it is refused.
    pub fn observe(&mut self, bytes: &[u8], expected_session_id: u64, now: u64) -> (r: Result<
        bool,
        ControlError,
    >)
        ensures
            r == old(self)@.verdict(bytes@, expected_session_id),
            final(self)@ == old(self)@.observed(bytes@, expected_session_id, now),
    {
        let feedback = match CapabilityFeedback::decode(bytes) {
            Ok(feedback) => feedback,
            Err(error) => {
                self.stats.invalid = self.stats.invalid.saturating_add(1);
                return Err(error);
            },
        };
        self.last_any_valid_peer_control_at = Some(now);
        self.last_any_valid_capability_feedback_at = Some(now);
        if feedback.session_id != expected_session_id {
            self.stats.invalid = self.stats.invalid.saturating_add(1);
            return Err(ControlError::FeedbackOtherSession);
        }
        if let Some((current, _)) = self.latest {
            if feedback.feedback_sequence <= current.feedback_sequence {
                self.stats.invalid = self.stats.invalid.saturating_add(1);
                return Err(ControlError::FeedbackSequence);
            }
        }
        self.latest = Some((feedback, now));
        self.last_profile_eligible_feedback_at = Some(now);
        self.stats.received = self.stats.received.saturating_add(1);
        self.stale_reported = false;
        Ok(true)
    }

    /// The latest feedback, unless it is older than `stale_after`.  The first
    /// question that finds it stale is counted.
    pub fn latest_fresh(&mut self, now: u64, stale_after: u64) -> (r: Option<CapabilityFeedback>)
        ensures
            r == if old(self)@.latest is Some && !old(self)@.stale(now, stale_after) {
                Some((old(self)@.latest->0).0)
            } else {
                None
            },
            final(self)@ == old(self)@.asked(now, stale_after),
    {
        let (feedback, received_at) = match self.latest {
            Some(latest) => latest,
            None => {
                return None;
            },
        };
        if now.saturating_sub(received_at) > stale_after {
            if !self.stale_reported {
                self.stats.stale_events = self.stats.stale_events.saturating_add(1);
                self.stale_reported = true;
            }
            None
        } else {
            Some(feedback)
        }
    }

    pub fn stats(&self) -> (r: FeedbackTrackerStats)
        ensures
            r == self@.stats,
    {
        self.stats
    }

    pub fn last_valid_at(&self) -> (r: Option<u64>)
        ensures
            r == self@.eligible_at,
    {
        self.last_profile_eligible_feedback_at
    }

    pub fn valid_feedback_age(&self, now: u64) -> (r: Option<u64>)
        ensures
            r == optional_age(now, self@.eligible_at),
    {
        match self.last_valid_at() {
            Some(received_at) => Some(now.saturating_sub(received_at)),
            None => None,
        }
    }

    /// The peer sent a valid control datagram other than feedback.
    pub fn observe_valid_peer_control(&mut self, now: u64)
        ensures
            final(self)@ == (TrackerModel { peer_control_at: Some(now), ..old(self)@ }),
    {
        self.last_any_valid_peer_control_at = Some(now);
    }

    /// How long the peer has been silent.
    pub fn peer_activity_age(&self, now: u64) -> (r: Option<u64>)
        ensures
            r == optional_age(now, later(self@.peer_control_at, self@.feedback_at)),
    {
        let latest: Option<u64> = match (
            self.last_any_valid_peer_control_at,
            self.last_any_valid_capability_feedback_at,
        ) {
            (Some(control), Some(feedback)) => Some(control.max(feedback)),
            (Some(control), None) => Some(control),
            (None, feedback) => feedback,
        };
        match latest {
            Some(received_at) => Some(now.saturating_sub(received_at)),
            None => None,
        }
    }

    pub fn profile_eligible_feedback_age(&self, now: u64) -> (r: Option<u64>)
        ensures
            r == optional_age(now, self@.eligible_at),
    {
        match self.last_profile_eligible_feedback_at {
            Some(received_at) => Some(now.saturating_sub(received_at)),
            None => None,
        }
    }

    pub fn begin_transition_grace(&mut self, deadline: u64)
        ensures
            final(self)@ == (TrackerModel { grace_until: Some(deadline), ..old(self)@ }),
    {
        self.transition_grace_until = Some(deadline);
    }

    pub fn clear_transition_grace(&mut self)
        ensures
            final(self)@ == (TrackerModel { grace_until: None, ..old(self)@ }),
    {
        self.transition_grace_until = None;
    }

    pub fn transition_grace_active(&self, now: u64) -> (r: bool)
        ensures
            r == (self@.grace_until matches Some(deadline) && now < deadline),
    {
        match self.transition_grace_until {
            Some(deadline) => now < deadline,
            None => false,
        }
    }

    /// Forgets what belongs to the session that ends; the signs of life stay.
    pub fn reset_for_session(&mut self)
        ensures
            final(self)@ == (TrackerModel {
                latest: None,
                eligible_at: None,
                stale_reported: false,
                ..old(self)@
            }),
    {
        self.latest = None;
        self.last_profile_eligible_feedback_at = None;
        self.stale_reported = false;
    }
}

impl Default for CapabilityFeedbackTracker {
    fn default() -> (r: CapabilityFeedbackTracker)
        ensures
            r@ == TrackerModel::empty(),
    {
        CapabilityFeedbackTracker::new()
    }
}

/// A refused datagram leaves the latest feedback and its time as they were.
pub proof fn law_refused_feedback_is_not_taken(
    tracker: TrackerModel,
    bytes: Seq<u8>,
    expected_session_id: u64,
    now: u64,
)
    requires
        tracker.verdict(bytes, expected_session_id) is Err,
    ensures
        tracker.observed(bytes, expected_session_id, now).latest == tracker.latest,
        tracker.observed(bytes, expected_session_id, now).eligible_at == tracker.eligible_at,
        tracker.observed(bytes, expected_session_id, now).stats.received == tracker.stats.received,
{
}

/// Malformed bytes are no sign of life.
pub proof fn law_malformed_feedback_is_no_sign_of_life(
    tracker: TrackerModel,
    bytes: Seq<u8>,
    expected_session_id: u64,
    now: u64,
)
    requires
        CapabilityFeedback::parse(bytes) is Err,
    ensures
        tracker.observed(bytes, expected_session_id, now).peer_control_at
            == tracker.peer_control_at,
        tracker.observed(bytes, expected_session_id, now).feedback_at == tracker.feedback_at,
{
}

/// Well-formed feedback shows life at once, even from a session that has ended.
pub proof fn law_stale_session_feedback_shows_life(
    tracker: TrackerModel,
    bytes: Seq<u8>,
    expected_session_id: u64,
    now: u64,
)
    requires
        CapabilityFeedback::parse(bytes) is Ok,
    ensures
        ({
            let after = tracker.observed(bytes, expected_session_id, now);
            optional_age(now, later(after.peer_control_at, after.feedback_at)) == Some(0u64)
        }),
{
}

/// Within a session the sequence of what is taken grows strictly.
pub proof fn law_feedback_sequence_grows(
    tracker: TrackerModel,
    bytes: Seq<u8>,
    expected_session_id: u64,
    now: u64,
)
    requires
        tracker.latest is Some,
        tracker.verdict(bytes, expected_session_id) is Ok,
    ensures
        tracker.observed(bytes, expected_session_id, now).latest is Some,
        (tracker.observed(bytes, expected_session_id, now).latest->0).0.feedback_sequence
            > (tracker.latest->0).0.feedback_sequence,
{
}

/// The same datagram is never taken twice in a row.
pub proof fn law_feedback_is_taken_once(
    tracker: TrackerModel,
    bytes: Seq<u8>,
    expected_session_id: u64,
    now: u64,
)
    ensures
        tracker.observed(bytes, expected_session_id, now).verdict(bytes, expected_session_id)
            is Err,
{
}

/// One silence is counted once, however often it is found.
pub proof fn law_stale_silence_is_counted_once(
    tracker: TrackerModel,
    first: u64,
    second: u64,
    stale_after: u64,
)
    requires
        tracker.stale(first, stale_after),
    ensures
        tracker.asked(first, stale_after).asked(second, stale_after) == tracker.asked(
            first,
            stale_after,
        ),
{
}

// Texts of errors.

impl MetricName {
    pub open spec fn text(self) -> Seq<char> {
        match self {
            MetricName::PresentFpsMeasured => "present_fps_measured"@,
            MetricName::PresentIntervalP95Ms => "present_interval_p95_ms"@,
            MetricName::ActiveRenderFps => "active_render_fps"@,
            MetricName::DecoderInputFps => "decoder_input_fps"@,
        }
    }

    pub fn name(self) -> (r: &'static str)
        ensures
            r@ == self.text(),
    {
        match self {
            MetricName::PresentFpsMeasured => "present_fps_measured",
            MetricName::PresentIntervalP95Ms => "present_interval_p95_ms",
            MetricName::ActiveRenderFps => "active_render_fps",
            MetricName::DecoderInputFps => "decoder_input_fps",
        }
    }
}

impl ControlError {
    /// The text of the error, where `refresh_hz` is the refused refresh rate in
    /// decimal.
    pub open spec fn text(self, refresh_hz: Seq<char>) -> Seq<char> {
        match self {
            ControlError::NotFeedback => "not a MEDIA_CAPABILITY_FEEDBACK datagram"@,
            ControlError::FeedbackVersion { version } =>
                "unsupported capability feedback version: "@ + text::decimal(version as nat),
            ControlError::FeedbackLength { version, length } =>
                "invalid capability feedback length for version "@ + text::decimal(version as nat)
                    + ": "@ + text::decimal(length as nat),
            ControlError::FeedbackReserved => "capability feedback reserved bytes are non-zero"@,
            ControlError::FeedbackSessionZero =>
                "capability feedback session_id must be non-zero"@,
            ControlError::FeedbackDenominatorZero =>
                "capability feedback refresh denominator is zero"@,
            ControlError::FeedbackRefresh { .. } => "capability feedback refresh is invalid: "@
                + refresh_hz + "Hz"@,
            ControlError::FeedbackDimensions =>
                "capability feedback display dimensions are out of range"@,
            ControlError::FeedbackMetric { name } => "capability feedback "@ + name.text()
                + " is out of range"@,
            ControlError::FeedbackFlags => "capability feedback contains unknown state flags"@,
            ControlError::FeedbackOtherSession =>
                "capability feedback belongs to another session"@,
            ControlError::FeedbackSequence =>
                "capability feedback sequence is stale or duplicated"@,
            ControlError::NotProfileChange => "not a MEDIA_PROFILE_CHANGE datagram"@,
            ControlError::ProfileChangeHeader => "invalid MEDIA_PROFILE_CHANGE header"@,
            ControlError::ProfileChangeSessions =>
                "invalid profile change version or session transition"@,
            ControlError::ProfileChangeDimensions => "invalid profile change dimensions"@,
            ControlError::ProfileChangeRate => "invalid profile change FPS or bitrate"@,
            ControlError::ProfileChangeReason => "invalid profile change reason code"@,
            ControlError::NotProfileAck => "not a MEDIA_PROFILE_ACK datagram"@,
            ControlError::ProfileAckHeader => "invalid MEDIA_PROFILE_ACK header"@,
            ControlError::ProfileAckFields => "invalid profile ACK fields"@,
            ControlError::ProfileAckAcceptedReason =>
                "accepted profile ACK must not contain a rejection reason"@,
            ControlError::NotStreamClose => "not a STREAM_CLOSE datagram"@,
            ControlError::StreamCloseHeader => "invalid STREAM_CLOSE header"@,
            ControlError::StreamCloseFields => "invalid STREAM_CLOSE fields"@,
            ControlError::NotStreamCloseAck => "not a STREAM_CLOSE_ACK datagram"@,
            ControlError::StreamCloseAckHeader => "invalid STREAM_CLOSE_ACK header"@,
            ControlError::StreamCloseAckFields => "invalid STREAM_CLOSE_ACK fields"@,
        }
    }

    /// Renders the error; `refresh_hz` is the refused refresh rate in decimal.
    pub fn message(self, refresh_hz: &str) -> (r: String)
        ensures
            r@ == self.text(refresh_hz@),
    {
        match self {
            ControlError::NotFeedback => "not a MEDIA_CAPABILITY_FEEDBACK datagram".to_string(),
            ControlError::FeedbackVersion { version } => {
                let mut r: String = "unsupported capability feedback version: ".to_string();
                push_decimal(&mut r, version as u64);
                r
            },
            ControlError::FeedbackLength { version, length } => {
                let mut r: String = "invalid capability feedback length for version ".to_string();
                push_decimal(&mut r, version as u64);
                r.append(": ");
                push_decimal(&mut r, length as u64);
                r
            },
            ControlError::FeedbackReserved =>
                "capability feedback reserved bytes are non-zero".to_string(),
            ControlError::FeedbackSessionZero =>
                "capability feedback session_id must be non-zero".to_string(),
            ControlError::FeedbackDenominatorZero =>
                "capability feedback refresh denominator is zero".to_string(),
            ControlError::FeedbackRefresh { .. } => {
                let mut r: String = "capability feedback refresh is invalid: ".to_string();
                r.append(refresh_hz);
                r.append("Hz");
                r
            },
            ControlError::FeedbackDimensions =>
                "capability feedback display dimensions are out of range".to_string(),
            ControlError::FeedbackMetric { name } => {
                let mut r: String = "capability feedback ".to_string();
                r.append(name.name());
                r.append(" is out of range");
                r
            },
            ControlError::FeedbackFlags =>
                "capability feedback contains unknown state flags".to_string(),
            ControlError::FeedbackOtherSession =>
                "capability feedback belongs to another session".to_string(),
            ControlError::FeedbackSequence =>
                "capability feedback sequence is stale or duplicated".to_string(),
            ControlError::NotProfileChange => "not a MEDIA_PROFILE_CHANGE datagram".to_string(),
            ControlError::ProfileChangeHeader => "invalid MEDIA_PROFILE_CHANGE header".to_string(),
            ControlError::ProfileChangeSessions =>
                "invalid profile change version or session transition".to_string(),
            ControlError::ProfileChangeDimensions =>
                "invalid profile change dimensions".to_string(),
            ControlError::ProfileChangeRate =>
                "invalid profile change FPS or bitrate".to_string(),
            ControlError::ProfileChangeReason => "invalid profile change reason code".to_string(),
            ControlError::NotProfileAck => "not a MEDIA_PROFILE_ACK datagram".to_string(),
            ControlError::ProfileAckHeader => "invalid MEDIA_PROFILE_ACK header".to_string(),
            ControlError::ProfileAckFields => "invalid profile ACK fields".to_string(),
            ControlError::ProfileAckAcceptedReason =>
                "accepted profile ACK must not contain a rejection reason".to_string(),
            ControlError::NotStreamClose => "not a STREAM_CLOSE datagram".to_string(),
            ControlError::StreamCloseHeader => "invalid STREAM_CLOSE header".to_string(),
            ControlError::StreamCloseFields => "invalid STREAM_CLOSE fields".to_string(),
            ControlError::NotStreamCloseAck => "not a STREAM_CLOSE_ACK datagram".to_string(),
            ControlError::StreamCloseAckHeader => "invalid STREAM_CLOSE_ACK header".to_string(),
            ControlError::StreamCloseAckFields => "invalid STREAM_CLOSE_ACK fields".to_string(),
        }
    }
}

/// The bit patterns of the rates in the self test: 59.94, 17.1, 59.8, 60.0
/// and 32.0.
const SELF_TEST_PRESENT_FPS: u32 = 0x426f_c28f;

const SELF_TEST_PRESENT_INTERVAL: u32 = 0x4188_cccd;

const SELF_TEST_RENDER_FPS: u32 = 0x426f_3333;

const SELF_TEST_DECODER_FPS: u32 = 0x4270_0000;

const SELF_TEST_BITRATE: u32 = 0x4200_0000;

/// Runs each message through the wire once and ages a feedback.  It never fails.
pub fn run_self_test() -> (r: Result<(), String>)
    ensures
        r is Ok,
{
    let feedback = CapabilityFeedback {
        version: CAPABILITY_FEEDBACK_VERSION,
        session_id: 7,
        feedback_sequence: 9,
        display_generation: 2,
        display_refresh_numerator: 60_000,
        display_refresh_denominator: 1001,
        display_width: 1920,
        display_height: 1080,
        present_fps_measured: Metric { bits: SELF_TEST_PRESENT_FPS },
        present_interval_p95_ms: Metric { bits: SELF_TEST_PRESENT_INTERVAL },
        active_render_fps: Metric { bits: SELF_TEST_RENDER_FPS },
        decoder_input_fps: Metric { bits: SELF_TEST_DECODER_FPS },
        decode_queue_drops_delta: 1,
        render_replacements_delta: 2,
        repair_deadline_missed_delta: 3,
        damaged_gop_delta: 4,
        packets_lost_delta: 5,
        timestamp_us: 123_456,
        profile_generation: 2,
        state_flags: FEEDBACK_FLAG_SAMPLE_ELIGIBLE | FEEDBACK_FLAG_RENDER_READY
            | FEEDBACK_FLAG_PROFILE_SETTLED | FEEDBACK_FLAG_FIRST_IDR_DECODED
            | FEEDBACK_FLAG_FIRST_FRAME_RENDERED | FEEDBACK_FLAG_PROFILE_ACKNOWLEDGED,
        valid_feedback_windows: 3,
        transition_settle_windows: 3,
        transition_settle_duration_ms: 2_500,
        profile_transition_started_us: 120_000,
    };
    proof {
        assert((0x01u32 | 0x02u32 | 0x04u32 | 0x08u32 | 0x10u32 | 0x40u32) & !0x7fu32 == 0)
            by (bit_vector);
        law_feedback_round_trip(feedback);
    }
    let failed: String = "capability feedback encode/decode failed".to_string();
    let encoded: Vec<u8> = match feedback.encode() {
        Ok(encoded) => encoded,
        Err(_) => return Err(failed),
    };
    let decoded = match CapabilityFeedback::decode(encoded.as_slice()) {
        Ok(decoded) => decoded,
        Err(_) => return Err(failed),
    };
    if encoded.len() != CAPABILITY_FEEDBACK_LEN || decoded != feedback {
        return Err(failed);
    }
    let profile = ProfileChange {
        version: MEDIA_CONTROL_VERSION,
        old_session_id: 7,
        new_session_id: 8,
        change_sequence: 1,
        profile_generation: 2,
        width: 1600,
        height: 900,
        fps: 60,
        bitrate_mbps: Metric { bits: SELF_TEST_BITRATE },
        timestamp_us: 234_567,
        reason_code: 2,
    };
    proof {
        law_profile_change_round_trip(profile);
    }
    let failed: String = "profile change encode/decode failed".to_string();
    let encoded_change: Vec<u8> = match profile.encode() {
        Ok(encoded) => encoded,
        Err(_) => return Err(failed),
    };
    let decoded_change = match ProfileChange::decode(encoded_change.as_slice()) {
        Ok(decoded) => decoded,
        Err(_) => return Err(failed),
    };
    if encoded_change.len() != PROFILE_CHANGE_LEN || decoded_change != profile {
        return Err(failed);
    }
    let ack = ProfileAck::accepted(profile);
    proof {
        law_profile_ack_round_trip(ack);
    }
    let failed: String = "profile ACK encode/decode failed".to_string();
    let encoded_ack: Vec<u8> = match ack.encode() {
        Ok(encoded) => encoded,
        Err(_) => return Err(failed),
    };
    let decoded_ack = match ProfileAck::decode(encoded_ack.as_slice()) {
        Ok(decoded) => decoded,
        Err(_) => return Err(failed),
    };
    if encoded_ack.len() != PROFILE_ACK_LEN || decoded_ack != ack {
        return Err(failed);
    }
    let close = StreamClose {
        version: MEDIA_CONTROL_VERSION,
        stream_id: 1,
        reason_code: 2,
        video_session_id: 42,
        close_id: 99,
        timestamp_us: 123_456,
        last_frame_id: 77,
    };
    let close_ack = close.ack();
    proof {
        law_stream_close_round_trip(close);
        law_ack_matches_its_close(close, close_ack);
    }
    let failed: String = "STREAM_CLOSE/ACK encode/decode failed".to_string();
    let encoded_close: Vec<u8> = match close.encode() {
        Ok(encoded) => encoded,
        Err(_) => return Err(failed),
    };
    let encoded_close_ack: Vec<u8> = match close_ack.encode() {
        Ok(encoded) => encoded,
        Err(_) => return Err(failed),
    };
    match (
        StreamClose::decode(encoded_close.as_slice()),
        StreamCloseAck::decode(encoded_close_ack.as_slice()),
    ) {
        (Ok(decoded), Ok(decoded_ack)) => {
            if decoded != close || !decoded_ack.matches(close) {
                return Err(failed);
            }
        },
        _ => return Err(failed),
    }
    let failed: String = "capability feedback freshness tracking failed".to_string();
    let now: u64 = 1_000_000;
    let mut tracker = CapabilityFeedbackTracker::new();
    match tracker.observe(encoded.as_slice(), 7, now) {
        Ok(_) => {},
        Err(_) => return Err(failed),
    }
    if tracker.latest_fresh(now, CAPABILITY_STALE_AFTER).is_none() {
        return Err(failed);
    }
    if tracker.latest_fresh(
        now + CAPABILITY_STALE_AFTER + 1_000_000,
        CAPABILITY_STALE_AFTER,
    ).is_some() {
        return Err(failed);
    }
    Ok(())
}

// Where everything stands in a message.

proof fn lemma_magic_bytes(bytes: Seq<u8>)
    requires
        bytes.len() >= 4,
    ensures
        wire::be_at(bytes, 0, 4) == bytes[0] * 0x100_0000 + bytes[1] * 0x1_0000 + bytes[2] * 0x100
            + bytes[3],
{
    wire::law_most_significant_byte_first(bytes, 0);
}

/// A close is `MCLS`, the version 1 and 40 bytes in all, with a stream, a reason and a close
/// id that are not zero; each field stands at its place.
pub proof fn law_stream_close_layout(bytes: Seq<u8>)
    ensures
        StreamClose::parse(bytes) is Ok <==> {
            &&& bytes.len() == 40
            &&& bytes[0] == 0x4d
            &&& bytes[1] == 0x43
            &&& bytes[2] == 0x4c
            &&& bytes[3] == 0x53
            &&& bytes[4] == 1
            &&& bytes[5] != 0
            &&& bytes[6] != 0
            &&& bytes[7] == 0
            &&& wire::be_at(bytes, 16, 8) != 0
        },
        StreamClose::parse(bytes) matches Ok(close) ==> {
            &&& close.version == bytes[4]
            &&& close.stream_id == bytes[5]
            &&& close.reason_code == bytes[6]
            &&& close.video_session_id == wire::be_at(bytes, 8, 8)
            &&& close.close_id == wire::be_at(bytes, 16, 8)
            &&& close.timestamp_us == wire::be_at(bytes, 24, 8)
            &&& close.last_frame_id == wire::be_at(bytes, 32, 8)
        },
{
    if bytes.len() == 40 {
        lemma_magic_bytes(bytes);
        wire::lemma_field(bytes, 8, 8);
        wire::lemma_field(bytes, 16, 8);
        wire::lemma_field(bytes, 24, 8);
        wire::lemma_field(bytes, 32, 8);
    }
}

/// The acknowledgement of a close is `MCLA`, the version 1 and 24 bytes in all, with a stream
/// and a close id that are not zero; each field stands at its place.
pub proof fn law_stream_close_ack_layout(bytes: Seq<u8>)
    ensures
        StreamCloseAck::parse(bytes) is Ok <==> {
            &&& bytes.len() == 24
            &&& bytes[0] == 0x4d
            &&& bytes[1] == 0x43
            &&& bytes[2] == 0x4c
            &&& bytes[3] == 0x41
            &&& bytes[4] == 1
            &&& bytes[5] != 0
            &&& bytes[6] == 0
            &&& bytes[7] == 0
            &&& wire::be_at(bytes, 16, 8) != 0
        },
        StreamCloseAck::parse(bytes) matches Ok(ack) ==> {
            &&& ack.version == bytes[4]
            &&& ack.stream_id == bytes[5]
            &&& ack.video_session_id == wire::be_at(bytes, 8, 8)
            &&& ack.close_id == wire::be_at(bytes, 16, 8)
        },
{
    if bytes.len() == 24 {
        lemma_magic_bytes(bytes);
        wire::lemma_field(bytes, 8, 8);
        wire::lemma_field(bytes, 16, 8);
    }
}

/// A change of the profile is `MPRF`, the version 1 and 65 bytes in all: two sessions that
/// differ, a number and a generation, even sides up to 32768, 1 to 240 frames each second, a
/// tenth to a thousand megabits and one of three reasons; each field stands at its place.
pub proof fn law_profile_change_layout(bytes: Seq<u8>)
    ensures
        ProfileChange::parse(bytes) is Ok <==> {
            &&& bytes.len() == 65
            &&& bytes[0] == 0x4d
            &&& bytes[1] == 0x50
            &&& bytes[2] == 0x52
            &&& bytes[3] == 0x46
            &&& bytes[4] == 1
            &&& bytes[5] == 0
            &&& bytes[6] == 0
            &&& bytes[7] == 0
            &&& wire::be_at(bytes, 8, 8) != 0
            &&& wire::be_at(bytes, 16, 8) != 0
            &&& wire::be_at(bytes, 8, 8) != wire::be_at(bytes, 16, 8)
            &&& wire::be_at(bytes, 24, 8) != 0
            &&& wire::be_at(bytes, 32, 8) != 0
            &&& 0 < wire::be_at(bytes, 40, 4) <= 32768
            &&& wire::be_at(bytes, 40, 4) % 2 == 0
            &&& 0 < wire::be_at(bytes, 44, 4) <= 32768
            &&& wire::be_at(bytes, 44, 4) % 2 == 0
            &&& 1 <= wire::be_at(bytes, 48, 4) <= 240
            &&& 0x3dcc_cccd <= wire::be_at(bytes, 52, 4) <= 0x447a_0000
            &&& 1 <= bytes[64] <= 3
        },
        ProfileChange::parse(bytes) matches Ok(change) ==> {
            &&& change.old_session_id == wire::be_at(bytes, 8, 8)
            &&& change.new_session_id == wire::be_at(bytes, 16, 8)
            &&& change.change_sequence == wire::be_at(bytes, 24, 8)
            &&& change.profile_generation == wire::be_at(bytes, 32, 8)
            &&& change.width == wire::be_at(bytes, 40, 4)
            &&& change.height == wire::be_at(bytes, 44, 4)
            &&& change.fps == wire::be_at(bytes, 48, 4)
            &&& change.bitrate_mbps.bits == wire::be_at(bytes, 52, 4)
            &&& change.timestamp_us == wire::be_at(bytes, 56, 8)
            &&& change.reason_code == bytes[64]
        },
{
    if bytes.len() == 65 {
        lemma_magic_bytes(bytes);
        wire::lemma_field(bytes, 8, 8);
        wire::lemma_field(bytes, 16, 8);
        wire::lemma_field(bytes, 24, 8);
        wire::lemma_field(bytes, 32, 8);
        wire::lemma_field(bytes, 40, 4);
        wire::lemma_field(bytes, 44, 4);
        wire::lemma_field(bytes, 48, 4);
        wire::lemma_field(bytes, 52, 4);
        wire::lemma_field(bytes, 56, 8);
    }
}

/// The answer to a change of the profile is `MPAK`, the version 1 and 40 bytes in all: it
/// accepts without a reason or refuses; each field stands at its place.
pub proof fn law_profile_ack_layout(bytes: Seq<u8>)
    ensures
        ProfileAck::parse(bytes) is Ok <==> {
            &&& bytes.len() == 40
            &&& bytes[0] == 0x4d
            &&& bytes[1] == 0x50
            &&& bytes[2] == 0x41
            &&& bytes[3] == 0x4b
            &&& bytes[4] == 1
            &&& (bytes[5] == 1 && bytes[6] == 0) || bytes[5] == 2
            &&& bytes[7] == 0
            &&& wire::be_at(bytes, 8, 8) != 0
            &&& wire::be_at(bytes, 16, 8) != 0
            &&& wire::be_at(bytes, 8, 8) != wire::be_at(bytes, 16, 8)
            &&& wire::be_at(bytes, 24, 8) != 0
            &&& wire::be_at(bytes, 32, 8) != 0
        },
        ProfileAck::parse(bytes) matches Ok(ack) ==> {
            &&& ack.status == bytes[5]
            &&& ack.reason_code == bytes[6]
            &&& ack.old_session_id == wire::be_at(bytes, 8, 8)
            &&& ack.new_session_id == wire::be_at(bytes, 16, 8)
            &&& ack.change_sequence == wire::be_at(bytes, 24, 8)
            &&& ack.profile_generation == wire::be_at(bytes, 32, 8)
        },
{
    if bytes.len() == 40 {
        lemma_magic_bytes(bytes);
        wire::lemma_field(bytes, 8, 8);
        wire::lemma_field(bytes, 16, 8);
        wire::lemma_field(bytes, 24, 8);
        wire::lemma_field(bytes, 32, 8);
    }
}

/// Feedback is `MCFB` and the version 1 in 112 bytes or 2 in 144; each field stands at its
/// place, and what version 1 does not carry is zero.
pub proof fn law_feedback_layout(bytes: Seq<u8>)
    ensures
        CapabilityFeedback::parse(bytes) is Ok ==> {
            &&& (bytes.len() == 112 && bytes[4] == 1) || (bytes.len() == 144 && bytes[4] == 2)
            &&& bytes[0] == 0x4d
            &&& bytes[1] == 0x43
            &&& bytes[2] == 0x46
            &&& bytes[3] == 0x42
            &&& bytes[5] == 0
            &&& bytes[6] == 0
            &&& bytes[7] == 0
            &&& wire::be_at(bytes, 8, 8) != 0
            &&& wire::be_at(bytes, 36, 4) != 0
        },
        CapabilityFeedback::parse(bytes) matches Ok(feedback) ==> {
            &&& feedback.version == bytes[4]
            &&& feedback.session_id == wire::be_at(bytes, 8, 8)
            &&& feedback.feedback_sequence == wire::be_at(bytes, 16, 8)
            &&& feedback.display_generation == wire::be_at(bytes, 24, 8)
            &&& feedback.display_refresh_numerator == wire::be_at(bytes, 32, 4)
            &&& feedback.display_refresh_denominator == wire::be_at(bytes, 36, 4)
            &&& feedback.display_width == wire::be_at(bytes, 40, 4)
            &&& feedback.display_height == wire::be_at(bytes, 44, 4)
            &&& feedback.present_fps_measured.bits == wire::be_at(bytes, 48, 4)
            &&& feedback.present_interval_p95_ms.bits == wire::be_at(bytes, 52, 4)
            &&& feedback.active_render_fps.bits == wire::be_at(bytes, 56, 4)
            &&& feedback.decoder_input_fps.bits == wire::be_at(bytes, 60, 4)
            &&& feedback.decode_queue_drops_delta == wire::be_at(bytes, 64, 8)
            &&& feedback.render_replacements_delta == wire::be_at(bytes, 72, 8)
            &&& feedback.repair_deadline_missed_delta == wire::be_at(bytes, 80, 8)
            &&& feedback.damaged_gop_delta == wire::be_at(bytes, 88, 8)
            &&& feedback.packets_lost_delta == wire::be_at(bytes, 96, 8)
            &&& feedback.timestamp_us == wire::be_at(bytes, 104, 8)
            &&& bytes[4] == 2 ==> {
                &&& feedback.profile_generation == wire::be_at(bytes, 112, 8)
                &&& feedback.state_flags == wire::be_at(bytes, 120, 4)
                &&& feedback.valid_feedback_windows == wire::be_at(bytes, 124, 4)
                &&& feedback.transition_settle_windows == wire::be_at(bytes, 128, 4)
                &&& feedback.transition_settle_duration_ms == wire::be_at(bytes, 132, 4)
                &&& feedback.profile_transition_started_us == wire::be_at(bytes, 136, 8)
            }
            &&& bytes[4] == 1 ==> feedback.profile_generation == 0 && feedback.state_flags == 0
                && feedback.valid_feedback_windows == 0
        },
{
    if bytes.len() == 112 || bytes.len() == 144 {
        lemma_magic_bytes(bytes);
        wire::lemma_field(bytes, 8, 8);
        wire::lemma_field(bytes, 16, 8);
        wire::lemma_field(bytes, 24, 8);
        wire::lemma_field(bytes, 32, 4);
        wire::lemma_field(bytes, 36, 4);
        wire::lemma_field(bytes, 40, 4);
        wire::lemma_field(bytes, 44, 4);
        wire::lemma_field(bytes, 48, 4);
        wire::lemma_field(bytes, 52, 4);
        wire::lemma_field(bytes, 56, 4);
        wire::lemma_field(bytes, 60, 4);
        wire::lemma_field(bytes, 64, 8);
        wire::lemma_field(bytes, 72, 8);
        wire::lemma_field(bytes, 80, 8);
        wire::lemma_field(bytes, 88, 8);
        wire::lemma_field(bytes, 96, 8);
        wire::lemma_field(bytes, 104, 8);
        if bytes.len() == 144 {
            wire::lemma_field(bytes, 112, 8);
            wire::lemma_field(bytes, 120, 4);
            wire::lemma_field(bytes, 124, 4);
            wire::lemma_field(bytes, 128, 4);
            wire::lemma_field(bytes, 132, 4);
            wire::lemma_field(bytes, 136, 8);
        }
    }
}

/// Feedback is refused only where a rule is broken: a version other than 1 and 2, no session,
/// a refresh rate out of 10 to 1000 Hz, a display side above 32768, more than a thousand
/// frames each second or ten seconds between two, or a flag without a meaning.
pub proof fn law_sound_feedback_is_taken(feedback: CapabilityFeedback)
    ensures
        feedback.check() is Ok <==> {
            &&& feedback.version == 1 || feedback.version == 2
            &&& feedback.session_id != 0
            &&& feedback.display_refresh_denominator != 0
            &&& feedback.display_refresh_numerator == 0 || (10
                * feedback.display_refresh_denominator <= feedback.display_refresh_numerator
                && feedback.display_refresh_numerator <= 1000
                * feedback.display_refresh_denominator)
            &&& feedback.display_width <= 32768
            &&& feedback.display_height <= 32768
            &&& feedback.present_fps_measured.within(0x447a_0000)
            &&& feedback.present_interval_p95_ms.within(0x461c_4000)
            &&& feedback.active_render_fps.within(0x447a_0000)
            &&& feedback.decoder_input_fps.within(0x447a_0000)
            &&& feedback.state_flags & 0xffff_ff80 == 0
        },
        feedback.flagged(0x01) && feedback.version == 2 ==> feedback.eligible(),
        feedback.eligible() ==> feedback.flagged(0x01) && feedback.version >= 2,
{
    assert(!0x7fu32 == 0xffff_ff80u32) by (bit_vector);
}

/// Feedback of the running session whose number is larger than that of the last is what is
/// known from then on, and shows that the other end is there.
pub proof fn law_new_feedback_is_known(
    tracker: TrackerModel,
    bytes: Seq<u8>,
    session_id: u64,
    now: u64,
)
    requires
        CapabilityFeedback::parse(bytes) matches Ok(feedback) && feedback.session_id == session_id
            && (tracker.latest is None || (tracker.latest->0).0.feedback_sequence
            < feedback.feedback_sequence),
        tracker.stats.received < u64::MAX,
    ensures
        ({
            let after = tracker.observed(bytes, session_id, now);
            &&& tracker.verdict(bytes, session_id) == Ok::<bool, ControlError>(true)
            &&& after.latest == Some((CapabilityFeedback::parse(bytes)->Ok_0, now))
            &&& after.eligible_at == Some(now)
            &&& after.peer_control_at == Some(now)
            &&& after.feedback_at == Some(now)
            &&& after.stats.received == tracker.stats.received + 1
            &&& after.stats.invalid == tracker.stats.invalid
            &&& !after.stale_reported
        }),
{
}

/// Feedback of another session, or one whose number is not larger than that of the last, is
/// refused and counted, and so is what is no feedback.
pub proof fn law_other_feedback_is_counted(
    tracker: TrackerModel,
    bytes: Seq<u8>,
    session_id: u64,
    now: u64,
)
    requires
        CapabilityFeedback::parse(bytes) matches Ok(feedback) ==> feedback.session_id != session_id
            || (tracker.latest is Some && feedback.feedback_sequence <= (
        tracker.latest->0).0.feedback_sequence),
        tracker.stats.invalid < u64::MAX,
    ensures
        tracker.verdict(bytes, session_id) is Err,
        tracker.observed(bytes, session_id, now).stats.invalid == tracker.stats.invalid + 1,
        tracker.observed(bytes, session_id, now).latest == tracker.latest,
        tracker.observed(bytes, session_id, now).grace_until == tracker.grace_until,
{
}

/// What is known is old once more time than allowed has passed since it came, and that is
/// then counted.
pub proof fn law_old_feedback_is_stale(tracker: TrackerModel, now: u64, stale_after: u64)
    requires
        tracker.latest is Some,
        tracker.stats.stale_events < u64::MAX,
    ensures
        tracker.stale(now, stale_after) == (now > (tracker.latest->0).1 + stale_after),
        tracker.stale(now, stale_after) && !tracker.stale_reported ==> tracker.asked(
            now,
            stale_after,
        ).stats.stale_events == tracker.stats.stale_events + 1,
        !tracker.stale(now, stale_after) ==> tracker.asked(now, stale_after) == tracker,
        tracker.asked(now, stale_after).latest == tracker.latest,
{
}

} // verus!
