//! Media time: microseconds since the start of a run.

use vstd::prelude::*;

use crate::json;
use crate::json::{Fragment, Member, Value};
use crate::text;

verus! {

pub const NANOS_PER_US: u64 = 1_000;

/// Up to this many microseconds, a thousandth of them is less than half a thousandth off
/// when it is rounded to a double, so that its first three decimals are those of the
/// number itself.
pub const EXACT_DELTA_US: i64 = 8_796_093_022_208_000;

#[derive(Clone, Copy, Debug, PartialEq, Eq, Structural)]
pub struct MediaTimestampUs(pub u64);

/// Counts from the moment at which it was made.  Its readings are taken from
/// nanoseconds of a monotonic clock.
#[derive(Clone, Copy, Debug, PartialEq, Eq, Structural)]
pub struct MediaClock {
    pub started_at: u64,
}

impl MediaClock {
    /// The microseconds from the start to `now`.
    pub open spec fn reading(self, now: u64) -> u64 {
        if now >= self.started_at {
            ((now - self.started_at) / NANOS_PER_US as int) as u64
        } else {
            0
        }
    }

    /// A clock that starts at `now`.
    pub fn new(now: u64) -> (r: MediaClock)
        ensures
            r.started_at == now,
            r.reading(now) == 0,
    {
        MediaClock { started_at: now }
    }

    /// Reads the clock at `now`.
    pub fn now_us(&self, now: u64) -> (r: u64)
        ensures
            r == self.reading(now),
    {
        duration_to_us(now.saturating_sub(self.started_at))
    }
}

/// Whole microseconds of a duration in nanoseconds.
pub fn duration_to_us(duration: u64) -> (r: u64)
    ensures
        r == duration / NANOS_PER_US,
{
    duration / NANOS_PER_US
}

/// Readings never run backwards.
pub proof fn law_clock_is_monotonic(clock: MediaClock, earlier: u64, later: u64)
    requires
        earlier <= later,
    ensures
        clock.reading(earlier) <= clock.reading(later),
{
}

/// Maps capture timestamps of a performance counter onto an existing media clock.
///
/// The first valid capture timestamp is anchored to the reading of the media
/// clock.  Later buffers retain the capture-side cadence instead of inheriting the
/// time at which the audio worker happened to drain them.
#[derive(Clone, Copy, Debug, PartialEq, Eq, Structural)]
pub struct QpcMediaTimestampMapper {
    pub qpc_frequency: Option<u64>,
    pub anchor_qpc: Option<u64>,
    pub anchor_media_us: Option<u64>,
    pub qpc_errors: u64,
}

/// The microseconds of `delta` ticks, zero for a counter without frequency.
pub open spec fn ticks_to_us(delta: int, frequency: u64) -> u64 {
    if frequency == 0 {
        0
    } else if delta * 1_000_000 / frequency as int > u64::MAX {
        u64::MAX
    } else {
        (delta * 1_000_000 / frequency as int) as u64
    }
}

impl QpcMediaTimestampMapper {
    /// A mapper for a counter of the given frequency, if there is one.
    pub fn new(qpc_frequency: Option<u64>) -> (r: QpcMediaTimestampMapper)
        ensures
            r == (QpcMediaTimestampMapper {
                qpc_frequency,
                anchor_qpc: None,
                anchor_media_us: None,
                qpc_errors: 0,
            }),
    {
        QpcMediaTimestampMapper {
            qpc_frequency,
            anchor_qpc: None,
            anchor_media_us: None,
            qpc_errors: 0,
        }
    }

    pub fn qpc_available(&self) -> (r: bool)
        ensures
            r == self.qpc_frequency is Some,
    {
        self.qpc_frequency.is_some()
    }

    pub fn qpc_errors(&self) -> (r: u64)
        ensures
            r == self.qpc_errors,
    {
        self.qpc_errors
    }

    /// The anchors that hold once `position` has been seen at the reading `now_us`.
    pub open spec fn anchored(self, position: u64, now_us: u64) -> QpcMediaTimestampMapper {
        QpcMediaTimestampMapper {
            anchor_qpc: match self.anchor_qpc {
                Some(anchor) => Some(anchor),
                None => Some(position),
            },
            anchor_media_us: match self.anchor_media_us {
                Some(anchor) => Some(anchor),
                None => Some(now_us),
            },
            ..self
        }
    }

    /// One more timestamp that could not be mapped.
    pub open spec fn with_error(self) -> QpcMediaTimestampMapper {
        QpcMediaTimestampMapper { qpc_errors: self.qpc_errors.saturating_add(1), ..self }
    }

    /// The media time of `position`, and whether the counter gave it.
    pub open spec fn mapped(self, position: u64, now_us: u64) -> (u64, bool) {
        let at = self.anchored(position, now_us);
        if self.qpc_frequency is None || position == 0 || position < at.anchor_qpc->0 {
            (now_us, false)
        } else {
            (
                (at.anchor_media_us->0).saturating_add(
                    ticks_to_us(position - at.anchor_qpc->0, self.qpc_frequency->0),
                ),
                true,
            )
        }
    }

    /// The state after `position` was mapped.
    pub open spec fn after(self, position: u64, now_us: u64) -> QpcMediaTimestampMapper {
        if self.qpc_frequency is None {
            self
        } else if position == 0 {
            self.with_error()
        } else if position < self.anchored(position, now_us).anchor_qpc->0 {
            self.anchored(position, now_us).with_error()
        } else {
            self.anchored(position, now_us)
        }
    }

    /// Returns the media time in microseconds and whether the counter gave it.
    pub fn map_capture_timestamp(&mut self, qpc_position: u64, fallback_now_us: u64) -> (r: (
        u64,
        bool,
    ))
        ensures
            r == old(self).mapped(qpc_position, fallback_now_us),
            *final(self) == old(self).after(qpc_position, fallback_now_us),
    {
        let frequency: u64 = match self.qpc_frequency {
            Some(frequency) => frequency,
            None => {
                return (fallback_now_us, false);
            },
        };
        if qpc_position == 0 {
            self.qpc_errors = self.qpc_errors.saturating_add(1);
            return (fallback_now_us, false);
        }
        let anchor_qpc: u64 = self.anchor_qpc.unwrap_or(qpc_position);
        let anchor_media_us: u64 = self.anchor_media_us.unwrap_or(fallback_now_us);
        self.anchor_qpc = Some(anchor_qpc);
        self.anchor_media_us = Some(anchor_media_us);
        if qpc_position < anchor_qpc {
            self.qpc_errors = self.qpc_errors.saturating_add(1);
            return (fallback_now_us, false);
        }
        let delta_us: u64 = if frequency == 0 {
            0
        } else {
            let exact: u128 = (qpc_position - anchor_qpc) as u128 * 1_000_000 / frequency as u128;
            if exact > u64::MAX as u128 {
                u64::MAX
            } else {
                exact as u64
            }
        };
        (anchor_media_us.saturating_add(delta_us), true)
    }
}

/// The first timestamp that the counter gives maps to the reading of the media
/// clock.
pub proof fn law_first_capture_is_anchored(
    mapper: QpcMediaTimestampMapper,
    position: u64,
    now_us: u64,
)
    requires
        mapper.qpc_frequency is Some,
        mapper.anchor_qpc is None,
        mapper.anchor_media_us is None,
        position > 0,
    ensures
        mapper.mapped(position, now_us) == (now_us, true),
        mapper.after(position, now_us).anchor_qpc == Some(position),
        mapper.after(position, now_us).anchor_media_us == Some(now_us),
{
    if mapper.qpc_frequency->0 != 0 {
        vstd::arithmetic::div_mod::lemma_div_of0((mapper.qpc_frequency->0) as int);
    }
}

/// Once anchored, the mapped time depends on the counter alone and never runs
/// backwards while the counter does not.
pub proof fn law_capture_cadence_is_kept(
    mapper: QpcMediaTimestampMapper,
    earlier: u64,
    later: u64,
    now_us: u64,
    other_now_us: u64,
)
    requires
        mapper.qpc_frequency is Some,
        mapper.anchor_qpc is Some,
        mapper.anchor_media_us is Some,
        0 < mapper.anchor_qpc->0 <= earlier <= later,
    ensures
        mapper.mapped(earlier, now_us) == mapper.mapped(earlier, other_now_us),
        mapper.mapped(earlier, now_us).0 <= mapper.mapped(later, now_us).0,
        mapper.after(earlier, now_us) == mapper,
{
    let frequency = (mapper.qpc_frequency->0) as int;
    let a = (earlier - mapper.anchor_qpc->0) * 1_000_000;
    let b = (later - mapper.anchor_qpc->0) * 1_000_000;
    if frequency > 0 {
        vstd::arithmetic::div_mod::lemma_div_is_ordered(a, b, frequency);
    }
}

/// Ties the media time of a stream to the clock of its receiver.
#[derive(Clone, Copy, Debug, PartialEq, Eq, Structural)]
pub struct ReceiverMediaClockAnchor {
    pub first_media_timestamp_us: Option<u64>,
    pub receiver_clock_anchor_us: Option<u64>,
    pub playout_delay_ms: u64,
    pub last_audio_timestamp_us: Option<u64>,
    pub last_video_timestamp_us: Option<u64>,
}

/// `ms` in microseconds, as far as a counter reaches.
pub open spec fn ms_to_us(ms: u64) -> u64 {
    if ms * 1000 > u64::MAX {
        u64::MAX
    } else {
        (ms * 1000) as u64
    }
}

/// Converts milliseconds to microseconds; the result stops at its maximum.
pub fn millis_to_us(ms: u64) -> (r: u64)
    ensures
        r == ms_to_us(ms),
{
    match ms.checked_mul(1000) {
        Some(us) => us,
        None => u64::MAX,
    }
}

impl ReceiverMediaClockAnchor {
    pub fn new(playout_delay_ms: u64) -> (r: ReceiverMediaClockAnchor)
        ensures
            r == (ReceiverMediaClockAnchor {
                first_media_timestamp_us: None,
                receiver_clock_anchor_us: None,
                playout_delay_ms,
                last_audio_timestamp_us: None,
                last_video_timestamp_us: None,
            }),
    {
        ReceiverMediaClockAnchor {
            first_media_timestamp_us: None,
            receiver_clock_anchor_us: None,
            playout_delay_ms,
            last_audio_timestamp_us: None,
            last_video_timestamp_us: None,
        }
    }

    /// The anchor can be computed at the reading `now_us`, or is set already.
    pub open spec fn can_anchor(self, now_us: u64) -> bool {
        self.first_media_timestamp_us is None ==> now_us + ms_to_us(self.playout_delay_ms)
            <= u64::MAX
    }

    /// The anchor after `timestamp` was seen at the reading `now_us`: the first
    /// timestamp sets it.
    pub open spec fn observed(
        self,
        timestamp: MediaTimestampUs,
        now_us: u64,
    ) -> ReceiverMediaClockAnchor {
        if self.first_media_timestamp_us is None {
            ReceiverMediaClockAnchor {
                first_media_timestamp_us: Some(timestamp.0),
                receiver_clock_anchor_us: Some(
                    (now_us + ms_to_us(self.playout_delay_ms)) as u64,
                ),
                ..self
            }
        } else {
            self
        }
    }

    /// Sees an audio timestamp while the receiver's clock reads `now_us`.
    pub fn observe_audio(&mut self, timestamp: MediaTimestampUs, now_us: u64)
        requires
            old(self).can_anchor(now_us),
        ensures
            *final(self) == (ReceiverMediaClockAnchor {
                last_audio_timestamp_us: Some(timestamp.0),
                ..old(self).observed(timestamp, now_us)
            }),
    {
        self.observe(timestamp, now_us);
        self.last_audio_timestamp_us = Some(timestamp.0);
    }

    /// Sees a video timestamp while the receiver's clock reads `now_us`.
    pub fn observe_video(&mut self, timestamp: MediaTimestampUs, now_us: u64)
        requires
            old(self).can_anchor(now_us),
        ensures
            *final(self) == (ReceiverMediaClockAnchor {
                last_video_timestamp_us: Some(timestamp.0),
                ..old(self).observed(timestamp, now_us)
            }),
    {
        self.observe(timestamp, now_us);
        self.last_video_timestamp_us = Some(timestamp.0);
    }

    fn observe(&mut self, timestamp: MediaTimestampUs, now_us: u64)
        requires
            old(self).can_anchor(now_us),
        ensures
            *final(self) == old(self).observed(timestamp, now_us),
    {
        if self.first_media_timestamp_us.is_none() {
            self.first_media_timestamp_us = Some(timestamp.0);
            self.receiver_clock_anchor_us = Some(now_us + millis_to_us(self.playout_delay_ms));
        }
    }

    /// How far audio is ahead of video, in microseconds, once both were seen.
    pub open spec fn delta_us(self) -> Option<i128> {
        match (self.last_audio_timestamp_us, self.last_video_timestamp_us) {
            (Some(audio), Some(video)) => Some((audio - video) as i128),
            _ => None,
        }
    }

    /// How far audio is ahead of video, in microseconds, once both were seen.
    pub fn audio_video_timestamp_delta_us(&self) -> (r: Option<i128>)
        ensures
            r == self.delta_us(),
    {
        match (self.last_audio_timestamp_us, self.last_video_timestamp_us) {
            (Some(audio), Some(video)) => Some(audio as i128 - video as i128),
            _ => None,
        }
    }

    /// The distance of audio and video in milliseconds, with three digits after the point,
    /// or null.  `far_ms` stands for a distance beyond `EXACT_DELTA_US`.
    pub open spec fn delta_ms_text(self, far_ms: Seq<char>) -> Seq<char> {
        match self.delta_us() {
            Some(delta) => if -EXACT_DELTA_US <= delta <= EXACT_DELTA_US {
                text::thousandths(delta as int)
            } else {
                far_ms
            },
            None => "null"@,
        }
    }

    /// Writes the distance of audio and video.
    fn delta_ms_json(&self, far_ms: &str) -> (r: String)
        ensures
            r@ == self.delta_ms_text(far_ms@),
    {
        match self.audio_video_timestamp_delta_us() {
            Some(delta) => if -EXACT_DELTA_US as i128 <= delta && delta <= EXACT_DELTA_US as i128 {
                text::thousandths_text(delta as i64)
            } else {
                far_ms.to_string()
            },
            None => "null".to_string(),
        }
    }

    /// The members of a JSON object.
    pub open spec fn members(self, far_ms: Seq<char>) -> Seq<Member> {
        seq![
            Member::Pair(
                "first_media_timestamp_us"@,
                Value::Maybe(self.first_media_timestamp_us),
            ),
            Member::Pair(
                "receiver_clock_anchor_us"@,
                Value::Maybe(self.receiver_clock_anchor_us),
            ),
            Member::Pair(
                "audio_video_timestamp_delta_ms"@,
                Value::Raw(self.delta_ms_text(far_ms)),
            ),
        ]
    }

    /// The members of a JSON object.  `far_ms` is the distance of audio and video in decimal
    /// milliseconds, and is used only where it is beyond `EXACT_DELTA_US`.
    pub fn json_fragment(&self, far_ms: &str) -> (r: String)
        ensures
            r@ == json::render(self.members(far_ms@)),
    {
        let delta_ms: String = self.delta_ms_json(far_ms);
        let members: Fragment = Fragment::new()
            .maybe("first_media_timestamp_us", self.first_media_timestamp_us)
            .maybe("receiver_clock_anchor_us", self.receiver_clock_anchor_us)
            .raw("audio_video_timestamp_delta_ms", delta_ms.as_str());
        assert(members@ =~= self.members(far_ms@));
        members.finish()
    }
}

/// The anchor of a stream is set by its first timestamp and stays.
pub proof fn law_anchor_is_set_once(
    anchor: ReceiverMediaClockAnchor,
    first: MediaTimestampUs,
    second: MediaTimestampUs,
    now_us: u64,
    later_us: u64,
)
    ensures
        anchor.observed(first, now_us).observed(second, later_us) == anchor.observed(first, now_us),
{
}

/// A number in JSON, or null.
pub open spec fn optional_number(value: Option<u64>) -> Seq<char> {
    match value {
        Some(n) => text::decimal(n as nat),
        None => "null"@,
    }
}

/// A number that is given by its text, or null.
pub open spec fn optional_decimal(value: Option<&str>) -> Seq<char> {
    match value {
        Some(number) => number@,
        None => "null"@,
    }
}

/// A number in JSON, or null.
pub fn optional_u64_json(value: Option<u64>) -> (r: String)
    ensures
        r@ == optional_number(value),
{
    match value {
        Some(n) => text::decimal_text(n),
        None => "null".to_string(),
    }
}

/// A number that is given by its text, or null.
pub fn optional_f64_json(value: Option<&str>) -> (r: String)
    ensures
        r@ == optional_decimal(value),
{
    match value {
        Some(number) => number.to_string(),
        None => "null".to_string(),
    }
}

/// Anchors a stream and maps two capture timestamps.  It never fails.
pub fn run_self_test() -> (r: Result<(), String>)
    ensures
        r is Ok,
{
    let clock: MediaClock = MediaClock::new(5_000_000);
    let mut anchor: ReceiverMediaClockAnchor = ReceiverMediaClockAnchor::new(120);
    anchor.observe_video(MediaTimestampUs(33_000), clock.now_us(5_000_000));
    if anchor.first_media_timestamp_us != Some(33_000u64)
        || anchor.receiver_clock_anchor_us.unwrap_or(0) < 120_000 {
        return Err("media clock receiver anchor failed".to_string());
    }
    anchor.observe_audio(MediaTimestampUs(43_000), clock.now_us(5_000_000));
    match anchor.audio_video_timestamp_delta_us() {
        Some(delta) => {
            if delta != 10_000 {
                return Err("media clock A/V delta failed".to_string());
            }
        },
        None => {
            return Err("media clock A/V delta failed".to_string());
        },
    }
    let mut qpc: QpcMediaTimestampMapper = QpcMediaTimestampMapper::new(Some(10_000_000));
    let (first, first_used_qpc): (u64, bool) = qpc.map_capture_timestamp(100, 50_000);
    let (second, second_used_qpc): (u64, bool) = qpc.map_capture_timestamp(100_100, 99_999);
    if !first_used_qpc || !second_used_qpc || first != 50_000 || second != 60_000 {
        return Err("QPC media timestamp mapping failed".to_string());
    }
    Ok(())
}

/// A clock reads the whole microseconds since it started.
pub proof fn law_clock_reads_microseconds(clock: MediaClock, now: u64)
    requires
        clock.started_at <= now,
    ensures
        clock.started_at + clock.reading(now) * 1000 <= now,
        now < clock.started_at + (clock.reading(now) + 1) * 1000,
{
}

/// Ticks of a counter become microseconds, rounded down.
pub proof fn law_ticks_become_microseconds(delta: u64, frequency: u64)
    requires
        frequency > 0,
        delta * 1_000_000 / (frequency as int) <= u64::MAX,
    ensures
        ticks_to_us(delta as int, frequency) * frequency <= delta * 1_000_000,
        delta * 1_000_000 < (ticks_to_us(delta as int, frequency) + 1) * frequency,
{
    let value = delta * 1_000_000;
    let f = frequency as int;
    let q = value / f;
    assert(q * f <= value < (q + 1) * f) by (nonlinear_arith)
        requires
            f > 0,
            q == value / f,
    ;
}

/// The first capture is at the time that it was mapped at, and each later one as long after
/// it as its ticks say; what the counter cannot tell is the time that it was mapped at.
pub proof fn law_captures_keep_their_distance(
    mapper: QpcMediaTimestampMapper,
    first: u64,
    first_us: u64,
    second: u64,
    second_us: u64,
    frequency: u64,
)
    requires
        mapper.qpc_frequency == Some(frequency),
        mapper.anchor_qpc is None,
        mapper.anchor_media_us is None,
        0 < first <= second,
        frequency > 0,
        first_us + ticks_to_us(second - first, frequency) <= u64::MAX,
    ensures
        mapper.mapped(first, first_us) == (first_us, true),
        mapper.after(first, first_us).mapped(second, second_us) == (
            (first_us + ticks_to_us(second - first, frequency)) as u64,
            true,
        ),
        mapper.after(first, first_us).mapped(0, second_us) == (second_us, false),
        mapper.qpc_errors < u64::MAX ==> mapper.after(first, first_us).after(
            0,
            second_us,
        ).qpc_errors == mapper.qpc_errors + 1,
        (QpcMediaTimestampMapper { qpc_frequency: None, ..mapper }).mapped(first, first_us) == (
            first_us,
            false,
        ),
{
    assert(0int * 1_000_000 / (frequency as int) == 0) by (nonlinear_arith)
        requires
            frequency > 0,
    ;
}

/// The first timestamp of all is shown after the delay: that is where the receiver's clock
/// is tied to the sender's, once.
pub proof fn law_anchor_adds_the_delay(
    anchor: ReceiverMediaClockAnchor,
    timestamp: MediaTimestampUs,
    other: MediaTimestampUs,
    now_us: u64,
    later_us: u64,
)
    requires
        anchor.first_media_timestamp_us is None,
        anchor.playout_delay_ms * 1000 + now_us <= u64::MAX,
    ensures
        anchor.observed(timestamp, now_us).first_media_timestamp_us == Some(timestamp.0),
        anchor.observed(timestamp, now_us).receiver_clock_anchor_us == Some(
            (now_us + anchor.playout_delay_ms * 1000) as u64,
        ),
        anchor.observed(timestamp, now_us).observed(other, later_us) == anchor.observed(
            timestamp,
            now_us,
        ),
{
}

/// Sound is as far ahead of pictures as its last timestamp is ahead of theirs.
pub proof fn law_distance_of_sound_and_picture(
    anchor: ReceiverMediaClockAnchor,
    audio: u64,
    video: u64,
)
    requires
        anchor.last_audio_timestamp_us == Some(audio),
        anchor.last_video_timestamp_us == Some(video),
    ensures
        anchor.delta_us() matches Some(delta) && video + delta == audio,
        (ReceiverMediaClockAnchor { last_audio_timestamp_us: None, ..anchor }).delta_us() is None,
        (ReceiverMediaClockAnchor { last_video_timestamp_us: None, ..anchor }).delta_us() is None,
{
}

/// A millisecond is a thousand microseconds.
pub proof fn law_milliseconds_become_microseconds(ms: u64)
    ensures
        ms * 1000 <= u64::MAX ==> ms_to_us(ms) == ms * 1000,
        ms * 1000 > u64::MAX ==> ms_to_us(ms) == u64::MAX,
{
}

} // verus!
