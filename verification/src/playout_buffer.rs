//! Delays complete frames so that they leave at the pace of their timestamps.
//!
//! Times are nanoseconds of a monotonic clock.  Counters stop at their maximum.

use vstd::prelude::*;

use std::collections::VecDeque;

use crate::encoded_frame::EncodedFrame;
use crate::text;

verus! {

pub const MAX_PLAYOUT_DELAY_MS: u64 = 500;

/// Five milliseconds.
pub const LATE_TOLERANCE: u64 = 5_000_000;

pub const NANOS_PER_MS: u64 = 1_000_000;

#[derive(Clone, Copy, Debug, PartialEq, Eq, Structural)]
pub struct PlayoutStats {
    pub buffer_peak_frames: usize,
    pub late_frames: u64,
    pub dropped_late_frames: u64,
    pub dropped_discontinuity_frames: u64,
    /// The time that released frames have spent in the buffer.
    pub delay_actual_total: u128,
    /// The longest time that a released frame has spent in the buffer.
    pub delay_actual_max: u64,
    pub released_frames: u64,
}

/// A frame that waits for its time.
#[derive(Debug)]
pub struct BufferedFrame {
    pub frame: EncodedFrame,
    pub completed_at: u64,
    pub target_playout_at: u128,
}

/// Frames in the order in which they came.
#[derive(Debug)]
pub struct PlayoutBuffer {
    delay_ms: u64,
    frames: VecDeque<BufferedFrame>,
    first_timestamp_ms: Option<u64>,
    first_target_at: Option<u128>,
    last_target_at: Option<u128>,
    stats: PlayoutStats,
}

/// What a playout buffer holds.
pub struct PlayoutModel {
    pub delay_ms: u64,
    pub frames: Seq<BufferedFrame>,
    /// The timestamp of the first frame since the last discontinuity, and when it
    /// is due.
    pub first_timestamp_ms: Option<u64>,
    pub first_target_at: Option<u128>,
    /// When the frame that came last is due.
    pub last_target_at: Option<u128>,
    pub stats: PlayoutStats,
}

impl View for PlayoutBuffer {
    type V = PlayoutModel;

    closed spec fn view(&self) -> PlayoutModel {
        PlayoutModel {
            delay_ms: self.delay_ms,
            frames: self.frames@,
            first_timestamp_ms: self.first_timestamp_ms,
            first_target_at: self.first_target_at,
            last_target_at: self.last_target_at,
            stats: self.stats,
        }
    }
}

/// The larger of two times.
pub open spec fn at_least(target: int, floor: Option<u128>) -> int {
    match floor {
        Some(last) => if target >= last {
            target
        } else {
            last as int
        },
        None => target,
    }
}

/// How many frames at the front are due at `now`.
pub open spec fn due_count(frames: Seq<BufferedFrame>, now: u64) -> nat
    decreases frames.len(),
{
    if frames.len() > 0 && frames[0].target_playout_at <= now {
        1 + due_count(frames.drop_first(), now)
    } else {
        0
    }
}

/// The time from `then` to `now`.
pub open spec fn elapsed(now: u64, then: u64) -> u64 {
    now.saturating_sub(then)
}

impl PlayoutModel {
    /// The delay is allowed, the frames are due in the order in which they came,
    /// and no frame is due after the one that came last.
    pub open spec fn well_formed(self) -> bool {
        &&& self.delay_ms <= MAX_PLAYOUT_DELAY_MS
        &&& self.first_timestamp_ms is Some == self.first_target_at is Some
        &&& self.first_target_at is Some == self.last_target_at is Some
        &&& self.frames.len() > 0 ==> self.last_target_at is Some
        &&& forall|i: int, j: int|
            0 <= i <= j < self.frames.len() ==> (#[trigger] self.frames[i]).target_playout_at <= (
            #[trigger] self.frames[j]).target_playout_at
        &&& forall|i: int|
            0 <= i < self.frames.len() ==> (#[trigger] self.frames[i]).target_playout_at
                <= self.last_target_at->0
        &&& self.first_target_at matches Some(first) ==> first <= u64::MAX
            + MAX_PLAYOUT_DELAY_MS * NANOS_PER_MS
        &&& self.last_target_at matches Some(last) ==> last <= u64::MAX * NANOS_PER_MS + u64::MAX
            + MAX_PLAYOUT_DELAY_MS * NANOS_PER_MS
    }

    /// When a frame would be due by its arrival alone.
    pub open spec fn fallback(self, completed_at: u64) -> int {
        completed_at + self.delay_ms * NANOS_PER_MS
    }

    /// When a frame is due: as long after the first frame as its timestamp is, but
    /// not before the frame that came last.  A timestamp before the first one
    /// counts from the arrival.
    pub open spec fn target(self, timestamp_ms: u64, completed_at: u64) -> int {
        let first_timestamp = match self.first_timestamp_ms {
            Some(first) => first,
            None => timestamp_ms,
        };
        let first_target = match self.first_target_at {
            Some(first) => first as int,
            None => self.fallback(completed_at),
        };
        let paced = if timestamp_ms >= first_timestamp {
            first_target + (timestamp_ms - first_timestamp) * NANOS_PER_MS
        } else {
            self.fallback(completed_at)
        };
        at_least(paced, self.last_target_at)
    }

    /// One more frame waits.
    pub open spec fn with_frame(self, frame: EncodedFrame, completed_at: u64) -> PlayoutModel {
        let target = self.target(frame.timestamp_ms, completed_at) as u128;
        PlayoutModel {
            frames: self.frames.push(
                BufferedFrame { frame, completed_at, target_playout_at: target },
            ),
            first_timestamp_ms: match self.first_timestamp_ms {
                Some(first) => Some(first),
                None => Some(frame.timestamp_ms),
            },
            first_target_at: match self.first_target_at {
                Some(first) => Some(first),
                None => Some(self.fallback(completed_at) as u128),
            },
            last_target_at: Some(target),
            ..self
        }
    }

    /// The frames `frames` wait behind those that are held.
    pub open spec fn with_frames(
        self,
        frames: Seq<EncodedFrame>,
        completed_at: u64,
    ) -> PlayoutModel
        decreases frames.len(),
    {
        if frames.len() == 0 {
            self
        } else {
            self.with_frames(frames.drop_last(), completed_at).with_frame(
                frames.last(),
                completed_at,
            )
        }
    }

    /// The peak counts what is held now.
    pub open spec fn with_peak(self) -> PlayoutModel {
        PlayoutModel {
            stats: PlayoutStats {
                buffer_peak_frames: if self.frames.len() > self.stats.buffer_peak_frames {
                    self.frames.len() as usize
                } else {
                    self.stats.buffer_peak_frames
                },
                ..self.stats
            },
            ..self
        }
    }

    /// The front frame leaves at `now`.
    pub open spec fn with_release(self, now: u64) -> PlayoutModel {
        let front = self.frames[0];
        let spent = elapsed(now, front.completed_at);
        PlayoutModel {
            frames: self.frames.drop_first(),
            stats: PlayoutStats {
                late_frames: if now - front.target_playout_at > LATE_TOLERANCE {
                    self.stats.late_frames.saturating_add(1)
                } else {
                    self.stats.late_frames
                },
                delay_actual_total: self.stats.delay_actual_total.saturating_add(spent as u128),
                delay_actual_max: if spent > self.stats.delay_actual_max {
                    spent
                } else {
                    self.stats.delay_actual_max
                },
                released_frames: self.stats.released_frames.saturating_add(1),
                ..self.stats
            },
            ..self
        }
    }

    /// The first `n` frames leave at `now`.
    pub open spec fn with_releases(self, now: u64, n: nat) -> PlayoutModel
        decreases n,
    {
        if n == 0 {
            self
        } else {
            self.with_releases(now, (n - 1) as nat).with_release(now)
        }
    }

    /// Everything that waits is dropped and the pace starts anew.
    pub open spec fn cleared(self) -> PlayoutModel {
        PlayoutModel {
            frames: Seq::empty(),
            first_timestamp_ms: None,
            first_target_at: None,
            last_target_at: None,
            stats: PlayoutStats {
                dropped_discontinuity_frames:
                    self.stats.dropped_discontinuity_frames.saturating_add(
                    self.frames.len() as u64,
                ),
                ..self.stats
            },
            ..self
        }
    }
}

impl PlayoutBuffer {
    /// A buffer that delays the first frame by `playout_delay_ms`.
    pub fn new(playout_delay_ms: u64) -> (r: Result<PlayoutBuffer, String>)
        ensures
            playout_delay_ms > MAX_PLAYOUT_DELAY_MS ==> r is Err && r->Err_0@
                == "playout-delay-ms must be between 0 and "@ + text::decimal(
                MAX_PLAYOUT_DELAY_MS as nat,
            ),
            playout_delay_ms <= MAX_PLAYOUT_DELAY_MS ==> r is Ok && r->Ok_0@.well_formed()
                && r->Ok_0@ == (PlayoutModel {
                delay_ms: playout_delay_ms,
                frames: Seq::empty(),
                first_timestamp_ms: None,
                first_target_at: None,
                last_target_at: None,
                stats: PlayoutStats {
                    buffer_peak_frames: 0,
                    late_frames: 0,
                    dropped_late_frames: 0,
                    dropped_discontinuity_frames: 0,
                    delay_actual_total: 0,
                    delay_actual_max: 0,
                    released_frames: 0,
                },
            }),
    {
        if playout_delay_ms > MAX_PLAYOUT_DELAY_MS {
            let mut error: String = "playout-delay-ms must be between 0 and ".to_string();
            text::push_decimal(&mut error, MAX_PLAYOUT_DELAY_MS);
            return Err(error);
        }
        Ok(
            PlayoutBuffer {
                delay_ms: playout_delay_ms,
                frames: VecDeque::new(),
                first_timestamp_ms: None,
                first_target_at: None,
                last_target_at: None,
                stats: PlayoutStats {
                    buffer_peak_frames: 0,
                    late_frames: 0,
                    dropped_late_frames: 0,
                    dropped_discontinuity_frames: 0,
                    delay_actual_total: 0,
                    delay_actual_max: 0,
                    released_frames: 0,
                },
            },
        )
    }

    pub fn delay_ms(&self) -> (r: u64)
        ensures
            r == self@.delay_ms,
    {
        self.delay_ms
    }

    /// The number of frames that wait.
    pub fn len(&self) -> (r: usize)
        ensures
            r == self@.frames.len(),
    {
        self.frames.len()
    }

    pub fn stats(&self) -> (r: PlayoutStats)
        ensures
            r == self@.stats,
    {
        self.stats
    }

    /// Takes frames that were complete at `completed_at`.
    pub fn push_frames(&mut self, frames: Vec<EncodedFrame>, completed_at: u64)
        requires
            old(self)@.well_formed(),
        ensures
            final(self)@.well_formed(),
            final(self)@ == old(self)@.with_frames(frames@, completed_at).with_peak(),
    {
        let ghost before = self@;
        assert(frames@.subrange(0, 0) =~= Seq::empty());
        for frame in it: frames
            invariant
                it.seq() == frames@,
                self@.well_formed(),
                self@ == before.with_frames(frames@.subrange(0, it.index()), completed_at),
        {
            let ghost at = self@;
            let target_playout_at: u128 = self.target_playout_at(frame.timestamp_ms, completed_at);
            self.last_target_at = Some(target_playout_at);
            self.frames.push_back(BufferedFrame { frame, completed_at, target_playout_at });
            assert(self@ == at.with_frame(frame, completed_at));
            assert(frames@.subrange(0, it.index() + 1).drop_last() =~= frames@.subrange(
                0,
                it.index(),
            ));
        }
        assert(frames@.subrange(0, frames@.len() as int) =~= frames@);
        self.stats.buffer_peak_frames = self.stats.buffer_peak_frames.max(self.frames.len());
    }

    /// Computes when a frame is due; the first frame sets the pace.
    fn target_playout_at(&mut self, timestamp_ms: u64, completed_at: u64) -> (target: u128)
        requires
            old(self)@.well_formed(),
        ensures
            target == old(self)@.target(timestamp_ms, completed_at),
            target <= u64::MAX * NANOS_PER_MS + u64::MAX + MAX_PLAYOUT_DELAY_MS * NANOS_PER_MS,
            final(self)@ == (PlayoutModel {
                first_timestamp_ms: match old(self)@.first_timestamp_ms {
                    Some(first) => Some(first),
                    None => Some(timestamp_ms),
                },
                first_target_at: match old(self)@.first_target_at {
                    Some(first) => Some(first),
                    None => Some(old(self)@.fallback(completed_at) as u128),
                },
                ..old(self)@
            }),
    {
        let fallback: u128 = completed_at as u128 + (self.delay_ms * NANOS_PER_MS) as u128;
        let first_timestamp_ms: u64 = match self.first_timestamp_ms {
            Some(first) => first,
            None => timestamp_ms,
        };
        let first_target_at: u128 = match self.first_target_at {
            Some(first) => first,
            None => fallback,
        };
        self.first_timestamp_ms = Some(first_timestamp_ms);
        self.first_target_at = Some(first_target_at);
        let target: u128 = if timestamp_ms >= first_timestamp_ms {
            first_target_at + (timestamp_ms - first_timestamp_ms) as u128 * NANOS_PER_MS as u128
        } else {
            fallback
        };
        match self.last_target_at {
            Some(last) => target.max(last),
            None => target,
        }
    }

    /// Releases the frames that are due at `now`, in the order in which they came.
    pub fn pop_due(&mut self, now: u64) -> (due: Vec<EncodedFrame>)
        requires
            old(self)@.well_formed(),
        ensures
            final(self)@.well_formed(),
            due@ == Seq::new(
                due_count(old(self)@.frames, now),
                |i: int| old(self)@.frames[i].frame,
            ),
            final(self)@ == old(self)@.with_releases(now, due_count(old(self)@.frames, now)),
    {
        let ghost before = self@;
        let mut due: Vec<EncodedFrame> = Vec::new();
        while self.frames.len() > 0 && self.frames[0].target_playout_at <= now as u128
            invariant
                self@.well_formed(),
                due@.len() <= before.frames.len(),
                self@.frames == before.frames.subrange(
                    due@.len() as int,
                    before.frames.len() as int,
                ),
                self@ == before.with_releases(now, due@.len()),
                forall|i: int|
                    0 <= i < due@.len() ==> #[trigger] due@[i] == before.frames[i].frame,
                due_count(before.frames, now) == due@.len() + due_count(self@.frames, now),
            decreases self@.frames.len(),
        {
            let ghost at = self@;
            if let Some(buffered) = self.frames.pop_front() {
                let lateness: u128 = now as u128 - buffered.target_playout_at;
                if lateness > LATE_TOLERANCE as u128 {
                    self.stats.late_frames = self.stats.late_frames.saturating_add(1);
                }
                let actual_delay: u64 = now.saturating_sub(buffered.completed_at);
                self.stats.delay_actual_total =
                self.stats.delay_actual_total.saturating_add(actual_delay as u128);
                self.stats.delay_actual_max = self.stats.delay_actual_max.max(actual_delay);
                self.stats.released_frames = self.stats.released_frames.saturating_add(1);
                due.push(buffered.frame);
            }
            assert(self@.frames =~= at.frames.drop_first());
            assert(self@ == at.with_release(now));
        }
        assert(due@ =~= Seq::new(
            due_count(before.frames, now),
            |i: int| before.frames[i].frame,
        ));
        due
    }

    /// Drops everything that waits; the next frame sets a new pace.
    pub fn clear_for_discontinuity(&mut self)
        requires
            old(self)@.well_formed(),
        ensures
            final(self)@.well_formed(),
            final(self)@ == old(self)@.cleared(),
    {
        self.stats.dropped_discontinuity_frames =
        self.stats.dropped_discontinuity_frames.saturating_add(self.frames.len() as u64);
        self.frames.clear();
        self.first_timestamp_ms = None;
        self.first_target_at = None;
        self.last_target_at = None;
        assert(self@.frames =~= Seq::empty());
    }
}

/// What is released is exactly what is due: every frame that leaves has reached its
/// time, and no frame that stays has.
pub proof fn law_release_is_exact(buffer: PlayoutModel, now: u64)
    requires
        buffer.well_formed(),
    ensures
        due_count(buffer.frames, now) <= buffer.frames.len(),
        forall|i: int|
            0 <= i < due_count(buffer.frames, now) ==> (
                #[trigger] buffer.frames[i]
            ).target_playout_at
                <= now,
        forall|i: int|
            due_count(buffer.frames, now) <= i < buffer.frames.len() ==> (
            #[trigger] buffer.frames[i]).target_playout_at > now,
{
    lemma_due_prefix(buffer.frames, now);
}

proof fn lemma_due_prefix(frames: Seq<BufferedFrame>, now: u64)
    requires
        forall|i: int, j: int|
            0 <= i <= j < frames.len() ==> (#[trigger] frames[i]).target_playout_at <= (
            #[trigger] frames[j]).target_playout_at,
    ensures
        due_count(frames, now) <= frames.len(),
        forall|i: int|
            0 <= i < due_count(frames, now) ==> (#[trigger] frames[i]).target_playout_at <= now,
        forall|i: int|
            due_count(frames, now) <= i < frames.len() ==> (#[trigger] frames[i]).target_playout_at
                > now,
    decreases frames.len(),
{
    if frames.len() > 0 && frames[0].target_playout_at <= now {
        let rest = frames.drop_first();
        lemma_due_prefix(rest, now);
        assert forall|i: int| 0 <= i < due_count(frames, now) implies (
        #[trigger] frames[i]).target_playout_at <= now by {
            if i > 0 {
                assert(rest[i - 1] == frames[i]);
            }
        }
        assert forall|i: int| due_count(frames, now) <= i < frames.len() implies (
        #[trigger] frames[i]).target_playout_at > now by {
            assert(rest[i - 1] == frames[i]);
        }
    } else if frames.len() > 0 {
        assert forall|i: int| 0 <= i < frames.len() implies (#[trigger] frames[i]).target_playout_at
            > now by {
            assert(frames[0].target_playout_at <= frames[i].target_playout_at);
        }
    }
}

/// Frames that follow each other are as far apart as their timestamps, where the
/// timestamps do not run backwards behind the first one.
pub proof fn law_pace_follows_timestamps(
    buffer: PlayoutModel,
    frame: EncodedFrame,
    completed_at: u64,
)
    requires
        buffer.well_formed(),
        buffer.first_timestamp_ms is Some,
        frame.timestamp_ms >= buffer.first_timestamp_ms->0,
        buffer.first_target_at->0 + (frame.timestamp_ms - buffer.first_timestamp_ms->0)
            * NANOS_PER_MS >= buffer.last_target_at->0,
    ensures
        buffer.with_frame(frame, completed_at).frames.last().target_playout_at
            == buffer.first_target_at->0 + (frame.timestamp_ms - buffer.first_timestamp_ms->0)
            * NANOS_PER_MS,
{
    assert(frame.timestamp_ms * NANOS_PER_MS <= u64::MAX * NANOS_PER_MS);
}

/// A discontinuity leaves nothing that could be released.
pub proof fn law_discontinuity_empties_the_buffer(buffer: PlayoutModel, now: u64)
    ensures
        due_count(buffer.cleared().frames, now) == 0,
        buffer.cleared().delay_ms == buffer.delay_ms,
{
}

fn self_test_frame(frame_id: u64, timestamp_ms: u64) -> (r: EncodedFrame)
    requires
        frame_id < 256,
    ensures
        r.frame_id == frame_id,
        r.timestamp_ms == timestamp_ms,
{
    let bytes: Vec<u8> = vec![frame_id as u8];
    EncodedFrame { frame_id, flags: 0, timestamp_ms, bytes }
}

/// Releases two frames at their times.  It never fails.
pub fn run_self_test() -> (r: Result<(), String>)
    ensures
        r is Ok,
{
    PlayoutBuffer::new(0)?;
    PlayoutBuffer::new(500)?;
    if PlayoutBuffer::new(501).is_ok() {
        return Err("playout delay above 500ms was accepted".to_string());
    }
    let now: u64 = 1_000_000_000;
    let mut buffer: PlayoutBuffer = PlayoutBuffer::new(120)?;
    let mut frames: Vec<EncodedFrame> = Vec::new();
    frames.push(self_test_frame(0, 1000));
    frames.push(self_test_frame(1, 1033));
    let ghost pushed = frames@;
    proof {
        reveal_with_fuel(PlayoutModel::with_frames, 3);
        reveal_with_fuel(due_count, 3);
        reveal_with_fuel(PlayoutModel::with_releases, 3);
        assert(pushed.drop_last().drop_last() =~= Seq::empty());
        assert(pushed.drop_last().last() == pushed[0]);
        assert(pushed.last() == pushed[1]);
    }
    buffer.push_frames(frames, now);
    assert(buffer@.frames.len() == 2);
    assert(buffer@.frames[0].frame == pushed[0]);
    assert(buffer@.frames[1].frame == pushed[1]);
    assert(buffer@.frames[0].target_playout_at == now + 120 * NANOS_PER_MS);
    assert(buffer@.frames[1].target_playout_at == now + 153 * NANOS_PER_MS);
    let early: Vec<EncodedFrame> = buffer.pop_due(now + 119 * NANOS_PER_MS);
    if early.len() != 0 {
        return Err("playout buffer released a frame before its target".to_string());
    }
    let first: Vec<EncodedFrame> = buffer.pop_due(now + 120 * NANOS_PER_MS);
    if first.len() != 1 || first[0].frame_id != 0 {
        return Err("playout buffer did not release the first frame on time".to_string());
    }
    let second: Vec<EncodedFrame> = buffer.pop_due(now + 153 * NANOS_PER_MS);
    if second.len() != 1 || second[0].frame_id != 1 || buffer.stats().released_frames != 2 {
        return Err("playout buffer timestamp pacing failed".to_string());
    }
    let mut immediate: PlayoutBuffer = PlayoutBuffer::new(0)?;
    let mut single: Vec<EncodedFrame> = Vec::new();
    single.push(self_test_frame(0, 1000));
    let ghost only = single@;
    assert(only.drop_last() =~= Seq::empty());
    immediate.push_frames(single, now);
    assert(immediate@.frames.len() == 1);
    assert(immediate@.frames[0].target_playout_at == now);
    if immediate.pop_due(now).len() != 1 {
        return Err("zero-delay playout did not release immediately".to_string());
    }
    Ok(())
}

/// The first frame is due after the delay, and every other as long after the first as its
/// timestamp is, however late it was complete.
pub proof fn law_frames_are_delayed_and_paced(
    buffer: PlayoutModel,
    first: EncodedFrame,
    first_completed_at: u64,
    second: EncodedFrame,
    second_completed_at: u64,
)
    requires
        buffer.well_formed(),
        buffer.first_timestamp_ms is None,
        first.timestamp_ms <= second.timestamp_ms,
    ensures
        ({
            let one = buffer.with_frame(first, first_completed_at);
            let two = one.with_frame(second, second_completed_at);
            &&& one.frames.last().target_playout_at == first_completed_at + buffer.delay_ms
                * 1_000_000
            &&& two.frames.last().target_playout_at == first_completed_at + buffer.delay_ms
                * 1_000_000 + (second.timestamp_ms - first.timestamp_ms) * 1_000_000
            &&& one.frames.last().frame == first
            &&& two.frames.last().frame == second
            &&& two.frames.drop_last() == one.frames
        }),
{
    let one = buffer.with_frame(first, first_completed_at);
    assert(one.with_frame(second, second_completed_at).frames.drop_last() =~= one.frames);
}

/// No frame is due before one that came earlier, whatever its timestamp, and one whose
/// timestamp lies before the first one's is due after the delay at the earliest.
pub proof fn law_frames_leave_in_turn(
    buffer: PlayoutModel,
    frame: EncodedFrame,
    completed_at: u64,
)
    requires
        buffer.well_formed(),
    ensures
        ({
            let due = buffer.with_frame(frame, completed_at).frames.last().target_playout_at;
            &&& buffer.last_target_at matches Some(last) ==> due >= last
            &&& buffer.frames.len() > 0 ==> due >= buffer.frames.last().target_playout_at
            &&& buffer.first_timestamp_ms is Some && (frame.timestamp_ms
                < buffer.first_timestamp_ms->0) ==> due == if completed_at + buffer.delay_ms * 1_000_000
                >= buffer.last_target_at->0 {
                completed_at + buffer.delay_ms * 1_000_000
            } else {
                buffer.last_target_at->0 as int
            }
        }),
{
}

/// Frames that come wait behind those that are held, in their order, and none is changed or
/// lost; the peak is at least what is held then.
pub proof fn law_frames_wait_in_order(
    buffer: PlayoutModel,
    frames: Seq<EncodedFrame>,
    completed_at: u64,
)
    requires
        buffer.frames.len() + frames.len() <= usize::MAX,
    ensures
        ({
            let after = buffer.with_frames(frames, completed_at).with_peak();
            &&& after.frames.len() == buffer.frames.len() + frames.len()
            &&& after.frames.take(buffer.frames.len() as int) == buffer.frames
            &&& forall|i: int|
                0 <= i < frames.len() ==> (#[trigger] after.frames[buffer.frames.len() + i]).frame
                    == frames[i] && after.frames[buffer.frames.len() + i].completed_at
                    == completed_at
            &&& after.stats.buffer_peak_frames >= after.frames.len()
            &&& after.stats.buffer_peak_frames >= buffer.stats.buffer_peak_frames
            &&& after.stats.released_frames == buffer.stats.released_frames
            &&& after.delay_ms == buffer.delay_ms
        }),
    decreases frames.len(),
{
    if frames.len() > 0 {
        let front = frames.drop_last();
        law_frames_wait_in_order(buffer, front, completed_at);
        let before = buffer.with_frames(front, completed_at);
        let after = before.with_frame(frames.last(), completed_at);
        assert(after.frames.take(buffer.frames.len() as int) =~= before.frames.take(
            buffer.frames.len() as int,
        ));
        assert forall|i: int| 0 <= i < frames.len() implies (
        #[trigger] after.frames[buffer.frames.len() + i]).frame == frames[i]
            && after.frames[buffer.frames.len() + i].completed_at == completed_at by {
            if i < front.len() {
                assert(before.with_peak().frames[buffer.frames.len() + i].frame == front[i]);
            }
        }
    } else {
        assert(buffer.frames.take(buffer.frames.len() as int) =~= buffer.frames);
    }
}

/// Frames that leave are taken from the front and counted, with the time that they waited;
/// one counts as late that leaves more than five milliseconds after its time.
pub proof fn law_releases_are_counted(buffer: PlayoutModel, now: u64, n: nat)
    requires
        n <= buffer.frames.len(),
        buffer.stats.released_frames + n <= u64::MAX,
    ensures
        ({
            let after = buffer.with_releases(now, n);
            &&& after.frames == buffer.frames.skip(n as int)
            &&& after.stats.released_frames == buffer.stats.released_frames + n
            &&& after.delay_ms == buffer.delay_ms
            &&& after.first_target_at == buffer.first_target_at
            &&& after.first_timestamp_ms == buffer.first_timestamp_ms
            &&& after.stats.dropped_discontinuity_frames
                == buffer.stats.dropped_discontinuity_frames
        }),
    decreases n,
{
    if n > 0 {
        law_releases_are_counted(buffer, now, (n - 1) as nat);
        let before = buffer.with_releases(now, (n - 1) as nat);
        assert(before.frames.drop_first() =~= buffer.frames.skip(n as int));
    } else {
        assert(buffer.frames.skip(0) =~= buffer.frames);
    }
}

/// What one release adds to the statistics.
pub proof fn law_release_measures_the_delay(buffer: PlayoutModel, now: u64)
    requires
        buffer.frames.len() > 0,
        buffer.frames[0].completed_at <= now,
        buffer.stats.late_frames < u64::MAX,
        buffer.stats.delay_actual_total + now <= u128::MAX,
    ensures
        ({
            let front = buffer.frames[0];
            let after = buffer.with_release(now).stats;
            &&& after.delay_actual_total == buffer.stats.delay_actual_total + (now
                - front.completed_at)
            &&& after.delay_actual_max >= now - front.completed_at
            &&& after.delay_actual_max >= buffer.stats.delay_actual_max
            &&& after.delay_actual_max == buffer.stats.delay_actual_max || after.delay_actual_max
                == now - front.completed_at
            &&& after.late_frames == buffer.stats.late_frames + if now > front.target_playout_at
                + 5_000_000 {
                1int
            } else {
                0
            }
        }),
{
}

/// After a discontinuity everything that waited is counted as dropped, and the next frame
/// sets the pace as the first one did.
pub proof fn law_discontinuity_sets_a_new_pace(
    buffer: PlayoutModel,
    frame: EncodedFrame,
    completed_at: u64,
)
    requires
        buffer.well_formed(),
        buffer.frames.len() <= usize::MAX,
        buffer.stats.dropped_discontinuity_frames + buffer.frames.len() <= u64::MAX,
    ensures
        buffer.cleared().frames.len() == 0,
        buffer.cleared().stats.dropped_discontinuity_frames
            == buffer.stats.dropped_discontinuity_frames + buffer.frames.len(),
        buffer.cleared().stats.released_frames == buffer.stats.released_frames,
        buffer.cleared().with_frame(frame, completed_at).frames.last().target_playout_at
            == completed_at + buffer.delay_ms * 1_000_000,
{
}

} // verus!
