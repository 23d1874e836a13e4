//! The receiver's book of repairs: which packets it asked for, which of them came, and
//! which frames wait for them.
//!
//! Times are nanoseconds of a monotonic clock.

use vstd::prelude::*;

verus! {

/// A packet of a frame.
#[derive(Clone, Copy, Debug, PartialEq, Eq, Structural)]
pub struct PacketKey {
    pub frame_id: u64,
    pub packet_index: u16,
}

/// A packet that came after it was asked for, and when.
#[derive(Clone, Copy, Debug, PartialEq, Eq, Structural)]
pub struct CompletedRepair {
    pub key: PacketKey,
    pub at: u64,
}

/// A frame that waits for packets, and since when.
#[derive(Clone, Copy, Debug, PartialEq, Eq, Structural)]
pub struct RequestedFrame {
    pub frame_id: u64,
    pub since: u64,
}

/// How long a packet that came is remembered.
pub const COMPLETED_REPAIR_MEMORY: u64 = 1_000_000_000;

/// What a packet is to the book.
#[derive(Clone, Copy, Debug, PartialEq, Eq, Structural)]
pub enum Arrival {
    /// It was asked for and comes for the first time.
    Requested,
    /// It was asked for and came before.
    Repeated,
    Unrequested,
}

#[derive(Debug)]
pub struct RepairBook {
    pub requested: Vec<PacketKey>,
    pub completed: Vec<CompletedRepair>,
    pub frames: Vec<RequestedFrame>,
}

/// The view of `RepairBook`.
#[verifier::ext_equal]
pub struct RepairModel {
    pub requested: Seq<PacketKey>,
    pub completed: Seq<CompletedRepair>,
    pub frames: Seq<RequestedFrame>,
}

impl View for RepairBook {
    type V = RepairModel;

    open spec fn view(&self) -> RepairModel {
        RepairModel {
            requested: self.requested@,
            completed: self.completed@,
            frames: self.frames@,
        }
    }
}

/// Whether a packet is another than `key`.
pub open spec fn other_than(key: PacketKey) -> spec_fn(PacketKey) -> bool {
    |k: PacketKey| k != key
}

/// The packets without `key`.
pub open spec fn without_key(keys: Seq<PacketKey>, key: PacketKey) -> Seq<PacketKey> {
    keys.filter(other_than(key))
}

/// The packets of other frames.
pub open spec fn of_other_frames(keys: Seq<PacketKey>, frame_id: u64) -> Seq<PacketKey> {
    keys.filter(|k: PacketKey| k.frame_id != frame_id)
}

/// The packets of the frame.
pub open spec fn of_frame(keys: Seq<PacketKey>, frame_id: u64) -> Seq<PacketKey> {
    keys.filter(|k: PacketKey| k.frame_id == frame_id)
}

/// `key` came before.
pub open spec fn has_come(completed: Seq<CompletedRepair>, key: PacketKey) -> bool {
    exists|i: int| 0 <= i < completed.len() && (#[trigger] completed[i]).key == key
}

/// `key` came at `at`, whatever was noted before.
pub open spec fn with_completed(completed: Seq<CompletedRepair>, key: PacketKey, at: u64) -> Seq<
    CompletedRepair,
> {
    completed.filter(|c: CompletedRepair| c.key != key).push(CompletedRepair { key, at })
}

/// All of `keys` came at `at`.
pub open spec fn with_all_completed(
    completed: Seq<CompletedRepair>,
    keys: Seq<PacketKey>,
    at: u64,
) -> Seq<CompletedRepair>
    decreases keys.len(),
{
    if keys.len() == 0 {
        completed
    } else {
        with_completed(with_all_completed(completed, keys.drop_last(), at), keys.last(), at)
    }
}

/// The frame waits.
pub open spec fn waits(frames: Seq<RequestedFrame>, frame_id: u64) -> bool {
    exists|i: int| 0 <= i < frames.len() && (#[trigger] frames[i]).frame_id == frame_id
}

/// No frame stands in the list twice.
pub open spec fn distinct_frames(frames: Seq<RequestedFrame>) -> bool {
    forall|i: int, j: int|
        0 <= i < j < frames.len() ==> (#[trigger] frames[i]).frame_id != (
        #[trigger] frames[j]).frame_id
}

/// Since when the frame waits.
pub open spec fn waiting_since(frames: Seq<RequestedFrame>, frame_id: u64, since: u64) -> bool {
    exists|i: int|
        0 <= i < frames.len() && (#[trigger] frames[i]).frame_id == frame_id && frames[i].since
            == since
}

/// The frames without `frame_id`.
pub open spec fn other_frames(frames: Seq<RequestedFrame>, frame_id: u64) -> Seq<RequestedFrame> {
    frames.filter(|f: RequestedFrame| f.frame_id != frame_id)
}

/// The frames after `last`.
pub open spec fn later_frames(frames: Seq<RequestedFrame>, last: u64) -> Seq<RequestedFrame> {
    frames.filter(|f: RequestedFrame| f.frame_id > last)
}

/// The frames up to `last`.
pub open spec fn missed_frames(frames: Seq<RequestedFrame>, last: u64) -> Seq<RequestedFrame> {
    frames.filter(|f: RequestedFrame| f.frame_id <= last)
}

/// The packets asked for, with those of `items` that were not among them.
pub open spec fn with_requests(keys: Seq<PacketKey>, items: Seq<PacketKey>) -> Seq<PacketKey>
    decreases items.len(),
{
    if items.len() == 0 {
        keys
    } else {
        let before = with_requests(keys, items.drop_last());
        if before.contains(items.last()) {
            before
        } else {
            before.push(items.last())
        }
    }
}

/// The waiting frames, with those of `items` that did not wait yet, since `now`.
pub open spec fn with_waiting(frames: Seq<RequestedFrame>, items: Seq<PacketKey>, now: u64) -> Seq<
    RequestedFrame,
>
    decreases items.len(),
{
    if items.len() == 0 {
        frames
    } else {
        let before = with_waiting(frames, items.drop_last(), now);
        if waits(before, items.last().frame_id) {
            before
        } else {
            before.push(RequestedFrame { frame_id: items.last().frame_id, since: now })
        }
    }
}

/// How long the frames have waited altogether, as far as the number goes.
pub open spec fn total_wait(frames: Seq<RequestedFrame>, now: u64) -> nat
    decreases frames.len(),
{
    if frames.len() == 0 {
        0
    } else {
        total_wait(frames.drop_last(), now) + now.saturating_sub(frames.last().since) as nat
    }
}

/// How long the frame that waited longest has waited.
pub open spec fn longest_wait(frames: Seq<RequestedFrame>, now: u64) -> u64
    decreases frames.len(),
{
    if frames.len() == 0 {
        0
    } else {
        let before = longest_wait(frames.drop_last(), now);
        let wait = now.saturating_sub(frames.last().since);
        if wait > before {
            wait
        } else {
            before
        }
    }
}

/// What came of frames that were missed.
#[derive(Clone, Copy, Debug, PartialEq, Eq, Structural)]
pub struct MissedRepairs {
    pub frames: u64,
    pub total_wait: u64,
    pub longest_wait: u64,
}

/// What came of a frame that was completed.
#[derive(Clone, Copy, Debug, PartialEq, Eq, Structural)]
pub struct CompletedFrame {
    pub wait: u64,
    pub cancelled: u64,
}

impl RepairModel {
    pub open spec fn empty() -> RepairModel {
        RepairModel { requested: Seq::empty(), completed: Seq::empty(), frames: Seq::empty() }
    }

    /// No frame waits twice.
    pub open spec fn well_formed(self) -> bool {
        distinct_frames(self.frames)
    }

    /// What a packet is to the book.
    pub open spec fn arrival(self, key: PacketKey) -> Arrival {
        if self.requested.contains(key) {
            Arrival::Requested
        } else if has_come(self.completed, key) {
            Arrival::Repeated
        } else {
            Arrival::Unrequested
        }
    }

    /// The book after a packet came.
    pub open spec fn after_arrival(self, key: PacketKey, now: u64) -> RepairModel {
        if self.requested.contains(key) {
            RepairModel {
                requested: without_key(self.requested, key),
                completed: with_completed(self.completed, key, now),
                ..self
            }
        } else {
            self
        }
    }

    /// The book after a frame was completed: what was asked for of it counts as come.
    pub open spec fn after_completion(self, frame_id: u64, now: u64) -> RepairModel {
        if waits(self.frames, frame_id) {
            RepairModel {
                requested: of_other_frames(self.requested, frame_id),
                completed: with_all_completed(
                    self.completed,
                    of_frame(self.requested, frame_id),
                    now,
                ),
                frames: other_frames(self.frames, frame_id),
            }
        } else {
            self
        }
    }

    /// The book after packets were asked for.
    pub open spec fn after_request(self, items: Seq<PacketKey>, now: u64) -> RepairModel {
        RepairModel {
            requested: with_requests(self.requested, items),
            frames: with_waiting(self.frames, items, now),
            ..self
        }
    }
}

/// `n`, as far as the number goes.
pub open spec fn clipped(n: nat) -> u64 {
    if n <= u64::MAX {
        n as u64
    } else {
        u64::MAX
    }
}

impl RepairBook {
    pub fn new() -> (r: RepairBook)
        ensures
            r@ == RepairModel::empty(),
            r@.well_formed(),
    {
        RepairBook { requested: Vec::new(), completed: Vec::new(), frames: Vec::new() }
    }

    /// Forgets everything.
    pub fn clear(&mut self)
        ensures
            final(self)@ == RepairModel::empty(),
            final(self)@.well_formed(),
    {
        self.requested.clear();
        self.completed.clear();
        self.frames.clear();
        assert(self@ =~= RepairModel::empty());
    }

    fn is_requested(&self, key: PacketKey) -> (r: bool)
        ensures
            r == self@.requested.contains(key),
    {
        let mut i: usize = 0;
        while i < self.requested.len()
            invariant
                i <= self.requested@.len(),
                forall|j: int| 0 <= j < i ==> self.requested@[j] != key,
            decreases self.requested@.len() - i,
        {
            if self.requested[i] == key {
                assert(self.requested@[i as int] == key);
                return true;
            }
            i = i + 1;
        }
        false
    }

    fn is_completed(&self, key: PacketKey) -> (r: bool)
        ensures
            r == has_come(self@.completed, key),
    {
        let mut i: usize = 0;
        while i < self.completed.len()
            invariant
                i <= self.completed@.len(),
                forall|j: int| 0 <= j < i ==> (#[trigger] self.completed@[j]).key != key,
            decreases self.completed@.len() - i,
        {
            if self.completed[i].key == key {
                assert(self.completed@[i as int].key == key);
                return true;
            }
            i = i + 1;
        }
        false
    }

    /// Since when a frame waits, if it does.
    fn since(&self, frame_id: u64) -> (r: Option<u64>)
        ensures
            match r {
                Some(since) => waits(self@.frames, frame_id) && waiting_since(
                    self@.frames,
                    frame_id,
                    since,
                ),
                None => !waits(self@.frames, frame_id),
            },
    {
        let mut i: usize = 0;
        while i < self.frames.len()
            invariant
                i <= self.frames@.len(),
                forall|j: int| 0 <= j < i ==> (#[trigger] self.frames@[j]).frame_id != frame_id,
            decreases self.frames@.len() - i,
        {
            if self.frames[i].frame_id == frame_id {
                assert(self.frames@[i as int].frame_id == frame_id);
                return Some(self.frames[i].since);
            }
            i = i + 1;
        }
        None
    }

    fn complete(&mut self, key: PacketKey, at: u64)
        ensures
            final(self)@ == (RepairModel {
                completed: with_completed(old(self)@.completed, key, at),
                ..old(self)@
            }),
    {
        let ghost keep = |c: CompletedRepair| c.key != key;
        let mut kept: Vec<CompletedRepair> = Vec::new();
        let mut i: usize = 0;
        while i < self.completed.len()
            invariant
                i <= self.completed@.len(),
                keep == (|c: CompletedRepair| c.key != key),
                kept@ == self.completed@.take(i as int).filter(keep),
            decreases self.completed@.len() - i,
        {
            proof {
                reveal(Seq::filter);
                assert(self.completed@.take(i + 1).drop_last() =~= self.completed@.take(i as int));
            }
            let entry: CompletedRepair = self.completed[i];
            if entry.key != key {
                kept.push(entry);
            }
            i = i + 1;
        }
        assert(self.completed@.take(self.completed@.len() as int) =~= self.completed@);
        proof {
            reveal(Seq::filter);
        }
        kept.push(CompletedRepair { key, at });
        self.completed = kept;
    }

    /// Notes that a packet came.
    pub fn packet_arrived(&mut self, key: PacketKey, now: u64) -> (r: Arrival)
        requires
            old(self)@.well_formed(),
        ensures
            r == old(self)@.arrival(key),
            final(self)@ == old(self)@.after_arrival(key, now),
            final(self)@.well_formed(),
    {
        if !self.is_requested(key) {
            return if self.is_completed(key) {
                Arrival::Repeated
            } else {
                Arrival::Unrequested
            };
        }
        let ghost keep = other_than(key);
        let mut kept: Vec<PacketKey> = Vec::new();
        let mut i: usize = 0;
        while i < self.requested.len()
            invariant
                i <= self.requested@.len(),
                keep == other_than(key),
                kept@ == self.requested@.take(i as int).filter(keep),
            decreases self.requested@.len() - i,
        {
            proof {
                reveal(Seq::filter);
                assert(self.requested@.take(i + 1).drop_last() =~= self.requested@.take(i as int));
            }
            let entry: PacketKey = self.requested[i];
            if entry != key {
                kept.push(entry);
            }
            i = i + 1;
        }
        proof {
            reveal(Seq::filter);
        }
        assert(self.requested@.take(self.requested@.len() as int) =~= self.requested@);
        assert(kept@ == without_key(self.requested@, key));
        let ghost before = self@;
        self.requested = kept;
        self.complete(key, now);
        assert(self@ == before.after_arrival(key, now));
        Arrival::Requested
    }

    /// Notes that a frame is complete; `None` where it did not wait for packets.
    pub fn frame_completed(&mut self, frame_id: u64, now: u64) -> (r: Option<CompletedFrame>)
        requires
            old(self)@.well_formed(),
        ensures
            final(self)@ == old(self)@.after_completion(frame_id, now),
            final(self)@.well_formed(),
            match r {
                Some(completed) => waits(old(self)@.frames, frame_id) && (forall|since: u64|
                    waiting_since(old(self)@.frames, frame_id, since) ==> completed.wait
                        == now.saturating_sub(since)) && completed.cancelled == of_frame(
                    old(self)@.requested,
                    frame_id,
                ).len(),
                None => !waits(old(self)@.frames, frame_id),
            },
    {
        let since: u64 = match self.since(frame_id) {
            Some(since) => since,
            None => {
                return None;
            },
        };
        let ghost before = self@;
        let mut kept_frames: Vec<RequestedFrame> = Vec::new();
        let mut i: usize = 0;
        let ghost keep_frame = |f: RequestedFrame| f.frame_id != frame_id;
        while i < self.frames.len()
            invariant
                i <= self.frames@.len(),
                keep_frame == (|f: RequestedFrame| f.frame_id != frame_id),
                kept_frames@ == self.frames@.take(i as int).filter(keep_frame),
            decreases self.frames@.len() - i,
        {
            proof {
                reveal(Seq::filter);
                assert(self.frames@.take(i + 1).drop_last() =~= self.frames@.take(i as int));
            }
            let entry: RequestedFrame = self.frames[i];
            if entry.frame_id != frame_id {
                kept_frames.push(entry);
            }
            i = i + 1;
        }
        proof {
            reveal(Seq::filter);
        }
        assert(self.frames@.take(self.frames@.len() as int) =~= self.frames@);
        let requested: Vec<PacketKey> = self.requested.clone();
        assert(requested@ =~= self.requested@);
        let mut kept: Vec<PacketKey> = Vec::new();
        let mut cancelled: u64 = 0;
        let ghost keep = |k: PacketKey| k.frame_id != frame_id;
        let ghost done = |k: PacketKey| k.frame_id == frame_id;
        i = 0;
        while i < requested.len()
            invariant
                i <= requested@.len(),
                keep == (|k: PacketKey| k.frame_id != frame_id),
                done == (|k: PacketKey| k.frame_id == frame_id),
                kept@ == requested@.take(i as int).filter(keep),
                cancelled == requested@.take(i as int).filter(done).len(),
                cancelled <= i,
                self@ == (RepairModel {
                    completed: with_all_completed(
                        before.completed,
                        requested@.take(i as int).filter(done),
                        now,
                    ),
                    ..before
                }),
            decreases requested@.len() - i,
        {
            let ghost so_far = requested@.take(i as int).filter(done);
            proof {
                reveal(Seq::filter);
                assert(requested@.take(i + 1).drop_last() =~= requested@.take(i as int));
            }
            let key: PacketKey = requested[i];
            if key.frame_id != frame_id {
                kept.push(key);
            } else {
                self.complete(key, now);
                cancelled = cancelled + 1;
                assert(requested@.take(i + 1).filter(done) == so_far.push(key));
                assert(so_far.push(key).drop_last() =~= so_far);
            }
            i = i + 1;
        }
        assert(requested@.take(requested@.len() as int) =~= requested@);
        self.requested = kept;
        self.frames = kept_frames;
        proof {
            lemma_filter_keeps_distinct(before.frames, keep_frame);
            assert forall|other: u64| waiting_since(before.frames, frame_id, other) implies other
                == since by {
                lemma_one_wait(before.frames, frame_id, since, other);
            }
        }
        Some(CompletedFrame { wait: now.saturating_sub(since), cancelled })
    }

    /// Notes that all frames up to `last` are given up.
    pub fn frames_missed(&mut self, last: u64, now: u64) -> (r: MissedRepairs)
        requires
            old(self)@.well_formed(),
        ensures
            final(self)@ == (RepairModel {
                frames: later_frames(old(self)@.frames, last),
                ..old(self)@
            }),
            final(self)@.well_formed(),
            r.frames == missed_frames(old(self)@.frames, last).len(),
            r.total_wait == clipped(total_wait(missed_frames(old(self)@.frames, last), now)),
            r.longest_wait == longest_wait(missed_frames(old(self)@.frames, last), now),
    {
        let mut kept: Vec<RequestedFrame> = Vec::new();
        let mut missed: MissedRepairs = MissedRepairs { frames: 0, total_wait: 0, longest_wait: 0 };
        let mut i: usize = 0;
        let ghost keep = |f: RequestedFrame| f.frame_id > last;
        let ghost done = |f: RequestedFrame| f.frame_id <= last;
        while i < self.frames.len()
            invariant
                i <= self.frames@.len(),
                keep == (|f: RequestedFrame| f.frame_id > last),
                done == (|f: RequestedFrame| f.frame_id <= last),
                kept@ == self.frames@.take(i as int).filter(keep),
                missed.frames == self.frames@.take(i as int).filter(done).len(),
                missed.frames <= i,
                missed.total_wait == clipped(
                    total_wait(self.frames@.take(i as int).filter(done), now),
                ),
                missed.longest_wait == longest_wait(
                    self.frames@.take(i as int).filter(done),
                    now,
                ),
            decreases self.frames@.len() - i,
        {
            let ghost so_far = self.frames@.take(i as int).filter(done);
            proof {
                reveal(Seq::filter);
                assert(self.frames@.take(i + 1).drop_last() =~= self.frames@.take(i as int));
            }
            let entry: RequestedFrame = self.frames[i];
            if entry.frame_id > last {
                kept.push(entry);
            } else {
                let wait: u64 = now.saturating_sub(entry.since);
                missed.frames = missed.frames + 1;
                missed.total_wait = missed.total_wait.saturating_add(wait);
                if wait > missed.longest_wait {
                    missed.longest_wait = wait;
                }
                assert(self.frames@.take(i + 1).filter(done) == so_far.push(entry));
                assert(so_far.push(entry).drop_last() =~= so_far);
            }
            i = i + 1;
        }
        assert(self.frames@.take(self.frames@.len() as int) =~= self.frames@);
        proof {
            lemma_filter_keeps_distinct(self.frames@, keep);
        }
        self.frames = kept;
        missed
    }

    /// Forgets packets that came long ago.
    pub fn forget_old(&mut self, now: u64)
        ensures
            final(self)@ == (RepairModel {
                completed: old(self)@.completed.filter(
                    |c: CompletedRepair| now.saturating_sub(c.at) <= COMPLETED_REPAIR_MEMORY,
                ),
                ..old(self)@
            }),
    {
        let ghost keep = |c: CompletedRepair| now.saturating_sub(c.at) <= COMPLETED_REPAIR_MEMORY;
        let mut kept: Vec<CompletedRepair> = Vec::new();
        let mut i: usize = 0;
        while i < self.completed.len()
            invariant
                i <= self.completed@.len(),
                keep == (|c: CompletedRepair|
                    now.saturating_sub(c.at) <= COMPLETED_REPAIR_MEMORY),
                kept@ == self.completed@.take(i as int).filter(keep),
            decreases self.completed@.len() - i,
        {
            proof {
                reveal(Seq::filter);
                assert(self.completed@.take(i + 1).drop_last() =~= self.completed@.take(i as int));
            }
            let entry: CompletedRepair = self.completed[i];
            if now.saturating_sub(entry.at) <= COMPLETED_REPAIR_MEMORY {
                kept.push(entry);
            }
            i = i + 1;
        }
        proof {
            reveal(Seq::filter);
        }
        assert(self.completed@.take(self.completed@.len() as int) =~= self.completed@);
        self.completed = kept;
    }

    /// Notes that packets are asked for.
    pub fn request(&mut self, items: &[PacketKey], now: u64)
        requires
            old(self)@.well_formed(),
        ensures
            final(self)@ == old(self)@.after_request(items@, now),
            final(self)@.well_formed(),
    {
        let ghost before = self@;
        let mut i: usize = 0;
        assert(items@.take(0) =~= Seq::empty());
        while i < items.len()
            invariant
                i <= items@.len(),
                self@ == before.after_request(items@.take(i as int), now),
                self@.well_formed(),
            decreases items@.len() - i,
        {
            assert(items@.take(i + 1).drop_last() =~= items@.take(i as int));
            let item: PacketKey = items[i];
            if !self.is_requested(item) {
                self.requested.push(item);
            }
            if self.since(item.frame_id).is_none() {
                self.frames.push(RequestedFrame { frame_id: item.frame_id, since: now });
            }
            i = i + 1;
        }
        assert(items@.take(items@.len() as int) =~= items@);
    }
}

proof fn lemma_filter_keeps_distinct(
    frames: Seq<RequestedFrame>,
    keep: spec_fn(RequestedFrame) -> bool,
)
    requires
        distinct_frames(frames),
    ensures
        distinct_frames(frames.filter(keep)),
        forall|i: int|
            0 <= i < frames.filter(keep).len() ==> frames.contains(
                #[trigger] frames.filter(keep)[i],
            ),
    decreases frames.len(),
{
    reveal(Seq::filter);
    if frames.len() > 0 {
        let rest = frames.drop_last();
        lemma_filter_keeps_distinct(rest, keep);
        let kept = frames.filter(keep);
        let kept_rest = rest.filter(keep);
        assert forall|i: int| 0 <= i < kept.len() implies frames.contains(#[trigger] kept[i]) by {
            if i < kept_rest.len() {
                assert(kept[i] == kept_rest[i]);
                assert(rest.contains(kept_rest[i]));
                let k = choose|k: int| 0 <= k < rest.len() && rest[k] == kept_rest[i];
                assert(frames[k] == kept[i]);
            } else {
                assert(kept[i] == frames.last());
            }
        }
        assert forall|i: int, j: int| 0 <= i < j < kept.len() implies (
        #[trigger] kept[i]).frame_id != (#[trigger] kept[j]).frame_id by {
            if j < kept_rest.len() {
                assert(kept[i] == kept_rest[i] && kept[j] == kept_rest[j]);
            } else {
                assert(kept[j] == frames.last());
                assert(rest.contains(kept_rest[i]));
                let k = choose|k: int| 0 <= k < rest.len() && rest[k] == kept_rest[i];
                assert(frames[k].frame_id != frames[frames.len() - 1].frame_id);
            }
        }
    }
}

proof fn lemma_one_wait(frames: Seq<RequestedFrame>, frame_id: u64, a: u64, b: u64)
    requires
        distinct_frames(frames),
        waiting_since(frames, frame_id, a),
        waiting_since(frames, frame_id, b),
    ensures
        a == b,
{
    let i = choose|i: int|
        0 <= i < frames.len() && (#[trigger] frames[i]).frame_id == frame_id && frames[i].since
            == a;
    let j = choose|j: int|
        0 <= j < frames.len() && (#[trigger] frames[j]).frame_id == frame_id && frames[j].since
            == b;
    if i < j {
        assert(frames[i].frame_id != frames[j].frame_id);
    } else if j < i {
        assert(frames[j].frame_id != frames[i].frame_id);
    }
}

/// A packet that was asked for counts once: when it comes again it is a repetition, and
/// it is not asked for any more.
pub proof fn law_repair_counts_once(book: RepairModel, key: PacketKey, now: u64)
    requires
        book.arrival(key) == Arrival::Requested,
    ensures
        book.after_arrival(key, now).arrival(key) == Arrival::Repeated,
{
    let after = book.after_arrival(key, now);
    lemma_filtered_out(book.requested, key);
    assert(after.completed.last().key == key);
    assert(has_come(after.completed, key)) by {
        assert(after.completed[after.completed.len() - 1].key == key);
    }
}

proof fn lemma_filtered_out(keys: Seq<PacketKey>, key: PacketKey)
    ensures
        !without_key(keys, key).contains(key),
    decreases keys.len(),
{
    reveal(Seq::filter);
    if keys.len() > 0 {
        lemma_filtered_out(keys.drop_last(), key);
        let rest = without_key(keys.drop_last(), key);
        let all = without_key(keys, key);
        if all.contains(key) {
            let i = choose|i: int| 0 <= i < all.len() && all[i] == key;
            if i < rest.len() {
                assert(rest[i] == key);
                assert(rest.contains(key));
            }
        }
    }
}

/// A frame that is complete does not wait any more, and nothing more is asked for of it.
pub proof fn law_complete_frame_waits_no_more(book: RepairModel, frame_id: u64, now: u64)
    ensures
        !waits(book.after_completion(frame_id, now).frames, frame_id),
        waits(book.frames, frame_id) ==> of_frame(
            book.after_completion(frame_id, now).requested,
            frame_id,
        ).len() == 0,
{
    lemma_no_such_frame(book.frames, frame_id);
    lemma_none_of_frame(book.requested, frame_id);
}

proof fn lemma_no_such_frame(frames: Seq<RequestedFrame>, frame_id: u64)
    ensures
        !waits(other_frames(frames, frame_id), frame_id),
    decreases frames.len(),
{
    reveal(Seq::filter);
    if frames.len() > 0 {
        lemma_no_such_frame(frames.drop_last(), frame_id);
        let rest = other_frames(frames.drop_last(), frame_id);
        let all = other_frames(frames, frame_id);
        if waits(all, frame_id) {
            let i = choose|i: int|
                0 <= i < all.len() && (#[trigger] all[i]).frame_id == frame_id;
            if i < rest.len() {
                assert(rest[i].frame_id == frame_id);
            }
        }
    }
}

proof fn lemma_none_of_frame(keys: Seq<PacketKey>, frame_id: u64)
    ensures
        of_frame(of_other_frames(keys, frame_id), frame_id).len() == 0,
    decreases keys.len(),
{
    reveal(Seq::filter);
    if keys.len() > 0 {
        lemma_none_of_frame(keys.drop_last(), frame_id);
        let rest = of_other_frames(keys.drop_last(), frame_id);
        if keys.last().frame_id != frame_id {
            assert(of_other_frames(keys, frame_id).drop_last() =~= rest);
        }
    }
}

proof fn lemma_request_contains(keys: Seq<PacketKey>, items: Seq<PacketKey>, key: PacketKey)
    ensures
        with_requests(keys, items).contains(key) <==> keys.contains(key) || items.contains(key),
    decreases items.len(),
{
    if items.len() > 0 {
        let front = items.drop_last();
        lemma_request_contains(keys, front, key);
        let before = with_requests(keys, front);
        let after = with_requests(keys, items);
        if items.contains(key) {
            let i = choose|i: int| 0 <= i < items.len() && items[i] == key;
            if i < front.len() {
                assert(front[i] == key);
            }
        }
        if front.contains(key) {
            let i = choose|i: int| 0 <= i < front.len() && front[i] == key;
            assert(items[i] == key);
        }
        assert(items[items.len() - 1] == items.last());
        if !before.contains(items.last()) {
            assert(after[before.len() as int] == items.last());
            if before.contains(key) {
                let i = choose|i: int| 0 <= i < before.len() && before[i] == key;
                assert(after[i] == key);
            }
            if after.contains(key) {
                let i = choose|i: int| 0 <= i < after.len() && after[i] == key;
                if i < before.len() {
                    assert(before[i] == key);
                }
            }
        }
    }
}

proof fn lemma_waiting_frames(
    frames: Seq<RequestedFrame>,
    items: Seq<PacketKey>,
    now: u64,
    frame_id: u64,
    since: u64,
)
    ensures
        waits(with_waiting(frames, items, now), frame_id) <==> waits(frames, frame_id) || exists|
            i: int,
        |
            0 <= i < items.len() && (#[trigger] items[i]).frame_id == frame_id,
        waiting_since(frames, frame_id, since) ==> waiting_since(
            with_waiting(frames, items, now),
            frame_id,
            since,
        ),
        !waits(frames, frame_id) && waits(with_waiting(frames, items, now), frame_id)
            ==> waiting_since(with_waiting(frames, items, now), frame_id, now),
    decreases items.len(),
{
    if items.len() > 0 {
        let front = items.drop_last();
        lemma_waiting_frames(frames, front, now, frame_id, since);
        let before = with_waiting(frames, front, now);
        let after = with_waiting(frames, items, now);
        let last = items.last();
        assert(items[items.len() - 1] == last);
        assert forall|i: int| 0 <= i < front.len() implies #[trigger] front[i] == items[i] by {}
        if exists|i: int| 0 <= i < front.len() && (#[trigger] front[i]).frame_id == frame_id {
            let i = choose|i: int|
                0 <= i < front.len() && (#[trigger] front[i]).frame_id == frame_id;
            assert(items[i].frame_id == frame_id);
        }
        if exists|i: int| 0 <= i < items.len() && (#[trigger] items[i]).frame_id == frame_id {
            let i = choose|i: int|
                0 <= i < items.len() && (#[trigger] items[i]).frame_id == frame_id;
            if i < front.len() {
                assert(front[i].frame_id == frame_id);
            }
        }
        if !waits(before, last.frame_id) {
            assert(after[before.len() as int] == (RequestedFrame {
                frame_id: last.frame_id,
                since: now,
            }));
            assert forall|i: int| 0 <= i < before.len() implies #[trigger] before[i] == after[i] by {}
            if waits(before, frame_id) {
                let i = choose|i: int|
                    0 <= i < before.len() && (#[trigger] before[i]).frame_id == frame_id;
                assert(after[i].frame_id == frame_id);
            }
            if waiting_since(before, frame_id, since) {
                let i = choose|i: int|
                    0 <= i < before.len() && (#[trigger] before[i]).frame_id == frame_id
                        && before[i].since == since;
                assert(after[i].frame_id == frame_id && after[i].since == since);
            }
            if waiting_since(before, frame_id, now) {
                let i = choose|i: int|
                    0 <= i < before.len() && (#[trigger] before[i]).frame_id == frame_id
                        && before[i].since == now;
                assert(after[i].frame_id == frame_id && after[i].since == now);
            }
            if waits(after, frame_id) {
                let i = choose|i: int|
                    0 <= i < after.len() && (#[trigger] after[i]).frame_id == frame_id;
                if i < before.len() {
                    assert(before[i].frame_id == frame_id);
                }
            }
        }
    }
}

/// Every packet that is asked for is then known as asked for, and so is what was before; its
/// frame waits from then on, or from when it was first asked for.
pub proof fn law_requests_are_noted(
    book: RepairModel,
    items: Seq<PacketKey>,
    now: u64,
    key: PacketKey,
    since: u64,
)
    ensures
        ({
            let after = book.after_request(items, now);
            &&& items.contains(key) ==> after.arrival(key) == Arrival::Requested && waits(
                after.frames,
                key.frame_id,
            )
            &&& !items.contains(key) ==> after.arrival(key) == book.arrival(key)
            &&& items.contains(key) && !waits(book.frames, key.frame_id) ==> waiting_since(
                after.frames,
                key.frame_id,
                now,
            )
            &&& waiting_since(book.frames, key.frame_id, since) ==> waiting_since(
                after.frames,
                key.frame_id,
                since,
            )
        }),
{
    lemma_request_contains(book.requested, items, key);
    lemma_waiting_frames(book.frames, items, now, key.frame_id, since);
    if items.contains(key) {
        let i = choose|i: int| 0 <= i < items.len() && items[i] == key;
        assert(items[i].frame_id == key.frame_id);
    }
}

proof fn lemma_without_key(keys: Seq<PacketKey>, key: PacketKey, other: PacketKey)
    requires
        key != other,
    ensures
        without_key(keys, key).contains(other) == keys.contains(other),
    decreases keys.len(),
{
    reveal(Seq::filter);
    if keys.len() > 0 {
        let front = keys.drop_last();
        lemma_without_key(front, key, other);
        let rest = without_key(front, key);
        let all = without_key(keys, key);
        assert(keys[keys.len() - 1] == keys.last());
        if keys.contains(other) {
            let i = choose|i: int| 0 <= i < keys.len() && keys[i] == other;
            if i < front.len() {
                assert(front[i] == other);
            }
        }
        if front.contains(other) {
            let i = choose|i: int| 0 <= i < front.len() && front[i] == other;
            assert(keys[i] == other);
        }
        if keys.last() != key {
            assert(all[rest.len() as int] == keys.last());
            if rest.contains(other) {
                let i = choose|i: int| 0 <= i < rest.len() && rest[i] == other;
                assert(all[i] == other);
            }
            if all.contains(other) {
                let i = choose|i: int| 0 <= i < all.len() && all[i] == other;
                if i < rest.len() {
                    assert(rest[i] == other);
                }
            }
        }
    }
}

/// A packet that comes says nothing of other packets: what was asked for stays asked for,
/// and no frame stops to wait.  A packet that nobody asked for changes nothing.
pub proof fn law_arrival_concerns_its_packet(
    book: RepairModel,
    key: PacketKey,
    other: PacketKey,
    now: u64,
)
    requires
        key != other,
    ensures
        book.after_arrival(key, now).requested.contains(other) == book.requested.contains(other),
        book.after_arrival(key, now).frames == book.frames,
        !book.requested.contains(key) ==> book.after_arrival(key, now) == book,
        book.requested.contains(key) ==> book.arrival(key) == Arrival::Requested,
{
    lemma_without_key(book.requested, key, other);
}

proof fn lemma_other_frames(frames: Seq<RequestedFrame>, frame_id: u64, other: u64, since: u64)
    requires
        other != frame_id,
        waiting_since(frames, other, since),
    ensures
        waiting_since(other_frames(frames, frame_id), other, since),
    decreases frames.len(),
{
    reveal(Seq::filter);
    let i = choose|i: int|
        0 <= i < frames.len() && (#[trigger] frames[i]).frame_id == other && frames[i].since
            == since;
    let front = frames.drop_last();
    let all = other_frames(frames, frame_id);
    let rest = other_frames(front, frame_id);
    if i < front.len() {
        assert(front[i].frame_id == other && front[i].since == since);
        lemma_other_frames(front, frame_id, other, since);
        let j = choose|j: int|
            0 <= j < rest.len() && (#[trigger] rest[j]).frame_id == other && rest[j].since
                == since;
        assert(all[j] == rest[j]);
    } else {
        assert(all[rest.len() as int] == frames.last());
    }
}

/// A frame that is complete leaves the other frames waiting as long as they did.
pub proof fn law_other_frames_wait_on(
    book: RepairModel,
    frame_id: u64,
    other: u64,
    since: u64,
    now: u64,
)
    requires
        other != frame_id,
        waiting_since(book.frames, other, since),
    ensures
        waiting_since(book.after_completion(frame_id, now).frames, other, since),
        !waits(book.frames, frame_id) ==> book.after_completion(frame_id, now) == book,
{
    lemma_other_frames(book.frames, frame_id, other, since);
}

/// How long frames have waited is counted for each from its own start.
pub proof fn law_waits_add_up(frames: Seq<RequestedFrame>, frame: RequestedFrame, now: u64)
    requires
        frame.since <= now,
    ensures
        total_wait(frames.push(frame), now) == total_wait(frames, now) + (now - frame.since),
        longest_wait(frames.push(frame), now) >= now - frame.since,
        longest_wait(frames.push(frame), now) >= longest_wait(frames, now),
        longest_wait(frames.push(frame), now) == longest_wait(frames, now) || longest_wait(
            frames.push(frame),
            now,
        ) == now - frame.since,
        total_wait(Seq::empty(), now) == 0,
        longest_wait(Seq::empty(), now) == 0,
{
    assert(frames.push(frame).drop_last() =~= frames);
}

} // verus!
