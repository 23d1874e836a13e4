//! Reassembly of frames from packets that may be lost, repeated or reordered.
//!
//! Times are nanoseconds of a monotonic clock.  Counters stop at their maximum.

use vstd::prelude::*;

use std::collections::HashMap;

use crate::media_packet;
use crate::media_packet::{MediaPacket, STREAM_VIDEO};

verus! {

broadcast use vstd::std_specs::hash::group_hash_axioms;

/// One second, in nanoseconds.
pub const FRAME_TTL: u64 = 1_000_000_000;

#[derive(Clone, Copy, Debug, PartialEq, Eq, Structural)]
pub struct ReceiverStats {
    pub packets_received: u64,
    pub packets_dropped_or_lost_estimate: u64,
    pub frames_complete: u64,
    pub frames_incomplete_expired: u64,
    pub last_frame_id: u64,
}

/// A frame of which some packets have arrived.
#[derive(Debug)]
pub struct FrameAssembly {
    packet_count: u16,
    received: Vec<bool>,
    received_count: u16,
    first_seen: u64,
    bytes: usize,
}

/// What an incomplete frame holds.
pub struct AssemblyModel {
    pub packet_count: u16,
    /// Which of the packets have arrived.
    pub received: Seq<bool>,
    pub first_seen: u64,
    /// The payload bytes that have arrived.
    pub bytes: usize,
}

/// How many entries of `s` are set.
pub open spec fn count_true(s: Seq<bool>) -> nat
    decreases s.len(),
{
    if s.len() == 0 {
        0
    } else {
        count_true(s.drop_last()) + if s.last() {
            1nat
        } else {
            0nat
        }
    }
}

/// Every entry of `s` is set.
pub open spec fn all_true(s: Seq<bool>) -> bool {
    forall|i: int| 0 <= i < s.len() ==> #[trigger] s[i]
}

proof fn lemma_count_true_bound(s: Seq<bool>)
    ensures
        count_true(s) <= s.len(),
        count_true(s) == s.len() <==> all_true(s),
    decreases s.len(),
{
    if s.len() > 0 {
        let front = s.drop_last();
        lemma_count_true_bound(front);
        if all_true(s) {
            assert forall|i: int| 0 <= i < front.len() implies #[trigger] front[i] by {
                assert(s[i]);
            }
        }
        if count_true(s) == s.len() {
            assert forall|i: int| 0 <= i < s.len() implies #[trigger] s[i] by {
                if i < front.len() {
                    assert(front[i]);
                }
            }
        }
    }
}

proof fn lemma_count_true_update(s: Seq<bool>, i: int)
    requires
        0 <= i < s.len(),
        !s[i],
    ensures
        count_true(s.update(i, true)) == count_true(s) + 1,
    decreases s.len(),
{
    if i == s.len() - 1 {
        assert(s.update(i, true).drop_last() =~= s.drop_last());
    } else {
        lemma_count_true_update(s.drop_last(), i);
        assert(s.update(i, true).drop_last() =~= s.drop_last().update(i, true));
    }
}

proof fn lemma_count_true_none(n: nat)
    ensures
        count_true(Seq::new(n, |i: int| false)) == 0,
    decreases n,
{
    let s = Seq::new(n, |i: int| false);
    if n > 0 {
        lemma_count_true_none((n - 1) as nat);
        assert(s.drop_last() =~= Seq::new((n - 1) as nat, |i: int| false));
    }
}

impl AssemblyModel {
    /// A frame of `packet_count` packets, none of which has arrived.
    pub open spec fn fresh(packet_count: u16, now: u64) -> AssemblyModel {
        AssemblyModel {
            packet_count,
            received: Seq::new(packet_count as nat, |i: int| false),
            first_seen: now,
            bytes: 0,
        }
    }

    /// Packet `index` has arrived, with `len` bytes; a repetition changes nothing.
    pub open spec fn with_packet(self, index: int, len: usize) -> AssemblyModel {
        if self.received[index] {
            self
        } else {
            AssemblyModel {
                received: self.received.update(index, true),
                bytes: self.bytes.saturating_add(len),
                ..self
            }
        }
    }

    /// Some packet is still missing.
    pub open spec fn incomplete(self) -> bool {
        self.received.len() == self.packet_count && !all_true(self.received)
    }

    /// How many packets are missing.
    pub open spec fn missing(self) -> nat {
        (self.received.len() - count_true(self.received)) as nat
    }
}

impl FrameAssembly {
    closed spec fn model(self) -> AssemblyModel {
        AssemblyModel {
            packet_count: self.packet_count,
            received: self.received@,
            first_seen: self.first_seen,
            bytes: self.bytes,
        }
    }

    spec fn counted(self) -> bool {
        self.received@.len() == self.packet_count && self.received_count == count_true(
            self.received@,
        )
    }
}

/// Collects packets into frames and gives up on frames that stay incomplete.
#[derive(Debug)]
pub struct Reassembler {
    frames: HashMap<u64, FrameAssembly>,
    ttl: u64,
    stats: ReceiverStats,
}

/// What a reassembler holds.
pub struct ReassemblerModel {
    /// The incomplete frames by their id.
    pub frames: Map<u64, AssemblyModel>,
    pub ttl: u64,
    pub stats: ReceiverStats,
}

impl View for Reassembler {
    type V = ReassemblerModel;

    closed spec fn view(&self) -> ReassemblerModel {
        ReassemblerModel {
            frames: self.frames@.map_values(|frame: FrameAssembly| frame.model()),
            ttl: self.ttl,
            stats: self.stats,
        }
    }
}

/// The sum of the missing packets of the frames `ids`.
pub open spec fn missing_total(frames: Map<u64, AssemblyModel>, ids: Seq<u64>) -> nat
    decreases ids.len(),
{
    if ids.len() == 0 {
        0
    } else {
        missing_total(frames, ids.drop_last()) + frames[ids.last()].missing()
    }
}

/// `n` or the largest counter value.
pub open spec fn capped(n: int) -> u64 {
    if n <= u64::MAX {
        n as u64
    } else {
        u64::MAX
    }
}

impl ReassemblerModel {
    /// Every frame that is held is incomplete.
    pub open spec fn well_formed(self) -> bool {
        forall|id: u64| #[trigger]
            self.frames.dom().contains(id) ==> self.frames[id].incomplete()
    }

    /// A packet counts as received.
    pub open spec fn with_received(self) -> ReassemblerModel {
        ReassemblerModel {
            stats: ReceiverStats {
                packets_received: self.stats.packets_received.saturating_add(1),
                ..self.stats
            },
            ..self
        }
    }

    /// A packet counts as dropped.
    pub open spec fn with_drop(self) -> ReassemblerModel {
        ReassemblerModel {
            stats: ReceiverStats {
                packets_dropped_or_lost_estimate:
                    self.stats.packets_dropped_or_lost_estimate.saturating_add(1),
                ..self.stats
            },
            ..self
        }
    }

    /// The frame that `packet` belongs to, which starts with it where it is new.
    pub open spec fn frame_for(
        self,
        packet: media_packet::PacketModel,
        now: u64,
    ) -> AssemblyModel {
        if self.frames.dom().contains(packet.frame_id) {
            self.frames[packet.frame_id]
        } else {
            AssemblyModel::fresh(packet.packet_count, now)
        }
    }

    /// `frame` is held under `id`.
    pub open spec fn with_frame(self, id: u64, frame: AssemblyModel) -> ReassemblerModel {
        ReassemblerModel { frames: self.frames.insert(id, frame), ..self }
    }

    /// The frame `id` is complete.
    pub open spec fn with_complete(self, id: u64) -> ReassemblerModel {
        ReassemblerModel {
            frames: self.frames.remove(id),
            stats: ReceiverStats {
                frames_complete: self.stats.frames_complete.saturating_add(1),
                last_frame_id: id,
                ..self.stats
            },
            ..self
        }
    }

    /// Whether `packet` can belong to a frame at all.
    pub open spec fn plausible(packet: media_packet::PacketModel) -> bool {
        packet.stream_id == STREAM_VIDEO && packet.packet_count != 0
    }

    /// Whether `packet` fits the frame that it names.
    pub open spec fn fits(self, packet: media_packet::PacketModel, now: u64) -> bool {
        let frame = self.frame_for(packet, now);
        frame.packet_count == packet.packet_count && packet.packet_index < frame.packet_count
    }

    /// Whether `packet` is the last one that its frame was missing.
    pub open spec fn completes(self, packet: media_packet::PacketModel, now: u64) -> bool {
        Self::plausible(packet) && self.fits(packet, now) && all_true(
            self.frame_for(packet, now).with_packet(
                packet.packet_index as int,
                packet.payload.len() as usize,
            ).received,
        )
    }

    /// The state after `packet` arrived at `now`.
    pub open spec fn accepted(
        self,
        packet: media_packet::PacketModel,
        now: u64,
    ) -> ReassemblerModel {
        let counted = self.with_received();
        let frame = self.frame_for(packet, now);
        if !Self::plausible(packet) {
            counted.with_drop()
        } else if !self.fits(packet, now) {
            counted.with_frame(packet.frame_id, frame).with_drop()
        } else if self.completes(packet, now) {
            counted.with_complete(packet.frame_id)
        } else {
            counted.with_frame(
                packet.frame_id,
                frame.with_packet(packet.packet_index as int, packet.payload.len() as usize),
            )
        }
    }

    /// The frame `id` has waited longer than the time to live.
    pub open spec fn overdue(self, id: u64, now: u64) -> bool {
        self.frames.dom().contains(id) && now - self.frames[id].first_seen > self.ttl
    }

    /// `ids` lists each overdue frame once.
    pub open spec fn lists_overdue(self, ids: Seq<u64>, now: u64) -> bool {
        ids.no_duplicates() && (forall|id: u64| ids.contains(id) <==> self.overdue(id, now))
    }

    /// The state after the overdue frames were given up in the order `ids`.
    pub open spec fn expired(self, ids: Seq<u64>) -> ReassemblerModel {
        ReassemblerModel {
            frames: self.frames.remove_keys(ids.to_set()),
            stats: ReceiverStats {
                frames_incomplete_expired: capped(
                    self.stats.frames_incomplete_expired + ids.len(),
                ),
                packets_dropped_or_lost_estimate: capped(
                    self.stats.packets_dropped_or_lost_estimate + missing_total(self.frames, ids),
                ),
                last_frame_id: if ids.len() == 0 {
                    self.stats.last_frame_id
                } else {
                    ids.last()
                },
                ..self.stats
            },
            ..self
        }
    }
}

impl Reassembler {
    /// Every frame that is held is incomplete, and its count of packets is right.
    pub closed spec fn inv(self) -> bool {
        &&& self@.well_formed()
        &&& forall|id: u64| #[trigger]
            self.frames@.dom().contains(id) ==> self.frames@[id].counted()
    }

    /// Gives up on frames that are incomplete for longer than `ttl`.
    pub fn new(ttl: u64) -> (r: Reassembler)
        ensures
            r@ == (ReassemblerModel {
                frames: Map::empty(),
                ttl,
                stats: ReceiverStats {
                    packets_received: 0,
                    packets_dropped_or_lost_estimate: 0,
                    frames_complete: 0,
                    frames_incomplete_expired: 0,
                    last_frame_id: 0,
                },
            }),
            r.inv(),
    {
        let r = Reassembler {
            frames: HashMap::new(),
            ttl,
            stats: ReceiverStats {
                packets_received: 0,
                packets_dropped_or_lost_estimate: 0,
                frames_complete: 0,
                frames_incomplete_expired: 0,
                last_frame_id: 0,
            },
        };
        assert(r@.frames =~= Map::empty());
        r
    }

    /// What has been counted.
    pub fn stats(&self) -> (r: ReceiverStats)
        ensures
            r == self@.stats,
    {
        self.stats
    }

    /// The number of frames that are incomplete.
    pub fn inflight_frames(&self) -> (r: usize)
        ensures
            r == self@.frames.dom().len(),
    {
        assert(self@.frames.dom() =~= self.frames@.dom());
        self.frames.len()
    }

    /// A datagram that is no packet counts as dropped.
    pub fn reject(&mut self)
        requires
            old(self).inv(),
        ensures
            final(self).inv(),
            final(self)@ == old(self)@.with_drop(),
    {
        self.stats.packets_dropped_or_lost_estimate =
        self.stats.packets_dropped_or_lost_estimate.saturating_add(1);
    }

    /// Takes a packet; `true` where it completes its frame.
    pub fn accept(&mut self, packet: MediaPacket, now: u64) -> (complete: bool)
        requires
            old(self).inv(),
        ensures
            final(self).inv(),
            complete == old(self)@.completes(packet@, now),
            final(self)@ == old(self)@.accepted(packet@, now),
    {
        let ghost before = self@;
        let ghost held = self.frames@;
        self.stats.packets_received = self.stats.packets_received.saturating_add(1);
        if packet.stream_id != STREAM_VIDEO || packet.packet_count == 0 {
            self.stats.packets_dropped_or_lost_estimate =
            self.stats.packets_dropped_or_lost_estimate.saturating_add(1);
            assert(self@.frames =~= before.frames);
            return false;
        }
        let id: u64 = packet.frame_id;
        let mut entry: FrameAssembly = match self.frames.remove(&id) {
            Some(entry) => entry,
            None => {
                let received: Vec<bool> = vec![false; packet.packet_count as usize];
                proof {
                    assert(received@ =~= Seq::new(packet.packet_count as nat, |i: int| false));
                    lemma_count_true_none(packet.packet_count as nat);
                }
                FrameAssembly {
                    packet_count: packet.packet_count,
                    received,
                    received_count: 0,
                    first_seen: now,
                    bytes: 0,
                }
            },
        };
        let ghost frame = before.frame_for(packet@, now);
        assert(entry.model() == frame);
        assert(entry.counted());
        proof {
            assert(frame.incomplete()) by {
                if !before.frames.dom().contains(id) {
                    assert(!frame.received[0]);
                }
            }
        }
        let index: usize = packet.packet_index as usize;
        if entry.packet_count != packet.packet_count || index >= entry.received.len() {
            self.frames.insert(id, entry);
            self.stats.packets_dropped_or_lost_estimate =
            self.stats.packets_dropped_or_lost_estimate.saturating_add(1);
            assert(self@.frames =~= before.frames.insert(id, frame));
            return false;
        }
        let ghost after = frame.with_packet(index as int, packet.payload@.len() as usize);
        if !entry.received[index] {
            proof {
                lemma_count_true_update(entry.received@, index as int);
                lemma_count_true_bound(entry.received@.update(index as int, true));
            }
            entry.received.set(index, true);
            entry.received_count = entry.received_count + 1;
            entry.bytes = entry.bytes.saturating_add(packet.payload.len());
        }
        assert(entry.model() == after);
        assert(entry.counted());
        proof {
            lemma_count_true_bound(entry.received@);
        }
        if entry.received_count == entry.packet_count {
            self.stats.frames_complete = self.stats.frames_complete.saturating_add(1);
            self.stats.last_frame_id = id;
            assert(self@.frames =~= before.frames.remove(id));
            return true;
        }
        self.frames.insert(id, entry);
        assert(self@.frames =~= before.frames.insert(id, after));
        false
    }

    /// The frames that are overdue at `now`, in some order.
    fn overdue_ids(&self, now: u64) -> (ids: Vec<u64>)
        ensures
            self@.lists_overdue(ids@, now),
    {
        let mut ids: Vec<u64> = Vec::new();
        for id in it: self.frames.keys()
            invariant
                it.seq() == vstd::std_specs::iter::IteratorSpec::remaining(
                    &vstd::std_specs::hash::spec_keys_iter(&self.frames),
                ),
                ids@.no_duplicates(),
                forall|k: u64| #[trigger]
                    ids@.contains(k) <==> self@.overdue(k, now) && exists|j: int|
                        0 <= j < it.index() && *it.seq()[j] == k,
        {
            let ghost earlier = ids@;
            assert(it.seq().unref().to_set() == self.frames@.dom());
            assert(it.seq().unref()[it.index()] == *id);
            assert(it.seq().unref().contains(*id));
            assert(self.frames@.dom().contains(*id));
            if let Some(frame) = self.frames.get(id) {
                if now.saturating_sub(frame.first_seen) > self.ttl {
                    proof {
                        if earlier.contains(*id) {
                            let j = choose|j: int| 0 <= j < it.index() && *it.seq()[j] == *id;
                            assert(it.seq()[j] == it.seq()[it.index()]);
                        }
                    }
                    ids.push(*id);
                    assert(ids@.contains(*id)) by {
                        assert(ids@[ids@.len() - 1] == *id);
                    }
                }
            }
            assert forall|k: u64| #[trigger]
                ids@.contains(k) <==> self@.overdue(k, now) && exists|j: int|
                    0 <= j < it.index() + 1 && *it.seq()[j] == k by {
                if earlier.contains(k) {
                    let i = choose|i: int| 0 <= i < earlier.len() && earlier[i] == k;
                    assert(ids@[i] == k);
                }
                if ids@.contains(k) && k != *id {
                    let i = choose|i: int| 0 <= i < ids@.len() && ids@[i] == k;
                    assert(earlier[i] == k);
                }
            }
        }
        assert forall|k: u64| ids@.contains(k) <==> self@.overdue(k, now) by {
            let keys = vstd::std_specs::iter::IteratorSpec::remaining(
                    &vstd::std_specs::hash::spec_keys_iter(&self.frames),
                );
            if self@.overdue(k, now) {
                assert(self.frames@.dom().contains(k));
                assert(keys.unref().to_set().contains(k));
                let j = choose|j: int| 0 <= j < keys.unref().len() && keys.unref()[j] == k;
                assert(*keys[j] == k);
            }
        }
        ids
    }

    /// Gives up on the frames that are overdue at `now`.  The order in which they
    /// are found is open.
    pub fn expire(&mut self, now: u64)
        requires
            old(self).inv(),
        ensures
            final(self).inv(),
            exists|ids: Seq<u64>| #[trigger]
                old(self)@.lists_overdue(ids, now) && final(self)@ == old(self)@.expired(ids),
    {
        let ghost before = self@;
        let ids: Vec<u64> = self.overdue_ids(now);
        let mut k: usize = 0;
        assert(before.frames.remove_keys(ids@.subrange(0, 0).to_set()) =~= before.frames);
        assert(missing_total(before.frames, ids@.subrange(0, 0)) == 0);
        while k < ids.len()
            invariant
                k <= ids@.len(),
                before.lists_overdue(ids@, now),
                self.inv(),
                self@ == before.expired(ids@.subrange(0, k as int)),
            decreases ids@.len() - k,
        {
            let id: u64 = ids[k];
            let ghost done = ids@.subrange(0, k as int);
            let ghost more = ids@.subrange(0, k + 1);
            let ghost at = self@;
            proof {
                assert(more.drop_last() =~= done);
                assert(more.last() == id);
                assert(ids@.contains(id));
                assert(before.overdue(id, now));
                assert(!done.to_set().contains(id)) by {
                    if done.contains(id) {
                        let j = choose|j: int| 0 <= j < done.len() && done[j] == id;
                        assert(ids@[j] == ids@[k as int]);
                    }
                }
                assert(self@.frames.dom().contains(id));
                assert(self@.frames[id] == before.frames[id]);
            }
            let removed: Option<FrameAssembly> = self.frames.remove(&id);
            if let Some(frame) = removed {
                proof {
                    assert(frame.model() == before.frames[id]);
                    lemma_count_true_bound(frame.received@);
                }
                self.stats.frames_incomplete_expired =
                self.stats.frames_incomplete_expired.saturating_add(1);
                self.stats.packets_dropped_or_lost_estimate =
                self.stats.packets_dropped_or_lost_estimate.saturating_add(
                    (frame.packet_count - frame.received_count) as u64,
                );
                self.stats.last_frame_id = id;
            }
            proof {
                assert(self@.frames =~= at.frames.remove(id));
                assert(done.to_set().insert(id) =~= more.to_set()) by {
                    assert forall|x: u64| more.contains(x) <==> done.contains(x) || x == id by {
                        if more.contains(x) && x != id {
                            let j = choose|j: int| 0 <= j < more.len() && more[j] == x;
                            assert(done[j] == x);
                        }
                        if done.contains(x) {
                            let j = choose|j: int| 0 <= j < done.len() && done[j] == x;
                            assert(more[j] == x);
                        }
                        assert(more[k as int] == id);
                    }
                }
                assert(self@.frames =~= before.frames.remove_keys(more.to_set()));
            }
            k = k + 1;
        }
        assert(ids@.subrange(0, k as int) =~= ids@);
    }
}

/// The state after `packets` arrived one by one.
pub open spec fn delivered(
    start: ReassemblerModel,
    packets: Seq<media_packet::PacketModel>,
    now: u64,
) -> ReassemblerModel
    decreases packets.len(),
{
    if packets.len() == 0 {
        start
    } else {
        delivered(start, packets.drop_last(), now).accepted(packets.last(), now)
    }
}

/// `packets` are the packets of one frame, each once, in some order.
pub open spec fn is_whole_frame(packets: Seq<media_packet::PacketModel>) -> bool {
    &&& packets.len() > 0
    &&& forall|i: int|
        0 <= i < packets.len() ==> {
            &&& (#[trigger] packets[i]).stream_id == STREAM_VIDEO
            &&& packets[i].frame_id == packets[0].frame_id
            &&& packets[i].packet_count == packets.len()
            &&& packets[i].packet_index < packets.len()
        }
    &&& forall|i: int, j: int|
        0 <= i < j < packets.len() ==> (#[trigger] packets[i]).packet_index != (
        #[trigger] packets[j]).packet_index
}

/// A frame whose packets arrive once each completes with the last of them and not
/// before, whatever their order; nothing else that is held changes.
pub proof fn law_whole_frame_completes_in_any_order(
    start: ReassemblerModel,
    packets: Seq<media_packet::PacketModel>,
    now: u64,
)
    requires
        is_whole_frame(packets),
        !start.frames.dom().contains(packets[0].frame_id),
    ensures
        delivered(start, packets, now).frames == start.frames,
        delivered(start, packets, now).stats.frames_complete
            == start.stats.frames_complete.saturating_add(1),
        delivered(start, packets, now).stats.last_frame_id == packets[0].frame_id,
        delivered(start, packets.drop_last(), now).completes(packets.last(), now),
        forall|k: int|
            0 <= k < packets.len() - 1 ==> !(#[trigger] delivered(
                start,
                packets.subrange(0, k),
                now,
            )).completes(packets[k], now),
{
    let n = packets.len() as int;
    let id = packets[0].frame_id;
    lemma_partial_frame(start, packets, now, n - 1);
    lemma_next_packet(start, packets, now, n - 1);
    assert(packets.subrange(0, n - 1) =~= packets.drop_last());
    let at = delivered(start, packets.drop_last(), now);
    assert(at.completes(packets.last(), now));
    assert(delivered(start, packets, now).frames =~= start.frames) by {
        assert(at.frames.remove(id) =~= start.frames);
    }
    assert forall|k: int| 0 <= k < n - 1 implies !(#[trigger] delivered(
        start,
        packets.subrange(0, k),
        now,
    )).completes(packets[k], now) by {
        lemma_partial_frame(start, packets, now, k);
        lemma_next_packet(start, packets, now, k);
    }
}

/// What is held after the first `k` packets of a frame.
spec fn holds_partial(
    at: ReassemblerModel,
    start: ReassemblerModel,
    packets: Seq<media_packet::PacketModel>,
    k: int,
) -> bool {
    let id = packets[0].frame_id;
    &&& at.stats.frames_complete == start.stats.frames_complete
    &&& at.frames.remove(id) == start.frames
    &&& at.frames.dom().contains(id) == (k > 0)
    &&& k > 0 ==> {
        let frame = at.frames[id];
        &&& frame.packet_count == packets.len()
        &&& frame.received.len() == packets.len()
        &&& count_true(frame.received) == k
        &&& forall|i: int|
            0 <= i < packets.len() && #[trigger] frame.received[i] ==> exists|j: int|
                0 <= j < k && (#[trigger] packets[j]).packet_index == i
    }
}

proof fn lemma_partial_frame(
    start: ReassemblerModel,
    packets: Seq<media_packet::PacketModel>,
    now: u64,
    k: int,
)
    requires
        is_whole_frame(packets),
        !start.frames.dom().contains(packets[0].frame_id),
        0 <= k < packets.len(),
    ensures
        holds_partial(delivered(start, packets.subrange(0, k), now), start, packets, k),
    decreases k,
{
    let id = packets[0].frame_id;
    let front = packets.subrange(0, k);
    if k == 0 {
        assert(start.frames.remove(id) =~= start.frames);
    } else {
        lemma_partial_frame(start, packets, now, k - 1);
        lemma_next_packet(start, packets, now, k - 1);
        assert(front.drop_last() =~= packets.subrange(0, k - 1));
        assert(front.last() == packets[k - 1]);
    }
}

/// Packet `k` of a frame of which the first `k` packets have arrived.
proof fn lemma_next_packet(
    start: ReassemblerModel,
    packets: Seq<media_packet::PacketModel>,
    now: u64,
    k: int,
)
    requires
        is_whole_frame(packets),
        0 <= k < packets.len(),
        holds_partial(delivered(start, packets.subrange(0, k), now), start, packets, k),
    ensures
        ({
            let at = delivered(start, packets.subrange(0, k), now);
            &&& at.completes(packets[k], now) <==> k + 1 == packets.len()
            &&& k + 1 < packets.len() ==> holds_partial(
                at.accepted(packets[k], now),
                start,
                packets,
                k + 1,
            )
        }),
{
    let at = delivered(start, packets.subrange(0, k), now);
    let packet = packets[k];
    let id = packets[0].frame_id;
    let frame = at.frame_for(packet, now);
    let index = packet.packet_index as int;
    if k == 0 {
        lemma_count_true_none(packets.len());
    }
    assert(!frame.received[index]) by {
        if k > 0 && frame.received[index] {
            let j = choose|j: int| 0 <= j < k && (#[trigger] packets[j]).packet_index == index;
            assert(packets[j].packet_index != packets[k].packet_index);
        }
    }
    let after = frame.with_packet(index, packet.payload.len() as usize);
    lemma_count_true_update(frame.received, index);
    lemma_count_true_bound(after.received);
    assert(count_true(after.received) == k + 1);
    if k + 1 < packets.len() {
        let next = at.accepted(packet, now);
        assert(next.frames.remove(id) =~= at.frames.remove(id));
        assert forall|i: int| 0 <= i < packets.len() && #[trigger] after.received[i] implies exists|
            j: int,
        |
            0 <= j < k + 1 && (#[trigger] packets[j]).packet_index == i by {
            if i == index {
                assert(packets[k].packet_index == i);
            } else {
                assert(frame.received[i]);
                let j = choose|j: int| 0 <= j < k && (#[trigger] packets[j]).packet_index == i;
                assert(packets[j].packet_index == i);
            }
        }
    }
}

/// The state after each of `packets` arrived at its time.
pub open spec fn delivered_at(
    start: ReassemblerModel,
    packets: Seq<media_packet::PacketModel>,
    times: Seq<u64>,
) -> ReassemblerModel
    decreases packets.len(),
{
    if packets.len() == 0 {
        start
    } else {
        delivered_at(start, packets.drop_last(), times).accepted(
            packets.last(),
            times[packets.len() - 1],
        )
    }
}

/// `packets` belong to one frame; each may occur more than once.
pub open spec fn of_one_frame(packets: Seq<media_packet::PacketModel>) -> bool {
    forall|i: int|
        0 <= i < packets.len() ==> {
            &&& (#[trigger] packets[i]).stream_id == STREAM_VIDEO
            &&& packets[i].frame_id == packets[0].frame_id
            &&& packets[i].packet_count == packets[0].packet_count
            &&& packets[i].packet_index < packets[i].packet_count
        }
}

/// A packet with the index `index` is among `packets`.
pub open spec fn occurs(packets: Seq<media_packet::PacketModel>, index: int) -> bool {
    exists|j: int| 0 <= j < packets.len() && (#[trigger] packets[j]).packet_index == index
}

/// Every packet of a frame of `count` packets is among `packets`.
pub open spec fn covers(packets: Seq<media_packet::PacketModel>, count: u16) -> bool {
    forall|index: int| 0 <= index < count ==> #[trigger] occurs(packets, index)
}

/// A frame completes with the packet that brings the last missing index and not before,
/// whatever the order of its packets, however often each is repeated and whenever it
/// comes.  Every packet counts as received and none as lost, and nothing else that is held
/// changes.
pub proof fn law_frame_completes_with_its_last_index(
    start: ReassemblerModel,
    packets: Seq<media_packet::PacketModel>,
    times: Seq<u64>,
)
    requires
        packets.len() > 0,
        times.len() == packets.len(),
        of_one_frame(packets),
        covers(packets, packets[0].packet_count),
        !covers(packets.drop_last(), packets[0].packet_count),
        !start.frames.dom().contains(packets[0].frame_id),
    ensures
        delivered_at(start, packets.drop_last(), times).completes(
            packets.last(),
            times.last(),
        ),
        forall|k: int|
            0 <= k < packets.len() - 1 ==> !(#[trigger] delivered_at(
                start,
                packets.take(k),
                times,
            )).completes(packets[k], times[k]),
        delivered_at(start, packets, times) == (ReassemblerModel {
            stats: ReceiverStats {
                packets_received: capped(start.stats.packets_received + packets.len()),
                frames_complete: start.stats.frames_complete.saturating_add(1),
                last_frame_id: packets[0].frame_id,
                ..start.stats
            },
            ..start
        }),
{
    let n = packets.len() as int;
    let id = packets[0].frame_id;
    assert(packets.take(n - 1) =~= packets.drop_last());
    assert(packets.take(n) =~= packets);
    lemma_arrived(start, packets, times, n - 1);
    lemma_arrives(start, packets, times, n - 1);
    let at = delivered_at(start, packets.drop_last(), times);
    assert(at.frames.remove(id) =~= start.frames);
    assert forall|k: int| 0 <= k < n - 1 implies !(#[trigger] delivered_at(
        start,
        packets.take(k),
        times,
    )).completes(packets[k], times[k]) by {
        lemma_not_covered_before(packets, packets[0].packet_count, k + 1, n - 1);
        lemma_not_covered_before(packets, packets[0].packet_count, k, n - 1);
        lemma_arrived(start, packets, times, k);
        lemma_arrives(start, packets, times, k);
    }
}

/// While a frame is within its time to live, looking for overdue frames does not change
/// what is held of it, unless frames from before are overdue.
pub proof fn law_young_frame_is_kept(
    start: ReassemblerModel,
    packets: Seq<media_packet::PacketModel>,
    times: Seq<u64>,
    now: u64,
    ids: Seq<u64>,
)
    requires
        packets.len() > 0,
        times.len() == packets.len(),
        of_one_frame(packets),
        !covers(packets, packets[0].packet_count),
        !start.frames.dom().contains(packets[0].frame_id),
        now - times[0] <= start.ttl,
        forall|id: u64| !(#[trigger] start.overdue(id, now)),
        delivered_at(start, packets, times).lists_overdue(ids, now),
    ensures
        delivered_at(start, packets, times).expired(ids) == delivered_at(start, packets, times),
{
    let n = packets.len() as int;
    let id = packets[0].frame_id;
    let at = delivered_at(start, packets, times);
    assert(packets.take(n) =~= packets);
    lemma_arrived(start, packets, times, n);
    if ids.len() > 0 {
        let other = ids[0];
        assert(ids.contains(other));
        assert(at.overdue(other, now));
        if other != id {
            assert(at.frames.remove(id).dom().contains(other));
            assert(start.overdue(other, now));
        }
    }
    assert(at.frames.remove_keys(ids.to_set()) =~= at.frames);
}

/// What is held once the first `k` packets of a frame have arrived.
spec fn holds_arrived(
    at: ReassemblerModel,
    start: ReassemblerModel,
    packets: Seq<media_packet::PacketModel>,
    times: Seq<u64>,
    k: int,
) -> bool {
    let id = packets[0].frame_id;
    &&& at.ttl == start.ttl
    &&& at.stats == (ReceiverStats {
        packets_received: capped(start.stats.packets_received + k),
        ..start.stats
    })
    &&& at.frames.remove(id) == start.frames
    &&& at.frames.dom().contains(id) == (k > 0)
    &&& k > 0 ==> {
        let frame = at.frames[id];
        &&& frame.packet_count == packets[0].packet_count
        &&& frame.received.len() == packets[0].packet_count
        &&& frame.first_seen == times[0]
        &&& forall|i: int|
            0 <= i < packets[0].packet_count ==> #[trigger] frame.received[i] == occurs(
                packets.take(k),
                i,
            )
    }
}

proof fn lemma_not_covered_before(
    packets: Seq<media_packet::PacketModel>,
    count: u16,
    j: int,
    k: int,
)
    requires
        0 <= j <= k <= packets.len(),
        !covers(packets.take(k), count),
    ensures
        !covers(packets.take(j), count),
{
    let index = choose|index: int|
        0 <= index < count && !(#[trigger] occurs(packets.take(k), index));
    if occurs(packets.take(j), index) {
        let at = choose|at: int|
            0 <= at < packets.take(j).len() && (#[trigger] packets.take(j)[at]).packet_index
                == index;
        assert(packets.take(k)[at].packet_index == index);
    }
}

proof fn lemma_arrived(
    start: ReassemblerModel,
    packets: Seq<media_packet::PacketModel>,
    times: Seq<u64>,
    k: int,
)
    requires
        packets.len() > 0,
        times.len() == packets.len(),
        of_one_frame(packets),
        0 <= k <= packets.len(),
        !covers(packets.take(k), packets[0].packet_count),
        !start.frames.dom().contains(packets[0].frame_id),
    ensures
        holds_arrived(delivered_at(start, packets.take(k), times), start, packets, times, k),
    decreases k,
{
    let id = packets[0].frame_id;
    if k == 0 {
        assert(start.frames.remove(id) =~= start.frames);
    } else {
        lemma_not_covered_before(packets, packets[0].packet_count, k - 1, k);
        lemma_arrived(start, packets, times, k - 1);
        lemma_arrives(start, packets, times, k - 1);
        assert(packets.take(k).drop_last() =~= packets.take(k - 1));
        assert(packets.take(k).last() == packets[k - 1]);
    }
}

/// Packet `k` of a frame that is incomplete until then.
proof fn lemma_arrives(
    start: ReassemblerModel,
    packets: Seq<media_packet::PacketModel>,
    times: Seq<u64>,
    k: int,
)
    requires
        times.len() == packets.len(),
        of_one_frame(packets),
        0 <= k < packets.len(),
        holds_arrived(delivered_at(start, packets.take(k), times), start, packets, times, k),
    ensures
        ({
            let at = delivered_at(start, packets.take(k), times);
            let all = covers(packets.take(k + 1), packets[0].packet_count);
            &&& at.completes(packets[k], times[k]) <==> all
            &&& !all ==> holds_arrived(
                at.accepted(packets[k], times[k]),
                start,
                packets,
                times,
                k + 1,
            )
        }),
{
    let at = delivered_at(start, packets.take(k), times);
    let packet = packets[k];
    let id = packets[0].frame_id;
    let count = packets[0].packet_count;
    let frame = at.frame_for(packet, times[k]);
    let index = packet.packet_index as int;
    let after = frame.with_packet(index, packet.payload.len() as usize);
    let longer = packets.take(k + 1);
    assert forall|i: int| 0 <= i < count implies #[trigger] after.received[i] == occurs(
        longer,
        i,
    ) by {
        if i == index {
            assert(longer[k].packet_index == i);
        } else if occurs(longer, i) {
            let j = choose|j: int|
                0 <= j < longer.len() && (#[trigger] longer[j]).packet_index == i;
            assert(packets.take(k)[j].packet_index == i);
        } else if occurs(packets.take(k), i) {
            let j = choose|j: int|
                0 <= j < packets.take(k).len() && (#[trigger] packets.take(k)[j]).packet_index
                    == i;
            assert(longer[j].packet_index == i);
        }
    }
    assert(all_true(after.received) <==> covers(longer, count)) by {
        if all_true(after.received) {
            assert forall|i: int| 0 <= i < count implies #[trigger] occurs(longer, i) by {
                assert(after.received[i]);
            }
        }
    }
    if !covers(longer, count) {
        assert(at.accepted(packet, times[k]).frames.remove(id) =~= at.frames.remove(id));
    }
}

/// A packet that arrives again while its frame is incomplete changes no frame and
/// completes none.
pub proof fn law_repeated_packet_changes_no_frame(
    start: ReassemblerModel,
    packet: media_packet::PacketModel,
    first: u64,
    second: u64,
)
    requires
        start.well_formed(),
        ReassemblerModel::plausible(packet),
        !start.completes(packet, first),
    ensures
        start.accepted(packet, first).accepted(packet, second).frames == start.accepted(
            packet,
            first,
        ).frames,
        !start.accepted(packet, first).completes(packet, second),
{
    let once = start.accepted(packet, first);
    let twice = once.accepted(packet, second);
    let frame = start.frame_for(packet, first);
    let held = once.frame_for(packet, second);
    let index = packet.packet_index as int;
    if start.fits(packet, first) {
        assert(held == frame.with_packet(index, packet.payload.len() as usize));
        assert(held.with_packet(index, packet.payload.len() as usize) == held) by {
            if !frame.received[index] && index < frame.received.len() {
                assert(frame.received.update(index, true)[index]);
            }
        }
    } else {
        assert(held == frame);
    }
    assert(twice.frames =~= once.frames);
}

/// Accepting keeps every held frame incomplete.
pub proof fn law_held_frames_stay_incomplete(
    start: ReassemblerModel,
    packet: media_packet::PacketModel,
    now: u64,
)
    requires
        start.well_formed(),
    ensures
        start.accepted(packet, now).well_formed(),
{
    if ReassemblerModel::plausible(packet) && !start.frames.dom().contains(packet.frame_id) {
        let fresh = AssemblyModel::fresh(packet.packet_count, now);
        assert(!fresh.received[0]);
    }
}

/// A frame misses a packet exactly while it is incomplete.
pub proof fn law_incomplete_frame_misses_packets(frame: AssemblyModel)
    requires
        frame.received.len() == frame.packet_count,
    ensures
        frame.incomplete() <==> frame.missing() > 0,
{
    lemma_count_true_bound(frame.received);
}

/// A packet touches the frame that it names and no other, and is counted as received.
pub proof fn law_packet_touches_its_frame_alone(
    state: ReassemblerModel,
    packet: media_packet::PacketModel,
    now: u64,
    other: u64,
)
    requires
        other != packet.frame_id,
        state.stats.packets_received < u64::MAX,
    ensures
        ({
            let after = state.accepted(packet, now);
            &&& after.frames.dom().contains(other) == state.frames.dom().contains(other)
            &&& after.frames.dom().contains(other) ==> after.frames[other] == state.frames[other]
            &&& after.stats.packets_received == state.stats.packets_received + 1
            &&& after.stats.frames_incomplete_expired == state.stats.frames_incomplete_expired
            &&& after.ttl == state.ttl
        }),
{
}

/// A packet of a frame that is not held yet starts it: the frame then holds that packet and
/// no other, unless it is the only one.
pub proof fn law_first_packet_starts_the_frame(
    state: ReassemblerModel,
    packet: media_packet::PacketModel,
    now: u64,
)
    requires
        !state.frames.dom().contains(packet.frame_id),
        packet.stream_id == 1,
        packet.packet_index < packet.packet_count,
        packet.packet_count > 1,
        packet.payload.len() <= usize::MAX,
    ensures
        !state.completes(packet, now),
        ({
            let after = state.accepted(packet, now);
            let frame = after.frames[packet.frame_id];
            &&& after.frames.dom() == state.frames.dom().insert(packet.frame_id)
            &&& frame.packet_count == packet.packet_count
            &&& frame.first_seen == now
            &&& frame.bytes == packet.payload.len()
            &&& frame.received.len() == packet.packet_count
            &&& forall|i: int|
                0 <= i < packet.packet_count ==> frame.received[i] == (i == packet.packet_index)
            &&& after.stats.frames_complete == state.stats.frames_complete
            &&& after.stats.packets_dropped_or_lost_estimate
                == state.stats.packets_dropped_or_lost_estimate
        }),
{
    let frame = AssemblyModel::fresh(packet.packet_count, now).with_packet(
        packet.packet_index as int,
        packet.payload.len() as usize,
    );
    let other: int = if packet.packet_index == 0 {
        1
    } else {
        0
    };
    assert(!frame.received[other]);
    assert(state.accepted(packet, now).frames.dom() =~= state.frames.dom().insert(
        packet.frame_id,
    ));
}

/// A frame of one packet is complete with it.
pub proof fn law_single_packet_completes(
    state: ReassemblerModel,
    packet: media_packet::PacketModel,
    now: u64,
)
    requires
        !state.frames.dom().contains(packet.frame_id),
        packet.stream_id == 1,
        packet.packet_index == 0,
        packet.packet_count == 1,
        state.stats.frames_complete < u64::MAX,
    ensures
        state.completes(packet, now),
        !state.accepted(packet, now).frames.dom().contains(packet.frame_id),
        state.accepted(packet, now).stats.frames_complete == state.stats.frames_complete + 1,
        state.accepted(packet, now).stats.last_frame_id == packet.frame_id,
{
}

/// A packet of another stream, or one that does not agree with its frame on the number of
/// packets, completes nothing and is counted as dropped.
pub proof fn law_misfit_packet_is_dropped(
    state: ReassemblerModel,
    packet: media_packet::PacketModel,
    now: u64,
)
    requires
        packet.stream_id != 1 || packet.packet_count == 0 || (state.frames.dom().contains(
            packet.frame_id,
        ) && state.frames[packet.frame_id].packet_count != packet.packet_count)
            || packet.packet_index >= packet.packet_count,
        state.stats.packets_dropped_or_lost_estimate < u64::MAX,
    ensures
        !state.completes(packet, now),
        ({
            let after = state.accepted(packet, now);
            &&& after.stats.packets_dropped_or_lost_estimate
                == state.stats.packets_dropped_or_lost_estimate + 1
            &&& after.stats.frames_complete == state.stats.frames_complete
            &&& state.frames.dom().contains(packet.frame_id) ==> after.frames == state.frames
        }),
{
    if state.frames.dom().contains(packet.frame_id) {
        assert(state.accepted(packet, now).frames =~= state.frames);
    }
}

/// A sweep gives up the frames that have waited longer than the lifetime, and no others; it
/// counts them and what they missed.
pub proof fn law_old_frames_are_given_up(
    state: ReassemblerModel,
    ids: Seq<u64>,
    now: u64,
    id: u64,
)
    requires
        state.lists_overdue(ids, now),
        state.stats.frames_incomplete_expired + ids.len() <= u64::MAX,
        state.frames.dom().contains(id),
    ensures
        state.expired(ids).frames.dom().contains(id) == (now <= state.frames[id].first_seen
            + state.ttl),
        state.expired(ids).frames.dom().contains(id) ==> state.expired(ids).frames[id]
            == state.frames[id],
        state.expired(ids).stats.frames_incomplete_expired
            == state.stats.frames_incomplete_expired + ids.len(),
        state.expired(ids).stats.frames_complete == state.stats.frames_complete,
        state.expired(ids).stats.packets_received == state.stats.packets_received,
        ids.len() == 1 && state.stats.packets_dropped_or_lost_estimate
            + state.frames[ids[0]].missing() <= u64::MAX ==> state.expired(
            ids,
        ).stats.packets_dropped_or_lost_estimate == state.stats.packets_dropped_or_lost_estimate
            + state.frames[ids[0]].missing(),
{
    assert(ids.contains(id) <==> state.overdue(id, now));
    assert(ids.to_set().contains(id) == ids.contains(id));
    if ids.len() == 1 {
        assert(ids.drop_last() =~= Seq::empty());
        assert(missing_total(state.frames, ids.drop_last()) == 0);
        assert(ids.last() == ids[0]);
    }
}

} // verus!
