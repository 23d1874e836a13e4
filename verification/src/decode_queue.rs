//! The queue between the network and the decoder, and the state of the decoder.
//!
//! Where frames are lost, decoding goes on at the next frame that needs no earlier
//! one.  Counters stop at their maximum.

use std::collections::VecDeque;

use vstd::prelude::*;

use crate::encoded_frame::EncodedFrame;

verus! {

/// What waits for the decoder.
#[derive(Debug)]
pub enum DecodeQueueItem {
    /// The decoder starts anew.
    Reset,
    Frame(EncodedFrame),
}

/// What the watch over damaged groups of pictures says of a frame.
#[derive(Debug)]
pub struct FramePreparation {
    /// It waited for a keyframe before the frame came.
    pub was_damaged: bool,
    /// It waits for a keyframe still.
    pub still_damaged: bool,
    /// The frame as it may be decoded, unless it has to be dropped.
    pub frame: Option<EncodedFrame>,
}

/// The queue of the decoder.
#[derive(Debug)]
pub struct DecodeQueue {
    pub items: VecDeque<DecodeQueueItem>,
    pub waiting_for_keyframe: bool,
    pub frames_predecode_dropped: u64,
    pub frames_waiting_keyframe_dropped: u64,
    pub keyframe_recovery_count: u64,
    pub complete_frame_queue_drops: u64,
    pub decode_queue_peak: usize,
    pub last_keyframe_id: Option<u64>,
}

/// The view of `DecodeQueue`.
#[verifier::ext_equal]
pub struct QueueModel {
    pub items: Seq<DecodeQueueItem>,
    pub waiting_for_keyframe: bool,
    pub frames_predecode_dropped: u64,
    pub frames_waiting_keyframe_dropped: u64,
    pub keyframe_recovery_count: u64,
    pub complete_frame_queue_drops: u64,
    pub decode_queue_peak: usize,
    pub last_keyframe_id: Option<u64>,
}

impl View for DecodeQueue {
    type V = QueueModel;

    open spec fn view(&self) -> QueueModel {
        QueueModel {
            items: self.items@,
            waiting_for_keyframe: self.waiting_for_keyframe,
            frames_predecode_dropped: self.frames_predecode_dropped,
            frames_waiting_keyframe_dropped: self.frames_waiting_keyframe_dropped,
            keyframe_recovery_count: self.keyframe_recovery_count,
            complete_frame_queue_drops: self.complete_frame_queue_drops,
            decode_queue_peak: self.decode_queue_peak,
            last_keyframe_id: self.last_keyframe_id,
        }
    }
}

/// How many of the items are frames.
pub open spec fn frame_count(items: Seq<DecodeQueueItem>) -> nat
    decreases items.len(),
{
    if items.len() == 0 {
        0
    } else {
        frame_count(items.drop_last()) + if items.last() is Frame {
            1nat
        } else {
            0nat
        }
    }
}

proof fn lemma_frame_count_bound(items: Seq<DecodeQueueItem>)
    ensures
        frame_count(items) <= items.len(),
    decreases items.len(),
{
    if items.len() > 0 {
        lemma_frame_count_bound(items.drop_last());
    }
}

proof fn lemma_frame_count_push(items: Seq<DecodeQueueItem>, item: DecodeQueueItem)
    ensures
        frame_count(items.push(item)) == frame_count(items) + if item is Frame {
            1nat
        } else {
            0nat
        },
{
    assert(items.push(item).drop_last() =~= items);
}

/// `n` more, as far as a counter goes.
pub open spec fn more(counter: u64, n: nat) -> u64 {
    if counter + n <= u64::MAX {
        (counter + n) as u64
    } else {
        u64::MAX
    }
}

impl QueueModel {
    /// While the queue waits for a keyframe, it holds no frame.
    pub open spec fn well_formed(self) -> bool {
        self.waiting_for_keyframe ==> frame_count(self.items) == 0
    }

    /// An empty queue.
    pub open spec fn empty() -> QueueModel {
        QueueModel {
            items: Seq::empty(),
            waiting_for_keyframe: false,
            frames_predecode_dropped: 0,
            frames_waiting_keyframe_dropped: 0,
            keyframe_recovery_count: 0,
            complete_frame_queue_drops: 0,
            decode_queue_peak: 0,
            last_keyframe_id: None,
        }
    }

    /// All frames are dropped, and the decoder starts anew at a keyframe.
    pub open spec fn reset(self) -> QueueModel {
        QueueModel {
            items: seq![DecodeQueueItem::Reset],
            waiting_for_keyframe: true,
            frames_predecode_dropped: more(self.frames_predecode_dropped, frame_count(self.items)),
            ..self
        }
    }

    /// The queue was full.
    pub open spec fn overrun(self) -> QueueModel {
        QueueModel {
            complete_frame_queue_drops: more(
                self.complete_frame_queue_drops,
                frame_count(self.items),
            ),
            keyframe_recovery_count: self.keyframe_recovery_count.saturating_add(1),
            ..self.reset()
        }
    }

    /// A group of pictures is damaged.
    pub open spec fn damaged(self) -> QueueModel {
        QueueModel {
            frames_waiting_keyframe_dropped: more(
                self.frames_waiting_keyframe_dropped,
                frame_count(self.items),
            ),
            keyframe_recovery_count: self.keyframe_recovery_count.saturating_add(1),
            ..self.reset()
        }
    }

    /// Another profile begins.
    pub open spec fn switched(self) -> QueueModel {
        QueueModel {
            complete_frame_queue_drops: more(
                self.complete_frame_queue_drops,
                frame_count(self.items),
            ),
            ..self.reset()
        }
    }

    /// A frame is dropped because the queue waits for a keyframe.
    pub open spec fn without_frame(self) -> QueueModel {
        QueueModel {
            frames_predecode_dropped: self.frames_predecode_dropped.saturating_add(1),
            frames_waiting_keyframe_dropped: self.frames_waiting_keyframe_dropped.saturating_add(1),
            ..self
        }
    }

    /// A frame is put at the end.
    pub open spec fn with_frame(self, frame: EncodedFrame) -> QueueModel {
        let items = self.items.push(DecodeQueueItem::Frame(frame));
        QueueModel {
            items,
            waiting_for_keyframe: self.waiting_for_keyframe && !frame.idr(),
            decode_queue_peak: if frame_count(items) > self.decode_queue_peak {
                frame_count(items) as usize
            } else {
                self.decode_queue_peak
            },
            last_keyframe_id: if frame.idr() {
                Some(frame.frame_id)
            } else {
                self.last_keyframe_id
            },
            ..self
        }
    }

    /// What becomes of the queue when a frame comes.
    pub open spec fn offered(
        self,
        preparation: FramePreparation,
        max_decode_queue: usize,
    ) -> QueueModel {
        match preparation.frame {
            None => self.without_frame(),
            Some(frame) => {
                let ready = QueueModel {
                    waiting_for_keyframe: self.waiting_for_keyframe && !(preparation.was_damaged
                        && !preparation.still_damaged),
                    ..self
                };
                if ready.waiting_for_keyframe {
                    if frame.idr() {
                        ready.with_frame(frame)
                    } else {
                        ready.without_frame()
                    }
                } else if frame_count(ready.items) >= max_decode_queue {
                    if frame.idr() {
                        ready.overrun().with_frame(frame)
                    } else {
                        let overrun = ready.overrun().without_frame();
                        QueueModel {
                            complete_frame_queue_drops:
                                overrun.complete_frame_queue_drops.saturating_add(1),
                            ..overrun
                        }
                    }
                } else {
                    ready.with_frame(frame)
                }
            },
        }
    }
}

impl DecodeQueue {
    pub fn new(capacity: usize) -> (r: DecodeQueue)
        ensures
            r@ == QueueModel::empty(),
    {
        DecodeQueue {
            items: VecDeque::with_capacity(capacity),
            waiting_for_keyframe: false,
            frames_predecode_dropped: 0,
            frames_waiting_keyframe_dropped: 0,
            keyframe_recovery_count: 0,
            complete_frame_queue_drops: 0,
            decode_queue_peak: 0,
            last_keyframe_id: None,
        }
    }

    /// How many frames wait.
    pub fn frame_len(&self) -> (r: usize)
        ensures
            r == frame_count(self@.items),
    {
        let mut count: usize = 0;
        let mut i: usize = 0;
        while i < self.items.len()
            invariant
                i <= self.items@.len(),
                count == frame_count(self.items@.take(i as int)),
                count <= i,
            decreases self.items@.len() - i,
        {
            assert(self.items@.take(i + 1).drop_last() =~= self.items@.take(i as int));
            if let DecodeQueueItem::Frame(_) = &self.items[i] {
                count = count + 1;
            }
            i = i + 1;
        }
        assert(self.items@.take(self.items@.len() as int) =~= self.items@);
        count
    }

    fn clear_to_reset(&mut self) -> (dropped: u64)
        ensures
            dropped == frame_count(old(self)@.items),
            final(self)@ == old(self)@.reset(),
    {
        let dropped: u64 = self.frame_len() as u64;
        self.frames_predecode_dropped = self.frames_predecode_dropped.saturating_add(dropped);
        self.items.clear();
        self.items.push_back(DecodeQueueItem::Reset);
        self.waiting_for_keyframe = true;
        assert(self.items@ =~= seq![DecodeQueueItem::Reset]);
        dropped
    }

    /// Drops what waits because the queue is full.
    pub fn begin_keyframe_recovery(&mut self)
        ensures
            final(self)@ == old(self)@.overrun(),
    {
        let dropped: u64 = self.clear_to_reset();
        self.complete_frame_queue_drops = self.complete_frame_queue_drops.saturating_add(dropped);
        self.keyframe_recovery_count = self.keyframe_recovery_count.saturating_add(1);
    }

    /// Drops what waits because a group of pictures is damaged, where `marked` says that the
    /// damage is new; returns how many frames are dropped.
    pub fn begin_damaged_gop_recovery(&mut self, marked: bool) -> (dropped: u64)
        ensures
            marked ==> final(self)@ == old(self)@.damaged() && dropped == frame_count(
                old(self)@.items,
            ),
            !marked ==> final(self)@ == old(self)@ && dropped == 0,
    {
        if !marked {
            return 0;
        }
        let dropped: u64 = self.clear_to_reset();
        self.frames_waiting_keyframe_dropped =
        self.frames_waiting_keyframe_dropped.saturating_add(dropped);
        self.keyframe_recovery_count = self.keyframe_recovery_count.saturating_add(1);
        dropped
    }

    /// Drops what waits because another profile begins.
    pub fn begin_profile_transition(&mut self)
        ensures
            final(self)@ == old(self)@.switched(),
    {
        let dropped: u64 = self.clear_to_reset();
        self.complete_frame_queue_drops = self.complete_frame_queue_drops.saturating_add(dropped);
    }

    fn drop_frame(&mut self)
        ensures
            final(self)@ == old(self)@.without_frame(),
    {
        self.frames_predecode_dropped = self.frames_predecode_dropped.saturating_add(1);
        self.frames_waiting_keyframe_dropped =
        self.frames_waiting_keyframe_dropped.saturating_add(1);
    }

    fn keep_frame(&mut self, frame: EncodedFrame)
        ensures
            final(self)@ == old(self)@.with_frame(frame),
    {
        if frame.is_idr() {
            self.last_keyframe_id = Some(frame.frame_id);
            self.waiting_for_keyframe = false;
        }
        self.items.push_back(DecodeQueueItem::Frame(frame));
        let frames: usize = self.frame_len();
        if frames > self.decode_queue_peak {
            self.decode_queue_peak = frames;
        }
    }

    /// Takes a frame in, or drops it.
    pub fn enqueue_frame(&mut self, preparation: FramePreparation, max_decode_queue: usize)
        ensures
            final(self)@ == old(self)@.offered(preparation, max_decode_queue),
    {
        let frame: EncodedFrame = match preparation.frame {
            Some(frame) => frame,
            None => {
                self.drop_frame();
                return ;
            },
        };
        if preparation.was_damaged && !preparation.still_damaged {
            self.waiting_for_keyframe = false;
        }
        if self.waiting_for_keyframe {
            if frame.is_idr() {
                self.keep_frame(frame);
            } else {
                self.drop_frame();
            }
            return ;
        }
        if self.frame_len() >= max_decode_queue {
            self.begin_keyframe_recovery();
            if !frame.is_idr() {
                self.drop_frame();
                self.complete_frame_queue_drops = self.complete_frame_queue_drops.saturating_add(1);
                return ;
            }
        }
        self.keep_frame(frame);
    }

    /// Takes everything out, in order.
    pub fn take_items(&mut self) -> (r: Vec<DecodeQueueItem>)
        ensures
            r@ == old(self)@.items,
            final(self)@ == (QueueModel { items: Seq::empty(), ..old(self)@ }),
    {
        let mut r: Vec<DecodeQueueItem> = Vec::new();
        let ghost all = self.items@;
        let ghost before = self@;
        while self.items.len() > 0
            invariant
                r@ + self.items@ == all,
                self@ == (QueueModel { items: self.items@, ..before }),
            decreases self.items@.len(),
        {
            let ghost rest = self.items@;
            let ghost taken = r@;
            if let Some(item) = self.items.pop_front() {
                r.push(item);
                assert(taken.push(rest[0]) + rest.skip(1) =~= taken + rest);
                assert(self.items@ =~= rest.skip(1));
            }
        }
        assert(r@ =~= all);
        assert(self.items@ =~= Seq::empty());
        r
    }
}

/// While the queue waits for a keyframe it holds no frame: every step keeps it well formed.
pub proof fn law_waiting_queue_holds_no_frame(
    queue: QueueModel,
    preparation: FramePreparation,
    max_decode_queue: usize,
)
    requires
        queue.well_formed(),
    ensures
        QueueModel::empty().well_formed(),
        queue.reset().well_formed(),
        queue.overrun().well_formed(),
        queue.damaged().well_formed(),
        queue.switched().well_formed(),
        queue.offered(preparation, max_decode_queue).well_formed(),
{
    lemma_frame_count_push(Seq::empty(), DecodeQueueItem::Reset);
    assert(Seq::<DecodeQueueItem>::empty().push(DecodeQueueItem::Reset) =~= seq![
        DecodeQueueItem::Reset,
    ]);
}

/// The queue never holds more frames than its limit, but for a single keyframe.
pub proof fn law_queue_is_bounded(
    queue: QueueModel,
    preparation: FramePreparation,
    max_decode_queue: usize,
)
    requires
        queue.well_formed(),
        frame_count(queue.items) <= max_decode_queue || frame_count(queue.items) <= 1,
    ensures
        ({
            let after = queue.offered(preparation, max_decode_queue);
            frame_count(after.items) <= max_decode_queue || frame_count(after.items) <= 1
        }),
{
    law_waiting_queue_holds_no_frame(queue, preparation, max_decode_queue);
    lemma_frame_count_push(Seq::empty(), DecodeQueueItem::Reset);
    assert(Seq::<DecodeQueueItem>::empty().push(DecodeQueueItem::Reset) =~= seq![
        DecodeQueueItem::Reset,
    ]);
    if let Some(frame) = preparation.frame {
        lemma_frame_count_push(queue.items, DecodeQueueItem::Frame(frame));
        lemma_frame_count_push(seq![DecodeQueueItem::Reset], DecodeQueueItem::Frame(frame));
    }
}

/// Every frame that comes is in the queue afterwards or counted as dropped, and so is
/// every frame that was in it.
pub proof fn law_every_frame_is_accounted_for(
    queue: QueueModel,
    preparation: FramePreparation,
    max_decode_queue: usize,
)
    requires
        queue.frames_predecode_dropped + frame_count(queue.items) < u64::MAX,
    ensures
        ({
            let after = queue.offered(preparation, max_decode_queue);
            frame_count(after.items) + after.frames_predecode_dropped == frame_count(queue.items)
                + queue.frames_predecode_dropped + 1
        }),
{
    lemma_frame_count_push(Seq::empty(), DecodeQueueItem::Reset);
    assert(Seq::<DecodeQueueItem>::empty().push(DecodeQueueItem::Reset) =~= seq![
        DecodeQueueItem::Reset,
    ]);
    if let Some(frame) = preparation.frame {
        lemma_frame_count_push(queue.items, DecodeQueueItem::Frame(frame));
        lemma_frame_count_push(seq![DecodeQueueItem::Reset], DecodeQueueItem::Frame(frame));
    }
}

/// While the queue waits for a keyframe and nothing says that the damage is over, only a
/// keyframe ends the wait, and every other frame is dropped.
pub proof fn law_only_a_keyframe_ends_the_wait(
    queue: QueueModel,
    preparation: FramePreparation,
    max_decode_queue: usize,
)
    requires
        queue.waiting_for_keyframe,
        !preparation.was_damaged || preparation.still_damaged,
    ensures
        ({
            let after = queue.offered(preparation, max_decode_queue);
            let keyframe = preparation.frame is Some && preparation.frame->0.idr();
            &&& after.waiting_for_keyframe == !keyframe
            &&& !keyframe ==> after.items == queue.items
        }),
{
}

/// The queue after `offers` came one by one and nothing was taken out.
pub open spec fn offered_all(
    offers: Seq<FramePreparation>,
    max_decode_queue: usize,
) -> QueueModel
    decreases offers.len(),
{
    if offers.len() == 0 {
        QueueModel::empty()
    } else {
        offered_all(offers.drop_last(), max_decode_queue).offered(offers.last(), max_decode_queue)
    }
}

/// The frames among `items`, in their order.
pub open spec fn frames_in(items: Seq<DecodeQueueItem>) -> Seq<EncodedFrame>
    decreases items.len(),
{
    if items.len() == 0 {
        Seq::empty()
    } else {
        match items.last() {
            DecodeQueueItem::Frame(frame) => frames_in(items.drop_last()).push(frame),
            DecodeQueueItem::Reset => frames_in(items.drop_last()),
        }
    }
}

/// Only the first of `items` may be a reset.
pub open spec fn reset_leads(items: Seq<DecodeQueueItem>) -> bool {
    forall|i: int| 0 < i < items.len() ==> (#[trigger] items[i]) is Frame
}

/// What follows a reset is a keyframe.
pub open spec fn keyframe_follows(items: Seq<DecodeQueueItem>) -> bool {
    items.len() > 1 && items[0] is Reset ==> items[1] is Frame && (items[1]->Frame_0).idr()
}

impl QueueModel {
    /// A reset stands first or nowhere, and behind it a keyframe or nothing, for which the
    /// queue then waits.
    pub open spec fn in_order(self) -> bool {
        &&& reset_leads(self.items)
        &&& keyframe_follows(self.items)
        &&& self.items == seq![DecodeQueueItem::Reset] ==> self.waiting_for_keyframe
    }
}

/// Where the watch says that damage is over, the frame is a keyframe.
pub open spec fn heals_at_keyframes(offers: Seq<FramePreparation>) -> bool {
    forall|i: int|
        0 <= i < offers.len() && (#[trigger] offers[i]).was_damaged && !offers[i].still_damaged
            && offers[i].frame is Some ==> (offers[i].frame->0).idr()
}

/// `positions` are ascending positions in `offers`, at which `frames` stand.
pub open spec fn selects(
    positions: Seq<int>,
    offers: Seq<FramePreparation>,
    frames: Seq<EncodedFrame>,
) -> bool {
    &&& positions.len() == frames.len()
    &&& forall|i: int, j: int|
        0 <= i < j < positions.len() ==> #[trigger] positions[i] < #[trigger] positions[j]
    &&& forall|i: int|
        0 <= i < positions.len() ==> {
            &&& 0 <= #[trigger] positions[i] < offers.len()
            &&& offers[positions[i]].frame == Some(frames[i])
        }
}

proof fn lemma_only_reset()
    ensures
        frame_count(seq![DecodeQueueItem::Reset]) == 0,
        frames_in(seq![DecodeQueueItem::Reset]) == Seq::<EncodedFrame>::empty(),
{
    let empty = Seq::<DecodeQueueItem>::empty();
    let only = seq![DecodeQueueItem::Reset];
    assert(only.drop_last() =~= empty);
    assert(frame_count(empty) == 0);
    assert(frames_in(empty) == Seq::<EncodedFrame>::empty());
}

proof fn lemma_frames_in_push(items: Seq<DecodeQueueItem>, frame: EncodedFrame)
    ensures
        frames_in(items.push(DecodeQueueItem::Frame(frame))) == frames_in(items).push(frame),
        frame_count(items.push(DecodeQueueItem::Frame(frame))) == frame_count(items) + 1,
{
    assert(items.push(DecodeQueueItem::Frame(frame)).drop_last() =~= items);
}

/// However many frames come, with nothing taken out: the queue holds no more frames than
/// its limit, none while it waits for a keyframe, and every frame that came is either in
/// it or counted as dropped.
pub proof fn law_run_of_frames_is_accounted_for(
    offers: Seq<FramePreparation>,
    max_decode_queue: usize,
)
    requires
        max_decode_queue >= 1,
        offers.len() <= u64::MAX,
    ensures
        ({
            let queue = offered_all(offers, max_decode_queue);
            &&& frame_count(queue.items) <= max_decode_queue
            &&& frame_count(queue.items) + queue.frames_predecode_dropped == offers.len()
            &&& queue.waiting_for_keyframe ==> frame_count(queue.items) == 0
        }),
    decreases offers.len(),
{
    if offers.len() > 0 {
        let front = offers.drop_last();
        law_run_of_frames_is_accounted_for(front, max_decode_queue);
        let before = offered_all(front, max_decode_queue);
        law_waiting_queue_holds_no_frame(before, offers.last(), max_decode_queue);
        law_queue_is_bounded(before, offers.last(), max_decode_queue);
        law_every_frame_is_accounted_for(before, offers.last(), max_decode_queue);
    }
}

/// A reset stands first in the queue and nowhere else, and where damage ends at keyframes
/// only, the frame after it is a keyframe.
pub proof fn law_reset_stands_before_a_keyframe(
    offers: Seq<FramePreparation>,
    max_decode_queue: usize,
)
    ensures
        ({
            let queue = offered_all(offers, max_decode_queue);
            &&& reset_leads(queue.items)
            &&& heals_at_keyframes(offers) ==> queue.in_order()
        }),
    decreases offers.len(),
{
    if offers.len() > 0 {
        let front = offers.drop_last();
        law_reset_stands_before_a_keyframe(front, max_decode_queue);
        let before = offered_all(front, max_decode_queue);
        let after = offered_all(offers, max_decode_queue);
        if heals_at_keyframes(offers) {
            assert(offers.last() == offers[offers.len() - 1]);
            assert forall|i: int|
                0 <= i < front.len() && (#[trigger] front[i]).was_damaged
                    && !front[i].still_damaged && front[i].frame is Some implies (
            front[i].frame->0).idr() by {
                assert(front[i] == offers[i]);
            }
            if before.items.len() == 1 && before.items[0] is Reset {
                assert(before.items =~= seq![DecodeQueueItem::Reset]);
            }
        }
        assert(seq![DecodeQueueItem::Reset].len() == 1);
    }
}

/// Whatever happens to the queue, a reset stays first, with a keyframe or nothing behind
/// it: frames that come, a recovery, another profile, and taking everything out.
pub proof fn law_every_step_keeps_the_reset_first(
    queue: QueueModel,
    preparation: FramePreparation,
    max_decode_queue: usize,
)
    requires
        queue.in_order(),
        heals_at_keyframes(seq![preparation]),
    ensures
        QueueModel::empty().in_order(),
        queue.overrun().in_order(),
        queue.damaged().in_order(),
        queue.switched().in_order(),
        queue.offered(preparation, max_decode_queue).in_order(),
        (QueueModel { items: Seq::empty(), ..queue }).in_order(),
{
    assert(seq![preparation][0] == preparation);
    if queue.items.len() == 1 && queue.items[0] is Reset {
        assert(queue.items =~= seq![DecodeQueueItem::Reset]);
    }
    assert(seq![DecodeQueueItem::Reset].len() == 1);
    assert(Seq::<DecodeQueueItem>::empty().len() == 0);
}

/// The frames that are kept stand in the order in which they came.
pub proof fn law_kept_frames_stay_in_order(
    offers: Seq<FramePreparation>,
    max_decode_queue: usize,
)
    ensures
        exists|positions: Seq<int>| #[trigger]
            selects(positions, offers, frames_in(offered_all(offers, max_decode_queue).items)),
    decreases offers.len(),
{
    let kept = frames_in(offered_all(offers, max_decode_queue).items);
    if offers.len() == 0 {
        assert(selects(Seq::empty(), offers, kept));
    } else {
        let front = offers.drop_last();
        let last = offers.len() - 1;
        law_kept_frames_stay_in_order(front, max_decode_queue);
        let before = offered_all(front, max_decode_queue);
        let earlier = choose|positions: Seq<int>| #[trigger]
            selects(positions, front, frames_in(before.items));
        lemma_only_reset();
        assert(selects(earlier, offers, frames_in(before.items))) by {
            assert forall|i: int| 0 <= i < earlier.len() implies {
                &&& 0 <= #[trigger] earlier[i] < offers.len()
                &&& offers[earlier[i]].frame == Some(frames_in(before.items)[i])
            } by {
                assert(front[earlier[i]] == offers[earlier[i]]);
            }
        }
        assert(selects(Seq::empty(), offers, Seq::empty()));
        if let Some(frame) = offers.last().frame {
            lemma_frames_in_push(before.items, frame);
            lemma_frames_in_push(seq![DecodeQueueItem::Reset], frame);
            assert(selects(earlier.push(last), offers, frames_in(before.items).push(frame)));
            assert(selects(
                Seq::<int>::empty().push(last),
                offers,
                Seq::<EncodedFrame>::empty().push(frame),
            ));
        }
    }
}

/// The peak is the largest number of frames that waited at any moment of the run.
pub proof fn law_peak_is_the_longest_queue(
    offers: Seq<FramePreparation>,
    max_decode_queue: usize,
)
    requires
        max_decode_queue >= 1,
        offers.len() <= u64::MAX,
    ensures
        forall|k: int|
            0 <= k <= offers.len() ==> frame_count(
                (#[trigger] offered_all(offers.take(k), max_decode_queue)).items,
            ) <= offered_all(offers, max_decode_queue).decode_queue_peak,
        exists|k: int|
            0 <= k <= offers.len() && frame_count(
                (#[trigger] offered_all(offers.take(k), max_decode_queue)).items,
            ) == offered_all(offers, max_decode_queue).decode_queue_peak,
    decreases offers.len(),
{
    let n = offers.len() as int;
    let after = offered_all(offers, max_decode_queue);
    assert(offers.take(n) =~= offers);
    law_run_of_frames_is_accounted_for(offers, max_decode_queue);
    if n > 0 {
        let front = offers.drop_last();
        let before = offered_all(front, max_decode_queue);
        law_peak_is_the_longest_queue(front, max_decode_queue);
        law_run_of_frames_is_accounted_for(front, max_decode_queue);
        lemma_only_reset();
        if let Some(frame) = offers.last().frame {
            lemma_frames_in_push(before.items, frame);
            lemma_frames_in_push(seq![DecodeQueueItem::Reset], frame);
        }
        assert(before.decode_queue_peak <= after.decode_queue_peak);
        assert(frame_count(before.items) <= before.decode_queue_peak) by {
            assert(front.take(n - 1) =~= front);
        }
        assert forall|k: int| 0 <= k <= n implies frame_count(
            (#[trigger] offered_all(offers.take(k), max_decode_queue)).items,
        ) <= after.decode_queue_peak by {
            if k < n {
                assert(front.take(k) =~= offers.take(k));
            }
        }
        if after.decode_queue_peak == before.decode_queue_peak {
            let k = choose|k: int|
                0 <= k <= front.len() && frame_count(
                    (#[trigger] offered_all(front.take(k), max_decode_queue)).items,
                ) == before.decode_queue_peak;
            assert(front.take(k) =~= offers.take(k));
            assert(frame_count(offered_all(offers.take(k), max_decode_queue).items)
                == after.decode_queue_peak);
        } else {
            assert(frame_count(offered_all(offers.take(n), max_decode_queue).items)
                == after.decode_queue_peak);
        }
    } else {
        assert(frame_count(offered_all(offers.take(0), max_decode_queue).items)
            == after.decode_queue_peak);
    }
}

// The decoder.

/// The size of a picture.
#[derive(Clone, Copy, Debug, PartialEq, Eq, Structural)]
pub struct VideoDimensions {
    pub width: u32,
    pub height: u32,
}

/// What the decoder did so far.
#[derive(Clone, Copy, Debug, PartialEq, Eq, Structural)]
pub struct DecodeCounters {
    pub frames_decoded: u64,
    pub frames_decoder_input: u64,
    pub frames_waiting_keyframe_dropped: u64,
    pub keyframe_recovery_count: u64,
    pub decoder_errors: u64,
    pub decoder_resets: u64,
}

/// The state of the decoder.
#[derive(Clone, Copy, Debug, PartialEq, Eq, Structural)]
pub struct DecodeState {
    pub has_decoder: bool,
    pub dimensions: Option<VideoDimensions>,
    pub waiting_for_keyframe: bool,
    pub input_index: u64,
    pub last_keyframe_id: Option<u64>,
    pub next_render_generation: u64,
    pub counters: DecodeCounters,
}

/// What has to be done with a frame.
#[derive(Clone, Copy, Debug, PartialEq, Eq, Structural)]
pub enum DecodeStep {
    Drop,
    /// A decoder has to be made for the size that the frame gives.
    MakeDecoder,
    /// The frame goes into the decoder, with this index.
    Decode(u64),
}

/// How making a decoder went.
#[derive(Clone, Copy, Debug, PartialEq, Eq, Structural)]
pub enum DecoderSetup {
    /// The frame does not tell its size.
    NoSize,
    Failed,
    Ready(VideoDimensions),
}

impl DecodeState {
    pub open spec fn initial() -> DecodeState {
        DecodeState {
            has_decoder: false,
            dimensions: None,
            waiting_for_keyframe: true,
            input_index: 0,
            last_keyframe_id: None,
            next_render_generation: 0,
            counters: DecodeCounters {
                frames_decoded: 0,
                frames_decoder_input: 0,
                frames_waiting_keyframe_dropped: 0,
                keyframe_recovery_count: 0,
                decoder_errors: 0,
                decoder_resets: 0,
            },
        }
    }

    pub fn new() -> (r: DecodeState)
        ensures
            r == Self::initial(),
    {
        DecodeState {
            has_decoder: false,
            dimensions: None,
            waiting_for_keyframe: true,
            input_index: 0,
            last_keyframe_id: None,
            next_render_generation: 0,
            counters: DecodeCounters {
                frames_decoded: 0,
                frames_decoder_input: 0,
                frames_waiting_keyframe_dropped: 0,
                keyframe_recovery_count: 0,
                decoder_errors: 0,
                decoder_resets: 0,
            },
        }
    }

    /// The decoder is given up, and the next one starts at a keyframe.
    pub open spec fn discontinued(self, count_recovery: bool) -> DecodeState {
        DecodeState {
            has_decoder: false,
            waiting_for_keyframe: true,
            input_index: 0,
            last_keyframe_id: None,
            counters: DecodeCounters {
                decoder_resets: if self.has_decoder {
                    self.counters.decoder_resets.saturating_add(1)
                } else {
                    self.counters.decoder_resets
                },
                keyframe_recovery_count: if count_recovery {
                    self.counters.keyframe_recovery_count.saturating_add(1)
                } else {
                    self.counters.keyframe_recovery_count
                },
                ..self.counters
            },
            ..self
        }
    }

    /// Gives the decoder up.
    pub fn mark_discontinuity(&mut self, count_recovery: bool)
        ensures
            *final(self) == old(self).discontinued(count_recovery),
    {
        if self.has_decoder {
            self.has_decoder = false;
            self.counters.decoder_resets = self.counters.decoder_resets.saturating_add(1);
        }
        if count_recovery {
            self.counters.keyframe_recovery_count =
            self.counters.keyframe_recovery_count.saturating_add(1);
        }
        self.waiting_for_keyframe = true;
        self.input_index = 0;
        self.last_keyframe_id = None;
    }

    /// A frame is dropped because no keyframe came yet.
    pub open spec fn without_frame(self) -> DecodeState {
        DecodeState {
            counters: DecodeCounters {
                frames_waiting_keyframe_dropped:
                    self.counters.frames_waiting_keyframe_dropped.saturating_add(1),
                ..self.counters
            },
            ..self
        }
    }

    /// The frame is handed to the decoder, or dropped where there is none.
    pub open spec fn fed(self) -> (DecodeState, DecodeStep) {
        if self.has_decoder {
            (
                DecodeState {
                    counters: DecodeCounters {
                        frames_decoder_input: self.counters.frames_decoder_input.saturating_add(1),
                        ..self.counters
                    },
                    ..self
                },
                DecodeStep::Decode(self.input_index),
            )
        } else {
            (
                DecodeState { waiting_for_keyframe: true, ..self.without_frame() },
                DecodeStep::Drop,
            )
        }
    }

    /// What is done with a frame, and the state then.
    pub open spec fn with_frame(self, frame_id: u64, idr: bool) -> (DecodeState, DecodeStep) {
        let seen = DecodeState {
            last_keyframe_id: if idr {
                Some(frame_id)
            } else {
                self.last_keyframe_id
            },
            ..self
        };
        if self.waiting_for_keyframe {
            if idr {
                (seen, DecodeStep::MakeDecoder)
            } else {
                (seen.without_frame(), DecodeStep::Drop)
            }
        } else {
            seen.fed()
        }
    }

    /// Decides what is done with a frame.
    pub fn offer_frame(&mut self, frame_id: u64, idr: bool) -> (step: DecodeStep)
        ensures
            (*final(self), step) == old(self).with_frame(frame_id, idr),
    {
        if idr {
            self.last_keyframe_id = Some(frame_id);
        }
        if self.waiting_for_keyframe {
            if idr {
                return DecodeStep::MakeDecoder;
            }
            self.drop_frame();
            return DecodeStep::Drop;
        }
        self.feed()
    }

    fn drop_frame(&mut self)
        ensures
            *final(self) == old(self).without_frame(),
    {
        self.counters.frames_waiting_keyframe_dropped =
        self.counters.frames_waiting_keyframe_dropped.saturating_add(1);
    }

    fn feed(&mut self) -> (step: DecodeStep)
        ensures
            (*final(self), step) == old(self).fed(),
    {
        if !self.has_decoder {
            self.drop_frame();
            self.waiting_for_keyframe = true;
            return DecodeStep::Drop;
        }
        self.counters.frames_decoder_input = self.counters.frames_decoder_input.saturating_add(1);
        DecodeStep::Decode(self.input_index)
    }

    /// What is done with a keyframe once a decoder was to be made, and the state then.
    pub open spec fn with_decoder(self, frame_id: u64, setup: DecoderSetup) -> (
        DecodeState,
        DecodeStep,
    ) {
        match setup {
            DecoderSetup::NoSize => (self.without_frame(), DecodeStep::Drop),
            DecoderSetup::Failed => (
                DecodeState {
                    counters: DecodeCounters {
                        decoder_errors: self.counters.decoder_errors.saturating_add(1),
                        ..self.counters
                    },
                    ..self
                },
                DecodeStep::Drop,
            ),
            DecoderSetup::Ready(dimensions) => DecodeState {
                has_decoder: true,
                dimensions: Some(dimensions),
                waiting_for_keyframe: false,
                input_index: 0,
                last_keyframe_id: Some(frame_id),
                ..self
            }.fed(),
        }
    }

    /// Goes on with a keyframe once a decoder was to be made.
    pub fn decoder_made(&mut self, frame_id: u64, setup: DecoderSetup) -> (step: DecodeStep)
        ensures
            (*final(self), step) == old(self).with_decoder(frame_id, setup),
    {
        match setup {
            DecoderSetup::NoSize => {
                self.drop_frame();
                DecodeStep::Drop
            },
            DecoderSetup::Failed => {
                self.counters.decoder_errors = self.counters.decoder_errors.saturating_add(1);
                DecodeStep::Drop
            },
            DecoderSetup::Ready(dimensions) => {
                self.has_decoder = true;
                self.dimensions = Some(dimensions);
                self.waiting_for_keyframe = false;
                self.input_index = 0;
                self.last_keyframe_id = Some(frame_id);
                self.feed()
            },
        }
    }

    /// The state once the decoder has taken a frame and given `pictures`, or refused it.
    pub open spec fn after_decoding(self, pictures: Option<u64>) -> DecodeState {
        match pictures {
            Some(n) => DecodeState {
                input_index: self.input_index.saturating_add(1),
                counters: DecodeCounters {
                    frames_decoded: self.counters.frames_decoded.saturating_add(n),
                    ..self.counters
                },
                ..self
            },
            None => DecodeState {
                counters: DecodeCounters {
                    decoder_errors: self.counters.decoder_errors.saturating_add(1),
                    ..self.counters
                },
                ..self
            }.discontinued(true),
        }
    }

    /// Notes what the decoder gave for a frame; `None` where it refused it.
    pub fn frame_decoded(&mut self, pictures: Option<u64>)
        ensures
            *final(self) == old(self).after_decoding(pictures),
    {
        match pictures {
            Some(n) => {
                self.input_index = self.input_index.saturating_add(1);
                self.counters.frames_decoded = self.counters.frames_decoded.saturating_add(n);
            },
            None => {
                self.counters.decoder_errors = self.counters.decoder_errors.saturating_add(1);
                self.mark_discontinuity(true);
            },
        }
    }

    /// Counts a picture that goes to the renderer, and gives it its number.
    pub fn next_generation(&mut self) -> (generation: u64)
        ensures
            generation == old(self).next_render_generation.saturating_add(1),
            *final(self) == (DecodeState { next_render_generation: generation, ..*old(self) }),
    {
        self.next_render_generation = self.next_render_generation.saturating_add(1);
        self.next_render_generation
    }
}

/// Nothing but a keyframe that tells its size reaches a new decoder.
pub proof fn law_decoding_starts_at_a_keyframe(
    state: DecodeState,
    frame_id: u64,
    idr: bool,
    setup: DecoderSetup,
)
    requires
        state.waiting_for_keyframe,
    ensures
        !idr ==> state.with_frame(frame_id, idr).1 == DecodeStep::Drop,
        !(state.with_frame(frame_id, idr).1 is Decode),
        state.with_decoder(frame_id, setup).1 is Decode ==> setup is Ready,
        setup is Ready ==> state.with_decoder(frame_id, setup).1 == DecodeStep::Decode(0),
{
}

/// A queue that has room and waits for nothing keeps every frame that may be decoded, behind
/// all others, and counts nothing as dropped.
pub proof fn law_queue_with_room_keeps_every_frame(
    queue: QueueModel,
    preparation: FramePreparation,
    max_decode_queue: usize,
)
    requires
        !queue.waiting_for_keyframe,
        frame_count(queue.items) < max_decode_queue,
        preparation.frame is Some,
    ensures
        ({
            let frame = preparation.frame->0;
            let after = queue.offered(preparation, max_decode_queue);
            &&& after.items == queue.items.push(DecodeQueueItem::Frame(frame))
            &&& !after.waiting_for_keyframe
            &&& after.frames_predecode_dropped == queue.frames_predecode_dropped
            &&& after.frames_waiting_keyframe_dropped == queue.frames_waiting_keyframe_dropped
            &&& after.complete_frame_queue_drops == queue.complete_frame_queue_drops
            &&& after.keyframe_recovery_count == queue.keyframe_recovery_count
            &&& frame.flags & 0x01 != 0 ==> after.last_keyframe_id == Some(frame.frame_id)
            &&& frame.flags & 0x01 == 0 ==> after.last_keyframe_id == queue.last_keyframe_id
        }),
{
}

/// A full queue is emptied by the next frame and the decoder starts anew: with that frame
/// where it is a keyframe, and otherwise with the keyframe that is then waited for.
pub proof fn law_full_queue_starts_anew(
    queue: QueueModel,
    preparation: FramePreparation,
    max_decode_queue: usize,
)
    requires
        !queue.waiting_for_keyframe,
        frame_count(queue.items) >= max_decode_queue,
        preparation.frame is Some,
        queue.keyframe_recovery_count < u64::MAX,
    ensures
        ({
            let frame = preparation.frame->0;
            let after = queue.offered(preparation, max_decode_queue);
            &&& after.keyframe_recovery_count == queue.keyframe_recovery_count + 1
            &&& frame.flags & 0x01 != 0 ==> !after.waiting_for_keyframe && after.items == seq![
                DecodeQueueItem::Reset,
                DecodeQueueItem::Frame(frame),
            ]
            &&& frame.flags & 0x01 == 0 ==> after.waiting_for_keyframe && after.items == seq![
                DecodeQueueItem::Reset,
            ]
        }),
{
    let frame = preparation.frame->0;
    assert(seq![DecodeQueueItem::Reset].push(DecodeQueueItem::Frame(frame)) =~= seq![
        DecodeQueueItem::Reset,
        DecodeQueueItem::Frame(frame),
    ]);
}

/// A keyframe that is waited for is kept behind whatever waits, and ends the wait.
pub proof fn law_awaited_keyframe_is_kept(
    queue: QueueModel,
    preparation: FramePreparation,
    max_decode_queue: usize,
)
    requires
        queue.well_formed(),
        queue.waiting_for_keyframe,
        max_decode_queue >= 1,
        preparation.frame is Some,
        (preparation.frame->0).flags & 0x01 != 0,
    ensures
        ({
            let after = queue.offered(preparation, max_decode_queue);
            &&& after.items == queue.items.push(DecodeQueueItem::Frame(preparation.frame->0))
            &&& !after.waiting_for_keyframe
            &&& after.frames_predecode_dropped == queue.frames_predecode_dropped
            &&& after.last_keyframe_id == Some((preparation.frame->0).frame_id)
        }),
{
}

/// A recovery, of whatever kind, leaves nothing but the order to start anew, and waits for a
/// keyframe; what waited is counted as dropped.
pub proof fn law_recovery_drops_what_waits(queue: QueueModel)
    requires
        queue.frames_predecode_dropped + frame_count(queue.items) <= u64::MAX,
        queue.keyframe_recovery_count < u64::MAX,
    ensures
        forall|after: QueueModel|
            after == queue.overrun() || after == queue.damaged() || after == queue.switched()
                ==> {
                &&& (#[trigger] after.items) == seq![DecodeQueueItem::Reset]
                &&& after.waiting_for_keyframe
                &&& after.frames_predecode_dropped == queue.frames_predecode_dropped
                    + frame_count(queue.items)
            },
        queue.overrun().keyframe_recovery_count == queue.keyframe_recovery_count + 1,
        queue.damaged().keyframe_recovery_count == queue.keyframe_recovery_count + 1,
        queue.switched().keyframe_recovery_count == queue.keyframe_recovery_count,
{
}

/// A decoder that runs gets every frame, keyframe or not, and nothing is dropped.
pub proof fn law_running_decoder_gets_every_frame(state: DecodeState, frame_id: u64, idr: bool)
    requires
        state.has_decoder,
        !state.waiting_for_keyframe,
    ensures
        ({
            let (after, step) = state.with_frame(frame_id, idr);
            &&& step == DecodeStep::Decode(state.input_index)
            &&& after.has_decoder
            &&& !after.waiting_for_keyframe
            &&& after.input_index == state.input_index
            &&& after.dimensions == state.dimensions
            &&& after.last_keyframe_id == if idr {
                Some(frame_id)
            } else {
                state.last_keyframe_id
            }
            &&& state.counters.frames_decoder_input < u64::MAX
                ==> after.counters.frames_decoder_input == state.counters.frames_decoder_input + 1
            &&& after.counters.frames_waiting_keyframe_dropped
                == state.counters.frames_waiting_keyframe_dropped
            &&& after.counters.decoder_errors == state.counters.decoder_errors
            &&& after.counters.decoder_resets == state.counters.decoder_resets
            &&& after.counters.keyframe_recovery_count == state.counters.keyframe_recovery_count
        }),
{
}

/// A decoder that was given `frames`, each with its number and whether it is a keyframe, and
/// gave a picture for each.
pub open spec fn decoded_all(state: DecodeState, frames: Seq<(u64, bool)>) -> DecodeState
    decreases frames.len(),
{
    if frames.len() == 0 {
        state
    } else {
        decoded_all(state, frames.drop_last()).with_frame(
            frames.last().0,
            frames.last().1,
        ).0.after_decoding(Some(1))
    }
}

/// From the keyframe for which a decoder was made on, every frame of a run is decoded with
/// its place in the run, and as many are counted.
pub proof fn law_run_is_decoded_in_order(
    waiting: DecodeState,
    keyframe_id: u64,
    dimensions: VideoDimensions,
    frames: Seq<(u64, bool)>,
    frame_id: u64,
    idr: bool,
)
    requires
        waiting.waiting_for_keyframe,
        waiting.counters.frames_decoder_input + frames.len() + 2 <= u64::MAX,
        waiting.counters.frames_decoded + frames.len() + 1 <= u64::MAX,
    ensures
        waiting.with_frame(keyframe_id, true).1 == DecodeStep::MakeDecoder,
        ({
            let asked = waiting.with_frame(keyframe_id, true).0;
            let (made, step) = asked.with_decoder(keyframe_id, DecoderSetup::Ready(dimensions));
            let run = decoded_all(made.after_decoding(Some(1)), frames);
            &&& step == DecodeStep::Decode(0)
            &&& run.with_frame(frame_id, idr).1 == DecodeStep::Decode((frames.len() + 1) as u64)
            &&& run.dimensions == Some(dimensions)
            &&& run.counters.frames_decoder_input == waiting.counters.frames_decoder_input
                + frames.len() + 1
            &&& run.counters.frames_decoded == waiting.counters.frames_decoded + frames.len() + 1
            &&& run.counters.frames_waiting_keyframe_dropped
                == waiting.counters.frames_waiting_keyframe_dropped
        }),
{
    let asked = waiting.with_frame(keyframe_id, true).0;
    let made = asked.with_decoder(keyframe_id, DecoderSetup::Ready(dimensions)).0;
    lemma_decoded_all(made.after_decoding(Some(1)), frames);
}

proof fn lemma_decoded_all(state: DecodeState, frames: Seq<(u64, bool)>)
    requires
        state.has_decoder,
        !state.waiting_for_keyframe,
        state.input_index + frames.len() <= u64::MAX,
        state.counters.frames_decoder_input + frames.len() <= u64::MAX,
        state.counters.frames_decoded + frames.len() <= u64::MAX,
    ensures
        ({
            let run = decoded_all(state, frames);
            &&& run.has_decoder
            &&& !run.waiting_for_keyframe
            &&& run.input_index == state.input_index + frames.len()
            &&& run.dimensions == state.dimensions
            &&& run.counters.frames_decoder_input == state.counters.frames_decoder_input
                + frames.len()
            &&& run.counters.frames_decoded == state.counters.frames_decoded + frames.len()
            &&& run.counters.frames_waiting_keyframe_dropped
                == state.counters.frames_waiting_keyframe_dropped
        }),
    decreases frames.len(),
{
    if frames.len() > 0 {
        lemma_decoded_all(state, frames.drop_last());
    }
}

/// A frame that cannot be decoded is dropped and counted: without a keyframe, without a
/// decoder, where the keyframe does not tell its size, and where no decoder can be made.  In
/// every case a keyframe is waited for.
pub proof fn law_undecodable_frames_are_dropped(state: DecodeState, frame_id: u64)
    requires
        state.counters.frames_waiting_keyframe_dropped < u64::MAX,
        state.counters.decoder_errors < u64::MAX,
    ensures
        state.waiting_for_keyframe || !state.has_decoder ==> {
            let (after, step) = state.with_frame(frame_id, false);
            &&& step == DecodeStep::Drop
            &&& after.waiting_for_keyframe
            &&& after.counters.frames_waiting_keyframe_dropped
                == state.counters.frames_waiting_keyframe_dropped + 1
            &&& after.counters.frames_decoder_input == state.counters.frames_decoder_input
        },
        state.waiting_for_keyframe ==> {
            let (sizeless, step) = state.with_decoder(frame_id, DecoderSetup::NoSize);
            let (failed, failed_step) = state.with_decoder(frame_id, DecoderSetup::Failed);
            &&& step == DecodeStep::Drop
            &&& failed_step == DecodeStep::Drop
            &&& sizeless.waiting_for_keyframe
            &&& failed.waiting_for_keyframe
            &&& sizeless.has_decoder == state.has_decoder
            &&& sizeless.counters.frames_waiting_keyframe_dropped
                == state.counters.frames_waiting_keyframe_dropped + 1
            &&& failed.counters.decoder_errors == state.counters.decoder_errors + 1
            &&& failed.counters.frames_waiting_keyframe_dropped
                == state.counters.frames_waiting_keyframe_dropped
        },
{
}

/// Where a frame is refused or the stream breaks off, the decoder is given up once, and
/// nothing but a keyframe gets a new one.
pub proof fn law_broken_stream_needs_a_keyframe(
    state: DecodeState,
    count_recovery: bool,
    frame_id: u64,
    idr: bool,
)
    requires
        state.counters.decoder_resets < u64::MAX,
        state.counters.decoder_errors < u64::MAX,
        state.counters.keyframe_recovery_count < u64::MAX,
    ensures
        ({
            let broken = state.discontinued(count_recovery);
            &&& broken.with_frame(frame_id, idr).1 == if idr {
                DecodeStep::MakeDecoder
            } else {
                DecodeStep::Drop
            }
            &&& !broken.has_decoder
            &&& broken.last_keyframe_id is None
            &&& broken.counters.decoder_resets == state.counters.decoder_resets
                + if state.has_decoder {
                1int
            } else {
                0
            }
            &&& broken.counters.keyframe_recovery_count == state.counters.keyframe_recovery_count
                + if count_recovery {
                1int
            } else {
                0
            }
            &&& broken.discontinued(false) == broken
        }),
        ({
            let refused = state.after_decoding(None);
            &&& !refused.has_decoder
            &&& refused.waiting_for_keyframe
            &&& refused.counters.decoder_errors == state.counters.decoder_errors + 1
            &&& refused.counters.keyframe_recovery_count
                == state.counters.keyframe_recovery_count + 1
            &&& refused.counters.frames_decoded == state.counters.frames_decoded
        }),
{
}

/// A frame that is not kept is counted as dropped before decoding and while a keyframe was
/// awaited, and what waits stays as it is.
pub proof fn law_missed_frames_are_counted(
    queue: QueueModel,
    preparation: FramePreparation,
    max_decode_queue: usize,
)
    requires
        queue.frames_predecode_dropped < u64::MAX,
        queue.frames_waiting_keyframe_dropped < u64::MAX,
        preparation.frame is None || (queue.waiting_for_keyframe && !(preparation.was_damaged
            && !preparation.still_damaged) && !(preparation.frame->0).idr()),
    ensures
        ({
            let after = queue.offered(preparation, max_decode_queue);
            &&& after.frames_predecode_dropped == queue.frames_predecode_dropped + 1
            &&& after.frames_waiting_keyframe_dropped == queue.frames_waiting_keyframe_dropped + 1
            &&& after.items == queue.items
            &&& after.waiting_for_keyframe == queue.waiting_for_keyframe
        }),
{
}

} // verus!
