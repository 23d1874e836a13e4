//! Streams without a camera: a sender that sends made-up frames at a steady pace, and a
//! receiver that puts them together and counts.
//!
//! Times are nanoseconds of a monotonic clock, unless their names say otherwise.
//! Counters stop at their maximum.

use vstd::prelude::*;

use crate::json;
use crate::json::{Fragment, Member, Value};
use crate::media_packet;
use crate::media_packet::{
    build_frame_packets, MediaPacket, MAX_VIDEO_FRAME_BYTES, STREAM_VIDEO,
};
use crate::reassembler;
use crate::reassembler::{Reassembler, ReassemblerModel, ReceiverStats};

verus! {

/// How often a stream reports what it counts.
pub const REPORT_INTERVAL: u64 = 1_000_000_000;

/// A number that tells sessions apart: the time and the process that begin it.
pub fn make_session_id(now_ms: u64, process_id: u32) -> (r: u64)
    ensures
        r == now_ms ^ ((process_id as u64) << 32u64),
{
    now_ms ^ ((process_id as u64) << 32u64)
}

/// What a stream has sent or received since its last report, and how long that took.
#[derive(Clone, Copy, Debug, PartialEq, Eq, Structural)]
pub struct WindowReport {
    pub bytes: u64,
    pub frames: u64,
    pub elapsed: u64,
}

/// Whether a report is due.
pub open spec fn report_due(stats_at: u64, now: u64) -> bool {
    now.saturating_sub(stats_at) >= REPORT_INTERVAL
}

// Sending.

/// A sender of made-up frames.
#[derive(Clone, Copy, Debug, PartialEq, Eq, Structural)]
pub struct SyntheticSender {
    pub session_id: u64,
    pub fps: u32,
    pub bytes_per_frame: usize,
    pub frame_id: u64,
    pub packets_sent: u64,
    pub frames_sent: u64,
    pub window_frames: u64,
    pub window_bytes: u64,
    pub next_frame_at: u64,
    pub stats_at: u64,
}

impl SyntheticSender {
    /// There is a frame rate.
    pub open spec fn inv(self) -> bool {
        self.fps > 0
    }

    pub open spec fn begun(
        session_id: u64,
        fps: u32,
        bytes_per_frame: usize,
        now: u64,
    ) -> SyntheticSender {
        SyntheticSender {
            session_id,
            fps,
            bytes_per_frame,
            frame_id: 0,
            packets_sent: 0,
            frames_sent: 0,
            window_frames: 0,
            window_bytes: 0,
            next_frame_at: now,
            stats_at: now,
        }
    }

    /// A sender whose first frame is due now.
    pub fn new(session_id: u64, fps: u32, bytes_per_frame: usize, now: u64) -> (r: SyntheticSender)
        requires
            fps > 0,
        ensures
            r == Self::begun(session_id, fps, bytes_per_frame, now),
            r.inv(),
    {
        SyntheticSender {
            session_id,
            fps,
            bytes_per_frame,
            frame_id: 0,
            packets_sent: 0,
            frames_sent: 0,
            window_frames: 0,
            window_bytes: 0,
            next_frame_at: now,
            stats_at: now,
        }
    }

    /// The time between two frames.
    pub open spec fn interval(self) -> u64 {
        1_000_000_000u64 / (self.fps as u64)
    }

    /// How long to wait for the next frame.
    pub fn wait_time(&self, now: u64) -> (r: u64)
        ensures
            r == self.next_frame_at.saturating_sub(now),
    {
        self.next_frame_at.saturating_sub(now)
    }

    /// Whether the next frame is a keyframe: the first of each second is.
    pub open spec fn is_keyframe(self) -> bool {
        self.frame_id % (self.fps as u64) == 0
    }

    /// The packets of the next frame.
    pub fn next_packets(&self, timestamp_ms: u64) -> (r: Result<Vec<Vec<u8>>, String>)
        requires
            self.inv(),
        ensures
            r is Ok <==> self.bytes_per_frame <= MAX_VIDEO_FRAME_BYTES,
            r is Err ==> r->Err_0@ == "frame exceeds encoded byte limit: "@
                + crate::text::decimal(self.bytes_per_frame as nat) + " > "@ + crate::text::decimal(
                MAX_VIDEO_FRAME_BYTES as nat,
            ),
            r is Ok ==> {
                &&& r->Ok_0@.len() == media_packet::packet_total(self.bytes_per_frame as nat)
                &&& forall|i: int|
                    0 <= i < r->Ok_0@.len() ==> (#[trigger] r->Ok_0@[i])@
                        == media_packet::filled_packet(
                        media_packet::FrameHeader {
                            session_id: self.session_id,
                            frame_id: self.frame_id,
                            timestamp_ms,
                        },
                        self.bytes_per_frame as nat,
                        self.is_keyframe(),
                        i,
                    ).wire()
            },
    {
        let keyframe: bool = self.frame_id % (self.fps as u64) == 0;
        build_frame_packets(
            self.session_id,
            self.frame_id,
            timestamp_ms,
            self.bytes_per_frame,
            keyframe,
        )
    }

    pub open spec fn with_packet(self, bytes: usize) -> SyntheticSender {
        SyntheticSender {
            packets_sent: self.packets_sent.saturating_add(1),
            window_bytes: self.window_bytes.saturating_add(bytes as u64),
            ..self
        }
    }

    /// A packet was sent.
    pub fn packet_sent(&mut self, bytes: usize)
        ensures
            *final(self) == old(self).with_packet(bytes),
    {
        self.packets_sent = self.packets_sent.saturating_add(1);
        self.window_bytes = self.window_bytes.saturating_add(bytes as u64);
    }

    pub open spec fn with_frame(self) -> SyntheticSender {
        SyntheticSender {
            frames_sent: self.frames_sent.saturating_add(1),
            window_frames: self.window_frames.saturating_add(1),
            frame_id: self.frame_id.saturating_add(1),
            ..self
        }
    }

    pub open spec fn reported(self, now: u64) -> SyntheticSender {
        if report_due(self.stats_at, now) {
            SyntheticSender { window_frames: 0, window_bytes: 0, stats_at: now, ..self }
        } else {
            self
        }
    }

    /// All packets of the frame were sent.  Each second the answer is what was sent in it.
    pub fn frame_sent(&mut self, now: u64) -> (report: Option<WindowReport>)
        ensures
            *final(self) == old(self).with_frame().reported(now),
            report == if report_due(old(self).stats_at, now) {
                Some(
                    WindowReport {
                        bytes: old(self).window_bytes,
                        frames: old(self).with_frame().window_frames,
                        elapsed: now.saturating_sub(old(self).stats_at),
                    },
                )
            } else {
                None
            },
    {
        self.frames_sent = self.frames_sent.saturating_add(1);
        self.window_frames = self.window_frames.saturating_add(1);
        self.frame_id = self.frame_id.saturating_add(1);
        let elapsed: u64 = now.saturating_sub(self.stats_at);
        if elapsed < REPORT_INTERVAL {
            return None;
        }
        let report: WindowReport = WindowReport {
            bytes: self.window_bytes,
            frames: self.window_frames,
            elapsed,
        };
        self.window_frames = 0;
        self.window_bytes = 0;
        self.stats_at = now;
        Some(report)
    }

    pub open spec fn scheduled(self, now: u64) -> SyntheticSender {
        let next = self.next_frame_at.saturating_add(self.interval());
        SyntheticSender {
            next_frame_at: if next < now {
                now.saturating_add(self.interval())
            } else {
                next
            },
            ..self
        }
    }

    /// Plans the next frame: an interval after the last one, or after now where the sender
    /// is late.
    pub fn schedule(&mut self, now: u64)
        requires
            old(self).inv(),
        ensures
            *final(self) == old(self).scheduled(now),
            final(self).inv(),
    {
        let interval: u64 = 1_000_000_000u64 / (self.fps as u64);
        let next: u64 = self.next_frame_at.saturating_add(interval);
        self.next_frame_at = if next < now {
            now.saturating_add(interval)
        } else {
            next
        };
    }
}

/// What the sender reports; real numbers come written already.
pub open spec fn sender_members(
    packets_sent: u64,
    frames_sent: u64,
    mbps: Seq<char>,
    fps: Seq<char>,
    target_bitrate_mbps: Seq<char>,
) -> Seq<Member> {
    seq![
        Member::Pair("type"@, Value::Name("MEDIA_STATS"@)),
        Member::Pair("mode"@, Value::Name("sender"@)),
        Member::Pair("packets_sent"@, Value::Number(packets_sent)),
        Member::Pair("frames_sent"@, Value::Number(frames_sent)),
        Member::Pair("mbps"@, Value::Raw(mbps)),
        Member::Pair("fps"@, Value::Raw(fps)),
        Member::Pair("target_bitrate_mbps"@, Value::Raw(target_bitrate_mbps)),
    ]
}

/// Writes what the sender reports.
pub fn sender_stats_line(
    packets_sent: u64,
    frames_sent: u64,
    mbps: &str,
    fps: &str,
    target_bitrate_mbps: &str,
) -> (r: String)
    ensures
        r@ == json::object(
            sender_members(packets_sent, frames_sent, mbps@, fps@, target_bitrate_mbps@),
        ),
{
    let members: Fragment = Fragment::new().name("type", "MEDIA_STATS").name(
        "mode",
        "sender",
    ).number("packets_sent", packets_sent).number("frames_sent", frames_sent).raw(
        "mbps",
        mbps,
    ).raw("fps", fps).raw("target_bitrate_mbps", target_bitrate_mbps);
    assert(members@ =~= sender_members(
        packets_sent,
        frames_sent,
        mbps@,
        fps@,
        target_bitrate_mbps@,
    ));
    members.finish_object()
}

// Receiving.

/// A receiver that counts frames.
pub struct SyntheticReceiver {
    pub frames: Reassembler,
    pub stats_at: u64,
    pub window_bytes: u64,
    pub window_frames: u64,
}

/// What the receiver holds.
pub struct SyntheticReceiverModel {
    pub frames: ReassemblerModel,
    pub stats_at: u64,
    pub window_bytes: u64,
    pub window_frames: u64,
}

impl View for SyntheticReceiver {
    type V = SyntheticReceiverModel;

    open spec fn view(&self) -> SyntheticReceiverModel {
        SyntheticReceiverModel {
            frames: self.frames@,
            stats_at: self.stats_at,
            window_bytes: self.window_bytes,
            window_frames: self.window_frames,
        }
    }
}

impl SyntheticReceiverModel {
    /// Nothing was received yet.
    pub open spec fn initial(ttl: u64, now: u64) -> SyntheticReceiverModel {
        SyntheticReceiverModel {
            frames: ReassemblerModel {
                frames: Map::empty(),
                ttl,
                stats: ReceiverStats {
                    packets_received: 0,
                    packets_dropped_or_lost_estimate: 0,
                    frames_complete: 0,
                    frames_incomplete_expired: 0,
                    last_frame_id: 0,
                },
            },
            stats_at: now,
            window_bytes: 0,
            window_frames: 0,
        }
    }

    /// The state after the datagrams of `packets`, one by one.
    pub open spec fn received_all(
        self,
        packets: Seq<media_packet::PacketModel>,
        now: u64,
    ) -> SyntheticReceiverModel
        decreases packets.len(),
    {
        if packets.len() == 0 {
            self
        } else {
            self.received_all(packets.drop_last(), now).received(packets.last().wire(), now)
        }
    }

    /// The state after a datagram: what is no packet counts as dropped.
    pub open spec fn received(self, datagram: Seq<u8>, now: u64) -> SyntheticReceiverModel {
        match media_packet::PacketModel::parse(datagram) {
            Ok(packet) => SyntheticReceiverModel {
                frames: self.frames.accepted(packet, now),
                window_bytes: self.window_bytes.saturating_add(datagram.len() as u64),
                window_frames: if self.frames.completes(packet, now) {
                    self.window_frames.saturating_add(1)
                } else {
                    self.window_frames
                },
                ..self
            },
            Err(_) => SyntheticReceiverModel { frames: self.frames.with_drop(), ..self },
        }
    }

    pub open spec fn reported(self, now: u64) -> SyntheticReceiverModel {
        if report_due(self.stats_at, now) {
            SyntheticReceiverModel { window_frames: 0, window_bytes: 0, stats_at: now, ..self }
        } else {
            self
        }
    }
}

impl SyntheticReceiver {
    pub open spec fn inv(self) -> bool {
        self.frames.inv()
    }

    /// A receiver that gives frames up after `ttl`.
    pub fn new(ttl: u64, now: u64) -> (r: SyntheticReceiver)
        ensures
            r.inv(),
            r@ == SyntheticReceiverModel::initial(ttl, now),
    {
        SyntheticReceiver {
            frames: Reassembler::new(ttl),
            stats_at: now,
            window_bytes: 0,
            window_frames: 0,
        }
    }

    /// Takes a datagram.
    pub fn on_datagram(&mut self, datagram: &[u8], now: u64)
        requires
            old(self).inv(),
        ensures
            final(self).inv(),
            final(self)@ == old(self)@.received(datagram@, now),
    {
        match MediaPacket::decode(datagram) {
            Ok(packet) => {
                self.window_bytes = self.window_bytes.saturating_add(datagram.len() as u64);
                if self.frames.accept(packet, now) {
                    self.window_frames = self.window_frames.saturating_add(1);
                }
            },
            Err(_) => {
                self.frames.reject();
            },
        }
    }

    /// Gives up on frames that are overdue.  Each second the answer is what was received in
    /// it.
    pub fn tick(&mut self, now: u64) -> (report: Option<WindowReport>)
        requires
            old(self).inv(),
        ensures
            final(self).inv(),
            exists|ids: Seq<u64>| #[trigger]
                old(self)@.frames.lists_overdue(ids, now) && final(self)@
                    == (SyntheticReceiverModel {
                    frames: old(self)@.frames.expired(ids),
                    ..old(self)@
                }).reported(now),
            report == if report_due(old(self)@.stats_at, now) {
                Some(
                    WindowReport {
                        bytes: old(self)@.window_bytes,
                        frames: old(self)@.window_frames,
                        elapsed: now.saturating_sub(old(self)@.stats_at),
                    },
                )
            } else {
                None
            },
    {
        let ghost before = self@;
        self.frames.expire(now);
        let ghost ids = choose|ids: Seq<u64>| #[trigger]
            before.frames.lists_overdue(ids, now) && self.frames@ == before.frames.expired(ids);
        let ghost expired = SyntheticReceiverModel {
            frames: before.frames.expired(ids),
            ..before
        };
        assert(before.frames.lists_overdue(ids, now) && self@ == expired);
        let elapsed: u64 = now.saturating_sub(self.stats_at);
        if elapsed < REPORT_INTERVAL {
            return None;
        }
        let report: WindowReport = WindowReport {
            bytes: self.window_bytes,
            frames: self.window_frames,
            elapsed,
        };
        self.window_bytes = 0;
        self.window_frames = 0;
        self.stats_at = now;
        assert(self@ == expired.reported(now));
        Some(report)
    }
}

/// What the receiver reports; real numbers come written already.
pub open spec fn receiver_members(
    stats: ReceiverStats,
    mbps: Seq<char>,
    fps: Seq<char>,
    inflight_frames: usize,
) -> Seq<Member> {
    seq![
        Member::Pair("type"@, Value::Name("MEDIA_STATS"@)),
        Member::Pair("mode"@, Value::Name("receiver"@)),
        Member::Pair("packets_received"@, Value::Number(stats.packets_received)),
        Member::Pair(
            "packets_dropped_or_lost_estimate"@,
            Value::Number(stats.packets_dropped_or_lost_estimate),
        ),
        Member::Pair("frames_complete"@, Value::Number(stats.frames_complete)),
        Member::Pair("frames_incomplete_expired"@, Value::Number(stats.frames_incomplete_expired)),
        Member::Pair("mbps"@, Value::Raw(mbps)),
        Member::Pair("fps"@, Value::Raw(fps)),
        Member::Pair("last_frame_id"@, Value::Number(stats.last_frame_id)),
        Member::Pair("inflight_frames"@, Value::Number(inflight_frames as u64)),
    ]
}

/// Writes what the receiver reports.
pub fn receiver_stats_line(
    stats: ReceiverStats,
    mbps: &str,
    fps: &str,
    inflight_frames: usize,
) -> (r:
    String)
    ensures
        r@ == json::object(receiver_members(stats, mbps@, fps@, inflight_frames)),
{
    let members: Fragment = Fragment::new().name("type", "MEDIA_STATS").name(
        "mode",
        "receiver",
    ).number("packets_received", stats.packets_received).number(
        "packets_dropped_or_lost_estimate",
        stats.packets_dropped_or_lost_estimate,
    ).number("frames_complete", stats.frames_complete).number(
        "frames_incomplete_expired",
        stats.frames_incomplete_expired,
    ).raw("mbps", mbps).raw("fps", fps).number("last_frame_id", stats.last_frame_id).number(
        "inflight_frames",
        inflight_frames as u64,
    );
    assert(members@ =~= receiver_members(stats, mbps@, fps@, inflight_frames));
    members.finish_object()
}

// What holds of every stream.

/// A sender that is late does not catch up: the next frame is never planned before now, and
/// never sooner than an interval after the last one.
pub proof fn law_late_sender_does_not_rush(sender: SyntheticSender, now: u64)
    requires
        sender.inv(),
        sender.next_frame_at + sender.interval() <= u64::MAX,
        now + sender.interval() <= u64::MAX,
    ensures
        sender.scheduled(now).next_frame_at >= now,
        sender.scheduled(now).next_frame_at >= sender.next_frame_at + sender.interval(),
        sender.next_frame_at + sender.interval() >= now ==> sender.scheduled(now).next_frame_at
            == sender.next_frame_at + sender.interval(),
{
}

/// What the sender sends, a receiver takes for packets: none of it counts as dropped.
pub proof fn law_sent_frames_are_understood(
    sender: SyntheticSender,
    receiver: SyntheticReceiverModel,
    timestamp_ms: u64,
    i: int,
    now: u64,
)
    requires
        sender.inv(),
        sender.bytes_per_frame <= MAX_VIDEO_FRAME_BYTES,
        0 <= i < media_packet::packet_total(sender.bytes_per_frame as nat),
    ensures
        ({
            let packet = media_packet::filled_packet(
                media_packet::FrameHeader {
                    session_id: sender.session_id,
                    frame_id: sender.frame_id,
                    timestamp_ms,
                },
                sender.bytes_per_frame as nat,
                sender.is_keyframe(),
                i,
            );
            receiver.received(packet.wire(), now).frames == receiver.frames.accepted(packet, now)
        }),
{
    media_packet::law_synthetic_datagrams_decode(
        media_packet::FrameHeader {
            session_id: sender.session_id,
            frame_id: sender.frame_id,
            timestamp_ms,
        },
        sender.bytes_per_frame as nat,
        sender.is_keyframe(),
        i,
    );
}

/// `order` names each packet of the sender's frame once.
pub open spec fn names_each_packet_once(sender: SyntheticSender, order: Seq<int>) -> bool {
    &&& order.len() == media_packet::packet_total(sender.bytes_per_frame as nat)
    &&& forall|k: int| 0 <= k < order.len() ==> 0 <= #[trigger] order[k] < order.len()
    &&& forall|j: int, k: int|
        0 <= j < k < order.len() ==> #[trigger] order[j] != #[trigger] order[k]
}

/// The packets of the sender's frame in the order `order`.
pub open spec fn frame_packets(
    sender: SyntheticSender,
    timestamp_ms: u64,
    order: Seq<int>,
) -> Seq<media_packet::PacketModel> {
    Seq::new(
        order.len(),
        |k: int|
            media_packet::filled_packet(
                media_packet::FrameHeader {
                    session_id: sender.session_id,
                    frame_id: sender.frame_id,
                    timestamp_ms,
                },
                sender.bytes_per_frame as nat,
                sender.is_keyframe(),
                order[k],
            ),
    )
}

/// A frame that the sender sends arrives: once each of its datagrams has come, in whatever
/// order, the receiver has counted one frame more, and none of the frame is held any more.
pub proof fn law_sent_frame_arrives(
    sender: SyntheticSender,
    receiver: SyntheticReceiverModel,
    timestamp_ms: u64,
    order: Seq<int>,
    now: u64,
)
    requires
        sender.inv(),
        sender.bytes_per_frame <= MAX_VIDEO_FRAME_BYTES,
        names_each_packet_once(sender, order),
        !receiver.frames.frames.dom().contains(sender.frame_id),
    ensures
        ({
            let after = receiver.received_all(frame_packets(sender, timestamp_ms, order), now);
            &&& after.frames.frames == receiver.frames.frames
            &&& after.frames.stats.frames_complete
                == receiver.frames.stats.frames_complete.saturating_add(1)
            &&& after.frames.stats.last_frame_id == sender.frame_id
            &&& after.window_frames == receiver.window_frames.saturating_add(1)
        }),
{
    let packets = frame_packets(sender, timestamp_ms, order);
    let n = packets.len() as int;
    media_packet::lemma_slices(sender.bytes_per_frame as nat, 0);
    assert forall|k: int| 0 <= k < n implies {
        &&& (#[trigger] packets[k]).stream_id == STREAM_VIDEO
        &&& packets[k].frame_id == packets[0].frame_id
        &&& packets[k].packet_count == n
        &&& packets[k].packet_index == order[k]
    } by {
        media_packet::lemma_slices(sender.bytes_per_frame as nat, order[k]);
    }
    assert(reassembler::is_whole_frame(packets));
    reassembler::law_whole_frame_completes_in_any_order(receiver.frames, packets, now);
    lemma_received(sender, receiver, timestamp_ms, order, now, n - 1);
    assert(packets.subrange(0, n - 1) =~= packets.drop_last());
    law_sent_frames_are_understood(
        sender,
        receiver.received_all(packets.drop_last(), now),
        timestamp_ms,
        order[n - 1],
        now,
    );
    media_packet::law_synthetic_datagrams_decode(
        media_packet::FrameHeader {
            session_id: sender.session_id,
            frame_id: sender.frame_id,
            timestamp_ms,
        },
        sender.bytes_per_frame as nat,
        sender.is_keyframe(),
        order[n - 1],
    );
}

/// The first `k` datagrams are taken as packets, and complete nothing.
proof fn lemma_received(
    sender: SyntheticSender,
    receiver: SyntheticReceiverModel,
    timestamp_ms: u64,
    order: Seq<int>,
    now: u64,
    k: int,
)
    requires
        sender.inv(),
        sender.bytes_per_frame <= MAX_VIDEO_FRAME_BYTES,
        names_each_packet_once(sender, order),
        0 <= k < order.len(),
        forall|j: int|
            0 <= j < order.len() - 1 ==> !(#[trigger] reassembler::delivered(
                receiver.frames,
                frame_packets(sender, timestamp_ms, order).subrange(0, j),
                now,
            )).completes(frame_packets(sender, timestamp_ms, order)[j], now),
    ensures
        ({
            let packets = frame_packets(sender, timestamp_ms, order).subrange(0, k);
            let after = receiver.received_all(packets, now);
            &&& after.frames == reassembler::delivered(receiver.frames, packets, now)
            &&& after.window_frames == receiver.window_frames
        }),
    decreases k,
{
    let packets = frame_packets(sender, timestamp_ms, order);
    if k > 0 {
        lemma_received(sender, receiver, timestamp_ms, order, now, k - 1);
        assert(packets.subrange(0, k).drop_last() =~= packets.subrange(0, k - 1));
        assert(packets.subrange(0, k).last() == packets[k - 1]);
        assert(!reassembler::delivered(
            receiver.frames,
            packets.subrange(0, k - 1),
            now,
        ).completes(packets[k - 1], now));
        media_packet::law_synthetic_datagrams_decode(
            media_packet::FrameHeader {
                session_id: sender.session_id,
                frame_id: sender.frame_id,
                timestamp_ms,
            },
            sender.bytes_per_frame as nat,
            sender.is_keyframe(),
            order[k - 1],
        );
    }
}

/// Frames are numbered in turn, and the first of each second is a keyframe.
pub proof fn law_frames_are_numbered(sender: SyntheticSender, bytes: usize)
    requires
        sender.inv(),
        sender.frame_id < u64::MAX,
        sender.frames_sent < u64::MAX,
        sender.packets_sent < u64::MAX,
    ensures
        sender.with_frame().frame_id == sender.frame_id + 1,
        sender.with_frame().frames_sent == sender.frames_sent + 1,
        sender.with_frame().packets_sent == sender.packets_sent,
        sender.with_frame().session_id == sender.session_id,
        sender.with_packet(bytes).packets_sent == sender.packets_sent + 1,
        sender.with_packet(bytes).frame_id == sender.frame_id,
        sender.window_bytes + bytes <= u64::MAX ==> sender.with_packet(bytes).window_bytes
            == sender.window_bytes + bytes,
        sender.is_keyframe() <==> exists|second: int|
            #![trigger (second * sender.fps)]
            second * sender.fps == sender.frame_id,
{
    let id = sender.frame_id as int;
    let fps = sender.fps as int;
    vstd::arithmetic::div_mod::lemma_fundamental_div_mod(id, fps);
    if sender.is_keyframe() {
        assert((id / fps) * sender.fps == sender.frame_id) by (nonlinear_arith)
            requires
                id == fps * (id / fps) + id % fps,
                id % fps == 0,
                fps == sender.fps as int,
                id == sender.frame_id as int,
        ;
    }
    if exists|second: int| #![trigger (second * sender.fps)] second * sender.fps
        == sender.frame_id {
        let second = choose|second: int|
            #![trigger (second * sender.fps)]
            second * sender.fps == sender.frame_id;
        vstd::arithmetic::div_mod::lemma_mod_multiples_basic(second, fps);
    }
}

/// The next frame is due an interval after the last one, and the frames of a second fit into
/// it.
pub proof fn law_frames_are_an_interval_apart(sender: SyntheticSender, now: u64)
    requires
        sender.inv(),
        sender.next_frame_at + 1_000_000_000 <= u64::MAX,
        now <= sender.next_frame_at,
    ensures
        sender.scheduled(now).next_frame_at == sender.next_frame_at + sender.interval(),
        sender.fps * sender.interval() <= 1_000_000_000,
        sender.fps * (sender.interval() + 1) > 1_000_000_000,
{
    let fps = sender.fps as int;
    let interval = sender.interval() as int;
    assert(interval == 1_000_000_000int / fps);
    assert(fps * interval <= 1_000_000_000 < fps * (interval + 1) && 0 <= interval
        <= 1_000_000_000) by (nonlinear_arith)
        requires
            fps >= 1,
            interval == 1_000_000_000int / fps,
    ;
}

/// A report is due a second after the last one, and then counting begins anew.
pub proof fn law_reports_come_each_second(sender: SyntheticSender, now: u64)
    requires
        sender.stats_at <= now,
    ensures
        report_due(sender.stats_at, now) == (now >= sender.stats_at + 1_000_000_000),
        now >= sender.stats_at + 1_000_000_000 ==> sender.reported(now).window_frames == 0
            && sender.reported(now).window_bytes == 0 && sender.reported(now).stats_at == now,
        now < sender.stats_at + 1_000_000_000 ==> sender.reported(now) == sender,
        sender.reported(now).frames_sent == sender.frames_sent,
{
}

/// What the two ends report: each count under its name.
pub proof fn law_synthetic_reports_tell(
    packets_sent: u64,
    frames_sent: u64,
    stats: ReceiverStats,
    inflight_frames: usize,
    mbps: Seq<char>,
    fps: Seq<char>,
    target_bitrate_mbps: Seq<char>,
)
    ensures
        ({
            let sent = sender_members(packets_sent, frames_sent, mbps, fps, target_bitrate_mbps);
            let received = receiver_members(stats, mbps, fps, inflight_frames);
            &&& json::names(sent, "mode"@, "sender"@)
            &&& json::counts(sent, "packets_sent"@, packets_sent)
            &&& json::counts(sent, "frames_sent"@, frames_sent)
            &&& json::names(received, "mode"@, "receiver"@)
            &&& json::counts(received, "packets_received"@, stats.packets_received)
            &&& json::counts(
                received,
                "packets_dropped_or_lost_estimate"@,
                stats.packets_dropped_or_lost_estimate,
            )
            &&& json::counts(received, "frames_complete"@, stats.frames_complete)
            &&& json::counts(
                received,
                "frames_incomplete_expired"@,
                stats.frames_incomplete_expired,
            )
            &&& json::counts(received, "last_frame_id"@, stats.last_frame_id)
            &&& json::counts(received, "inflight_frames"@, inflight_frames as u64)
        }),
{
    let sent = sender_members(packets_sent, frames_sent, mbps, fps, target_bitrate_mbps);
    let received = receiver_members(stats, mbps, fps, inflight_frames);
    assert(sent[1] is Pair && sent[2] is Pair && sent[3] is Pair);
    assert(received[1] is Pair && received[2] is Pair && received[3] is Pair);
    assert(received[4] is Pair && received[5] is Pair);
    assert(received[8] is Pair && received[9] is Pair);
}

} // verus!
