//! How the packets of a frame are spread over its interval.
//!
//! Times are nanoseconds of a monotonic clock, unless their names say otherwise.
//! Counters stop at their maximum.

use vstd::prelude::*;

use crate::choices::RepairMode;
use crate::cli_values::FecMode;
use crate::h264_send_probe::PacketPacing;
use crate::media_packet::{FLAG_FEC, HEADER_LEN};
use crate::receiver_stats;
use crate::text;
use crate::text::push_decimal;

verus! {

/// How many frames wait for the pacer at most.
pub const SEND_QUEUE_DEPTH: usize = 4;

/// The time between two batches of packets.
pub const PACING_TICK: u64 = 1_000_000;

/// How precise a wait is: what is left of it when it is this short is not waited for.
pub const PACING_GRANULARITY: u64 = 500_000;

/// How often the percentiles are published.
pub const PUBLISH_INTERVAL: u64 = 1_000_000_000;

/// The least number of groups of `b` things that hold `a` things.
pub open spec fn groups(a: nat, b: nat) -> nat {
    if a % b == 0 {
        a / b
    } else {
        a / b + 1
    }
}

/// How many ticks a frame has: those that begin inside its interval, and at least one.
pub open spec fn tick_count(frame_interval: u64, tick: u64) -> nat {
    let ticks = groups(frame_interval as nat, tick as nat);
    if ticks == 0 {
        1
    } else if ticks > usize::MAX {
        usize::MAX as nat
    } else {
        ticks
    }
}

/// How many packets leave at each tick, so that the ticks of the frame suffice for all.
pub open spec fn batch_size(packet_count: usize, frame_interval: u64, tick: u64) -> nat {
    if packet_count == 0 {
        1
    } else if tick == 0 {
        packet_count as nat
    } else {
        groups(packet_count as nat, tick_count(frame_interval, tick))
    }
}

/// How many packets leave at each tick.
pub fn batch_size_for_frame(packet_count: usize, frame_interval: u64, tick: u64) -> (r: usize)
    ensures
        r == batch_size(packet_count, frame_interval, tick),
        r >= 1,
        packet_count >= 1 ==> r <= packet_count,
{
    if packet_count == 0 {
        return 1;
    }
    if tick == 0 {
        return packet_count;
    }
    proof {
        lemma_quotient_fits(frame_interval as nat, tick as nat);
    }
    let mut ticks: u64 = frame_interval / tick;
    if frame_interval % tick != 0 {
        ticks = ticks + 1;
    }
    if ticks == 0 {
        ticks = 1;
    }
    let ticks: usize = if ticks > usize::MAX as u64 {
        usize::MAX
    } else {
        ticks as usize
    };
    proof {
        lemma_quotient_fits(packet_count as nat, ticks as nat);
    }
    let whole: usize = packet_count / ticks;
    if packet_count % ticks != 0 {
        whole + 1
    } else {
        whole
    }
}

proof fn lemma_quotient_fits(a: nat, b: nat)
    requires
        b > 0,
    ensures
        a / b <= a,
        a % b != 0 ==> a / b + 1 <= a,
        a > 0 ==> groups(a, b) >= 1,
{
    assert(a == b * (a / b) + a % b && 0 <= a % b < b) by (nonlinear_arith)
        requires
            b > 0,
    ;
    assert(a / b <= b * (a / b)) by (nonlinear_arith)
        requires
            b > 0,
            a / b >= 0,
    ;
    if a % b != 0 {
        assert(b * (a / b) < a);
    } else if a > 0 {
        assert(a / b > 0) by (nonlinear_arith)
            requires
                a == b * (a / b),
                a > 0,
        ;
    }
}

/// How far the pacer is after `batches` batches of `size` packets each.
pub open spec fn position_after(packet_count: usize, size: nat, batches: nat) -> nat
    decreases batches,
{
    if batches == 0 {
        0
    } else {
        let next = position_after(packet_count, size, (batches - 1) as nat) + size;
        if next > packet_count {
            packet_count as nat
        } else {
            next
        }
    }
}

proof fn lemma_position(packet_count: usize, size: nat, batches: nat)
    ensures
        position_after(packet_count, size, batches) == if batches * size > packet_count {
            packet_count as nat
        } else {
            batches * size
        },
    decreases batches,
{
    if batches > 0 {
        lemma_position(packet_count, size, (batches - 1) as nat);
        assert((batches - 1) * size + size == batches * size) by (nonlinear_arith);
        assert((batches - 1) * size >= 0) by (nonlinear_arith)
            requires
                batches >= 1,
        ;
    } else {
        assert(0 * size == 0);
    }
}

/// The batches of a frame, one at each of its ticks, send all of its packets, and the last
/// of them begins before the frame's interval is over.
pub proof fn law_frame_fits_its_interval(packet_count: usize, frame_interval: u64, tick: u64)
    requires
        packet_count > 0,
        frame_interval > 0,
        tick > 0,
    ensures
        position_after(
            packet_count,
            batch_size(packet_count, frame_interval, tick),
            tick_count(frame_interval, tick),
        ) == packet_count,
        (tick_count(frame_interval, tick) - 1) * tick < frame_interval,
{
    let ticks = tick_count(frame_interval, tick);
    let size = batch_size(packet_count, frame_interval, tick);
    let n = packet_count as nat;
    let interval = frame_interval as nat;
    let t = tick as nat;
    lemma_quotient_fits(interval, t);
    assert(interval == t * (interval / t) + interval % t && 0 <= interval % t < t)
        by (nonlinear_arith)
        requires
            t > 0,
    ;
    let whole = groups(interval, t);
    assert((whole - 1) * t < interval) by (nonlinear_arith)
        requires
            interval == t * (interval / t) + interval % t,
            0 <= interval % t < t,
            whole == if interval % t == 0 {
                interval / t
            } else {
                interval / t + 1
            },
            t > 0,
    ;
    assert((ticks - 1) * t <= (whole - 1) * t) by (nonlinear_arith)
        requires
            ticks <= whole,
            t > 0,
    ;
    assert(n == ticks * (n / ticks) + n % ticks && 0 <= n % ticks < ticks) by (nonlinear_arith)
        requires
            ticks > 0,
    ;
    assert(ticks * size >= n) by (nonlinear_arith)
        requires
            n == ticks * (n / ticks) + n % ticks,
            0 <= n % ticks < ticks,
            size == if n % ticks == 0 {
                n / ticks
            } else {
                n / ticks + 1
            },
    ;
    lemma_position(packet_count, size, ticks);
}

/// How long to sleep at `now` before something is due.
pub open spec fn pacing_wait(now: u64, target: u64) -> Option<u64> {
    if now + PACING_GRANULARITY >= target {
        None
    } else {
        Some((target - now - PACING_GRANULARITY) as u64)
    }
}

/// How long to sleep before looking at the clock again; nothing once the target is reached
/// or nearly so.
pub fn wait_until(now: u64, target: u64) -> (r: Option<u64>)
    ensures
        r == pacing_wait(now, target),
{
    if now >= target {
        return None;
    }
    let remaining: u64 = target - now;
    if remaining <= PACING_GRANULARITY {
        None
    } else {
        Some(remaining - PACING_GRANULARITY)
    }
}

/// The interval of a frame at a frame rate; no rate counts as one frame each second.
pub open spec fn interval_of(target_fps: u32) -> u64 {
    if target_fps == 0 {
        1_000_000_000
    } else {
        1_000_000_000u64 / (target_fps as u64)
    }
}

pub fn frame_interval(target_fps: u32) -> (r: u64)
    ensures
        r == interval_of(target_fps),
{
    if target_fps == 0 {
        1_000_000_000
    } else {
        1_000_000_000u64 / (target_fps as u64)
    }
}

/// How many bytes of a frame one datagram carries.
pub open spec fn payload_size(
    udp_payload_size: usize,
    fec_metadata: usize,
    fec_mode: FecMode,
) -> int {
    udp_payload_size - HEADER_LEN - if fec_mode == FecMode::SingleXor {
        fec_metadata as int
    } else {
        0
    }
}

/// How many bytes of a frame one datagram carries: what the header leaves, and with
/// parity packets what their description leaves.
pub fn data_payload_size(udp_payload_size: usize, fec_metadata: usize, fec_mode: FecMode) -> (r:
    usize)
    requires
        payload_size(udp_payload_size, fec_metadata, fec_mode) >= 0,
    ensures
        r == payload_size(udp_payload_size, fec_metadata, fec_mode),
{
    if fec_mode == FecMode::SingleXor {
        udp_payload_size - HEADER_LEN - fec_metadata
    } else {
        udp_payload_size - HEADER_LEN
    }
}

/// A frame that is to be sent.
#[derive(Clone, Copy, Debug, PartialEq, Eq, Structural)]
pub struct PacedFrame {
    pub packet_count: usize,
    pub data_packet_count: usize,
    pub fec_packet_count: usize,
    pub fec_bytes: usize,
    pub frame_interval: u64,
}

/// What the pacer counts.
#[derive(Clone, Copy, Debug, PartialEq, Eq, Structural)]
pub struct PacingCounters {
    pub packets_sent: u64,
    pub frames_sent: u64,
    pub bytes_sent: u64,
    pub data_packets_sent: u64,
    pub fec_packets_sent: u64,
    pub fec_bytes_sent: u64,
    pub max_packets_per_frame: u64,
    pub pacing_sleep_total: u64,
    pub pacing_overrun_frames: u64,
    pub pacing_batches: u64,
    pub pacing_batch_packets: u64,
    pub pacing_batch_max: u64,
    pub pacing_overrun_ticks: u64,
    pub pacing_late_total: u64,
    pub pacing_late_max: u64,
    pub video_send_syscall_ns_total: u64,
    pub video_send_syscall_ns_max: u64,
    pub video_send_syscalls: u64,
    pub video_worker_loop_ns_total: u64,
    pub video_worker_loop_ns_max: u64,
    pub video_worker_loops: u64,
    pub send_errors: u64,
}

impl PacingCounters {
    pub open spec fn initial() -> PacingCounters {
        PacingCounters {
            packets_sent: 0,
            frames_sent: 0,
            bytes_sent: 0,
            data_packets_sent: 0,
            fec_packets_sent: 0,
            fec_bytes_sent: 0,
            max_packets_per_frame: 0,
            pacing_sleep_total: 0,
            pacing_overrun_frames: 0,
            pacing_batches: 0,
            pacing_batch_packets: 0,
            pacing_batch_max: 0,
            pacing_overrun_ticks: 0,
            pacing_late_total: 0,
            pacing_late_max: 0,
            video_send_syscall_ns_total: 0,
            video_send_syscall_ns_max: 0,
            video_send_syscalls: 0,
            video_worker_loop_ns_total: 0,
            video_worker_loop_ns_max: 0,
            video_worker_loops: 0,
            send_errors: 0,
        }
    }

    /// Nothing was sent yet.
    pub fn new() -> (r: PacingCounters)
        ensures
            r == Self::initial(),
    {
        PacingCounters {
            packets_sent: 0,
            frames_sent: 0,
            bytes_sent: 0,
            data_packets_sent: 0,
            fec_packets_sent: 0,
            fec_bytes_sent: 0,
            max_packets_per_frame: 0,
            pacing_sleep_total: 0,
            pacing_overrun_frames: 0,
            pacing_batches: 0,
            pacing_batch_packets: 0,
            pacing_batch_max: 0,
            pacing_overrun_ticks: 0,
            pacing_late_total: 0,
            pacing_late_max: 0,
            video_send_syscall_ns_total: 0,
            video_send_syscall_ns_max: 0,
            video_send_syscalls: 0,
            video_worker_loop_ns_total: 0,
            video_worker_loop_ns_max: 0,
            video_worker_loops: 0,
            send_errors: 0,
        }
    }
}

/// A batch of packets that is to be sent: those from `first` up to `end`, once the clock
/// shows `target`.  `late` is how much later than planned it comes.
#[derive(Clone, Copy, Debug, PartialEq, Eq, Structural)]
pub struct Batch {
    pub first: usize,
    pub end: usize,
    pub target: Option<u64>,
    pub late: u64,
}

/// What the network did with a packet.
#[derive(Clone, Copy, Debug, PartialEq, Eq, Structural)]
pub enum SendResult {
    Sent(usize),
    Failed,
}

/// A frame on its way: how far it is, and what its own packets add to the counters.
#[derive(Clone, Copy, Debug, PartialEq, Eq, Structural)]
pub struct FramePacing {
    pub frame: PacedFrame,
    pub uses_batch: bool,
    pub batch_size: usize,
    pub packet_index: usize,
    pub tick_index: u32,
    pub schedule_origin: u64,
    pub sent_in_batch: u64,
    pub packets_sent: u64,
    pub bytes_sent: u64,
    pub sleep: u64,
    pub batches: u64,
    pub batch_packets: u64,
    pub batch_max: u64,
    pub overrun_ticks: u64,
    pub late_total: u64,
    pub late_max: u64,
    pub syscall_ns_total: u64,
    pub syscall_ns_max: u64,
    pub syscalls: u64,
    pub failed: bool,
}

impl FramePacing {
    /// A position inside the frame, and batches that hold something.
    pub open spec fn inv(self) -> bool {
        &&& self.packet_index <= self.frame.packet_count
        &&& self.batch_size >= 1
    }

    pub open spec fn started(
        frame: PacedFrame,
        pacing: PacketPacing,
        frame_started: u64,
    ) -> FramePacing {
        let packets = if frame.packet_count == 0 {
            1usize
        } else {
            frame.packet_count
        };
        FramePacing {
            frame,
            uses_batch: pacing != PacketPacing::Off,
            batch_size: if pacing == PacketPacing::Off {
                packets
            } else {
                batch_size(packets, frame.frame_interval, PACING_TICK) as usize
            },
            packet_index: 0,
            tick_index: 0,
            schedule_origin: frame_started,
            sent_in_batch: 0,
            packets_sent: 0,
            bytes_sent: 0,
            sleep: 0,
            batches: 0,
            batch_packets: 0,
            batch_max: 0,
            overrun_ticks: 0,
            late_total: 0,
            late_max: 0,
            syscall_ns_total: 0,
            syscall_ns_max: 0,
            syscalls: 0,
            failed: false,
        }
    }

    /// Begins a frame that is to leave at `frame_started`.
    pub fn start(frame: PacedFrame, pacing: PacketPacing, frame_started: u64) -> (r: FramePacing)
        ensures
            r == Self::started(frame, pacing, frame_started),
            r.inv(),
    {
        let packets: usize = if frame.packet_count == 0 {
            1
        } else {
            frame.packet_count
        };
        let size: usize = if pacing.uses_batch() {
            batch_size_for_frame(packets, frame.frame_interval, PACING_TICK)
        } else {
            packets
        };
        FramePacing {
            frame,
            uses_batch: pacing.uses_batch(),
            batch_size: size,
            packet_index: 0,
            tick_index: 0,
            schedule_origin: frame_started,
            sent_in_batch: 0,
            packets_sent: 0,
            bytes_sent: 0,
            sleep: 0,
            batches: 0,
            batch_packets: 0,
            batch_max: 0,
            overrun_ticks: 0,
            late_total: 0,
            late_max: 0,
            syscall_ns_total: 0,
            syscall_ns_max: 0,
            syscalls: 0,
            failed: false,
        }
    }

    /// When the frame itself is to be waited for: never without pacing.
    pub fn start_target(&self) -> (r: Option<u64>)
        ensures
            r == if self.uses_batch {
                Some(self.schedule_origin)
            } else {
                None
            },
    {
        if self.uses_batch {
            Some(self.schedule_origin)
        } else {
            None
        }
    }

    /// When the next batch is planned.
    pub open spec fn planned(self) -> u64 {
        self.schedule_origin.saturating_add((PACING_TICK * self.tick_index) as u64)
    }

    /// How much later than planned it is.
    pub open spec fn lateness(self, now: u64) -> u64 {
        if self.uses_batch && now > self.planned() {
            (now - self.planned()) as u64
        } else {
            0
        }
    }

    pub open spec fn batch_end(self) -> usize {
        if self.packet_index + self.batch_size > self.frame.packet_count {
            self.frame.packet_count
        } else {
            (self.packet_index + self.batch_size) as usize
        }
    }

    /// The next batch, if any packet is left.
    pub open spec fn batch_at(self, now: u64) -> Option<Batch> {
        if self.failed || self.packet_index >= self.frame.packet_count {
            None
        } else {
            Some(
                Batch {
                    first: self.packet_index,
                    end: self.batch_end(),
                    target: if !self.uses_batch {
                        None
                    } else if self.lateness(now) > 2 * PACING_TICK {
                        Some(now)
                    } else {
                        Some(self.planned())
                    },
                    late: self.lateness(now),
                },
            )
        }
    }

    /// The plan after the next batch was taken: when it is more than two ticks late, the
    /// rest of the frame is planned from now on.
    pub open spec fn planned_at(self, now: u64) -> FramePacing {
        if self.batch_at(now) is None {
            self
        } else if !self.uses_batch {
            FramePacing { sent_in_batch: 0, ..self }
        } else {
            let late = self.lateness(now);
            let overrun = late > 2 * PACING_TICK;
            FramePacing {
                sent_in_batch: 0,
                overrun_ticks: if overrun {
                    self.overrun_ticks.saturating_add(1)
                } else {
                    self.overrun_ticks
                },
                schedule_origin: if overrun {
                    now
                } else {
                    self.schedule_origin
                },
                tick_index: if overrun {
                    0
                } else {
                    self.tick_index
                },
                late_total: self.late_total.saturating_add(late),
                late_max: receiver_stats::larger(self.late_max, late),
                ..self
            }
        }
    }

    /// Takes the next batch.
    pub fn next_batch(&mut self, now: u64) -> (r: Option<Batch>)
        requires
            old(self).inv(),
        ensures
            r == old(self).batch_at(now),
            *final(self) == old(self).planned_at(now),
            final(self).inv(),
    {
        if self.failed || self.packet_index >= self.frame.packet_count {
            return None;
        }
        let end: usize = if self.batch_size > self.frame.packet_count - self.packet_index {
            self.frame.packet_count
        } else {
            self.packet_index + self.batch_size
        };
        self.sent_in_batch = 0;
        if !self.uses_batch {
            return Some(Batch { first: self.packet_index, end, target: None, late: 0 });
        }
        assert(PACING_TICK * self.tick_index <= u64::MAX) by (nonlinear_arith)
            requires
                self.tick_index <= u32::MAX,
                PACING_TICK == 1_000_000,
        ;
        let planned: u64 = self.schedule_origin.saturating_add(
            PACING_TICK * (self.tick_index as u64),
        );
        let late: u64 = if now > planned {
            now - planned
        } else {
            0
        };
        let mut target: u64 = planned;
        if late > 2 * PACING_TICK {
            self.overrun_ticks = self.overrun_ticks.saturating_add(1);
            self.schedule_origin = now;
            self.tick_index = 0;
            target = now;
        }
        self.late_total = self.late_total.saturating_add(late);
        if late > self.late_max {
            self.late_max = late;
        }
        Some(Batch { first: self.packet_index, end, target: Some(target), late })
    }

    pub open spec fn after_wait(self, slept: u64) -> FramePacing {
        FramePacing { sleep: self.sleep.saturating_add(slept), ..self }
    }

    /// Counts the time that was spent waiting.
    pub fn waited(&mut self, slept: u64)
        ensures
            *final(self) == old(self).after_wait(slept),
    {
        self.sleep = self.sleep.saturating_add(slept);
    }

    /// Whether a packet of `length` bytes left whole.
    pub open spec fn left_whole(length: usize, result: SendResult) -> bool {
        result == SendResult::Sent(length)
    }

    pub open spec fn after_packet(
        self,
        length: usize,
        result: SendResult,
        took: u64,
    ) -> FramePacing {
        let whole = Self::left_whole(length, result);
        FramePacing {
            syscall_ns_total: self.syscall_ns_total.saturating_add(took),
            syscall_ns_max: receiver_stats::larger(self.syscall_ns_max, took),
            syscalls: self.syscalls.saturating_add(1),
            packets_sent: if whole {
                self.packets_sent.saturating_add(1)
            } else {
                self.packets_sent
            },
            sent_in_batch: if whole {
                self.sent_in_batch.saturating_add(1)
            } else {
                self.sent_in_batch
            },
            bytes_sent: if whole {
                self.bytes_sent.saturating_add(length as u64)
            } else {
                self.bytes_sent
            },
            failed: self.failed || !whole,
            ..self
        }
    }

    /// Notes what the network did with a packet.  A packet that did not leave whole ends
    /// the frame, and the answer is whether the batch goes on.
    pub fn packet_sent(&mut self, length: usize, result: SendResult, took: u64) -> (goes_on: bool)
        ensures
            *final(self) == old(self).after_packet(length, result, took),
            goes_on == Self::left_whole(length, result),
            old(self).inv() ==> final(self).inv(),
    {
        self.syscall_ns_total = self.syscall_ns_total.saturating_add(took);
        if took > self.syscall_ns_max {
            self.syscall_ns_max = took;
        }
        self.syscalls = self.syscalls.saturating_add(1);
        let whole: bool = match result {
            SendResult::Sent(sent) => sent == length,
            SendResult::Failed => false,
        };
        if whole {
            self.packets_sent = self.packets_sent.saturating_add(1);
            self.sent_in_batch = self.sent_in_batch.saturating_add(1);
            self.bytes_sent = self.bytes_sent.saturating_add(length as u64);
        } else {
            self.failed = true;
        }
        whole
    }

    pub open spec fn after_batch(self) -> FramePacing {
        let counted = if self.uses_batch {
            FramePacing {
                batches: self.batches.saturating_add(1),
                batch_packets: self.batch_packets.saturating_add(self.sent_in_batch),
                batch_max: receiver_stats::larger(self.batch_max, self.sent_in_batch),
                ..self
            }
        } else {
            self
        };
        if self.failed {
            counted
        } else {
            FramePacing {
                packet_index: self.batch_end(),
                tick_index: if self.tick_index == u32::MAX {
                    u32::MAX
                } else {
                    (self.tick_index + 1) as u32
                },
                ..counted
            }
        }
    }

    /// Ends a batch; the next one follows at the next tick unless a packet failed.
    pub fn batch_done(&mut self)
        requires
            old(self).inv(),
        ensures
            *final(self) == old(self).after_batch(),
            final(self).inv(),
    {
        if self.uses_batch {
            self.batches = self.batches.saturating_add(1);
            self.batch_packets = self.batch_packets.saturating_add(self.sent_in_batch);
            if self.sent_in_batch > self.batch_max {
                self.batch_max = self.sent_in_batch;
            }
        }
        if self.failed {
            return ;
        }
        self.packet_index = if self.batch_size > self.frame.packet_count - self.packet_index {
            self.frame.packet_count
        } else {
            self.packet_index + self.batch_size
        };
        self.tick_index = self.tick_index.saturating_add(1);
    }

    /// Whether a packet that left whole is kept for repairs.
    pub open spec fn is_kept(
        self,
        repair_mode: RepairMode,
        index: usize,
        flags: Option<u16>,
    ) -> bool {
        repair_mode == RepairMode::Nack && index < self.frame.data_packet_count && match flags {
            Some(flags) => flags & FLAG_FEC == 0,
            None => false,
        }
    }

    /// Whether a packet that left whole is kept for repairs: packets that carry the frame
    /// itself are, while repairs are asked for.  `flags` are those of a packet whose header
    /// could be read.
    pub fn keeps(&self, repair_mode: RepairMode, index: usize, flags: Option<u16>) -> (r: bool)
        ensures
            r == self.is_kept(repair_mode, index, flags),
    {
        if repair_mode != RepairMode::Nack || index >= self.frame.data_packet_count {
            return false;
        }
        match flags {
            Some(flags) => flags & FLAG_FEC == 0,
            None => false,
        }
    }

    /// The data packets among those that left.
    pub open spec fn data_sent(self) -> u64 {
        receiver_stats::smaller(self.packets_sent, self.frame.data_packet_count as u64)
    }

    /// The counters with this frame.
    pub open spec fn counted(
        self,
        counters: PacingCounters,
        elapsed: u64,
        worker_loop: u64,
    ) -> PacingCounters {
        let parity = self.packets_sent > self.frame.data_packet_count as u64;
        PacingCounters {
            packets_sent: counters.packets_sent.saturating_add(self.packets_sent),
            frames_sent: if self.failed {
                counters.frames_sent
            } else {
                counters.frames_sent.saturating_add(1)
            },
            bytes_sent: counters.bytes_sent.saturating_add(self.bytes_sent),
            data_packets_sent: counters.data_packets_sent.saturating_add(self.data_sent()),
            fec_packets_sent: if parity {
                counters.fec_packets_sent.saturating_add(self.frame.fec_packet_count as u64)
            } else {
                counters.fec_packets_sent
            },
            fec_bytes_sent: if parity {
                counters.fec_bytes_sent.saturating_add(self.frame.fec_bytes as u64)
            } else {
                counters.fec_bytes_sent
            },
            max_packets_per_frame: receiver_stats::larger(
                counters.max_packets_per_frame,
                self.frame.packet_count as u64,
            ),
            pacing_sleep_total: counters.pacing_sleep_total.saturating_add(self.sleep),
            pacing_overrun_frames: if elapsed > self.frame.frame_interval {
                counters.pacing_overrun_frames.saturating_add(1)
            } else {
                counters.pacing_overrun_frames
            },
            pacing_batches: counters.pacing_batches.saturating_add(self.batches),
            pacing_batch_packets: counters.pacing_batch_packets.saturating_add(
                self.batch_packets,
            ),
            pacing_batch_max: receiver_stats::larger(counters.pacing_batch_max, self.batch_max),
            pacing_overrun_ticks: counters.pacing_overrun_ticks.saturating_add(
                self.overrun_ticks,
            ),
            pacing_late_total: counters.pacing_late_total.saturating_add(self.late_total),
            pacing_late_max: receiver_stats::larger(counters.pacing_late_max, self.late_max),
            video_send_syscall_ns_total: counters.video_send_syscall_ns_total.saturating_add(
                self.syscall_ns_total,
            ),
            video_send_syscall_ns_max: receiver_stats::larger(
                counters.video_send_syscall_ns_max,
                self.syscall_ns_max,
            ),
            video_send_syscalls: counters.video_send_syscalls.saturating_add(self.syscalls),
            video_worker_loop_ns_total: counters.video_worker_loop_ns_total.saturating_add(
                worker_loop,
            ),
            video_worker_loop_ns_max: receiver_stats::larger(
                counters.video_worker_loop_ns_max,
                worker_loop,
            ),
            video_worker_loops: counters.video_worker_loops.saturating_add(1),
            send_errors: if self.failed {
                counters.send_errors.saturating_add(1)
            } else {
                counters.send_errors
            },
        }
    }

    /// Adds the frame to the counters, `elapsed` after it was to leave.  The answer is
    /// whether the pacer goes on: it does until a packet fails.
    pub fn finish(&self, counters: &mut PacingCounters, elapsed: u64, worker_loop: u64) -> (goes_on:
        bool)
        ensures
            *final(counters) == self.counted(*old(counters), elapsed, worker_loop),
            goes_on == !self.failed,
    {
        counters.packets_sent = counters.packets_sent.saturating_add(self.packets_sent);
        counters.bytes_sent = counters.bytes_sent.saturating_add(self.bytes_sent);
        let data: u64 = self.frame.data_packet_count as u64;
        if self.packets_sent > data {
            counters.data_packets_sent = counters.data_packets_sent.saturating_add(data);
            counters.fec_packets_sent = counters.fec_packets_sent.saturating_add(
                self.frame.fec_packet_count as u64,
            );
            counters.fec_bytes_sent = counters.fec_bytes_sent.saturating_add(
                self.frame.fec_bytes as u64,
            );
        } else {
            counters.data_packets_sent = counters.data_packets_sent.saturating_add(
                self.packets_sent,
            );
        }
        raise(&mut counters.max_packets_per_frame, self.frame.packet_count as u64);
        counters.pacing_sleep_total = counters.pacing_sleep_total.saturating_add(self.sleep);
        counters.pacing_batches = counters.pacing_batches.saturating_add(self.batches);
        counters.pacing_batch_packets = counters.pacing_batch_packets.saturating_add(
            self.batch_packets,
        );
        raise(&mut counters.pacing_batch_max, self.batch_max);
        counters.pacing_overrun_ticks = counters.pacing_overrun_ticks.saturating_add(
            self.overrun_ticks,
        );
        counters.pacing_late_total = counters.pacing_late_total.saturating_add(self.late_total);
        raise(&mut counters.pacing_late_max, self.late_max);
        counters.video_send_syscall_ns_total = counters.video_send_syscall_ns_total.saturating_add(
            self.syscall_ns_total,
        );
        raise(&mut counters.video_send_syscall_ns_max, self.syscall_ns_max);
        counters.video_send_syscalls = counters.video_send_syscalls.saturating_add(self.syscalls);
        counters.video_worker_loop_ns_total = counters.video_worker_loop_ns_total.saturating_add(
            worker_loop,
        );
        raise(&mut counters.video_worker_loop_ns_max, worker_loop);
        counters.video_worker_loops = counters.video_worker_loops.saturating_add(1);
        if elapsed > self.frame.frame_interval {
            counters.pacing_overrun_frames = counters.pacing_overrun_frames.saturating_add(1);
        }
        if self.failed {
            counters.send_errors = counters.send_errors.saturating_add(1);
            return false;
        }
        counters.frames_sent = counters.frames_sent.saturating_add(1);
        true
    }
}

/// Raises a maximum to a value.
fn raise(maximum: &mut u64, value: u64)
    ensures
        *final(maximum) == receiver_stats::larger(*old(maximum), value),
{
    if value > *maximum {
        *maximum = value;
    }
}

/// Why a packet counts as lost.
pub open spec fn send_failure(
    target: Seq<char>,
    length: usize,
    result: SendResult,
    error: Seq<char>,
) -> Seq<char> {
    match result {
        SendResult::Sent(sent) => "UDP short send to "@ + target + ": expected "@ + text::decimal(
            length as nat,
        ) + ", sent "@ + text::decimal(sent as nat),
        SendResult::Failed => "UDP send to "@ + target + " failed: "@ + error,
    }
}

/// Says why a packet counts as lost; `error` is what the network said.
pub fn send_failure_text(target: &str, length: usize, result: SendResult, error: &str) -> (r:
    String)
    ensures
        r@ == send_failure(target@, length, result, error@),
{
    match result {
        SendResult::Sent(sent) => {
            let mut message: String = "UDP short send to ".to_string().concat(target).concat(
                ": expected ",
            );
            push_decimal(&mut message, length as u64);
            let mut message: String = message.concat(", sent ");
            push_decimal(&mut message, sent as u64);
            message
        },
        SendResult::Failed => "UDP send to ".to_string().concat(target).concat(
            " failed: ",
        ).concat(error),
    }
}

/// Percentiles of what the pacer measured, in microseconds.
#[derive(Clone, Copy, Debug, PartialEq, Eq, Structural)]
pub struct PacingPercentiles {
    pub late_p50: u64,
    pub late_p95: u64,
    pub late_p99: u64,
    pub send_syscall_p95: u64,
    pub send_syscall_p99: u64,
    pub worker_loop_p50: u64,
    pub worker_loop_p95: u64,
    pub worker_loop_p99: u64,
}

/// Publishes percentiles when a second has passed since the last time: they take the place
/// of the old ones, and the greatest lateness becomes that of the last second.  The answer
/// is whether the measurements begin anew.
pub fn publish_percentiles(
    published: &mut PacingPercentiles,
    counters: &mut PacingCounters,
    measured: PacingPercentiles,
    measured_late_max_us: u64,
    published_at: u64,
    now: u64,
) -> (r: bool)
    ensures
        r == (published_at <= now && now - published_at >= PUBLISH_INTERVAL),
        !r ==> *final(published) == *old(published) && *final(counters) == *old(counters),
        r ==> *final(published) == measured && *final(counters) == (PacingCounters {
            pacing_late_max: if measured_late_max_us * 1000 > u64::MAX {
                u64::MAX
            } else {
                (measured_late_max_us * 1000) as u64
            },
            ..*old(counters)
        }),
{
    if now < published_at || now - published_at < PUBLISH_INTERVAL {
        return false;
    }
    *published = measured;
    counters.pacing_late_max = if measured_late_max_us > u64::MAX / 1000 {
        u64::MAX
    } else {
        measured_late_max_us * 1000
    };
    true
}

/// A batch whose packets leave whole moves the frame on, by no more than the size of a batch
/// and never beyond its end.
pub proof fn law_batches_advance(pacing: FramePacing)
    requires
        pacing.inv(),
        !pacing.failed,
        pacing.packet_index < pacing.frame.packet_count,
    ensures
        pacing.after_batch().packet_index == pacing.batch_end(),
        pacing.packet_index < pacing.after_batch().packet_index <= pacing.frame.packet_count,
        pacing.after_batch().packet_index - pacing.packet_index <= pacing.batch_size,
{
}

/// A packet that does not leave whole ends the frame: no batch follows, and the frame is
/// not counted as sent.
pub proof fn law_failed_packet_ends_frame(
    pacing: FramePacing,
    length: usize,
    result: SendResult,
    took: u64,
    now: u64,
    counters: PacingCounters,
    elapsed: u64,
    worker_loop: u64,
)
    requires
        !FramePacing::left_whole(length, result),
    ensures
        ({
            let failed = pacing.after_packet(length, result, took);
            &&& failed.after_batch().batch_at(now) is None
            &&& failed.after_batch().counted(counters, elapsed, worker_loop).frames_sent
                == counters.frames_sent
            &&& counters.send_errors < u64::MAX ==> failed.after_batch().counted(
                counters,
                elapsed,
                worker_loop,
            ).send_errors == counters.send_errors + 1
        }),
{
}

/// The batches of a frame are as small as its ticks of one millisecond allow: with one
/// packet less in each, the ticks that begin inside the interval would not suffice.
pub proof fn law_batches_are_as_small_as_can_be(
    packet_count: usize,
    frame_interval: u64,
    ticks: nat,
)
    requires
        packet_count > 0,
        (ticks - 1) * 1_000_000 < frame_interval <= ticks * 1_000_000,
        1 <= ticks <= usize::MAX,
    ensures
        ({
            let size = batch_size(packet_count, frame_interval, PACING_TICK);
            (size - 1) * ticks < packet_count <= size * ticks
        }),
{
    let interval = frame_interval as nat;
    assert(groups(interval, 1_000_000) == ticks);
    let n = packet_count as nat;
    let size = batch_size(packet_count, frame_interval, PACING_TICK);
    assert(n == ticks * (n / ticks) + n % ticks && 0 <= n % ticks < ticks) by (nonlinear_arith)
        requires
            ticks > 0,
    ;
    assert((size - 1) * ticks < n <= size * ticks) by (nonlinear_arith)
        requires
            n == ticks * (n / ticks) + n % ticks,
            0 <= n % ticks < ticks,
            size == if n % ticks == 0 {
                n / ticks
            } else {
                n / ticks + 1
            },
    ;
}

/// A frame whose batches were taken at `times`, every packet leaving whole.
pub open spec fn paced(pacing: FramePacing, times: Seq<u64>) -> FramePacing
    decreases times.len(),
{
    if times.len() == 0 {
        pacing
    } else {
        paced(pacing, times.drop_last()).planned_at(times.last()).after_batch()
    }
}

/// While no batch comes more than two milliseconds late, batch `k` of a frame is planned `k`
/// milliseconds after the frame was to leave, and holds the packets from `k` times the size
/// of a batch on, as many as a batch holds or as are left.
pub proof fn law_batches_are_a_millisecond_apart(
    frame: PacedFrame,
    pacing: PacketPacing,
    frame_started: u64,
    times: Seq<u64>,
    now: u64,
)
    requires
        pacing != PacketPacing::Off,
        frame_started + times.len() * 1_000_000 <= u64::MAX,
        times.len() <= u32::MAX,
        forall|k: int|
            0 <= k < times.len() ==> (#[trigger] times[k]) <= frame_started + (k + 2) * 1_000_000,
        now <= frame_started + (times.len() + 2) * 1_000_000,
    ensures
        ({
            let k = times.len() as int;
            let begun = FramePacing::started(frame, pacing, frame_started);
            let size = begun.batch_size as int;
            &&& size >= 1
            &&& frame.packet_count > 0 ==> size == batch_size(
                frame.packet_count,
                frame.frame_interval,
                1_000_000,
            )
            &&& match paced(begun, times).batch_at(now) {
                Some(batch) => {
                    &&& k * size < frame.packet_count
                    &&& batch.target == Some((frame_started + k * 1_000_000) as u64)
                    &&& batch.first == k * size
                    &&& batch.end == if (k + 1) * size < frame.packet_count {
                        (k + 1) * size
                    } else {
                        frame.packet_count as int
                    }
                    &&& batch.late == if now > frame_started + k * 1_000_000 {
                        now - (frame_started + k * 1_000_000)
                    } else {
                        0
                    }
                },
                None => frame.packet_count <= k * size,
            }
        }),
{
    let begun = FramePacing::started(frame, pacing, frame_started);
    let size = begun.batch_size as int;
    let packets = if frame.packet_count == 0 {
        1usize
    } else {
        frame.packet_count
    };
    let ticks = tick_count(frame.frame_interval, PACING_TICK);
    lemma_quotient_fits(packets as nat, ticks);
    lemma_paced(frame, pacing, frame_started, times);
    assert((times.len() + 1) * size == times.len() * size + size) by (nonlinear_arith);
    assert(PACING_TICK * paced(begun, times).tick_index <= u64::MAX) by (nonlinear_arith)
        requires
            paced(begun, times).tick_index <= u32::MAX,
            PACING_TICK == 1_000_000,
    ;
}

proof fn lemma_paced(
    frame: PacedFrame,
    pacing: PacketPacing,
    frame_started: u64,
    times: Seq<u64>,
)
    requires
        pacing != PacketPacing::Off,
        frame_started + times.len() * 1_000_000 <= u64::MAX,
        times.len() <= u32::MAX,
        forall|k: int|
            0 <= k < times.len() ==> (#[trigger] times[k]) <= frame_started + (k + 2) * 1_000_000,
        FramePacing::started(frame, pacing, frame_started).batch_size >= 1,
    ensures
        ({
            let begun = FramePacing::started(frame, pacing, frame_started);
            let later = paced(begun, times);
            let at = times.len() * begun.batch_size;
            &&& later.frame == frame
            &&& later.uses_batch
            &&& !later.failed
            &&& later.batch_size == begun.batch_size
            &&& later.schedule_origin == frame_started
            &&& later.tick_index == times.len()
            &&& later.packet_index == if at < frame.packet_count {
                at
            } else {
                frame.packet_count as int
            }
        }),
    decreases times.len(),
{
    let begun = FramePacing::started(frame, pacing, frame_started);
    let size = begun.batch_size as int;
    if times.len() > 0 {
        let front = times.drop_last();
        let k = front.len() as int;
        assert forall|j: int| 0 <= j < front.len() implies (#[trigger] front[j]) <= frame_started
            + (j + 2) * 1_000_000 by {
            assert(front[j] == times[j]);
        }
        lemma_paced(frame, pacing, frame_started, front);
        let before = paced(begun, front);
        assert(times.last() == times[k]);
        assert((k + 1) * size == k * size + size) by (nonlinear_arith);
        assert(PACING_TICK * before.tick_index == k * 1_000_000);
        assert(before.lateness(times.last()) <= 2 * PACING_TICK);
    } else {
        assert(0 * size == 0);
    }
}

/// What the packets of a batch do to the frame: as long as they leave whole the plan stays
/// as it is, and the packets and bytes are counted.
pub proof fn law_packets_keep_the_plan(
    pacing: FramePacing,
    length: usize,
    took: u64,
    slept: u64,
    now: u64,
)
    ensures
        ({
            let sent = pacing.after_packet(length, SendResult::Sent(length), took);
            &&& sent.batch_at(now) == pacing.batch_at(now)
            &&& sent.after_batch().packet_index == pacing.after_batch().packet_index
            &&& sent.after_batch().tick_index == pacing.after_batch().tick_index
            &&& sent.failed == pacing.failed
            &&& pacing.packets_sent < u64::MAX ==> sent.packets_sent == pacing.packets_sent + 1
            &&& pacing.sent_in_batch < u64::MAX ==> sent.sent_in_batch == pacing.sent_in_batch + 1
            &&& pacing.bytes_sent + length <= u64::MAX ==> sent.bytes_sent == pacing.bytes_sent
                + length
        }),
        pacing.after_wait(slept).batch_at(now) == pacing.batch_at(now),
        pacing.sleep + slept <= u64::MAX ==> pacing.after_wait(slept).sleep == pacing.sleep
            + slept,
        forall|sent: usize|
            sent != length ==> #[trigger] pacing.after_packet(
                length,
                SendResult::Sent(sent),
                took,
            ).failed,
        pacing.after_packet(length, SendResult::Failed, took).failed,
        pacing.after_packet(length, SendResult::Failed, took).bytes_sent == pacing.bytes_sent,
{
}

/// A batch that is more than two milliseconds late leaves at once, and the rest of the frame
/// follows from then on, a millisecond between two batches.
pub proof fn law_late_frame_is_planned_anew(pacing: FramePacing, now: u64, later: u64)
    requires
        pacing.inv(),
        pacing.uses_batch,
        !pacing.failed,
        pacing.packet_index + pacing.batch_size < pacing.frame.packet_count,
        pacing.schedule_origin + pacing.tick_index * 1_000_000 + 2_000_000 < now,
        now <= later <= now + 3_000_000,
        later + 1_000_000 <= u64::MAX,
    ensures
        pacing.batch_at(now) matches Some(batch) && batch.target == Some(now) && batch.first
            == pacing.packet_index,
        pacing.planned_at(now).after_batch().batch_at(later) matches Some(next) && next.target
            == Some((now + 1_000_000) as u64) && next.first == pacing.packet_index
            + pacing.batch_size,
        pacing.overrun_ticks < u64::MAX ==> pacing.planned_at(now).overrun_ticks
            == pacing.overrun_ticks + 1,
{
    assert(PACING_TICK * pacing.tick_index <= u64::MAX) by (nonlinear_arith)
        requires
            pacing.tick_index <= u32::MAX,
            PACING_TICK == 1_000_000,
    ;
}

/// Without pacing all packets of a frame leave in one batch that waits for nothing.
pub proof fn law_unpaced_frame_leaves_at_once(frame: PacedFrame, frame_started: u64, now: u64)
    requires
        frame.packet_count > 0,
    ensures
        ({
            let begun = FramePacing::started(frame, PacketPacing::Off, frame_started);
            &&& begun.batch_at(now) == Some(
                Batch { first: 0, end: frame.packet_count, target: None, late: 0 },
            )
            &&& begun.planned_at(now).after_batch().batch_at(now) is None
        }),
{
}

/// A wait ends half a millisecond before its target, and what is closer is not waited for.
pub proof fn law_waits_end_just_before_the_target(now: u64, target: u64)
    ensures
        match pacing_wait(now, target) {
            Some(wait) => wait > 0 && now + wait + 500_000 == target,
            None => target <= now + 500_000,
        },
{
}

/// The frames of a second fit into it, and with one nanosecond more for each they would
/// not.
pub proof fn law_frames_fill_the_second(target_fps: u32)
    requires
        target_fps > 0,
    ensures
        target_fps * interval_of(target_fps) <= 1_000_000_000,
        target_fps * (interval_of(target_fps) + 1) > 1_000_000_000,
{
    let fps = target_fps as int;
    let interval = interval_of(target_fps) as int;
    assert(interval == 1_000_000_000int / fps);
    assert(fps * interval <= 1_000_000_000 < fps * (interval + 1)) by (nonlinear_arith)
        requires
            fps > 0,
            interval == 1_000_000_000int / fps,
    ;
}

/// Header, description of parity and data fill a datagram: 38 bytes are the header's.
pub proof fn law_datagrams_are_filled(
    udp_payload_size: usize,
    fec_metadata: usize,
    fec_mode: FecMode,
)
    ensures
        payload_size(udp_payload_size, fec_metadata, FecMode::Off) + 38 == udp_payload_size,
        payload_size(udp_payload_size, fec_metadata, FecMode::SingleXor) + 38 + fec_metadata
            == udp_payload_size,
{
}

/// Of the packets that left, those of the frame itself are kept for repairs where repairs
/// are asked for, and no parity packet is.
pub proof fn law_data_packets_are_kept(pacing: FramePacing, index: usize, flags: u16)
    ensures
        pacing.is_kept(RepairMode::Nack, index, Some(flags)) == (index
            < pacing.frame.data_packet_count && flags & 0x10 == 0),
        !pacing.is_kept(RepairMode::Nack, index, None),
        !pacing.is_kept(RepairMode::Off, index, Some(flags)),
{
}

/// A frame that left whole adds one to the frames, and its packets and bytes to theirs:
/// every packet is one of data or of parity.
pub proof fn law_sent_frame_is_counted(
    pacing: FramePacing,
    counters: PacingCounters,
    elapsed: u64,
    worker_loop: u64,
)
    requires
        !pacing.failed,
        counters.frames_sent < u64::MAX,
        counters.packets_sent + pacing.packets_sent <= u64::MAX,
        counters.bytes_sent + pacing.bytes_sent <= u64::MAX,
        counters.data_packets_sent + pacing.frame.data_packet_count <= u64::MAX,
        counters.fec_packets_sent + pacing.frame.fec_packet_count <= u64::MAX,
        pacing.frame.data_packet_count + pacing.frame.fec_packet_count
            == pacing.frame.packet_count,
        pacing.packets_sent == pacing.frame.packet_count,
    ensures
        ({
            let after = pacing.counted(counters, elapsed, worker_loop);
            &&& after.frames_sent == counters.frames_sent + 1
            &&& after.send_errors == counters.send_errors
            &&& after.packets_sent == counters.packets_sent + pacing.packets_sent
            &&& after.bytes_sent == counters.bytes_sent + pacing.bytes_sent
            &&& after.data_packets_sent == counters.data_packets_sent
                + pacing.frame.data_packet_count
            &&& after.fec_packets_sent == counters.fec_packets_sent
                + pacing.frame.fec_packet_count
            &&& after.max_packets_per_frame >= pacing.frame.packet_count
            &&& after.max_packets_per_frame >= counters.max_packets_per_frame
            &&& elapsed <= pacing.frame.frame_interval ==> after.pacing_overrun_frames
                == counters.pacing_overrun_frames
            &&& elapsed > pacing.frame.frame_interval && counters.pacing_overrun_frames
                < u64::MAX ==> after.pacing_overrun_frames == counters.pacing_overrun_frames + 1
        }),
{
}

} // verus!
