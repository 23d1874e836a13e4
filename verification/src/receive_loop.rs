//! What the receiver does with datagrams and with the time between them.
//!
//! Sockets, the reassembly of encoded frames, sound and the control of profiles stand
//! outside.  The caller asks here what comes next, does it, and hands back what came of
//! it.  Times are nanoseconds of a monotonic clock, unless their names say otherwise.
//! Counters stop at their maximum.

use vstd::prelude::*;

use crate::choices::RepairMode;
use crate::close_handshake;
use crate::close_handshake::{
    classify_incoming_stream_close, classify_short_or_nack, is_expected_udp_peer_reset,
    CloseResult, IncomingStreamCloseDecision, PeerAddress, ReceiveError,
};
use crate::decode_queue::DecodeQueue;
use crate::encoded_frame::EncodedFrame;
use crate::media_clock;
use crate::media_clock::{millis_to_us, MediaTimestampUs, ReceiverMediaClockAnchor};
use crate::media_control;
use crate::media_control::{
    is_profile_change, is_stream_close, CapabilityFeedback, ProfileAck, ProfileChange, StreamClose,
    StreamCloseAck, MEDIA_CONTROL_VERSION, PROFILE_CHANGE_MAGIC, STREAM_CLOSE_MAGIC,
};
use crate::media_packet::{MediaPacket, PacketModel, FLAG_FEC, STREAM_VIDEO};
use crate::playout_buffer::PlayoutBuffer;
use crate::readiness::{CapabilityFeedbackCounters, CapabilityFeedbackSource, FeedbackMetrics};
use crate::receiver_stats;
use crate::receiver_stats::{
    DispatchTiming, NackCollectionStats, PacketDispatchStats, PendingSummary, ProfileControlStats,
    ReceiverProfileStats, ReceiverRepairStats,
};
use crate::repair_book;
use crate::repair_book::{Arrival, MissedRepairs, PacketKey, RepairBook, RepairModel};

verus! {

/// The largest datagram that is received.
pub const MAX_DATAGRAM_SIZE: usize = 2048;

/// How many datagrams are received before anything else is done.
pub const MAX_DATAGRAMS_PER_TICK: usize = 1024;

/// What the receiver knows, apart from the book of repairs.
#[derive(Clone, Copy, Debug)]
pub struct LoopState {
    pub repair_mode: RepairMode,
    pub playout_delay_ms: u64,
    pub capability_feedback_ms: u64,
    /// The end that the stream comes from.
    pub peer: Option<PeerAddress>,
    pub repair: ReceiverRepairStats,
    pub dispatch: PacketDispatchStats,
    pub profile: ReceiverProfileStats,
    pub feedback: CapabilityFeedbackCounters,
    pub timing: DispatchTiming,
    pub media_anchor: ReceiverMediaClockAnchor,
    /// How many frames had expired when it was last looked at.
    pub previous_expired: u64,
    pub udp_recv_loop_overruns: u64,
    pub audio_session_id: Option<u64>,
    pub next_feedback_at: u64,
    pub last_valid_peer_activity: Option<u64>,
    pub peer_close_linger_until: Option<u64>,
    pub accepted_peer_close: Option<(PeerAddress, StreamClose)>,
}

/// The receiver.
#[derive(Debug)]
pub struct ReceiveLoop {
    pub state: LoopState,
    pub book: RepairBook,
}

/// What has to be done with a datagram.
#[derive(Clone, Copy, Debug, PartialEq, Eq, Structural)]
pub enum DatagramAction {
    Ignore,
    /// Acknowledge a close; the first time, the run ends with it.
    AcknowledgeClose { ack: StreamCloseAck, stop: bool },
    /// Ask the control of profiles about an announcement.
    CheckProfileChange(ProfileChange),
    /// Tell the control of profiles that an announcement was not valid.
    RejectProfileChange,
    /// Offer it to sound, and go on with `on_audio`.
    OfferToAudio,
}

/// What the control of profiles says of an announcement.
#[derive(Clone, Copy, Debug, PartialEq, Eq, Structural)]
pub enum ProfileDecision {
    /// It is new.
    Ack(ProfileAck),
    /// It is a repetition.
    Reack(ProfileAck),
    Refused,
}

/// What sound says of a datagram.
#[derive(Clone, Copy, Debug, PartialEq, Eq, Structural)]
pub enum AudioIngress {
    NotAudio,
    Accepted,
    Invalid,
    DroppedSessionMismatch,
}

/// What the header of a media packet says.
#[derive(Clone, Copy, Debug, PartialEq, Eq, Structural)]
pub struct MediaKey {
    pub session_id: u64,
    pub key: PacketKey,
    pub flags: u16,
}

/// What has to be done with a media packet.
#[derive(Clone, Copy, Debug, PartialEq, Eq, Structural)]
pub enum MediaAction {
    Ignore,
    /// It is of another session: ask the control of profiles whether that begins now, and
    /// go on with `activate`.
    Activate(u64),
    /// Go on with `on_video`.
    Dispatch,
}

/// A profile that was announced.
#[derive(Clone, Copy, Debug, PartialEq, Eq, Structural)]
pub struct PendingProfile {
    pub change: ProfileChange,
    pub created_at: u64,
    pub expires_at: u64,
}

/// What the reassembly of frames says of frames that never became complete.
#[derive(Clone, Copy, Debug, PartialEq, Eq, Structural)]
pub struct ExpiryReport {
    pub frames_incomplete_expired: u64,
    pub last_damaged_frame_id: Option<u64>,
}

/// `time`, or an earlier one that is set.
pub open spec fn first_set(set: Option<u64>, time: u64) -> Option<u64> {
    match set {
        Some(earlier) => Some(earlier),
        None => Some(time),
    }
}

impl LoopState {
    /// Nothing was received yet.
    pub open spec fn initial(
        repair_mode: RepairMode,
        playout_delay_ms: u64,
        capability_feedback_ms: u64,
        now: u64,
    ) -> LoopState {
        LoopState {
            repair_mode,
            playout_delay_ms,
            capability_feedback_ms,
            peer: None,
            repair: ReceiverRepairStats::initial(),
            dispatch: PacketDispatchStats::initial(),
            profile: ReceiverProfileStats::initial(),
            feedback: CapabilityFeedbackCounters::initial(),
            timing: DispatchTiming::initial(),
            media_anchor: fresh_anchor(playout_delay_ms),
            previous_expired: 0,
            udp_recv_loop_overruns: 0,
            audio_session_id: None,
            next_feedback_at: later(now, capability_feedback_ms),
            last_valid_peer_activity: None,
            peer_close_linger_until: None,
            accepted_peer_close: None,
        }
    }

    // Closing.

    /// The state after a close of the other end.
    pub open spec fn with_close(
        self,
        decision: IncomingStreamCloseDecision,
        source: PeerAddress,
        now: u64,
        linger: u64,
    ) -> LoopState {
        let d = self.dispatch;
        match decision {
            IncomingStreamCloseDecision::Accept(close) => LoopState {
                last_valid_peer_activity: Some(now),
                accepted_peer_close: Some((source, close)),
                dispatch: PacketDispatchStats {
                    stream_close_received: d.stream_close_received.saturating_add(1),
                    ..d
                },
                peer_close_linger_until: first_set(
                    self.peer_close_linger_until,
                    now.saturating_add(linger),
                ),
                ..self
            },
            IncomingStreamCloseDecision::Duplicate(_) => LoopState {
                dispatch: PacketDispatchStats {
                    stream_close_duplicate: d.stream_close_duplicate.saturating_add(1),
                    ..d
                },
                ..self
            },
            IncomingStreamCloseDecision::RejectPreSession => LoopState {
                dispatch: PacketDispatchStats {
                    stream_close_rejected_pre_session:
                        d.stream_close_rejected_pre_session.saturating_add(1),
                    ..d
                },
                ..self
            },
            IncomingStreamCloseDecision::RejectPeer => LoopState {
                dispatch: PacketDispatchStats {
                    stream_close_rejected_peer: d.stream_close_rejected_peer.saturating_add(1),
                    ..d
                },
                ..self
            },
            IncomingStreamCloseDecision::RejectSession => LoopState {
                dispatch: PacketDispatchStats {
                    stream_close_rejected_session: d.stream_close_rejected_session.saturating_add(
                        1,
                    ),
                    ..d
                },
                ..self
            },
            IncomingStreamCloseDecision::RejectInvalid => LoopState {
                dispatch: PacketDispatchStats {
                    stream_close_rejected_invalid: d.stream_close_rejected_invalid.saturating_add(
                        1,
                    ),
                    ..d
                },
                ..self
            },
        }
    }

    /// The state after a datagram, and what has to be done with it.
    pub open spec fn with_datagram(
        self,
        datagram: Seq<u8>,
        source: PeerAddress,
        session_id: Option<u64>,
        stopping: bool,
        now: u64,
        linger: u64,
    ) -> (LoopState, DatagramAction) {
        if media_control::starts_with_magic(datagram, STREAM_CLOSE_MAGIC) {
            let decision = close_handshake::close_decision(
                datagram,
                source,
                self.peer,
                session_id,
                self.accepted_peer_close,
            );
            (
                self.with_close(decision, source, now, linger),
                match decision {
                    IncomingStreamCloseDecision::Accept(close) => DatagramAction::AcknowledgeClose {
                        ack: close.acknowledgement(),
                        stop: true,
                    },
                    IncomingStreamCloseDecision::Duplicate(
                        close,
                    ) => DatagramAction::AcknowledgeClose {
                        ack: close.acknowledgement(),
                        stop: false,
                    },
                    _ => DatagramAction::Ignore,
                },
            )
        } else if stopping {
            (self, DatagramAction::Ignore)
        } else if media_control::starts_with_magic(datagram, PROFILE_CHANGE_MAGIC) {
            match ProfileChange::parse(datagram) {
                Ok(change) => (self, DatagramAction::CheckProfileChange(change)),
                Err(_) => (self.with_invalid_change(), DatagramAction::RejectProfileChange),
            }
        } else {
            (self, DatagramAction::OfferToAudio)
        }
    }

    pub open spec fn with_invalid_change(self) -> LoopState {
        LoopState {
            profile: ReceiverProfileStats {
                changes_invalid: self.profile.changes_invalid.saturating_add(1),
                ..self.profile
            },
            ..self
        }
    }

    pub open spec fn with_stale_packet(self) -> LoopState {
        LoopState {
            profile: ReceiverProfileStats {
                stale_packets_dropped: self.profile.stale_packets_dropped.saturating_add(1),
                ..self.profile
            },
            ..self
        }
    }

    /// The state after the control of profiles has spoken, and the acknowledgement that
    /// is owed.
    pub open spec fn with_profile_decision(self, decision: ProfileDecision, now: u64) -> (
        LoopState,
        Option<ProfileAck>,
    ) {
        match decision {
            ProfileDecision::Ack(ack) => (
                LoopState {
                    profile: ReceiverProfileStats {
                        changes_received: self.profile.changes_received.saturating_add(1),
                        ..self.profile
                    },
                    last_valid_peer_activity: Some(now),
                    ..self
                },
                Some(ack),
            ),
            ProfileDecision::Reack(ack) => (
                LoopState { last_valid_peer_activity: Some(now), ..self },
                Some(ack),
            ),
            ProfileDecision::Refused => (self.with_invalid_change(), None),
        }
    }

    /// The state after a datagram that is not control, and what has to be done with it.
    pub open spec fn with_media(
        self,
        datagram: Seq<u8>,
        source: PeerAddress,
        session_id: Option<u64>,
        header: Option<MediaKey>,
    ) -> (LoopState, MediaAction) {
        let nack = close_handshake::is_nack(datagram);
        if datagram.len() < 4 || nack {
            (self.with_unknown(nack), MediaAction::Ignore)
        } else {
            match header {
                None => (self.with_unknown(false), MediaAction::Ignore),
                Some(header) => if self.peer is Some && self.peer != Some(source) {
                    (self.with_stale_packet(), MediaAction::Ignore)
                } else if session_id is Some && session_id != Some(header.session_id) {
                    match PacketModel::parse(datagram) {
                        Ok(packet) => if packet.stream_id == STREAM_VIDEO && packet.flags
                            & FLAG_FEC == 0 {
                            (self, MediaAction::Activate(packet.session_id))
                        } else {
                            (self.with_stale_packet(), MediaAction::Ignore)
                        },
                        Err(_) => (self.with_stale_packet(), MediaAction::Ignore),
                    }
                } else {
                    (self, MediaAction::Dispatch)
                },
            }
        }
    }

    pub open spec fn with_unknown(self, nack: bool) -> LoopState {
        let d = self.dispatch;
        LoopState {
            dispatch: PacketDispatchStats {
                unknown_packets_received: d.unknown_packets_received.saturating_add(1),
                nack_control_packets_received: if nack {
                    d.nack_control_packets_received.saturating_add(1)
                } else {
                    d.nack_control_packets_received
                },
                repair_packets_dropped_wrong_type: if nack {
                    d.repair_packets_dropped_wrong_type.saturating_add(1)
                } else {
                    d.repair_packets_dropped_wrong_type
                },
                ..d
            },
            ..self
        }
    }

    /// The state after another session has begun.
    pub open spec fn activated(
        self,
        pending: PendingProfile,
        expired: u64,
        has_audio: bool,
        now: u64,
    ) -> LoopState {
        let wait = now.saturating_sub(pending.created_at);
        let change = pending.change;
        LoopState {
            previous_expired: expired,
            audio_session_id: if has_audio {
                Some(change.new_session_id)
            } else {
                self.audio_session_id
            },
            media_anchor: fresh_anchor(self.playout_delay_ms),
            profile: ReceiverProfileStats {
                new_session_first_packet_wait_total:
                    self.profile.new_session_first_packet_wait_total.saturating_add(wait),
                new_session_first_packet_wait_max: receiver_stats::larger(
                    self.profile.new_session_first_packet_wait_max,
                    wait,
                ),
                change_sequence: change.change_sequence,
                generation: change.profile_generation,
                target_width: change.width,
                target_height: change.height,
                target_fps: change.fps,
                target_bitrate_mbps: change.bitrate_mbps,
                decoder_resets: self.profile.decoder_resets.saturating_add(1),
                ..self.profile
            },
            next_feedback_at: now,
            ..self
        }
    }

    /// The state after a video packet of the kind that `flags` say.
    pub open spec fn with_video(self, flags: u16) -> LoopState {
        let d = self.dispatch;
        LoopState {
            dispatch: if flags & FLAG_FEC == 0 {
                PacketDispatchStats {
                    video_data_packets_received: d.video_data_packets_received.saturating_add(1),
                    ..d
                }
            } else {
                PacketDispatchStats {
                    video_fec_packets_received: d.video_fec_packets_received.saturating_add(1),
                    ..d
                }
            },
            ..self
        }
    }

    /// The state after a packet that the book knows.  `in_flight` says that its frame is
    /// not complete, `remaining` how long it could have been.
    pub open spec fn with_arrival(
        self,
        arrival: Arrival,
        in_flight: bool,
        remaining: Option<u64>,
    ) -> LoopState {
        let r = self.repair;
        let d = self.dispatch;
        let after_complete = if in_flight {
            r.repair_packets_received_after_frame_complete
        } else {
            r.repair_packets_received_after_frame_complete.saturating_add(1)
        };
        match arrival {
            Arrival::Requested => LoopState {
                repair: ReceiverRepairStats {
                    repair_packets_received: r.repair_packets_received.saturating_add(1),
                    repair_unique_packets_received:
                        r.repair_unique_packets_received.saturating_add(1),
                    repair_packets_inserted: if in_flight {
                        r.repair_packets_inserted.saturating_add(1)
                    } else {
                        r.repair_packets_inserted
                    },
                    repair_packets_received_after_frame_complete: after_complete,
                    repair_arrival_to_deadline: match remaining {
                        Some(remaining) => r.repair_arrival_to_deadline.with(remaining),
                        None => r.repair_arrival_to_deadline,
                    },
                    ..r
                },
                dispatch: PacketDispatchStats {
                    repair_packets_dropped_no_frame: if in_flight {
                        d.repair_packets_dropped_no_frame
                    } else {
                        d.repair_packets_dropped_no_frame.saturating_add(1)
                    },
                    ..d
                },
                ..self
            },
            Arrival::Repeated => LoopState {
                repair: ReceiverRepairStats {
                    repair_packets_received: r.repair_packets_received.saturating_add(1),
                    repair_duplicate_packets_received:
                        r.repair_duplicate_packets_received.saturating_add(1),
                    repair_duplicate_packets: r.repair_duplicate_packets.saturating_add(1),
                    repair_packets_received_after_frame_complete: after_complete,
                    ..r
                },
                dispatch: PacketDispatchStats {
                    repair_packets_dropped_late: if in_flight {
                        d.repair_packets_dropped_late
                    } else {
                        d.repair_packets_dropped_late.saturating_add(1)
                    },
                    ..d
                },
                ..self
            },
            Arrival::Unrequested => self,
        }
    }

    /// The state after a datagram that the reassembly of frames took.
    pub open spec fn with_valid_media(
        self,
        source: PeerAddress,
        session_id: Option<u64>,
        has_audio: bool,
        now: u64,
    ) -> LoopState {
        LoopState {
            last_valid_peer_activity: Some(now),
            peer: match self.peer {
                Some(peer) => Some(peer),
                None => Some(source),
            },
            audio_session_id: if has_audio && session_id is Some {
                session_id
            } else {
                self.audio_session_id
            },
            ..self
        }
    }

    /// The state after a frame that waited for packets was completed.
    pub open spec fn with_repaired_frame(self, wait: u64, cancelled: u64) -> LoopState {
        let r = self.repair;
        LoopState {
            repair: ReceiverRepairStats {
                repair_frames_completed: r.repair_frames_completed.saturating_add(1),
                repair_wait_total: r.repair_wait_total.saturating_add(wait),
                repair_wait_max: receiver_stats::larger(r.repair_wait_max, wait),
                repair_cancelled_frame_complete: r.repair_cancelled_frame_complete.saturating_add(
                    cancelled,
                ),
                ..r
            },
            ..self
        }
    }

    /// The state after frames have expired.
    pub open spec fn with_expired(self, report: ExpiryReport) -> LoopState {
        let r = self.repair;
        LoopState {
            repair: ReceiverRepairStats {
                repair_deadline_missed: r.repair_deadline_missed.saturating_add(
                    report.frames_incomplete_expired.saturating_sub(self.previous_expired),
                ),
                ..r
            },
            previous_expired: report.frames_incomplete_expired,
            ..self
        }
    }

    /// The state after frames that waited for packets were missed.
    pub open spec fn with_missed(self, missed: MissedRepairs) -> LoopState {
        let r = self.repair;
        LoopState {
            repair: ReceiverRepairStats {
                repair_deadline_total: r.repair_deadline_total.saturating_add(missed.total_wait),
                repair_deadline_max: receiver_stats::larger(
                    r.repair_deadline_max,
                    missed.longest_wait,
                ),
                repair_deadline_samples: r.repair_deadline_samples.saturating_add(missed.frames),
                ..r
            },
            ..self
        }
    }

    /// The other end has been silent for too long.
    pub open spec fn timed_out(self, now: u64, hard_timeout: u64) -> bool {
        self.last_valid_peer_activity matches Some(last) && now.saturating_sub(last)
            >= hard_timeout
    }

    /// The profile that is announced, as it is shown.
    pub open spec fn pending_summary(pending: Option<PendingProfile>, now: u64) -> PendingSummary {
        match pending {
            Some(pending) => PendingSummary {
                present: true,
                age_ms: now.saturating_sub(pending.created_at) / 1_000_000,
                deadline_remaining_ms: pending.expires_at.saturating_sub(now) / 1_000_000,
                change_sequence: pending.change.change_sequence,
                generation: pending.change.profile_generation,
                old_session_id: pending.change.old_session_id,
                new_session_id: pending.change.new_session_id,
            },
            None => PendingSummary::initial(),
        }
    }

    /// The state after the control of profiles was asked how it stands.  Where an
    /// announcement has expired, feedback is due at once.
    pub open spec fn with_control(
        self,
        control: ProfileControlStats,
        pending: Option<PendingProfile>,
        expired: bool,
        now: u64,
    ) -> LoopState {
        LoopState {
            profile: ReceiverProfileStats {
                control,
                pending: Self::pending_summary(pending, now),
                ..self.profile
            },
            next_feedback_at: if expired {
                now
            } else {
                self.next_feedback_at
            },
            ..self
        }
    }
}

/// No timestamp was seen yet.
pub open spec fn fresh_anchor(playout_delay_ms: u64) -> ReceiverMediaClockAnchor {
    ReceiverMediaClockAnchor {
        first_media_timestamp_us: None,
        receiver_clock_anchor_us: None,
        playout_delay_ms,
        last_audio_timestamp_us: None,
        last_video_timestamp_us: None,
    }
}

/// `ms` milliseconds after `now`.
pub open spec fn later(now: u64, ms: u64) -> u64 {
    if now + ms * 1_000_000 <= u64::MAX {
        (now + ms * 1_000_000) as u64
    } else {
        u64::MAX
    }
}

fn time_after(now: u64, ms: u64) -> (r: u64)
    ensures
        r == later(now, ms),
{
    match ms.checked_mul(1_000_000) {
        Some(ns) => now.saturating_add(ns),
        None => u64::MAX,
    }
}

/// The anchor after the frames were seen at the reading `now_us`.
pub open spec fn anchor_after(
    anchor: ReceiverMediaClockAnchor,
    frames: Seq<EncodedFrame>,
    now_us: u64,
) -> ReceiverMediaClockAnchor
    decreases frames.len(),
{
    if frames.len() == 0 {
        anchor
    } else {
        let before = anchor_after(anchor, frames.drop_last(), now_us);
        let timestamp = media_clock::ms_to_us(frames.last().timestamp_ms);
        ReceiverMediaClockAnchor {
            last_video_timestamp_us: Some(timestamp),
            ..before.observed(MediaTimestampUs(timestamp), now_us)
        }
    }
}

/// Shows the frames to the anchor while the receiver's clock reads `now_us`; without a
/// clock nothing is done.
pub fn observe_video_frames(
    frames: &Vec<EncodedFrame>,
    now_us: Option<u64>,
    media_anchor: &mut ReceiverMediaClockAnchor,
)
    requires
        now_us matches Some(now_us) ==> old(media_anchor).can_anchor(now_us),
    ensures
        *final(media_anchor) == match now_us {
            Some(now_us) => anchor_after(*old(media_anchor), frames@, now_us),
            None => *old(media_anchor),
        },
{
    let now_us: u64 = match now_us {
        Some(now_us) => now_us,
        None => {
            return ;
        },
    };
    let ghost before = *media_anchor;
    let mut i: usize = 0;
    while i < frames.len()
        invariant
            i <= frames@.len(),
            *media_anchor == anchor_after(before, frames@.take(i as int), now_us),
            media_anchor.can_anchor(now_us),
        decreases frames@.len() - i,
    {
        assert(frames@.take(i + 1).drop_last() =~= frames@.take(i as int));
        media_anchor.observe_video(
            MediaTimestampUs(millis_to_us(frames[i].timestamp_ms)),
            now_us,
        );
        i = i + 1;
    }
    assert(frames@.take(frames@.len() as int) =~= frames@);
}

/// The state and the book after the frames were completed.
pub open spec fn after_frames(
    state: LoopState,
    book: RepairModel,
    frames: Seq<EncodedFrame>,
    now: u64,
) -> (LoopState, RepairModel)
    decreases frames.len(),
{
    if frames.len() == 0 {
        (state, book)
    } else {
        let (state, book) = after_frames(state, book, frames.drop_last(), now);
        let id = frames.last().frame_id;
        if repair_book::waits(book.frames, id) {
            let since = choose|since: u64| repair_book::waiting_since(book.frames, id, since);
            (
                state.with_repaired_frame(
                    now.saturating_sub(since),
                    repair_book::of_frame(book.requested, id).len() as u64,
                ),
                book.after_completion(id, now),
            )
        } else {
            (state, book)
        }
    }
}

/// The state and the book after frames have expired.
pub open spec fn after_expiry(
    state: LoopState,
    book: RepairModel,
    report: ExpiryReport,
    now: u64,
) -> (LoopState, RepairModel) {
    if report.frames_incomplete_expired <= state.previous_expired {
        (state, book)
    } else {
        let next = state.with_expired(report);
        match report.last_damaged_frame_id {
            None => (next, book),
            Some(last) => {
                let missed = repair_book::missed_frames(book.frames, last);
                (
                    next.with_missed(
                        MissedRepairs {
                            frames: missed.len() as u64,
                            total_wait: repair_book::clipped(repair_book::total_wait(missed, now)),
                            longest_wait: repair_book::longest_wait(missed, now),
                        },
                    ),
                    RepairModel { frames: repair_book::later_frames(book.frames, last), ..book },
                )
            },
        }
    }
}

impl ReceiveLoop {
    /// The book is in order.
    pub open spec fn well_formed(self) -> bool {
        self.book@.well_formed()
    }

    pub fn new(
        repair_mode: RepairMode,
        playout_delay_ms: u64,
        capability_feedback_ms: u64,
        now: u64,
    ) -> (r: ReceiveLoop)
        ensures
            r.well_formed(),
            r.state == LoopState::initial(
                repair_mode,
                playout_delay_ms,
                capability_feedback_ms,
                now,
            ),
            r.book@ == RepairModel::empty(),
    {
        ReceiveLoop {
            state: LoopState {
                repair_mode,
                playout_delay_ms,
                capability_feedback_ms,
                peer: None,
                repair: ReceiverRepairStats::new(),
                dispatch: PacketDispatchStats::new(),
                profile: ReceiverProfileStats::new(),
                feedback: CapabilityFeedbackCounters::new(),
                timing: DispatchTiming::new(),
                media_anchor: ReceiverMediaClockAnchor::new(playout_delay_ms),
                previous_expired: 0,
                udp_recv_loop_overruns: 0,
                audio_session_id: None,
                next_feedback_at: time_after(now, capability_feedback_ms),
                last_valid_peer_activity: None,
                peer_close_linger_until: None,
                accepted_peer_close: None,
            },
            book: RepairBook::new(),
        }
    }

    /// Whether the receiver goes on: it does until it is stopped, and after a close of the
    /// other end for a while longer, to acknowledge repetitions.
    pub fn goes_on(&self, stopping: bool, now: u64) -> (r: bool)
        ensures
            r == (!stopping || (self.state.peer_close_linger_until matches Some(until) && now
                < until)),
    {
        !stopping || match self.state.peer_close_linger_until {
            Some(until) => now < until,
            None => false,
        }
    }

    /// Whether the receiver only acknowledges repetitions of a close: frames are then no
    /// longer released.
    pub fn only_lingers(&self, stopping: bool) -> (r: bool)
        ensures
            r == (stopping && self.state.peer_close_linger_until is Some),
    {
        stopping && self.state.peer_close_linger_until.is_some()
    }

    /// Whether a failure to receive may be due to a peer that is gone: it has closed, or
    /// was heard before.
    pub fn expects_reset(&self, kind: ReceiveError) -> (r: bool)
        ensures
            r == (kind == ReceiveError::ConnectionReset && (
            self.state.peer_close_linger_until is Some
                || self.state.last_valid_peer_activity is Some)),
    {
        is_expected_udp_peer_reset(
            kind,
            self.state.peer_close_linger_until.is_some()
                || self.state.last_valid_peer_activity.is_some(),
        )
    }

    /// Whether missing packets are searched for: packets can be asked for, and it is known
    /// of whom and in which session.
    pub fn searches_missing(&self, session_id: Option<u64>) -> (r: bool)
        ensures
            r == (self.state.repair_mode == RepairMode::Nack && self.state.peer is Some
                && session_id is Some),
    {
        self.state.repair_mode == RepairMode::Nack && self.state.peer.is_some()
            && session_id.is_some()
    }

    fn note_close(
        &mut self,
        decision: IncomingStreamCloseDecision,
        source: PeerAddress,
        now: u64,
        linger: u64,
    )
        ensures
            final(self).state == old(self).state.with_close(decision, source, now, linger),
            final(self).book == old(self).book,
    {
        let mut d: PacketDispatchStats = self.state.dispatch;
        match decision {
            IncomingStreamCloseDecision::Accept(close) => {
                self.state.last_valid_peer_activity = Some(now);
                self.state.accepted_peer_close = Some((source, close));
                d.stream_close_received = d.stream_close_received.saturating_add(1);
                if self.state.peer_close_linger_until.is_none() {
                    self.state.peer_close_linger_until = Some(now.saturating_add(linger));
                }
            },
            IncomingStreamCloseDecision::Duplicate(_) => {
                d.stream_close_duplicate = d.stream_close_duplicate.saturating_add(1);
            },
            IncomingStreamCloseDecision::RejectPreSession => {
                d.stream_close_rejected_pre_session =
                d.stream_close_rejected_pre_session.saturating_add(1);
            },
            IncomingStreamCloseDecision::RejectPeer => {
                d.stream_close_rejected_peer = d.stream_close_rejected_peer.saturating_add(1);
            },
            IncomingStreamCloseDecision::RejectSession => {
                d.stream_close_rejected_session = d.stream_close_rejected_session.saturating_add(1);
            },
            IncomingStreamCloseDecision::RejectInvalid => {
                d.stream_close_rejected_invalid = d.stream_close_rejected_invalid.saturating_add(1);
            },
        }
        self.state.dispatch = d;
    }

    /// Takes a datagram.  `session_id` is the session that runs, and `linger` how long
    /// repetitions of a close are acknowledged.
    pub fn on_datagram(
        &mut self,
        datagram: &[u8],
        source: PeerAddress,
        session_id: Option<u64>,
        stopping: bool,
        now: u64,
        linger: u64,
    ) -> (action: DatagramAction)
        ensures
            (final(self).state, action) == old(self).state.with_datagram(
                datagram@,
                source,
                session_id,
                stopping,
                now,
                linger,
            ),
            final(self).book == old(self).book,
    {
        if is_stream_close(datagram) {
            let decision: IncomingStreamCloseDecision = classify_incoming_stream_close(
                datagram,
                source,
                self.state.peer,
                session_id,
                self.state.accepted_peer_close,
            );
            self.note_close(decision, source, now, linger);
            return match decision {
                IncomingStreamCloseDecision::Accept(close) => DatagramAction::AcknowledgeClose {
                    ack: close.ack(),
                    stop: true,
                },
                IncomingStreamCloseDecision::Duplicate(close) => DatagramAction::AcknowledgeClose {
                    ack: close.ack(),
                    stop: false,
                },
                _ => DatagramAction::Ignore,
            };
        }
        if stopping {
            return DatagramAction::Ignore;
        }
        if is_profile_change(datagram) {
            return match ProfileChange::decode(datagram) {
                Ok(change) => DatagramAction::CheckProfileChange(change),
                Err(_) => {
                    self.state.profile.changes_invalid =
                    self.state.profile.changes_invalid.saturating_add(1);
                    DatagramAction::RejectProfileChange
                },
            };
        }
        DatagramAction::OfferToAudio
    }

    /// Notes whether an acknowledgement of a close went out.
    pub fn on_close_ack_sent(&mut self, sent: bool)
        ensures
            final(self).state == (LoopState {
                dispatch: PacketDispatchStats {
                    stream_close_ack_sent: if sent {
                        old(self).state.dispatch.stream_close_ack_sent.saturating_add(1)
                    } else {
                        old(self).state.dispatch.stream_close_ack_sent
                    },
                    ..old(self).state.dispatch
                },
                ..old(self).state
            }),
            final(self).book == old(self).book,
    {
        if sent {
            self.state.dispatch.stream_close_ack_sent =
            self.state.dispatch.stream_close_ack_sent.saturating_add(1);
        }
    }

    /// Takes what the control of profiles says; returns the acknowledgement that is owed.
    pub fn on_profile_decision(&mut self, decision: ProfileDecision, now: u64) -> (ack: Option<
        ProfileAck,
    >)
        ensures
            (final(self).state, ack) == old(self).state.with_profile_decision(decision, now),
            final(self).book == old(self).book,
    {
        match decision {
            ProfileDecision::Ack(ack) => {
                self.state.profile.changes_received =
                self.state.profile.changes_received.saturating_add(1);
                self.state.last_valid_peer_activity = Some(now);
                Some(ack)
            },
            ProfileDecision::Reack(ack) => {
                self.state.last_valid_peer_activity = Some(now);
                Some(ack)
            },
            ProfileDecision::Refused => {
                self.state.profile.changes_invalid =
                self.state.profile.changes_invalid.saturating_add(1);
                None
            },
        }
    }

    /// Takes what sound says of a datagram; returns whether it goes on to video.  What is
    /// sound never does, valid or not.
    pub fn on_audio(&mut self, outcome: AudioIngress) -> (goes_on: bool)
        ensures
            goes_on == (outcome == AudioIngress::NotAudio),
            final(self).state == (LoopState {
                dispatch: PacketDispatchStats {
                    audio_packets_received: if outcome == AudioIngress::Accepted {
                        old(self).state.dispatch.audio_packets_received.saturating_add(1)
                    } else {
                        old(self).state.dispatch.audio_packets_received
                    },
                    ..old(self).state.dispatch
                },
                ..old(self).state
            }),
            final(self).book == old(self).book,
    {
        match outcome {
            AudioIngress::NotAudio => true,
            AudioIngress::Accepted => {
                self.state.dispatch.audio_packets_received =
                self.state.dispatch.audio_packets_received.saturating_add(1);
                false
            },
            AudioIngress::Invalid | AudioIngress::DroppedSessionMismatch => false,
        }
    }

    fn drop_stale(&mut self)
        ensures
            final(self).state == old(self).state.with_stale_packet(),
            final(self).book == old(self).book,
    {
        self.state.profile.stale_packets_dropped =
        self.state.profile.stale_packets_dropped.saturating_add(1);
    }

    fn drop_unknown(&mut self, nack: bool)
        ensures
            final(self).state == old(self).state.with_unknown(nack),
            final(self).book == old(self).book,
    {
        let mut d: PacketDispatchStats = self.state.dispatch;
        d.unknown_packets_received = d.unknown_packets_received.saturating_add(1);
        if nack {
            d.nack_control_packets_received = d.nack_control_packets_received.saturating_add(1);
            d.repair_packets_dropped_wrong_type =
            d.repair_packets_dropped_wrong_type.saturating_add(1);
        }
        self.state.dispatch = d;
    }

    /// Takes a datagram that is neither control nor sound; `header` is what its header
    /// says, if it is media.
    pub fn on_media(
        &mut self,
        datagram: &[u8],
        source: PeerAddress,
        session_id: Option<u64>,
        header: Option<MediaKey>,
    ) -> (action: MediaAction)
        ensures
            (final(self).state, action) == old(self).state.with_media(
                datagram@,
                source,
                session_id,
                header,
            ),
            final(self).book == old(self).book,
    {
        let (refused, nack): (bool, bool) = classify_short_or_nack(datagram);
        if refused {
            self.drop_unknown(nack);
            return MediaAction::Ignore;
        }
        let header: MediaKey = match header {
            Some(header) => header,
            None => {
                self.drop_unknown(false);
                return MediaAction::Ignore;
            },
        };
        if let Some(peer) = self.state.peer {
            if peer != source {
                self.drop_stale();
                return MediaAction::Ignore;
            }
        }
        if let Some(session_id) = session_id {
            if session_id != header.session_id {
                if let Ok(packet) = MediaPacket::decode(datagram) {
                    if packet.stream_id == STREAM_VIDEO && packet.flags & FLAG_FEC == 0 {
                        return MediaAction::Activate(packet.session_id);
                    }
                }
                self.drop_stale();
                return MediaAction::Ignore;
            }
        }
        MediaAction::Dispatch
    }

    /// Begins another session, where the control of profiles says that it was announced;
    /// else the packet is dropped.  The queue, the buffer and the book start anew, and the
    /// receiver has to become ready again.
    pub fn activate(
        &mut self,
        pending: Option<PendingProfile>,
        expired: u64,
        has_audio: bool,
        queue: &mut DecodeQueue,
        playout: &mut PlayoutBuffer,
        source: &mut CapabilityFeedbackSource,
        now: u64,
        wall_us: u64,
        hard_deadline: u64,
    ) -> (activated: bool)
        requires
            old(self).well_formed(),
            old(playout)@.well_formed(),
        ensures
            final(self).well_formed(),
            final(playout)@.well_formed(),
            activated == pending is Some,
            match pending {
                Some(pending) => {
                    &&& final(self).state == old(self).state.activated(
                        pending,
                        expired,
                        has_audio,
                        now,
                    )
                    &&& final(self).book@ == RepairModel::empty()
                    &&& final(queue)@ == old(queue)@.switched()
                    &&& final(playout)@ == old(playout)@.cleared()
                    &&& *final(source) == old(source).begun(
                        pending.change.new_session_id,
                        pending.change.profile_generation,
                        wall_us,
                        hard_deadline,
                    )
                },
                None => {
                    &&& final(self).state == old(self).state.with_stale_packet()
                    &&& final(self).book == old(self).book
                    &&& final(queue)@ == old(queue)@
                    &&& final(playout)@ == old(playout)@
                    &&& *final(source) == *old(source)
                },
            },
    {
        let pending: PendingProfile = match pending {
            Some(pending) => pending,
            None => {
                self.drop_stale();
                return false;
            },
        };
        let change: ProfileChange = pending.change;
        let wait: u64 = now.saturating_sub(pending.created_at);
        let mut profile: ReceiverProfileStats = self.state.profile;
        profile.new_session_first_packet_wait_total =
        profile.new_session_first_packet_wait_total.saturating_add(wait);
        if wait > profile.new_session_first_packet_wait_max {
            profile.new_session_first_packet_wait_max = wait;
        }
        profile.change_sequence = change.change_sequence;
        profile.generation = change.profile_generation;
        profile.target_width = change.width;
        profile.target_height = change.height;
        profile.target_fps = change.fps;
        profile.target_bitrate_mbps = change.bitrate_mbps;
        profile.decoder_resets = profile.decoder_resets.saturating_add(1);
        self.state.profile = profile;
        self.state.previous_expired = expired;
        playout.clear_for_discontinuity();
        self.book.clear();
        queue.begin_profile_transition();
        if has_audio {
            self.state.audio_session_id = Some(change.new_session_id);
        }
        self.state.media_anchor = ReceiverMediaClockAnchor::new(self.state.playout_delay_ms);
        source.begin_profile_transition(
            change.new_session_id,
            change.profile_generation,
            wall_us,
            hard_deadline,
        );
        self.state.next_feedback_at = now;
        true
    }

    fn note_arrival(&mut self, arrival: Arrival, in_flight: bool, remaining: Option<u64>)
        ensures
            final(self).state == old(self).state.with_arrival(arrival, in_flight, remaining),
            final(self).book == old(self).book,
    {
        let mut r: ReceiverRepairStats = self.state.repair;
        let mut d: PacketDispatchStats = self.state.dispatch;
        match arrival {
            Arrival::Requested => {
                if let Some(remaining) = remaining {
                    r.repair_arrival_to_deadline.observe(remaining);
                }
                r.repair_packets_received = r.repair_packets_received.saturating_add(1);
                r.repair_unique_packets_received =
                r.repair_unique_packets_received.saturating_add(1);
                if in_flight {
                    r.repair_packets_inserted = r.repair_packets_inserted.saturating_add(1);
                } else {
                    r.repair_packets_received_after_frame_complete =
                    r.repair_packets_received_after_frame_complete.saturating_add(1);
                    d.repair_packets_dropped_no_frame =
                    d.repair_packets_dropped_no_frame.saturating_add(1);
                }
            },
            Arrival::Repeated => {
                r.repair_packets_received = r.repair_packets_received.saturating_add(1);
                r.repair_duplicate_packets_received =
                r.repair_duplicate_packets_received.saturating_add(1);
                r.repair_duplicate_packets = r.repair_duplicate_packets.saturating_add(1);
                if !in_flight {
                    r.repair_packets_received_after_frame_complete =
                    r.repair_packets_received_after_frame_complete.saturating_add(1);
                    d.repair_packets_dropped_late = d.repair_packets_dropped_late.saturating_add(1);
                }
            },
            Arrival::Unrequested => {},
        }
        self.state.repair = r;
        self.state.dispatch = d;
    }

    /// Counts a video packet, and notes it in the book where packets are asked for again.
    pub fn on_video(
        &mut self,
        header: MediaKey,
        in_flight: bool,
        remaining: Option<u64>,
        now: u64,
    )
        requires
            old(self).well_formed(),
        ensures
            final(self).well_formed(),
            ({
                let counted = old(self).state.with_video(header.flags);
                if old(self).state.repair_mode == RepairMode::Nack && header.flags & FLAG_FEC == 0 {
                    final(self).state == counted.with_arrival(
                        old(self).book@.arrival(header.key),
                        in_flight,
                        remaining,
                    ) && final(self).book@ == old(self).book@.after_arrival(header.key, now)
                } else {
                    final(self).state == counted && final(self).book == old(self).book
                }
            }),
    {
        if header.flags & FLAG_FEC == 0 {
            self.state.dispatch.video_data_packets_received =
            self.state.dispatch.video_data_packets_received.saturating_add(1);
        } else {
            self.state.dispatch.video_fec_packets_received =
            self.state.dispatch.video_fec_packets_received.saturating_add(1);
        }
        if self.state.repair_mode == RepairMode::Nack && header.flags & FLAG_FEC == 0 {
            let arrival: Arrival = self.book.packet_arrived(header.key, now);
            self.note_arrival(arrival, in_flight, remaining);
        }
    }

    fn complete_frames(&mut self, frames: &Vec<EncodedFrame>, now: u64)
        requires
            old(self).well_formed(),
        ensures
            final(self).well_formed(),
            (final(self).state, final(self).book@) == after_frames(
                old(self).state,
                old(self).book@,
                frames@,
                now,
            ),
    {
        let ghost state = self.state;
        let ghost book = self.book@;
        let mut i: usize = 0;
        while i < frames.len()
            invariant
                i <= frames@.len(),
                self.well_formed(),
                (self.state, self.book@) == after_frames(state, book, frames@.take(i as int), now),
            decreases frames@.len() - i,
        {
            assert(frames@.take(i + 1).drop_last() =~= frames@.take(i as int));
            let ghost before = self.book@;
            let frame_id: u64 = frames[i].frame_id;
            if let Some(done) = self.book.frame_completed(frame_id, now) {
                proof {
                    let w = choose|w: int|
                        0 <= w < before.frames.len() && (#[trigger] before.frames[w]).frame_id
                            == frame_id;
                    assert(repair_book::waiting_since(
                        before.frames,
                        frame_id,
                        before.frames[w].since,
                    ));
                    let since = choose|since: u64|
                        repair_book::waiting_since(before.frames, frame_id, since);
                    assert(done.wait == now.saturating_sub(since));
                }
                let mut r: ReceiverRepairStats = self.state.repair;
                r.repair_frames_completed = r.repair_frames_completed.saturating_add(1);
                r.repair_wait_total = r.repair_wait_total.saturating_add(done.wait);
                if done.wait > r.repair_wait_max {
                    r.repair_wait_max = done.wait;
                }
                r.repair_cancelled_frame_complete =
                r.repair_cancelled_frame_complete.saturating_add(done.cancelled);
                self.state.repair = r;
            }
            i = i + 1;
        }
        assert(frames@.take(frames@.len() as int) =~= frames@);
    }

    fn note_expiry(&mut self, report: ExpiryReport, now: u64) -> (recover: bool)
        requires
            old(self).well_formed(),
        ensures
            final(self).well_formed(),
            (final(self).state, final(self).book@) == after_expiry(
                old(self).state,
                old(self).book@,
                report,
                now,
            ),
            recover == (report.frames_incomplete_expired > old(self).state.previous_expired),
    {
        if report.frames_incomplete_expired <= self.state.previous_expired {
            return false;
        }
        let mut r: ReceiverRepairStats = self.state.repair;
        r.repair_deadline_missed = r.repair_deadline_missed.saturating_add(
            report.frames_incomplete_expired - self.state.previous_expired,
        );
        self.state.previous_expired = report.frames_incomplete_expired;
        if let Some(last) = report.last_damaged_frame_id {
            let missed: MissedRepairs = self.book.frames_missed(last, now);
            r.repair_deadline_total = r.repair_deadline_total.saturating_add(missed.total_wait);
            if missed.longest_wait > r.repair_deadline_max {
                r.repair_deadline_max = missed.longest_wait;
            }
            r.repair_deadline_samples = r.repair_deadline_samples.saturating_add(missed.frames);
        }
        self.state.repair = r;
        true
    }

    /// Takes what the reassembly made of a datagram that it took.  Returns whether frames
    /// were lost, so that decoding has to recover, and the session that sound has to
    /// expect from now on.
    pub fn on_frames(
        &mut self,
        frames: Vec<EncodedFrame>,
        source: PeerAddress,
        session_id: Option<u64>,
        has_audio: bool,
        report: ExpiryReport,
        clock_us: Option<u64>,
        playout: &mut PlayoutBuffer,
        now: u64,
    ) -> (r: (bool, Option<u64>))
        requires
            old(self).well_formed(),
            old(playout)@.well_formed(),
            clock_us matches Some(now_us) ==> old(self).state.media_anchor.can_anchor(now_us),
        ensures
            final(self).well_formed(),
            final(playout)@.well_formed(),
            ({
                let valid = old(self).state.with_valid_media(source, session_id, has_audio, now);
                let completed = after_frames(valid, old(self).book@, frames@, now);
                let expired = after_expiry(completed.0, completed.1, report, now);
                let recover = report.frames_incomplete_expired > old(self).state.previous_expired;
                let base = if recover {
                    old(playout)@.cleared()
                } else {
                    old(playout)@
                };
                &&& final(self).state == (LoopState {
                    media_anchor: match clock_us {
                        Some(now_us) => anchor_after(expired.0.media_anchor, frames@, now_us),
                        None => expired.0.media_anchor,
                    },
                    ..expired.0
                })
                &&& final(self).book@ == expired.1
                &&& final(playout)@ == base.with_frames(frames@, now).with_peak()
                &&& r.0 == recover
                &&& r.1 == if has_audio && session_id is Some && old(self).state.audio_session_id
                    != session_id {
                    session_id
                } else {
                    None
                }
            }),
    {
        let ghost entry_state = self.state;
        self.state.last_valid_peer_activity = Some(now);
        if self.state.peer.is_none() {
            self.state.peer = Some(source);
        }
        let mut expect: Option<u64> = None;
        if has_audio {
            if let Some(session) = session_id {
                let same: bool = match self.state.audio_session_id {
                    Some(known) => known == session,
                    None => false,
                };
                if !same {
                    expect = Some(session);
                    self.state.audio_session_id = Some(session);
                }
            }
        }
        let ghost valid = self.state;
        assert(valid == entry_state.with_valid_media(source, session_id, has_audio, now));
        let ghost book = self.book@;
        proof {
            lemma_frames_keep(valid, book, frames@, now);
        }
        self.complete_frames(&frames, now);
        let recover: bool = self.note_expiry(report, now);
        if recover {
            playout.clear_for_discontinuity();
        }
        observe_video_frames(&frames, clock_us, &mut self.state.media_anchor);
        playout.push_frames(frames, now);
        (recover, expect)
    }

    /// Takes frames that the reassembly gives when time passes.  Returns whether frames
    /// were lost.
    pub fn on_expiry(
        &mut self,
        frames: Vec<EncodedFrame>,
        report: ExpiryReport,
        clock_us: Option<u64>,
        playout: &mut PlayoutBuffer,
        now: u64,
    ) -> (recover: bool)
        requires
            old(self).well_formed(),
            old(playout)@.well_formed(),
            clock_us matches Some(now_us) ==> old(self).state.media_anchor.can_anchor(now_us),
        ensures
            final(self).well_formed(),
            final(playout)@.well_formed(),
            ({
                let expired = after_expiry(old(self).state, old(self).book@, report, now);
                let base = if recover {
                    old(playout)@.cleared()
                } else {
                    old(playout)@
                };
                &&& recover == (report.frames_incomplete_expired
                    > old(self).state.previous_expired)
                &&& final(self).state == (LoopState {
                    media_anchor: match clock_us {
                        Some(now_us) => anchor_after(expired.0.media_anchor, frames@, now_us),
                        None => expired.0.media_anchor,
                    },
                    ..expired.0
                })
                &&& final(self).book@ == expired.1
                &&& final(playout)@ == base.with_frames(frames@, now).with_peak()
            }),
    {
        let recover: bool = self.note_expiry(report, now);
        if recover {
            playout.clear_for_discontinuity();
        }
        observe_video_frames(&frames, clock_us, &mut self.state.media_anchor);
        playout.push_frames(frames, now);
        recover
    }

    /// Notes how long handling a video packet took.
    pub fn on_dispatched(&mut self, ns: u64)
        ensures
            final(self).state == (LoopState {
                timing: old(self).state.timing.with(ns),
                ..old(self).state
            }),
            final(self).book == old(self).book,
    {
        self.state.timing.observe(ns);
    }

    /// Notes how many datagrams were received in one go.
    pub fn on_drained(&mut self, datagrams: usize)
        ensures
            final(self).state == (LoopState {
                udp_recv_loop_overruns: if datagrams == MAX_DATAGRAMS_PER_TICK {
                    old(self).state.udp_recv_loop_overruns.saturating_add(1)
                } else {
                    old(self).state.udp_recv_loop_overruns
                },
                ..old(self).state
            }),
            final(self).book == old(self).book,
    {
        if datagrams == MAX_DATAGRAMS_PER_TICK {
            self.state.udp_recv_loop_overruns = self.state.udp_recv_loop_overruns.saturating_add(1);
        }
    }

    /// Notes that the other end has been silent for too long, if it has.
    pub fn check_timeout(&mut self, now: u64, hard_timeout: u64) -> (timed_out: bool)
        ensures
            timed_out == old(self).state.timed_out(now, hard_timeout),
            final(self).state == (LoopState {
                dispatch: PacketDispatchStats {
                    peer_timeout_triggered: timed_out
                        || old(self).state.dispatch.peer_timeout_triggered,
                    ..old(self).state.dispatch
                },
                ..old(self).state
            }),
            final(self).book == old(self).book,
    {
        let timed_out: bool = match self.state.last_valid_peer_activity {
            Some(last) => now.saturating_sub(last) >= hard_timeout,
            None => false,
        };
        if timed_out {
            self.state.dispatch.peer_timeout_triggered = true;
        }
        timed_out
    }

    /// Takes over how the control of profiles stands.
    pub fn on_control(
        &mut self,
        control: ProfileControlStats,
        pending: Option<PendingProfile>,
        expired: bool,
        now: u64,
    )
        ensures
            final(self).state == old(self).state.with_control(control, pending, expired, now),
            final(self).book == old(self).book,
    {
        if expired {
            self.state.next_feedback_at = now;
        }
        self.state.profile.control = control;
        self.state.profile.pending = match pending {
            Some(pending) => PendingSummary {
                present: true,
                age_ms: now.saturating_sub(pending.created_at) / 1_000_000,
                deadline_remaining_ms: pending.expires_at.saturating_sub(now) / 1_000_000,
                change_sequence: pending.change.change_sequence,
                generation: pending.change.profile_generation,
                old_session_id: pending.change.old_session_id,
                new_session_id: pending.change.new_session_id,
            },
            None => PendingSummary::new(),
        };
    }

    /// The feedback that has to be sent now, and where to, if it is due.
    pub fn next_feedback(
        &mut self,
        source: CapabilityFeedbackSource,
        session_id: Option<u64>,
        metrics: FeedbackMetrics,
        timestamp_us: u64,
        now: u64,
    ) -> (r: Option<(PeerAddress, CapabilityFeedback)>)
        ensures
            final(self).book == old(self).book,
            ({
                let before = old(self).state;
                let counters = CapabilityFeedbackCounters {
                    sequence: before.feedback.sequence.saturating_add(1),
                    ..before.feedback
                };
                if before.peer is Some && session_id is Some && before.feedback.due(
                    source.display.display_generation,
                    now,
                    before.next_feedback_at,
                ) {
                    &&& r == Some(
                        (
                            before.peer->0,
                            counters.message(source, session_id->0, metrics, timestamp_us),
                        ),
                    )
                    &&& final(self).state == (LoopState {
                        feedback: counters,
                        next_feedback_at: later(now, before.capability_feedback_ms),
                        ..before
                    })
                } else {
                    r is None && final(self).state == before
                }
            }),
    {
        let (peer, session_id): (PeerAddress, u64) = match (self.state.peer, session_id) {
            (Some(peer), Some(session_id)) => (peer, session_id),
            _ => {
                return None;
            },
        };
        if !self.state.feedback.is_due(
            source.display.display_generation,
            now,
            self.state.next_feedback_at,
        ) {
            return None;
        }
        let message: CapabilityFeedback = self.state.feedback.next_message(
            source,
            session_id,
            metrics,
            timestamp_us,
        );
        self.state.next_feedback_at = time_after(now, self.state.capability_feedback_ms);
        Some((peer, message))
    }

    /// Notes whether feedback went out.
    pub fn on_feedback_sent(&mut self, source: CapabilityFeedbackSource, sent: bool)
        ensures
            final(self).state == (LoopState {
                feedback: old(self).state.feedback.after_sending(source, sent),
                ..old(self).state
            }),
            final(self).book == old(self).book,
    {
        self.state.feedback.message_sent(source, sent);
    }

    /// Forgets packets that came long ago.
    pub fn forget_old_repairs(&mut self, now: u64)
        requires
            old(self).well_formed(),
        ensures
            final(self).well_formed(),
            final(self).state == old(self).state,
            final(self).book@ == (RepairModel {
                completed: old(self).book@.completed.filter(
                    |c: repair_book::CompletedRepair|
                        now.saturating_sub(c.at) <= repair_book::COMPLETED_REPAIR_MEMORY,
                ),
                ..old(self).book@
            }),
    {
        self.book.forget_old(now);
    }

    /// Notes what a search for missing packets found and asks for them.  Returns whether
    /// anything has to be asked for.
    pub fn on_missing(&mut self, found: NackCollectionStats, items: &[PacketKey], now: u64) -> (ask:
        bool)
        requires
            old(self).well_formed(),
        ensures
            final(self).well_formed(),
            ask == (items@.len() > 0),
            ({
                let noted = LoopState {
                    repair: old(self).state.repair.with_collection(found),
                    ..old(self).state
                };
                if ask {
                    final(self).state == (LoopState {
                        repair: ReceiverRepairStats {
                            nack_frames_requested:
                                noted.repair.nack_frames_requested.saturating_add(
                                found.requested_frames,
                            ),
                            nack_rounds_sent: noted.repair.nack_rounds_sent.saturating_add(1),
                            ..noted.repair
                        },
                        ..noted
                    }) && final(self).book@ == old(self).book@.after_request(items@, now)
                } else {
                    final(self).state == noted && final(self).book == old(self).book
                }
            }),
    {
        let mut r: ReceiverRepairStats = self.state.repair;
        r.add_collection(found);
        if items.len() == 0 {
            self.state.repair = r;
            return false;
        }
        r.nack_frames_requested = r.nack_frames_requested.saturating_add(found.requested_frames);
        r.nack_rounds_sent = r.nack_rounds_sent.saturating_add(1);
        self.state.repair = r;
        self.book.request(items, now);
        true
    }

    /// Notes whether a request for `items` packets went out.
    pub fn on_nack_sent(&mut self, items: u64, sent: bool)
        ensures
            final(self).book == old(self).book,
            final(self).state == (LoopState {
                repair: if sent {
                    ReceiverRepairStats {
                        nack_packets_sent: old(self).state.repair.nack_packets_sent.saturating_add(
                            1,
                        ),
                        nack_items_sent: old(self).state.repair.nack_items_sent.saturating_add(
                            items,
                        ),
                        ..old(self).state.repair
                    }
                } else {
                    ReceiverRepairStats {
                        repair_send_errors:
                            old(self).state.repair.repair_send_errors.saturating_add(1),
                        ..old(self).state.repair
                    }
                },
                ..old(self).state
            }),
    {
        let mut r: ReceiverRepairStats = self.state.repair;
        if sent {
            r.nack_packets_sent = r.nack_packets_sent.saturating_add(1);
            r.nack_items_sent = r.nack_items_sent.saturating_add(items);
        } else {
            r.repair_send_errors = r.repair_send_errors.saturating_add(1);
        }
        self.state.repair = r;
    }

    /// At the end: notes how long the other end has been silent, and gives the close that
    /// it has to be sent, if `notify` says that the reason for the end concerns it.
    pub fn finish(
        &mut self,
        notify: bool,
        reason_code: u8,
        session_id: Option<u64>,
        last_frame_id: Option<u64>,
        close_id: u64,
        timestamp_us: u64,
        now: u64,
    ) -> (r: Option<(PeerAddress, StreamClose)>)
        ensures
            final(self).book == old(self).book,
            final(self).state == (LoopState {
                dispatch: PacketDispatchStats {
                    peer_last_valid_age_ms: match old(self).state.last_valid_peer_activity {
                        Some(last) => now.saturating_sub(last) / 1_000_000,
                        None => 0,
                    },
                    ..old(self).state.dispatch
                },
                ..old(self).state
            }),
            r == match old(self).state.peer {
                Some(peer) if notify => Some(
                    (
                        peer,
                        StreamClose {
                            version: MEDIA_CONTROL_VERSION,
                            stream_id: STREAM_VIDEO,
                            reason_code,
                            video_session_id: session_id.unwrap_or(0),
                            close_id,
                            timestamp_us,
                            last_frame_id: last_frame_id.unwrap_or(0),
                        },
                    ),
                ),
                _ => None,
            },
    {
        self.state.dispatch.peer_last_valid_age_ms = match self.state.last_valid_peer_activity {
            Some(last) => now.saturating_sub(last) / 1_000_000,
            None => 0,
        };
        match self.state.peer {
            Some(peer) if notify => Some(
                (
                    peer,
                    StreamClose {
                        version: MEDIA_CONTROL_VERSION,
                        stream_id: STREAM_VIDEO,
                        reason_code,
                        video_session_id: session_id.unwrap_or(0),
                        close_id,
                        timestamp_us,
                        last_frame_id: last_frame_id.unwrap_or(0),
                    },
                ),
            ),
            _ => None,
        }
    }

    /// Notes how closing went.
    pub fn on_closed(&mut self, result: CloseResult)
        ensures
            final(self).book == old(self).book,
            final(self).state == (LoopState {
                dispatch: PacketDispatchStats {
                    stream_close_sent: result.sent,
                    stream_close_retry_count: result.retries,
                    stream_close_ack_received: result.ack_received,
                    stream_close_handshake_timeout: result.timed_out,
                    ..old(self).state.dispatch
                },
                ..old(self).state
            }),
    {
        self.state.dispatch.stream_close_sent = result.sent;
        self.state.dispatch.stream_close_retry_count = result.retries;
        self.state.dispatch.stream_close_ack_received = result.ack_received;
        self.state.dispatch.stream_close_handshake_timeout = result.timed_out;
    }
}

/// Completed frames change neither the anchor nor the count of expired frames.
proof fn lemma_frames_keep(
    state: LoopState,
    book: RepairModel,
    frames: Seq<EncodedFrame>,
    now: u64,
)
    ensures
        after_frames(state, book, frames, now).0.media_anchor == state.media_anchor,
        after_frames(state, book, frames, now).0.previous_expired == state.previous_expired,
    decreases frames.len(),
{
    if frames.len() > 0 {
        lemma_frames_keep(state, book, frames.drop_last(), now);
    }
}

// What holds of every receiver.

/// Once a stream comes from one end, media from another end changes nothing but a
/// counter.
pub proof fn law_stream_is_pinned_to_its_peer(
    state: LoopState,
    datagram: Seq<u8>,
    source: PeerAddress,
    session_id: Option<u64>,
    header: Option<MediaKey>,
    has_audio: bool,
    now: u64,
)
    requires
        state.peer is Some,
        state.peer != Some(source),
    ensures
        state.with_media(datagram, source, session_id, header).1 == MediaAction::Ignore,
        ({
            let after = state.with_media(datagram, source, session_id, header).0;
            after == (LoopState { dispatch: after.dispatch, profile: after.profile, ..state })
        }),
        state.with_valid_media(source, session_id, has_audio, now).peer == state.peer,
{
}

/// A datagram that stops the run is a close that is acknowledged.  While the run stops,
/// nothing else is taken.
pub proof fn law_only_a_close_stops_the_receiver(
    state: LoopState,
    datagram: Seq<u8>,
    source: PeerAddress,
    session_id: Option<u64>,
    now: u64,
    linger: u64,
)
    ensures
        state.with_datagram(datagram, source, session_id, false, now, linger).1
            matches DatagramAction::AcknowledgeClose { ack, stop } ==> StreamClose::parse(
            datagram,
        ) matches Ok(close) && ack.acknowledges(close) && state.peer == Some(source),
        state.with_datagram(datagram, source, session_id, true, now, linger).1
            != DatagramAction::OfferToAudio,
        !(state.with_datagram(datagram, source, session_id, true, now, linger).1
            is CheckProfileChange),
{
}

/// A close stops the run once: the same close again is acknowledged, but does not stop.
pub proof fn law_close_stops_once(
    state: LoopState,
    datagram: Seq<u8>,
    source: PeerAddress,
    session_id: Option<u64>,
    now: u64,
    later: u64,
    linger: u64,
)
    requires
        state.with_datagram(datagram, source, session_id, false, now, linger).1
            matches DatagramAction::AcknowledgeClose { ack, stop } && stop,
    ensures
        ({
            let first = state.with_datagram(datagram, source, session_id, false, now, linger);
            let again = first.0.with_datagram(datagram, source, session_id, true, later, linger);
            &&& again.1 matches DatagramAction::AcknowledgeClose { ack, stop } && !stop
                && DatagramAction::AcknowledgeClose { ack, stop: true } == first.1
            &&& again.0.peer_close_linger_until == first.0.peer_close_linger_until
        }),
{
}

/// Refused datagrams are no sign of life.
pub proof fn law_refused_datagrams_are_no_sign_of_life(
    state: LoopState,
    datagram: Seq<u8>,
    source: PeerAddress,
    session_id: Option<u64>,
    header: Option<MediaKey>,
    now: u64,
    linger: u64,
)
    ensures
        state.with_datagram(datagram, source, session_id, false, now, linger).1
            == DatagramAction::Ignore ==> state.with_datagram(
            datagram,
            source,
            session_id,
            false,
            now,
            linger,
        ).0.last_valid_peer_activity == state.last_valid_peer_activity,
        state.with_profile_decision(ProfileDecision::Refused, now).0.last_valid_peer_activity
            == state.last_valid_peer_activity,
        state.with_media(datagram, source, session_id, header).0.last_valid_peer_activity
            == state.last_valid_peer_activity,
{
}

proof fn lemma_control_words(datagram: Seq<u8>)
    requires
        datagram.len() >= 4,
    ensures
        media_control::starts_with_magic(datagram, STREAM_CLOSE_MAGIC) == (datagram[0] == 0x4d
            && datagram[1] == 0x43 && datagram[2] == 0x4c && datagram[3] == 0x53),
        media_control::starts_with_magic(datagram, PROFILE_CHANGE_MAGIC) == (datagram[0] == 0x4d
            && datagram[1] == 0x50 && datagram[2] == 0x52 && datagram[3] == 0x46),
{
    crate::wire::law_most_significant_byte_first(datagram, 0);
}

/// A datagram that begins with `MCLS` is a close, one that begins with `MPRF` announces a
/// profile, and every other is offered to sound and then to pictures; while the receiver is
/// stopping only a close is looked at.
pub proof fn law_datagrams_are_told_apart(
    state: LoopState,
    datagram: Seq<u8>,
    source: PeerAddress,
    session_id: Option<u64>,
    now: u64,
    linger: u64,
)
    requires
        datagram.len() >= 4,
        !(datagram[0] == 0x4d && datagram[1] == 0x43 && datagram[2] == 0x4c && datagram[3]
            == 0x53),
        state.profile.changes_invalid < u64::MAX,
    ensures
        state.with_datagram(datagram, source, session_id, true, now, linger) == (
            state,
            DatagramAction::Ignore,
        ),
        !(datagram[0] == 0x4d && datagram[1] == 0x50 && datagram[2] == 0x52 && datagram[3]
            == 0x46) ==> state.with_datagram(datagram, source, session_id, false, now, linger) == (
            state,
            DatagramAction::OfferToAudio,
        ),
        datagram[0] == 0x4d && datagram[1] == 0x50 && datagram[2] == 0x52 && datagram[3] == 0x46
            ==> {
            let (after, action) = state.with_datagram(
                datagram,
                source,
                session_id,
                false,
                now,
                linger,
            );
            match ProfileChange::parse(datagram) {
                Ok(change) => after == state && action == DatagramAction::CheckProfileChange(
                    change,
                ),
                Err(_) => action == DatagramAction::RejectProfileChange
                    && after.profile.changes_invalid == state.profile.changes_invalid + 1
                    && after.last_valid_peer_activity == state.last_valid_peer_activity
                    && after.peer == state.peer,
            }
        },
{
    lemma_control_words(datagram);
}

/// The first close of the running stream is acknowledged and stops the receiver, which then
/// stays a while to acknowledge it again; a repetition is acknowledged and stops nothing.
pub proof fn law_close_is_acknowledged(
    state: LoopState,
    close: StreamClose,
    source: PeerAddress,
    stopping: bool,
    now: u64,
    linger: u64,
    later_now: u64,
)
    requires
        close.check() is Ok,
        close.stream_id == 1,
        close.video_session_id != 0,
        state.peer == Some(source),
        state.accepted_peer_close is None,
        state.peer_close_linger_until is None,
        now + linger <= u64::MAX,
    ensures
        ({
            let session = Some(close.video_session_id);
            let (closed, action) = state.with_datagram(
                close.wire(),
                source,
                session,
                stopping,
                now,
                linger,
            );
            let (again, repeated) = closed.with_datagram(
                close.wire(),
                source,
                session,
                true,
                later_now,
                linger,
            );
            &&& action == DatagramAction::AcknowledgeClose {
                ack: close.acknowledgement(),
                stop: true,
            }
            &&& repeated == DatagramAction::AcknowledgeClose {
                ack: close.acknowledgement(),
                stop: false,
            }
            &&& closed.accepted_peer_close == Some((source, close))
            &&& closed.peer_close_linger_until == Some((now + linger) as u64)
            &&& closed.last_valid_peer_activity == Some(now)
            &&& again.peer_close_linger_until == closed.peer_close_linger_until
        }),
{
    media_control::law_stream_close_round_trip(close);
    let bytes = close.wire();
    lemma_control_words(bytes);
}

/// A media packet of the running session that comes from the end that the stream comes from
/// goes on to the frames, and so does the first one of all.
pub proof fn law_media_goes_to_the_frames(
    state: LoopState,
    datagram: Seq<u8>,
    source: PeerAddress,
    session_id: Option<u64>,
    header: MediaKey,
)
    requires
        datagram.len() >= 4,
        datagram[0] != 0x4e,
        state.peer is None || state.peer == Some(source),
        session_id is None || session_id == Some(header.session_id),
    ensures
        state.with_media(datagram, source, session_id, Some(header)) == (
            state,
            MediaAction::Dispatch,
        ),
{
}

/// A packet from another end is dropped and counted; one of another session may begin that
/// session where it carries data of a picture, and is dropped otherwise.
pub proof fn law_foreign_media_is_kept_out(
    state: LoopState,
    datagram: Seq<u8>,
    source: PeerAddress,
    session_id: u64,
    header: MediaKey,
)
    requires
        datagram.len() >= 4,
        datagram[0] != 0x4e,
        state.profile.stale_packets_dropped < u64::MAX,
    ensures
        state.peer is Some && state.peer != Some(source) ==> {
            let (after, action) = state.with_media(
                datagram,
                source,
                Some(session_id),
                Some(header),
            );
            &&& action == MediaAction::Ignore
            &&& after.profile.stale_packets_dropped == state.profile.stale_packets_dropped + 1
            &&& after.peer == state.peer
            &&& after.last_valid_peer_activity == state.last_valid_peer_activity
        },
        state.peer == Some(source) && session_id != header.session_id ==> {
            let (after, action) = state.with_media(
                datagram,
                source,
                Some(session_id),
                Some(header),
            );
            match PacketModel::parse(datagram) {
                Ok(packet) => if packet.stream_id == 1 && packet.flags & 0x10 == 0 {
                    action == MediaAction::Activate(packet.session_id) && after == state
                } else {
                    action == MediaAction::Ignore && after.profile.stale_packets_dropped
                        == state.profile.stale_packets_dropped + 1
                },
                Err(_) => action == MediaAction::Ignore && after.profile.stale_packets_dropped
                    == state.profile.stale_packets_dropped + 1,
            }
        },
{
}

/// What is too short, asks for packets or has no header of a packet is dropped as unknown.
pub proof fn law_unknown_datagrams_are_counted(
    state: LoopState,
    datagram: Seq<u8>,
    source: PeerAddress,
    session_id: Option<u64>,
    header: Option<MediaKey>,
)
    requires
        datagram.len() < 4 || (datagram[0] == 0x4e && datagram[1] == 0x41 && datagram[2] == 0x43
            && datagram[3] == 0x4b) || header is None,
        state.dispatch.unknown_packets_received < u64::MAX,
    ensures
        ({
            let (after, action) = state.with_media(datagram, source, session_id, header);
            &&& action == MediaAction::Ignore
            &&& after.dispatch.unknown_packets_received
                == state.dispatch.unknown_packets_received + 1
            &&& after.peer == state.peer
            &&& after.last_valid_peer_activity == state.last_valid_peer_activity
        }),
{
}

/// A packet that was taken shows that the other end is there, and the first one decides
/// which end the stream comes from.
pub proof fn law_first_media_pins_the_peer(
    state: LoopState,
    source: PeerAddress,
    session_id: Option<u64>,
    has_audio: bool,
    now: u64,
)
    ensures
        ({
            let after = state.with_valid_media(source, session_id, has_audio, now);
            &&& after.last_valid_peer_activity == Some(now)
            &&& state.peer is None ==> after.peer == Some(source)
            &&& state.peer is Some ==> after.peer == state.peer
            &&& has_audio && session_id is Some ==> after.audio_session_id == session_id
            &&& !has_audio ==> after.audio_session_id == state.audio_session_id
        }),
{
}

/// The receiver gives up once the other end was silent for the whole time, and not before
/// the first thing was heard.
pub proof fn law_silence_is_a_timeout(state: LoopState, last: u64, now: u64, hard_timeout: u64)
    requires
        last <= now,
    ensures
        state.last_valid_peer_activity == Some(last) ==> state.timed_out(now, hard_timeout) == (now
            >= last + hard_timeout),
        state.last_valid_peer_activity is None ==> !state.timed_out(now, hard_timeout),
{
}

/// A packet that was asked for is counted as repaired the first time and as a repetition
/// afterwards; one that nobody asked for changes nothing.
pub proof fn law_repairs_are_counted(state: LoopState, in_flight: bool, remaining: Option<u64>)
    requires
        state.repair.repair_packets_received < u64::MAX,
        state.repair.repair_unique_packets_received < u64::MAX,
        state.repair.repair_packets_inserted < u64::MAX,
        state.repair.repair_duplicate_packets_received < u64::MAX,
        state.repair.repair_packets_received_after_frame_complete < u64::MAX,
    ensures
        ({
            let asked = state.with_arrival(Arrival::Requested, in_flight, remaining);
            let again = state.with_arrival(Arrival::Repeated, in_flight, remaining);
            &&& asked.repair.repair_packets_received == state.repair.repair_packets_received + 1
            &&& asked.repair.repair_unique_packets_received
                == state.repair.repair_unique_packets_received + 1
            &&& asked.repair.repair_duplicate_packets_received
                == state.repair.repair_duplicate_packets_received
            &&& in_flight ==> asked.repair.repair_packets_inserted
                == state.repair.repair_packets_inserted + 1
            &&& in_flight ==> asked.repair.repair_packets_received_after_frame_complete
                == state.repair.repair_packets_received_after_frame_complete
            &&& !in_flight ==> asked.repair.repair_packets_inserted
                == state.repair.repair_packets_inserted
            &&& !in_flight ==> asked.repair.repair_packets_received_after_frame_complete
                == state.repair.repair_packets_received_after_frame_complete + 1
            &&& again.repair.repair_packets_received == state.repair.repair_packets_received + 1
            &&& again.repair.repair_duplicate_packets_received
                == state.repair.repair_duplicate_packets_received + 1
            &&& again.repair.repair_unique_packets_received
                == state.repair.repair_unique_packets_received
            &&& again.repair.repair_packets_inserted == state.repair.repair_packets_inserted
        }),
        state.with_arrival(Arrival::Unrequested, in_flight, remaining) == state,
{
}

/// A video packet is counted as data or as parity.
pub proof fn law_video_packets_are_counted(state: LoopState, flags: u16)
    requires
        state.dispatch.video_data_packets_received < u64::MAX,
        state.dispatch.video_fec_packets_received < u64::MAX,
    ensures
        ({
            let after = state.with_video(flags).dispatch;
            &&& flags & 0x10 == 0 ==> after.video_data_packets_received
                == state.dispatch.video_data_packets_received + 1
                && after.video_fec_packets_received == state.dispatch.video_fec_packets_received
            &&& flags & 0x10 != 0 ==> after.video_fec_packets_received
                == state.dispatch.video_fec_packets_received + 1
                && after.video_data_packets_received
                == state.dispatch.video_data_packets_received
        }),
{
}

/// A session that begins brings its profile, a new pace, and feedback at once; sound follows
/// it where there is sound.
pub proof fn law_session_brings_its_profile(
    state: LoopState,
    pending: PendingProfile,
    expired: u64,
    has_audio: bool,
    now: u64,
)
    ensures
        ({
            let after = state.activated(pending, expired, has_audio, now);
            &&& after.profile.change_sequence == pending.change.change_sequence
            &&& after.profile.generation == pending.change.profile_generation
            &&& after.profile.target_width == pending.change.width
            &&& after.profile.target_height == pending.change.height
            &&& after.profile.target_fps == pending.change.fps
            &&& after.profile.target_bitrate_mbps == pending.change.bitrate_mbps
            &&& after.next_feedback_at == now
            &&& after.previous_expired == expired
            &&& has_audio ==> after.audio_session_id == Some(pending.change.new_session_id)
            &&& !has_audio ==> after.audio_session_id == state.audio_session_id
            &&& after.media_anchor.first_media_timestamp_us is None
            &&& after.media_anchor.receiver_clock_anchor_us is None
            &&& after.media_anchor.playout_delay_ms == state.playout_delay_ms
            &&& after.peer == state.peer
        }),
{
}

/// What the control of profiles accepts is acknowledged, each time that it comes, and shows
/// that the other end is there; what it refuses is counted and not acknowledged.
pub proof fn law_profile_answers(state: LoopState, ack: ProfileAck, now: u64)
    requires
        state.profile.changes_received < u64::MAX,
        state.profile.changes_invalid < u64::MAX,
    ensures
        ({
            let (new, owed) = state.with_profile_decision(ProfileDecision::Ack(ack), now);
            let (old, owed_again) = state.with_profile_decision(ProfileDecision::Reack(ack), now);
            let (refused, nothing) = state.with_profile_decision(ProfileDecision::Refused, now);
            &&& owed == Some(ack)
            &&& owed_again == Some(ack)
            &&& nothing is None
            &&& new.last_valid_peer_activity == Some(now)
            &&& old.last_valid_peer_activity == Some(now)
            &&& refused.last_valid_peer_activity == state.last_valid_peer_activity
            &&& new.profile.changes_received == state.profile.changes_received + 1
            &&& old.profile.changes_received == state.profile.changes_received
            &&& refused.profile.changes_invalid == state.profile.changes_invalid + 1
        }),
{
}

/// Where frames have expired, they are counted since it was last looked at, and no frame up
/// to the last damaged one waits any longer; where none have, nothing changes.
pub proof fn law_expired_frames_wait_no_more(
    state: LoopState,
    book: RepairModel,
    report: ExpiryReport,
    now: u64,
    frame_id: u64,
)
    requires
        state.repair.repair_deadline_missed + report.frames_incomplete_expired <= u64::MAX,
    ensures
        report.frames_incomplete_expired <= state.previous_expired ==> after_expiry(
            state,
            book,
            report,
            now,
        ) == (state, book),
        report.frames_incomplete_expired > state.previous_expired ==> {
            let (after, left) = after_expiry(state, book, report, now);
            &&& after.previous_expired == report.frames_incomplete_expired
            &&& after.repair.repair_deadline_missed == state.repair.repair_deadline_missed
                + report.frames_incomplete_expired - state.previous_expired
            &&& left.requested == book.requested
            &&& report.last_damaged_frame_id matches Some(last) ==> (frame_id <= last
                ==> !repair_book::waits(left.frames, frame_id))
            &&& report.last_damaged_frame_id is None ==> left == book
        },
{
    if let Some(last) = report.last_damaged_frame_id {
        let kept = repair_book::later_frames(book.frames, last);
        let later = |f: repair_book::RequestedFrame| f.frame_id > last;
        broadcast use vstd::seq_lib::group_filter_ensures;

        assert(kept == book.frames.filter(later));
        if repair_book::waits(kept, frame_id) {
            let i = choose|i: int|
                0 <= i < kept.len() && (#[trigger] kept[i]).frame_id == frame_id;
            assert(later(kept[i]));
        }
    }
}

/// A frame that waited for packets is counted as repaired when it is complete, with the
/// time that it waited.
pub proof fn law_repaired_frame_is_counted(state: LoopState, wait: u64, cancelled: u64)
    requires
        state.repair.repair_frames_completed < u64::MAX,
        state.repair.repair_wait_total + wait <= u64::MAX,
        state.repair.repair_cancelled_frame_complete + cancelled <= u64::MAX,
    ensures
        ({
            let after = state.with_repaired_frame(wait, cancelled).repair;
            &&& after.repair_frames_completed == state.repair.repair_frames_completed + 1
            &&& after.repair_wait_total == state.repair.repair_wait_total + wait
            &&& after.repair_wait_max >= wait
            &&& after.repair_wait_max >= state.repair.repair_wait_max
            &&& after.repair_wait_max == wait || after.repair_wait_max
                == state.repair.repair_wait_max
            &&& after.repair_cancelled_frame_complete
                == state.repair.repair_cancelled_frame_complete + cancelled
        }),
{
}

/// The frames that were completed wait no more, and each that waited is counted.
pub proof fn law_completed_frames_wait_no_more(
    state: LoopState,
    book: RepairModel,
    frames: Seq<EncodedFrame>,
    now: u64,
    i: int,
)
    requires
        0 <= i < frames.len(),
    ensures
        !repair_book::waits(after_frames(state, book, frames, now).1.frames, frames[i].frame_id),
    decreases frames.len(),
{
    let front = frames.drop_last();
    let (before_state, before) = after_frames(state, book, front, now);
    let id = frames.last().frame_id;
    repair_book::law_complete_frame_waits_no_more(before, id, now);
    if i < front.len() {
        law_completed_frames_wait_no_more(state, book, front, now, i);
        assert(front[i] == frames[i]);
        let other = |f: repair_book::RequestedFrame| f.frame_id != id;
        let after = after_frames(state, book, frames, now).1;
        if repair_book::waits(after.frames, frames[i].frame_id) && repair_book::waits(
            before.frames,
            id,
        ) {
            let j = choose|j: int|
                0 <= j < after.frames.len() && (#[trigger] after.frames[j]).frame_id
                    == frames[i].frame_id;
            assert(after.frames == before.frames.filter(other));
            assert(before.frames.filter(other).contains(after.frames[j]));
            before.frames.lemma_filter_contains_rev(other, after.frames[j]);
            let k = choose|k: int|
                0 <= k < before.frames.len() && before.frames[k] == after.frames[j];
            assert(before.frames[k].frame_id == frames[i].frame_id);
        }
    }
}

/// The anchor knows the timestamp of the picture that came last, in microseconds, and was
/// set by the first one.
pub proof fn law_anchor_follows_the_pictures(
    anchor: ReceiverMediaClockAnchor,
    frames: Seq<EncodedFrame>,
    now_us: u64,
)
    requires
        frames.len() > 0,
    ensures
        frames.last().timestamp_ms * 1000 <= u64::MAX ==> anchor_after(
            anchor,
            frames,
            now_us,
        ).last_video_timestamp_us == Some((frames.last().timestamp_ms * 1000) as u64),
        anchor_after(anchor, frames, now_us).playout_delay_ms == anchor.playout_delay_ms,
        anchor_after(anchor, frames, now_us).last_audio_timestamp_us
            == anchor.last_audio_timestamp_us,
        anchor.first_media_timestamp_us is None && frames[0].timestamp_ms * 1000 <= u64::MAX
            ==> anchor_after(anchor, frames, now_us).first_media_timestamp_us == Some(
            (frames[0].timestamp_ms * 1000) as u64,
        ),
        anchor.first_media_timestamp_us is Some ==> anchor_after(
            anchor,
            frames,
            now_us,
        ).first_media_timestamp_us == anchor.first_media_timestamp_us,
    decreases frames.len(),
{
    let front = frames.drop_last();
    if front.len() > 0 {
        law_anchor_follows_the_pictures(anchor, front, now_us);
        assert(front[0] == frames[0]);
    } else {
        assert(anchor_after(anchor, front, now_us) == anchor);
        assert(frames.last() == frames[0]);
    }
}

/// Feedback is due again after its interval, and at once where an announcement has expired.
pub proof fn law_feedback_interval(
    state: LoopState,
    control: ProfileControlStats,
    pending: Option<PendingProfile>,
    now: u64,
    ms: u64,
)
    ensures
        now + ms * 1_000_000 <= u64::MAX ==> later(now, ms) == now + ms * 1_000_000,
        state.with_control(control, pending, true, now).next_feedback_at == now,
        state.with_control(control, pending, false, now).next_feedback_at
            == state.next_feedback_at,
        state.with_control(control, pending, false, now).profile.control == control,
        pending is None ==> !state.with_control(
            control,
            pending,
            false,
            now,
        ).profile.pending.present,
        pending matches Some(announced) ==> {
            let shown = state.with_control(control, pending, false, now).profile.pending;
            &&& shown.present
            &&& shown.new_session_id == announced.change.new_session_id
            &&& shown.old_session_id == announced.change.old_session_id
            &&& shown.change_sequence == announced.change.change_sequence
            &&& shown.generation == announced.change.profile_generation
        },
{
}

} // verus!
