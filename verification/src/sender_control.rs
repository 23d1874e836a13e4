//! What a sender does with what the receiving end says.
//!
//! Times are nanoseconds of a monotonic clock.  Counters stop at their maximum.

use vstd::prelude::*;

use crate::choices::RepairMode;
use crate::close_handshake::CloseTimings;
use crate::h264_send_probe::H264SendMode;
use crate::media_control;
use crate::media_control::{
    is_capability_feedback, is_profile_ack, is_stream_close, is_stream_close_ack,
    CapabilityFeedbackTracker, ProfileAck, StreamClose, StreamCloseAck, TrackerModel,
    CAPABILITY_MAGIC, PROFILE_ACK_MAGIC, STREAM_CLOSE_ACK_MAGIC, STREAM_CLOSE_MAGIC,
};
use crate::media_packet::STREAM_VIDEO;
use crate::shutdown::{CancellationToken, StopReason};
use crate::wire;

verus! {

/// How many packets are sent again each second at most.
pub const MAX_REPAIRS_PER_WINDOW: u64 = 5000;

/// How long a window of repairs is.
pub const REPAIR_WINDOW: u64 = 1_000_000_000;

/// Silence that is long enough to end the run.
pub open spec fn timeout_due(
    send_mode: H264SendMode,
    media_active_age: Option<u64>,
    valid_peer_activity_age: Option<u64>,
    transition_grace_active: bool,
    hard_timeout: u64,
) -> bool {
    send_mode == H264SendMode::Screen && !transition_grace_active && match valid_peer_activity_age {
        Some(age) => age >= hard_timeout,
        None => match media_active_age {
            Some(age) => age >= hard_timeout,
            None => false,
        },
    }
}

/// Whether the other end was silent for too long.  While a screen is shared, an end that
/// was heard once must be heard again in time, and one that never was must be heard in time
/// after the first picture; a profile transition excuses silence.
pub fn sender_peer_timeout_due(
    send_mode: H264SendMode,
    media_active_age: Option<u64>,
    valid_peer_activity_age: Option<u64>,
    transition_grace_active: bool,
    hard_timeout: u64,
) -> (r: bool)
    ensures
        r == timeout_due(
            send_mode,
            media_active_age,
            valid_peer_activity_age,
            transition_grace_active,
            hard_timeout,
        ),
{
    if send_mode != H264SendMode::Screen || transition_grace_active {
        return false;
    }
    match valid_peer_activity_age {
        Some(age) => age >= hard_timeout,
        None => match media_active_age {
            Some(age) => age >= hard_timeout,
            None => false,
        },
    }
}

/// What the control side of the sender counts.
#[derive(Clone, Copy, Debug, PartialEq, Eq, Structural)]
pub struct ControlCounters {
    pub nack_packets_received: u64,
    pub nack_items_received: u64,
    pub repair_packets_resent: u64,
    pub repair_unique_packets_resent: u64,
    pub repair_duplicate_packets_resent: u64,
    pub repair_cache_hits: u64,
    pub repair_cache_misses: u64,
    pub repair_cache_miss_not_found: u64,
    pub repair_cache_miss_expired: u64,
    pub repair_cache_miss_evicted: u64,
    pub repair_cache_miss_wrong_session: u64,
    pub repair_rate_limited: u64,
    pub repair_send_errors: u64,
    pub repair_send_socket_errors: u64,
    pub repair_send_bytes: u64,
    pub repair_request_total: u64,
    pub repair_request_deduped: u64,
    pub repair_send_suppressed: u64,
    pub repair_cancelled_deadline: u64,
    pub capability_feedback_received: u64,
    pub capability_feedback_invalid: u64,
    pub capability_feedback_stale: u64,
    pub mprf_ack_packets_received: u64,
    pub mprf_ack_invalid: u64,
    pub stream_close_packets_received: u64,
    pub stream_close_ack_packets_received: u64,
    pub stream_close_ack_packets_sent: u64,
    pub stream_close_invalid: u64,
}

impl ControlCounters {
    pub open spec fn initial() -> ControlCounters {
        ControlCounters {
            nack_packets_received: 0,
            nack_items_received: 0,
            repair_packets_resent: 0,
            repair_unique_packets_resent: 0,
            repair_duplicate_packets_resent: 0,
            repair_cache_hits: 0,
            repair_cache_misses: 0,
            repair_cache_miss_not_found: 0,
            repair_cache_miss_expired: 0,
            repair_cache_miss_evicted: 0,
            repair_cache_miss_wrong_session: 0,
            repair_rate_limited: 0,
            repair_send_errors: 0,
            repair_send_socket_errors: 0,
            repair_send_bytes: 0,
            repair_request_total: 0,
            repair_request_deduped: 0,
            repair_send_suppressed: 0,
            repair_cancelled_deadline: 0,
            capability_feedback_received: 0,
            capability_feedback_invalid: 0,
            capability_feedback_stale: 0,
            mprf_ack_packets_received: 0,
            mprf_ack_invalid: 0,
            stream_close_packets_received: 0,
            stream_close_ack_packets_received: 0,
            stream_close_ack_packets_sent: 0,
            stream_close_invalid: 0,
        }
    }

    /// Nothing was received yet.
    pub fn new() -> (r: ControlCounters)
        ensures
            r == Self::initial(),
    {
        ControlCounters {
            nack_packets_received: 0,
            nack_items_received: 0,
            repair_packets_resent: 0,
            repair_unique_packets_resent: 0,
            repair_duplicate_packets_resent: 0,
            repair_cache_hits: 0,
            repair_cache_misses: 0,
            repair_cache_miss_not_found: 0,
            repair_cache_miss_expired: 0,
            repair_cache_miss_evicted: 0,
            repair_cache_miss_wrong_session: 0,
            repair_rate_limited: 0,
            repair_send_errors: 0,
            repair_send_socket_errors: 0,
            repair_send_bytes: 0,
            repair_request_total: 0,
            repair_request_deduped: 0,
            repair_send_suppressed: 0,
            repair_cancelled_deadline: 0,
            capability_feedback_received: 0,
            capability_feedback_invalid: 0,
            capability_feedback_stale: 0,
            mprf_ack_packets_received: 0,
            mprf_ack_invalid: 0,
            stream_close_packets_received: 0,
            stream_close_ack_packets_received: 0,
            stream_close_ack_packets_sent: 0,
            stream_close_invalid: 0,
        }
    }
}

/// What came of a request for one packet that was let through.
#[derive(Clone, Copy, Debug, PartialEq, Eq, Structural)]
pub enum RepairOutcome {
    /// The same packet was sent a moment ago.
    Suppressed,
    /// The packet is not kept; `true` where it was too old a moment ago.
    Missing(bool),
    /// So many bytes were sent again; `true` where the packet was never sent again before.
    Sent(usize, bool),
    /// The network did not take the packet whole.
    Failed,
}

/// What a datagram asks for.
#[derive(Clone, Copy, Debug, PartialEq, Eq, Structural)]
pub enum ControlEvent {
    /// Nothing more is to be done.
    Done,
    /// The acknowledgement is to be sent, and the run ends.
    Acknowledge(StreamCloseAck),
    /// The datagram may ask for packets again.
    Requests,
}

/// The plain part of the control side.
#[derive(Clone, Copy, Debug)]
pub struct ControlState {
    pub observed_session_id: u64,
    pub session_started_at: u64,
    pub session_frames_baseline: u64,
    /// When a frame of the session was first seen to be sent.
    pub media_first_sent_at: Option<u64>,
    /// Until when the acknowledgement of a close is repeated.
    pub linger_until: Option<u64>,
    /// The acknowledgement, and when it is sent again.
    pub pending_ack: Option<(StreamCloseAck, u64)>,
    pub rate_window: u64,
    pub resent_in_window: u64,
    pub counters: ControlCounters,
    pub token: CancellationToken,
}

/// The control side of a sender.
pub struct SenderControl {
    pub state: ControlState,
    pub tracker: CapabilityFeedbackTracker,
    pub close_acks: Vec<StreamCloseAck>,
    pub profile_acks: Vec<ProfileAck>,
}

/// What the control side holds.
pub struct ControlModel {
    pub state: ControlState,
    pub tracker: TrackerModel,
    pub close_acks: Seq<StreamCloseAck>,
    pub profile_acks: Seq<ProfileAck>,
}

impl View for SenderControl {
    type V = ControlModel;

    open spec fn view(&self) -> ControlModel {
        ControlModel {
            state: self.state,
            tracker: self.tracker@,
            close_acks: self.close_acks@,
            profile_acks: self.profile_acks@,
        }
    }
}

impl ControlState {
    pub open spec fn initial(session_id: u64, frames_sent: u64, now: u64) -> ControlState {
        ControlState {
            observed_session_id: session_id,
            session_started_at: now,
            session_frames_baseline: frames_sent,
            media_first_sent_at: None,
            linger_until: None,
            pending_ack: None,
            rate_window: now,
            resent_in_window: 0,
            counters: ControlCounters::initial(),
            token: CancellationToken { reason: None },
        }
    }

    /// The limit of repairs is kept.
    pub open spec fn inv(self) -> bool {
        self.resent_in_window <= MAX_REPAIRS_PER_WINDOW
    }

    /// Whether the acknowledgement of a close is sent again now.
    pub open spec fn ack_due(self, now: u64) -> Option<StreamCloseAck> {
        match (self.linger_until, self.pending_ack) {
            (Some(deadline), Some((ack, next_send_at))) => if now < deadline && now
                >= next_send_at {
                Some(ack)
            } else {
                None
            },
            _ => None,
        }
    }

    pub open spec fn with_ack_sent(self, written: bool) -> ControlState {
        if written {
            ControlState {
                counters: ControlCounters {
                    stream_close_ack_packets_sent:
                        self.counters.stream_close_ack_packets_sent.saturating_add(1),
                    ..self.counters
                },
                ..self
            }
        } else {
            self
        }
    }

    pub open spec fn with_ack_repeated(self, written: bool, retry: u64, now: u64) -> ControlState {
        match self.pending_ack {
            Some((ack, _)) => ControlState {
                pending_ack: Some((ack, now.saturating_add(retry))),
                ..self.with_ack_sent(written)
            },
            None => self,
        }
    }

    /// A new session begins to be watched.
    pub open spec fn with_session(
        self,
        session_id: u64,
        frames_sent: u64,
        now: u64,
    ) -> ControlState {
        if session_id == self.observed_session_id {
            self
        } else {
            ControlState {
                observed_session_id: session_id,
                session_started_at: now,
                session_frames_baseline: frames_sent,
                media_first_sent_at: None,
                ..self
            }
        }
    }

    /// The first frame of the session is seen.
    pub open spec fn with_frames(self, frames_sent: u64, now: u64) -> ControlState {
        if self.media_first_sent_at is None && frames_sent > self.session_frames_baseline {
            ControlState { media_first_sent_at: Some(now), ..self }
        } else {
            self
        }
    }

    /// How long ago the first frame of the session was sent.
    pub open spec fn media_age(self, now: u64) -> Option<u64> {
        match self.media_first_sent_at {
            Some(started) => Some(
                media_control::age(
                    now,
                    if started > self.session_started_at {
                        started
                    } else {
                        self.session_started_at
                    },
                ),
            ),
            None => None,
        }
    }

    /// An accepted close: it is answered, and the run ends.
    pub open spec fn closed_by(
        self,
        close: StreamClose,
        timings: CloseTimings,
        now: u64,
    ) -> ControlState {
        ControlState {
            counters: ControlCounters {
                stream_close_packets_received:
                    self.counters.stream_close_packets_received.saturating_add(1),
                ..self.counters
            },
            pending_ack: Some(
                (close.acknowledgement(), now.saturating_add(timings.retry_initial)),
            ),
            linger_until: if self.linger_until is None {
                Some(now.saturating_add(timings.handshake_timeout))
            } else {
                self.linger_until
            },
            token: self.token.cancelled(StopReason::PeerClosed),
            ..self
        }
    }

    pub open spec fn with_invalid_close(self) -> ControlState {
        ControlState {
            counters: ControlCounters {
                stream_close_invalid: self.counters.stream_close_invalid.saturating_add(1),
                ..self.counters
            },
            ..self
        }
    }

    pub open spec fn with_close_ack(self) -> ControlState {
        ControlState {
            counters: ControlCounters {
                stream_close_ack_packets_received:
                    self.counters.stream_close_ack_packets_received.saturating_add(1),
                ..self.counters
            },
            ..self
        }
    }

    pub open spec fn with_profile_ack(self, valid: bool) -> ControlState {
        if valid {
            ControlState {
                counters: ControlCounters {
                    mprf_ack_packets_received:
                        self.counters.mprf_ack_packets_received.saturating_add(1),
                    ..self.counters
                },
                ..self
            }
        } else {
            ControlState {
                counters: ControlCounters {
                    mprf_ack_invalid: self.counters.mprf_ack_invalid.saturating_add(1),
                    ..self.counters
                },
                ..self
            }
        }
    }

    pub open spec fn with_feedback_counts(self, tracker: TrackerModel) -> ControlState {
        ControlState {
            counters: ControlCounters {
                capability_feedback_received: tracker.stats.received,
                capability_feedback_invalid: tracker.stats.invalid,
                capability_feedback_stale: tracker.stats.stale_events,
                ..self.counters
            },
            ..self
        }
    }

    /// Requests of another session are not served.
    pub open spec fn with_foreign_requests(self, items: usize) -> ControlState {
        ControlState {
            counters: ControlCounters {
                repair_cache_miss_wrong_session:
                    self.counters.repair_cache_miss_wrong_session.saturating_add(items as u64),
                ..self.counters
            },
            ..self
        }
    }

    /// Requests of this session; a window of repairs that is over begins anew.
    pub open spec fn with_requests(self, items: usize, now: u64) -> ControlState {
        let over = media_control::age(now, self.rate_window) >= REPAIR_WINDOW;
        ControlState {
            rate_window: if over {
                now
            } else {
                self.rate_window
            },
            resent_in_window: if over {
                0
            } else {
                self.resent_in_window
            },
            counters: ControlCounters {
                nack_packets_received: self.counters.nack_packets_received.saturating_add(1),
                nack_items_received: self.counters.nack_items_received.saturating_add(
                    items as u64,
                ),
                ..self.counters
            },
            ..self
        }
    }

    pub open spec fn is_limited(self) -> bool {
        self.resent_in_window >= MAX_REPAIRS_PER_WINDOW
    }

    pub open spec fn with_request(self) -> ControlState {
        ControlState {
            counters: ControlCounters {
                repair_request_total: self.counters.repair_request_total.saturating_add(1),
                repair_rate_limited: if self.is_limited() {
                    self.counters.repair_rate_limited.saturating_add(1)
                } else {
                    self.counters.repair_rate_limited
                },
                ..self.counters
            },
            ..self
        }
    }

    pub open spec fn with_outcome(self, outcome: RepairOutcome) -> ControlState {
        let c = self.counters;
        match outcome {
            RepairOutcome::Suppressed => ControlState {
                counters: ControlCounters {
                    repair_request_deduped: c.repair_request_deduped.saturating_add(1),
                    repair_send_suppressed: c.repair_send_suppressed.saturating_add(1),
                    ..c
                },
                ..self
            },
            RepairOutcome::Missing(expired) => ControlState {
                counters: ControlCounters {
                    repair_cache_misses: c.repair_cache_misses.saturating_add(1),
                    repair_cache_miss_expired: if expired {
                        c.repair_cache_miss_expired.saturating_add(1)
                    } else {
                        c.repair_cache_miss_expired
                    },
                    repair_cancelled_deadline: if expired {
                        c.repair_cancelled_deadline.saturating_add(1)
                    } else {
                        c.repair_cancelled_deadline
                    },
                    repair_cache_miss_not_found: if expired {
                        c.repair_cache_miss_not_found
                    } else {
                        c.repair_cache_miss_not_found.saturating_add(1)
                    },
                    ..c
                },
                ..self
            },
            RepairOutcome::Sent(bytes, first) => ControlState {
                resent_in_window: (self.resent_in_window + 1) as u64,
                counters: ControlCounters {
                    repair_packets_resent: c.repair_packets_resent.saturating_add(1),
                    repair_unique_packets_resent: if first {
                        c.repair_unique_packets_resent.saturating_add(1)
                    } else {
                        c.repair_unique_packets_resent
                    },
                    repair_duplicate_packets_resent: if first {
                        c.repair_duplicate_packets_resent
                    } else {
                        c.repair_duplicate_packets_resent.saturating_add(1)
                    },
                    repair_cache_hits: c.repair_cache_hits.saturating_add(1),
                    repair_send_bytes: c.repair_send_bytes.saturating_add(bytes as u64),
                    ..c
                },
                ..self
            },
            RepairOutcome::Failed => ControlState {
                counters: ControlCounters {
                    repair_send_errors: c.repair_send_errors.saturating_add(1),
                    repair_send_socket_errors: c.repair_send_socket_errors.saturating_add(1),
                    ..c
                },
                ..self
            },
        }
    }
}

impl ControlModel {
    /// The other end was heard.
    pub open spec fn heard(self, now: u64) -> ControlModel {
        ControlModel {
            tracker: TrackerModel { peer_control_at: Some(now), ..self.tracker },
            ..self
        }
    }

    /// Whether a close is one of the stream that runs.
    pub open spec fn closes(datagram: Seq<u8>, session_id: u64) -> bool {
        StreamClose::parse(datagram) matches Ok(close) && close.stream_id == STREAM_VIDEO && (
        close.video_session_id == 0 || close.video_session_id == session_id)
    }

    /// The state after a datagram.
    pub open spec fn after(
        self,
        datagram: Seq<u8>,
        session_id: u64,
        stopping: bool,
        timings: CloseTimings,
        now: u64,
    ) -> ControlModel {
        if media_control::starts_with_magic(datagram, STREAM_CLOSE_MAGIC) {
            if Self::closes(datagram, session_id) {
                ControlModel {
                    state: self.state.closed_by(
                        StreamClose::parse(datagram)->Ok_0,
                        timings,
                        now,
                    ),
                    ..self.heard(now)
                }
            } else {
                ControlModel { state: self.state.with_invalid_close(), ..self }
            }
        } else if media_control::starts_with_magic(datagram, STREAM_CLOSE_ACK_MAGIC) {
            match StreamCloseAck::parse(datagram) {
                Ok(ack) => ControlModel {
                    state: self.state.with_close_ack(),
                    close_acks: self.close_acks.push(ack),
                    ..self.heard(now)
                },
                Err(_) => ControlModel { state: self.state.with_invalid_close(), ..self },
            }
        } else if stopping {
            self
        } else if media_control::starts_with_magic(datagram, PROFILE_ACK_MAGIC) {
            match ProfileAck::parse(datagram) {
                Ok(ack) => ControlModel {
                    state: self.state.with_profile_ack(true),
                    profile_acks: self.profile_acks.push(ack),
                    ..self.heard(now)
                },
                Err(_) => ControlModel { state: self.state.with_profile_ack(false), ..self },
            }
        } else if media_control::starts_with_magic(datagram, CAPABILITY_MAGIC) {
            let tracker = self.tracker.observed(datagram, session_id, now);
            ControlModel { state: self.state.with_feedback_counts(tracker), tracker, ..self }
        } else {
            self
        }
    }

    /// What a datagram asks for.
    pub open spec fn event(
        datagram: Seq<u8>,
        session_id: u64,
        stopping: bool,
        repair_mode: RepairMode,
    ) -> ControlEvent {
        if media_control::starts_with_magic(datagram, STREAM_CLOSE_MAGIC) {
            if Self::closes(datagram, session_id) {
                ControlEvent::Acknowledge(
                    (StreamClose::parse(datagram)->Ok_0).acknowledgement(),
                )
            } else {
                ControlEvent::Done
            }
        } else if media_control::starts_with_magic(datagram, STREAM_CLOSE_ACK_MAGIC) || stopping
            || media_control::starts_with_magic(datagram, PROFILE_ACK_MAGIC)
            || media_control::starts_with_magic(datagram, CAPABILITY_MAGIC) || repair_mode
            != RepairMode::Nack {
            ControlEvent::Done
        } else {
            ControlEvent::Requests
        }
    }

    /// The state after nothing came, and whether the other end counts as gone.
    pub open spec fn is_gone(
        self,
        frames_sent: u64,
        send_mode: H264SendMode,
        hard_timeout: u64,
        now: u64,
    ) -> bool {
        timeout_due(
            send_mode,
            self.state.with_frames(frames_sent, now).media_age(now),
            media_control::optional_age(
                now,
                media_control::later(self.tracker.peer_control_at, self.tracker.feedback_at),
            ),
            self.tracker.grace_until matches Some(deadline) && now < deadline,
            hard_timeout,
        )
    }
}

impl SenderControl {
    /// Nothing was heard yet.
    pub fn new(session_id: u64, frames_sent: u64, now: u64) -> (r: SenderControl)
        ensures
            r@.state == ControlState::initial(session_id, frames_sent, now),
            r@.tracker == TrackerModel::empty(),
            r@.close_acks == Seq::<StreamCloseAck>::empty(),
            r@.profile_acks == Seq::<ProfileAck>::empty(),
            r.state.inv(),
    {
        SenderControl {
            state: ControlState {
                observed_session_id: session_id,
                session_started_at: now,
                session_frames_baseline: frames_sent,
                media_first_sent_at: None,
                linger_until: None,
                pending_ack: None,
                rate_window: now,
                resent_in_window: 0,
                counters: ControlCounters::new(),
                token: CancellationToken::new(),
            },
            tracker: CapabilityFeedbackTracker::new(),
            close_acks: Vec::new(),
            profile_acks: Vec::new(),
        }
    }

    /// Whether the control side goes on: until it is stopped, and while a close is still
    /// being acknowledged.
    pub fn goes_on(&self, stopping: bool, now: u64) -> (r: bool)
        ensures
            r == (!stopping || (self.state.linger_until matches Some(deadline) && now
                < deadline)),
    {
        if !stopping {
            return true;
        }
        match self.state.linger_until {
            Some(deadline) => now < deadline,
            None => false,
        }
    }

    /// The acknowledgement that is to be sent again now.
    pub fn due_ack(&self, now: u64) -> (r: Option<StreamCloseAck>)
        ensures
            r == self.state.ack_due(now),
    {
        match (self.state.linger_until, self.state.pending_ack) {
            (Some(deadline), Some((ack, next_send_at))) => {
                if now < deadline && now >= next_send_at {
                    Some(ack)
                } else {
                    None
                }
            },
            _ => None,
        }
    }

    /// The acknowledgement was sent again.
    pub fn ack_repeated(&mut self, written: bool, retry: u64, now: u64)
        ensures
            final(self)@ == (ControlModel {
                state: old(self).state.with_ack_repeated(written, retry, now),
                ..old(self)@
            }),
    {
        if let Some((ack, _)) = self.state.pending_ack {
            if written {
                self.state.counters.stream_close_ack_packets_sent =
                self.state.counters.stream_close_ack_packets_sent.saturating_add(1);
            }
            self.state.pending_ack = Some((ack, now.saturating_add(retry)));
        }
    }

    /// The acknowledgement of a close was sent for the first time.
    pub fn ack_sent(&mut self, written: bool)
        ensures
            final(self)@ == (ControlModel {
                state: old(self).state.with_ack_sent(written),
                ..old(self)@
            }),
    {
        if written {
            self.state.counters.stream_close_ack_packets_sent =
            self.state.counters.stream_close_ack_packets_sent.saturating_add(1);
        }
    }

    /// Follows the session that is being sent.
    pub fn observe_session(&mut self, session_id: u64, frames_sent: u64, now: u64)
        ensures
            final(self)@ == (ControlModel {
                state: old(self).state.with_session(session_id, frames_sent, now),
                ..old(self)@
            }),
    {
        if session_id != self.state.observed_session_id {
            self.state.observed_session_id = session_id;
            self.state.session_started_at = now;
            self.state.session_frames_baseline = frames_sent;
            self.state.media_first_sent_at = None;
        }
    }

    /// Nothing came.  Where the other end was silent for too long the run ends, and the
    /// answer is `true`.
    pub fn on_silence(
        &mut self,
        frames_sent: u64,
        send_mode: H264SendMode,
        hard_timeout: u64,
        now: u64,
    ) -> (gone: bool)
        ensures
            gone == old(self)@.is_gone(frames_sent, send_mode, hard_timeout, now),
            final(self)@ == (ControlModel {
                state: if gone {
                    ControlState {
                        token: old(self).state.token.cancelled(StopReason::PeerTimeout),
                        ..old(self).state.with_frames(frames_sent, now)
                    }
                } else {
                    old(self).state.with_frames(frames_sent, now)
                },
                ..old(self)@
            }),
    {
        if self.state.media_first_sent_at.is_none() && frames_sent
            > self.state.session_frames_baseline {
            self.state.media_first_sent_at = Some(now);
        }
        let media_age: Option<u64> = match self.state.media_first_sent_at {
            Some(started) => {
                let since: u64 = if started > self.state.session_started_at {
                    started
                } else {
                    self.state.session_started_at
                };
                Some(now.saturating_sub(since))
            },
            None => None,
        };
        let gone: bool = sender_peer_timeout_due(
            send_mode,
            media_age,
            self.tracker.peer_activity_age(now),
            self.tracker.transition_grace_active(now),
            hard_timeout,
        );
        if gone {
            self.state.token.cancel(StopReason::PeerTimeout);
        }
        gone
    }

    /// Takes a datagram of the other end.
    pub fn on_datagram(
        &mut self,
        datagram: &[u8],
        session_id: u64,
        stopping: bool,
        repair_mode: RepairMode,
        timings: CloseTimings,
        now: u64,
    ) -> (event: ControlEvent)
        ensures
            event == ControlModel::event(datagram@, session_id, stopping, repair_mode),
            final(self)@ == old(self)@.after(datagram@, session_id, stopping, timings, now),
            old(self).state.inv() ==> final(self).state.inv(),
    {
        if is_stream_close(datagram) {
            return self.on_stream_close(datagram, session_id, timings, now);
        }
        if is_stream_close_ack(datagram) {
            match StreamCloseAck::decode(datagram) {
                Ok(ack) => {
                    self.tracker.observe_valid_peer_control(now);
                    self.close_acks.push(ack);
                    self.state.counters.stream_close_ack_packets_received =
                    self.state.counters.stream_close_ack_packets_received.saturating_add(1);
                },
                Err(_) => {
                    self.state.counters.stream_close_invalid =
                    self.state.counters.stream_close_invalid.saturating_add(1);
                },
            }
            return ControlEvent::Done;
        }
        if stopping {
            return ControlEvent::Done;
        }
        if is_profile_ack(datagram) {
            match ProfileAck::decode(datagram) {
                Ok(ack) => {
                    self.tracker.observe_valid_peer_control(now);
                    self.profile_acks.push(ack);
                    self.state.counters.mprf_ack_packets_received =
                    self.state.counters.mprf_ack_packets_received.saturating_add(1);
                },
                Err(_) => {
                    self.state.counters.mprf_ack_invalid =
                    self.state.counters.mprf_ack_invalid.saturating_add(1);
                },
            }
            return ControlEvent::Done;
        }
        if is_capability_feedback(datagram) {
            let _ = self.tracker.observe(datagram, session_id, now);
            let stats = self.tracker.stats();
            self.state.counters.capability_feedback_received = stats.received;
            self.state.counters.capability_feedback_invalid = stats.invalid;
            self.state.counters.capability_feedback_stale = stats.stale_events;
            return ControlEvent::Done;
        }
        if repair_mode == RepairMode::Nack {
            ControlEvent::Requests
        } else {
            ControlEvent::Done
        }
    }

    fn on_stream_close(
        &mut self,
        datagram: &[u8],
        session_id: u64,
        timings: CloseTimings,
        now: u64,
    ) -> (event: ControlEvent)
        requires
            media_control::starts_with_magic(datagram@, STREAM_CLOSE_MAGIC),
        ensures
            event == ControlModel::event(datagram@, session_id, false, RepairMode::Nack),
            final(self)@ == old(self)@.after(datagram@, session_id, false, timings, now),
            old(self).state.inv() ==> final(self).state.inv(),
    {
        match StreamClose::decode(datagram) {
            Ok(close) => {
                if close.stream_id == STREAM_VIDEO && (close.video_session_id == 0
                    || close.video_session_id == session_id) {
                    self.tracker.observe_valid_peer_control(now);
                    self.state.counters.stream_close_packets_received =
                    self.state.counters.stream_close_packets_received.saturating_add(1);
                    let ack: StreamCloseAck = close.ack();
                    self.state.pending_ack = Some((ack, now.saturating_add(timings.retry_initial)));
                    if self.state.linger_until.is_none() {
                        self.state.linger_until = Some(
                            now.saturating_add(timings.handshake_timeout),
                        );
                    }
                    self.state.token.cancel(StopReason::PeerClosed);
                    return ControlEvent::Acknowledge(ack);
                }
            },
            Err(_) => {},
        }
        self.state.counters.stream_close_invalid =
        self.state.counters.stream_close_invalid.saturating_add(1);
        ControlEvent::Done
    }

    /// Requests for packets of a session came.  They are served if it is the one that is
    /// being sent.
    pub fn on_requests(
        &mut self,
        request_session_id: u64,
        items: usize,
        session_id: u64,
        now: u64,
    ) -> (served: bool)
        ensures
            served == (request_session_id == session_id),
            final(self)@ == if served {
                ControlModel {
                    state: old(self).state.with_requests(items, now),
                    ..old(self)@.heard(now)
                }
            } else {
                ControlModel { state: old(self).state.with_foreign_requests(items), ..old(self)@ }
            },
            old(self).state.inv() ==> final(self).state.inv(),
    {
        if request_session_id != session_id {
            self.state.counters.repair_cache_miss_wrong_session =
            self.state.counters.repair_cache_miss_wrong_session.saturating_add(items as u64);
            return false;
        }
        self.tracker.observe_valid_peer_control(now);
        if now.saturating_sub(self.state.rate_window) >= REPAIR_WINDOW {
            self.state.rate_window = now;
            self.state.resent_in_window = 0;
        }
        self.state.counters.nack_packets_received =
        self.state.counters.nack_packets_received.saturating_add(1);
        self.state.counters.nack_items_received =
        self.state.counters.nack_items_received.saturating_add(items as u64);
        true
    }

    /// A request for one packet; `false` where too many were served in this window.
    pub fn admit_request(&mut self) -> (admitted: bool)
        ensures
            admitted == !old(self).state.is_limited(),
            final(self)@ == (ControlModel { state: old(self).state.with_request(), ..old(self)@ }),
            admitted ==> !final(self).state.is_limited(),
            old(self).state.inv() ==> final(self).state.inv(),
    {
        self.state.counters.repair_request_total =
        self.state.counters.repair_request_total.saturating_add(1);
        if self.state.resent_in_window >= MAX_REPAIRS_PER_WINDOW {
            self.state.counters.repair_rate_limited =
            self.state.counters.repair_rate_limited.saturating_add(1);
            return false;
        }
        true
    }

    /// What came of a request that was let through.
    pub fn request_done(&mut self, outcome: RepairOutcome)
        requires
            !old(self).state.is_limited(),
        ensures
            final(self)@ == (ControlModel {
                state: old(self).state.with_outcome(outcome),
                ..old(self)@
            }),
            final(self).state.inv(),
    {
        match outcome {
            RepairOutcome::Suppressed => {
                self.state.counters.repair_request_deduped =
                self.state.counters.repair_request_deduped.saturating_add(1);
                self.state.counters.repair_send_suppressed =
                self.state.counters.repair_send_suppressed.saturating_add(1);
            },
            RepairOutcome::Missing(expired) => {
                self.state.counters.repair_cache_misses =
                self.state.counters.repair_cache_misses.saturating_add(1);
                if expired {
                    self.state.counters.repair_cache_miss_expired =
                    self.state.counters.repair_cache_miss_expired.saturating_add(1);
                    self.state.counters.repair_cancelled_deadline =
                    self.state.counters.repair_cancelled_deadline.saturating_add(1);
                } else {
                    self.state.counters.repair_cache_miss_not_found =
                    self.state.counters.repair_cache_miss_not_found.saturating_add(1);
                }
            },
            RepairOutcome::Sent(bytes, first) => {
                self.state.resent_in_window = self.state.resent_in_window + 1;
                self.state.counters.repair_packets_resent =
                self.state.counters.repair_packets_resent.saturating_add(1);
                if first {
                    self.state.counters.repair_unique_packets_resent =
                    self.state.counters.repair_unique_packets_resent.saturating_add(1);
                } else {
                    self.state.counters.repair_duplicate_packets_resent =
                    self.state.counters.repair_duplicate_packets_resent.saturating_add(1);
                }
                self.state.counters.repair_cache_hits =
                self.state.counters.repair_cache_hits.saturating_add(1);
                self.state.counters.repair_send_bytes =
                self.state.counters.repair_send_bytes.saturating_add(bytes as u64);
            },
            RepairOutcome::Failed => {
                self.state.counters.repair_send_errors =
                self.state.counters.repair_send_errors.saturating_add(1);
                self.state.counters.repair_send_socket_errors =
                self.state.counters.repair_send_socket_errors.saturating_add(1);
            },
        }
    }
}

// What holds of every control side.

/// A close of the running stream ends the run and is acknowledged, again and again until
/// the time for it is over, also while the sender is stopping.
pub proof fn law_close_ends_the_run(
    control: ControlModel,
    datagram: Seq<u8>,
    session_id: u64,
    stopping: bool,
    repair_mode: RepairMode,
    timings: CloseTimings,
    now: u64,
    later: u64,
)
    requires
        ControlModel::closes(datagram, session_id),
        control.state.linger_until is None,
        now + timings.retry_initial <= later < now + timings.handshake_timeout <= u64::MAX,
    ensures
        ({
            let closed = control.after(datagram, session_id, stopping, timings, now);
            let ack = (StreamClose::parse(datagram)->Ok_0).acknowledgement();
            &&& ControlModel::event(datagram, session_id, stopping, repair_mode)
                == ControlEvent::Acknowledge(ack)
            &&& closed.state.token.reason is Some
            &&& control.state.token.reason is None ==> closed.state.token.reason == Some(
                StopReason::PeerClosed,
            )
            &&& closed.state.ack_due(later) == Some(ack)
        }),
{
}

/// A close of another session or stream changes one counter and nothing else.
pub proof fn law_foreign_close_is_refused(
    control: ControlModel,
    datagram: Seq<u8>,
    session_id: u64,
    stopping: bool,
    timings: CloseTimings,
    now: u64,
)
    requires
        media_control::starts_with_magic(datagram, STREAM_CLOSE_MAGIC),
        !ControlModel::closes(datagram, session_id),
    ensures
        control.after(datagram, session_id, stopping, timings, now) == (ControlModel {
            state: control.state.with_invalid_close(),
            ..control
        }),
        control.state.with_invalid_close().token == control.state.token,
{
}

/// A datagram that carries no valid message leaves the time when the other end was last
/// heard as it was.
pub proof fn law_refused_datagram_is_no_sign_of_life(
    control: ControlModel,
    datagram: Seq<u8>,
    session_id: u64,
    stopping: bool,
    timings: CloseTimings,
    now: u64,
)
    requires
        StreamClose::parse(datagram) is Err,
        StreamCloseAck::parse(datagram) is Err,
        ProfileAck::parse(datagram) is Err,
        media_control::CapabilityFeedback::parse(datagram) is Err,
    ensures
        ({
            let after = control.after(datagram, session_id, stopping, timings, now);
            &&& after.tracker.peer_control_at == control.tracker.peer_control_at
            &&& after.tracker.feedback_at == control.tracker.feedback_at
            &&& after.state.token == control.state.token
        }),
{
}

/// No more than the limit is sent again in a window, whatever comes.
pub proof fn law_repairs_are_limited(state: ControlState, outcome: RepairOutcome)
    requires
        state.inv(),
    ensures
        state.with_request().inv(),
        !state.is_limited() ==> state.with_request().with_outcome(outcome).inv(),
        state.is_limited() ==> state.with_request().resent_in_window == state.resent_in_window,
{
}

/// Only a shared screen is given up for silence, and never during a profile transition.
pub proof fn law_silence_ends_shared_screens_only(
    control: ControlModel,
    frames_sent: u64,
    send_mode: H264SendMode,
    hard_timeout: u64,
    now: u64,
)
    ensures
        control.is_gone(frames_sent, send_mode, hard_timeout, now) ==> send_mode
            == H264SendMode::Screen,
        control.tracker.grace_until matches Some(deadline) && now < deadline ==> !control.is_gone(
            frames_sent,
            send_mode,
            hard_timeout,
            now,
        ),
{
}

/// An end that was heard of late does not count as gone, however long ago the first
/// picture was sent.
pub proof fn law_heard_peer_is_not_gone(
    control: ControlModel,
    frames_sent: u64,
    send_mode: H264SendMode,
    hard_timeout: u64,
    heard_at: u64,
    now: u64,
)
    requires
        heard_at <= now < heard_at + hard_timeout,
    ensures
        !control.heard(heard_at).is_gone(frames_sent, send_mode, hard_timeout, now),
{
}

/// Whether a datagram begins with four bytes.
pub open spec fn begins_with(datagram: Seq<u8>, word: Seq<u8>) -> bool {
    datagram.len() >= 4 && datagram.take(4) == word
}

proof fn lemma_words(datagram: Seq<u8>)
    ensures
        media_control::starts_with_magic(datagram, STREAM_CLOSE_MAGIC) == begins_with(
            datagram,
            seq![0x4du8, 0x43, 0x4c, 0x53],
        ),
        media_control::starts_with_magic(datagram, STREAM_CLOSE_ACK_MAGIC) == begins_with(
            datagram,
            seq![0x4du8, 0x43, 0x4c, 0x41],
        ),
        media_control::starts_with_magic(datagram, PROFILE_ACK_MAGIC) == begins_with(
            datagram,
            seq![0x4du8, 0x50, 0x41, 0x4b],
        ),
        media_control::starts_with_magic(datagram, CAPABILITY_MAGIC) == begins_with(
            datagram,
            seq![0x4du8, 0x43, 0x46, 0x42],
        ),
{
    if datagram.len() >= 4 {
        wire::law_most_significant_byte_first(datagram, 0);
        let close = seq![0x4du8, 0x43, 0x4c, 0x53];
        let close_ack = seq![0x4du8, 0x43, 0x4c, 0x41];
        let profile_ack = seq![0x4du8, 0x50, 0x41, 0x4b];
        let feedback = seq![0x4du8, 0x43, 0x46, 0x42];
        let head = datagram.take(4);
        assert(forall|i: int| 0 <= i < 4 ==> head[i] == datagram[i]);
        if media_control::starts_with_magic(datagram, STREAM_CLOSE_MAGIC) {
            assert(head =~= close);
        }
        if media_control::starts_with_magic(datagram, STREAM_CLOSE_ACK_MAGIC) {
            assert(head =~= close_ack);
        }
        if media_control::starts_with_magic(datagram, PROFILE_ACK_MAGIC) {
            assert(head =~= profile_ack);
        }
        if media_control::starts_with_magic(datagram, CAPABILITY_MAGIC) {
            assert(head =~= feedback);
        }
        if head == close {
            assert(head[0] == 0x4d && head[1] == 0x43 && head[2] == 0x4c && head[3] == 0x53);
        }
        if head == close_ack {
            assert(head[0] == 0x4d && head[1] == 0x43 && head[2] == 0x4c && head[3] == 0x41);
        }
        if head == profile_ack {
            assert(head[0] == 0x4d && head[1] == 0x50 && head[2] == 0x41 && head[3] == 0x4b);
        }
        if head == feedback {
            assert(head[0] == 0x4d && head[1] == 0x43 && head[2] == 0x46 && head[3] == 0x42);
        }
    }
}

/// While repairs are served and nothing is being stopped, whatever begins with none of the
/// words `MCLS`, `MCLA`, `MPAK` and `MCFB` is looked at for requests; otherwise nothing is
/// done with it.  It changes nothing by itself.
pub proof fn law_requests_are_passed_on(
    control: ControlModel,
    datagram: Seq<u8>,
    session_id: u64,
    stopping: bool,
    repair_mode: RepairMode,
    timings: CloseTimings,
    now: u64,
)
    requires
        !begins_with(datagram, seq![0x4du8, 0x43, 0x4c, 0x53]),
        !begins_with(datagram, seq![0x4du8, 0x43, 0x4c, 0x41]),
        !begins_with(datagram, seq![0x4du8, 0x50, 0x41, 0x4b]),
        !begins_with(datagram, seq![0x4du8, 0x43, 0x46, 0x42]),
    ensures
        repair_mode == RepairMode::Nack && !stopping ==> ControlModel::event(
            datagram,
            session_id,
            stopping,
            repair_mode,
        ) == ControlEvent::Requests,
        repair_mode == RepairMode::Off || stopping ==> ControlModel::event(
            datagram,
            session_id,
            stopping,
            repair_mode,
        ) == ControlEvent::Done,
        control.after(datagram, session_id, stopping, timings, now) == control,
{
    lemma_words(datagram);
}

/// A datagram that begins with `NACK` is looked at for requests while repairs are served
/// and nothing is being stopped, whatever follows and whichever session runs.
pub proof fn law_nack_is_served(datagram: Seq<u8>, session_id: u64)
    requires
        datagram.len() >= 4,
        datagram[0] == 0x4e,
        datagram[1] == 0x41,
        datagram[2] == 0x43,
        datagram[3] == 0x4b,
    ensures
        ControlModel::event(datagram, session_id, false, RepairMode::Nack)
            == ControlEvent::Requests,
        ControlModel::event(datagram, session_id, false, RepairMode::Off) == ControlEvent::Done,
        ControlModel::event(datagram, session_id, true, RepairMode::Nack) == ControlEvent::Done,
{
    lemma_words(datagram);
    assert(datagram.take(4)[0] == 0x4e);
}

/// Nothing but a close is acknowledged, and nothing but what may ask for packets is looked
/// at for requests.
pub proof fn law_each_message_has_its_answer(
    datagram: Seq<u8>,
    session_id: u64,
    stopping: bool,
    repair_mode: RepairMode,
)
    ensures
        ControlModel::event(datagram, session_id, stopping, repair_mode) is Acknowledge
            ==> begins_with(datagram, seq![0x4du8, 0x43, 0x4c, 0x53]),
        ControlModel::event(datagram, session_id, stopping, repair_mode) == ControlEvent::Requests
            ==> !stopping && repair_mode == RepairMode::Nack && !begins_with(
            datagram,
            seq![0x4du8, 0x43, 0x4c, 0x53],
        ) && !begins_with(datagram, seq![0x4du8, 0x43, 0x4c, 0x41]) && !begins_with(
            datagram,
            seq![0x4du8, 0x50, 0x41, 0x4b],
        ) && !begins_with(datagram, seq![0x4du8, 0x43, 0x46, 0x42]),
{
    lemma_words(datagram);
}

/// An acknowledgement that arrives whole is handed on behind those that came before, and
/// shows that the other end is there: one of a close always, one of a profile unless the
/// sender is stopping.
pub proof fn law_acknowledgements_are_handed_on(
    control: ControlModel,
    datagram: Seq<u8>,
    session_id: u64,
    stopping: bool,
    timings: CloseTimings,
    now: u64,
)
    ensures
        StreamCloseAck::parse(datagram) matches Ok(ack) ==> {
            let after = control.after(datagram, session_id, stopping, timings, now);
            &&& after.close_acks == control.close_acks.push(ack)
            &&& after.profile_acks == control.profile_acks
            &&& after.tracker.peer_control_at == Some(now)
            &&& after.state.token == control.state.token
        },
        ProfileAck::parse(datagram) matches Ok(ack) ==> {
            let after = control.after(datagram, session_id, stopping, timings, now);
            &&& after.close_acks == control.close_acks
            &&& after.state.token == control.state.token
            &&& stopping ==> after == control
            &&& !stopping ==> after.profile_acks == control.profile_acks.push(ack)
                && after.tracker.peer_control_at == Some(now)
        },
{
}

/// Feedback that was not refused is what is then known of the other end, unless the sender
/// is stopping, and nothing else changes but what is counted of feedback.
pub proof fn law_feedback_is_taken(
    control: ControlModel,
    datagram: Seq<u8>,
    session_id: u64,
    timings: CloseTimings,
    now: u64,
)
    requires
        begins_with(datagram, seq![0x4du8, 0x43, 0x46, 0x42]),
    ensures
        ({
            let after = control.after(datagram, session_id, false, timings, now);
            &&& after.tracker == control.tracker.observed(datagram, session_id, now)
            &&& after.close_acks == control.close_acks
            &&& after.profile_acks == control.profile_acks
            &&& after.state.token == control.state.token
            &&& after.state.pending_ack == control.state.pending_ack
            &&& after.state.counters.capability_feedback_received == after.tracker.stats.received
            &&& after.state.counters.capability_feedback_invalid == after.tracker.stats.invalid
            &&& after.state.counters.capability_feedback_stale
                == after.tracker.stats.stale_events
        }),
        control.after(datagram, session_id, true, timings, now) == control,
{
    lemma_words(datagram);
}

/// Five thousand packets are sent again in a window and no more; a second after the window
/// began, requests find a new one, and until then they find the same.
pub proof fn law_repairs_of_a_window(state: ControlState, items: usize, now: u64)
    ensures
        state.is_limited() == (state.resent_in_window >= 5000),
        now >= state.rate_window + 1_000_000_000 ==> {
            &&& !state.with_requests(items, now).is_limited()
            &&& state.with_requests(items, now).resent_in_window == 0
            &&& state.with_requests(items, now).rate_window == now
        },
        now < state.rate_window + 1_000_000_000 ==> {
            &&& state.with_requests(items, now).resent_in_window == state.resent_in_window
            &&& state.with_requests(items, now).rate_window == state.rate_window
        },
        state.counters.nack_packets_received < u64::MAX
            && state.counters.nack_items_received + items <= u64::MAX ==> {
            let after = state.with_requests(items, now).counters;
            &&& after.nack_packets_received == state.counters.nack_packets_received + 1
            &&& after.nack_items_received == state.counters.nack_items_received + items
            &&& after.repair_cache_miss_wrong_session
                == state.counters.repair_cache_miss_wrong_session
        },
        state.counters.repair_cache_miss_wrong_session + items <= u64::MAX ==> {
            let after = state.with_foreign_requests(items);
            &&& after.counters.repair_cache_miss_wrong_session
                == state.counters.repair_cache_miss_wrong_session + items
            &&& after.counters.nack_packets_received == state.counters.nack_packets_received
            &&& after.resent_in_window == state.resent_in_window
        },
{
}

/// Every request that is let through is counted once, by what came of it, and only a packet
/// that was sent again uses the window.
pub proof fn law_every_request_is_counted_once(state: ControlState, outcome: RepairOutcome)
    requires
        state.counters.repair_packets_resent < u64::MAX,
        state.counters.repair_cache_misses < u64::MAX,
        state.counters.repair_request_deduped < u64::MAX,
        state.counters.repair_send_errors < u64::MAX,
        state.counters.repair_unique_packets_resent < u64::MAX,
        state.counters.repair_duplicate_packets_resent < u64::MAX,
        state.counters.repair_cache_miss_expired < u64::MAX,
        state.counters.repair_cache_miss_not_found < u64::MAX,
        state.resent_in_window < 5000,
    ensures
        ({
            let c = state.counters;
            let d = state.with_outcome(outcome).counters;
            &&& d.repair_packets_resent == c.repair_packets_resent + if outcome is Sent {
                1int
            } else {
                0
            }
            &&& d.repair_cache_misses == c.repair_cache_misses + if outcome is Missing {
                1int
            } else {
                0
            }
            &&& d.repair_request_deduped == c.repair_request_deduped + if outcome
                == RepairOutcome::Suppressed {
                1int
            } else {
                0
            }
            &&& d.repair_send_errors == c.repair_send_errors + if outcome
                == RepairOutcome::Failed {
                1int
            } else {
                0
            }
            &&& d.repair_unique_packets_resent + d.repair_duplicate_packets_resent
                - d.repair_packets_resent == c.repair_unique_packets_resent
                + c.repair_duplicate_packets_resent - c.repair_packets_resent
            &&& d.repair_cache_miss_expired + d.repair_cache_miss_not_found
                - d.repair_cache_misses == c.repair_cache_miss_expired
                + c.repair_cache_miss_not_found - c.repair_cache_misses
            &&& outcome matches RepairOutcome::Sent(bytes, first) ==> {
                &&& c.repair_send_bytes + bytes <= u64::MAX ==> d.repair_send_bytes
                    == c.repair_send_bytes + bytes
                &&& first == (d.repair_unique_packets_resent
                    == c.repair_unique_packets_resent + 1)
            }
            &&& outcome matches RepairOutcome::Missing(expired) ==> expired == (
            d.repair_cache_miss_expired == c.repair_cache_miss_expired + 1)
            &&& state.with_outcome(outcome).resent_in_window == state.resent_in_window
                + if outcome is Sent {
                1int
            } else {
                0
            }
        }),
{
}

/// While a screen is shared and no profile changes, the other end is given up once it was
/// silent for the whole time since it was last heard, or since the first picture where it
/// was never heard; without a picture it is waited for.
pub proof fn law_long_silence_ends_the_run(
    control: ControlModel,
    frames_sent: u64,
    hard_timeout: u64,
    heard_at: u64,
    now: u64,
)
    requires
        control.tracker.grace_until is None,
    ensures
        control.tracker.peer_control_at == Some(heard_at) && control.tracker.feedback_at is None
            && heard_at + hard_timeout <= now ==> control.is_gone(
            frames_sent,
            H264SendMode::Screen,
            hard_timeout,
            now,
        ),
        control.tracker.feedback_at == Some(heard_at) && control.tracker.peer_control_at is None
            && heard_at + hard_timeout <= now ==> control.is_gone(
            frames_sent,
            H264SendMode::Screen,
            hard_timeout,
            now,
        ),
        control.tracker.peer_control_at is None && control.tracker.feedback_at is None
            && control.state.media_first_sent_at == Some(heard_at)
            && control.state.session_started_at <= heard_at && heard_at <= now
            ==> control.is_gone(frames_sent, H264SendMode::Screen, hard_timeout, now) == (heard_at
            + hard_timeout <= now),
        control.tracker.peer_control_at is None && control.tracker.feedback_at is None
            && control.state.media_first_sent_at is None && frames_sent
            <= control.state.session_frames_baseline ==> !control.is_gone(
            frames_sent,
            H264SendMode::Screen,
            hard_timeout,
            now,
        ),
{
}

/// The acknowledgement of a close is sent again after each wait and not before, and no more
/// once the time for it is over.
pub proof fn law_acknowledgement_is_repeated(
    state: ControlState,
    ack: StreamCloseAck,
    due: u64,
    deadline: u64,
    written: bool,
    retry: u64,
    now: u64,
    later: u64,
)
    requires
        state.pending_ack == Some((ack, due)),
        state.linger_until == Some(deadline),
        now + retry <= u64::MAX,
    ensures
        state.ack_due(now) == if due <= now && now < deadline {
            Some(ack)
        } else {
            None
        },
        state.with_ack_repeated(written, retry, now).ack_due(later) == if now + retry <= later
            && later < deadline {
            Some(ack)
        } else {
            None
        },
        written && state.counters.stream_close_ack_packets_sent < u64::MAX
            ==> state.with_ack_repeated(
            written,
            retry,
            now,
        ).counters.stream_close_ack_packets_sent == state.counters.stream_close_ack_packets_sent
            + 1,
        !written ==> state.with_ack_repeated(written, retry, now).counters == state.counters,
{
}

/// Another session is watched from its first frame on, as if none had been before; the same
/// session is watched on.
pub proof fn law_session_is_watched_anew(
    state: ControlState,
    session_id: u64,
    frames_sent: u64,
    more_frames: u64,
    now: u64,
    later: u64,
)
    ensures
        session_id == state.observed_session_id ==> state.with_session(
            session_id,
            frames_sent,
            now,
        ) == state,
        session_id != state.observed_session_id ==> {
            let watched = state.with_session(session_id, frames_sent, now);
            &&& watched.observed_session_id == session_id
            &&& watched.with_frames(frames_sent, later).media_age(later) is None
            &&& more_frames > frames_sent && later >= now ==> watched.with_frames(
                more_frames,
                later,
            ).media_age(later) == Some(0u64)
            &&& watched.counters == state.counters
            &&& watched.token == state.token
        },
{
}

/// Every message of the other end is counted once, under its kind: closes and
/// acknowledgements that are taken, those that are refused, and feedback as its tracker
/// counts it.
pub proof fn law_control_messages_are_counted(
    control: ControlModel,
    datagram: Seq<u8>,
    session_id: u64,
    timings: CloseTimings,
    now: u64,
)
    requires
        control.state.counters.stream_close_packets_received < u64::MAX,
        control.state.counters.stream_close_ack_packets_received < u64::MAX,
        control.state.counters.stream_close_invalid < u64::MAX,
        control.state.counters.mprf_ack_packets_received < u64::MAX,
        control.state.counters.mprf_ack_invalid < u64::MAX,
    ensures
        ({
            let a = control.state.counters;
            let b = control.after(datagram, session_id, false, timings, now).state.counters;
            let tracker = control.after(datagram, session_id, false, timings, now).tracker;
            let close = begins_with(datagram, seq![0x4du8, 0x43, 0x4c, 0x53]);
            let close_ack = begins_with(datagram, seq![0x4du8, 0x43, 0x4c, 0x41]);
            let profile_ack = begins_with(datagram, seq![0x4du8, 0x50, 0x41, 0x4b]);
            let feedback = begins_with(datagram, seq![0x4du8, 0x43, 0x46, 0x42]);
            &&& close && ControlModel::closes(datagram, session_id)
                ==> b.stream_close_packets_received == a.stream_close_packets_received + 1
                && b.stream_close_invalid == a.stream_close_invalid
            &&& close && !ControlModel::closes(datagram, session_id) ==> b.stream_close_invalid
                == a.stream_close_invalid + 1 && b.stream_close_packets_received
                == a.stream_close_packets_received
            &&& close_ack && StreamCloseAck::parse(datagram) is Ok
                ==> b.stream_close_ack_packets_received == a.stream_close_ack_packets_received + 1
                && b.stream_close_invalid == a.stream_close_invalid
            &&& close_ack && StreamCloseAck::parse(datagram) is Err ==> b.stream_close_invalid
                == a.stream_close_invalid + 1 && b.stream_close_ack_packets_received
                == a.stream_close_ack_packets_received
            &&& profile_ack && ProfileAck::parse(datagram) is Ok ==> b.mprf_ack_packets_received
                == a.mprf_ack_packets_received + 1 && b.mprf_ack_invalid == a.mprf_ack_invalid
            &&& profile_ack && ProfileAck::parse(datagram) is Err ==> b.mprf_ack_invalid
                == a.mprf_ack_invalid + 1 && b.mprf_ack_packets_received
                == a.mprf_ack_packets_received
            &&& feedback ==> b.capability_feedback_received == tracker.stats.received
                && b.capability_feedback_invalid == tracker.stats.invalid
                && b.capability_feedback_stale == tracker.stats.stale_events
            &&& !close && !close_ack && !profile_ack && !feedback ==> b == a
        }),
{
    lemma_words(datagram);
    let close = seq![0x4du8, 0x43, 0x4c, 0x53];
    let close_ack = seq![0x4du8, 0x43, 0x4c, 0x41];
    let profile_ack = seq![0x4du8, 0x50, 0x41, 0x4b];
    let feedback = seq![0x4du8, 0x43, 0x46, 0x42];
    assert(close[3] != close_ack[3] && close[1] != profile_ack[1] && close[2] != feedback[2]);
    assert(close_ack[1] != profile_ack[1] && close_ack[2] != feedback[2]);
    assert(profile_ack[1] != feedback[1]);
}

/// An accepted close is answered at once and again after the first wait, lets the control
/// side linger for the time of a handshake, and ends the run for that reason unless another
/// was noted before.
pub proof fn law_accepted_close_ends_the_run(
    control: ControlModel,
    datagram: Seq<u8>,
    session_id: u64,
    stopping: bool,
    timings: CloseTimings,
    now: u64,
)
    requires
        begins_with(datagram, seq![0x4du8, 0x43, 0x4c, 0x53]),
        ControlModel::closes(datagram, session_id),
        now + timings.retry_initial <= u64::MAX,
        now + timings.handshake_timeout <= u64::MAX,
    ensures
        ({
            let after = control.after(datagram, session_id, stopping, timings, now);
            let close = StreamClose::parse(datagram)->Ok_0;
            &&& after.state.pending_ack == Some(
                (close.acknowledgement(), (now + timings.retry_initial) as u64),
            )
            &&& control.state.linger_until is None ==> after.state.linger_until == Some(
                (now + timings.handshake_timeout) as u64,
            )
            &&& control.state.linger_until is Some ==> after.state.linger_until
                == control.state.linger_until
            &&& control.state.token.reason is None ==> after.state.token.reason == Some(
                StopReason::PeerClosed,
            )
            &&& control.state.token.reason is Some ==> after.state.token == control.state.token
            &&& after.close_acks == control.close_acks
            &&& after.profile_acks == control.profile_acks
        }),
{
    lemma_words(datagram);
}

/// The age of the pictures of a session counts from its first picture, and not from before
/// the session began.
pub proof fn law_age_counts_from_the_first_picture(state: ControlState, now: u64)
    ensures
        state.media_first_sent_at is None ==> state.media_age(now) is None,
        state.media_first_sent_at matches Some(started) ==> {
            let age = state.media_age(now);
            &&& age is Some
            &&& started >= state.session_started_at && started <= now ==> age->0 == now - started
            &&& started < state.session_started_at && state.session_started_at <= now ==> age->0
                == now - state.session_started_at
        },
{
}

} // verus!
