//! How two ends agree that a stream is over.
//!
//! Times are nanoseconds of a monotonic clock.

use vstd::prelude::*;

use crate::media_control;
use crate::media_control::{ControlError, StreamClose, StreamCloseAck};
use crate::media_packet::STREAM_VIDEO;

verus! {

/// Where a datagram comes from: an address and a port, and for version 6 of the protocol
/// the flow and the scope.
#[derive(Clone, Copy, Debug, PartialEq, Eq, Structural)]
pub enum PeerAddress {
    V4(u32, u16),
    V6(u128, u16, u32, u32),
}

/// Why nothing was received.
#[derive(Clone, Copy, Debug, PartialEq, Eq, Structural)]
pub enum ReceiveError {
    WouldBlock,
    TimedOut,
    ConnectionReset,
    Other,
}

/// What a stream close of the other end means.
#[derive(Clone, Copy, Debug, PartialEq, Eq, Structural)]
pub enum IncomingStreamCloseDecision {
    Accept(StreamClose),
    Duplicate(StreamClose),
    RejectPreSession,
    RejectPeer,
    RejectSession,
    RejectInvalid,
}

/// What the datagram means.  Only the end that the stream comes from can close it, only
/// the stream that runs, and only once; the same close again is a repetition.
pub open spec fn close_decision(
    datagram: Seq<u8>,
    source: PeerAddress,
    pinned_peer: Option<PeerAddress>,
    active_session_id: Option<u64>,
    accepted_close: Option<(PeerAddress, StreamClose)>,
) -> IncomingStreamCloseDecision {
    match StreamClose::parse(datagram) {
        Err(_) => IncomingStreamCloseDecision::RejectInvalid,
        Ok(close) => if pinned_peer is None || active_session_id is None || active_session_id
            == Some(0u64) {
            IncomingStreamCloseDecision::RejectPreSession
        } else if pinned_peer != Some(source) {
            IncomingStreamCloseDecision::RejectPeer
        } else if close.stream_id != STREAM_VIDEO || close.video_session_id == 0
            || active_session_id != Some(close.video_session_id) {
            IncomingStreamCloseDecision::RejectSession
        } else {
            match accepted_close {
                None => IncomingStreamCloseDecision::Accept(close),
                Some((accepted_source, accepted)) => if accepted_source == source
                    && accepted.video_session_id == close.video_session_id && accepted.close_id
                    == close.close_id {
                    IncomingStreamCloseDecision::Duplicate(close)
                } else {
                    IncomingStreamCloseDecision::RejectInvalid
                },
            }
        },
    }
}

/// Decides what a stream close of the other end means.
pub fn classify_incoming_stream_close(
    datagram: &[u8],
    source: PeerAddress,
    pinned_peer: Option<PeerAddress>,
    active_session_id: Option<u64>,
    accepted_close: Option<(PeerAddress, StreamClose)>,
) -> (r: IncomingStreamCloseDecision)
    ensures
        r == close_decision(
            datagram@,
            source,
            pinned_peer,
            active_session_id,
            accepted_close,
        ),
{
    let close: StreamClose = match StreamClose::decode(datagram) {
        Ok(close) => close,
        Err(_) => {
            return IncomingStreamCloseDecision::RejectInvalid;
        },
    };
    let (pinned, session_id): (PeerAddress, u64) = match (pinned_peer, active_session_id) {
        (Some(pinned), Some(session_id)) => (pinned, session_id),
        _ => {
            return IncomingStreamCloseDecision::RejectPreSession;
        },
    };
    if session_id == 0 {
        return IncomingStreamCloseDecision::RejectPreSession;
    }
    if pinned != source {
        return IncomingStreamCloseDecision::RejectPeer;
    }
    if close.stream_id != STREAM_VIDEO || close.video_session_id == 0 || session_id
        != close.video_session_id {
        return IncomingStreamCloseDecision::RejectSession;
    }
    match accepted_close {
        None => IncomingStreamCloseDecision::Accept(close),
        Some((accepted_source, accepted)) => if accepted_source == source
            && accepted.video_session_id == close.video_session_id && accepted.close_id
            == close.close_id {
            IncomingStreamCloseDecision::Duplicate(close)
        } else {
            IncomingStreamCloseDecision::RejectInvalid
        },
    }
}

/// A stream is closed by the end that it comes from, and by naming its session.
pub proof fn law_close_needs_peer_and_session(
    datagram: Seq<u8>,
    source: PeerAddress,
    pinned_peer: Option<PeerAddress>,
    active_session_id: Option<u64>,
    accepted_close: Option<(PeerAddress, StreamClose)>,
)
    requires
        close_decision(datagram, source, pinned_peer, active_session_id, accepted_close) is Accept,
    ensures
        pinned_peer == Some(source),
        StreamClose::parse(datagram) matches Ok(close) && active_session_id == Some(
            close.video_session_id,
        ) && close.video_session_id != 0,
        accepted_close is None,
{
}

/// A close that was accepted and comes again is a repetition, never a second close.
pub proof fn law_repeated_close_is_a_duplicate(
    datagram: Seq<u8>,
    source: PeerAddress,
    pinned_peer: Option<PeerAddress>,
    active_session_id: Option<u64>,
)
    requires
        close_decision(datagram, source, pinned_peer, active_session_id, None) is Accept,
    ensures
        ({
            let close = StreamClose::parse(datagram)->Ok_0;
            close_decision(
                datagram,
                source,
                pinned_peer,
                active_session_id,
                Some((source, close)),
            ) == IncomingStreamCloseDecision::Duplicate(close)
        }),
{
}

/// The first bytes of a request to send packets again.
pub open spec fn is_nack(datagram: Seq<u8>) -> bool {
    datagram.len() >= 4 && datagram[0] == 0x4e && datagram[1] == 0x41 && datagram[2] == 0x43
        && datagram[3] == 0x4b
}

/// Whether a datagram is too short for media or asks for packets, and whether it does the
/// latter.
pub fn classify_short_or_nack(datagram: &[u8]) -> (r: (bool, bool))
    ensures
        r.0 == (datagram@.len() < 4 || is_nack(datagram@)),
        r.1 == is_nack(datagram@),
{
    let nack: bool = datagram.len() >= 4 && datagram[0] == 0x4e && datagram[1] == 0x41
        && datagram[2] == 0x43 && datagram[3] == 0x4b;
    (datagram.len() < 4 || nack, nack)
}

/// A vanished peer shows as a reset of the connection; once a peer is known, it is left
/// to the timeout to notice that it is gone.
pub fn is_expected_udp_peer_reset(kind: ReceiveError, peer_known: bool) -> (r: bool)
    ensures
        r == (peer_known && kind == ReceiveError::ConnectionReset),
{
    peer_known && kind == ReceiveError::ConnectionReset
}

/// Whether the receiver of control messages goes on after the error.
pub fn is_retryable_control_receive_error(kind: ReceiveError) -> (r: bool)
    ensures
        r == (kind != ReceiveError::Other),
{
    match kind {
        ReceiveError::WouldBlock | ReceiveError::TimedOut | ReceiveError::ConnectionReset => true,
        ReceiveError::Other => false,
    }
}

// Closing from this end.

/// How long the closing end tries.
#[derive(Clone, Copy, Debug, PartialEq, Eq, Structural)]
pub struct CloseTimings {
    pub retry_initial: u64,
    pub retry_max: u64,
    pub handshake_timeout: u64,
}

/// How closing went.
#[derive(Clone, Copy, Debug, PartialEq, Eq, Structural)]
pub struct CloseResult {
    pub sent: u64,
    pub retries: u64,
    pub ack_received: bool,
    pub timed_out: bool,
}

/// Closing from this end: the close is sent again, after longer and longer waits, until
/// it is acknowledged or time is up.
#[derive(Clone, Copy, Debug, PartialEq, Eq, Structural)]
pub struct CloseHandshake {
    pub close: StreamClose,
    pub retry_max: u64,
    pub deadline: u64,
    pub retry: u64,
    pub sent: u64,
    /// Until when an answer to the last close is waited for.
    pub waiting_until: Option<u64>,
}

/// What the closing end does next.
#[derive(Clone, Copy, Debug, PartialEq, Eq, Structural)]
pub enum CloseStep {
    /// Send the close.
    Send,
    /// Wait for a datagram, up to this time.
    Receive(u64),
    Done(CloseResult),
}

/// What a datagram means to the closing end.
#[derive(Clone, Copy, Debug, PartialEq, Eq, Structural)]
pub enum CloseReply {
    Ignore,
    /// The other end closes too: acknowledge it.
    Acknowledge(StreamCloseAck),
    Done(CloseResult),
}

/// `a` twice, but not over `max`.
pub open spec fn doubled(a: u64, max: u64) -> u64 {
    if 2 * a < max {
        (2 * a) as u64
    } else {
        max
    }
}

pub open spec fn earlier(a: u64, b: u64) -> u64 {
    if a < b {
        a
    } else {
        b
    }
}

/// One send is the first; the others are retries.
pub open spec fn close_result(sent: u64, ack_received: bool, timed_out: bool) -> CloseResult {
    CloseResult { sent, retries: sent.saturating_sub(1), ack_received, timed_out }
}

impl CloseHandshake {
    /// Nothing was sent yet.
    pub open spec fn begun(close: StreamClose, timings: CloseTimings, now: u64) -> CloseHandshake {
        CloseHandshake {
            close,
            retry_max: timings.retry_max,
            deadline: now.saturating_add(timings.handshake_timeout),
            retry: timings.retry_initial,
            sent: 0,
            waiting_until: None,
        }
    }

    /// Begins to close; a close that cannot be encoded ends at once, as a timeout.
    pub fn begin(close: StreamClose, timings: CloseTimings, now: u64) -> (r: Result<
        (CloseHandshake, Vec<u8>),
        CloseResult,
    >)
        ensures
            match close.check() {
                Ok(_) => r matches Ok((handshake, bytes)) && handshake == Self::begun(
                    close,
                    timings,
                    now,
                ) && bytes@ == close.wire(),
                Err(_) => r == Err::<(CloseHandshake, Vec<u8>), CloseResult>(
                    close_result(0, false, true),
                ),
            },
    {
        match close.encode() {
            Ok(bytes) => Ok(
                (
                    CloseHandshake {
                        close,
                        retry_max: timings.retry_max,
                        deadline: now.saturating_add(timings.handshake_timeout),
                        retry: timings.retry_initial,
                        sent: 0,
                        waiting_until: None,
                    },
                    bytes,
                ),
            ),
            Err(_) => Err(
                CloseResult { sent: 0, retries: 0, ack_received: false, timed_out: true },
            ),
        }
    }

    /// The wait is over: the next one is twice as long, up to the longest.
    pub open spec fn waited(self) -> CloseHandshake {
        CloseHandshake { retry: doubled(self.retry, self.retry_max), waiting_until: None, ..self }
    }

    /// What comes next at `now`, and the state then.
    pub open spec fn at(self, now: u64) -> (CloseHandshake, CloseStep) {
        match self.waiting_until {
            Some(until) if now < until => (self, CloseStep::Receive(until)),
            _ => {
                let next = if self.waiting_until is Some {
                    self.waited()
                } else {
                    self
                };
                if now < self.deadline {
                    (next, CloseStep::Send)
                } else {
                    (next, CloseStep::Done(close_result(self.sent, false, self.sent > 0)))
                }
            },
        }
    }

    /// Decides what comes next.
    pub fn next_step(&mut self, now: u64) -> (step: CloseStep)
        ensures
            (*final(self), step) == old(self).at(now),
    {
        if let Some(until) = self.waiting_until {
            if now < until {
                return CloseStep::Receive(until);
            }
            self.end_wait();
        }
        if now < self.deadline {
            CloseStep::Send
        } else {
            CloseStep::Done(
                CloseResult {
                    sent: self.sent,
                    retries: self.sent.saturating_sub(1),
                    ack_received: false,
                    timed_out: self.sent > 0,
                },
            )
        }
    }

    /// Ends the wait for an answer.
    pub fn end_wait(&mut self)
        ensures
            *final(self) == old(self).waited(),
    {
        self.retry = if self.retry < self.retry_max && self.retry < self.retry_max - self.retry {
            self.retry * 2
        } else {
            self.retry_max
        };
        self.waiting_until = None;
    }

    /// The state after a close was sent, or could not be sent.
    pub open spec fn after_sending(self, written: bool, now: u64) -> CloseHandshake {
        CloseHandshake {
            sent: if written {
                self.sent.saturating_add(1)
            } else {
                self.sent
            },
            waiting_until: Some(earlier(now.saturating_add(self.retry), self.deadline)),
            ..self
        }
    }

    /// Notes that the close was sent, or could not be sent.
    pub fn close_sent(&mut self, written: bool, now: u64)
        ensures
            *final(self) == old(self).after_sending(written, now),
    {
        if written {
            self.sent = self.sent.saturating_add(1);
        }
        let until: u64 = now.saturating_add(self.retry);
        self.waiting_until = Some(if until < self.deadline { until } else { self.deadline });
    }

    /// What a datagram means.
    pub open spec fn reply(self, from_peer: bool, datagram: Seq<u8>) -> CloseReply {
        if !from_peer {
            CloseReply::Ignore
        } else if StreamCloseAck::parse(datagram) matches Ok(ack) && ack.acknowledges(self.close) {
            CloseReply::Done(close_result(self.sent, true, false))
        } else {
            match StreamClose::parse(datagram) {
                Ok(remote) => CloseReply::Acknowledge(remote.acknowledgement()),
                Err(_) => CloseReply::Ignore,
            }
        }
    }

    /// Decides what a datagram means.
    pub fn datagram_received(&self, from_peer: bool, datagram: &[u8]) -> (r: CloseReply)
        ensures
            r == self.reply(from_peer, datagram@),
    {
        if !from_peer {
            return CloseReply::Ignore;
        }
        if let Ok(ack) = StreamCloseAck::decode(datagram) {
            if ack.matches(self.close) {
                return CloseReply::Done(self.acknowledged());
            }
        }
        match StreamClose::decode(datagram) {
            Ok(remote) => CloseReply::Acknowledge(remote.ack()),
            Err(_) => CloseReply::Ignore,
        }
    }

    /// The close was acknowledged.
    pub fn acknowledged(&self) -> (r: CloseResult)
        ensures
            r == close_result(self.sent, true, false),
    {
        CloseResult {
            sent: self.sent,
            retries: self.sent.saturating_sub(1),
            ack_received: true,
            timed_out: false,
        }
    }

    /// Receiving failed for good.
    pub fn receive_failed(&self) -> (r: CloseResult)
        ensures
            r == close_result(self.sent, false, true),
    {
        CloseResult {
            sent: self.sent,
            retries: self.sent.saturating_sub(1),
            ack_received: false,
            timed_out: true,
        }
    }

    /// How long the waiting end sleeps at `now`.
    pub fn wait_time(&self, now: u64) -> (r: u64)
        ensures
            r == earlier(self.retry, self.deadline.saturating_sub(now)),
    {
        let left: u64 = self.deadline.saturating_sub(now);
        if self.retry < left {
            self.retry
        } else {
            left
        }
    }
}

/// The acknowledgements that are not of `close`.
pub open spec fn without_acks_of(inbox: Seq<StreamCloseAck>, close: StreamClose) -> Seq<
    StreamCloseAck,
>
    decreases inbox.len(),
{
    if inbox.len() == 0 {
        Seq::empty()
    } else {
        let rest = without_acks_of(inbox.drop_last(), close);
        if inbox.last().acknowledges(close) {
            rest
        } else {
            rest.push(inbox.last())
        }
    }
}

/// Forgets what acknowledges `close` already.
pub fn discard_acks(inbox: &mut Vec<StreamCloseAck>, close: StreamClose)
    ensures
        final(inbox)@ == without_acks_of(old(inbox)@, close),
{
    let mut kept: Vec<StreamCloseAck> = Vec::new();
    let mut i: usize = 0;
    while i < inbox.len()
        invariant
            i <= inbox@.len(),
            kept@ == without_acks_of(inbox@.take(i as int), close),
        decreases inbox@.len() - i,
    {
        assert(inbox@.take(i + 1).drop_last() =~= inbox@.take(i as int));
        let ack: StreamCloseAck = inbox[i];
        if !ack.matches(close) {
            kept.push(ack);
        }
        i = i + 1;
    }
    assert(inbox@.take(inbox@.len() as int) =~= inbox@);
    *inbox = kept;
}

/// The first acknowledgement of `close`.
pub open spec fn first_ack_of(inbox: Seq<StreamCloseAck>, close: StreamClose, i: int) -> bool {
    0 <= i < inbox.len() && inbox[i].acknowledges(close) && forall|j: int|
        0 <= j < i ==> !(#[trigger] inbox[j]).acknowledges(close)
}

/// Takes the first acknowledgement of `close` out of the inbox, if there is one.
pub fn take_ack(inbox: &mut Vec<StreamCloseAck>, close: StreamClose) -> (found: bool)
    ensures
        found == exists|i: int| #[trigger] first_ack_of(old(inbox)@, close, i),
        found == exists|i: int| 0 <= i < old(inbox)@.len()
            && (#[trigger] old(inbox)@[i]).acknowledges(close),
        !found ==> final(inbox)@ == old(inbox)@,
        forall|i: int| #[trigger]
            first_ack_of(old(inbox)@, close, i) ==> final(inbox)@ == old(inbox)@.remove(i),
{
    let mut i: usize = 0;
    while i < inbox.len()
        invariant
            i <= inbox@.len(),
            inbox@ == old(inbox)@,
            forall|j: int| 0 <= j < i ==> !(#[trigger] inbox@[j]).acknowledges(close),
        decreases inbox@.len() - i,
    {
        if inbox[i].matches(close) {
            assert(first_ack_of(old(inbox)@, close, i as int));
            inbox.remove(i);
            return true;
        }
        i = i + 1;
    }
    false
}

// What holds of every handshake.

/// The acknowledgement that the other end makes of the close ends the handshake.
pub proof fn law_answered_close_is_done(handshake: CloseHandshake)
    requires
        handshake.close.check() is Ok,
    ensures
        ({
            let close = StreamClose::parse(handshake.close.wire());
            &&& close == Ok::<StreamClose, ControlError>(handshake.close)
            &&& handshake.reply(true, close->Ok_0.acknowledgement().wire()) == CloseReply::Done(
                close_result(handshake.sent, true, false),
            )
        }),
{
    media_control::law_stream_close_round_trip(handshake.close);
    media_control::law_stream_close_ack_round_trip(handshake.close.acknowledgement());
}

/// An acknowledgement of another close ends nothing.
pub proof fn law_other_acks_are_ignored(handshake: CloseHandshake, ack: StreamCloseAck)
    requires
        ack.check() is Ok,
        !ack.acknowledges(handshake.close),
    ensures
        !(handshake.reply(true, ack.wire()) is Done),
        !(handshake.reply(false, ack.wire()) is Done),
{
    media_control::law_stream_close_ack_round_trip(ack);
}

/// A close of the other end that comes in between is acknowledged.
pub proof fn law_simultaneous_close_is_acknowledged(handshake: CloseHandshake, remote: StreamClose)
    requires
        remote.check() is Ok,
    ensures
        handshake.reply(true, remote.wire()) == CloseReply::Acknowledge(remote.acknowledgement()),
{
    media_control::law_stream_close_round_trip(remote);
}

/// The waits grow, never over the longest, and never past the deadline; after the
/// deadline nothing is sent.
pub proof fn law_handshake_ends(handshake: CloseHandshake, written: bool, now: u64)
    requires
        handshake.retry <= handshake.retry_max,
    ensures
        handshake.waited().retry <= handshake.retry_max,
        handshake.waited().retry >= handshake.retry,
        handshake.after_sending(written, now).waiting_until->0 <= handshake.deadline,
        now >= handshake.deadline ==> !(handshake.at(now).1 is Send),
        now >= handshake.deadline && (handshake.waiting_until is Some
            ==> handshake.waiting_until->0 <= handshake.deadline) ==> handshake.at(now).1 is Done,
{
}

/// A close of the running video session that comes from the end that the stream comes from
/// is accepted where none was accepted before.
pub proof fn law_close_of_the_stream_is_accepted(
    close: StreamClose,
    source: PeerAddress,
    session_id: u64,
)
    requires
        close.check() is Ok,
        close.stream_id == 1,
        close.video_session_id == session_id,
        session_id != 0,
    ensures
        close_decision(close.wire(), source, Some(source), Some(session_id), None)
            == IncomingStreamCloseDecision::Accept(close),
{
    media_control::law_stream_close_round_trip(close);
}

/// Every other close is refused for its own reason: before a stream runs, from another end,
/// of another session or stream, or a second one.
pub proof fn law_other_closes_are_refused(
    datagram: Seq<u8>,
    close: StreamClose,
    source: PeerAddress,
    peer: PeerAddress,
    session_id: u64,
    accepted: Option<(PeerAddress, StreamClose)>,
)
    requires
        StreamClose::parse(datagram) == Ok::<StreamClose, ControlError>(close),
        session_id != 0,
    ensures
        close_decision(datagram, source, None, Some(session_id), accepted)
            == IncomingStreamCloseDecision::RejectPreSession,
        close_decision(datagram, source, Some(peer), None, accepted)
            == IncomingStreamCloseDecision::RejectPreSession,
        close_decision(datagram, source, Some(peer), Some(0), accepted)
            == IncomingStreamCloseDecision::RejectPreSession,
        peer != source ==> close_decision(datagram, source, Some(peer), Some(session_id), accepted)
            == IncomingStreamCloseDecision::RejectPeer,
        close.video_session_id != session_id || close.stream_id != 1 ==> close_decision(
            datagram,
            source,
            Some(source),
            Some(session_id),
            accepted,
        ) == IncomingStreamCloseDecision::RejectSession,
        close.video_session_id == session_id && close.stream_id == 1 && accepted is Some && (
        accepted->0).1.close_id != close.close_id ==> close_decision(
            datagram,
            source,
            Some(source),
            Some(session_id),
            accepted,
        ) == IncomingStreamCloseDecision::RejectInvalid,
{
}

/// What is no close at all is refused, whoever sends it.
pub proof fn law_malformed_close_is_refused(
    datagram: Seq<u8>,
    source: PeerAddress,
    pinned_peer: Option<PeerAddress>,
    active_session_id: Option<u64>,
    accepted_close: Option<(PeerAddress, StreamClose)>,
)
    requires
        StreamClose::parse(datagram) is Err,
    ensures
        close_decision(datagram, source, pinned_peer, active_session_id, accepted_close)
            == IncomingStreamCloseDecision::RejectInvalid,
{
}

/// The acknowledgement of a close names its stream, session and number, and nothing else
/// acknowledges it.
pub proof fn law_acknowledgement_names_the_close(close: StreamClose, ack: StreamCloseAck)
    ensures
        close.acknowledgement().stream_id == close.stream_id,
        close.acknowledgement().video_session_id == close.video_session_id,
        close.acknowledgement().close_id == close.close_id,
        close.acknowledgement().version == 1,
        ack.acknowledges(close) <==> ack.stream_id == close.stream_id && ack.video_session_id
            == close.video_session_id && ack.close_id == close.close_id,
{
}

/// Until its time is up a handshake sends the close, waits for the answer, and sends it
/// again when the wait is over.
pub proof fn law_close_is_sent_again(
    close: StreamClose,
    timings: CloseTimings,
    written: bool,
    begun_at: u64,
    now: u64,
    later: u64,
)
    requires
        begun_at + timings.handshake_timeout <= u64::MAX,
        begun_at <= now,
        now + timings.retry_initial < begun_at + timings.handshake_timeout,
        timings.retry_initial <= timings.retry_max,
    ensures
        ({
            let begun = CloseHandshake::begun(close, timings, begun_at);
            let sent = begun.after_sending(written, now);
            &&& begun.close == close
            &&& begun.at(now) == (begun, CloseStep::Send)
            &&& later < now + timings.retry_initial ==> sent.at(later).1 == CloseStep::Receive(
                (now + timings.retry_initial) as u64,
            )
            &&& now + timings.retry_initial <= later < begun_at + timings.handshake_timeout
                ==> sent.at(later).1 == CloseStep::Send
            &&& later >= begun_at + timings.handshake_timeout ==> sent.at(later).1
                == CloseStep::Done(
                CloseResult {
                    sent: if written {
                        1
                    } else {
                        0
                    },
                    retries: 0,
                    ack_received: false,
                    timed_out: written,
                },
            )
        }),
{
}

/// Each wait is twice as long as the one before, up to the longest; what was sent is counted,
/// and all but the first are retries.
pub proof fn law_waits_double(handshake: CloseHandshake, now: u64)
    requires
        handshake.retry <= handshake.retry_max,
        handshake.sent < u64::MAX,
    ensures
        handshake.waited().retry == if 2 * handshake.retry <= handshake.retry_max {
            2 * handshake.retry
        } else {
            handshake.retry_max as int
        },
        handshake.waited().waiting_until is None,
        handshake.waited().sent == handshake.sent,
        handshake.after_sending(true, now).sent == handshake.sent + 1,
        handshake.after_sending(false, now).sent == handshake.sent,
        now + handshake.retry <= handshake.deadline ==> handshake.after_sending(
            true,
            now,
        ).waiting_until == Some((now + handshake.retry) as u64),
        handshake.sent > 0 ==> close_result(handshake.sent, true, false).retries == handshake.sent
            - 1,
        close_result(handshake.sent, true, false).sent == handshake.sent,
        close_result(handshake.sent, true, false).ack_received,
        !close_result(handshake.sent, true, false).timed_out,
        !close_result(handshake.sent, false, true).ack_received,
        close_result(handshake.sent, false, true).timed_out,
{
}

/// What does not come from the other end changes nothing, and neither does what is no close
/// and no acknowledgement.
pub proof fn law_strangers_are_ignored(handshake: CloseHandshake, datagram: Seq<u8>)
    ensures
        handshake.reply(false, datagram) == CloseReply::Ignore,
        StreamClose::parse(datagram) is Err && StreamCloseAck::parse(datagram) is Err
            ==> handshake.reply(true, datagram) == CloseReply::Ignore,
        StreamCloseAck::parse(datagram) matches Ok(ack) && ack.stream_id
            == handshake.close.stream_id && ack.video_session_id
            == handshake.close.video_session_id && ack.close_id == handshake.close.close_id
            ==> handshake.reply(true, datagram) is Done,
{
}

/// Old acknowledgements of a close are forgotten, and all others stay in their order.
pub proof fn law_other_acknowledgements_stay(
    inbox: Seq<StreamCloseAck>,
    close: StreamClose,
    ack: StreamCloseAck,
)
    ensures
        without_acks_of(inbox, close).contains(ack) <==> inbox.contains(ack) && !(ack.stream_id
            == close.stream_id && ack.video_session_id == close.video_session_id && ack.close_id
            == close.close_id),
        inbox.len() > 0 && !inbox.last().acknowledges(close) ==> without_acks_of(
            inbox,
            close,
        ).len() > 0 && without_acks_of(inbox, close).last() == inbox.last(),
    decreases inbox.len(),
{
    if inbox.len() > 0 {
        let front = inbox.drop_last();
        law_other_acknowledgements_stay(front, close, ack);
        let kept = without_acks_of(front, close);
        let all = without_acks_of(inbox, close);
        if inbox.contains(ack) {
            let i = choose|i: int| 0 <= i < inbox.len() && inbox[i] == ack;
            if i < front.len() {
                assert(front[i] == ack);
                assert(front.contains(ack));
            }
        }
        if front.contains(ack) {
            let i = choose|i: int| 0 <= i < front.len() && front[i] == ack;
            assert(inbox[i] == ack);
        }
        assert(inbox[inbox.len() - 1] == inbox.last());
        if !inbox.last().acknowledges(close) {
            assert(all == kept.push(inbox.last()));
            assert(all[kept.len() as int] == inbox.last());
            if kept.contains(ack) {
                let i = choose|i: int| 0 <= i < kept.len() && kept[i] == ack;
                assert(all[i] == ack);
            }
            if all.contains(ack) {
                let i = choose|i: int| 0 <= i < all.len() && all[i] == ack;
                if i < kept.len() {
                    assert(kept[i] == ack);
                }
            }
        }
    }
}

/// A request to send packets again begins with `NACK`.
pub proof fn law_nack_word(datagram: Seq<u8>)
    ensures
        is_nack(datagram) <==> datagram.len() >= 4 && datagram.take(4) == seq![
            0x4eu8,
            0x41,
            0x43,
            0x4b,
        ],
{
    if datagram.len() >= 4 {
        let word = seq![0x4eu8, 0x41, 0x43, 0x4b];
        if is_nack(datagram) {
            assert(datagram.take(4) =~= word);
        }
        if datagram.take(4) == word {
            assert(datagram.take(4)[0] == word[0]);
            assert(datagram.take(4)[1] == word[1]);
            assert(datagram.take(4)[2] == word[2]);
            assert(datagram.take(4)[3] == word[3]);
        }
    }
}

} // verus!
