//! The sender's book of profile transitions: how the two ends agree on a new profile, and
//! what is kept of attempts that failed.
//!
//! Times are nanoseconds of a monotonic clock, unless their names say otherwise.
//! Counters stop at their maximum.

use vstd::prelude::*;

use crate::json;
use crate::media_control::{
    CapabilityFeedbackTracker, Metric, ProfileChange, TrackerModel, MEDIA_CONTROL_VERSION,
};
use crate::receiver_stats::TimingMetric;
use crate::text;
use crate::text::{contains_text, push_decimal};

verus! {

/// How long the sender waits at most before it looks at its inbox again.
pub const ACK_WAIT_MAX: u64 = 50_000_000;

/// How many windows the other end must have shown the new profile before it is settled.
pub const SETTLE_WINDOWS: u32 = 3;

/// What is to change.
#[derive(Clone, Copy, Debug, PartialEq, Eq, Structural)]
pub enum ActionKind {
    Bitrate,
    Resolution,
    Fps,
}

impl ActionKind {
    /// The number that tells the other end what changes.
    pub open spec fn code(self) -> u8 {
        match self {
            ActionKind::Bitrate => 1,
            ActionKind::Resolution => 2,
            ActionKind::Fps => 3,
        }
    }

    pub fn reason_code(self) -> (r: u8)
        ensures
            r == self.code(),
    {
        match self {
            ActionKind::Bitrate => 1,
            ActionKind::Resolution => 2,
            ActionKind::Fps => 3,
        }
    }
}

/// A picture size, a frame rate and a bit rate.
#[derive(Clone, Copy, Debug, PartialEq, Eq, Structural)]
pub struct QualityProfile {
    pub width: u32,
    pub height: u32,
    pub fps: u32,
    pub bitrate_mbps: Metric,
}

/// The session that a profile begins: the candidate, or where that is the old one the
/// number after it.
pub open spec fn next_session(old_session_id: u64, candidate: u64) -> u64 {
    if candidate != old_session_id {
        candidate
    } else if candidate == u64::MAX {
        1
    } else {
        (candidate + 1) as u64
    }
}

/// The session that a profile begins.
pub fn next_session_id(old_session_id: u64, candidate: u64) -> (r: u64)
    ensures
        r == next_session(old_session_id, candidate),
{
    if candidate != old_session_id {
        candidate
    } else if candidate == u64::MAX {
        1
    } else {
        candidate + 1
    }
}

/// The generation of a profile: that of the controller, but never one that was used.
pub open spec fn next_generation(controller_generation: u64, generation: u64) -> u64 {
    let following = generation.saturating_add(1);
    if controller_generation > following {
        controller_generation
    } else {
        following
    }
}

/// The message that announces a profile.
pub open spec fn announced_change(
    old_session_id: u64,
    candidate: u64,
    change_sequence: u64,
    controller_generation: u64,
    generation: u64,
    profile: QualityProfile,
    kind: ActionKind,
    timestamp_us: u64,
) -> ProfileChange {
    ProfileChange {
        version: MEDIA_CONTROL_VERSION,
        old_session_id,
        new_session_id: next_session(old_session_id, candidate),
        change_sequence,
        profile_generation: next_generation(controller_generation, generation),
        width: profile.width,
        height: profile.height,
        fps: profile.fps,
        bitrate_mbps: profile.bitrate_mbps,
        timestamp_us,
        reason_code: kind.code(),
    }
}

/// Writes the message that announces a profile.
pub fn announce_change(
    old_session_id: u64,
    candidate: u64,
    change_sequence: u64,
    controller_generation: u64,
    generation: u64,
    profile: QualityProfile,
    kind: ActionKind,
    timestamp_us: u64,
) -> (r: ProfileChange)
    ensures
        r == announced_change(
            old_session_id,
            candidate,
            change_sequence,
            controller_generation,
            generation,
            profile,
            kind,
            timestamp_us,
        ),
{
    let following: u64 = generation.saturating_add(1);
    ProfileChange {
        version: MEDIA_CONTROL_VERSION,
        old_session_id,
        new_session_id: next_session_id(old_session_id, candidate),
        change_sequence,
        profile_generation: if controller_generation > following {
            controller_generation
        } else {
            following
        },
        width: profile.width,
        height: profile.height,
        fps: profile.fps,
        bitrate_mbps: profile.bitrate_mbps,
        timestamp_us,
        reason_code: kind.reason_code(),
    }
}

/// What an acknowledgement means for the transition that waits for one.
#[derive(Clone, Copy, Debug, PartialEq, Eq, Structural)]
pub enum AckDecision {
    Accepted,
    Rejected(u8),
    Unmatched,
}

/// Whether the exchange goes on after an acknowledgement.
#[derive(Clone, Copy, Debug, PartialEq, Eq, Structural)]
pub enum AckStep {
    /// The next acknowledgement is looked at.
    Next,
    Accepted,
    Rejected(u8),
}

/// The book.
#[derive(Debug)]
pub struct TransitionBook<T> {
    pub active: bool,
    pub rollback_count: u64,
    pub timeout_count: u64,
    pub failure_count: u64,
    pub last_failure_reason: Option<T>,
    pub last_failure_stage: Option<T>,
    pub mprf_packets_sent: u64,
    pub mprf_retry_attempts: u64,
    pub mprf_ack_timeout: u64,
    pub ack_rtt: TimingMetric,
    pub unmatched_acks: u64,
    pub prepare_success: u64,
    pub prepare_error: u64,
    pub prepare_last_error: Option<T>,
    /// The new pipeline has made its first keyframe.
    pub first_idr_ready: bool,
    /// Why the announcement could not be sent, the last time that it could not.
    pub last_send_error: Option<T>,
}

impl View for TransitionBook<String> {
    type V = TransitionBook<Seq<char>>;

    open spec fn view(&self) -> TransitionBook<Seq<char>> {
        TransitionBook {
            active: self.active,
            rollback_count: self.rollback_count,
            timeout_count: self.timeout_count,
            failure_count: self.failure_count,
            last_failure_reason: text::optional(self.last_failure_reason),
            last_failure_stage: text::optional(self.last_failure_stage),
            mprf_packets_sent: self.mprf_packets_sent,
            mprf_retry_attempts: self.mprf_retry_attempts,
            mprf_ack_timeout: self.mprf_ack_timeout,
            ack_rtt: self.ack_rtt,
            unmatched_acks: self.unmatched_acks,
            prepare_success: self.prepare_success,
            prepare_error: self.prepare_error,
            prepare_last_error: text::optional(self.prepare_last_error),
            first_idr_ready: self.first_idr_ready,
            last_send_error: text::optional(self.last_send_error),
        }
    }
}

/// A tracker whose grace is over.
pub open spec fn without_grace(tracker: TrackerModel) -> TrackerModel {
    TrackerModel { grace_until: None, ..tracker }
}

/// Why the exchange is given up from this end.
pub open spec fn stop_text(cancelled: bool, duration_elapsed: bool) -> Option<Seq<char>> {
    if cancelled {
        Some("profile-control-cancelled"@)
    } else if duration_elapsed {
        Some("profile-control-duration-expired"@)
    } else {
        None
    }
}

/// Why the exchange is given up from this end, if it is.
pub fn exchange_stop_reason(cancelled: bool, duration_elapsed: bool) -> (r: Option<&'static str>)
    ensures
        json::optional_view(r) == stop_text(cancelled, duration_elapsed),
{
    if cancelled {
        Some("profile-control-cancelled")
    } else if duration_elapsed {
        Some("profile-control-duration-expired")
    } else {
        None
    }
}

/// Why the other end refused a profile.
pub open spec fn rejection(reason_code: u8) -> Seq<char> {
    "profile-control-rejected:"@ + text::decimal(reason_code as nat)
}

pub fn rejection_text(reason_code: u8) -> (r: String)
    ensures
        r@ == rejection(reason_code),
{
    let mut message: String = "profile-control-rejected:".to_string();
    push_decimal(&mut message, reason_code as u64);
    message
}

/// How long to wait for an acknowledgement.
pub open spec fn ack_wait_time(next_retry_at: u64, ack_deadline: u64, now: u64) -> u64 {
    let until = if next_retry_at < ack_deadline {
        next_retry_at
    } else {
        ack_deadline
    };
    let left = until.saturating_sub(now);
    if left < ACK_WAIT_MAX {
        left
    } else {
        ACK_WAIT_MAX
    }
}

/// How long to wait for an acknowledgement: until the announcement is repeated or given up,
/// and never long.
pub fn ack_wait(next_retry_at: u64, ack_deadline: u64, now: u64) -> (r: u64)
    ensures
        r == ack_wait_time(next_retry_at, ack_deadline, now),
{
    let until: u64 = if next_retry_at < ack_deadline {
        next_retry_at
    } else {
        ack_deadline
    };
    let left: u64 = until.saturating_sub(now);
    if left < ACK_WAIT_MAX {
        left
    } else {
        ACK_WAIT_MAX
    }
}

impl TransitionBook<Seq<char>> {
    pub open spec fn initial() -> TransitionBook<Seq<char>> {
        TransitionBook {
            active: false,
            rollback_count: 0,
            timeout_count: 0,
            failure_count: 0,
            last_failure_reason: None,
            last_failure_stage: None,
            mprf_packets_sent: 0,
            mprf_retry_attempts: 0,
            mprf_ack_timeout: 0,
            ack_rtt: TimingMetric::initial(),
            unmatched_acks: 0,
            prepare_success: 0,
            prepare_error: 0,
            prepare_last_error: None,
            first_idr_ready: false,
            last_send_error: None,
        }
    }

    /// An attempt begins; what the last one failed for is forgotten.
    pub open spec fn begun(self) -> TransitionBook<Seq<char>> {
        TransitionBook {
            active: true,
            last_failure_reason: None,
            last_failure_stage: None,
            last_send_error: None,
            ..self
        }
    }

    pub open spec fn with_rollback(self) -> TransitionBook<Seq<char>> {
        TransitionBook { rollback_count: self.rollback_count.saturating_add(1), ..self }
    }

    /// A failure is noted.
    pub open spec fn with_failure(
        self,
        stage: Seq<char>,
        reason: Seq<char>,
        timed_out: bool,
    ) -> TransitionBook<
        Seq<char>,
    > {
        TransitionBook {
            failure_count: self.failure_count.saturating_add(1),
            timeout_count: if timed_out {
                self.timeout_count.saturating_add(1)
            } else {
                self.timeout_count
            },
            last_failure_reason: Some(reason),
            last_failure_stage: Some(stage),
            ..self
        }
    }

    pub open spec fn ended(self) -> TransitionBook<Seq<char>> {
        TransitionBook { active: false, ..self }
    }

    /// This end gives the attempt up; that is no failure.
    pub open spec fn stopped(
        self,
        stage: Seq<char>,
        reason: Seq<char>,
    ) -> TransitionBook<Seq<char>> {
        TransitionBook {
            last_failure_reason: Some(reason),
            last_failure_stage: Some(stage),
            ..self.ended()
        }
    }

    pub open spec fn aborted(
        self,
        stage: Seq<char>,
        reason: Seq<char>,
        timed_out: bool,
        rollback: bool,
    ) -> TransitionBook<Seq<char>> {
        let book = if rollback {
            self.with_rollback()
        } else {
            self
        };
        book.with_failure(stage, reason, timed_out).ended()
    }

    /// The announcement was handed to the network.
    pub open spec fn announced(
        self,
        attempt: u32,
        length: usize,
        sent: Result<usize, Seq<char>>,
    ) -> TransitionBook<Seq<char>> {
        match sent {
            Ok(written) => if written == length {
                TransitionBook {
                    mprf_packets_sent: self.mprf_packets_sent.saturating_add(1),
                    mprf_retry_attempts: if attempt > 0 {
                        self.mprf_retry_attempts.saturating_add(1)
                    } else {
                        self.mprf_retry_attempts
                    },
                    ..self
                }
            } else {
                TransitionBook {
                    last_send_error: Some("profile change UDP short send"@),
                    ..self
                }
            },
            Err(error) => TransitionBook {
                last_send_error: Some("profile change UDP send failed: "@ + error),
                ..self
            },
        }
    }

    pub open spec fn with_ack(self, decision: AckDecision, rtt: u64) -> TransitionBook<Seq<char>> {
        match decision {
            AckDecision::Accepted => TransitionBook { ack_rtt: self.ack_rtt.with(rtt), ..self },
            AckDecision::Rejected(_) => self,
            AckDecision::Unmatched => TransitionBook {
                unmatched_acks: self.unmatched_acks.saturating_add(1),
                ..self
            },
        }
    }

    /// Nobody answered in time.
    pub open spec fn timed_out(
        self,
        stage: Seq<char>,
        reason: Seq<char>,
    ) -> TransitionBook<Seq<char>> {
        TransitionBook {
            mprf_ack_timeout: self.mprf_ack_timeout.saturating_add(1),
            ..self.aborted(stage, reason, true, true)
        }
    }

    /// What is said of an exchange that nobody answered.
    pub open spec fn timeout_text(self, reason: Seq<char>) -> Seq<char> {
        match self.last_send_error {
            Some(error) => reason + ": "@ + error,
            None => reason,
        }
    }

    pub open spec fn prepared(self, result: Result<(), Seq<char>>) -> TransitionBook<Seq<char>> {
        match result {
            Ok(_) => TransitionBook {
                prepare_success: self.prepare_success.saturating_add(1),
                prepare_last_error: None,
                ..self
            },
            Err(error) => TransitionBook {
                prepare_error: self.prepare_error.saturating_add(1),
                prepare_last_error: Some(error),
                ..self
            },
        }
    }

    /// A run that ends while a transition is under way.
    pub open spec fn failed_by(
        self,
        stage: Seq<char>,
        reason: Seq<char>,
    ) -> TransitionBook<Seq<char>> {
        if !self.active {
            self
        } else if is_controlled_stop(reason) {
            self.stopped("cancelled"@, reason)
        } else {
            self.aborted(stage, reason, text::contains(reason, "timeout"@), false)
        }
    }
}

/// Whether a reason says that somebody wanted the end.
pub open spec fn is_controlled_stop(reason: Seq<char>) -> bool {
    text::contains(reason, "console"@) || text::contains(reason, "duration"@)
        || text::contains(reason, "cancelled"@)
}

impl TransitionBook<String> {
    /// No transition has happened yet.
    pub fn new() -> (r: TransitionBook<String>)
        ensures
            r@ == TransitionBook::initial(),
    {
        TransitionBook {
            active: false,
            rollback_count: 0,
            timeout_count: 0,
            failure_count: 0,
            last_failure_reason: None,
            last_failure_stage: None,
            mprf_packets_sent: 0,
            mprf_retry_attempts: 0,
            mprf_ack_timeout: 0,
            ack_rtt: TimingMetric::new(),
            unmatched_acks: 0,
            prepare_success: 0,
            prepare_error: 0,
            prepare_last_error: None,
            first_idr_ready: false,
            last_send_error: None,
        }
    }

    /// Begins an attempt.  Until `deadline` the other end may be silent.
    pub fn begin(&mut self, tracker: &mut CapabilityFeedbackTracker, deadline: u64)
        ensures
            final(self)@ == old(self)@.begun(),
            final(tracker)@ == (TrackerModel { grace_until: Some(deadline), ..old(tracker)@ }),
    {
        self.active = true;
        self.last_failure_reason = None;
        self.last_failure_stage = None;
        self.last_send_error = None;
        tracker.begin_transition_grace(deadline);
    }

    /// Notes a failure; the other end may be silent no longer.
    pub fn record_failure(
        &mut self,
        tracker: &mut CapabilityFeedbackTracker,
        stage: &str,
        reason: &str,
        timed_out: bool,
    )
        ensures
            final(self)@ == old(self)@.with_failure(stage@, reason@, timed_out),
            final(tracker)@ == without_grace(old(tracker)@),
    {
        self.failure_count = self.failure_count.saturating_add(1);
        if timed_out {
            self.timeout_count = self.timeout_count.saturating_add(1);
        }
        self.last_failure_reason = Some(reason.to_string());
        self.last_failure_stage = Some(stage.to_string());
        tracker.clear_transition_grace();
    }

    /// This end gives the exchange up.
    pub fn stop_exchange(
        &mut self,
        tracker: &mut CapabilityFeedbackTracker,
        stage: &str,
        reason: &str,
    )
        ensures
            final(self)@ == old(self)@.with_rollback().stopped(stage@, reason@),
            final(tracker)@ == without_grace(old(tracker)@),
    {
        self.rollback_count = self.rollback_count.saturating_add(1);
        self.last_failure_reason = Some(reason.to_string());
        self.last_failure_stage = Some(stage.to_string());
        self.active = false;
        tracker.clear_transition_grace();
    }

    /// The announcement was handed to the network.
    pub fn change_sent(&mut self, attempt: u32, length: usize, sent: &Result<usize, String>)
        ensures
            final(self)@ == old(self)@.announced(attempt, length, text::result(*sent)),
    {
        match sent {
            Ok(written) => {
                if *written == length {
                    self.mprf_packets_sent = self.mprf_packets_sent.saturating_add(1);
                    if attempt > 0 {
                        self.mprf_retry_attempts = self.mprf_retry_attempts.saturating_add(1);
                    }
                } else {
                    self.last_send_error = Some("profile change UDP short send".to_string());
                }
            },
            Err(error) => {
                self.last_send_error = Some(
                    "profile change UDP send failed: ".to_string().concat(error.as_str()),
                );
            },
        }
    }

    /// An acknowledgement came, `rtt` after the announcement was last sent.
    pub fn on_ack(&mut self, decision: AckDecision, rtt: u64) -> (step: AckStep)
        ensures
            final(self)@ == old(self)@.with_ack(decision, rtt),
            step == match decision {
                AckDecision::Accepted => AckStep::Accepted,
                AckDecision::Rejected(code) => AckStep::Rejected(code),
                AckDecision::Unmatched => AckStep::Next,
            },
    {
        match decision {
            AckDecision::Accepted => {
                self.ack_rtt.observe(rtt);
                AckStep::Accepted
            },
            AckDecision::Rejected(code) => AckStep::Rejected(code),
            AckDecision::Unmatched => {
                self.unmatched_acks = self.unmatched_acks.saturating_add(1);
                AckStep::Next
            },
        }
    }

    /// The other end refused the profile; the answer says why.
    pub fn reject(
        &mut self,
        tracker: &mut CapabilityFeedbackTracker,
        stage: &str,
        reason_code: u8,
    ) -> (error: String)
        ensures
            error@ == rejection(reason_code),
            final(self)@ == old(self)@.aborted(stage@, rejection(reason_code), false, true),
            final(tracker)@ == without_grace(old(tracker)@),
    {
        let reason: String = rejection_text(reason_code);
        self.abort(tracker, stage, reason.as_str(), false, true);
        reason
    }

    /// Nobody answered in time; the answer says so, and why the announcement could not be
    /// sent where it could not.
    pub fn time_out(
        &mut self,
        tracker: &mut CapabilityFeedbackTracker,
        stage: &str,
        reason: &str,
    ) -> (error: String)
        ensures
            error@ == old(self)@.timeout_text(reason@),
            final(self)@ == old(self)@.timed_out(stage@, reason@),
            final(tracker)@ == without_grace(old(tracker)@),
    {
        let error: String = match &self.last_send_error {
            Some(send_error) => reason.to_string().concat(": ").concat(send_error.as_str()),
            None => reason.to_string(),
        };
        self.abort(tracker, stage, reason, true, true);
        self.mprf_ack_timeout = self.mprf_ack_timeout.saturating_add(1);
        error
    }

    /// Gives a transition up.
    pub fn abort(
        &mut self,
        tracker: &mut CapabilityFeedbackTracker,
        stage: &str,
        reason: &str,
        timed_out: bool,
        rollback: bool,
    )
        ensures
            final(self)@ == old(self)@.aborted(stage@, reason@, timed_out, rollback),
            final(tracker)@ == without_grace(old(tracker)@),
    {
        if rollback {
            self.rollback_count = self.rollback_count.saturating_add(1);
        }
        self.record_failure(tracker, stage, reason, timed_out);
        self.active = false;
    }

    /// The run ends while a transition may be under way.  Somebody who wanted the end is no
    /// failure; `true` where a transition was under way.
    pub fn fail_active(
        &mut self,
        tracker: &mut CapabilityFeedbackTracker,
        stage: &str,
        reason: &str,
    ) -> (was_active: bool)
        ensures
            was_active == old(self).active,
            final(self)@ == old(self)@.failed_by(stage@, reason@),
            final(tracker)@ == if was_active {
                without_grace(old(tracker)@)
            } else {
                old(tracker)@
            },
    {
        if !self.active {
            return false;
        }
        if contains_text(reason, "console") || contains_text(reason, "duration") || contains_text(
            reason,
            "cancelled",
        ) {
            self.active = false;
            self.last_failure_reason = Some(reason.to_string());
            self.last_failure_stage = Some("cancelled".to_string());
            tracker.clear_transition_grace();
        } else {
            self.abort(tracker, stage, reason, contains_text(reason, "timeout"), false);
        }
        true
    }

    /// A pipeline for the new profile was prepared, or could not be.
    pub fn pipeline_prepared(&mut self, result: &Result<(), String>)
        ensures
            final(self)@ == old(self)@.prepared(text::result(*result)),
    {
        match result {
            Ok(_) => {
                self.prepare_success = self.prepare_success.saturating_add(1);
                self.prepare_last_error = None;
            },
            Err(error) => {
                self.prepare_error = self.prepare_error.saturating_add(1);
                self.prepare_last_error = Some(error.as_str().to_string());
            },
        }
    }
}

// The exchange: the announcement is sent and repeated until the other end answers.

/// What happens in an exchange.
#[derive(Debug)]
pub enum ExchangeEvent<T> {
    /// The sender looks whether it goes on, and whether the announcement is due.
    Turn { cancelled: bool, duration_elapsed: bool, send_due: bool },
    /// The announcement of so many bytes was handed to the network.
    ChangeSent { attempt: u32, length: usize, sent: Result<usize, T> },
    /// An acknowledgement came, so long after the announcement.
    Ack { decision: AckDecision, rtt: u64 },
    /// No acknowledgement is left; the exchange may have taken too long, for this reason.
    InboxEmpty { overdue: Option<T> },
}

impl View for ExchangeEvent<String> {
    type V = ExchangeEvent<Seq<char>>;

    open spec fn view(&self) -> ExchangeEvent<Seq<char>> {
        match *self {
            ExchangeEvent::Turn { cancelled, duration_elapsed, send_due } => ExchangeEvent::Turn {
                cancelled,
                duration_elapsed,
                send_due,
            },
            ExchangeEvent::ChangeSent { attempt, length, sent } => ExchangeEvent::ChangeSent {
                attempt,
                length,
                sent: text::result(sent),
            },
            ExchangeEvent::Ack { decision, rtt } => ExchangeEvent::Ack { decision, rtt },
            ExchangeEvent::InboxEmpty { overdue } => ExchangeEvent::InboxEmpty {
                overdue: text::optional(overdue),
            },
        }
    }
}

/// What is done next in an exchange.
#[derive(Debug)]
pub enum ExchangeAction<T> {
    /// The announcement is sent.
    SendChange,
    /// The next acknowledgement is read.
    ReadInbox,
    /// An acknowledgement is waited for.
    Wait,
    /// The new session begins.
    Activate,
    /// The exchange is over, with this error.
    GiveUp(T),
}

impl View for ExchangeAction<String> {
    type V = ExchangeAction<Seq<char>>;

    open spec fn view(&self) -> ExchangeAction<Seq<char>> {
        match *self {
            ExchangeAction::SendChange => ExchangeAction::SendChange,
            ExchangeAction::ReadInbox => ExchangeAction::ReadInbox,
            ExchangeAction::Wait => ExchangeAction::Wait,
            ExchangeAction::Activate => ExchangeAction::Activate,
            ExchangeAction::GiveUp(error) => ExchangeAction::GiveUp(error@),
        }
    }
}

impl TransitionBook<Seq<char>> {
    /// What is done after an event.
    pub open spec fn exchange_action(
        self,
        event: ExchangeEvent<Seq<char>>,
    ) -> ExchangeAction<Seq<char>> {
        match event {
            ExchangeEvent::Turn { cancelled, duration_elapsed, send_due } => match stop_text(
                cancelled,
                duration_elapsed,
            ) {
                Some(reason) => ExchangeAction::GiveUp(reason),
                None => if send_due {
                    ExchangeAction::SendChange
                } else {
                    ExchangeAction::ReadInbox
                },
            },
            ExchangeEvent::ChangeSent { .. } => ExchangeAction::ReadInbox,
            ExchangeEvent::Ack { decision, .. } => match decision {
                AckDecision::Accepted => ExchangeAction::Activate,
                AckDecision::Rejected(code) => ExchangeAction::GiveUp(rejection(code)),
                AckDecision::Unmatched => ExchangeAction::ReadInbox,
            },
            ExchangeEvent::InboxEmpty { overdue } => match overdue {
                Some(reason) => ExchangeAction::GiveUp(self.timeout_text(reason)),
                None => ExchangeAction::Wait,
            },
        }
    }

    /// The book after an event; `stage` is how far the exchange is.
    pub open spec fn after_event(
        self,
        event: ExchangeEvent<Seq<char>>,
        stage: Seq<char>,
        ack_stage: Seq<char>,
    ) -> TransitionBook<Seq<char>> {
        match event {
            ExchangeEvent::Turn { cancelled, duration_elapsed, .. } => match stop_text(
                cancelled,
                duration_elapsed,
            ) {
                Some(reason) => self.with_rollback().stopped(stage, reason),
                None => self,
            },
            ExchangeEvent::ChangeSent { attempt, length, sent } => self.announced(
                attempt,
                length,
                sent,
            ),
            ExchangeEvent::Ack { decision, rtt } => match decision {
                AckDecision::Rejected(code) => self.aborted(
                    ack_stage,
                    rejection(code),
                    false,
                    true,
                ),
                _ => self.with_ack(decision, rtt),
            },
            ExchangeEvent::InboxEmpty { overdue } => match overdue {
                Some(reason) => self.timed_out(stage, reason),
                None => self,
            },
        }
    }
}

impl TransitionBook<String> {
    /// Carries the exchange on.  `stage` is how far it is, `ack_stage` what waiting for the
    /// acknowledgement is called.
    pub fn on_exchange_event(
        &mut self,
        tracker: &mut CapabilityFeedbackTracker,
        event: &ExchangeEvent<String>,
        stage: &str,
        ack_stage: &str,
    ) -> (action: ExchangeAction<String>)
        ensures
            action@ == old(self)@.exchange_action(event@),
            final(self)@ == old(self)@.after_event(event@, stage@, ack_stage@),
            final(tracker)@ == if action is GiveUp {
                without_grace(old(tracker)@)
            } else {
                old(tracker)@
            },
    {
        match event {
            ExchangeEvent::Turn { cancelled, duration_elapsed, send_due } => {
                match exchange_stop_reason(*cancelled, *duration_elapsed) {
                    Some(reason) => {
                        self.stop_exchange(tracker, stage, reason);
                        ExchangeAction::GiveUp(reason.to_string())
                    },
                    None => if *send_due {
                        ExchangeAction::SendChange
                    } else {
                        ExchangeAction::ReadInbox
                    },
                }
            },
            ExchangeEvent::ChangeSent { attempt, length, sent } => {
                self.change_sent(*attempt, *length, sent);
                ExchangeAction::ReadInbox
            },
            ExchangeEvent::Ack { decision, rtt } => match self.on_ack(*decision, *rtt) {
                AckStep::Accepted => ExchangeAction::Activate,
                AckStep::Rejected(code) => ExchangeAction::GiveUp(
                    self.reject(tracker, ack_stage, code),
                ),
                AckStep::Next => ExchangeAction::ReadInbox,
            },
            ExchangeEvent::InboxEmpty { overdue } => match overdue {
                Some(reason) => ExchangeAction::GiveUp(
                    self.time_out(tracker, stage, reason.as_str()),
                ),
                None => ExchangeAction::Wait,
            },
        }
    }
}

/// An exchange that is given up leaves no attempt under way and counts a rollback; one that
/// is answered leaves the attempt as it was.
pub proof fn law_exchange_ends_once(
    book: TransitionBook<Seq<char>>,
    event: ExchangeEvent<Seq<char>>,
    stage: Seq<char>,
    ack_stage: Seq<char>,
)
    requires
        book.rollback_count < u64::MAX,
    ensures
        book.exchange_action(event) is GiveUp ==> !book.after_event(event, stage, ack_stage).active
            && book.after_event(event, stage, ack_stage).rollback_count == book.rollback_count + 1,
        !(book.exchange_action(event) is GiveUp) ==> book.after_event(
            event,
            stage,
            ack_stage,
        ).active == book.active && book.after_event(event, stage, ack_stage).rollback_count
            == book.rollback_count,
{
}

/// Only an accepting acknowledgement begins the new session.
pub proof fn law_session_needs_acceptance(
    book: TransitionBook<Seq<char>>,
    event: ExchangeEvent<Seq<char>>,
)
    ensures
        book.exchange_action(event) is Activate <==> (event matches ExchangeEvent::Ack {
            decision,
            ..
        } && decision == AckDecision::Accepted),
{
}

// What holds of every transition.

/// A new profile runs in a session of its own, under a generation that was never used
/// before as long as there is one.
pub proof fn law_new_profile_is_told_apart(
    old_session_id: u64,
    candidate: u64,
    change_sequence: u64,
    controller_generation: u64,
    generation: u64,
    profile: QualityProfile,
    kind: ActionKind,
    timestamp_us: u64,
)
    requires
        generation < u64::MAX,
    ensures
        ({
            let change = announced_change(
                old_session_id,
                candidate,
                change_sequence,
                controller_generation,
                generation,
                profile,
                kind,
                timestamp_us,
            );
            &&& change.new_session_id != old_session_id
            &&& candidate != 0 ==> change.new_session_id != 0
            &&& change.profile_generation > generation
            &&& change.profile_generation >= controller_generation
        }),
{
}

/// However an attempt ends, none is under way afterwards, and only a failure is counted
/// as one.
pub proof fn law_every_end_closes_the_attempt(
    book: TransitionBook<Seq<char>>,
    stage: Seq<char>,
    reason: Seq<char>,
    timed_out: bool,
    rollback: bool,
)
    requires
        book.failure_count < u64::MAX,
    ensures
        !book.stopped(stage, reason).active,
        book.stopped(stage, reason).failure_count == book.failure_count,
        !book.aborted(stage, reason, timed_out, rollback).active,
        book.aborted(stage, reason, timed_out, rollback).failure_count == book.failure_count + 1,
        !book.timed_out(stage, reason).active,
        !book.failed_by(stage, reason).active,
        book.active && is_controlled_stop(reason) ==> book.failed_by(stage, reason).failure_count
            == book.failure_count,
{
}

/// A book in which no attempt is under way is not changed by the end of the run.
pub proof fn law_idle_book_stays(
    book: TransitionBook<Seq<char>>,
    stage: Seq<char>,
    reason: Seq<char>,
)
    requires
        !book.active,
    ensures
        book.failed_by(stage, reason) == book,
{
}

/// A profile that is announced is told as it is, from the session that runs to one that is
/// not the same, with a generation that was never used.
pub proof fn law_announcement_tells_the_profile(
    old_session_id: u64,
    candidate: u64,
    change_sequence: u64,
    controller_generation: u64,
    generation: u64,
    profile: QualityProfile,
    kind: ActionKind,
    timestamp_us: u64,
)
    requires
        generation < u64::MAX,
    ensures
        ({
            let change = announced_change(
                old_session_id,
                candidate,
                change_sequence,
                controller_generation,
                generation,
                profile,
                kind,
                timestamp_us,
            );
            &&& change.version == 1
            &&& change.old_session_id == old_session_id
            &&& change.new_session_id != old_session_id
            &&& candidate != old_session_id ==> change.new_session_id == candidate
            &&& change.change_sequence == change_sequence
            &&& change.profile_generation > generation
            &&& change.profile_generation >= controller_generation
            &&& change.profile_generation == controller_generation || change.profile_generation
                == generation + 1
            &&& change.width == profile.width
            &&& change.height == profile.height
            &&& change.fps == profile.fps
            &&& change.bitrate_mbps == profile.bitrate_mbps
            &&& change.timestamp_us == timestamp_us
            &&& kind == ActionKind::Bitrate ==> change.reason_code == 1
            &&& kind == ActionKind::Resolution ==> change.reason_code == 2
            &&& kind == ActionKind::Fps ==> change.reason_code == 3
        }),
{
}

/// An exchange goes on until it is answered: the announcement is sent when it is due, the
/// answers are read, and where there are none they are waited for.
pub proof fn law_exchange_goes_on(
    book: TransitionBook<Seq<char>>,
    attempt: u32,
    length: usize,
    sent: Result<usize, Seq<char>>,
    rtt: u64,
)
    ensures
        book.exchange_action(
            ExchangeEvent::Turn { cancelled: false, duration_elapsed: false, send_due: true },
        ) == ExchangeAction::<Seq<char>>::SendChange,
        book.exchange_action(
            ExchangeEvent::Turn { cancelled: false, duration_elapsed: false, send_due: false },
        ) == ExchangeAction::<Seq<char>>::ReadInbox,
        book.exchange_action(ExchangeEvent::ChangeSent { attempt, length, sent })
            == ExchangeAction::<Seq<char>>::ReadInbox,
        book.exchange_action(ExchangeEvent::Ack { decision: AckDecision::Unmatched, rtt })
            == ExchangeAction::<Seq<char>>::ReadInbox,
        book.exchange_action(ExchangeEvent::InboxEmpty { overdue: None })
            == ExchangeAction::<Seq<char>>::Wait,
{
}

/// An exchange ends with the new session where it is accepted, and is given up where it is
/// refused, cancelled, overdue or out of time; the attempt is then over, and what it failed
/// for is known.
pub proof fn law_exchange_ends_as_answered(
    book: TransitionBook<Seq<char>>,
    rtt: u64,
    code: u8,
    reason: Seq<char>,
    duration_elapsed: bool,
    send_due: bool,
    stage: Seq<char>,
    ack_stage: Seq<char>,
)
    requires
        book.failure_count < u64::MAX,
        book.timeout_count < u64::MAX,
        book.rollback_count < u64::MAX,
        book.mprf_ack_timeout < u64::MAX,
        book.unmatched_acks < u64::MAX,
    ensures
        ({
            let accepted = ExchangeEvent::Ack { decision: AckDecision::Accepted, rtt };
            &&& book.exchange_action(accepted) == ExchangeAction::<Seq<char>>::Activate
            &&& book.after_event(accepted, stage, ack_stage).failure_count == book.failure_count
            &&& book.after_event(accepted, stage, ack_stage).active == book.active
        }),
        ({
            let refused = ExchangeEvent::Ack { decision: AckDecision::Rejected(code), rtt };
            let after = book.after_event(refused, stage, ack_stage);
            &&& book.exchange_action(refused) is GiveUp
            &&& !after.active
            &&& after.failure_count == book.failure_count + 1
            &&& after.rollback_count == book.rollback_count + 1
            &&& after.timeout_count == book.timeout_count
            &&& after.last_failure_stage == Some(ack_stage)
        }),
        ({
            let unmatched = ExchangeEvent::Ack { decision: AckDecision::Unmatched, rtt };
            let after = book.after_event(unmatched, stage, ack_stage);
            &&& after.unmatched_acks == book.unmatched_acks + 1
            &&& after.active == book.active
            &&& after.failure_count == book.failure_count
        }),
        ({
            let overdue = ExchangeEvent::InboxEmpty { overdue: Some(reason) };
            let after = book.after_event(overdue, stage, ack_stage);
            &&& book.exchange_action(overdue) is GiveUp
            &&& !after.active
            &&& after.failure_count == book.failure_count + 1
            &&& after.timeout_count == book.timeout_count + 1
            &&& after.rollback_count == book.rollback_count + 1
            &&& after.mprf_ack_timeout == book.mprf_ack_timeout + 1
            &&& after.last_failure_reason == Some(reason)
            &&& after.last_failure_stage == Some(stage)
        }),
        ({
            let cancelled = ExchangeEvent::Turn { cancelled: true, duration_elapsed, send_due };
            let after = book.after_event(cancelled, stage, ack_stage);
            &&& book.exchange_action(cancelled) == ExchangeAction::GiveUp(
                "profile-control-cancelled"@,
            )
            &&& !after.active
            &&& after.failure_count == book.failure_count
            &&& after.rollback_count == book.rollback_count + 1
        }),
        ({
            let over = ExchangeEvent::Turn { cancelled: false, duration_elapsed: true, send_due };
            let after = book.after_event(over, stage, ack_stage);
            &&& book.exchange_action(over) == ExchangeAction::GiveUp(
                "profile-control-duration-expired"@,
            )
            &&& !after.active
            &&& after.failure_count == book.failure_count
        }),
{
}

/// An announcement that left whole is counted, and as a repetition from the second on; one
/// that did not is told in the end.
pub proof fn law_announcements_are_counted(
    book: TransitionBook<Seq<char>>,
    attempt: u32,
    length: usize,
    written: usize,
    error: Seq<char>,
    reason: Seq<char>,
)
    requires
        book.mprf_packets_sent < u64::MAX,
        book.mprf_retry_attempts < u64::MAX,
    ensures
        ({
            let after = book.announced(attempt, length, Ok(length));
            &&& after.mprf_packets_sent == book.mprf_packets_sent + 1
            &&& after.mprf_retry_attempts == book.mprf_retry_attempts + if attempt > 0 {
                1int
            } else {
                0
            }
            &&& after.last_send_error == book.last_send_error
        }),
        written != length ==> {
            let after = book.announced(attempt, length, Ok(written));
            after.mprf_packets_sent == book.mprf_packets_sent && after.last_send_error is Some
        },
        ({
            let after = book.announced(attempt, length, Err(error));
            &&& after.mprf_packets_sent == book.mprf_packets_sent
            &&& after.last_send_error == Some("profile change UDP send failed: "@ + error)
            &&& after.timeout_text(reason) == reason + ": "@ + (
            "profile change UDP send failed: "@ + error)
        }),
        book.begun().active,
        book.begun().last_send_error is None,
        book.begun().last_failure_reason is None,
        book.begun().failure_count == book.failure_count,
        book.begun().timeout_text(reason) == reason,
{
}

/// An answer is waited for until the announcement is repeated or given up, and never longer
/// than 50 milliseconds at once.
pub proof fn law_waits_for_answers_are_short(next_retry_at: u64, ack_deadline: u64, now: u64)
    ensures
        ({
            let wait = ack_wait_time(next_retry_at, ack_deadline, now);
            &&& wait <= 50_000_000
            &&& now <= next_retry_at && now <= ack_deadline ==> now + wait <= next_retry_at && now
                + wait <= ack_deadline && (wait == 50_000_000 || now + wait == next_retry_at || now
                + wait == ack_deadline)
            &&& now >= next_retry_at || now >= ack_deadline ==> wait == 0
        }),
{
}

/// A pipeline that could be prepared is counted as such, and one that could not as well,
/// with what was said.
pub proof fn law_preparations_are_counted(book: TransitionBook<Seq<char>>, error: Seq<char>)
    requires
        book.prepare_success < u64::MAX,
        book.prepare_error < u64::MAX,
    ensures
        book.prepared(Ok(())).prepare_success == book.prepare_success + 1,
        book.prepared(Ok(())).prepare_error == book.prepare_error,
        book.prepared(Ok(())).prepare_last_error is None,
        book.prepared(Err(error)).prepare_error == book.prepare_error + 1,
        book.prepared(Err(error)).prepare_success == book.prepare_success,
        book.prepared(Err(error)).prepare_last_error == Some(error),
{
}

/// A run that ends during a transition: somebody who wanted the end is no failure, and
/// everything else is one.
pub proof fn law_end_during_a_transition(
    book: TransitionBook<Seq<char>>,
    stage: Seq<char>,
    reason: Seq<char>,
)
    requires
        book.active,
        book.failure_count < u64::MAX,
    ensures
        ({
            let after = book.failed_by(stage, reason);
            &&& !after.active
            &&& after.last_failure_reason == Some(reason)
            &&& after.rollback_count == book.rollback_count
            &&& text::contains(reason, "console"@) || text::contains(reason, "duration"@)
                || text::contains(reason, "cancelled"@) ==> after.failure_count
                == book.failure_count && after.last_failure_stage == Some("cancelled"@)
                && after.timeout_count == book.timeout_count
            &&& !text::contains(reason, "console"@) && !text::contains(reason, "duration"@)
                && !text::contains(reason, "cancelled"@) ==> after.failure_count
                == book.failure_count + 1 && after.last_failure_stage == Some(stage)
        }),
{
}

/// Each kind of change has a number of its own.
pub proof fn law_changes_have_their_numbers(kind: ActionKind, tracker: TrackerModel)
    ensures
        ActionKind::Bitrate.code() == 1,
        ActionKind::Resolution.code() == 2,
        ActionKind::Fps.code() == 3,
        1 <= kind.code() <= 3,
        without_grace(tracker).grace_until is None,
        without_grace(tracker).latest == tracker.latest,
        without_grace(tracker).stats == tracker.stats,
        without_grace(tracker).peer_control_at == tracker.peer_control_at,
{
}

} // verus!
