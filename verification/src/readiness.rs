//! When the receiver's measurements may be used.
//!
//! After a new session or profile the receiver has to decode and show pictures for a
//! while before what it measures says anything.  Times are nanoseconds of a monotonic
//! clock, unless their names say otherwise.

use vstd::prelude::*;

use crate::media_control::{
    CapabilityFeedback, Metric, CAPABILITY_FEEDBACK_VERSION, FEEDBACK_FLAG_FIRST_FRAME_RENDERED,
    FEEDBACK_FLAG_FIRST_IDR_DECODED, FEEDBACK_FLAG_PROFILE_ACKNOWLEDGED,
    FEEDBACK_FLAG_PROFILE_SETTLED, FEEDBACK_FLAG_PROFILE_TRANSITION_ACTIVE,
    FEEDBACK_FLAG_RENDER_READY, FEEDBACK_FLAG_SAMPLE_ELIGIBLE,
};
use crate::real_number::Real;

verus! {

/// How far the receiver is on the way to another profile.
#[derive(Clone, Copy, Debug, PartialEq, Eq, Structural)]
pub enum ReceiverTransitionPhase {
    Idle,
    AwaitNewSessionData,
    AwaitFirstIdr,
    Settling,
    Committed,
    Failed,
}

impl ReceiverTransitionPhase {
    pub open spec fn text(self) -> Seq<char> {
        match self {
            ReceiverTransitionPhase::Idle => "idle"@,
            ReceiverTransitionPhase::AwaitNewSessionData => "await-new-session-data"@,
            ReceiverTransitionPhase::AwaitFirstIdr => "await-first-idr"@,
            ReceiverTransitionPhase::Settling => "settling"@,
            ReceiverTransitionPhase::Committed => "committed"@,
            ReceiverTransitionPhase::Failed => "failed"@,
        }
    }

    pub fn name(self) -> (r: &'static str)
        ensures
            r@ == self.text(),
    {
        match self {
            ReceiverTransitionPhase::Idle => "idle",
            ReceiverTransitionPhase::AwaitNewSessionData => "await-new-session-data",
            ReceiverTransitionPhase::AwaitFirstIdr => "await-first-idr",
            ReceiverTransitionPhase::Settling => "settling",
            ReceiverTransitionPhase::Committed => "committed",
            ReceiverTransitionPhase::Failed => "failed",
        }
    }
}

/// What an observation made of a transition.
#[derive(Clone, Copy, Debug)]
pub enum ReadinessOutcome {
    Pending,
    Committed,
    Failed(&'static str),
}

/// A transition after an observation.
#[derive(Clone, Copy, Debug)]
pub struct TransitionReport {
    pub outcome: ReadinessOutcome,
    pub phase: ReceiverTransitionPhase,
    pub started_at: u64,
    pub settle_windows: u32,
    pub first_idr_wait_ms: Option<Real>,
    pub recovery_count: u32,
    pub settle_restart_count: u32,
    pub settle_deadline_remaining: u64,
    pub overall_deadline_remaining: u64,
    pub failure_stage: Option<ReceiverTransitionPhase>,
    pub first_idr_seen: bool,
    pub first_rendered_seen: bool,
}

/// What a transition observes.
#[derive(Clone, Copy, Debug, PartialEq, Eq, Structural)]
pub struct ReadinessObservation {
    pub first_idr_decoded: bool,
    pub render_initialized: bool,
    pub frames_rendered_total: u64,
    pub progressing: bool,
    pub damaged_gop_total: u64,
}

/// What the receiver knows of the moment.
#[derive(Clone, Copy, Debug, PartialEq, Eq, Structural)]
pub struct ReceiverMoment {
    pub session_id: Option<u64>,
    pub profile_generation: u64,
    pub render_initialized: bool,
    pub frames_rendered_total: u64,
    pub first_idr_decoded: bool,
    pub now: u64,
    /// The time of the day, in microseconds.
    pub wall_us: u64,
    /// How long a transition may take.
    pub hard_deadline: u64,
}

/// The display that the pictures are shown on.
#[derive(Clone, Copy, Debug, PartialEq, Eq, Structural)]
pub struct DisplayInfo {
    pub display_generation: u64,
    pub refresh_numerator: u32,
    pub refresh_denominator: u32,
    pub display_width: u32,
    pub display_height: u32,
}

/// What a transition shows of itself.
#[derive(Clone, Copy, Debug)]
pub struct TransitionSnapshot {
    pub feedback_sample_eligible: bool,
    pub valid_feedback_windows: u32,
    pub render_ready: bool,
    pub profile_settled: bool,
    pub profile_acknowledged: bool,
    pub first_idr_decoded: bool,
    pub first_frame_rendered: bool,
    pub profile_transition_active: bool,
    pub profile_transition_started_us: u64,
    pub profile_transition_deadline_us: u64,
    pub profile_transition_phase: ReceiverTransitionPhase,
    pub transition_timeout_count: u64,
    pub transition_failure_reason: Option<&'static str>,
    pub transition_settle_windows: u32,
    pub transition_settle_duration_ms: u32,
    pub new_session_first_idr_wait_ms: Option<Real>,
    pub transition_recovery_count: u32,
    pub transition_settle_restart_count: u32,
    pub transition_settle_deadline_remaining_ms: u64,
    pub transition_overall_deadline_remaining_ms: u64,
    pub transition_failure_stage: Option<ReceiverTransitionPhase>,
}

impl TransitionSnapshot {
    /// Nothing has happened yet.
    pub open spec fn initial() -> TransitionSnapshot {
        TransitionSnapshot {
            feedback_sample_eligible: false,
            valid_feedback_windows: 0,
            render_ready: false,
            profile_settled: false,
            profile_acknowledged: false,
            first_idr_decoded: false,
            first_frame_rendered: false,
            profile_transition_active: false,
            profile_transition_started_us: 0,
            profile_transition_deadline_us: 0,
            profile_transition_phase: ReceiverTransitionPhase::Idle,
            transition_timeout_count: 0,
            transition_failure_reason: None,
            transition_settle_windows: 0,
            transition_settle_duration_ms: 0,
            new_session_first_idr_wait_ms: None,
            transition_recovery_count: 0,
            transition_settle_restart_count: 0,
            transition_settle_deadline_remaining_ms: 0,
            transition_overall_deadline_remaining_ms: 0,
            transition_failure_stage: None,
        }
    }

    pub fn new() -> (r: TransitionSnapshot)
        ensures
            r == Self::initial(),
    {
        TransitionSnapshot {
            feedback_sample_eligible: false,
            valid_feedback_windows: 0,
            render_ready: false,
            profile_settled: false,
            profile_acknowledged: false,
            first_idr_decoded: false,
            first_frame_rendered: false,
            profile_transition_active: false,
            profile_transition_started_us: 0,
            profile_transition_deadline_us: 0,
            profile_transition_phase: ReceiverTransitionPhase::Idle,
            transition_timeout_count: 0,
            transition_failure_reason: None,
            transition_settle_windows: 0,
            transition_settle_duration_ms: 0,
            new_session_first_idr_wait_ms: None,
            transition_recovery_count: 0,
            transition_settle_restart_count: 0,
            transition_settle_deadline_remaining_ms: 0,
            transition_overall_deadline_remaining_ms: 0,
            transition_failure_stage: None,
        }
    }
}

/// What the receiver tells the sender, and whether it may be relied on.
#[derive(Clone, Copy, Debug)]
pub struct CapabilityFeedbackSource {
    pub display: DisplayInfo,
    pub active_render_fps: Real,
    pub decoder_input_fps: Real,
    pub decode_queue_drops_total: u64,
    pub render_replacements_total: u64,
    pub repair_deadline_missed_total: u64,
    pub damaged_gop_total: u64,
    pub packets_lost_total: u64,
    pub session_id: Option<u64>,
    pub profile_generation: u64,
    pub frames_rendered_total: u64,
    pub rendered_baseline: u64,
    pub transition: TransitionSnapshot,
}

/// Nanoseconds as whole milliseconds.
pub open spec fn ns_to_ms(ns: u64) -> u64 {
    ns / 1_000_000
}

/// At most `max`.
pub open spec fn at_most(value: u64, max: u64) -> u64 {
    if value < max {
        value
    } else {
        max
    }
}

impl CapabilityFeedbackSource {
    pub open spec fn initial() -> CapabilityFeedbackSource {
        CapabilityFeedbackSource {
            display: DisplayInfo {
                display_generation: 0,
                refresh_numerator: 0,
                refresh_denominator: 0,
                display_width: 0,
                display_height: 0,
            },
            active_render_fps: Real { bits: 0 },
            decoder_input_fps: Real { bits: 0 },
            decode_queue_drops_total: 0,
            render_replacements_total: 0,
            repair_deadline_missed_total: 0,
            damaged_gop_total: 0,
            packets_lost_total: 0,
            session_id: None,
            profile_generation: 0,
            frames_rendered_total: 0,
            rendered_baseline: 0,
            transition: TransitionSnapshot::initial(),
        }
    }

    pub fn new() -> (r: CapabilityFeedbackSource)
        ensures
            r == Self::initial(),
    {
        CapabilityFeedbackSource {
            display: DisplayInfo {
                display_generation: 0,
                refresh_numerator: 0,
                refresh_denominator: 0,
                display_width: 0,
                display_height: 0,
            },
            active_render_fps: Real { bits: 0 },
            decoder_input_fps: Real { bits: 0 },
            decode_queue_drops_total: 0,
            render_replacements_total: 0,
            repair_deadline_missed_total: 0,
            damaged_gop_total: 0,
            packets_lost_total: 0,
            session_id: None,
            profile_generation: 0,
            frames_rendered_total: 0,
            rendered_baseline: 0,
            transition: TransitionSnapshot::new(),
        }
    }

    /// The transition, if one runs, is given up.
    pub open spec fn cancelled(self) -> CapabilityFeedbackSource {
        if !self.transition.profile_transition_active {
            self
        } else {
            CapabilityFeedbackSource {
                transition: TransitionSnapshot {
                    profile_transition_active: false,
                    profile_transition_phase: ReceiverTransitionPhase::Failed,
                    transition_failure_stage: Some(self.transition.profile_transition_phase),
                    transition_failure_reason: Some("receiver-transition-cancelled"),
                    transition_settle_deadline_remaining_ms: 0,
                    transition_overall_deadline_remaining_ms: 0,
                    feedback_sample_eligible: false,
                    profile_settled: false,
                    ..self.transition
                },
                ..self
            }
        }
    }

    /// Gives up a transition.
    pub fn cancel_profile_transition(&mut self)
        ensures
            *final(self) == old(self).cancelled(),
    {
        if !self.transition.profile_transition_active {
            return ;
        }
        self.transition.profile_transition_active = false;
        self.transition.transition_failure_stage = Some(self.transition.profile_transition_phase);
        self.transition.profile_transition_phase = ReceiverTransitionPhase::Failed;
        self.transition.transition_failure_reason = Some("receiver-transition-cancelled");
        self.transition.transition_settle_deadline_remaining_ms = 0;
        self.transition.transition_overall_deadline_remaining_ms = 0;
        self.transition.feedback_sample_eligible = false;
        self.transition.profile_settled = false;
    }

    /// What a transition shows of itself.
    pub fn transition_snapshot(&self) -> (r: TransitionSnapshot)
        ensures
            r == self.transition,
    {
        self.transition
    }

    /// A transition begins: nothing that was measured before counts.
    pub open spec fn begun(
        self,
        session_id: u64,
        profile_generation: u64,
        wall_us: u64,
        hard_deadline: u64,
    ) -> CapabilityFeedbackSource {
        CapabilityFeedbackSource {
            session_id: Some(session_id),
            profile_generation,
            rendered_baseline: self.frames_rendered_total,
            transition: TransitionSnapshot {
                profile_acknowledged: true,
                profile_transition_active: true,
                profile_transition_started_us: wall_us,
                profile_transition_deadline_us: wall_us.saturating_add(hard_deadline / 1000),
                profile_transition_phase: ReceiverTransitionPhase::AwaitFirstIdr,
                transition_timeout_count: self.transition.transition_timeout_count,
                transition_overall_deadline_remaining_ms: ns_to_ms(hard_deadline),
                ..TransitionSnapshot::initial()
            },
            ..self
        }
    }

    /// Begins a transition to a session and a profile.
    pub fn begin_profile_transition(
        &mut self,
        session_id: u64,
        profile_generation: u64,
        wall_us: u64,
        hard_deadline: u64,
    )
        ensures
            *final(self) == old(self).begun(session_id, profile_generation, wall_us, hard_deadline),
    {
        self.session_id = Some(session_id);
        self.profile_generation = profile_generation;
        self.rendered_baseline = self.frames_rendered_total;
        let timeouts: u64 = self.transition.transition_timeout_count;
        let mut next: TransitionSnapshot = TransitionSnapshot::new();
        next.profile_acknowledged = true;
        next.profile_transition_active = true;
        next.profile_transition_started_us = wall_us;
        next.profile_transition_deadline_us = wall_us.saturating_add(hard_deadline / 1000);
        next.profile_transition_phase = ReceiverTransitionPhase::AwaitFirstIdr;
        next.transition_timeout_count = timeouts;
        next.transition_overall_deadline_remaining_ms = hard_deadline / 1_000_000;
        self.transition = next;
    }

    /// Pictures are decoded and shown at the moment.
    pub open spec fn progressing(self) -> bool {
        self.active_render_fps.positive() && self.decoder_input_fps.positive()
    }

    /// Another session or profile runs than the one that is known.
    pub open spec fn outdated(self, session_id: u64, profile_generation: u64) -> bool {
        self.session_id != Some(session_id) || self.profile_generation != profile_generation
    }

    /// The session and the profile of the moment are taken over: with a transition, unless
    /// they are the first.
    pub open spec fn caught_up(self, session_id: u64, moment: ReceiverMoment)
        -> CapabilityFeedbackSource {
        if !self.outdated(session_id, moment.profile_generation) {
            self
        } else if self.session_id is Some {
            self.begun(session_id, moment.profile_generation, moment.wall_us, moment.hard_deadline)
        } else {
            CapabilityFeedbackSource {
                session_id: Some(session_id),
                profile_generation: moment.profile_generation,
                rendered_baseline: 0,
                transition: TransitionSnapshot {
                    profile_acknowledged: true,
                    ..self.transition
                },
                ..self
            }
        }
    }

    /// What is known of the pictures is brought up to date.
    pub open spec fn refreshed(self, moment: ReceiverMoment) -> CapabilityFeedbackSource {
        CapabilityFeedbackSource {
            frames_rendered_total: moment.frames_rendered_total,
            transition: TransitionSnapshot {
                render_ready: moment.render_initialized && moment.frames_rendered_total > 0,
                first_frame_rendered: moment.frames_rendered_total > self.rendered_baseline,
                first_idr_decoded: moment.first_idr_decoded,
                ..self.transition
            },
            ..self
        }
    }

    /// Everything that measurements need is there.
    pub open spec fn ready(self) -> bool {
        self.transition.profile_acknowledged && self.transition.render_ready
            && self.transition.first_idr_decoded && self.transition.first_frame_rendered
            && self.progressing()
    }

    /// What the transition itself says is taken over.
    pub open spec fn reported(
        self,
        report: TransitionReport,
        now: u64,
    ) -> CapabilityFeedbackSource {
        CapabilityFeedbackSource {
            transition: TransitionSnapshot {
                profile_transition_phase: report.phase,
                transition_settle_windows: report.settle_windows,
                transition_settle_duration_ms: at_most(
                    ns_to_ms(now.saturating_sub(report.started_at)),
                    u32::MAX as u64,
                ) as u32,
                new_session_first_idr_wait_ms: report.first_idr_wait_ms,
                transition_recovery_count: report.recovery_count,
                transition_settle_restart_count: report.settle_restart_count,
                transition_settle_deadline_remaining_ms: ns_to_ms(report.settle_deadline_remaining),
                transition_overall_deadline_remaining_ms: ns_to_ms(
                    report.overall_deadline_remaining,
                ),
                transition_failure_stage: report.failure_stage,
                first_idr_decoded: report.first_idr_seen && report.phase
                    != ReceiverTransitionPhase::AwaitFirstIdr,
                first_frame_rendered: report.first_rendered_seen,
                valid_feedback_windows: report.settle_windows,
                ..self.transition
            },
            ..self
        }
    }

    /// The transition failed for `reason`.
    pub open spec fn failed(self, reason: &'static str) -> CapabilityFeedbackSource {
        CapabilityFeedbackSource {
            transition: TransitionSnapshot {
                profile_transition_active: false,
                transition_timeout_count: self.transition.transition_timeout_count.saturating_add(
                    1,
                ),
                transition_failure_reason: Some(reason),
                ..self.transition
            },
            ..self
        }
    }

    /// A running transition after its observation.
    pub open spec fn observed(self, report: Option<TransitionReport>, now: u64)
        -> CapabilityFeedbackSource {
        match report {
            None => self.failed("receiver-readiness-state-missing"),
            Some(report) => {
                let next = self.reported(report, now);
                match report.outcome {
                    ReadinessOutcome::Pending => next,
                    ReadinessOutcome::Committed => CapabilityFeedbackSource {
                        transition: TransitionSnapshot {
                            profile_transition_active: false,
                            ..next.transition
                        },
                        ..next
                    },
                    ReadinessOutcome::Failed(reason) => next.failed(reason),
                }
            },
        }
    }

    /// Windows without a transition: they count as long as they are good.
    pub open spec fn counted(self) -> CapabilityFeedbackSource {
        CapabilityFeedbackSource {
            transition: TransitionSnapshot {
                valid_feedback_windows: if self.ready() {
                    self.transition.valid_feedback_windows.saturating_add(1)
                } else {
                    0
                },
                ..self.transition
            },
            ..self
        }
    }

    /// When feedback counts: after three good windows, and no transition.
    pub open spec fn gated(self, ready: bool) -> CapabilityFeedbackSource {
        let open = ready && self.transition.valid_feedback_windows >= 3
            && !self.transition.profile_transition_active;
        CapabilityFeedbackSource {
            transition: TransitionSnapshot {
                profile_settled: open,
                feedback_sample_eligible: open,
                ..self.transition
            },
            ..self
        }
    }

    /// The receiver after a window.  `report` is what a running transition said of it.
    pub open spec fn updated(self, moment: ReceiverMoment, report: Option<TransitionReport>)
        -> CapabilityFeedbackSource {
        match moment.session_id {
            None => CapabilityFeedbackSource {
                transition: TransitionSnapshot {
                    feedback_sample_eligible: false,
                    valid_feedback_windows: 0,
                    ..self.transition
                },
                ..self
            },
            Some(session_id) => if self.transition.profile_transition_phase
                == ReceiverTransitionPhase::Failed {
                CapabilityFeedbackSource {
                    transition: TransitionSnapshot {
                        feedback_sample_eligible: false,
                        profile_settled: false,
                        ..self.transition
                    },
                    ..self
                }
            } else {
                let current = self.caught_up(session_id, moment).refreshed(moment);
                let ready = current.ready();
                if current.transition.profile_transition_active {
                    current.observed(report, moment.now).gated(ready)
                } else {
                    current.counted().gated(ready)
                }
            },
        }
    }

    /// Whether a new transition begins in this window.
    pub open spec fn begins(self, moment: ReceiverMoment) -> bool {
        moment.session_id is Some && self.transition.profile_transition_phase
            != ReceiverTransitionPhase::Failed && self.session_id is Some && self.outdated(
            moment.session_id->0,
            moment.profile_generation,
        )
    }

    /// What a running transition has to observe in this window, if one runs.
    pub open spec fn observation(self, moment: ReceiverMoment) -> Option<ReadinessObservation> {
        if moment.session_id is None || self.transition.profile_transition_phase
            == ReceiverTransitionPhase::Failed || !self.caught_up(
            moment.session_id->0,
            moment,
        ).transition.profile_transition_active {
            None
        } else {
            Some(
                ReadinessObservation {
                    first_idr_decoded: moment.first_idr_decoded,
                    render_initialized: moment.render_initialized,
                    frames_rendered_total: moment.frames_rendered_total,
                    progressing: self.progressing(),
                    damaged_gop_total: self.damaged_gop_total,
                },
            )
        }
    }

    /// Says whether a transition begins in this window and what a running one observes.
    pub fn plan_window(&self, moment: ReceiverMoment) -> (r: (bool, Option<ReadinessObservation>))
        ensures
            r == (self.begins(moment), self.observation(moment)),
    {
        let session_id: u64 = match moment.session_id {
            Some(session_id) => session_id,
            None => {
                return (false, None);
            },
        };
        if self.transition.profile_transition_phase == ReceiverTransitionPhase::Failed {
            return (false, None);
        }
        let begins: bool = match self.session_id {
            Some(known) => known != session_id || self.profile_generation
                != moment.profile_generation,
            None => false,
        };
        if !begins && !self.transition.profile_transition_active {
            return (false, None);
        }
        (
            begins,
            Some(
                ReadinessObservation {
                    first_idr_decoded: moment.first_idr_decoded,
                    render_initialized: moment.render_initialized,
                    frames_rendered_total: moment.frames_rendered_total,
                    progressing: self.active_render_fps.is_positive()
                        && self.decoder_input_fps.is_positive(),
                    damaged_gop_total: self.damaged_gop_total,
                },
            ),
        )
    }

    fn catch_up(&mut self, session_id: u64, moment: ReceiverMoment)
        ensures
            *final(self) == old(self).caught_up(session_id, moment),
    {
        match self.session_id {
            Some(known) => {
                if known != session_id || self.profile_generation != moment.profile_generation {
                    self.begin_profile_transition(
                        session_id,
                        moment.profile_generation,
                        moment.wall_us,
                        moment.hard_deadline,
                    );
                }
            },
            None => {
                self.session_id = Some(session_id);
                self.profile_generation = moment.profile_generation;
                self.rendered_baseline = 0;
                self.transition.profile_acknowledged = true;
            },
        }
    }

    fn fail(&mut self, reason: &'static str)
        ensures
            *final(self) == old(self).failed(reason),
    {
        self.transition.profile_transition_active = false;
        self.transition.transition_timeout_count =
        self.transition.transition_timeout_count.saturating_add(1);
        self.transition.transition_failure_reason = Some(reason);
    }

    fn take_report(&mut self, report: TransitionReport, now: u64)
        ensures
            *final(self) == old(self).reported(report, now),
    {
        let settling_ms: u64 = now.saturating_sub(report.started_at) / 1_000_000;
        self.transition.profile_transition_phase = report.phase;
        self.transition.transition_settle_windows = report.settle_windows;
        self.transition.transition_settle_duration_ms = if settling_ms < u32::MAX as u64 {
            settling_ms as u32
        } else {
            u32::MAX
        };
        self.transition.new_session_first_idr_wait_ms = report.first_idr_wait_ms;
        self.transition.transition_recovery_count = report.recovery_count;
        self.transition.transition_settle_restart_count = report.settle_restart_count;
        self.transition.transition_settle_deadline_remaining_ms =
        report.settle_deadline_remaining / 1_000_000;
        self.transition.transition_overall_deadline_remaining_ms =
        report.overall_deadline_remaining / 1_000_000;
        self.transition.transition_failure_stage = report.failure_stage;
        self.transition.first_idr_decoded = report.first_idr_seen && report.phase
            != ReceiverTransitionPhase::AwaitFirstIdr;
        self.transition.first_frame_rendered = report.first_rendered_seen;
        self.transition.valid_feedback_windows = report.settle_windows;
    }

    fn refresh(&mut self, moment: ReceiverMoment)
        ensures
            *final(self) == old(self).refreshed(moment),
    {
        self.frames_rendered_total = moment.frames_rendered_total;
        self.transition.render_ready = moment.render_initialized && moment.frames_rendered_total
            > 0;
        self.transition.first_frame_rendered = moment.frames_rendered_total
            > self.rendered_baseline;
        self.transition.first_idr_decoded = moment.first_idr_decoded;
    }

    fn is_ready(&self) -> (r: bool)
        ensures
            r == self.ready(),
    {
        self.transition.profile_acknowledged && self.transition.render_ready
            && self.transition.first_idr_decoded && self.transition.first_frame_rendered
            && self.active_render_fps.is_positive() && self.decoder_input_fps.is_positive()
    }

    fn observe(&mut self, report: Option<TransitionReport>, now: u64)
        ensures
            *final(self) == old(self).observed(report, now),
    {
        match report {
            None => self.fail("receiver-readiness-state-missing"),
            Some(report) => {
                self.take_report(report, now);
                match report.outcome {
                    ReadinessOutcome::Pending => {},
                    ReadinessOutcome::Committed => {
                        self.transition.profile_transition_active = false;
                    },
                    ReadinessOutcome::Failed(reason) => self.fail(reason),
                }
            },
        }
    }

    fn count_window(&mut self)
        ensures
            *final(self) == old(self).counted(),
    {
        self.transition.valid_feedback_windows = if self.is_ready() {
            self.transition.valid_feedback_windows.saturating_add(1)
        } else {
            0
        };
    }

    fn set_gate(&mut self, ready: bool)
        ensures
            *final(self) == old(self).gated(ready),
    {
        let open: bool = ready && self.transition.valid_feedback_windows >= 3
            && !self.transition.profile_transition_active;
        self.transition.profile_settled = open;
        self.transition.feedback_sample_eligible = open;
    }

    /// Takes a window in.  `report` is what a running transition said of it.
    pub fn update_readiness(&mut self, moment: ReceiverMoment, report: Option<TransitionReport>)
        ensures
            *final(self) == old(self).updated(moment, report),
    {
        let session_id: u64 = match moment.session_id {
            Some(session_id) => session_id,
            None => {
                self.transition.feedback_sample_eligible = false;
                self.transition.valid_feedback_windows = 0;
                return ;
            },
        };
        if self.transition.profile_transition_phase == ReceiverTransitionPhase::Failed {
            self.transition.feedback_sample_eligible = false;
            self.transition.profile_settled = false;
            return ;
        }
        self.catch_up(session_id, moment);
        self.refresh(moment);
        let ready: bool = self.is_ready();
        if self.transition.profile_transition_active {
            self.observe(report, moment.now);
        } else {
            self.count_window();
        }
        self.set_gate(ready);
    }

    /// The flags that go with the feedback.
    pub open spec fn flags(self) -> u32 {
        flag_if(self.transition.feedback_sample_eligible, FEEDBACK_FLAG_SAMPLE_ELIGIBLE) | flag_if(
            self.transition.render_ready,
            FEEDBACK_FLAG_RENDER_READY,
        ) | flag_if(self.transition.profile_settled, FEEDBACK_FLAG_PROFILE_SETTLED) | flag_if(
            self.transition.first_idr_decoded,
            FEEDBACK_FLAG_FIRST_IDR_DECODED,
        ) | flag_if(
            self.transition.first_frame_rendered,
            FEEDBACK_FLAG_FIRST_FRAME_RENDERED,
        ) | flag_if(
            self.transition.profile_transition_active,
            FEEDBACK_FLAG_PROFILE_TRANSITION_ACTIVE,
        ) | flag_if(
            self.transition.profile_acknowledged,
            FEEDBACK_FLAG_PROFILE_ACKNOWLEDGED,
        )
    }

    /// Gives the flags that go with the feedback.
    pub fn state_flags(&self) -> (r: u32)
        ensures
            r == self.flags(),
    {
        set_if(self.transition.feedback_sample_eligible, FEEDBACK_FLAG_SAMPLE_ELIGIBLE) | set_if(
            self.transition.render_ready,
            FEEDBACK_FLAG_RENDER_READY,
        ) | set_if(self.transition.profile_settled, FEEDBACK_FLAG_PROFILE_SETTLED) | set_if(
            self.transition.first_idr_decoded,
            FEEDBACK_FLAG_FIRST_IDR_DECODED,
        ) | set_if(
            self.transition.first_frame_rendered,
            FEEDBACK_FLAG_FIRST_FRAME_RENDERED,
        ) | set_if(
            self.transition.profile_transition_active,
            FEEDBACK_FLAG_PROFILE_TRANSITION_ACTIVE,
        ) | set_if(
            self.transition.profile_acknowledged,
            FEEDBACK_FLAG_PROFILE_ACKNOWLEDGED,
        )
    }
}

pub open spec fn flag_if(set: bool, flag: u32) -> u32 {
    if set {
        flag
    } else {
        0
    }
}

fn set_if(set: bool, flag: u32) -> (r: u32)
    ensures
        r == flag_if(set, flag),
{
    if set {
        flag
    } else {
        0
    }
}

/// The sender reads out of the flags what the receiver put in.
pub proof fn law_flags_carry_the_state(source: CapabilityFeedbackSource)
    ensures
        ({
            let flags = source.flags();
            let t = source.transition;
            &&& (flags & FEEDBACK_FLAG_SAMPLE_ELIGIBLE != 0) == t.feedback_sample_eligible
            &&& (flags & FEEDBACK_FLAG_RENDER_READY != 0) == t.render_ready
            &&& (flags & FEEDBACK_FLAG_PROFILE_SETTLED != 0) == t.profile_settled
            &&& (flags & FEEDBACK_FLAG_FIRST_IDR_DECODED != 0) == t.first_idr_decoded
            &&& (flags & FEEDBACK_FLAG_FIRST_FRAME_RENDERED != 0) == t.first_frame_rendered
            &&& (flags & FEEDBACK_FLAG_PROFILE_TRANSITION_ACTIVE != 0)
                == t.profile_transition_active
            &&& (flags & FEEDBACK_FLAG_PROFILE_ACKNOWLEDGED != 0) == t.profile_acknowledged
        }),
{
    let t = source.transition;
    let a = flag_if(t.feedback_sample_eligible, FEEDBACK_FLAG_SAMPLE_ELIGIBLE);
    let b = flag_if(t.render_ready, FEEDBACK_FLAG_RENDER_READY);
    let c = flag_if(t.profile_settled, FEEDBACK_FLAG_PROFILE_SETTLED);
    let d = flag_if(t.first_idr_decoded, FEEDBACK_FLAG_FIRST_IDR_DECODED);
    let e = flag_if(t.first_frame_rendered, FEEDBACK_FLAG_FIRST_FRAME_RENDERED);
    let f = flag_if(t.profile_transition_active, FEEDBACK_FLAG_PROFILE_TRANSITION_ACTIVE);
    let g = flag_if(t.profile_acknowledged, FEEDBACK_FLAG_PROFILE_ACKNOWLEDGED);
    assert(((a | b | c | d | e | f | g) & 0x01 != 0) == (a == 0x01) && ((a | b | c | d | e | f | g)
        & 0x02 != 0) == (b == 0x02) && ((a | b | c | d | e | f | g) & 0x04 != 0) == (c == 0x04) && ((
    a | b | c | d | e | f | g) & 0x08 != 0) == (d == 0x08) && ((a | b | c | d | e | f | g) & 0x10
        != 0) == (e == 0x10) && ((a | b | c | d | e | f | g) & 0x20 != 0) == (f == 0x20) && ((a | b
        | c | d | e | f | g) & 0x40 != 0) == (g == 0x40)) by (bit_vector)
        requires
            a == 0 || a == 0x01,
            b == 0 || b == 0x02,
            c == 0 || c == 0x04,
            d == 0 || d == 0x08,
            e == 0 || e == 0x10,
            f == 0 || f == 0x20,
            g == 0 || g == 0x40,
    ;
}

/// A sample is eligible only if the picture is shown, the profile is acknowledged, three
/// good windows have passed, pictures move at the moment, and no transition runs.
pub proof fn law_eligible_samples_are_settled(
    source: CapabilityFeedbackSource,
    moment: ReceiverMoment,
    report: Option<TransitionReport>,
)
    requires
        source.updated(moment, report).transition.feedback_sample_eligible,
    ensures
        ({
            let after = source.updated(moment, report);
            &&& moment.session_id is Some
            &&& after.transition.profile_settled
            &&& !after.transition.profile_transition_active
            &&& after.transition.valid_feedback_windows >= 3
            &&& after.transition.render_ready
            &&& after.progressing()
        }),
{
}

/// A transition ends the eligibility of feedback, and while it is pending none is eligible.
pub proof fn law_transition_ends_eligibility(
    source: CapabilityFeedbackSource,
    session_id: u64,
    profile_generation: u64,
    wall_us: u64,
    hard_deadline: u64,
    moment: ReceiverMoment,
    report: TransitionReport,
)
    requires
        moment.session_id == Some(session_id),
        moment.profile_generation == profile_generation,
        report.outcome is Pending,
    ensures
        ({
            let begun = source.begun(session_id, profile_generation, wall_us, hard_deadline);
            &&& !begun.transition.feedback_sample_eligible
            &&& !begun.updated(moment, Some(report)).transition.feedback_sample_eligible
            &&& begun.updated(moment, Some(report)).transition.profile_transition_active
            &&& begun.updated(moment, None).transition.transition_failure_reason == Some(
                "receiver-readiness-state-missing",
            )
        }),
{
}

// The feedback to the sender.

/// What was told to the sender so far.
#[derive(Clone, Copy, Debug, PartialEq, Eq, Structural)]
pub struct CapabilityFeedbackCounters {
    pub sent: u64,
    pub send_errors: u64,
    pub sequence: u64,
    pub last_display_generation: Option<u64>,
    pub previous_decode_queue_drops: u64,
    pub previous_render_replacements: u64,
    pub previous_repair_deadline_missed: u64,
    pub previous_damaged_gop: u64,
    pub previous_packets_lost: u64,
}

/// What was measured of the pictures, as it travels.
#[derive(Clone, Copy, Debug, PartialEq, Eq, Structural)]
pub struct FeedbackMetrics {
    pub present_fps_measured: Metric,
    pub present_interval_p95_ms: Metric,
    pub active_render_fps: Metric,
    pub decoder_input_fps: Metric,
}

impl CapabilityFeedbackCounters {
    pub open spec fn initial() -> CapabilityFeedbackCounters {
        CapabilityFeedbackCounters {
            sent: 0,
            send_errors: 0,
            sequence: 0,
            last_display_generation: None,
            previous_decode_queue_drops: 0,
            previous_render_replacements: 0,
            previous_repair_deadline_missed: 0,
            previous_damaged_gop: 0,
            previous_packets_lost: 0,
        }
    }

    pub fn new() -> (r: CapabilityFeedbackCounters)
        ensures
            r == Self::initial(),
    {
        CapabilityFeedbackCounters {
            sent: 0,
            send_errors: 0,
            sequence: 0,
            last_display_generation: None,
            previous_decode_queue_drops: 0,
            previous_render_replacements: 0,
            previous_repair_deadline_missed: 0,
            previous_damaged_gop: 0,
            previous_packets_lost: 0,
        }
    }

    /// Feedback is due: its time has come, or the display is another.
    pub open spec fn due(self, display_generation: u64, now: u64, next_feedback_at: u64) -> bool {
        now >= next_feedback_at || self.last_display_generation != Some(display_generation)
    }

    /// Whether feedback is due.
    pub fn is_due(&self, display_generation: u64, now: u64, next_feedback_at: u64) -> (r: bool)
        ensures
            r == self.due(display_generation, now, next_feedback_at),
    {
        let same_display: bool = match self.last_display_generation {
            Some(known) => known == display_generation,
            None => false,
        };
        now >= next_feedback_at || !same_display
    }

    /// The feedback with the number `sequence`: what happened since the last one that was
    /// sent.
    pub open spec fn message(
        self,
        source: CapabilityFeedbackSource,
        session_id: u64,
        metrics: FeedbackMetrics,
        timestamp_us: u64,
    ) -> CapabilityFeedback {
        CapabilityFeedback {
            version: CAPABILITY_FEEDBACK_VERSION,
            session_id,
            feedback_sequence: self.sequence,
            display_generation: source.display.display_generation,
            display_refresh_numerator: source.display.refresh_numerator,
            display_refresh_denominator: if source.display.refresh_denominator == 0 {
                1
            } else {
                source.display.refresh_denominator
            },
            display_width: source.display.display_width,
            display_height: source.display.display_height,
            present_fps_measured: metrics.present_fps_measured,
            present_interval_p95_ms: metrics.present_interval_p95_ms,
            active_render_fps: metrics.active_render_fps,
            decoder_input_fps: metrics.decoder_input_fps,
            decode_queue_drops_delta: source.decode_queue_drops_total.saturating_sub(
                self.previous_decode_queue_drops,
            ),
            render_replacements_delta: source.render_replacements_total.saturating_sub(
                self.previous_render_replacements,
            ),
            repair_deadline_missed_delta: source.repair_deadline_missed_total.saturating_sub(
                self.previous_repair_deadline_missed,
            ),
            damaged_gop_delta: source.damaged_gop_total.saturating_sub(self.previous_damaged_gop),
            packets_lost_delta: source.packets_lost_total.saturating_sub(
                self.previous_packets_lost,
            ),
            timestamp_us,
            profile_generation: source.profile_generation,
            state_flags: source.flags(),
            valid_feedback_windows: source.transition.valid_feedback_windows,
            transition_settle_windows: source.transition.transition_settle_windows,
            transition_settle_duration_ms: source.transition.transition_settle_duration_ms,
            profile_transition_started_us: source.transition.profile_transition_started_us,
        }
    }

    /// The next feedback.
    pub fn next_message(
        &mut self,
        source: CapabilityFeedbackSource,
        session_id: u64,
        metrics: FeedbackMetrics,
        timestamp_us: u64,
    ) -> (r: CapabilityFeedback)
        ensures
            *final(self) == (CapabilityFeedbackCounters {
                sequence: old(self).sequence.saturating_add(1),
                ..*old(self)
            }),
            r == final(self).message(source, session_id, metrics, timestamp_us),
    {
        self.sequence = self.sequence.saturating_add(1);
        CapabilityFeedback {
            version: CAPABILITY_FEEDBACK_VERSION,
            session_id,
            feedback_sequence: self.sequence,
            display_generation: source.display.display_generation,
            display_refresh_numerator: source.display.refresh_numerator,
            display_refresh_denominator: if source.display.refresh_denominator == 0 {
                1
            } else {
                source.display.refresh_denominator
            },
            display_width: source.display.display_width,
            display_height: source.display.display_height,
            present_fps_measured: metrics.present_fps_measured,
            present_interval_p95_ms: metrics.present_interval_p95_ms,
            active_render_fps: metrics.active_render_fps,
            decoder_input_fps: metrics.decoder_input_fps,
            decode_queue_drops_delta: source.decode_queue_drops_total.saturating_sub(
                self.previous_decode_queue_drops,
            ),
            render_replacements_delta: source.render_replacements_total.saturating_sub(
                self.previous_render_replacements,
            ),
            repair_deadline_missed_delta: source.repair_deadline_missed_total.saturating_sub(
                self.previous_repair_deadline_missed,
            ),
            damaged_gop_delta: source.damaged_gop_total.saturating_sub(self.previous_damaged_gop),
            packets_lost_delta: source.packets_lost_total.saturating_sub(
                self.previous_packets_lost,
            ),
            timestamp_us,
            profile_generation: source.profile_generation,
            state_flags: source.state_flags(),
            valid_feedback_windows: source.transition.valid_feedback_windows,
            transition_settle_windows: source.transition.transition_settle_windows,
            transition_settle_duration_ms: source.transition.transition_settle_duration_ms,
            profile_transition_started_us: source.transition.profile_transition_started_us,
        }
    }

    /// The counters after feedback was sent, or could not be sent: in the latter case the
    /// next one tells of the same events again.
    pub open spec fn after_sending(self, source: CapabilityFeedbackSource, sent: bool)
        -> CapabilityFeedbackCounters {
        if sent {
            CapabilityFeedbackCounters {
                sent: self.sent.saturating_add(1),
                last_display_generation: Some(source.display.display_generation),
                previous_decode_queue_drops: source.decode_queue_drops_total,
                previous_render_replacements: source.render_replacements_total,
                previous_repair_deadline_missed: source.repair_deadline_missed_total,
                previous_damaged_gop: source.damaged_gop_total,
                previous_packets_lost: source.packets_lost_total,
                ..self
            }
        } else {
            CapabilityFeedbackCounters { send_errors: self.send_errors.saturating_add(1), ..self }
        }
    }

    /// Notes that feedback was sent, or could not be sent.
    pub fn message_sent(&mut self, source: CapabilityFeedbackSource, sent: bool)
        ensures
            *final(self) == old(self).after_sending(source, sent),
    {
        if sent {
            self.sent = self.sent.saturating_add(1);
            self.last_display_generation = Some(source.display.display_generation);
            self.previous_decode_queue_drops = source.decode_queue_drops_total;
            self.previous_render_replacements = source.render_replacements_total;
            self.previous_repair_deadline_missed = source.repair_deadline_missed_total;
            self.previous_damaged_gop = source.damaged_gop_total;
            self.previous_packets_lost = source.packets_lost_total;
        } else {
            self.send_errors = self.send_errors.saturating_add(1);
        }
    }
}

/// Feedback tells of every event once: what is told with a message that is sent is what
/// was not told before, and a message that is lost on the way out is told again.
pub proof fn law_feedback_tells_events_once(
    counters: CapabilityFeedbackCounters,
    source: CapabilityFeedbackSource,
    session_id: u64,
    metrics: FeedbackMetrics,
    timestamp_us: u64,
)
    ensures
        ({
            let told = counters.after_sending(source, true).message(
                source,
                session_id,
                metrics,
                timestamp_us,
            );
            &&& told.decode_queue_drops_delta == 0
            &&& told.render_replacements_delta == 0
            &&& told.repair_deadline_missed_delta == 0
            &&& told.damaged_gop_delta == 0
            &&& told.packets_lost_delta == 0
        }),
        counters.after_sending(source, false).message(source, session_id, metrics, timestamp_us)
            == counters.message(source, session_id, metrics, timestamp_us),
{
}

/// A window of the self-test.
fn test_moment(session_id: Option<u64>, generation: u64, frames: u64, idr: bool, now_ms: u32) -> (r:
    ReceiverMoment)
    ensures
        r == (ReceiverMoment {
            session_id,
            profile_generation: generation,
            render_initialized: session_id is Some,
            frames_rendered_total: frames,
            first_idr_decoded: idr,
            now: (now_ms * 1_000_000) as u64,
            wall_us: 0,
            hard_deadline: 10_000_000_000,
        }),
{
    ReceiverMoment {
        session_id,
        profile_generation: generation,
        render_initialized: session_id.is_some(),
        frames_rendered_total: frames,
        first_idr_decoded: idr,
        now: now_ms as u64 * 1_000_000,
        wall_us: 0,
        hard_deadline: 10_000_000_000,
    }
}

/// What a transition that began at one second reports in the self-test.
fn test_report(outcome: ReadinessOutcome, phase: ReceiverTransitionPhase, windows: u32) -> (r:
    TransitionReport)
    ensures
        r == (TransitionReport {
            outcome,
            phase,
            started_at: 1_000_000_000,
            settle_windows: windows,
            first_idr_wait_ms: Some(Real { bits: 0x4059_0000_0000_0000 }),
            recovery_count: 0,
            settle_restart_count: 0,
            settle_deadline_remaining: 0,
            overall_deadline_remaining: 0,
            failure_stage: None,
            first_idr_seen: true,
            first_rendered_seen: true,
        }),
{
    TransitionReport {
        outcome,
        phase,
        started_at: 1_000_000_000,
        settle_windows: windows,
        first_idr_wait_ms: Some(Real { bits: 0x4059_0000_0000_0000 }),
        recovery_count: 0,
        settle_restart_count: 0,
        settle_deadline_remaining: 0,
        overall_deadline_remaining: 0,
        failure_stage: None,
        first_idr_seen: true,
        first_rendered_seen: true,
    }
}

/// Checks when feedback counts: before a session, over the first windows, when
/// pictures stop, and over transitions that settle, time out and are cancelled.
pub fn capability_feedback_readiness_self_test() -> (r: Result<(), String>)
    ensures
        r is Ok,
{
    let sixty: Real = Real { bits: 0x404e_0000_0000_0000 };
    let mut source: CapabilityFeedbackSource = CapabilityFeedbackSource::new();
    source.update_readiness(test_moment(None, 0, 0, false, 0), None);
    if source.transition.feedback_sample_eligible || source.transition.valid_feedback_windows != 0 {
        return Err("feedback became eligible before a session existed".to_string());
    }
    source.active_render_fps = sixty;
    source.decoder_input_fps = sixty;
    source.update_readiness(test_moment(Some(7), 0, 1, true, 100), None);
    let early: bool = source.transition.feedback_sample_eligible;
    source.update_readiness(test_moment(Some(7), 0, 2, true, 200), None);
    if early || source.transition.feedback_sample_eligible {
        return Err("feedback became eligible before three valid windows".to_string());
    }
    source.update_readiness(test_moment(Some(7), 0, 3, true, 300), None);
    if !source.transition.feedback_sample_eligible || !source.transition.profile_settled
        || source.transition.profile_transition_active
        || source.transition.new_session_first_idr_wait_ms.is_some() {
        return Err("initial receiver readiness or null IDR telemetry was invalid".to_string());
    }
    source.active_render_fps = Real { bits: 0 };
    source.decoder_input_fps = Real { bits: 0 };
    source.update_readiness(test_moment(Some(7), 0, 3, true, 500), None);
    if source.transition.feedback_sample_eligible || source.transition.valid_feedback_windows != 0 {
        return Err("zero-FPS window retained stale feedback eligibility".to_string());
    }
    source.begin_profile_transition(8, 1, 2_000_000, 10_000_000_000);
    if source.transition.feedback_sample_eligible || !source.transition.profile_transition_active
        || source.transition.valid_feedback_windows != 0 {
        return Err("profile transition did not close the feedback gate".to_string());
    }
    source.active_render_fps = sixty;
    source.decoder_input_fps = sixty;
    source.update_readiness(
        test_moment(Some(8), 1, 4, true, 1100),
        Some(test_report(ReadinessOutcome::Pending, ReceiverTransitionPhase::Settling, 0)),
    );
    let first: bool = source.transition.feedback_sample_eligible;
    source.update_readiness(
        test_moment(Some(8), 1, 5, true, 1200),
        Some(test_report(ReadinessOutcome::Pending, ReceiverTransitionPhase::Settling, 1)),
    );
    let second: bool = source.transition.feedback_sample_eligible;
    source.update_readiness(
        test_moment(Some(8), 1, 6, true, 1300),
        Some(test_report(ReadinessOutcome::Pending, ReceiverTransitionPhase::Settling, 2)),
    );
    if first || second || source.transition.feedback_sample_eligible {
        return Err("transition feedback became eligible before settling".to_string());
    }
    source.update_readiness(
        test_moment(Some(8), 1, 7, true, 1400),
        Some(test_report(ReadinessOutcome::Committed, ReceiverTransitionPhase::Committed, 3)),
    );
    if !source.transition.feedback_sample_eligible || source.transition.profile_transition_active
        || source.transition.transition_settle_windows != 3
        || source.transition.transition_settle_duration_ms != 400
        || source.transition.new_session_first_idr_wait_ms.is_none() {
        return Err("profile transition readiness did not settle deterministically".to_string());
    }
    source.begin_profile_transition(9, 2, 3_000_000, 10_000_000_000);
    source.update_readiness(
        test_moment(Some(9), 2, 7, false, 4000),
        Some(
            test_report(
                ReadinessOutcome::Failed("receiver-first-idr-timeout"),
                ReceiverTransitionPhase::Failed,
                0,
            ),
        ),
    );
    if source.transition.profile_transition_active || source.transition.profile_transition_phase
        != ReceiverTransitionPhase::Failed || source.transition.transition_failure_reason.is_none()
        || source.transition.transition_timeout_count != 1 {
        return Err("missing new-session IDR did not fail at a finite deadline".to_string());
    }
    source.begin_profile_transition(10, 3, 4_000_000, 10_000_000_000);
    source.cancel_profile_transition();
    let cancelled: TransitionSnapshot = source.transition_snapshot();
    let stage_kept: bool = match source.transition.transition_failure_stage {
        Some(stage) => stage == ReceiverTransitionPhase::AwaitFirstIdr,
        None => false,
    };
    if source.transition.profile_transition_active || cancelled.profile_transition_active
        || source.transition.profile_transition_phase != ReceiverTransitionPhase::Failed
        || source.transition.transition_failure_reason.is_none() || !stage_kept {
        return Err("receiver cancellation left a transition active".to_string());
    }
    Ok(())
}

/// A new transition: it waits for the first picture that stands alone, holds nothing of
/// what was seen before, and has as long as it was given, in microseconds on the clock of
/// the day and in milliseconds on the display.
pub proof fn law_transition_starts_afresh(
    source: CapabilityFeedbackSource,
    session_id: u64,
    profile_generation: u64,
    wall_us: u64,
    hard_deadline: u64,
)
    ensures
        ({
            let after = source.begun(session_id, profile_generation, wall_us, hard_deadline);
            let t = after.transition;
            &&& after.session_id == Some(session_id)
            &&& after.profile_generation == profile_generation
            &&& after.rendered_baseline == source.frames_rendered_total
            &&& after.display == source.display
            &&& after.damaged_gop_total == source.damaged_gop_total
            &&& after.packets_lost_total == source.packets_lost_total
            &&& t.profile_acknowledged && t.profile_transition_active
            &&& !t.feedback_sample_eligible && !t.profile_settled && !t.render_ready
            &&& !t.first_idr_decoded && !t.first_frame_rendered
            &&& t.valid_feedback_windows == 0 && t.transition_settle_windows == 0
            &&& t.profile_transition_phase == ReceiverTransitionPhase::AwaitFirstIdr
            &&& t.profile_transition_started_us == wall_us
            &&& (wall_us + hard_deadline / 1000 <= u64::MAX ==> t.profile_transition_deadline_us
                == wall_us + hard_deadline / 1000)
            &&& t.transition_overall_deadline_remaining_ms == hard_deadline / 1_000_000
            &&& t.transition_timeout_count == source.transition.transition_timeout_count
            &&& t.transition_failure_reason is None && t.transition_failure_stage is None
        }),
{
}

/// While pictures of the known profile are decoded and shown and no transition runs, each
/// window counts, and from the third on the feedback may be relied on.
pub proof fn law_good_windows_add_up(
    source: CapabilityFeedbackSource,
    moment: ReceiverMoment,
    report: Option<TransitionReport>,
)
    requires
        source.session_id is Some,
        moment.session_id == source.session_id,
        moment.profile_generation == source.profile_generation,
        source.transition.profile_transition_phase != ReceiverTransitionPhase::Failed,
        !source.transition.profile_transition_active,
        source.transition.profile_acknowledged,
        0 < source.active_render_fps.bits <= 0x7ff0_0000_0000_0000,
        0 < source.decoder_input_fps.bits <= 0x7ff0_0000_0000_0000,
        moment.render_initialized,
        moment.first_idr_decoded,
        moment.frames_rendered_total > source.rendered_baseline,
        source.transition.valid_feedback_windows < u32::MAX,
    ensures
        ({
            let after = source.updated(moment, report);
            let t = after.transition;
            &&& t.valid_feedback_windows == source.transition.valid_feedback_windows + 1
            &&& t.feedback_sample_eligible == (t.valid_feedback_windows >= 3)
            &&& t.profile_settled == (t.valid_feedback_windows >= 3)
            &&& t.render_ready && t.first_idr_decoded && t.first_frame_rendered
            &&& after.frames_rendered_total == moment.frames_rendered_total
            &&& after.session_id == source.session_id
            &&& !t.profile_transition_active
        }),
{
}

/// A window without a transition in which anything is missing begins the count anew.
pub proof fn law_bad_window_starts_over(
    source: CapabilityFeedbackSource,
    moment: ReceiverMoment,
    report: Option<TransitionReport>,
)
    requires
        source.session_id is Some,
        moment.session_id == source.session_id,
        moment.profile_generation == source.profile_generation,
        source.transition.profile_transition_phase != ReceiverTransitionPhase::Failed,
        !source.transition.profile_transition_active,
        !source.transition.profile_acknowledged || source.active_render_fps.bits == 0
            || source.decoder_input_fps.bits == 0 || !moment.render_initialized
            || !moment.first_idr_decoded || moment.frames_rendered_total == 0
            || moment.frames_rendered_total <= source.rendered_baseline,
    ensures
        source.updated(moment, report).transition.valid_feedback_windows == 0,
        !source.updated(moment, report).transition.feedback_sample_eligible,
        !source.updated(moment, report).transition.profile_settled,
{
}

/// The first session is taken over at once; a later one, or another profile, goes through
/// a transition.
pub proof fn law_sessions_are_taken_over(
    source: CapabilityFeedbackSource,
    moment: ReceiverMoment,
    report: TransitionReport,
)
    requires
        moment.session_id is Some,
        source.transition.profile_transition_phase != ReceiverTransitionPhase::Failed,
        !source.transition.profile_transition_active,
        report.outcome is Pending,
    ensures
        ({
            let after = source.updated(moment, Some(report));
            &&& after.session_id == moment.session_id
            &&& after.profile_generation == moment.profile_generation
            &&& after.frames_rendered_total == moment.frames_rendered_total
            &&& after.transition.profile_transition_active == (source.session_id is Some && (
            source.session_id != moment.session_id || source.profile_generation
                != moment.profile_generation))
            &&& source.begins(moment) == after.transition.profile_transition_active
            &&& source.observation(moment) is Some == after.transition.profile_transition_active
            &&& source.session_id is None ==> after.transition.profile_acknowledged
                && after.rendered_baseline == 0
        }),
{
}

/// What a running transition observes is what the moment and the counters show.
pub proof fn law_transition_observes_the_moment(
    source: CapabilityFeedbackSource,
    moment: ReceiverMoment,
)
    requires
        source.session_id is Some,
        moment.session_id == source.session_id,
        moment.profile_generation == source.profile_generation,
        source.transition.profile_transition_phase != ReceiverTransitionPhase::Failed,
        source.transition.profile_transition_active,
    ensures
        source.observation(moment) matches Some(o) && o.first_idr_decoded
            == moment.first_idr_decoded && o.render_initialized == moment.render_initialized
            && o.frames_rendered_total == moment.frames_rendered_total && o.damaged_gop_total
            == source.damaged_gop_total && (o.progressing <==> (0 < source.active_render_fps.bits
            <= 0x7ff0_0000_0000_0000 && 0 < source.decoder_input_fps.bits
            <= 0x7ff0_0000_0000_0000)),
        !source.begins(moment),
{
}

/// A running transition shows what was reported of it; it goes on while it is pending, and
/// ends when it is settled or has failed, and each failure is counted.
pub proof fn law_reports_are_shown(
    source: CapabilityFeedbackSource,
    moment: ReceiverMoment,
    report: TransitionReport,
)
    requires
        source.session_id is Some,
        moment.session_id == source.session_id,
        moment.profile_generation == source.profile_generation,
        source.transition.profile_transition_phase != ReceiverTransitionPhase::Failed,
        source.transition.profile_transition_active,
    ensures
        ({
            let t = source.updated(moment, Some(report)).transition;
            &&& t.profile_transition_phase == report.phase
            &&& t.transition_settle_windows == report.settle_windows
            &&& t.valid_feedback_windows == report.settle_windows
            &&& t.new_session_first_idr_wait_ms == report.first_idr_wait_ms
            &&& t.transition_recovery_count == report.recovery_count
            &&& t.transition_settle_restart_count == report.settle_restart_count
            &&& t.transition_failure_stage == report.failure_stage
            &&& t.first_frame_rendered == report.first_rendered_seen
            &&& t.first_idr_decoded == (report.first_idr_seen && report.phase
                != ReceiverTransitionPhase::AwaitFirstIdr)
            &&& t.transition_settle_deadline_remaining_ms == report.settle_deadline_remaining
                / 1_000_000
            &&& t.transition_overall_deadline_remaining_ms == report.overall_deadline_remaining
                / 1_000_000
            &&& report.started_at <= moment.now <= report.started_at + 1_000_000_000_000
                ==> t.transition_settle_duration_ms == (moment.now - report.started_at)
                / 1_000_000
            &&& t.profile_transition_active == (report.outcome is Pending)
            &&& match report.outcome {
                ReadinessOutcome::Failed(reason) => t.transition_failure_reason == Some(reason)
                    && (source.transition.transition_timeout_count < u64::MAX
                    ==> t.transition_timeout_count == source.transition.transition_timeout_count
                    + 1),
                _ => t.transition_failure_reason == source.transition.transition_failure_reason
                    && t.transition_timeout_count == source.transition.transition_timeout_count,
            }
        }),
{
}

/// A transition that settled leaves feedback that may be relied on, if the pictures move.
pub proof fn law_settled_transition_opens_the_gate(
    source: CapabilityFeedbackSource,
    moment: ReceiverMoment,
    report: TransitionReport,
)
    requires
        source.session_id is Some,
        moment.session_id == source.session_id,
        moment.profile_generation == source.profile_generation,
        source.transition.profile_transition_phase != ReceiverTransitionPhase::Failed,
        source.transition.profile_transition_active,
        source.transition.profile_acknowledged,
        0 < source.active_render_fps.bits <= 0x7ff0_0000_0000_0000,
        0 < source.decoder_input_fps.bits <= 0x7ff0_0000_0000_0000,
        moment.render_initialized,
        moment.first_idr_decoded,
        moment.frames_rendered_total > source.rendered_baseline,
        report.outcome is Committed,
        report.settle_windows >= 3,
    ensures
        source.updated(moment, Some(report)).transition.feedback_sample_eligible,
        source.updated(moment, Some(report)).transition.profile_settled,
{
}

/// Without a session nothing counts; after a failed transition nothing counts either, and
/// the rest stays as it is.
pub proof fn law_closed_gate(
    source: CapabilityFeedbackSource,
    moment: ReceiverMoment,
    report: Option<TransitionReport>,
)
    requires
        moment.session_id is None || source.transition.profile_transition_phase
            == ReceiverTransitionPhase::Failed,
    ensures
        ({
            let after = source.updated(moment, report);
            &&& !after.transition.feedback_sample_eligible
            &&& (moment.session_id is None ==> after.transition.valid_feedback_windows == 0)
            &&& (moment.session_id is Some ==> !after.transition.profile_settled)
            &&& after.session_id == source.session_id
            &&& after.profile_generation == source.profile_generation
            &&& after.frames_rendered_total == source.frames_rendered_total
            &&& after.transition.profile_transition_phase
                == source.transition.profile_transition_phase
            &&& !source.begins(moment)
            &&& source.observation(moment) is None
        }),
{
}

/// A transition that is given up has failed at the phase that it was in; where none runs
/// nothing changes.
pub proof fn law_cancelled_transition_has_failed(source: CapabilityFeedbackSource)
    ensures
        ({
            let t = source.cancelled().transition;
            &&& !t.profile_transition_active
            &&& !source.transition.profile_transition_active ==> source.cancelled() == source
            &&& source.transition.profile_transition_active ==> {
                &&& t.profile_transition_phase == ReceiverTransitionPhase::Failed
                &&& t.transition_failure_stage == Some(source.transition.profile_transition_phase)
                &&& t.transition_failure_reason == Some("receiver-transition-cancelled")
                &&& t.transition_settle_deadline_remaining_ms == 0
                &&& t.transition_overall_deadline_remaining_ms == 0
                &&& !t.feedback_sample_eligible
                &&& !t.profile_settled
                &&& t.transition_timeout_count == source.transition.transition_timeout_count
            }
        }),
{
}

/// Feedback is due when its time has come, and at once for a display that was not told of.
pub proof fn law_feedback_is_due_in_time(
    counters: CapabilityFeedbackCounters,
    display_generation: u64,
    now: u64,
    next_feedback_at: u64,
)
    ensures
        next_feedback_at <= now ==> counters.due(display_generation, now, next_feedback_at),
        counters.last_display_generation is None ==> counters.due(
            display_generation,
            now,
            next_feedback_at,
        ),
        now < next_feedback_at && counters.last_display_generation is Some ==> (counters.due(
            display_generation,
            now,
            next_feedback_at,
        ) <==> counters.last_display_generation->0 != display_generation),
{
}

/// What was told once is not due again before its time.
pub proof fn law_told_display_is_not_due(
    counters: CapabilityFeedbackCounters,
    source: CapabilityFeedbackSource,
    now: u64,
    next_feedback_at: u64,
)
    requires
        now < next_feedback_at,
    ensures
        !counters.after_sending(source, true).due(
            source.display.display_generation,
            now,
            next_feedback_at,
        ),
        counters.sent < u64::MAX ==> counters.after_sending(source, true).sent == counters.sent
            + 1,
        counters.after_sending(source, true).send_errors == counters.send_errors,
        counters.after_sending(source, true).sequence == counters.sequence,
        counters.send_errors < u64::MAX ==> counters.after_sending(source, false).send_errors
            == counters.send_errors + 1,
        counters.after_sending(source, false).sent == counters.sent,
        counters.after_sending(source, false).last_display_generation
            == counters.last_display_generation,
        counters.after_sending(source, false).sequence == counters.sequence,
{
}

/// The feedback tells the session, the display, the measurements and the readiness as they
/// are, and of each count what was added since the last feedback that was sent.
pub proof fn law_feedback_tells_the_state(
    counters: CapabilityFeedbackCounters,
    before: CapabilityFeedbackSource,
    source: CapabilityFeedbackSource,
    session_id: u64,
    metrics: FeedbackMetrics,
    timestamp_us: u64,
)
    requires
        before.decode_queue_drops_total <= source.decode_queue_drops_total,
        before.render_replacements_total <= source.render_replacements_total,
        before.repair_deadline_missed_total <= source.repair_deadline_missed_total,
        before.damaged_gop_total <= source.damaged_gop_total,
        before.packets_lost_total <= source.packets_lost_total,
    ensures
        ({
            let told = counters.after_sending(before, true).message(
                source,
                session_id,
                metrics,
                timestamp_us,
            );
            &&& told.version == 2
            &&& told.session_id == session_id
            &&& told.feedback_sequence == counters.sequence
            &&& told.timestamp_us == timestamp_us
            &&& told.profile_generation == source.profile_generation
            &&& told.display_generation == source.display.display_generation
            &&& told.display_width == source.display.display_width
            &&& told.display_height == source.display.display_height
            &&& told.display_refresh_numerator == source.display.refresh_numerator
            &&& told.display_refresh_denominator >= 1
            &&& (source.display.refresh_denominator >= 1 ==> told.display_refresh_denominator
                == source.display.refresh_denominator)
            &&& told.present_fps_measured == metrics.present_fps_measured
            &&& told.present_interval_p95_ms == metrics.present_interval_p95_ms
            &&& told.active_render_fps == metrics.active_render_fps
            &&& told.decoder_input_fps == metrics.decoder_input_fps
            &&& told.decode_queue_drops_delta == source.decode_queue_drops_total
                - before.decode_queue_drops_total
            &&& told.render_replacements_delta == source.render_replacements_total
                - before.render_replacements_total
            &&& told.repair_deadline_missed_delta == source.repair_deadline_missed_total
                - before.repair_deadline_missed_total
            &&& told.damaged_gop_delta == source.damaged_gop_total - before.damaged_gop_total
            &&& told.packets_lost_delta == source.packets_lost_total - before.packets_lost_total
            &&& told.valid_feedback_windows == source.transition.valid_feedback_windows
            &&& told.transition_settle_windows == source.transition.transition_settle_windows
            &&& told.transition_settle_duration_ms
                == source.transition.transition_settle_duration_ms
            &&& told.profile_transition_started_us
                == source.transition.profile_transition_started_us
        }),
        bits_tell(
            counters.message(source, session_id, metrics, timestamp_us).state_flags,
            source.transition,
        ),
{
    law_flags_carry_the_state(source);
}

/// The bits of the flags, each by the state that it stands for.
pub open spec fn bits_tell(flags: u32, t: TransitionSnapshot) -> bool {
    &&& (flags & 0x01 != 0) == t.feedback_sample_eligible
    &&& (flags & 0x02 != 0) == t.render_ready
    &&& (flags & 0x04 != 0) == t.profile_settled
    &&& (flags & 0x08 != 0) == t.first_idr_decoded
    &&& (flags & 0x10 != 0) == t.first_frame_rendered
    &&& (flags & 0x20 != 0) == t.profile_transition_active
    &&& (flags & 0x40 != 0) == t.profile_acknowledged
}

} // verus!
