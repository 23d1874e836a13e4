//! The state of a sender: the session and profile that it sends, what it knows of the
//! receiving end, and what it changes.
//!
//! Times are nanoseconds of a monotonic clock, unless their names say otherwise.
//! Counters stop at their maximum.

use vstd::prelude::*;

use crate::media_control::{
    CapabilityFeedback, CapabilityFeedbackTracker, ProfileChange, TrackerModel,
    CAPABILITY_FEEDBACK_VERSION, FEEDBACK_FLAG_FIRST_FRAME_RENDERED,
    FEEDBACK_FLAG_FIRST_IDR_DECODED, FEEDBACK_FLAG_PROFILE_ACKNOWLEDGED,
    FEEDBACK_FLAG_PROFILE_SETTLED, FEEDBACK_FLAG_PROFILE_TRANSITION_ACTIVE,
    FEEDBACK_FLAG_RENDER_READY,
};
use crate::media_packet::{FLAG_CONFIG, FLAG_H264_ANNEX_B, FLAG_KEYFRAME};
use crate::pacer::PacingCounters;
use crate::real_number::Real;
use crate::receiver_stats::TimingMetric;
use crate::sender_control::ControlCounters;
use crate::text;
use crate::text::same_text;
use crate::transition_book;
use crate::transition_book::{
    announce_change, ActionKind, QualityProfile, TransitionBook, SETTLE_WINDOWS,
};

verus! {

/// What the controller of the quality wants.
#[derive(Debug)]
pub enum AdaptiveAction<T> {
    SetBitrate { bitrate_mbps: Real, reason: T },
    SetResolution { width: u32, height: u32, reason: T },
    SetFps { fps: u32, reason: T },
}

impl<T> AdaptiveAction<T> {
    pub open spec fn kind_of(self) -> ActionKind {
        match self {
            AdaptiveAction::SetBitrate { .. } => ActionKind::Bitrate,
            AdaptiveAction::SetResolution { .. } => ActionKind::Resolution,
            AdaptiveAction::SetFps { .. } => ActionKind::Fps,
        }
    }

    /// What the action changes.
    pub fn kind(&self) -> (r: ActionKind)
        ensures
            r == self.kind_of(),
    {
        match self {
            AdaptiveAction::SetBitrate { .. } => ActionKind::Bitrate,
            AdaptiveAction::SetResolution { .. } => ActionKind::Resolution,
            AdaptiveAction::SetFps { .. } => ActionKind::Fps,
        }
    }
}

/// Whether an action changes the pictures themselves, so that the encoder must begin anew.
pub fn adaptive_action_changes_video_structure(action: &AdaptiveAction<String>) -> (r: bool)
    ensures
        r == (action.kind_of() != ActionKind::Bitrate),
{
    match action {
        AdaptiveAction::SetBitrate { .. } => false,
        AdaptiveAction::SetResolution { .. } | AdaptiveAction::SetFps { .. } => true,
    }
}

/// An action that waits to be carried out, and the profile that it leads to.
#[derive(Clone, Copy, Debug, PartialEq, Eq, Structural)]
pub struct PendingAction {
    pub kind: ActionKind,
    pub bitrate_mbps: Real,
    pub profile: QualityProfile,
}

/// What the capture pipeline is told to do.
#[derive(Clone, Copy, Debug, PartialEq, Eq, Structural)]
pub enum PipelineControl {
    Continue,
    Restart,
    UpdateBitrate(Real),
}

/// What this end knows of the receiving one.
#[derive(Clone, Copy, Debug)]
pub struct ReceiverView {
    pub profile_acknowledged: bool,
    pub first_idr_decoded: bool,
    pub first_frame_rendered: bool,
    pub valid_feedback_windows: u32,
    pub render_ready: bool,
    pub profile_settled: bool,
    /// What it says now may steer the quality.
    pub sample_eligible: bool,
    /// Why it may not.
    pub ineligible_reason: Option<&'static str>,
    pub feedback_ignored: u64,
    pub settle_windows: u32,
    /// How long the transition has been settling.
    pub settle_duration: u64,
}

/// Feedback on the profile that is being sent.
pub open spec fn is_current(feedback: Option<CapabilityFeedback>, generation: u64) -> bool {
    feedback matches Some(f) && f.version >= CAPABILITY_FEEDBACK_VERSION && f.profile_generation
        == generation
}

/// A fresh feedback that carries a flag.
pub open spec fn says(feedback: Option<CapabilityFeedback>, flag: u32) -> bool {
    feedback matches Some(f) && f.flagged(flag)
}

fn feedback_is_current(feedback: &Option<CapabilityFeedback>, generation: u64) -> (r: bool)
    ensures
        r == is_current(*feedback, generation),
{
    match feedback {
        Some(f) => f.version >= CAPABILITY_FEEDBACK_VERSION && f.profile_generation == generation,
        None => false,
    }
}

fn feedback_says(feedback: &Option<CapabilityFeedback>, flag: u32) -> (r: bool)
    ensures
        r == says(*feedback, flag),
{
    match feedback {
        Some(f) => f.has_flag(flag),
        None => false,
    }
}

impl ReceiverView {
    pub open spec fn initial() -> ReceiverView {
        ReceiverView {
            profile_acknowledged: false,
            first_idr_decoded: false,
            first_frame_rendered: false,
            valid_feedback_windows: 0,
            render_ready: false,
            profile_settled: false,
            sample_eligible: false,
            ineligible_reason: Some("receiver-startup"),
            feedback_ignored: 0,
            settle_windows: 0,
            settle_duration: 0,
        }
    }

    /// Nothing is known yet.
    pub fn new() -> (r: ReceiverView)
        ensures
            r == Self::initial(),
    {
        ReceiverView {
            profile_acknowledged: false,
            first_idr_decoded: false,
            first_frame_rendered: false,
            valid_feedback_windows: 0,
            render_ready: false,
            profile_settled: false,
            sample_eligible: false,
            ineligible_reason: Some("receiver-startup"),
            feedback_ignored: 0,
            settle_windows: 0,
            settle_duration: 0,
        }
    }

    /// What is known once a new profile is sent: nothing.
    pub open spec fn reset(self) -> ReceiverView {
        ReceiverView {
            ineligible_reason: Some("profile-transition"),
            feedback_ignored: self.feedback_ignored,
            ..Self::initial()
        }
    }

    /// What fresh feedback shows; feedback on another profile shows nothing.
    pub open spec fn seen(
        self,
        feedback: Option<CapabilityFeedback>,
        generation: u64,
    ) -> ReceiverView {
        let current = is_current(feedback, generation);
        ReceiverView {
            profile_acknowledged: current && says(feedback, FEEDBACK_FLAG_PROFILE_ACKNOWLEDGED),
            first_idr_decoded: current && says(feedback, FEEDBACK_FLAG_FIRST_IDR_DECODED),
            first_frame_rendered: current && says(feedback, FEEDBACK_FLAG_FIRST_FRAME_RENDERED),
            valid_feedback_windows: if current {
                (feedback->0).valid_feedback_windows
            } else {
                0
            },
            render_ready: current && says(feedback, FEEDBACK_FLAG_RENDER_READY),
            profile_settled: current && says(feedback, FEEDBACK_FLAG_PROFILE_SETTLED),
            ..self
        }
    }

    /// Takes what fresh feedback shows.
    fn see(&mut self, feedback: &Option<CapabilityFeedback>, generation: u64)
        ensures
            *final(self) == old(self).seen(*feedback, generation),
    {
        let current: bool = feedback_is_current(feedback, generation);
        self.profile_acknowledged = current && feedback_says(
            feedback,
            FEEDBACK_FLAG_PROFILE_ACKNOWLEDGED,
        );
        self.first_idr_decoded = current && feedback_says(
            feedback,
            FEEDBACK_FLAG_FIRST_IDR_DECODED,
        );
        self.first_frame_rendered = current && feedback_says(
            feedback,
            FEEDBACK_FLAG_FIRST_FRAME_RENDERED,
        );
        self.valid_feedback_windows = match feedback {
            Some(f) => if current {
                f.valid_feedback_windows
            } else {
                0
            },
            None => 0,
        };
        self.render_ready = current && feedback_says(feedback, FEEDBACK_FLAG_RENDER_READY);
        self.profile_settled = current && feedback_says(feedback, FEEDBACK_FLAG_PROFILE_SETTLED);
    }

    /// Whether the other end is done with the new profile.
    pub open spec fn has_settled(self, feedback: Option<CapabilityFeedback>) -> bool {
        self.profile_acknowledged && self.first_idr_decoded && self.first_frame_rendered
            && self.profile_settled && !says(feedback, FEEDBACK_FLAG_PROFILE_TRANSITION_ACTIVE) && (
        feedback matches Some(f) && f.transition_settle_windows >= SETTLE_WINDOWS)
    }

    fn settled(&self, feedback: &Option<CapabilityFeedback>) -> (r: bool)
        ensures
            r == self.has_settled(*feedback),
    {
        let windows: bool = match feedback {
            Some(f) => f.transition_settle_windows >= SETTLE_WINDOWS,
            None => false,
        };
        self.profile_acknowledged && self.first_idr_decoded && self.first_frame_rendered
            && self.profile_settled && !feedback_says(
            feedback,
            FEEDBACK_FLAG_PROFILE_TRANSITION_ACTIVE,
        ) && windows
    }

    /// Whether what the other end says may steer the quality.
    pub open spec fn is_eligible(
        self,
        feedback: Option<CapabilityFeedback>,
        generation: u64,
        transition_active: bool,
    ) -> bool {
        &&& is_current(feedback, generation)
        &&& (feedback->0).eligible()
        &&& self.profile_acknowledged
        &&& self.first_idr_decoded
        &&& self.first_frame_rendered
        &&& self.render_ready
        &&& self.profile_settled
        &&& (feedback->0).valid_feedback_windows >= 3
        &&& !says(feedback, FEEDBACK_FLAG_PROFILE_TRANSITION_ACTIVE)
        &&& !transition_active
    }

    /// Why it may not: the first thing that is missing.
    pub open spec fn obstacle(
        self,
        feedback: Option<CapabilityFeedback>,
        generation: u64,
        transition_active: bool,
    ) -> Option<&'static str> {
        if self.is_eligible(feedback, generation, transition_active) {
            None
        } else if feedback is None {
            Some("feedback-stale-or-missing")
        } else if (feedback->0).version < CAPABILITY_FEEDBACK_VERSION {
            Some("legacy-feedback-without-readiness")
        } else if !is_current(feedback, generation) {
            Some("feedback-profile-generation-mismatch")
        } else if transition_active || says(feedback, FEEDBACK_FLAG_PROFILE_TRANSITION_ACTIVE) {
            Some("profile-transition")
        } else if !self.profile_acknowledged {
            Some("receiver-profile-not-acknowledged")
        } else if !self.first_idr_decoded {
            Some("receiver-waiting-first-idr")
        } else if !self.first_frame_rendered {
            Some("receiver-waiting-first-frame")
        } else if !self.render_ready {
            Some("receiver-render-not-ready")
        } else if (feedback->0).valid_feedback_windows < 3 {
            Some("receiver-valid-window-warmup")
        } else {
            Some("receiver-profile-not-settled")
        }
    }

    pub open spec fn judged(
        self,
        feedback: Option<CapabilityFeedback>,
        generation: u64,
        transition_active: bool,
    ) -> ReceiverView {
        ReceiverView {
            sample_eligible: self.is_eligible(feedback, generation, transition_active),
            ineligible_reason: self.obstacle(feedback, generation, transition_active),
            ..self
        }
    }

    /// Decides whether what the other end says may steer the quality.
    fn judge(
        &mut self,
        feedback: &Option<CapabilityFeedback>,
        generation: u64,
        transition_active: bool,
    )
        ensures
            *final(self) == old(self).judged(*feedback, generation, transition_active),
    {
        let f: CapabilityFeedback = match feedback {
            Some(f) => *f,
            None => {
                self.sample_eligible = false;
                self.ineligible_reason = Some("feedback-stale-or-missing");
                return ;
            },
        };
        let changing: bool = transition_active || feedback_says(
            feedback,
            FEEDBACK_FLAG_PROFILE_TRANSITION_ACTIVE,
        );
        let current: bool = feedback_is_current(feedback, generation);
        let eligible: bool = current && f.sample_eligible() && self.profile_acknowledged
            && self.first_idr_decoded && self.first_frame_rendered && self.render_ready
            && self.profile_settled && f.valid_feedback_windows >= 3 && !changing;
        self.sample_eligible = eligible;
        self.ineligible_reason = if eligible {
            None
        } else if f.version < CAPABILITY_FEEDBACK_VERSION {
            Some("legacy-feedback-without-readiness")
        } else if !current {
            Some("feedback-profile-generation-mismatch")
        } else if changing {
            Some("profile-transition")
        } else if !self.profile_acknowledged {
            Some("receiver-profile-not-acknowledged")
        } else if !self.first_idr_decoded {
            Some("receiver-waiting-first-idr")
        } else if !self.first_frame_rendered {
            Some("receiver-waiting-first-frame")
        } else if !self.render_ready {
            Some("receiver-render-not-ready")
        } else if f.valid_feedback_windows < 3 {
            Some("receiver-valid-window-warmup")
        } else {
            Some("receiver-profile-not-settled")
        };
    }
}

/// The session and profile that are being sent.
#[derive(Clone, Copy, Debug, PartialEq, Eq, Structural)]
pub struct SessionState {
    pub session_id: u64,
    pub old_session_id: Option<u64>,
    pub generation: u64,
    pub change_sequence: u64,
    pub next_frame_id: u64,
    pub target_fps: u32,
    pub keyframe_target_frames: u32,
    pub last_idr_frame_id: Option<u64>,
    pub change_started_us: Option<u64>,
    pub change_completed_us: Option<u64>,
    pub change_started_at: Option<u64>,
    pub change_duration: u64,
    pub change_idr_frame_id: Option<u64>,
    pub reconfigured: bool,
    pub profile_started_at: u64,
    pub profile_frames_start: u64,
    pub profile_bytes_start: u64,
}

impl SessionState {
    pub open spec fn initial(
        session_id: u64,
        target_fps: u32,
        keyframe_target_frames: u32,
        now: u64,
    ) -> SessionState {
        SessionState {
            session_id,
            old_session_id: None,
            generation: 0,
            change_sequence: 0,
            next_frame_id: 0,
            target_fps,
            keyframe_target_frames,
            last_idr_frame_id: None,
            change_started_us: None,
            change_completed_us: None,
            change_started_at: None,
            change_duration: 0,
            change_idr_frame_id: None,
            reconfigured: false,
            profile_started_at: now,
            profile_frames_start: 0,
            profile_bytes_start: 0,
        }
    }

    /// A sender that begins to send a session.
    pub fn new(session_id: u64, target_fps: u32, keyframe_target_frames: u32, now: u64) -> (r:
        SessionState)
        ensures
            r == Self::initial(session_id, target_fps, keyframe_target_frames, now),
    {
        SessionState {
            session_id,
            old_session_id: None,
            generation: 0,
            change_sequence: 0,
            next_frame_id: 0,
            target_fps,
            keyframe_target_frames,
            last_idr_frame_id: None,
            change_started_us: None,
            change_completed_us: None,
            change_started_at: None,
            change_duration: 0,
            change_idr_frame_id: None,
            reconfigured: false,
            profile_started_at: now,
            profile_frames_start: 0,
            profile_bytes_start: 0,
        }
    }

    /// The session once the other end has agreed to a change: frames are counted anew, and
    /// nothing of the new pictures has been sent.
    pub open spec fn switched(self, switch: Switch) -> SessionState {
        SessionState {
            session_id: switch.change.new_session_id,
            old_session_id: Some(self.session_id),
            generation: switch.change.profile_generation,
            change_sequence: self.change_sequence,
            next_frame_id: 0,
            target_fps: switch.change.fps,
            keyframe_target_frames: switch.keyframe_target_frames,
            last_idr_frame_id: None,
            change_started_us: Some(switch.change.timestamp_us),
            change_completed_us: None,
            change_started_at: Some(switch.started_at),
            change_duration: 0,
            change_idr_frame_id: None,
            reconfigured: false,
            profile_started_at: switch.started_at,
            profile_frames_start: switch.frames_sent,
            profile_bytes_start: switch.bytes_sent,
        }
    }

    /// The time since the change began.
    pub open spec fn since_change(self, now: u64) -> Option<u64> {
        match self.change_started_at {
            Some(started) => Some(now.saturating_sub(started)),
            None => None,
        }
    }
}

/// A change of profile that the other end has agreed to.
#[derive(Clone, Copy, Debug, PartialEq, Eq, Structural)]
pub struct Switch {
    pub change: ProfileChange,
    pub kind: ActionKind,
    pub keyframe_target_frames: u32,
    pub started_at: u64,
    /// What had been sent when it began.
    pub frames_sent: u64,
    pub bytes_sent: u64,
}

/// The last change of the bit rate.
#[derive(Debug)]
pub struct BitrateUpdate<T> {
    pub requested_mbps: Option<Real>,
    pub applied_mbps: Option<Real>,
    pub method: &'static str,
    pub success: Option<bool>,
    pub error: Option<T>,
    pub started_at: Option<u64>,
    pub old_mbps: Real,
    pub latency: u64,
    pub idr_requested: bool,
    pub fallback_to_full_transition: bool,
}

impl View for BitrateUpdate<String> {
    type V = BitrateUpdate<Seq<char>>;

    open spec fn view(&self) -> BitrateUpdate<Seq<char>> {
        BitrateUpdate {
            requested_mbps: self.requested_mbps,
            applied_mbps: self.applied_mbps,
            method: self.method,
            success: self.success,
            error: text::optional(self.error),
            started_at: self.started_at,
            old_mbps: self.old_mbps,
            latency: self.latency,
            idr_requested: self.idr_requested,
            fallback_to_full_transition: self.fallback_to_full_transition,
        }
    }
}

/// What has been sent of the encoder's work.
#[derive(Clone, Copy, Debug, PartialEq, Eq, Structural)]
pub struct SampleState {
    pub h264_bytes: u64,
    pub keyframes: u64,
    pub idr_frames: u64,
    pub sps_pps_repeated: u64,
    pub idr_interval_frames_total: u64,
    pub idr_interval_count: u64,
    pub config_frames: u64,
    pub first_media_timestamp_us: Option<u64>,
    pub last_video_timestamp_us: Option<u64>,
}

impl SampleState {
    pub open spec fn initial() -> SampleState {
        SampleState {
            h264_bytes: 0,
            keyframes: 0,
            idr_frames: 0,
            sps_pps_repeated: 0,
            idr_interval_frames_total: 0,
            idr_interval_count: 0,
            config_frames: 0,
            first_media_timestamp_us: None,
            last_video_timestamp_us: None,
        }
    }

    pub fn new() -> (r: SampleState)
        ensures
            r == Self::initial(),
    {
        SampleState {
            h264_bytes: 0,
            keyframes: 0,
            idr_frames: 0,
            sps_pps_repeated: 0,
            idr_interval_frames_total: 0,
            idr_interval_count: 0,
            config_frames: 0,
            first_media_timestamp_us: None,
            last_video_timestamp_us: None,
        }
    }
}

/// What an encoded picture holds.
#[derive(Clone, Copy, Debug, PartialEq, Eq, Structural)]
pub struct SampleContents {
    /// The encoder calls it a keyframe.
    pub keyframe: bool,
    pub has_idr_slice: bool,
    pub has_sps: bool,
    pub has_pps: bool,
}

/// How the encoder was told to make keyframes.
#[derive(Debug)]
pub struct KeyframeControl<T> {
    pub configured: bool,
    pub force_supported: bool,
    pub config_method: T,
    pub config_applied: bool,
    pub config_error: Option<T>,
}

impl View for KeyframeControl<String> {
    type V = KeyframeControl<Seq<char>>;

    open spec fn view(&self) -> KeyframeControl<Seq<char>> {
        KeyframeControl {
            configured: self.configured,
            force_supported: self.force_supported,
            config_method: self.config_method@,
            config_applied: self.config_applied,
            config_error: text::optional(self.config_error),
        }
    }
}

/// What became of a look at the receiving end.
#[derive(Debug)]
pub enum Refresh<T> {
    /// No transition came to an end.
    Steady,
    /// The transition is settled.
    Settled,
    /// The transition could not be settled.
    CommitFailed(T),
    /// The transition took too long.
    TimedOut(T),
}

impl View for Refresh<String> {
    type V = Refresh<Seq<char>>;

    open spec fn view(&self) -> Refresh<Seq<char>> {
        match self {
            Refresh::Steady => Refresh::Steady,
            Refresh::Settled => Refresh::Settled,
            Refresh::CommitFailed(error) => Refresh::CommitFailed(error@),
            Refresh::TimedOut(error) => Refresh::TimedOut(error@),
        }
    }
}

/// The state of a sender.
#[derive(Debug)]
pub struct SenderState<T> {
    pub session: SessionState,
    pub receiver: ReceiverView,
    pub samples: SampleState,
    pub keyframe_control: KeyframeControl<T>,
    pub change_reason: Option<T>,
    pub reconfigure_error: Option<T>,
    pub bitrate: BitrateUpdate<T>,
    pub book: TransitionBook<T>,
    pub pending: Option<PendingAction>,
}

impl View for SenderState<String> {
    type V = SenderState<Seq<char>>;

    open spec fn view(&self) -> SenderState<Seq<char>> {
        SenderState {
            session: self.session,
            receiver: self.receiver,
            samples: self.samples,
            keyframe_control: self.keyframe_control@,
            change_reason: text::optional(self.change_reason),
            reconfigure_error: text::optional(self.reconfigure_error),
            bitrate: self.bitrate@,
            book: self.book@,
            pending: self.pending,
        }
    }
}

impl SenderState<Seq<char>> {
    pub open spec fn initial(session: SessionState, bitrate_mbps: Real) -> SenderState<Seq<char>> {
        SenderState {
            session,
            receiver: ReceiverView::initial(),
            samples: SampleState::initial(),
            keyframe_control: KeyframeControl {
                configured: false,
                force_supported: false,
                config_method: "uninitialized"@,
                config_applied: false,
                config_error: None,
            },
            change_reason: None,
            reconfigure_error: None,
            bitrate: BitrateUpdate {
                requested_mbps: None,
                applied_mbps: None,
                method: "none",
                success: None,
                error: None,
                started_at: None,
                old_mbps: bitrate_mbps,
                latency: 0,
                idr_requested: false,
                fallback_to_full_transition: false,
            },
            book: TransitionBook::initial(),
            pending: None,
        }
    }

    /// A change was announced: the next one gets a number of its own.
    pub open spec fn with_next_change(self) -> SenderState<Seq<char>> {
        SenderState {
            session: SessionState {
                change_sequence: self.session.change_sequence.saturating_add(1),
                ..self.session
            },
            ..self
        }
    }

    /// The other end agreed, and the new session begins.
    pub open spec fn switched(
        self,
        switch: Switch,
        dimension: Seq<char>,
        reason: Seq<char>,
    ) -> SenderState<Seq<char>> {
        SenderState {
            session: self.session.switched(switch),
            receiver: self.receiver.reset(),
            change_reason: Some(dimension + ":"@ + reason),
            reconfigure_error: None,
            bitrate: if switch.kind == ActionKind::Bitrate {
                BitrateUpdate { method: "encoder-rebuild", success: Some(false), ..self.bitrate }
            } else {
                self.bitrate
            },
            book: TransitionBook { active: true, first_idr_ready: false, ..self.book },
            ..self
        }
    }

    /// What the receiver's view is while the transition goes on.
    pub open spec fn with_settling(
        self,
        feedback: Option<CapabilityFeedback>,
        now: u64,
    ) -> SenderState<
        Seq<char>,
    > {
        if self.book.active && feedback is Some {
            SenderState {
                receiver: ReceiverView {
                    feedback_ignored: self.receiver.feedback_ignored.saturating_add(1),
                    settle_windows: (feedback->0).transition_settle_windows,
                    settle_duration: match self.session.since_change(now) {
                        Some(duration) => duration,
                        None => 0,
                    },
                    ..self.receiver
                },
                ..self
            }
        } else {
            self
        }
    }

    /// The transition is settled.
    pub open spec fn with_settled(self, feedback: CapabilityFeedback, now: u64) -> SenderState<
        Seq<char>,
    > {
        SenderState {
            receiver: ReceiverView {
                settle_windows: feedback.transition_settle_windows,
                settle_duration: match self.session.since_change(now) {
                    Some(duration) => duration,
                    None => (feedback.transition_settle_duration_ms * 1_000_000) as u64,
                },
                ..self.receiver
            },
            book: self.book.ended(),
            ..self
        }
    }

    pub open spec fn with_seen(
        self,
        feedback: Option<CapabilityFeedback>,
    ) -> SenderState<Seq<char>> {
        SenderState {
            receiver: self.receiver.seen(feedback, self.session.generation),
            ..self
        }
    }

    pub open spec fn with_judgement(
        self,
        feedback: Option<CapabilityFeedback>,
    ) -> SenderState<Seq<char>> {
        SenderState {
            receiver: self.receiver.judged(feedback, self.session.generation, self.book.active),
            ..self
        }
    }

    /// A transition is under way, and the other end is done with the new profile.
    pub open spec fn settles(self, feedback: Option<CapabilityFeedback>) -> bool {
        self.book.active && self.with_seen(feedback).receiver.has_settled(feedback)
    }

    /// What comes of a look at the receiving end.
    pub open spec fn refresh_result(
        self,
        feedback: Option<CapabilityFeedback>,
        commit: Result<(), Seq<char>>,
        overdue: Option<Seq<char>>,
    ) -> Refresh<Seq<char>> {
        if self.settles(feedback) {
            match commit {
                Err(error) => Refresh::CommitFailed(error),
                Ok(_) => Refresh::Settled,
            }
        } else if self.book.active {
            match overdue {
                Some(reason) => Refresh::TimedOut(reason),
                None => Refresh::Steady,
            }
        } else {
            Refresh::Steady
        }
    }

    /// The state after a look at the receiving end.
    pub open spec fn refreshed(
        self,
        feedback: Option<CapabilityFeedback>,
        commit: Result<(), Seq<char>>,
        overdue: Option<Seq<char>>,
        ready_stage: Seq<char>,
        stage: Seq<char>,
        now: u64,
    ) -> SenderState<Seq<char>> {
        let seen = self.with_seen(feedback);
        match self.refresh_result(feedback, commit, overdue) {
            Refresh::CommitFailed(error) => SenderState {
                book: seen.book.with_failure(ready_stage, error, false).ended(),
                ..seen
            },
            Refresh::Settled => seen.with_settled(feedback->0, now).with_judgement(feedback),
            Refresh::TimedOut(reason) => {
                let settling = seen.with_settling(feedback, now);
                SenderState {
                    book: settling.book.with_failure(stage, reason, true).ended(),
                    ..settling
                }
            },
            Refresh::Steady => seen.with_settling(feedback, now).with_judgement(feedback),
        }
    }

    /// The run ends while a transition may be under way.
    pub open spec fn transition_failed(self, stage: Seq<char>, reason: Seq<char>) -> SenderState<
        Seq<char>,
    > {
        if self.book.active {
            SenderState {
                book: self.book.failed_by(stage, reason),
                receiver: ReceiverView {
                    sample_eligible: false,
                    ineligible_reason: Some("profile-transition-failed"),
                    ..self.receiver
                },
                ..self
            }
        } else {
            self
        }
    }

    /// The pipeline has begun to run.
    pub open spec fn started(
        self,
        control: KeyframeControl<Seq<char>>,
        target_frames: Option<u32>,
    ) -> SenderState<Seq<char>> {
        let rebuilt = self.session.change_sequence > 0;
        SenderState {
            keyframe_control: control,
            session: SessionState {
                keyframe_target_frames: match target_frames {
                    Some(frames) => frames,
                    None => self.session.keyframe_target_frames,
                },
                reconfigured: rebuilt || self.session.reconfigured,
                ..self.session
            },
            reconfigure_error: if rebuilt {
                None
            } else {
                self.reconfigure_error
            },
            bitrate: if rebuilt && self.bitrate.method@ == "encoder-rebuild"@ {
                BitrateUpdate {
                    applied_mbps: self.bitrate.requested_mbps,
                    success: Some(true),
                    ..self.bitrate
                }
            } else {
                self.bitrate
            },
            ..self
        }
    }

    /// A picture was encoded.
    pub open spec fn with_sample(self, sample: SampleContents) -> SenderState<Seq<char>> {
        let s = self.samples;
        SenderState {
            samples: SampleState {
                keyframes: if sample.keyframe {
                    s.keyframes.saturating_add(1)
                } else {
                    s.keyframes
                },
                idr_interval_frames_total: if sample.has_idr_slice
                    && self.session.last_idr_frame_id is Some {
                    s.idr_interval_frames_total.saturating_add(
                        self.session.next_frame_id.saturating_sub(
                            self.session.last_idr_frame_id->0,
                        ),
                    )
                } else {
                    s.idr_interval_frames_total
                },
                idr_interval_count: if sample.has_idr_slice && self.session.last_idr_frame_id
                    is Some {
                    s.idr_interval_count.saturating_add(1)
                } else {
                    s.idr_interval_count
                },
                idr_frames: if sample.has_idr_slice {
                    s.idr_frames.saturating_add(1)
                } else {
                    s.idr_frames
                },
                sps_pps_repeated: if sample.has_idr_slice && !(sample.has_sps && sample.has_pps) {
                    s.sps_pps_repeated.saturating_add(1)
                } else {
                    s.sps_pps_repeated
                },
                ..s
            },
            session: SessionState {
                last_idr_frame_id: if sample.has_idr_slice {
                    Some(self.session.next_frame_id)
                } else {
                    self.session.last_idr_frame_id
                },
                ..self.session
            },
            book: TransitionBook {
                first_idr_ready: self.book.first_idr_ready || (sample.keyframe
                    && self.book.active),
                ..self.book
            },
            ..self
        }
    }

    /// A picture is about to be sent with its parameter sets.
    pub open spec fn with_stamp(
        self,
        has_config: bool,
        timestamp_us: u64,
        on_clock: bool,
    ) -> SenderState<
        Seq<char>,
    > {
        let s = self.samples;
        SenderState {
            samples: SampleState {
                config_frames: if has_config {
                    s.config_frames.saturating_add(1)
                } else {
                    s.config_frames
                },
                first_media_timestamp_us: if on_clock && s.first_media_timestamp_us is None {
                    Some(timestamp_us)
                } else {
                    s.first_media_timestamp_us
                },
                last_video_timestamp_us: if on_clock {
                    Some(timestamp_us)
                } else {
                    s.last_video_timestamp_us
                },
                ..s
            },
            ..self
        }
    }

    /// A picture was handed to the pacer.
    pub open spec fn with_enqueued(
        self,
        is_idr: bool,
        length: usize,
        timestamp_us: u64,
        now: u64,
    ) -> SenderState<Seq<char>> {
        let completes = is_idr && self.session.change_sequence > 0
            && self.session.change_idr_frame_id is None;
        SenderState {
            session: SessionState {
                change_idr_frame_id: if completes {
                    Some(self.session.next_frame_id)
                } else {
                    self.session.change_idr_frame_id
                },
                change_completed_us: if completes {
                    Some(timestamp_us)
                } else {
                    self.session.change_completed_us
                },
                change_duration: if completes {
                    match self.session.since_change(now) {
                        Some(duration) => duration,
                        None => 0,
                    }
                } else {
                    self.session.change_duration
                },
                next_frame_id: self.session.next_frame_id.saturating_add(1),
                ..self.session
            },
            samples: SampleState {
                h264_bytes: self.samples.h264_bytes.saturating_add(length as u64),
                ..self.samples
            },
            ..self
        }
    }

    /// What the pipeline is to do.
    pub open spec fn control(self) -> PipelineControl {
        match self.pending {
            Some(action) => if action.kind == ActionKind::Bitrate {
                PipelineControl::UpdateBitrate(action.bitrate_mbps)
            } else {
                PipelineControl::Restart
            },
            None => PipelineControl::Continue,
        }
    }

    pub open spec fn control_taken(
        self,
        target_mbps: Option<Real>,
        now: u64,
    ) -> SenderState<Seq<char>> {
        if self.control() is UpdateBitrate {
            SenderState {
                bitrate: BitrateUpdate {
                    old_mbps: match target_mbps {
                        Some(mbps) => mbps,
                        None => self.bitrate.old_mbps,
                    },
                    started_at: Some(now),
                    ..self.bitrate
                },
                ..self
            }
        } else {
            self
        }
    }

    /// The encoder took a new bit rate, or did not.
    pub open spec fn bitrate_updated(
        self,
        requested_mbps: Real,
        result: Result<(), Seq<char>>,
        idr_requested: bool,
        now: u64,
    ) -> SenderState<Seq<char>> {
        let failed = result is Err;
        let error = if failed {
            Some(result->Err_0)
        } else {
            None
        };
        SenderState {
            bitrate: BitrateUpdate {
                requested_mbps: Some(requested_mbps),
                applied_mbps: if failed {
                    None
                } else {
                    Some(requested_mbps)
                },
                method: if failed {
                    "encoder-rebuild"
                } else {
                    "runtime-icodecapi"
                },
                success: Some(!failed),
                error,
                started_at: None,
                old_mbps: self.bitrate.old_mbps,
                latency: match self.bitrate.started_at {
                    Some(started) => now.saturating_sub(started),
                    None => 0,
                },
                idr_requested,
                fallback_to_full_transition: failed,
            },
            session: SessionState { reconfigured: !failed, ..self.session },
            reconfigure_error: error,
            pending: if failed {
                self.pending
            } else {
                None
            },
            ..self
        }
    }
}

/// Whether a decision on the frame rate is a limit that no quality can lift.
pub open spec fn is_hard_limit(source: Seq<char>) -> bool {
    source == "source-display"@ || source == "receiver-display"@ || source
        == "receiver-safe-default"@ || source == "user"@
}

pub fn is_hard_fps_cap(source: &str) -> (r: bool)
    ensures
        r == is_hard_limit(source@),
{
    same_text(source, "source-display") || same_text(source, "receiver-display") || same_text(
        source,
        "receiver-safe-default",
    ) || same_text(source, "user")
}

/// What the controller of the quality is asked.
#[derive(Clone, Copy, Debug)]
pub enum ControllerQuery {
    /// Nothing: an action waits to be carried out.
    Nothing,
    /// The other end has nothing to say, for this reason.
    Ineligible(&'static str),
    /// What to do; `true` where the limit of the frame rate is asked for first.
    Sample(bool),
}

impl SenderState<Seq<char>> {
    pub open spec fn query(self, limit_source: Seq<char>) -> ControllerQuery {
        if self.pending is Some {
            ControllerQuery::Nothing
        } else if !self.receiver.sample_eligible {
            ControllerQuery::Ineligible(
                match self.receiver.ineligible_reason {
                    Some(reason) => reason,
                    None => "feedback-sample-ineligible",
                },
            )
        } else {
            ControllerQuery::Sample(is_hard_limit(limit_source))
        }
    }
}

/// The sum of what was sent and lost when statistics were last written.
#[derive(Clone, Copy, Debug, PartialEq, Eq, Structural)]
pub struct Totals {
    pub packets: u64,
    pub frames: u64,
    pub bytes: u64,
    pub repair_packets: u64,
    pub repair_bytes: u64,
    pub nack_items: u64,
    pub duplicate_repairs: u64,
    pub encode_lag_skips: u64,
    pub capture_dropped: u64,
    pub send_errors: u64,
}

impl Totals {
    pub open spec fn of(
        pacing: PacingCounters,
        control: ControlCounters,
        encode_lag_skips: u64,
        capture_dropped: u64,
    ) -> Totals {
        Totals {
            packets: pacing.packets_sent,
            frames: pacing.frames_sent,
            bytes: pacing.bytes_sent,
            repair_packets: control.repair_packets_resent,
            repair_bytes: control.repair_send_bytes,
            nack_items: control.nack_items_received,
            duplicate_repairs: control.repair_duplicate_packets_resent,
            encode_lag_skips,
            capture_dropped,
            send_errors: pacing.send_errors,
        }
    }

    /// The totals now.
    pub fn now(
        pacing: &PacingCounters,
        control: &ControlCounters,
        encode_lag_skips: u64,
        capture_dropped: u64,
    ) -> (r: Totals)
        ensures
            r == Self::of(*pacing, *control, encode_lag_skips, capture_dropped),
    {
        Totals {
            packets: pacing.packets_sent,
            frames: pacing.frames_sent,
            bytes: pacing.bytes_sent,
            repair_packets: control.repair_packets_resent,
            repair_bytes: control.repair_send_bytes,
            nack_items: control.nack_items_received,
            duplicate_repairs: control.repair_duplicate_packets_resent,
            encode_lag_skips,
            capture_dropped,
            send_errors: pacing.send_errors,
        }
    }

    /// What was added since earlier totals; nothing where a count went back.
    pub open spec fn minus(self, earlier: Totals) -> Totals {
        Totals {
            packets: self.packets.saturating_sub(earlier.packets),
            frames: self.frames.saturating_sub(earlier.frames),
            bytes: self.bytes.saturating_sub(earlier.bytes),
            repair_packets: self.repair_packets.saturating_sub(earlier.repair_packets),
            repair_bytes: self.repair_bytes.saturating_sub(earlier.repair_bytes),
            nack_items: self.nack_items.saturating_sub(earlier.nack_items),
            duplicate_repairs: self.duplicate_repairs.saturating_sub(earlier.duplicate_repairs),
            encode_lag_skips: self.encode_lag_skips.saturating_sub(earlier.encode_lag_skips),
            capture_dropped: self.capture_dropped.saturating_sub(earlier.capture_dropped),
            send_errors: self.send_errors.saturating_sub(earlier.send_errors),
        }
    }

    pub fn since(&self, earlier: &Totals) -> (r: Totals)
        ensures
            r == self.minus(*earlier),
    {
        Totals {
            packets: self.packets.saturating_sub(earlier.packets),
            frames: self.frames.saturating_sub(earlier.frames),
            bytes: self.bytes.saturating_sub(earlier.bytes),
            repair_packets: self.repair_packets.saturating_sub(earlier.repair_packets),
            repair_bytes: self.repair_bytes.saturating_sub(earlier.repair_bytes),
            nack_items: self.nack_items.saturating_sub(earlier.nack_items),
            duplicate_repairs: self.duplicate_repairs.saturating_sub(earlier.duplicate_repairs),
            encode_lag_skips: self.encode_lag_skips.saturating_sub(earlier.encode_lag_skips),
            capture_dropped: self.capture_dropped.saturating_sub(earlier.capture_dropped),
            send_errors: self.send_errors.saturating_sub(earlier.send_errors),
        }
    }
}

/// How far apart two times are.
pub open spec fn apart(a: u64, b: u64) -> u64 {
    if a > b {
        (a - b) as u64
    } else {
        (b - a) as u64
    }
}

/// Notes how far apart sound and pictures are, in microseconds, once both are known.
pub fn update_av_delta(metric: &mut TimingMetric, audio_us: Option<u64>, video_us: Option<u64>)
    ensures
        *final(metric) == match (audio_us, video_us) {
            (Some(audio), Some(video)) => old(metric).with(apart(audio, video)),
            _ => *old(metric),
        },
{
    if let (Some(audio), Some(video)) = (audio_us, video_us) {
        metric.observe(
            if audio > video {
                audio - video
            } else {
                video - audio
            },
        );
    }
}

/// The flags of a picture.
pub open spec fn flags_of(is_idr: bool, has_units: bool, has_config: bool) -> u16 {
    let key = if is_idr {
        FLAG_KEYFRAME
    } else {
        0u16
    };
    let units = if has_units {
        key | FLAG_H264_ANNEX_B
    } else {
        key
    };
    if has_config {
        units | FLAG_CONFIG
    } else {
        units
    }
}

/// The flags of a picture: whether it can be decoded on its own, is made of units, and
/// carries parameter sets.
pub fn sample_flags(is_idr: bool, has_units: bool, has_config: bool) -> (r: u16)
    ensures
        r == flags_of(is_idr, has_units, has_config),
{
    let mut flags: u16 = 0;
    if is_idr {
        flags = FLAG_KEYFRAME;
    }
    if has_units {
        flags = flags | FLAG_H264_ANNEX_B;
    }
    if has_config {
        flags = flags | FLAG_CONFIG;
    }
    flags
}

impl SenderState<String> {
    /// A sender that begins.
    pub fn new(session: SessionState, bitrate_mbps: Real) -> (r: SenderState<String>)
        ensures
            r@ == SenderState::initial(session, bitrate_mbps),
    {
        SenderState {
            session,
            receiver: ReceiverView::new(),
            samples: SampleState::new(),
            keyframe_control: KeyframeControl {
                configured: false,
                force_supported: false,
                config_method: "uninitialized".to_string(),
                config_applied: false,
                config_error: None,
            },
            change_reason: None,
            reconfigure_error: None,
            bitrate: BitrateUpdate {
                requested_mbps: None,
                applied_mbps: None,
                method: "none",
                success: None,
                error: None,
                started_at: None,
                old_mbps: bitrate_mbps,
                latency: 0,
                idr_requested: false,
                fallback_to_full_transition: false,
            },
            book: TransitionBook::new(),
            pending: None,
        }
    }

    /// Writes the message that announces a profile, under the next number.
    pub fn next_change(
        &mut self,
        candidate: u64,
        controller_generation: u64,
        profile: QualityProfile,
        kind: ActionKind,
        timestamp_us: u64,
    ) -> (change: ProfileChange)
        ensures
            final(self)@ == old(self)@.with_next_change(),
            change == transition_book::announced_change(
                old(self).session.session_id,
                candidate,
                final(self).session.change_sequence,
                controller_generation,
                old(self).session.generation,
                profile,
                kind,
                timestamp_us,
            ),
    {
        self.session.change_sequence = self.session.change_sequence.saturating_add(1);
        announce_change(
            self.session.session_id,
            candidate,
            self.session.change_sequence,
            controller_generation,
            self.session.generation,
            profile,
            kind,
            timestamp_us,
        )
    }

    /// Begins the session that the other end has agreed to.  What it said of the old one
    /// is forgotten.
    pub fn switch_session(
        &mut self,
        tracker: &mut CapabilityFeedbackTracker,
        switch: Switch,
        dimension: &str,
        reason: &str,
    )
        ensures
            final(self)@ == old(self)@.switched(switch, dimension@, reason@),
            final(tracker)@ == (TrackerModel {
                latest: None,
                eligible_at: None,
                stale_reported: false,
                ..old(tracker)@
            }),
    {
        tracker.reset_for_session();
        let old_session_id: u64 = self.session.session_id;
        self.session = SessionState {
            session_id: switch.change.new_session_id,
            old_session_id: Some(old_session_id),
            generation: switch.change.profile_generation,
            change_sequence: self.session.change_sequence,
            next_frame_id: 0,
            target_fps: switch.change.fps,
            keyframe_target_frames: switch.keyframe_target_frames,
            last_idr_frame_id: None,
            change_started_us: Some(switch.change.timestamp_us),
            change_completed_us: None,
            change_started_at: Some(switch.started_at),
            change_duration: 0,
            change_idr_frame_id: None,
            reconfigured: false,
            profile_started_at: switch.started_at,
            profile_frames_start: switch.frames_sent,
            profile_bytes_start: switch.bytes_sent,
        };
        let ignored: u64 = self.receiver.feedback_ignored;
        self.receiver = ReceiverView::new();
        self.receiver.ineligible_reason = Some("profile-transition");
        self.receiver.feedback_ignored = ignored;
        self.change_reason = Some(dimension.to_string().concat(":").concat(reason));
        self.reconfigure_error = None;
        if switch.kind == ActionKind::Bitrate {
            self.bitrate.method = "encoder-rebuild";
            self.bitrate.success = Some(false);
        }
        self.book.active = true;
        self.book.first_idr_ready = false;
    }

    /// Whether the transition that is under way can be settled by what the other end said
    /// last, unless that is too old.  Only then is it to be committed before `refresh`.
    pub fn transition_settles(&self, feedback: &Option<CapabilityFeedback>) -> (r: bool)
        ensures
            r == self@.settles(*feedback),
            r == (self.book.active && self.receiver.seen(
                *feedback,
                self.session.generation,
            ).has_settled(*feedback)),
    {
        let mut receiver: ReceiverView = self.receiver;
        receiver.see(feedback, self.session.generation);
        self.book.active && receiver.settled(feedback)
    }

    /// Looks at the receiving end.  `feedback` is what it said last, unless that is too old;
    /// `commit` is what settling the transition gives, where `transition_settles` says that
    /// it can be settled, and `overdue` why it takes too long, where it does.
    pub fn refresh(
        &mut self,
        tracker: &mut CapabilityFeedbackTracker,
        feedback: Option<CapabilityFeedback>,
        commit: &Result<(), String>,
        overdue: Option<&str>,
        ready_stage: &str,
        stage: &str,
        now: u64,
    ) -> (r: Refresh<String>)
        ensures
            r@ == old(self)@.refresh_result(
                feedback,
                text::result(*commit),
                crate::json::optional_view(overdue),
            ),
            final(self)@ == old(self)@.refreshed(
                feedback,
                text::result(*commit),
                crate::json::optional_view(overdue),
                ready_stage@,
                stage@,
                now,
            ),
            final(tracker)@ == if r is Steady {
                old(tracker)@
            } else {
                transition_book::without_grace(old(tracker)@)
            },
    {
        self.receiver.see(&feedback, self.session.generation);
        if self.book.active && self.receiver.settled(&feedback) {
            match commit {
                Err(error) => {
                    self.book.abort(tracker, ready_stage, error.as_str(), false, false);
                    return Refresh::CommitFailed(error.as_str().to_string());
                },
                Ok(_) => {},
            }
            self.book.active = false;
            tracker.clear_transition_grace();
            if let Some(f) = feedback {
                self.note_settled(f, now);
            }
            self.receiver.judge(&feedback, self.session.generation, self.book.active);
            return Refresh::Settled;
        }
        if self.book.active {
            if let Some(f) = feedback {
                self.note_settling(f, now);
            }
            if let Some(reason) = overdue {
                self.book.abort(tracker, stage, reason, true, false);
                return Refresh::TimedOut(reason.to_string());
            }
        }
        self.receiver.judge(&feedback, self.session.generation, self.book.active);
        Refresh::Steady
    }

    fn note_settled(&mut self, feedback: CapabilityFeedback, now: u64)
        requires
            !old(self).book.active,
        ensures
            final(self)@ == old(self)@.with_settled(feedback, now),
    {
        self.receiver.settle_windows = feedback.transition_settle_windows;
        self.receiver.settle_duration = match self.session.change_started_at {
            Some(started) => now.saturating_sub(started),
            None => (feedback.transition_settle_duration_ms as u64) * 1_000_000,
        };
    }

    fn note_settling(&mut self, feedback: CapabilityFeedback, now: u64)
        requires
            old(self).book.active,
        ensures
            final(self)@ == old(self)@.with_settling(Some(feedback), now),
    {
        self.receiver.feedback_ignored = self.receiver.feedback_ignored.saturating_add(1);
        self.receiver.settle_windows = feedback.transition_settle_windows;
        self.receiver.settle_duration = match self.session.change_started_at {
            Some(started) => now.saturating_sub(started),
            None => 0,
        };
    }

    /// What the controller of the quality is to be asked.
    pub fn controller_query(&self, limit_source: &str) -> (r: ControllerQuery)
        ensures
            r == self@.query(limit_source@),
    {
        if self.pending.is_some() {
            return ControllerQuery::Nothing;
        }
        if !self.receiver.sample_eligible {
            return ControllerQuery::Ineligible(
                match self.receiver.ineligible_reason {
                    Some(reason) => reason,
                    None => "feedback-sample-ineligible",
                },
            );
        }
        ControllerQuery::Sample(is_hard_fps_cap(limit_source))
    }

    /// Keeps the action that the controller wants: the one for the limit of the frame rate
    /// if there is one, else the one for the sample.  An action that waits already stays.
    pub fn keep_action(&mut self, capped: Option<PendingAction>, observed: Option<PendingAction>)
        ensures
            final(self)@ == (SenderState {
                pending: if old(self).pending is Some {
                    old(self).pending
                } else if capped is Some {
                    capped
                } else {
                    observed
                },
                ..old(self)@
            }),
    {
        if self.pending.is_none() {
            self.pending = if capped.is_some() {
                capped
            } else {
                observed
            };
        }
    }

    /// The run ends while a transition may be under way; `true` where one was.
    pub fn fail_active_profile_transition(
        &mut self,
        tracker: &mut CapabilityFeedbackTracker,
        stage: &str,
        reason: &str,
    ) -> (was_active: bool)
        ensures
            was_active == old(self).book.active,
            final(self)@ == old(self)@.transition_failed(stage@, reason@),
            final(tracker)@ == if was_active {
                transition_book::without_grace(old(tracker)@)
            } else {
                old(tracker)@
            },
    {
        let was_active: bool = self.book.fail_active(tracker, stage, reason);
        if was_active {
            self.receiver.sample_eligible = false;
            self.receiver.ineligible_reason = Some("profile-transition-failed");
        }
        was_active
    }

    /// The pipeline has begun to run.  After a change of profile that means that the
    /// encoder took it.
    pub fn on_started(&mut self, control: KeyframeControl<String>, target_frames: Option<u32>)
        ensures
            final(self)@ == old(self)@.started(control@, target_frames),
    {
        self.keyframe_control = control;
        if let Some(frames) = target_frames {
            self.session.keyframe_target_frames = frames;
        }
        if self.session.change_sequence > 0 {
            self.session.reconfigured = true;
            self.reconfigure_error = None;
            if same_text(self.bitrate.method, "encoder-rebuild") {
                self.bitrate.applied_mbps = self.bitrate.requested_mbps;
                self.bitrate.success = Some(true);
            }
        }
    }

    /// A picture was encoded.  The answer is whether its parameter sets must stand before
    /// it.
    pub fn on_encoded(&mut self, sample: SampleContents) -> (is_idr: bool)
        ensures
            is_idr == sample.has_idr_slice,
            final(self)@ == old(self)@.with_sample(sample),
    {
        if sample.keyframe {
            self.samples.keyframes = self.samples.keyframes.saturating_add(1);
            if self.book.active {
                self.book.first_idr_ready = true;
            }
        }
        if sample.has_idr_slice {
            if let Some(last_idr) = self.session.last_idr_frame_id {
                self.samples.idr_interval_frames_total =
                self.samples.idr_interval_frames_total.saturating_add(
                    self.session.next_frame_id.saturating_sub(last_idr),
                );
                self.samples.idr_interval_count = self.samples.idr_interval_count.saturating_add(1);
            }
            self.session.last_idr_frame_id = Some(self.session.next_frame_id);
            self.samples.idr_frames = self.samples.idr_frames.saturating_add(1);
            if !sample.has_sps || !sample.has_pps {
                self.samples.sps_pps_repeated = self.samples.sps_pps_repeated.saturating_add(1);
            }
        }
        sample.has_idr_slice
    }

    /// A picture is about to be cut into packets; the answer is its flags.  `on_clock` says
    /// that the stream has a clock of its own.
    pub fn on_stamped(
        &mut self,
        is_idr: bool,
        has_units: bool,
        has_config: bool,
        timestamp_us: u64,
        on_clock: bool,
    ) -> (flags: u16)
        ensures
            flags == flags_of(is_idr, has_units, has_config),
            final(self)@ == old(self)@.with_stamp(has_config, timestamp_us, on_clock),
    {
        if has_config {
            self.samples.config_frames = self.samples.config_frames.saturating_add(1);
        }
        if on_clock {
            if self.samples.first_media_timestamp_us.is_none() {
                self.samples.first_media_timestamp_us = Some(timestamp_us);
            }
            self.samples.last_video_timestamp_us = Some(timestamp_us);
        }
        sample_flags(is_idr, has_units, has_config)
    }

    /// A picture of `length` bytes was handed to the pacer.  The first keyframe of a new
    /// profile completes the change.
    pub fn on_enqueued(&mut self, is_idr: bool, length: usize, timestamp_us: u64, now: u64)
        ensures
            final(self)@ == old(self)@.with_enqueued(is_idr, length, timestamp_us, now),
    {
        if is_idr && self.session.change_sequence > 0
            && self.session.change_idr_frame_id.is_none() {
            self.session.change_idr_frame_id = Some(self.session.next_frame_id);
            self.session.change_completed_us = Some(timestamp_us);
            self.session.change_duration = match self.session.change_started_at {
                Some(started) => now.saturating_sub(started),
                None => 0,
            };
        }
        self.samples.h264_bytes = self.samples.h264_bytes.saturating_add(length as u64);
        self.session.next_frame_id = self.session.next_frame_id.saturating_add(1);
    }

    /// What the pipeline is to do: take the bit rate that waits, or begin anew.
    pub fn take_control(&mut self, target_mbps: Option<Real>, now: u64) -> (r: PipelineControl)
        ensures
            r == old(self)@.control(),
            final(self)@ == old(self)@.control_taken(target_mbps, now),
    {
        let action: PendingAction = match self.pending {
            Some(action) => action,
            None => {
                return PipelineControl::Continue;
            },
        };
        if action.kind != ActionKind::Bitrate {
            return PipelineControl::Restart;
        }
        if let Some(mbps) = target_mbps {
            self.bitrate.old_mbps = mbps;
        }
        self.bitrate.started_at = Some(now);
        PipelineControl::UpdateBitrate(action.bitrate_mbps)
    }

    /// The encoder took a new bit rate, or did not; `true` where it must be built anew.
    pub fn on_bitrate_update_result(
        &mut self,
        requested_mbps: Real,
        result: &Result<(), String>,
        idr_requested: bool,
        now: u64,
    ) -> (rebuild: bool)
        ensures
            rebuild == (*result is Err),
            final(self)@ == old(self)@.bitrate_updated(
                requested_mbps,
                text::result(*result),
                idr_requested,
                now,
            ),
    {
        self.bitrate.requested_mbps = Some(requested_mbps);
        self.bitrate.latency = match self.bitrate.started_at {
            Some(started) => now.saturating_sub(started),
            None => 0,
        };
        self.bitrate.started_at = None;
        self.bitrate.idr_requested = idr_requested;
        match result {
            Ok(_) => {
                self.bitrate.applied_mbps = Some(requested_mbps);
                self.bitrate.method = "runtime-icodecapi";
                self.bitrate.success = Some(true);
                self.bitrate.error = None;
                self.session.reconfigured = true;
                self.reconfigure_error = None;
                self.bitrate.fallback_to_full_transition = false;
                self.pending = None;
                false
            },
            Err(error) => {
                self.bitrate.applied_mbps = None;
                self.bitrate.method = "encoder-rebuild";
                self.bitrate.success = Some(false);
                self.bitrate.error = Some(error.as_str().to_string());
                self.session.reconfigured = false;
                self.reconfigure_error = Some(error.as_str().to_string());
                self.bitrate.fallback_to_full_transition = true;
                true
            },
        }
    }
}

// What holds of every sender.

/// What the other end says may steer the quality exactly when nothing stands against it.
pub proof fn law_obstacle_unless_eligible(
    view: ReceiverView,
    feedback: Option<CapabilityFeedback>,
    generation: u64,
    transition_active: bool,
)
    ensures
        ({
            let judged = view.judged(feedback, generation, transition_active);
            judged.sample_eligible <==> judged.ineligible_reason is None
        }),
{
}

/// Feedback on another profile, feedback of the older form and silence never steer the
/// quality, and no feedback does while a transition is under way.
pub proof fn law_only_current_feedback_steers(
    view: ReceiverView,
    feedback: Option<CapabilityFeedback>,
    generation: u64,
    transition_active: bool,
)
    requires
        feedback is None || (feedback->0).profile_generation != generation || (feedback->0).version
            < CAPABILITY_FEEDBACK_VERSION || transition_active,
    ensures
        !view.judged(feedback, generation, transition_active).sample_eligible,
{
}

/// After a switch nothing is known of the receiving end, and the transition stays under way
/// until feedback on the new profile has shown it settled for three windows.
pub proof fn law_switch_ends_eligibility(
    state: SenderState<Seq<char>>,
    switch: Switch,
    dimension: Seq<char>,
    reason: Seq<char>,
    feedback: Option<CapabilityFeedback>,
    ready_stage: Seq<char>,
    stage: Seq<char>,
    now: u64,
)
    ensures
        ({
            let switched = state.switched(switch, dimension, reason);
            let after = switched.refreshed(feedback, Ok(()), None, ready_stage, stage, now);
            &&& switched.book.active
            &&& !switched.receiver.sample_eligible
            &&& after.receiver.sample_eligible ==> feedback is Some
                && (feedback->0).profile_generation == switch.change.profile_generation
                && (feedback->0).transition_settle_windows >= SETTLE_WINDOWS
        }),
{
}

/// What committing gives has no effect unless the transition settles, and a deadline has
/// none where it settles or where no transition is under way.
pub proof fn law_commit_counts_only_where_it_settles(
    state: SenderState<Seq<char>>,
    feedback: Option<CapabilityFeedback>,
    commit: Result<(), Seq<char>>,
    other: Result<(), Seq<char>>,
    overdue: Option<Seq<char>>,
    later: Option<Seq<char>>,
    ready_stage: Seq<char>,
    stage: Seq<char>,
    now: u64,
)
    ensures
        !state.settles(feedback) ==> state.refreshed(
            feedback,
            commit,
            overdue,
            ready_stage,
            stage,
            now,
        ) == state.refreshed(feedback, other, overdue, ready_stage, stage, now),
        state.settles(feedback) || !state.book.active ==> state.refreshed(
            feedback,
            commit,
            overdue,
            ready_stage,
            stage,
            now,
        ) == state.refreshed(feedback, commit, later, ready_stage, stage, now),
{
}

/// A bit rate that the encoder takes while it runs changes neither the session nor the
/// profile that it belongs to.
pub proof fn law_bitrate_update_keeps_the_session(
    state: SenderState<Seq<char>>,
    requested_mbps: Real,
    idr_requested: bool,
    now: u64,
)
    ensures
        ({
            let updated = state.bitrate_updated(requested_mbps, Ok(()), idr_requested, now);
            &&& updated.session.session_id == state.session.session_id
            &&& updated.session.generation == state.session.generation
            &&& updated.session.next_frame_id == state.session.next_frame_id
            &&& updated.book == state.book
            &&& updated.pending is None
            &&& updated.control() == PipelineControl::Continue
        }),
{
}

/// An encoder that does not take a bit rate keeps the action waiting.
pub proof fn law_failed_bitrate_update_waits(
    state: SenderState<Seq<char>>,
    requested_mbps: Real,
    error: Seq<char>,
    idr_requested: bool,
    now: u64,
)
    ensures
        state.bitrate_updated(requested_mbps, Err(error), idr_requested, now).pending
            == state.pending,
        state.bitrate_updated(
            requested_mbps,
            Err(error),
            idr_requested,
            now,
        ).bitrate.fallback_to_full_transition,
{
}

/// Frames are numbered one after the other within a session.
pub proof fn law_frames_are_numbered_in_turn(
    state: SenderState<Seq<char>>,
    is_idr: bool,
    length: usize,
    timestamp_us: u64,
    now: u64,
)
    requires
        state.session.next_frame_id < u64::MAX,
    ensures
        state.with_enqueued(is_idr, length, timestamp_us, now).session.next_frame_id
            == state.session.next_frame_id + 1,
        state.with_enqueued(is_idr, length, timestamp_us, now).session.session_id
            == state.session.session_id,
{
}

/// Feedback of the present form on the profile that is being sent, with every flag set but
/// that of a transition, and three good windows, steers the quality; and each thing that is
/// missing stops it.
pub proof fn law_ready_receiver_steers(
    view: ReceiverView,
    feedback: CapabilityFeedback,
    generation: u64,
)
    requires
        feedback.version >= 2,
        feedback.profile_generation == generation,
    ensures
        ({
            let seen = view.seen(Some(feedback), generation);
            let flags = feedback.state_flags;
            let after = seen.judged(Some(feedback), generation, false);
            &&& seen.profile_acknowledged == (flags & 0x40 != 0)
            &&& seen.first_idr_decoded == (flags & 0x08 != 0)
            &&& seen.first_frame_rendered == (flags & 0x10 != 0)
            &&& seen.render_ready == (flags & 0x02 != 0)
            &&& seen.profile_settled == (flags & 0x04 != 0)
            &&& seen.valid_feedback_windows == feedback.valid_feedback_windows
            &&& seen.feedback_ignored == view.feedback_ignored
            &&& after.sample_eligible <==> (flags & 0x01 != 0 && flags & 0x02 != 0 && flags & 0x04
                != 0 && flags & 0x08 != 0 && flags & 0x10 != 0 && flags & 0x20 == 0 && flags & 0x40
                != 0 && feedback.valid_feedback_windows >= 3)
            &&& !seen.judged(Some(feedback), generation, true).sample_eligible
        }),
{
}

/// Feedback on another profile, of the older form, or none, shows nothing.
pub proof fn law_other_feedback_shows_nothing(
    view: ReceiverView,
    feedback: Option<CapabilityFeedback>,
    generation: u64,
)
    requires
        feedback is None || (feedback->0).version < 2 || (feedback->0).profile_generation
            != generation,
    ensures
        ({
            let seen = view.seen(feedback, generation);
            &&& !seen.profile_acknowledged
            &&& !seen.first_idr_decoded
            &&& !seen.first_frame_rendered
            &&& !seen.render_ready
            &&& !seen.profile_settled
            &&& seen.valid_feedback_windows == 0
        }),
{
}

/// The reason that is told is that of the first thing that is missing.
pub proof fn law_first_obstacle_is_told(
    view: ReceiverView,
    feedback: CapabilityFeedback,
    generation: u64,
    transition_active: bool,
)
    ensures
        view.judged(None, generation, transition_active).ineligible_reason == Some(
            "feedback-stale-or-missing",
        ),
        feedback.version < 2 ==> view.judged(
            Some(feedback),
            generation,
            transition_active,
        ).ineligible_reason == Some("legacy-feedback-without-readiness"),
        feedback.version >= 2 && feedback.profile_generation != generation ==> view.judged(
            Some(feedback),
            generation,
            transition_active,
        ).ineligible_reason == Some("feedback-profile-generation-mismatch"),
        feedback.version >= 2 && feedback.profile_generation == generation ==> {
            let told = view.judged(Some(feedback), generation, transition_active).ineligible_reason;
            let moving = transition_active || feedback.state_flags & 0x20 != 0;
            &&& moving ==> told == Some("profile-transition")
            &&& !moving && !view.profile_acknowledged ==> told == Some(
                "receiver-profile-not-acknowledged",
            )
            &&& !moving && view.profile_acknowledged && !view.first_idr_decoded ==> told == Some(
                "receiver-waiting-first-idr",
            )
            &&& !moving && view.profile_acknowledged && view.first_idr_decoded
                && !view.first_frame_rendered ==> told == Some("receiver-waiting-first-frame")
            &&& !moving && view.profile_acknowledged && view.first_idr_decoded
                && view.first_frame_rendered && !view.render_ready ==> told == Some(
                "receiver-render-not-ready",
            )
            &&& !moving && view.profile_acknowledged && view.first_idr_decoded
                && view.first_frame_rendered && view.render_ready
                && feedback.valid_feedback_windows < 3 ==> told == Some(
                "receiver-valid-window-warmup",
            )
            &&& !moving && view.profile_acknowledged && view.first_idr_decoded
                && view.first_frame_rendered && view.render_ready
                && feedback.valid_feedback_windows >= 3 && !view.profile_settled ==> told == Some(
                "receiver-profile-not-settled",
            )
        },
{
}

/// A transition settles on feedback of the new profile that is acknowledged, decoded, shown
/// and settled for three windows, and not before.
pub proof fn law_transition_settles_on_ready_feedback(
    state: SenderState<Seq<char>>,
    feedback: CapabilityFeedback,
    commit: Result<(), Seq<char>>,
    overdue: Option<Seq<char>>,
    ready_stage: Seq<char>,
    stage: Seq<char>,
    now: u64,
)
    requires
        state.book.active,
    ensures
        ({
            let flags = feedback.state_flags;
            let settled = feedback.version >= 2 && feedback.profile_generation
                == state.session.generation && flags & 0x40 != 0 && flags & 0x08 != 0 && flags
                & 0x10 != 0 && flags & 0x04 != 0 && flags & 0x20 == 0
                && feedback.transition_settle_windows >= 3;
            let result = state.refresh_result(Some(feedback), commit, overdue);
            let after = state.refreshed(
                Some(feedback),
                commit,
                overdue,
                ready_stage,
                stage,
                now,
            );
            &&& state.settles(Some(feedback)) == settled
            &&& settled && commit is Ok ==> result is Settled && !after.book.active
                && after.receiver.settle_windows == feedback.transition_settle_windows
            &&& settled && commit is Err ==> result == Refresh::<Seq<char>>::CommitFailed(
                commit->Err_0,
            ) && !after.book.active && after.book.last_failure_reason == Some(commit->Err_0)
                && after.book.last_failure_stage == Some(ready_stage)
            &&& !settled && overdue is Some ==> result == Refresh::<Seq<char>>::TimedOut(
                overdue->0,
            ) && !after.book.active && after.book.last_failure_reason == Some(overdue->0)
                && after.book.last_failure_stage == Some(stage)
            &&& !settled && overdue is None ==> result is Steady && after.book.active
                && !after.receiver.sample_eligible
            &&& !settled && state.receiver.feedback_ignored < u64::MAX
                ==> after.receiver.feedback_ignored == state.receiver.feedback_ignored + 1
            &&& (state.session.change_started_at matches Some(started) && started <= now && (
            overdue is None || settled) && !(settled && commit is Err))
                ==> after.receiver.settle_duration == now - state.session.change_started_at->0
            &&& after.session == state.session
            &&& after.pending == state.pending
        }),
{
}

/// Where no transition is under way a look at the receiving end ends none and counts
/// nothing.
pub proof fn law_steady_without_transition(
    state: SenderState<Seq<char>>,
    feedback: Option<CapabilityFeedback>,
    commit: Result<(), Seq<char>>,
    overdue: Option<Seq<char>>,
    ready_stage: Seq<char>,
    stage: Seq<char>,
    now: u64,
)
    requires
        !state.book.active,
    ensures
        ({
            let after = state.refreshed(feedback, commit, overdue, ready_stage, stage, now);
            &&& state.refresh_result(feedback, commit, overdue) is Steady
            &&& after.book == state.book
            &&& after.session == state.session
            &&& after.receiver.feedback_ignored == state.receiver.feedback_ignored
            &&& after.receiver.settle_windows == state.receiver.settle_windows
        }),
{
}

/// A switch takes the session and the profile that were agreed on, and counts frames anew.
pub proof fn law_switch_takes_the_change(
    state: SenderState<Seq<char>>,
    switch: Switch,
    dimension: Seq<char>,
    reason: Seq<char>,
)
    ensures
        ({
            let after = state.switched(switch, dimension, reason);
            let s = after.session;
            &&& s.session_id == switch.change.new_session_id
            &&& s.old_session_id == Some(state.session.session_id)
            &&& s.generation == switch.change.profile_generation
            &&& s.change_sequence == state.session.change_sequence
            &&& s.next_frame_id == 0
            &&& s.target_fps == switch.change.fps
            &&& s.keyframe_target_frames == switch.keyframe_target_frames
            &&& s.last_idr_frame_id is None
            &&& s.change_started_us == Some(switch.change.timestamp_us)
            &&& s.change_completed_us is None
            &&& s.change_started_at == Some(switch.started_at)
            &&& s.change_idr_frame_id is None
            &&& s.profile_started_at == switch.started_at
            &&& s.profile_frames_start == switch.frames_sent
            &&& s.profile_bytes_start == switch.bytes_sent
            &&& !s.reconfigured
            &&& after.change_reason == Some(dimension + ":"@ + reason)
            &&& after.reconfigure_error is None
            &&& after.samples == state.samples
            &&& after.pending == state.pending
            &&& !after.book.first_idr_ready
            &&& after.receiver.ineligible_reason == Some("profile-transition")
            &&& after.receiver.feedback_ignored == state.receiver.feedback_ignored
            &&& after.receiver.valid_feedback_windows == 0
            &&& switch.kind == ActionKind::Bitrate ==> after.bitrate.method == "encoder-rebuild"
                && after.bitrate.success == Some(false)
            &&& switch.kind != ActionKind::Bitrate ==> after.bitrate == state.bitrate
        }),
{
}

/// After a switch, the first picture that stands alone completes the change: it is the one
/// whose number, time and delay are kept, and later ones change nothing of that.
pub proof fn law_first_keyframe_completes_the_change(
    state: SenderState<Seq<char>>,
    first_length: usize,
    first_us: u64,
    first_at: u64,
    later_idr: bool,
    later_length: usize,
    later_us: u64,
    later_at: u64,
)
    requires
        state.session.change_sequence > 0,
        state.session.change_idr_frame_id is None,
        state.session.change_started_at is Some,
        state.session.change_started_at->0 <= first_at,
    ensures
        ({
            let first = state.with_enqueued(true, first_length, first_us, first_at);
            let later = first.with_enqueued(later_idr, later_length, later_us, later_at);
            &&& first.session.change_idr_frame_id == Some(state.session.next_frame_id)
            &&& first.session.change_completed_us == Some(first_us)
            &&& first.session.change_duration == first_at - state.session.change_started_at->0
            &&& later.session.change_idr_frame_id == first.session.change_idr_frame_id
            &&& later.session.change_completed_us == first.session.change_completed_us
            &&& later.session.change_duration == first.session.change_duration
            &&& state.with_enqueued(
                false,
                first_length,
                first_us,
                first_at,
            ).session.change_idr_frame_id is None
        }),
{
}

/// Every picture that is handed on is counted with its bytes.
pub proof fn law_sent_bytes_add_up(
    state: SenderState<Seq<char>>,
    is_idr: bool,
    length: usize,
    timestamp_us: u64,
    now: u64,
)
    requires
        state.samples.h264_bytes + length <= u64::MAX,
    ensures
        state.with_enqueued(is_idr, length, timestamp_us, now).samples.h264_bytes
            == state.samples.h264_bytes + length,
        state.with_enqueued(is_idr, length, timestamp_us, now).samples.keyframes
            == state.samples.keyframes,
        state.session.change_sequence == 0 ==> state.with_enqueued(
            is_idr,
            length,
            timestamp_us,
            now,
        ).session.change_idr_frame_id == state.session.change_idr_frame_id,
{
}

/// Encoded pictures are counted by what they hold, and between two that stand alone the
/// frames are counted.
pub proof fn law_encoded_pictures_are_counted(
    state: SenderState<Seq<char>>,
    sample: SampleContents,
)
    requires
        state.samples.keyframes < u64::MAX,
        state.samples.idr_frames < u64::MAX,
        state.samples.sps_pps_repeated < u64::MAX,
        state.samples.idr_interval_count < u64::MAX,
    ensures
        ({
            let s = state.samples;
            let after = state.with_sample(sample);
            let t = after.samples;
            &&& t.keyframes == s.keyframes + if sample.keyframe {
                1int
            } else {
                0
            }
            &&& t.idr_frames == s.idr_frames + if sample.has_idr_slice {
                1int
            } else {
                0
            }
            &&& t.sps_pps_repeated == s.sps_pps_repeated + if sample.has_idr_slice && (
            !sample.has_sps || !sample.has_pps) {
                1int
            } else {
                0
            }
            &&& sample.has_idr_slice ==> after.session.last_idr_frame_id == Some(
                state.session.next_frame_id,
            )
            &&& !sample.has_idr_slice ==> after.session == state.session
                && t.idr_interval_frames_total == s.idr_interval_frames_total
                && t.idr_interval_count == s.idr_interval_count
            &&& (sample.has_idr_slice && state.session.last_idr_frame_id is None)
                ==> t.idr_interval_count == s.idr_interval_count && t.idr_interval_frames_total
                == s.idr_interval_frames_total
            &&& (sample.has_idr_slice && state.session.last_idr_frame_id is Some
                && state.session.last_idr_frame_id->0 <= state.session.next_frame_id && s.idr_interval_frames_total
                + state.session.next_frame_id <= u64::MAX) ==> t.idr_interval_count
                == s.idr_interval_count + 1 && t.idr_interval_frames_total
                == s.idr_interval_frames_total + (state.session.next_frame_id
                - state.session.last_idr_frame_id->0)
            &&& after.book.first_idr_ready == (state.book.first_idr_ready || (sample.keyframe
                && state.book.active))
            &&& t.h264_bytes == s.h264_bytes
            &&& after.session.next_frame_id == state.session.next_frame_id
        }),
{
}

/// On a clock of its own the stream keeps the first time and the last one; without a clock
/// it keeps none.
pub proof fn law_stamps_keep_first_and_last(
    state: SenderState<Seq<char>>,
    config: bool,
    first_us: u64,
    second_us: u64,
)
    requires
        state.samples.first_media_timestamp_us is None,
        state.samples.config_frames < u64::MAX,
    ensures
        ({
            let first = state.with_stamp(config, first_us, true);
            let second = first.with_stamp(config, second_us, true);
            &&& first.samples.first_media_timestamp_us == Some(first_us)
            &&& first.samples.last_video_timestamp_us == Some(first_us)
            &&& second.samples.first_media_timestamp_us == Some(first_us)
            &&& second.samples.last_video_timestamp_us == Some(second_us)
            &&& first.samples.config_frames == state.samples.config_frames + if config {
                1int
            } else {
                0
            }
            &&& state.with_stamp(config, first_us, false).samples.first_media_timestamp_us is None
            &&& state.with_stamp(config, first_us, false).samples.last_video_timestamp_us
                == state.samples.last_video_timestamp_us
        }),
{
}

/// The pipeline goes on while nothing waits, takes a bit rate while it runs, and begins
/// anew for everything else.
pub proof fn law_pipeline_does_what_waits(
    state: SenderState<Seq<char>>,
    action: PendingAction,
    target_mbps: Option<Real>,
    now: u64,
)
    ensures
        state.pending is None ==> state.control() == PipelineControl::Continue
            && state.control_taken(target_mbps, now) == state,
        state.pending == Some(action) && action.kind == ActionKind::Bitrate ==> {
            let after = state.control_taken(target_mbps, now);
            &&& state.control() == PipelineControl::UpdateBitrate(action.bitrate_mbps)
            &&& after.bitrate.started_at == Some(now)
            &&& target_mbps is Some ==> after.bitrate.old_mbps == target_mbps->0
            &&& target_mbps is None ==> after.bitrate.old_mbps == state.bitrate.old_mbps
            &&& after.pending == state.pending
        },
        state.pending == Some(action) && action.kind != ActionKind::Bitrate ==> state.control()
            == PipelineControl::Restart && state.control_taken(target_mbps, now) == state,
{
}

/// A change of the bit rate: the time from the order to the answer is measured, and the
/// answer says what is applied, how, and what went wrong.
pub proof fn law_bitrate_answer_is_kept(
    state: SenderState<Seq<char>>,
    action: PendingAction,
    target_mbps: Option<Real>,
    ordered_at: u64,
    requested_mbps: Real,
    result: Result<(), Seq<char>>,
    idr_requested: bool,
    now: u64,
)
    requires
        state.pending == Some(action),
        action.kind == ActionKind::Bitrate,
        ordered_at <= now,
    ensures
        ({
            let ordered = state.control_taken(target_mbps, ordered_at);
            let after = ordered.bitrate_updated(requested_mbps, result, idr_requested, now);
            let b = after.bitrate;
            &&& b.requested_mbps == Some(requested_mbps)
            &&& b.latency == now - ordered_at
            &&& b.started_at is None
            &&& b.idr_requested == idr_requested
            &&& b.old_mbps == ordered.bitrate.old_mbps
            &&& b.success == Some(result is Ok)
            &&& after.session.reconfigured == (result is Ok)
            &&& result is Ok ==> b.applied_mbps == Some(requested_mbps) && b.method
                == "runtime-icodecapi" && b.error is None && after.reconfigure_error is None
                && !b.fallback_to_full_transition
            &&& result is Err ==> b.applied_mbps is None && b.method == "encoder-rebuild" && b.error
                == Some(result->Err_0) && after.reconfigure_error == Some(result->Err_0)
        }),
{
}

/// An encoder that was built anew has taken the profile, and with it the bit rate that it
/// was built for.
pub proof fn law_rebuilt_encoder_has_the_profile(
    state: SenderState<Seq<char>>,
    control: KeyframeControl<Seq<char>>,
    target_frames: Option<u32>,
)
    ensures
        ({
            let after = state.started(control, target_frames);
            &&& after.keyframe_control == control
            &&& target_frames is Some ==> after.session.keyframe_target_frames == target_frames->0
            &&& target_frames is None ==> after.session.keyframe_target_frames
                == state.session.keyframe_target_frames
            &&& state.session.change_sequence > 0 ==> after.session.reconfigured
                && after.reconfigure_error is None
            &&& state.session.change_sequence > 0 && state.bitrate.method@ == "encoder-rebuild"@
                ==> after.bitrate.applied_mbps == state.bitrate.requested_mbps
                && after.bitrate.success == Some(true)
            &&& state.session.change_sequence == 0 ==> after.session.reconfigured
                == state.session.reconfigured && after.bitrate == state.bitrate
                && after.reconfigure_error == state.reconfigure_error
            &&& after.book == state.book
            &&& after.session.session_id == state.session.session_id
        }),
{
}

/// Changes are numbered one after the other.
pub proof fn law_changes_are_numbered(state: SenderState<Seq<char>>)
    requires
        state.session.change_sequence < u64::MAX,
    ensures
        state.with_next_change().session.change_sequence == state.session.change_sequence + 1,
        state.with_next_change().session.session_id == state.session.session_id,
        state.with_next_change().book == state.book,
{
}

/// While an action waits the controller is asked nothing; feedback that may steer the
/// quality is shown to it, and other feedback is not.
pub proof fn law_controller_is_asked_of_ready_feedback(
    state: SenderState<Seq<char>>,
    limit_source: Seq<char>,
)
    ensures
        state.pending is Some ==> state.query(limit_source) is Nothing,
        state.pending is None && state.receiver.sample_eligible ==> (state.query(limit_source)
            == ControllerQuery::Sample(
            limit_source == "source-display"@ || limit_source == "receiver-display"@ || limit_source
                == "receiver-safe-default"@ || limit_source == "user"@,
        )),
        state.pending is None && !state.receiver.sample_eligible
            && state.receiver.ineligible_reason is Some ==> state.query(limit_source)
            == ControllerQuery::Ineligible(state.receiver.ineligible_reason->0),
        state.pending is None && !state.receiver.sample_eligible
            && state.receiver.ineligible_reason is None ==> state.query(limit_source) is Ineligible,
{
}

/// A transition that the end of the run finds under way is over, and nothing that was said
/// of it steers the quality; where none is, nothing changes.
pub proof fn law_end_of_the_run_ends_the_transition(
    state: SenderState<Seq<char>>,
    stage: Seq<char>,
    reason: Seq<char>,
)
    ensures
        ({
            let after = state.transition_failed(stage, reason);
            &&& !after.book.active
            &&& !state.book.active ==> after == state
            &&& state.book.active ==> !after.receiver.sample_eligible
                && after.receiver.ineligible_reason == Some("profile-transition-failed")
            &&& after.session == state.session
        }),
{
}

/// The statistics of a stretch are what was added in it, count by count.
pub proof fn law_totals_are_compared(
    before: PacingCounters,
    after: PacingCounters,
    control_before: ControlCounters,
    control_after: ControlCounters,
    skips_before: u64,
    skips_after: u64,
    dropped_before: u64,
    dropped_after: u64,
)
    requires
        before.packets_sent <= after.packets_sent,
        before.frames_sent <= after.frames_sent,
        before.bytes_sent <= after.bytes_sent,
        before.send_errors <= after.send_errors,
        control_before.repair_packets_resent <= control_after.repair_packets_resent,
        control_before.repair_send_bytes <= control_after.repair_send_bytes,
        control_before.nack_items_received <= control_after.nack_items_received,
        control_before.repair_duplicate_packets_resent
            <= control_after.repair_duplicate_packets_resent,
        skips_before <= skips_after,
        dropped_before <= dropped_after,
    ensures
        ({
            let d = Totals::of(after, control_after, skips_after, dropped_after).minus(
                Totals::of(before, control_before, skips_before, dropped_before),
            );
            &&& d.packets == after.packets_sent - before.packets_sent
            &&& d.frames == after.frames_sent - before.frames_sent
            &&& d.bytes == after.bytes_sent - before.bytes_sent
            &&& d.send_errors == after.send_errors - before.send_errors
            &&& d.repair_packets == control_after.repair_packets_resent
                - control_before.repair_packets_resent
            &&& d.repair_bytes == control_after.repair_send_bytes
                - control_before.repair_send_bytes
            &&& d.nack_items == control_after.nack_items_received
                - control_before.nack_items_received
            &&& d.duplicate_repairs == control_after.repair_duplicate_packets_resent
                - control_before.repair_duplicate_packets_resent
            &&& d.encode_lag_skips == skips_after - skips_before
            &&& d.capture_dropped == dropped_after - dropped_before
        }),
{
}

/// How far apart two times are does not depend on which comes first.
pub proof fn law_distance_has_no_direction(a: u64, b: u64)
    ensures
        apart(a, b) == apart(b, a),
        a <= b ==> apart(a, b) == b - a,
{
}

/// The flags of a picture can be read back: its first bit says that it stands alone, the
/// third that it carries parameter sets, and the fourth that it is made of units.
pub proof fn law_picture_flags_are_read_back(is_idr: bool, has_units: bool, has_config: bool)
    ensures
        (flags_of(is_idr, has_units, has_config) & 0x01 != 0) == is_idr,
        (flags_of(is_idr, has_units, has_config) & 0x04 != 0) == has_config,
        (flags_of(is_idr, has_units, has_config) & 0x08 != 0) == has_units,
        flags_of(is_idr, has_units, has_config) & 0x32 == 0,
{
    let key: u16 = if is_idr {
        0x01
    } else {
        0
    };
    let units: u16 = if has_units {
        0x08
    } else {
        0
    };
    let config: u16 = if has_config {
        0x04
    } else {
        0
    };
    assert(key | 0 == key && (key | units) | 0 == key | units && (((key | units) | config) & 0x01
        != 0) == (key == 0x01) && (((key | units) | config) & 0x04 != 0) == (config == 0x04) && (((
    key | units) | config) & 0x08 != 0) == (units == 0x08) && ((key | units) | config) & 0x32 == 0)
        by (bit_vector)
        requires
            key == 0 || key == 0x01,
            units == 0 || units == 0x08,
            config == 0 || config == 0x04,
    ;
}

} // verus!
