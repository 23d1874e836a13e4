//! What the sender reports.
//!
//! Reports are JSON.  Real numbers come written already; what other parts report comes as
//! a fragment.  Times are nanoseconds of a monotonic clock, unless their names say
//! otherwise.

use vstd::prelude::*;

use crate::choices::{DisplayRefreshDetect, MaxFps, RepairMode};
use crate::cli_values::FecMode;
use crate::h264_send_probe;
use crate::h264_send_probe::{
    evaluate_keyframe_interval, observed_idr_intervals, AudioSendMode, H264SendMode, PacketPacing,
    RunRateSummary, WorkerShutdownSummary,
};
use crate::json;
use crate::json::{optional_bool_json, u64_json_array, Fragment, Member, Value};
use crate::media_control::{CapabilityFeedback, FeedbackTrackerStats, ProfileChange};
use crate::pacer::{PacingCounters, PACING_TICK};
use crate::sender_control::ControlCounters;
use crate::sender_state::{SenderState, Totals};
use crate::shutdown;
use crate::shutdown::terminal_event_type;
use crate::text;

verus! {

/// What a sender was made with.
#[derive(Debug)]
pub struct SenderSetup {
    pub host: String,
    pub port: u16,
    pub target: String,
    pub udp_send_buffer_bytes: i32,
    pub udp_send_buffer_bytes_requested: i32,
    pub udp_payload_size: usize,
    pub data_payload_size: usize,
    pub packet_pacing: PacketPacing,
    pub fec_mode: FecMode,
    pub repair_mode: RepairMode,
    pub repair_cache_ms: u64,
    pub audio_mode: AudioSendMode,
    pub display_refresh_detect: DisplayRefreshDetect,
    pub max_fps: MaxFps,
    /// The control side runs.
    pub control_running: bool,
}

/// What the store of sent packets holds.
#[derive(Clone, Copy, Debug, PartialEq, Eq, Structural)]
pub struct RepairCacheStats {
    pub packets: u64,
    pub bytes: u64,
    pub evictions: u64,
}

/// What capturing and encoding count.
#[derive(Clone, Copy, Debug, PartialEq, Eq, Structural)]
pub struct CaptureCounts {
    pub capture_raw_frames: u64,
    pub capture_latest_updates: u64,
    pub encode_ticks: u64,
    pub no_new_frame_skipped: u64,
    pub no_new_frame_reused: u64,
    pub frames_encoded: u64,
    pub encode_lag_skips: u64,
    pub target_fps: u32,
    pub width: u32,
    pub height: u32,
    pub capture_dropped: u64,
    pub capture_callback_skipped: u64,
    pub samples_out: u64,
}

/// What sound counts.
#[derive(Debug)]
pub struct AudioSendStats {
    pub thread_started: bool,
    pub capture_thread_started: bool,
    pub send_thread_started: bool,
    pub packets_sent: u64,
    pub bytes_sent: u64,
    pub capture_glitches: u64,
    pub capture_empty_polls: u64,
    pub audio_capture_qpc_available: bool,
    pub audio_capture_qpc_errors: u64,
    pub audio_capture_timestamp_discontinuities: u64,
    pub audio_send_queue_depth_current: u64,
    pub audio_send_queue_depth_max: u64,
    pub audio_send_queue_drops: u64,
    pub last_audio_timestamp_us: Option<u64>,
    pub enabled: bool,
    pub sample_rate: u64,
    pub channels: u64,
    pub audio_capture_timestamp_source: String,
    pub unavailable_reason: Option<String>,
}

/// Keyframes that were asked for.
#[derive(Debug)]
pub struct KeyframeForceStats {
    pub requests: u64,
    pub failures: u64,
    pub last_requested_frame_id: Option<u64>,
    pub last_effective_frame_id: Option<u64>,
    pub latency_frames_max: u64,
    pub request_frame_ids: Vec<u64>,
    pub effective_frame_ids: Vec<u64>,
    pub latency_frames: Vec<u64>,
}

/// How often the encoder was waited for in vain.
#[derive(Clone, Copy, Debug, PartialEq, Eq, Structural)]
pub struct EncoderWaits {
    pub async_wait_timeouts: u64,
    pub async_wait_cancelled: u64,
    pub drain_timeouts: u64,
}

impl EncoderWaits {
    /// The greater of each.
    pub open spec fn joined(self, other: EncoderWaits) -> EncoderWaits {
        EncoderWaits {
            async_wait_timeouts: crate::receiver_stats::larger(
                self.async_wait_timeouts,
                other.async_wait_timeouts,
            ),
            async_wait_cancelled: crate::receiver_stats::larger(
                self.async_wait_cancelled,
                other.async_wait_cancelled,
            ),
            drain_timeouts: crate::receiver_stats::larger(
                self.drain_timeouts,
                other.drain_timeouts,
            ),
        }
    }

    /// What is reported of a run that failed: the greater of what was last written and what
    /// the encoder left behind.
    pub fn at_least(self, other: EncoderWaits) -> (r: EncoderWaits)
        ensures
            r == self.joined(other),
    {
        EncoderWaits {
            async_wait_timeouts: if self.async_wait_timeouts > other.async_wait_timeouts {
                self.async_wait_timeouts
            } else {
                other.async_wait_timeouts
            },
            async_wait_cancelled: if self.async_wait_cancelled > other.async_wait_cancelled {
                self.async_wait_cancelled
            } else {
                other.async_wait_cancelled
            },
            drain_timeouts: if self.drain_timeouts > other.drain_timeouts {
                self.drain_timeouts
            } else {
                other.drain_timeouts
            },
        }
    }
}

/// How far a change of profile is.
#[derive(Clone, Copy, Debug, PartialEq, Eq, Structural)]
pub enum SenderTransitionPhase {
    Idle,
    ControlPending,
    AwaitControlAck,
    ActivateNewSession,
    AwaitReceiverReadiness,
    Committed,
    Rollback,
    Failed,
}

/// A change of profile.
#[derive(Debug)]
pub struct TransitionStatus {
    pub phase: SenderTransitionPhase,
    pub phase_name: String,
    pub change: ProfileChange,
    pub started_at: u64,
    pub ack_deadline: u64,
    pub readiness_deadline: Option<u64>,
    pub total_deadline: u64,
}

impl TransitionStatus {
    /// Until when the phase may last.
    pub open spec fn deadline_at(self) -> Option<u64> {
        match self.phase {
            SenderTransitionPhase::ControlPending | SenderTransitionPhase::AwaitControlAck => Some(
                self.ack_deadline,
            ),
            SenderTransitionPhase::AwaitReceiverReadiness => self.readiness_deadline,
            SenderTransitionPhase::ActivateNewSession => Some(self.total_deadline),
            SenderTransitionPhase::Idle
            | SenderTransitionPhase::Committed
            | SenderTransitionPhase::Rollback
            | SenderTransitionPhase::Failed => None,
        }
    }

    /// Until when the phase may last; what has come to an end may last forever.
    pub fn deadline(&self) -> (r: Option<u64>)
        ensures
            r == self.deadline_at(),
    {
        match self.phase {
            SenderTransitionPhase::ControlPending | SenderTransitionPhase::AwaitControlAck => Some(
                self.ack_deadline,
            ),
            SenderTransitionPhase::AwaitReceiverReadiness => self.readiness_deadline,
            SenderTransitionPhase::ActivateNewSession => Some(self.total_deadline),
            SenderTransitionPhase::Idle
            | SenderTransitionPhase::Committed
            | SenderTransitionPhase::Rollback
            | SenderTransitionPhase::Failed => None,
        }
    }
}

/// The phase of a change, if there is one.
pub open spec fn phase_of(transition: Option<TransitionStatus>) -> Seq<char> {
    match transition {
        Some(status) => status.phase_name@,
        None => "idle"@,
    }
}

fn phase_name(transition: &Option<TransitionStatus>) -> (r: &str)
    ensures
        r@ == phase_of(*transition),
{
    match transition {
        Some(status) => status.phase_name.as_str(),
        None => "idle",
    }
}

pub open spec fn sequence_of(transition: Option<TransitionStatus>) -> u64 {
    match transition {
        Some(status) => status.change.change_sequence,
        None => 0,
    }
}

fn change_sequence(transition: &Option<TransitionStatus>) -> (r: u64)
    ensures
        r == sequence_of(*transition),
{
    match transition {
        Some(status) => status.change.change_sequence,
        None => 0,
    }
}

pub open spec fn generation_of(transition: Option<TransitionStatus>) -> u64 {
    match transition {
        Some(status) => status.change.profile_generation,
        None => 0,
    }
}

fn change_generation(transition: &Option<TransitionStatus>) -> (r: u64)
    ensures
        r == generation_of(*transition),
{
    match transition {
        Some(status) => status.change.profile_generation,
        None => 0,
    }
}

pub open spec fn old_session_of(transition: Option<TransitionStatus>) -> Option<u64> {
    match transition {
        Some(status) => Some(status.change.old_session_id),
        None => None,
    }
}

fn old_session(transition: &Option<TransitionStatus>) -> (r: Option<u64>)
    ensures
        r == old_session_of(*transition),
{
    match transition {
        Some(status) => Some(status.change.old_session_id),
        None => None,
    }
}

pub open spec fn new_session_of(transition: Option<TransitionStatus>) -> Option<u64> {
    match transition {
        Some(status) => Some(status.change.new_session_id),
        None => None,
    }
}

fn new_session(transition: &Option<TransitionStatus>) -> (r: Option<u64>)
    ensures
        r == new_session_of(*transition),
{
    match transition {
        Some(status) => Some(status.change.new_session_id),
        None => None,
    }
}

/// When a change began, in microseconds of the run.
pub open spec fn started_us_of(
    transition: Option<TransitionStatus>,
    runtime_started: u64,
) -> Option<
    u64,
> {
    match transition {
        Some(status) => Some(status.started_at.saturating_sub(runtime_started) / 1000),
        None => None,
    }
}

fn started_us(transition: &Option<TransitionStatus>, runtime_started: u64) -> (r: Option<u64>)
    ensures
        r == started_us_of(*transition, runtime_started),
{
    match transition {
        Some(status) => Some(status.started_at.saturating_sub(runtime_started) / 1000),
        None => None,
    }
}

/// How long the phase of a change may last from now, in milliseconds.
pub open spec fn remaining_ms_of(transition: Option<TransitionStatus>, now: u64) -> Option<u64> {
    match transition {
        Some(status) => match status.deadline_at() {
            Some(deadline) => Some(deadline.saturating_sub(now) / 1_000_000),
            None => None,
        },
        None => None,
    }
}

fn remaining_ms(transition: &Option<TransitionStatus>, now: u64) -> (r: Option<u64>)
    ensures
        r == remaining_ms_of(*transition, now),
{
    match transition {
        Some(status) => match status.deadline() {
            Some(deadline) => Some(deadline.saturating_sub(now) / 1_000_000),
            None => None,
        },
        None => None,
    }
}

/// What the other end said, or nothing at all.
pub open spec fn told(feedback: Option<CapabilityFeedback>) -> CapabilityFeedback {
    match feedback {
        Some(feedback) => feedback,
        None => CapabilityFeedback::blank(),
    }
}

fn said_by(feedback: &Option<CapabilityFeedback>) -> (r: CapabilityFeedback)
    ensures
        r == told(*feedback),
{
    match feedback {
        Some(feedback) => *feedback,
        None => CapabilityFeedback::default(),
    }
}

/// What is wrong with the distance of the keyframes.
pub open spec fn interval_warning(state: SenderState<String>, force_failures: u64) -> Option<
    &'static str,
> {
    h264_send_probe::keyframe_warning(
        state.keyframe_control.configured,
        state.session.keyframe_target_frames,
        if state.samples.idr_interval_count > 0 {
            Some((state.samples.idr_interval_frames_total, state.samples.idr_interval_count))
        } else {
            None
        },
        force_failures,
    )
}

/// Says what is wrong with the distance of the keyframes.
pub fn keyframe_interval_warning(state: &SenderState<String>, force_failures: u64) -> (r: Option<
    &'static str,
>)
    ensures
        r == interval_warning(*state, force_failures),
{
    evaluate_keyframe_interval(
        state.keyframe_control.configured,
        state.session.keyframe_target_frames,
        observed_idr_intervals(&state.samples),
        force_failures,
    )
}

pub open spec fn effective_pacing(pacing: PacketPacing) -> Seq<char> {
    if pacing == PacketPacing::Off {
        "off"@
    } else {
        "batch"@
    }
}

/// Whether sound is sent.
pub open spec fn sounds(audio: AudioSendStats) -> bool {
    audio.enabled && audio.unavailable_reason is None
}

fn audio_sounds(audio: &AudioSendStats) -> (r: bool)
    ensures
        r == sounds(*audio),
{
    audio.enabled && audio.unavailable_reason.is_none()
}

/// Where the times of sound come from.
pub open spec fn timestamp_source(audio: AudioSendStats) -> Seq<char> {
    if audio.audio_capture_timestamp_source@.len() == 0 {
        "fallback_now"@
    } else {
        audio.audio_capture_timestamp_source@
    }
}

fn timestamp_source_name(audio: &AudioSendStats) -> (r: &str)
    ensures
        r@ == timestamp_source(*audio),
{
    proof {
        reveal_strlit("");
    }
    if text::same_text(audio.audio_capture_timestamp_source.as_str(), "") {
        assert(audio.audio_capture_timestamp_source@.len() == 0);
        "fallback_now"
    } else {
        assert(audio.audio_capture_timestamp_source@.len() == 0 ==> audio.audio_capture_timestamp_source@
            =~= ""@);
        audio.audio_capture_timestamp_source.as_str()
    }
}

/// Real numbers of `keyframe_metrics_fragment`, written in decimals.
#[derive(Debug)]
pub struct KeyframeMetricsFragmentTexts {
    pub keyframe_interval_requested_sec: String,
    pub keyframe_interval_observed_sec: String,
    pub keyframe_interval_observed_frames_avg: String,
    pub keyframe_force_latency_frames_avg: String,
}

/// How far apart the keyframes are, and what was asked of the encoder.
pub open spec fn keyframe_metrics_fragment_members(
    state: &SenderState<String>,
    force: &KeyframeForceStats,
    texts: &KeyframeMetricsFragmentTexts,
) -> Seq<Member> {
    seq![
        Member::Pair(
            "keyframe_interval_requested_sec"@,
            Value::Raw(texts.keyframe_interval_requested_sec@),
        ),
        Member::Pair(
            "keyframe_interval_target_frames"@,
            Value::Number(state.session.keyframe_target_frames as u64),
        ),
        Member::Pair(
            "keyframe_interval_observed_sec"@,
            Value::Raw(texts.keyframe_interval_observed_sec@),
        ),
        Member::Pair(
            "keyframe_interval_observed_frames_avg"@,
            Value::Raw(texts.keyframe_interval_observed_frames_avg@),
        ),
        Member::Pair(
            "keyframe_interval_warning"@,
            Value::MaybeQuoted(json::optional_view(interval_warning(*state, force.failures))),
        ),
        Member::Pair(
            "keyframe_config_method"@,
            Value::Quoted(state.keyframe_control.config_method@),
        ),
        Member::Pair(
            "keyframe_config_applied"@,
            Value::Flag(state.keyframe_control.config_applied),
        ),
        Member::Pair(
            "keyframe_config_error"@,
            Value::MaybeQuoted(text::optional(state.keyframe_control.config_error)),
        ),
        Member::Pair(
            "keyframe_force_supported"@,
            Value::Flag(state.keyframe_control.force_supported),
        ),
        Member::Pair("keyframe_force_requests"@, Value::Number(force.requests)),
        Member::Pair("keyframe_force_failures"@, Value::Number(force.failures)),
        Member::Pair(
            "keyframe_force_last_requested_frame_id"@,
            Value::Maybe(force.last_requested_frame_id),
        ),
        Member::Pair(
            "keyframe_force_last_effective_frame_id"@,
            Value::Maybe(force.last_effective_frame_id),
        ),
        Member::Pair(
            "keyframe_force_request_frame_ids"@,
            Value::Raw(json::number_array(force.request_frame_ids@)),
        ),
        Member::Pair(
            "keyframe_force_effective_frame_ids"@,
            Value::Raw(json::number_array(force.effective_frame_ids@)),
        ),
        Member::Pair(
            "keyframe_force_latency_frames"@,
            Value::Raw(json::number_array(force.latency_frames@)),
        ),
        Member::Pair(
            "keyframe_force_latency_frames_avg"@,
            Value::Raw(texts.keyframe_force_latency_frames_avg@),
        ),
        Member::Pair(
            "keyframe_force_latency_frames_max"@,
            Value::Number(force.latency_frames_max),
        ),
        Member::Pair("idr_frames_sent"@, Value::Number(state.samples.idr_frames)),
        Member::Pair("sps_pps_repeated"@, Value::Number(state.samples.sps_pps_repeated)),
    ]
}

/// How far apart the keyframes are, and what was asked of the encoder.
pub fn keyframe_metrics_fragment(
    state: &SenderState<String>,
    force: &KeyframeForceStats,
    texts: &KeyframeMetricsFragmentTexts,
) -> (r: String)
    ensures
        r@ == json::render(keyframe_metrics_fragment_members(state, force, texts)),
{
    let latency_frames: String = u64_json_array(force.latency_frames.as_slice());
    let effective_frame_ids: String = u64_json_array(force.effective_frame_ids.as_slice());
    let request_frame_ids: String = u64_json_array(force.request_frame_ids.as_slice());
    let warning: Option<&'static str> = keyframe_interval_warning(state, force.failures);
    let members: Fragment = Fragment::new()
        .raw("keyframe_interval_requested_sec", texts.keyframe_interval_requested_sec.as_str())
        .number("keyframe_interval_target_frames", state.session.keyframe_target_frames as u64)
        .raw("keyframe_interval_observed_sec", texts.keyframe_interval_observed_sec.as_str())
        .raw(
            "keyframe_interval_observed_frames_avg",
            texts.keyframe_interval_observed_frames_avg.as_str(),
        )
        .maybe_quoted("keyframe_interval_warning", warning)
        .quoted("keyframe_config_method", state.keyframe_control.config_method.as_str())
        .flag("keyframe_config_applied", state.keyframe_control.config_applied)
        .maybe_quoted(
            "keyframe_config_error",
            json::borrowed(&state.keyframe_control.config_error),
        )
        .flag("keyframe_force_supported", state.keyframe_control.force_supported)
        .number("keyframe_force_requests", force.requests)
        .number("keyframe_force_failures", force.failures)
        .maybe("keyframe_force_last_requested_frame_id", force.last_requested_frame_id)
        .maybe("keyframe_force_last_effective_frame_id", force.last_effective_frame_id)
        .raw("keyframe_force_request_frame_ids", request_frame_ids.as_str())
        .raw("keyframe_force_effective_frame_ids", effective_frame_ids.as_str())
        .raw("keyframe_force_latency_frames", latency_frames.as_str())
        .raw(
            "keyframe_force_latency_frames_avg",
            texts.keyframe_force_latency_frames_avg.as_str(),
        )
        .number("keyframe_force_latency_frames_max", force.latency_frames_max)
        .number("idr_frames_sent", state.samples.idr_frames)
        .number("sps_pps_repeated", state.samples.sps_pps_repeated);
    assert(members@ =~= keyframe_metrics_fragment_members(state, force, texts));
    members.finish()
}

/// Real numbers of `profile_transition_metrics_fragment`, written in decimals.
#[derive(Debug)]
pub struct ProfileTransitionMetricsFragmentTexts {
    pub profile_transition_elapsed_ms: String,
    pub mprf_ack_rtt_ms_avg: String,
    pub mprf_ack_rtt_ms_max: String,
}

/// How the change of profile stands.
pub open spec fn profile_transition_metrics_fragment_members(
    state: &SenderState<String>,
    control: &ControlCounters,
    transition: &Option<TransitionStatus>,
    waits: &EncoderWaits,
    runtime_started: u64,
    now: u64,
    texts: &ProfileTransitionMetricsFragmentTexts,
) -> Seq<Member> {
    seq![
        Member::Pair("profile_transition_phase"@, Value::Name(phase_of(*transition))),
        Member::Pair("profile_transition_active"@, Value::Flag(state.book.active)),
        Member::Pair(
            "profile_transition_change_sequence"@,
            Value::Number(sequence_of(*transition)),
        ),
        Member::Pair("profile_transition_generation"@, Value::Number(generation_of(*transition))),
        Member::Pair(
            "profile_transition_old_session_id"@,
            Value::Maybe(old_session_of(*transition)),
        ),
        Member::Pair(
            "profile_transition_new_session_id"@,
            Value::Maybe(new_session_of(*transition)),
        ),
        Member::Pair(
            "profile_transition_started_us"@,
            Value::Maybe(started_us_of(*transition, runtime_started)),
        ),
        Member::Pair(
            "profile_transition_elapsed_ms"@,
            Value::Raw(texts.profile_transition_elapsed_ms@),
        ),
        Member::Pair(
            "profile_transition_deadline_remaining_ms"@,
            Value::Maybe(remaining_ms_of(*transition, now)),
        ),
        Member::Pair(
            "profile_transition_timeout_count"@,
            Value::Number(state.book.timeout_count),
        ),
        Member::Pair(
            "profile_transition_rollback_count"@,
            Value::Number(state.book.rollback_count),
        ),
        Member::Pair(
            "profile_transition_failure_count"@,
            Value::Number(state.book.failure_count),
        ),
        Member::Pair(
            "profile_transition_last_failure_reason"@,
            Value::MaybeQuoted(text::optional(state.book.last_failure_reason)),
        ),
        Member::Pair(
            "profile_transition_failure_stage"@,
            Value::MaybeQuoted(text::optional(state.book.last_failure_stage)),
        ),
        Member::Pair("mprf_packets_sent"@, Value::Number(state.book.mprf_packets_sent)),
        Member::Pair("mprf_retry_attempts"@, Value::Number(state.book.mprf_retry_attempts)),
        Member::Pair(
            "mprf_ack_packets_received"@,
            Value::Number(control.mprf_ack_packets_received),
        ),
        Member::Pair(
            "mprf_ack_invalid"@,
            Value::Number(control.mprf_ack_invalid.saturating_add(state.book.unmatched_acks)),
        ),
        Member::Pair("mprf_ack_timeout"@, Value::Number(state.book.mprf_ack_timeout)),
        Member::Pair("mprf_ack_rtt_ms_avg"@, Value::Raw(texts.mprf_ack_rtt_ms_avg@)),
        Member::Pair("mprf_ack_rtt_ms_max"@, Value::Raw(texts.mprf_ack_rtt_ms_max@)),
        Member::Pair("new_pipeline_prepare_success"@, Value::Number(state.book.prepare_success)),
        Member::Pair("new_pipeline_prepare_error"@, Value::Number(state.book.prepare_error)),
        Member::Pair(
            "new_pipeline_prepare_last_error"@,
            Value::MaybeQuoted(text::optional(state.book.prepare_last_error)),
        ),
        Member::Pair("new_pipeline_first_idr_ready"@, Value::Flag(state.book.first_idr_ready)),
        Member::Pair("qsv_async_wait_timeouts"@, Value::Number(waits.async_wait_timeouts)),
        Member::Pair("qsv_async_wait_cancelled"@, Value::Number(waits.async_wait_cancelled)),
        Member::Pair("qsv_drain_timeouts"@, Value::Number(waits.drain_timeouts)),
    ]
}

/// How the change of profile stands.
pub fn profile_transition_metrics_fragment(
    state: &SenderState<String>,
    control: &ControlCounters,
    transition: &Option<TransitionStatus>,
    waits: &EncoderWaits,
    runtime_started: u64,
    now: u64,
    texts: &ProfileTransitionMetricsFragmentTexts,
) -> (r: String)
    ensures
        r@ == json::render(
            profile_transition_metrics_fragment_members(
                state,
                control,
                transition,
                waits,
                runtime_started,
                now,
                texts,
            ),
        ),
{
    let members: Fragment = Fragment::new()
        .name("profile_transition_phase", phase_name(transition))
        .flag("profile_transition_active", state.book.active)
        .number("profile_transition_change_sequence", change_sequence(transition))
        .number("profile_transition_generation", change_generation(transition))
        .maybe("profile_transition_old_session_id", old_session(transition))
        .maybe("profile_transition_new_session_id", new_session(transition))
        .maybe("profile_transition_started_us", started_us(transition, runtime_started))
        .raw("profile_transition_elapsed_ms", texts.profile_transition_elapsed_ms.as_str())
        .maybe("profile_transition_deadline_remaining_ms", remaining_ms(transition, now))
        .number("profile_transition_timeout_count", state.book.timeout_count)
        .number("profile_transition_rollback_count", state.book.rollback_count)
        .number("profile_transition_failure_count", state.book.failure_count)
        .maybe_quoted(
            "profile_transition_last_failure_reason",
            json::borrowed(&state.book.last_failure_reason),
        )
        .maybe_quoted(
            "profile_transition_failure_stage",
            json::borrowed(&state.book.last_failure_stage),
        )
        .number("mprf_packets_sent", state.book.mprf_packets_sent)
        .number("mprf_retry_attempts", state.book.mprf_retry_attempts)
        .number("mprf_ack_packets_received", control.mprf_ack_packets_received)
        .number(
            "mprf_ack_invalid",
            control.mprf_ack_invalid.saturating_add(state.book.unmatched_acks),
        )
        .number("mprf_ack_timeout", state.book.mprf_ack_timeout)
        .raw("mprf_ack_rtt_ms_avg", texts.mprf_ack_rtt_ms_avg.as_str())
        .raw("mprf_ack_rtt_ms_max", texts.mprf_ack_rtt_ms_max.as_str())
        .number("new_pipeline_prepare_success", state.book.prepare_success)
        .number("new_pipeline_prepare_error", state.book.prepare_error)
        .maybe_quoted(
            "new_pipeline_prepare_last_error",
            json::borrowed(&state.book.prepare_last_error),
        )
        .flag("new_pipeline_first_idr_ready", state.book.first_idr_ready)
        .number("qsv_async_wait_timeouts", waits.async_wait_timeouts)
        .number("qsv_async_wait_cancelled", waits.async_wait_cancelled)
        .number("qsv_drain_timeouts", waits.drain_timeouts);
    assert(members@ =~= profile_transition_metrics_fragment_members(
        state,
        control,
        transition,
        waits,
        runtime_started,
        now,
        texts,
    ));
    members.finish()
}

/// Real numbers of `adaptive_metrics_fragment`, written in decimals.
#[derive(Debug)]
pub struct AdaptiveMetricsFragmentTexts {
    pub receiver_refresh_hz: String,
    pub receiver_present_fps: String,
    pub receiver_present_interval_p95_ms: String,
    pub frame_budget_ms: String,
    pub capture_fps_ratio: String,
    pub encode_fps_ratio: String,
    pub receiver_fps_ratio: String,
    pub profile_change_duration_ms: String,
    pub bitrate_update_requested_mbps: String,
    pub bitrate_update_applied_mbps: String,
    pub bitrate_reconfigure_latency_ms: String,
    pub old_bitrate_bps: String,
    pub new_bitrate_bps: String,
    pub transition_settle_duration_ms: String,
    pub transition: ProfileTransitionMetricsFragmentTexts,
}

/// The first part of `adaptive_metrics_fragment`.
pub open spec fn adaptive_metrics_fragment_first(
    state: &SenderState<String>,
    feedback: &Option<CapabilityFeedback>,
    feedback_stats: &FeedbackTrackerStats,
    display: &str,
    frame_rate: &str,
    controller: &str,
    texts: &AdaptiveMetricsFragmentTexts,
) -> Seq<Member> {
    seq![
        Member::Fragment(display@),
        Member::Pair(
            "receiver_display_generation"@,
            Value::Number(told(*feedback).display_generation),
        ),
        Member::Pair(
            "receiver_refresh_num"@,
            Value::Number(told(*feedback).display_refresh_numerator as u64),
        ),
        Member::Pair(
            "receiver_refresh_den"@,
            Value::Number(told(*feedback).display_refresh_denominator as u64),
        ),
        Member::Pair("receiver_refresh_hz"@, Value::Raw(texts.receiver_refresh_hz@)),
        Member::Pair("receiver_present_fps"@, Value::Raw(texts.receiver_present_fps@)),
        Member::Pair(
            "receiver_present_interval_p95_ms"@,
            Value::Raw(texts.receiver_present_interval_p95_ms@),
        ),
        Member::Pair(
            "sender_capability_feedback_received"@,
            Value::Number(feedback_stats.received),
        ),
        Member::Pair(
            "sender_capability_feedback_invalid"@,
            Value::Number(feedback_stats.invalid),
        ),
        Member::Pair(
            "sender_capability_feedback_stale"@,
            Value::Number(feedback_stats.stale_events),
        ),
        Member::Pair("receiver_capability_stale"@, Value::Flag(*feedback is None)),
        Member::Pair("feedback_sample_eligible"@, Value::Flag(state.receiver.sample_eligible)),
        Member::Pair(
            "feedback_ineligible_reason"@,
            Value::MaybeQuoted(json::optional_view(state.receiver.ineligible_reason)),
        ),
        Member::Pair(
            "receiver_valid_feedback_windows"@,
            Value::Number(state.receiver.valid_feedback_windows as u64),
        ),
        Member::Pair("receiver_render_ready"@, Value::Flag(state.receiver.render_ready)),
        Member::Pair("receiver_profile_settled"@, Value::Flag(state.receiver.profile_settled)),
        Member::Pair(
            "receiver_feedback_profile_generation"@,
            Value::Number(told(*feedback).profile_generation),
        ),
        Member::Fragment(frame_rate@),
        Member::Fragment(controller@),
        Member::Pair("frame_budget_ms"@, Value::Raw(texts.frame_budget_ms@)),
    ]
}

fn add_adaptive_metrics_fragment_first(
    members: Fragment,
    state: &SenderState<String>,
    feedback: &Option<CapabilityFeedback>,
    feedback_stats: &FeedbackTrackerStats,
    display: &str,
    frame_rate: &str,
    controller: &str,
    texts: &AdaptiveMetricsFragmentTexts,
) -> (r: Fragment)
    ensures
        r@ == members@ + adaptive_metrics_fragment_first(
            state,
            feedback,
            feedback_stats,
            display,
            frame_rate,
            controller,
            texts,
        ),
{
    let said: CapabilityFeedback = said_by(feedback);
    let ghost before = members@;
    let r: Fragment = members
        .fragment(display)
        .number("receiver_display_generation", said.display_generation)
        .number("receiver_refresh_num", said.display_refresh_numerator as u64)
        .number("receiver_refresh_den", said.display_refresh_denominator as u64)
        .raw("receiver_refresh_hz", texts.receiver_refresh_hz.as_str())
        .raw("receiver_present_fps", texts.receiver_present_fps.as_str())
        .raw("receiver_present_interval_p95_ms", texts.receiver_present_interval_p95_ms.as_str())
        .number("sender_capability_feedback_received", feedback_stats.received)
        .number("sender_capability_feedback_invalid", feedback_stats.invalid)
        .number("sender_capability_feedback_stale", feedback_stats.stale_events)
        .flag("receiver_capability_stale", feedback.is_none())
        .flag("feedback_sample_eligible", state.receiver.sample_eligible)
        .maybe_quoted("feedback_ineligible_reason", state.receiver.ineligible_reason)
        .number("receiver_valid_feedback_windows", state.receiver.valid_feedback_windows as u64)
        .flag("receiver_render_ready", state.receiver.render_ready)
        .flag("receiver_profile_settled", state.receiver.profile_settled)
        .number("receiver_feedback_profile_generation", said.profile_generation)
        .fragment(frame_rate)
        .fragment(controller)
        .raw("frame_budget_ms", texts.frame_budget_ms.as_str());
    assert(r@ =~= before + adaptive_metrics_fragment_first(
        state,
        feedback,
        feedback_stats,
        display,
        frame_rate,
        controller,
        texts,
    ));
    r
}

/// The second part of `adaptive_metrics_fragment`.
pub open spec fn adaptive_metrics_fragment_second(
    state: &SenderState<String>,
    texts: &AdaptiveMetricsFragmentTexts,
) -> Seq<Member> {
    seq![
        Member::Pair("capture_fps_ratio"@, Value::Raw(texts.capture_fps_ratio@)),
        Member::Pair("encode_fps_ratio"@, Value::Raw(texts.encode_fps_ratio@)),
        Member::Pair("sender_fps_ratio"@, Value::Raw(texts.encode_fps_ratio@)),
        Member::Pair("receiver_fps_ratio"@, Value::Raw(texts.receiver_fps_ratio@)),
        Member::Pair("profile_change_sequence"@, Value::Number(state.session.change_sequence)),
        Member::Pair("old_video_session_id"@, Value::Maybe(state.session.old_session_id)),
        Member::Pair("new_video_session_id"@, Value::Number(state.session.session_id)),
        Member::Pair("profile_change_started_us"@, Value::Maybe(state.session.change_started_us)),
        Member::Pair(
            "profile_change_completed_us"@,
            Value::Maybe(state.session.change_completed_us),
        ),
        Member::Pair(
            "profile_change_duration_ms"@,
            Value::Raw(texts.profile_change_duration_ms@),
        ),
        Member::Pair(
            "profile_change_idr_frame_id"@,
            Value::Maybe(state.session.change_idr_frame_id),
        ),
        Member::Pair("encoder_reconfigure_success"@, Value::Flag(state.session.reconfigured)),
        Member::Pair(
            "encoder_reconfigure_error"@,
            Value::MaybeQuoted(text::optional(state.reconfigure_error)),
        ),
        Member::Pair(
            "bitrate_update_requested_mbps"@,
            Value::Raw(texts.bitrate_update_requested_mbps@),
        ),
        Member::Pair(
            "bitrate_update_applied_mbps"@,
            Value::Raw(texts.bitrate_update_applied_mbps@),
        ),
        Member::Pair("bitrate_update_method"@, Value::Quoted(state.bitrate.method@)),
        Member::Pair(
            "bitrate_update_success"@,
            Value::Raw(json::optional_flag(state.bitrate.success)),
        ),
        Member::Pair(
            "bitrate_update_error"@,
            Value::MaybeQuoted(text::optional(state.bitrate.error)),
        ),
        Member::Pair(
            "profile_change_reason"@,
            Value::MaybeQuoted(text::optional(state.change_reason)),
        ),
        Member::Pair(
            "bitrate_reconfigure_requested"@,
            Value::Flag(state.bitrate.requested_mbps is Some),
        ),
    ]
}

fn add_adaptive_metrics_fragment_second(
    members: Fragment,
    state: &SenderState<String>,
    texts: &AdaptiveMetricsFragmentTexts,
) -> (r: Fragment)
    ensures
        r@ == members@ + adaptive_metrics_fragment_second(state, texts),
{
    let success: String = optional_bool_json(state.bitrate.success);
    let ghost before = members@;
    let r: Fragment = members
        .raw("capture_fps_ratio", texts.capture_fps_ratio.as_str())
        .raw("encode_fps_ratio", texts.encode_fps_ratio.as_str())
        .raw("sender_fps_ratio", texts.encode_fps_ratio.as_str())
        .raw("receiver_fps_ratio", texts.receiver_fps_ratio.as_str())
        .number("profile_change_sequence", state.session.change_sequence)
        .maybe("old_video_session_id", state.session.old_session_id)
        .number("new_video_session_id", state.session.session_id)
        .maybe("profile_change_started_us", state.session.change_started_us)
        .maybe("profile_change_completed_us", state.session.change_completed_us)
        .raw("profile_change_duration_ms", texts.profile_change_duration_ms.as_str())
        .maybe("profile_change_idr_frame_id", state.session.change_idr_frame_id)
        .flag("encoder_reconfigure_success", state.session.reconfigured)
        .maybe_quoted("encoder_reconfigure_error", json::borrowed(&state.reconfigure_error))
        .raw("bitrate_update_requested_mbps", texts.bitrate_update_requested_mbps.as_str())
        .raw("bitrate_update_applied_mbps", texts.bitrate_update_applied_mbps.as_str())
        .quoted("bitrate_update_method", state.bitrate.method)
        .raw("bitrate_update_success", success.as_str())
        .maybe_quoted("bitrate_update_error", json::borrowed(&state.bitrate.error))
        .maybe_quoted("profile_change_reason", json::borrowed(&state.change_reason))
        .flag("bitrate_reconfigure_requested", state.bitrate.requested_mbps.is_some());
    assert(r@ =~= before + adaptive_metrics_fragment_second(state, texts));
    r
}

/// The third part of `adaptive_metrics_fragment`.
pub open spec fn adaptive_metrics_fragment_third(
    setup: &SenderSetup,
    state: &SenderState<String>,
    transition_metrics: Seq<char>,
    texts: &AdaptiveMetricsFragmentTexts,
) -> Seq<Member> {
    seq![
        Member::Pair(
            "bitrate_reconfigure_success"@,
            Value::Raw(json::optional_flag(state.bitrate.success)),
        ),
        Member::Pair(
            "bitrate_reconfigure_latency_ms"@,
            Value::Raw(texts.bitrate_reconfigure_latency_ms@),
        ),
        Member::Pair("old_bitrate_bps"@, Value::Raw(texts.old_bitrate_bps@)),
        Member::Pair("new_bitrate_bps"@, Value::Raw(texts.new_bitrate_bps@)),
        Member::Pair(
            "bitrate_reconfigure_idr_requested"@,
            Value::Flag(state.bitrate.idr_requested),
        ),
        Member::Pair(
            "fallback_to_full_transition"@,
            Value::Flag(state.bitrate.fallback_to_full_transition),
        ),
        Member::Pair(
            "receiver_profile_acknowledged"@,
            Value::Flag(state.receiver.profile_acknowledged),
        ),
        Member::Pair(
            "receiver_first_idr_decoded"@,
            Value::Flag(state.receiver.first_idr_decoded),
        ),
        Member::Pair(
            "receiver_first_frame_rendered"@,
            Value::Flag(state.receiver.first_frame_rendered),
        ),
        Member::Pair(
            "transition_feedback_ignored"@,
            Value::Number(state.receiver.feedback_ignored),
        ),
        Member::Pair(
            "transition_settle_windows"@,
            Value::Number(state.receiver.settle_windows as u64),
        ),
        Member::Pair(
            "transition_settle_duration_ms"@,
            Value::Raw(texts.transition_settle_duration_ms@),
        ),
        Member::Pair("display_refresh_detect"@, Value::Name(setup.display_refresh_detect.text())),
        Member::Pair("max_fps_requested"@, Value::Name(setup.max_fps.text())),
        Member::Fragment(transition_metrics),
    ]
}

fn add_adaptive_metrics_fragment_third(
    members: Fragment,
    setup: &SenderSetup,
    state: &SenderState<String>,
    transition_metrics: &str,
    texts: &AdaptiveMetricsFragmentTexts,
) -> (r: Fragment)
    ensures
        r@ == members@ + adaptive_metrics_fragment_third(setup, state, transition_metrics@, texts),
{
    let success: String = optional_bool_json(state.bitrate.success);
    let max_fps: String = setup.max_fps.name();
    let ghost before = members@;
    let r: Fragment = members
        .raw("bitrate_reconfigure_success", success.as_str())
        .raw("bitrate_reconfigure_latency_ms", texts.bitrate_reconfigure_latency_ms.as_str())
        .raw("old_bitrate_bps", texts.old_bitrate_bps.as_str())
        .raw("new_bitrate_bps", texts.new_bitrate_bps.as_str())
        .flag("bitrate_reconfigure_idr_requested", state.bitrate.idr_requested)
        .flag("fallback_to_full_transition", state.bitrate.fallback_to_full_transition)
        .flag("receiver_profile_acknowledged", state.receiver.profile_acknowledged)
        .flag("receiver_first_idr_decoded", state.receiver.first_idr_decoded)
        .flag("receiver_first_frame_rendered", state.receiver.first_frame_rendered)
        .number("transition_feedback_ignored", state.receiver.feedback_ignored)
        .number("transition_settle_windows", state.receiver.settle_windows as u64)
        .raw("transition_settle_duration_ms", texts.transition_settle_duration_ms.as_str())
        .name("display_refresh_detect", setup.display_refresh_detect.name())
        .name("max_fps_requested", max_fps.as_str())
        .fragment(transition_metrics);
    assert(
        r@ =~= before + adaptive_metrics_fragment_third(setup, state, transition_metrics@, texts)
    );
    r
}

/// What steers the quality, and how the change of profile stands.
pub open spec fn adaptive_metrics_fragment_members(
    setup: &SenderSetup,
    state: &SenderState<String>,
    control: &ControlCounters,
    transition: &Option<TransitionStatus>,
    waits: &EncoderWaits,
    runtime_started: u64,
    now: u64,
    feedback: &Option<CapabilityFeedback>,
    feedback_stats: &FeedbackTrackerStats,
    display: &str,
    frame_rate: &str,
    controller: &str,
    texts: &AdaptiveMetricsFragmentTexts,
) -> Seq<Member> {
    adaptive_metrics_fragment_first(
        state,
        feedback,
        feedback_stats,
        display,
        frame_rate,
        controller,
        texts,
    ) + adaptive_metrics_fragment_second(state, texts) + adaptive_metrics_fragment_third(
        setup,
        state,
        json::render(
            profile_transition_metrics_fragment_members(
                state,
                control,
                transition,
                waits,
                runtime_started,
                now,
                &texts.transition,
            ),
        ),
        texts,
    )
}

/// What steers the quality, and how the change of profile stands.  `display`, `frame_rate`
/// and `controller` are what the display, the choice of the frame rate and the controller
/// of the quality report of themselves.
pub fn adaptive_metrics_fragment(
    setup: &SenderSetup,
    state: &SenderState<String>,
    control: &ControlCounters,
    transition: &Option<TransitionStatus>,
    waits: &EncoderWaits,
    runtime_started: u64,
    now: u64,
    feedback: &Option<CapabilityFeedback>,
    feedback_stats: &FeedbackTrackerStats,
    display: &str,
    frame_rate: &str,
    controller: &str,
    texts: &AdaptiveMetricsFragmentTexts,
) -> (r: String)
    ensures
        r@ == json::render(
            adaptive_metrics_fragment_members(
                setup,
                state,
                control,
                transition,
                waits,
                runtime_started,
                now,
                feedback,
                feedback_stats,
                display,
                frame_rate,
                controller,
                texts,
            ),
        ),
{
    let transition_metrics: String = profile_transition_metrics_fragment(
        state,
        control,
        transition,
        waits,
        runtime_started,
        now,
        &texts.transition,
    );
    let members: Fragment = Fragment::new();
    let members: Fragment = add_adaptive_metrics_fragment_first(
        members,
        state,
        feedback,
        feedback_stats,
        display,
        frame_rate,
        controller,
        texts,
    );
    let members: Fragment = add_adaptive_metrics_fragment_second(members, state, texts);
    let members: Fragment = add_adaptive_metrics_fragment_third(
        members,
        setup,
        state,
        transition_metrics.as_str(),
        texts,
    );
    assert(members@ =~= adaptive_metrics_fragment_members(
        setup,
        state,
        control,
        transition,
        waits,
        runtime_started,
        now,
        feedback,
        feedback_stats,
        display,
        frame_rate,
        controller,
        texts,
    ));
    members.finish()
}

/// Real numbers of `audio_metrics_fragment`, written in decimals.
#[derive(Debug)]
pub struct AudioMetricsFragmentTexts {
    pub audio_send_syscall_ms_avg: String,
    pub audio_send_syscall_ms_max: String,
    pub audio_worker_loop_ms_avg: String,
    pub audio_worker_loop_ms_max: String,
    pub av_timestamp_delta_ms_avg: String,
    pub av_timestamp_delta_ms_max: String,
}

/// The first part of `audio_metrics_fragment`.
pub open spec fn audio_metrics_fragment_first(
    setup: &SenderSetup,
    state: &SenderState<String>,
    audio: &AudioSendStats,
) -> Seq<Member> {
    seq![
        Member::Pair("audio_enabled"@, Value::Flag(sounds(*audio))),
        Member::Pair("audio_mode"@, Value::Name(setup.audio_mode.text())),
        Member::Pair("audio_thread_started"@, Value::Flag(audio.thread_started)),
        Member::Pair("audio_capture_thread_started"@, Value::Flag(audio.capture_thread_started)),
        Member::Pair("audio_send_thread_started"@, Value::Flag(audio.send_thread_started)),
        Member::Pair(
            "audio_capture_wait_mode"@,
            Value::Name(if audio.capture_thread_started { "wasapi-event"@ } else { "disabled"@ }),
        ),
        Member::Pair("timer_resolution_changed"@, Value::Flag(false)),
        Member::Pair("audio_playback_started"@, Value::Flag(false)),
        Member::Pair(
            "av_sync_enabled"@,
            Value::Flag(audio.thread_started && audio.unavailable_reason is None),
        ),
        Member::Pair("video_sync_gating_enabled"@, Value::Flag(false)),
        Member::Pair(
            "audio_session_id"@,
            Value::Maybe(if sounds(*audio) { Some(state.session.session_id) } else { None }),
        ),
        Member::Pair("audio_sample_rate"@, Value::Number(audio.sample_rate)),
        Member::Pair("audio_channels"@, Value::Number(audio.channels)),
        Member::Pair("audio_packets_sent"@, Value::Number(audio.packets_sent)),
        Member::Pair("audio_bytes_sent"@, Value::Number(audio.bytes_sent)),
        Member::Pair("audio_capture_glitches"@, Value::Number(audio.capture_glitches)),
        Member::Pair("audio_capture_empty_polls"@, Value::Number(audio.capture_empty_polls)),
    ]
}

fn add_audio_metrics_fragment_first(
    members: Fragment,
    setup: &SenderSetup,
    state: &SenderState<String>,
    audio: &AudioSendStats,
) -> (r: Fragment)
    ensures
        r@ == members@ + audio_metrics_fragment_first(setup, state, audio),
{
    let ghost before = members@;
    let r: Fragment = members
        .flag("audio_enabled", audio_sounds(audio))
        .name("audio_mode", setup.audio_mode.name())
        .flag("audio_thread_started", audio.thread_started)
        .flag("audio_capture_thread_started", audio.capture_thread_started)
        .flag("audio_send_thread_started", audio.send_thread_started)
        .name(
            "audio_capture_wait_mode",
            if audio.capture_thread_started { "wasapi-event" } else { "disabled" },
        )
        .flag("timer_resolution_changed", false)
        .flag("audio_playback_started", false)
        .flag("av_sync_enabled", audio.thread_started && audio.unavailable_reason.is_none())
        .flag("video_sync_gating_enabled", false)
        .maybe(
            "audio_session_id",
            if audio_sounds(audio) { Some(state.session.session_id) } else { None },
        )
        .number("audio_sample_rate", audio.sample_rate)
        .number("audio_channels", audio.channels)
        .number("audio_packets_sent", audio.packets_sent)
        .number("audio_bytes_sent", audio.bytes_sent)
        .number("audio_capture_glitches", audio.capture_glitches)
        .number("audio_capture_empty_polls", audio.capture_empty_polls);
    assert(r@ =~= before + audio_metrics_fragment_first(setup, state, audio));
    r
}

/// The second part of `audio_metrics_fragment`.
pub open spec fn audio_metrics_fragment_second(
    audio: &AudioSendStats,
    texts: &AudioMetricsFragmentTexts,
) -> Seq<Member> {
    seq![
        Member::Pair("audio_capture_timestamp_source"@, Value::Name(timestamp_source(*audio))),
        Member::Pair(
            "audio_capture_qpc_available"@,
            Value::Flag(audio.audio_capture_qpc_available),
        ),
        Member::Pair("audio_capture_qpc_errors"@, Value::Number(audio.audio_capture_qpc_errors)),
        Member::Pair(
            "audio_capture_timestamp_discontinuities"@,
            Value::Number(audio.audio_capture_timestamp_discontinuities),
        ),
        Member::Pair("audio_capture_underruns"@, Value::Number(0)),
        Member::Pair(
            "audio_send_queue_depth_current"@,
            Value::Number(audio.audio_send_queue_depth_current),
        ),
        Member::Pair(
            "audio_send_queue_depth_max"@,
            Value::Number(audio.audio_send_queue_depth_max),
        ),
        Member::Pair("audio_send_queue_drops"@, Value::Number(audio.audio_send_queue_drops)),
        Member::Pair("audio_send_syscall_ms_avg"@, Value::Raw(texts.audio_send_syscall_ms_avg@)),
        Member::Pair("audio_send_syscall_ms_max"@, Value::Raw(texts.audio_send_syscall_ms_max@)),
        Member::Pair("audio_worker_loop_ms_avg"@, Value::Raw(texts.audio_worker_loop_ms_avg@)),
        Member::Pair("audio_worker_loop_ms_max"@, Value::Raw(texts.audio_worker_loop_ms_max@)),
        Member::Pair(
            "audio_unavailable_reason"@,
            Value::MaybeQuoted(text::optional(audio.unavailable_reason)),
        ),
        Member::Pair("last_audio_timestamp_us"@, Value::Maybe(audio.last_audio_timestamp_us)),
        Member::Pair("av_timestamp_delta_ms_avg"@, Value::Raw(texts.av_timestamp_delta_ms_avg@)),
        Member::Pair("av_timestamp_delta_ms_max"@, Value::Raw(texts.av_timestamp_delta_ms_max@)),
    ]
}

fn add_audio_metrics_fragment_second(
    members: Fragment,
    audio: &AudioSendStats,
    texts: &AudioMetricsFragmentTexts,
) -> (r: Fragment)
    ensures
        r@ == members@ + audio_metrics_fragment_second(audio, texts),
{
    let ghost before = members@;
    let r: Fragment = members
        .name("audio_capture_timestamp_source", timestamp_source_name(audio))
        .flag("audio_capture_qpc_available", audio.audio_capture_qpc_available)
        .number("audio_capture_qpc_errors", audio.audio_capture_qpc_errors)
        .number(
            "audio_capture_timestamp_discontinuities",
            audio.audio_capture_timestamp_discontinuities,
        )
        .number("audio_capture_underruns", 0)
        .number("audio_send_queue_depth_current", audio.audio_send_queue_depth_current)
        .number("audio_send_queue_depth_max", audio.audio_send_queue_depth_max)
        .number("audio_send_queue_drops", audio.audio_send_queue_drops)
        .raw("audio_send_syscall_ms_avg", texts.audio_send_syscall_ms_avg.as_str())
        .raw("audio_send_syscall_ms_max", texts.audio_send_syscall_ms_max.as_str())
        .raw("audio_worker_loop_ms_avg", texts.audio_worker_loop_ms_avg.as_str())
        .raw("audio_worker_loop_ms_max", texts.audio_worker_loop_ms_max.as_str())
        .maybe_quoted("audio_unavailable_reason", json::borrowed(&audio.unavailable_reason))
        .maybe("last_audio_timestamp_us", audio.last_audio_timestamp_us)
        .raw("av_timestamp_delta_ms_avg", texts.av_timestamp_delta_ms_avg.as_str())
        .raw("av_timestamp_delta_ms_max", texts.av_timestamp_delta_ms_max.as_str());
    assert(r@ =~= before + audio_metrics_fragment_second(audio, texts));
    r
}

/// What became of the sound.
pub open spec fn audio_metrics_fragment_members(
    setup: &SenderSetup,
    state: &SenderState<String>,
    audio: &AudioSendStats,
    texts: &AudioMetricsFragmentTexts,
) -> Seq<Member> {
    audio_metrics_fragment_first(setup, state, audio)
        + audio_metrics_fragment_second(audio, texts)
}

/// What became of the sound.
pub fn audio_metrics_fragment(
    setup: &SenderSetup,
    state: &SenderState<String>,
    audio: &AudioSendStats,
    texts: &AudioMetricsFragmentTexts,
) -> (r: String)
    ensures
        r@ == json::render(audio_metrics_fragment_members(setup, state, audio, texts)),
{
    let members: Fragment = Fragment::new();
    let members: Fragment = add_audio_metrics_fragment_first(members, setup, state, audio);
    let members: Fragment = add_audio_metrics_fragment_second(members, audio, texts);
    assert(members@ =~= audio_metrics_fragment_members(setup, state, audio, texts));
    members.finish()
}

/// Real numbers of `repair_metrics_fragment`, written in decimals.
#[derive(Debug)]
pub struct RepairMetricsFragmentTexts {
    pub repair_overhead_ratio_vs_data: String,
    pub repair_resend_packets_per_second: String,
    pub repair_cache_hit_rate: String,
    pub duplicate_repair_ratio_1s: String,
    pub duplicate_repair_ratio_run_total: String,
}

/// The first part of `repair_metrics_fragment`.
pub open spec fn repair_metrics_fragment_first(
    setup: &SenderSetup,
    pacing: &PacingCounters,
    control: &ControlCounters,
    cache: &RepairCacheStats,
) -> Seq<Member> {
    seq![
        Member::Pair("repair_mode"@, Value::Name(setup.repair_mode.text())),
        Member::Pair("repair_cache_ms"@, Value::Number(setup.repair_cache_ms)),
        Member::Pair("repair_cache_packets"@, Value::Number(cache.packets)),
        Member::Pair("repair_cache_bytes"@, Value::Number(cache.bytes)),
        Member::Pair("repair_cache_evictions"@, Value::Number(cache.evictions)),
        Member::Pair("video_data_packets_sent"@, Value::Number(pacing.data_packets_sent)),
        Member::Pair("nack_packets_received"@, Value::Number(control.nack_packets_received)),
        Member::Pair("nack_items_received"@, Value::Number(control.nack_items_received)),
        Member::Pair("repair_packets_resent"@, Value::Number(control.repair_packets_resent)),
        Member::Pair("repair_send_bytes"@, Value::Number(control.repair_send_bytes)),
        Member::Pair("repair_cache_hits"@, Value::Number(control.repair_cache_hits)),
        Member::Pair("repair_cache_misses"@, Value::Number(control.repair_cache_misses)),
        Member::Pair(
            "repair_cache_miss_not_found"@,
            Value::Number(control.repair_cache_miss_not_found),
        ),
        Member::Pair(
            "repair_cache_miss_expired"@,
            Value::Number(control.repair_cache_miss_expired),
        ),
        Member::Pair(
            "repair_cache_miss_evicted"@,
            Value::Number(control.repair_cache_miss_evicted),
        ),
        Member::Pair(
            "repair_cache_miss_wrong_session"@,
            Value::Number(control.repair_cache_miss_wrong_session),
        ),
        Member::Pair("repair_cache_expired"@, Value::Number(cache.evictions)),
        Member::Pair("repair_rate_limited"@, Value::Number(control.repair_rate_limited)),
        Member::Pair("repair_send_errors"@, Value::Number(control.repair_send_errors)),
        Member::Pair(
            "repair_send_socket_errors"@,
            Value::Number(control.repair_send_socket_errors),
        ),
    ]
}

fn add_repair_metrics_fragment_first(
    members: Fragment,
    setup: &SenderSetup,
    pacing: &PacingCounters,
    control: &ControlCounters,
    cache: &RepairCacheStats,
) -> (r: Fragment)
    ensures
        r@ == members@ + repair_metrics_fragment_first(setup, pacing, control, cache),
{
    let ghost before = members@;
    let r: Fragment = members
        .name("repair_mode", setup.repair_mode.name())
        .number("repair_cache_ms", setup.repair_cache_ms)
        .number("repair_cache_packets", cache.packets)
        .number("repair_cache_bytes", cache.bytes)
        .number("repair_cache_evictions", cache.evictions)
        .number("video_data_packets_sent", pacing.data_packets_sent)
        .number("nack_packets_received", control.nack_packets_received)
        .number("nack_items_received", control.nack_items_received)
        .number("repair_packets_resent", control.repair_packets_resent)
        .number("repair_send_bytes", control.repair_send_bytes)
        .number("repair_cache_hits", control.repair_cache_hits)
        .number("repair_cache_misses", control.repair_cache_misses)
        .number("repair_cache_miss_not_found", control.repair_cache_miss_not_found)
        .number("repair_cache_miss_expired", control.repair_cache_miss_expired)
        .number("repair_cache_miss_evicted", control.repair_cache_miss_evicted)
        .number("repair_cache_miss_wrong_session", control.repair_cache_miss_wrong_session)
        .number("repair_cache_expired", cache.evictions)
        .number("repair_rate_limited", control.repair_rate_limited)
        .number("repair_send_errors", control.repair_send_errors)
        .number("repair_send_socket_errors", control.repair_send_socket_errors);
    assert(r@ =~= before + repair_metrics_fragment_first(setup, pacing, control, cache));
    r
}

/// The second part of `repair_metrics_fragment`.
pub open spec fn repair_metrics_fragment_second(
    setup: &SenderSetup,
    control: &ControlCounters,
    texts: &RepairMetricsFragmentTexts,
) -> Seq<Member> {
    seq![
        Member::Pair("repair_recv_thread_running"@, Value::Flag(setup.control_running)),
        Member::Pair("repair_overhead_packets"@, Value::Number(control.repair_packets_resent)),
        Member::Pair(
            "repair_overhead_ratio_vs_data"@,
            Value::Raw(texts.repair_overhead_ratio_vs_data@),
        ),
        Member::Pair(
            "repair_overhead_ratio_run_total"@,
            Value::Raw(texts.repair_overhead_ratio_vs_data@),
        ),
        Member::Pair(
            "repair_resend_packets_per_second"@,
            Value::Raw(texts.repair_resend_packets_per_second@),
        ),
        Member::Pair("repair_cache_hit_rate"@, Value::Raw(texts.repair_cache_hit_rate@)),
        Member::Pair("repair_request_total"@, Value::Number(control.repair_request_total)),
        Member::Pair("repair_request_deduped"@, Value::Number(control.repair_request_deduped)),
        Member::Pair("repair_send_suppressed"@, Value::Number(control.repair_send_suppressed)),
        Member::Pair("repair_cancelled_frame_complete"@, Value::Number(0)),
        Member::Pair(
            "repair_cancelled_deadline"@,
            Value::Number(control.repair_cancelled_deadline),
        ),
        Member::Pair("duplicate_repair_ratio_1s"@, Value::Raw(texts.duplicate_repair_ratio_1s@)),
        Member::Pair(
            "duplicate_repair_ratio_run_total"@,
            Value::Raw(texts.duplicate_repair_ratio_run_total@),
        ),
        Member::Pair("late_repair_ratio_1s"@, Value::Raw("null"@)),
        Member::Pair(
            "stream_close_received"@,
            Value::Number(control.stream_close_packets_received),
        ),
        Member::Pair(
            "stream_close_ack_sent"@,
            Value::Number(control.stream_close_ack_packets_sent),
        ),
        Member::Pair(
            "stream_close_ack_received"@,
            Value::Number(control.stream_close_ack_packets_received),
        ),
        Member::Pair("stream_close_invalid"@, Value::Number(control.stream_close_invalid)),
    ]
}

fn add_repair_metrics_fragment_second(
    members: Fragment,
    setup: &SenderSetup,
    control: &ControlCounters,
    texts: &RepairMetricsFragmentTexts,
) -> (r: Fragment)
    ensures
        r@ == members@ + repair_metrics_fragment_second(setup, control, texts),
{
    let ghost before = members@;
    let r: Fragment = members
        .flag("repair_recv_thread_running", setup.control_running)
        .number("repair_overhead_packets", control.repair_packets_resent)
        .raw("repair_overhead_ratio_vs_data", texts.repair_overhead_ratio_vs_data.as_str())
        .raw("repair_overhead_ratio_run_total", texts.repair_overhead_ratio_vs_data.as_str())
        .raw("repair_resend_packets_per_second", texts.repair_resend_packets_per_second.as_str())
        .raw("repair_cache_hit_rate", texts.repair_cache_hit_rate.as_str())
        .number("repair_request_total", control.repair_request_total)
        .number("repair_request_deduped", control.repair_request_deduped)
        .number("repair_send_suppressed", control.repair_send_suppressed)
        .number("repair_cancelled_frame_complete", 0)
        .number("repair_cancelled_deadline", control.repair_cancelled_deadline)
        .raw("duplicate_repair_ratio_1s", texts.duplicate_repair_ratio_1s.as_str())
        .raw("duplicate_repair_ratio_run_total", texts.duplicate_repair_ratio_run_total.as_str())
        .raw("late_repair_ratio_1s", "null")
        .number("stream_close_received", control.stream_close_packets_received)
        .number("stream_close_ack_sent", control.stream_close_ack_packets_sent)
        .number("stream_close_ack_received", control.stream_close_ack_packets_received)
        .number("stream_close_invalid", control.stream_close_invalid);
    assert(r@ =~= before + repair_metrics_fragment_second(setup, control, texts));
    r
}

/// What became of requests to send packets again.
pub open spec fn repair_metrics_fragment_members(
    setup: &SenderSetup,
    pacing: &PacingCounters,
    control: &ControlCounters,
    cache: &RepairCacheStats,
    texts: &RepairMetricsFragmentTexts,
) -> Seq<Member> {
    repair_metrics_fragment_first(setup, pacing, control, cache)
        + repair_metrics_fragment_second(setup, control, texts)
}

/// What became of requests to send packets again.
pub fn repair_metrics_fragment(
    setup: &SenderSetup,
    pacing: &PacingCounters,
    control: &ControlCounters,
    cache: &RepairCacheStats,
    texts: &RepairMetricsFragmentTexts,
) -> (r: String)
    ensures
        r@ == json::render(repair_metrics_fragment_members(setup, pacing, control, cache, texts)),
{
    let members: Fragment = Fragment::new();
    let members: Fragment = add_repair_metrics_fragment_first(
        members,
        setup,
        pacing,
        control,
        cache,
    );
    let members: Fragment = add_repair_metrics_fragment_second(members, setup, control, texts);
    assert(members@ =~= repair_metrics_fragment_members(setup, pacing, control, cache, texts));
    members.finish()
}

/// Real numbers of `conversion_metrics_fragment`, written in decimals.
#[derive(Debug)]
pub struct ConversionMetricsFragmentTexts {
    pub gpu_convert_ms_avg: String,
    pub cpu_convert_ms_avg: String,
}

/// How long pictures took to be converted.
pub open spec fn conversion_metrics_fragment_members(
    conversion: &str,
    texts: &ConversionMetricsFragmentTexts,
) -> Seq<Member> {
    seq![
        Member::Fragment(conversion@),
        Member::Pair("gpu_convert_ms_avg"@, Value::Raw(texts.gpu_convert_ms_avg@)),
        Member::Pair("cpu_convert_ms_avg"@, Value::Raw(texts.cpu_convert_ms_avg@)),
    ]
}

/// How long pictures took to be converted.
pub fn conversion_metrics_fragment(
    conversion: &str,
    texts: &ConversionMetricsFragmentTexts,
) -> (r: String)
    ensures
        r@ == json::render(conversion_metrics_fragment_members(conversion, texts)),
{
    let members: Fragment = Fragment::new()
        .fragment(conversion)
        .raw("gpu_convert_ms_avg", texts.gpu_convert_ms_avg.as_str())
        .raw("cpu_convert_ms_avg", texts.cpu_convert_ms_avg.as_str());
    assert(members@ =~= conversion_metrics_fragment_members(conversion, texts));
    members.finish()
}

/// Real numbers of how packets were spread over time, written in decimals.  A number that
/// stands under several names is given once.
#[derive(Debug)]
pub struct PacingMetricsFragmentTexts {
    pub packets_per_second: String,
    pub avg_packets_per_frame: String,
    pub packet_pacing_batch_avg: String,
    pub packet_pacing_late_us_avg: String,
    pub packet_pacing_late_us_max: String,
    pub packet_pacing_sleep_ms_avg: String,
    pub video_pacing_late_us_p50: String,
    pub video_pacing_late_us_p95: String,
    pub video_pacing_late_us_p99: String,
    pub video_send_syscall_ms_avg: String,
    pub video_send_syscall_ms_max: String,
    pub video_worker_loop_ms_avg: String,
    pub video_worker_loop_ms_max: String,
    pub fec_overhead_ratio: String,
}

/// The time between two batches in milliseconds, zero where packets go out as they come.
pub open spec fn tick_ms(pacing: PacketPacing) -> Seq<char> {
    text::thousandths(
        if pacing != PacketPacing::Off {
            PACING_TICK as int / 1000
        } else {
            0
        },
    )
}

fn tick_ms_text(pacing: PacketPacing) -> (r: String)
    ensures
        r@ == tick_ms(pacing),
{
    if pacing.uses_batch() {
        text::thousandths_text(PACING_TICK as i64 / 1000)
    } else {
        text::thousandths_text(0)
    }
}

/// The first part of how packets were spread over time.
pub open spec fn pacing_metrics_fragment_first(
    setup: &SenderSetup,
    pacing: &PacingCounters,
    texts: &PacingMetricsFragmentTexts,
) -> Seq<Member> {
    seq![
        Member::Pair("udp_send_buffer_bytes"@, Value::Signed(setup.udp_send_buffer_bytes as i64)),
        Member::Pair(
            "udp_send_buffer_bytes_requested"@,
            Value::Signed(setup.udp_send_buffer_bytes_requested as i64),
        ),
        Member::Pair(
            "udp_send_buffer_bytes_actual"@,
            Value::Signed(setup.udp_send_buffer_bytes as i64),
        ),
        Member::Pair("udp_payload_size"@, Value::Number(setup.udp_payload_size as u64)),
        Member::Pair("packets_per_second"@, Value::Raw(texts.packets_per_second@)),
        Member::Pair("avg_packets_per_frame"@, Value::Raw(texts.avg_packets_per_frame@)),
        Member::Pair("max_packets_per_frame"@, Value::Number(pacing.max_packets_per_frame)),
        Member::Pair("packet_pacing"@, Value::Name(setup.packet_pacing.text())),
        Member::Pair("packet_pacing_mode"@, Value::Name(effective_pacing(setup.packet_pacing))),
        Member::Pair("packet_pacing_tick_ms"@, Value::Raw(tick_ms(setup.packet_pacing))),
        Member::Pair("packet_pacing_batch_avg"@, Value::Raw(texts.packet_pacing_batch_avg@)),
        Member::Pair("packet_pacing_batch_max"@, Value::Number(pacing.pacing_batch_max)),
        Member::Pair("packet_pacing_overrun_ticks"@, Value::Number(pacing.pacing_overrun_ticks)),
        Member::Pair("packet_pacing_late_us_avg"@, Value::Raw(texts.packet_pacing_late_us_avg@)),
        Member::Pair("packet_pacing_late_us_max"@, Value::Raw(texts.packet_pacing_late_us_max@)),
        Member::Pair(
            "packet_pacing_sleep_ms_avg"@,
            Value::Raw(texts.packet_pacing_sleep_ms_avg@),
        ),
        Member::Pair(
            "packet_pacing_overrun_frames"@,
            Value::Number(pacing.pacing_overrun_frames),
        ),
        Member::Pair("video_pacing_overrun_frames"@, Value::Number(pacing.pacing_overrun_frames)),
        Member::Pair("video_pacing_overrun_ticks"@, Value::Number(pacing.pacing_overrun_ticks)),
        Member::Pair("video_pacing_late_us_p50"@, Value::Raw(texts.video_pacing_late_us_p50@)),
    ]
}

fn add_pacing_metrics_fragment_first(
    members: Fragment,
    setup: &SenderSetup,
    pacing: &PacingCounters,
    texts: &PacingMetricsFragmentTexts,
) -> (r: Fragment)
    ensures
        r@ == members@ + pacing_metrics_fragment_first(setup, pacing, texts),
{
    let tick: String = tick_ms_text(setup.packet_pacing);
    let ghost before = members@;
    let r: Fragment = members
        .signed("udp_send_buffer_bytes", setup.udp_send_buffer_bytes as i64)
        .signed("udp_send_buffer_bytes_requested", setup.udp_send_buffer_bytes_requested as i64)
        .signed("udp_send_buffer_bytes_actual", setup.udp_send_buffer_bytes as i64)
        .number("udp_payload_size", setup.udp_payload_size as u64)
        .raw("packets_per_second", texts.packets_per_second.as_str())
        .raw("avg_packets_per_frame", texts.avg_packets_per_frame.as_str())
        .number("max_packets_per_frame", pacing.max_packets_per_frame)
        .name("packet_pacing", setup.packet_pacing.name())
        .name("packet_pacing_mode", setup.packet_pacing.effective_name())
        .raw("packet_pacing_tick_ms", tick.as_str())
        .raw("packet_pacing_batch_avg", texts.packet_pacing_batch_avg.as_str())
        .number("packet_pacing_batch_max", pacing.pacing_batch_max)
        .number("packet_pacing_overrun_ticks", pacing.pacing_overrun_ticks)
        .raw("packet_pacing_late_us_avg", texts.packet_pacing_late_us_avg.as_str())
        .raw("packet_pacing_late_us_max", texts.packet_pacing_late_us_max.as_str())
        .raw("packet_pacing_sleep_ms_avg", texts.packet_pacing_sleep_ms_avg.as_str())
        .number("packet_pacing_overrun_frames", pacing.pacing_overrun_frames)
        .number("video_pacing_overrun_frames", pacing.pacing_overrun_frames)
        .number("video_pacing_overrun_ticks", pacing.pacing_overrun_ticks)
        .raw("video_pacing_late_us_p50", texts.video_pacing_late_us_p50.as_str());
    assert(r@ =~= before + pacing_metrics_fragment_first(setup, pacing, texts));
    r
}

/// The second part of how packets were spread over time.
pub open spec fn pacing_metrics_fragment_second(
    setup: &SenderSetup,
    state: &SenderState<String>,
    pacing: &PacingCounters,
    force: &KeyframeForceStats,
    keyframe_interval_sec: Seq<char>,
    texts: &PacingMetricsFragmentTexts,
) -> Seq<Member> {
    seq![
        Member::Pair("video_pacing_late_us_p95"@, Value::Raw(texts.video_pacing_late_us_p95@)),
        Member::Pair("video_pacing_late_us_p99"@, Value::Raw(texts.video_pacing_late_us_p99@)),
        Member::Pair("video_pacing_late_us_max"@, Value::Raw(texts.packet_pacing_late_us_max@)),
        Member::Pair("video_send_syscall_ms_avg"@, Value::Raw(texts.video_send_syscall_ms_avg@)),
        Member::Pair("video_send_syscall_ms_max"@, Value::Raw(texts.video_send_syscall_ms_max@)),
        Member::Pair("video_worker_loop_ms_avg"@, Value::Raw(texts.video_worker_loop_ms_avg@)),
        Member::Pair("video_worker_loop_ms_max"@, Value::Raw(texts.video_worker_loop_ms_max@)),
        Member::Pair("send_errors"@, Value::Number(pacing.send_errors)),
        Member::Pair("fec_mode"@, Value::Name(setup.fec_mode.text())),
        Member::Pair("fec_packets_sent"@, Value::Number(pacing.fec_packets_sent)),
        Member::Pair("fec_overhead_packets"@, Value::Number(pacing.fec_packets_sent)),
        Member::Pair("fec_overhead_bytes"@, Value::Number(pacing.fec_bytes_sent)),
        Member::Pair("fec_overhead_ratio"@, Value::Raw(texts.fec_overhead_ratio@)),
        Member::Pair("data_payload_size"@, Value::Number(setup.data_payload_size as u64)),
        Member::Pair("keyframe_interval_sec"@, Value::Raw(keyframe_interval_sec)),
        Member::Pair(
            "keyframe_interval_applied"@,
            Value::Flag(interval_warning(*state, force.failures) is None),
        ),
        Member::Pair("keyframes_sent"@, Value::Number(state.samples.keyframes)),
        Member::Pair("media_clock"@, Value::Name("instant"@)),
        Member::Pair(
            "first_media_timestamp_us"@,
            Value::Maybe(state.samples.first_media_timestamp_us),
        ),
        Member::Pair(
            "last_video_timestamp_us"@,
            Value::Maybe(state.samples.last_video_timestamp_us),
        ),
    ]
}

fn add_pacing_metrics_fragment_second(
    members: Fragment,
    setup: &SenderSetup,
    state: &SenderState<String>,
    pacing: &PacingCounters,
    force: &KeyframeForceStats,
    keyframe_interval_sec: &str,
    texts: &PacingMetricsFragmentTexts,
) -> (r: Fragment)
    ensures
        r@ == members@ + pacing_metrics_fragment_second(
            setup,
            state,
            pacing,
            force,
            keyframe_interval_sec@,
            texts,
        ),
{
    let warning: Option<&'static str> = keyframe_interval_warning(state, force.failures);
    let ghost before = members@;
    let r: Fragment = members
        .raw("video_pacing_late_us_p95", texts.video_pacing_late_us_p95.as_str())
        .raw("video_pacing_late_us_p99", texts.video_pacing_late_us_p99.as_str())
        .raw("video_pacing_late_us_max", texts.packet_pacing_late_us_max.as_str())
        .raw("video_send_syscall_ms_avg", texts.video_send_syscall_ms_avg.as_str())
        .raw("video_send_syscall_ms_max", texts.video_send_syscall_ms_max.as_str())
        .raw("video_worker_loop_ms_avg", texts.video_worker_loop_ms_avg.as_str())
        .raw("video_worker_loop_ms_max", texts.video_worker_loop_ms_max.as_str())
        .number("send_errors", pacing.send_errors)
        .name("fec_mode", setup.fec_mode.name())
        .number("fec_packets_sent", pacing.fec_packets_sent)
        .number("fec_overhead_packets", pacing.fec_packets_sent)
        .number("fec_overhead_bytes", pacing.fec_bytes_sent)
        .raw("fec_overhead_ratio", texts.fec_overhead_ratio.as_str())
        .number("data_payload_size", setup.data_payload_size as u64)
        .raw("keyframe_interval_sec", keyframe_interval_sec)
        .flag("keyframe_interval_applied", warning.is_none())
        .number("keyframes_sent", state.samples.keyframes)
        .name("media_clock", "instant")
        .maybe("first_media_timestamp_us", state.samples.first_media_timestamp_us)
        .maybe("last_video_timestamp_us", state.samples.last_video_timestamp_us);
    assert(r@ =~= before + pacing_metrics_fragment_second(
        setup,
        state,
        pacing,
        force,
        keyframe_interval_sec@,
        texts,
    ));
    r
}

/// The third part of how packets were spread over time.
pub open spec fn pacing_metrics_fragment_third(
    audio_metrics: Seq<char>,
    repair_metrics: Seq<char>,
    keyframe_metrics: Seq<char>,
) -> Seq<Member> {
    seq![
        Member::Pair("receiver_clock_anchor_us"@, Value::Raw("null"@)),
        Member::Pair("playout_delay_ms"@, Value::Raw("null"@)),
        Member::Pair("audio_video_timestamp_delta_ms"@, Value::Raw("null"@)),
        Member::Fragment(audio_metrics),
        Member::Fragment(repair_metrics),
        Member::Fragment(keyframe_metrics),
    ]
}

fn add_pacing_metrics_fragment_third(
    members: Fragment,
    audio_metrics: &str,
    repair_metrics: &str,
    keyframe_metrics: &str,
) -> (r: Fragment)
    ensures
        r@ == members@ + pacing_metrics_fragment_third(
            audio_metrics@,
            repair_metrics@,
            keyframe_metrics@,
        ),
{
    let ghost before = members@;
    let r: Fragment = members
        .raw("receiver_clock_anchor_us", "null")
        .raw("playout_delay_ms", "null")
        .raw("audio_video_timestamp_delta_ms", "null")
        .fragment(audio_metrics)
        .fragment(repair_metrics)
        .fragment(keyframe_metrics);
    assert(
        r@ =~= before + pacing_metrics_fragment_third(
            audio_metrics@,
            repair_metrics@,
            keyframe_metrics@,
        )
    );
    r
}

/// How packets were spread over time.
pub open spec fn pacing_metrics_fragment_members(
    setup: &SenderSetup,
    state: &SenderState<String>,
    pacing: &PacingCounters,
    force: &KeyframeForceStats,
    keyframe_interval_sec: Seq<char>,
    audio_metrics: Seq<char>,
    repair_metrics: Seq<char>,
    keyframe_metrics: Seq<char>,
    texts: &PacingMetricsFragmentTexts,
) -> Seq<Member> {
    pacing_metrics_fragment_first(setup, pacing, texts)
        + pacing_metrics_fragment_second(
        setup,
        state,
        pacing,
        force,
        keyframe_interval_sec,
        texts,
    )
        + pacing_metrics_fragment_third(audio_metrics, repair_metrics, keyframe_metrics)
}

/// Real numbers of how long the work on packets took, written in decimals.
#[derive(Debug)]
pub struct LatencyMetricsFragmentTexts {
    pub packetize_send_ms_p50: String,
    pub packetize_send_ms_p95: String,
    pub packetize_send_ms_p99: String,
    pub video_worker_loop_ms_p50: String,
    pub video_worker_loop_ms_p95: String,
    pub video_worker_loop_ms_p99: String,
    pub video_send_syscall_ms_p95: String,
    pub video_send_syscall_ms_p99: String,
}

/// How long the work on packets took.
pub open spec fn latency_metrics_fragment_members(
    control: &ControlCounters,
    texts: &LatencyMetricsFragmentTexts,
) -> Seq<Member> {
    seq![
        Member::Pair(
            "repair_unique_packets_resent"@,
            Value::Number(control.repair_unique_packets_resent),
        ),
        Member::Pair(
            "repair_duplicate_packets_resent"@,
            Value::Number(control.repair_duplicate_packets_resent),
        ),
        Member::Pair("packetize_send_ms_p50"@, Value::Raw(texts.packetize_send_ms_p50@)),
        Member::Pair("packetize_send_ms_p95"@, Value::Raw(texts.packetize_send_ms_p95@)),
        Member::Pair("packetize_send_ms_p99"@, Value::Raw(texts.packetize_send_ms_p99@)),
        Member::Pair("video_worker_loop_ms_p50"@, Value::Raw(texts.video_worker_loop_ms_p50@)),
        Member::Pair("video_worker_loop_ms_p95"@, Value::Raw(texts.video_worker_loop_ms_p95@)),
        Member::Pair("video_worker_loop_ms_p99"@, Value::Raw(texts.video_worker_loop_ms_p99@)),
        Member::Pair("video_send_syscall_ms_p95"@, Value::Raw(texts.video_send_syscall_ms_p95@)),
        Member::Pair("video_send_syscall_ms_p99"@, Value::Raw(texts.video_send_syscall_ms_p99@)),
    ]
}

fn add_latency_metrics_fragment(
    members: Fragment,
    control: &ControlCounters,
    texts: &LatencyMetricsFragmentTexts,
) -> (r: Fragment)
    ensures
        r@ == members@ + latency_metrics_fragment_members(control, texts),
{
    let ghost before = members@;
    let r: Fragment = members
        .number("repair_unique_packets_resent", control.repair_unique_packets_resent)
        .number("repair_duplicate_packets_resent", control.repair_duplicate_packets_resent)
        .raw("packetize_send_ms_p50", texts.packetize_send_ms_p50.as_str())
        .raw("packetize_send_ms_p95", texts.packetize_send_ms_p95.as_str())
        .raw("packetize_send_ms_p99", texts.packetize_send_ms_p99.as_str())
        .raw("video_worker_loop_ms_p50", texts.video_worker_loop_ms_p50.as_str())
        .raw("video_worker_loop_ms_p95", texts.video_worker_loop_ms_p95.as_str())
        .raw("video_worker_loop_ms_p99", texts.video_worker_loop_ms_p99.as_str())
        .raw("video_send_syscall_ms_p95", texts.video_send_syscall_ms_p95.as_str())
        .raw("video_send_syscall_ms_p99", texts.video_send_syscall_ms_p99.as_str());
    assert(r@ =~= before + latency_metrics_fragment_members(control, texts));
    r
}

/// Real numbers of `transport_metrics_fragment`, written in decimals.
#[derive(Debug)]
pub struct TransportMetricsFragmentTexts {
    pub pacing: PacingMetricsFragmentTexts,
    pub audio: AudioMetricsFragmentTexts,
    pub repair: RepairMetricsFragmentTexts,
    pub keyframe: KeyframeMetricsFragmentTexts,
    pub latency: LatencyMetricsFragmentTexts,
}

/// All that the sender reports of the transport: how packets were spread over time, with
/// its sound, repairs and keyframes, then how long the work on packets took.
pub open spec fn transport_metrics_fragment_members(
    setup: &SenderSetup,
    state: &SenderState<String>,
    pacing: &PacingCounters,
    control: &ControlCounters,
    audio: &AudioSendStats,
    cache: &RepairCacheStats,
    force: &KeyframeForceStats,
    texts: &TransportMetricsFragmentTexts,
) -> Seq<Member> {
    pacing_metrics_fragment_members(
        setup,
        state,
        pacing,
        force,
        texts.keyframe.keyframe_interval_requested_sec@,
        json::render(audio_metrics_fragment_members(setup, state, audio, &texts.audio)),
        json::render(
            repair_metrics_fragment_members(setup, pacing, control, cache, &texts.repair),
        ),
        json::render(keyframe_metrics_fragment_members(state, force, &texts.keyframe)),
        &texts.pacing,
    ) + latency_metrics_fragment_members(control, &texts.latency)
}

/// All that the sender reports of the transport.
pub fn transport_metrics_fragment(
    setup: &SenderSetup,
    state: &SenderState<String>,
    pacing: &PacingCounters,
    control: &ControlCounters,
    audio: &AudioSendStats,
    cache: &RepairCacheStats,
    force: &KeyframeForceStats,
    texts: &TransportMetricsFragmentTexts,
) -> (r: String)
    ensures
        r@ == json::render(
            transport_metrics_fragment_members(
                setup,
                state,
                pacing,
                control,
                audio,
                cache,
                force,
                texts,
            ),
        ),
{
    let sound: String = audio_metrics_fragment(setup, state, audio, &texts.audio);
    let repair: String = repair_metrics_fragment(setup, pacing, control, cache, &texts.repair);
    let keyframe: String = keyframe_metrics_fragment(state, force, &texts.keyframe);
    let members: Fragment = Fragment::new();
    let members: Fragment = add_pacing_metrics_fragment_first(
        members,
        setup,
        pacing,
        &texts.pacing,
    );
    let members: Fragment = add_pacing_metrics_fragment_second(
        members,
        setup,
        state,
        pacing,
        force,
        texts.keyframe.keyframe_interval_requested_sec.as_str(),
        &texts.pacing,
    );
    let members: Fragment = add_pacing_metrics_fragment_third(
        members,
        sound.as_str(),
        repair.as_str(),
        keyframe.as_str(),
    );
    let members: Fragment = add_latency_metrics_fragment(members, control, &texts.latency);
    assert(members@ =~= transport_metrics_fragment_members(
        setup,
        state,
        pacing,
        control,
        audio,
        cache,
        force,
        texts,
    ));
    members.finish()
}

/// How the run ended.
pub open spec fn final_sender_summary_fragment_members(
    state: &SenderState<String>,
    pacing: &PacingCounters,
    control: &ControlCounters,
    transition: &Option<TransitionStatus>,
    final_frames_captured: u64,
    final_frames_encoded: u64,
    profile_name: &str,
    last_error: Option<&str>,
) -> Seq<Member> {
    seq![
        Member::Pair("final_frames_captured"@, Value::Number(final_frames_captured)),
        Member::Pair("final_frames_encoded"@, Value::Number(final_frames_encoded)),
        Member::Pair("final_frames_sent"@, Value::Number(pacing.frames_sent)),
        Member::Pair("final_bytes_sent"@, Value::Number(pacing.bytes_sent)),
        Member::Pair("final_repair_bytes"@, Value::Number(control.repair_send_bytes)),
        Member::Pair("final_profile"@, Value::Name(profile_name@)),
        Member::Pair("active_video_session_id"@, Value::Number(state.session.session_id)),
        Member::Pair("pending_video_session_id"@, Value::Maybe(new_session_of(*transition))),
        Member::Pair("last_error"@, Value::MaybeQuoted(json::optional_view(last_error))),
    ]
}

/// How the run ended.
pub fn final_sender_summary_fragment(
    state: &SenderState<String>,
    pacing: &PacingCounters,
    control: &ControlCounters,
    transition: &Option<TransitionStatus>,
    final_frames_captured: u64,
    final_frames_encoded: u64,
    profile_name: &str,
    last_error: Option<&str>,
) -> (r: String)
    ensures
        r@ == json::render(
            final_sender_summary_fragment_members(
                state,
                pacing,
                control,
                transition,
                final_frames_captured,
                final_frames_encoded,
                profile_name,
                last_error,
            ),
        ),
{
    let members: Fragment = Fragment::new()
        .number("final_frames_captured", final_frames_captured)
        .number("final_frames_encoded", final_frames_encoded)
        .number("final_frames_sent", pacing.frames_sent)
        .number("final_bytes_sent", pacing.bytes_sent)
        .number("final_repair_bytes", control.repair_send_bytes)
        .name("final_profile", profile_name)
        .number("active_video_session_id", state.session.session_id)
        .maybe("pending_video_session_id", new_session(transition))
        .maybe_quoted("last_error", last_error);
    assert(members@ =~= final_sender_summary_fragment_members(
        state,
        pacing,
        control,
        transition,
        final_frames_captured,
        final_frames_encoded,
        profile_name,
        last_error,
    ));
    members.finish()
}

/// Real numbers of `sender_started_line`, written in decimals.
#[derive(Debug)]
pub struct SenderStartedLineTexts {
    pub bitrate_mbps: String,
}

/// What a sender of a screen reports when it has started.
pub open spec fn sender_started_line_members(
    setup: &SenderSetup,
    started_width: u32,
    started_height: u32,
    started_target_fps: u32,
    bitrate: &str,
    conversion: &str,
    encoder_choice: &str,
    color: &str,
    input_color: &str,
    output_color: &str,
    context: &str,
    texts: &SenderStartedLineTexts,
) -> Seq<Member> {
    seq![
        Member::Pair("type"@, Value::Name("NATIVE_SCREEN_STARTED"@)),
        Member::Pair("role"@, Value::Name("sender"@)),
        Member::Pair("mode"@, Value::Name("screen-send"@)),
        Member::Pair("host"@, Value::Quoted(setup.host@)),
        Member::Pair("port"@, Value::Number(setup.port as u64)),
        Member::Pair("width"@, Value::Number(started_width as u64)),
        Member::Pair("height"@, Value::Number(started_height as u64)),
        Member::Pair("fps"@, Value::Number(started_target_fps as u64)),
        Member::Pair("bitrate_mbps"@, Value::Raw(texts.bitrate_mbps@)),
        Member::Fragment(bitrate@),
        Member::Fragment(conversion@),
        Member::Fragment(encoder_choice@),
        Member::Fragment(color@),
        Member::Fragment(input_color@),
        Member::Fragment(output_color@),
        Member::Fragment(context@),
    ]
}

/// What a sender of a screen reports when it has started.
pub fn sender_started_line(
    setup: &SenderSetup,
    started_width: u32,
    started_height: u32,
    started_target_fps: u32,
    bitrate: &str,
    conversion: &str,
    encoder_choice: &str,
    color: &str,
    input_color: &str,
    output_color: &str,
    context: &str,
    texts: &SenderStartedLineTexts,
) -> (r: String)
    ensures
        r@ == json::object(
            sender_started_line_members(
                setup,
                started_width,
                started_height,
                started_target_fps,
                bitrate,
                conversion,
                encoder_choice,
                color,
                input_color,
                output_color,
                context,
                texts,
            ),
        ),
{
    let members: Fragment = Fragment::new()
        .name("type", "NATIVE_SCREEN_STARTED")
        .name("role", "sender")
        .name("mode", "screen-send")
        .quoted("host", setup.host.as_str())
        .number("port", setup.port as u64)
        .number("width", started_width as u64)
        .number("height", started_height as u64)
        .number("fps", started_target_fps as u64)
        .raw("bitrate_mbps", texts.bitrate_mbps.as_str())
        .fragment(bitrate)
        .fragment(conversion)
        .fragment(encoder_choice)
        .fragment(color)
        .fragment(input_color)
        .fragment(output_color)
        .fragment(context);
    assert(members@ =~= sender_started_line_members(
        setup,
        started_width,
        started_height,
        started_target_fps,
        bitrate,
        conversion,
        encoder_choice,
        color,
        input_color,
        output_color,
        context,
        texts,
    ));
    members.finish_object()
}

/// Real numbers of `probe_stats_line`, written in decimals.
#[derive(Debug)]
pub struct ProbeStatsLineTexts {
    pub mbps: String,
    pub target_bitrate_mbps: String,
    pub raw_fps: String,
    pub accepted_fps: String,
    pub encode_fps: String,
    pub copy_ms_avg: String,
    pub convert_ms_avg: String,
    pub encode_ms_avg: String,
    pub packetize_send_ms_avg: String,
}

/// The first part of `probe_stats_line`.
pub open spec fn probe_stats_line_first(
    encoder: &str,
    setup: &SenderSetup,
    state: &SenderState<String>,
    pacing: &PacingCounters,
    capture: &CaptureCounts,
    interval: &Totals,
    texts: &ProbeStatsLineTexts,
) -> Seq<Member> {
    seq![
        Member::Pair("type"@, Value::Name("H264_SEND_STATS"@)),
        Member::Pair("mode"@, Value::Name("h264_send_probe"@)),
        Member::Pair("encoder"@, Value::Quoted(encoder@)),
        Member::Pair("target"@, Value::Quoted(setup.target@)),
        Member::Pair("session_id"@, Value::Number(state.session.session_id)),
        Member::Pair("packets_sent"@, Value::Number(pacing.packets_sent)),
        Member::Pair("frames_sent"@, Value::Number(pacing.frames_sent)),
        Member::Pair("bytes_sent"@, Value::Number(pacing.bytes_sent)),
        Member::Pair("packets_per_sec"@, Value::Number(interval.packets)),
        Member::Pair("fps"@, Value::Number(interval.frames)),
        Member::Pair("mbps"@, Value::Raw(texts.mbps@)),
        Member::Pair("target_bitrate_mbps"@, Value::Raw(texts.target_bitrate_mbps@)),
        Member::Pair("capture_raw_frames"@, Value::Number(capture.capture_raw_frames)),
        Member::Pair("capture_latest_updates"@, Value::Number(capture.capture_latest_updates)),
        Member::Pair("encode_ticks"@, Value::Number(capture.encode_ticks)),
        Member::Pair("no_new_frame_skipped"@, Value::Number(capture.no_new_frame_skipped)),
        Member::Pair("no_new_frame_reused"@, Value::Number(capture.no_new_frame_reused)),
        Member::Pair("frames_encoded"@, Value::Number(capture.frames_encoded)),
        Member::Pair("encode_lag_skips"@, Value::Number(capture.encode_lag_skips)),
        Member::Pair("raw_fps"@, Value::Raw(texts.raw_fps@)),
    ]
}

fn add_probe_stats_line_first(
    members: Fragment,
    encoder: &str,
    setup: &SenderSetup,
    state: &SenderState<String>,
    pacing: &PacingCounters,
    capture: &CaptureCounts,
    interval: &Totals,
    texts: &ProbeStatsLineTexts,
) -> (r: Fragment)
    ensures
        r@ == members@ + probe_stats_line_first(
            encoder,
            setup,
            state,
            pacing,
            capture,
            interval,
            texts,
        ),
{
    let ghost before = members@;
    let r: Fragment = members
        .name("type", "H264_SEND_STATS")
        .name("mode", "h264_send_probe")
        .quoted("encoder", encoder)
        .quoted("target", setup.target.as_str())
        .number("session_id", state.session.session_id)
        .number("packets_sent", pacing.packets_sent)
        .number("frames_sent", pacing.frames_sent)
        .number("bytes_sent", pacing.bytes_sent)
        .number("packets_per_sec", interval.packets)
        .number("fps", interval.frames)
        .raw("mbps", texts.mbps.as_str())
        .raw("target_bitrate_mbps", texts.target_bitrate_mbps.as_str())
        .number("capture_raw_frames", capture.capture_raw_frames)
        .number("capture_latest_updates", capture.capture_latest_updates)
        .number("encode_ticks", capture.encode_ticks)
        .number("no_new_frame_skipped", capture.no_new_frame_skipped)
        .number("no_new_frame_reused", capture.no_new_frame_reused)
        .number("frames_encoded", capture.frames_encoded)
        .number("encode_lag_skips", capture.encode_lag_skips)
        .raw("raw_fps", texts.raw_fps.as_str());
    assert(
        r@ =~= before + probe_stats_line_first(
            encoder,
            setup,
            state,
            pacing,
            capture,
            interval,
            texts,
        )
    );
    r
}

/// The second part of `probe_stats_line`.
pub open spec fn probe_stats_line_second(
    capture: &CaptureCounts,
    bitrate: &str,
    conversion: &str,
    encoder_choice: &str,
    color: &str,
    input_color: &str,
    output_color: &str,
    transport: Seq<char>,
    adaptive: Seq<char>,
    texts: &ProbeStatsLineTexts,
) -> Seq<Member> {
    seq![
        Member::Pair("accepted_fps"@, Value::Raw(texts.accepted_fps@)),
        Member::Pair("encode_fps"@, Value::Raw(texts.encode_fps@)),
        Member::Pair("target_fps"@, Value::Number(capture.target_fps as u64)),
        Member::Pair("width"@, Value::Number(capture.width as u64)),
        Member::Pair("height"@, Value::Number(capture.height as u64)),
        Member::Pair("copy_ms_avg"@, Value::Raw(texts.copy_ms_avg@)),
        Member::Pair("convert_ms_avg"@, Value::Raw(texts.convert_ms_avg@)),
        Member::Pair("encode_ms_avg"@, Value::Raw(texts.encode_ms_avg@)),
        Member::Pair("packetize_send_ms_avg"@, Value::Raw(texts.packetize_send_ms_avg@)),
        Member::Pair("capture_dropped"@, Value::Number(capture.capture_dropped)),
        Member::Fragment(bitrate@),
        Member::Fragment(conversion@),
        Member::Fragment(encoder_choice@),
        Member::Fragment(color@),
        Member::Fragment(input_color@),
        Member::Fragment(output_color@),
        Member::Fragment(transport),
        Member::Fragment(adaptive),
    ]
}

fn add_probe_stats_line_second(
    members: Fragment,
    capture: &CaptureCounts,
    bitrate: &str,
    conversion: &str,
    encoder_choice: &str,
    color: &str,
    input_color: &str,
    output_color: &str,
    transport: &str,
    adaptive: &str,
    texts: &ProbeStatsLineTexts,
) -> (r: Fragment)
    ensures
        r@ == members@ + probe_stats_line_second(
            capture,
            bitrate,
            conversion,
            encoder_choice,
            color,
            input_color,
            output_color,
            transport@,
            adaptive@,
            texts,
        ),
{
    let ghost before = members@;
    let r: Fragment = members
        .raw("accepted_fps", texts.accepted_fps.as_str())
        .raw("encode_fps", texts.encode_fps.as_str())
        .number("target_fps", capture.target_fps as u64)
        .number("width", capture.width as u64)
        .number("height", capture.height as u64)
        .raw("copy_ms_avg", texts.copy_ms_avg.as_str())
        .raw("convert_ms_avg", texts.convert_ms_avg.as_str())
        .raw("encode_ms_avg", texts.encode_ms_avg.as_str())
        .raw("packetize_send_ms_avg", texts.packetize_send_ms_avg.as_str())
        .number("capture_dropped", capture.capture_dropped)
        .fragment(bitrate)
        .fragment(conversion)
        .fragment(encoder_choice)
        .fragment(color)
        .fragment(input_color)
        .fragment(output_color)
        .fragment(transport)
        .fragment(adaptive);
    assert(r@ =~= before + probe_stats_line_second(
        capture,
        bitrate,
        conversion,
        encoder_choice,
        color,
        input_color,
        output_color,
        transport@,
        adaptive@,
        texts,
    ));
    r
}

/// What a probe reports from time to time.
pub open spec fn probe_stats_line_members(
    encoder: &str,
    setup: &SenderSetup,
    state: &SenderState<String>,
    pacing: &PacingCounters,
    capture: &CaptureCounts,
    interval: &Totals,
    bitrate: &str,
    conversion: &str,
    encoder_choice: &str,
    color: &str,
    input_color: &str,
    output_color: &str,
    transport: Seq<char>,
    adaptive: Seq<char>,
    texts: &ProbeStatsLineTexts,
) -> Seq<Member> {
    probe_stats_line_first(encoder, setup, state, pacing, capture, interval, texts)
        + probe_stats_line_second(
            capture,
            bitrate,
            conversion,
            encoder_choice,
            color,
            input_color,
            output_color,
            transport,
            adaptive,
            texts,
        )
}

/// What a probe reports from time to time.
pub fn probe_stats_line(
    encoder: &str,
    setup: &SenderSetup,
    state: &SenderState<String>,
    pacing: &PacingCounters,
    capture: &CaptureCounts,
    interval: &Totals,
    bitrate: &str,
    conversion: &str,
    encoder_choice: &str,
    color: &str,
    input_color: &str,
    output_color: &str,
    transport: &str,
    adaptive: &str,
    texts: &ProbeStatsLineTexts,
) -> (r: String)
    ensures
        r@ == json::object(
            probe_stats_line_members(
                encoder,
                setup,
                state,
                pacing,
                capture,
                interval,
                bitrate,
                conversion,
                encoder_choice,
                color,
                input_color,
                output_color,
                transport@,
                adaptive@,
                texts,
            ),
        ),
{
    let members: Fragment = Fragment::new();
    let members: Fragment = add_probe_stats_line_first(
        members,
        encoder,
        setup,
        state,
        pacing,
        capture,
        interval,
        texts,
    );
    let members: Fragment = add_probe_stats_line_second(
        members,
        capture,
        bitrate,
        conversion,
        encoder_choice,
        color,
        input_color,
        output_color,
        transport,
        adaptive,
        texts,
    );
    assert(members@ =~= probe_stats_line_members(
        encoder,
        setup,
        state,
        pacing,
        capture,
        interval,
        bitrate,
        conversion,
        encoder_choice,
        color,
        input_color,
        output_color,
        transport@,
        adaptive@,
        texts,
    ));
    members.finish_object()
}

/// Real numbers of `screen_stats_line`, written in decimals.
#[derive(Debug)]
pub struct ScreenStatsLineTexts {
    pub mbps: String,
    pub target_bitrate_mbps: String,
    pub copy_ms_avg: String,
    pub convert_ms_avg: String,
    pub encode_ms_avg: String,
    pub packetize_send_ms_avg: String,
}

/// The first part of `screen_stats_line`.
pub open spec fn screen_stats_line_first(
    setup: &SenderSetup,
    state: &SenderState<String>,
    pacing: &PacingCounters,
    capture: &CaptureCounts,
    interval: &Totals,
    texts: &ScreenStatsLineTexts,
) -> Seq<Member> {
    seq![
        Member::Pair("type"@, Value::Name("NATIVE_SCREEN_STATS"@)),
        Member::Pair("role"@, Value::Name("sender"@)),
        Member::Pair("mode"@, Value::Name("screen-send"@)),
        Member::Pair("host"@, Value::Quoted(setup.host@)),
        Member::Pair("port"@, Value::Number(setup.port as u64)),
        Member::Pair("session_id"@, Value::Number(state.session.session_id)),
        Member::Pair("frames_sent"@, Value::Number(pacing.frames_sent)),
        Member::Pair("packets_sent"@, Value::Number(pacing.packets_sent)),
        Member::Pair("bytes_sent"@, Value::Number(pacing.bytes_sent)),
        Member::Pair("packets_per_sec"@, Value::Number(interval.packets)),
        Member::Pair("fps"@, Value::Number(interval.frames)),
        Member::Pair("mbps"@, Value::Raw(texts.mbps@)),
        Member::Pair("target_bitrate_mbps"@, Value::Raw(texts.target_bitrate_mbps@)),
        Member::Pair("capture_raw_frames"@, Value::Number(capture.capture_raw_frames)),
        Member::Pair("capture_latest_updates"@, Value::Number(capture.capture_latest_updates)),
        Member::Pair("encode_ticks"@, Value::Number(capture.encode_ticks)),
        Member::Pair("no_new_frame_skipped"@, Value::Number(capture.no_new_frame_skipped)),
        Member::Pair("no_new_frame_reused"@, Value::Number(capture.no_new_frame_reused)),
        Member::Pair("frames_encoded"@, Value::Number(capture.frames_encoded)),
        Member::Pair("encode_lag_skips"@, Value::Number(capture.encode_lag_skips)),
    ]
}

fn add_screen_stats_line_first(
    members: Fragment,
    setup: &SenderSetup,
    state: &SenderState<String>,
    pacing: &PacingCounters,
    capture: &CaptureCounts,
    interval: &Totals,
    texts: &ScreenStatsLineTexts,
) -> (r: Fragment)
    ensures
        r@ == members@ + screen_stats_line_first(setup, state, pacing, capture, interval, texts),
{
    let ghost before = members@;
    let r: Fragment = members
        .name("type", "NATIVE_SCREEN_STATS")
        .name("role", "sender")
        .name("mode", "screen-send")
        .quoted("host", setup.host.as_str())
        .number("port", setup.port as u64)
        .number("session_id", state.session.session_id)
        .number("frames_sent", pacing.frames_sent)
        .number("packets_sent", pacing.packets_sent)
        .number("bytes_sent", pacing.bytes_sent)
        .number("packets_per_sec", interval.packets)
        .number("fps", interval.frames)
        .raw("mbps", texts.mbps.as_str())
        .raw("target_bitrate_mbps", texts.target_bitrate_mbps.as_str())
        .number("capture_raw_frames", capture.capture_raw_frames)
        .number("capture_latest_updates", capture.capture_latest_updates)
        .number("encode_ticks", capture.encode_ticks)
        .number("no_new_frame_skipped", capture.no_new_frame_skipped)
        .number("no_new_frame_reused", capture.no_new_frame_reused)
        .number("frames_encoded", capture.frames_encoded)
        .number("encode_lag_skips", capture.encode_lag_skips);
    assert(r@ =~= before + screen_stats_line_first(setup, state, pacing, capture, interval, texts));
    r
}

/// The second part of `screen_stats_line`.
pub open spec fn screen_stats_line_second(
    capture: &CaptureCounts,
    bitrate: &str,
    conversion: &str,
    encoder_choice: &str,
    color: &str,
    input_color: &str,
    output_color: &str,
    transport: Seq<char>,
    adaptive: Seq<char>,
    context: &str,
    texts: &ScreenStatsLineTexts,
) -> Seq<Member> {
    seq![
        Member::Pair("target_fps"@, Value::Number(capture.target_fps as u64)),
        Member::Pair("width"@, Value::Number(capture.width as u64)),
        Member::Pair("height"@, Value::Number(capture.height as u64)),
        Member::Pair("copy_ms_avg"@, Value::Raw(texts.copy_ms_avg@)),
        Member::Pair("convert_ms_avg"@, Value::Raw(texts.convert_ms_avg@)),
        Member::Pair("encode_ms_avg"@, Value::Raw(texts.encode_ms_avg@)),
        Member::Pair("packetize_send_ms_avg"@, Value::Raw(texts.packetize_send_ms_avg@)),
        Member::Pair("capture_dropped"@, Value::Number(capture.capture_dropped)),
        Member::Fragment(bitrate@),
        Member::Fragment(conversion@),
        Member::Fragment(encoder_choice@),
        Member::Fragment(color@),
        Member::Fragment(input_color@),
        Member::Fragment(output_color@),
        Member::Fragment(transport),
        Member::Fragment(adaptive),
        Member::Fragment(context@),
    ]
}

fn add_screen_stats_line_second(
    members: Fragment,
    capture: &CaptureCounts,
    bitrate: &str,
    conversion: &str,
    encoder_choice: &str,
    color: &str,
    input_color: &str,
    output_color: &str,
    transport: &str,
    adaptive: &str,
    context: &str,
    texts: &ScreenStatsLineTexts,
) -> (r: Fragment)
    ensures
        r@ == members@ + screen_stats_line_second(
            capture,
            bitrate,
            conversion,
            encoder_choice,
            color,
            input_color,
            output_color,
            transport@,
            adaptive@,
            context,
            texts,
        ),
{
    let ghost before = members@;
    let r: Fragment = members
        .number("target_fps", capture.target_fps as u64)
        .number("width", capture.width as u64)
        .number("height", capture.height as u64)
        .raw("copy_ms_avg", texts.copy_ms_avg.as_str())
        .raw("convert_ms_avg", texts.convert_ms_avg.as_str())
        .raw("encode_ms_avg", texts.encode_ms_avg.as_str())
        .raw("packetize_send_ms_avg", texts.packetize_send_ms_avg.as_str())
        .number("capture_dropped", capture.capture_dropped)
        .fragment(bitrate)
        .fragment(conversion)
        .fragment(encoder_choice)
        .fragment(color)
        .fragment(input_color)
        .fragment(output_color)
        .fragment(transport)
        .fragment(adaptive)
        .fragment(context);
    assert(r@ =~= before + screen_stats_line_second(
        capture,
        bitrate,
        conversion,
        encoder_choice,
        color,
        input_color,
        output_color,
        transport@,
        adaptive@,
        context,
        texts,
    ));
    r
}

/// What a sender of a screen reports from time to time.
pub open spec fn screen_stats_line_members(
    setup: &SenderSetup,
    state: &SenderState<String>,
    pacing: &PacingCounters,
    capture: &CaptureCounts,
    interval: &Totals,
    bitrate: &str,
    conversion: &str,
    encoder_choice: &str,
    color: &str,
    input_color: &str,
    output_color: &str,
    transport: Seq<char>,
    adaptive: Seq<char>,
    context: &str,
    texts: &ScreenStatsLineTexts,
) -> Seq<Member> {
    screen_stats_line_first(setup, state, pacing, capture, interval, texts)
        + screen_stats_line_second(
            capture,
            bitrate,
            conversion,
            encoder_choice,
            color,
            input_color,
            output_color,
            transport,
            adaptive,
            context,
            texts,
        )
}

/// What a sender of a screen reports from time to time.
pub fn screen_stats_line(
    setup: &SenderSetup,
    state: &SenderState<String>,
    pacing: &PacingCounters,
    capture: &CaptureCounts,
    interval: &Totals,
    bitrate: &str,
    conversion: &str,
    encoder_choice: &str,
    color: &str,
    input_color: &str,
    output_color: &str,
    transport: &str,
    adaptive: &str,
    context: &str,
    texts: &ScreenStatsLineTexts,
) -> (r: String)
    ensures
        r@ == json::object(
            screen_stats_line_members(
                setup,
                state,
                pacing,
                capture,
                interval,
                bitrate,
                conversion,
                encoder_choice,
                color,
                input_color,
                output_color,
                transport@,
                adaptive@,
                context,
                texts,
            ),
        ),
{
    let members: Fragment = Fragment::new();
    let members: Fragment = add_screen_stats_line_first(
        members,
        setup,
        state,
        pacing,
        capture,
        interval,
        texts,
    );
    let members: Fragment = add_screen_stats_line_second(
        members,
        capture,
        bitrate,
        conversion,
        encoder_choice,
        color,
        input_color,
        output_color,
        transport,
        adaptive,
        context,
        texts,
    );
    assert(members@ =~= screen_stats_line_members(
        setup,
        state,
        pacing,
        capture,
        interval,
        bitrate,
        conversion,
        encoder_choice,
        color,
        input_color,
        output_color,
        transport@,
        adaptive@,
        context,
        texts,
    ));
    members.finish_object()
}

/// Real numbers of `probe_done_line`, written in decimals.
#[derive(Debug)]
pub struct ProbeDoneLineTexts {
    pub duration_sec: String,
    pub media_duration_sec: String,
    pub fps: String,
    pub mbps: String,
    pub current_profile_duration_sec: String,
    pub current_profile_fps: String,
    pub current_profile_mbps: String,
    pub target_bitrate_mbps: String,
    pub copy_ms_avg: String,
    pub convert_ms_avg: String,
    pub encode_ms_avg: String,
    pub packetize_send_ms_avg: String,
}

/// The first part of `probe_done_line`.
pub open spec fn probe_done_line_first(
    encoder: &str,
    setup: &SenderSetup,
    state: &SenderState<String>,
    pacing: &PacingCounters,
    capture: &CaptureCounts,
) -> Seq<Member> {
    seq![
        Member::Pair("type"@, Value::Name("H264_SEND_DONE"@)),
        Member::Pair("mode"@, Value::Name("h264_send_probe"@)),
        Member::Pair("encoder"@, Value::Quoted(encoder@)),
        Member::Pair("target"@, Value::Quoted(setup.target@)),
        Member::Pair("session_id"@, Value::Number(state.session.session_id)),
        Member::Pair("packets_sent"@, Value::Number(pacing.packets_sent)),
        Member::Pair("frames_sent"@, Value::Number(pacing.frames_sent)),
        Member::Pair("bytes_sent"@, Value::Number(pacing.bytes_sent)),
        Member::Pair("h264_bytes"@, Value::Number(state.samples.h264_bytes)),
        Member::Pair("keyframes"@, Value::Number(state.samples.keyframes)),
        Member::Pair("config_frames"@, Value::Number(state.samples.config_frames)),
        Member::Pair("capture_raw_frames"@, Value::Number(capture.capture_raw_frames)),
        Member::Pair("capture_latest_updates"@, Value::Number(capture.capture_latest_updates)),
        Member::Pair(
            "capture_callback_skipped"@,
            Value::Number(capture.capture_callback_skipped),
        ),
        Member::Pair("capture_dropped"@, Value::Number(capture.capture_dropped)),
        Member::Pair("encode_ticks"@, Value::Number(capture.encode_ticks)),
        Member::Pair("no_new_frame_skipped"@, Value::Number(capture.no_new_frame_skipped)),
        Member::Pair("no_new_frame_reused"@, Value::Number(capture.no_new_frame_reused)),
        Member::Pair("frames_encoded"@, Value::Number(capture.frames_encoded)),
        Member::Pair("encode_lag_skips"@, Value::Number(capture.encode_lag_skips)),
    ]
}

fn add_probe_done_line_first(
    members: Fragment,
    encoder: &str,
    setup: &SenderSetup,
    state: &SenderState<String>,
    pacing: &PacingCounters,
    capture: &CaptureCounts,
) -> (r: Fragment)
    ensures
        r@ == members@ + probe_done_line_first(encoder, setup, state, pacing, capture),
{
    let ghost before = members@;
    let r: Fragment = members
        .name("type", "H264_SEND_DONE")
        .name("mode", "h264_send_probe")
        .quoted("encoder", encoder)
        .quoted("target", setup.target.as_str())
        .number("session_id", state.session.session_id)
        .number("packets_sent", pacing.packets_sent)
        .number("frames_sent", pacing.frames_sent)
        .number("bytes_sent", pacing.bytes_sent)
        .number("h264_bytes", state.samples.h264_bytes)
        .number("keyframes", state.samples.keyframes)
        .number("config_frames", state.samples.config_frames)
        .number("capture_raw_frames", capture.capture_raw_frames)
        .number("capture_latest_updates", capture.capture_latest_updates)
        .number("capture_callback_skipped", capture.capture_callback_skipped)
        .number("capture_dropped", capture.capture_dropped)
        .number("encode_ticks", capture.encode_ticks)
        .number("no_new_frame_skipped", capture.no_new_frame_skipped)
        .number("no_new_frame_reused", capture.no_new_frame_reused)
        .number("frames_encoded", capture.frames_encoded)
        .number("encode_lag_skips", capture.encode_lag_skips);
    assert(r@ =~= before + probe_done_line_first(encoder, setup, state, pacing, capture));
    r
}

/// The second part of `probe_done_line`.
pub open spec fn probe_done_line_second(
    capture: &CaptureCounts,
    rates: &RunRateSummary,
    bitrate: &str,
    conversion: &str,
    encoder_choice: &str,
    texts: &ProbeDoneLineTexts,
) -> Seq<Member> {
    seq![
        Member::Pair("samples_out"@, Value::Number(capture.samples_out)),
        Member::Pair("duration_sec"@, Value::Raw(texts.duration_sec@)),
        Member::Pair("wall_time_sec"@, Value::Raw(texts.duration_sec@)),
        Member::Pair("media_duration_sec"@, Value::Raw(texts.media_duration_sec@)),
        Member::Pair("fps"@, Value::Raw(texts.fps@)),
        Member::Pair("mbps"@, Value::Raw(texts.mbps@)),
        Member::Pair(
            "current_profile_duration_sec"@,
            Value::Raw(texts.current_profile_duration_sec@),
        ),
        Member::Pair(
            "current_profile_frames_sent"@,
            Value::Number(rates.current_profile_frames_sent),
        ),
        Member::Pair("current_profile_fps"@, Value::Raw(texts.current_profile_fps@)),
        Member::Pair("current_profile_mbps"@, Value::Raw(texts.current_profile_mbps@)),
        Member::Pair("target_bitrate_mbps"@, Value::Raw(texts.target_bitrate_mbps@)),
        Member::Pair("width"@, Value::Number(capture.width as u64)),
        Member::Pair("height"@, Value::Number(capture.height as u64)),
        Member::Pair("copy_ms_avg"@, Value::Raw(texts.copy_ms_avg@)),
        Member::Pair("convert_ms_avg"@, Value::Raw(texts.convert_ms_avg@)),
        Member::Pair("encode_ms_avg"@, Value::Raw(texts.encode_ms_avg@)),
        Member::Pair("packetize_send_ms_avg"@, Value::Raw(texts.packetize_send_ms_avg@)),
        Member::Fragment(bitrate@),
        Member::Fragment(conversion@),
        Member::Fragment(encoder_choice@),
    ]
}

fn add_probe_done_line_second(
    members: Fragment,
    capture: &CaptureCounts,
    rates: &RunRateSummary,
    bitrate: &str,
    conversion: &str,
    encoder_choice: &str,
    texts: &ProbeDoneLineTexts,
) -> (r: Fragment)
    ensures
        r@ == members@ + probe_done_line_second(
            capture,
            rates,
            bitrate,
            conversion,
            encoder_choice,
            texts,
        ),
{
    let ghost before = members@;
    let r: Fragment = members
        .number("samples_out", capture.samples_out)
        .raw("duration_sec", texts.duration_sec.as_str())
        .raw("wall_time_sec", texts.duration_sec.as_str())
        .raw("media_duration_sec", texts.media_duration_sec.as_str())
        .raw("fps", texts.fps.as_str())
        .raw("mbps", texts.mbps.as_str())
        .raw("current_profile_duration_sec", texts.current_profile_duration_sec.as_str())
        .number("current_profile_frames_sent", rates.current_profile_frames_sent)
        .raw("current_profile_fps", texts.current_profile_fps.as_str())
        .raw("current_profile_mbps", texts.current_profile_mbps.as_str())
        .raw("target_bitrate_mbps", texts.target_bitrate_mbps.as_str())
        .number("width", capture.width as u64)
        .number("height", capture.height as u64)
        .raw("copy_ms_avg", texts.copy_ms_avg.as_str())
        .raw("convert_ms_avg", texts.convert_ms_avg.as_str())
        .raw("encode_ms_avg", texts.encode_ms_avg.as_str())
        .raw("packetize_send_ms_avg", texts.packetize_send_ms_avg.as_str())
        .fragment(bitrate)
        .fragment(conversion)
        .fragment(encoder_choice);
    assert(
        r@ =~= before + probe_done_line_second(
            capture,
            rates,
            bitrate,
            conversion,
            encoder_choice,
            texts,
        )
    );
    r
}

/// The third part of `probe_done_line`.
pub open spec fn probe_done_line_third(
    color: &str,
    input_color: &str,
    output_color: &str,
    transport: Seq<char>,
    adaptive: Seq<char>,
) -> Seq<Member> {
    seq![
        Member::Fragment(color@),
        Member::Fragment(input_color@),
        Member::Fragment(output_color@),
        Member::Fragment(transport),
        Member::Fragment(adaptive),
    ]
}

fn add_probe_done_line_third(
    members: Fragment,
    color: &str,
    input_color: &str,
    output_color: &str,
    transport: &str,
    adaptive: &str,
) -> (r: Fragment)
    ensures
        r@ == members@ + probe_done_line_third(
            color,
            input_color,
            output_color,
            transport@,
            adaptive@,
        ),
{
    let ghost before = members@;
    let r: Fragment = members
        .fragment(color)
        .fragment(input_color)
        .fragment(output_color)
        .fragment(transport)
        .fragment(adaptive);
    assert(
        r@ =~= before + probe_done_line_third(color, input_color, output_color, transport@, adaptive@)
    );
    r
}

/// What a probe reports at the end.
pub open spec fn probe_done_line_members(
    encoder: &str,
    setup: &SenderSetup,
    state: &SenderState<String>,
    pacing: &PacingCounters,
    capture: &CaptureCounts,
    rates: &RunRateSummary,
    bitrate: &str,
    conversion: &str,
    encoder_choice: &str,
    color: &str,
    input_color: &str,
    output_color: &str,
    transport: Seq<char>,
    adaptive: Seq<char>,
    texts: &ProbeDoneLineTexts,
) -> Seq<Member> {
    probe_done_line_first(encoder, setup, state, pacing, capture)
        + probe_done_line_second(capture, rates, bitrate, conversion, encoder_choice, texts)
        + probe_done_line_third(color, input_color, output_color, transport, adaptive)
}

/// What a probe reports at the end.
pub fn probe_done_line(
    encoder: &str,
    setup: &SenderSetup,
    state: &SenderState<String>,
    pacing: &PacingCounters,
    capture: &CaptureCounts,
    rates: &RunRateSummary,
    bitrate: &str,
    conversion: &str,
    encoder_choice: &str,
    color: &str,
    input_color: &str,
    output_color: &str,
    transport: &str,
    adaptive: &str,
    texts: &ProbeDoneLineTexts,
) -> (r: String)
    ensures
        r@ == json::object(
            probe_done_line_members(
                encoder,
                setup,
                state,
                pacing,
                capture,
                rates,
                bitrate,
                conversion,
                encoder_choice,
                color,
                input_color,
                output_color,
                transport@,
                adaptive@,
                texts,
            ),
        ),
{
    let members: Fragment = Fragment::new();
    let members: Fragment = add_probe_done_line_first(
        members,
        encoder,
        setup,
        state,
        pacing,
        capture,
    );
    let members: Fragment = add_probe_done_line_second(
        members,
        capture,
        rates,
        bitrate,
        conversion,
        encoder_choice,
        texts,
    );
    let members: Fragment = add_probe_done_line_third(
        members,
        color,
        input_color,
        output_color,
        transport,
        adaptive,
    );
    assert(members@ =~= probe_done_line_members(
        encoder,
        setup,
        state,
        pacing,
        capture,
        rates,
        bitrate,
        conversion,
        encoder_choice,
        color,
        input_color,
        output_color,
        transport@,
        adaptive@,
        texts,
    ));
    members.finish_object()
}

/// Real numbers of `screen_done_line`, written in decimals.
#[derive(Debug)]
pub struct ScreenDoneLineTexts {
    pub duration_sec: String,
    pub fps: String,
    pub mbps: String,
    pub current_profile_duration_sec: String,
    pub current_profile_fps: String,
    pub current_profile_mbps: String,
    pub target_bitrate_mbps: String,
    pub copy_ms_avg: String,
    pub convert_ms_avg: String,
    pub encode_ms_avg: String,
    pub packetize_send_ms_avg: String,
}

/// The first part of `screen_done_line`.
pub open spec fn screen_done_line_first(
    reason: &str,
    setup: &SenderSetup,
    pacing: &PacingCounters,
    capture: &CaptureCounts,
    rates: &RunRateSummary,
    texts: &ScreenDoneLineTexts,
) -> Seq<Member> {
    seq![
        Member::Pair("type"@, Value::Name("NATIVE_SCREEN_STOPPED"@)),
        Member::Pair("role"@, Value::Name("sender"@)),
        Member::Pair("mode"@, Value::Name("screen-send"@)),
        Member::Pair("reason"@, Value::Name(reason@)),
        Member::Pair("host"@, Value::Quoted(setup.host@)),
        Member::Pair("port"@, Value::Number(setup.port as u64)),
        Member::Pair("frames_sent"@, Value::Number(pacing.frames_sent)),
        Member::Pair("packets_sent"@, Value::Number(pacing.packets_sent)),
        Member::Pair("bytes_sent"@, Value::Number(pacing.bytes_sent)),
        Member::Pair("duration_sec"@, Value::Raw(texts.duration_sec@)),
        Member::Pair("fps"@, Value::Raw(texts.fps@)),
        Member::Pair("mbps"@, Value::Raw(texts.mbps@)),
        Member::Pair(
            "current_profile_duration_sec"@,
            Value::Raw(texts.current_profile_duration_sec@),
        ),
        Member::Pair(
            "current_profile_frames_sent"@,
            Value::Number(rates.current_profile_frames_sent),
        ),
        Member::Pair("current_profile_fps"@, Value::Raw(texts.current_profile_fps@)),
        Member::Pair("current_profile_mbps"@, Value::Raw(texts.current_profile_mbps@)),
        Member::Pair("target_bitrate_mbps"@, Value::Raw(texts.target_bitrate_mbps@)),
        Member::Pair("width"@, Value::Number(capture.width as u64)),
        Member::Pair("height"@, Value::Number(capture.height as u64)),
        Member::Pair("copy_ms_avg"@, Value::Raw(texts.copy_ms_avg@)),
    ]
}

fn add_screen_done_line_first(
    members: Fragment,
    reason: &str,
    setup: &SenderSetup,
    pacing: &PacingCounters,
    capture: &CaptureCounts,
    rates: &RunRateSummary,
    texts: &ScreenDoneLineTexts,
) -> (r: Fragment)
    ensures
        r@ == members@ + screen_done_line_first(reason, setup, pacing, capture, rates, texts),
{
    let ghost before = members@;
    let r: Fragment = members
        .name("type", "NATIVE_SCREEN_STOPPED")
        .name("role", "sender")
        .name("mode", "screen-send")
        .name("reason", reason)
        .quoted("host", setup.host.as_str())
        .number("port", setup.port as u64)
        .number("frames_sent", pacing.frames_sent)
        .number("packets_sent", pacing.packets_sent)
        .number("bytes_sent", pacing.bytes_sent)
        .raw("duration_sec", texts.duration_sec.as_str())
        .raw("fps", texts.fps.as_str())
        .raw("mbps", texts.mbps.as_str())
        .raw("current_profile_duration_sec", texts.current_profile_duration_sec.as_str())
        .number("current_profile_frames_sent", rates.current_profile_frames_sent)
        .raw("current_profile_fps", texts.current_profile_fps.as_str())
        .raw("current_profile_mbps", texts.current_profile_mbps.as_str())
        .raw("target_bitrate_mbps", texts.target_bitrate_mbps.as_str())
        .number("width", capture.width as u64)
        .number("height", capture.height as u64)
        .raw("copy_ms_avg", texts.copy_ms_avg.as_str());
    assert(r@ =~= before + screen_done_line_first(reason, setup, pacing, capture, rates, texts));
    r
}

/// The second part of `screen_done_line`.
pub open spec fn screen_done_line_second(
    bitrate: &str,
    conversion: &str,
    encoder_choice: &str,
    color: &str,
    input_color: &str,
    output_color: &str,
    transport: Seq<char>,
    adaptive: Seq<char>,
    context: &str,
    texts: &ScreenDoneLineTexts,
) -> Seq<Member> {
    seq![
        Member::Pair("convert_ms_avg"@, Value::Raw(texts.convert_ms_avg@)),
        Member::Pair("encode_ms_avg"@, Value::Raw(texts.encode_ms_avg@)),
        Member::Pair("packetize_send_ms_avg"@, Value::Raw(texts.packetize_send_ms_avg@)),
        Member::Fragment(bitrate@),
        Member::Fragment(conversion@),
        Member::Fragment(encoder_choice@),
        Member::Fragment(color@),
        Member::Fragment(input_color@),
        Member::Fragment(output_color@),
        Member::Fragment(transport),
        Member::Fragment(adaptive),
        Member::Fragment(context@),
    ]
}

fn add_screen_done_line_second(
    members: Fragment,
    bitrate: &str,
    conversion: &str,
    encoder_choice: &str,
    color: &str,
    input_color: &str,
    output_color: &str,
    transport: &str,
    adaptive: &str,
    context: &str,
    texts: &ScreenDoneLineTexts,
) -> (r: Fragment)
    ensures
        r@ == members@ + screen_done_line_second(
            bitrate,
            conversion,
            encoder_choice,
            color,
            input_color,
            output_color,
            transport@,
            adaptive@,
            context,
            texts,
        ),
{
    let ghost before = members@;
    let r: Fragment = members
        .raw("convert_ms_avg", texts.convert_ms_avg.as_str())
        .raw("encode_ms_avg", texts.encode_ms_avg.as_str())
        .raw("packetize_send_ms_avg", texts.packetize_send_ms_avg.as_str())
        .fragment(bitrate)
        .fragment(conversion)
        .fragment(encoder_choice)
        .fragment(color)
        .fragment(input_color)
        .fragment(output_color)
        .fragment(transport)
        .fragment(adaptive)
        .fragment(context);
    assert(r@ =~= before + screen_done_line_second(
        bitrate,
        conversion,
        encoder_choice,
        color,
        input_color,
        output_color,
        transport@,
        adaptive@,
        context,
        texts,
    ));
    r
}

/// What a sender of a screen reports at the end.
pub open spec fn screen_done_line_members(
    reason: &str,
    setup: &SenderSetup,
    pacing: &PacingCounters,
    capture: &CaptureCounts,
    rates: &RunRateSummary,
    bitrate: &str,
    conversion: &str,
    encoder_choice: &str,
    color: &str,
    input_color: &str,
    output_color: &str,
    transport: Seq<char>,
    adaptive: Seq<char>,
    context: &str,
    texts: &ScreenDoneLineTexts,
) -> Seq<Member> {
    screen_done_line_first(reason, setup, pacing, capture, rates, texts)
        + screen_done_line_second(
            bitrate,
            conversion,
            encoder_choice,
            color,
            input_color,
            output_color,
            transport,
            adaptive,
            context,
            texts,
        )
}

/// What a sender of a screen reports at the end.
pub fn screen_done_line(
    reason: &str,
    setup: &SenderSetup,
    pacing: &PacingCounters,
    capture: &CaptureCounts,
    rates: &RunRateSummary,
    bitrate: &str,
    conversion: &str,
    encoder_choice: &str,
    color: &str,
    input_color: &str,
    output_color: &str,
    transport: &str,
    adaptive: &str,
    context: &str,
    texts: &ScreenDoneLineTexts,
) -> (r: String)
    ensures
        r@ == json::object(
            screen_done_line_members(
                reason,
                setup,
                pacing,
                capture,
                rates,
                bitrate,
                conversion,
                encoder_choice,
                color,
                input_color,
                output_color,
                transport@,
                adaptive@,
                context,
                texts,
            ),
        ),
{
    let members: Fragment = Fragment::new();
    let members: Fragment = add_screen_done_line_first(
        members,
        reason,
        setup,
        pacing,
        capture,
        rates,
        texts,
    );
    let members: Fragment = add_screen_done_line_second(
        members,
        bitrate,
        conversion,
        encoder_choice,
        color,
        input_color,
        output_color,
        transport,
        adaptive,
        context,
        texts,
    );
    assert(members@ =~= screen_done_line_members(
        reason,
        setup,
        pacing,
        capture,
        rates,
        bitrate,
        conversion,
        encoder_choice,
        color,
        input_color,
        output_color,
        transport@,
        adaptive@,
        context,
        texts,
    ));
    members.finish_object()
}

/// Real numbers of `sender_error_line`, written in decimals.
#[derive(Debug)]
pub struct SenderErrorLineTexts {
    pub duration_sec: String,
}

/// What went wrong.
pub open spec fn sender_error_line_members(
    pacing: &PacingCounters,
    error: &str,
    transport: Seq<char>,
    adaptive: Seq<char>,
    context: &str,
    texts: &SenderErrorLineTexts,
) -> Seq<Member> {
    seq![
        Member::Pair("type"@, Value::Name("NATIVE_SCREEN_ERROR"@)),
        Member::Pair("role"@, Value::Name("sender"@)),
        Member::Pair("mode"@, Value::Name("screen-send"@)),
        Member::Pair("error"@, Value::Quoted(error@)),
        Member::Pair("frames_sent"@, Value::Number(pacing.frames_sent)),
        Member::Pair("packets_sent"@, Value::Number(pacing.packets_sent)),
        Member::Pair("bytes_sent"@, Value::Number(pacing.bytes_sent)),
        Member::Pair("duration_sec"@, Value::Raw(texts.duration_sec@)),
        Member::Fragment(transport),
        Member::Fragment(adaptive),
        Member::Fragment(context@),
    ]
}

/// What went wrong.
pub fn sender_error_line(
    pacing: &PacingCounters,
    error: &str,
    transport: &str,
    adaptive: &str,
    context: &str,
    texts: &SenderErrorLineTexts,
) -> (r: String)
    ensures
        r@ == json::object(
            sender_error_line_members(pacing, error, transport@, adaptive@, context, texts),
        ),
{
    let members: Fragment = Fragment::new()
        .name("type", "NATIVE_SCREEN_ERROR")
        .name("role", "sender")
        .name("mode", "screen-send")
        .quoted("error", error)
        .number("frames_sent", pacing.frames_sent)
        .number("packets_sent", pacing.packets_sent)
        .number("bytes_sent", pacing.bytes_sent)
        .raw("duration_sec", texts.duration_sec.as_str())
        .fragment(transport)
        .fragment(adaptive)
        .fragment(context);
    assert(
        members@ =~= sender_error_line_members(pacing, error, transport@, adaptive@, context, texts)
    );
    members.finish_object()
}

/// Real numbers of `sender_failed_line`, written in decimals.
#[derive(Debug)]
pub struct SenderFailedLineTexts {
    pub duration_sec: String,
    pub fps: String,
    pub mbps: String,
    pub target_bitrate_mbps: String,
}

/// What a sender of a screen reports at the end of a run that failed.
pub open spec fn sender_failed_line_members(
    event_type: Seq<char>,
    reason: &str,
    setup: &SenderSetup,
    pacing: &PacingCounters,
    width: u32,
    height: u32,
    transport: Seq<char>,
    adaptive: Seq<char>,
    context: &str,
    texts: &SenderFailedLineTexts,
) -> Seq<Member> {
    seq![
        Member::Pair("type"@, Value::Name(event_type)),
        Member::Pair("role"@, Value::Name("sender"@)),
        Member::Pair("mode"@, Value::Name("screen-send"@)),
        Member::Pair("reason"@, Value::Name(reason@)),
        Member::Pair("host"@, Value::Quoted(setup.host@)),
        Member::Pair("port"@, Value::Number(setup.port as u64)),
        Member::Pair("frames_sent"@, Value::Number(pacing.frames_sent)),
        Member::Pair("packets_sent"@, Value::Number(pacing.packets_sent)),
        Member::Pair("bytes_sent"@, Value::Number(pacing.bytes_sent)),
        Member::Pair("duration_sec"@, Value::Raw(texts.duration_sec@)),
        Member::Pair("fps"@, Value::Raw(texts.fps@)),
        Member::Pair("mbps"@, Value::Raw(texts.mbps@)),
        Member::Pair("target_bitrate_mbps"@, Value::Raw(texts.target_bitrate_mbps@)),
        Member::Pair("width"@, Value::Number(width as u64)),
        Member::Pair("height"@, Value::Number(height as u64)),
        Member::Fragment(transport),
        Member::Fragment(adaptive),
        Member::Fragment(context@),
    ]
}

/// What a sender of a screen reports at the end of a run that failed.
pub fn sender_failed_line(
    event_type: &str,
    reason: &str,
    setup: &SenderSetup,
    pacing: &PacingCounters,
    width: u32,
    height: u32,
    transport: &str,
    adaptive: &str,
    context: &str,
    texts: &SenderFailedLineTexts,
) -> (r: String)
    ensures
        r@ == json::object(
            sender_failed_line_members(
                event_type@,
                reason,
                setup,
                pacing,
                width,
                height,
                transport@,
                adaptive@,
                context,
                texts,
            ),
        ),
{
    let members: Fragment = Fragment::new()
        .name("type", event_type)
        .name("role", "sender")
        .name("mode", "screen-send")
        .name("reason", reason)
        .quoted("host", setup.host.as_str())
        .number("port", setup.port as u64)
        .number("frames_sent", pacing.frames_sent)
        .number("packets_sent", pacing.packets_sent)
        .number("bytes_sent", pacing.bytes_sent)
        .raw("duration_sec", texts.duration_sec.as_str())
        .raw("fps", texts.fps.as_str())
        .raw("mbps", texts.mbps.as_str())
        .raw("target_bitrate_mbps", texts.target_bitrate_mbps.as_str())
        .number("width", width as u64)
        .number("height", height as u64)
        .fragment(transport)
        .fragment(adaptive)
        .fragment(context);
    assert(members@ =~= sender_failed_line_members(
        event_type@,
        reason,
        setup,
        pacing,
        width,
        height,
        transport@,
        adaptive@,
        context,
        texts,
    ));
    members.finish_object()
}

/// What a report is made of, besides what was set up and what is counted of packets.
pub struct ReportParts<'a> {
    pub control: &'a ControlCounters,
    pub audio: &'a AudioSendStats,
    pub cache: &'a RepairCacheStats,
    pub force: &'a KeyframeForceStats,
    pub transport: &'a TransportMetricsFragmentTexts,
    pub transition: &'a Option<TransitionStatus>,
    pub waits: &'a EncoderWaits,
    pub runtime_started: u64,
    pub now: u64,
    pub feedback: &'a Option<CapabilityFeedback>,
    pub feedback_stats: &'a FeedbackTrackerStats,
    /// What the display, the choice of the frame rate and the controller of the quality
    /// report of themselves.
    pub display: &'a str,
    pub frame_rate: &'a str,
    pub controller: &'a str,
    pub adaptive: &'a AdaptiveMetricsFragmentTexts,
    /// What the choice of the bit rate, the conversion, the choice of the encoder and the
    /// colors report of themselves.
    pub bitrate: &'a str,
    pub conversion: &'a str,
    pub encoder_choice: &'a str,
    pub color: &'a str,
    pub input_color: &'a str,
    pub output_color: &'a str,
    pub context: &'a str,
}

impl ReportParts<'_> {
    /// What is reported of the transport.
    pub open spec fn transport_text(
        self,
        setup: &SenderSetup,
        state: &SenderState<String>,
        pacing: &PacingCounters,
    ) -> Seq<char> {
        json::render(
            transport_metrics_fragment_members(
                setup,
                state,
                pacing,
                self.control,
                self.audio,
                self.cache,
                self.force,
                self.transport,
            ),
        )
    }

    fn transport_written(
        &self,
        setup: &SenderSetup,
        state: &SenderState<String>,
        pacing: &PacingCounters,
    ) -> (r: String)
        ensures
            r@ == self.transport_text(setup, state, pacing),
    {
        transport_metrics_fragment(
            setup,
            state,
            pacing,
            self.control,
            self.audio,
            self.cache,
            self.force,
            self.transport,
        )
    }

    /// What is reported of the quality.
    pub open spec fn adaptive_text(
        self,
        setup: &SenderSetup,
        state: &SenderState<String>,
    ) -> Seq<char> {
        json::render(
            adaptive_metrics_fragment_members(
                setup,
                state,
                self.control,
                self.transition,
                self.waits,
                self.runtime_started,
                self.now,
                self.feedback,
                self.feedback_stats,
                self.display,
                self.frame_rate,
                self.controller,
                self.adaptive,
            ),
        )
    }

    fn adaptive_written(&self, setup: &SenderSetup, state: &SenderState<String>) -> (r: String)
        ensures
            r@ == self.adaptive_text(setup, state),
    {
        adaptive_metrics_fragment(
            setup,
            state,
            self.control,
            self.transition,
            self.waits,
            self.runtime_started,
            self.now,
            self.feedback,
            self.feedback_stats,
            self.display,
            self.frame_rate,
            self.controller,
            self.adaptive,
        )
    }

    /// What is reported of the quality at the end: with it stand how the workers ended and
    /// how the run did.
    pub open spec fn final_text(
        self,
        setup: &SenderSetup,
        state: &SenderState<String>,
        pacing: &PacingCounters,
        ending: Ending,
    ) -> Seq<char> {
        json::render(
            seq![
                Member::Fragment(self.adaptive_text(setup, state)),
                Member::Fragment(json::render(ending.shutdown.members())),
                Member::Fragment(
                    json::render(
                        final_sender_summary_fragment_members(
                            state,
                            pacing,
                            self.control,
                            self.transition,
                            ending.frames_captured,
                            ending.frames_encoded,
                            ending.profile_name,
                            ending.last_error,
                        ),
                    ),
                ),
            ],
        )
    }

    fn final_written(
        &self,
        setup: &SenderSetup,
        state: &SenderState<String>,
        pacing: &PacingCounters,
        ending: &Ending,
    ) -> (r: String)
        ensures
            r@ == self.final_text(setup, state, pacing, *ending),
    {
        let adaptive: String = self.adaptive_written(setup, state);
        let shutdown: String = ending.shutdown.json_fragment();
        let summary: String = final_sender_summary_fragment(
            state,
            pacing,
            self.control,
            self.transition,
            ending.frames_captured,
            ending.frames_encoded,
            ending.profile_name,
            ending.last_error,
        );
        let members: Fragment = Fragment::new()
            .fragment(adaptive.as_str())
            .fragment(shutdown.as_str())
            .fragment(summary.as_str());
        assert(members@ =~= seq![
            Member::Fragment(adaptive@),
            Member::Fragment(shutdown@),
            Member::Fragment(summary@),
        ]);
        members.finish()
    }
}

/// How a run of the sender ended.
pub struct Ending<'a> {
    pub shutdown: &'a WorkerShutdownSummary,
    pub frames_captured: u64,
    pub frames_encoded: u64,
    pub profile_name: &'a str,
    pub last_error: Option<&'a str>,
}

/// What is reported from time to time: in each mode its own line, with transport and quality
/// taken from the same state.
pub fn stats_line(
    mode: H264SendMode,
    encoder: &str,
    setup: &SenderSetup,
    state: &SenderState<String>,
    pacing: &PacingCounters,
    capture: &CaptureCounts,
    interval: &Totals,
    parts: &ReportParts,
    probe: &ProbeStatsLineTexts,
    screen: &ScreenStatsLineTexts,
) -> (r: String)
    ensures
        r@ == json::object(
            match mode {
                H264SendMode::Probe => probe_stats_line_members(
                    encoder,
                    setup,
                    state,
                    pacing,
                    capture,
                    interval,
                    parts.bitrate,
                    parts.conversion,
                    parts.encoder_choice,
                    parts.color,
                    parts.input_color,
                    parts.output_color,
                    parts.transport_text(setup, state, pacing),
                    parts.adaptive_text(setup, state),
                    probe,
                ),
                H264SendMode::Screen => screen_stats_line_members(
                    setup,
                    state,
                    pacing,
                    capture,
                    interval,
                    parts.bitrate,
                    parts.conversion,
                    parts.encoder_choice,
                    parts.color,
                    parts.input_color,
                    parts.output_color,
                    parts.transport_text(setup, state, pacing),
                    parts.adaptive_text(setup, state),
                    parts.context,
                    screen,
                ),
            },
        ),
{
    let transport: String = parts.transport_written(setup, state, pacing);
    let adaptive: String = parts.adaptive_written(setup, state);
    match mode {
        H264SendMode::Probe => probe_stats_line(
            encoder,
            setup,
            state,
            pacing,
            capture,
            interval,
            parts.bitrate,
            parts.conversion,
            parts.encoder_choice,
            parts.color,
            parts.input_color,
            parts.output_color,
            transport.as_str(),
            adaptive.as_str(),
            probe,
        ),
        H264SendMode::Screen => screen_stats_line(
            setup,
            state,
            pacing,
            capture,
            interval,
            parts.bitrate,
            parts.conversion,
            parts.encoder_choice,
            parts.color,
            parts.input_color,
            parts.output_color,
            transport.as_str(),
            adaptive.as_str(),
            parts.context,
            screen,
        ),
    }
}

/// What is reported at the end: in each mode its own line.
pub fn done_line(
    mode: H264SendMode,
    encoder: &str,
    reason: &str,
    setup: &SenderSetup,
    state: &SenderState<String>,
    pacing: &PacingCounters,
    capture: &CaptureCounts,
    rates: &RunRateSummary,
    parts: &ReportParts,
    ending: &Ending,
    probe: &ProbeDoneLineTexts,
    screen: &ScreenDoneLineTexts,
) -> (r: String)
    ensures
        r@ == json::object(
            match mode {
                H264SendMode::Probe => probe_done_line_members(
                    encoder,
                    setup,
                    state,
                    pacing,
                    capture,
                    rates,
                    parts.bitrate,
                    parts.conversion,
                    parts.encoder_choice,
                    parts.color,
                    parts.input_color,
                    parts.output_color,
                    parts.transport_text(setup, state, pacing),
                    parts.final_text(setup, state, pacing, *ending),
                    probe,
                ),
                H264SendMode::Screen => screen_done_line_members(
                    reason,
                    setup,
                    pacing,
                    capture,
                    rates,
                    parts.bitrate,
                    parts.conversion,
                    parts.encoder_choice,
                    parts.color,
                    parts.input_color,
                    parts.output_color,
                    parts.transport_text(setup, state, pacing),
                    parts.final_text(setup, state, pacing, *ending),
                    parts.context,
                    screen,
                ),
            },
        ),
{
    let transport: String = parts.transport_written(setup, state, pacing);
    let adaptive: String = parts.final_written(setup, state, pacing, ending);
    match mode {
        H264SendMode::Probe => probe_done_line(
            encoder,
            setup,
            state,
            pacing,
            capture,
            rates,
            parts.bitrate,
            parts.conversion,
            parts.encoder_choice,
            parts.color,
            parts.input_color,
            parts.output_color,
            transport.as_str(),
            adaptive.as_str(),
            probe,
        ),
        H264SendMode::Screen => screen_done_line(
            reason,
            setup,
            pacing,
            capture,
            rates,
            parts.bitrate,
            parts.conversion,
            parts.encoder_choice,
            parts.color,
            parts.input_color,
            parts.output_color,
            transport.as_str(),
            adaptive.as_str(),
            parts.context,
            screen,
        ),
    }
}

/// What is reported when a screen is no longer shared because of an error: a line that tells
/// the error, where there is one to tell, and the line that ends the run.  `context` of the
/// parts belongs to the first line, `stopped_context` to the second.
pub fn failure_report(
    reason: &str,
    setup: &SenderSetup,
    state: &SenderState<String>,
    pacing: &PacingCounters,
    width: u32,
    height: u32,
    parts: &ReportParts,
    stopped_context: &str,
    ending: &Ending,
    error_texts: &SenderErrorLineTexts,
    texts: &SenderFailedLineTexts,
) -> (r: (Option<String>, String))
    ensures
        (match r.0 {
            Some(line) => Some(line@),
            None => None,
        }) == (match ending.last_error {
            Some(error) => Some(
                json::object(
                    sender_error_line_members(
                        pacing,
                        error,
                        parts.transport_text(setup, state, pacing),
                        parts.final_text(setup, state, pacing, *ending),
                        parts.context,
                        error_texts,
                    ),
                ),
            ),
            None => None,
        }),
        r.1@ == json::object(
            sender_failed_line_members(
                shutdown::terminal_event(
                    ending.shutdown.joined() && ending.shutdown.runtime_error is None,
                ),
                reason,
                setup,
                pacing,
                width,
                height,
                parts.transport_text(setup, state, pacing),
                parts.final_text(setup, state, pacing, *ending),
                stopped_context,
                texts,
            ),
        ),
{
    let transport: String = parts.transport_written(setup, state, pacing);
    let adaptive: String = parts.final_written(setup, state, pacing, ending);
    let told: Option<String> = match ending.last_error {
        Some(error) => Some(
            sender_error_line(
                pacing,
                error,
                transport.as_str(),
                adaptive.as_str(),
                parts.context,
                error_texts,
            ),
        ),
        None => None,
    };
    let ended: String = sender_failed_line(
        terminal_event_type(ending.shutdown.clean()),
        reason,
        setup,
        pacing,
        width,
        height,
        transport.as_str(),
        adaptive.as_str(),
        stopped_context,
        texts,
    );
    (told, ended)
}

/// What kept the sender from starting.
pub open spec fn sender_startup_error_line_members(error: &str, context: &str) -> Seq<Member> {
    seq![
        Member::Pair("type"@, Value::Name("NATIVE_SCREEN_ERROR"@)),
        Member::Pair("role"@, Value::Name("sender"@)),
        Member::Pair("mode"@, Value::Name("screen-send"@)),
        Member::Pair("error"@, Value::Quoted(error@)),
        Member::Fragment(context@),
    ]
}

/// What kept the sender from starting.
pub fn sender_startup_error_line(error: &str, context: &str) -> (r: String)
    ensures
        r@ == json::object(sender_startup_error_line_members(error, context)),
{
    let members: Fragment = Fragment::new()
        .name("type", "NATIVE_SCREEN_ERROR")
        .name("role", "sender")
        .name("mode", "screen-send")
        .quoted("error", error)
        .fragment(context);
    assert(members@ =~= sender_startup_error_line_members(error, context));
    members.finish_object()
}

/// The first part of `sender_startup_failure_line`.
pub open spec fn sender_startup_failure_line_first(
    event_type: &str,
    reason: &str,
    setup: &SenderSetup,
) -> Seq<Member> {
    seq![
        Member::Pair("type"@, Value::Name(event_type@)),
        Member::Pair("role"@, Value::Name("sender"@)),
        Member::Pair("mode"@, Value::Name("screen-send"@)),
        Member::Pair("reason"@, Value::Name(reason@)),
        Member::Pair("host"@, Value::Quoted(setup.host@)),
        Member::Pair("port"@, Value::Number(setup.port as u64)),
        Member::Pair("frames_sent"@, Value::Number(0)),
        Member::Pair("packets_sent"@, Value::Number(0)),
        Member::Pair("bytes_sent"@, Value::Number(0)),
        Member::Pair("duration_sec"@, Value::Raw("0.0"@)),
        Member::Pair("profile_transition_phase"@, Value::Name("idle"@)),
        Member::Pair("profile_transition_active"@, Value::Flag(false)),
        Member::Pair("profile_transition_timeout_count"@, Value::Number(0)),
        Member::Pair("profile_transition_failure_count"@, Value::Number(0)),
        Member::Pair("profile_transition_last_failure_reason"@, Value::Raw("null"@)),
        Member::Pair("qsv_async_wait_timeouts"@, Value::Number(0)),
        Member::Pair("qsv_async_wait_cancelled"@, Value::Number(0)),
        Member::Pair("qsv_drain_timeouts"@, Value::Number(0)),
        Member::Pair("worker_join_audio"@, Value::Name("not_started"@)),
        Member::Pair("worker_join_pacer"@, Value::Name("not_started"@)),
    ]
}

fn add_sender_startup_failure_line_first(
    members: Fragment,
    event_type: &str,
    reason: &str,
    setup: &SenderSetup,
) -> (r: Fragment)
    ensures
        r@ == members@ + sender_startup_failure_line_first(event_type, reason, setup),
{
    let ghost before = members@;
    let r: Fragment = members
        .name("type", event_type)
        .name("role", "sender")
        .name("mode", "screen-send")
        .name("reason", reason)
        .quoted("host", setup.host.as_str())
        .number("port", setup.port as u64)
        .number("frames_sent", 0)
        .number("packets_sent", 0)
        .number("bytes_sent", 0)
        .raw("duration_sec", "0.0")
        .name("profile_transition_phase", "idle")
        .flag("profile_transition_active", false)
        .number("profile_transition_timeout_count", 0)
        .number("profile_transition_failure_count", 0)
        .raw("profile_transition_last_failure_reason", "null")
        .number("qsv_async_wait_timeouts", 0)
        .number("qsv_async_wait_cancelled", 0)
        .number("qsv_drain_timeouts", 0)
        .name("worker_join_audio", "not_started")
        .name("worker_join_pacer", "not_started");
    assert(r@ =~= before + sender_startup_failure_line_first(event_type, reason, setup));
    r
}

/// The second part of `sender_startup_failure_line`.
pub open spec fn sender_startup_failure_line_second(
    error: &str,
    cleanup_failed: bool,
    retained_workers: u64,
) -> Seq<Member> {
    seq![
        Member::Pair("worker_join_control"@, Value::Name("not_started"@)),
        Member::Pair("worker_join_all_clean"@, Value::Flag(!cleanup_failed)),
        Member::Pair(
            "capture_thread_state"@,
            Value::Name(if cleanup_failed { "retained_unjoined"@ } else { "not_started"@ }),
        ),
        Member::Pair("encode_thread_state"@, Value::Name("not_started"@)),
        Member::Pair("send_thread_state"@, Value::Name("not_started"@)),
        Member::Pair("feedback_thread_state"@, Value::Name("not_started"@)),
        Member::Pair("repair_thread_state"@, Value::Name("not_started"@)),
        Member::Pair("transition_thread_state"@, Value::Name("not_started"@)),
        Member::Pair("retained_worker_count"@, Value::Number(retained_workers)),
        Member::Pair("close_sent"@, Value::Flag(false)),
        Member::Pair("peer_timeout_triggered"@, Value::Flag(false)),
        Member::Pair("final_frames_captured"@, Value::Number(0)),
        Member::Pair("final_frames_encoded"@, Value::Number(0)),
        Member::Pair("final_frames_sent"@, Value::Number(0)),
        Member::Pair("final_bytes_sent"@, Value::Number(0)),
        Member::Pair("final_repair_bytes"@, Value::Number(0)),
        Member::Pair("final_profile"@, Value::Raw("null"@)),
        Member::Pair("active_video_session_id"@, Value::Raw("null"@)),
        Member::Pair("pending_video_session_id"@, Value::Raw("null"@)),
        Member::Pair("last_error"@, Value::Quoted(error@)),
    ]
}

fn add_sender_startup_failure_line_second(
    members: Fragment,
    error: &str,
    cleanup_failed: bool,
    retained_workers: u64,
) -> (r: Fragment)
    ensures
        r@ == members@ + sender_startup_failure_line_second(
            error,
            cleanup_failed,
            retained_workers,
        ),
{
    let ghost before = members@;
    let r: Fragment = members
        .name("worker_join_control", "not_started")
        .flag("worker_join_all_clean", !cleanup_failed)
        .name(
            "capture_thread_state",
            if cleanup_failed { "retained_unjoined" } else { "not_started" },
        )
        .name("encode_thread_state", "not_started")
        .name("send_thread_state", "not_started")
        .name("feedback_thread_state", "not_started")
        .name("repair_thread_state", "not_started")
        .name("transition_thread_state", "not_started")
        .number("retained_worker_count", retained_workers)
        .flag("close_sent", false)
        .flag("peer_timeout_triggered", false)
        .number("final_frames_captured", 0)
        .number("final_frames_encoded", 0)
        .number("final_frames_sent", 0)
        .number("final_bytes_sent", 0)
        .number("final_repair_bytes", 0)
        .raw("final_profile", "null")
        .raw("active_video_session_id", "null")
        .raw("pending_video_session_id", "null")
        .quoted("last_error", error);
    assert(
        r@ =~= before + sender_startup_failure_line_second(error, cleanup_failed, retained_workers)
    );
    r
}

/// The third part of `sender_startup_failure_line`.
pub open spec fn sender_startup_failure_line_third(context: &str) -> Seq<Member> {
    seq![
        Member::Pair("cleanup_duration_ms"@, Value::Raw("0.0"@)),
        Member::Fragment(context@),
    ]
}

fn add_sender_startup_failure_line_third(members: Fragment, context: &str) -> (r: Fragment)
    ensures
        r@ == members@ + sender_startup_failure_line_third(context),
{
    let ghost before = members@;
    let r: Fragment = members
        .raw("cleanup_duration_ms", "0.0")
        .fragment(context);
    assert(r@ =~= before + sender_startup_failure_line_third(context));
    r
}

/// What a sender of a screen reports where it could not start.
pub open spec fn sender_startup_failure_line_members(
    event_type: &str,
    reason: &str,
    setup: &SenderSetup,
    error: &str,
    cleanup_failed: bool,
    retained_workers: u64,
    context: &str,
) -> Seq<Member> {
    sender_startup_failure_line_first(event_type, reason, setup)
        + sender_startup_failure_line_second(error, cleanup_failed, retained_workers)
        + sender_startup_failure_line_third(context)
}

/// What a sender of a screen reports where it could not start.
pub fn sender_startup_failure_line(
    event_type: &str,
    reason: &str,
    setup: &SenderSetup,
    error: &str,
    cleanup_failed: bool,
    retained_workers: u64,
    context: &str,
) -> (r: String)
    ensures
        r@ == json::object(
            sender_startup_failure_line_members(
                event_type,
                reason,
                setup,
                error,
                cleanup_failed,
                retained_workers,
                context,
            ),
        ),
{
    let members: Fragment = Fragment::new();
    let members: Fragment = add_sender_startup_failure_line_first(
        members,
        event_type,
        reason,
        setup,
    );
    let members: Fragment = add_sender_startup_failure_line_second(
        members,
        error,
        cleanup_failed,
        retained_workers,
    );
    let members: Fragment = add_sender_startup_failure_line_third(members, context);
    assert(members@ =~= sender_startup_failure_line_members(
        event_type,
        reason,
        setup,
        error,
        cleanup_failed,
        retained_workers,
        context,
    ));
    members.finish_object()
}

// What the reports say.

/// What is reported of the keyframes: each count under its name.
pub proof fn law_keyframe_metrics_fragment_tells(
    state: &SenderState<String>,
    force: &KeyframeForceStats,
    texts: &KeyframeMetricsFragmentTexts,
)
    ensures
        ({
            let members = keyframe_metrics_fragment_members(state, force, texts);
            &&& json::counts(
                members,
                "keyframe_interval_target_frames"@,
                state.session.keyframe_target_frames as u64,
            )
            &&& json::quotes(
                members,
                "keyframe_config_method"@,
                state.keyframe_control.config_method@,
            )
            &&& json::flags(
                members,
                "keyframe_config_applied"@,
                state.keyframe_control.config_applied,
            )
            &&& json::flags(
                members,
                "keyframe_force_supported"@,
                state.keyframe_control.force_supported,
            )
            &&& json::counts(members, "keyframe_force_requests"@, force.requests)
            &&& json::counts(members, "keyframe_force_failures"@, force.failures)
            &&& json::counts_if_known(
                members,
                "keyframe_force_last_requested_frame_id"@,
                force.last_requested_frame_id,
            )
            &&& json::counts_if_known(
                members,
                "keyframe_force_last_effective_frame_id"@,
                force.last_effective_frame_id,
            )
            &&& json::counts(
                members,
                "keyframe_force_latency_frames_max"@,
                force.latency_frames_max,
            )
            &&& json::counts(members, "idr_frames_sent"@, state.samples.idr_frames)
            &&& json::counts(members, "sps_pps_repeated"@, state.samples.sps_pps_repeated)
        }),
{
    let members = keyframe_metrics_fragment_members(state, force, texts);
    assert(members[1] is Pair);
    assert(members[5] is Pair);
    assert(members[6] is Pair);
    assert(members[8] is Pair);
    assert(members[9] is Pair);
    assert(members[10] is Pair);
    assert(members[11] is Pair);
    assert(members[12] is Pair);
    assert(members[17] is Pair);
    assert(members[18] is Pair);
    assert(members[19] is Pair);
}

/// What is reported of a change of profile: each count under its name.
pub proof fn law_profile_transition_metrics_fragment_tells(
    state: &SenderState<String>,
    control: &ControlCounters,
    transition: &Option<TransitionStatus>,
    waits: &EncoderWaits,
    runtime_started: u64,
    now: u64,
    texts: &ProfileTransitionMetricsFragmentTexts,
)
    ensures
        ({
            let members = profile_transition_metrics_fragment_members(
                state,
                control,
                transition,
                waits,
                runtime_started,
                now,
                texts,
            );
            &&& json::names(members, "profile_transition_phase"@, phase_of(*transition))
            &&& json::flags(members, "profile_transition_active"@, state.book.active)
            &&& json::counts(
                members,
                "profile_transition_change_sequence"@,
                sequence_of(*transition),
            )
            &&& json::counts(members, "profile_transition_generation"@, generation_of(*transition))
            &&& json::counts_if_known(
                members,
                "profile_transition_old_session_id"@,
                old_session_of(*transition),
            )
            &&& json::counts_if_known(
                members,
                "profile_transition_new_session_id"@,
                new_session_of(*transition),
            )
            &&& json::counts_if_known(
                members,
                "profile_transition_started_us"@,
                started_us_of(*transition, runtime_started),
            )
            &&& json::counts_if_known(
                members,
                "profile_transition_deadline_remaining_ms"@,
                remaining_ms_of(*transition, now),
            )
            &&& json::counts(members, "profile_transition_timeout_count"@, state.book.timeout_count)
            &&& json::counts(
                members,
                "profile_transition_rollback_count"@,
                state.book.rollback_count,
            )
            &&& json::counts(members, "profile_transition_failure_count"@, state.book.failure_count)
            &&& json::counts(members, "mprf_packets_sent"@, state.book.mprf_packets_sent)
            &&& json::counts(members, "mprf_retry_attempts"@, state.book.mprf_retry_attempts)
            &&& json::counts(
                members,
                "mprf_ack_packets_received"@,
                control.mprf_ack_packets_received,
            )
            &&& json::counts(members, "mprf_ack_timeout"@, state.book.mprf_ack_timeout)
            &&& json::counts(members, "new_pipeline_prepare_success"@, state.book.prepare_success)
            &&& json::counts(members, "new_pipeline_prepare_error"@, state.book.prepare_error)
            &&& json::flags(members, "new_pipeline_first_idr_ready"@, state.book.first_idr_ready)
            &&& json::counts(members, "qsv_async_wait_timeouts"@, waits.async_wait_timeouts)
            &&& json::counts(members, "qsv_async_wait_cancelled"@, waits.async_wait_cancelled)
            &&& json::counts(members, "qsv_drain_timeouts"@, waits.drain_timeouts)
        }),
{
    let members = profile_transition_metrics_fragment_members(
        state,
        control,
        transition,
        waits,
        runtime_started,
        now,
        texts,
    );
    assert(members[0] is Pair);
    assert(members[1] is Pair);
    assert(members[2] is Pair);
    assert(members[3] is Pair);
    assert(members[4] is Pair);
    assert(members[5] is Pair);
    assert(members[6] is Pair);
    assert(members[8] is Pair);
    assert(members[9] is Pair);
    assert(members[10] is Pair);
    assert(members[11] is Pair);
    assert(members[14] is Pair);
    assert(members[15] is Pair);
    assert(members[16] is Pair);
    assert(members[18] is Pair);
    assert(members[21] is Pair);
    assert(members[22] is Pair);
    assert(members[24] is Pair);
    assert(members[25] is Pair);
    assert(members[26] is Pair);
    assert(members[27] is Pair);
}

/// What is reported of the quality: each count under its name, and with it the change of
/// profile.
pub proof fn law_adaptive_metrics_fragment_tells(
    setup: &SenderSetup,
    state: &SenderState<String>,
    control: &ControlCounters,
    transition: &Option<TransitionStatus>,
    waits: &EncoderWaits,
    runtime_started: u64,
    now: u64,
    feedback: &Option<CapabilityFeedback>,
    feedback_stats: &FeedbackTrackerStats,
    display: &str,
    frame_rate: &str,
    controller: &str,
    texts: &AdaptiveMetricsFragmentTexts,
)
    ensures
        ({
            let members = adaptive_metrics_fragment_members(
                setup,
                state,
                control,
                transition,
                waits,
                runtime_started,
                now,
                feedback,
                feedback_stats,
                display,
                frame_rate,
                controller,
                texts,
            );
            &&& json::counts(
                members,
                "receiver_display_generation"@,
                told(*feedback).display_generation,
            )
            &&& json::counts(
                members,
                "receiver_refresh_num"@,
                told(*feedback).display_refresh_numerator as u64,
            )
            &&& json::counts(
                members,
                "receiver_refresh_den"@,
                told(*feedback).display_refresh_denominator as u64,
            )
            &&& json::counts(
                members,
                "sender_capability_feedback_received"@,
                feedback_stats.received,
            )
            &&& json::counts(members, "sender_capability_feedback_invalid"@, feedback_stats.invalid)
            &&& json::counts(
                members,
                "sender_capability_feedback_stale"@,
                feedback_stats.stale_events,
            )
            &&& json::flags(members, "feedback_sample_eligible"@, state.receiver.sample_eligible)
            &&& json::counts(
                members,
                "receiver_valid_feedback_windows"@,
                state.receiver.valid_feedback_windows as u64,
            )
            &&& json::flags(members, "receiver_render_ready"@, state.receiver.render_ready)
            &&& json::flags(members, "receiver_profile_settled"@, state.receiver.profile_settled)
            &&& json::counts(
                members,
                "receiver_feedback_profile_generation"@,
                told(*feedback).profile_generation,
            )
            &&& json::counts(members, "profile_change_sequence"@, state.session.change_sequence)
            &&& json::counts_if_known(
                members,
                "old_video_session_id"@,
                state.session.old_session_id,
            )
            &&& json::counts(members, "new_video_session_id"@, state.session.session_id)
            &&& json::counts_if_known(
                members,
                "profile_change_started_us"@,
                state.session.change_started_us,
            )
            &&& json::counts_if_known(
                members,
                "profile_change_completed_us"@,
                state.session.change_completed_us,
            )
            &&& json::counts_if_known(
                members,
                "profile_change_idr_frame_id"@,
                state.session.change_idr_frame_id,
            )
            &&& json::flags(members, "encoder_reconfigure_success"@, state.session.reconfigured)
            &&& json::quotes(members, "bitrate_update_method"@, state.bitrate.method@)
            &&& json::flags(
                members,
                "bitrate_reconfigure_idr_requested"@,
                state.bitrate.idr_requested,
            )
            &&& json::flags(
                members,
                "fallback_to_full_transition"@,
                state.bitrate.fallback_to_full_transition,
            )
            &&& json::flags(
                members,
                "receiver_profile_acknowledged"@,
                state.receiver.profile_acknowledged,
            )
            &&& json::flags(
                members,
                "receiver_first_idr_decoded"@,
                state.receiver.first_idr_decoded,
            )
            &&& json::flags(
                members,
                "receiver_first_frame_rendered"@,
                state.receiver.first_frame_rendered,
            )
            &&& json::counts(
                members,
                "transition_feedback_ignored"@,
                state.receiver.feedback_ignored,
            )
            &&& json::counts(
                members,
                "transition_settle_windows"@,
                state.receiver.settle_windows as u64,
            )
            &&& json::names(members, "display_refresh_detect"@, setup.display_refresh_detect.text())
            &&& json::names(members, "max_fps_requested"@, setup.max_fps.text())
        }),
{
    let members = adaptive_metrics_fragment_members(
        setup,
        state,
        control,
        transition,
        waits,
        runtime_started,
        now,
        feedback,
        feedback_stats,
        display,
        frame_rate,
        controller,
        texts,
    );
    assert(members[1] is Pair);
    assert(members[2] is Pair);
    assert(members[3] is Pair);
    assert(members[7] is Pair);
    assert(members[8] is Pair);
    assert(members[9] is Pair);
    assert(members[11] is Pair);
    assert(members[13] is Pair);
    assert(members[14] is Pair);
    assert(members[15] is Pair);
    assert(members[16] is Pair);
    assert(members[24] is Pair);
    assert(members[25] is Pair);
    assert(members[26] is Pair);
    assert(members[27] is Pair);
    assert(members[28] is Pair);
    assert(members[30] is Pair);
    assert(members[31] is Pair);
    assert(members[35] is Pair);
    assert(members[44] is Pair);
    assert(members[45] is Pair);
    assert(members[46] is Pair);
    assert(members[47] is Pair);
    assert(members[48] is Pair);
    assert(members[49] is Pair);
    assert(members[50] is Pair);
    assert(members[52] is Pair);
    assert(members[53] is Pair);
}

/// What is reported of the sound that is sent: each count under its name.
pub proof fn law_audio_metrics_fragment_tells(
    setup: &SenderSetup,
    state: &SenderState<String>,
    audio: &AudioSendStats,
    texts: &AudioMetricsFragmentTexts,
)
    ensures
        ({
            let members = audio_metrics_fragment_members(setup, state, audio, texts);
            &&& json::flags(members, "audio_enabled"@, sounds(*audio))
            &&& json::names(members, "audio_mode"@, setup.audio_mode.text())
            &&& json::flags(members, "audio_thread_started"@, audio.thread_started)
            &&& json::flags(members, "audio_capture_thread_started"@, audio.capture_thread_started)
            &&& json::flags(members, "audio_send_thread_started"@, audio.send_thread_started)
            &&& json::flags(members, "timer_resolution_changed"@, false)
            &&& json::flags(members, "audio_playback_started"@, false)
            &&& json::flags(members, "video_sync_gating_enabled"@, false)
            &&& json::counts(members, "audio_sample_rate"@, audio.sample_rate)
            &&& json::counts(members, "audio_channels"@, audio.channels)
            &&& json::counts(members, "audio_packets_sent"@, audio.packets_sent)
            &&& json::counts(members, "audio_bytes_sent"@, audio.bytes_sent)
            &&& json::counts(members, "audio_capture_glitches"@, audio.capture_glitches)
            &&& json::counts(members, "audio_capture_empty_polls"@, audio.capture_empty_polls)
            &&& json::flags(
                members,
                "audio_capture_qpc_available"@,
                audio.audio_capture_qpc_available,
            )
            &&& json::counts(members, "audio_capture_qpc_errors"@, audio.audio_capture_qpc_errors)
            &&& json::counts(
                members,
                "audio_capture_timestamp_discontinuities"@,
                audio.audio_capture_timestamp_discontinuities,
            )
            &&& json::counts(members, "audio_capture_underruns"@, 0)
            &&& json::counts(
                members,
                "audio_send_queue_depth_current"@,
                audio.audio_send_queue_depth_current,
            )
            &&& json::counts(
                members,
                "audio_send_queue_depth_max"@,
                audio.audio_send_queue_depth_max,
            )
            &&& json::counts(members, "audio_send_queue_drops"@, audio.audio_send_queue_drops)
            &&& json::counts_if_known(
                members,
                "last_audio_timestamp_us"@,
                audio.last_audio_timestamp_us,
            )
        }),
{
    let members = audio_metrics_fragment_members(setup, state, audio, texts);
    assert(members[0] is Pair);
    assert(members[1] is Pair);
    assert(members[2] is Pair);
    assert(members[3] is Pair);
    assert(members[4] is Pair);
    assert(members[6] is Pair);
    assert(members[7] is Pair);
    assert(members[9] is Pair);
    assert(members[11] is Pair);
    assert(members[12] is Pair);
    assert(members[13] is Pair);
    assert(members[14] is Pair);
    assert(members[15] is Pair);
    assert(members[16] is Pair);
    assert(members[18] is Pair);
    assert(members[19] is Pair);
    assert(members[20] is Pair);
    assert(members[21] is Pair);
    assert(members[22] is Pair);
    assert(members[23] is Pair);
    assert(members[24] is Pair);
    assert(members[30] is Pair);
}

/// What is reported of the repairs that were served: each count under its name.
pub proof fn law_repair_metrics_fragment_tells(
    setup: &SenderSetup,
    pacing: &PacingCounters,
    control: &ControlCounters,
    cache: &RepairCacheStats,
    texts: &RepairMetricsFragmentTexts,
)
    ensures
        ({
            let members = repair_metrics_fragment_members(setup, pacing, control, cache, texts);
            &&& json::names(members, "repair_mode"@, setup.repair_mode.text())
            &&& json::counts(members, "repair_cache_ms"@, setup.repair_cache_ms)
            &&& json::counts(members, "repair_cache_packets"@, cache.packets)
            &&& json::counts(members, "repair_cache_bytes"@, cache.bytes)
            &&& json::counts(members, "repair_cache_evictions"@, cache.evictions)
            &&& json::counts(members, "video_data_packets_sent"@, pacing.data_packets_sent)
            &&& json::counts(members, "nack_packets_received"@, control.nack_packets_received)
            &&& json::counts(members, "nack_items_received"@, control.nack_items_received)
            &&& json::counts(members, "repair_packets_resent"@, control.repair_packets_resent)
            &&& json::counts(members, "repair_send_bytes"@, control.repair_send_bytes)
            &&& json::counts(members, "repair_cache_hits"@, control.repair_cache_hits)
            &&& json::counts(members, "repair_cache_misses"@, control.repair_cache_misses)
            &&& json::counts(
                members,
                "repair_cache_miss_not_found"@,
                control.repair_cache_miss_not_found,
            )
            &&& json::counts(
                members,
                "repair_cache_miss_expired"@,
                control.repair_cache_miss_expired,
            )
            &&& json::counts(
                members,
                "repair_cache_miss_evicted"@,
                control.repair_cache_miss_evicted,
            )
            &&& json::counts(
                members,
                "repair_cache_miss_wrong_session"@,
                control.repair_cache_miss_wrong_session,
            )
            &&& json::counts(members, "repair_cache_expired"@, cache.evictions)
            &&& json::counts(members, "repair_rate_limited"@, control.repair_rate_limited)
            &&& json::counts(members, "repair_send_errors"@, control.repair_send_errors)
            &&& json::counts(
                members,
                "repair_send_socket_errors"@,
                control.repair_send_socket_errors,
            )
            &&& json::flags(members, "repair_recv_thread_running"@, setup.control_running)
            &&& json::counts(members, "repair_overhead_packets"@, control.repair_packets_resent)
            &&& json::counts(members, "repair_request_total"@, control.repair_request_total)
            &&& json::counts(members, "repair_request_deduped"@, control.repair_request_deduped)
            &&& json::counts(members, "repair_send_suppressed"@, control.repair_send_suppressed)
            &&& json::counts(members, "repair_cancelled_frame_complete"@, 0)
            &&& json::counts(
                members,
                "repair_cancelled_deadline"@,
                control.repair_cancelled_deadline,
            )
            &&& json::counts(
                members,
                "stream_close_received"@,
                control.stream_close_packets_received,
            )
            &&& json::counts(
                members,
                "stream_close_ack_sent"@,
                control.stream_close_ack_packets_sent,
            )
            &&& json::counts(
                members,
                "stream_close_ack_received"@,
                control.stream_close_ack_packets_received,
            )
            &&& json::counts(members, "stream_close_invalid"@, control.stream_close_invalid)
        }),
{
    let members = repair_metrics_fragment_members(setup, pacing, control, cache, texts);
    assert(members[0] is Pair);
    assert(members[1] is Pair);
    assert(members[2] is Pair);
    assert(members[3] is Pair);
    assert(members[4] is Pair);
    assert(members[5] is Pair);
    assert(members[6] is Pair);
    assert(members[7] is Pair);
    assert(members[8] is Pair);
    assert(members[9] is Pair);
    assert(members[10] is Pair);
    assert(members[11] is Pair);
    assert(members[12] is Pair);
    assert(members[13] is Pair);
    assert(members[14] is Pair);
    assert(members[15] is Pair);
    assert(members[16] is Pair);
    assert(members[17] is Pair);
    assert(members[18] is Pair);
    assert(members[19] is Pair);
    assert(members[20] is Pair);
    assert(members[21] is Pair);
    assert(members[26] is Pair);
    assert(members[27] is Pair);
    assert(members[28] is Pair);
    assert(members[29] is Pair);
    assert(members[30] is Pair);
    assert(members[34] is Pair);
    assert(members[35] is Pair);
    assert(members[36] is Pair);
    assert(members[37] is Pair);
}

/// What is reported of the pace of the packets: each count under its name.
pub proof fn law_pacing_metrics_fragment_tells(
    setup: &SenderSetup,
    state: &SenderState<String>,
    pacing: &PacingCounters,
    force: &KeyframeForceStats,
    keyframe_interval_sec: Seq<char>,
    audio_metrics: Seq<char>,
    repair_metrics: Seq<char>,
    keyframe_metrics: Seq<char>,
    texts: &PacingMetricsFragmentTexts,
)
    ensures
        ({
            let members = pacing_metrics_fragment_members(
                setup,
                state,
                pacing,
                force,
                keyframe_interval_sec,
                audio_metrics,
                repair_metrics,
                keyframe_metrics,
                texts,
            );
            &&& json::counts(members, "udp_payload_size"@, setup.udp_payload_size as u64)
            &&& json::counts(members, "max_packets_per_frame"@, pacing.max_packets_per_frame)
            &&& json::names(members, "packet_pacing"@, setup.packet_pacing.text())
            &&& json::counts(members, "packet_pacing_batch_max"@, pacing.pacing_batch_max)
            &&& json::counts(members, "packet_pacing_overrun_ticks"@, pacing.pacing_overrun_ticks)
            &&& json::counts(members, "packet_pacing_overrun_frames"@, pacing.pacing_overrun_frames)
            &&& json::counts(members, "video_pacing_overrun_frames"@, pacing.pacing_overrun_frames)
            &&& json::counts(members, "video_pacing_overrun_ticks"@, pacing.pacing_overrun_ticks)
            &&& json::counts(members, "send_errors"@, pacing.send_errors)
            &&& json::names(members, "fec_mode"@, setup.fec_mode.text())
            &&& json::counts(members, "fec_packets_sent"@, pacing.fec_packets_sent)
            &&& json::counts(members, "fec_overhead_packets"@, pacing.fec_packets_sent)
            &&& json::counts(members, "fec_overhead_bytes"@, pacing.fec_bytes_sent)
            &&& json::counts(members, "data_payload_size"@, setup.data_payload_size as u64)
            &&& json::counts(members, "keyframes_sent"@, state.samples.keyframes)
            &&& json::names(members, "media_clock"@, "instant"@)
            &&& json::counts_if_known(
                members,
                "first_media_timestamp_us"@,
                state.samples.first_media_timestamp_us,
            )
            &&& json::counts_if_known(
                members,
                "last_video_timestamp_us"@,
                state.samples.last_video_timestamp_us,
            )
        }),
{
    let members = pacing_metrics_fragment_members(
        setup,
        state,
        pacing,
        force,
        keyframe_interval_sec,
        audio_metrics,
        repair_metrics,
        keyframe_metrics,
        texts,
    );
    assert(members[3] is Pair);
    assert(members[6] is Pair);
    assert(members[7] is Pair);
    assert(members[11] is Pair);
    assert(members[12] is Pair);
    assert(members[16] is Pair);
    assert(members[17] is Pair);
    assert(members[18] is Pair);
    assert(members[27] is Pair);
    assert(members[28] is Pair);
    assert(members[29] is Pair);
    assert(members[30] is Pair);
    assert(members[31] is Pair);
    assert(members[33] is Pair);
    assert(members[36] is Pair);
    assert(members[37] is Pair);
    assert(members[38] is Pair);
    assert(members[39] is Pair);
}

/// What is reported of the times: each count under its name.
pub proof fn law_latency_metrics_fragment_tells(
    control: &ControlCounters,
    texts: &LatencyMetricsFragmentTexts,
)
    ensures
        ({
            let members = latency_metrics_fragment_members(control, texts);
            &&& json::counts(
                members,
                "repair_unique_packets_resent"@,
                control.repair_unique_packets_resent,
            )
            &&& json::counts(
                members,
                "repair_duplicate_packets_resent"@,
                control.repair_duplicate_packets_resent,
            )
        }),
{
    let members = latency_metrics_fragment_members(control, texts);
    assert(members[0] is Pair);
    assert(members[1] is Pair);
}

/// What is reported of the transport holds what is reported of its parts.
pub proof fn law_transport_metrics_fragment_tells(
    setup: &SenderSetup,
    state: &SenderState<String>,
    pacing: &PacingCounters,
    control: &ControlCounters,
    audio: &AudioSendStats,
    cache: &RepairCacheStats,
    force: &KeyframeForceStats,
    texts: &TransportMetricsFragmentTexts,
)
    ensures
        ({
            let members = transport_metrics_fragment_members(
                setup,
                state,
                pacing,
                control,
                audio,
                cache,
                force,
                texts,
            );
            &&& json::covers(
                members,
                pacing_metrics_fragment_members(
                    setup,
                    state,
                    pacing,
                    force,
                    texts.keyframe.keyframe_interval_requested_sec@,
                    json::render(
                        audio_metrics_fragment_members(setup, state, audio, &texts.audio),
                    ),
                    json::render(
                        repair_metrics_fragment_members(
                            setup,
                            pacing,
                            control,
                            cache,
                            &texts.repair,
                        ),
                    ),
                    json::render(
                        keyframe_metrics_fragment_members(state, force, &texts.keyframe),
                    ),
                    &texts.pacing,
                ),
            )
            &&& json::covers(
                members,
                latency_metrics_fragment_members(control, &texts.latency),
            )
        }),
{
    let members = transport_metrics_fragment_members(
        setup,
        state,
        pacing,
        control,
        audio,
        cache,
        force,
        texts,
    );
    let part = pacing_metrics_fragment_members(
        setup,
        state,
        pacing,
        force,
        texts.keyframe.keyframe_interval_requested_sec@,
        json::render(audio_metrics_fragment_members(setup, state, audio, &texts.audio)),
        json::render(
            repair_metrics_fragment_members(setup, pacing, control, cache, &texts.repair),
        ),
        json::render(keyframe_metrics_fragment_members(state, force, &texts.keyframe)),
        &texts.pacing,
    );
    assert forall|i: int| 0 <= i < part.len() implies members.contains(#[trigger] part[i]) by {
        assert(members[i] == part[i]);
    }
    let part = latency_metrics_fragment_members(control, &texts.latency);
    assert forall|i: int| 0 <= i < part.len() implies members.contains(#[trigger] part[i]) by {
        assert(members[46 + i] == part[i]);
    }
}

/// What is reported at the end of the run: each count under its name.
pub proof fn law_final_sender_summary_fragment_tells(
    state: &SenderState<String>,
    pacing: &PacingCounters,
    control: &ControlCounters,
    transition: &Option<TransitionStatus>,
    final_frames_captured: u64,
    final_frames_encoded: u64,
    profile_name: &str,
    last_error: Option<&str>,
)
    ensures
        ({
            let members = final_sender_summary_fragment_members(
                state,
                pacing,
                control,
                transition,
                final_frames_captured,
                final_frames_encoded,
                profile_name,
                last_error,
            );
            &&& json::counts(members, "final_frames_captured"@, final_frames_captured)
            &&& json::counts(members, "final_frames_encoded"@, final_frames_encoded)
            &&& json::counts(members, "final_frames_sent"@, pacing.frames_sent)
            &&& json::counts(members, "final_bytes_sent"@, pacing.bytes_sent)
            &&& json::counts(members, "final_repair_bytes"@, control.repair_send_bytes)
            &&& json::names(members, "final_profile"@, profile_name@)
            &&& json::counts(members, "active_video_session_id"@, state.session.session_id)
            &&& json::counts_if_known(
                members,
                "pending_video_session_id"@,
                new_session_of(*transition),
            )
        }),
{
    let members = final_sender_summary_fragment_members(
        state,
        pacing,
        control,
        transition,
        final_frames_captured,
        final_frames_encoded,
        profile_name,
        last_error,
    );
    assert(members[0] is Pair);
    assert(members[1] is Pair);
    assert(members[2] is Pair);
    assert(members[3] is Pair);
    assert(members[4] is Pair);
    assert(members[5] is Pair);
    assert(members[6] is Pair);
    assert(members[7] is Pair);
}

/// A sender that starts says so, with its settings under their names.
pub proof fn law_sender_started_line_tells(
    setup: &SenderSetup,
    started_width: u32,
    started_height: u32,
    started_target_fps: u32,
    bitrate: &str,
    conversion: &str,
    encoder_choice: &str,
    color: &str,
    input_color: &str,
    output_color: &str,
    context: &str,
    texts: &SenderStartedLineTexts,
)
    ensures
        ({
            let members = sender_started_line_members(
                setup,
                started_width,
                started_height,
                started_target_fps,
                bitrate,
                conversion,
                encoder_choice,
                color,
                input_color,
                output_color,
                context,
                texts,
            );
            &&& json::names(members, "type"@, "NATIVE_SCREEN_STARTED"@)
            &&& json::names(members, "role"@, "sender"@)
            &&& json::names(members, "mode"@, "screen-send"@)
            &&& json::quotes(members, "host"@, setup.host@)
            &&& json::counts(members, "port"@, setup.port as u64)
            &&& json::counts(members, "width"@, started_width as u64)
            &&& json::counts(members, "height"@, started_height as u64)
            &&& json::counts(members, "fps"@, started_target_fps as u64)
        }),
{
    let members = sender_started_line_members(
        setup,
        started_width,
        started_height,
        started_target_fps,
        bitrate,
        conversion,
        encoder_choice,
        color,
        input_color,
        output_color,
        context,
        texts,
    );
    assert(members[0] is Pair);
    assert(members[1] is Pair);
    assert(members[2] is Pair);
    assert(members[3] is Pair);
    assert(members[4] is Pair);
    assert(members[5] is Pair);
    assert(members[6] is Pair);
    assert(members[7] is Pair);
}

/// The statistics of a probe: each count under its name.
pub proof fn law_probe_stats_line_tells(
    encoder: &str,
    setup: &SenderSetup,
    state: &SenderState<String>,
    pacing: &PacingCounters,
    capture: &CaptureCounts,
    interval: &Totals,
    bitrate: &str,
    conversion: &str,
    encoder_choice: &str,
    color: &str,
    input_color: &str,
    output_color: &str,
    transport: Seq<char>,
    adaptive: Seq<char>,
    texts: &ProbeStatsLineTexts,
)
    ensures
        ({
            let members = probe_stats_line_members(
                encoder,
                setup,
                state,
                pacing,
                capture,
                interval,
                bitrate,
                conversion,
                encoder_choice,
                color,
                input_color,
                output_color,
                transport,
                adaptive,
                texts,
            );
            &&& json::names(members, "type"@, "H264_SEND_STATS"@)
            &&& json::names(members, "mode"@, "h264_send_probe"@)
            &&& json::quotes(members, "encoder"@, encoder@)
            &&& json::quotes(members, "target"@, setup.target@)
            &&& json::counts(members, "session_id"@, state.session.session_id)
            &&& json::counts(members, "packets_sent"@, pacing.packets_sent)
            &&& json::counts(members, "frames_sent"@, pacing.frames_sent)
            &&& json::counts(members, "bytes_sent"@, pacing.bytes_sent)
            &&& json::counts(members, "packets_per_sec"@, interval.packets)
            &&& json::counts(members, "fps"@, interval.frames)
            &&& json::counts(members, "capture_raw_frames"@, capture.capture_raw_frames)
            &&& json::counts(members, "capture_latest_updates"@, capture.capture_latest_updates)
            &&& json::counts(members, "encode_ticks"@, capture.encode_ticks)
            &&& json::counts(members, "no_new_frame_skipped"@, capture.no_new_frame_skipped)
            &&& json::counts(members, "no_new_frame_reused"@, capture.no_new_frame_reused)
            &&& json::counts(members, "frames_encoded"@, capture.frames_encoded)
            &&& json::counts(members, "encode_lag_skips"@, capture.encode_lag_skips)
            &&& json::counts(members, "target_fps"@, capture.target_fps as u64)
            &&& json::counts(members, "width"@, capture.width as u64)
            &&& json::counts(members, "height"@, capture.height as u64)
            &&& json::counts(members, "capture_dropped"@, capture.capture_dropped)
        }),
{
    let members = probe_stats_line_members(
        encoder,
        setup,
        state,
        pacing,
        capture,
        interval,
        bitrate,
        conversion,
        encoder_choice,
        color,
        input_color,
        output_color,
        transport,
        adaptive,
        texts,
    );
    assert(members[0] is Pair);
    assert(members[1] is Pair);
    assert(members[2] is Pair);
    assert(members[3] is Pair);
    assert(members[4] is Pair);
    assert(members[5] is Pair);
    assert(members[6] is Pair);
    assert(members[7] is Pair);
    assert(members[8] is Pair);
    assert(members[9] is Pair);
    assert(members[12] is Pair);
    assert(members[13] is Pair);
    assert(members[14] is Pair);
    assert(members[15] is Pair);
    assert(members[16] is Pair);
    assert(members[17] is Pair);
    assert(members[18] is Pair);
    assert(members[22] is Pair);
    assert(members[23] is Pair);
    assert(members[24] is Pair);
    assert(members[29] is Pair);
}

/// The statistics of a shared screen: each count under its name.
pub proof fn law_screen_stats_line_tells(
    setup: &SenderSetup,
    state: &SenderState<String>,
    pacing: &PacingCounters,
    capture: &CaptureCounts,
    interval: &Totals,
    bitrate: &str,
    conversion: &str,
    encoder_choice: &str,
    color: &str,
    input_color: &str,
    output_color: &str,
    transport: Seq<char>,
    adaptive: Seq<char>,
    context: &str,
    texts: &ScreenStatsLineTexts,
)
    ensures
        ({
            let members = screen_stats_line_members(
                setup,
                state,
                pacing,
                capture,
                interval,
                bitrate,
                conversion,
                encoder_choice,
                color,
                input_color,
                output_color,
                transport,
                adaptive,
                context,
                texts,
            );
            &&& json::names(members, "type"@, "NATIVE_SCREEN_STATS"@)
            &&& json::names(members, "role"@, "sender"@)
            &&& json::names(members, "mode"@, "screen-send"@)
            &&& json::quotes(members, "host"@, setup.host@)
            &&& json::counts(members, "port"@, setup.port as u64)
            &&& json::counts(members, "session_id"@, state.session.session_id)
            &&& json::counts(members, "frames_sent"@, pacing.frames_sent)
            &&& json::counts(members, "packets_sent"@, pacing.packets_sent)
            &&& json::counts(members, "bytes_sent"@, pacing.bytes_sent)
            &&& json::counts(members, "packets_per_sec"@, interval.packets)
            &&& json::counts(members, "fps"@, interval.frames)
            &&& json::counts(members, "capture_raw_frames"@, capture.capture_raw_frames)
            &&& json::counts(members, "capture_latest_updates"@, capture.capture_latest_updates)
            &&& json::counts(members, "encode_ticks"@, capture.encode_ticks)
            &&& json::counts(members, "no_new_frame_skipped"@, capture.no_new_frame_skipped)
            &&& json::counts(members, "no_new_frame_reused"@, capture.no_new_frame_reused)
            &&& json::counts(members, "frames_encoded"@, capture.frames_encoded)
            &&& json::counts(members, "encode_lag_skips"@, capture.encode_lag_skips)
            &&& json::counts(members, "target_fps"@, capture.target_fps as u64)
            &&& json::counts(members, "width"@, capture.width as u64)
            &&& json::counts(members, "height"@, capture.height as u64)
            &&& json::counts(members, "capture_dropped"@, capture.capture_dropped)
        }),
{
    let members = screen_stats_line_members(
        setup,
        state,
        pacing,
        capture,
        interval,
        bitrate,
        conversion,
        encoder_choice,
        color,
        input_color,
        output_color,
        transport,
        adaptive,
        context,
        texts,
    );
    assert(members[0] is Pair);
    assert(members[1] is Pair);
    assert(members[2] is Pair);
    assert(members[3] is Pair);
    assert(members[4] is Pair);
    assert(members[5] is Pair);
    assert(members[6] is Pair);
    assert(members[7] is Pair);
    assert(members[8] is Pair);
    assert(members[9] is Pair);
    assert(members[10] is Pair);
    assert(members[13] is Pair);
    assert(members[14] is Pair);
    assert(members[15] is Pair);
    assert(members[16] is Pair);
    assert(members[17] is Pair);
    assert(members[18] is Pair);
    assert(members[19] is Pair);
    assert(members[20] is Pair);
    assert(members[21] is Pair);
    assert(members[22] is Pair);
    assert(members[27] is Pair);
}

/// The end of a probe: each count under its name.
pub proof fn law_probe_done_line_tells(
    encoder: &str,
    setup: &SenderSetup,
    state: &SenderState<String>,
    pacing: &PacingCounters,
    capture: &CaptureCounts,
    rates: &RunRateSummary,
    bitrate: &str,
    conversion: &str,
    encoder_choice: &str,
    color: &str,
    input_color: &str,
    output_color: &str,
    transport: Seq<char>,
    adaptive: Seq<char>,
    texts: &ProbeDoneLineTexts,
)
    ensures
        ({
            let members = probe_done_line_members(
                encoder,
                setup,
                state,
                pacing,
                capture,
                rates,
                bitrate,
                conversion,
                encoder_choice,
                color,
                input_color,
                output_color,
                transport,
                adaptive,
                texts,
            );
            &&& json::names(members, "type"@, "H264_SEND_DONE"@)
            &&& json::names(members, "mode"@, "h264_send_probe"@)
            &&& json::quotes(members, "encoder"@, encoder@)
            &&& json::quotes(members, "target"@, setup.target@)
            &&& json::counts(members, "session_id"@, state.session.session_id)
            &&& json::counts(members, "packets_sent"@, pacing.packets_sent)
            &&& json::counts(members, "frames_sent"@, pacing.frames_sent)
            &&& json::counts(members, "bytes_sent"@, pacing.bytes_sent)
            &&& json::counts(members, "h264_bytes"@, state.samples.h264_bytes)
            &&& json::counts(members, "keyframes"@, state.samples.keyframes)
            &&& json::counts(members, "config_frames"@, state.samples.config_frames)
            &&& json::counts(members, "capture_raw_frames"@, capture.capture_raw_frames)
            &&& json::counts(members, "capture_latest_updates"@, capture.capture_latest_updates)
            &&& json::counts(members, "capture_callback_skipped"@, capture.capture_callback_skipped)
            &&& json::counts(members, "capture_dropped"@, capture.capture_dropped)
            &&& json::counts(members, "encode_ticks"@, capture.encode_ticks)
            &&& json::counts(members, "no_new_frame_skipped"@, capture.no_new_frame_skipped)
            &&& json::counts(members, "no_new_frame_reused"@, capture.no_new_frame_reused)
            &&& json::counts(members, "frames_encoded"@, capture.frames_encoded)
            &&& json::counts(members, "encode_lag_skips"@, capture.encode_lag_skips)
            &&& json::counts(members, "samples_out"@, capture.samples_out)
            &&& json::counts(
                members,
                "current_profile_frames_sent"@,
                rates.current_profile_frames_sent,
            )
            &&& json::counts(members, "width"@, capture.width as u64)
            &&& json::counts(members, "height"@, capture.height as u64)
        }),
{
    let members = probe_done_line_members(
        encoder,
        setup,
        state,
        pacing,
        capture,
        rates,
        bitrate,
        conversion,
        encoder_choice,
        color,
        input_color,
        output_color,
        transport,
        adaptive,
        texts,
    );
    assert(members[0] is Pair);
    assert(members[1] is Pair);
    assert(members[2] is Pair);
    assert(members[3] is Pair);
    assert(members[4] is Pair);
    assert(members[5] is Pair);
    assert(members[6] is Pair);
    assert(members[7] is Pair);
    assert(members[8] is Pair);
    assert(members[9] is Pair);
    assert(members[10] is Pair);
    assert(members[11] is Pair);
    assert(members[12] is Pair);
    assert(members[13] is Pair);
    assert(members[14] is Pair);
    assert(members[15] is Pair);
    assert(members[16] is Pair);
    assert(members[17] is Pair);
    assert(members[18] is Pair);
    assert(members[19] is Pair);
    assert(members[20] is Pair);
    assert(members[27] is Pair);
    assert(members[31] is Pair);
    assert(members[32] is Pair);
}

/// The end of a shared screen: each count under its name.
pub proof fn law_screen_done_line_tells(
    reason: &str,
    setup: &SenderSetup,
    pacing: &PacingCounters,
    capture: &CaptureCounts,
    rates: &RunRateSummary,
    bitrate: &str,
    conversion: &str,
    encoder_choice: &str,
    color: &str,
    input_color: &str,
    output_color: &str,
    transport: Seq<char>,
    adaptive: Seq<char>,
    context: &str,
    texts: &ScreenDoneLineTexts,
)
    ensures
        ({
            let members = screen_done_line_members(
                reason,
                setup,
                pacing,
                capture,
                rates,
                bitrate,
                conversion,
                encoder_choice,
                color,
                input_color,
                output_color,
                transport,
                adaptive,
                context,
                texts,
            );
            &&& json::names(members, "type"@, "NATIVE_SCREEN_STOPPED"@)
            &&& json::names(members, "role"@, "sender"@)
            &&& json::names(members, "mode"@, "screen-send"@)
            &&& json::names(members, "reason"@, reason@)
            &&& json::quotes(members, "host"@, setup.host@)
            &&& json::counts(members, "port"@, setup.port as u64)
            &&& json::counts(members, "frames_sent"@, pacing.frames_sent)
            &&& json::counts(members, "packets_sent"@, pacing.packets_sent)
            &&& json::counts(members, "bytes_sent"@, pacing.bytes_sent)
            &&& json::counts(
                members,
                "current_profile_frames_sent"@,
                rates.current_profile_frames_sent,
            )
            &&& json::counts(members, "width"@, capture.width as u64)
            &&& json::counts(members, "height"@, capture.height as u64)
        }),
{
    let members = screen_done_line_members(
        reason,
        setup,
        pacing,
        capture,
        rates,
        bitrate,
        conversion,
        encoder_choice,
        color,
        input_color,
        output_color,
        transport,
        adaptive,
        context,
        texts,
    );
    assert(members[0] is Pair);
    assert(members[1] is Pair);
    assert(members[2] is Pair);
    assert(members[3] is Pair);
    assert(members[4] is Pair);
    assert(members[5] is Pair);
    assert(members[6] is Pair);
    assert(members[7] is Pair);
    assert(members[8] is Pair);
    assert(members[13] is Pair);
    assert(members[17] is Pair);
    assert(members[18] is Pair);
}

/// The error of a sender: each count under its name.
pub proof fn law_sender_error_line_tells(
    pacing: &PacingCounters,
    error: &str,
    transport: Seq<char>,
    adaptive: Seq<char>,
    context: &str,
    texts: &SenderErrorLineTexts,
)
    ensures
        ({
            let members = sender_error_line_members(
                pacing,
                error,
                transport,
                adaptive,
                context,
                texts,
            );
            &&& json::names(members, "type"@, "NATIVE_SCREEN_ERROR"@)
            &&& json::names(members, "role"@, "sender"@)
            &&& json::names(members, "mode"@, "screen-send"@)
            &&& json::quotes(members, "error"@, error@)
            &&& json::counts(members, "frames_sent"@, pacing.frames_sent)
            &&& json::counts(members, "packets_sent"@, pacing.packets_sent)
            &&& json::counts(members, "bytes_sent"@, pacing.bytes_sent)
        }),
{
    let members = sender_error_line_members(pacing, error, transport, adaptive, context, texts);
    assert(members[0] is Pair);
    assert(members[1] is Pair);
    assert(members[2] is Pair);
    assert(members[3] is Pair);
    assert(members[4] is Pair);
    assert(members[5] is Pair);
    assert(members[6] is Pair);
}

/// The end of a sender that failed: each count under its name.
pub proof fn law_sender_failed_line_tells(
    event_type: Seq<char>,
    reason: &str,
    setup: &SenderSetup,
    pacing: &PacingCounters,
    width: u32,
    height: u32,
    transport: Seq<char>,
    adaptive: Seq<char>,
    context: &str,
    texts: &SenderFailedLineTexts,
)
    ensures
        ({
            let members = sender_failed_line_members(
                event_type,
                reason,
                setup,
                pacing,
                width,
                height,
                transport,
                adaptive,
                context,
                texts,
            );
            &&& json::names(members, "type"@, event_type)
            &&& json::names(members, "role"@, "sender"@)
            &&& json::names(members, "mode"@, "screen-send"@)
            &&& json::names(members, "reason"@, reason@)
            &&& json::quotes(members, "host"@, setup.host@)
            &&& json::counts(members, "port"@, setup.port as u64)
            &&& json::counts(members, "frames_sent"@, pacing.frames_sent)
            &&& json::counts(members, "packets_sent"@, pacing.packets_sent)
            &&& json::counts(members, "bytes_sent"@, pacing.bytes_sent)
            &&& json::counts(members, "width"@, width as u64)
            &&& json::counts(members, "height"@, height as u64)
        }),
{
    let members = sender_failed_line_members(
        event_type,
        reason,
        setup,
        pacing,
        width,
        height,
        transport,
        adaptive,
        context,
        texts,
    );
    assert(members[0] is Pair);
    assert(members[1] is Pair);
    assert(members[2] is Pair);
    assert(members[3] is Pair);
    assert(members[4] is Pair);
    assert(members[5] is Pair);
    assert(members[6] is Pair);
    assert(members[7] is Pair);
    assert(members[8] is Pair);
    assert(members[13] is Pair);
    assert(members[14] is Pair);
}

/// A sender that could not start says so.
pub proof fn law_sender_startup_error_line_tells(
    error: &str,
    context: &str,
)
    ensures
        ({
            let members = sender_startup_error_line_members(error, context);
            &&& json::names(members, "type"@, "NATIVE_SCREEN_ERROR"@)
            &&& json::names(members, "role"@, "sender"@)
            &&& json::names(members, "mode"@, "screen-send"@)
            &&& json::quotes(members, "error"@, error@)
        }),
{
    let members = sender_startup_error_line_members(error, context);
    assert(members[0] is Pair);
    assert(members[1] is Pair);
    assert(members[2] is Pair);
    assert(members[3] is Pair);
}

/// The end of a sender that could not start: nothing was sent.
pub proof fn law_sender_startup_failure_line_tells(
    event_type: &str,
    reason: &str,
    setup: &SenderSetup,
    error: &str,
    cleanup_failed: bool,
    retained_workers: u64,
    context: &str,
)
    ensures
        ({
            let members = sender_startup_failure_line_members(
                event_type,
                reason,
                setup,
                error,
                cleanup_failed,
                retained_workers,
                context,
            );
            &&& json::names(members, "type"@, event_type@)
            &&& json::names(members, "role"@, "sender"@)
            &&& json::names(members, "mode"@, "screen-send"@)
            &&& json::names(members, "reason"@, reason@)
            &&& json::quotes(members, "host"@, setup.host@)
            &&& json::counts(members, "port"@, setup.port as u64)
            &&& json::counts(members, "frames_sent"@, 0)
            &&& json::counts(members, "packets_sent"@, 0)
            &&& json::counts(members, "bytes_sent"@, 0)
            &&& json::names(members, "profile_transition_phase"@, "idle"@)
            &&& json::flags(members, "profile_transition_active"@, false)
            &&& json::counts(members, "profile_transition_timeout_count"@, 0)
            &&& json::counts(members, "profile_transition_failure_count"@, 0)
            &&& json::counts(members, "qsv_async_wait_timeouts"@, 0)
            &&& json::counts(members, "qsv_async_wait_cancelled"@, 0)
            &&& json::counts(members, "qsv_drain_timeouts"@, 0)
            &&& json::names(members, "worker_join_audio"@, "not_started"@)
            &&& json::names(members, "worker_join_pacer"@, "not_started"@)
            &&& json::names(members, "worker_join_control"@, "not_started"@)
            &&& json::names(members, "encode_thread_state"@, "not_started"@)
            &&& json::names(members, "send_thread_state"@, "not_started"@)
            &&& json::names(members, "feedback_thread_state"@, "not_started"@)
            &&& json::names(members, "repair_thread_state"@, "not_started"@)
            &&& json::names(members, "transition_thread_state"@, "not_started"@)
            &&& json::counts(members, "retained_worker_count"@, retained_workers)
            &&& json::flags(members, "close_sent"@, false)
            &&& json::flags(members, "peer_timeout_triggered"@, false)
            &&& json::counts(members, "final_frames_captured"@, 0)
            &&& json::counts(members, "final_frames_encoded"@, 0)
            &&& json::counts(members, "final_frames_sent"@, 0)
            &&& json::counts(members, "final_bytes_sent"@, 0)
            &&& json::counts(members, "final_repair_bytes"@, 0)
            &&& json::quotes(members, "last_error"@, error@)
        }),
{
    let members = sender_startup_failure_line_members(
        event_type,
        reason,
        setup,
        error,
        cleanup_failed,
        retained_workers,
        context,
    );
    assert(members[0] is Pair);
    assert(members[1] is Pair);
    assert(members[2] is Pair);
    assert(members[3] is Pair);
    assert(members[4] is Pair);
    assert(members[5] is Pair);
    assert(members[6] is Pair);
    assert(members[7] is Pair);
    assert(members[8] is Pair);
    assert(members[10] is Pair);
    assert(members[11] is Pair);
    assert(members[12] is Pair);
    assert(members[13] is Pair);
    assert(members[15] is Pair);
    assert(members[16] is Pair);
    assert(members[17] is Pair);
    assert(members[18] is Pair);
    assert(members[19] is Pair);
    assert(members[20] is Pair);
    assert(members[23] is Pair);
    assert(members[24] is Pair);
    assert(members[25] is Pair);
    assert(members[26] is Pair);
    assert(members[27] is Pair);
    assert(members[28] is Pair);
    assert(members[29] is Pair);
    assert(members[30] is Pair);
    assert(members[31] is Pair);
    assert(members[32] is Pair);
    assert(members[33] is Pair);
    assert(members[34] is Pair);
    assert(members[35] is Pair);
    assert(members[39] is Pair);
}

/// A phase of a change of profile has the deadline that belongs to it, and what has come to
/// an end has none.
pub proof fn law_phases_have_their_deadlines(status: TransitionStatus, now: u64)
    ensures
        status.phase == SenderTransitionPhase::ControlPending || status.phase
            == SenderTransitionPhase::AwaitControlAck ==> status.deadline_at() == Some(
            status.ack_deadline,
        ),
        status.phase == SenderTransitionPhase::AwaitReceiverReadiness ==> status.deadline_at()
            == status.readiness_deadline,
        status.phase == SenderTransitionPhase::ActivateNewSession ==> status.deadline_at() == Some(
            status.total_deadline,
        ),
        status.phase == SenderTransitionPhase::Idle || status.phase
            == SenderTransitionPhase::Committed || status.phase == SenderTransitionPhase::Rollback
            || status.phase == SenderTransitionPhase::Failed ==> status.deadline_at() is None
            && remaining_ms_of(Some(status), now) is None,
        status.deadline_at() matches Some(deadline) ==> {
            let left = remaining_ms_of(Some(status), now);
            &&& left is Some
            &&& now <= deadline ==> left->0 * 1_000_000 <= deadline - now < (left->0 + 1)
                * 1_000_000
            &&& deadline <= now ==> left->0 == 0
        },
{
}

/// What is told of a change of profile is what the change says; without one nothing is.
pub proof fn law_change_is_told(status: TransitionStatus, runtime_started: u64, now: u64)
    ensures
        phase_of(Some(status)) == status.phase_name@,
        sequence_of(Some(status)) == status.change.change_sequence,
        generation_of(Some(status)) == status.change.profile_generation,
        old_session_of(Some(status)) == Some(status.change.old_session_id),
        new_session_of(Some(status)) == Some(status.change.new_session_id),
        runtime_started <= status.started_at ==> started_us_of(Some(status), runtime_started)
            == Some(((status.started_at - runtime_started) / 1000) as u64),
        phase_of(None) == "idle"@,
        sequence_of(None) == 0,
        generation_of(None) == 0,
        old_session_of(None) is None,
        new_session_of(None) is None,
        started_us_of(None, runtime_started) is None,
        remaining_ms_of(None, now) is None,
{
}

/// Of two counts of waits the greater is told, each by itself.
pub proof fn law_greater_waits_are_told(one: EncoderWaits, other: EncoderWaits)
    ensures
        one.joined(other) == other.joined(one),
        one.joined(other).async_wait_timeouts >= one.async_wait_timeouts,
        one.joined(other).async_wait_timeouts == one.async_wait_timeouts
            || one.joined(other).async_wait_timeouts == other.async_wait_timeouts,
        one.joined(other).async_wait_cancelled >= one.async_wait_cancelled,
        one.joined(other).async_wait_cancelled == one.async_wait_cancelled
            || one.joined(other).async_wait_cancelled == other.async_wait_cancelled,
        one.joined(other).drain_timeouts >= one.drain_timeouts,
        one.joined(other).drain_timeouts == one.drain_timeouts || one.joined(other).drain_timeouts
            == other.drain_timeouts,
{
}

/// What is told of the pace, the sound and the feedback.
pub proof fn law_states_have_their_words(
    pacing: PacketPacing,
    audio: AudioSendStats,
    feedback: CapabilityFeedback,
    state: SenderState<String>,
    failures: u64,
)
    ensures
        effective_pacing(pacing) == "off"@ || effective_pacing(pacing) == "batch"@,
        pacing == PacketPacing::Off ==> effective_pacing(pacing) == "off"@ && tick_ms(pacing)
            == text::thousandths(0),
        pacing != PacketPacing::Off ==> effective_pacing(pacing) == "batch"@ && tick_ms(pacing)
            == text::thousandths(1000),
        sounds(audio) <==> audio.enabled && audio.unavailable_reason is None,
        audio.audio_capture_timestamp_source@.len() == 0 ==> timestamp_source(audio)
            == "fallback_now"@,
        audio.audio_capture_timestamp_source@.len() > 0 ==> timestamp_source(audio)
            == audio.audio_capture_timestamp_source@,
        told(Some(feedback)) == feedback,
        !state.keyframe_control.configured ==> interval_warning(state, failures) == Some(
            "encoder-keyframe-control-unavailable",
        ),
        state.keyframe_control.configured && failures == 0 && state.samples.idr_interval_count == 0
            ==> interval_warning(state, failures) == Some("insufficient-idr-observations"),
        state.keyframe_control.configured && failures == 0 && state.samples.idr_interval_count > 0
            && state.samples.idr_interval_frames_total == state.samples.idr_interval_count
            * state.session.keyframe_target_frames ==> interval_warning(state, failures) is None,
{
    assert(state.samples.idr_interval_count * state.session.keyframe_target_frames >= 0)
        by (nonlinear_arith)
        requires
            state.samples.idr_interval_count >= 0,
            state.session.keyframe_target_frames >= 0,
    ;
}

} // verus!
