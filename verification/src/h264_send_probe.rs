//! The sending end of a video stream.

use vstd::prelude::*;

use crate::bitrate::BitrateSelection;
use crate::choices::{AdaptiveMode, DisplayRefreshDetect, MaxFps, RepairMode};
use crate::cli_values::{ConvertBackend, EncoderChoice, FecMode};
use crate::color_spec::ColorSpec;
use crate::json;
use crate::json::{json_string_array, Fragment, Member, Value};
use crate::media_control::{CapabilityFeedbackTracker, StreamClose, MEDIA_CONTROL_VERSION};
use crate::media_packet;
use crate::media_packet::{validate_udp_payload_size, STREAM_VIDEO};
use crate::pacer::{batch_size_for_frame, frame_interval, PACING_TICK};
use crate::real_number::{Real, INFINITY_BITS};
use crate::sender_state::{PendingAction, SampleState, SenderState};
use crate::shutdown;
use crate::shutdown::{
    combine_errors, push_audio_error, push_retention_error, push_worker_error, AudioJoin,
    StopReason, WorkerJoinStatus,
};
use crate::text;
use crate::text::{is_blank_text, push_decimal, same_text, starts_with_text};
use crate::transition_book;

verus! {

/// What a sender is asked to do.  Real numbers stand as their bit patterns.
#[derive(Debug)]
pub struct H264SendConfig<T> {
    pub host: T,
    pub port: u16,
    pub duration_sec: Option<u64>,
    pub target_fps: u32,
    pub bitrate_mbps: Real,
    pub bitrate_selection: BitrateSelection,
    pub out_width: u32,
    pub out_height: u32,
    pub color_spec: ColorSpec,
    pub encoder: EncoderChoice,
    pub convert_backend: ConvertBackend,
    pub packet_pacing: PacketPacing,
    pub fec_mode: FecMode,
    pub udp_payload_size: usize,
    pub keyframe_interval_sec: Real,
    pub repair_mode: RepairMode,
    pub repair_cache_ms: u64,
    pub audio_mode: AudioSendMode,
    pub adaptive: AdaptiveRuntimeConfig,
    pub mode: H264SendMode,
    pub verbose: bool,
}

impl View for H264SendConfig<String> {
    type V = H264SendConfig<Seq<char>>;

    open spec fn view(&self) -> H264SendConfig<Seq<char>> {
        H264SendConfig {
            host: self.host@,
            port: self.port,
            duration_sec: self.duration_sec,
            target_fps: self.target_fps,
            bitrate_mbps: self.bitrate_mbps,
            bitrate_selection: self.bitrate_selection,
            out_width: self.out_width,
            out_height: self.out_height,
            color_spec: self.color_spec,
            encoder: self.encoder,
            convert_backend: self.convert_backend,
            packet_pacing: self.packet_pacing,
            fec_mode: self.fec_mode,
            udp_payload_size: self.udp_payload_size,
            keyframe_interval_sec: self.keyframe_interval_sec,
            repair_mode: self.repair_mode,
            repair_cache_ms: self.repair_cache_ms,
            audio_mode: self.audio_mode,
            adaptive: self.adaptive,
            mode: self.mode,
            verbose: self.verbose,
        }
    }
}

/// The limits of the adaptive sender.
#[derive(Clone, Copy, Debug, PartialEq, Eq, Structural)]
pub struct AdaptiveConfig {
    pub mode: AdaptiveMode,
    pub min_width: u32,
    pub min_height: u32,
    pub min_fps: u32,
    pub max_bitrate_mbps: Option<Real>,
    pub upgrade_stable_sec: u64,
    pub resolution_cooldown_sec: u64,
    pub fps_cooldown_sec: u64,
    pub interactive_lag_guard: bool,
}

#[derive(Clone, Copy, Debug, PartialEq, Eq, Structural)]
pub struct AdaptiveRuntimeConfig {
    pub quality: AdaptiveConfig,
    pub display_refresh_detect: DisplayRefreshDetect,
    pub max_fps: MaxFps,
    pub enable_high_refresh: bool,
    pub feedback_ms: u64,
}

impl AdaptiveRuntimeConfig {
    /// Nothing adapts; the limits are those of the help text.
    pub open spec fn standard() -> AdaptiveRuntimeConfig {
        AdaptiveRuntimeConfig {
            quality: AdaptiveConfig {
                mode: AdaptiveMode::Off,
                min_width: 1280,
                min_height: 720,
                min_fps: 30,
                max_bitrate_mbps: None,
                upgrade_stable_sec: 15,
                resolution_cooldown_sec: 30,
                fps_cooldown_sec: 20,
                interactive_lag_guard: true,
            },
            display_refresh_detect: DisplayRefreshDetect::Auto,
            max_fps: MaxFps::Fixed(60),
            enable_high_refresh: false,
            feedback_ms: 1000,
        }
    }
}

impl Default for AdaptiveRuntimeConfig {
    fn default() -> (r: AdaptiveRuntimeConfig)
        ensures
            r == Self::standard(),
    {
        AdaptiveRuntimeConfig {
            quality: AdaptiveConfig {
                mode: AdaptiveMode::Off,
                min_width: 1280,
                min_height: 720,
                min_fps: 30,
                max_bitrate_mbps: None,
                upgrade_stable_sec: 15,
                resolution_cooldown_sec: 30,
                fps_cooldown_sec: 20,
                interactive_lag_guard: true,
            },
            display_refresh_detect: DisplayRefreshDetect::Auto,
            max_fps: MaxFps::Fixed(60),
            enable_high_refresh: false,
            feedback_ms: 1000,
        }
    }
}

/// How the packets of a frame are spread over its interval.
#[derive(Clone, Copy, Debug, PartialEq, Eq, Structural)]
pub enum PacketPacing {
    Auto,
    Batch,
    Off,
}

impl PacketPacing {
    pub open spec fn text(self) -> Seq<char> {
        match self {
            PacketPacing::Auto => "auto"@,
            PacketPacing::Batch => "batch"@,
            PacketPacing::Off => "off"@,
        }
    }

    pub fn name(self) -> (r: &'static str)
        ensures
            r@ == self.text(),
    {
        match self {
            PacketPacing::Auto => "auto",
            PacketPacing::Batch => "batch",
            PacketPacing::Off => "off",
        }
    }

    /// The name of what is done: the automatic choice is batches.
    pub fn effective_name(self) -> (r: &'static str)
        ensures
            r@ == if self == PacketPacing::Off {
                "off"@
            } else {
                "batch"@
            },
    {
        match self {
            PacketPacing::Auto | PacketPacing::Batch => "batch",
            PacketPacing::Off => "off",
        }
    }

    pub fn uses_batch(self) -> (r: bool)
        ensures
            r == (self != PacketPacing::Off),
    {
        match self {
            PacketPacing::Auto | PacketPacing::Batch => true,
            PacketPacing::Off => false,
        }
    }
}

/// What the sender is for: a timed probe, or sharing a screen.
#[derive(Clone, Copy, Debug, PartialEq, Eq, Structural)]
pub enum H264SendMode {
    Probe,
    Screen,
}

/// Whether the sound of the system is sent along.
#[derive(Clone, Copy, Debug, PartialEq, Eq, Structural)]
pub enum AudioSendMode {
    Off,
    System,
}

impl AudioSendMode {
    pub open spec fn text(self) -> Seq<char> {
        match self {
            AudioSendMode::Off => "off"@,
            AudioSendMode::System => "system"@,
        }
    }

    pub fn name(self) -> (r: &'static str)
        ensures
            r@ == self.text(),
    {
        match self {
            AudioSendMode::Off => "off",
            AudioSendMode::System => "system",
        }
    }

    /// The mode that `s` names.
    pub open spec fn named(s: Seq<char>) -> Result<AudioSendMode, Seq<char>> {
        if s == "off"@ {
            Ok(AudioSendMode::Off)
        } else if s == "system"@ {
            Ok(AudioSendMode::System)
        } else {
            Err("invalid audio mode: "@ + s)
        }
    }

    pub fn parse(text: &str) -> (r: Result<AudioSendMode, String>)
        ensures
            text::agrees(r, Self::named(text@)),
    {
        if same_text(text, "off") {
            Ok(AudioSendMode::Off)
        } else if same_text(text, "system") {
            Ok(AudioSendMode::System)
        } else {
            Err("invalid audio mode: ".to_string().concat(text))
        }
    }
}

// Settings.

/// The first rule that the settings break.
pub open spec fn config_error(config: H264SendConfig<Seq<char>>) -> Option<Seq<char>> {
    let quality = config.adaptive.quality;
    if text::is_blank(config.host) {
        Some("host must not be empty"@)
    } else if config.port == 0 {
        Some("port must be greater than zero"@)
    } else if !media_packet::payload_size_ok(config.udp_payload_size as int) {
        Some(media_packet::payload_size_error())
    } else if !(500 <= config.repair_cache_ms <= 10_000) {
        Some("repair-cache-ms must be between 500 and 10000"@)
    } else if !(500 <= config.adaptive.feedback_ms <= 2000) {
        Some("adaptive-feedback-ms must be between 500 and 2000"@)
    } else if quality.mode != AdaptiveMode::Off && (quality.min_width > config.out_width
        || quality.min_height > config.out_height || quality.min_fps > config.target_fps) {
        Some("adaptive minimum width, height, and FPS must not exceed the configured profile"@)
    } else if quality.max_bitrate_mbps matches Some(limit) && !(limit.positive() && limit.bits
        != INFINITY_BITS) {
        Some("adaptive-max-bitrate-mbps must be positive and finite"@)
    } else {
        None
    }
}

/// Checks the settings.
pub fn validate_config(config: &H264SendConfig<String>) -> (r: Result<(), String>)
    ensures
        match config_error(config@) {
            Some(error) => r is Err && r->Err_0@ == error,
            None => r is Ok,
        },
{
    if is_blank_text(config.host.as_str()) {
        return Err("host must not be empty".to_string());
    }
    if config.port == 0 {
        return Err("port must be greater than zero".to_string());
    }
    validate_udp_payload_size(config.udp_payload_size)?;
    if config.repair_cache_ms < 500 || config.repair_cache_ms > 10_000 {
        return Err("repair-cache-ms must be between 500 and 10000".to_string());
    }
    if config.adaptive.feedback_ms < 500 || config.adaptive.feedback_ms > 2000 {
        return Err("adaptive-feedback-ms must be between 500 and 2000".to_string());
    }
    let quality: AdaptiveConfig = config.adaptive.quality;
    if quality.mode != AdaptiveMode::Off && (quality.min_width > config.out_width
        || quality.min_height > config.out_height || quality.min_fps > config.target_fps) {
        return Err(
            "adaptive minimum width, height, and FPS must not exceed the configured profile".to_string(),
        );
    }
    if let Some(limit) = quality.max_bitrate_mbps {
        if !limit.is_positive_and_finite() {
            return Err("adaptive-max-bitrate-mbps must be positive and finite".to_string());
        }
    }
    Ok(())
}

/// Where a sender sends to.
pub fn target_text(host: &str, port: u16) -> (r: String)
    ensures
        r@ == host@ + ":"@ + text::decimal(port as nat),
{
    let mut target: String = host.to_string().concat(":");
    push_decimal(&mut target, port as u64);
    target
}

// Keyframes.

/// The distance of the average of `frames` over `count` intervals from a target, as a
/// multiple of `count`.
pub open spec fn deviation(frames: u64, count: u64, target: u32) -> int {
    if frames >= count * target {
        frames - count * target
    } else {
        count * target - frames
    }
}

/// What is wrong with the distance of the keyframes.  It may deviate by a quarter of the
/// target, and by two frames.
pub open spec fn keyframe_warning(
    configured: bool,
    target_frames: u32,
    observed: Option<(u64, u64)>,
    force_failures: u64,
) -> Option<&'static str> {
    if !configured {
        Some("encoder-keyframe-control-unavailable")
    } else if force_failures > 0 {
        Some("forced-idr-request-failed")
    } else {
        match observed {
            None => Some("insufficient-idr-observations"),
            Some((frames, count)) => if 4 * deviation(frames, count, target_frames) > count
                * target_frames && deviation(frames, count, target_frames) > 2 * count {
                Some("observed-idr-interval-deviates")
            } else {
                None
            },
        }
    }
}

/// Says what is wrong with the distance of the keyframes, if anything is.  `observed` is how
/// many frames a number of intervals had.
pub fn evaluate_keyframe_interval(
    configured: bool,
    target_frames: u32,
    observed: Option<(u64, u64)>,
    force_failures: u64,
) -> (r: Option<&'static str>)
    ensures
        r == keyframe_warning(configured, target_frames, observed, force_failures),
{
    if !configured {
        return Some("encoder-keyframe-control-unavailable");
    }
    if force_failures > 0 {
        return Some("forced-idr-request-failed");
    }
    let (frames, count): (u64, u64) = match observed {
        Some(observed) => observed,
        None => {
            return Some("insufficient-idr-observations");
        },
    };
    assert(0 <= count * target_frames <= u64::MAX * u32::MAX) by (nonlinear_arith)
        requires
            0 <= count <= u64::MAX,
            0 <= target_frames <= u32::MAX,
    ;
    let expected: u128 = (count as u128) * (target_frames as u128);
    let actual: u128 = frames as u128;
    let difference: u128 = if actual >= expected {
        actual - expected
    } else {
        expected - actual
    };
    if difference * 4 > expected && difference > (count as u128) * 2 {
        Some("observed-idr-interval-deviates")
    } else {
        None
    }
}

/// The intervals between keyframes that were seen: how many frames they had, and how many
/// they were.
pub fn observed_idr_intervals(samples: &SampleState) -> (r: Option<(u64, u64)>)
    ensures
        r == if samples.idr_interval_count > 0 {
            Some((samples.idr_interval_frames_total, samples.idr_interval_count))
        } else {
            None
        },
{
    if samples.idr_interval_count > 0 {
        Some((samples.idr_interval_frames_total, samples.idr_interval_count))
    } else {
        None
    }
}

// Rates.

/// What of a run belongs to its last profile.
#[derive(Clone, Copy, Debug, PartialEq, Eq, Structural)]
pub struct RunRateSummary {
    pub total_frames: u64,
    pub total_bytes: u64,
    pub current_profile_frames_sent: u64,
    pub current_profile_bytes_sent: u64,
}

/// Splits what was sent into the whole run and its last profile.
pub fn summarize_run_rates(
    total_frames: u64,
    total_bytes: u64,
    profile_start_frames: u64,
    profile_start_bytes: u64,
) -> (r: RunRateSummary)
    ensures
        r.total_frames == total_frames,
        r.total_bytes == total_bytes,
        r.current_profile_frames_sent == total_frames.saturating_sub(profile_start_frames),
        r.current_profile_bytes_sent == total_bytes.saturating_sub(profile_start_bytes),
{
    RunRateSummary {
        total_frames,
        total_bytes,
        current_profile_frames_sent: total_frames.saturating_sub(profile_start_frames),
        current_profile_bytes_sent: total_bytes.saturating_sub(profile_start_bytes),
    }
}

// The run.

/// Runs the sender where there is no screen to capture: it says so.
pub fn run(_config: H264SendConfig<String>) -> (r: Result<(), String>)
    ensures
        r is Err,
        r->Err_0@ == "h264-send-probe is only supported on Windows"@,
{
    Err("h264-send-probe is only supported on Windows".to_string())
}

/// How many seconds a pipeline may run that begins after `elapsed` nanoseconds.
pub open spec fn seconds_left(total: u64, elapsed: u64) -> nat {
    if total * 1_000_000_000 <= elapsed + 1_000_000_000 {
        1
    } else {
        ((total * 1_000_000_000 - elapsed + 999_999_999) / 1_000_000_000) as nat
    }
}

/// How many seconds a pipeline may run that begins after `elapsed` nanoseconds: what is left
/// of the whole run, and at least one.
pub fn remaining_duration(duration_sec: Option<u64>, elapsed: u64) -> (r: Option<u64>)
    ensures
        r is Some == duration_sec is Some,
        r is Some ==> r->0 == seconds_left(duration_sec->0, elapsed),
{
    match duration_sec {
        Some(total) => {
            let whole: u64 = elapsed / 1_000_000_000;
            if total <= whole {
                Some(1)
            } else {
                Some(total - whole)
            }
        },
        None => None,
    }
}

/// How a pipeline that ended without an error ended.
#[derive(Clone, Copy, Debug, PartialEq, Eq, Structural)]
pub struct PipelineDone {
    pub reconfigure_requested: bool,
    pub stopped_by_console: bool,
}

/// What follows a pipeline.
#[derive(Clone, Copy, Debug, PartialEq, Eq, Structural)]
pub enum PipelineStep {
    /// The run is over.
    Finish,
    /// The pipeline wanted a change that nobody asked for.
    NoAction,
    /// A pipeline for the new profile is prepared.
    Prepare(PendingAction),
}

/// Why a transition fails when the run is over.
pub open spec fn unfinished_transition(
    stopped_by_console: bool,
    duration_complete: bool,
) -> Seq<char> {
    if stopped_by_console {
        "profile-transition-console-stop"@
    } else if duration_complete {
        "profile-transition-duration-expired"@
    } else {
        "profile-transition-ended-before-readiness"@
    }
}

/// What follows a pipeline.
pub open spec fn next_step(
    pending: Option<PendingAction>,
    done: PipelineDone,
    duration_complete: bool,
) -> PipelineStep {
    if !done.reconfigure_requested || duration_complete {
        PipelineStep::Finish
    } else {
        match pending {
            Some(action) => PipelineStep::Prepare(action),
            None => PipelineStep::NoAction,
        }
    }
}

/// A pipeline ended without an error.  Unless it is to be built anew the run is over, and a
/// transition that is still under way fails.
pub fn pipeline_done(
    state: &mut SenderState<String>,
    tracker: &mut CapabilityFeedbackTracker,
    stage: &str,
    done: PipelineDone,
    duration_complete: bool,
) -> (step: PipelineStep)
    ensures
        step == next_step(old(state).pending, done, duration_complete),
        final(state)@ == if step is Finish {
            old(state)@.transition_failed(
                stage@,
                unfinished_transition(done.stopped_by_console, duration_complete),
            )
        } else {
            old(state)@
        },
        final(tracker)@ == if step is Finish && old(state).book.active {
            transition_book::without_grace(old(tracker)@)
        } else {
            old(tracker)@
        },
{
    if !done.reconfigure_requested || duration_complete {
        let reason: &'static str = if done.stopped_by_console {
            "profile-transition-console-stop"
        } else if duration_complete {
            "profile-transition-duration-expired"
        } else {
            "profile-transition-ended-before-readiness"
        };
        state.fail_active_profile_transition(tracker, stage, reason);
        return PipelineStep::Finish;
    }
    match state.pending {
        Some(action) => PipelineStep::Prepare(action),
        None => PipelineStep::NoAction,
    }
}

/// What is said of a pipeline that wanted a change that nobody asked for.
pub fn missing_action_text() -> (r: String)
    ensures
        r@ == "capture pipeline requested reconfiguration without an adaptive action"@,
{
    "capture pipeline requested reconfiguration without an adaptive action".to_string()
}

/// What is said of a pipeline that could not be prepared.
pub fn prepare_failure_text(error: &str) -> (r: String)
    ensures
        r@ == "prepare new profile pipeline failed: "@ + error@,
{
    "prepare new profile pipeline failed: ".to_string().concat(error)
}

/// Whether a change of profile was given up because the run ends, which is no error.
pub fn is_quiet_end(error: &str) -> (r: bool)
    ensures
        r == (error@ == "profile-control-cancelled"@ || error@
            == "profile-control-duration-expired"@),
{
    same_text(error, "profile-control-cancelled") || same_text(
        error,
        "profile-control-duration-expired",
    )
}

/// A change of profile was carried out: nothing waits any more.
pub fn change_carried_out(state: &mut SenderState<String>)
    ensures
        final(state)@ == (SenderState { pending: None, ..old(state)@ }),
{
    state.pending = None;
}

/// Why the run ends: what was noted, else how the pipeline ended.  `classified` is what an
/// error means.
pub fn shutdown_reason(
    noted: Option<StopReason>,
    done: Option<PipelineDone>,
    ctrl_c: bool,
    classified: StopReason,
) -> (r: StopReason)
    ensures
        r == match noted {
            Some(reason) => reason,
            None => match done {
                Some(done) => if done.stopped_by_console || ctrl_c {
                    StopReason::CtrlC
                } else {
                    StopReason::Duration
                },
                None => classified,
            },
        },
{
    match noted {
        Some(reason) => reason,
        None => match done {
            Some(done) => if done.stopped_by_console || ctrl_c {
                StopReason::CtrlC
            } else {
                StopReason::Duration
            },
            None => classified,
        },
    }
}

/// Why a transition fails when the run is ended.
pub open spec fn cancelled_transition(reason: StopReason) -> &'static str {
    match reason {
        StopReason::CtrlC => "profile-transition-cancelled-by-ctrl-c",
        StopReason::PeerClosed => "profile-transition-cancelled-by-peer-close",
        StopReason::PeerTimeout => "profile-transition-cancelled-by-peer-timeout",
        _ => "profile-transition-cancelled-by-shutdown",
    }
}

pub fn cancelled_transition_text(reason: StopReason) -> (r: &'static str)
    ensures
        r == cancelled_transition(reason),
{
    match reason {
        StopReason::CtrlC => "profile-transition-cancelled-by-ctrl-c",
        StopReason::PeerClosed => "profile-transition-cancelled-by-peer-close",
        StopReason::PeerTimeout => "profile-transition-cancelled-by-peer-timeout",
        _ => "profile-transition-cancelled-by-shutdown",
    }
}

/// Whether somebody wanted the end of the run, or the other end is gone.
pub open spec fn is_orderly_end(reason: StopReason) -> bool {
    reason == StopReason::CtrlC || reason == StopReason::WindowClosed || reason
        == StopReason::PeerClosed || reason == StopReason::PeerTimeout || reason
        == StopReason::Duration || reason == StopReason::LocalStop
}

/// Whether an error only says that the encoder was stopped at an orderly end.
/// `is_cancellation` says that the error is the encoder's word for being stopped.
pub fn is_expected_mft_shutdown_cancellation(reason: StopReason, is_cancellation: bool) -> (r: bool)
    ensures
        r == (is_orderly_end(reason) && is_cancellation),
{
    match reason {
        StopReason::CtrlC
        | StopReason::WindowClosed
        | StopReason::PeerClosed
        | StopReason::PeerTimeout
        | StopReason::Duration
        | StopReason::LocalStop => is_cancellation,
        _ => false,
    }
}

/// How a run is reported.
#[derive(Clone, Copy, Debug, PartialEq, Eq, Structural)]
pub enum RunReport {
    Done(StopReason),
    Failed(StopReason),
}

/// What was wrong with workers that did not end cleanly.
pub open spec fn unclean_end(summary: WorkerShutdownSummary) -> Seq<char> {
    match summary.join_error {
        Some(error) => error@,
        None => match summary.runtime_error {
            Some(error) => error@,
            None => "worker shutdown did not complete"@,
        },
    }
}

/// How the run ends, and how it is reported.
pub open spec fn run_result(
    pipeline: Result<(), Seq<char>>,
    reason: StopReason,
    summary: WorkerShutdownSummary,
    is_cancellation: bool,
) -> (Result<(), Seq<char>>, RunReport) {
    match pipeline {
        Ok(_) => if summary.joined() && summary.runtime_error is None {
            (Ok(()), RunReport::Done(reason))
        } else {
            (Err(unclean_end(summary)), RunReport::Failed(StopReason::InternalError))
        },
        Err(error) => if is_orderly_end(reason) && is_cancellation {
            (Ok(()), RunReport::Failed(reason))
        } else {
            (Err(error), RunReport::Failed(reason))
        },
    }
}

/// Says how the run ends: well where the pipeline and all workers did, and also where the
/// encoder was only stopped at an orderly end.
pub fn end_run(
    pipeline: Result<(), String>,
    reason: StopReason,
    summary: &WorkerShutdownSummary,
    is_cancellation: bool,
) -> (r: (Result<(), String>, RunReport))
    ensures
        (text::result(r.0), r.1) == run_result(
            text::result(pipeline),
            reason,
            *summary,
            is_cancellation,
        ),
{
    match pipeline {
        Ok(_) => {
            if summary.clean() {
                return (Ok(()), RunReport::Done(reason));
            }
            let error: String = match &summary.join_error {
                Some(error) => error.as_str().to_string(),
                None => match &summary.runtime_error {
                    Some(error) => error.as_str().to_string(),
                    None => "worker shutdown did not complete".to_string(),
                },
            };
            (Err(error), RunReport::Failed(StopReason::InternalError))
        },
        Err(error) => if is_expected_mft_shutdown_cancellation(reason, is_cancellation) {
            (Ok(()), RunReport::Failed(reason))
        } else {
            (Err(error), RunReport::Failed(reason))
        },
    }
}

/// Which lines report a run that failed.
#[derive(Clone, Copy, Debug, PartialEq, Eq, Structural)]
pub enum FailureLines {
    Nothing,
    /// The end alone.
    End,
    /// The error, and then the end.
    ErrorAndEnd,
}

/// Which lines report a run that failed: a probe reports none, and an encoder that was only
/// stopped at an orderly end is no error.
pub fn failure_lines(mode: H264SendMode, is_expected: bool) -> (r: FailureLines)
    ensures
        r == if mode != H264SendMode::Screen {
            FailureLines::Nothing
        } else if is_expected {
            FailureLines::End
        } else {
            FailureLines::ErrorAndEnd
        },
{
    if mode != H264SendMode::Screen {
        FailureLines::Nothing
    } else if is_expected {
        FailureLines::End
    } else {
        FailureLines::ErrorAndEnd
    }
}

/// Whether the start is reported: once, and for a shared screen alone.
pub fn reports_start(mode: H264SendMode, reported: bool) -> (r: bool)
    ensures
        r == (mode == H264SendMode::Screen && !reported),
{
    mode == H264SendMode::Screen && !reported
}

/// The close that a sender announces, where it announces one: a shared screen does, when
/// the end is one that the other end is told of.
pub fn sender_close(
    mode: H264SendMode,
    notifies_peer: bool,
    reason_code: u8,
    session_id: u64,
    close_id: u64,
    timestamp_us: u64,
    next_frame_id: u64,
) -> (r: Option<StreamClose>)
    ensures
        r == if mode == H264SendMode::Screen && notifies_peer {
            Some(
                StreamClose {
                    version: MEDIA_CONTROL_VERSION,
                    stream_id: STREAM_VIDEO,
                    reason_code,
                    video_session_id: session_id,
                    close_id,
                    timestamp_us,
                    last_frame_id: next_frame_id.saturating_sub(1),
                },
            )
        } else {
            None
        },
{
    if mode != H264SendMode::Screen || !notifies_peer {
        return None;
    }
    Some(
        StreamClose {
            version: MEDIA_CONTROL_VERSION,
            stream_id: STREAM_VIDEO,
            reason_code,
            video_session_id: session_id,
            close_id,
            timestamp_us,
            last_frame_id: next_frame_id.saturating_sub(1),
        },
    )
}

// The workers.

/// How the workers of the sender ended.
#[derive(Debug)]
pub struct WorkerShutdownSummary {
    pub audio: &'static str,
    pub pacer: WorkerJoinStatus,
    pub control: WorkerJoinStatus,
    pub join_error: Option<String>,
    pub runtime_error: Option<String>,
    /// How long it took, in decimal milliseconds.
    pub cleanup_ms: String,
    pub close_sent: u64,
    pub close_retry_count: u64,
    pub close_ack_received: bool,
    pub close_handshake_timeout: bool,
    pub peer_timeout_triggered: bool,
    pub cleanup_deadline_ms: u64,
    pub lifecycle_state: &'static str,
    pub retained_workers: Vec<String>,
}

/// What is said of workers that did not end cleanly.
pub open spec fn sender_join_errors(
    audio: AudioJoin,
    pacer: WorkerJoinStatus,
    control: WorkerJoinStatus,
    tag: Seq<char>,
    retained: Seq<Seq<char>>,
) -> Seq<Seq<char>> {
    shutdown::audio_errors(audio) + shutdown::worker_errors("UDP pacing"@, pacer)
        + shutdown::worker_errors("media control"@, control) + shutdown::retention_errors(
        tag,
        retained,
    )
}

/// Collects what is said of workers that did not end cleanly; `tag` marks workers that
/// could not be waited for.
pub fn collect_join_errors(
    audio: &AudioJoin,
    pacer: WorkerJoinStatus,
    control: WorkerJoinStatus,
    tag: &str,
    retained: &Vec<String>,
) -> (r: Option<String>)
    ensures
        text::optional(r) == shutdown::combined(
            sender_join_errors(*audio, pacer, control, tag@, text::views(retained@)),
        ),
{
    let mut errors: Vec<String> = Vec::new();
    push_audio_error(&mut errors, audio);
    push_worker_error(&mut errors, "UDP pacing", pacer);
    push_worker_error(&mut errors, "media control", control);
    push_retention_error(&mut errors, tag, retained);
    assert(text::views(errors@) =~= sender_join_errors(
        *audio,
        pacer,
        control,
        tag@,
        text::views(retained@),
    ));
    combine_errors(&errors)
}

/// What is said where the control side could not be started and the pacer was stopped again.
pub open spec fn rollback_text(
    error: Seq<char>,
    pacer: WorkerJoinStatus,
    tag: Seq<char>,
) -> Seq<char> {
    let detail = "spawn media control thread failed: "@ + error + "; pacer rollback="@
        + pacer.text();
    if pacer == WorkerJoinStatus::TimedOut {
        tag + ": "@ + detail
    } else {
        detail
    }
}

pub fn spawn_failure_text(error: &str, pacer: WorkerJoinStatus, tag: &str) -> (r: String)
    ensures
        r@ == rollback_text(error@, pacer, tag@),
{
    let detail: String = "spawn media control thread failed: ".to_string().concat(error).concat(
        "; pacer rollback=",
    ).concat(pacer.name());
    if pacer == WorkerJoinStatus::TimedOut {
        tag.to_string().concat(": ").concat(detail.as_str())
    } else {
        detail
    }
}

/// Whether the thread that captures could not be waited for.
pub open spec fn capture_is_retained(retained: Seq<String>) -> bool {
    exists|i: int| 0 <= i < retained.len() && text::begins_with((#[trigger] retained[i])@, "wgc-"@)
}

pub open spec fn capture_state(retained: Seq<String>) -> Seq<char> {
    if capture_is_retained(retained) {
        "retained_unjoined"@
    } else {
        "joined_before_shutdown"@
    }
}

fn capture_thread_state(retained: &Vec<String>) -> (r: &'static str)
    ensures
        r@ == capture_state(retained@),
{
    let mut i: usize = 0;
    while i < retained.len()
        invariant
            i <= retained@.len(),
            forall|j: int| 0 <= j < i ==> !text::begins_with((#[trigger] retained@[j])@, "wgc-"@),
        decreases retained@.len() - i,
    {
        if starts_with_text(retained[i].as_str(), "wgc-") {
            return "retained_unjoined";
        }
        i = i + 1;
    }
    "joined_before_shutdown"
}

impl WorkerShutdownSummary {
    /// All workers ended.
    pub open spec fn joined(self) -> bool {
        self.join_error is None && self.audio@ != "incomplete"@ && self.pacer.is_clean()
            && self.control.is_clean() && self.retained_workers@.len() == 0
    }

    pub fn join_clean(&self) -> (r: bool)
        ensures
            r == self.joined(),
    {
        self.join_error.is_none() && !same_text(self.audio, "incomplete") && self.pacer.clean()
            && self.control.clean() && self.retained_workers.len() == 0
    }

    pub fn runtime_completed_clean(&self) -> (r: bool)
        ensures
            r == self.runtime_error is None,
    {
        self.runtime_error.is_none()
    }

    pub fn clean(&self) -> (r: bool)
        ensures
            r == (self.joined() && self.runtime_error is None),
    {
        self.join_clean() && self.runtime_completed_clean()
    }

    /// What the summary reports.
    pub open spec fn members(self) -> Seq<Member> {
        seq![
            Member::Pair("worker_join_audio"@, Value::Name(self.audio@)),
            Member::Pair("worker_join_pacer"@, Value::Name(self.pacer.text())),
            Member::Pair("worker_join_control"@, Value::Name(self.control.text())),
            Member::Pair("worker_join_all_clean"@, Value::Flag(self.joined())),
            Member::Pair(
                "worker_join_error"@,
                Value::MaybeQuoted(text::optional(self.join_error)),
            ),
            Member::Pair("runtime_completed_clean"@, Value::Flag(self.runtime_error is None)),
            Member::Pair("runtime_error"@, Value::MaybeQuoted(text::optional(self.runtime_error))),
            Member::Pair(
                "terminal_success"@,
                Value::Flag(self.joined() && self.runtime_error is None),
            ),
            Member::Pair(
                "capture_thread_state"@,
                Value::Name(capture_state(self.retained_workers@)),
            ),
            Member::Pair("encode_thread_state"@, Value::Name("owner_thread_returned"@)),
            Member::Pair("send_thread_state"@, Value::Name(self.pacer.text())),
            Member::Pair("feedback_thread_state"@, Value::Name(self.control.text())),
            Member::Pair("repair_thread_state"@, Value::Name(self.control.text())),
            Member::Pair("transition_thread_state"@, Value::Name("not_started"@)),
            Member::Pair(
                "retained_worker_count"@,
                Value::Number(self.retained_workers@.len() as u64),
            ),
            Member::Pair(
                "retained_workers"@,
                Value::Raw(json::string_array(self.retained_workers@)),
            ),
            Member::Pair("cleanup_duration_ms"@, Value::Raw(self.cleanup_ms@)),
            Member::Pair("cleanup_deadline_ms"@, Value::Number(self.cleanup_deadline_ms)),
            Member::Pair("stream_close_sent"@, Value::Number(self.close_sent)),
            Member::Pair("close_sent"@, Value::Flag(self.close_sent > 0)),
            Member::Pair("stream_close_retry_count"@, Value::Number(self.close_retry_count)),
            Member::Pair("stream_close_ack_received"@, Value::Flag(self.close_ack_received)),
            Member::Pair(
                "stream_close_handshake_timeout"@,
                Value::Flag(self.close_handshake_timeout),
            ),
            Member::Pair("peer_timeout_triggered"@, Value::Flag(self.peer_timeout_triggered)),
            Member::Pair("cleanup_lifecycle_state"@, Value::Name(self.lifecycle_state@)),
            Member::Pair("cleanup_stop_requested"@, Value::Flag(true)),
        ]
    }

    pub fn json_fragment(&self) -> (r: String)
        ensures
            r@ == json::render(self.members()),
    {
        let retained: String = json_string_array(self.retained_workers.as_slice());
        let members: Fragment = Fragment::new().name("worker_join_audio", self.audio).name(
            "worker_join_pacer",
            self.pacer.name(),
        ).name("worker_join_control", self.control.name()).flag(
            "worker_join_all_clean",
            self.join_clean(),
        ).maybe_quoted("worker_join_error", json::borrowed(&self.join_error)).flag(
            "runtime_completed_clean",
            self.runtime_completed_clean(),
        ).maybe_quoted("runtime_error", json::borrowed(&self.runtime_error)).flag(
            "terminal_success",
            self.clean(),
        ).name("capture_thread_state", capture_thread_state(&self.retained_workers)).name(
            "encode_thread_state",
            "owner_thread_returned",
        ).name("send_thread_state", self.pacer.name()).name(
            "feedback_thread_state",
            self.control.name(),
        ).name("repair_thread_state", self.control.name()).name(
            "transition_thread_state",
            "not_started",
        ).number("retained_worker_count", self.retained_workers.len() as u64).raw(
            "retained_workers",
            retained.as_str(),
        ).raw("cleanup_duration_ms", self.cleanup_ms.as_str()).number(
            "cleanup_deadline_ms",
            self.cleanup_deadline_ms,
        ).number("stream_close_sent", self.close_sent).flag(
            "close_sent",
            self.close_sent > 0,
        ).number("stream_close_retry_count", self.close_retry_count).flag(
            "stream_close_ack_received",
            self.close_ack_received,
        ).flag("stream_close_handshake_timeout", self.close_handshake_timeout).flag(
            "peer_timeout_triggered",
            self.peer_timeout_triggered,
        ).name("cleanup_lifecycle_state", self.lifecycle_state).flag(
            "cleanup_stop_requested",
            true,
        );
        assert(members@ =~= self.members());
        members.finish()
    }
}

// The self-test.

fn is_warning(warning: Option<&str>, expected: &str) -> (r: bool)
    ensures
        r == (warning is Some && (warning->0)@ == expected@),
{
    match warning {
        Some(warning) => same_text(warning, expected),
        None => false,
    }
}

/// Checks how packets are spread over a frame, and how the distance of keyframes is judged.
pub fn run_self_test() -> (r: Result<(), String>)
    ensures
        r is Ok,
{
    let batch: usize = batch_size_for_frame(120, frame_interval(60), PACING_TICK);
    if batch == 0 || batch > 120 || batch_size_for_frame(0, 0, 0) == 0 {
        return Err("batch pacing calculation failed".to_string());
    }
    if evaluate_keyframe_interval(true, 30, Some((30, 1)), 0).is_some() {
        return Err("matching IDR interval was reported as a warning".to_string());
    }
    if !is_warning(
        evaluate_keyframe_interval(true, 30, Some((120, 1)), 0),
        "observed-idr-interval-deviates",
    ) {
        return Err("IDR interval deviation was not detected".to_string());
    }
    if !is_warning(
        evaluate_keyframe_interval(true, 30, None, 0),
        "insufficient-idr-observations",
    ) {
        return Err("missing IDR observations were not detected".to_string());
    }
    Ok(())
}

// What holds of every run.

/// A run whose pipeline and workers ended cleanly succeeds, and one whose workers did not
/// fails.
pub proof fn law_clean_runs_succeed(
    reason: StopReason,
    summary: WorkerShutdownSummary,
    is_cancellation: bool,
)
    ensures
        run_result(Ok(()), reason, summary, is_cancellation).0 is Ok <==> summary.joined()
            && summary.runtime_error is None,
{
}

/// What the user or the other end wants is never reported as an error of the encoder.
pub proof fn law_stopped_encoder_is_no_error(
    error: Seq<char>,
    reason: StopReason,
    summary: WorkerShutdownSummary,
)
    requires
        is_orderly_end(reason),
    ensures
        run_result(Err(error), reason, summary, true).0 is Ok,
        run_result(Err(error), reason, summary, false).0 == Err::<(), Seq<char>>(error),
{
}

/// An error while the stream ran does not make the end of the workers unclean, but the
/// run as a whole.
pub proof fn law_runtime_error_is_no_join_error(
    summary: WorkerShutdownSummary,
    error: Option<String>,
)
    ensures
        (WorkerShutdownSummary { runtime_error: error, ..summary }).joined() == summary.joined(),
{
}

/// A keyframe interval that is exactly what was asked for is never warned of.
pub proof fn law_exact_interval_is_accepted(target_frames: u32, count: u64)
    requires
        count * target_frames <= u64::MAX,
    ensures
        keyframe_warning(true, target_frames, Some(((count * target_frames) as u64, count)), 0)
            is None,
{
    assert(count * target_frames >= 0) by (nonlinear_arith)
        requires
            count >= 0,
            target_frames >= 0,
    ;
}

/// Settings are accepted exactly when every one of them is within its limits.
pub proof fn law_sound_settings_are_accepted(config: H264SendConfig<Seq<char>>)
    ensures
        config_error(config) is None <==> {
            &&& exists|i: int| 0 <= i < config.host.len() && !text::is_space(#[trigger] config.host[i])
            &&& 1 <= config.port
            &&& 576 <= config.udp_payload_size <= 1472
            &&& 500 <= config.repair_cache_ms <= 10_000
            &&& 500 <= config.adaptive.feedback_ms <= 2000
            &&& config.adaptive.quality.mode != AdaptiveMode::Off ==> {
                &&& config.adaptive.quality.min_width <= config.out_width
                &&& config.adaptive.quality.min_height <= config.out_height
                &&& config.adaptive.quality.min_fps <= config.target_fps
            }
            &&& config.adaptive.quality.max_bitrate_mbps is Some ==> 0
                < (config.adaptive.quality.max_bitrate_mbps->0).bits < 0x7ff0_0000_0000_0000
        },
{
    if !text::is_blank(config.host) {
        let i = choose|i: int|
            0 <= i < config.host.len() && !text::is_space(#[trigger] config.host[i]);
        assert(!text::is_space(config.host[i]));
    }
}

/// Of several wrong settings the first is told, in the order host, port, size of the
/// datagrams, memory for repairs, interval of the feedback, minimum, limit.
pub proof fn law_wrong_settings_are_told(config: H264SendConfig<Seq<char>>)
    ensures
        text::is_blank(config.host) ==> config_error(config) == Some("host must not be empty"@),
        !text::is_blank(config.host) && config.port == 0 ==> config_error(config) == Some(
            "port must be greater than zero"@,
        ),
        !text::is_blank(config.host) && config.port > 0 && 576 <= config.udp_payload_size <= 1472
            && !(500 <= config.repair_cache_ms <= 10_000) ==> config_error(config) == Some(
            "repair-cache-ms must be between 500 and 10000"@,
        ),
        !text::is_blank(config.host) && config.port > 0 && 576 <= config.udp_payload_size <= 1472
            && 500 <= config.repair_cache_ms <= 10_000 && !(500 <= config.adaptive.feedback_ms
            <= 2000) ==> config_error(config) == Some(
            "adaptive-feedback-ms must be between 500 and 2000"@,
        ),
{
}

/// An average distance of the keyframes is accepted while it is within two frames of the
/// target, or within a quarter of it, and warned of beyond both.
pub proof fn law_distant_keyframes_are_warned_of(
    target_frames: u32,
    frames: u64,
    count: u64,
)
    requires
        count > 0,
    ensures
        count * target_frames - 2 * count <= frames <= count * target_frames + 2 * count
            ==> keyframe_warning(true, target_frames, Some((frames, count)), 0) is None,
        3 * count * target_frames <= 4 * frames <= 5 * count * target_frames ==> keyframe_warning(
            true,
            target_frames,
            Some((frames, count)),
            0,
        ) is None,
        frames > count * target_frames + 2 * count && 4 * frames > 5 * count * target_frames
            ==> keyframe_warning(true, target_frames, Some((frames, count)), 0) == Some(
            "observed-idr-interval-deviates",
        ),
        frames < count * target_frames - 2 * count && 4 * frames < 3 * count * target_frames
            ==> keyframe_warning(true, target_frames, Some((frames, count)), 0) == Some(
            "observed-idr-interval-deviates",
        ),
{
    assert(3 * count * target_frames == 3 * (count * target_frames)) by (nonlinear_arith);
    assert(5 * count * target_frames == 5 * (count * target_frames)) by (nonlinear_arith);
}

/// Without control over the keyframes that is what is told; else a request that failed, and
/// then that nothing was observed.
pub proof fn law_keyframe_trouble_is_told_in_turn(
    target_frames: u32,
    observed: Option<(u64, u64)>,
    failures: u64,
)
    ensures
        keyframe_warning(false, target_frames, observed, failures) == Some(
            "encoder-keyframe-control-unavailable",
        ),
        failures > 0 ==> keyframe_warning(true, target_frames, observed, failures) == Some(
            "forced-idr-request-failed",
        ),
        keyframe_warning(true, target_frames, None, 0) == Some("insufficient-idr-observations"),
{
}

/// A pipeline may run for what is left of the run, in seconds that have begun, and always
/// for one; the less is left, the shorter.
pub proof fn law_rest_of_the_run_is_left(total: u64, elapsed: u64, later: u64)
    requires
        elapsed <= later,
    ensures
        seconds_left(total, elapsed) >= 1,
        seconds_left(total, later) <= seconds_left(total, elapsed),
        seconds_left(total, 0) == if total == 0 {
            1nat
        } else {
            total as nat
        },
        elapsed <= total * 1_000_000_000 ==> elapsed + seconds_left(total, elapsed) * 1_000_000_000
            >= total * 1_000_000_000,
        elapsed + 1_000_000_000 <= total * 1_000_000_000 ==> elapsed + seconds_left(total, elapsed)
            * 1_000_000_000 < total * 1_000_000_000 + 1_000_000_000,
{
}

/// The run goes on only for a change that was asked for, while there is time; then the
/// action that waits is prepared.
pub proof fn law_run_goes_on_for_a_change(
    pending: Option<PendingAction>,
    done: PipelineDone,
    duration_complete: bool,
)
    ensures
        duration_complete ==> next_step(pending, done, duration_complete) is Finish,
        !done.reconfigure_requested ==> next_step(pending, done, duration_complete) is Finish,
        done.reconfigure_requested && !duration_complete && pending is Some ==> next_step(
            pending,
            done,
            duration_complete,
        ) == PipelineStep::Prepare(pending->0),
        done.reconfigure_requested && !duration_complete && pending is None ==> next_step(
            pending,
            done,
            duration_complete,
        ) is NoAction,
        unfinished_transition(true, duration_complete) == "profile-transition-console-stop"@,
        unfinished_transition(false, true) == "profile-transition-duration-expired"@,
        unfinished_transition(false, false) == "profile-transition-ended-before-readiness"@,
{
}

/// The end is orderly unless something went wrong, and a transition that it interrupts is
/// told who ended the run.
pub proof fn law_ends_are_told_apart(reason: StopReason)
    ensures
        is_orderly_end(reason) <==> reason != StopReason::StartupFailure && reason
            != StopReason::InternalError && reason != StopReason::FatalError,
        reason == StopReason::CtrlC ==> cancelled_transition(reason)
            == "profile-transition-cancelled-by-ctrl-c",
        reason == StopReason::PeerClosed ==> cancelled_transition(reason)
            == "profile-transition-cancelled-by-peer-close",
        reason == StopReason::PeerTimeout ==> cancelled_transition(reason)
            == "profile-transition-cancelled-by-peer-timeout",
        reason != StopReason::CtrlC && reason != StopReason::PeerClosed && reason
            != StopReason::PeerTimeout ==> cancelled_transition(reason)
            == "profile-transition-cancelled-by-shutdown",
{
}

/// A run is reported as done exactly when its pipeline and its workers ended cleanly, under
/// the reason for its end; workers that did not are an internal error, told by the error of
/// their end if there is one, else by that of the run.
pub proof fn law_runs_are_reported(
    pipeline: Result<(), Seq<char>>,
    reason: StopReason,
    summary: WorkerShutdownSummary,
    is_cancellation: bool,
)
    ensures
        ({
            let (result, report) = run_result(pipeline, reason, summary, is_cancellation);
            let clean = summary.join_error is None && summary.runtime_error is None
                && summary.audio@ != "incomplete"@ && summary.pacer.is_clean()
                && summary.control.is_clean() && summary.retained_workers@.len() == 0;
            &&& pipeline is Ok && clean ==> result is Ok && report == RunReport::Done(reason)
            &&& pipeline is Ok && !clean ==> result is Err && report == RunReport::Failed(
                StopReason::InternalError,
            )
            &&& pipeline is Ok && summary.join_error is Some ==> result == Err::<(), Seq<char>>(
                (summary.join_error->0)@,
            )
            &&& pipeline is Ok && summary.join_error is None && summary.runtime_error is Some
                ==> result == Err::<(), Seq<char>>((summary.runtime_error->0)@)
            &&& pipeline is Err ==> report == RunReport::Failed(reason)
            &&& pipeline is Err && !is_cancellation ==> result == pipeline
            &&& pipeline is Err && !is_orderly_end(reason) ==> result == pipeline
        }),
{
}

/// Workers that ended cleanly leave nothing to be told; each that did not is told of by its
/// name.
pub proof fn law_unclean_workers_are_named(
    audio: AudioJoin,
    pacer: WorkerJoinStatus,
    control: WorkerJoinStatus,
    tag: Seq<char>,
    retained: Seq<Seq<char>>,
)
    ensures
        audio !is Incomplete && pacer.is_clean() && control.is_clean() && retained.len() == 0
            <==> sender_join_errors(audio, pacer, control, tag, retained).len() == 0,
        audio !is Incomplete && !pacer.is_clean() && control.is_clean() && retained.len() == 0
            ==> sender_join_errors(audio, pacer, control, tag, retained) == seq![
            "UDP pacing"@ + " worker shutdown: "@ + pacer.text(),
        ],
        audio !is Incomplete && pacer.is_clean() && !control.is_clean() && retained.len() == 0
            ==> sender_join_errors(audio, pacer, control, tag, retained) == seq![
            "media control"@ + " worker shutdown: "@ + control.text(),
        ],
        audio is Incomplete && pacer.is_clean() && control.is_clean()
            && retained.len() == 0 ==> sender_join_errors(audio, pacer, control, tag, retained)
            == seq![(audio->Incomplete_0)@],
{
    assert(Seq::<Seq<char>>::empty() + Seq::<Seq<char>>::empty() =~= Seq::<Seq<char>>::empty());
}

/// A worker that could not be waited for is marked; one that ended or failed is not.
pub proof fn law_rollback_is_marked(error: Seq<char>, pacer: WorkerJoinStatus, tag: Seq<char>)
    ensures
        pacer != WorkerJoinStatus::TimedOut ==> rollback_text(error, pacer, tag)
            == "spawn media control thread failed: "@ + error + "; pacer rollback="@ + pacer.text(),
        rollback_text(error, WorkerJoinStatus::TimedOut, tag) == tag + ": "@ + (
        "spawn media control thread failed: "@ + error + "; pacer rollback="@ + "timed_out"@),
{
}

/// A capture that could not be waited for is reported.
pub proof fn law_capture_is_reported(retained: Seq<String>, i: int)
    requires
        0 <= i < retained.len(),
        text::begins_with(retained[i]@, "wgc-"@),
    ensures
        capture_state(retained) == "retained_unjoined"@,
        capture_state(Seq::empty()) == "joined_before_shutdown"@,
{
}

/// Nothing adapts unless it is asked to; the limits are then a picture of 1280 by 720 and 30
/// frames a second.
pub proof fn law_standard_adapts_nothing(config: AdaptiveRuntimeConfig)
    requires
        config == AdaptiveRuntimeConfig::standard(),
    ensures
        config.quality.mode == AdaptiveMode::Off,
        config.quality.min_width == 1280 && config.quality.min_height == 720,
        config.quality.min_fps == 30,
        config.quality.max_bitrate_mbps is None,
        config.quality.upgrade_stable_sec == 15,
        config.quality.resolution_cooldown_sec == 30,
        config.quality.fps_cooldown_sec == 20,
        config.quality.interactive_lag_guard,
        config.max_fps == MaxFps::Fixed(60),
        !config.enable_high_refresh,
        config.feedback_ms == 1000,
        config.display_refresh_detect == DisplayRefreshDetect::Auto,
{
}

/// What a name says is what it is read as.
pub proof fn law_sound_of_the_sender_is_read_back(mode: AudioSendMode, other: Seq<char>)
    ensures
        AudioSendMode::named(mode.text()) == Ok::<AudioSendMode, Seq<char>>(mode),
        AudioSendMode::named("off"@) == Ok::<AudioSendMode, Seq<char>>(AudioSendMode::Off),
        AudioSendMode::named("system"@) == Ok::<AudioSendMode, Seq<char>>(AudioSendMode::System),
        other != "off"@ && other != "system"@ ==> AudioSendMode::named(other) == Err::<
            AudioSendMode,
            Seq<char>,
        >("invalid audio mode: "@ + other),
{
    reveal_strlit("off");
    reveal_strlit("system");
    assert("off"@.len() == 3 && "system"@.len() == 6);
}

/// How the workers ended is reported: each of them under its name, and whether all of them
/// and the run ended cleanly.
pub proof fn law_end_of_the_sender_is_told(summary: WorkerShutdownSummary)
    ensures
        ({
            let members = summary.members();
            &&& json::names(members, "worker_join_audio"@, summary.audio@)
            &&& json::names(members, "worker_join_pacer"@, summary.pacer.text())
            &&& json::names(members, "worker_join_control"@, summary.control.text())
            &&& json::flags(members, "worker_join_all_clean"@, summary.joined())
            &&& json::flags(members, "runtime_completed_clean"@, summary.runtime_error is None)
            &&& json::flags(
                members,
                "terminal_success"@,
                summary.joined() && summary.runtime_error is None,
            )
            &&& json::counts(
                members,
                "retained_worker_count"@,
                summary.retained_workers@.len() as u64,
            )
            &&& json::counts(members, "cleanup_deadline_ms"@, summary.cleanup_deadline_ms)
            &&& json::counts(members, "stream_close_sent"@, summary.close_sent)
            &&& json::flags(members, "close_sent"@, summary.close_sent > 0)
            &&& json::counts(members, "stream_close_retry_count"@, summary.close_retry_count)
            &&& json::flags(members, "stream_close_ack_received"@, summary.close_ack_received)
            &&& json::flags(
                members,
                "stream_close_handshake_timeout"@,
                summary.close_handshake_timeout,
            )
            &&& json::flags(members, "peer_timeout_triggered"@, summary.peer_timeout_triggered)
            &&& json::names(members, "cleanup_lifecycle_state"@, summary.lifecycle_state@)
        }),
{
    let members = summary.members();
    assert(members[0] is Pair && members[1] is Pair && members[2] is Pair);
    assert(members[3] is Pair && members[5] is Pair && members[7] is Pair);
    assert(members[14] is Pair && members[17] is Pair && members[18] is Pair);
    assert(members[19] is Pair && members[20] is Pair && members[21] is Pair);
    assert(members[22] is Pair && members[23] is Pair && members[24] is Pair);
}

} // verus!
