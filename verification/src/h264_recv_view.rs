//! The receiving end of a video stream.

use vstd::prelude::*;

use crate::choices::{
    AvSyncMode, DisplayRefreshDetect, RenderBackend, RenderScaleMode, RepairMode, WindowMode,
};
use crate::decode_queue::{DecodeQueue, DecodeQueueItem, FramePreparation};
use crate::encoded_frame::EncodedFrame;
use crate::json;
use crate::json::{json_string_array, Fragment, Member, Value};
use crate::media_packet::FLAG_KEYFRAME;
use crate::playout_buffer;
use crate::readiness::capability_feedback_readiness_self_test;
use crate::shutdown;
use crate::shutdown::{
    combine_errors, duration_elapsed, push_audio_error, push_retention_error, push_worker_error,
    AudioJoin, CancellationToken, StopReason, WorkerJoinStatus,
};
use crate::text;
use crate::text::{is_blank_text, push_decimal, same_text};

verus! {

/// What a receiver is asked to do.
#[derive(Debug)]
pub struct H264RecvViewConfig<T> {
    pub bind: T,
    pub port: u16,
    pub decoder_fps: u32,
    pub duration_sec: Option<u64>,
    pub frame_timeout_ms: u64,
    pub reorder_wait_ms: Option<u64>,
    pub playout_delay_ms: u64,
    pub max_inflight_frames: usize,
    pub max_decode_queue: usize,
    pub strict_decode_order: bool,
    pub drop_damaged_gop: bool,
    pub debug_dump_frames: Option<T>,
    pub debug_dump_limit: usize,
    pub json_interval_ms: u64,
    pub title: T,
    pub render_scale: RenderScaleMode,
    pub window_mode: WindowMode,
    pub render_backend: RenderBackend,
    pub repair_mode: RepairMode,
    pub nack_delay_ms: u64,
    pub nack_repeat_ms: u64,
    pub nack_max_rounds: u8,
    pub audio_mode: AudioRecvMode,
    pub audio_jitter_buffer_ms: u32,
    pub av_sync_mode: AvSyncMode,
    pub display_refresh_detect: DisplayRefreshDetect,
    pub capability_feedback_ms: u64,
    pub mode: H264RecvViewMode,
    pub verbose: bool,
}

impl View for H264RecvViewConfig<String> {
    type V = H264RecvViewConfig<Seq<char>>;

    open spec fn view(&self) -> H264RecvViewConfig<Seq<char>> {
        H264RecvViewConfig {
            bind: self.bind@,
            port: self.port,
            decoder_fps: self.decoder_fps,
            duration_sec: self.duration_sec,
            frame_timeout_ms: self.frame_timeout_ms,
            reorder_wait_ms: self.reorder_wait_ms,
            playout_delay_ms: self.playout_delay_ms,
            max_inflight_frames: self.max_inflight_frames,
            max_decode_queue: self.max_decode_queue,
            strict_decode_order: self.strict_decode_order,
            drop_damaged_gop: self.drop_damaged_gop,
            debug_dump_frames: text::optional(self.debug_dump_frames),
            debug_dump_limit: self.debug_dump_limit,
            json_interval_ms: self.json_interval_ms,
            title: self.title@,
            render_scale: self.render_scale,
            window_mode: self.window_mode,
            render_backend: self.render_backend,
            repair_mode: self.repair_mode,
            nack_delay_ms: self.nack_delay_ms,
            nack_repeat_ms: self.nack_repeat_ms,
            nack_max_rounds: self.nack_max_rounds,
            audio_mode: self.audio_mode,
            audio_jitter_buffer_ms: self.audio_jitter_buffer_ms,
            av_sync_mode: self.av_sync_mode,
            display_refresh_detect: self.display_refresh_detect,
            capability_feedback_ms: self.capability_feedback_ms,
            mode: self.mode,
            verbose: self.verbose,
        }
    }
}

/// What the receiver is for: a probe, or watching a screen.
#[derive(Clone, Copy, Debug, PartialEq, Eq, Structural)]
pub enum H264RecvViewMode {
    Probe,
    Screen,
}

/// Whether sound is received along with the picture.
#[derive(Clone, Copy, Debug, PartialEq, Eq, Structural)]
pub enum AudioRecvMode {
    Off,
    On,
}

impl AudioRecvMode {
    pub open spec fn text(self) -> Seq<char> {
        match self {
            AudioRecvMode::Off => "off"@,
            AudioRecvMode::On => "on"@,
        }
    }

    pub fn name(self) -> (r: &'static str)
        ensures
            r@ == self.text(),
    {
        match self {
            AudioRecvMode::Off => "off",
            AudioRecvMode::On => "on",
        }
    }

    /// The mode that `s` names.
    pub open spec fn named(s: Seq<char>) -> Result<AudioRecvMode, Seq<char>> {
        if s == "off"@ {
            Ok(AudioRecvMode::Off)
        } else if s == "on"@ {
            Ok(AudioRecvMode::On)
        } else {
            Err("invalid audio mode: "@ + s)
        }
    }

    pub fn parse(text: &str) -> (r: Result<AudioRecvMode, String>)
        ensures
            text::agrees(r, Self::named(text@)),
    {
        if same_text(text, "off") {
            Ok(AudioRecvMode::Off)
        } else if same_text(text, "on") {
            Ok(AudioRecvMode::On)
        } else {
            Err("invalid audio mode: ".to_string().concat(text))
        }
    }
}

// Settings.

/// The first rule that the settings break.
pub open spec fn config_error(config: H264RecvViewConfig<Seq<char>>) -> Option<Seq<char>> {
    if config.port == 0 {
        Some("port must be greater than zero"@)
    } else if config.frame_timeout_ms == 0 {
        Some("frame-timeout-ms must be greater than zero"@)
    } else if config.playout_delay_ms > playout_buffer::MAX_PLAYOUT_DELAY_MS {
        Some(
            "playout-delay-ms must be between 0 and "@ + text::decimal(
                playout_buffer::MAX_PLAYOUT_DELAY_MS as nat,
            ),
        )
    } else if config.max_inflight_frames == 0 || config.max_decode_queue == 0 {
        Some("max-inflight-frames and max-decode-queue must be greater than zero"@)
    } else if config.json_interval_ms == 0 {
        Some("json-interval-ms must be greater than zero"@)
    } else if text::is_blank(config.title) {
        Some("title must not be empty"@)
    } else if config.debug_dump_frames matches Some(path) && text::is_blank(path) {
        Some("debug-dump-frames must not be empty"@)
    } else if config.debug_dump_limit == 0 {
        Some("debug-dump-limit must be greater than zero"@)
    } else if !(1 <= config.nack_delay_ms <= 50) || !(1 <= config.nack_repeat_ms <= 50) || !(1
        <= config.nack_max_rounds <= 10) {
        Some("invalid NACK timing configuration"@)
    } else if config.audio_jitter_buffer_ms > 500 {
        Some("audio-jitter-buffer-ms must be between 0 and 500"@)
    } else if !(500 <= config.capability_feedback_ms <= 2000) {
        Some("adaptive-feedback-ms must be between 500 and 2000"@)
    } else {
        None
    }
}

/// Checks the settings.
pub fn validate_config(config: &H264RecvViewConfig<String>) -> (r: Result<(), String>)
    ensures
        match config_error(config@) {
            Some(error) => r is Err && r->Err_0@ == error,
            None => r is Ok,
        },
{
    if config.port == 0 {
        return Err("port must be greater than zero".to_string());
    }
    if config.frame_timeout_ms == 0 {
        return Err("frame-timeout-ms must be greater than zero".to_string());
    }
    if config.playout_delay_ms > playout_buffer::MAX_PLAYOUT_DELAY_MS {
        let mut error: String = "playout-delay-ms must be between 0 and ".to_string();
        push_decimal(&mut error, playout_buffer::MAX_PLAYOUT_DELAY_MS);
        return Err(error);
    }
    if config.max_inflight_frames == 0 || config.max_decode_queue == 0 {
        return Err(
            "max-inflight-frames and max-decode-queue must be greater than zero".to_string(),
        );
    }
    if config.json_interval_ms == 0 {
        return Err("json-interval-ms must be greater than zero".to_string());
    }
    if is_blank_text(config.title.as_str()) {
        return Err("title must not be empty".to_string());
    }
    if let Some(path) = &config.debug_dump_frames {
        if is_blank_text(path.as_str()) {
            return Err("debug-dump-frames must not be empty".to_string());
        }
    }
    if config.debug_dump_limit == 0 {
        return Err("debug-dump-limit must be greater than zero".to_string());
    }
    if config.nack_delay_ms < 1 || config.nack_delay_ms > 50 || config.nack_repeat_ms < 1
        || config.nack_repeat_ms > 50 || config.nack_max_rounds < 1 || config.nack_max_rounds
        > 10 {
        return Err("invalid NACK timing configuration".to_string());
    }
    if config.audio_jitter_buffer_ms > 500 {
        return Err("audio-jitter-buffer-ms must be between 0 and 500".to_string());
    }
    if config.capability_feedback_ms < 500 || config.capability_feedback_ms > 2000 {
        return Err("adaptive-feedback-ms must be between 500 and 2000".to_string());
    }
    Ok(())
}

// The run.

/// Runs the viewer where there is no window to show pictures in: it says so.
pub fn run(_config: H264RecvViewConfig<String>) -> (r: Result<(), String>)
    ensures
        r is Err,
        r->Err_0@ == "h264-recv-view is only supported on Windows"@,
{
    Err("h264-recv-view is only supported on Windows".to_string())
}

/// One turn of the viewer: the token then, and whether the viewer goes on.
pub open spec fn turn(
    token: CancellationToken,
    stopped: bool,
    time_up: bool,
    closed_by_user: bool,
) -> (CancellationToken, bool) {
    if token.reason is Some || stopped {
        (token, false)
    } else if time_up {
        (token.cancelled(StopReason::Duration), false)
    } else if closed_by_user {
        (token.cancelled(StopReason::WindowClosed), false)
    } else {
        (token, true)
    }
}

/// Decides whether the viewer goes on, and notes why it does not.  Times are nanoseconds
/// of a monotonic clock.
pub fn viewer_turn(
    token: &mut CancellationToken,
    stopped: bool,
    started_at: u64,
    now: u64,
    duration_sec: Option<u64>,
    closed_by_user: bool,
) -> (goes_on: bool)
    ensures
        (*final(token), goes_on) == turn(
            *old(token),
            stopped,
            shutdown::time_is_up(started_at, now, duration_sec),
            closed_by_user,
        ),
{
    if token.is_cancelled() || stopped {
        return false;
    }
    if duration_elapsed(started_at, now, duration_sec) {
        token.cancel(StopReason::Duration);
        return false;
    }
    if closed_by_user {
        token.cancel(StopReason::WindowClosed);
        return false;
    }
    true
}

/// The frame rate that the decoder is made for: that of the profile, within its limits.
pub fn decoder_frame_rate(active_fps: u64) -> (r: u32)
    ensures
        r == if active_fps < 1 {
            1u32
        } else if active_fps > u32::MAX {
            u32::MAX
        } else {
            active_fps as u32
        },
{
    if active_fps < 1 {
        1
    } else if active_fps > u32::MAX as u64 {
        u32::MAX
    } else {
        active_fps as u32
    }
}

/// Whether the next report is due.
pub fn report_due(report_at: u64, now: u64, json_interval_ms: u64) -> (r: bool)
    ensures
        r == (now.saturating_sub(report_at) >= json_interval_ms * 1_000_000),
{
    match json_interval_ms.checked_mul(1_000_000) {
        Some(interval) => now.saturating_sub(report_at) >= interval,
        None => false,
    }
}

/// Why the run ended: what was noted, else what happened.
pub fn stop_reason(
    noted: Option<StopReason>,
    closed_by_user: bool,
    error: Option<StopReason>,
) -> (r: StopReason)
    ensures
        r == match noted {
            Some(reason) => reason,
            None => if closed_by_user {
                StopReason::WindowClosed
            } else {
                error.unwrap_or(StopReason::Duration)
            },
        },
{
    match noted {
        Some(reason) => reason,
        None => if closed_by_user {
            StopReason::WindowClosed
        } else {
            error.unwrap_or(StopReason::Duration)
        },
    }
}

/// How the workers of the receiver ended.
#[derive(Debug)]
pub struct ReceiverWorkerShutdownSummary {
    pub render: WorkerJoinStatus,
    pub network: WorkerJoinStatus,
    pub audio: &'static str,
    pub join_error: Option<String>,
    pub runtime_error: Option<String>,
    /// How long it took, in decimal milliseconds.
    pub cleanup_ms: String,
    pub cleanup_deadline_ms: u64,
    pub lifecycle_state: &'static str,
    pub retained_workers: Vec<String>,
}

/// What is said of workers that did not end cleanly.
pub open spec fn receiver_join_errors(
    render: WorkerJoinStatus,
    network: WorkerJoinStatus,
    audio: AudioJoin,
    tag: Seq<char>,
    retained: Seq<Seq<char>>,
) -> Seq<Seq<char>> {
    shutdown::worker_errors("render"@, render) + shutdown::worker_errors("network"@, network)
        + shutdown::audio_errors(audio) + shutdown::retention_errors(tag, retained)
}

/// Collects what is said of workers that did not end cleanly; `tag` marks workers that
/// could not be waited for.
pub fn collect_join_errors(
    render: WorkerJoinStatus,
    network: WorkerJoinStatus,
    audio: &AudioJoin,
    tag: &str,
    retained: &Vec<String>,
) -> (r: Option<String>)
    ensures
        text::optional(r) == shutdown::combined(
            receiver_join_errors(render, network, *audio, tag@, text::views(retained@)),
        ),
{
    let mut errors: Vec<String> = Vec::new();
    push_worker_error(&mut errors, "render", render);
    push_worker_error(&mut errors, "network", network);
    push_audio_error(&mut errors, audio);
    push_retention_error(&mut errors, tag, retained);
    assert(text::views(errors@) =~= receiver_join_errors(
        render,
        network,
        *audio,
        tag@,
        text::views(retained@),
    ));
    combine_errors(&errors)
}

impl ReceiverWorkerShutdownSummary {
    /// All workers ended.
    pub open spec fn joined(self) -> bool {
        self.join_error is None && self.audio@ != "incomplete"@ && self.render.is_clean()
            && self.network.is_clean() && self.retained_workers@.len() == 0
    }

    pub fn join_clean(&self) -> (r: bool)
        ensures
            r == self.joined(),
    {
        self.join_error.is_none() && !same_text(self.audio, "incomplete") && self.render.clean()
            && self.network.clean() && self.retained_workers.len() == 0
    }

    pub fn runtime_completed_clean(&self) -> (r: bool)
        ensures
            r == self.runtime_error is None,
    {
        self.runtime_error.is_none()
    }

    pub fn clean(&self) -> (r: bool)
        ensures
            r == (self.joined() && self.runtime_error is None),
    {
        self.join_clean() && self.runtime_completed_clean()
    }

    /// What the summary reports.
    pub open spec fn members(self) -> Seq<Member> {
        seq![
            Member::Pair("worker_join_render"@, Value::Name(self.render.text())),
            Member::Pair("worker_join_network"@, Value::Name(self.network.text())),
            Member::Pair("worker_join_audio"@, Value::Name(self.audio@)),
            Member::Pair("worker_join_all_clean"@, Value::Flag(self.joined())),
            Member::Pair(
                "worker_join_error"@,
                Value::MaybeQuoted(text::optional(self.join_error)),
            ),
            Member::Pair("runtime_completed_clean"@, Value::Flag(self.runtime_error is None)),
            Member::Pair("runtime_error"@, Value::MaybeQuoted(text::optional(self.runtime_error))),
            Member::Pair(
                "terminal_success"@,
                Value::Flag(self.joined() && self.runtime_error is None),
            ),
            Member::Pair(
                "retained_worker_count"@,
                Value::Number(self.retained_workers@.len() as u64),
            ),
            Member::Pair(
                "retained_workers"@,
                Value::Raw(json::string_array(self.retained_workers@)),
            ),
            Member::Pair("cleanup_duration_ms"@, Value::Raw(self.cleanup_ms@)),
            Member::Pair("cleanup_deadline_ms"@, Value::Number(self.cleanup_deadline_ms)),
            Member::Pair("qsv_async_wait_timeouts"@, Value::Number(0)),
            Member::Pair("qsv_async_wait_cancelled"@, Value::Number(0)),
            Member::Pair("qsv_drain_timeouts"@, Value::Number(0)),
            Member::Pair("cleanup_lifecycle_state"@, Value::Name(self.lifecycle_state@)),
            Member::Pair("cleanup_stop_requested"@, Value::Flag(true)),
        ]
    }

    pub fn json_fragment(&self) -> (r: String)
        ensures
            r@ == json::render(self.members()),
    {
        let retained: String = json_string_array(self.retained_workers.as_slice());
        let members: Fragment = Fragment::new().name(
            "worker_join_render",
            self.render.name(),
        ).name("worker_join_network", self.network.name()).name(
            "worker_join_audio",
            self.audio,
        ).flag("worker_join_all_clean", self.join_clean()).maybe_quoted(
            "worker_join_error",
            json::borrowed(&self.join_error),
        ).flag("runtime_completed_clean", self.runtime_completed_clean()).maybe_quoted(
            "runtime_error",
            json::borrowed(&self.runtime_error),
        ).flag("terminal_success", self.clean()).number(
            "retained_worker_count",
            self.retained_workers.len() as u64,
        ).raw("retained_workers", retained.as_str()).raw(
            "cleanup_duration_ms",
            self.cleanup_ms.as_str(),
        ).number("cleanup_deadline_ms", self.cleanup_deadline_ms).number(
            "qsv_async_wait_timeouts",
            0,
        ).number("qsv_async_wait_cancelled", 0).number("qsv_drain_timeouts", 0).name(
            "cleanup_lifecycle_state",
            self.lifecycle_state,
        ).flag("cleanup_stop_requested", true);
        assert(members@ =~= self.members());
        members.finish()
    }
}

/// What the run ends with: the error while it ran, else that of its workers.
pub open spec fn run_result(summary: ReceiverWorkerShutdownSummary) -> Result<(), Seq<char>> {
    match (summary.runtime_error, summary.join_error) {
        (Some(error), _) => Err(error@),
        (None, Some(error)) => Err(error@),
        (None, None) => Ok(()),
    }
}

/// Says what the run ends with.
pub fn end_run(summary: &ReceiverWorkerShutdownSummary) -> (r: Result<(), String>)
    ensures
        text::agrees(r, run_result(*summary)),
{
    if let Some(error) = &summary.runtime_error {
        return Err(error.as_str().to_string());
    }
    match &summary.join_error {
        Some(error) => Err(error.as_str().to_string()),
        None => Ok(()),
    }
}

/// A run that is clean as a whole succeeds, and one that an error ended never does.
pub proof fn law_clean_runs_succeed(summary: ReceiverWorkerShutdownSummary)
    ensures
        summary.joined() && summary.runtime_error is None ==> run_result(summary) is Ok,
        summary.runtime_error is Some ==> run_result(summary) is Err,
{
}

/// An error while the stream ran does not make the end of the workers unclean, but the
/// run as a whole.
pub proof fn law_runtime_error_is_no_join_error(
    summary: ReceiverWorkerShutdownSummary,
    error: Option<String>,
)
    ensures
        (ReceiverWorkerShutdownSummary { runtime_error: error, ..summary }).joined()
            == summary.joined(),
{
}

// The self-test.

fn test_frame(frame_id: u64, keyframe: bool) -> (r: EncodedFrame)
    requires
        frame_id < 256,
    ensures
        r.frame_id == frame_id,
        r.idr() == keyframe,
{
    assert(1u16 & 1 != 0 && 0u16 & 1 == 0) by (bit_vector);
    EncodedFrame {
        frame_id,
        flags: if keyframe {
            FLAG_KEYFRAME
        } else {
            0
        },
        timestamp_ms: frame_id * 33,
        bytes: if keyframe {
            vec![0, 0, 0, 1, 7, 0x64, 0, 0, 0, 1, 8, 0xee, 0, 0, 0, 1, 5, frame_id as u8]
        } else {
            vec![0, 0, 0, 1, 1, frame_id as u8]
        },
    }
}

/// A frame as the watch over damaged groups passes it on.
fn prepared(frame: EncodedFrame, was_damaged: bool, still_damaged: bool) -> (r: FramePreparation)
    ensures
        r == (FramePreparation { was_damaged, still_damaged, frame: Some(frame) }),
{
    FramePreparation { was_damaged, still_damaged, frame: Some(frame) }
}

fn front_is_reset(queue: &DecodeQueue) -> (r: bool)
    ensures
        r == (queue@.items.len() > 0 && queue@.items[0] is Reset),
{
    if queue.items.len() == 0 {
        return false;
    }
    match &queue.items[0] {
        DecodeQueueItem::Reset => true,
        DecodeQueueItem::Frame(_) => false,
    }
}

fn back_is_frame(queue: &DecodeQueue, frame_id: u64) -> (r: bool)
    ensures
        r == (queue@.items.len() > 0 && (queue@.items.last() matches DecodeQueueItem::Frame(frame)
            && frame.frame_id == frame_id)),
{
    if queue.items.len() == 0 {
        return false;
    }
    match &queue.items[queue.items.len() - 1] {
        DecodeQueueItem::Reset => false,
        DecodeQueueItem::Frame(frame) => frame.frame_id == frame_id,
    }
}

/// Checks when feedback counts and the recovery of the decoder's queue: after it was
/// full, after damage, and after another profile began.
pub fn run_self_test() -> (r: Result<(), String>)
    ensures
        r is Ok,
{
    capability_feedback_readiness_self_test()?;
    proof {
        reveal_with_fuel(crate::decode_queue::frame_count, 4);
    }
    let mut queue: DecodeQueue = DecodeQueue::new(2);
    queue.enqueue_frame(prepared(test_frame(0, true), false, false), 2);
    queue.enqueue_frame(prepared(test_frame(1, false), false, false), 2);
    assert(queue@.items.drop_last().drop_last() =~= Seq::empty());
    assert(crate::decode_queue::frame_count(queue@.items) == 2);
    queue.enqueue_frame(prepared(test_frame(2, false), false, false), 2);
    if !queue.waiting_for_keyframe || queue.keyframe_recovery_count != 1 || !front_is_reset(
        &queue,
    ) {
        return Err("decode queue overflow did not enter keyframe recovery".to_string());
    }
    queue.enqueue_frame(prepared(test_frame(3, false), false, false), 2);
    queue.enqueue_frame(prepared(test_frame(4, true), false, false), 2);
    if queue.waiting_for_keyframe || queue.frames_predecode_dropped != 4 || queue.items.len() != 2
        || !front_is_reset(&queue) || !back_is_frame(&queue, 4) {
        return Err("decode queue keyframe recovery ordering failed".to_string());
    }
    let mut damaged_queue: DecodeQueue = DecodeQueue::new(4);
    damaged_queue.enqueue_frame(prepared(test_frame(10, true), false, false), 4);
    let discarded: u64 = damaged_queue.begin_damaged_gop_recovery(true);
    damaged_queue.enqueue_frame(
        FramePreparation { was_damaged: true, still_damaged: true, frame: None },
        4,
    );
    damaged_queue.enqueue_frame(prepared(test_frame(12, true), true, false), 4);
    if damaged_queue.waiting_for_keyframe || discarded != 1
        || damaged_queue.frames_predecode_dropped != 2 || !front_is_reset(&damaged_queue)
        || !back_is_frame(&damaged_queue, 12) {
        return Err("damaged GOP keyframe recovery failed".to_string());
    }
    let mut profile_queue: DecodeQueue = DecodeQueue::new(4);
    profile_queue.enqueue_frame(prepared(test_frame(20, true), false, false), 4);
    profile_queue.begin_profile_transition();
    if !profile_queue.waiting_for_keyframe || profile_queue.items.len() != 1 || !front_is_reset(
        &profile_queue,
    ) || profile_queue.keyframe_recovery_count != 0 {
        return Err(
            "profile transition did not produce exactly one clean decoder reset".to_string(),
        );
    }
    profile_queue.enqueue_frame(prepared(test_frame(21, false), false, false), 4);
    if profile_queue.items.len() != 1 || !profile_queue.waiting_for_keyframe {
        return Err("profile transition accepted a non-IDR frame".to_string());
    }
    profile_queue.enqueue_frame(prepared(test_frame(0, true), false, false), 4);
    if profile_queue.waiting_for_keyframe || profile_queue.items.len() != 2 || !front_is_reset(
        &profile_queue,
    ) || !back_is_frame(&profile_queue, 0) {
        return Err("profile transition did not resume from the new session IDR".to_string());
    }
    Ok(())
}

/// Settings are accepted exactly when every one of them is within its limits.
pub proof fn law_sound_settings_are_accepted(config: H264RecvViewConfig<Seq<char>>)
    ensures
        config_error(config) is None <==> {
            &&& 1 <= config.port
            &&& 1 <= config.frame_timeout_ms
            &&& config.playout_delay_ms <= 500
            &&& 1 <= config.max_inflight_frames
            &&& 1 <= config.max_decode_queue
            &&& 1 <= config.json_interval_ms
            &&& !text::is_blank(config.title)
            &&& config.debug_dump_frames is Some ==> !text::is_blank(config.debug_dump_frames->0)
            &&& 1 <= config.debug_dump_limit
            &&& 1 <= config.nack_delay_ms <= 50
            &&& 1 <= config.nack_repeat_ms <= 50
            &&& 1 <= config.nack_max_rounds <= 10
            &&& config.audio_jitter_buffer_ms <= 500
            &&& 500 <= config.capability_feedback_ms <= 2000
        },
{
}

/// A single wrong setting is told by its name.
pub proof fn law_wrong_settings_are_told(
    config: H264RecvViewConfig<Seq<char>>,
    blank: Seq<char>,
)
    requires
        config_error(config) is None,
        text::is_blank(blank),
    ensures
        config_error(H264RecvViewConfig { port: 0, ..config }) == Some(
            "port must be greater than zero"@,
        ),
        config_error(H264RecvViewConfig { frame_timeout_ms: 0, ..config }) == Some(
            "frame-timeout-ms must be greater than zero"@,
        ),
        config_error(H264RecvViewConfig { max_inflight_frames: 0, ..config }) == Some(
            "max-inflight-frames and max-decode-queue must be greater than zero"@,
        ),
        config_error(H264RecvViewConfig { max_decode_queue: 0, ..config }) == Some(
            "max-inflight-frames and max-decode-queue must be greater than zero"@,
        ),
        config_error(H264RecvViewConfig { json_interval_ms: 0, ..config }) == Some(
            "json-interval-ms must be greater than zero"@,
        ),
        config_error(H264RecvViewConfig { title: blank, ..config }) == Some(
            "title must not be empty"@,
        ),
        config_error(H264RecvViewConfig { debug_dump_frames: Some(blank), ..config }) == Some(
            "debug-dump-frames must not be empty"@,
        ),
        config_error(H264RecvViewConfig { debug_dump_limit: 0, ..config }) == Some(
            "debug-dump-limit must be greater than zero"@,
        ),
        config_error(H264RecvViewConfig { nack_delay_ms: 0, ..config }) == Some(
            "invalid NACK timing configuration"@,
        ),
        config_error(H264RecvViewConfig { audio_jitter_buffer_ms: 501, ..config }) == Some(
            "audio-jitter-buffer-ms must be between 0 and 500"@,
        ),
        config_error(H264RecvViewConfig { capability_feedback_ms: 499, ..config }) == Some(
            "adaptive-feedback-ms must be between 500 and 2000"@,
        ),
{
}

/// The viewer goes on until it is asked to end, its time is up, or its window is closed, and
/// notes the last two in that order; a reason that was noted before stays.
pub proof fn law_viewer_goes_on_until_its_end(
    token: CancellationToken,
    stopped: bool,
    time_up: bool,
    closed_by_user: bool,
)
    ensures
        ({
            let (after, goes_on) = turn(token, stopped, time_up, closed_by_user);
            &&& goes_on <==> token.reason is None && !stopped && !time_up && !closed_by_user
            &&& token.reason is Some ==> after == token
            &&& stopped ==> after == token
            &&& token.reason is None && !stopped && time_up ==> after.reason == Some(
                StopReason::Duration,
            )
            &&& token.reason is None && !stopped && !time_up && closed_by_user ==> after.reason
                == Some(StopReason::WindowClosed)
            &&& goes_on ==> after == token
        }),
{
}

/// A run ends with the error that happened while it ran, else with that of its workers, and
/// well without either.
pub proof fn law_first_error_is_told(summary: ReceiverWorkerShutdownSummary)
    ensures
        summary.runtime_error is Some ==> run_result(summary) == Err::<(), Seq<char>>(
            (summary.runtime_error->0)@,
        ),
        summary.runtime_error is None && summary.join_error is Some ==> run_result(summary)
            == Err::<(), Seq<char>>((summary.join_error->0)@),
        summary.runtime_error is None && summary.join_error is None ==> run_result(summary) is Ok,
{
}

/// The workers ended exactly when each of them did, the sound too, and none is left.
pub proof fn law_joined_is_all_of_them(summary: ReceiverWorkerShutdownSummary)
    ensures
        summary.joined() ==> summary.render.is_clean() && summary.network.is_clean()
            && summary.audio@ != "incomplete"@ && summary.retained_workers@.len() == 0
            && summary.join_error is None,
        !summary.joined() ==> !summary.render.is_clean() || !summary.network.is_clean()
            || summary.audio@ == "incomplete"@ || summary.retained_workers@.len() > 0
            || summary.join_error is Some,
{
}

/// Workers that ended cleanly leave nothing to be told; each that did not is told of by its
/// name.
pub proof fn law_unclean_workers_are_named(
    render: WorkerJoinStatus,
    network: WorkerJoinStatus,
    audio: AudioJoin,
    tag: Seq<char>,
    retained: Seq<Seq<char>>,
)
    ensures
        audio !is Incomplete && render.is_clean() && network.is_clean() && retained.len() == 0
            <==> receiver_join_errors(render, network, audio, tag, retained).len() == 0,
        audio !is Incomplete && !render.is_clean() && network.is_clean() && retained.len() == 0
            ==> receiver_join_errors(render, network, audio, tag, retained) == seq![
            "render"@ + " worker shutdown: "@ + render.text(),
        ],
        audio !is Incomplete && render.is_clean() && !network.is_clean() && retained.len() == 0
            ==> receiver_join_errors(render, network, audio, tag, retained) == seq![
            "network"@ + " worker shutdown: "@ + network.text(),
        ],
        audio is Incomplete && render.is_clean() && network.is_clean()
            && retained.len() == 0 ==> receiver_join_errors(render, network, audio, tag, retained)
            == seq![(audio->Incomplete_0)@],
{
}

/// What a name says is what it is read as.
pub proof fn law_sound_of_the_receiver_is_read_back(mode: AudioRecvMode, other: Seq<char>)
    ensures
        AudioRecvMode::named(mode.text()) == Ok::<AudioRecvMode, Seq<char>>(mode),
        AudioRecvMode::named("off"@) == Ok::<AudioRecvMode, Seq<char>>(AudioRecvMode::Off),
        AudioRecvMode::named("on"@) == Ok::<AudioRecvMode, Seq<char>>(AudioRecvMode::On),
        other != "off"@ && other != "on"@ ==> AudioRecvMode::named(other) == Err::<
            AudioRecvMode,
            Seq<char>,
        >("invalid audio mode: "@ + other),
{
    reveal_strlit("off");
    reveal_strlit("on");
    assert("off"@.len() == 3 && "on"@.len() == 2);
}

/// How the workers ended is reported: each of them under its name, and whether all of them
/// and the run ended cleanly.
pub proof fn law_end_of_the_receiver_is_told(summary: ReceiverWorkerShutdownSummary)
    ensures
        ({
            let members = summary.members();
            &&& json::names(members, "worker_join_render"@, summary.render.text())
            &&& json::names(members, "worker_join_network"@, summary.network.text())
            &&& json::names(members, "worker_join_audio"@, summary.audio@)
            &&& json::flags(members, "worker_join_all_clean"@, summary.joined())
            &&& json::flags(members, "runtime_completed_clean"@, summary.runtime_error is None)
            &&& json::flags(
                members,
                "terminal_success"@,
                summary.joined() && summary.runtime_error is None,
            )
            &&& json::counts(
                members,
                "retained_worker_count"@,
                summary.retained_workers@.len() as u64,
            )
            &&& json::counts(members, "cleanup_deadline_ms"@, summary.cleanup_deadline_ms)
            &&& json::names(members, "cleanup_lifecycle_state"@, summary.lifecycle_state@)
        }),
{
    let members = summary.members();
    assert(members[0] is Pair && members[1] is Pair && members[2] is Pair);
    assert(members[3] is Pair && members[5] is Pair && members[7] is Pair);
    assert(members[8] is Pair && members[11] is Pair && members[15] is Pair);
}

} // verus!
