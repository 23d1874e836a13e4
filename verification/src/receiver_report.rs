//! What the receiver reports.
//!
//! Reports are JSON.  Real numbers come written already; what other parts report comes as
//! a fragment.

use vstd::prelude::*;

use crate::choices::AvSyncMode;
use crate::decode_queue::{DecodeQueue, DecodeState, VideoDimensions};
use crate::decode_queue;
use crate::h264_recv_view::{
    H264RecvViewConfig, H264RecvViewMode, ReceiverWorkerShutdownSummary,
};
use crate::json;
use crate::json::{Fragment, Member, Value};
use crate::playout_buffer::{PlayoutBuffer, PlayoutStats};
use crate::readiness::{ReceiverTransitionPhase, TransitionSnapshot};
use crate::receive_loop::LoopState;
use crate::render_worker::{AvSyncState, RenderWorkerState};
use crate::shutdown;
use crate::shutdown::terminal_event_type;
use crate::text;

verus! {

/// What the reassembly of frames counts.
#[derive(Clone, Copy, Debug, PartialEq, Eq, Structural)]
pub struct ReassemblyStats {
    pub frames_missing_after_fec: u64,
    pub frames_dropped_after_fec: u64,
    pub reassembly_frames_active: u64,
    pub reassembly_packets_active: u64,
    pub reassembly_packet_slots_reserved: u64,
    pub reassembly_payload_bytes_reserved: u64,
    pub reassembly_budget_rejected_frames: u64,
    pub reassembly_oversize_frames: u64,
    pub reassembly_allocations_estimate: u64,
    pub reassembly_complete_scan_count: u64,
    pub frames_incomplete_expired: u64,
    pub fec_packets_received: u64,
    pub fec_frames_recovered: u64,
    pub fec_packets_recovered: u64,
    pub fec_recovery_failed_multi_missing: u64,
    pub fec_recovery_failed_no_parity: u64,
    pub fec_recovery_failed_invalid: u64,
    pub next_decode_frame_id: Option<u64>,
    pub decode_gate_stalls: u64,
    pub decode_gate_gap_events: u64,
    pub frames_discarded_decode_gate: u64,
    pub reorder_wait_ms: u64,
    pub nack_requests_cancelled_by_progress: u64,
    pub packets_received: u64,
    pub packets_invalid: u64,
    pub packets_lost_estimate: u64,
    pub frames_complete: u64,
    pub last_frame_id: Option<u64>,
    pub bytes_received: u64,
    pub fec_protected_data_packets_received: u64,
    pub last_damaged_frame_id: Option<u64>,
}

/// What the watch over damaged groups of pictures counts.
#[derive(Clone, Copy, Debug, PartialEq, Eq, Structural)]
pub struct DamagedGopStats {
    pub damaged_gop_count: u64,
    pub frames_discarded_damaged_gop: u64,
    pub frames_discarded_waiting_keyframe: u64,
    pub waiting_keyframe_entries: u64,
    pub waiting_keyframe_exits: u64,
    pub idr_frames_received: u64,
    pub idr_frames_used_for_recovery: u64,
    pub non_idr_frames_discarded_waiting: u64,
    pub recovery_wait_frames_max: u64,
}

/// What sound counts.
#[derive(Debug)]
pub struct AudioReceiveStats {
    pub thread_started: bool,
    pub playback_started: bool,
    pub audio_playhead_valid: bool,
    pub packets_received: u64,
    pub audio_packets_invalid: u64,
    pub audio_packets_dropped_session_mismatch: u64,
    pub audio_session_matched: bool,
    pub audio_session_id: Option<u64>,
    pub expected_video_session_id: Option<u64>,
    pub packets_lost_estimate: u64,
    pub jitter_buffer_target_ms: u64,
    pub audio_playhead_timestamp_us: Option<u64>,
    pub audio_submitted_timestamp_us: Option<u64>,
    pub latest_audio_packet_timestamp_us: Option<u64>,
    pub audio_samples_rendered_total: u64,
    pub audio_media_samples_rendered_total: u64,
    pub audio_media_samples_submitted_total: u64,
    pub audio_media_samples_audible_estimated_total: u64,
    pub audio_samples_queued_current: u64,
    pub audio_samples_dropped_for_latency: u64,
    pub audio_latency_drop_discontinuities: u64,
    pub audio_master_reanchors: u64,
    pub audio_device_padding_frames: u64,
    pub audio_device_padding_valid: bool,
    pub audio_callback_empty_polls: u64,
    pub audio_real_underruns: u64,
    pub audio_silence_filled_frames: u64,
    pub audio_device_silence_filled_frames: u64,
    pub audio_prestart_silence_frames: u64,
    pub audio_poststream_silence_frames: u64,
    pub audio_playhead_discontinuities: u64,
    pub late_packets: u64,
    pub audio_queue_drops: u64,
    pub enabled: bool,
    pub unavailable_reason: Option<String>,
    pub sample_rate: u64,
    pub channels: u64,
}

/// How the queue of the decoder stands.
#[derive(Clone, Copy, Debug, PartialEq, Eq, Structural)]
pub struct QueueSummary {
    pub decode_queue: usize,
    pub decode_queue_peak: usize,
    pub frames_predecode_dropped: u64,
    pub frames_waiting_keyframe_dropped: u64,
    pub keyframe_recovery_count: u64,
    pub last_keyframe_id: Option<u64>,
    pub waiting_keyframe: bool,
    pub complete_frame_queue_drops: u64,
}

/// How the network side of the receiver stands.
#[derive(Clone, Copy, Debug)]
pub struct NetworkSnapshot {
    pub reassembly: ReassemblyStats,
    pub session_id: Option<u64>,
    pub inflight_frames: usize,
    pub completed_waiting: usize,
    pub queue: QueueSummary,
    pub damaged_gop: DamagedGopStats,
    pub drop_damaged_gop: bool,
    pub udp_recv_buffer_bytes: i32,
    pub udp_recv_buffer_bytes_requested: i32,
    pub playout: PlayoutStats,
    pub playout_buffer_frames: usize,
    pub playout_delay_ms: u64,
    pub state: LoopState,
    pub transition: TransitionSnapshot,
}

/// How the reassembly of frames stands.
#[derive(Clone, Copy, Debug, PartialEq, Eq, Structural)]
pub struct ReassemblySummary {
    pub stats: ReassemblyStats,
    pub session_id: Option<u64>,
    pub inflight_frames: usize,
    pub completed_waiting: usize,
}

/// How the watch over damaged groups of pictures stands.
#[derive(Clone, Copy, Debug, PartialEq, Eq, Structural)]
pub struct DamageSummary {
    pub stats: DamagedGopStats,
    pub waiting_keyframe: bool,
    pub enabled: bool,
}

impl NetworkSnapshot {
    /// The snapshot brought up to date.  The buffers of the socket and the transition stay
    /// as they are known, but a profile that is announced counts as a transition.
    pub open spec fn updated(
        self,
        reassembly: ReassemblySummary,
        queue: decode_queue::QueueModel,
        damage: DamageSummary,
        playout: crate::playout_buffer::PlayoutModel,
        state: LoopState,
    ) -> NetworkSnapshot {
        let pending = state.profile.pending.present;
        NetworkSnapshot {
            reassembly: reassembly.stats,
            session_id: reassembly.session_id,
            inflight_frames: reassembly.inflight_frames,
            completed_waiting: reassembly.completed_waiting,
            queue: QueueSummary {
                decode_queue: decode_queue::frame_count(queue.items) as usize,
                decode_queue_peak: queue.decode_queue_peak,
                frames_predecode_dropped: queue.frames_predecode_dropped,
                frames_waiting_keyframe_dropped: queue.frames_waiting_keyframe_dropped,
                keyframe_recovery_count: queue.keyframe_recovery_count,
                last_keyframe_id: queue.last_keyframe_id,
                waiting_keyframe: queue.waiting_for_keyframe || damage.waiting_keyframe,
                complete_frame_queue_drops: queue.complete_frame_queue_drops,
            },
            damaged_gop: damage.stats,
            drop_damaged_gop: damage.enabled,
            udp_recv_buffer_bytes: self.udp_recv_buffer_bytes,
            udp_recv_buffer_bytes_requested: self.udp_recv_buffer_bytes_requested,
            playout: playout.stats,
            playout_buffer_frames: playout.frames.len() as usize,
            playout_delay_ms: playout.delay_ms,
            state,
            transition: TransitionSnapshot {
                profile_transition_active: pending || self.transition.profile_transition_active,
                profile_transition_phase: if pending {
                    ReceiverTransitionPhase::AwaitNewSessionData
                } else {
                    self.transition.profile_transition_phase
                },
                ..self.transition
            },
        }
    }

    /// Brings the snapshot up to date.
    pub fn update_network_snapshot(
        &mut self,
        reassembly: ReassemblySummary,
        queue: &DecodeQueue,
        damage: DamageSummary,
        playout: &PlayoutBuffer,
        state: LoopState,
    )
        ensures
            *final(self) == old(self).updated(reassembly, queue@, damage, playout@, state),
    {
        let pending: bool = state.profile.pending.present;
        let mut transition: TransitionSnapshot = self.transition;
        if pending {
            transition.profile_transition_active = true;
            transition.profile_transition_phase = ReceiverTransitionPhase::AwaitNewSessionData;
        }
        *self =
        NetworkSnapshot {
            reassembly: reassembly.stats,
            session_id: reassembly.session_id,
            inflight_frames: reassembly.inflight_frames,
            completed_waiting: reassembly.completed_waiting,
            queue: QueueSummary {
                decode_queue: queue.frame_len(),
                decode_queue_peak: queue.decode_queue_peak,
                frames_predecode_dropped: queue.frames_predecode_dropped,
                frames_waiting_keyframe_dropped: queue.frames_waiting_keyframe_dropped,
                keyframe_recovery_count: queue.keyframe_recovery_count,
                last_keyframe_id: queue.last_keyframe_id,
                waiting_keyframe: queue.waiting_for_keyframe || damage.waiting_keyframe,
                complete_frame_queue_drops: queue.complete_frame_queue_drops,
            },
            damaged_gop: damage.stats,
            drop_damaged_gop: damage.enabled,
            udp_recv_buffer_bytes: self.udp_recv_buffer_bytes,
            udp_recv_buffer_bytes_requested: self.udp_recv_buffer_bytes_requested,
            playout: playout.stats(),
            playout_buffer_frames: playout.len(),
            playout_delay_ms: playout.delay_ms(),
            state,
            transition,
        };
    }

    /// Takes over how the transition stands.
    pub fn write_transition_snapshot(&mut self, transition: TransitionSnapshot)
        ensures
            *final(self) == (NetworkSnapshot { transition, ..*old(self) }),
    {
        self.transition = transition;
    }
}

/// What the viewer counts.
#[derive(Clone, Copy, Debug)]
pub struct ViewerStats {
    pub frames_decoded: u64,
    pub frames_decoder_input: u64,
    pub frames_rendered: u64,
    pub frames_render_skipped: u64,
    pub frames_decoded_not_rendered: u64,
    pub frames_predecode_dropped: u64,
    pub frames_waiting_keyframe_dropped: u64,
    pub keyframe_recovery_count: u64,
    pub decoder_errors: u64,
    pub decoder_resets: u64,
    pub decoder_configured_fps: u32,
    pub render_queue_peak: usize,
    pub decoded_frame_queue_len: usize,
    pub decoded_frame_queue_drops: u64,
    pub render_frame_copies: u64,
    pub render_buffer_reused: u64,
    pub render_buffer_generation: u64,
    pub nv12_y_stride: usize,
    pub nv12_uv_stride: usize,
    pub nv12_uv_offset: usize,
    pub nv12_allocated_height: usize,
    pub nv12_buffer_len: usize,
    pub expected_tight_len: usize,
    pub decoder_used_2d_buffer: bool,
    pub video_frames_dropped_for_av_sync: u64,
    pub video_frames_held_for_av_sync: u64,
    pub av_sync_offset_samples: u64,
    pub video_sync_gating_enabled: bool,
    pub av_sync_state_transitions: u64,
    pub av_sync_forced_release_count: u64,
    pub av_sync_hold_epoch_ms: u64,
    pub av_sync_mode: AvSyncMode,
    pub av_sync_state: AvSyncState,
    pub av_sync_bypass_reason: Option<&'static str>,
    pub decoder_sample_duration_us: u64,
    pub display_generation: u64,
}

impl ViewerStats {
    /// With what the decoder counts.
    pub open spec fn with_decoder(self, decoder: DecodeState) -> ViewerStats {
        ViewerStats {
            frames_decoded: decoder.counters.frames_decoded,
            frames_decoder_input: decoder.counters.frames_decoder_input,
            frames_waiting_keyframe_dropped: decoder.counters.frames_waiting_keyframe_dropped,
            keyframe_recovery_count: decoder.counters.keyframe_recovery_count,
            decoder_errors: decoder.counters.decoder_errors,
            decoder_resets: decoder.counters.decoder_resets,
            render_buffer_generation: decoder.next_render_generation,
            ..self
        }
    }

    /// Takes over what the decoder counts.
    pub fn sync_decoder_stats(&mut self, decoder: &DecodeState)
        ensures
            *final(self) == old(self).with_decoder(*decoder),
    {
        self.frames_decoded = decoder.counters.frames_decoded;
        self.frames_decoder_input = decoder.counters.frames_decoder_input;
        self.frames_waiting_keyframe_dropped = decoder.counters.frames_waiting_keyframe_dropped;
        self.keyframe_recovery_count = decoder.counters.keyframe_recovery_count;
        self.decoder_errors = decoder.counters.decoder_errors;
        self.decoder_resets = decoder.counters.decoder_resets;
        self.render_buffer_generation = decoder.next_render_generation;
    }

    /// With what the renderer counts.
    pub open spec fn with_renderer(self, state: RenderWorkerState) -> ViewerStats {
        ViewerStats {
            frames_rendered: state.frames_rendered,
            frames_decoded_not_rendered: state.frames_replaced,
            frames_render_skipped: state.frames_replaced,
            render_queue_peak: state.queue_peak,
            decoded_frame_queue_len: if state.pending is Some {
                1
            } else {
                0
            },
            decoded_frame_queue_drops: state.frames_replaced,
            render_buffer_reused: state.frames_replaced,
            video_frames_dropped_for_av_sync: state.video_frames_dropped_for_av_sync,
            video_frames_held_for_av_sync: state.video_frames_held_for_av_sync,
            av_sync_offset_samples: state.av_sync_offset_samples,
            video_sync_gating_enabled: state.video_sync_gating_enabled,
            av_sync_mode: state.av_sync_mode,
            av_sync_state: state.av_sync_state,
            av_sync_bypass_reason: state.av_sync_bypass_reason,
            av_sync_state_transitions: state.av_sync_state_transitions,
            av_sync_forced_release_count: state.av_sync_forced_release_count,
            av_sync_hold_epoch_ms: state.av_sync_hold_epoch_ms,
            ..self
        }
    }

    /// Takes over what the renderer counts.
    pub fn sync_render_worker_stats(&mut self, state: &RenderWorkerState)
        ensures
            *final(self) == old(self).with_renderer(*state),
    {
        self.frames_rendered = state.frames_rendered;
        self.frames_decoded_not_rendered = state.frames_replaced;
        self.frames_render_skipped = state.frames_replaced;
        self.render_queue_peak = state.queue_peak;
        self.decoded_frame_queue_len = if state.pending.is_some() {
            1
        } else {
            0
        };
        self.decoded_frame_queue_drops = state.frames_replaced;
        self.render_buffer_reused = state.frames_replaced;
        self.video_frames_dropped_for_av_sync = state.video_frames_dropped_for_av_sync;
        self.video_frames_held_for_av_sync = state.video_frames_held_for_av_sync;
        self.av_sync_offset_samples = state.av_sync_offset_samples;
        self.video_sync_gating_enabled = state.video_sync_gating_enabled;
        self.av_sync_mode = state.av_sync_mode;
        self.av_sync_state = state.av_sync_state;
        self.av_sync_bypass_reason = state.av_sync_bypass_reason;
        self.av_sync_state_transitions = state.av_sync_state_transitions;
        self.av_sync_forced_release_count = state.av_sync_forced_release_count;
        self.av_sync_hold_epoch_ms = state.av_sync_hold_epoch_ms;
    }
}

/// `a`, or `b` where there is none.
pub open spec fn either(a: Option<u64>, b: Option<u64>) -> Option<u64> {
    match a {
        Some(_) => a,
        None => b,
    }
}

fn first_of(a: Option<u64>, b: Option<u64>) -> (r: Option<u64>)
    ensures
        r == either(a, b),
{
    match a {
        Some(_) => a,
        None => b,
    }
}

pub open spec fn stage_name(stage: Option<ReceiverTransitionPhase>) -> Option<Seq<char>> {
    match stage {
        Some(stage) => Some(stage.text()),
        None => None,
    }
}

fn stage_text(stage: Option<ReceiverTransitionPhase>) -> (r: Option<&'static str>)
    ensures
        json::optional_view(r) == stage_name(stage),
{
    match stage {
        Some(stage) => Some(stage.name()),
        None => None,
    }
}

/// Whether anything of the stream is protected by error correction.
pub open spec fn fec_mode(snapshot: &NetworkSnapshot) -> Seq<char> {
    if snapshot.reassembly.fec_packets_received > 0
        || snapshot.reassembly.fec_protected_data_packets_received > 0 {
        "single-xor"@
    } else {
        "off"@
    }
}

fn fec_mode_name(snapshot: &NetworkSnapshot) -> (r: &'static str)
    ensures
        r@ == fec_mode(snapshot),
{
    if snapshot.reassembly.fec_packets_received > 0
        || snapshot.reassembly.fec_protected_data_packets_received > 0 {
        "single-xor"
    } else {
        "off"
    }
}

/// Real numbers of `audio_receiver_fragment`, written in decimals.
#[derive(Debug)]
pub struct AudioReceiverFragmentTexts {
    pub audio_jitter_buffer_ms: String,
    pub audio_jitter_buffer_ms_current: String,
    pub audio_jitter_buffer_ms_avg: String,
    pub audio_jitter_buffer_ms_max: String,
    pub audio_queue_depth_ms: String,
    pub audio_device_padding_ms: String,
    pub audio_packet_parse_ms_avg: String,
    pub audio_packet_parse_ms_max: String,
    pub av_sync_offset_ms_avg: String,
    pub av_sync_offset_ms_max: String,
}

/// The first part of `audio_receiver_fragment`.
pub open spec fn audio_receiver_fragment_first(
    audio: &AudioReceiveStats,
    stats: &ViewerStats,
) -> Seq<Member> {
    seq![
        Member::Pair(
            "audio_enabled"@,
            Value::Flag(audio.enabled && audio.unavailable_reason is None),
        ),
        Member::Pair("audio_thread_started"@, Value::Flag(audio.thread_started)),
        Member::Pair("audio_playback_started"@, Value::Flag(audio.playback_started)),
        Member::Pair("audio_playhead_valid"@, Value::Flag(audio.audio_playhead_valid)),
        Member::Pair("audio_master_valid"@, Value::Flag(audio.audio_playhead_valid)),
        Member::Pair(
            "audio_master_invalid_reason"@,
            Value::MaybeQuoted(json::optional_view(stats.av_sync_bypass_reason)),
        ),
        Member::Pair(
            "audio_prebuffering"@,
            Value::Flag(audio.thread_started && !audio.playback_started),
        ),
        Member::Pair(
            "av_sync_enabled"@,
            Value::Flag(
                stats.av_sync_mode == AvSyncMode::Conservative && audio.thread_started
                    && audio.unavailable_reason is None,
            ),
        ),
        Member::Pair("av_sync_mode"@, Value::Name(stats.av_sync_mode.text())),
        Member::Pair("av_sync_state"@, Value::Name(stats.av_sync_state.text())),
        Member::Pair(
            "av_sync_bypass_reason"@,
            Value::MaybeQuoted(json::optional_view(stats.av_sync_bypass_reason)),
        ),
        Member::Pair(
            "av_sync_state_transitions"@,
            Value::Number(stats.av_sync_state_transitions),
        ),
        Member::Pair(
            "av_sync_forced_release_count"@,
            Value::Number(stats.av_sync_forced_release_count),
        ),
        Member::Pair("av_sync_hold_epoch_ms"@, Value::Number(stats.av_sync_hold_epoch_ms)),
        Member::Pair("video_sync_gating_enabled"@, Value::Flag(stats.video_sync_gating_enabled)),
        Member::Pair("audio_packets_received"@, Value::Number(audio.packets_received)),
        Member::Pair("audio_packets_invalid"@, Value::Number(audio.audio_packets_invalid)),
        Member::Pair(
            "audio_packets_dropped_session_mismatch"@,
            Value::Number(audio.audio_packets_dropped_session_mismatch),
        ),
        Member::Pair("audio_session_matched"@, Value::Flag(audio.audio_session_matched)),
        Member::Pair("audio_session_id"@, Value::Maybe(audio.audio_session_id)),
    ]
}

fn add_audio_receiver_fragment_first(
    members: Fragment,
    audio: &AudioReceiveStats,
    stats: &ViewerStats,
) -> (r: Fragment)
    ensures
        r@ == members@ + audio_receiver_fragment_first(audio, stats),
{
    let ghost before = members@;
    let r: Fragment = members
        .flag("audio_enabled", audio.enabled && audio.unavailable_reason.is_none())
        .flag("audio_thread_started", audio.thread_started)
        .flag("audio_playback_started", audio.playback_started)
        .flag("audio_playhead_valid", audio.audio_playhead_valid)
        .flag("audio_master_valid", audio.audio_playhead_valid)
        .maybe_quoted("audio_master_invalid_reason", stats.av_sync_bypass_reason)
        .flag("audio_prebuffering", audio.thread_started && !audio.playback_started)
        .flag(
            "av_sync_enabled",
            stats.av_sync_mode == AvSyncMode::Conservative && audio.thread_started
                && audio.unavailable_reason.is_none(),
        )
        .name("av_sync_mode", stats.av_sync_mode.name())
        .name("av_sync_state", stats.av_sync_state.name())
        .maybe_quoted("av_sync_bypass_reason", stats.av_sync_bypass_reason)
        .number("av_sync_state_transitions", stats.av_sync_state_transitions)
        .number("av_sync_forced_release_count", stats.av_sync_forced_release_count)
        .number("av_sync_hold_epoch_ms", stats.av_sync_hold_epoch_ms)
        .flag("video_sync_gating_enabled", stats.video_sync_gating_enabled)
        .number("audio_packets_received", audio.packets_received)
        .number("audio_packets_invalid", audio.audio_packets_invalid)
        .number(
            "audio_packets_dropped_session_mismatch",
            audio.audio_packets_dropped_session_mismatch,
        )
        .flag("audio_session_matched", audio.audio_session_matched)
        .maybe("audio_session_id", audio.audio_session_id);
    assert(r@ =~= before + audio_receiver_fragment_first(audio, stats));
    r
}

/// The second part of `audio_receiver_fragment`.
pub open spec fn audio_receiver_fragment_second(
    audio: &AudioReceiveStats,
    texts: &AudioReceiverFragmentTexts,
) -> Seq<Member> {
    seq![
        Member::Pair("expected_video_session_id"@, Value::Maybe(audio.expected_video_session_id)),
        Member::Pair("audio_packets_lost_estimate"@, Value::Number(audio.packets_lost_estimate)),
        Member::Pair("audio_jitter_buffer_ms"@, Value::Raw(texts.audio_jitter_buffer_ms@)),
        Member::Pair(
            "audio_jitter_buffer_ms_current"@,
            Value::Raw(texts.audio_jitter_buffer_ms_current@),
        ),
        Member::Pair(
            "audio_jitter_buffer_ms_avg"@,
            Value::Raw(texts.audio_jitter_buffer_ms_avg@),
        ),
        Member::Pair(
            "audio_jitter_buffer_ms_max"@,
            Value::Raw(texts.audio_jitter_buffer_ms_max@),
        ),
        Member::Pair(
            "audio_jitter_buffer_target_ms"@,
            Value::Number(audio.jitter_buffer_target_ms),
        ),
        Member::Pair("audio_queue_depth_ms"@, Value::Raw(texts.audio_queue_depth_ms@)),
        Member::Pair(
            "audio_playhead_timestamp_us"@,
            Value::Maybe(audio.audio_playhead_timestamp_us),
        ),
        Member::Pair(
            "audio_submitted_timestamp_us"@,
            Value::Maybe(audio.audio_submitted_timestamp_us),
        ),
        Member::Pair(
            "latest_audio_packet_timestamp_us"@,
            Value::Maybe(audio.latest_audio_packet_timestamp_us),
        ),
        Member::Pair(
            "audio_samples_rendered_total"@,
            Value::Number(audio.audio_samples_rendered_total),
        ),
        Member::Pair(
            "audio_device_frames_submitted_total"@,
            Value::Number(audio.audio_samples_rendered_total),
        ),
        Member::Pair(
            "audio_media_samples_rendered_total"@,
            Value::Number(audio.audio_media_samples_rendered_total),
        ),
        Member::Pair(
            "audio_media_samples_submitted_total"@,
            Value::Number(audio.audio_media_samples_submitted_total),
        ),
        Member::Pair(
            "audio_media_samples_audible_estimated_total"@,
            Value::Number(audio.audio_media_samples_audible_estimated_total),
        ),
        Member::Pair(
            "audio_samples_queued_current"@,
            Value::Number(audio.audio_samples_queued_current),
        ),
        Member::Pair(
            "audio_samples_dropped_for_latency"@,
            Value::Number(audio.audio_samples_dropped_for_latency),
        ),
        Member::Pair(
            "audio_latency_drop_discontinuities"@,
            Value::Number(audio.audio_latency_drop_discontinuities),
        ),
        Member::Pair("audio_master_reanchors"@, Value::Number(audio.audio_master_reanchors)),
    ]
}

fn add_audio_receiver_fragment_second(
    members: Fragment,
    audio: &AudioReceiveStats,
    texts: &AudioReceiverFragmentTexts,
) -> (r: Fragment)
    ensures
        r@ == members@ + audio_receiver_fragment_second(audio, texts),
{
    let ghost before = members@;
    let r: Fragment = members
        .maybe("expected_video_session_id", audio.expected_video_session_id)
        .number("audio_packets_lost_estimate", audio.packets_lost_estimate)
        .raw("audio_jitter_buffer_ms", texts.audio_jitter_buffer_ms.as_str())
        .raw("audio_jitter_buffer_ms_current", texts.audio_jitter_buffer_ms_current.as_str())
        .raw("audio_jitter_buffer_ms_avg", texts.audio_jitter_buffer_ms_avg.as_str())
        .raw("audio_jitter_buffer_ms_max", texts.audio_jitter_buffer_ms_max.as_str())
        .number("audio_jitter_buffer_target_ms", audio.jitter_buffer_target_ms)
        .raw("audio_queue_depth_ms", texts.audio_queue_depth_ms.as_str())
        .maybe("audio_playhead_timestamp_us", audio.audio_playhead_timestamp_us)
        .maybe("audio_submitted_timestamp_us", audio.audio_submitted_timestamp_us)
        .maybe("latest_audio_packet_timestamp_us", audio.latest_audio_packet_timestamp_us)
        .number("audio_samples_rendered_total", audio.audio_samples_rendered_total)
        .number("audio_device_frames_submitted_total", audio.audio_samples_rendered_total)
        .number("audio_media_samples_rendered_total", audio.audio_media_samples_rendered_total)
        .number("audio_media_samples_submitted_total", audio.audio_media_samples_submitted_total)
        .number(
            "audio_media_samples_audible_estimated_total",
            audio.audio_media_samples_audible_estimated_total,
        )
        .number("audio_samples_queued_current", audio.audio_samples_queued_current)
        .number("audio_samples_dropped_for_latency", audio.audio_samples_dropped_for_latency)
        .number("audio_latency_drop_discontinuities", audio.audio_latency_drop_discontinuities)
        .number("audio_master_reanchors", audio.audio_master_reanchors);
    assert(r@ =~= before + audio_receiver_fragment_second(audio, texts));
    r
}

/// The third part of `audio_receiver_fragment`.
pub open spec fn audio_receiver_fragment_third(
    audio: &AudioReceiveStats,
    texts: &AudioReceiverFragmentTexts,
) -> Seq<Member> {
    seq![
        Member::Pair(
            "audio_device_padding_frames"@,
            Value::Number(audio.audio_device_padding_frames),
        ),
        Member::Pair("audio_device_padding_ms"@, Value::Raw(texts.audio_device_padding_ms@)),
        Member::Pair(
            "audio_device_padding_valid"@,
            Value::Flag(audio.audio_device_padding_valid),
        ),
        Member::Pair(
            "audio_callback_empty_polls"@,
            Value::Number(audio.audio_callback_empty_polls),
        ),
        Member::Pair("audio_real_underruns"@, Value::Number(audio.audio_real_underruns)),
        Member::Pair("audio_underruns"@, Value::Number(audio.audio_real_underruns)),
        Member::Pair(
            "audio_silence_filled_frames"@,
            Value::Number(audio.audio_silence_filled_frames),
        ),
        Member::Pair(
            "audio_device_silence_filled_frames"@,
            Value::Number(audio.audio_device_silence_filled_frames),
        ),
        Member::Pair(
            "audio_prestart_silence_frames"@,
            Value::Number(audio.audio_prestart_silence_frames),
        ),
        Member::Pair(
            "audio_poststream_silence_frames"@,
            Value::Number(audio.audio_poststream_silence_frames),
        ),
        Member::Pair(
            "audio_playhead_discontinuities"@,
            Value::Number(audio.audio_playhead_discontinuities),
        ),
        Member::Pair("audio_late_packets"@, Value::Number(audio.late_packets)),
        Member::Pair("audio_packet_parse_ms_avg"@, Value::Raw(texts.audio_packet_parse_ms_avg@)),
        Member::Pair("audio_packet_parse_ms_max"@, Value::Raw(texts.audio_packet_parse_ms_max@)),
        Member::Pair("audio_queue_drops"@, Value::Number(audio.audio_queue_drops)),
        Member::Pair(
            "audio_unavailable_reason"@,
            Value::MaybeQuoted(text::optional(audio.unavailable_reason)),
        ),
        Member::Pair("audio_sample_rate"@, Value::Number(audio.sample_rate)),
        Member::Pair("audio_channels"@, Value::Number(audio.channels)),
        Member::Pair("av_sync_offset_ms_avg"@, Value::Raw(texts.av_sync_offset_ms_avg@)),
        Member::Pair("av_sync_offset_ms_max"@, Value::Raw(texts.av_sync_offset_ms_max@)),
    ]
}

fn add_audio_receiver_fragment_third(
    members: Fragment,
    audio: &AudioReceiveStats,
    texts: &AudioReceiverFragmentTexts,
) -> (r: Fragment)
    ensures
        r@ == members@ + audio_receiver_fragment_third(audio, texts),
{
    let ghost before = members@;
    let r: Fragment = members
        .number("audio_device_padding_frames", audio.audio_device_padding_frames)
        .raw("audio_device_padding_ms", texts.audio_device_padding_ms.as_str())
        .flag("audio_device_padding_valid", audio.audio_device_padding_valid)
        .number("audio_callback_empty_polls", audio.audio_callback_empty_polls)
        .number("audio_real_underruns", audio.audio_real_underruns)
        .number("audio_underruns", audio.audio_real_underruns)
        .number("audio_silence_filled_frames", audio.audio_silence_filled_frames)
        .number("audio_device_silence_filled_frames", audio.audio_device_silence_filled_frames)
        .number("audio_prestart_silence_frames", audio.audio_prestart_silence_frames)
        .number("audio_poststream_silence_frames", audio.audio_poststream_silence_frames)
        .number("audio_playhead_discontinuities", audio.audio_playhead_discontinuities)
        .number("audio_late_packets", audio.late_packets)
        .raw("audio_packet_parse_ms_avg", texts.audio_packet_parse_ms_avg.as_str())
        .raw("audio_packet_parse_ms_max", texts.audio_packet_parse_ms_max.as_str())
        .number("audio_queue_drops", audio.audio_queue_drops)
        .maybe_quoted("audio_unavailable_reason", json::borrowed(&audio.unavailable_reason))
        .number("audio_sample_rate", audio.sample_rate)
        .number("audio_channels", audio.channels)
        .raw("av_sync_offset_ms_avg", texts.av_sync_offset_ms_avg.as_str())
        .raw("av_sync_offset_ms_max", texts.av_sync_offset_ms_max.as_str());
    assert(r@ =~= before + audio_receiver_fragment_third(audio, texts));
    r
}

/// The fourth part of `audio_receiver_fragment`.
pub open spec fn audio_receiver_fragment_fourth(stats: &ViewerStats) -> Seq<Member> {
    seq![
        Member::Pair(
            "video_frames_dropped_for_av_sync"@,
            Value::Number(stats.video_frames_dropped_for_av_sync),
        ),
        Member::Pair(
            "video_frames_held_for_av_sync"@,
            Value::Number(stats.video_frames_held_for_av_sync),
        ),
        Member::Pair(
            "video_frames_actually_dropped"@,
            Value::Number(stats.video_frames_dropped_for_av_sync),
        ),
        Member::Pair(
            "video_frames_actually_held"@,
            Value::Number(stats.video_frames_held_for_av_sync),
        ),
    ]
}

fn add_audio_receiver_fragment_fourth(members: Fragment, stats: &ViewerStats) -> (r: Fragment)
    ensures
        r@ == members@ + audio_receiver_fragment_fourth(stats),
{
    let ghost before = members@;
    let r: Fragment = members
        .number("video_frames_dropped_for_av_sync", stats.video_frames_dropped_for_av_sync)
        .number("video_frames_held_for_av_sync", stats.video_frames_held_for_av_sync)
        .number("video_frames_actually_dropped", stats.video_frames_dropped_for_av_sync)
        .number("video_frames_actually_held", stats.video_frames_held_for_av_sync);
    assert(r@ =~= before + audio_receiver_fragment_fourth(stats));
    r
}

/// What became of the sound.
pub open spec fn audio_receiver_fragment_members(
    audio: &AudioReceiveStats,
    stats: &ViewerStats,
    texts: &AudioReceiverFragmentTexts,
) -> Seq<Member> {
    audio_receiver_fragment_first(audio, stats)
        + audio_receiver_fragment_second(audio, texts)
        + audio_receiver_fragment_third(audio, texts)
        + audio_receiver_fragment_fourth(stats)
}

/// What became of the sound.
pub fn audio_receiver_fragment(
    audio: &AudioReceiveStats,
    stats: &ViewerStats,
    texts: &AudioReceiverFragmentTexts,
) -> (r: String)
    ensures
        r@ == json::render(audio_receiver_fragment_members(audio, stats, texts)),
{
    let members: Fragment = Fragment::new();
    let members: Fragment = add_audio_receiver_fragment_first(members, audio, stats);
    let members: Fragment = add_audio_receiver_fragment_second(members, audio, texts);
    let members: Fragment = add_audio_receiver_fragment_third(members, audio, texts);
    let members: Fragment = add_audio_receiver_fragment_fourth(members, stats);
    assert(members@ =~= audio_receiver_fragment_members(audio, stats, texts));
    members.finish()
}

/// How many packets of each kind came.
pub open spec fn dispatch_counts(snapshot: &NetworkSnapshot) -> Seq<Member> {
    seq![
        Member::Pair(
            "video_data"@,
            Value::Number(snapshot.state.dispatch.video_data_packets_received),
        ),
        Member::Pair(
            "video_fec"@,
            Value::Number(snapshot.state.dispatch.video_fec_packets_received),
        ),
        Member::Pair("audio"@, Value::Number(snapshot.state.dispatch.audio_packets_received)),
        Member::Pair("unknown"@, Value::Number(snapshot.state.dispatch.unknown_packets_received)),
        Member::Pair(
            "nack_control"@,
            Value::Number(snapshot.state.dispatch.nack_control_packets_received),
        ),
    ]
}

/// Real numbers of `receiver_repair_fragment`, written in decimals.
#[derive(Debug)]
pub struct ReceiverRepairFragmentTexts {
    pub nack_items_per_requested_frame_avg: String,
    pub repair_deadline_ms_avg: String,
    pub repair_deadline_ms_max: String,
    pub repair_wait_ms_avg: String,
    pub repair_wait_ms_max: String,
    pub repair_overhead_ratio_vs_data: String,
}

/// The first part of `receiver_repair_fragment`.
pub open spec fn receiver_repair_fragment_first(
    snapshot: &NetworkSnapshot,
    texts: &ReceiverRepairFragmentTexts,
) -> Seq<Member> {
    seq![
        Member::Pair("repair_mode"@, Value::Name(snapshot.state.repair_mode.text())),
        Member::Pair(
            "video_data_packets_received"@,
            Value::Number(snapshot.state.dispatch.video_data_packets_received),
        ),
        Member::Pair(
            "video_fec_packets_received"@,
            Value::Number(snapshot.state.dispatch.video_fec_packets_received),
        ),
        Member::Pair(
            "audio_packets_received"@,
            Value::Number(snapshot.state.dispatch.audio_packets_received),
        ),
        Member::Pair(
            "unknown_packets_received"@,
            Value::Number(snapshot.state.dispatch.unknown_packets_received),
        ),
        Member::Pair(
            "nack_control_packets_received"@,
            Value::Number(snapshot.state.dispatch.nack_control_packets_received),
        ),
        Member::Pair(
            "packet_type_dispatch_counts"@,
            Value::Raw(json::object(dispatch_counts(snapshot))),
        ),
        Member::Pair(
            "nack_packets_sent"@,
            Value::Number(snapshot.state.repair.nack_packets_sent),
        ),
        Member::Pair("nack_items_sent"@, Value::Number(snapshot.state.repair.nack_items_sent)),
        Member::Pair(
            "nack_frames_requested"@,
            Value::Number(snapshot.state.repair.nack_frames_requested),
        ),
        Member::Pair("nack_rounds_sent"@, Value::Number(snapshot.state.repair.nack_rounds_sent)),
        Member::Pair(
            "nack_candidate_frames"@,
            Value::Number(snapshot.state.repair.nack_candidate_frames),
        ),
        Member::Pair(
            "nack_suppressed_progressing_frames"@,
            Value::Number(snapshot.state.repair.nack_suppressed_progressing_frames),
        ),
        Member::Pair(
            "nack_suppressed_too_early"@,
            Value::Number(snapshot.state.repair.nack_suppressed_too_early),
        ),
        Member::Pair(
            "nack_suppressed_already_requested"@,
            Value::Number(snapshot.state.repair.nack_suppressed_already_requested),
        ),
        Member::Pair(
            "nack_suppressed_item_limit"@,
            Value::Number(snapshot.state.repair.nack_suppressed_item_limit),
        ),
        Member::Pair(
            "nack_items_deduped"@,
            Value::Number(snapshot.state.repair.nack_items_deduped),
        ),
        Member::Pair(
            "nack_items_per_requested_frame_avg"@,
            Value::Raw(texts.nack_items_per_requested_frame_avg@),
        ),
        Member::Pair(
            "nack_items_per_requested_frame_max"@,
            Value::Number(snapshot.state.repair.nack_items_per_requested_frame_max),
        ),
        Member::Pair(
            "repair_packets_received"@,
            Value::Number(snapshot.state.repair.repair_packets_received),
        ),
    ]
}

fn add_receiver_repair_fragment_first(
    members: Fragment,
    snapshot: &NetworkSnapshot,
    texts: &ReceiverRepairFragmentTexts,
) -> (r: Fragment)
    ensures
        r@ == members@ + receiver_repair_fragment_first(snapshot, texts),
{
    let tally: Fragment = Fragment::new()
        .number("video_data", snapshot.state.dispatch.video_data_packets_received)
        .number("video_fec", snapshot.state.dispatch.video_fec_packets_received)
        .number("audio", snapshot.state.dispatch.audio_packets_received)
        .number("unknown", snapshot.state.dispatch.unknown_packets_received)
        .number("nack_control", snapshot.state.dispatch.nack_control_packets_received);
    assert(tally@ =~= dispatch_counts(snapshot));
    let counts: String = tally.finish_object();
    let ghost before = members@;
    let r: Fragment = members
        .name("repair_mode", snapshot.state.repair_mode.name())
        .number(
            "video_data_packets_received",
            snapshot.state.dispatch.video_data_packets_received,
        )
        .number("video_fec_packets_received", snapshot.state.dispatch.video_fec_packets_received)
        .number("audio_packets_received", snapshot.state.dispatch.audio_packets_received)
        .number("unknown_packets_received", snapshot.state.dispatch.unknown_packets_received)
        .number(
            "nack_control_packets_received",
            snapshot.state.dispatch.nack_control_packets_received,
        )
        .raw("packet_type_dispatch_counts", counts.as_str())
        .number("nack_packets_sent", snapshot.state.repair.nack_packets_sent)
        .number("nack_items_sent", snapshot.state.repair.nack_items_sent)
        .number("nack_frames_requested", snapshot.state.repair.nack_frames_requested)
        .number("nack_rounds_sent", snapshot.state.repair.nack_rounds_sent)
        .number("nack_candidate_frames", snapshot.state.repair.nack_candidate_frames)
        .number(
            "nack_suppressed_progressing_frames",
            snapshot.state.repair.nack_suppressed_progressing_frames,
        )
        .number("nack_suppressed_too_early", snapshot.state.repair.nack_suppressed_too_early)
        .number(
            "nack_suppressed_already_requested",
            snapshot.state.repair.nack_suppressed_already_requested,
        )
        .number("nack_suppressed_item_limit", snapshot.state.repair.nack_suppressed_item_limit)
        .number("nack_items_deduped", snapshot.state.repair.nack_items_deduped)
        .raw(
            "nack_items_per_requested_frame_avg",
            texts.nack_items_per_requested_frame_avg.as_str(),
        )
        .number(
            "nack_items_per_requested_frame_max",
            snapshot.state.repair.nack_items_per_requested_frame_max,
        )
        .number("repair_packets_received", snapshot.state.repair.repair_packets_received);
    assert(r@ =~= before + receiver_repair_fragment_first(snapshot, texts));
    r
}

/// The second part of `receiver_repair_fragment`.
pub open spec fn receiver_repair_fragment_second(
    snapshot: &NetworkSnapshot,
    texts: &ReceiverRepairFragmentTexts,
) -> Seq<Member> {
    seq![
        Member::Pair(
            "repair_packets_inserted"@,
            Value::Number(snapshot.state.repair.repair_packets_inserted),
        ),
        Member::Pair(
            "repair_packets_matched_inflight"@,
            Value::Number(snapshot.state.repair.repair_packets_inserted),
        ),
        Member::Pair(
            "repair_duplicate_packets"@,
            Value::Number(snapshot.state.repair.repair_duplicate_packets),
        ),
        Member::Pair(
            "repair_packets_dropped_wrong_type"@,
            Value::Number(snapshot.state.dispatch.repair_packets_dropped_wrong_type),
        ),
        Member::Pair(
            "repair_packets_dropped_late"@,
            Value::Number(snapshot.state.dispatch.repair_packets_dropped_late),
        ),
        Member::Pair(
            "repair_packets_dropped_no_frame"@,
            Value::Number(snapshot.state.dispatch.repair_packets_dropped_no_frame),
        ),
        Member::Pair(
            "repair_late_packets"@,
            Value::Number(snapshot.state.dispatch.repair_packets_dropped_late),
        ),
        Member::Pair(
            "repair_frames_completed"@,
            Value::Number(snapshot.state.repair.repair_frames_completed),
        ),
        Member::Pair(
            "repair_deadline_missed"@,
            Value::Number(snapshot.state.repair.repair_deadline_missed),
        ),
        Member::Pair("repair_deadline_ms_avg"@, Value::Raw(texts.repair_deadline_ms_avg@)),
        Member::Pair("repair_deadline_ms_max"@, Value::Raw(texts.repair_deadline_ms_max@)),
        Member::Pair(
            "frames_missing_after_repair"@,
            Value::Number(snapshot.reassembly.frames_missing_after_fec),
        ),
        Member::Pair(
            "frames_dropped_after_repair"@,
            Value::Number(snapshot.reassembly.frames_dropped_after_fec),
        ),
        Member::Pair("repair_wait_ms_avg"@, Value::Raw(texts.repair_wait_ms_avg@)),
        Member::Pair("repair_wait_ms_max"@, Value::Raw(texts.repair_wait_ms_max@)),
        Member::Pair(
            "repair_send_errors"@,
            Value::Number(snapshot.state.repair.repair_send_errors),
        ),
        Member::Pair(
            "repair_cancelled_frame_complete"@,
            Value::Number(snapshot.state.repair.repair_cancelled_frame_complete),
        ),
        Member::Pair(
            "repair_overhead_packets"@,
            Value::Number(snapshot.state.repair.repair_packets_received),
        ),
        Member::Pair(
            "repair_overhead_ratio_vs_data"@,
            Value::Raw(texts.repair_overhead_ratio_vs_data@),
        ),
        Member::Pair(
            "stream_close_received"@,
            Value::Number(snapshot.state.dispatch.stream_close_received),
        ),
    ]
}

fn add_receiver_repair_fragment_second(
    members: Fragment,
    snapshot: &NetworkSnapshot,
    texts: &ReceiverRepairFragmentTexts,
) -> (r: Fragment)
    ensures
        r@ == members@ + receiver_repair_fragment_second(snapshot, texts),
{
    let ghost before = members@;
    let r: Fragment = members
        .number("repair_packets_inserted", snapshot.state.repair.repair_packets_inserted)
        .number("repair_packets_matched_inflight", snapshot.state.repair.repair_packets_inserted)
        .number("repair_duplicate_packets", snapshot.state.repair.repair_duplicate_packets)
        .number(
            "repair_packets_dropped_wrong_type",
            snapshot.state.dispatch.repair_packets_dropped_wrong_type,
        )
        .number(
            "repair_packets_dropped_late",
            snapshot.state.dispatch.repair_packets_dropped_late,
        )
        .number(
            "repair_packets_dropped_no_frame",
            snapshot.state.dispatch.repair_packets_dropped_no_frame,
        )
        .number("repair_late_packets", snapshot.state.dispatch.repair_packets_dropped_late)
        .number("repair_frames_completed", snapshot.state.repair.repair_frames_completed)
        .number("repair_deadline_missed", snapshot.state.repair.repair_deadline_missed)
        .raw("repair_deadline_ms_avg", texts.repair_deadline_ms_avg.as_str())
        .raw("repair_deadline_ms_max", texts.repair_deadline_ms_max.as_str())
        .number("frames_missing_after_repair", snapshot.reassembly.frames_missing_after_fec)
        .number("frames_dropped_after_repair", snapshot.reassembly.frames_dropped_after_fec)
        .raw("repair_wait_ms_avg", texts.repair_wait_ms_avg.as_str())
        .raw("repair_wait_ms_max", texts.repair_wait_ms_max.as_str())
        .number("repair_send_errors", snapshot.state.repair.repair_send_errors)
        .number(
            "repair_cancelled_frame_complete",
            snapshot.state.repair.repair_cancelled_frame_complete,
        )
        .number("repair_overhead_packets", snapshot.state.repair.repair_packets_received)
        .raw("repair_overhead_ratio_vs_data", texts.repair_overhead_ratio_vs_data.as_str())
        .number("stream_close_received", snapshot.state.dispatch.stream_close_received);
    assert(r@ =~= before + receiver_repair_fragment_second(snapshot, texts));
    r
}

/// The third part of `receiver_repair_fragment`.
pub open spec fn receiver_repair_fragment_third(snapshot: &NetworkSnapshot) -> Seq<Member> {
    seq![
        Member::Pair(
            "stream_close_ack_sent"@,
            Value::Number(snapshot.state.dispatch.stream_close_ack_sent),
        ),
        Member::Pair(
            "stream_close_rejected_pre_session"@,
            Value::Number(snapshot.state.dispatch.stream_close_rejected_pre_session),
        ),
        Member::Pair(
            "stream_close_rejected_peer"@,
            Value::Number(snapshot.state.dispatch.stream_close_rejected_peer),
        ),
        Member::Pair(
            "stream_close_rejected_session"@,
            Value::Number(snapshot.state.dispatch.stream_close_rejected_session),
        ),
        Member::Pair(
            "stream_close_rejected_invalid"@,
            Value::Number(snapshot.state.dispatch.stream_close_rejected_invalid),
        ),
        Member::Pair(
            "stream_close_duplicate"@,
            Value::Number(snapshot.state.dispatch.stream_close_duplicate),
        ),
        Member::Pair(
            "stream_close_sent"@,
            Value::Number(snapshot.state.dispatch.stream_close_sent),
        ),
        Member::Pair(
            "stream_close_retry_count"@,
            Value::Number(snapshot.state.dispatch.stream_close_retry_count),
        ),
        Member::Pair(
            "stream_close_ack_received"@,
            Value::Flag(snapshot.state.dispatch.stream_close_ack_received),
        ),
        Member::Pair(
            "stream_close_handshake_timeout"@,
            Value::Flag(snapshot.state.dispatch.stream_close_handshake_timeout),
        ),
        Member::Pair(
            "peer_timeout_triggered"@,
            Value::Flag(snapshot.state.dispatch.peer_timeout_triggered),
        ),
        Member::Pair(
            "peer_last_valid_age_ms"@,
            Value::Number(snapshot.state.dispatch.peer_last_valid_age_ms),
        ),
    ]
}

fn add_receiver_repair_fragment_third(
    members: Fragment,
    snapshot: &NetworkSnapshot,
) -> (r: Fragment)
    ensures
        r@ == members@ + receiver_repair_fragment_third(snapshot),
{
    let ghost before = members@;
    let r: Fragment = members
        .number("stream_close_ack_sent", snapshot.state.dispatch.stream_close_ack_sent)
        .number(
            "stream_close_rejected_pre_session",
            snapshot.state.dispatch.stream_close_rejected_pre_session,
        )
        .number("stream_close_rejected_peer", snapshot.state.dispatch.stream_close_rejected_peer)
        .number(
            "stream_close_rejected_session",
            snapshot.state.dispatch.stream_close_rejected_session,
        )
        .number(
            "stream_close_rejected_invalid",
            snapshot.state.dispatch.stream_close_rejected_invalid,
        )
        .number("stream_close_duplicate", snapshot.state.dispatch.stream_close_duplicate)
        .number("stream_close_sent", snapshot.state.dispatch.stream_close_sent)
        .number("stream_close_retry_count", snapshot.state.dispatch.stream_close_retry_count)
        .flag("stream_close_ack_received", snapshot.state.dispatch.stream_close_ack_received)
        .flag(
            "stream_close_handshake_timeout",
            snapshot.state.dispatch.stream_close_handshake_timeout,
        )
        .flag("peer_timeout_triggered", snapshot.state.dispatch.peer_timeout_triggered)
        .number("peer_last_valid_age_ms", snapshot.state.dispatch.peer_last_valid_age_ms);
    assert(r@ =~= before + receiver_repair_fragment_third(snapshot));
    r
}

/// What became of packets, and of requests to send them again.
pub open spec fn receiver_repair_fragment_members(
    snapshot: &NetworkSnapshot,
    texts: &ReceiverRepairFragmentTexts,
) -> Seq<Member> {
    receiver_repair_fragment_first(snapshot, texts)
        + receiver_repair_fragment_second(snapshot, texts)
        + receiver_repair_fragment_third(snapshot)
}

/// What became of packets, and of requests to send them again.
pub fn receiver_repair_fragment(
    snapshot: &NetworkSnapshot,
    texts: &ReceiverRepairFragmentTexts,
) -> (r: String)
    ensures
        r@ == json::render(receiver_repair_fragment_members(snapshot, texts)),
{
    let members: Fragment = Fragment::new();
    let members: Fragment = add_receiver_repair_fragment_first(members, snapshot, texts);
    let members: Fragment = add_receiver_repair_fragment_second(members, snapshot, texts);
    let members: Fragment = add_receiver_repair_fragment_third(members, snapshot);
    assert(members@ =~= receiver_repair_fragment_members(snapshot, texts));
    members.finish()
}

/// Real numbers of how the stream came in, written in decimals.  A number that stands
/// under several names is given once.
#[derive(Debug)]
pub struct ReceiverNetworkFragmentTexts {
    pub packets_per_second: String,
    pub playout_delay_actual_ms_avg: String,
    pub playout_delay_actual_ms_max: String,
    pub decoder_input_fps: String,
    pub render_output_fps: String,
    pub recovery_wait_ms_avg: String,
    pub recovery_wait_ms_max: String,
    pub recovery_wait_frames_avg: String,
    pub decode_gate_gap_to_damage_ms_avg: String,
    pub decode_gate_gap_to_damage_ms_max: String,
    pub video_packet_dispatch_ms_avg: String,
    pub video_packet_dispatch_ms_max: String,
}

/// The first part of how the stream came in.
pub open spec fn receiver_network_fragment_first(
    snapshot: &NetworkSnapshot,
    texts: &ReceiverNetworkFragmentTexts,
) -> Seq<Member> {
    seq![
        Member::Pair(
            "udp_recv_buffer_bytes"@,
            Value::Signed(snapshot.udp_recv_buffer_bytes as i64),
        ),
        Member::Pair(
            "udp_recv_buffer_bytes_requested"@,
            Value::Signed(snapshot.udp_recv_buffer_bytes_requested as i64),
        ),
        Member::Pair(
            "udp_recv_buffer_bytes_actual"@,
            Value::Signed(snapshot.udp_recv_buffer_bytes as i64),
        ),
        Member::Pair("packets_per_second"@, Value::Raw(texts.packets_per_second@)),
        Member::Pair("udp_recv_packets_per_second"@, Value::Raw(texts.packets_per_second@)),
        Member::Pair(
            "udp_recv_loop_overruns"@,
            Value::Number(snapshot.state.udp_recv_loop_overruns),
        ),
        Member::Pair(
            "complete_frame_queue_len"@,
            Value::Number(snapshot.queue.decode_queue as u64),
        ),
        Member::Pair(
            "complete_frame_queue_peak"@,
            Value::Number(snapshot.queue.decode_queue_peak as u64),
        ),
        Member::Pair(
            "complete_frame_queue_drops"@,
            Value::Number(snapshot.queue.complete_frame_queue_drops),
        ),
        Member::Pair(
            "reassembly_frames_active"@,
            Value::Number(snapshot.reassembly.reassembly_frames_active),
        ),
        Member::Pair(
            "reassembly_packets_active"@,
            Value::Number(snapshot.reassembly.reassembly_packets_active),
        ),
        Member::Pair(
            "reassembly_packet_slots_reserved"@,
            Value::Number(snapshot.reassembly.reassembly_packet_slots_reserved),
        ),
        Member::Pair(
            "reassembly_payload_bytes_reserved"@,
            Value::Number(snapshot.reassembly.reassembly_payload_bytes_reserved),
        ),
        Member::Pair(
            "reassembly_budget_rejected_frames"@,
            Value::Number(snapshot.reassembly.reassembly_budget_rejected_frames),
        ),
        Member::Pair(
            "reassembly_oversize_frames"@,
            Value::Number(snapshot.reassembly.reassembly_oversize_frames),
        ),
        Member::Pair("reassembly_fast_path_enabled"@, Value::Flag(true)),
        Member::Pair(
            "reassembly_allocations_estimate"@,
            Value::Number(snapshot.reassembly.reassembly_allocations_estimate),
        ),
        Member::Pair(
            "reassembly_complete_scan_count"@,
            Value::Number(snapshot.reassembly.reassembly_complete_scan_count),
        ),
        Member::Pair("playout_delay_ms"@, Value::Number(snapshot.playout_delay_ms)),
        Member::Pair(
            "playout_buffer_frames"@,
            Value::Number(snapshot.playout_buffer_frames as u64),
        ),
    ]
}

fn add_receiver_network_fragment_first(
    members: Fragment,
    snapshot: &NetworkSnapshot,
    texts: &ReceiverNetworkFragmentTexts,
) -> (r: Fragment)
    ensures
        r@ == members@ + receiver_network_fragment_first(snapshot, texts),
{
    let ghost before = members@;
    let r: Fragment = members
        .signed("udp_recv_buffer_bytes", snapshot.udp_recv_buffer_bytes as i64)
        .signed(
            "udp_recv_buffer_bytes_requested",
            snapshot.udp_recv_buffer_bytes_requested as i64,
        )
        .signed("udp_recv_buffer_bytes_actual", snapshot.udp_recv_buffer_bytes as i64)
        .raw("packets_per_second", texts.packets_per_second.as_str())
        .raw("udp_recv_packets_per_second", texts.packets_per_second.as_str())
        .number("udp_recv_loop_overruns", snapshot.state.udp_recv_loop_overruns)
        .number("complete_frame_queue_len", snapshot.queue.decode_queue as u64)
        .number("complete_frame_queue_peak", snapshot.queue.decode_queue_peak as u64)
        .number("complete_frame_queue_drops", snapshot.queue.complete_frame_queue_drops)
        .number("reassembly_frames_active", snapshot.reassembly.reassembly_frames_active)
        .number("reassembly_packets_active", snapshot.reassembly.reassembly_packets_active)
        .number(
            "reassembly_packet_slots_reserved",
            snapshot.reassembly.reassembly_packet_slots_reserved,
        )
        .number(
            "reassembly_payload_bytes_reserved",
            snapshot.reassembly.reassembly_payload_bytes_reserved,
        )
        .number(
            "reassembly_budget_rejected_frames",
            snapshot.reassembly.reassembly_budget_rejected_frames,
        )
        .number("reassembly_oversize_frames", snapshot.reassembly.reassembly_oversize_frames)
        .flag("reassembly_fast_path_enabled", true)
        .number(
            "reassembly_allocations_estimate",
            snapshot.reassembly.reassembly_allocations_estimate,
        )
        .number(
            "reassembly_complete_scan_count",
            snapshot.reassembly.reassembly_complete_scan_count,
        )
        .number("playout_delay_ms", snapshot.playout_delay_ms)
        .number("playout_buffer_frames", snapshot.playout_buffer_frames as u64);
    assert(r@ =~= before + receiver_network_fragment_first(snapshot, texts));
    r
}

/// The second part of how the stream came in.
pub open spec fn receiver_network_fragment_second(
    snapshot: &NetworkSnapshot,
    stats: &ViewerStats,
    anchor: Seq<char>,
    texts: &ReceiverNetworkFragmentTexts,
) -> Seq<Member> {
    seq![
        Member::Pair(
            "playout_buffer_peak_frames"@,
            Value::Number(snapshot.playout.buffer_peak_frames as u64),
        ),
        Member::Pair("playout_late_frames"@, Value::Number(snapshot.playout.late_frames)),
        Member::Pair(
            "playout_dropped_late_frames"@,
            Value::Number(snapshot.playout.dropped_late_frames),
        ),
        Member::Pair(
            "playout_dropped_discontinuity_frames"@,
            Value::Number(snapshot.playout.dropped_discontinuity_frames),
        ),
        Member::Pair(
            "playout_delay_actual_ms_avg"@,
            Value::Raw(texts.playout_delay_actual_ms_avg@),
        ),
        Member::Pair(
            "playout_delay_actual_ms_max"@,
            Value::Raw(texts.playout_delay_actual_ms_max@),
        ),
        Member::Pair("media_clock"@, Value::Name("instant"@)),
        Member::Fragment(anchor),
        Member::Pair(
            "decoder_configured_fps"@,
            Value::Number(stats.decoder_configured_fps as u64),
        ),
        Member::Pair(
            "decoder_sample_duration_us"@,
            Value::Number(stats.decoder_sample_duration_us),
        ),
        Member::Pair("decoder_input_fps"@, Value::Raw(texts.decoder_input_fps@)),
        Member::Pair("render_output_fps"@, Value::Raw(texts.render_output_fps@)),
        Member::Pair("active_render_fps"@, Value::Raw(texts.render_output_fps@)),
        Member::Pair("decode_thread_fps"@, Value::Raw(texts.decoder_input_fps@)),
        Member::Pair("render_thread_fps"@, Value::Raw(texts.render_output_fps@)),
        Member::Pair(
            "decoded_frame_queue_len"@,
            Value::Number(stats.decoded_frame_queue_len as u64),
        ),
        Member::Pair("decoded_frame_queue_peak"@, Value::Number(stats.render_queue_peak as u64)),
        Member::Pair(
            "decoded_frame_queue_drops"@,
            Value::Number(stats.decoded_frame_queue_drops),
        ),
        Member::Pair(
            "decoded_frames_replaced_by_latest"@,
            Value::Number(stats.frames_decoded_not_rendered),
        ),
        Member::Pair(
            "render_latest_slot_replacements"@,
            Value::Number(stats.frames_decoded_not_rendered),
        ),
    ]
}

fn add_receiver_network_fragment_second(
    members: Fragment,
    snapshot: &NetworkSnapshot,
    stats: &ViewerStats,
    anchor: &str,
    texts: &ReceiverNetworkFragmentTexts,
) -> (r: Fragment)
    ensures
        r@ == members@ + receiver_network_fragment_second(snapshot, stats, anchor@, texts),
{
    let ghost before = members@;
    let r: Fragment = members
        .number("playout_buffer_peak_frames", snapshot.playout.buffer_peak_frames as u64)
        .number("playout_late_frames", snapshot.playout.late_frames)
        .number("playout_dropped_late_frames", snapshot.playout.dropped_late_frames)
        .number(
            "playout_dropped_discontinuity_frames",
            snapshot.playout.dropped_discontinuity_frames,
        )
        .raw("playout_delay_actual_ms_avg", texts.playout_delay_actual_ms_avg.as_str())
        .raw("playout_delay_actual_ms_max", texts.playout_delay_actual_ms_max.as_str())
        .name("media_clock", "instant")
        .fragment(anchor)
        .number("decoder_configured_fps", stats.decoder_configured_fps as u64)
        .number("decoder_sample_duration_us", stats.decoder_sample_duration_us)
        .raw("decoder_input_fps", texts.decoder_input_fps.as_str())
        .raw("render_output_fps", texts.render_output_fps.as_str())
        .raw("active_render_fps", texts.render_output_fps.as_str())
        .raw("decode_thread_fps", texts.decoder_input_fps.as_str())
        .raw("render_thread_fps", texts.render_output_fps.as_str())
        .number("decoded_frame_queue_len", stats.decoded_frame_queue_len as u64)
        .number("decoded_frame_queue_peak", stats.render_queue_peak as u64)
        .number("decoded_frame_queue_drops", stats.decoded_frame_queue_drops)
        .number("decoded_frames_replaced_by_latest", stats.frames_decoded_not_rendered)
        .number("render_latest_slot_replacements", stats.frames_decoded_not_rendered);
    assert(r@ =~= before + receiver_network_fragment_second(snapshot, stats, anchor@, texts));
    r
}

/// The third part of how the stream came in.
pub open spec fn receiver_network_fragment_third(
    snapshot: &NetworkSnapshot,
    stats: &ViewerStats,
    decoder_last_keyframe_id: Option<u64>,
) -> Seq<Member> {
    seq![
        Member::Pair("decoder_blocked_by_render_count"@, Value::Number(0)),
        Member::Pair(
            "frames_missing_packets"@,
            Value::Number(snapshot.reassembly.frames_incomplete_expired),
        ),
        Member::Pair(
            "frames_dropped_incomplete"@,
            Value::Number(snapshot.reassembly.frames_incomplete_expired),
        ),
        Member::Pair("fec_mode"@, Value::Name(fec_mode(snapshot))),
        Member::Pair(
            "fec_packets_received"@,
            Value::Number(snapshot.reassembly.fec_packets_received),
        ),
        Member::Pair(
            "fec_frames_recovered"@,
            Value::Number(snapshot.reassembly.fec_frames_recovered),
        ),
        Member::Pair(
            "fec_packets_recovered"@,
            Value::Number(snapshot.reassembly.fec_packets_recovered),
        ),
        Member::Pair(
            "fec_recovery_failed_multi_missing"@,
            Value::Number(snapshot.reassembly.fec_recovery_failed_multi_missing),
        ),
        Member::Pair(
            "fec_recovery_failed_no_parity"@,
            Value::Number(snapshot.reassembly.fec_recovery_failed_no_parity),
        ),
        Member::Pair(
            "fec_recovery_failed_invalid"@,
            Value::Number(snapshot.reassembly.fec_recovery_failed_invalid),
        ),
        Member::Pair(
            "frames_missing_after_fec"@,
            Value::Number(snapshot.reassembly.frames_missing_after_fec),
        ),
        Member::Pair(
            "frames_dropped_after_fec"@,
            Value::Number(snapshot.reassembly.frames_dropped_after_fec),
        ),
        Member::Pair(
            "keyframe_recovery_count"@,
            Value::Number(
                snapshot.queue.keyframe_recovery_count.saturating_add(
                    stats.keyframe_recovery_count,
                ),
            ),
        ),
        Member::Pair(
            "last_keyframe_id"@,
            Value::Maybe(either(decoder_last_keyframe_id, snapshot.queue.last_keyframe_id)),
        ),
        Member::Pair("decoder_resets"@, Value::Number(stats.decoder_resets)),
        Member::Pair("drop_damaged_gop"@, Value::Flag(snapshot.drop_damaged_gop)),
        Member::Pair("damaged_gop_count"@, Value::Number(snapshot.damaged_gop.damaged_gop_count)),
        Member::Pair(
            "frames_discarded_damaged_gop"@,
            Value::Number(snapshot.damaged_gop.frames_discarded_damaged_gop),
        ),
        Member::Pair(
            "frames_discarded_waiting_keyframe"@,
            Value::Number(snapshot.damaged_gop.frames_discarded_waiting_keyframe),
        ),
        Member::Pair(
            "waiting_keyframe_entries"@,
            Value::Number(snapshot.damaged_gop.waiting_keyframe_entries),
        ),
    ]
}

fn add_receiver_network_fragment_third(
    members: Fragment,
    snapshot: &NetworkSnapshot,
    stats: &ViewerStats,
    decoder_last_keyframe_id: Option<u64>,
) -> (r: Fragment)
    ensures
        r@ == members@ + receiver_network_fragment_third(snapshot, stats, decoder_last_keyframe_id),
{
    let ghost before = members@;
    let r: Fragment = members
        .number("decoder_blocked_by_render_count", 0)
        .number("frames_missing_packets", snapshot.reassembly.frames_incomplete_expired)
        .number("frames_dropped_incomplete", snapshot.reassembly.frames_incomplete_expired)
        .name("fec_mode", fec_mode_name(snapshot))
        .number("fec_packets_received", snapshot.reassembly.fec_packets_received)
        .number("fec_frames_recovered", snapshot.reassembly.fec_frames_recovered)
        .number("fec_packets_recovered", snapshot.reassembly.fec_packets_recovered)
        .number(
            "fec_recovery_failed_multi_missing",
            snapshot.reassembly.fec_recovery_failed_multi_missing,
        )
        .number(
            "fec_recovery_failed_no_parity",
            snapshot.reassembly.fec_recovery_failed_no_parity,
        )
        .number("fec_recovery_failed_invalid", snapshot.reassembly.fec_recovery_failed_invalid)
        .number("frames_missing_after_fec", snapshot.reassembly.frames_missing_after_fec)
        .number("frames_dropped_after_fec", snapshot.reassembly.frames_dropped_after_fec)
        .number(
            "keyframe_recovery_count",
            snapshot.queue.keyframe_recovery_count.saturating_add(stats.keyframe_recovery_count),
        )
        .maybe(
            "last_keyframe_id",
            first_of(decoder_last_keyframe_id, snapshot.queue.last_keyframe_id),
        )
        .number("decoder_resets", stats.decoder_resets)
        .flag("drop_damaged_gop", snapshot.drop_damaged_gop)
        .number("damaged_gop_count", snapshot.damaged_gop.damaged_gop_count)
        .number("frames_discarded_damaged_gop", snapshot.damaged_gop.frames_discarded_damaged_gop)
        .number(
            "frames_discarded_waiting_keyframe",
            snapshot.damaged_gop.frames_discarded_waiting_keyframe,
        )
        .number("waiting_keyframe_entries", snapshot.damaged_gop.waiting_keyframe_entries);
    assert(
        r@ =~= before + receiver_network_fragment_third(snapshot, stats, decoder_last_keyframe_id)
    );
    r
}

/// The fourth part of how the stream came in.
pub open spec fn receiver_network_fragment_fourth(
    snapshot: &NetworkSnapshot,
    audio: Seq<char>,
    repair: Seq<char>,
    texts: &ReceiverNetworkFragmentTexts,
) -> Seq<Member> {
    seq![
        Member::Pair(
            "waiting_keyframe_exits"@,
            Value::Number(snapshot.damaged_gop.waiting_keyframe_exits),
        ),
        Member::Pair(
            "idr_frames_received"@,
            Value::Number(snapshot.damaged_gop.idr_frames_received),
        ),
        Member::Pair(
            "idr_frames_used_for_recovery"@,
            Value::Number(snapshot.damaged_gop.idr_frames_used_for_recovery),
        ),
        Member::Pair(
            "non_idr_frames_discarded_waiting"@,
            Value::Number(snapshot.damaged_gop.non_idr_frames_discarded_waiting),
        ),
        Member::Pair("recovery_wait_ms_avg"@, Value::Raw(texts.recovery_wait_ms_avg@)),
        Member::Pair("recovery_wait_ms_max"@, Value::Raw(texts.recovery_wait_ms_max@)),
        Member::Pair("recovery_wait_frames_avg"@, Value::Raw(texts.recovery_wait_frames_avg@)),
        Member::Pair(
            "recovery_wait_frames_max"@,
            Value::Number(snapshot.damaged_gop.recovery_wait_frames_max),
        ),
        Member::Pair(
            "next_decode_frame_id"@,
            Value::Maybe(snapshot.reassembly.next_decode_frame_id),
        ),
        Member::Pair(
            "decode_gate_stalls"@,
            Value::Number(snapshot.reassembly.decode_gate_stalls),
        ),
        Member::Pair(
            "decode_gate_gap_events"@,
            Value::Number(snapshot.reassembly.decode_gate_gap_events),
        ),
        Member::Pair(
            "decode_gate_gap_to_damage_ms_avg"@,
            Value::Raw(texts.decode_gate_gap_to_damage_ms_avg@),
        ),
        Member::Pair(
            "decode_gate_gap_to_damage_ms_max"@,
            Value::Raw(texts.decode_gate_gap_to_damage_ms_max@),
        ),
        Member::Pair(
            "frames_buffered_waiting_order"@,
            Value::Number(snapshot.completed_waiting as u64),
        ),
        Member::Pair(
            "frames_discarded_decode_gate"@,
            Value::Number(snapshot.reassembly.frames_discarded_decode_gate),
        ),
        Member::Pair("reorder_wait_ms"@, Value::Number(snapshot.reassembly.reorder_wait_ms)),
        Member::Pair(
            "video_packet_dispatch_ms_avg"@,
            Value::Raw(texts.video_packet_dispatch_ms_avg@),
        ),
        Member::Pair(
            "video_packet_dispatch_ms_max"@,
            Value::Raw(texts.video_packet_dispatch_ms_max@),
        ),
        Member::Fragment(audio),
        Member::Fragment(repair),
    ]
}

fn add_receiver_network_fragment_fourth(
    members: Fragment,
    snapshot: &NetworkSnapshot,
    audio: &str,
    repair: &str,
    texts: &ReceiverNetworkFragmentTexts,
) -> (r: Fragment)
    ensures
        r@ == members@ + receiver_network_fragment_fourth(snapshot, audio@, repair@, texts),
{
    let ghost before = members@;
    let r: Fragment = members
        .number("waiting_keyframe_exits", snapshot.damaged_gop.waiting_keyframe_exits)
        .number("idr_frames_received", snapshot.damaged_gop.idr_frames_received)
        .number("idr_frames_used_for_recovery", snapshot.damaged_gop.idr_frames_used_for_recovery)
        .number(
            "non_idr_frames_discarded_waiting",
            snapshot.damaged_gop.non_idr_frames_discarded_waiting,
        )
        .raw("recovery_wait_ms_avg", texts.recovery_wait_ms_avg.as_str())
        .raw("recovery_wait_ms_max", texts.recovery_wait_ms_max.as_str())
        .raw("recovery_wait_frames_avg", texts.recovery_wait_frames_avg.as_str())
        .number("recovery_wait_frames_max", snapshot.damaged_gop.recovery_wait_frames_max)
        .maybe("next_decode_frame_id", snapshot.reassembly.next_decode_frame_id)
        .number("decode_gate_stalls", snapshot.reassembly.decode_gate_stalls)
        .number("decode_gate_gap_events", snapshot.reassembly.decode_gate_gap_events)
        .raw("decode_gate_gap_to_damage_ms_avg", texts.decode_gate_gap_to_damage_ms_avg.as_str())
        .raw("decode_gate_gap_to_damage_ms_max", texts.decode_gate_gap_to_damage_ms_max.as_str())
        .number("frames_buffered_waiting_order", snapshot.completed_waiting as u64)
        .number("frames_discarded_decode_gate", snapshot.reassembly.frames_discarded_decode_gate)
        .number("reorder_wait_ms", snapshot.reassembly.reorder_wait_ms)
        .raw("video_packet_dispatch_ms_avg", texts.video_packet_dispatch_ms_avg.as_str())
        .raw("video_packet_dispatch_ms_max", texts.video_packet_dispatch_ms_max.as_str())
        .fragment(audio)
        .fragment(repair);
    assert(r@ =~= before + receiver_network_fragment_fourth(snapshot, audio@, repair@, texts));
    r
}

/// How the stream came in, was buffered, decoded and shown.
pub open spec fn receiver_network_fragment_members(
    snapshot: &NetworkSnapshot,
    stats: &ViewerStats,
    decoder_last_keyframe_id: Option<u64>,
    anchor: Seq<char>,
    audio: Seq<char>,
    repair: Seq<char>,
    render: Seq<char>,
    texts: &ReceiverNetworkFragmentTexts,
) -> Seq<Member> {
    receiver_network_fragment_first(snapshot, texts)
        + receiver_network_fragment_second(snapshot, stats, anchor, texts)
        + receiver_network_fragment_third(snapshot, stats, decoder_last_keyframe_id)
        + receiver_network_fragment_fourth(snapshot, audio, repair, texts)
        + seq![Member::Fragment(render)]
}

fn add_receiver_network_fragment(
    members: Fragment,
    snapshot: &NetworkSnapshot,
    stats: &ViewerStats,
    decoder_last_keyframe_id: Option<u64>,
    anchor: &str,
    audio: &str,
    repair: &str,
    render: &str,
    texts: &ReceiverNetworkFragmentTexts,
) -> (r: Fragment)
    ensures
        r@ == members@ + receiver_network_fragment_members(
            snapshot,
            stats,
            decoder_last_keyframe_id,
            anchor@,
            audio@,
            repair@,
            render@,
            texts,
        ),
{
    let ghost before = members@;
    let r: Fragment = add_receiver_network_fragment_first(members, snapshot, texts);
    let r: Fragment = add_receiver_network_fragment_second(r, snapshot, stats, anchor, texts);
    let r: Fragment = add_receiver_network_fragment_third(
        r,
        snapshot,
        stats,
        decoder_last_keyframe_id,
    );
    let r: Fragment = add_receiver_network_fragment_fourth(r, snapshot, audio, repair, texts);
    let r: Fragment = r.fragment(render);
    assert(r@ =~= before + receiver_network_fragment_members(
        snapshot,
        stats,
        decoder_last_keyframe_id,
        anchor@,
        audio@,
        repair@,
        render@,
        texts,
    ));
    r
}

/// Real numbers of when missing packets came, written in decimals.
#[derive(Debug)]
pub struct ReceiverTimingFragmentTexts {
    pub missing_first_detected_age_ms: String,
    pub missing_first_detected_age_ms_min: String,
    pub missing_first_detected_age_ms_max: String,
    pub missing_first_detected_to_deadline_ms_avg: String,
    pub missing_first_detected_to_deadline_ms_min: String,
    pub missing_first_detected_to_deadline_ms_max: String,
    pub nack_first_sent_age_ms: String,
    pub nack_first_sent_age_ms_min: String,
    pub nack_first_sent_age_ms_max: String,
    pub first_nack_to_deadline_ms_avg: String,
    pub first_nack_to_deadline_ms_min: String,
    pub first_nack_to_deadline_ms_max: String,
    pub repair_arrival_to_deadline_ms_avg: String,
    pub repair_arrival_to_deadline_ms_min: String,
    pub repair_arrival_to_deadline_ms_max: String,
    pub nack_first_round_budget_ms_avg: String,
    pub nack_first_round_budget_ms_min: String,
    pub nack_second_round_budget_ms_avg: String,
    pub nack_second_round_budget_ms_min: String,
}

/// When missing packets were noticed, asked for and came.
pub open spec fn receiver_timing_fragment_members(
    snapshot: &NetworkSnapshot,
    texts: &ReceiverTimingFragmentTexts,
) -> Seq<Member> {
    seq![
        Member::Pair(
            "repair_unique_packets_received"@,
            Value::Number(snapshot.state.repair.repair_unique_packets_received),
        ),
        Member::Pair(
            "repair_duplicate_packets_received"@,
            Value::Number(snapshot.state.repair.repair_duplicate_packets_received),
        ),
        Member::Pair(
            "repair_packets_received_after_frame_complete"@,
            Value::Number(snapshot.state.repair.repair_packets_received_after_frame_complete),
        ),
        Member::Pair(
            "nack_candidates_first_round"@,
            Value::Number(snapshot.state.repair.nack_candidates_first_round),
        ),
        Member::Pair(
            "nack_candidates_late_discovery"@,
            Value::Number(snapshot.state.repair.nack_candidates_late_discovery),
        ),
        Member::Pair(
            "nack_requests_cancelled_by_progress"@,
            Value::Number(snapshot.reassembly.nack_requests_cancelled_by_progress),
        ),
        Member::Pair(
            "missing_first_detected_age_ms"@,
            Value::Raw(texts.missing_first_detected_age_ms@),
        ),
        Member::Pair(
            "missing_first_detected_age_ms_min"@,
            Value::Raw(texts.missing_first_detected_age_ms_min@),
        ),
        Member::Pair(
            "missing_first_detected_age_ms_max"@,
            Value::Raw(texts.missing_first_detected_age_ms_max@),
        ),
        Member::Pair(
            "missing_first_detected_to_deadline_ms_avg"@,
            Value::Raw(texts.missing_first_detected_to_deadline_ms_avg@),
        ),
        Member::Pair(
            "missing_first_detected_to_deadline_ms_min"@,
            Value::Raw(texts.missing_first_detected_to_deadline_ms_min@),
        ),
        Member::Pair(
            "missing_first_detected_to_deadline_ms_max"@,
            Value::Raw(texts.missing_first_detected_to_deadline_ms_max@),
        ),
        Member::Pair("nack_first_sent_age_ms"@, Value::Raw(texts.nack_first_sent_age_ms@)),
        Member::Pair(
            "nack_first_sent_age_ms_min"@,
            Value::Raw(texts.nack_first_sent_age_ms_min@),
        ),
        Member::Pair(
            "nack_first_sent_age_ms_max"@,
            Value::Raw(texts.nack_first_sent_age_ms_max@),
        ),
        Member::Pair(
            "first_nack_to_deadline_ms_avg"@,
            Value::Raw(texts.first_nack_to_deadline_ms_avg@),
        ),
        Member::Pair(
            "first_nack_to_deadline_ms_min"@,
            Value::Raw(texts.first_nack_to_deadline_ms_min@),
        ),
        Member::Pair(
            "first_nack_to_deadline_ms_max"@,
            Value::Raw(texts.first_nack_to_deadline_ms_max@),
        ),
        Member::Pair(
            "repair_arrival_to_deadline_ms_avg"@,
            Value::Raw(texts.repair_arrival_to_deadline_ms_avg@),
        ),
        Member::Pair(
            "repair_arrival_to_deadline_ms_min"@,
            Value::Raw(texts.repair_arrival_to_deadline_ms_min@),
        ),
        Member::Pair(
            "repair_arrival_to_deadline_ms_max"@,
            Value::Raw(texts.repair_arrival_to_deadline_ms_max@),
        ),
        Member::Pair(
            "nack_first_round_budget_ms_avg"@,
            Value::Raw(texts.nack_first_round_budget_ms_avg@),
        ),
        Member::Pair(
            "nack_first_round_budget_ms_min"@,
            Value::Raw(texts.nack_first_round_budget_ms_min@),
        ),
        Member::Pair(
            "nack_second_round_budget_ms_avg"@,
            Value::Raw(texts.nack_second_round_budget_ms_avg@),
        ),
        Member::Pair(
            "nack_second_round_budget_ms_min"@,
            Value::Raw(texts.nack_second_round_budget_ms_min@),
        ),
    ]
}

fn add_receiver_timing_fragment(
    members: Fragment,
    snapshot: &NetworkSnapshot,
    texts: &ReceiverTimingFragmentTexts,
) -> (r: Fragment)
    ensures
        r@ == members@ + receiver_timing_fragment_members(snapshot, texts),
{
    let ghost before = members@;
    let r: Fragment = members
        .number(
            "repair_unique_packets_received",
            snapshot.state.repair.repair_unique_packets_received,
        )
        .number(
            "repair_duplicate_packets_received",
            snapshot.state.repair.repair_duplicate_packets_received,
        )
        .number(
            "repair_packets_received_after_frame_complete",
            snapshot.state.repair.repair_packets_received_after_frame_complete,
        )
        .number("nack_candidates_first_round", snapshot.state.repair.nack_candidates_first_round)
        .number(
            "nack_candidates_late_discovery",
            snapshot.state.repair.nack_candidates_late_discovery,
        )
        .number(
            "nack_requests_cancelled_by_progress",
            snapshot.reassembly.nack_requests_cancelled_by_progress,
        )
        .raw("missing_first_detected_age_ms", texts.missing_first_detected_age_ms.as_str())
        .raw(
            "missing_first_detected_age_ms_min",
            texts.missing_first_detected_age_ms_min.as_str(),
        )
        .raw(
            "missing_first_detected_age_ms_max",
            texts.missing_first_detected_age_ms_max.as_str(),
        )
        .raw(
            "missing_first_detected_to_deadline_ms_avg",
            texts.missing_first_detected_to_deadline_ms_avg.as_str(),
        )
        .raw(
            "missing_first_detected_to_deadline_ms_min",
            texts.missing_first_detected_to_deadline_ms_min.as_str(),
        )
        .raw(
            "missing_first_detected_to_deadline_ms_max",
            texts.missing_first_detected_to_deadline_ms_max.as_str(),
        )
        .raw("nack_first_sent_age_ms", texts.nack_first_sent_age_ms.as_str())
        .raw("nack_first_sent_age_ms_min", texts.nack_first_sent_age_ms_min.as_str())
        .raw("nack_first_sent_age_ms_max", texts.nack_first_sent_age_ms_max.as_str())
        .raw("first_nack_to_deadline_ms_avg", texts.first_nack_to_deadline_ms_avg.as_str())
        .raw("first_nack_to_deadline_ms_min", texts.first_nack_to_deadline_ms_min.as_str())
        .raw("first_nack_to_deadline_ms_max", texts.first_nack_to_deadline_ms_max.as_str())
        .raw(
            "repair_arrival_to_deadline_ms_avg",
            texts.repair_arrival_to_deadline_ms_avg.as_str(),
        )
        .raw(
            "repair_arrival_to_deadline_ms_min",
            texts.repair_arrival_to_deadline_ms_min.as_str(),
        )
        .raw(
            "repair_arrival_to_deadline_ms_max",
            texts.repair_arrival_to_deadline_ms_max.as_str(),
        )
        .raw("nack_first_round_budget_ms_avg", texts.nack_first_round_budget_ms_avg.as_str())
        .raw("nack_first_round_budget_ms_min", texts.nack_first_round_budget_ms_min.as_str())
        .raw("nack_second_round_budget_ms_avg", texts.nack_second_round_budget_ms_avg.as_str())
        .raw("nack_second_round_budget_ms_min", texts.nack_second_round_budget_ms_min.as_str());
    assert(r@ =~= before + receiver_timing_fragment_members(snapshot, texts));
    r
}

/// Real numbers of what is said of the profile, written in decimals.
#[derive(Debug)]
pub struct ReceiverProfileFragmentTexts {
    pub receiver_refresh_hz: String,
    pub receiver_present_fps_measured: String,
    pub profile_target_bitrate_mbps: String,
    pub new_session_first_packet_wait_ms_avg: String,
    pub new_session_first_packet_wait_ms_max: String,
    pub new_session_first_idr_wait_ms: String,
}

/// The first part of what is said of the profile.
pub open spec fn receiver_profile_fragment_first(
    snapshot: &NetworkSnapshot,
    stats: &ViewerStats,
    texts: &ReceiverProfileFragmentTexts,
) -> Seq<Member> {
    seq![
        Member::Pair(
            "receiver_capability_feedback_sent"@,
            Value::Number(snapshot.state.feedback.sent),
        ),
        Member::Pair(
            "receiver_capability_feedback_send_errors"@,
            Value::Number(snapshot.state.feedback.send_errors),
        ),
        Member::Pair("receiver_display_generation"@, Value::Number(stats.display_generation)),
        Member::Pair("receiver_refresh_hz"@, Value::Raw(texts.receiver_refresh_hz@)),
        Member::Pair(
            "receiver_present_fps_measured"@,
            Value::Raw(texts.receiver_present_fps_measured@),
        ),
        Member::Pair(
            "profile_changes_received"@,
            Value::Number(snapshot.state.profile.changes_received),
        ),
        Member::Pair(
            "profile_changes_invalid"@,
            Value::Number(snapshot.state.profile.changes_invalid),
        ),
        Member::Pair(
            "profile_change_sequence"@,
            Value::Number(snapshot.state.profile.change_sequence),
        ),
        Member::Pair("profile_generation"@, Value::Number(snapshot.state.profile.generation)),
        Member::Pair(
            "profile_target_width"@,
            Value::Number(snapshot.state.profile.target_width as u64),
        ),
        Member::Pair(
            "profile_target_height"@,
            Value::Number(snapshot.state.profile.target_height as u64),
        ),
        Member::Pair(
            "profile_target_fps"@,
            Value::Number(snapshot.state.profile.target_fps as u64),
        ),
        Member::Pair(
            "profile_target_bitrate_mbps"@,
            Value::Raw(texts.profile_target_bitrate_mbps@),
        ),
        Member::Pair(
            "profile_decoder_resets"@,
            Value::Number(snapshot.state.profile.decoder_resets),
        ),
        Member::Pair(
            "stale_profile_packets_dropped"@,
            Value::Number(snapshot.state.profile.stale_packets_dropped),
        ),
        Member::Pair(
            "feedback_sample_eligible"@,
            Value::Flag(snapshot.transition.feedback_sample_eligible),
        ),
        Member::Pair(
            "receiver_valid_feedback_windows"@,
            Value::Number(snapshot.transition.valid_feedback_windows as u64),
        ),
        Member::Pair("receiver_render_ready"@, Value::Flag(snapshot.transition.render_ready)),
        Member::Pair(
            "receiver_profile_settled"@,
            Value::Flag(snapshot.transition.profile_settled),
        ),
        Member::Pair(
            "receiver_profile_acknowledged"@,
            Value::Flag(snapshot.transition.profile_acknowledged),
        ),
    ]
}

fn add_receiver_profile_fragment_first(
    members: Fragment,
    snapshot: &NetworkSnapshot,
    stats: &ViewerStats,
    texts: &ReceiverProfileFragmentTexts,
) -> (r: Fragment)
    ensures
        r@ == members@ + receiver_profile_fragment_first(snapshot, stats, texts),
{
    let ghost before = members@;
    let r: Fragment = members
        .number("receiver_capability_feedback_sent", snapshot.state.feedback.sent)
        .number("receiver_capability_feedback_send_errors", snapshot.state.feedback.send_errors)
        .number("receiver_display_generation", stats.display_generation)
        .raw("receiver_refresh_hz", texts.receiver_refresh_hz.as_str())
        .raw("receiver_present_fps_measured", texts.receiver_present_fps_measured.as_str())
        .number("profile_changes_received", snapshot.state.profile.changes_received)
        .number("profile_changes_invalid", snapshot.state.profile.changes_invalid)
        .number("profile_change_sequence", snapshot.state.profile.change_sequence)
        .number("profile_generation", snapshot.state.profile.generation)
        .number("profile_target_width", snapshot.state.profile.target_width as u64)
        .number("profile_target_height", snapshot.state.profile.target_height as u64)
        .number("profile_target_fps", snapshot.state.profile.target_fps as u64)
        .raw("profile_target_bitrate_mbps", texts.profile_target_bitrate_mbps.as_str())
        .number("profile_decoder_resets", snapshot.state.profile.decoder_resets)
        .number("stale_profile_packets_dropped", snapshot.state.profile.stale_packets_dropped)
        .flag("feedback_sample_eligible", snapshot.transition.feedback_sample_eligible)
        .number(
            "receiver_valid_feedback_windows",
            snapshot.transition.valid_feedback_windows as u64,
        )
        .flag("receiver_render_ready", snapshot.transition.render_ready)
        .flag("receiver_profile_settled", snapshot.transition.profile_settled)
        .flag("receiver_profile_acknowledged", snapshot.transition.profile_acknowledged);
    assert(r@ =~= before + receiver_profile_fragment_first(snapshot, stats, texts));
    r
}

/// The second part of what is said of the profile.
pub open spec fn receiver_profile_fragment_second(snapshot: &NetworkSnapshot) -> Seq<Member> {
    seq![
        Member::Pair(
            "receiver_first_idr_decoded"@,
            Value::Flag(snapshot.transition.first_idr_decoded),
        ),
        Member::Pair(
            "receiver_first_frame_rendered"@,
            Value::Flag(snapshot.transition.first_frame_rendered),
        ),
        Member::Pair(
            "profile_transition_active"@,
            Value::Flag(snapshot.transition.profile_transition_active),
        ),
        Member::Pair(
            "profile_transition_phase"@,
            Value::Name(snapshot.transition.profile_transition_phase.text()),
        ),
        Member::Pair(
            "profile_transition_started_us"@,
            Value::Number(snapshot.transition.profile_transition_started_us),
        ),
        Member::Pair(
            "profile_transition_deadline_remaining_ms"@,
            Value::Number(snapshot.transition.transition_overall_deadline_remaining_ms),
        ),
        Member::Pair(
            "transition_timeout_count"@,
            Value::Number(snapshot.transition.transition_timeout_count),
        ),
        Member::Pair(
            "transition_failure_reason"@,
            Value::MaybeQuoted(
                json::optional_view(snapshot.transition.transition_failure_reason),
            ),
        ),
        Member::Pair(
            "transition_failure_stage"@,
            Value::MaybeQuoted(stage_name(snapshot.transition.transition_failure_stage)),
        ),
        Member::Pair(
            "transition_recovery_count"@,
            Value::Number(snapshot.transition.transition_recovery_count as u64),
        ),
        Member::Pair(
            "transition_settle_restart_count"@,
            Value::Number(snapshot.transition.transition_settle_restart_count as u64),
        ),
        Member::Pair(
            "transition_settle_deadline_remaining_ms"@,
            Value::Number(snapshot.transition.transition_settle_deadline_remaining_ms),
        ),
        Member::Pair(
            "transition_overall_deadline_remaining_ms"@,
            Value::Number(snapshot.transition.transition_overall_deadline_remaining_ms),
        ),
        Member::Pair(
            "transition_settle_windows"@,
            Value::Number(snapshot.transition.transition_settle_windows as u64),
        ),
        Member::Pair(
            "transition_settle_duration_ms"@,
            Value::Number(snapshot.transition.transition_settle_duration_ms as u64),
        ),
        Member::Pair(
            "pending_profile_present"@,
            Value::Flag(snapshot.state.profile.pending.present),
        ),
        Member::Pair(
            "pending_profile_age_ms"@,
            Value::Number(snapshot.state.profile.pending.age_ms),
        ),
        Member::Pair(
            "pending_profile_deadline_remaining_ms"@,
            Value::Number(snapshot.state.profile.pending.deadline_remaining_ms),
        ),
        Member::Pair(
            "pending_profile_change_sequence"@,
            Value::Number(snapshot.state.profile.pending.change_sequence),
        ),
        Member::Pair(
            "pending_profile_generation"@,
            Value::Number(snapshot.state.profile.pending.generation),
        ),
    ]
}

fn add_receiver_profile_fragment_second(
    members: Fragment,
    snapshot: &NetworkSnapshot,
) -> (r: Fragment)
    ensures
        r@ == members@ + receiver_profile_fragment_second(snapshot),
{
    let ghost before = members@;
    let r: Fragment = members
        .flag("receiver_first_idr_decoded", snapshot.transition.first_idr_decoded)
        .flag("receiver_first_frame_rendered", snapshot.transition.first_frame_rendered)
        .flag("profile_transition_active", snapshot.transition.profile_transition_active)
        .name("profile_transition_phase", snapshot.transition.profile_transition_phase.name())
        .number(
            "profile_transition_started_us",
            snapshot.transition.profile_transition_started_us,
        )
        .number(
            "profile_transition_deadline_remaining_ms",
            snapshot.transition.transition_overall_deadline_remaining_ms,
        )
        .number("transition_timeout_count", snapshot.transition.transition_timeout_count)
        .maybe_quoted("transition_failure_reason", snapshot.transition.transition_failure_reason)
        .maybe_quoted(
            "transition_failure_stage",
            stage_text(snapshot.transition.transition_failure_stage),
        )
        .number("transition_recovery_count", snapshot.transition.transition_recovery_count as u64)
        .number(
            "transition_settle_restart_count",
            snapshot.transition.transition_settle_restart_count as u64,
        )
        .number(
            "transition_settle_deadline_remaining_ms",
            snapshot.transition.transition_settle_deadline_remaining_ms,
        )
        .number(
            "transition_overall_deadline_remaining_ms",
            snapshot.transition.transition_overall_deadline_remaining_ms,
        )
        .number("transition_settle_windows", snapshot.transition.transition_settle_windows as u64)
        .number(
            "transition_settle_duration_ms",
            snapshot.transition.transition_settle_duration_ms as u64,
        )
        .flag("pending_profile_present", snapshot.state.profile.pending.present)
        .number("pending_profile_age_ms", snapshot.state.profile.pending.age_ms)
        .number(
            "pending_profile_deadline_remaining_ms",
            snapshot.state.profile.pending.deadline_remaining_ms,
        )
        .number("pending_profile_change_sequence", snapshot.state.profile.pending.change_sequence)
        .number("pending_profile_generation", snapshot.state.profile.pending.generation);
    assert(r@ =~= before + receiver_profile_fragment_second(snapshot));
    r
}

/// The third part of what is said of the profile.
pub open spec fn receiver_profile_fragment_third(
    snapshot: &NetworkSnapshot,
    display: Seq<char>,
    texts: &ReceiverProfileFragmentTexts,
) -> Seq<Member> {
    seq![
        Member::Pair(
            "pending_profile_old_session_id"@,
            Value::Number(snapshot.state.profile.pending.old_session_id),
        ),
        Member::Pair(
            "pending_profile_new_session_id"@,
            Value::Number(snapshot.state.profile.pending.new_session_id),
        ),
        Member::Pair(
            "mprf_packets_received"@,
            Value::Number(snapshot.state.profile.control.mprf_packets_received),
        ),
        Member::Pair(
            "mprf_ack_packets_sent"@,
            Value::Number(snapshot.state.profile.control.mprf_ack_packets_sent),
        ),
        Member::Pair(
            "mprf_duplicate_reacked"@,
            Value::Number(snapshot.state.profile.control.mprf_duplicate_reacked),
        ),
        Member::Pair(
            "mprf_pending_expired"@,
            Value::Number(snapshot.state.profile.control.mprf_pending_expired),
        ),
        Member::Pair(
            "mprf_rejected_foreign_peer"@,
            Value::Number(snapshot.state.profile.control.mprf_rejected_foreign_peer),
        ),
        Member::Pair(
            "mprf_rejected_old_session"@,
            Value::Number(snapshot.state.profile.control.mprf_rejected_old_session),
        ),
        Member::Pair(
            "mprf_rejected_sequence"@,
            Value::Number(snapshot.state.profile.control.mprf_rejected_sequence),
        ),
        Member::Pair(
            "mprf_rejected_generation"@,
            Value::Number(snapshot.state.profile.control.mprf_rejected_generation),
        ),
        Member::Pair(
            "mprf_rejected_invalid_fields"@,
            Value::Number(snapshot.state.profile.control.mprf_rejected_invalid_fields),
        ),
        Member::Pair(
            "new_session_activation_count"@,
            Value::Number(snapshot.state.profile.control.new_session_activation_count),
        ),
        Member::Pair(
            "new_session_first_packet_wait_ms_avg"@,
            Value::Raw(texts.new_session_first_packet_wait_ms_avg@),
        ),
        Member::Pair(
            "new_session_first_packet_wait_ms_max"@,
            Value::Raw(texts.new_session_first_packet_wait_ms_max@),
        ),
        Member::Pair(
            "new_session_first_idr_wait_ms"@,
            Value::Raw(texts.new_session_first_idr_wait_ms@),
        ),
        Member::Fragment(display),
    ]
}

fn add_receiver_profile_fragment_third(
    members: Fragment,
    snapshot: &NetworkSnapshot,
    display: &str,
    texts: &ReceiverProfileFragmentTexts,
) -> (r: Fragment)
    ensures
        r@ == members@ + receiver_profile_fragment_third(snapshot, display@, texts),
{
    let ghost before = members@;
    let r: Fragment = members
        .number("pending_profile_old_session_id", snapshot.state.profile.pending.old_session_id)
        .number("pending_profile_new_session_id", snapshot.state.profile.pending.new_session_id)
        .number("mprf_packets_received", snapshot.state.profile.control.mprf_packets_received)
        .number("mprf_ack_packets_sent", snapshot.state.profile.control.mprf_ack_packets_sent)
        .number("mprf_duplicate_reacked", snapshot.state.profile.control.mprf_duplicate_reacked)
        .number("mprf_pending_expired", snapshot.state.profile.control.mprf_pending_expired)
        .number(
            "mprf_rejected_foreign_peer",
            snapshot.state.profile.control.mprf_rejected_foreign_peer,
        )
        .number(
            "mprf_rejected_old_session",
            snapshot.state.profile.control.mprf_rejected_old_session,
        )
        .number("mprf_rejected_sequence", snapshot.state.profile.control.mprf_rejected_sequence)
        .number(
            "mprf_rejected_generation",
            snapshot.state.profile.control.mprf_rejected_generation,
        )
        .number(
            "mprf_rejected_invalid_fields",
            snapshot.state.profile.control.mprf_rejected_invalid_fields,
        )
        .number(
            "new_session_activation_count",
            snapshot.state.profile.control.new_session_activation_count,
        )
        .raw(
            "new_session_first_packet_wait_ms_avg",
            texts.new_session_first_packet_wait_ms_avg.as_str(),
        )
        .raw(
            "new_session_first_packet_wait_ms_max",
            texts.new_session_first_packet_wait_ms_max.as_str(),
        )
        .raw("new_session_first_idr_wait_ms", texts.new_session_first_idr_wait_ms.as_str())
        .fragment(display);
    assert(r@ =~= before + receiver_profile_fragment_third(snapshot, display@, texts));
    r
}

/// Which profile runs, and how far the receiver is with it.
pub open spec fn receiver_profile_fragment_members(
    snapshot: &NetworkSnapshot,
    stats: &ViewerStats,
    display: Seq<char>,
    texts: &ReceiverProfileFragmentTexts,
) -> Seq<Member> {
    receiver_profile_fragment_first(snapshot, stats, texts)
        + receiver_profile_fragment_second(snapshot)
        + receiver_profile_fragment_third(snapshot, display, texts)
}

fn add_receiver_profile_fragment(
    members: Fragment,
    snapshot: &NetworkSnapshot,
    stats: &ViewerStats,
    display: &str,
    texts: &ReceiverProfileFragmentTexts,
) -> (r: Fragment)
    ensures
        r@ == members@ + receiver_profile_fragment_members(snapshot, stats, display@, texts),
{
    let ghost before = members@;
    let r: Fragment = add_receiver_profile_fragment_first(members, snapshot, stats, texts);
    let r: Fragment = add_receiver_profile_fragment_second(r, snapshot);
    let r: Fragment = add_receiver_profile_fragment_third(r, snapshot, display, texts);
    assert(r@ =~= before + receiver_profile_fragment_members(snapshot, stats, display@, texts));
    r
}

/// What came, was decoded and was shown since an earlier report.
#[derive(Clone, Copy, Debug, PartialEq, Eq, Structural)]
pub struct TransportProgress {
    pub packets_received: u64,
    pub frames_decoder_input: u64,
    pub frames_rendered: u64,
}

/// What came, was decoded and was shown since the report before, of which the counts are
/// given; a count that has fallen stands for nothing new.
pub fn transport_progress(
    snapshot: &NetworkSnapshot,
    stats: &ViewerStats,
    previous: &ReassemblyStats,
    previous_decoder_input: u64,
    previous_rendered: u64,
) -> (r: TransportProgress)
    ensures
        r == (TransportProgress {
            packets_received: snapshot.reassembly.packets_received.saturating_sub(
                previous.packets_received,
            ),
            frames_decoder_input: stats.frames_decoder_input.saturating_sub(
                previous_decoder_input,
            ),
            frames_rendered: stats.frames_rendered.saturating_sub(previous_rendered),
        }),
{
    TransportProgress {
        packets_received: snapshot.reassembly.packets_received.saturating_sub(
            previous.packets_received,
        ),
        frames_decoder_input: stats.frames_decoder_input.saturating_sub(previous_decoder_input),
        frames_rendered: stats.frames_rendered.saturating_sub(previous_rendered),
    }
}

/// Real numbers of `receiver_transport_fragment`, written in decimals.
#[derive(Debug)]
pub struct ReceiverTransportFragmentTexts {
    pub network: ReceiverNetworkFragmentTexts,
    pub audio: AudioReceiverFragmentTexts,
    pub repair: ReceiverRepairFragmentTexts,
    pub timing: ReceiverTimingFragmentTexts,
    pub profile: ReceiverProfileFragmentTexts,
    /// How far audio is ahead of video, for the case that it is too far to be written from
    /// whole microseconds.
    pub far_audio_video_delta_ms: String,
}

/// All that the receiver reports of the transport, from one snapshot: how the stream came
/// in, with the anchor of its clock, its sound and its repairs, then when missing packets
/// came, then the profile.
pub open spec fn receiver_transport_fragment_members(
    snapshot: &NetworkSnapshot,
    stats: &ViewerStats,
    audio: &AudioReceiveStats,
    decoder_last_keyframe_id: Option<u64>,
    render: Seq<char>,
    display: Seq<char>,
    texts: &ReceiverTransportFragmentTexts,
) -> Seq<Member> {
    receiver_network_fragment_members(
        snapshot,
        stats,
        decoder_last_keyframe_id,
        json::render(snapshot.state.media_anchor.members(texts.far_audio_video_delta_ms@)),
        json::render(audio_receiver_fragment_members(audio, stats, &texts.audio)),
        json::render(receiver_repair_fragment_members(snapshot, &texts.repair)),
        render,
        &texts.network,
    ) + receiver_timing_fragment_members(snapshot, &texts.timing)
        + receiver_profile_fragment_members(snapshot, stats, display, &texts.profile)
}

/// All that the receiver reports of the transport.  `render` and `display` are what the
/// renderer and the display report of themselves.
pub fn receiver_transport_fragment(
    snapshot: &NetworkSnapshot,
    stats: &ViewerStats,
    audio: &AudioReceiveStats,
    decoder_last_keyframe_id: Option<u64>,
    render: &str,
    display: &str,
    texts: &ReceiverTransportFragmentTexts,
) -> (r: String)
    ensures
        r@ == json::render(
            receiver_transport_fragment_members(
                snapshot,
                stats,
                audio,
                decoder_last_keyframe_id,
                render@,
                display@,
                texts,
            ),
        ),
{
    let anchor: String = snapshot.state.media_anchor.json_fragment(
        texts.far_audio_video_delta_ms.as_str(),
    );
    let sound: String = audio_receiver_fragment(audio, stats, &texts.audio);
    let repair: String = receiver_repair_fragment(snapshot, &texts.repair);
    let members: Fragment = add_receiver_network_fragment(
        Fragment::new(),
        snapshot,
        stats,
        decoder_last_keyframe_id,
        anchor.as_str(),
        sound.as_str(),
        repair.as_str(),
        render,
        &texts.network,
    );
    let members: Fragment = add_receiver_timing_fragment(members, snapshot, &texts.timing);
    let members: Fragment = add_receiver_profile_fragment(
        members,
        snapshot,
        stats,
        display,
        &texts.profile,
    );
    assert(members@ =~= receiver_transport_fragment_members(
        snapshot,
        stats,
        audio,
        decoder_last_keyframe_id,
        render@,
        display@,
        texts,
    ));
    members.finish()
}

/// What the report on the transport is made of, besides the snapshot and the counters.
pub struct TransportParts<'a> {
    pub audio: &'a AudioReceiveStats,
    pub decoder_last_keyframe_id: Option<u64>,
    /// What the renderer and the display report of themselves.
    pub render: &'a str,
    pub display: &'a str,
    pub texts: &'a ReceiverTransportFragmentTexts,
}

impl TransportParts<'_> {
    /// What is reported of the transport.
    pub open spec fn text(self, snapshot: &NetworkSnapshot, stats: &ViewerStats) -> Seq<char> {
        json::render(
            receiver_transport_fragment_members(
                snapshot,
                stats,
                self.audio,
                self.decoder_last_keyframe_id,
                self.render@,
                self.display@,
                self.texts,
            ),
        )
    }

    fn written(&self, snapshot: &NetworkSnapshot, stats: &ViewerStats) -> (r: String)
        ensures
            r@ == self.text(snapshot, stats),
    {
        receiver_transport_fragment(
            snapshot,
            stats,
            self.audio,
            self.decoder_last_keyframe_id,
            self.render,
            self.display,
            self.texts,
        )
    }
}

/// Real numbers of what is reported from time to time, written in decimals.
#[derive(Debug)]
pub struct StatsLineTexts {
    pub fps_decode: String,
    pub fps_render: String,
    pub mbps: String,
    pub decode_ms_avg: String,
    pub render_ms_avg: String,
}

/// The first part of `probe_stats_line`.
pub open spec fn probe_stats_line_first(
    strict_decode_order: bool,
    snapshot: &NetworkSnapshot,
    stats: &ViewerStats,
) -> Seq<Member> {
    seq![
        Member::Pair("type"@, Value::Name("H264_RECV_VIEW_STATS"@)),
        Member::Pair("mode"@, Value::Name("h264_recv_view"@)),
        Member::Pair("strict_decode_order"@, Value::Flag(strict_decode_order)),
        Member::Pair("session_id"@, Value::Maybe(snapshot.session_id)),
        Member::Pair("packets_received"@, Value::Number(snapshot.reassembly.packets_received)),
        Member::Pair("packets_invalid"@, Value::Number(snapshot.reassembly.packets_invalid)),
        Member::Pair(
            "packets_lost_estimate"@,
            Value::Number(snapshot.reassembly.packets_lost_estimate),
        ),
        Member::Pair("frames_complete"@, Value::Number(snapshot.reassembly.frames_complete)),
        Member::Pair("frames_decoded"@, Value::Number(stats.frames_decoded)),
        Member::Pair("frames_rendered"@, Value::Number(stats.frames_rendered)),
        Member::Pair("frames_render_skipped"@, Value::Number(stats.frames_render_skipped)),
        Member::Pair(
            "frames_decoded_not_rendered"@,
            Value::Number(stats.frames_decoded_not_rendered),
        ),
        Member::Pair(
            "frames_incomplete_expired"@,
            Value::Number(snapshot.reassembly.frames_incomplete_expired),
        ),
        Member::Pair(
            "frames_predecode_dropped"@,
            Value::Number(
                snapshot.queue.frames_predecode_dropped.saturating_add(
                    stats.frames_predecode_dropped,
                ),
            ),
        ),
        Member::Pair(
            "frames_queue_dropped"@,
            Value::Number(
                snapshot.queue.frames_predecode_dropped.saturating_add(
                    stats.frames_predecode_dropped,
                ),
            ),
        ),
        Member::Pair(
            "frames_waiting_keyframe_dropped"@,
            Value::Number(
                snapshot.queue.frames_waiting_keyframe_dropped.saturating_add(
                    stats.frames_waiting_keyframe_dropped,
                ),
            ),
        ),
        Member::Pair(
            "keyframe_recovery_count"@,
            Value::Number(
                snapshot.queue.keyframe_recovery_count.saturating_add(
                    stats.keyframe_recovery_count,
                ),
            ),
        ),
        Member::Pair("decoder_errors"@, Value::Number(stats.decoder_errors)),
        Member::Pair("decoder_resets"@, Value::Number(stats.decoder_resets)),
        Member::Pair("decode_queue"@, Value::Number(snapshot.queue.decode_queue as u64)),
    ]
}

fn add_probe_stats_line_first(
    members: Fragment,
    strict_decode_order: bool,
    snapshot: &NetworkSnapshot,
    stats: &ViewerStats,
) -> (r: Fragment)
    ensures
        r@ == members@ + probe_stats_line_first(strict_decode_order, snapshot, stats),
{
    let ghost before = members@;
    let r: Fragment = members
        .name("type", "H264_RECV_VIEW_STATS")
        .name("mode", "h264_recv_view")
        .flag("strict_decode_order", strict_decode_order)
        .maybe("session_id", snapshot.session_id)
        .number("packets_received", snapshot.reassembly.packets_received)
        .number("packets_invalid", snapshot.reassembly.packets_invalid)
        .number("packets_lost_estimate", snapshot.reassembly.packets_lost_estimate)
        .number("frames_complete", snapshot.reassembly.frames_complete)
        .number("frames_decoded", stats.frames_decoded)
        .number("frames_rendered", stats.frames_rendered)
        .number("frames_render_skipped", stats.frames_render_skipped)
        .number("frames_decoded_not_rendered", stats.frames_decoded_not_rendered)
        .number("frames_incomplete_expired", snapshot.reassembly.frames_incomplete_expired)
        .number(
            "frames_predecode_dropped",
            snapshot.queue.frames_predecode_dropped.saturating_add(stats.frames_predecode_dropped),
        )
        .number(
            "frames_queue_dropped",
            snapshot.queue.frames_predecode_dropped.saturating_add(stats.frames_predecode_dropped),
        )
        .number(
            "frames_waiting_keyframe_dropped",
            snapshot.queue.frames_waiting_keyframe_dropped.saturating_add(
                stats.frames_waiting_keyframe_dropped,
            ),
        )
        .number(
            "keyframe_recovery_count",
            snapshot.queue.keyframe_recovery_count.saturating_add(stats.keyframe_recovery_count),
        )
        .number("decoder_errors", stats.decoder_errors)
        .number("decoder_resets", stats.decoder_resets)
        .number("decode_queue", snapshot.queue.decode_queue as u64);
    assert(r@ =~= before + probe_stats_line_first(strict_decode_order, snapshot, stats));
    r
}

/// The second part of `probe_stats_line`.
pub open spec fn probe_stats_line_second(
    snapshot: &NetworkSnapshot,
    stats: &ViewerStats,
    decoder_last_keyframe_id: Option<u64>,
    decoder_waiting_keyframe: bool,
    texts: &StatsLineTexts,
) -> Seq<Member> {
    seq![
        Member::Pair(
            "decode_queue_peak"@,
            Value::Number(snapshot.queue.decode_queue_peak as u64),
        ),
        Member::Pair("render_queue_peak"@, Value::Number(stats.render_queue_peak as u64)),
        Member::Pair("render_frame_copies"@, Value::Number(stats.render_frame_copies)),
        Member::Pair("render_buffer_reused"@, Value::Number(stats.render_buffer_reused)),
        Member::Pair("render_buffer_generation"@, Value::Number(stats.render_buffer_generation)),
        Member::Pair("nv12_y_stride"@, Value::Number(stats.nv12_y_stride as u64)),
        Member::Pair("nv12_uv_stride"@, Value::Number(stats.nv12_uv_stride as u64)),
        Member::Pair("nv12_uv_offset"@, Value::Number(stats.nv12_uv_offset as u64)),
        Member::Pair("nv12_allocated_height"@, Value::Number(stats.nv12_allocated_height as u64)),
        Member::Pair("nv12_buffer_len"@, Value::Number(stats.nv12_buffer_len as u64)),
        Member::Pair("expected_tight_len"@, Value::Number(stats.expected_tight_len as u64)),
        Member::Pair("decoder_used_2d_buffer"@, Value::Flag(stats.decoder_used_2d_buffer)),
        Member::Pair("fps_decode"@, Value::Raw(texts.fps_decode@)),
        Member::Pair("fps_render"@, Value::Raw(texts.fps_render@)),
        Member::Pair("mbps"@, Value::Raw(texts.mbps@)),
        Member::Pair("last_frame_id"@, Value::Maybe(snapshot.reassembly.last_frame_id)),
        Member::Pair(
            "last_keyframe_id"@,
            Value::Maybe(either(decoder_last_keyframe_id, snapshot.queue.last_keyframe_id)),
        ),
        Member::Pair(
            "waiting_keyframe"@,
            Value::Flag(decoder_waiting_keyframe || snapshot.queue.waiting_keyframe),
        ),
        Member::Pair("inflight_frames"@, Value::Number(snapshot.inflight_frames as u64)),
        Member::Pair("completed_waiting"@, Value::Number(snapshot.completed_waiting as u64)),
    ]
}

fn add_probe_stats_line_second(
    members: Fragment,
    snapshot: &NetworkSnapshot,
    stats: &ViewerStats,
    decoder_last_keyframe_id: Option<u64>,
    decoder_waiting_keyframe: bool,
    texts: &StatsLineTexts,
) -> (r: Fragment)
    ensures
        r@ == members@ + probe_stats_line_second(
            snapshot,
            stats,
            decoder_last_keyframe_id,
            decoder_waiting_keyframe,
            texts,
        ),
{
    let ghost before = members@;
    let r: Fragment = members
        .number("decode_queue_peak", snapshot.queue.decode_queue_peak as u64)
        .number("render_queue_peak", stats.render_queue_peak as u64)
        .number("render_frame_copies", stats.render_frame_copies)
        .number("render_buffer_reused", stats.render_buffer_reused)
        .number("render_buffer_generation", stats.render_buffer_generation)
        .number("nv12_y_stride", stats.nv12_y_stride as u64)
        .number("nv12_uv_stride", stats.nv12_uv_stride as u64)
        .number("nv12_uv_offset", stats.nv12_uv_offset as u64)
        .number("nv12_allocated_height", stats.nv12_allocated_height as u64)
        .number("nv12_buffer_len", stats.nv12_buffer_len as u64)
        .number("expected_tight_len", stats.expected_tight_len as u64)
        .flag("decoder_used_2d_buffer", stats.decoder_used_2d_buffer)
        .raw("fps_decode", texts.fps_decode.as_str())
        .raw("fps_render", texts.fps_render.as_str())
        .raw("mbps", texts.mbps.as_str())
        .maybe("last_frame_id", snapshot.reassembly.last_frame_id)
        .maybe(
            "last_keyframe_id",
            first_of(decoder_last_keyframe_id, snapshot.queue.last_keyframe_id),
        )
        .flag("waiting_keyframe", decoder_waiting_keyframe || snapshot.queue.waiting_keyframe)
        .number("inflight_frames", snapshot.inflight_frames as u64)
        .number("completed_waiting", snapshot.completed_waiting as u64);
    assert(r@ =~= before + probe_stats_line_second(
        snapshot,
        stats,
        decoder_last_keyframe_id,
        decoder_waiting_keyframe,
        texts,
    ));
    r
}

/// The third part of `probe_stats_line`.
pub open spec fn probe_stats_line_third(
    dimensions: VideoDimensions,
    color: &str,
    metadata: &str,
    transport: Seq<char>,
    texts: &StatsLineTexts,
) -> Seq<Member> {
    seq![
        Member::Pair("decode_ms_avg"@, Value::Raw(texts.decode_ms_avg@)),
        Member::Pair("render_ms_avg"@, Value::Raw(texts.render_ms_avg@)),
        Member::Pair("width"@, Value::Number(dimensions.width as u64)),
        Member::Pair("height"@, Value::Number(dimensions.height as u64)),
        Member::Fragment(color@),
        Member::Fragment(metadata@),
        Member::Fragment(transport),
    ]
}

fn add_probe_stats_line_third(
    members: Fragment,
    dimensions: VideoDimensions,
    color: &str,
    metadata: &str,
    transport: &str,
    texts: &StatsLineTexts,
) -> (r: Fragment)
    ensures
        r@ == members@ + probe_stats_line_third(dimensions, color, metadata, transport@, texts),
{
    let ghost before = members@;
    let r: Fragment = members
        .raw("decode_ms_avg", texts.decode_ms_avg.as_str())
        .raw("render_ms_avg", texts.render_ms_avg.as_str())
        .number("width", dimensions.width as u64)
        .number("height", dimensions.height as u64)
        .fragment(color)
        .fragment(metadata)
        .fragment(transport);
    assert(r@ =~= before + probe_stats_line_third(dimensions, color, metadata, transport@, texts));
    r
}

/// What a probe reports from time to time.
pub open spec fn probe_stats_line_members(
    strict_decode_order: bool,
    snapshot: &NetworkSnapshot,
    stats: &ViewerStats,
    decoder_last_keyframe_id: Option<u64>,
    decoder_waiting_keyframe: bool,
    dimensions: VideoDimensions,
    color: &str,
    metadata: &str,
    transport: Seq<char>,
    texts: &StatsLineTexts,
) -> Seq<Member> {
    probe_stats_line_first(strict_decode_order, snapshot, stats)
        + probe_stats_line_second(
            snapshot,
            stats,
            decoder_last_keyframe_id,
            decoder_waiting_keyframe,
            texts,
        )
        + probe_stats_line_third(dimensions, color, metadata, transport, texts)
}

/// What a probe reports from time to time.
pub fn probe_stats_line(
    strict_decode_order: bool,
    snapshot: &NetworkSnapshot,
    stats: &ViewerStats,
    decoder_last_keyframe_id: Option<u64>,
    decoder_waiting_keyframe: bool,
    dimensions: VideoDimensions,
    color: &str,
    metadata: &str,
    transport: &str,
    texts: &StatsLineTexts,
) -> (r: String)
    ensures
        r@ == json::object(
            probe_stats_line_members(
                strict_decode_order,
                snapshot,
                stats,
                decoder_last_keyframe_id,
                decoder_waiting_keyframe,
                dimensions,
                color,
                metadata,
                transport@,
                texts,
            ),
        ),
{
    let members: Fragment = Fragment::new();
    let members: Fragment = add_probe_stats_line_first(
        members,
        strict_decode_order,
        snapshot,
        stats,
    );
    let members: Fragment = add_probe_stats_line_second(
        members,
        snapshot,
        stats,
        decoder_last_keyframe_id,
        decoder_waiting_keyframe,
        texts,
    );
    let members: Fragment = add_probe_stats_line_third(
        members,
        dimensions,
        color,
        metadata,
        transport,
        texts,
    );
    assert(members@ =~= probe_stats_line_members(
        strict_decode_order,
        snapshot,
        stats,
        decoder_last_keyframe_id,
        decoder_waiting_keyframe,
        dimensions,
        color,
        metadata,
        transport@,
        texts,
    ));
    members.finish_object()
}

/// What a viewer of a screen reports from time to time.
pub open spec fn screen_stats_line_members(
    strict_decode_order: bool,
    snapshot: &NetworkSnapshot,
    stats: &ViewerStats,
    decoder_waiting_keyframe: bool,
    dimensions: VideoDimensions,
    color: &str,
    metadata: &str,
    transport: Seq<char>,
    context: &str,
    texts: &StatsLineTexts,
) -> Seq<Member> {
    seq![
        Member::Pair("type"@, Value::Name("NATIVE_SCREEN_STATS"@)),
        Member::Pair("role"@, Value::Name("receiver"@)),
        Member::Pair("mode"@, Value::Name("screen-recv"@)),
        Member::Pair("strict_decode_order"@, Value::Flag(strict_decode_order)),
        Member::Pair("session_id"@, Value::Maybe(snapshot.session_id)),
        Member::Pair("packets_received"@, Value::Number(snapshot.reassembly.packets_received)),
        Member::Pair(
            "packets_lost_estimate"@,
            Value::Number(snapshot.reassembly.packets_lost_estimate),
        ),
        Member::Pair("frames_complete"@, Value::Number(snapshot.reassembly.frames_complete)),
        Member::Pair("frames_decoded"@, Value::Number(stats.frames_decoded)),
        Member::Pair("frames_rendered"@, Value::Number(stats.frames_rendered)),
        Member::Pair(
            "frames_incomplete_expired"@,
            Value::Number(snapshot.reassembly.frames_incomplete_expired),
        ),
        Member::Pair("decoder_errors"@, Value::Number(stats.decoder_errors)),
        Member::Pair("decoder_resets"@, Value::Number(stats.decoder_resets)),
        Member::Pair("decode_queue"@, Value::Number(snapshot.queue.decode_queue as u64)),
        Member::Pair(
            "decode_queue_peak"@,
            Value::Number(snapshot.queue.decode_queue_peak as u64),
        ),
        Member::Pair("fps_decode"@, Value::Raw(texts.fps_decode@)),
        Member::Pair("fps_render"@, Value::Raw(texts.fps_render@)),
        Member::Pair("mbps"@, Value::Raw(texts.mbps@)),
        Member::Pair("last_frame_id"@, Value::Maybe(snapshot.reassembly.last_frame_id)),
        Member::Pair(
            "waiting_keyframe"@,
            Value::Flag(decoder_waiting_keyframe || snapshot.queue.waiting_keyframe),
        ),
        Member::Pair("inflight_frames"@, Value::Number(snapshot.inflight_frames as u64)),
        Member::Pair("decode_ms_avg"@, Value::Raw(texts.decode_ms_avg@)),
        Member::Pair("render_ms_avg"@, Value::Raw(texts.render_ms_avg@)),
        Member::Pair("width"@, Value::Number(dimensions.width as u64)),
        Member::Pair("height"@, Value::Number(dimensions.height as u64)),
        Member::Fragment(color@),
        Member::Fragment(metadata@),
        Member::Fragment(transport),
        Member::Fragment(context@),
    ]
}

/// What a viewer of a screen reports from time to time.
pub fn screen_stats_line(
    strict_decode_order: bool,
    snapshot: &NetworkSnapshot,
    stats: &ViewerStats,
    decoder_waiting_keyframe: bool,
    dimensions: VideoDimensions,
    color: &str,
    metadata: &str,
    transport: &str,
    context: &str,
    texts: &StatsLineTexts,
) -> (r: String)
    ensures
        r@ == json::object(
            screen_stats_line_members(
                strict_decode_order,
                snapshot,
                stats,
                decoder_waiting_keyframe,
                dimensions,
                color,
                metadata,
                transport@,
                context,
                texts,
            ),
        ),
{
    let members: Fragment = Fragment::new()
        .name("type", "NATIVE_SCREEN_STATS")
        .name("role", "receiver")
        .name("mode", "screen-recv")
        .flag("strict_decode_order", strict_decode_order)
        .maybe("session_id", snapshot.session_id)
        .number("packets_received", snapshot.reassembly.packets_received)
        .number("packets_lost_estimate", snapshot.reassembly.packets_lost_estimate)
        .number("frames_complete", snapshot.reassembly.frames_complete)
        .number("frames_decoded", stats.frames_decoded)
        .number("frames_rendered", stats.frames_rendered)
        .number("frames_incomplete_expired", snapshot.reassembly.frames_incomplete_expired)
        .number("decoder_errors", stats.decoder_errors)
        .number("decoder_resets", stats.decoder_resets)
        .number("decode_queue", snapshot.queue.decode_queue as u64)
        .number("decode_queue_peak", snapshot.queue.decode_queue_peak as u64)
        .raw("fps_decode", texts.fps_decode.as_str())
        .raw("fps_render", texts.fps_render.as_str())
        .raw("mbps", texts.mbps.as_str())
        .maybe("last_frame_id", snapshot.reassembly.last_frame_id)
        .flag("waiting_keyframe", decoder_waiting_keyframe || snapshot.queue.waiting_keyframe)
        .number("inflight_frames", snapshot.inflight_frames as u64)
        .raw("decode_ms_avg", texts.decode_ms_avg.as_str())
        .raw("render_ms_avg", texts.render_ms_avg.as_str())
        .number("width", dimensions.width as u64)
        .number("height", dimensions.height as u64)
        .fragment(color)
        .fragment(metadata)
        .fragment(transport)
        .fragment(context);
    assert(members@ =~= screen_stats_line_members(
        strict_decode_order,
        snapshot,
        stats,
        decoder_waiting_keyframe,
        dimensions,
        color,
        metadata,
        transport@,
        context,
        texts,
    ));
    members.finish_object()
}

/// The size of the picture, zero as long as there is none.
pub open spec fn size_of(dimensions: Option<VideoDimensions>) -> VideoDimensions {
    match dimensions {
        Some(dimensions) => dimensions,
        None => VideoDimensions { width: 0, height: 0 },
    }
}

/// What is reported from time to time: in each mode its own line, with the transport taken
/// from the same snapshot.
pub fn stats_line(
    mode: H264RecvViewMode,
    strict_decode_order: bool,
    snapshot: &NetworkSnapshot,
    stats: &ViewerStats,
    decoder_waiting_keyframe: bool,
    dimensions: Option<VideoDimensions>,
    color: &str,
    metadata: &str,
    transport: &TransportParts,
    context: &str,
    texts: &StatsLineTexts,
) -> (r: String)
    ensures
        r@ == json::object(
            match mode {
                H264RecvViewMode::Probe => probe_stats_line_members(
                    strict_decode_order,
                    snapshot,
                    stats,
                    transport.decoder_last_keyframe_id,
                    decoder_waiting_keyframe,
                    size_of(dimensions),
                    color,
                    metadata,
                    transport.text(snapshot, stats),
                    texts,
                ),
                H264RecvViewMode::Screen => screen_stats_line_members(
                    strict_decode_order,
                    snapshot,
                    stats,
                    decoder_waiting_keyframe,
                    size_of(dimensions),
                    color,
                    metadata,
                    transport.text(snapshot, stats),
                    context,
                    texts,
                ),
            },
        ),
{
    let size: VideoDimensions = match dimensions {
        Some(dimensions) => dimensions,
        None => VideoDimensions { width: 0, height: 0 },
    };
    let written: String = transport.written(snapshot, stats);
    match mode {
        H264RecvViewMode::Probe => probe_stats_line(
            strict_decode_order,
            snapshot,
            stats,
            transport.decoder_last_keyframe_id,
            decoder_waiting_keyframe,
            size,
            color,
            metadata,
            written.as_str(),
            texts,
        ),
        H264RecvViewMode::Screen => screen_stats_line(
            strict_decode_order,
            snapshot,
            stats,
            decoder_waiting_keyframe,
            size,
            color,
            metadata,
            written.as_str(),
            context,
            texts,
        ),
    }
}

/// What went wrong last: what the run met, or else what kept the workers from ending.
pub open spec fn last_error_of(shutdown: &ReceiverWorkerShutdownSummary) -> Option<Seq<char>> {
    match shutdown.runtime_error {
        Some(error) => Some(error@),
        None => text::optional(shutdown.join_error),
    }
}

/// How the run ended.
pub open spec fn final_summary_members(
    snapshot: &NetworkSnapshot,
    stats: &ViewerStats,
    shutdown: &ReceiverWorkerShutdownSummary,
) -> Seq<Member> {
    seq![
        Member::Pair(
            "close_received"@,
            Value::Flag(snapshot.state.dispatch.stream_close_received > 0),
        ),
        Member::Pair(
            "close_ack_sent"@,
            Value::Flag(snapshot.state.dispatch.stream_close_ack_sent > 0),
        ),
        Member::Pair(
            "peer_timeout_triggered"@,
            Value::Flag(snapshot.state.dispatch.peer_timeout_triggered),
        ),
        Member::Pair(
            "pending_nack_cancelled"@,
            Value::Number(snapshot.state.repair.repair_cancelled_frame_complete),
        ),
        Member::Pair(
            "pending_repair_state"@,
            Value::Name(
                if shutdown.network.is_clean() {
                    "cleared"@
                } else {
                    "incomplete"@
                },
            ),
        ),
        Member::Pair(
            "final_complete_frames"@,
            Value::Number(snapshot.reassembly.frames_complete),
        ),
        Member::Pair("final_decoded_frames"@, Value::Number(stats.frames_decoded)),
        Member::Pair("final_rendered_frames"@, Value::Number(stats.frames_rendered)),
        Member::Pair("last_error"@, Value::MaybeQuoted(last_error_of(shutdown))),
    ]
}

/// How the run ended.
pub fn final_summary(
    snapshot: &NetworkSnapshot,
    stats: &ViewerStats,
    shutdown: &ReceiverWorkerShutdownSummary,
) -> (r: String)
    ensures
        r@ == json::render(final_summary_members(snapshot, stats, shutdown)),
{
    let last_error: Option<&str> = match &shutdown.runtime_error {
        Some(error) => Some(error.as_str()),
        None => json::borrowed(&shutdown.join_error),
    };
    let repairs: &str = if shutdown.network.clean() {
        "cleared"
    } else {
        "incomplete"
    };
    let members: Fragment = Fragment::new()
        .flag("close_received", snapshot.state.dispatch.stream_close_received > 0)
        .flag("close_ack_sent", snapshot.state.dispatch.stream_close_ack_sent > 0)
        .flag("peer_timeout_triggered", snapshot.state.dispatch.peer_timeout_triggered)
        .number("pending_nack_cancelled", snapshot.state.repair.repair_cancelled_frame_complete)
        .name("pending_repair_state", repairs)
        .number("final_complete_frames", snapshot.reassembly.frames_complete)
        .number("final_decoded_frames", stats.frames_decoded)
        .number("final_rendered_frames", stats.frames_rendered)
        .maybe_quoted("last_error", last_error);
    assert(members@ =~= final_summary_members(snapshot, stats, shutdown));
    members.finish()
}

/// Real numbers of what is reported at the end, written in decimals.
#[derive(Debug)]
pub struct DoneLineTexts {
    pub decode_ms_avg: String,
    pub render_ms_avg: String,
    pub duration_sec: String,
}

/// The first part of `probe_done_line`.
pub open spec fn probe_done_line_first(
    config: &H264RecvViewConfig<String>,
    snapshot: &NetworkSnapshot,
    stats: &ViewerStats,
) -> Seq<Member> {
    seq![
        Member::Pair("type"@, Value::Name("H264_RECV_VIEW_DONE"@)),
        Member::Pair("mode"@, Value::Name("h264_recv_view"@)),
        Member::Pair("strict_decode_order"@, Value::Flag(config.strict_decode_order)),
        Member::Pair("session_id"@, Value::Maybe(snapshot.session_id)),
        Member::Pair("packets_received"@, Value::Number(snapshot.reassembly.packets_received)),
        Member::Pair("packets_invalid"@, Value::Number(snapshot.reassembly.packets_invalid)),
        Member::Pair(
            "packets_lost_estimate"@,
            Value::Number(snapshot.reassembly.packets_lost_estimate),
        ),
        Member::Pair("frames_complete"@, Value::Number(snapshot.reassembly.frames_complete)),
        Member::Pair("frames_decoded"@, Value::Number(stats.frames_decoded)),
        Member::Pair("frames_rendered"@, Value::Number(stats.frames_rendered)),
        Member::Pair("frames_render_skipped"@, Value::Number(stats.frames_render_skipped)),
        Member::Pair(
            "frames_decoded_not_rendered"@,
            Value::Number(stats.frames_decoded_not_rendered),
        ),
        Member::Pair(
            "frames_incomplete_expired"@,
            Value::Number(snapshot.reassembly.frames_incomplete_expired),
        ),
        Member::Pair(
            "frames_predecode_dropped"@,
            Value::Number(
                snapshot.queue.frames_predecode_dropped.saturating_add(
                    stats.frames_predecode_dropped,
                ),
            ),
        ),
        Member::Pair(
            "frames_queue_dropped"@,
            Value::Number(
                snapshot.queue.frames_predecode_dropped.saturating_add(
                    stats.frames_predecode_dropped,
                ),
            ),
        ),
        Member::Pair(
            "frames_waiting_keyframe_dropped"@,
            Value::Number(
                snapshot.queue.frames_waiting_keyframe_dropped.saturating_add(
                    stats.frames_waiting_keyframe_dropped,
                ),
            ),
        ),
        Member::Pair(
            "keyframe_recovery_count"@,
            Value::Number(
                snapshot.queue.keyframe_recovery_count.saturating_add(
                    stats.keyframe_recovery_count,
                ),
            ),
        ),
        Member::Pair("decoder_errors"@, Value::Number(stats.decoder_errors)),
        Member::Pair("decoder_resets"@, Value::Number(stats.decoder_resets)),
        Member::Pair(
            "decode_queue_peak"@,
            Value::Number(snapshot.queue.decode_queue_peak as u64),
        ),
    ]
}

fn add_probe_done_line_first(
    members: Fragment,
    config: &H264RecvViewConfig<String>,
    snapshot: &NetworkSnapshot,
    stats: &ViewerStats,
) -> (r: Fragment)
    ensures
        r@ == members@ + probe_done_line_first(config, snapshot, stats),
{
    let ghost before = members@;
    let r: Fragment = members
        .name("type", "H264_RECV_VIEW_DONE")
        .name("mode", "h264_recv_view")
        .flag("strict_decode_order", config.strict_decode_order)
        .maybe("session_id", snapshot.session_id)
        .number("packets_received", snapshot.reassembly.packets_received)
        .number("packets_invalid", snapshot.reassembly.packets_invalid)
        .number("packets_lost_estimate", snapshot.reassembly.packets_lost_estimate)
        .number("frames_complete", snapshot.reassembly.frames_complete)
        .number("frames_decoded", stats.frames_decoded)
        .number("frames_rendered", stats.frames_rendered)
        .number("frames_render_skipped", stats.frames_render_skipped)
        .number("frames_decoded_not_rendered", stats.frames_decoded_not_rendered)
        .number("frames_incomplete_expired", snapshot.reassembly.frames_incomplete_expired)
        .number(
            "frames_predecode_dropped",
            snapshot.queue.frames_predecode_dropped.saturating_add(stats.frames_predecode_dropped),
        )
        .number(
            "frames_queue_dropped",
            snapshot.queue.frames_predecode_dropped.saturating_add(stats.frames_predecode_dropped),
        )
        .number(
            "frames_waiting_keyframe_dropped",
            snapshot.queue.frames_waiting_keyframe_dropped.saturating_add(
                stats.frames_waiting_keyframe_dropped,
            ),
        )
        .number(
            "keyframe_recovery_count",
            snapshot.queue.keyframe_recovery_count.saturating_add(stats.keyframe_recovery_count),
        )
        .number("decoder_errors", stats.decoder_errors)
        .number("decoder_resets", stats.decoder_resets)
        .number("decode_queue_peak", snapshot.queue.decode_queue_peak as u64);
    assert(r@ =~= before + probe_done_line_first(config, snapshot, stats));
    r
}

/// The second part of `probe_done_line`.
pub open spec fn probe_done_line_second(
    snapshot: &NetworkSnapshot,
    stats: &ViewerStats,
    decoder_last_keyframe_id: Option<u64>,
    decoder_waiting_keyframe: bool,
    dimensions: VideoDimensions,
    closed_by_user: bool,
    stopped_by_console: bool,
    texts: &DoneLineTexts,
) -> Seq<Member> {
    seq![
        Member::Pair("render_queue_peak"@, Value::Number(stats.render_queue_peak as u64)),
        Member::Pair("render_frame_copies"@, Value::Number(stats.render_frame_copies)),
        Member::Pair("render_buffer_reused"@, Value::Number(stats.render_buffer_reused)),
        Member::Pair("render_buffer_generation"@, Value::Number(stats.render_buffer_generation)),
        Member::Pair("nv12_y_stride"@, Value::Number(stats.nv12_y_stride as u64)),
        Member::Pair("nv12_uv_stride"@, Value::Number(stats.nv12_uv_stride as u64)),
        Member::Pair("nv12_uv_offset"@, Value::Number(stats.nv12_uv_offset as u64)),
        Member::Pair("nv12_allocated_height"@, Value::Number(stats.nv12_allocated_height as u64)),
        Member::Pair("nv12_buffer_len"@, Value::Number(stats.nv12_buffer_len as u64)),
        Member::Pair("expected_tight_len"@, Value::Number(stats.expected_tight_len as u64)),
        Member::Pair("decoder_used_2d_buffer"@, Value::Flag(stats.decoder_used_2d_buffer)),
        Member::Pair(
            "last_keyframe_id"@,
            Value::Maybe(either(decoder_last_keyframe_id, snapshot.queue.last_keyframe_id)),
        ),
        Member::Pair(
            "waiting_keyframe"@,
            Value::Flag(decoder_waiting_keyframe || snapshot.queue.waiting_keyframe),
        ),
        Member::Pair("decode_ms_avg"@, Value::Raw(texts.decode_ms_avg@)),
        Member::Pair("render_ms_avg"@, Value::Raw(texts.render_ms_avg@)),
        Member::Pair("width"@, Value::Number(dimensions.width as u64)),
        Member::Pair("height"@, Value::Number(dimensions.height as u64)),
        Member::Pair("last_frame_id"@, Value::Maybe(snapshot.reassembly.last_frame_id)),
        Member::Pair("closed_by_user"@, Value::Flag(closed_by_user)),
        Member::Pair("stopped_by_console"@, Value::Flag(stopped_by_console)),
    ]
}

fn add_probe_done_line_second(
    members: Fragment,
    snapshot: &NetworkSnapshot,
    stats: &ViewerStats,
    decoder_last_keyframe_id: Option<u64>,
    decoder_waiting_keyframe: bool,
    dimensions: VideoDimensions,
    closed_by_user: bool,
    stopped_by_console: bool,
    texts: &DoneLineTexts,
) -> (r: Fragment)
    ensures
        r@ == members@ + probe_done_line_second(
            snapshot,
            stats,
            decoder_last_keyframe_id,
            decoder_waiting_keyframe,
            dimensions,
            closed_by_user,
            stopped_by_console,
            texts,
        ),
{
    let ghost before = members@;
    let r: Fragment = members
        .number("render_queue_peak", stats.render_queue_peak as u64)
        .number("render_frame_copies", stats.render_frame_copies)
        .number("render_buffer_reused", stats.render_buffer_reused)
        .number("render_buffer_generation", stats.render_buffer_generation)
        .number("nv12_y_stride", stats.nv12_y_stride as u64)
        .number("nv12_uv_stride", stats.nv12_uv_stride as u64)
        .number("nv12_uv_offset", stats.nv12_uv_offset as u64)
        .number("nv12_allocated_height", stats.nv12_allocated_height as u64)
        .number("nv12_buffer_len", stats.nv12_buffer_len as u64)
        .number("expected_tight_len", stats.expected_tight_len as u64)
        .flag("decoder_used_2d_buffer", stats.decoder_used_2d_buffer)
        .maybe(
            "last_keyframe_id",
            first_of(decoder_last_keyframe_id, snapshot.queue.last_keyframe_id),
        )
        .flag("waiting_keyframe", decoder_waiting_keyframe || snapshot.queue.waiting_keyframe)
        .raw("decode_ms_avg", texts.decode_ms_avg.as_str())
        .raw("render_ms_avg", texts.render_ms_avg.as_str())
        .number("width", dimensions.width as u64)
        .number("height", dimensions.height as u64)
        .maybe("last_frame_id", snapshot.reassembly.last_frame_id)
        .flag("closed_by_user", closed_by_user)
        .flag("stopped_by_console", stopped_by_console);
    assert(r@ =~= before + probe_done_line_second(
        snapshot,
        stats,
        decoder_last_keyframe_id,
        decoder_waiting_keyframe,
        dimensions,
        closed_by_user,
        stopped_by_console,
        texts,
    ));
    r
}

/// The third part of `probe_done_line`.
pub open spec fn probe_done_line_third(
    color: &str,
    metadata: &str,
    transport: Seq<char>,
    texts: &DoneLineTexts,
) -> Seq<Member> {
    seq![
        Member::Pair("duration_sec"@, Value::Raw(texts.duration_sec@)),
        Member::Fragment(color@),
        Member::Fragment(metadata@),
        Member::Fragment(transport),
    ]
}

fn add_probe_done_line_third(
    members: Fragment,
    color: &str,
    metadata: &str,
    transport: &str,
    texts: &DoneLineTexts,
) -> (r: Fragment)
    ensures
        r@ == members@ + probe_done_line_third(color, metadata, transport@, texts),
{
    let ghost before = members@;
    let r: Fragment = members
        .raw("duration_sec", texts.duration_sec.as_str())
        .fragment(color)
        .fragment(metadata)
        .fragment(transport);
    assert(r@ =~= before + probe_done_line_third(color, metadata, transport@, texts));
    r
}

/// What a probe reports at the end.
pub open spec fn probe_done_line_members(
    config: &H264RecvViewConfig<String>,
    snapshot: &NetworkSnapshot,
    stats: &ViewerStats,
    decoder_last_keyframe_id: Option<u64>,
    decoder_waiting_keyframe: bool,
    dimensions: VideoDimensions,
    closed_by_user: bool,
    stopped_by_console: bool,
    color: &str,
    metadata: &str,
    transport: Seq<char>,
    texts: &DoneLineTexts,
) -> Seq<Member> {
    probe_done_line_first(config, snapshot, stats)
        + probe_done_line_second(
            snapshot,
            stats,
            decoder_last_keyframe_id,
            decoder_waiting_keyframe,
            dimensions,
            closed_by_user,
            stopped_by_console,
            texts,
        )
        + probe_done_line_third(color, metadata, transport, texts)
}

/// What a probe reports at the end.
pub fn probe_done_line(
    config: &H264RecvViewConfig<String>,
    snapshot: &NetworkSnapshot,
    stats: &ViewerStats,
    decoder_last_keyframe_id: Option<u64>,
    decoder_waiting_keyframe: bool,
    dimensions: VideoDimensions,
    closed_by_user: bool,
    stopped_by_console: bool,
    color: &str,
    metadata: &str,
    transport: &str,
    texts: &DoneLineTexts,
) -> (r: String)
    ensures
        r@ == json::object(
            probe_done_line_members(
                config,
                snapshot,
                stats,
                decoder_last_keyframe_id,
                decoder_waiting_keyframe,
                dimensions,
                closed_by_user,
                stopped_by_console,
                color,
                metadata,
                transport@,
                texts,
            ),
        ),
{
    let members: Fragment = Fragment::new();
    let members: Fragment = add_probe_done_line_first(members, config, snapshot, stats);
    let members: Fragment = add_probe_done_line_second(
        members,
        snapshot,
        stats,
        decoder_last_keyframe_id,
        decoder_waiting_keyframe,
        dimensions,
        closed_by_user,
        stopped_by_console,
        texts,
    );
    let members: Fragment = add_probe_done_line_third(members, color, metadata, transport, texts);
    assert(members@ =~= probe_done_line_members(
        config,
        snapshot,
        stats,
        decoder_last_keyframe_id,
        decoder_waiting_keyframe,
        dimensions,
        closed_by_user,
        stopped_by_console,
        color,
        metadata,
        transport@,
        texts,
    ));
    members.finish_object()
}

/// What a viewer of a screen reports at the end.
pub open spec fn screen_done_line_members(
    event_type: Seq<char>,
    reason: Seq<char>,
    config: &H264RecvViewConfig<String>,
    snapshot: &NetworkSnapshot,
    stats: &ViewerStats,
    decoder_waiting_keyframe: bool,
    dimensions: VideoDimensions,
    color: &str,
    metadata: &str,
    transport: Seq<char>,
    context: &str,
    texts: &DoneLineTexts,
) -> Seq<Member> {
    seq![
        Member::Pair("type"@, Value::Name(event_type)),
        Member::Pair("role"@, Value::Name("receiver"@)),
        Member::Pair("mode"@, Value::Name("screen-recv"@)),
        Member::Pair("reason"@, Value::Name(reason)),
        Member::Pair("bind"@, Value::Quoted(config.bind@)),
        Member::Pair("port"@, Value::Number(config.port as u64)),
        Member::Pair("frames_complete"@, Value::Number(snapshot.reassembly.frames_complete)),
        Member::Pair("frames_decoded"@, Value::Number(stats.frames_decoded)),
        Member::Pair("frames_rendered"@, Value::Number(stats.frames_rendered)),
        Member::Pair("packets_received"@, Value::Number(snapshot.reassembly.packets_received)),
        Member::Pair("bytes_received"@, Value::Number(snapshot.reassembly.bytes_received)),
        Member::Pair(
            "packets_lost_estimate"@,
            Value::Number(snapshot.reassembly.packets_lost_estimate),
        ),
        Member::Pair("decoder_errors"@, Value::Number(stats.decoder_errors)),
        Member::Pair("decoder_resets"@, Value::Number(stats.decoder_resets)),
        Member::Pair("duration_sec"@, Value::Raw(texts.duration_sec@)),
        Member::Pair("width"@, Value::Number(dimensions.width as u64)),
        Member::Pair("height"@, Value::Number(dimensions.height as u64)),
        Member::Pair("last_frame_id"@, Value::Maybe(snapshot.reassembly.last_frame_id)),
        Member::Pair(
            "waiting_keyframe"@,
            Value::Flag(decoder_waiting_keyframe || snapshot.queue.waiting_keyframe),
        ),
        Member::Fragment(color@),
        Member::Fragment(metadata@),
        Member::Fragment(transport),
        Member::Fragment(context@),
    ]
}

/// What a viewer of a screen reports at the end.
pub fn screen_done_line(
    event_type: &str,
    reason: &str,
    config: &H264RecvViewConfig<String>,
    snapshot: &NetworkSnapshot,
    stats: &ViewerStats,
    decoder_waiting_keyframe: bool,
    dimensions: VideoDimensions,
    color: &str,
    metadata: &str,
    transport: &str,
    context: &str,
    texts: &DoneLineTexts,
) -> (r: String)
    ensures
        r@ == json::object(
            screen_done_line_members(
                event_type@,
                reason@,
                config,
                snapshot,
                stats,
                decoder_waiting_keyframe,
                dimensions,
                color,
                metadata,
                transport@,
                context,
                texts,
            ),
        ),
{
    let members: Fragment = Fragment::new()
        .name("type", event_type)
        .name("role", "receiver")
        .name("mode", "screen-recv")
        .name("reason", reason)
        .quoted("bind", config.bind.as_str())
        .number("port", config.port as u64)
        .number("frames_complete", snapshot.reassembly.frames_complete)
        .number("frames_decoded", stats.frames_decoded)
        .number("frames_rendered", stats.frames_rendered)
        .number("packets_received", snapshot.reassembly.packets_received)
        .number("bytes_received", snapshot.reassembly.bytes_received)
        .number("packets_lost_estimate", snapshot.reassembly.packets_lost_estimate)
        .number("decoder_errors", stats.decoder_errors)
        .number("decoder_resets", stats.decoder_resets)
        .raw("duration_sec", texts.duration_sec.as_str())
        .number("width", dimensions.width as u64)
        .number("height", dimensions.height as u64)
        .maybe("last_frame_id", snapshot.reassembly.last_frame_id)
        .flag("waiting_keyframe", decoder_waiting_keyframe || snapshot.queue.waiting_keyframe)
        .fragment(color)
        .fragment(metadata)
        .fragment(transport)
        .fragment(context);
    assert(members@ =~= screen_done_line_members(
        event_type@,
        reason@,
        config,
        snapshot,
        stats,
        decoder_waiting_keyframe,
        dimensions,
        color,
        metadata,
        transport@,
        context,
        texts,
    ));
    members.finish_object()
}

/// What is reported of the transport at the end: with it stand how the workers ended and
/// how the run did.
pub open spec fn done_transport(
    snapshot: &NetworkSnapshot,
    stats: &ViewerStats,
    transport: &TransportParts,
    shutdown: &ReceiverWorkerShutdownSummary,
) -> Seq<char> {
    json::render(
        seq![
            Member::Fragment(transport.text(snapshot, stats)),
            Member::Fragment(json::render(shutdown.members())),
            Member::Fragment(json::render(final_summary_members(snapshot, stats, shutdown))),
        ],
    )
}

/// What is reported at the end: in each mode its own line, with everything taken from the
/// same snapshot.
pub fn done_line(
    config: &H264RecvViewConfig<String>,
    reason: &str,
    snapshot: &NetworkSnapshot,
    stats: &ViewerStats,
    decoder_waiting_keyframe: bool,
    dimensions: VideoDimensions,
    closed_by_user: bool,
    stopped_by_console: bool,
    color: &str,
    metadata: &str,
    transport: &TransportParts,
    shutdown: &ReceiverWorkerShutdownSummary,
    context: &str,
    texts: &DoneLineTexts,
) -> (r: String)
    ensures
        r@ == json::object(
            match config.mode {
                H264RecvViewMode::Probe => probe_done_line_members(
                    config,
                    snapshot,
                    stats,
                    transport.decoder_last_keyframe_id,
                    decoder_waiting_keyframe,
                    dimensions,
                    closed_by_user,
                    stopped_by_console,
                    color,
                    metadata,
                    done_transport(snapshot, stats, transport, shutdown),
                    texts,
                ),
                H264RecvViewMode::Screen => screen_done_line_members(
                    shutdown::terminal_event(
                        shutdown.joined() && shutdown.runtime_error is None,
                    ),
                    reason@,
                    config,
                    snapshot,
                    stats,
                    decoder_waiting_keyframe,
                    dimensions,
                    color,
                    metadata,
                    done_transport(snapshot, stats, transport, shutdown),
                    context,
                    texts,
                ),
            },
        ),
{
    let written: String = transport.written(snapshot, stats);
    let ended: String = shutdown.json_fragment();
    let summary: String = final_summary(snapshot, stats, shutdown);
    let all: Fragment = Fragment::new()
        .fragment(written.as_str())
        .fragment(ended.as_str())
        .fragment(summary.as_str());
    assert(all@ =~= seq![
        Member::Fragment(transport.text(snapshot, stats)),
        Member::Fragment(json::render(shutdown.members())),
        Member::Fragment(json::render(final_summary_members(snapshot, stats, shutdown))),
    ]);
    let all: String = all.finish();
    match config.mode {
        H264RecvViewMode::Probe => probe_done_line(
            config,
            snapshot,
            stats,
            transport.decoder_last_keyframe_id,
            decoder_waiting_keyframe,
            dimensions,
            closed_by_user,
            stopped_by_console,
            color,
            metadata,
            all.as_str(),
            texts,
        ),
        H264RecvViewMode::Screen => screen_done_line(
            terminal_event_type(shutdown.clean()),
            reason,
            config,
            snapshot,
            stats,
            decoder_waiting_keyframe,
            dimensions,
            color,
            metadata,
            all.as_str(),
            context,
            texts,
        ),
    }
}

/// What went wrong.
pub open spec fn receiver_error_line_members(error: &str, context: &str) -> Seq<Member> {
    seq![
        Member::Pair("type"@, Value::Name("NATIVE_SCREEN_ERROR"@)),
        Member::Pair("role"@, Value::Name("receiver"@)),
        Member::Pair("mode"@, Value::Name("screen-recv"@)),
        Member::Pair("error"@, Value::Quoted(error@)),
        Member::Fragment(context@),
    ]
}

/// What went wrong.
pub fn receiver_error_line(error: &str, context: &str) -> (r: String)
    ensures
        r@ == json::object(receiver_error_line_members(error, context)),
{
    let members: Fragment = Fragment::new()
        .name("type", "NATIVE_SCREEN_ERROR")
        .name("role", "receiver")
        .name("mode", "screen-recv")
        .quoted("error", error)
        .fragment(context);
    assert(members@ =~= receiver_error_line_members(error, context));
    members.finish_object()
}

/// The first part of `receiver_startup_failure_line`.
pub open spec fn receiver_startup_failure_line_first(
    event_type: &str,
    reason: &str,
    config: &H264RecvViewConfig<String>,
) -> Seq<Member> {
    seq![
        Member::Pair("type"@, Value::Name(event_type@)),
        Member::Pair("role"@, Value::Name("receiver"@)),
        Member::Pair("mode"@, Value::Name("screen-recv"@)),
        Member::Pair("reason"@, Value::Name(reason@)),
        Member::Pair("bind"@, Value::Quoted(config.bind@)),
        Member::Pair("port"@, Value::Number(config.port as u64)),
        Member::Pair("frames_complete"@, Value::Number(0)),
        Member::Pair("frames_decoded"@, Value::Number(0)),
        Member::Pair("frames_rendered"@, Value::Number(0)),
        Member::Pair("packets_received"@, Value::Number(0)),
        Member::Pair("bytes_received"@, Value::Number(0)),
        Member::Pair("duration_sec"@, Value::Raw("0.0"@)),
        Member::Pair("profile_transition_phase"@, Value::Name("idle"@)),
        Member::Pair("profile_transition_active"@, Value::Flag(false)),
        Member::Pair("transition_timeout_count"@, Value::Number(0)),
        Member::Pair("transition_failure_reason"@, Value::Raw("null"@)),
        Member::Pair("qsv_async_wait_timeouts"@, Value::Number(0)),
        Member::Pair("qsv_async_wait_cancelled"@, Value::Number(0)),
        Member::Pair("qsv_drain_timeouts"@, Value::Number(0)),
        Member::Pair("worker_join_render"@, Value::Name("not_started"@)),
    ]
}

fn add_receiver_startup_failure_line_first(
    members: Fragment,
    event_type: &str,
    reason: &str,
    config: &H264RecvViewConfig<String>,
) -> (r: Fragment)
    ensures
        r@ == members@ + receiver_startup_failure_line_first(event_type, reason, config),
{
    let ghost before = members@;
    let r: Fragment = members
        .name("type", event_type)
        .name("role", "receiver")
        .name("mode", "screen-recv")
        .name("reason", reason)
        .quoted("bind", config.bind.as_str())
        .number("port", config.port as u64)
        .number("frames_complete", 0)
        .number("frames_decoded", 0)
        .number("frames_rendered", 0)
        .number("packets_received", 0)
        .number("bytes_received", 0)
        .raw("duration_sec", "0.0")
        .name("profile_transition_phase", "idle")
        .flag("profile_transition_active", false)
        .number("transition_timeout_count", 0)
        .raw("transition_failure_reason", "null")
        .number("qsv_async_wait_timeouts", 0)
        .number("qsv_async_wait_cancelled", 0)
        .number("qsv_drain_timeouts", 0)
        .name("worker_join_render", "not_started");
    assert(r@ =~= before + receiver_startup_failure_line_first(event_type, reason, config));
    r
}

/// The second part of `receiver_startup_failure_line`.
pub open spec fn receiver_startup_failure_line_second(
    cleanup_failed: bool,
    retained_workers: u64,
    error: &str,
    context: &str,
) -> Seq<Member> {
    seq![
        Member::Pair("worker_join_network"@, Value::Name("not_started"@)),
        Member::Pair("worker_join_audio"@, Value::Name("not_started"@)),
        Member::Pair("worker_join_all_clean"@, Value::Flag(!cleanup_failed)),
        Member::Pair("retained_worker_count"@, Value::Number(retained_workers)),
        Member::Pair("close_received"@, Value::Flag(false)),
        Member::Pair("close_ack_sent"@, Value::Flag(false)),
        Member::Pair("peer_timeout_triggered"@, Value::Flag(false)),
        Member::Pair("pending_nack_cancelled"@, Value::Number(0)),
        Member::Pair("pending_repair_state"@, Value::Name("not_started"@)),
        Member::Pair("final_complete_frames"@, Value::Number(0)),
        Member::Pair("final_decoded_frames"@, Value::Number(0)),
        Member::Pair("final_rendered_frames"@, Value::Number(0)),
        Member::Pair("last_error"@, Value::Quoted(error@)),
        Member::Pair("cleanup_duration_ms"@, Value::Raw("0.0"@)),
        Member::Fragment(context@),
    ]
}

fn add_receiver_startup_failure_line_second(
    members: Fragment,
    cleanup_failed: bool,
    retained_workers: u64,
    error: &str,
    context: &str,
) -> (r: Fragment)
    ensures
        r@ == members@ + receiver_startup_failure_line_second(
            cleanup_failed,
            retained_workers,
            error,
            context,
        ),
{
    let ghost before = members@;
    let r: Fragment = members
        .name("worker_join_network", "not_started")
        .name("worker_join_audio", "not_started")
        .flag("worker_join_all_clean", !cleanup_failed)
        .number("retained_worker_count", retained_workers)
        .flag("close_received", false)
        .flag("close_ack_sent", false)
        .flag("peer_timeout_triggered", false)
        .number("pending_nack_cancelled", 0)
        .name("pending_repair_state", "not_started")
        .number("final_complete_frames", 0)
        .number("final_decoded_frames", 0)
        .number("final_rendered_frames", 0)
        .quoted("last_error", error)
        .raw("cleanup_duration_ms", "0.0")
        .fragment(context);
    assert(
        r@ =~= before + receiver_startup_failure_line_second(
            cleanup_failed,
            retained_workers,
            error,
            context,
        )
    );
    r
}

/// What a viewer of a screen reports where it could not start.
pub open spec fn receiver_startup_failure_line_members(
    event_type: &str,
    reason: &str,
    config: &H264RecvViewConfig<String>,
    cleanup_failed: bool,
    retained_workers: u64,
    error: &str,
    context: &str,
) -> Seq<Member> {
    receiver_startup_failure_line_first(event_type, reason, config)
        + receiver_startup_failure_line_second(cleanup_failed, retained_workers, error, context)
}

/// What a viewer of a screen reports where it could not start.
pub fn receiver_startup_failure_line(
    event_type: &str,
    reason: &str,
    config: &H264RecvViewConfig<String>,
    cleanup_failed: bool,
    retained_workers: u64,
    error: &str,
    context: &str,
) -> (r: String)
    ensures
        r@ == json::object(
            receiver_startup_failure_line_members(
                event_type,
                reason,
                config,
                cleanup_failed,
                retained_workers,
                error,
                context,
            ),
        ),
{
    let members: Fragment = Fragment::new();
    let members: Fragment = add_receiver_startup_failure_line_first(
        members,
        event_type,
        reason,
        config,
    );
    let members: Fragment = add_receiver_startup_failure_line_second(
        members,
        cleanup_failed,
        retained_workers,
        error,
        context,
    );
    assert(members@ =~= receiver_startup_failure_line_members(
        event_type,
        reason,
        config,
        cleanup_failed,
        retained_workers,
        error,
        context,
    ));
    members.finish_object()
}

/// What a viewer of a screen reports when it has started.
pub open spec fn receiver_started_line_members(
    config: &H264RecvViewConfig<String>,
    render: &str,
    context: &str,
) -> Seq<Member> {
    seq![
        Member::Pair("type"@, Value::Name("NATIVE_SCREEN_STARTED"@)),
        Member::Pair("role"@, Value::Name("receiver"@)),
        Member::Pair("mode"@, Value::Name("screen-recv"@)),
        Member::Pair("bind"@, Value::Quoted(config.bind@)),
        Member::Pair("port"@, Value::Number(config.port as u64)),
        Member::Pair("strict_decode_order"@, Value::Flag(config.strict_decode_order)),
        Member::Pair("drop_damaged_gop"@, Value::Flag(config.drop_damaged_gop)),
        Member::Pair("playout_delay_ms"@, Value::Number(config.playout_delay_ms)),
        Member::Pair("audio_mode"@, Value::Name(config.audio_mode.text())),
        Member::Pair("av_sync_mode"@, Value::Name(config.av_sync_mode.text())),
        Member::Pair(
            "audio_jitter_buffer_ms"@,
            Value::Number(config.audio_jitter_buffer_ms as u64),
        ),
        Member::Pair("title"@, Value::Quoted(config.title@)),
        Member::Fragment(render@),
        Member::Fragment(context@),
    ]
}

/// What a viewer of a screen reports when it has started.
pub fn receiver_started_line(
    config: &H264RecvViewConfig<String>,
    render: &str,
    context: &str,
) -> (r: String)
    ensures
        r@ == json::object(receiver_started_line_members(config, render, context)),
{
    let members: Fragment = Fragment::new()
        .name("type", "NATIVE_SCREEN_STARTED")
        .name("role", "receiver")
        .name("mode", "screen-recv")
        .quoted("bind", config.bind.as_str())
        .number("port", config.port as u64)
        .flag("strict_decode_order", config.strict_decode_order)
        .flag("drop_damaged_gop", config.drop_damaged_gop)
        .number("playout_delay_ms", config.playout_delay_ms)
        .name("audio_mode", config.audio_mode.name())
        .name("av_sync_mode", config.av_sync_mode.name())
        .number("audio_jitter_buffer_ms", config.audio_jitter_buffer_ms as u64)
        .quoted("title", config.title.as_str())
        .fragment(render)
        .fragment(context);
    assert(members@ =~= receiver_started_line_members(config, render, context));
    members.finish_object()
}

// What the reports say.

/// What is reported of the sound that is received: each count under its name.
pub proof fn law_audio_receiver_fragment_tells(
    audio: &AudioReceiveStats,
    stats: &ViewerStats,
    texts: &AudioReceiverFragmentTexts,
)
    ensures
        ({
            let members = audio_receiver_fragment_members(audio, stats, texts);
            &&& json::flags(members, "audio_thread_started"@, audio.thread_started)
            &&& json::flags(members, "audio_playback_started"@, audio.playback_started)
            &&& json::flags(members, "audio_playhead_valid"@, audio.audio_playhead_valid)
            &&& json::flags(members, "audio_master_valid"@, audio.audio_playhead_valid)
            &&& json::names(members, "av_sync_mode"@, stats.av_sync_mode.text())
            &&& json::names(members, "av_sync_state"@, stats.av_sync_state.text())
            &&& json::counts(members, "av_sync_state_transitions"@, stats.av_sync_state_transitions)
            &&& json::counts(
                members,
                "av_sync_forced_release_count"@,
                stats.av_sync_forced_release_count,
            )
            &&& json::counts(members, "av_sync_hold_epoch_ms"@, stats.av_sync_hold_epoch_ms)
            &&& json::flags(members, "video_sync_gating_enabled"@, stats.video_sync_gating_enabled)
            &&& json::counts(members, "audio_packets_received"@, audio.packets_received)
            &&& json::counts(members, "audio_packets_invalid"@, audio.audio_packets_invalid)
            &&& json::counts(
                members,
                "audio_packets_dropped_session_mismatch"@,
                audio.audio_packets_dropped_session_mismatch,
            )
            &&& json::flags(members, "audio_session_matched"@, audio.audio_session_matched)
            &&& json::counts_if_known(members, "audio_session_id"@, audio.audio_session_id)
            &&& json::counts_if_known(
                members,
                "expected_video_session_id"@,
                audio.expected_video_session_id,
            )
            &&& json::counts(members, "audio_packets_lost_estimate"@, audio.packets_lost_estimate)
            &&& json::counts(
                members,
                "audio_jitter_buffer_target_ms"@,
                audio.jitter_buffer_target_ms,
            )
            &&& json::counts_if_known(
                members,
                "audio_playhead_timestamp_us"@,
                audio.audio_playhead_timestamp_us,
            )
            &&& json::counts_if_known(
                members,
                "audio_submitted_timestamp_us"@,
                audio.audio_submitted_timestamp_us,
            )
            &&& json::counts_if_known(
                members,
                "latest_audio_packet_timestamp_us"@,
                audio.latest_audio_packet_timestamp_us,
            )
            &&& json::counts(
                members,
                "audio_samples_rendered_total"@,
                audio.audio_samples_rendered_total,
            )
            &&& json::counts(
                members,
                "audio_device_frames_submitted_total"@,
                audio.audio_samples_rendered_total,
            )
            &&& json::counts(
                members,
                "audio_media_samples_rendered_total"@,
                audio.audio_media_samples_rendered_total,
            )
            &&& json::counts(
                members,
                "audio_media_samples_submitted_total"@,
                audio.audio_media_samples_submitted_total,
            )
            &&& json::counts(
                members,
                "audio_media_samples_audible_estimated_total"@,
                audio.audio_media_samples_audible_estimated_total,
            )
            &&& json::counts(
                members,
                "audio_samples_queued_current"@,
                audio.audio_samples_queued_current,
            )
            &&& json::counts(
                members,
                "audio_samples_dropped_for_latency"@,
                audio.audio_samples_dropped_for_latency,
            )
            &&& json::counts(
                members,
                "audio_latency_drop_discontinuities"@,
                audio.audio_latency_drop_discontinuities,
            )
            &&& json::counts(members, "audio_master_reanchors"@, audio.audio_master_reanchors)
            &&& json::counts(
                members,
                "audio_device_padding_frames"@,
                audio.audio_device_padding_frames,
            )
            &&& json::flags(
                members,
                "audio_device_padding_valid"@,
                audio.audio_device_padding_valid,
            )
            &&& json::counts(
                members,
                "audio_callback_empty_polls"@,
                audio.audio_callback_empty_polls,
            )
            &&& json::counts(members, "audio_real_underruns"@, audio.audio_real_underruns)
            &&& json::counts(members, "audio_underruns"@, audio.audio_real_underruns)
            &&& json::counts(
                members,
                "audio_silence_filled_frames"@,
                audio.audio_silence_filled_frames,
            )
            &&& json::counts(
                members,
                "audio_device_silence_filled_frames"@,
                audio.audio_device_silence_filled_frames,
            )
            &&& json::counts(
                members,
                "audio_prestart_silence_frames"@,
                audio.audio_prestart_silence_frames,
            )
            &&& json::counts(
                members,
                "audio_poststream_silence_frames"@,
                audio.audio_poststream_silence_frames,
            )
            &&& json::counts(
                members,
                "audio_playhead_discontinuities"@,
                audio.audio_playhead_discontinuities,
            )
            &&& json::counts(members, "audio_late_packets"@, audio.late_packets)
            &&& json::counts(members, "audio_queue_drops"@, audio.audio_queue_drops)
            &&& json::counts(members, "audio_sample_rate"@, audio.sample_rate)
            &&& json::counts(members, "audio_channels"@, audio.channels)
            &&& json::counts(
                members,
                "video_frames_dropped_for_av_sync"@,
                stats.video_frames_dropped_for_av_sync,
            )
            &&& json::counts(
                members,
                "video_frames_held_for_av_sync"@,
                stats.video_frames_held_for_av_sync,
            )
            &&& json::counts(
                members,
                "video_frames_actually_dropped"@,
                stats.video_frames_dropped_for_av_sync,
            )
            &&& json::counts(
                members,
                "video_frames_actually_held"@,
                stats.video_frames_held_for_av_sync,
            )
        }),
{
    let members = audio_receiver_fragment_members(audio, stats, texts);
    assert(members[1] is Pair);
    assert(members[2] is Pair);
    assert(members[3] is Pair);
    assert(members[4] is Pair);
    assert(members[8] is Pair);
    assert(members[9] is Pair);
    assert(members[11] is Pair);
    assert(members[12] is Pair);
    assert(members[13] is Pair);
    assert(members[14] is Pair);
    assert(members[15] is Pair);
    assert(members[16] is Pair);
    assert(members[17] is Pair);
    assert(members[18] is Pair);
    assert(members[19] is Pair);
    assert(members[20] is Pair);
    assert(members[21] is Pair);
    assert(members[26] is Pair);
    assert(members[28] is Pair);
    assert(members[29] is Pair);
    assert(members[30] is Pair);
    assert(members[31] is Pair);
    assert(members[32] is Pair);
    assert(members[33] is Pair);
    assert(members[34] is Pair);
    assert(members[35] is Pair);
    assert(members[36] is Pair);
    assert(members[37] is Pair);
    assert(members[38] is Pair);
    assert(members[39] is Pair);
    assert(members[40] is Pair);
    assert(members[42] is Pair);
    assert(members[43] is Pair);
    assert(members[44] is Pair);
    assert(members[45] is Pair);
    assert(members[46] is Pair);
    assert(members[47] is Pair);
    assert(members[48] is Pair);
    assert(members[49] is Pair);
    assert(members[50] is Pair);
    assert(members[51] is Pair);
    assert(members[54] is Pair);
    assert(members[56] is Pair);
    assert(members[57] is Pair);
    assert(members[60] is Pair);
    assert(members[61] is Pair);
    assert(members[62] is Pair);
    assert(members[63] is Pair);
}

/// What is reported of the repairs that were asked for: each count under its name.
pub proof fn law_receiver_repair_fragment_tells(
    snapshot: &NetworkSnapshot,
    texts: &ReceiverRepairFragmentTexts,
)
    ensures
        ({
            let members = receiver_repair_fragment_members(snapshot, texts);
            &&& json::names(members, "repair_mode"@, snapshot.state.repair_mode.text())
            &&& json::counts(
                members,
                "video_data_packets_received"@,
                snapshot.state.dispatch.video_data_packets_received,
            )
            &&& json::counts(
                members,
                "video_fec_packets_received"@,
                snapshot.state.dispatch.video_fec_packets_received,
            )
            &&& json::counts(
                members,
                "audio_packets_received"@,
                snapshot.state.dispatch.audio_packets_received,
            )
            &&& json::counts(
                members,
                "unknown_packets_received"@,
                snapshot.state.dispatch.unknown_packets_received,
            )
            &&& json::counts(
                members,
                "nack_control_packets_received"@,
                snapshot.state.dispatch.nack_control_packets_received,
            )
            &&& json::counts(members, "nack_packets_sent"@, snapshot.state.repair.nack_packets_sent)
            &&& json::counts(members, "nack_items_sent"@, snapshot.state.repair.nack_items_sent)
            &&& json::counts(
                members,
                "nack_frames_requested"@,
                snapshot.state.repair.nack_frames_requested,
            )
            &&& json::counts(members, "nack_rounds_sent"@, snapshot.state.repair.nack_rounds_sent)
            &&& json::counts(
                members,
                "nack_candidate_frames"@,
                snapshot.state.repair.nack_candidate_frames,
            )
            &&& json::counts(
                members,
                "nack_suppressed_progressing_frames"@,
                snapshot.state.repair.nack_suppressed_progressing_frames,
            )
            &&& json::counts(
                members,
                "nack_suppressed_too_early"@,
                snapshot.state.repair.nack_suppressed_too_early,
            )
            &&& json::counts(
                members,
                "nack_suppressed_already_requested"@,
                snapshot.state.repair.nack_suppressed_already_requested,
            )
            &&& json::counts(
                members,
                "nack_suppressed_item_limit"@,
                snapshot.state.repair.nack_suppressed_item_limit,
            )
            &&& json::counts(
                members,
                "nack_items_deduped"@,
                snapshot.state.repair.nack_items_deduped,
            )
            &&& json::counts(
                members,
                "nack_items_per_requested_frame_max"@,
                snapshot.state.repair.nack_items_per_requested_frame_max,
            )
            &&& json::counts(
                members,
                "repair_packets_received"@,
                snapshot.state.repair.repair_packets_received,
            )
            &&& json::counts(
                members,
                "repair_packets_inserted"@,
                snapshot.state.repair.repair_packets_inserted,
            )
            &&& json::counts(
                members,
                "repair_packets_matched_inflight"@,
                snapshot.state.repair.repair_packets_inserted,
            )
            &&& json::counts(
                members,
                "repair_duplicate_packets"@,
                snapshot.state.repair.repair_duplicate_packets,
            )
            &&& json::counts(
                members,
                "repair_packets_dropped_wrong_type"@,
                snapshot.state.dispatch.repair_packets_dropped_wrong_type,
            )
            &&& json::counts(
                members,
                "repair_packets_dropped_late"@,
                snapshot.state.dispatch.repair_packets_dropped_late,
            )
            &&& json::counts(
                members,
                "repair_packets_dropped_no_frame"@,
                snapshot.state.dispatch.repair_packets_dropped_no_frame,
            )
            &&& json::counts(
                members,
                "repair_late_packets"@,
                snapshot.state.dispatch.repair_packets_dropped_late,
            )
            &&& json::counts(
                members,
                "repair_frames_completed"@,
                snapshot.state.repair.repair_frames_completed,
            )
            &&& json::counts(
                members,
                "repair_deadline_missed"@,
                snapshot.state.repair.repair_deadline_missed,
            )
            &&& json::counts(
                members,
                "frames_missing_after_repair"@,
                snapshot.reassembly.frames_missing_after_fec,
            )
            &&& json::counts(
                members,
                "frames_dropped_after_repair"@,
                snapshot.reassembly.frames_dropped_after_fec,
            )
            &&& json::counts(
                members,
                "repair_send_errors"@,
                snapshot.state.repair.repair_send_errors,
            )
            &&& json::counts(
                members,
                "repair_cancelled_frame_complete"@,
                snapshot.state.repair.repair_cancelled_frame_complete,
            )
            &&& json::counts(
                members,
                "repair_overhead_packets"@,
                snapshot.state.repair.repair_packets_received,
            )
            &&& json::counts(
                members,
                "stream_close_received"@,
                snapshot.state.dispatch.stream_close_received,
            )
            &&& json::counts(
                members,
                "stream_close_ack_sent"@,
                snapshot.state.dispatch.stream_close_ack_sent,
            )
            &&& json::counts(
                members,
                "stream_close_rejected_pre_session"@,
                snapshot.state.dispatch.stream_close_rejected_pre_session,
            )
            &&& json::counts(
                members,
                "stream_close_rejected_peer"@,
                snapshot.state.dispatch.stream_close_rejected_peer,
            )
            &&& json::counts(
                members,
                "stream_close_rejected_session"@,
                snapshot.state.dispatch.stream_close_rejected_session,
            )
            &&& json::counts(
                members,
                "stream_close_rejected_invalid"@,
                snapshot.state.dispatch.stream_close_rejected_invalid,
            )
            &&& json::counts(
                members,
                "stream_close_duplicate"@,
                snapshot.state.dispatch.stream_close_duplicate,
            )
            &&& json::counts(
                members,
                "stream_close_sent"@,
                snapshot.state.dispatch.stream_close_sent,
            )
            &&& json::counts(
                members,
                "stream_close_retry_count"@,
                snapshot.state.dispatch.stream_close_retry_count,
            )
            &&& json::flags(
                members,
                "stream_close_ack_received"@,
                snapshot.state.dispatch.stream_close_ack_received,
            )
            &&& json::flags(
                members,
                "stream_close_handshake_timeout"@,
                snapshot.state.dispatch.stream_close_handshake_timeout,
            )
            &&& json::flags(
                members,
                "peer_timeout_triggered"@,
                snapshot.state.dispatch.peer_timeout_triggered,
            )
            &&& json::counts(
                members,
                "peer_last_valid_age_ms"@,
                snapshot.state.dispatch.peer_last_valid_age_ms,
            )
        }),
{
    let members = receiver_repair_fragment_members(snapshot, texts);
    assert(members[0] is Pair);
    assert(members[1] is Pair);
    assert(members[2] is Pair);
    assert(members[3] is Pair);
    assert(members[4] is Pair);
    assert(members[5] is Pair);
    assert(members[7] is Pair);
    assert(members[8] is Pair);
    assert(members[9] is Pair);
    assert(members[10] is Pair);
    assert(members[11] is Pair);
    assert(members[12] is Pair);
    assert(members[13] is Pair);
    assert(members[14] is Pair);
    assert(members[15] is Pair);
    assert(members[16] is Pair);
    assert(members[18] is Pair);
    assert(members[19] is Pair);
    assert(members[20] is Pair);
    assert(members[21] is Pair);
    assert(members[22] is Pair);
    assert(members[23] is Pair);
    assert(members[24] is Pair);
    assert(members[25] is Pair);
    assert(members[26] is Pair);
    assert(members[27] is Pair);
    assert(members[28] is Pair);
    assert(members[31] is Pair);
    assert(members[32] is Pair);
    assert(members[35] is Pair);
    assert(members[36] is Pair);
    assert(members[37] is Pair);
    assert(members[39] is Pair);
    assert(members[40] is Pair);
    assert(members[41] is Pair);
    assert(members[42] is Pair);
    assert(members[43] is Pair);
    assert(members[44] is Pair);
    assert(members[45] is Pair);
    assert(members[46] is Pair);
    assert(members[47] is Pair);
    assert(members[48] is Pair);
    assert(members[49] is Pair);
    assert(members[50] is Pair);
    assert(members[51] is Pair);
}

/// What is reported of the packets: each count under its name.
pub proof fn law_receiver_network_fragment_tells(
    snapshot: &NetworkSnapshot,
    stats: &ViewerStats,
    decoder_last_keyframe_id: Option<u64>,
    anchor: Seq<char>,
    audio: Seq<char>,
    repair: Seq<char>,
    render: Seq<char>,
    texts: &ReceiverNetworkFragmentTexts,
)
    ensures
        ({
            let members = receiver_network_fragment_members(
                snapshot,
                stats,
                decoder_last_keyframe_id,
                anchor,
                audio,
                repair,
                render,
                texts,
            );
            &&& json::counts(
                members,
                "udp_recv_loop_overruns"@,
                snapshot.state.udp_recv_loop_overruns,
            )
            &&& json::counts(
                members,
                "complete_frame_queue_len"@,
                snapshot.queue.decode_queue as u64,
            )
            &&& json::counts(
                members,
                "complete_frame_queue_peak"@,
                snapshot.queue.decode_queue_peak as u64,
            )
            &&& json::counts(
                members,
                "complete_frame_queue_drops"@,
                snapshot.queue.complete_frame_queue_drops,
            )
            &&& json::counts(
                members,
                "reassembly_frames_active"@,
                snapshot.reassembly.reassembly_frames_active,
            )
            &&& json::counts(
                members,
                "reassembly_packets_active"@,
                snapshot.reassembly.reassembly_packets_active,
            )
            &&& json::counts(
                members,
                "reassembly_packet_slots_reserved"@,
                snapshot.reassembly.reassembly_packet_slots_reserved,
            )
            &&& json::counts(
                members,
                "reassembly_payload_bytes_reserved"@,
                snapshot.reassembly.reassembly_payload_bytes_reserved,
            )
            &&& json::counts(
                members,
                "reassembly_budget_rejected_frames"@,
                snapshot.reassembly.reassembly_budget_rejected_frames,
            )
            &&& json::counts(
                members,
                "reassembly_oversize_frames"@,
                snapshot.reassembly.reassembly_oversize_frames,
            )
            &&& json::flags(members, "reassembly_fast_path_enabled"@, true)
            &&& json::counts(
                members,
                "reassembly_allocations_estimate"@,
                snapshot.reassembly.reassembly_allocations_estimate,
            )
            &&& json::counts(
                members,
                "reassembly_complete_scan_count"@,
                snapshot.reassembly.reassembly_complete_scan_count,
            )
            &&& json::counts(members, "playout_delay_ms"@, snapshot.playout_delay_ms)
            &&& json::counts(
                members,
                "playout_buffer_frames"@,
                snapshot.playout_buffer_frames as u64,
            )
            &&& json::counts(
                members,
                "playout_buffer_peak_frames"@,
                snapshot.playout.buffer_peak_frames as u64,
            )
            &&& json::counts(members, "playout_late_frames"@, snapshot.playout.late_frames)
            &&& json::counts(
                members,
                "playout_dropped_late_frames"@,
                snapshot.playout.dropped_late_frames,
            )
            &&& json::counts(
                members,
                "playout_dropped_discontinuity_frames"@,
                snapshot.playout.dropped_discontinuity_frames,
            )
            &&& json::names(members, "media_clock"@, "instant"@)
            &&& json::counts(
                members,
                "decoder_configured_fps"@,
                stats.decoder_configured_fps as u64,
            )
            &&& json::counts(
                members,
                "decoder_sample_duration_us"@,
                stats.decoder_sample_duration_us,
            )
            &&& json::counts(
                members,
                "decoded_frame_queue_len"@,
                stats.decoded_frame_queue_len as u64,
            )
            &&& json::counts(members, "decoded_frame_queue_peak"@, stats.render_queue_peak as u64)
            &&& json::counts(members, "decoded_frame_queue_drops"@, stats.decoded_frame_queue_drops)
            &&& json::counts(
                members,
                "decoded_frames_replaced_by_latest"@,
                stats.frames_decoded_not_rendered,
            )
            &&& json::counts(
                members,
                "render_latest_slot_replacements"@,
                stats.frames_decoded_not_rendered,
            )
            &&& json::counts(members, "decoder_blocked_by_render_count"@, 0)
            &&& json::counts(
                members,
                "frames_missing_packets"@,
                snapshot.reassembly.frames_incomplete_expired,
            )
            &&& json::counts(
                members,
                "frames_dropped_incomplete"@,
                snapshot.reassembly.frames_incomplete_expired,
            )
            &&& json::counts(
                members,
                "fec_packets_received"@,
                snapshot.reassembly.fec_packets_received,
            )
            &&& json::counts(
                members,
                "fec_frames_recovered"@,
                snapshot.reassembly.fec_frames_recovered,
            )
            &&& json::counts(
                members,
                "fec_packets_recovered"@,
                snapshot.reassembly.fec_packets_recovered,
            )
            &&& json::counts(
                members,
                "fec_recovery_failed_multi_missing"@,
                snapshot.reassembly.fec_recovery_failed_multi_missing,
            )
            &&& json::counts(
                members,
                "fec_recovery_failed_no_parity"@,
                snapshot.reassembly.fec_recovery_failed_no_parity,
            )
            &&& json::counts(
                members,
                "fec_recovery_failed_invalid"@,
                snapshot.reassembly.fec_recovery_failed_invalid,
            )
            &&& json::counts(
                members,
                "frames_missing_after_fec"@,
                snapshot.reassembly.frames_missing_after_fec,
            )
            &&& json::counts(
                members,
                "frames_dropped_after_fec"@,
                snapshot.reassembly.frames_dropped_after_fec,
            )
            &&& json::counts(members, "decoder_resets"@, stats.decoder_resets)
            &&& json::flags(members, "drop_damaged_gop"@, snapshot.drop_damaged_gop)
            &&& json::counts(members, "damaged_gop_count"@, snapshot.damaged_gop.damaged_gop_count)
            &&& json::counts(
                members,
                "frames_discarded_damaged_gop"@,
                snapshot.damaged_gop.frames_discarded_damaged_gop,
            )
            &&& json::counts(
                members,
                "frames_discarded_waiting_keyframe"@,
                snapshot.damaged_gop.frames_discarded_waiting_keyframe,
            )
            &&& json::counts(
                members,
                "waiting_keyframe_entries"@,
                snapshot.damaged_gop.waiting_keyframe_entries,
            )
            &&& json::counts(
                members,
                "waiting_keyframe_exits"@,
                snapshot.damaged_gop.waiting_keyframe_exits,
            )
            &&& json::counts(
                members,
                "idr_frames_received"@,
                snapshot.damaged_gop.idr_frames_received,
            )
            &&& json::counts(
                members,
                "idr_frames_used_for_recovery"@,
                snapshot.damaged_gop.idr_frames_used_for_recovery,
            )
            &&& json::counts(
                members,
                "non_idr_frames_discarded_waiting"@,
                snapshot.damaged_gop.non_idr_frames_discarded_waiting,
            )
            &&& json::counts(
                members,
                "recovery_wait_frames_max"@,
                snapshot.damaged_gop.recovery_wait_frames_max,
            )
            &&& json::counts_if_known(
                members,
                "next_decode_frame_id"@,
                snapshot.reassembly.next_decode_frame_id,
            )
            &&& json::counts(members, "decode_gate_stalls"@, snapshot.reassembly.decode_gate_stalls)
            &&& json::counts(
                members,
                "decode_gate_gap_events"@,
                snapshot.reassembly.decode_gate_gap_events,
            )
            &&& json::counts(
                members,
                "frames_buffered_waiting_order"@,
                snapshot.completed_waiting as u64,
            )
            &&& json::counts(
                members,
                "frames_discarded_decode_gate"@,
                snapshot.reassembly.frames_discarded_decode_gate,
            )
            &&& json::counts(members, "reorder_wait_ms"@, snapshot.reassembly.reorder_wait_ms)
        }),
{
    let members = receiver_network_fragment_members(
        snapshot,
        stats,
        decoder_last_keyframe_id,
        anchor,
        audio,
        repair,
        render,
        texts,
    );
    assert(members[5] is Pair);
    assert(members[6] is Pair);
    assert(members[7] is Pair);
    assert(members[8] is Pair);
    assert(members[9] is Pair);
    assert(members[10] is Pair);
    assert(members[11] is Pair);
    assert(members[12] is Pair);
    assert(members[13] is Pair);
    assert(members[14] is Pair);
    assert(members[15] is Pair);
    assert(members[16] is Pair);
    assert(members[17] is Pair);
    assert(members[18] is Pair);
    assert(members[19] is Pair);
    assert(members[20] is Pair);
    assert(members[21] is Pair);
    assert(members[22] is Pair);
    assert(members[23] is Pair);
    assert(members[26] is Pair);
    assert(members[28] is Pair);
    assert(members[29] is Pair);
    assert(members[35] is Pair);
    assert(members[36] is Pair);
    assert(members[37] is Pair);
    assert(members[38] is Pair);
    assert(members[39] is Pair);
    assert(members[40] is Pair);
    assert(members[41] is Pair);
    assert(members[42] is Pair);
    assert(members[44] is Pair);
    assert(members[45] is Pair);
    assert(members[46] is Pair);
    assert(members[47] is Pair);
    assert(members[48] is Pair);
    assert(members[49] is Pair);
    assert(members[50] is Pair);
    assert(members[51] is Pair);
    assert(members[54] is Pair);
    assert(members[55] is Pair);
    assert(members[56] is Pair);
    assert(members[57] is Pair);
    assert(members[58] is Pair);
    assert(members[59] is Pair);
    assert(members[60] is Pair);
    assert(members[61] is Pair);
    assert(members[62] is Pair);
    assert(members[63] is Pair);
    assert(members[67] is Pair);
    assert(members[68] is Pair);
    assert(members[69] is Pair);
    assert(members[70] is Pair);
    assert(members[73] is Pair);
    assert(members[74] is Pair);
    assert(members[75] is Pair);
}

/// What is reported of the times of the receiver: each count under its name.
pub proof fn law_receiver_timing_fragment_tells(
    snapshot: &NetworkSnapshot,
    texts: &ReceiverTimingFragmentTexts,
)
    ensures
        ({
            let members = receiver_timing_fragment_members(snapshot, texts);
            &&& json::counts(
                members,
                "repair_unique_packets_received"@,
                snapshot.state.repair.repair_unique_packets_received,
            )
            &&& json::counts(
                members,
                "repair_duplicate_packets_received"@,
                snapshot.state.repair.repair_duplicate_packets_received,
            )
            &&& json::counts(
                members,
                "repair_packets_received_after_frame_complete"@,
                snapshot.state.repair.repair_packets_received_after_frame_complete,
            )
            &&& json::counts(
                members,
                "nack_candidates_first_round"@,
                snapshot.state.repair.nack_candidates_first_round,
            )
            &&& json::counts(
                members,
                "nack_candidates_late_discovery"@,
                snapshot.state.repair.nack_candidates_late_discovery,
            )
            &&& json::counts(
                members,
                "nack_requests_cancelled_by_progress"@,
                snapshot.reassembly.nack_requests_cancelled_by_progress,
            )
        }),
{
    let members = receiver_timing_fragment_members(snapshot, texts);
    assert(members[0] is Pair);
    assert(members[1] is Pair);
    assert(members[2] is Pair);
    assert(members[3] is Pair);
    assert(members[4] is Pair);
    assert(members[5] is Pair);
}

/// What is reported of the profile: each count under its name.
pub proof fn law_receiver_profile_fragment_tells(
    snapshot: &NetworkSnapshot,
    stats: &ViewerStats,
    display: Seq<char>,
    texts: &ReceiverProfileFragmentTexts,
)
    ensures
        ({
            let members = receiver_profile_fragment_members(snapshot, stats, display, texts);
            &&& json::counts(
                members,
                "receiver_capability_feedback_sent"@,
                snapshot.state.feedback.sent,
            )
            &&& json::counts(
                members,
                "receiver_capability_feedback_send_errors"@,
                snapshot.state.feedback.send_errors,
            )
            &&& json::counts(members, "receiver_display_generation"@, stats.display_generation)
            &&& json::counts(
                members,
                "profile_changes_received"@,
                snapshot.state.profile.changes_received,
            )
            &&& json::counts(
                members,
                "profile_changes_invalid"@,
                snapshot.state.profile.changes_invalid,
            )
            &&& json::counts(
                members,
                "profile_change_sequence"@,
                snapshot.state.profile.change_sequence,
            )
            &&& json::counts(members, "profile_generation"@, snapshot.state.profile.generation)
            &&& json::counts(
                members,
                "profile_target_width"@,
                snapshot.state.profile.target_width as u64,
            )
            &&& json::counts(
                members,
                "profile_target_height"@,
                snapshot.state.profile.target_height as u64,
            )
            &&& json::counts(
                members,
                "profile_target_fps"@,
                snapshot.state.profile.target_fps as u64,
            )
            &&& json::counts(
                members,
                "profile_decoder_resets"@,
                snapshot.state.profile.decoder_resets,
            )
            &&& json::counts(
                members,
                "stale_profile_packets_dropped"@,
                snapshot.state.profile.stale_packets_dropped,
            )
            &&& json::flags(
                members,
                "feedback_sample_eligible"@,
                snapshot.transition.feedback_sample_eligible,
            )
            &&& json::counts(
                members,
                "receiver_valid_feedback_windows"@,
                snapshot.transition.valid_feedback_windows as u64,
            )
            &&& json::flags(members, "receiver_render_ready"@, snapshot.transition.render_ready)
            &&& json::flags(
                members,
                "receiver_profile_settled"@,
                snapshot.transition.profile_settled,
            )
            &&& json::flags(
                members,
                "receiver_profile_acknowledged"@,
                snapshot.transition.profile_acknowledged,
            )
            &&& json::flags(
                members,
                "receiver_first_idr_decoded"@,
                snapshot.transition.first_idr_decoded,
            )
            &&& json::flags(
                members,
                "receiver_first_frame_rendered"@,
                snapshot.transition.first_frame_rendered,
            )
            &&& json::flags(
                members,
                "profile_transition_active"@,
                snapshot.transition.profile_transition_active,
            )
            &&& json::names(
                members,
                "profile_transition_phase"@,
                snapshot.transition.profile_transition_phase.text(),
            )
            &&& json::counts(
                members,
                "profile_transition_started_us"@,
                snapshot.transition.profile_transition_started_us,
            )
            &&& json::counts(
                members,
                "profile_transition_deadline_remaining_ms"@,
                snapshot.transition.transition_overall_deadline_remaining_ms,
            )
            &&& json::counts(
                members,
                "transition_timeout_count"@,
                snapshot.transition.transition_timeout_count,
            )
            &&& json::counts(
                members,
                "transition_recovery_count"@,
                snapshot.transition.transition_recovery_count as u64,
            )
            &&& json::counts(
                members,
                "transition_settle_restart_count"@,
                snapshot.transition.transition_settle_restart_count as u64,
            )
            &&& json::counts(
                members,
                "transition_settle_deadline_remaining_ms"@,
                snapshot.transition.transition_settle_deadline_remaining_ms,
            )
            &&& json::counts(
                members,
                "transition_overall_deadline_remaining_ms"@,
                snapshot.transition.transition_overall_deadline_remaining_ms,
            )
            &&& json::counts(
                members,
                "transition_settle_windows"@,
                snapshot.transition.transition_settle_windows as u64,
            )
            &&& json::counts(
                members,
                "transition_settle_duration_ms"@,
                snapshot.transition.transition_settle_duration_ms as u64,
            )
            &&& json::flags(
                members,
                "pending_profile_present"@,
                snapshot.state.profile.pending.present,
            )
            &&& json::counts(
                members,
                "pending_profile_age_ms"@,
                snapshot.state.profile.pending.age_ms,
            )
            &&& json::counts(
                members,
                "pending_profile_deadline_remaining_ms"@,
                snapshot.state.profile.pending.deadline_remaining_ms,
            )
            &&& json::counts(
                members,
                "pending_profile_change_sequence"@,
                snapshot.state.profile.pending.change_sequence,
            )
            &&& json::counts(
                members,
                "pending_profile_generation"@,
                snapshot.state.profile.pending.generation,
            )
            &&& json::counts(
                members,
                "pending_profile_old_session_id"@,
                snapshot.state.profile.pending.old_session_id,
            )
            &&& json::counts(
                members,
                "pending_profile_new_session_id"@,
                snapshot.state.profile.pending.new_session_id,
            )
            &&& json::counts(
                members,
                "mprf_packets_received"@,
                snapshot.state.profile.control.mprf_packets_received,
            )
            &&& json::counts(
                members,
                "mprf_ack_packets_sent"@,
                snapshot.state.profile.control.mprf_ack_packets_sent,
            )
            &&& json::counts(
                members,
                "mprf_duplicate_reacked"@,
                snapshot.state.profile.control.mprf_duplicate_reacked,
            )
            &&& json::counts(
                members,
                "mprf_pending_expired"@,
                snapshot.state.profile.control.mprf_pending_expired,
            )
            &&& json::counts(
                members,
                "mprf_rejected_foreign_peer"@,
                snapshot.state.profile.control.mprf_rejected_foreign_peer,
            )
            &&& json::counts(
                members,
                "mprf_rejected_old_session"@,
                snapshot.state.profile.control.mprf_rejected_old_session,
            )
            &&& json::counts(
                members,
                "mprf_rejected_sequence"@,
                snapshot.state.profile.control.mprf_rejected_sequence,
            )
            &&& json::counts(
                members,
                "mprf_rejected_generation"@,
                snapshot.state.profile.control.mprf_rejected_generation,
            )
            &&& json::counts(
                members,
                "mprf_rejected_invalid_fields"@,
                snapshot.state.profile.control.mprf_rejected_invalid_fields,
            )
            &&& json::counts(
                members,
                "new_session_activation_count"@,
                snapshot.state.profile.control.new_session_activation_count,
            )
        }),
{
    let members = receiver_profile_fragment_members(snapshot, stats, display, texts);
    assert(members[0] is Pair);
    assert(members[1] is Pair);
    assert(members[2] is Pair);
    assert(members[5] is Pair);
    assert(members[6] is Pair);
    assert(members[7] is Pair);
    assert(members[8] is Pair);
    assert(members[9] is Pair);
    assert(members[10] is Pair);
    assert(members[11] is Pair);
    assert(members[13] is Pair);
    assert(members[14] is Pair);
    assert(members[15] is Pair);
    assert(members[16] is Pair);
    assert(members[17] is Pair);
    assert(members[18] is Pair);
    assert(members[19] is Pair);
    assert(members[20] is Pair);
    assert(members[21] is Pair);
    assert(members[22] is Pair);
    assert(members[23] is Pair);
    assert(members[24] is Pair);
    assert(members[25] is Pair);
    assert(members[26] is Pair);
    assert(members[29] is Pair);
    assert(members[30] is Pair);
    assert(members[31] is Pair);
    assert(members[32] is Pair);
    assert(members[33] is Pair);
    assert(members[34] is Pair);
    assert(members[35] is Pair);
    assert(members[36] is Pair);
    assert(members[37] is Pair);
    assert(members[38] is Pair);
    assert(members[39] is Pair);
    assert(members[40] is Pair);
    assert(members[41] is Pair);
    assert(members[42] is Pair);
    assert(members[43] is Pair);
    assert(members[44] is Pair);
    assert(members[45] is Pair);
    assert(members[46] is Pair);
    assert(members[47] is Pair);
    assert(members[48] is Pair);
    assert(members[49] is Pair);
    assert(members[50] is Pair);
    assert(members[51] is Pair);
}

/// What is reported of the transport holds what is reported of its parts.
pub proof fn law_receiver_transport_fragment_tells(
    snapshot: &NetworkSnapshot,
    stats: &ViewerStats,
    audio: &AudioReceiveStats,
    decoder_last_keyframe_id: Option<u64>,
    render: Seq<char>,
    display: Seq<char>,
    texts: &ReceiverTransportFragmentTexts,
)
    ensures
        ({
            let members = receiver_transport_fragment_members(
                snapshot,
                stats,
                audio,
                decoder_last_keyframe_id,
                render,
                display,
                texts,
            );
            &&& json::covers(
                members,
                receiver_network_fragment_members(
                    snapshot,
                    stats,
                    decoder_last_keyframe_id,
                    json::render(
                        snapshot.state.media_anchor.members(texts.far_audio_video_delta_ms@),
                    ),
                    json::render(audio_receiver_fragment_members(audio, stats, &texts.audio)),
                    json::render(receiver_repair_fragment_members(snapshot, &texts.repair)),
                    render,
                    &texts.network,
                ),
            )
            &&& json::covers(
                members,
                receiver_timing_fragment_members(snapshot, &texts.timing),
            )
            &&& json::covers(
                members,
                receiver_profile_fragment_members(snapshot, stats, display, &texts.profile),
            )
        }),
{
    let members = receiver_transport_fragment_members(
        snapshot,
        stats,
        audio,
        decoder_last_keyframe_id,
        render,
        display,
        texts,
    );
    let part = receiver_network_fragment_members(
        snapshot,
        stats,
        decoder_last_keyframe_id,
        json::render(snapshot.state.media_anchor.members(texts.far_audio_video_delta_ms@)),
        json::render(audio_receiver_fragment_members(audio, stats, &texts.audio)),
        json::render(receiver_repair_fragment_members(snapshot, &texts.repair)),
        render,
        &texts.network,
    );
    assert forall|i: int| 0 <= i < part.len() implies members.contains(#[trigger] part[i]) by {
        assert(members[i] == part[i]);
    }
    let part = receiver_timing_fragment_members(snapshot, &texts.timing);
    assert forall|i: int| 0 <= i < part.len() implies members.contains(#[trigger] part[i]) by {
        assert(members[81 + i] == part[i]);
    }
    let part = receiver_profile_fragment_members(snapshot, stats, display, &texts.profile);
    assert forall|i: int| 0 <= i < part.len() implies members.contains(#[trigger] part[i]) by {
        assert(members[106 + i] == part[i]);
    }
}

/// The statistics of a probe: each count under its name.
pub proof fn law_probe_stats_line_tells(
    strict_decode_order: bool,
    snapshot: &NetworkSnapshot,
    stats: &ViewerStats,
    decoder_last_keyframe_id: Option<u64>,
    decoder_waiting_keyframe: bool,
    dimensions: VideoDimensions,
    color: &str,
    metadata: &str,
    transport: Seq<char>,
    texts: &StatsLineTexts,
)
    ensures
        ({
            let members = probe_stats_line_members(
                strict_decode_order,
                snapshot,
                stats,
                decoder_last_keyframe_id,
                decoder_waiting_keyframe,
                dimensions,
                color,
                metadata,
                transport,
                texts,
            );
            &&& json::names(members, "type"@, "H264_RECV_VIEW_STATS"@)
            &&& json::names(members, "mode"@, "h264_recv_view"@)
            &&& json::flags(members, "strict_decode_order"@, strict_decode_order)
            &&& json::counts_if_known(members, "session_id"@, snapshot.session_id)
            &&& json::counts(members, "packets_received"@, snapshot.reassembly.packets_received)
            &&& json::counts(members, "packets_invalid"@, snapshot.reassembly.packets_invalid)
            &&& json::counts(
                members,
                "packets_lost_estimate"@,
                snapshot.reassembly.packets_lost_estimate,
            )
            &&& json::counts(members, "frames_complete"@, snapshot.reassembly.frames_complete)
            &&& json::counts(members, "frames_decoded"@, stats.frames_decoded)
            &&& json::counts(members, "frames_rendered"@, stats.frames_rendered)
            &&& json::counts(members, "frames_render_skipped"@, stats.frames_render_skipped)
            &&& json::counts(
                members,
                "frames_decoded_not_rendered"@,
                stats.frames_decoded_not_rendered,
            )
            &&& json::counts(
                members,
                "frames_incomplete_expired"@,
                snapshot.reassembly.frames_incomplete_expired,
            )
            &&& json::counts(members, "decoder_errors"@, stats.decoder_errors)
            &&& json::counts(members, "decoder_resets"@, stats.decoder_resets)
            &&& json::counts(members, "decode_queue"@, snapshot.queue.decode_queue as u64)
            &&& json::counts(members, "decode_queue_peak"@, snapshot.queue.decode_queue_peak as u64)
            &&& json::counts(members, "render_queue_peak"@, stats.render_queue_peak as u64)
            &&& json::counts(members, "render_frame_copies"@, stats.render_frame_copies)
            &&& json::counts(members, "render_buffer_reused"@, stats.render_buffer_reused)
            &&& json::counts(members, "render_buffer_generation"@, stats.render_buffer_generation)
            &&& json::counts(members, "nv12_y_stride"@, stats.nv12_y_stride as u64)
            &&& json::counts(members, "nv12_uv_stride"@, stats.nv12_uv_stride as u64)
            &&& json::counts(members, "nv12_uv_offset"@, stats.nv12_uv_offset as u64)
            &&& json::counts(members, "nv12_allocated_height"@, stats.nv12_allocated_height as u64)
            &&& json::counts(members, "nv12_buffer_len"@, stats.nv12_buffer_len as u64)
            &&& json::counts(members, "expected_tight_len"@, stats.expected_tight_len as u64)
            &&& json::flags(members, "decoder_used_2d_buffer"@, stats.decoder_used_2d_buffer)
            &&& json::counts_if_known(members, "last_frame_id"@, snapshot.reassembly.last_frame_id)
            &&& json::counts(members, "inflight_frames"@, snapshot.inflight_frames as u64)
            &&& json::counts(members, "completed_waiting"@, snapshot.completed_waiting as u64)
            &&& json::counts(members, "width"@, dimensions.width as u64)
            &&& json::counts(members, "height"@, dimensions.height as u64)
        }),
{
    let members = probe_stats_line_members(
        strict_decode_order,
        snapshot,
        stats,
        decoder_last_keyframe_id,
        decoder_waiting_keyframe,
        dimensions,
        color,
        metadata,
        transport,
        texts,
    );
    assert(members[0] is Pair);
    assert(members[1] is Pair);
    assert(members[2] is Pair);
    assert(members[3] is Pair);
    assert(members[4] is Pair);
    assert(members[5] is Pair);
    assert(members[6] is Pair);
    assert(members[7] is Pair);
    assert(members[8] is Pair);
    assert(members[9] is Pair);
    assert(members[10] is Pair);
    assert(members[11] is Pair);
    assert(members[12] is Pair);
    assert(members[17] is Pair);
    assert(members[18] is Pair);
    assert(members[19] is Pair);
    assert(members[20] is Pair);
    assert(members[21] is Pair);
    assert(members[22] is Pair);
    assert(members[23] is Pair);
    assert(members[24] is Pair);
    assert(members[25] is Pair);
    assert(members[26] is Pair);
    assert(members[27] is Pair);
    assert(members[28] is Pair);
    assert(members[29] is Pair);
    assert(members[30] is Pair);
    assert(members[31] is Pair);
    assert(members[35] is Pair);
    assert(members[38] is Pair);
    assert(members[39] is Pair);
    assert(members[42] is Pair);
    assert(members[43] is Pair);
}

/// The statistics of a shared screen: each count under its name.
pub proof fn law_screen_stats_line_tells(
    strict_decode_order: bool,
    snapshot: &NetworkSnapshot,
    stats: &ViewerStats,
    decoder_waiting_keyframe: bool,
    dimensions: VideoDimensions,
    color: &str,
    metadata: &str,
    transport: Seq<char>,
    context: &str,
    texts: &StatsLineTexts,
)
    ensures
        ({
            let members = screen_stats_line_members(
                strict_decode_order,
                snapshot,
                stats,
                decoder_waiting_keyframe,
                dimensions,
                color,
                metadata,
                transport,
                context,
                texts,
            );
            &&& json::names(members, "type"@, "NATIVE_SCREEN_STATS"@)
            &&& json::names(members, "role"@, "receiver"@)
            &&& json::names(members, "mode"@, "screen-recv"@)
            &&& json::flags(members, "strict_decode_order"@, strict_decode_order)
            &&& json::counts_if_known(members, "session_id"@, snapshot.session_id)
            &&& json::counts(members, "packets_received"@, snapshot.reassembly.packets_received)
            &&& json::counts(
                members,
                "packets_lost_estimate"@,
                snapshot.reassembly.packets_lost_estimate,
            )
            &&& json::counts(members, "frames_complete"@, snapshot.reassembly.frames_complete)
            &&& json::counts(members, "frames_decoded"@, stats.frames_decoded)
            &&& json::counts(members, "frames_rendered"@, stats.frames_rendered)
            &&& json::counts(
                members,
                "frames_incomplete_expired"@,
                snapshot.reassembly.frames_incomplete_expired,
            )
            &&& json::counts(members, "decoder_errors"@, stats.decoder_errors)
            &&& json::counts(members, "decoder_resets"@, stats.decoder_resets)
            &&& json::counts(members, "decode_queue"@, snapshot.queue.decode_queue as u64)
            &&& json::counts(members, "decode_queue_peak"@, snapshot.queue.decode_queue_peak as u64)
            &&& json::counts_if_known(members, "last_frame_id"@, snapshot.reassembly.last_frame_id)
            &&& json::counts(members, "inflight_frames"@, snapshot.inflight_frames as u64)
            &&& json::counts(members, "width"@, dimensions.width as u64)
            &&& json::counts(members, "height"@, dimensions.height as u64)
        }),
{
    let members = screen_stats_line_members(
        strict_decode_order,
        snapshot,
        stats,
        decoder_waiting_keyframe,
        dimensions,
        color,
        metadata,
        transport,
        context,
        texts,
    );
    assert(members[0] is Pair);
    assert(members[1] is Pair);
    assert(members[2] is Pair);
    assert(members[3] is Pair);
    assert(members[4] is Pair);
    assert(members[5] is Pair);
    assert(members[6] is Pair);
    assert(members[7] is Pair);
    assert(members[8] is Pair);
    assert(members[9] is Pair);
    assert(members[10] is Pair);
    assert(members[11] is Pair);
    assert(members[12] is Pair);
    assert(members[13] is Pair);
    assert(members[14] is Pair);
    assert(members[18] is Pair);
    assert(members[20] is Pair);
    assert(members[23] is Pair);
    assert(members[24] is Pair);
}

/// What is reported at the end of the run: each count under its name.
pub proof fn law_final_summary_tells(
    snapshot: &NetworkSnapshot,
    stats: &ViewerStats,
    shutdown: &ReceiverWorkerShutdownSummary,
)
    ensures
        ({
            let members = final_summary_members(snapshot, stats, shutdown);
            &&& json::flags(
                members,
                "peer_timeout_triggered"@,
                snapshot.state.dispatch.peer_timeout_triggered,
            )
            &&& json::counts(
                members,
                "pending_nack_cancelled"@,
                snapshot.state.repair.repair_cancelled_frame_complete,
            )
            &&& json::counts(members, "final_complete_frames"@, snapshot.reassembly.frames_complete)
            &&& json::counts(members, "final_decoded_frames"@, stats.frames_decoded)
            &&& json::counts(members, "final_rendered_frames"@, stats.frames_rendered)
        }),
{
    let members = final_summary_members(snapshot, stats, shutdown);
    assert(members[2] is Pair);
    assert(members[3] is Pair);
    assert(members[5] is Pair);
    assert(members[6] is Pair);
    assert(members[7] is Pair);
}

/// The end of a probe: each count under its name.
pub proof fn law_probe_done_line_tells(
    config: &H264RecvViewConfig<String>,
    snapshot: &NetworkSnapshot,
    stats: &ViewerStats,
    decoder_last_keyframe_id: Option<u64>,
    decoder_waiting_keyframe: bool,
    dimensions: VideoDimensions,
    closed_by_user: bool,
    stopped_by_console: bool,
    color: &str,
    metadata: &str,
    transport: Seq<char>,
    texts: &DoneLineTexts,
)
    ensures
        ({
            let members = probe_done_line_members(
                config,
                snapshot,
                stats,
                decoder_last_keyframe_id,
                decoder_waiting_keyframe,
                dimensions,
                closed_by_user,
                stopped_by_console,
                color,
                metadata,
                transport,
                texts,
            );
            &&& json::names(members, "type"@, "H264_RECV_VIEW_DONE"@)
            &&& json::names(members, "mode"@, "h264_recv_view"@)
            &&& json::flags(members, "strict_decode_order"@, config.strict_decode_order)
            &&& json::counts_if_known(members, "session_id"@, snapshot.session_id)
            &&& json::counts(members, "packets_received"@, snapshot.reassembly.packets_received)
            &&& json::counts(members, "packets_invalid"@, snapshot.reassembly.packets_invalid)
            &&& json::counts(
                members,
                "packets_lost_estimate"@,
                snapshot.reassembly.packets_lost_estimate,
            )
            &&& json::counts(members, "frames_complete"@, snapshot.reassembly.frames_complete)
            &&& json::counts(members, "frames_decoded"@, stats.frames_decoded)
            &&& json::counts(members, "frames_rendered"@, stats.frames_rendered)
            &&& json::counts(members, "frames_render_skipped"@, stats.frames_render_skipped)
            &&& json::counts(
                members,
                "frames_decoded_not_rendered"@,
                stats.frames_decoded_not_rendered,
            )
            &&& json::counts(
                members,
                "frames_incomplete_expired"@,
                snapshot.reassembly.frames_incomplete_expired,
            )
            &&& json::counts(members, "decoder_errors"@, stats.decoder_errors)
            &&& json::counts(members, "decoder_resets"@, stats.decoder_resets)
            &&& json::counts(members, "decode_queue_peak"@, snapshot.queue.decode_queue_peak as u64)
            &&& json::counts(members, "render_queue_peak"@, stats.render_queue_peak as u64)
            &&& json::counts(members, "render_frame_copies"@, stats.render_frame_copies)
            &&& json::counts(members, "render_buffer_reused"@, stats.render_buffer_reused)
            &&& json::counts(members, "render_buffer_generation"@, stats.render_buffer_generation)
            &&& json::counts(members, "nv12_y_stride"@, stats.nv12_y_stride as u64)
            &&& json::counts(members, "nv12_uv_stride"@, stats.nv12_uv_stride as u64)
            &&& json::counts(members, "nv12_uv_offset"@, stats.nv12_uv_offset as u64)
            &&& json::counts(members, "nv12_allocated_height"@, stats.nv12_allocated_height as u64)
            &&& json::counts(members, "nv12_buffer_len"@, stats.nv12_buffer_len as u64)
            &&& json::counts(members, "expected_tight_len"@, stats.expected_tight_len as u64)
            &&& json::flags(members, "decoder_used_2d_buffer"@, stats.decoder_used_2d_buffer)
            &&& json::counts(members, "width"@, dimensions.width as u64)
            &&& json::counts(members, "height"@, dimensions.height as u64)
            &&& json::counts_if_known(members, "last_frame_id"@, snapshot.reassembly.last_frame_id)
            &&& json::flags(members, "closed_by_user"@, closed_by_user)
            &&& json::flags(members, "stopped_by_console"@, stopped_by_console)
        }),
{
    let members = probe_done_line_members(
        config,
        snapshot,
        stats,
        decoder_last_keyframe_id,
        decoder_waiting_keyframe,
        dimensions,
        closed_by_user,
        stopped_by_console,
        color,
        metadata,
        transport,
        texts,
    );
    assert(members[0] is Pair);
    assert(members[1] is Pair);
    assert(members[2] is Pair);
    assert(members[3] is Pair);
    assert(members[4] is Pair);
    assert(members[5] is Pair);
    assert(members[6] is Pair);
    assert(members[7] is Pair);
    assert(members[8] is Pair);
    assert(members[9] is Pair);
    assert(members[10] is Pair);
    assert(members[11] is Pair);
    assert(members[12] is Pair);
    assert(members[17] is Pair);
    assert(members[18] is Pair);
    assert(members[19] is Pair);
    assert(members[20] is Pair);
    assert(members[21] is Pair);
    assert(members[22] is Pair);
    assert(members[23] is Pair);
    assert(members[24] is Pair);
    assert(members[25] is Pair);
    assert(members[26] is Pair);
    assert(members[27] is Pair);
    assert(members[28] is Pair);
    assert(members[29] is Pair);
    assert(members[30] is Pair);
    assert(members[35] is Pair);
    assert(members[36] is Pair);
    assert(members[37] is Pair);
    assert(members[38] is Pair);
    assert(members[39] is Pair);
}

/// The end of a shared screen: each count under its name.
pub proof fn law_screen_done_line_tells(
    event_type: Seq<char>,
    reason: Seq<char>,
    config: &H264RecvViewConfig<String>,
    snapshot: &NetworkSnapshot,
    stats: &ViewerStats,
    decoder_waiting_keyframe: bool,
    dimensions: VideoDimensions,
    color: &str,
    metadata: &str,
    transport: Seq<char>,
    context: &str,
    texts: &DoneLineTexts,
)
    ensures
        ({
            let members = screen_done_line_members(
                event_type,
                reason,
                config,
                snapshot,
                stats,
                decoder_waiting_keyframe,
                dimensions,
                color,
                metadata,
                transport,
                context,
                texts,
            );
            &&& json::names(members, "type"@, event_type)
            &&& json::names(members, "role"@, "receiver"@)
            &&& json::names(members, "mode"@, "screen-recv"@)
            &&& json::names(members, "reason"@, reason)
            &&& json::quotes(members, "bind"@, config.bind@)
            &&& json::counts(members, "port"@, config.port as u64)
            &&& json::counts(members, "frames_complete"@, snapshot.reassembly.frames_complete)
            &&& json::counts(members, "frames_decoded"@, stats.frames_decoded)
            &&& json::counts(members, "frames_rendered"@, stats.frames_rendered)
            &&& json::counts(members, "packets_received"@, snapshot.reassembly.packets_received)
            &&& json::counts(members, "bytes_received"@, snapshot.reassembly.bytes_received)
            &&& json::counts(
                members,
                "packets_lost_estimate"@,
                snapshot.reassembly.packets_lost_estimate,
            )
            &&& json::counts(members, "decoder_errors"@, stats.decoder_errors)
            &&& json::counts(members, "decoder_resets"@, stats.decoder_resets)
            &&& json::counts(members, "width"@, dimensions.width as u64)
            &&& json::counts(members, "height"@, dimensions.height as u64)
            &&& json::counts_if_known(members, "last_frame_id"@, snapshot.reassembly.last_frame_id)
        }),
{
    let members = screen_done_line_members(
        event_type,
        reason,
        config,
        snapshot,
        stats,
        decoder_waiting_keyframe,
        dimensions,
        color,
        metadata,
        transport,
        context,
        texts,
    );
    assert(members[0] is Pair);
    assert(members[1] is Pair);
    assert(members[2] is Pair);
    assert(members[3] is Pair);
    assert(members[4] is Pair);
    assert(members[5] is Pair);
    assert(members[6] is Pair);
    assert(members[7] is Pair);
    assert(members[8] is Pair);
    assert(members[9] is Pair);
    assert(members[10] is Pair);
    assert(members[11] is Pair);
    assert(members[12] is Pair);
    assert(members[13] is Pair);
    assert(members[15] is Pair);
    assert(members[16] is Pair);
    assert(members[17] is Pair);
}

/// The error of a receiver.
pub proof fn law_receiver_error_line_tells(
    error: &str,
    context: &str,
)
    ensures
        ({
            let members = receiver_error_line_members(error, context);
            &&& json::names(members, "type"@, "NATIVE_SCREEN_ERROR"@)
            &&& json::names(members, "role"@, "receiver"@)
            &&& json::names(members, "mode"@, "screen-recv"@)
            &&& json::quotes(members, "error"@, error@)
        }),
{
    let members = receiver_error_line_members(error, context);
    assert(members[0] is Pair);
    assert(members[1] is Pair);
    assert(members[2] is Pair);
    assert(members[3] is Pair);
}

/// The end of a receiver that could not start: nothing was received.
pub proof fn law_receiver_startup_failure_line_tells(
    event_type: &str,
    reason: &str,
    config: &H264RecvViewConfig<String>,
    cleanup_failed: bool,
    retained_workers: u64,
    error: &str,
    context: &str,
)
    ensures
        ({
            let members = receiver_startup_failure_line_members(
                event_type,
                reason,
                config,
                cleanup_failed,
                retained_workers,
                error,
                context,
            );
            &&& json::names(members, "type"@, event_type@)
            &&& json::names(members, "role"@, "receiver"@)
            &&& json::names(members, "mode"@, "screen-recv"@)
            &&& json::names(members, "reason"@, reason@)
            &&& json::quotes(members, "bind"@, config.bind@)
            &&& json::counts(members, "port"@, config.port as u64)
            &&& json::counts(members, "frames_complete"@, 0)
            &&& json::counts(members, "frames_decoded"@, 0)
            &&& json::counts(members, "frames_rendered"@, 0)
            &&& json::counts(members, "packets_received"@, 0)
            &&& json::counts(members, "bytes_received"@, 0)
            &&& json::names(members, "profile_transition_phase"@, "idle"@)
            &&& json::flags(members, "profile_transition_active"@, false)
            &&& json::counts(members, "transition_timeout_count"@, 0)
            &&& json::counts(members, "qsv_async_wait_timeouts"@, 0)
            &&& json::counts(members, "qsv_async_wait_cancelled"@, 0)
            &&& json::counts(members, "qsv_drain_timeouts"@, 0)
            &&& json::names(members, "worker_join_render"@, "not_started"@)
            &&& json::names(members, "worker_join_network"@, "not_started"@)
            &&& json::names(members, "worker_join_audio"@, "not_started"@)
            &&& json::counts(members, "retained_worker_count"@, retained_workers)
            &&& json::flags(members, "close_received"@, false)
            &&& json::flags(members, "close_ack_sent"@, false)
            &&& json::flags(members, "peer_timeout_triggered"@, false)
            &&& json::counts(members, "pending_nack_cancelled"@, 0)
            &&& json::names(members, "pending_repair_state"@, "not_started"@)
            &&& json::counts(members, "final_complete_frames"@, 0)
            &&& json::counts(members, "final_decoded_frames"@, 0)
            &&& json::counts(members, "final_rendered_frames"@, 0)
            &&& json::quotes(members, "last_error"@, error@)
        }),
{
    let members = receiver_startup_failure_line_members(
        event_type,
        reason,
        config,
        cleanup_failed,
        retained_workers,
        error,
        context,
    );
    assert(members[0] is Pair);
    assert(members[1] is Pair);
    assert(members[2] is Pair);
    assert(members[3] is Pair);
    assert(members[4] is Pair);
    assert(members[5] is Pair);
    assert(members[6] is Pair);
    assert(members[7] is Pair);
    assert(members[8] is Pair);
    assert(members[9] is Pair);
    assert(members[10] is Pair);
    assert(members[12] is Pair);
    assert(members[13] is Pair);
    assert(members[14] is Pair);
    assert(members[16] is Pair);
    assert(members[17] is Pair);
    assert(members[18] is Pair);
    assert(members[19] is Pair);
    assert(members[20] is Pair);
    assert(members[21] is Pair);
    assert(members[23] is Pair);
    assert(members[24] is Pair);
    assert(members[25] is Pair);
    assert(members[26] is Pair);
    assert(members[27] is Pair);
    assert(members[28] is Pair);
    assert(members[29] is Pair);
    assert(members[30] is Pair);
    assert(members[31] is Pair);
    assert(members[32] is Pair);
}

/// A receiver that starts says so, with its settings under their names.
pub proof fn law_receiver_started_line_tells(
    config: &H264RecvViewConfig<String>,
    render: &str,
    context: &str,
)
    ensures
        ({
            let members = receiver_started_line_members(config, render, context);
            &&& json::names(members, "type"@, "NATIVE_SCREEN_STARTED"@)
            &&& json::names(members, "role"@, "receiver"@)
            &&& json::names(members, "mode"@, "screen-recv"@)
            &&& json::quotes(members, "bind"@, config.bind@)
            &&& json::counts(members, "port"@, config.port as u64)
            &&& json::flags(members, "strict_decode_order"@, config.strict_decode_order)
            &&& json::flags(members, "drop_damaged_gop"@, config.drop_damaged_gop)
            &&& json::counts(members, "playout_delay_ms"@, config.playout_delay_ms)
            &&& json::names(members, "audio_mode"@, config.audio_mode.text())
            &&& json::names(members, "av_sync_mode"@, config.av_sync_mode.text())
            &&& json::counts(
                members,
                "audio_jitter_buffer_ms"@,
                config.audio_jitter_buffer_ms as u64,
            )
            &&& json::quotes(members, "title"@, config.title@)
        }),
{
    let members = receiver_started_line_members(config, render, context);
    assert(members[0] is Pair);
    assert(members[1] is Pair);
    assert(members[2] is Pair);
    assert(members[3] is Pair);
    assert(members[4] is Pair);
    assert(members[5] is Pair);
    assert(members[6] is Pair);
    assert(members[7] is Pair);
    assert(members[8] is Pair);
    assert(members[9] is Pair);
    assert(members[10] is Pair);
    assert(members[11] is Pair);
}

/// The viewer takes over what the renderer has counted.
pub proof fn law_renderer_is_taken_over(stats: ViewerStats, state: RenderWorkerState)
    ensures
        ({
            let after = stats.with_renderer(state);
            &&& after.frames_rendered == state.frames_rendered
            &&& after.frames_decoded_not_rendered == state.frames_replaced
            &&& after.frames_render_skipped == state.frames_replaced
            &&& after.decoded_frame_queue_drops == state.frames_replaced
            &&& after.render_buffer_reused == state.frames_replaced
            &&& after.render_queue_peak == state.queue_peak
            &&& (state.pending is Some <==> after.decoded_frame_queue_len == 1)
            &&& (state.pending is None <==> after.decoded_frame_queue_len == 0)
            &&& after.video_frames_dropped_for_av_sync == state.video_frames_dropped_for_av_sync
            &&& after.video_frames_held_for_av_sync == state.video_frames_held_for_av_sync
            &&& after.av_sync_offset_samples == state.av_sync_offset_samples
            &&& after.av_sync_mode == state.av_sync_mode
            &&& after.av_sync_state == state.av_sync_state
            &&& after.av_sync_bypass_reason == state.av_sync_bypass_reason
            &&& after.av_sync_state_transitions == state.av_sync_state_transitions
            &&& after.av_sync_forced_release_count == state.av_sync_forced_release_count
            &&& after.av_sync_hold_epoch_ms == state.av_sync_hold_epoch_ms
            &&& after.video_sync_gating_enabled == state.video_sync_gating_enabled
        }),
{
}

/// Of two places for a value the first that has one counts.
pub proof fn law_first_known_value_counts(a: Option<u64>, b: Option<u64>)
    ensures
        a is Some ==> either(a, b) == a,
        a is None ==> either(a, b) == b,
{
}

/// The words and numbers that stand for states.
pub proof fn law_receiver_states_have_their_words(
    snapshot: &NetworkSnapshot,
    stage: ReceiverTransitionPhase,
    shutdown: &ReceiverWorkerShutdownSummary,
    dimensions: VideoDimensions,
)
    ensures
        fec_mode(snapshot) == "single-xor"@ || fec_mode(snapshot) == "off"@,
        snapshot.reassembly.fec_packets_received > 0 ==> fec_mode(snapshot) == "single-xor"@,
        snapshot.reassembly.fec_protected_data_packets_received > 0 ==> fec_mode(snapshot)
            == "single-xor"@,
        snapshot.reassembly.fec_packets_received == 0
            && snapshot.reassembly.fec_protected_data_packets_received == 0 ==> fec_mode(snapshot)
            == "off"@,
        stage_name(Some(stage)) == Some(stage.text()),
        stage_name(None) is None,
        shutdown.runtime_error is Some ==> last_error_of(shutdown) == Some(
            (shutdown.runtime_error->0)@,
        ),
        shutdown.runtime_error is None && shutdown.join_error is Some ==> last_error_of(shutdown)
            == Some((shutdown.join_error->0)@),
        shutdown.runtime_error is None && shutdown.join_error is None ==> last_error_of(shutdown)
            is None,
        size_of(Some(dimensions)) == dimensions,
        size_of(None).width == 0 && size_of(None).height == 0,
{
}

/// What each kind of datagram came to is told under its kind.
pub proof fn law_dispatch_is_told(snapshot: &NetworkSnapshot)
    ensures
        ({
            let members = dispatch_counts(snapshot);
            let dispatch = snapshot.state.dispatch;
            &&& json::counts(members, "video_data"@, dispatch.video_data_packets_received)
            &&& json::counts(members, "video_fec"@, dispatch.video_fec_packets_received)
            &&& json::counts(members, "audio"@, dispatch.audio_packets_received)
            &&& json::counts(members, "unknown"@, dispatch.unknown_packets_received)
            &&& json::counts(members, "nack_control"@, dispatch.nack_control_packets_received)
        }),
{
    let members = dispatch_counts(snapshot);
    assert(members[0] is Pair);
    assert(members[1] is Pair);
    assert(members[2] is Pair);
    assert(members[3] is Pair);
    assert(members[4] is Pair);
}

} // verus!
