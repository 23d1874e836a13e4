//! The place between the decoder and the renderer: it holds one picture, the latest.
//!
//! Counters stop at their maximum.

use vstd::prelude::*;

use crate::choices::AvSyncMode;

verus! {

/// How far pictures wait for sound.
#[derive(Clone, Copy, Debug, PartialEq, Eq, Structural)]
pub enum AvSyncState {
    Disabled,
    WaitingForRenderer,
    Active,
    Bypassed,
}

impl AvSyncState {
    pub open spec fn text(self) -> Seq<char> {
        match self {
            AvSyncState::Disabled => "disabled"@,
            AvSyncState::WaitingForRenderer => "waiting-for-renderer"@,
            AvSyncState::Active => "active"@,
            AvSyncState::Bypassed => "bypassed"@,
        }
    }

    pub fn name(self) -> (r: &'static str)
        ensures
            r@ == self.text(),
    {
        match self {
            AvSyncState::Disabled => "disabled",
            AvSyncState::WaitingForRenderer => "waiting-for-renderer",
            AvSyncState::Active => "active",
            AvSyncState::Bypassed => "bypassed",
        }
    }
}

/// A picture that waits; the picture itself stands outside.
#[derive(Clone, Copy, Debug, PartialEq, Eq, Structural)]
pub struct PendingRender {
    pub frame_id: u64,
    pub timestamp_us: u64,
    pub width: u32,
    pub height: u32,
}

/// What the comparison with sound says of a picture.
#[derive(Clone, Copy, Debug, PartialEq, Eq, Structural)]
pub enum AvSyncDecision {
    RenderNow,
    BypassAndRender,
    Hold,
    DropLateFrame,
}

/// What the comparison with sound says of itself.
#[derive(Clone, Copy, Debug)]
pub struct AvSyncTelemetry {
    pub state: AvSyncState,
    pub bypass_reason: Option<&'static str>,
    pub state_transitions: u64,
    pub forced_release_count: u64,
    pub hold_epoch_ms: u64,
    pub video_frames_actually_held: u64,
    pub video_frames_actually_dropped: u64,
}

/// The place and its counters.
#[derive(Clone, Copy, Debug)]
pub struct RenderWorkerState {
    pub pending: Option<PendingRender>,
    pub frames_rendered: u64,
    pub frames_replaced: u64,
    pub queue_peak: usize,
    pub video_frames_dropped_for_av_sync: u64,
    pub video_frames_held_for_av_sync: u64,
    pub av_sync_offset_us_total: u64,
    pub av_sync_offset_us_max: u64,
    pub av_sync_offset_samples: u64,
    pub video_sync_gating_enabled: bool,
    pub av_sync_mode: AvSyncMode,
    pub av_sync_state: AvSyncState,
    pub av_sync_bypass_reason: Option<&'static str>,
    pub av_sync_state_transitions: u64,
    pub av_sync_forced_release_count: u64,
    pub av_sync_hold_epoch_ms: u64,
    pub closed_by_user: bool,
}

/// How far two times are apart.
pub open spec fn apart(a: u64, b: u64) -> u64 {
    if a > b {
        (a - b) as u64
    } else {
        (b - a) as u64
    }
}

/// How much later a picture is shown than the sound of the same time is heard, in
/// microseconds.
pub open spec fn video_offset(video_playout_delay_ms: u64, audio_jitter_buffer_ms: u32) -> u64 {
    let ms = video_playout_delay_ms.saturating_sub(audio_jitter_buffer_ms as u64);
    if ms * 1000 <= u64::MAX {
        (ms * 1000) as u64
    } else {
        u64::MAX
    }
}

/// Computes `video_offset`.
pub fn video_offset_us(video_playout_delay_ms: u64, audio_jitter_buffer_ms: u32) -> (r: u64)
    ensures
        r == video_offset(video_playout_delay_ms, audio_jitter_buffer_ms),
{
    let ms: u64 = video_playout_delay_ms.saturating_sub(audio_jitter_buffer_ms as u64);
    match ms.checked_mul(1000) {
        Some(us) => us,
        None => u64::MAX,
    }
}

impl RenderWorkerState {
    /// Nothing was shown yet.  Pictures wait for sound only where there is sound and it is
    /// asked for.
    pub open spec fn initial(av_sync_mode: AvSyncMode, has_audio: bool) -> RenderWorkerState {
        RenderWorkerState {
            pending: None,
            frames_rendered: 0,
            frames_replaced: 0,
            queue_peak: 0,
            video_frames_dropped_for_av_sync: 0,
            video_frames_held_for_av_sync: 0,
            av_sync_offset_us_total: 0,
            av_sync_offset_us_max: 0,
            av_sync_offset_samples: 0,
            video_sync_gating_enabled: false,
            av_sync_mode,
            av_sync_state: if av_sync_mode == AvSyncMode::Conservative && has_audio {
                AvSyncState::WaitingForRenderer
            } else {
                AvSyncState::Disabled
            },
            av_sync_bypass_reason: None,
            av_sync_state_transitions: 0,
            av_sync_forced_release_count: 0,
            av_sync_hold_epoch_ms: 0,
            closed_by_user: false,
        }
    }

    pub fn new(av_sync_mode: AvSyncMode, has_audio: bool) -> (r: RenderWorkerState)
        ensures
            r == Self::initial(av_sync_mode, has_audio),
    {
        RenderWorkerState {
            pending: None,
            frames_rendered: 0,
            frames_replaced: 0,
            queue_peak: 0,
            video_frames_dropped_for_av_sync: 0,
            video_frames_held_for_av_sync: 0,
            av_sync_offset_us_total: 0,
            av_sync_offset_us_max: 0,
            av_sync_offset_samples: 0,
            video_sync_gating_enabled: false,
            av_sync_mode,
            av_sync_state: if av_sync_mode == AvSyncMode::Conservative && has_audio {
                AvSyncState::WaitingForRenderer
            } else {
                AvSyncState::Disabled
            },
            av_sync_bypass_reason: None,
            av_sync_state_transitions: 0,
            av_sync_forced_release_count: 0,
            av_sync_hold_epoch_ms: 0,
            closed_by_user: false,
        }
    }

    /// `pending` takes the place; a picture that stood there is given up.
    pub open spec fn placed(self, pending: PendingRender) -> RenderWorkerState {
        RenderWorkerState {
            pending: Some(pending),
            frames_replaced: if self.pending is Some {
                self.frames_replaced.saturating_add(1)
            } else {
                self.frames_replaced
            },
            ..self
        }
    }

    /// A decoded picture comes.
    pub open spec fn submitted(self, pending: PendingRender) -> RenderWorkerState {
        RenderWorkerState {
            queue_peak: if self.queue_peak > 1 {
                self.queue_peak
            } else {
                1
            },
            ..self.placed(pending)
        }
    }

    /// Puts a decoded picture into the place.
    pub fn submit_render_frame(&mut self, pending: PendingRender)
        ensures
            *final(self) == old(self).submitted(pending),
    {
        self.place(pending);
        if self.queue_peak < 1 {
            self.queue_peak = 1;
        }
    }

    fn place(&mut self, pending: PendingRender)
        ensures
            *final(self) == old(self).placed(pending),
    {
        if self.pending.is_some() {
            self.frames_replaced = self.frames_replaced.saturating_add(1);
        }
        self.pending = Some(pending);
    }

    /// Takes the picture out of the place.
    pub fn take_pending(&mut self) -> (r: Option<PendingRender>)
        ensures
            r == old(self).pending,
            *final(self) == (RenderWorkerState { pending: None, ..*old(self) }),
    {
        let r: Option<PendingRender> = self.pending;
        self.pending = None;
        r
    }

    /// What the comparison with sound says of itself is taken over.
    pub open spec fn with_telemetry(self, mode: AvSyncMode, telemetry: AvSyncTelemetry)
        -> RenderWorkerState {
        RenderWorkerState {
            av_sync_mode: mode,
            av_sync_state: telemetry.state,
            av_sync_bypass_reason: telemetry.bypass_reason,
            av_sync_state_transitions: telemetry.state_transitions,
            av_sync_forced_release_count: telemetry.forced_release_count,
            av_sync_hold_epoch_ms: telemetry.hold_epoch_ms,
            video_frames_held_for_av_sync: telemetry.video_frames_actually_held,
            video_frames_dropped_for_av_sync: telemetry.video_frames_actually_dropped,
            video_sync_gating_enabled: telemetry.state == AvSyncState::Active,
            ..self
        }
    }

    /// Takes over what the comparison with sound says of itself.
    pub fn apply_av_sync_telemetry(&mut self, mode: AvSyncMode, telemetry: AvSyncTelemetry)
        ensures
            *final(self) == old(self).with_telemetry(mode, telemetry),
    {
        self.av_sync_mode = mode;
        self.av_sync_state = telemetry.state;
        self.av_sync_bypass_reason = telemetry.bypass_reason;
        self.av_sync_state_transitions = telemetry.state_transitions;
        self.av_sync_forced_release_count = telemetry.forced_release_count;
        self.av_sync_hold_epoch_ms = telemetry.hold_epoch_ms;
        self.video_frames_held_for_av_sync = telemetry.video_frames_actually_held;
        self.video_frames_dropped_for_av_sync = telemetry.video_frames_actually_dropped;
        self.video_sync_gating_enabled = telemetry.state == AvSyncState::Active;
    }

    /// The distance of a picture from the sound that is heard is measured.
    pub open spec fn with_offset(self, timestamp_us: u64, playhead_us: u64, offset_us: u64)
        -> RenderWorkerState {
        let distance = apart(timestamp_us, playhead_us.saturating_add(offset_us));
        RenderWorkerState {
            av_sync_offset_us_total: self.av_sync_offset_us_total.saturating_add(distance),
            av_sync_offset_us_max: if distance > self.av_sync_offset_us_max {
                distance
            } else {
                self.av_sync_offset_us_max
            },
            av_sync_offset_samples: self.av_sync_offset_samples.saturating_add(1),
            ..self
        }
    }

    /// Measures the distance of a picture from the sound that is heard.
    pub fn note_offset(&mut self, timestamp_us: u64, playhead_us: u64, offset_us: u64)
        ensures
            *final(self) == old(self).with_offset(timestamp_us, playhead_us, offset_us),
    {
        let target: u64 = playhead_us.saturating_add(offset_us);
        let distance: u64 = if timestamp_us > target {
            timestamp_us - target
        } else {
            target - timestamp_us
        };
        self.av_sync_offset_us_total = self.av_sync_offset_us_total.saturating_add(distance);
        if distance > self.av_sync_offset_us_max {
            self.av_sync_offset_us_max = distance;
        }
        self.av_sync_offset_samples = self.av_sync_offset_samples.saturating_add(1);
    }

    /// The state after the comparison with sound, and whether the picture is shown.
    pub open spec fn decided(self, decision: AvSyncDecision, pending: PendingRender) -> (
        RenderWorkerState,
        bool,
    ) {
        match decision {
            AvSyncDecision::Hold => (self.placed(pending), false),
            AvSyncDecision::DropLateFrame => (self, false),
            AvSyncDecision::RenderNow | AvSyncDecision::BypassAndRender => (self, true),
        }
    }

    /// Does what the comparison with sound says of the picture `pending`, which was taken
    /// out; returns whether it is shown.
    pub fn apply_decision(&mut self, decision: AvSyncDecision, pending: PendingRender) -> (render:
        bool)
        ensures
            (*final(self), render) == old(self).decided(decision, pending),
    {
        match decision {
            AvSyncDecision::Hold => {
                self.place(pending);
                false
            },
            AvSyncDecision::DropLateFrame => false,
            AvSyncDecision::RenderNow | AvSyncDecision::BypassAndRender => true,
        }
    }

    /// Pictures do not wait for sound.
    pub fn disable_av_sync(&mut self, mode: AvSyncMode)
        ensures
            *final(self) == (RenderWorkerState {
                av_sync_mode: mode,
                av_sync_state: AvSyncState::Disabled,
                av_sync_bypass_reason: None,
                video_sync_gating_enabled: false,
                ..*old(self)
            }),
    {
        self.av_sync_mode = mode;
        self.av_sync_state = AvSyncState::Disabled;
        self.av_sync_bypass_reason = None;
        self.video_sync_gating_enabled = false;
    }

    /// Counts a picture that was shown.
    pub fn frame_rendered(&mut self)
        ensures
            *final(self) == (RenderWorkerState {
                frames_rendered: old(self).frames_rendered.saturating_add(1),
                ..*old(self)
            }),
    {
        self.frames_rendered = self.frames_rendered.saturating_add(1);
    }
}

/// Which pictures are written to files.
#[derive(Clone, Copy, Debug, PartialEq, Eq, Structural)]
pub struct DebugFrameDumper {
    pub enabled: bool,
    pub limit: usize,
    pub dumped: usize,
}

impl DebugFrameDumper {
    pub fn new(enabled: bool, limit: usize) -> (r: DebugFrameDumper)
        ensures
            r == (DebugFrameDumper { enabled, limit, dumped: 0 }),
    {
        DebugFrameDumper { enabled, limit, dumped: 0 }
    }

    /// The number of the file that the next picture goes to, if it goes to one.
    pub fn next_dump(&mut self) -> (r: Option<usize>)
        ensures
            if old(self).enabled && old(self).dumped < old(self).limit {
                r == Some((old(self).dumped + 1) as usize) && *final(self) == (DebugFrameDumper {
                    dumped: (old(self).dumped + 1) as usize,
                    ..*old(self)
                })
            } else {
                r is None && *final(self) == *old(self)
            },
    {
        if !self.enabled || self.dumped >= self.limit {
            return None;
        }
        self.dumped = self.dumped + 1;
        Some(self.dumped)
    }
}

/// Every picture that comes is the one in the place, is taken out, or is counted as
/// replaced.
pub proof fn law_pictures_are_shown_or_counted(state: RenderWorkerState, pending: PendingRender)
    requires
        state.frames_replaced < u64::MAX,
    ensures
        state.submitted(pending).pending == Some(pending),
        state.submitted(pending).frames_replaced == state.frames_replaced + if state.pending is Some {
            1int
        } else {
            0int
        },
{
}

/// A picture that is held goes back to the place.
pub proof fn law_held_picture_stays(state: RenderWorkerState, pending: PendingRender)
    ensures
        state.decided(AvSyncDecision::Hold, pending).0.pending == Some(pending),
        !state.decided(AvSyncDecision::Hold, pending).1,
{
}

/// What the comparison with sound says is done: a picture that is to be shown is, one that
/// is late is given up, and neither goes back to the place.
pub proof fn law_decisions_are_carried_out(state: RenderWorkerState, pending: PendingRender)
    ensures
        state.decided(AvSyncDecision::RenderNow, pending) == (state, true),
        state.decided(AvSyncDecision::BypassAndRender, pending) == (state, true),
        state.decided(AvSyncDecision::DropLateFrame, pending) == (state, false),
        state.pending is None ==> state.decided(AvSyncDecision::Hold, pending).0.frames_replaced
            == state.frames_replaced,
{
}

/// A picture that comes leaves everything else as it was, and the place never holds more
/// than one.
pub proof fn law_place_holds_one_picture(state: RenderWorkerState, pending: PendingRender)
    ensures
        state.submitted(pending).frames_rendered == state.frames_rendered,
        state.submitted(pending).queue_peak >= 1,
        state.queue_peak <= 1 ==> state.submitted(pending).queue_peak == 1,
        state.submitted(pending).video_frames_dropped_for_av_sync
            == state.video_frames_dropped_for_av_sync,
        state.submitted(pending).av_sync_state == state.av_sync_state,
{
}

/// Pictures wait for sound only where there is sound and it is asked for.
pub proof fn law_pictures_wait_for_sound_where_asked(mode: AvSyncMode, has_audio: bool)
    ensures
        (RenderWorkerState::initial(mode, has_audio).av_sync_state
            == AvSyncState::WaitingForRenderer) <==> (mode == AvSyncMode::Conservative
            && has_audio),
        (RenderWorkerState::initial(mode, has_audio).av_sync_state == AvSyncState::Disabled) <==> (
        mode == AvSyncMode::Off || !has_audio),
        RenderWorkerState::initial(mode, has_audio).av_sync_mode == mode,
        RenderWorkerState::initial(mode, has_audio).pending is None,
        RenderWorkerState::initial(mode, has_audio).frames_rendered == 0,
{
}

/// The distance of a picture from the sound is measured either way, and the largest and the
/// sum are kept.
pub proof fn law_distance_is_measured(
    state: RenderWorkerState,
    timestamp_us: u64,
    playhead_us: u64,
    offset_us: u64,
)
    requires
        playhead_us + offset_us <= u64::MAX,
        state.av_sync_offset_samples < u64::MAX,
    ensures
        ({
            let target = playhead_us + offset_us;
            let distance: int = if timestamp_us >= target {
                timestamp_us - target
            } else {
                target - timestamp_us
            };
            let after = state.with_offset(timestamp_us, playhead_us, offset_us);
            &&& state.av_sync_offset_us_total + distance <= u64::MAX
                ==> after.av_sync_offset_us_total == state.av_sync_offset_us_total + distance
            &&& after.av_sync_offset_us_max >= distance
            &&& after.av_sync_offset_us_max >= state.av_sync_offset_us_max
            &&& after.av_sync_offset_us_max == distance || after.av_sync_offset_us_max
                == state.av_sync_offset_us_max
            &&& after.av_sync_offset_samples == state.av_sync_offset_samples + 1
        }),
{
}

/// Pictures are later than sound by what their delay has more than the sound's buffer.
pub proof fn law_pictures_are_later_by_the_delay(delay_ms: u64, buffer_ms: u32)
    ensures
        delay_ms >= buffer_ms && (delay_ms - buffer_ms) * 1000 <= u64::MAX ==> video_offset(
            delay_ms,
            buffer_ms,
        ) == (delay_ms - buffer_ms) * 1000,
        delay_ms < buffer_ms ==> video_offset(delay_ms, buffer_ms) == 0,
{
}

/// What the comparison with sound says of itself is what is reported of it.
pub proof fn law_telemetry_is_taken_over(
    state: RenderWorkerState,
    mode: AvSyncMode,
    telemetry: AvSyncTelemetry,
)
    ensures
        ({
            let after = state.with_telemetry(mode, telemetry);
            &&& after.av_sync_mode == mode
            &&& after.av_sync_state == telemetry.state
            &&& after.av_sync_bypass_reason == telemetry.bypass_reason
            &&& after.video_frames_held_for_av_sync == telemetry.video_frames_actually_held
            &&& after.video_frames_dropped_for_av_sync == telemetry.video_frames_actually_dropped
            &&& after.av_sync_forced_release_count == telemetry.forced_release_count
            &&& after.av_sync_state_transitions == telemetry.state_transitions
            &&& after.av_sync_hold_epoch_ms == telemetry.hold_epoch_ms
            &&& after.video_sync_gating_enabled == (telemetry.state == AvSyncState::Active)
            &&& after.pending == state.pending
            &&& after.frames_rendered == state.frames_rendered
        }),
{
}

} // verus!
