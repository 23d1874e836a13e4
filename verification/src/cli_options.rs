//! The options of the command line: which command takes which, and what each sets.
//!
//! Options are read from left to right; the last setting of an option stands.  Which
//! real number an argument spells is not decided here: the caller hands it in.

use vstd::prelude::*;

use crate::cli_values;
use crate::cli_values::{
    parse_audio_frame_ms, parse_audio_jitter_buffer_ms, parse_bitrate, parse_bool,
    parse_convert_backend, parse_count, parse_dimension, parse_duration_sec, parse_encoder_choice,
    parse_fec_mode, parse_fps, parse_idle_timeout, parse_keyframe_interval_sec, parse_loss_rate,
    parse_milliseconds, parse_packet_pacing, parse_packet_payload, parse_port, parse_positive,
    parse_quality_bpf, parse_reorder_wait_ms, parse_seconds_range, parse_udp_payload_size,
    ConvertBackend, EncoderChoice, FecMode,
};
use crate::choices::{
    AdaptiveMode, AvSyncMode, DisplayRefreshDetect, MaxFps, RenderBackend,
    RenderScaleMode, RepairMode, WindowMode,
};
use crate::color_spec::ColorMatrix;
use crate::h264_recv_view::AudioRecvMode;
use crate::h264_send_probe::{AudioSendMode, PacketPacing};
use crate::real_number::Real;
use crate::text;
use crate::text::{is_blank_text, same_text};

verus! {

/// The commands that take options.
#[derive(Clone, Copy, Debug, PartialEq, Eq, Structural)]
pub enum CommandKind {
    Sender,
    Receiver,
    CaptureProbe,
    GpuConvertProbe,
    EncodeProbe,
    CaptureEncodeProbe,
    H264SendProbe,
    H264RecvDump,
    H264RecvView,
    ScreenSend,
    ScreenRecv,
    H264FileViewer,
    ColorTestPattern,
    BenchReassembly,
    AudioCaptureProbe,
    AudioSend,
    AudioRecvPlay,
}

impl CommandKind {
    /// The word that names the command.
    pub open spec fn word(self) -> Seq<char> {
        match self {
            CommandKind::Sender => "sender"@,
            CommandKind::Receiver => "receiver"@,
            CommandKind::CaptureProbe => "capture-probe"@,
            CommandKind::GpuConvertProbe => "gpu-convert-probe"@,
            CommandKind::EncodeProbe => "encode-probe"@,
            CommandKind::CaptureEncodeProbe => "capture-encode-probe"@,
            CommandKind::H264SendProbe => "h264-send-probe"@,
            CommandKind::H264RecvDump => "h264-recv-dump"@,
            CommandKind::H264RecvView => "h264-recv-view"@,
            CommandKind::ScreenSend => "screen-send"@,
            CommandKind::ScreenRecv => "screen-recv"@,
            CommandKind::H264FileViewer => "h264-file-viewer"@,
            CommandKind::ColorTestPattern => "color-test-pattern"@,
            CommandKind::BenchReassembly => "bench-reassembly"@,
            CommandKind::AudioCaptureProbe => "audio-capture-probe"@,
            CommandKind::AudioSend => "audio-send"@,
            CommandKind::AudioRecvPlay => "audio-recv-play"@,
        }
    }

    /// The word that names the command.
    pub fn name(self) -> (r: &'static str)
        ensures
            r@ == self.word(),
    {
        match self {
            CommandKind::Sender => "sender",
            CommandKind::Receiver => "receiver",
            CommandKind::CaptureProbe => "capture-probe",
            CommandKind::GpuConvertProbe => "gpu-convert-probe",
            CommandKind::EncodeProbe => "encode-probe",
            CommandKind::CaptureEncodeProbe => "capture-encode-probe",
            CommandKind::H264SendProbe => "h264-send-probe",
            CommandKind::H264RecvDump => "h264-recv-dump",
            CommandKind::H264RecvView => "h264-recv-view",
            CommandKind::ScreenSend => "screen-send",
            CommandKind::ScreenRecv => "screen-recv",
            CommandKind::H264FileViewer => "h264-file-viewer",
            CommandKind::ColorTestPattern => "color-test-pattern",
            CommandKind::BenchReassembly => "bench-reassembly",
            CommandKind::AudioCaptureProbe => "audio-capture-probe",
            CommandKind::AudioSend => "audio-send",
            CommandKind::AudioRecvPlay => "audio-recv-play",
        }
    }

    /// The command that `s` names.
    pub open spec fn named(s: Seq<char>) -> Option<CommandKind> {
        if s == "sender"@ {
            Some(CommandKind::Sender)
        } else if s == "receiver"@ {
            Some(CommandKind::Receiver)
        } else if s == "capture-probe"@ {
            Some(CommandKind::CaptureProbe)
        } else if s == "gpu-convert-probe"@ {
            Some(CommandKind::GpuConvertProbe)
        } else if s == "encode-probe"@ {
            Some(CommandKind::EncodeProbe)
        } else if s == "capture-encode-probe"@ {
            Some(CommandKind::CaptureEncodeProbe)
        } else if s == "h264-send-probe"@ {
            Some(CommandKind::H264SendProbe)
        } else if s == "h264-recv-dump"@ {
            Some(CommandKind::H264RecvDump)
        } else if s == "h264-recv-view"@ {
            Some(CommandKind::H264RecvView)
        } else if s == "screen-send"@ {
            Some(CommandKind::ScreenSend)
        } else if s == "screen-recv"@ {
            Some(CommandKind::ScreenRecv)
        } else if s == "h264-file-viewer"@ {
            Some(CommandKind::H264FileViewer)
        } else if s == "color-test-pattern"@ {
            Some(CommandKind::ColorTestPattern)
        } else if s == "bench-reassembly"@ {
            Some(CommandKind::BenchReassembly)
        } else if s == "audio-capture-probe"@ {
            Some(CommandKind::AudioCaptureProbe)
        } else if s == "audio-send"@ {
            Some(CommandKind::AudioSend)
        } else if s == "audio-recv-play"@ {
            Some(CommandKind::AudioRecvPlay)
        } else {
            None
        }
    }

    /// Finds the command that `text` names.
    pub fn find(text: &str) -> (r: Option<CommandKind>)
        ensures
            r == Self::named(text@),
    {
        if same_text(text, "sender") {
            Some(CommandKind::Sender)
        } else if same_text(text, "receiver") {
            Some(CommandKind::Receiver)
        } else if same_text(text, "capture-probe") {
            Some(CommandKind::CaptureProbe)
        } else if same_text(text, "gpu-convert-probe") {
            Some(CommandKind::GpuConvertProbe)
        } else if same_text(text, "encode-probe") {
            Some(CommandKind::EncodeProbe)
        } else if same_text(text, "capture-encode-probe") {
            Some(CommandKind::CaptureEncodeProbe)
        } else if same_text(text, "h264-send-probe") {
            Some(CommandKind::H264SendProbe)
        } else if same_text(text, "h264-recv-dump") {
            Some(CommandKind::H264RecvDump)
        } else if same_text(text, "h264-recv-view") {
            Some(CommandKind::H264RecvView)
        } else if same_text(text, "screen-send") {
            Some(CommandKind::ScreenSend)
        } else if same_text(text, "screen-recv") {
            Some(CommandKind::ScreenRecv)
        } else if same_text(text, "h264-file-viewer") {
            Some(CommandKind::H264FileViewer)
        } else if same_text(text, "color-test-pattern") {
            Some(CommandKind::ColorTestPattern)
        } else if same_text(text, "bench-reassembly") {
            Some(CommandKind::BenchReassembly)
        } else if same_text(text, "audio-capture-probe") {
            Some(CommandKind::AudioCaptureProbe)
        } else if same_text(text, "audio-send") {
            Some(CommandKind::AudioSend)
        } else if same_text(text, "audio-recv-play") {
            Some(CommandKind::AudioRecvPlay)
        } else {
            None
        }
    }
}

/// The options of all commands.
#[derive(Clone, Copy, Debug, PartialEq, Eq, Structural)]
pub enum CliOption {
    Host,
    Bind,
    Port,
    Fps,
    TargetFps,
    BitrateMbps,
    QualityBpf,
    DurationSec,
    Width,
    Height,
    OutWidth,
    OutHeight,
    ColorMatrix,
    DebugDumpNv12,
    DebugDumpBgra,
    DebugDumpLimit,
    Output,
    Encoder,
    ConvertBackend,
    PacketPacing,
    Fec,
    UdpPayloadSize,
    PayloadSize,
    KeyframeIntervalSec,
    Repair,
    RepairCacheMs,
    Audio,
    Verbose,
    Frames,
    PacketsPerFrame,
    LossRate,
    FrameMs,
    JitterBufferMs,
    IdleTimeoutSec,
    DropDamagedGop,
    ReorderWaitMs,
    Input,
    RenderScale,
    WindowMode,
    RenderBackend,
    FrameTimeoutMs,
    MaxInflightFrames,
    MaxDecodeQueue,
    StrictDecodeOrder,
    PlayoutDelayMs,
    DebugDumpFrames,
    JsonIntervalMs,
    Title,
    NackDelayMs,
    NackRepeatMs,
    NackMaxRounds,
    AudioJitterBufferMs,
    AvSync,
    DisplayRefreshDetect,
    AdaptiveFeedbackMs,
    AdaptiveQuality,
    MaxFps,
    EnableHighRefresh,
    AdaptiveMinWidth,
    AdaptiveMinHeight,
    AdaptiveMinFps,
    AdaptiveMaxBitrateMbps,
    AdaptiveUpgradeStableSec,
    AdaptiveResolutionCooldownSec,
    AdaptiveFpsCooldownSec,
    InteractiveLagGuard,
}

impl CliOption {
    /// The word that names the option.
    pub open spec fn word(self) -> Seq<char> {
        match self {
            CliOption::Host => "--host"@,
            CliOption::Bind => "--bind"@,
            CliOption::Port => "--port"@,
            CliOption::Fps => "--fps"@,
            CliOption::TargetFps => "--target-fps"@,
            CliOption::BitrateMbps => "--bitrate-mbps"@,
            CliOption::QualityBpf => "--quality-bpf"@,
            CliOption::DurationSec => "--duration-sec"@,
            CliOption::Width => "--width"@,
            CliOption::Height => "--height"@,
            CliOption::OutWidth => "--out-width"@,
            CliOption::OutHeight => "--out-height"@,
            CliOption::ColorMatrix => "--color-matrix"@,
            CliOption::DebugDumpNv12 => "--debug-dump-nv12"@,
            CliOption::DebugDumpBgra => "--debug-dump-bgra"@,
            CliOption::DebugDumpLimit => "--debug-dump-limit"@,
            CliOption::Output => "--output"@,
            CliOption::Encoder => "--encoder"@,
            CliOption::ConvertBackend => "--convert-backend"@,
            CliOption::PacketPacing => "--packet-pacing"@,
            CliOption::Fec => "--fec"@,
            CliOption::UdpPayloadSize => "--udp-payload-size"@,
            CliOption::PayloadSize => "--payload-size"@,
            CliOption::KeyframeIntervalSec => "--keyframe-interval-sec"@,
            CliOption::Repair => "--repair"@,
            CliOption::RepairCacheMs => "--repair-cache-ms"@,
            CliOption::Audio => "--audio"@,
            CliOption::Verbose => "--verbose"@,
            CliOption::Frames => "--frames"@,
            CliOption::PacketsPerFrame => "--packets-per-frame"@,
            CliOption::LossRate => "--loss-rate"@,
            CliOption::FrameMs => "--frame-ms"@,
            CliOption::JitterBufferMs => "--jitter-buffer-ms"@,
            CliOption::IdleTimeoutSec => "--idle-timeout-sec"@,
            CliOption::DropDamagedGop => "--drop-damaged-gop"@,
            CliOption::ReorderWaitMs => "--reorder-wait-ms"@,
            CliOption::Input => "--input"@,
            CliOption::RenderScale => "--render-scale"@,
            CliOption::WindowMode => "--window-mode"@,
            CliOption::RenderBackend => "--render-backend"@,
            CliOption::FrameTimeoutMs => "--frame-timeout-ms"@,
            CliOption::MaxInflightFrames => "--max-inflight-frames"@,
            CliOption::MaxDecodeQueue => "--max-decode-queue"@,
            CliOption::StrictDecodeOrder => "--strict-decode-order"@,
            CliOption::PlayoutDelayMs => "--playout-delay-ms"@,
            CliOption::DebugDumpFrames => "--debug-dump-frames"@,
            CliOption::JsonIntervalMs => "--json-interval-ms"@,
            CliOption::Title => "--title"@,
            CliOption::NackDelayMs => "--nack-delay-ms"@,
            CliOption::NackRepeatMs => "--nack-repeat-ms"@,
            CliOption::NackMaxRounds => "--nack-max-rounds"@,
            CliOption::AudioJitterBufferMs => "--audio-jitter-buffer-ms"@,
            CliOption::AvSync => "--av-sync"@,
            CliOption::DisplayRefreshDetect => "--display-refresh-detect"@,
            CliOption::AdaptiveFeedbackMs => "--adaptive-feedback-ms"@,
            CliOption::AdaptiveQuality => "--adaptive-quality"@,
            CliOption::MaxFps => "--max-fps"@,
            CliOption::EnableHighRefresh => "--enable-high-refresh"@,
            CliOption::AdaptiveMinWidth => "--adaptive-min-width"@,
            CliOption::AdaptiveMinHeight => "--adaptive-min-height"@,
            CliOption::AdaptiveMinFps => "--adaptive-min-fps"@,
            CliOption::AdaptiveMaxBitrateMbps => "--adaptive-max-bitrate-mbps"@,
            CliOption::AdaptiveUpgradeStableSec => "--adaptive-upgrade-stable-sec"@,
            CliOption::AdaptiveResolutionCooldownSec => "--adaptive-resolution-cooldown-sec"@,
            CliOption::AdaptiveFpsCooldownSec => "--adaptive-fps-cooldown-sec"@,
            CliOption::InteractiveLagGuard => "--interactive-lag-guard"@,
        }
    }

    /// The option that `s` names.
    pub open spec fn named(s: Seq<char>) -> Option<CliOption> {
        if s == "--host"@ {
            Some(CliOption::Host)
        } else if s == "--bind"@ {
            Some(CliOption::Bind)
        } else if s == "--port"@ {
            Some(CliOption::Port)
        } else if s == "--fps"@ {
            Some(CliOption::Fps)
        } else if s == "--target-fps"@ {
            Some(CliOption::TargetFps)
        } else if s == "--bitrate-mbps"@ {
            Some(CliOption::BitrateMbps)
        } else if s == "--quality-bpf"@ {
            Some(CliOption::QualityBpf)
        } else if s == "--duration-sec"@ {
            Some(CliOption::DurationSec)
        } else if s == "--width"@ {
            Some(CliOption::Width)
        } else if s == "--height"@ {
            Some(CliOption::Height)
        } else if s == "--out-width"@ {
            Some(CliOption::OutWidth)
        } else if s == "--out-height"@ {
            Some(CliOption::OutHeight)
        } else if s == "--color-matrix"@ {
            Some(CliOption::ColorMatrix)
        } else if s == "--debug-dump-nv12"@ {
            Some(CliOption::DebugDumpNv12)
        } else if s == "--debug-dump-bgra"@ {
            Some(CliOption::DebugDumpBgra)
        } else if s == "--debug-dump-limit"@ {
            Some(CliOption::DebugDumpLimit)
        } else if s == "--output"@ {
            Some(CliOption::Output)
        } else if s == "--encoder"@ {
            Some(CliOption::Encoder)
        } else if s == "--convert-backend"@ {
            Some(CliOption::ConvertBackend)
        } else if s == "--packet-pacing"@ {
            Some(CliOption::PacketPacing)
        } else if s == "--fec"@ {
            Some(CliOption::Fec)
        } else if s == "--udp-payload-size"@ {
            Some(CliOption::UdpPayloadSize)
        } else if s == "--payload-size"@ {
            Some(CliOption::PayloadSize)
        } else if s == "--keyframe-interval-sec"@ {
            Some(CliOption::KeyframeIntervalSec)
        } else if s == "--repair"@ {
            Some(CliOption::Repair)
        } else if s == "--repair-cache-ms"@ {
            Some(CliOption::RepairCacheMs)
        } else if s == "--audio"@ {
            Some(CliOption::Audio)
        } else if s == "--verbose"@ {
            Some(CliOption::Verbose)
        } else if s == "--frames"@ {
            Some(CliOption::Frames)
        } else if s == "--packets-per-frame"@ {
            Some(CliOption::PacketsPerFrame)
        } else if s == "--loss-rate"@ {
            Some(CliOption::LossRate)
        } else if s == "--frame-ms"@ {
            Some(CliOption::FrameMs)
        } else if s == "--jitter-buffer-ms"@ {
            Some(CliOption::JitterBufferMs)
        } else if s == "--idle-timeout-sec"@ {
            Some(CliOption::IdleTimeoutSec)
        } else if s == "--drop-damaged-gop"@ {
            Some(CliOption::DropDamagedGop)
        } else if s == "--reorder-wait-ms"@ {
            Some(CliOption::ReorderWaitMs)
        } else if s == "--input"@ {
            Some(CliOption::Input)
        } else if s == "--render-scale"@ {
            Some(CliOption::RenderScale)
        } else if s == "--window-mode"@ {
            Some(CliOption::WindowMode)
        } else if s == "--render-backend"@ {
            Some(CliOption::RenderBackend)
        } else if s == "--frame-timeout-ms"@ {
            Some(CliOption::FrameTimeoutMs)
        } else if s == "--max-inflight-frames"@ {
            Some(CliOption::MaxInflightFrames)
        } else if s == "--max-decode-queue"@ {
            Some(CliOption::MaxDecodeQueue)
        } else if s == "--strict-decode-order"@ {
            Some(CliOption::StrictDecodeOrder)
        } else if s == "--playout-delay-ms"@ {
            Some(CliOption::PlayoutDelayMs)
        } else if s == "--debug-dump-frames"@ {
            Some(CliOption::DebugDumpFrames)
        } else if s == "--json-interval-ms"@ {
            Some(CliOption::JsonIntervalMs)
        } else if s == "--title"@ {
            Some(CliOption::Title)
        } else if s == "--nack-delay-ms"@ {
            Some(CliOption::NackDelayMs)
        } else if s == "--nack-repeat-ms"@ {
            Some(CliOption::NackRepeatMs)
        } else if s == "--nack-max-rounds"@ {
            Some(CliOption::NackMaxRounds)
        } else if s == "--audio-jitter-buffer-ms"@ {
            Some(CliOption::AudioJitterBufferMs)
        } else if s == "--av-sync"@ {
            Some(CliOption::AvSync)
        } else if s == "--display-refresh-detect"@ {
            Some(CliOption::DisplayRefreshDetect)
        } else if s == "--adaptive-feedback-ms"@ {
            Some(CliOption::AdaptiveFeedbackMs)
        } else if s == "--adaptive-quality"@ {
            Some(CliOption::AdaptiveQuality)
        } else if s == "--max-fps"@ {
            Some(CliOption::MaxFps)
        } else if s == "--enable-high-refresh"@ {
            Some(CliOption::EnableHighRefresh)
        } else if s == "--adaptive-min-width"@ {
            Some(CliOption::AdaptiveMinWidth)
        } else if s == "--adaptive-min-height"@ {
            Some(CliOption::AdaptiveMinHeight)
        } else if s == "--adaptive-min-fps"@ {
            Some(CliOption::AdaptiveMinFps)
        } else if s == "--adaptive-max-bitrate-mbps"@ {
            Some(CliOption::AdaptiveMaxBitrateMbps)
        } else if s == "--adaptive-upgrade-stable-sec"@ {
            Some(CliOption::AdaptiveUpgradeStableSec)
        } else if s == "--adaptive-resolution-cooldown-sec"@ {
            Some(CliOption::AdaptiveResolutionCooldownSec)
        } else if s == "--adaptive-fps-cooldown-sec"@ {
            Some(CliOption::AdaptiveFpsCooldownSec)
        } else if s == "--interactive-lag-guard"@ {
            Some(CliOption::InteractiveLagGuard)
        } else {
            None
        }
    }

    /// Finds the option that `text` names.
    pub fn find(text: &str) -> (r: Option<CliOption>)
        ensures
            r == Self::named(text@),
    {
        if same_text(text, "--host") {
            Some(CliOption::Host)
        } else if same_text(text, "--bind") {
            Some(CliOption::Bind)
        } else if same_text(text, "--port") {
            Some(CliOption::Port)
        } else if same_text(text, "--fps") {
            Some(CliOption::Fps)
        } else if same_text(text, "--target-fps") {
            Some(CliOption::TargetFps)
        } else if same_text(text, "--bitrate-mbps") {
            Some(CliOption::BitrateMbps)
        } else if same_text(text, "--quality-bpf") {
            Some(CliOption::QualityBpf)
        } else if same_text(text, "--duration-sec") {
            Some(CliOption::DurationSec)
        } else if same_text(text, "--width") {
            Some(CliOption::Width)
        } else if same_text(text, "--height") {
            Some(CliOption::Height)
        } else if same_text(text, "--out-width") {
            Some(CliOption::OutWidth)
        } else if same_text(text, "--out-height") {
            Some(CliOption::OutHeight)
        } else if same_text(text, "--color-matrix") {
            Some(CliOption::ColorMatrix)
        } else if same_text(text, "--debug-dump-nv12") {
            Some(CliOption::DebugDumpNv12)
        } else if same_text(text, "--debug-dump-bgra") {
            Some(CliOption::DebugDumpBgra)
        } else if same_text(text, "--debug-dump-limit") {
            Some(CliOption::DebugDumpLimit)
        } else if same_text(text, "--output") {
            Some(CliOption::Output)
        } else if same_text(text, "--encoder") {
            Some(CliOption::Encoder)
        } else if same_text(text, "--convert-backend") {
            Some(CliOption::ConvertBackend)
        } else if same_text(text, "--packet-pacing") {
            Some(CliOption::PacketPacing)
        } else if same_text(text, "--fec") {
            Some(CliOption::Fec)
        } else if same_text(text, "--udp-payload-size") {
            Some(CliOption::UdpPayloadSize)
        } else if same_text(text, "--payload-size") {
            Some(CliOption::PayloadSize)
        } else if same_text(text, "--keyframe-interval-sec") {
            Some(CliOption::KeyframeIntervalSec)
        } else if same_text(text, "--repair") {
            Some(CliOption::Repair)
        } else if same_text(text, "--repair-cache-ms") {
            Some(CliOption::RepairCacheMs)
        } else if same_text(text, "--audio") {
            Some(CliOption::Audio)
        } else if same_text(text, "--verbose") {
            Some(CliOption::Verbose)
        } else if same_text(text, "--frames") {
            Some(CliOption::Frames)
        } else if same_text(text, "--packets-per-frame") {
            Some(CliOption::PacketsPerFrame)
        } else if same_text(text, "--loss-rate") {
            Some(CliOption::LossRate)
        } else if same_text(text, "--frame-ms") {
            Some(CliOption::FrameMs)
        } else if same_text(text, "--jitter-buffer-ms") {
            Some(CliOption::JitterBufferMs)
        } else if same_text(text, "--idle-timeout-sec") {
            Some(CliOption::IdleTimeoutSec)
        } else if same_text(text, "--drop-damaged-gop") {
            Some(CliOption::DropDamagedGop)
        } else if same_text(text, "--reorder-wait-ms") {
            Some(CliOption::ReorderWaitMs)
        } else if same_text(text, "--input") {
            Some(CliOption::Input)
        } else if same_text(text, "--render-scale") {
            Some(CliOption::RenderScale)
        } else if same_text(text, "--window-mode") {
            Some(CliOption::WindowMode)
        } else if same_text(text, "--render-backend") {
            Some(CliOption::RenderBackend)
        } else if same_text(text, "--frame-timeout-ms") {
            Some(CliOption::FrameTimeoutMs)
        } else if same_text(text, "--max-inflight-frames") {
            Some(CliOption::MaxInflightFrames)
        } else if same_text(text, "--max-decode-queue") {
            Some(CliOption::MaxDecodeQueue)
        } else if same_text(text, "--strict-decode-order") {
            Some(CliOption::StrictDecodeOrder)
        } else if same_text(text, "--playout-delay-ms") {
            Some(CliOption::PlayoutDelayMs)
        } else if same_text(text, "--debug-dump-frames") {
            Some(CliOption::DebugDumpFrames)
        } else if same_text(text, "--json-interval-ms") {
            Some(CliOption::JsonIntervalMs)
        } else if same_text(text, "--title") {
            Some(CliOption::Title)
        } else if same_text(text, "--nack-delay-ms") {
            Some(CliOption::NackDelayMs)
        } else if same_text(text, "--nack-repeat-ms") {
            Some(CliOption::NackRepeatMs)
        } else if same_text(text, "--nack-max-rounds") {
            Some(CliOption::NackMaxRounds)
        } else if same_text(text, "--audio-jitter-buffer-ms") {
            Some(CliOption::AudioJitterBufferMs)
        } else if same_text(text, "--av-sync") {
            Some(CliOption::AvSync)
        } else if same_text(text, "--display-refresh-detect") {
            Some(CliOption::DisplayRefreshDetect)
        } else if same_text(text, "--adaptive-feedback-ms") {
            Some(CliOption::AdaptiveFeedbackMs)
        } else if same_text(text, "--adaptive-quality") {
            Some(CliOption::AdaptiveQuality)
        } else if same_text(text, "--max-fps") {
            Some(CliOption::MaxFps)
        } else if same_text(text, "--enable-high-refresh") {
            Some(CliOption::EnableHighRefresh)
        } else if same_text(text, "--adaptive-min-width") {
            Some(CliOption::AdaptiveMinWidth)
        } else if same_text(text, "--adaptive-min-height") {
            Some(CliOption::AdaptiveMinHeight)
        } else if same_text(text, "--adaptive-min-fps") {
            Some(CliOption::AdaptiveMinFps)
        } else if same_text(text, "--adaptive-max-bitrate-mbps") {
            Some(CliOption::AdaptiveMaxBitrateMbps)
        } else if same_text(text, "--adaptive-upgrade-stable-sec") {
            Some(CliOption::AdaptiveUpgradeStableSec)
        } else if same_text(text, "--adaptive-resolution-cooldown-sec") {
            Some(CliOption::AdaptiveResolutionCooldownSec)
        } else if same_text(text, "--adaptive-fps-cooldown-sec") {
            Some(CliOption::AdaptiveFpsCooldownSec)
        } else if same_text(text, "--interactive-lag-guard") {
            Some(CliOption::InteractiveLagGuard)
        } else {
            None
        }
    }

    /// The options of the adaptive sender.
    pub open spec fn adaptive(self) -> bool {
        match self {
            CliOption::DisplayRefreshDetect
            | CliOption::AdaptiveFeedbackMs
            | CliOption::AdaptiveQuality
            | CliOption::MaxFps
            | CliOption::EnableHighRefresh
            | CliOption::AdaptiveMinWidth
            | CliOption::AdaptiveMinHeight
            | CliOption::AdaptiveMinFps
            | CliOption::AdaptiveMaxBitrateMbps
            | CliOption::AdaptiveUpgradeStableSec
            | CliOption::AdaptiveResolutionCooldownSec
            | CliOption::AdaptiveFpsCooldownSec
            | CliOption::InteractiveLagGuard => true,
            _ => false,
        }
    }

    /// Whether this is an option of the adaptive sender.
    pub fn is_adaptive(self) -> (r: bool)
        ensures
            r == self.adaptive(),
    {
        match self {
            CliOption::DisplayRefreshDetect
            | CliOption::AdaptiveFeedbackMs
            | CliOption::AdaptiveQuality
            | CliOption::MaxFps
            | CliOption::EnableHighRefresh
            | CliOption::AdaptiveMinWidth
            | CliOption::AdaptiveMinHeight
            | CliOption::AdaptiveMinFps
            | CliOption::AdaptiveMaxBitrateMbps
            | CliOption::AdaptiveUpgradeStableSec
            | CliOption::AdaptiveResolutionCooldownSec
            | CliOption::AdaptiveFpsCooldownSec
            | CliOption::InteractiveLagGuard => true,
            _ => false,
        }
    }
}

impl CommandKind {
    /// Whether the command takes `option`.
    pub open spec fn takes(self, option: CliOption) -> bool {
        match self {
            CommandKind::Sender => match option {
                CliOption::Host
                | CliOption::Port
                | CliOption::Fps
                | CliOption::BitrateMbps => true,
                _ => false,
            },
            CommandKind::Receiver => match option {
                CliOption::Bind
                | CliOption::Port => true,
                _ => false,
            },
            CommandKind::CaptureProbe => match option {
                CliOption::DurationSec
                | CliOption::TargetFps => true,
                _ => false,
            },
            CommandKind::GpuConvertProbe => match option {
                CliOption::DurationSec
                | CliOption::TargetFps
                | CliOption::OutWidth
                | CliOption::OutHeight
                | CliOption::ColorMatrix
                | CliOption::DebugDumpNv12
                | CliOption::DebugDumpBgra
                | CliOption::DebugDumpLimit => true,
                _ => false,
            },
            CommandKind::EncodeProbe => match option {
                CliOption::Width
                | CliOption::Height
                | CliOption::Fps
                | CliOption::DurationSec
                | CliOption::BitrateMbps
                | CliOption::Output
                | CliOption::Encoder
                | CliOption::ColorMatrix => true,
                _ => false,
            },
            CommandKind::CaptureEncodeProbe => match option {
                CliOption::DurationSec
                | CliOption::TargetFps
                | CliOption::BitrateMbps
                | CliOption::QualityBpf
                | CliOption::OutWidth
                | CliOption::OutHeight
                | CliOption::Output
                | CliOption::Encoder
                | CliOption::ConvertBackend
                | CliOption::ColorMatrix => true,
                _ => false,
            },
            CommandKind::H264SendProbe => match option {
                CliOption::Host
                | CliOption::Port
                | CliOption::DurationSec
                | CliOption::TargetFps
                | CliOption::BitrateMbps
                | CliOption::QualityBpf
                | CliOption::OutWidth
                | CliOption::OutHeight
                | CliOption::ColorMatrix
                | CliOption::Encoder
                | CliOption::ConvertBackend
                | CliOption::PacketPacing
                | CliOption::Fec
                | CliOption::UdpPayloadSize
                | CliOption::KeyframeIntervalSec
                | CliOption::Repair
                | CliOption::RepairCacheMs => true,
                _ => option.adaptive(),
            },
            CommandKind::H264RecvDump => match option {
                CliOption::Bind
                | CliOption::Port
                | CliOption::Output
                | CliOption::IdleTimeoutSec
                | CliOption::DropDamagedGop
                | CliOption::ReorderWaitMs => true,
                _ => false,
            },
            CommandKind::H264RecvView => match option {
                CliOption::Bind
                | CliOption::Port
                | CliOption::Fps
                | CliOption::FrameTimeoutMs
                | CliOption::MaxInflightFrames
                | CliOption::MaxDecodeQueue
                | CliOption::StrictDecodeOrder
                | CliOption::DropDamagedGop
                | CliOption::ReorderWaitMs
                | CliOption::PlayoutDelayMs
                | CliOption::DebugDumpFrames
                | CliOption::DebugDumpLimit
                | CliOption::JsonIntervalMs
                | CliOption::Title
                | CliOption::RenderScale
                | CliOption::WindowMode
                | CliOption::RenderBackend
                | CliOption::Repair
                | CliOption::NackDelayMs
                | CliOption::NackRepeatMs
                | CliOption::NackMaxRounds
                | CliOption::DisplayRefreshDetect
                | CliOption::AdaptiveFeedbackMs => true,
                _ => false,
            },
            CommandKind::ScreenSend => match option {
                CliOption::Host
                | CliOption::Port
                | CliOption::DurationSec
                | CliOption::Fps
                | CliOption::TargetFps
                | CliOption::BitrateMbps
                | CliOption::QualityBpf
                | CliOption::Width
                | CliOption::OutWidth
                | CliOption::Height
                | CliOption::OutHeight
                | CliOption::ColorMatrix
                | CliOption::Encoder
                | CliOption::ConvertBackend
                | CliOption::PacketPacing
                | CliOption::Fec
                | CliOption::UdpPayloadSize
                | CliOption::PayloadSize
                | CliOption::KeyframeIntervalSec
                | CliOption::Repair
                | CliOption::RepairCacheMs
                | CliOption::Audio
                | CliOption::Verbose => true,
                _ => option.adaptive(),
            },
            CommandKind::ScreenRecv => match option {
                CliOption::Bind
                | CliOption::Port
                | CliOption::Fps
                | CliOption::DurationSec
                | CliOption::FrameTimeoutMs
                | CliOption::MaxInflightFrames
                | CliOption::MaxDecodeQueue
                | CliOption::StrictDecodeOrder
                | CliOption::DropDamagedGop
                | CliOption::ReorderWaitMs
                | CliOption::PlayoutDelayMs
                | CliOption::DebugDumpFrames
                | CliOption::DebugDumpLimit
                | CliOption::JsonIntervalMs
                | CliOption::Title
                | CliOption::RenderScale
                | CliOption::WindowMode
                | CliOption::RenderBackend
                | CliOption::Repair
                | CliOption::NackDelayMs
                | CliOption::NackRepeatMs
                | CliOption::NackMaxRounds
                | CliOption::Audio
                | CliOption::AudioJitterBufferMs
                | CliOption::AvSync
                | CliOption::DisplayRefreshDetect
                | CliOption::AdaptiveFeedbackMs
                | CliOption::Verbose => true,
                _ => false,
            },
            CommandKind::H264FileViewer => match option {
                CliOption::Input
                | CliOption::RenderScale
                | CliOption::WindowMode
                | CliOption::RenderBackend => true,
                _ => false,
            },
            CommandKind::ColorTestPattern => match option {
                CliOption::Output
                | CliOption::Width
                | CliOption::Height
                | CliOption::Fps
                | CliOption::DurationSec
                | CliOption::BitrateMbps
                | CliOption::ColorMatrix => true,
                _ => false,
            },
            CommandKind::BenchReassembly => match option {
                CliOption::Frames
                | CliOption::PacketsPerFrame
                | CliOption::PayloadSize
                | CliOption::LossRate => true,
                _ => false,
            },
            CommandKind::AudioCaptureProbe => match option {
                CliOption::DurationSec
                | CliOption::Output => true,
                _ => false,
            },
            CommandKind::AudioSend => match option {
                CliOption::Host
                | CliOption::Port
                | CliOption::DurationSec
                | CliOption::FrameMs => true,
                _ => false,
            },
            CommandKind::AudioRecvPlay => match option {
                CliOption::Bind
                | CliOption::Port
                | CliOption::DurationSec
                | CliOption::JitterBufferMs => true,
                _ => false,
            },
        }
    }

    /// Whether the command takes `option`.
    pub fn accepts(self, option: CliOption) -> (r: bool)
        ensures
            r == self.takes(option),
    {
        match self {
            CommandKind::Sender => match option {
                CliOption::Host
                | CliOption::Port
                | CliOption::Fps
                | CliOption::BitrateMbps => true,
                _ => false,
            },
            CommandKind::Receiver => match option {
                CliOption::Bind
                | CliOption::Port => true,
                _ => false,
            },
            CommandKind::CaptureProbe => match option {
                CliOption::DurationSec
                | CliOption::TargetFps => true,
                _ => false,
            },
            CommandKind::GpuConvertProbe => match option {
                CliOption::DurationSec
                | CliOption::TargetFps
                | CliOption::OutWidth
                | CliOption::OutHeight
                | CliOption::ColorMatrix
                | CliOption::DebugDumpNv12
                | CliOption::DebugDumpBgra
                | CliOption::DebugDumpLimit => true,
                _ => false,
            },
            CommandKind::EncodeProbe => match option {
                CliOption::Width
                | CliOption::Height
                | CliOption::Fps
                | CliOption::DurationSec
                | CliOption::BitrateMbps
                | CliOption::Output
                | CliOption::Encoder
                | CliOption::ColorMatrix => true,
                _ => false,
            },
            CommandKind::CaptureEncodeProbe => match option {
                CliOption::DurationSec
                | CliOption::TargetFps
                | CliOption::BitrateMbps
                | CliOption::QualityBpf
                | CliOption::OutWidth
                | CliOption::OutHeight
                | CliOption::Output
                | CliOption::Encoder
                | CliOption::ConvertBackend
                | CliOption::ColorMatrix => true,
                _ => false,
            },
            CommandKind::H264SendProbe => match option {
                CliOption::Host
                | CliOption::Port
                | CliOption::DurationSec
                | CliOption::TargetFps
                | CliOption::BitrateMbps
                | CliOption::QualityBpf
                | CliOption::OutWidth
                | CliOption::OutHeight
                | CliOption::ColorMatrix
                | CliOption::Encoder
                | CliOption::ConvertBackend
                | CliOption::PacketPacing
                | CliOption::Fec
                | CliOption::UdpPayloadSize
                | CliOption::KeyframeIntervalSec
                | CliOption::Repair
                | CliOption::RepairCacheMs => true,
                _ => option.is_adaptive(),
            },
            CommandKind::H264RecvDump => match option {
                CliOption::Bind
                | CliOption::Port
                | CliOption::Output
                | CliOption::IdleTimeoutSec
                | CliOption::DropDamagedGop
                | CliOption::ReorderWaitMs => true,
                _ => false,
            },
            CommandKind::H264RecvView => match option {
                CliOption::Bind
                | CliOption::Port
                | CliOption::Fps
                | CliOption::FrameTimeoutMs
                | CliOption::MaxInflightFrames
                | CliOption::MaxDecodeQueue
                | CliOption::StrictDecodeOrder
                | CliOption::DropDamagedGop
                | CliOption::ReorderWaitMs
                | CliOption::PlayoutDelayMs
                | CliOption::DebugDumpFrames
                | CliOption::DebugDumpLimit
                | CliOption::JsonIntervalMs
                | CliOption::Title
                | CliOption::RenderScale
                | CliOption::WindowMode
                | CliOption::RenderBackend
                | CliOption::Repair
                | CliOption::NackDelayMs
                | CliOption::NackRepeatMs
                | CliOption::NackMaxRounds
                | CliOption::DisplayRefreshDetect
                | CliOption::AdaptiveFeedbackMs => true,
                _ => false,
            },
            CommandKind::ScreenSend => match option {
                CliOption::Host
                | CliOption::Port
                | CliOption::DurationSec
                | CliOption::Fps
                | CliOption::TargetFps
                | CliOption::BitrateMbps
                | CliOption::QualityBpf
                | CliOption::Width
                | CliOption::OutWidth
                | CliOption::Height
                | CliOption::OutHeight
                | CliOption::ColorMatrix
                | CliOption::Encoder
                | CliOption::ConvertBackend
                | CliOption::PacketPacing
                | CliOption::Fec
                | CliOption::UdpPayloadSize
                | CliOption::PayloadSize
                | CliOption::KeyframeIntervalSec
                | CliOption::Repair
                | CliOption::RepairCacheMs
                | CliOption::Audio
                | CliOption::Verbose => true,
                _ => option.is_adaptive(),
            },
            CommandKind::ScreenRecv => match option {
                CliOption::Bind
                | CliOption::Port
                | CliOption::Fps
                | CliOption::DurationSec
                | CliOption::FrameTimeoutMs
                | CliOption::MaxInflightFrames
                | CliOption::MaxDecodeQueue
                | CliOption::StrictDecodeOrder
                | CliOption::DropDamagedGop
                | CliOption::ReorderWaitMs
                | CliOption::PlayoutDelayMs
                | CliOption::DebugDumpFrames
                | CliOption::DebugDumpLimit
                | CliOption::JsonIntervalMs
                | CliOption::Title
                | CliOption::RenderScale
                | CliOption::WindowMode
                | CliOption::RenderBackend
                | CliOption::Repair
                | CliOption::NackDelayMs
                | CliOption::NackRepeatMs
                | CliOption::NackMaxRounds
                | CliOption::Audio
                | CliOption::AudioJitterBufferMs
                | CliOption::AvSync
                | CliOption::DisplayRefreshDetect
                | CliOption::AdaptiveFeedbackMs
                | CliOption::Verbose => true,
                _ => false,
            },
            CommandKind::H264FileViewer => match option {
                CliOption::Input
                | CliOption::RenderScale
                | CliOption::WindowMode
                | CliOption::RenderBackend => true,
                _ => false,
            },
            CommandKind::ColorTestPattern => match option {
                CliOption::Output
                | CliOption::Width
                | CliOption::Height
                | CliOption::Fps
                | CliOption::DurationSec
                | CliOption::BitrateMbps
                | CliOption::ColorMatrix => true,
                _ => false,
            },
            CommandKind::BenchReassembly => match option {
                CliOption::Frames
                | CliOption::PacketsPerFrame
                | CliOption::PayloadSize
                | CliOption::LossRate => true,
                _ => false,
            },
            CommandKind::AudioCaptureProbe => match option {
                CliOption::DurationSec
                | CliOption::Output => true,
                _ => false,
            },
            CommandKind::AudioSend => match option {
                CliOption::Host
                | CliOption::Port
                | CliOption::DurationSec
                | CliOption::FrameMs => true,
                _ => false,
            },
            CommandKind::AudioRecvPlay => match option {
                CliOption::Bind
                | CliOption::Port
                | CliOption::DurationSec
                | CliOption::JitterBufferMs => true,
                _ => false,
            },
        }
    }
}

/// Texts that are set.
#[derive(Debug)]
pub struct TextOptions<T> {
    pub host: Option<T>,
    pub bind: Option<T>,
    pub output: Option<T>,
    pub input: Option<T>,
    pub title: Option<T>,
    pub debug_dump_nv12: Option<T>,
    pub debug_dump_bgra: Option<T>,
    pub debug_dump_frames: Option<T>,
}

impl View for TextOptions<String> {
    type V = TextOptions<Seq<char>>;

    open spec fn view(&self) -> TextOptions<Seq<char>> {
        TextOptions {
            host: text::optional(self.host),
            bind: text::optional(self.bind),
            output: text::optional(self.output),
            input: text::optional(self.input),
            title: text::optional(self.title),
            debug_dump_nv12: text::optional(self.debug_dump_nv12),
            debug_dump_bgra: text::optional(self.debug_dump_bgra),
            debug_dump_frames: text::optional(self.debug_dump_frames),
        }
    }
}

impl TextOptions<String> {
    /// Nothing is set.
    pub fn empty() -> (r: TextOptions<String>)
        ensures
            r@ == unset_texts(),
    {
        TextOptions {
            host: None,
            bind: None,
            output: None,
            input: None,
            title: None,
            debug_dump_nv12: None,
            debug_dump_bgra: None,
            debug_dump_frames: None,
        }
    }
}

/// Nothing is set.
pub open spec fn unset_texts() -> TextOptions<Seq<char>> {
    TextOptions {
        host: None,
        bind: None,
        output: None,
        input: None,
        title: None,
        debug_dump_nv12: None,
        debug_dump_bgra: None,
        debug_dump_frames: None,
    }
}

/// What is set of the stream.
#[derive(Clone, Copy, Debug, PartialEq, Eq, Structural)]
pub struct StreamOptions {
    pub port: Option<u16>,
    pub fps: Option<u32>,
    pub bitrate: Option<Real>,
    pub quality_bpf: Option<Real>,
    pub duration_sec: Option<u64>,
    pub width: Option<u32>,
    pub height: Option<u32>,
    pub color_matrix: Option<ColorMatrix>,
    pub encoder: Option<EncoderChoice>,
    pub convert_backend: Option<ConvertBackend>,
    pub packet_pacing: Option<PacketPacing>,
    pub fec_mode: Option<FecMode>,
    pub udp_payload_size: Option<usize>,
    pub keyframe_interval: Option<Real>,
    pub repair_mode: Option<RepairMode>,
    pub repair_cache_ms: Option<u64>,
    pub audio_mode: Option<AudioSendMode>,
    pub verbose: bool,
}

impl StreamOptions {
    /// Nothing is set.
    pub open spec fn unset() -> StreamOptions {
        StreamOptions {
            port: None,
            fps: None,
            bitrate: None,
            quality_bpf: None,
            duration_sec: None,
            width: None,
            height: None,
            color_matrix: None,
            encoder: None,
            convert_backend: None,
            packet_pacing: None,
            fec_mode: None,
            udp_payload_size: None,
            keyframe_interval: None,
            repair_mode: None,
            repair_cache_ms: None,
            audio_mode: None,
            verbose: false,
        }
    }

    /// Nothing is set.
    pub fn empty() -> (r: StreamOptions)
        ensures
            r == Self::unset(),
    {
        StreamOptions {
            port: None,
            fps: None,
            bitrate: None,
            quality_bpf: None,
            duration_sec: None,
            width: None,
            height: None,
            color_matrix: None,
            encoder: None,
            convert_backend: None,
            packet_pacing: None,
            fec_mode: None,
            udp_payload_size: None,
            keyframe_interval: None,
            repair_mode: None,
            repair_cache_ms: None,
            audio_mode: None,
            verbose: false,
        }
    }
}

/// What is set of the receiver and its window.
#[derive(Clone, Copy, Debug, PartialEq, Eq, Structural)]
pub struct ViewOptions {
    pub audio_mode: Option<AudioRecvMode>,
    pub jitter_buffer_ms: Option<u32>,
    pub idle_timeout_sec: Option<u64>,
    pub drop_damaged_gop: Option<bool>,
    pub reorder_wait_ms: Option<Option<u64>>,
    pub render_scale: Option<RenderScaleMode>,
    pub window_mode: Option<WindowMode>,
    pub render_backend: Option<RenderBackend>,
    pub frame_timeout_ms: Option<u64>,
    pub max_inflight_frames: Option<usize>,
    pub max_decode_queue: Option<usize>,
    pub strict_decode_order: Option<bool>,
    pub playout_delay_ms: Option<u64>,
    pub json_interval_ms: Option<u64>,
    pub nack_delay_ms: Option<u64>,
    pub nack_repeat_ms: Option<u64>,
    pub nack_max_rounds: Option<u8>,
    pub av_sync_mode: Option<AvSyncMode>,
    pub debug_dump_limit: Option<usize>,
}

impl ViewOptions {
    /// Nothing is set.
    pub open spec fn unset() -> ViewOptions {
        ViewOptions {
            audio_mode: None,
            jitter_buffer_ms: None,
            idle_timeout_sec: None,
            drop_damaged_gop: None,
            reorder_wait_ms: None,
            render_scale: None,
            window_mode: None,
            render_backend: None,
            frame_timeout_ms: None,
            max_inflight_frames: None,
            max_decode_queue: None,
            strict_decode_order: None,
            playout_delay_ms: None,
            json_interval_ms: None,
            nack_delay_ms: None,
            nack_repeat_ms: None,
            nack_max_rounds: None,
            av_sync_mode: None,
            debug_dump_limit: None,
        }
    }

    /// Nothing is set.
    pub fn empty() -> (r: ViewOptions)
        ensures
            r == Self::unset(),
    {
        ViewOptions {
            audio_mode: None,
            jitter_buffer_ms: None,
            idle_timeout_sec: None,
            drop_damaged_gop: None,
            reorder_wait_ms: None,
            render_scale: None,
            window_mode: None,
            render_backend: None,
            frame_timeout_ms: None,
            max_inflight_frames: None,
            max_decode_queue: None,
            strict_decode_order: None,
            playout_delay_ms: None,
            json_interval_ms: None,
            nack_delay_ms: None,
            nack_repeat_ms: None,
            nack_max_rounds: None,
            av_sync_mode: None,
            debug_dump_limit: None,
        }
    }
}

/// What is set of the probes.
#[derive(Clone, Copy, Debug, PartialEq, Eq, Structural)]
pub struct ProbeOptions {
    pub frames: Option<u64>,
    pub packets_per_frame: Option<u16>,
    pub payload_size: Option<usize>,
    pub loss_rate: Option<Real>,
    pub frame_ms: Option<u32>,
}

impl ProbeOptions {
    /// Nothing is set.
    pub open spec fn unset() -> ProbeOptions {
        ProbeOptions {
            frames: None,
            packets_per_frame: None,
            payload_size: None,
            loss_rate: None,
            frame_ms: None,
        }
    }

    /// Nothing is set.
    pub fn empty() -> (r: ProbeOptions)
        ensures
            r == Self::unset(),
    {
        ProbeOptions {
            frames: None,
            packets_per_frame: None,
            payload_size: None,
            loss_rate: None,
            frame_ms: None,
        }
    }
}

/// What is set of the adaptive sender.
#[derive(Clone, Copy, Debug, PartialEq, Eq, Structural)]
pub struct AdaptiveOptions {
    pub display_refresh_detect: Option<DisplayRefreshDetect>,
    pub feedback_ms: Option<u64>,
    pub mode: Option<AdaptiveMode>,
    pub max_fps: Option<MaxFps>,
    pub enable_high_refresh: Option<bool>,
    pub min_width: Option<u32>,
    pub min_height: Option<u32>,
    pub min_fps: Option<u32>,
    pub max_bitrate: Option<Real>,
    pub upgrade_stable_sec: Option<u64>,
    pub resolution_cooldown_sec: Option<u64>,
    pub fps_cooldown_sec: Option<u64>,
    pub interactive_lag_guard: Option<bool>,
}

impl AdaptiveOptions {
    /// Nothing is set.
    pub open spec fn unset() -> AdaptiveOptions {
        AdaptiveOptions {
            display_refresh_detect: None,
            feedback_ms: None,
            mode: None,
            max_fps: None,
            enable_high_refresh: None,
            min_width: None,
            min_height: None,
            min_fps: None,
            max_bitrate: None,
            upgrade_stable_sec: None,
            resolution_cooldown_sec: None,
            fps_cooldown_sec: None,
            interactive_lag_guard: None,
        }
    }

    /// Nothing is set.
    pub fn empty() -> (r: AdaptiveOptions)
        ensures
            r == Self::unset(),
    {
        AdaptiveOptions {
            display_refresh_detect: None,
            feedback_ms: None,
            mode: None,
            max_fps: None,
            enable_high_refresh: None,
            min_width: None,
            min_height: None,
            min_fps: None,
            max_bitrate: None,
            upgrade_stable_sec: None,
            resolution_cooldown_sec: None,
            fps_cooldown_sec: None,
            interactive_lag_guard: None,
        }
    }
}

/// What is set on a command line.
#[derive(Debug)]
pub struct Options {
    pub texts: TextOptions<String>,
    pub stream: StreamOptions,
    pub viewer: ViewOptions,
    pub probe: ProbeOptions,
    pub adaptive: AdaptiveOptions,
}

/// The view of `Options`.
pub struct OptionsModel {
    pub texts: TextOptions<Seq<char>>,
    pub stream: StreamOptions,
    pub viewer: ViewOptions,
    pub probe: ProbeOptions,
    pub adaptive: AdaptiveOptions,
}

impl View for Options {
    type V = OptionsModel;

    open spec fn view(&self) -> OptionsModel {
        OptionsModel {
            texts: self.texts@,
            stream: self.stream,
            viewer: self.viewer,
            probe: self.probe,
            adaptive: self.adaptive,
        }
    }
}

impl OptionsModel {
    /// Nothing is set.
    pub open spec fn unset() -> OptionsModel {
        OptionsModel {
            texts: unset_texts(),
            stream: StreamOptions::unset(),
            viewer: ViewOptions::unset(),
            probe: ProbeOptions::unset(),
            adaptive: AdaptiveOptions::unset(),
        }
    }
}

impl Options {
    /// Nothing is set.
    pub fn empty() -> (r: Options)
        ensures
            r@ == OptionsModel::unset(),
    {
        Options {
            texts: TextOptions::empty(),
            stream: StreamOptions::empty(),
            viewer: ViewOptions::empty(),
            probe: ProbeOptions::empty(),
            adaptive: AdaptiveOptions::empty(),
        }
    }
}

/// The group of settings that an option belongs to.
#[derive(Clone, Copy, Debug, PartialEq, Eq, Structural)]
pub enum OptionGroup {
    Texts,
    Stream,
    Viewer,
    Probe,
    Adaptive,
}

impl CommandKind {
    /// The group of settings that `option` belongs to.
    pub open spec fn group(self, option: CliOption) -> OptionGroup {
        match option {
            CliOption::Host
            | CliOption::Bind
            | CliOption::Output
            | CliOption::Input
            | CliOption::Title
            | CliOption::DebugDumpNv12
            | CliOption::DebugDumpBgra
            | CliOption::DebugDumpFrames => OptionGroup::Texts,
            CliOption::Frames
            | CliOption::PacketsPerFrame
            | CliOption::LossRate
            | CliOption::FrameMs => OptionGroup::Probe,
            CliOption::JitterBufferMs
            | CliOption::AudioJitterBufferMs
            | CliOption::IdleTimeoutSec
            | CliOption::DropDamagedGop
            | CliOption::ReorderWaitMs
            | CliOption::RenderScale
            | CliOption::WindowMode
            | CliOption::RenderBackend
            | CliOption::FrameTimeoutMs
            | CliOption::MaxInflightFrames
            | CliOption::MaxDecodeQueue
            | CliOption::StrictDecodeOrder
            | CliOption::PlayoutDelayMs
            | CliOption::JsonIntervalMs
            | CliOption::NackDelayMs
            | CliOption::NackRepeatMs
            | CliOption::NackMaxRounds
            | CliOption::AvSync
            | CliOption::DebugDumpLimit => OptionGroup::Viewer,
            CliOption::PayloadSize => if self == CommandKind::ScreenSend {
                OptionGroup::Stream
            } else {
                OptionGroup::Probe
            },
            CliOption::Audio => if self == CommandKind::ScreenSend {
                OptionGroup::Stream
            } else {
                OptionGroup::Viewer
            },
            _ => if option.adaptive() {
                OptionGroup::Adaptive
            } else {
                OptionGroup::Stream
            },
        }
    }

    /// Finds the group of settings that `option` belongs to.
    pub fn find_group(self, option: CliOption) -> (r: OptionGroup)
        ensures
            r == self.group(option),
    {
        match option {
            CliOption::Host
            | CliOption::Bind
            | CliOption::Output
            | CliOption::Input
            | CliOption::Title
            | CliOption::DebugDumpNv12
            | CliOption::DebugDumpBgra
            | CliOption::DebugDumpFrames => OptionGroup::Texts,
            CliOption::Frames
            | CliOption::PacketsPerFrame
            | CliOption::LossRate
            | CliOption::FrameMs => OptionGroup::Probe,
            CliOption::JitterBufferMs
            | CliOption::AudioJitterBufferMs
            | CliOption::IdleTimeoutSec
            | CliOption::DropDamagedGop
            | CliOption::ReorderWaitMs
            | CliOption::RenderScale
            | CliOption::WindowMode
            | CliOption::RenderBackend
            | CliOption::FrameTimeoutMs
            | CliOption::MaxInflightFrames
            | CliOption::MaxDecodeQueue
            | CliOption::StrictDecodeOrder
            | CliOption::PlayoutDelayMs
            | CliOption::JsonIntervalMs
            | CliOption::NackDelayMs
            | CliOption::NackRepeatMs
            | CliOption::NackMaxRounds
            | CliOption::AvSync
            | CliOption::DebugDumpLimit => OptionGroup::Viewer,
            CliOption::PayloadSize => if self == CommandKind::ScreenSend {
                OptionGroup::Stream
            } else {
                OptionGroup::Probe
            },
            CliOption::Audio => if self == CommandKind::ScreenSend {
                OptionGroup::Stream
            } else {
                OptionGroup::Viewer
            },
            _ => if option.is_adaptive() {
                OptionGroup::Adaptive
            } else {
                OptionGroup::Stream
            },
        }
    }
}

/// What `option` makes of `s` among the texts.  Some commands refuse a blank output,
/// and a title is never blank.
pub open spec fn set_text(
    command: CommandKind,
    option: CliOption,
    s: Seq<char>,
    now: TextOptions<Seq<char>>,
) -> Result<TextOptions<Seq<char>>, Seq<char>> {
    let checks_output = command == CommandKind::EncodeProbe || command
        == CommandKind::CaptureEncodeProbe || command == CommandKind::H264RecvDump;
    match option {
        CliOption::Host => Ok(TextOptions { host: Some(s), ..now }),
        CliOption::Bind => Ok(TextOptions { bind: Some(s), ..now }),
        CliOption::Input => Ok(TextOptions { input: Some(s), ..now }),
        CliOption::DebugDumpNv12 => Ok(TextOptions { debug_dump_nv12: Some(s), ..now }),
        CliOption::DebugDumpBgra => Ok(TextOptions { debug_dump_bgra: Some(s), ..now }),
        CliOption::DebugDumpFrames => Ok(TextOptions { debug_dump_frames: Some(s), ..now }),
        CliOption::Title => if text::is_blank(s) {
            Err("title must not be empty"@)
        } else {
            Ok(TextOptions { title: Some(s), ..now })
        },
        _ => if checks_output && text::is_blank(s) {
            Err("output path must not be empty"@)
        } else {
            Ok(TextOptions { output: Some(s), ..now })
        },
    }
}

/// Sets a text.
pub fn apply_text(
    command: CommandKind,
    option: CliOption,
    value: &str,
    now: &mut TextOptions<String>,
) -> (r: Result<(), String>)
    ensures
        match set_text(command, option, value@, old(now)@) {
            Ok(next) => r is Ok && final(now)@ == next,
            Err(error) => r is Err && r->Err_0@ == error && final(now)@ == old(now)@,
        },
{
    let checks_output: bool = command == CommandKind::EncodeProbe || command
        == CommandKind::CaptureEncodeProbe || command == CommandKind::H264RecvDump;
    match option {
        CliOption::Host => {
            now.host = Some(value.to_string());
        },
        CliOption::Bind => {
            now.bind = Some(value.to_string());
        },
        CliOption::Input => {
            now.input = Some(value.to_string());
        },
        CliOption::DebugDumpNv12 => {
            now.debug_dump_nv12 = Some(value.to_string());
        },
        CliOption::DebugDumpBgra => {
            now.debug_dump_bgra = Some(value.to_string());
        },
        CliOption::DebugDumpFrames => {
            now.debug_dump_frames = Some(value.to_string());
        },
        CliOption::Title => {
            if is_blank_text(value) {
                return Err("title must not be empty".to_string());
            }
            now.title = Some(value.to_string());
        },
        _ => {
            if checks_output && is_blank_text(value) {
                return Err("output path must not be empty".to_string());
            }
            now.output = Some(value.to_string());
        },
    }
    Ok(())
}

/// The name of a picture's width in errors.
pub open spec fn width_name(command: CommandKind, option: CliOption) -> Seq<char> {
    if command == CommandKind::ScreenSend || option == CliOption::Width {
        "width"@
    } else {
        "out-width"@
    }
}

/// The name of a picture's height in errors.
pub open spec fn height_name(command: CommandKind, option: CliOption) -> Seq<char> {
    if command == CommandKind::ScreenSend || option == CliOption::Height {
        "height"@
    } else {
        "out-height"@
    }
}

fn width_label(command: CommandKind, option: CliOption) -> (r: &'static str)
    ensures
        r@ == width_name(command, option),
{
    if command == CommandKind::ScreenSend || option == CliOption::Width {
        "width"
    } else {
        "out-width"
    }
}

fn height_label(command: CommandKind, option: CliOption) -> (r: &'static str)
    ensures
        r@ == height_name(command, option),
{
    if command == CommandKind::ScreenSend || option == CliOption::Height {
        "height"
    } else {
        "out-height"
    }
}

/// How many pictures may be dumped at most.
pub open spec fn dump_limit(command: CommandKind) -> nat {
    if command == CommandKind::GpuConvertProbe {
        100
    } else {
        10_000
    }
}

/// What `option` makes of `s` among the settings of the stream.
pub open spec fn set_stream(
    command: CommandKind,
    option: CliOption,
    s: Seq<char>,
    number: Option<Real>,
    now: StreamOptions,
) -> Result<StreamOptions, Seq<char>> {
    match option {
        CliOption::Port => match cli_values::port_value(s) {
            Ok(v) => Ok(StreamOptions { port: Some(v as u16), ..now }),
            Err(error) => Err(error),
        },
        CliOption::Fps | CliOption::TargetFps => match cli_values::fps_value(s) {
            Ok(v) => Ok(StreamOptions { fps: Some(v as u32), ..now }),
            Err(error) => Err(error),
        },
        CliOption::BitrateMbps => match cli_values::bitrate_value(s, number) {
            Ok(v) => Ok(StreamOptions { bitrate: Some(v), ..now }),
            Err(error) => Err(error),
        },
        CliOption::QualityBpf => match cli_values::quality_value(s, number) {
            Ok(v) => Ok(StreamOptions { quality_bpf: Some(v), ..now }),
            Err(error) => Err(error),
        },
        CliOption::DurationSec => match cli_values::duration_value(s) {
            Ok(v) => Ok(StreamOptions { duration_sec: Some(v as u64), ..now }),
            Err(error) => Err(error),
        },
        CliOption::Width | CliOption::OutWidth => match cli_values::dimension_value(
            s,
            width_name(command, option),
        ) {
            Ok(v) => Ok(StreamOptions { width: Some(v as u32), ..now }),
            Err(error) => Err(error),
        },
        CliOption::Height | CliOption::OutHeight => match cli_values::dimension_value(
            s,
            height_name(command, option),
        ) {
            Ok(v) => Ok(StreamOptions { height: Some(v as u32), ..now }),
            Err(error) => Err(error),
        },
        CliOption::ColorMatrix => match ColorMatrix::named(s) {
            Ok(v) => Ok(StreamOptions { color_matrix: Some(v), ..now }),
            Err(error) => Err(error),
        },
        CliOption::Encoder => match cli_values::encoder_value(s) {
            Ok(v) => Ok(StreamOptions { encoder: Some(v), ..now }),
            Err(error) => Err(error),
        },
        CliOption::ConvertBackend => match cli_values::convert_value(s) {
            Ok(v) => Ok(StreamOptions { convert_backend: Some(v), ..now }),
            Err(error) => Err(error),
        },
        CliOption::PacketPacing => match cli_values::pacing_value(s) {
            Ok(v) => Ok(StreamOptions { packet_pacing: Some(v), ..now }),
            Err(error) => Err(error),
        },
        CliOption::Fec => match cli_values::fec_value(s) {
            Ok(v) => Ok(StreamOptions { fec_mode: Some(v), ..now }),
            Err(error) => Err(error),
        },
        CliOption::UdpPayloadSize
        | CliOption::PayloadSize => match cli_values::udp_payload_value(s) {
            Ok(v) => Ok(StreamOptions { udp_payload_size: Some(v as usize), ..now }),
            Err(error) => Err(error),
        },
        CliOption::KeyframeIntervalSec => match cli_values::keyframe_value(s, number) {
            Ok(v) => Ok(StreamOptions { keyframe_interval: Some(v), ..now }),
            Err(error) => Err(error),
        },
        CliOption::Repair => match RepairMode::named(s) {
            Ok(v) => Ok(StreamOptions { repair_mode: Some(v), ..now }),
            Err(error) => Err(error),
        },
        CliOption::RepairCacheMs => match cli_values::ranged_value(
            s,
            "repair-cache-ms"@,
            500,
            10_000,
            u64::MAX as nat,
        ) {
            Ok(v) => Ok(StreamOptions { repair_cache_ms: Some(v as u64), ..now }),
            Err(error) => Err(error),
        },
        CliOption::Audio => match AudioSendMode::named(s) {
            Ok(v) => Ok(StreamOptions { audio_mode: Some(v), ..now }),
            Err(error) => Err(error),
        },
        _ => Ok(StreamOptions { verbose: true, ..now }),
    }
}

/// Sets one of the settings of the stream.
pub fn apply_stream(
    command: CommandKind,
    option: CliOption,
    value: &str,
    number: Option<Real>,
    now: StreamOptions,
) -> (r: Result<StreamOptions, String>)
    ensures
        text::agrees(r, set_stream(command, option, value@, number, now)),
{
    match option {
        CliOption::Port => match parse_port(value) {
            Ok(v) => Ok(StreamOptions { port: Some(v), ..now }),
            Err(error) => Err(error),
        },
        CliOption::Fps | CliOption::TargetFps => match parse_fps(value) {
            Ok(v) => Ok(StreamOptions { fps: Some(v), ..now }),
            Err(error) => Err(error),
        },
        CliOption::BitrateMbps => match parse_bitrate(value, number) {
            Ok(v) => Ok(StreamOptions { bitrate: Some(v), ..now }),
            Err(error) => Err(error),
        },
        CliOption::QualityBpf => match parse_quality_bpf(value, number) {
            Ok(v) => Ok(StreamOptions { quality_bpf: Some(v), ..now }),
            Err(error) => Err(error),
        },
        CliOption::DurationSec => match parse_duration_sec(value) {
            Ok(v) => Ok(StreamOptions { duration_sec: Some(v), ..now }),
            Err(error) => Err(error),
        },
        CliOption::Width | CliOption::OutWidth => match parse_dimension(
            value,
            width_label(command, option),
        ) {
            Ok(v) => Ok(StreamOptions { width: Some(v), ..now }),
            Err(error) => Err(error),
        },
        CliOption::Height | CliOption::OutHeight => match parse_dimension(
            value,
            height_label(command, option),
        ) {
            Ok(v) => Ok(StreamOptions { height: Some(v), ..now }),
            Err(error) => Err(error),
        },
        CliOption::ColorMatrix => match ColorMatrix::parse(value) {
            Ok(v) => Ok(StreamOptions { color_matrix: Some(v), ..now }),
            Err(error) => Err(error),
        },
        CliOption::Encoder => match parse_encoder_choice(value) {
            Ok(v) => Ok(StreamOptions { encoder: Some(v), ..now }),
            Err(error) => Err(error),
        },
        CliOption::ConvertBackend => match parse_convert_backend(value) {
            Ok(v) => Ok(StreamOptions { convert_backend: Some(v), ..now }),
            Err(error) => Err(error),
        },
        CliOption::PacketPacing => match parse_packet_pacing(value) {
            Ok(v) => Ok(StreamOptions { packet_pacing: Some(v), ..now }),
            Err(error) => Err(error),
        },
        CliOption::Fec => match parse_fec_mode(value) {
            Ok(v) => Ok(StreamOptions { fec_mode: Some(v), ..now }),
            Err(error) => Err(error),
        },
        CliOption::UdpPayloadSize | CliOption::PayloadSize => match parse_udp_payload_size(value) {
            Ok(v) => Ok(StreamOptions { udp_payload_size: Some(v), ..now }),
            Err(error) => Err(error),
        },
        CliOption::KeyframeIntervalSec => match parse_keyframe_interval_sec(value, number) {
            Ok(v) => Ok(StreamOptions { keyframe_interval: Some(v), ..now }),
            Err(error) => Err(error),
        },
        CliOption::Repair => match RepairMode::parse(value) {
            Ok(v) => Ok(StreamOptions { repair_mode: Some(v), ..now }),
            Err(error) => Err(error),
        },
        CliOption::RepairCacheMs => match parse_milliseconds(
            value,
            "repair-cache-ms",
            500,
            10_000,
        ) {
            Ok(v) => Ok(StreamOptions { repair_cache_ms: Some(v), ..now }),
            Err(error) => Err(error),
        },
        CliOption::Audio => match AudioSendMode::parse(value) {
            Ok(v) => Ok(StreamOptions { audio_mode: Some(v), ..now }),
            Err(error) => Err(error),
        },
        _ => Ok(StreamOptions { verbose: true, ..now }),
    }
}

/// The wait for reordered packets as it is held.
pub open spec fn reorder_ms(s: Seq<char>) -> Result<Option<u64>, Seq<char>> {
    match cli_values::reorder_value(s) {
        Ok(None) => Ok(None),
        Ok(Some(n)) => Ok(Some(n as u64)),
        Err(error) => Err(error),
    }
}

fn parse_dump_limit(command: CommandKind, value: &str) -> (r: Result<usize, String>)
    ensures
        match cli_values::ranged_value(
            value@,
            "debug-dump-limit"@,
            1,
            dump_limit(command),
            usize::MAX as nat,
        ) {
            Ok(n) => r == Ok::<usize, String>(n as usize),
            Err(error) => r is Err && r->Err_0@ == error,
        },
{
    if command == CommandKind::GpuConvertProbe {
        parse_count(value, "debug-dump-limit", 1, 100)
    } else {
        parse_count(value, "debug-dump-limit", 1, 10_000)
    }
}

/// What `option` makes of `s` among the settings of the receiver.
pub open spec fn set_viewer(
    command: CommandKind,
    option: CliOption,
    s: Seq<char>,
    number: Option<Real>,
    now: ViewOptions,
) -> Result<ViewOptions, Seq<char>> {
    match option {
        CliOption::Audio => match AudioRecvMode::named(s) {
            Ok(v) => Ok(ViewOptions { audio_mode: Some(v), ..now }),
            Err(error) => Err(error),
        },
        CliOption::JitterBufferMs
        | CliOption::AudioJitterBufferMs => match cli_values::jitter_value(s) {
            Ok(v) => Ok(ViewOptions { jitter_buffer_ms: Some(v as u32), ..now }),
            Err(error) => Err(error),
        },
        CliOption::IdleTimeoutSec => match cli_values::idle_timeout_value(s) {
            Ok(v) => Ok(ViewOptions { idle_timeout_sec: Some(v as u64), ..now }),
            Err(error) => Err(error),
        },
        CliOption::DropDamagedGop => match cli_values::bool_value(s) {
            Ok(v) => Ok(ViewOptions { drop_damaged_gop: Some(v), ..now }),
            Err(error) => Err(error),
        },
        CliOption::ReorderWaitMs => match reorder_ms(s) {
            Ok(v) => Ok(ViewOptions { reorder_wait_ms: Some(v), ..now }),
            Err(error) => Err(error),
        },
        CliOption::RenderScale => match RenderScaleMode::named(s) {
            Ok(v) => Ok(ViewOptions { render_scale: Some(v), ..now }),
            Err(error) => Err(error),
        },
        CliOption::WindowMode => match WindowMode::named(s) {
            Ok(v) => Ok(ViewOptions { window_mode: Some(v), ..now }),
            Err(error) => Err(error),
        },
        CliOption::RenderBackend => match RenderBackend::named(s) {
            Ok(v) => Ok(ViewOptions { render_backend: Some(v), ..now }),
            Err(error) => Err(error),
        },
        CliOption::FrameTimeoutMs => match cli_values::ranged_value(
            s,
            "frame-timeout-ms"@,
            1,
            60_000,
            u64::MAX as nat,
        ) {
            Ok(v) => Ok(ViewOptions { frame_timeout_ms: Some(v as u64), ..now }),
            Err(error) => Err(error),
        },
        CliOption::MaxInflightFrames => match cli_values::ranged_value(
            s,
            "max-inflight-frames"@,
            1,
            10_000,
            usize::MAX as nat,
        ) {
            Ok(v) => Ok(ViewOptions { max_inflight_frames: Some(v as usize), ..now }),
            Err(error) => Err(error),
        },
        CliOption::MaxDecodeQueue => match cli_values::ranged_value(
            s,
            "max-decode-queue"@,
            1,
            1000,
            usize::MAX as nat,
        ) {
            Ok(v) => Ok(ViewOptions { max_decode_queue: Some(v as usize), ..now }),
            Err(error) => Err(error),
        },
        CliOption::StrictDecodeOrder => match cli_values::bool_value(s) {
            Ok(v) => Ok(ViewOptions { strict_decode_order: Some(v), ..now }),
            Err(error) => Err(error),
        },
        CliOption::PlayoutDelayMs => match cli_values::ranged_value(
            s,
            "playout-delay-ms"@,
            0,
            500,
            u64::MAX as nat,
        ) {
            Ok(v) => Ok(ViewOptions { playout_delay_ms: Some(v as u64), ..now }),
            Err(error) => Err(error),
        },
        CliOption::JsonIntervalMs => match cli_values::ranged_value(
            s,
            "json-interval-ms"@,
            100,
            60_000,
            u64::MAX as nat,
        ) {
            Ok(v) => Ok(ViewOptions { json_interval_ms: Some(v as u64), ..now }),
            Err(error) => Err(error),
        },
        CliOption::NackDelayMs => match cli_values::ranged_value(
            s,
            "nack-delay-ms"@,
            1,
            50,
            u64::MAX as nat,
        ) {
            Ok(v) => Ok(ViewOptions { nack_delay_ms: Some(v as u64), ..now }),
            Err(error) => Err(error),
        },
        CliOption::NackRepeatMs => match cli_values::ranged_value(
            s,
            "nack-repeat-ms"@,
            1,
            50,
            u64::MAX as nat,
        ) {
            Ok(v) => Ok(ViewOptions { nack_repeat_ms: Some(v as u64), ..now }),
            Err(error) => Err(error),
        },
        CliOption::NackMaxRounds => match cli_values::ranged_value(
            s,
            "nack-max-rounds"@,
            1,
            10,
            usize::MAX as nat,
        ) {
            Ok(v) => Ok(ViewOptions { nack_max_rounds: Some(v as u8), ..now }),
            Err(error) => Err(error),
        },
        CliOption::AvSync => match AvSyncMode::named(s) {
            Ok(v) => Ok(ViewOptions { av_sync_mode: Some(v), ..now }),
            Err(error) => Err(error),
        },
        _ => match cli_values::ranged_value(
            s,
            "debug-dump-limit"@,
            1,
            dump_limit(command),
            usize::MAX as nat,
        ) {
            Ok(v) => Ok(ViewOptions { debug_dump_limit: Some(v as usize), ..now }),
            Err(error) => Err(error),
        },
    }
}

/// Sets one of the settings of the receiver.
pub fn apply_viewer(
    command: CommandKind,
    option: CliOption,
    value: &str,
    number: Option<Real>,
    now: ViewOptions,
) -> (r: Result<ViewOptions, String>)
    ensures
        text::agrees(r, set_viewer(command, option, value@, number, now)),
{
    match option {
        CliOption::Audio => match AudioRecvMode::parse(value) {
            Ok(v) => Ok(ViewOptions { audio_mode: Some(v), ..now }),
            Err(error) => Err(error),
        },
        CliOption::JitterBufferMs
        | CliOption::AudioJitterBufferMs => match parse_audio_jitter_buffer_ms(value) {
            Ok(v) => Ok(ViewOptions { jitter_buffer_ms: Some(v), ..now }),
            Err(error) => Err(error),
        },
        CliOption::IdleTimeoutSec => match parse_idle_timeout(value) {
            Ok(v) => Ok(ViewOptions { idle_timeout_sec: Some(v), ..now }),
            Err(error) => Err(error),
        },
        CliOption::DropDamagedGop => match parse_bool(value) {
            Ok(v) => Ok(ViewOptions { drop_damaged_gop: Some(v), ..now }),
            Err(error) => Err(error),
        },
        CliOption::ReorderWaitMs => match parse_reorder_wait_ms(value) {
            Ok(v) => Ok(ViewOptions { reorder_wait_ms: Some(v), ..now }),
            Err(error) => Err(error),
        },
        CliOption::RenderScale => match RenderScaleMode::parse(value) {
            Ok(v) => Ok(ViewOptions { render_scale: Some(v), ..now }),
            Err(error) => Err(error),
        },
        CliOption::WindowMode => match WindowMode::parse(value) {
            Ok(v) => Ok(ViewOptions { window_mode: Some(v), ..now }),
            Err(error) => Err(error),
        },
        CliOption::RenderBackend => match RenderBackend::parse(value) {
            Ok(v) => Ok(ViewOptions { render_backend: Some(v), ..now }),
            Err(error) => Err(error),
        },
        CliOption::FrameTimeoutMs => match parse_milliseconds(
            value,
            "frame-timeout-ms",
            1,
            60_000,
        ) {
            Ok(v) => Ok(ViewOptions { frame_timeout_ms: Some(v), ..now }),
            Err(error) => Err(error),
        },
        CliOption::MaxInflightFrames => match parse_count(value, "max-inflight-frames", 1, 10_000) {
            Ok(v) => Ok(ViewOptions { max_inflight_frames: Some(v), ..now }),
            Err(error) => Err(error),
        },
        CliOption::MaxDecodeQueue => match parse_count(value, "max-decode-queue", 1, 1000) {
            Ok(v) => Ok(ViewOptions { max_decode_queue: Some(v), ..now }),
            Err(error) => Err(error),
        },
        CliOption::StrictDecodeOrder => match parse_bool(value) {
            Ok(v) => Ok(ViewOptions { strict_decode_order: Some(v), ..now }),
            Err(error) => Err(error),
        },
        CliOption::PlayoutDelayMs => match parse_milliseconds(value, "playout-delay-ms", 0, 500) {
            Ok(v) => Ok(ViewOptions { playout_delay_ms: Some(v), ..now }),
            Err(error) => Err(error),
        },
        CliOption::JsonIntervalMs => match parse_milliseconds(
            value,
            "json-interval-ms",
            100,
            60_000,
        ) {
            Ok(v) => Ok(ViewOptions { json_interval_ms: Some(v), ..now }),
            Err(error) => Err(error),
        },
        CliOption::NackDelayMs => match parse_milliseconds(value, "nack-delay-ms", 1, 50) {
            Ok(v) => Ok(ViewOptions { nack_delay_ms: Some(v), ..now }),
            Err(error) => Err(error),
        },
        CliOption::NackRepeatMs => match parse_milliseconds(value, "nack-repeat-ms", 1, 50) {
            Ok(v) => Ok(ViewOptions { nack_repeat_ms: Some(v), ..now }),
            Err(error) => Err(error),
        },
        CliOption::NackMaxRounds => match parse_count(value, "nack-max-rounds", 1, 10) {
            Ok(v) => Ok(ViewOptions { nack_max_rounds: Some(v as u8), ..now }),
            Err(error) => Err(error),
        },
        CliOption::AvSync => match AvSyncMode::parse(value) {
            Ok(v) => Ok(ViewOptions { av_sync_mode: Some(v), ..now }),
            Err(error) => Err(error),
        },
        _ => match parse_dump_limit(command, value) {
            Ok(v) => Ok(ViewOptions { debug_dump_limit: Some(v), ..now }),
            Err(error) => Err(error),
        },
    }
}

/// What `option` makes of `s` among the settings of the probes.
pub open spec fn set_probe(
    command: CommandKind,
    option: CliOption,
    s: Seq<char>,
    number: Option<Real>,
    now: ProbeOptions,
) -> Result<ProbeOptions, Seq<char>> {
    match option {
        CliOption::Frames => match cli_values::positive_value(
            s,
            u64::MAX as nat,
            "frames must be a positive integer"@,
            "frames must be greater than zero"@,
        ) {
            Ok(v) => Ok(ProbeOptions { frames: Some(v as u64), ..now }),
            Err(error) => Err(error),
        },
        CliOption::PacketsPerFrame => match cli_values::positive_value(
            s,
            u16::MAX as nat,
            "packets-per-frame must be between 1 and 65535"@,
            "packets-per-frame must be greater than zero"@,
        ) {
            Ok(v) => Ok(ProbeOptions { packets_per_frame: Some(v as u16), ..now }),
            Err(error) => Err(error),
        },
        CliOption::LossRate => match cli_values::loss_rate_value(number) {
            Ok(v) => Ok(ProbeOptions { loss_rate: Some(v), ..now }),
            Err(error) => Err(error),
        },
        CliOption::FrameMs => match cli_values::audio_frame_value(s) {
            Ok(v) => Ok(ProbeOptions { frame_ms: Some(v as u32), ..now }),
            Err(error) => Err(error),
        },
        _ => match cli_values::packet_payload_value(s) {
            Ok(v) => Ok(ProbeOptions { payload_size: Some(v as usize), ..now }),
            Err(error) => Err(error),
        },
    }
}

/// Sets one of the settings of the probes.
pub fn apply_probe(
    command: CommandKind,
    option: CliOption,
    value: &str,
    number: Option<Real>,
    now: ProbeOptions,
) -> (r: Result<ProbeOptions, String>)
    ensures
        text::agrees(r, set_probe(command, option, value@, number, now)),
{
    match option {
        CliOption::Frames => match parse_positive(
            value,
            u64::MAX,
            "frames must be a positive integer",
            "frames must be greater than zero",
        ) {
            Ok(v) => Ok(ProbeOptions { frames: Some(v), ..now }),
            Err(error) => Err(error),
        },
        CliOption::PacketsPerFrame => match parse_positive(
            value,
            u16::MAX as u64,
            "packets-per-frame must be between 1 and 65535",
            "packets-per-frame must be greater than zero",
        ) {
            Ok(v) => Ok(ProbeOptions { packets_per_frame: Some(v as u16), ..now }),
            Err(error) => Err(error),
        },
        CliOption::LossRate => match parse_loss_rate(number) {
            Ok(v) => Ok(ProbeOptions { loss_rate: Some(v), ..now }),
            Err(error) => Err(error),
        },
        CliOption::FrameMs => match parse_audio_frame_ms(value) {
            Ok(v) => Ok(ProbeOptions { frame_ms: Some(v), ..now }),
            Err(error) => Err(error),
        },
        _ => match parse_packet_payload(value) {
            Ok(v) => Ok(ProbeOptions { payload_size: Some(v), ..now }),
            Err(error) => Err(error),
        },
    }
}

/// What `option` makes of `s` among the settings of the adaptive sender.
pub open spec fn set_adaptive(
    command: CommandKind,
    option: CliOption,
    s: Seq<char>,
    number: Option<Real>,
    now: AdaptiveOptions,
) -> Result<AdaptiveOptions, Seq<char>> {
    match option {
        CliOption::DisplayRefreshDetect => match DisplayRefreshDetect::named(s) {
            Ok(v) => Ok(AdaptiveOptions { display_refresh_detect: Some(v), ..now }),
            Err(error) => Err(error),
        },
        CliOption::AdaptiveFeedbackMs => match cli_values::ranged_value(
            s,
            "adaptive-feedback-ms"@,
            500,
            2000,
            u64::MAX as nat,
        ) {
            Ok(v) => Ok(AdaptiveOptions { feedback_ms: Some(v as u64), ..now }),
            Err(error) => Err(error),
        },
        CliOption::AdaptiveQuality => match AdaptiveMode::named(s) {
            Ok(v) => Ok(AdaptiveOptions { mode: Some(v), ..now }),
            Err(error) => Err(error),
        },
        CliOption::MaxFps => match MaxFps::named(s) {
            Ok(v) => Ok(AdaptiveOptions { max_fps: Some(v), ..now }),
            Err(error) => Err(error),
        },
        CliOption::EnableHighRefresh => match cli_values::bool_value(s) {
            Ok(v) => Ok(AdaptiveOptions { enable_high_refresh: Some(v), ..now }),
            Err(error) => Err(error),
        },
        CliOption::AdaptiveMinWidth => match cli_values::dimension_value(s, "adaptive-min-width"@) {
            Ok(v) => Ok(AdaptiveOptions { min_width: Some(v as u32), ..now }),
            Err(error) => Err(error),
        },
        CliOption::AdaptiveMinHeight => match cli_values::dimension_value(
            s,
            "adaptive-min-height"@,
        ) {
            Ok(v) => Ok(AdaptiveOptions { min_height: Some(v as u32), ..now }),
            Err(error) => Err(error),
        },
        CliOption::AdaptiveMinFps => match cli_values::fps_value(s) {
            Ok(v) => Ok(AdaptiveOptions { min_fps: Some(v as u32), ..now }),
            Err(error) => Err(error),
        },
        CliOption::AdaptiveMaxBitrateMbps => match cli_values::bitrate_value(s, number) {
            Ok(v) => Ok(AdaptiveOptions { max_bitrate: Some(v), ..now }),
            Err(error) => Err(error),
        },
        CliOption::AdaptiveUpgradeStableSec => match cli_values::seconds_value(
            s,
            "adaptive-upgrade-stable-sec"@,
            1,
            3600,
        ) {
            Ok(v) => Ok(AdaptiveOptions { upgrade_stable_sec: Some(v as u64), ..now }),
            Err(error) => Err(error),
        },
        CliOption::AdaptiveResolutionCooldownSec => match cli_values::seconds_value(
            s,
            "adaptive-resolution-cooldown-sec"@,
            1,
            3600,
        ) {
            Ok(v) => Ok(AdaptiveOptions { resolution_cooldown_sec: Some(v as u64), ..now }),
            Err(error) => Err(error),
        },
        CliOption::AdaptiveFpsCooldownSec => match cli_values::seconds_value(
            s,
            "adaptive-fps-cooldown-sec"@,
            1,
            3600,
        ) {
            Ok(v) => Ok(AdaptiveOptions { fps_cooldown_sec: Some(v as u64), ..now }),
            Err(error) => Err(error),
        },
        _ => match cli_values::bool_value(s) {
            Ok(v) => Ok(AdaptiveOptions { interactive_lag_guard: Some(v), ..now }),
            Err(error) => Err(error),
        },
    }
}

/// Sets one of the settings of the adaptive sender.
pub fn parse_adaptive_sender_option(
    command: CommandKind,
    option: CliOption,
    value: &str,
    number: Option<Real>,
    now: AdaptiveOptions,
) -> (r: Result<AdaptiveOptions, String>)
    ensures
        text::agrees(r, set_adaptive(command, option, value@, number, now)),
{
    match option {
        CliOption::DisplayRefreshDetect => match DisplayRefreshDetect::parse(value) {
            Ok(v) => Ok(AdaptiveOptions { display_refresh_detect: Some(v), ..now }),
            Err(error) => Err(error),
        },
        CliOption::AdaptiveFeedbackMs => match parse_milliseconds(
            value,
            "adaptive-feedback-ms",
            500,
            2000,
        ) {
            Ok(v) => Ok(AdaptiveOptions { feedback_ms: Some(v), ..now }),
            Err(error) => Err(error),
        },
        CliOption::AdaptiveQuality => match AdaptiveMode::parse(value) {
            Ok(v) => Ok(AdaptiveOptions { mode: Some(v), ..now }),
            Err(error) => Err(error),
        },
        CliOption::MaxFps => match MaxFps::parse(value) {
            Ok(v) => Ok(AdaptiveOptions { max_fps: Some(v), ..now }),
            Err(error) => Err(error),
        },
        CliOption::EnableHighRefresh => match parse_bool(value) {
            Ok(v) => Ok(AdaptiveOptions { enable_high_refresh: Some(v), ..now }),
            Err(error) => Err(error),
        },
        CliOption::AdaptiveMinWidth => match parse_dimension(value, "adaptive-min-width") {
            Ok(v) => Ok(AdaptiveOptions { min_width: Some(v), ..now }),
            Err(error) => Err(error),
        },
        CliOption::AdaptiveMinHeight => match parse_dimension(value, "adaptive-min-height") {
            Ok(v) => Ok(AdaptiveOptions { min_height: Some(v), ..now }),
            Err(error) => Err(error),
        },
        CliOption::AdaptiveMinFps => match parse_fps(value) {
            Ok(v) => Ok(AdaptiveOptions { min_fps: Some(v), ..now }),
            Err(error) => Err(error),
        },
        CliOption::AdaptiveMaxBitrateMbps => match parse_bitrate(value, number) {
            Ok(v) => Ok(AdaptiveOptions { max_bitrate: Some(v), ..now }),
            Err(error) => Err(error),
        },
        CliOption::AdaptiveUpgradeStableSec => match parse_seconds_range(
            value,
            "adaptive-upgrade-stable-sec",
            1,
            3600,
        ) {
            Ok(v) => Ok(AdaptiveOptions { upgrade_stable_sec: Some(v), ..now }),
            Err(error) => Err(error),
        },
        CliOption::AdaptiveResolutionCooldownSec => match parse_seconds_range(
            value,
            "adaptive-resolution-cooldown-sec",
            1,
            3600,
        ) {
            Ok(v) => Ok(AdaptiveOptions { resolution_cooldown_sec: Some(v), ..now }),
            Err(error) => Err(error),
        },
        CliOption::AdaptiveFpsCooldownSec => match parse_seconds_range(
            value,
            "adaptive-fps-cooldown-sec",
            1,
            3600,
        ) {
            Ok(v) => Ok(AdaptiveOptions { fps_cooldown_sec: Some(v), ..now }),
            Err(error) => Err(error),
        },
        _ => match parse_bool(value) {
            Ok(v) => Ok(AdaptiveOptions { interactive_lag_guard: Some(v), ..now }),
            Err(error) => Err(error),
        },
    }
}

/// What `option` with the value `s` makes of the settings.
pub open spec fn set_option(
    command: CommandKind,
    option: CliOption,
    s: Seq<char>,
    number: Option<Real>,
    now: OptionsModel,
) -> Result<OptionsModel, Seq<char>> {
    match command.group(option) {
        OptionGroup::Texts => match set_text(command, option, s, now.texts) {
            Ok(texts) => Ok(OptionsModel { texts, ..now }),
            Err(error) => Err(error),
        },
        OptionGroup::Stream => match set_stream(command, option, s, number, now.stream) {
            Ok(stream) => Ok(OptionsModel { stream, ..now }),
            Err(error) => Err(error),
        },
        OptionGroup::Viewer => match set_viewer(command, option, s, number, now.viewer) {
            Ok(viewer) => Ok(OptionsModel { viewer, ..now }),
            Err(error) => Err(error),
        },
        OptionGroup::Probe => match set_probe(command, option, s, number, now.probe) {
            Ok(probe) => Ok(OptionsModel { probe, ..now }),
            Err(error) => Err(error),
        },
        OptionGroup::Adaptive => match set_adaptive(command, option, s, number, now.adaptive) {
            Ok(adaptive) => Ok(OptionsModel { adaptive, ..now }),
            Err(error) => Err(error),
        },
    }
}

/// Sets an option.
fn apply_option(
    command: CommandKind,
    option: CliOption,
    value: &str,
    number: Option<Real>,
    now: &mut Options,
) -> (r: Result<(), String>)
    ensures
        match set_option(command, option, value@, number, old(now)@) {
            Ok(next) => r is Ok && final(now)@ == next,
            Err(error) => r is Err && r->Err_0@ == error,
        },
{
    match command.find_group(option) {
        OptionGroup::Texts => {
            apply_text(command, option, value, &mut now.texts)?;
        },
        OptionGroup::Stream => {
            now.stream = apply_stream(command, option, value, number, now.stream)?;
        },
        OptionGroup::Viewer => {
            now.viewer = apply_viewer(command, option, value, number, now.viewer)?;
        },
        OptionGroup::Probe => {
            now.probe = apply_probe(command, option, value, number, now.probe)?;
        },
        OptionGroup::Adaptive => {
            now.adaptive =
            parse_adaptive_sender_option(command, option, value, number, now.adaptive)?;
        },
    }
    Ok(())
}

/// `s` asks for help.
pub open spec fn asks_help(s: Seq<char>) -> bool {
    s == "-h"@ || s == "--help"@
}

/// The settings after the arguments from `i` on, `None` where one asks for help, or
/// the first error.
pub open spec fn scan(
    command: CommandKind,
    args: Seq<String>,
    numbers: Seq<Option<Real>>,
    i: int,
    now: OptionsModel,
) -> Result<Option<OptionsModel>, Seq<char>>
    decreases args.len() - i,
{
    if i < 0 || i >= args.len() {
        Ok(Some(now))
    } else {
        let name = args[i]@;
        if asks_help(name) {
            Ok(None)
        } else {
            match CliOption::named(name) {
                Some(option) => if !command.takes(option) {
                    Err("unknown "@ + command.word() + " argument: "@ + name)
                } else if option == CliOption::Verbose {
                    scan(
                        command,
                        args,
                        numbers,
                        i + 1,
                        OptionsModel {
                            stream: StreamOptions { verbose: true, ..now.stream },
                            ..now
                        },
                    )
                } else if i + 1 >= args.len() {
                    Err("missing value for "@ + name)
                } else {
                    match set_option(command, option, args[i + 1]@, numbers[i + 1], now) {
                        Ok(next) => scan(command, args, numbers, i + 2, next),
                        Err(error) => Err(error),
                    }
                },
                None => Err("unknown "@ + command.word() + " argument: "@ + name),
            }
        }
    }
}

/// The value of the option `name` at `index`.
pub fn required_value<'a>(args: &'a [String], index: usize, name: &str) -> (r: Result<
    &'a str,
    String,
>)
    ensures
        if index < args@.len() {
            r is Ok && r->Ok_0@ == args@[index as int]@
        } else {
            r is Err && r->Err_0@ == "missing value for "@ + name@
        },
{
    if index < args.len() {
        Ok(args[index].as_str())
    } else {
        Err("missing value for ".to_string().concat(name))
    }
}

/// Reads the arguments of a command; `None` where one asks for help.  The real number
/// that an argument spells, if it spells one, stands in `numbers`.
pub fn scan_options(command: CommandKind, args: &[String], numbers: &[Option<Real>]) -> (r: Result<
    Option<Options>,
    String,
>)
    requires
        numbers@.len() == args@.len(),
    ensures
        match scan(command, args@, numbers@, 0, OptionsModel::unset()) {
            Ok(Some(options)) => r is Ok && r->Ok_0 is Some && (r->Ok_0->0)@ == options,
            Ok(None) => r is Ok && r->Ok_0 is None,
            Err(error) => r is Err && r->Err_0@ == error,
        },
{
    let mut options: Options = Options::empty();
    let mut i: usize = 0;
    while i < args.len()
        invariant
            i <= args.len(),
            numbers@.len() == args@.len(),
            scan(command, args@, numbers@, 0, OptionsModel::unset()) == scan(
                command,
                args@,
                numbers@,
                i as int,
                options@,
            ),
        decreases args.len() - i,
    {
        let name: &str = args[i].as_str();
        if same_text(name, "-h") || same_text(name, "--help") {
            return Ok(None);
        }
        let option: CliOption = match CliOption::find(name) {
            Some(option) => {
                if !command.accepts(option) {
                    return Err(unknown_argument(command, name));
                }
                option
            },
            None => {
                return Err(unknown_argument(command, name));
            },
        };
        if option == CliOption::Verbose {
            options.stream.verbose = true;
            i = i + 1;
        } else {
            let value: &str = required_value(args, i + 1, name)?;
            apply_option(command, option, value, numbers[i + 1], &mut options)?;
            i = i + 2;
        }
    }
    Ok(Some(options))
}

fn unknown_argument(command: CommandKind, name: &str) -> (r: String)
    ensures
        r@ == "unknown "@ + command.word() + " argument: "@ + name@,
{
    let mut r: String = "unknown ".to_string();
    r.append(command.name());
    r.append(" argument: ");
    r.append(name);
    r
}

// What holds of every command line.

/// Arguments that are read without an error or a call for help leave settings from
/// which whatever follows them is read on.
pub proof fn law_scan_continues(
    command: CommandKind,
    args: Seq<String>,
    numbers: Seq<Option<Real>>,
    more_args: Seq<String>,
    more_numbers: Seq<Option<Real>>,
    i: int,
    now: OptionsModel,
)
    requires
        args.len() == numbers.len(),
        0 <= i <= args.len(),
        scan(command, args, numbers, i, now) matches Ok(Some(_)),
    ensures
        scan(command, args + more_args, numbers + more_numbers, i, now) == scan(
            command,
            args + more_args,
            numbers + more_numbers,
            args.len() as int,
            (scan(command, args, numbers, i, now)->Ok_0)->0,
        ),
    decreases args.len() - i,
{
    if i < args.len() {
        let option = CliOption::named(args[i]@)->0;
        assert((args + more_args)[i] == args[i]);
        if option == CliOption::Verbose {
            law_scan_continues(
                command,
                args,
                numbers,
                more_args,
                more_numbers,
                i + 1,
                OptionsModel { stream: StreamOptions { verbose: true, ..now.stream }, ..now },
            );
        } else {
            assert((args + more_args)[i + 1] == args[i + 1]);
            assert((numbers + more_numbers)[i + 1] == numbers[i + 1]);
            let next = set_option(command, option, args[i + 1]@, numbers[i + 1], now)->Ok_0;
            law_scan_continues(command, args, numbers, more_args, more_numbers, i + 2, next);
        }
    }
}

/// What tells the names of the commands apart: their lengths, and some of their letters.
spec fn commands_are_told_apart() -> bool {
    &&& "sender"@.len() == 6 && "sender"@[0] == 's'
    &&& "receiver"@.len() == 8
    &&& "capture-probe"@.len() == 13
    &&& "gpu-convert-probe"@.len() == 17
    &&& "encode-probe"@.len() == 12
    &&& "capture-encode-probe"@.len() == 20
    &&& "h264-send-probe"@.len() == 15 && "h264-send-probe"@[0] == 'h'
    &&& "h264-recv-dump"@.len() == 14 && "h264-recv-dump"@[10] == 'd'
    &&& "h264-recv-view"@.len() == 14 && "h264-recv-view"@[10] == 'v'
    &&& "screen-send"@.len() == 11 && "screen-send"@[7] == 's'
    &&& "screen-recv"@.len() == 11 && "screen-recv"@[7] == 'r'
    &&& "h264-file-viewer"@.len() == 16 && "h264-file-viewer"@[0] == 'h'
    &&& "color-test-pattern"@.len() == 18
    &&& "bench-reassembly"@.len() == 16 && "bench-reassembly"@[0] == 'b'
    &&& "audio-capture-probe"@.len() == 19
    &&& "audio-send"@.len() == 10
    &&& "audio-recv-play"@.len() == 15 && "audio-recv-play"@[0] == 'a'
    &&& "--help"@.len() == 6 && "--help"@[0] == '-'
    &&& "-h"@.len() == 2
    &&& "help"@.len() == 4
    &&& "self-test"@.len() == 9 && "self-test"@[0] == 's'
    &&& "wmf-probe"@.len() == 9 && "wmf-probe"@[0] == 'w'
}

proof fn lemma_commands_are_told_apart()
    ensures
        commands_are_told_apart(),
{
    reveal_strlit("sender");
    reveal_strlit("receiver");
    reveal_strlit("capture-probe");
    reveal_strlit("gpu-convert-probe");
    reveal_strlit("encode-probe");
    reveal_strlit("capture-encode-probe");
    reveal_strlit("h264-send-probe");
    reveal_strlit("h264-recv-dump");
    reveal_strlit("h264-recv-view");
    reveal_strlit("screen-send");
    reveal_strlit("screen-recv");
    reveal_strlit("h264-file-viewer");
    reveal_strlit("color-test-pattern");
    reveal_strlit("bench-reassembly");
    reveal_strlit("audio-capture-probe");
    reveal_strlit("audio-send");
    reveal_strlit("audio-recv-play");
    reveal_strlit("--help");
    reveal_strlit("-h");
    reveal_strlit("help");
    reveal_strlit("self-test");
    reveal_strlit("wmf-probe");
}

/// Every command is found by its name, which is none of the words that stand alone.
pub proof fn law_command_is_found_by_its_name(kind: CommandKind)
    ensures
        CommandKind::named(kind.word()) == Some(kind),
        kind.word() != "-h"@,
        kind.word() != "--help"@,
        kind.word() != "help"@,
        kind.word() != "self-test"@,
        kind.word() != "wmf-probe"@,
{
    lemma_commands_are_told_apart();
}

/// What tells the names of the options apart: their lengths, and some of their letters.
spec fn names_are_told_apart() -> bool {
    &&& "--host"@.len() == 6 && "--host"@[4] == 's'
    &&& "--bind"@.len() == 6 && "--bind"@[4] == 'n'
    &&& "--port"@.len() == 6 && "--port"@[4] == 'r'
    &&& "--fps"@.len() == 5 && "--fps"@[3] == 'p'
    &&& "--target-fps"@.len() == 12 && "--target-fps"@[2] == 't'
    &&& "--bitrate-mbps"@.len() == 14 && "--bitrate-mbps"@[2] == 'b'
    &&& "--quality-bpf"@.len() == 13 && "--quality-bpf"@[2] == 'q'
    &&& "--duration-sec"@.len() == 14 && "--duration-sec"@[2] == 'd'
    &&& "--width"@.len() == 7 && "--width"@[2] == 'w'
    &&& "--height"@.len() == 8 && "--height"@[2] == 'h'
    &&& "--out-width"@.len() == 11 && "--out-width"@[2] == 'o'
    &&& "--out-height"@.len() == 12 && "--out-height"@[2] == 'o'
    &&& "--color-matrix"@.len() == 14 && "--color-matrix"@[2] == 'c'
    &&& "--debug-dump-nv12"@.len() == 17 && "--debug-dump-nv12"@[13] == 'n'
    &&& "--debug-dump-bgra"@.len() == 17 && "--debug-dump-bgra"@[13] == 'b'
    &&& "--debug-dump-limit"@.len() == 18 && "--debug-dump-limit"@[8] == 'd'
        && "--debug-dump-limit"@[12] == '-'
    &&& "--output"@.len() == 8 && "--output"@[2] == 'o'
    &&& "--encoder"@.len() == 9 && "--encoder"@[2] == 'e'
    &&& "--convert-backend"@.len() == 17 && "--convert-backend"@[13] == 'k'
    &&& "--packet-pacing"@.len() == 15 && "--packet-pacing"@[2] == 'p'
    &&& "--fec"@.len() == 5 && "--fec"@[3] == 'e'
    &&& "--udp-payload-size"@.len() == 18 && "--udp-payload-size"@[8] == 'y'
        && "--udp-payload-size"@[12] == 'd'
    &&& "--payload-size"@.len() == 14 && "--payload-size"@[2] == 'p'
    &&& "--keyframe-interval-sec"@.len() == 23 && "--keyframe-interval-sec"@[2] == 'k'
    &&& "--repair"@.len() == 8 && "--repair"@[2] == 'r'
    &&& "--repair-cache-ms"@.len() == 17 && "--repair-cache-ms"@[13] == 'e'
    &&& "--audio"@.len() == 7 && "--audio"@[2] == 'a'
    &&& "--verbose"@.len() == 9 && "--verbose"@[2] == 'v'
    &&& "--frames"@.len() == 8 && "--frames"@[2] == 'f'
    &&& "--packets-per-frame"@.len() == 19 && "--packets-per-frame"@[2] == 'p'
    &&& "--loss-rate"@.len() == 11 && "--loss-rate"@[2] == 'l'
    &&& "--frame-ms"@.len() == 10
    &&& "--jitter-buffer-ms"@.len() == 18 && "--jitter-buffer-ms"@[8] == '-'
        && "--jitter-buffer-ms"@[12] == 'f'
    &&& "--idle-timeout-sec"@.len() == 18 && "--idle-timeout-sec"@[8] == 'i'
        && "--idle-timeout-sec"@[12] == 'u'
    &&& "--drop-damaged-gop"@.len() == 18 && "--drop-damaged-gop"@[8] == 'a'
        && "--drop-damaged-gop"@[12] == 'e'
    &&& "--reorder-wait-ms"@.len() == 17 && "--reorder-wait-ms"@[13] == 't'
    &&& "--input"@.len() == 7 && "--input"@[2] == 'i'
    &&& "--render-scale"@.len() == 14 && "--render-scale"@[2] == 'r'
    &&& "--window-mode"@.len() == 13 && "--window-mode"@[2] == 'w'
    &&& "--render-backend"@.len() == 16 && "--render-backend"@[2] == 'r'
    &&& "--frame-timeout-ms"@.len() == 18 && "--frame-timeout-ms"@[8] == 't'
        && "--frame-timeout-ms"@[12] == 'o'
    &&& "--max-inflight-frames"@.len() == 21 && "--max-inflight-frames"@[2] == 'm'
    &&& "--max-decode-queue"@.len() == 18 && "--max-decode-queue"@[8] == 'c'
        && "--max-decode-queue"@[12] == '-'
    &&& "--strict-decode-order"@.len() == 21 && "--strict-decode-order"@[2] == 's'
    &&& "--playout-delay-ms"@.len() == 18 && "--playout-delay-ms"@[8] == 't'
        && "--playout-delay-ms"@[12] == 'l'
    &&& "--debug-dump-frames"@.len() == 19 && "--debug-dump-frames"@[2] == 'd'
    &&& "--json-interval-ms"@.len() == 18 && "--json-interval-ms"@[8] == 'n'
        && "--json-interval-ms"@[12] == 'v'
    &&& "--title"@.len() == 7 && "--title"@[2] == 't'
    &&& "--nack-delay-ms"@.len() == 15 && "--nack-delay-ms"@[2] == 'n'
    &&& "--nack-repeat-ms"@.len() == 16 && "--nack-repeat-ms"@[2] == 'n'
    &&& "--nack-max-rounds"@.len() == 17 && "--nack-max-rounds"@[13] == 'u'
    &&& "--audio-jitter-buffer-ms"@.len() == 24 && "--audio-jitter-buffer-ms"@[2] == 'a'
    &&& "--av-sync"@.len() == 9 && "--av-sync"@[2] == 'a'
    &&& "--display-refresh-detect"@.len() == 24 && "--display-refresh-detect"@[2] == 'd'
    &&& "--adaptive-feedback-ms"@.len() == 22
    &&& "--adaptive-quality"@.len() == 18 && "--adaptive-quality"@[8] == 'v'
        && "--adaptive-quality"@[12] == 'u'
    &&& "--max-fps"@.len() == 9 && "--max-fps"@[2] == 'm'
    &&& "--enable-high-refresh"@.len() == 21 && "--enable-high-refresh"@[2] == 'e'
    &&& "--adaptive-min-width"@.len() == 20
    &&& "--adaptive-min-height"@.len() == 21 && "--adaptive-min-height"@[2] == 'a'
    &&& "--adaptive-min-fps"@.len() == 18 && "--adaptive-min-fps"@[8] == 'v'
        && "--adaptive-min-fps"@[12] == 'i'
    &&& "--adaptive-max-bitrate-mbps"@.len() == 27 && "--adaptive-max-bitrate-mbps"@[11] == 'm'
    &&& "--adaptive-upgrade-stable-sec"@.len() == 29
    &&& "--adaptive-resolution-cooldown-sec"@.len() == 34
    &&& "--adaptive-fps-cooldown-sec"@.len() == 27 && "--adaptive-fps-cooldown-sec"@[11] == 'f'
    &&& "--interactive-lag-guard"@.len() == 23 && "--interactive-lag-guard"@[2] == 'i'
    &&& "--help"@.len() == 6 && "--help"@[4] == 'l'
    &&& "-h"@.len() == 2
}

proof fn lemma_names_are_told_apart()
    ensures
        names_are_told_apart(),
{
    reveal_strlit("--host");
    reveal_strlit("--bind");
    reveal_strlit("--port");
    reveal_strlit("--fps");
    reveal_strlit("--target-fps");
    reveal_strlit("--bitrate-mbps");
    reveal_strlit("--quality-bpf");
    reveal_strlit("--duration-sec");
    reveal_strlit("--width");
    reveal_strlit("--height");
    reveal_strlit("--out-width");
    reveal_strlit("--out-height");
    reveal_strlit("--color-matrix");
    reveal_strlit("--debug-dump-nv12");
    reveal_strlit("--debug-dump-bgra");
    reveal_strlit("--debug-dump-limit");
    reveal_strlit("--output");
    reveal_strlit("--encoder");
    reveal_strlit("--convert-backend");
    reveal_strlit("--packet-pacing");
    reveal_strlit("--fec");
    reveal_strlit("--udp-payload-size");
    reveal_strlit("--payload-size");
    reveal_strlit("--keyframe-interval-sec");
    reveal_strlit("--repair");
    reveal_strlit("--repair-cache-ms");
    reveal_strlit("--audio");
    reveal_strlit("--verbose");
    reveal_strlit("--frames");
    reveal_strlit("--packets-per-frame");
    reveal_strlit("--loss-rate");
    reveal_strlit("--frame-ms");
    reveal_strlit("--jitter-buffer-ms");
    reveal_strlit("--idle-timeout-sec");
    reveal_strlit("--drop-damaged-gop");
    reveal_strlit("--reorder-wait-ms");
    reveal_strlit("--input");
    reveal_strlit("--render-scale");
    reveal_strlit("--window-mode");
    reveal_strlit("--render-backend");
    reveal_strlit("--frame-timeout-ms");
    reveal_strlit("--max-inflight-frames");
    reveal_strlit("--max-decode-queue");
    reveal_strlit("--strict-decode-order");
    reveal_strlit("--playout-delay-ms");
    reveal_strlit("--debug-dump-frames");
    reveal_strlit("--json-interval-ms");
    reveal_strlit("--title");
    reveal_strlit("--nack-delay-ms");
    reveal_strlit("--nack-repeat-ms");
    reveal_strlit("--nack-max-rounds");
    reveal_strlit("--audio-jitter-buffer-ms");
    reveal_strlit("--av-sync");
    reveal_strlit("--display-refresh-detect");
    reveal_strlit("--adaptive-feedback-ms");
    reveal_strlit("--adaptive-quality");
    reveal_strlit("--max-fps");
    reveal_strlit("--enable-high-refresh");
    reveal_strlit("--adaptive-min-width");
    reveal_strlit("--adaptive-min-height");
    reveal_strlit("--adaptive-min-fps");
    reveal_strlit("--adaptive-max-bitrate-mbps");
    reveal_strlit("--adaptive-upgrade-stable-sec");
    reveal_strlit("--adaptive-resolution-cooldown-sec");
    reveal_strlit("--adaptive-fps-cooldown-sec");
    reveal_strlit("--interactive-lag-guard");
    reveal_strlit("--help");
    reveal_strlit("-h");
}

/// Every option is found by its name, which is no call for help.
pub proof fn law_option_is_found_by_its_name(option: CliOption)
    ensures
        CliOption::named(option.word()) == Some(option),
        !asks_help(option.word()),
{
    lemma_names_are_told_apart();
}

/// A call for help names no option.
proof fn lemma_help_is_no_option(s: Seq<char>)
    requires
        asks_help(s),
    ensures
        CliOption::named(s) is None,
{
    lemma_names_are_told_apart();
}

/// The last setting of an option stands: at the end of arguments that are read without
/// an error, it decides over all that came before it.
pub proof fn law_last_setting_stands(
    command: CommandKind,
    args: Seq<String>,
    numbers: Seq<Option<Real>>,
    name: String,
    value: String,
    number: Option<Real>,
)
    requires
        args.len() == numbers.len(),
        scan(command, args, numbers, 0, OptionsModel::unset()) matches Ok(Some(_)),
        CliOption::named(name@) matches Some(option) && command.takes(option) && option
            != CliOption::Verbose,
    ensures
        scan(
            command,
            args + seq![name, value],
            numbers + seq![None, number],
            0,
            OptionsModel::unset(),
        )
            == match set_option(
            command,
            CliOption::named(name@)->0,
            value@,
            number,
            (scan(command, args, numbers, 0, OptionsModel::unset())->Ok_0)->0,
        ) {
            Ok(next) => Ok::<Option<OptionsModel>, Seq<char>>(Some(next)),
            Err(error) => Err(error),
        },
{
    let before = (scan(command, args, numbers, 0, OptionsModel::unset())->Ok_0)->0;
    let all_args = args + seq![name, value];
    let all_numbers = numbers + seq![None, number];
    law_scan_continues(
        command,
        args,
        numbers,
        seq![name, value],
        seq![None, number],
        0,
        OptionsModel::unset(),
    );
    let n = args.len() as int;
    assert(all_args[n] == name);
    assert(all_args[n + 1] == value);
    assert(all_numbers[n + 1] == number);
    if asks_help(name@) {
        lemma_help_is_no_option(name@);
    }
    reveal_with_fuel(scan, 2);
}

/// Each option is asked for by its own word.
pub proof fn law_words_name_their_options()
    ensures
        CliOption::named("--host"@) == Some(CliOption::Host),
        CliOption::named("--bind"@) == Some(CliOption::Bind),
        CliOption::named("--port"@) == Some(CliOption::Port),
        CliOption::named("--fps"@) == Some(CliOption::Fps),
        CliOption::named("--target-fps"@) == Some(CliOption::TargetFps),
        CliOption::named("--bitrate-mbps"@) == Some(CliOption::BitrateMbps),
        CliOption::named("--quality-bpf"@) == Some(CliOption::QualityBpf),
        CliOption::named("--duration-sec"@) == Some(CliOption::DurationSec),
        CliOption::named("--width"@) == Some(CliOption::Width),
        CliOption::named("--height"@) == Some(CliOption::Height),
        CliOption::named("--out-width"@) == Some(CliOption::OutWidth),
        CliOption::named("--out-height"@) == Some(CliOption::OutHeight),
        CliOption::named("--color-matrix"@) == Some(CliOption::ColorMatrix),
        CliOption::named("--debug-dump-nv12"@) == Some(CliOption::DebugDumpNv12),
        CliOption::named("--debug-dump-bgra"@) == Some(CliOption::DebugDumpBgra),
        CliOption::named("--debug-dump-limit"@) == Some(CliOption::DebugDumpLimit),
        CliOption::named("--output"@) == Some(CliOption::Output),
        CliOption::named("--encoder"@) == Some(CliOption::Encoder),
        CliOption::named("--convert-backend"@) == Some(CliOption::ConvertBackend),
        CliOption::named("--packet-pacing"@) == Some(CliOption::PacketPacing),
        CliOption::named("--fec"@) == Some(CliOption::Fec),
        CliOption::named("--udp-payload-size"@) == Some(CliOption::UdpPayloadSize),
        CliOption::named("--payload-size"@) == Some(CliOption::PayloadSize),
        CliOption::named("--keyframe-interval-sec"@) == Some(CliOption::KeyframeIntervalSec),
        CliOption::named("--repair"@) == Some(CliOption::Repair),
        CliOption::named("--repair-cache-ms"@) == Some(CliOption::RepairCacheMs),
        CliOption::named("--audio"@) == Some(CliOption::Audio),
        CliOption::named("--verbose"@) == Some(CliOption::Verbose),
        CliOption::named("--frames"@) == Some(CliOption::Frames),
        CliOption::named("--packets-per-frame"@) == Some(CliOption::PacketsPerFrame),
        CliOption::named("--loss-rate"@) == Some(CliOption::LossRate),
        CliOption::named("--frame-ms"@) == Some(CliOption::FrameMs),
        CliOption::named("--jitter-buffer-ms"@) == Some(CliOption::JitterBufferMs),
        CliOption::named("--idle-timeout-sec"@) == Some(CliOption::IdleTimeoutSec),
        CliOption::named("--drop-damaged-gop"@) == Some(CliOption::DropDamagedGop),
        CliOption::named("--reorder-wait-ms"@) == Some(CliOption::ReorderWaitMs),
        CliOption::named("--input"@) == Some(CliOption::Input),
        CliOption::named("--render-scale"@) == Some(CliOption::RenderScale),
        CliOption::named("--window-mode"@) == Some(CliOption::WindowMode),
        CliOption::named("--render-backend"@) == Some(CliOption::RenderBackend),
        CliOption::named("--frame-timeout-ms"@) == Some(CliOption::FrameTimeoutMs),
        CliOption::named("--max-inflight-frames"@) == Some(CliOption::MaxInflightFrames),
        CliOption::named("--max-decode-queue"@) == Some(CliOption::MaxDecodeQueue),
        CliOption::named("--strict-decode-order"@) == Some(CliOption::StrictDecodeOrder),
        CliOption::named("--playout-delay-ms"@) == Some(CliOption::PlayoutDelayMs),
        CliOption::named("--debug-dump-frames"@) == Some(CliOption::DebugDumpFrames),
        CliOption::named("--json-interval-ms"@) == Some(CliOption::JsonIntervalMs),
        CliOption::named("--title"@) == Some(CliOption::Title),
        CliOption::named("--nack-delay-ms"@) == Some(CliOption::NackDelayMs),
        CliOption::named("--nack-repeat-ms"@) == Some(CliOption::NackRepeatMs),
        CliOption::named("--nack-max-rounds"@) == Some(CliOption::NackMaxRounds),
        CliOption::named("--audio-jitter-buffer-ms"@) == Some(CliOption::AudioJitterBufferMs),
        CliOption::named("--av-sync"@) == Some(CliOption::AvSync),
        CliOption::named("--display-refresh-detect"@) == Some(CliOption::DisplayRefreshDetect),
        CliOption::named("--adaptive-feedback-ms"@) == Some(CliOption::AdaptiveFeedbackMs),
        CliOption::named("--adaptive-quality"@) == Some(CliOption::AdaptiveQuality),
        CliOption::named("--max-fps"@) == Some(CliOption::MaxFps),
        CliOption::named("--enable-high-refresh"@) == Some(CliOption::EnableHighRefresh),
        CliOption::named("--adaptive-min-width"@) == Some(CliOption::AdaptiveMinWidth),
        CliOption::named("--adaptive-min-height"@) == Some(CliOption::AdaptiveMinHeight),
        CliOption::named("--adaptive-min-fps"@) == Some(CliOption::AdaptiveMinFps),
        CliOption::named("--adaptive-max-bitrate-mbps"@) == Some(CliOption::AdaptiveMaxBitrateMbps),
        CliOption::named("--adaptive-upgrade-stable-sec"@) == Some(CliOption::AdaptiveUpgradeStableSec),
        CliOption::named("--adaptive-resolution-cooldown-sec"@) == Some(CliOption::AdaptiveResolutionCooldownSec),
        CliOption::named("--adaptive-fps-cooldown-sec"@) == Some(CliOption::AdaptiveFpsCooldownSec),
        CliOption::named("--interactive-lag-guard"@) == Some(CliOption::InteractiveLagGuard),
{
    lemma_names_are_told_apart();
}

/// Each command is asked for by its own word.
pub proof fn law_words_name_their_commands()
    ensures
        CommandKind::named("sender"@) == Some(CommandKind::Sender),
        CommandKind::named("receiver"@) == Some(CommandKind::Receiver),
        CommandKind::named("capture-probe"@) == Some(CommandKind::CaptureProbe),
        CommandKind::named("gpu-convert-probe"@) == Some(CommandKind::GpuConvertProbe),
        CommandKind::named("encode-probe"@) == Some(CommandKind::EncodeProbe),
        CommandKind::named("capture-encode-probe"@) == Some(CommandKind::CaptureEncodeProbe),
        CommandKind::named("h264-send-probe"@) == Some(CommandKind::H264SendProbe),
        CommandKind::named("h264-recv-dump"@) == Some(CommandKind::H264RecvDump),
        CommandKind::named("h264-recv-view"@) == Some(CommandKind::H264RecvView),
        CommandKind::named("screen-send"@) == Some(CommandKind::ScreenSend),
        CommandKind::named("screen-recv"@) == Some(CommandKind::ScreenRecv),
        CommandKind::named("h264-file-viewer"@) == Some(CommandKind::H264FileViewer),
        CommandKind::named("color-test-pattern"@) == Some(CommandKind::ColorTestPattern),
        CommandKind::named("bench-reassembly"@) == Some(CommandKind::BenchReassembly),
        CommandKind::named("audio-capture-probe"@) == Some(CommandKind::AudioCaptureProbe),
        CommandKind::named("audio-send"@) == Some(CommandKind::AudioSend),
        CommandKind::named("audio-recv-play"@) == Some(CommandKind::AudioRecvPlay),
{
    lemma_commands_are_told_apart();
}

/// A number that is given for the stream becomes the setting that its option names, where
/// it lies in that option's range, and changes no other setting; a size is even.
pub proof fn law_stream_numbers_are_set(
    command: CommandKind,
    n: nat,
    number: Option<Real>,
    now: OptionsModel,
)
    ensures
        match set_option(command, CliOption::Port, text::decimal(n), number, now) {
            Ok(next) => 1 <= n <= 65535 && next == (OptionsModel {
                stream: StreamOptions { port: Some(n as u16), ..now.stream },
                ..now
            }),
            Err(_) => !(1 <= n <= 65535),
        },
        match set_option(command, CliOption::Fps, text::decimal(n), number, now) {
            Ok(next) => 1 <= n <= 240 && next == (OptionsModel {
                stream: StreamOptions { fps: Some(n as u32), ..now.stream },
                ..now
            }),
            Err(_) => !(1 <= n <= 240),
        },
        match set_option(command, CliOption::TargetFps, text::decimal(n), number, now) {
            Ok(next) => 1 <= n <= 240 && next == (OptionsModel {
                stream: StreamOptions { fps: Some(n as u32), ..now.stream },
                ..now
            }),
            Err(_) => !(1 <= n <= 240),
        },
        match set_option(command, CliOption::DurationSec, text::decimal(n), number, now) {
            Ok(next) => 1 <= n <= 3600 && next == (OptionsModel {
                stream: StreamOptions { duration_sec: Some(n as u64), ..now.stream },
                ..now
            }),
            Err(_) => !(1 <= n <= 3600),
        },
        match set_option(command, CliOption::Width, text::decimal(n), number, now) {
            Ok(next) => 16 <= n <= 8192 && n % 2 == 0 && next == (OptionsModel {
                stream: StreamOptions { width: Some(n as u32), ..now.stream },
                ..now
            }),
            Err(_) => !(16 <= n <= 8192 && n % 2 == 0),
        },
        match set_option(command, CliOption::OutWidth, text::decimal(n), number, now) {
            Ok(next) => 16 <= n <= 8192 && n % 2 == 0 && next == (OptionsModel {
                stream: StreamOptions { width: Some(n as u32), ..now.stream },
                ..now
            }),
            Err(_) => !(16 <= n <= 8192 && n % 2 == 0),
        },
        match set_option(command, CliOption::Height, text::decimal(n), number, now) {
            Ok(next) => 16 <= n <= 8192 && n % 2 == 0 && next == (OptionsModel {
                stream: StreamOptions { height: Some(n as u32), ..now.stream },
                ..now
            }),
            Err(_) => !(16 <= n <= 8192 && n % 2 == 0),
        },
        match set_option(command, CliOption::OutHeight, text::decimal(n), number, now) {
            Ok(next) => 16 <= n <= 8192 && n % 2 == 0 && next == (OptionsModel {
                stream: StreamOptions { height: Some(n as u32), ..now.stream },
                ..now
            }),
            Err(_) => !(16 <= n <= 8192 && n % 2 == 0),
        },
        match set_option(command, CliOption::UdpPayloadSize, text::decimal(n), number, now) {
            Ok(next) => 576 <= n <= 1472 && next == (OptionsModel {
                stream: StreamOptions { udp_payload_size: Some(n as usize), ..now.stream },
                ..now
            }),
            Err(_) => !(576 <= n <= 1472),
        },
        match set_option(command, CliOption::RepairCacheMs, text::decimal(n), number, now) {
            Ok(next) => 500 <= n <= 10000 && next == (OptionsModel {
                stream: StreamOptions { repair_cache_ms: Some(n as u64), ..now.stream },
                ..now
            }),
            Err(_) => !(500 <= n <= 10000),
        },
{
    text::law_number_of_decimal(n);
}

/// A number that is given for the receiver becomes the setting that its option names, where
/// it lies in that option's range, and changes no other setting.
pub proof fn law_viewer_numbers_are_set(
    command: CommandKind,
    n: nat,
    number: Option<Real>,
    now: OptionsModel,
)
    ensures
        match set_option(command, CliOption::JitterBufferMs, text::decimal(n), number, now) {
            Ok(next) => 0 <= n <= 500 && next == (OptionsModel {
                viewer: ViewOptions { jitter_buffer_ms: Some(n as u32), ..now.viewer },
                ..now
            }),
            Err(_) => !(0 <= n <= 500),
        },
        match set_option(command, CliOption::AudioJitterBufferMs, text::decimal(n), number, now) {
            Ok(next) => 0 <= n <= 500 && next == (OptionsModel {
                viewer: ViewOptions { jitter_buffer_ms: Some(n as u32), ..now.viewer },
                ..now
            }),
            Err(_) => !(0 <= n <= 500),
        },
        match set_option(command, CliOption::IdleTimeoutSec, text::decimal(n), number, now) {
            Ok(next) => 0 <= n <= 3600 && next == (OptionsModel {
                viewer: ViewOptions { idle_timeout_sec: Some(n as u64), ..now.viewer },
                ..now
            }),
            Err(_) => !(0 <= n <= 3600),
        },
        match set_option(command, CliOption::FrameTimeoutMs, text::decimal(n), number, now) {
            Ok(next) => 1 <= n <= 60000 && next == (OptionsModel {
                viewer: ViewOptions { frame_timeout_ms: Some(n as u64), ..now.viewer },
                ..now
            }),
            Err(_) => !(1 <= n <= 60000),
        },
        match set_option(command, CliOption::MaxInflightFrames, text::decimal(n), number, now) {
            Ok(next) => 1 <= n <= 10000 && next == (OptionsModel {
                viewer: ViewOptions { max_inflight_frames: Some(n as usize), ..now.viewer },
                ..now
            }),
            Err(_) => !(1 <= n <= 10000),
        },
        match set_option(command, CliOption::MaxDecodeQueue, text::decimal(n), number, now) {
            Ok(next) => 1 <= n <= 1000 && next == (OptionsModel {
                viewer: ViewOptions { max_decode_queue: Some(n as usize), ..now.viewer },
                ..now
            }),
            Err(_) => !(1 <= n <= 1000),
        },
        match set_option(command, CliOption::PlayoutDelayMs, text::decimal(n), number, now) {
            Ok(next) => 0 <= n <= 500 && next == (OptionsModel {
                viewer: ViewOptions { playout_delay_ms: Some(n as u64), ..now.viewer },
                ..now
            }),
            Err(_) => !(0 <= n <= 500),
        },
        match set_option(command, CliOption::JsonIntervalMs, text::decimal(n), number, now) {
            Ok(next) => 100 <= n <= 60000 && next == (OptionsModel {
                viewer: ViewOptions { json_interval_ms: Some(n as u64), ..now.viewer },
                ..now
            }),
            Err(_) => !(100 <= n <= 60000),
        },
        match set_option(command, CliOption::NackDelayMs, text::decimal(n), number, now) {
            Ok(next) => 1 <= n <= 50 && next == (OptionsModel {
                viewer: ViewOptions { nack_delay_ms: Some(n as u64), ..now.viewer },
                ..now
            }),
            Err(_) => !(1 <= n <= 50),
        },
        match set_option(command, CliOption::NackRepeatMs, text::decimal(n), number, now) {
            Ok(next) => 1 <= n <= 50 && next == (OptionsModel {
                viewer: ViewOptions { nack_repeat_ms: Some(n as u64), ..now.viewer },
                ..now
            }),
            Err(_) => !(1 <= n <= 50),
        },
        match set_option(command, CliOption::NackMaxRounds, text::decimal(n), number, now) {
            Ok(next) => 1 <= n <= 10 && next == (OptionsModel {
                viewer: ViewOptions { nack_max_rounds: Some(n as u8), ..now.viewer },
                ..now
            }),
            Err(_) => !(1 <= n <= 10),
        },
{
    text::law_number_of_decimal(n);
}

/// A number that is given for the adaptive sender or a probe becomes the setting that its
/// option names, where it lies in that option's range, and changes no other setting.
pub proof fn law_other_numbers_are_set(
    command: CommandKind,
    n: nat,
    number: Option<Real>,
    now: OptionsModel,
)
    ensures
        match set_option(command, CliOption::AdaptiveFeedbackMs, text::decimal(n), number, now) {
            Ok(next) => 500 <= n <= 2000 && next == (OptionsModel {
                adaptive: AdaptiveOptions { feedback_ms: Some(n as u64), ..now.adaptive },
                ..now
            }),
            Err(_) => !(500 <= n <= 2000),
        },
        match set_option(command, CliOption::AdaptiveMinWidth, text::decimal(n), number, now) {
            Ok(next) => 16 <= n <= 8192 && n % 2 == 0 && next == (OptionsModel {
                adaptive: AdaptiveOptions { min_width: Some(n as u32), ..now.adaptive },
                ..now
            }),
            Err(_) => !(16 <= n <= 8192 && n % 2 == 0),
        },
        match set_option(command, CliOption::AdaptiveMinHeight, text::decimal(n), number, now) {
            Ok(next) => 16 <= n <= 8192 && n % 2 == 0 && next == (OptionsModel {
                adaptive: AdaptiveOptions { min_height: Some(n as u32), ..now.adaptive },
                ..now
            }),
            Err(_) => !(16 <= n <= 8192 && n % 2 == 0),
        },
        match set_option(command, CliOption::AdaptiveMinFps, text::decimal(n), number, now) {
            Ok(next) => 1 <= n <= 240 && next == (OptionsModel {
                adaptive: AdaptiveOptions { min_fps: Some(n as u32), ..now.adaptive },
                ..now
            }),
            Err(_) => !(1 <= n <= 240),
        },
        match set_option(command, CliOption::AdaptiveUpgradeStableSec, text::decimal(n), number, now) {
            Ok(next) => 1 <= n <= 3600 && next == (OptionsModel {
                adaptive: AdaptiveOptions { upgrade_stable_sec: Some(n as u64), ..now.adaptive },
                ..now
            }),
            Err(_) => !(1 <= n <= 3600),
        },
        match set_option(command, CliOption::AdaptiveResolutionCooldownSec, text::decimal(n), number, now) {
            Ok(next) => 1 <= n <= 3600 && next == (OptionsModel {
                adaptive: AdaptiveOptions { resolution_cooldown_sec: Some(n as u64), ..now.adaptive },
                ..now
            }),
            Err(_) => !(1 <= n <= 3600),
        },
        match set_option(command, CliOption::AdaptiveFpsCooldownSec, text::decimal(n), number, now) {
            Ok(next) => 1 <= n <= 3600 && next == (OptionsModel {
                adaptive: AdaptiveOptions { fps_cooldown_sec: Some(n as u64), ..now.adaptive },
                ..now
            }),
            Err(_) => !(1 <= n <= 3600),
        },
        match set_option(command, CliOption::Frames, text::decimal(n), number, now) {
            Ok(next) => 1 <= n <= u64::MAX && next == (OptionsModel {
                probe: ProbeOptions { frames: Some(n as u64), ..now.probe },
                ..now
            }),
            Err(_) => !(1 <= n <= u64::MAX),
        },
        match set_option(command, CliOption::PacketsPerFrame, text::decimal(n), number, now) {
            Ok(next) => 1 <= n <= 65535 && next == (OptionsModel {
                probe: ProbeOptions { packets_per_frame: Some(n as u16), ..now.probe },
                ..now
            }),
            Err(_) => !(1 <= n <= 65535),
        },
{
    text::law_number_of_decimal(n);
}

/// The real numbers of a stream become the settings that their options name: a bitrate up to
/// 1000, a quality above zero, an interval from half a second to a minute.
pub proof fn law_real_numbers_are_set(
    command: CommandKind,
    s: Seq<char>,
    value: Real,
    now: OptionsModel,
)
    ensures
        match set_option(command, CliOption::BitrateMbps, s, Some(value), now) {
            Ok(next) => 0 < value.bits <= 0x408f_4000_0000_0000 && next == (OptionsModel {
                stream: StreamOptions { bitrate: Some(value), ..now.stream },
                ..now
            }),
            Err(_) => !(0 < value.bits <= 0x408f_4000_0000_0000),
        },
        match set_option(command, CliOption::QualityBpf, s, Some(value), now) {
            Ok(next) => 0 < value.bits < 0x7ff0_0000_0000_0000 && next == (OptionsModel {
                stream: StreamOptions { quality_bpf: Some(value), ..now.stream },
                ..now
            }),
            Err(_) => !(0 < value.bits < 0x7ff0_0000_0000_0000),
        },
        match set_option(command, CliOption::KeyframeIntervalSec, s, Some(value), now) {
            Ok(next) => 0x3fe0_0000_0000_0000 <= value.bits <= 0x404e_0000_0000_0000 && next == (
            OptionsModel {
                stream: StreamOptions { keyframe_interval: Some(value), ..now.stream },
                ..now
            }),
            Err(_) => !(0x3fe0_0000_0000_0000 <= value.bits <= 0x404e_0000_0000_0000),
        },
        match set_option(command, CliOption::AdaptiveMaxBitrateMbps, s, Some(value), now) {
            Ok(next) => 0 < value.bits <= 0x408f_4000_0000_0000 && next == (OptionsModel {
                adaptive: AdaptiveOptions { max_bitrate: Some(value), ..now.adaptive },
                ..now
            }),
            Err(_) => !(0 < value.bits <= 0x408f_4000_0000_0000),
        },
        set_option(command, CliOption::BitrateMbps, s, None, now) is Err,
        set_option(command, CliOption::QualityBpf, s, None, now) is Err,
        set_option(command, CliOption::KeyframeIntervalSec, s, None, now) is Err,
{
}

/// A text that is given becomes the text that its option names, as it stands.
pub proof fn law_texts_are_set(
    command: CommandKind,
    s: Seq<char>,
    number: Option<Real>,
    now: OptionsModel,
)
    ensures
        set_option(command, CliOption::Host, s, number, now) == Ok::<OptionsModel, Seq<char>>(
            OptionsModel { texts: TextOptions { host: Some(s), ..now.texts }, ..now },
        ),
        set_option(command, CliOption::Bind, s, number, now) == Ok::<OptionsModel, Seq<char>>(
            OptionsModel { texts: TextOptions { bind: Some(s), ..now.texts }, ..now },
        ),
        set_option(command, CliOption::Input, s, number, now) == Ok::<OptionsModel, Seq<char>>(
            OptionsModel { texts: TextOptions { input: Some(s), ..now.texts }, ..now },
        ),
        set_option(command, CliOption::DebugDumpNv12, s, number, now) == Ok::<OptionsModel, Seq<char>>(
            OptionsModel { texts: TextOptions { debug_dump_nv12: Some(s), ..now.texts }, ..now },
        ),
        set_option(command, CliOption::DebugDumpBgra, s, number, now) == Ok::<OptionsModel, Seq<char>>(
            OptionsModel { texts: TextOptions { debug_dump_bgra: Some(s), ..now.texts }, ..now },
        ),
        set_option(command, CliOption::DebugDumpFrames, s, number, now) == Ok::<OptionsModel, Seq<char>>(
            OptionsModel { texts: TextOptions { debug_dump_frames: Some(s), ..now.texts }, ..now },
        ),
        !text::is_blank(s) ==> set_option(command, CliOption::Title, s, number, now) == Ok::<
            OptionsModel,
            Seq<char>,
        >(OptionsModel { texts: TextOptions { title: Some(s), ..now.texts }, ..now }),
        !text::is_blank(s) ==> set_option(command, CliOption::Output, s, number, now) == Ok::<
            OptionsModel,
            Seq<char>,
        >(OptionsModel { texts: TextOptions { output: Some(s), ..now.texts }, ..now }),
{
}

/// What tells the words that are chosen from apart: their lengths and letters.
spec fn words_are_told_apart() -> bool {
    &&& "0"@.len() == 1 && "0"@[0] == '0'
    &&& "1"@.len() == 1 && "1"@[0] == '1'
    &&& "120"@.len() == 3 && "120"@[0] == '1' && "120"@[2] == '0'
    &&& "60"@.len() == 2 && "60"@[0] == '6' && "60"@[1] == '0'
    &&& "75"@.len() == 2 && "75"@[0] == '7' && "75"@[1] == '5'
    &&& "90"@.len() == 2 && "90"@[0] == '9' && "90"@[1] == '0'
    &&& "auto"@.len() == 4 && "auto"@[0] == 'a' && "auto"@[3] == 'o'
    &&& "batch"@.len() == 5 && "batch"@[0] == 'b' && "batch"@[4] == 'h'
    &&& "borderless-fullscreen"@.len() == 21 && "borderless-fullscreen"@[0] == 'b' && "borderless-fullscreen"@[20] == 'n'
    &&& "bt601"@.len() == 5 && "bt601"@[0] == 'b' && "bt601"@[4] == '1'
    &&& "bt709"@.len() == 5 && "bt709"@[0] == 'b' && "bt709"@[4] == '9'
    &&& "conservative"@.len() == 12 && "conservative"@[0] == 'c' && "conservative"@[11] == 'e'
    &&& "cpu"@.len() == 3 && "cpu"@[0] == 'c' && "cpu"@[2] == 'u'
    &&& "d3d11"@.len() == 5 && "d3d11"@[0] == 'd' && "d3d11"@[4] == '1'
    &&& "exact"@.len() == 5 && "exact"@[0] == 'e' && "exact"@[4] == 't'
    &&& "false"@.len() == 5 && "false"@[0] == 'f' && "false"@[4] == 'e'
    &&& "fit"@.len() == 3 && "fit"@[0] == 'f' && "fit"@[2] == 't'
    &&& "gdi"@.len() == 3 && "gdi"@[0] == 'g' && "gdi"@[2] == 'i'
    &&& "hardware"@.len() == 8 && "hardware"@[0] == 'h' && "hardware"@[7] == 'e'
    &&& "intel-qsv"@.len() == 9 && "intel-qsv"@[0] == 'i' && "intel-qsv"@[8] == 'v'
    &&& "microsoft"@.len() == 9 && "microsoft"@[0] == 'm' && "microsoft"@[8] == 't'
    &&& "nack"@.len() == 4 && "nack"@[0] == 'n' && "nack"@[3] == 'k'
    &&& "no"@.len() == 2 && "no"@[0] == 'n' && "no"@[1] == 'o'
    &&& "off"@.len() == 3 && "off"@[0] == 'o' && "off"@[2] == 'f'
    &&& "on"@.len() == 2 && "on"@[0] == 'o' && "on"@[1] == 'n'
    &&& "single-xor"@.len() == 10 && "single-xor"@[0] == 's' && "single-xor"@[9] == 'r'
    &&& "smoothness"@.len() == 10 && "smoothness"@[0] == 's' && "smoothness"@[9] == 's'
    &&& "software"@.len() == 8 && "software"@[0] == 's' && "software"@[7] == 'e'
    &&& "stretch"@.len() == 7 && "stretch"@[0] == 's' && "stretch"@[6] == 'h'
    &&& "system"@.len() == 6 && "system"@[0] == 's' && "system"@[5] == 'm'
    &&& "true"@.len() == 4 && "true"@[0] == 't' && "true"@[3] == 'e'
    &&& "windowed"@.len() == 8 && "windowed"@[0] == 'w' && "windowed"@[7] == 'd'
    &&& "yes"@.len() == 3 && "yes"@[0] == 'y' && "yes"@[2] == 's'
}

proof fn lemma_words_are_told_apart()
    ensures
        words_are_told_apart(),
{
    reveal_strlit("0");
    reveal_strlit("1");
    reveal_strlit("120");
    reveal_strlit("60");
    reveal_strlit("75");
    reveal_strlit("90");
    reveal_strlit("auto");
    reveal_strlit("batch");
    reveal_strlit("borderless-fullscreen");
    reveal_strlit("bt601");
    reveal_strlit("bt709");
    reveal_strlit("conservative");
    reveal_strlit("cpu");
    reveal_strlit("d3d11");
    reveal_strlit("exact");
    reveal_strlit("false");
    reveal_strlit("fit");
    reveal_strlit("gdi");
    reveal_strlit("hardware");
    reveal_strlit("intel-qsv");
    reveal_strlit("microsoft");
    reveal_strlit("nack");
    reveal_strlit("no");
    reveal_strlit("off");
    reveal_strlit("on");
    reveal_strlit("single-xor");
    reveal_strlit("smoothness");
    reveal_strlit("software");
    reveal_strlit("stretch");
    reveal_strlit("system");
    reveal_strlit("true");
    reveal_strlit("windowed");
    reveal_strlit("yes");
}

/// A word that is given for the stream becomes the choice that it names.
pub proof fn law_stream_words_are_set(
    command: CommandKind,
    number: Option<Real>,
    now: OptionsModel,
)
    ensures
        set_option(command, CliOption::Repair, "off"@, number, now) == Ok::<OptionsModel, Seq<char>>(
            OptionsModel { stream: StreamOptions { repair_mode: Some(RepairMode::Off), ..now.stream }, ..now },
        ),
        set_option(command, CliOption::Repair, "nack"@, number, now) == Ok::<OptionsModel, Seq<char>>(
            OptionsModel { stream: StreamOptions { repair_mode: Some(RepairMode::Nack), ..now.stream }, ..now },
        ),
        set_option(command, CliOption::ColorMatrix, "bt601"@, number, now) == Ok::<OptionsModel, Seq<char>>(
            OptionsModel { stream: StreamOptions { color_matrix: Some(ColorMatrix::Bt601), ..now.stream }, ..now },
        ),
        set_option(command, CliOption::ColorMatrix, "bt709"@, number, now) == Ok::<OptionsModel, Seq<char>>(
            OptionsModel { stream: StreamOptions { color_matrix: Some(ColorMatrix::Bt709), ..now.stream }, ..now },
        ),
        set_option(command, CliOption::Encoder, "auto"@, number, now) == Ok::<OptionsModel, Seq<char>>(
            OptionsModel { stream: StreamOptions { encoder: Some(EncoderChoice::Auto), ..now.stream }, ..now },
        ),
        set_option(command, CliOption::Encoder, "hardware"@, number, now) == Ok::<OptionsModel, Seq<char>>(
            OptionsModel { stream: StreamOptions { encoder: Some(EncoderChoice::Hardware), ..now.stream }, ..now },
        ),
        set_option(command, CliOption::Encoder, "software"@, number, now) == Ok::<OptionsModel, Seq<char>>(
            OptionsModel { stream: StreamOptions { encoder: Some(EncoderChoice::Software), ..now.stream }, ..now },
        ),
        set_option(command, CliOption::Encoder, "microsoft"@, number, now) == Ok::<OptionsModel, Seq<char>>(
            OptionsModel { stream: StreamOptions { encoder: Some(EncoderChoice::Microsoft), ..now.stream }, ..now },
        ),
        set_option(command, CliOption::Encoder, "intel-qsv"@, number, now) == Ok::<OptionsModel, Seq<char>>(
            OptionsModel { stream: StreamOptions { encoder: Some(EncoderChoice::IntelQsv), ..now.stream }, ..now },
        ),
        set_option(command, CliOption::ConvertBackend, "auto"@, number, now) == Ok::<OptionsModel, Seq<char>>(
            OptionsModel { stream: StreamOptions { convert_backend: Some(ConvertBackend::Auto), ..now.stream }, ..now },
        ),
        set_option(command, CliOption::ConvertBackend, "cpu"@, number, now) == Ok::<OptionsModel, Seq<char>>(
            OptionsModel { stream: StreamOptions { convert_backend: Some(ConvertBackend::Cpu), ..now.stream }, ..now },
        ),
        set_option(command, CliOption::ConvertBackend, "d3d11"@, number, now) == Ok::<OptionsModel, Seq<char>>(
            OptionsModel { stream: StreamOptions { convert_backend: Some(ConvertBackend::D3d11), ..now.stream }, ..now },
        ),
        set_option(CommandKind::ScreenSend, CliOption::Audio, "off"@, number, now) == Ok::<OptionsModel, Seq<char>>(
            OptionsModel { stream: StreamOptions { audio_mode: Some(AudioSendMode::Off), ..now.stream }, ..now },
        ),
        set_option(CommandKind::ScreenSend, CliOption::Audio, "system"@, number, now) == Ok::<OptionsModel, Seq<char>>(
            OptionsModel { stream: StreamOptions { audio_mode: Some(AudioSendMode::System), ..now.stream }, ..now },
        ),
{
    lemma_words_are_told_apart();
}

/// Where the case of the letters makes no difference, a word that is given for the stream
/// becomes the choice that it names all the same.
pub proof fn law_stream_words_in_any_case_are_set(
    command: CommandKind,
    s: Seq<char>,
    number: Option<Real>,
    now: OptionsModel,
)
    ensures
        cli_values::lower(s) == "auto"@ ==> set_option(command, CliOption::PacketPacing, s, number, now) == Ok::<
            OptionsModel,
            Seq<char>,
        >(OptionsModel { stream: StreamOptions { packet_pacing: Some(PacketPacing::Auto), ..now.stream }, ..now }),
        cli_values::lower(s) == "batch"@ ==> set_option(command, CliOption::PacketPacing, s, number, now) == Ok::<
            OptionsModel,
            Seq<char>,
        >(OptionsModel { stream: StreamOptions { packet_pacing: Some(PacketPacing::Batch), ..now.stream }, ..now }),
        cli_values::lower(s) == "off"@ ==> set_option(command, CliOption::PacketPacing, s, number, now) == Ok::<
            OptionsModel,
            Seq<char>,
        >(OptionsModel { stream: StreamOptions { packet_pacing: Some(PacketPacing::Off), ..now.stream }, ..now }),
        cli_values::lower(s) == "off"@ ==> set_option(command, CliOption::Fec, s, number, now) == Ok::<
            OptionsModel,
            Seq<char>,
        >(OptionsModel { stream: StreamOptions { fec_mode: Some(FecMode::Off), ..now.stream }, ..now }),
        cli_values::lower(s) == "single-xor"@ ==> set_option(command, CliOption::Fec, s, number, now) == Ok::<
            OptionsModel,
            Seq<char>,
        >(OptionsModel { stream: StreamOptions { fec_mode: Some(FecMode::SingleXor), ..now.stream }, ..now }),
{
    lemma_words_are_told_apart();
}

/// A word that is given for the receiver becomes the choice that it names.
pub proof fn law_viewer_words_are_set(
    command: CommandKind,
    number: Option<Real>,
    now: OptionsModel,
)
    ensures
        set_option(CommandKind::ScreenRecv, CliOption::Audio, "off"@, number, now) == Ok::<OptionsModel, Seq<char>>(
            OptionsModel { viewer: ViewOptions { audio_mode: Some(AudioRecvMode::Off), ..now.viewer }, ..now },
        ),
        set_option(CommandKind::ScreenRecv, CliOption::Audio, "on"@, number, now) == Ok::<OptionsModel, Seq<char>>(
            OptionsModel { viewer: ViewOptions { audio_mode: Some(AudioRecvMode::On), ..now.viewer }, ..now },
        ),
        set_option(command, CliOption::AvSync, "off"@, number, now) == Ok::<OptionsModel, Seq<char>>(
            OptionsModel { viewer: ViewOptions { av_sync_mode: Some(AvSyncMode::Off), ..now.viewer }, ..now },
        ),
        set_option(command, CliOption::AvSync, "conservative"@, number, now) == Ok::<OptionsModel, Seq<char>>(
            OptionsModel { viewer: ViewOptions { av_sync_mode: Some(AvSyncMode::Conservative), ..now.viewer }, ..now },
        ),
        set_option(command, CliOption::RenderScale, "exact"@, number, now) == Ok::<OptionsModel, Seq<char>>(
            OptionsModel { viewer: ViewOptions { render_scale: Some(RenderScaleMode::Exact), ..now.viewer }, ..now },
        ),
        set_option(command, CliOption::RenderScale, "fit"@, number, now) == Ok::<OptionsModel, Seq<char>>(
            OptionsModel { viewer: ViewOptions { render_scale: Some(RenderScaleMode::Fit), ..now.viewer }, ..now },
        ),
        set_option(command, CliOption::RenderScale, "stretch"@, number, now) == Ok::<OptionsModel, Seq<char>>(
            OptionsModel { viewer: ViewOptions { render_scale: Some(RenderScaleMode::Stretch), ..now.viewer }, ..now },
        ),
        set_option(command, CliOption::WindowMode, "windowed"@, number, now) == Ok::<OptionsModel, Seq<char>>(
            OptionsModel { viewer: ViewOptions { window_mode: Some(WindowMode::Windowed), ..now.viewer }, ..now },
        ),
        set_option(command, CliOption::WindowMode, "borderless-fullscreen"@, number, now) == Ok::<OptionsModel, Seq<char>>(
            OptionsModel { viewer: ViewOptions { window_mode: Some(WindowMode::BorderlessFullscreen), ..now.viewer }, ..now },
        ),
        set_option(command, CliOption::RenderBackend, "gdi"@, number, now) == Ok::<OptionsModel, Seq<char>>(
            OptionsModel { viewer: ViewOptions { render_backend: Some(RenderBackend::Gdi), ..now.viewer }, ..now },
        ),
        set_option(command, CliOption::RenderBackend, "d3d11"@, number, now) == Ok::<OptionsModel, Seq<char>>(
            OptionsModel { viewer: ViewOptions { render_backend: Some(RenderBackend::D3d11), ..now.viewer }, ..now },
        ),
{
    lemma_words_are_told_apart();
}

/// Where the case of the letters makes no difference, a word that is given for the receiver
/// becomes the choice that it names all the same.
pub proof fn law_viewer_words_in_any_case_are_set(
    command: CommandKind,
    s: Seq<char>,
    number: Option<Real>,
    now: OptionsModel,
)
    ensures
        cli_values::lower(s) == "true"@ ==> set_option(command, CliOption::DropDamagedGop, s, number, now) == Ok::<
            OptionsModel,
            Seq<char>,
        >(OptionsModel { viewer: ViewOptions { drop_damaged_gop: Some(true), ..now.viewer }, ..now }),
        cli_values::lower(s) == "yes"@ ==> set_option(command, CliOption::DropDamagedGop, s, number, now) == Ok::<
            OptionsModel,
            Seq<char>,
        >(OptionsModel { viewer: ViewOptions { drop_damaged_gop: Some(true), ..now.viewer }, ..now }),
        cli_values::lower(s) == "on"@ ==> set_option(command, CliOption::DropDamagedGop, s, number, now) == Ok::<
            OptionsModel,
            Seq<char>,
        >(OptionsModel { viewer: ViewOptions { drop_damaged_gop: Some(true), ..now.viewer }, ..now }),
        cli_values::lower(s) == "1"@ ==> set_option(command, CliOption::DropDamagedGop, s, number, now) == Ok::<
            OptionsModel,
            Seq<char>,
        >(OptionsModel { viewer: ViewOptions { drop_damaged_gop: Some(true), ..now.viewer }, ..now }),
        cli_values::lower(s) == "false"@ ==> set_option(command, CliOption::DropDamagedGop, s, number, now) == Ok::<
            OptionsModel,
            Seq<char>,
        >(OptionsModel { viewer: ViewOptions { drop_damaged_gop: Some(false), ..now.viewer }, ..now }),
        cli_values::lower(s) == "no"@ ==> set_option(command, CliOption::DropDamagedGop, s, number, now) == Ok::<
            OptionsModel,
            Seq<char>,
        >(OptionsModel { viewer: ViewOptions { drop_damaged_gop: Some(false), ..now.viewer }, ..now }),
        cli_values::lower(s) == "off"@ ==> set_option(command, CliOption::DropDamagedGop, s, number, now) == Ok::<
            OptionsModel,
            Seq<char>,
        >(OptionsModel { viewer: ViewOptions { drop_damaged_gop: Some(false), ..now.viewer }, ..now }),
        cli_values::lower(s) == "0"@ ==> set_option(command, CliOption::DropDamagedGop, s, number, now) == Ok::<
            OptionsModel,
            Seq<char>,
        >(OptionsModel { viewer: ViewOptions { drop_damaged_gop: Some(false), ..now.viewer }, ..now }),
        cli_values::lower(s) == "true"@ ==> set_option(command, CliOption::StrictDecodeOrder, s, number, now) == Ok::<
            OptionsModel,
            Seq<char>,
        >(OptionsModel { viewer: ViewOptions { strict_decode_order: Some(true), ..now.viewer }, ..now }),
        cli_values::lower(s) == "yes"@ ==> set_option(command, CliOption::StrictDecodeOrder, s, number, now) == Ok::<
            OptionsModel,
            Seq<char>,
        >(OptionsModel { viewer: ViewOptions { strict_decode_order: Some(true), ..now.viewer }, ..now }),
        cli_values::lower(s) == "on"@ ==> set_option(command, CliOption::StrictDecodeOrder, s, number, now) == Ok::<
            OptionsModel,
            Seq<char>,
        >(OptionsModel { viewer: ViewOptions { strict_decode_order: Some(true), ..now.viewer }, ..now }),
        cli_values::lower(s) == "1"@ ==> set_option(command, CliOption::StrictDecodeOrder, s, number, now) == Ok::<
            OptionsModel,
            Seq<char>,
        >(OptionsModel { viewer: ViewOptions { strict_decode_order: Some(true), ..now.viewer }, ..now }),
        cli_values::lower(s) == "false"@ ==> set_option(command, CliOption::StrictDecodeOrder, s, number, now) == Ok::<
            OptionsModel,
            Seq<char>,
        >(OptionsModel { viewer: ViewOptions { strict_decode_order: Some(false), ..now.viewer }, ..now }),
        cli_values::lower(s) == "no"@ ==> set_option(command, CliOption::StrictDecodeOrder, s, number, now) == Ok::<
            OptionsModel,
            Seq<char>,
        >(OptionsModel { viewer: ViewOptions { strict_decode_order: Some(false), ..now.viewer }, ..now }),
        cli_values::lower(s) == "off"@ ==> set_option(command, CliOption::StrictDecodeOrder, s, number, now) == Ok::<
            OptionsModel,
            Seq<char>,
        >(OptionsModel { viewer: ViewOptions { strict_decode_order: Some(false), ..now.viewer }, ..now }),
        cli_values::lower(s) == "0"@ ==> set_option(command, CliOption::StrictDecodeOrder, s, number, now) == Ok::<
            OptionsModel,
            Seq<char>,
        >(OptionsModel { viewer: ViewOptions { strict_decode_order: Some(false), ..now.viewer }, ..now }),
        cli_values::lower(s) == "auto"@ ==> set_option(command, CliOption::ReorderWaitMs, s, number, now) == Ok::<
            OptionsModel,
            Seq<char>,
        >(OptionsModel { viewer: ViewOptions { reorder_wait_ms: Some(None), ..now.viewer }, ..now }),
{
    lemma_words_are_told_apart();
}

/// A word that is given for the adaptive sender becomes the choice that it names.
pub proof fn law_adaptive_words_are_set(
    command: CommandKind,
    number: Option<Real>,
    now: OptionsModel,
)
    ensures
        set_option(command, CliOption::DisplayRefreshDetect, "auto"@, number, now) == Ok::<OptionsModel, Seq<char>>(
            OptionsModel { adaptive: AdaptiveOptions { display_refresh_detect: Some(DisplayRefreshDetect::Auto), ..now.adaptive }, ..now },
        ),
        set_option(command, CliOption::DisplayRefreshDetect, "off"@, number, now) == Ok::<OptionsModel, Seq<char>>(
            OptionsModel { adaptive: AdaptiveOptions { display_refresh_detect: Some(DisplayRefreshDetect::Off), ..now.adaptive }, ..now },
        ),
        set_option(command, CliOption::AdaptiveQuality, "off"@, number, now) == Ok::<OptionsModel, Seq<char>>(
            OptionsModel { adaptive: AdaptiveOptions { mode: Some(AdaptiveMode::Off), ..now.adaptive }, ..now },
        ),
        set_option(command, CliOption::AdaptiveQuality, "smoothness"@, number, now) == Ok::<OptionsModel, Seq<char>>(
            OptionsModel { adaptive: AdaptiveOptions { mode: Some(AdaptiveMode::Smoothness), ..now.adaptive }, ..now },
        ),
        set_option(command, CliOption::MaxFps, "auto"@, number, now) == Ok::<OptionsModel, Seq<char>>(
            OptionsModel { adaptive: AdaptiveOptions { max_fps: Some(MaxFps::Auto), ..now.adaptive }, ..now },
        ),
        set_option(command, CliOption::MaxFps, "60"@, number, now) == Ok::<OptionsModel, Seq<char>>(
            OptionsModel { adaptive: AdaptiveOptions { max_fps: Some(MaxFps::Fixed(60)), ..now.adaptive }, ..now },
        ),
        set_option(command, CliOption::MaxFps, "75"@, number, now) == Ok::<OptionsModel, Seq<char>>(
            OptionsModel { adaptive: AdaptiveOptions { max_fps: Some(MaxFps::Fixed(75)), ..now.adaptive }, ..now },
        ),
        set_option(command, CliOption::MaxFps, "90"@, number, now) == Ok::<OptionsModel, Seq<char>>(
            OptionsModel { adaptive: AdaptiveOptions { max_fps: Some(MaxFps::Fixed(90)), ..now.adaptive }, ..now },
        ),
        set_option(command, CliOption::MaxFps, "120"@, number, now) == Ok::<OptionsModel, Seq<char>>(
            OptionsModel { adaptive: AdaptiveOptions { max_fps: Some(MaxFps::Fixed(120)), ..now.adaptive }, ..now },
        ),
{
    lemma_words_are_told_apart();
}

/// Where the case of the letters makes no difference, a word that is given for the adaptive sender
/// becomes the choice that it names all the same.
pub proof fn law_adaptive_words_in_any_case_are_set(
    command: CommandKind,
    s: Seq<char>,
    number: Option<Real>,
    now: OptionsModel,
)
    ensures
        cli_values::lower(s) == "true"@ ==> set_option(command, CliOption::EnableHighRefresh, s, number, now) == Ok::<
            OptionsModel,
            Seq<char>,
        >(OptionsModel { adaptive: AdaptiveOptions { enable_high_refresh: Some(true), ..now.adaptive }, ..now }),
        cli_values::lower(s) == "yes"@ ==> set_option(command, CliOption::EnableHighRefresh, s, number, now) == Ok::<
            OptionsModel,
            Seq<char>,
        >(OptionsModel { adaptive: AdaptiveOptions { enable_high_refresh: Some(true), ..now.adaptive }, ..now }),
        cli_values::lower(s) == "on"@ ==> set_option(command, CliOption::EnableHighRefresh, s, number, now) == Ok::<
            OptionsModel,
            Seq<char>,
        >(OptionsModel { adaptive: AdaptiveOptions { enable_high_refresh: Some(true), ..now.adaptive }, ..now }),
        cli_values::lower(s) == "1"@ ==> set_option(command, CliOption::EnableHighRefresh, s, number, now) == Ok::<
            OptionsModel,
            Seq<char>,
        >(OptionsModel { adaptive: AdaptiveOptions { enable_high_refresh: Some(true), ..now.adaptive }, ..now }),
        cli_values::lower(s) == "false"@ ==> set_option(command, CliOption::EnableHighRefresh, s, number, now) == Ok::<
            OptionsModel,
            Seq<char>,
        >(OptionsModel { adaptive: AdaptiveOptions { enable_high_refresh: Some(false), ..now.adaptive }, ..now }),
        cli_values::lower(s) == "no"@ ==> set_option(command, CliOption::EnableHighRefresh, s, number, now) == Ok::<
            OptionsModel,
            Seq<char>,
        >(OptionsModel { adaptive: AdaptiveOptions { enable_high_refresh: Some(false), ..now.adaptive }, ..now }),
        cli_values::lower(s) == "off"@ ==> set_option(command, CliOption::EnableHighRefresh, s, number, now) == Ok::<
            OptionsModel,
            Seq<char>,
        >(OptionsModel { adaptive: AdaptiveOptions { enable_high_refresh: Some(false), ..now.adaptive }, ..now }),
        cli_values::lower(s) == "0"@ ==> set_option(command, CliOption::EnableHighRefresh, s, number, now) == Ok::<
            OptionsModel,
            Seq<char>,
        >(OptionsModel { adaptive: AdaptiveOptions { enable_high_refresh: Some(false), ..now.adaptive }, ..now }),
        cli_values::lower(s) == "true"@ ==> set_option(command, CliOption::InteractiveLagGuard, s, number, now) == Ok::<
            OptionsModel,
            Seq<char>,
        >(OptionsModel { adaptive: AdaptiveOptions { interactive_lag_guard: Some(true), ..now.adaptive }, ..now }),
        cli_values::lower(s) == "yes"@ ==> set_option(command, CliOption::InteractiveLagGuard, s, number, now) == Ok::<
            OptionsModel,
            Seq<char>,
        >(OptionsModel { adaptive: AdaptiveOptions { interactive_lag_guard: Some(true), ..now.adaptive }, ..now }),
        cli_values::lower(s) == "on"@ ==> set_option(command, CliOption::InteractiveLagGuard, s, number, now) == Ok::<
            OptionsModel,
            Seq<char>,
        >(OptionsModel { adaptive: AdaptiveOptions { interactive_lag_guard: Some(true), ..now.adaptive }, ..now }),
        cli_values::lower(s) == "1"@ ==> set_option(command, CliOption::InteractiveLagGuard, s, number, now) == Ok::<
            OptionsModel,
            Seq<char>,
        >(OptionsModel { adaptive: AdaptiveOptions { interactive_lag_guard: Some(true), ..now.adaptive }, ..now }),
        cli_values::lower(s) == "false"@ ==> set_option(command, CliOption::InteractiveLagGuard, s, number, now) == Ok::<
            OptionsModel,
            Seq<char>,
        >(OptionsModel { adaptive: AdaptiveOptions { interactive_lag_guard: Some(false), ..now.adaptive }, ..now }),
        cli_values::lower(s) == "no"@ ==> set_option(command, CliOption::InteractiveLagGuard, s, number, now) == Ok::<
            OptionsModel,
            Seq<char>,
        >(OptionsModel { adaptive: AdaptiveOptions { interactive_lag_guard: Some(false), ..now.adaptive }, ..now }),
        cli_values::lower(s) == "off"@ ==> set_option(command, CliOption::InteractiveLagGuard, s, number, now) == Ok::<
            OptionsModel,
            Seq<char>,
        >(OptionsModel { adaptive: AdaptiveOptions { interactive_lag_guard: Some(false), ..now.adaptive }, ..now }),
        cli_values::lower(s) == "0"@ ==> set_option(command, CliOption::InteractiveLagGuard, s, number, now) == Ok::<
            OptionsModel,
            Seq<char>,
        >(OptionsModel { adaptive: AdaptiveOptions { interactive_lag_guard: Some(false), ..now.adaptive }, ..now }),
{
    lemma_words_are_told_apart();
}

/// Each command takes the options that belong to it and no other; the senders of pictures
/// take those of the adaptive sender too.
pub proof fn law_commands_take_their_options(option: CliOption)
    ensures
        CommandKind::Sender.takes(option) <==> option is Host || option is Port || option is Fps
            || option is BitrateMbps,
        CommandKind::Receiver.takes(option) <==> option is Bind || option is Port,
        CommandKind::CaptureProbe.takes(option) <==> option is DurationSec || option is TargetFps,
        CommandKind::GpuConvertProbe.takes(option) <==> option is DurationSec
            || option is TargetFps || option is OutWidth || option is OutHeight
            || option is ColorMatrix || option is DebugDumpNv12 || option is DebugDumpBgra
            || option is DebugDumpLimit,
        CommandKind::EncodeProbe.takes(option) <==> option is Width || option is Height
            || option is Fps || option is DurationSec || option is BitrateMbps
            || option is Output || option is Encoder || option is ColorMatrix,
        CommandKind::CaptureEncodeProbe.takes(option) <==> option is DurationSec
            || option is TargetFps || option is BitrateMbps || option is QualityBpf
            || option is OutWidth || option is OutHeight || option is Output || option is Encoder
            || option is ConvertBackend || option is ColorMatrix,
        CommandKind::H264SendProbe.takes(option) <==> option is Host || option is Port
            || option is DurationSec || option is TargetFps || option is BitrateMbps
            || option is QualityBpf || option is OutWidth || option is OutHeight
            || option is ColorMatrix || option is Encoder || option is ConvertBackend
            || option is PacketPacing || option is Fec || option is UdpPayloadSize
            || option is KeyframeIntervalSec || option is Repair || option is RepairCacheMs
            || option.adaptive(),
        CommandKind::H264RecvDump.takes(option) <==> option is Bind || option is Port
            || option is Output || option is IdleTimeoutSec || option is DropDamagedGop
            || option is ReorderWaitMs,
        CommandKind::H264RecvView.takes(option) <==> option is Bind || option is Port
            || option is Fps || option is FrameTimeoutMs || option is MaxInflightFrames
            || option is MaxDecodeQueue || option is StrictDecodeOrder
            || option is DropDamagedGop || option is ReorderWaitMs || option is PlayoutDelayMs
            || option is DebugDumpFrames || option is DebugDumpLimit || option is JsonIntervalMs
            || option is Title || option is RenderScale || option is WindowMode
            || option is RenderBackend || option is Repair || option is NackDelayMs
            || option is NackRepeatMs || option is NackMaxRounds
            || option is DisplayRefreshDetect || option is AdaptiveFeedbackMs,
        CommandKind::ScreenSend.takes(option) <==> option is Host || option is Port
            || option is DurationSec || option is Fps || option is TargetFps
            || option is BitrateMbps || option is QualityBpf || option is Width
            || option is OutWidth || option is Height || option is OutHeight
            || option is ColorMatrix || option is Encoder || option is ConvertBackend
            || option is PacketPacing || option is Fec || option is UdpPayloadSize
            || option is PayloadSize || option is KeyframeIntervalSec || option is Repair
            || option is RepairCacheMs || option is Audio || option is Verbose
            || option.adaptive(),
        CommandKind::ScreenRecv.takes(option) <==> option is Bind || option is Port
            || option is Fps || option is DurationSec || option is FrameTimeoutMs
            || option is MaxInflightFrames || option is MaxDecodeQueue
            || option is StrictDecodeOrder || option is DropDamagedGop || option is ReorderWaitMs
            || option is PlayoutDelayMs || option is DebugDumpFrames || option is DebugDumpLimit
            || option is JsonIntervalMs || option is Title || option is RenderScale
            || option is WindowMode || option is RenderBackend || option is Repair
            || option is NackDelayMs || option is NackRepeatMs || option is NackMaxRounds
            || option is Audio || option is AudioJitterBufferMs || option is AvSync
            || option is DisplayRefreshDetect || option is AdaptiveFeedbackMs
            || option is Verbose,
        CommandKind::H264FileViewer.takes(option) <==> option is Input || option is RenderScale
            || option is WindowMode || option is RenderBackend,
        CommandKind::ColorTestPattern.takes(option) <==> option is Output || option is Width
            || option is Height || option is Fps || option is DurationSec
            || option is BitrateMbps || option is ColorMatrix,
        CommandKind::BenchReassembly.takes(option) <==> option is Frames
            || option is PacketsPerFrame || option is PayloadSize || option is LossRate,
        CommandKind::AudioCaptureProbe.takes(option) <==> option is DurationSec
            || option is Output,
        CommandKind::AudioSend.takes(option) <==> option is Host || option is Port
            || option is DurationSec || option is FrameMs,
        CommandKind::AudioRecvPlay.takes(option) <==> option is Bind || option is Port
            || option is DurationSec || option is JitterBufferMs,
{
}

} // verus!
