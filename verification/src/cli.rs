//! The commands of the program and how they are read from its arguments.

use vstd::prelude::*;
use vstd::slice::slice_subrange;

use crate::bitrate::{BitrateRequest, BitrateSelection};
use crate::choices::{
    AdaptiveMode, AvSyncMode, DisplayRefreshDetect, MaxFps, RenderBackend, RenderScaleMode,
    RepairMode, WindowMode,
};
use crate::cli_options;
use crate::cli_options::{AdaptiveOptions, CommandKind, Options, OptionsModel, scan_options};
use crate::cli_values::{ConvertBackend, EncoderChoice, FecMode};
use crate::color_spec::{ColorMatrix, ColorSpec};
use crate::h264_recv_view::{AudioRecvMode, H264RecvViewConfig, H264RecvViewMode};
use crate::h264_send_probe::{
    AdaptiveConfig, AdaptiveRuntimeConfig, AudioSendMode, H264SendConfig, H264SendMode,
    PacketPacing,
};
use crate::real_number::{Real, EIGHT_BITS, FOUR_BITS, ONE_BITS, TWENTY_TWO_BITS, ZERO_BITS};
use crate::text;
use crate::text::{is_blank_text, same_text, text_or};

verus! {

/// Converting captured pictures on the graphics card.
#[derive(Debug)]
pub struct GpuConvertProbeConfig<T> {
    pub duration_sec: u64,
    pub target_fps: u32,
    pub out_width: u32,
    pub out_height: u32,
    pub color_spec: ColorSpec,
    pub debug_dump_nv12: Option<T>,
    pub debug_dump_bgra: Option<T>,
    pub debug_dump_limit: usize,
}

impl View for GpuConvertProbeConfig<String> {
    type V = GpuConvertProbeConfig<Seq<char>>;

    open spec fn view(&self) -> GpuConvertProbeConfig<Seq<char>> {
        GpuConvertProbeConfig {
            duration_sec: self.duration_sec,
            target_fps: self.target_fps,
            out_width: self.out_width,
            out_height: self.out_height,
            color_spec: self.color_spec,
            debug_dump_nv12: text::optional(self.debug_dump_nv12),
            debug_dump_bgra: text::optional(self.debug_dump_bgra),
            debug_dump_limit: self.debug_dump_limit,
        }
    }
}

/// Encoding synthetic pictures.
#[derive(Debug)]
pub struct EncodeProbeConfig<T> {
    pub width: u32,
    pub height: u32,
    pub fps: u32,
    pub duration_sec: u64,
    pub bitrate_mbps: Real,
    pub output: T,
    pub encoder: EncoderChoice,
    pub color_spec: ColorSpec,
}

impl View for EncodeProbeConfig<String> {
    type V = EncodeProbeConfig<Seq<char>>;

    open spec fn view(&self) -> EncodeProbeConfig<Seq<char>> {
        EncodeProbeConfig {
            width: self.width,
            height: self.height,
            fps: self.fps,
            duration_sec: self.duration_sec,
            bitrate_mbps: self.bitrate_mbps,
            output: self.output@,
            encoder: self.encoder,
            color_spec: self.color_spec,
        }
    }
}

/// Encoding captured pictures.
#[derive(Debug)]
pub struct CaptureEncodeConfig<T> {
    pub duration_sec: Option<u64>,
    pub target_fps: u32,
    pub bitrate_mbps: Real,
    pub bitrate_selection: BitrateSelection,
    pub out_width: u32,
    pub out_height: u32,
    pub output: T,
    pub color_spec: ColorSpec,
    pub encoder: EncoderChoice,
    pub convert_backend: ConvertBackend,
    pub keyframe_interval_sec: Option<Real>,
    pub verbose: bool,
}

impl View for CaptureEncodeConfig<String> {
    type V = CaptureEncodeConfig<Seq<char>>;

    open spec fn view(&self) -> CaptureEncodeConfig<Seq<char>> {
        CaptureEncodeConfig {
            duration_sec: self.duration_sec,
            target_fps: self.target_fps,
            bitrate_mbps: self.bitrate_mbps,
            bitrate_selection: self.bitrate_selection,
            out_width: self.out_width,
            out_height: self.out_height,
            output: self.output@,
            color_spec: self.color_spec,
            encoder: self.encoder,
            convert_backend: self.convert_backend,
            keyframe_interval_sec: self.keyframe_interval_sec,
            verbose: self.verbose,
        }
    }
}

/// Writing a received stream to a file.
#[derive(Debug)]
pub struct H264RecvConfig<T> {
    pub bind: T,
    pub port: u16,
    pub output: T,
    pub idle_timeout_sec: u64,
    pub drop_damaged_gop: bool,
    pub reorder_wait_ms: Option<u64>,
}

impl View for H264RecvConfig<String> {
    type V = H264RecvConfig<Seq<char>>;

    open spec fn view(&self) -> H264RecvConfig<Seq<char>> {
        H264RecvConfig {
            bind: self.bind@,
            port: self.port,
            output: self.output@,
            idle_timeout_sec: self.idle_timeout_sec,
            drop_damaged_gop: self.drop_damaged_gop,
            reorder_wait_ms: self.reorder_wait_ms,
        }
    }
}

/// Showing a stream out of a file.
#[derive(Debug)]
pub struct H264FileViewerConfig<T> {
    pub input: T,
    pub render_scale: RenderScaleMode,
    pub window_mode: WindowMode,
    pub render_backend: RenderBackend,
}

impl View for H264FileViewerConfig<String> {
    type V = H264FileViewerConfig<Seq<char>>;

    open spec fn view(&self) -> H264FileViewerConfig<Seq<char>> {
        H264FileViewerConfig {
            input: self.input@,
            render_scale: self.render_scale,
            window_mode: self.window_mode,
            render_backend: self.render_backend,
        }
    }
}

/// Encoding a pattern of colours.
#[derive(Debug)]
pub struct ColorTestPatternConfig<T> {
    pub output: T,
    pub width: u32,
    pub height: u32,
    pub fps: u32,
    pub duration_sec: u64,
    pub bitrate_mbps: Real,
    pub color_spec: ColorSpec,
}

impl View for ColorTestPatternConfig<String> {
    type V = ColorTestPatternConfig<Seq<char>>;

    open spec fn view(&self) -> ColorTestPatternConfig<Seq<char>> {
        ColorTestPatternConfig {
            output: self.output@,
            width: self.width,
            height: self.height,
            fps: self.fps,
            duration_sec: self.duration_sec,
            bitrate_mbps: self.bitrate_mbps,
            color_spec: self.color_spec,
        }
    }
}

/// Recording the sound of the system.
#[derive(Debug)]
pub struct AudioCaptureProbeConfig<T> {
    pub duration_sec: u64,
    pub output: T,
}

impl View for AudioCaptureProbeConfig<String> {
    type V = AudioCaptureProbeConfig<Seq<char>>;

    open spec fn view(&self) -> AudioCaptureProbeConfig<Seq<char>> {
        AudioCaptureProbeConfig {
            duration_sec: self.duration_sec,
            output: self.output@,
        }
    }
}

/// Sending sound alone.
#[derive(Debug)]
pub struct AudioSendConfig<T> {
    pub host: T,
    pub port: u16,
    pub duration_sec: Option<u64>,
    pub frame_ms: u32,
}

impl View for AudioSendConfig<String> {
    type V = AudioSendConfig<Seq<char>>;

    open spec fn view(&self) -> AudioSendConfig<Seq<char>> {
        AudioSendConfig {
            host: self.host@,
            port: self.port,
            duration_sec: self.duration_sec,
            frame_ms: self.frame_ms,
        }
    }
}

/// Playing received sound.
#[derive(Debug)]
pub struct AudioRecvPlayConfig<T> {
    pub bind: T,
    pub port: u16,
    pub duration_sec: Option<u64>,
    pub jitter_buffer_ms: u32,
}

impl View for AudioRecvPlayConfig<String> {
    type V = AudioRecvPlayConfig<Seq<char>>;

    open spec fn view(&self) -> AudioRecvPlayConfig<Seq<char>> {
        AudioRecvPlayConfig {
            bind: self.bind@,
            port: self.port,
            duration_sec: self.duration_sec,
            jitter_buffer_ms: self.jitter_buffer_ms,
        }
    }
}

/// Measuring the reassembly of frames.
#[derive(Clone, Copy, Debug, PartialEq, Eq, Structural)]
pub struct BenchReassemblyConfig {
    pub frames: u64,
    pub packets_per_frame: u16,
    pub payload_size: usize,
    pub loss_rate: Real,
}

/// What the program is asked to do.
#[derive(Debug)]
pub enum Command<T> {
    SelfTest,
    Sender { host: T, port: u16, fps: u32, bitrate_mbps: Real },
    Receiver { bind: T, port: u16 },
    CaptureProbe { duration_sec: u64, target_fps: u32 },
    WmfProbe,
    GpuConvertProbe(GpuConvertProbeConfig<T>),
    EncodeProbe(EncodeProbeConfig<T>),
    CaptureEncodeProbe(CaptureEncodeConfig<T>),
    H264SendProbe(H264SendConfig<T>),
    H264RecvDump(H264RecvConfig<T>),
    H264RecvView(H264RecvViewConfig<T>),
    ScreenSend(H264SendConfig<T>),
    ScreenRecv(H264RecvViewConfig<T>),
    H264FileViewer(H264FileViewerConfig<T>),
    ColorTestPattern(ColorTestPatternConfig<T>),
    BenchReassembly(BenchReassemblyConfig),
    AudioCaptureProbe(AudioCaptureProbeConfig<T>),
    AudioSend(AudioSendConfig<T>),
    AudioRecvPlay(AudioRecvPlayConfig<T>),
    Help,
}

impl View for Command<String> {
    type V = Command<Seq<char>>;

    open spec fn view(&self) -> Command<Seq<char>> {
        match *self {
            Command::SelfTest => Command::SelfTest,
            Command::Sender { host, port, fps, bitrate_mbps } => Command::Sender {
                host: host@,
                port,
                fps,
                bitrate_mbps,
            },
            Command::Receiver { bind, port } => Command::Receiver { bind: bind@, port },
            Command::CaptureProbe { duration_sec, target_fps } => Command::CaptureProbe {
                duration_sec,
                target_fps,
            },
            Command::WmfProbe => Command::WmfProbe,
            Command::BenchReassembly(config) => Command::BenchReassembly(config),
            Command::Help => Command::Help,
            Command::GpuConvertProbe(config) => Command::GpuConvertProbe(config@),
            Command::EncodeProbe(config) => Command::EncodeProbe(config@),
            Command::CaptureEncodeProbe(config) => Command::CaptureEncodeProbe(config@),
            Command::H264SendProbe(config) => Command::H264SendProbe(config@),
            Command::H264RecvDump(config) => Command::H264RecvDump(config@),
            Command::H264RecvView(config) => Command::H264RecvView(config@),
            Command::ScreenSend(config) => Command::ScreenSend(config@),
            Command::ScreenRecv(config) => Command::ScreenRecv(config@),
            Command::H264FileViewer(config) => Command::H264FileViewer(config@),
            Command::ColorTestPattern(config) => Command::ColorTestPattern(config@),
            Command::AudioCaptureProbe(config) => Command::AudioCaptureProbe(config@),
            Command::AudioSend(config) => Command::AudioSend(config@),
            Command::AudioRecvPlay(config) => Command::AudioRecvPlay(config@),
        }
    }
}

/// `r` is the outcome `s`.
pub open spec fn agrees(
    r: Result<Command<String>, String>,
    s: Result<Command<Seq<char>>, Seq<char>>,
) -> bool {
    match s {
        Ok(command) => r is Ok && r->Ok_0@ == command,
        Err(error) => r is Err && r->Err_0@ == error,
    }
}

/// The settings of the adaptive sender, with the standard for what is not set.
pub open spec fn adaptive_config(set: AdaptiveOptions) -> AdaptiveRuntimeConfig {
    AdaptiveRuntimeConfig {
        quality: AdaptiveConfig {
            mode: set.mode.unwrap_or(AdaptiveMode::Off),
            min_width: set.min_width.unwrap_or(1280),
            min_height: set.min_height.unwrap_or(720),
            min_fps: set.min_fps.unwrap_or(30),
            max_bitrate_mbps: set.max_bitrate,
            upgrade_stable_sec: set.upgrade_stable_sec.unwrap_or(15),
            resolution_cooldown_sec: set.resolution_cooldown_sec.unwrap_or(30),
            fps_cooldown_sec: set.fps_cooldown_sec.unwrap_or(20),
            interactive_lag_guard: set.interactive_lag_guard.unwrap_or(true),
        },
        display_refresh_detect: set.display_refresh_detect.unwrap_or(DisplayRefreshDetect::Auto),
        max_fps: set.max_fps.unwrap_or(MaxFps::Fixed(60)),
        enable_high_refresh: set.enable_high_refresh.unwrap_or(false),
        feedback_ms: set.feedback_ms.unwrap_or(1000),
    }
}

fn build_adaptive_config(set: AdaptiveOptions) -> (r: AdaptiveRuntimeConfig)
    ensures
        r == adaptive_config(set),
{
    AdaptiveRuntimeConfig {
        quality: AdaptiveConfig {
            mode: set.mode.unwrap_or(AdaptiveMode::Off),
            min_width: set.min_width.unwrap_or(1280),
            min_height: set.min_height.unwrap_or(720),
            min_fps: set.min_fps.unwrap_or(30),
            max_bitrate_mbps: set.max_bitrate,
            upgrade_stable_sec: set.upgrade_stable_sec.unwrap_or(15),
            resolution_cooldown_sec: set.resolution_cooldown_sec.unwrap_or(30),
            fps_cooldown_sec: set.fps_cooldown_sec.unwrap_or(20),
            interactive_lag_guard: set.interactive_lag_guard.unwrap_or(true),
        },
        display_refresh_detect: set.display_refresh_detect.unwrap_or(DisplayRefreshDetect::Auto),
        max_fps: set.max_fps.unwrap_or(MaxFps::Fixed(60)),
        enable_high_refresh: set.enable_high_refresh.unwrap_or(false),
        feedback_ms: set.feedback_ms.unwrap_or(1000),
    }
}

/// What the bitrate of a command is chosen from.
pub open spec fn bitrate_request(command: CommandKind, o: OptionsModel) -> BitrateRequest {
    let screen = command == CommandKind::ScreenSend;
    BitrateRequest {
        width: o.stream.width.unwrap_or(if screen { 1920 } else { 1280 }),
        height: o.stream.height.unwrap_or(if screen { 1080 } else { 720 }),
        fps: o.stream.fps.unwrap_or(if screen { 60 } else { 30 }),
        default_mbps: Real { bits: if screen { TWENTY_TWO_BITS } else { FOUR_BITS } },
        explicit_mbps: o.stream.bitrate,
        quality_bpf: o.stream.quality_bpf,
    }
}

fn build_bitrate_request(command: CommandKind, o: &Options) -> (r: BitrateRequest)
    ensures
        r == bitrate_request(command, o@),
{
    let screen: bool = command == CommandKind::ScreenSend;
    BitrateRequest {
        width: o.stream.width.unwrap_or(if screen { 1920 } else { 1280 }),
        height: o.stream.height.unwrap_or(if screen { 1080 } else { 720 }),
        fps: o.stream.fps.unwrap_or(if screen { 60 } else { 30 }),
        default_mbps: Real { bits: if screen { TWENTY_TWO_BITS } else { FOUR_BITS } },
        explicit_mbps: o.stream.bitrate,
        quality_bpf: o.stream.quality_bpf,
    }
}

/// The settings of a receiver.  A probe has no sound and no end.  With sound the delay
/// is longer unless it is set, and pictures wait for sound unless that is set.
pub open spec fn receiver_config(o: OptionsModel, port: u16, screen: bool) -> H264RecvViewConfig<
    Seq<char>,
> {
    let audio = screen && o.viewer.audio_mode == Some(AudioRecvMode::On);
    H264RecvViewConfig {
        bind: o.texts.bind.unwrap_or("0.0.0.0"@),
        port,
        decoder_fps: o.stream.fps.unwrap_or(30),
        duration_sec: if screen { o.stream.duration_sec } else { None },
        frame_timeout_ms: o.viewer.frame_timeout_ms.unwrap_or(300),
        reorder_wait_ms: o.viewer.reorder_wait_ms.unwrap_or(None),
        playout_delay_ms: o.viewer.playout_delay_ms.unwrap_or(if audio { 250 } else { 120 }),
        max_inflight_frames: o.viewer.max_inflight_frames.unwrap_or(120),
        max_decode_queue: o.viewer.max_decode_queue.unwrap_or(30),
        strict_decode_order: o.viewer.strict_decode_order.unwrap_or(true),
        drop_damaged_gop: o.viewer.drop_damaged_gop.unwrap_or(true),
        debug_dump_frames: o.texts.debug_dump_frames,
        debug_dump_limit: o.viewer.debug_dump_limit.unwrap_or(10),
        json_interval_ms: o.viewer.json_interval_ms.unwrap_or(1000),
        title: o.texts.title.unwrap_or("AgoraLink Native Viewer"@),
        render_scale: o.viewer.render_scale.unwrap_or(RenderScaleMode::Exact),
        window_mode: o.viewer.window_mode.unwrap_or(WindowMode::Windowed),
        render_backend: o.viewer.render_backend.unwrap_or(RenderBackend::D3d11),
        repair_mode: o.stream.repair_mode.unwrap_or(RepairMode::Off),
        nack_delay_ms: o.viewer.nack_delay_ms.unwrap_or(20),
        nack_repeat_ms: o.viewer.nack_repeat_ms.unwrap_or(20),
        nack_max_rounds: o.viewer.nack_max_rounds.unwrap_or(3),
        audio_mode: if screen {
            o.viewer.audio_mode.unwrap_or(AudioRecvMode::Off)
        } else {
            AudioRecvMode::Off
        },
        audio_jitter_buffer_ms: if screen { o.viewer.jitter_buffer_ms.unwrap_or(120) } else { 120 },
        av_sync_mode: if audio {
            o.viewer.av_sync_mode.unwrap_or(AvSyncMode::Conservative)
        } else {
            AvSyncMode::Off
        },
        display_refresh_detect: o.adaptive.display_refresh_detect.unwrap_or(
            DisplayRefreshDetect::Auto,
        ),
        capability_feedback_ms: o.adaptive.feedback_ms.unwrap_or(1000),
        mode: if screen { H264RecvViewMode::Screen } else { H264RecvViewMode::Probe },
        verbose: !screen || o.stream.verbose,
    }
}

fn build_receiver_config(o: Options, port: u16, screen: bool) -> (r: H264RecvViewConfig<String>)
    ensures
        r@ == receiver_config(o@, port, screen),
{
    let audio: bool = screen && match o.viewer.audio_mode {
        Some(AudioRecvMode::On) => true,
        _ => false,
    };
    let bind: String = text_or(o.texts.bind, "0.0.0.0");
    let title: String = text_or(o.texts.title, "AgoraLink Native Viewer");
    H264RecvViewConfig {
        bind,
        port,
        decoder_fps: o.stream.fps.unwrap_or(30),
        duration_sec: if screen { o.stream.duration_sec } else { None },
        frame_timeout_ms: o.viewer.frame_timeout_ms.unwrap_or(300),
        reorder_wait_ms: o.viewer.reorder_wait_ms.unwrap_or(None),
        playout_delay_ms: o.viewer.playout_delay_ms.unwrap_or(if audio { 250 } else { 120 }),
        max_inflight_frames: o.viewer.max_inflight_frames.unwrap_or(120),
        max_decode_queue: o.viewer.max_decode_queue.unwrap_or(30),
        strict_decode_order: o.viewer.strict_decode_order.unwrap_or(true),
        drop_damaged_gop: o.viewer.drop_damaged_gop.unwrap_or(true),
        debug_dump_frames: o.texts.debug_dump_frames,
        debug_dump_limit: o.viewer.debug_dump_limit.unwrap_or(10),
        json_interval_ms: o.viewer.json_interval_ms.unwrap_or(1000),
        title,
        render_scale: o.viewer.render_scale.unwrap_or(RenderScaleMode::Exact),
        window_mode: o.viewer.window_mode.unwrap_or(WindowMode::Windowed),
        render_backend: o.viewer.render_backend.unwrap_or(RenderBackend::D3d11),
        repair_mode: o.stream.repair_mode.unwrap_or(RepairMode::Off),
        nack_delay_ms: o.viewer.nack_delay_ms.unwrap_or(20),
        nack_repeat_ms: o.viewer.nack_repeat_ms.unwrap_or(20),
        nack_max_rounds: o.viewer.nack_max_rounds.unwrap_or(3),
        audio_mode: if screen {
            o.viewer.audio_mode.unwrap_or(AudioRecvMode::Off)
        } else {
            AudioRecvMode::Off
        },
        audio_jitter_buffer_ms: if screen { o.viewer.jitter_buffer_ms.unwrap_or(120) } else { 120 },
        av_sync_mode: if audio {
            o.viewer.av_sync_mode.unwrap_or(AvSyncMode::Conservative)
        } else {
            AvSyncMode::Off
        },
        display_refresh_detect: o.adaptive.display_refresh_detect.unwrap_or(
            DisplayRefreshDetect::Auto,
        ),
        capability_feedback_ms: o.adaptive.feedback_ms.unwrap_or(1000),
        mode: if screen { H264RecvViewMode::Screen } else { H264RecvViewMode::Probe },
        verbose: !screen || o.stream.verbose,
    }
}

/// The `sender` command with the settings `o`.
pub open spec fn sender_command(o: OptionsModel) -> Result<
    Command<Seq<char>>,
    Seq<char>,
> {
    Ok(
        Command::Sender {
            host: o.texts.host.unwrap_or("127.0.0.1"@),
            port: o.stream.port.unwrap_or(50120),
            fps: o.stream.fps.unwrap_or(30),
            bitrate_mbps: o.stream.bitrate.unwrap_or(Real { bits: FOUR_BITS }),
        },
    )
}

/// Reads the arguments of `sender`.
pub fn parse_sender_args(args: &[String], numbers: &[Option<Real>]) -> (r: Result<
    Command<String>,
    String,
>)
    requires
        numbers@.len() == args@.len(),
    ensures
        agrees(
            r,
            match cli_options::scan(
                CommandKind::Sender,
                args@,
                numbers@,
                0,
                OptionsModel::unset(),
            ) {
                Ok(Some(o)) => sender_command(o),
                Ok(None) => Ok(Command::Help),
                Err(error) => Err(error),
            },
        ),
{
    let o: Options = match scan_options(CommandKind::Sender, args, numbers)? {
        Some(o) => o,
        None => {
            return Ok(Command::Help);
        },
    };
    Ok(
        Command::Sender {
            host: text_or(o.texts.host, "127.0.0.1"),
            port: o.stream.port.unwrap_or(50120),
            fps: o.stream.fps.unwrap_or(30),
            bitrate_mbps: o.stream.bitrate.unwrap_or(Real { bits: FOUR_BITS }),
        },
    )
}

/// The `receiver` command with the settings `o`.
pub open spec fn receiver_command(o: OptionsModel) -> Result<
    Command<Seq<char>>,
    Seq<char>,
> {
    Ok(
        Command::Receiver {
            bind: o.texts.bind.unwrap_or("0.0.0.0"@),
            port: o.stream.port.unwrap_or(50120),
        },
    )
}

/// Reads the arguments of `receiver`.
pub fn parse_receiver_args(args: &[String], numbers: &[Option<Real>]) -> (r: Result<
    Command<String>,
    String,
>)
    requires
        numbers@.len() == args@.len(),
    ensures
        agrees(
            r,
            match cli_options::scan(
                CommandKind::Receiver,
                args@,
                numbers@,
                0,
                OptionsModel::unset(),
            ) {
                Ok(Some(o)) => receiver_command(o),
                Ok(None) => Ok(Command::Help),
                Err(error) => Err(error),
            },
        ),
{
    let o: Options = match scan_options(CommandKind::Receiver, args, numbers)? {
        Some(o) => o,
        None => {
            return Ok(Command::Help);
        },
    };
    Ok(
        Command::Receiver {
            bind: text_or(o.texts.bind, "0.0.0.0"),
            port: o.stream.port.unwrap_or(50120),
        },
    )
}

/// The `capture-probe` command with the settings `o`.
pub open spec fn capture_probe_command(o: OptionsModel) -> Result<
    Command<Seq<char>>,
    Seq<char>,
> {
    Ok(
        Command::CaptureProbe {
            duration_sec: o.stream.duration_sec.unwrap_or(10),
            target_fps: o.stream.fps.unwrap_or(30),
        },
    )
}

/// Reads the arguments of `capture-probe`.
pub fn parse_capture_probe_args(args: &[String], numbers: &[Option<Real>]) -> (r: Result<
    Command<String>,
    String,
>)
    requires
        numbers@.len() == args@.len(),
    ensures
        agrees(
            r,
            match cli_options::scan(
                CommandKind::CaptureProbe,
                args@,
                numbers@,
                0,
                OptionsModel::unset(),
            ) {
                Ok(Some(o)) => capture_probe_command(o),
                Ok(None) => Ok(Command::Help),
                Err(error) => Err(error),
            },
        ),
{
    let o: Options = match scan_options(CommandKind::CaptureProbe, args, numbers)? {
        Some(o) => o,
        None => {
            return Ok(Command::Help);
        },
    };
    Ok(
        Command::CaptureProbe {
            duration_sec: o.stream.duration_sec.unwrap_or(10),
            target_fps: o.stream.fps.unwrap_or(30),
        },
    )
}

/// The `gpu-convert-probe` command with the settings `o`.
pub open spec fn gpu_convert_probe_command(o: OptionsModel) -> Result<
    Command<Seq<char>>,
    Seq<char>,
> {
    Ok(
        Command::GpuConvertProbe(
            GpuConvertProbeConfig {
                duration_sec: o.stream.duration_sec.unwrap_or(5),
                target_fps: o.stream.fps.unwrap_or(30),
                out_width: o.stream.width.unwrap_or(1280),
                out_height: o.stream.height.unwrap_or(720),
                color_spec: ColorSpec {
                    matrix: o.stream.color_matrix.unwrap_or(ColorMatrix::Bt709),
                },
                debug_dump_nv12: o.texts.debug_dump_nv12,
                debug_dump_bgra: o.texts.debug_dump_bgra,
                debug_dump_limit: o.viewer.debug_dump_limit.unwrap_or(3),
            },
        ),
    )
}

/// Reads the arguments of `gpu-convert-probe`.
pub fn parse_gpu_convert_probe_args(args: &[String], numbers: &[Option<Real>]) -> (r: Result<
    Command<String>,
    String,
>)
    requires
        numbers@.len() == args@.len(),
    ensures
        agrees(
            r,
            match cli_options::scan(
                CommandKind::GpuConvertProbe,
                args@,
                numbers@,
                0,
                OptionsModel::unset(),
            ) {
                Ok(Some(o)) => gpu_convert_probe_command(o),
                Ok(None) => Ok(Command::Help),
                Err(error) => Err(error),
            },
        ),
{
    let o: Options = match scan_options(CommandKind::GpuConvertProbe, args, numbers)? {
        Some(o) => o,
        None => {
            return Ok(Command::Help);
        },
    };
    Ok(
        Command::GpuConvertProbe(
            GpuConvertProbeConfig {
                duration_sec: o.stream.duration_sec.unwrap_or(5),
                target_fps: o.stream.fps.unwrap_or(30),
                out_width: o.stream.width.unwrap_or(1280),
                out_height: o.stream.height.unwrap_or(720),
                color_spec: ColorSpec {
                    matrix: o.stream.color_matrix.unwrap_or(ColorMatrix::Bt709),
                },
                debug_dump_nv12: o.texts.debug_dump_nv12,
                debug_dump_bgra: o.texts.debug_dump_bgra,
                debug_dump_limit: o.viewer.debug_dump_limit.unwrap_or(3),
            },
        ),
    )
}

/// The `encode-probe` command with the settings `o`.
pub open spec fn encode_probe_command(o: OptionsModel) -> Result<
    Command<Seq<char>>,
    Seq<char>,
> {
    Ok(
        Command::EncodeProbe(
            EncodeProbeConfig {
                width: o.stream.width.unwrap_or(1280),
                height: o.stream.height.unwrap_or(720),
                fps: o.stream.fps.unwrap_or(30),
                duration_sec: o.stream.duration_sec.unwrap_or(5),
                bitrate_mbps: o.stream.bitrate.unwrap_or(Real { bits: FOUR_BITS }),
                output: o.texts.output.unwrap_or("synthetic_720p30.h264"@),
                encoder: o.stream.encoder.unwrap_or(EncoderChoice::Auto),
                color_spec: ColorSpec {
                    matrix: o.stream.color_matrix.unwrap_or(ColorMatrix::Bt709),
                },
            },
        ),
    )
}

/// Reads the arguments of `encode-probe`.
pub fn parse_encode_probe_args(args: &[String], numbers: &[Option<Real>]) -> (r: Result<
    Command<String>,
    String,
>)
    requires
        numbers@.len() == args@.len(),
    ensures
        agrees(
            r,
            match cli_options::scan(
                CommandKind::EncodeProbe,
                args@,
                numbers@,
                0,
                OptionsModel::unset(),
            ) {
                Ok(Some(o)) => encode_probe_command(o),
                Ok(None) => Ok(Command::Help),
                Err(error) => Err(error),
            },
        ),
{
    let o: Options = match scan_options(CommandKind::EncodeProbe, args, numbers)? {
        Some(o) => o,
        None => {
            return Ok(Command::Help);
        },
    };
    Ok(
        Command::EncodeProbe(
            EncodeProbeConfig {
                width: o.stream.width.unwrap_or(1280),
                height: o.stream.height.unwrap_or(720),
                fps: o.stream.fps.unwrap_or(30),
                duration_sec: o.stream.duration_sec.unwrap_or(5),
                bitrate_mbps: o.stream.bitrate.unwrap_or(Real { bits: FOUR_BITS }),
                output: text_or(o.texts.output, "synthetic_720p30.h264"),
                encoder: o.stream.encoder.unwrap_or(EncoderChoice::Auto),
                color_spec: ColorSpec {
                    matrix: o.stream.color_matrix.unwrap_or(ColorMatrix::Bt709),
                },
            },
        ),
    )
}

/// The `capture-encode-probe` command with the settings `o`.
pub open spec fn capture_encode_probe_command(
    o: OptionsModel,
    by_quality: Result<Real, Seq<char>>,
) -> Result<
    Command<Seq<char>>,
    Seq<char>,
> {
    let request = bitrate_request(CommandKind::CaptureEncodeProbe, o);
    match BitrateSelection::chosen(request, by_quality) {
        Ok(selection) => {
            Ok(
                Command::CaptureEncodeProbe(
                    CaptureEncodeConfig {
                        duration_sec: Some(o.stream.duration_sec.unwrap_or(5)),
                        target_fps: request.fps,
                        bitrate_mbps: selection.target_mbps,
                        bitrate_selection: selection,
                        out_width: request.width,
                        out_height: request.height,
                        output: o.texts.output.unwrap_or("capture_720p30.h264"@),
                        color_spec: ColorSpec {
                            matrix: o.stream.color_matrix.unwrap_or(ColorMatrix::Bt709),
                        },
                        encoder: o.stream.encoder.unwrap_or(EncoderChoice::Auto),
                        convert_backend: o.stream.convert_backend.unwrap_or(ConvertBackend::Auto),
                        keyframe_interval_sec: None,
                        verbose: true,
                    },
                ),
            )
        },
        Err(error) => Err(error),
    }
}

/// Reads the arguments of `capture-encode-probe`.
pub fn parse_capture_encode_probe_args(
    args: &[String],
    numbers: &[Option<Real>],
    by_quality: &Result<Real, String>,
) -> (r: Result<
    Command<String>,
    String,
>)
    requires
        numbers@.len() == args@.len(),
    ensures
        agrees(
            r,
            match cli_options::scan(
                CommandKind::CaptureEncodeProbe,
                args@,
                numbers@,
                0,
                OptionsModel::unset(),
            ) {
                Ok(Some(o)) => capture_encode_probe_command(o, text::result(*by_quality)),
                Ok(None) => Ok(Command::Help),
                Err(error) => Err(error),
            },
        ),
{
    let o: Options = match scan_options(CommandKind::CaptureEncodeProbe, args, numbers)? {
        Some(o) => o,
        None => {
            return Ok(Command::Help);
        },
    };
    let request: BitrateRequest = build_bitrate_request(CommandKind::CaptureEncodeProbe, &o);
    let selection: BitrateSelection = BitrateSelection::resolve(request, by_quality)?;
    Ok(
        Command::CaptureEncodeProbe(
            CaptureEncodeConfig {
                duration_sec: Some(o.stream.duration_sec.unwrap_or(5)),
                target_fps: request.fps,
                bitrate_mbps: selection.target_mbps,
                bitrate_selection: selection,
                out_width: request.width,
                out_height: request.height,
                output: text_or(o.texts.output, "capture_720p30.h264"),
                color_spec: ColorSpec {
                    matrix: o.stream.color_matrix.unwrap_or(ColorMatrix::Bt709),
                },
                encoder: o.stream.encoder.unwrap_or(EncoderChoice::Auto),
                convert_backend: o.stream.convert_backend.unwrap_or(ConvertBackend::Auto),
                keyframe_interval_sec: None,
                verbose: true,
            },
        ),
    )
}

/// The `h264-send-probe` command with the settings `o`.
pub open spec fn h264_send_probe_command(
    o: OptionsModel,
    by_quality: Result<Real, Seq<char>>,
) -> Result<
    Command<Seq<char>>,
    Seq<char>,
> {
    let request = bitrate_request(CommandKind::H264SendProbe, o);
    match BitrateSelection::chosen(request, by_quality) {
        Ok(selection) => {
            Ok(
                Command::H264SendProbe(
                    H264SendConfig {
                        host: o.texts.host.unwrap_or("127.0.0.1"@),
                        port: o.stream.port.unwrap_or(50130),
                        duration_sec: Some(o.stream.duration_sec.unwrap_or(10)),
                        target_fps: request.fps,
                        bitrate_mbps: selection.target_mbps,
                        bitrate_selection: selection,
                        out_width: request.width,
                        out_height: request.height,
                        color_spec: ColorSpec {
                            matrix: o.stream.color_matrix.unwrap_or(ColorMatrix::Bt709),
                        },
                        encoder: o.stream.encoder.unwrap_or(EncoderChoice::Auto),
                        convert_backend: o.stream.convert_backend.unwrap_or(ConvertBackend::Auto),
                        packet_pacing: o.stream.packet_pacing.unwrap_or(PacketPacing::Auto),
                        fec_mode: o.stream.fec_mode.unwrap_or(FecMode::Off),
                        udp_payload_size: o.stream.udp_payload_size.unwrap_or(1452),
                        keyframe_interval_sec: o.stream.keyframe_interval.unwrap_or(
                            Real { bits: ONE_BITS },
                        ),
                        repair_mode: o.stream.repair_mode.unwrap_or(RepairMode::Off),
                        repair_cache_ms: o.stream.repair_cache_ms.unwrap_or(3000),
                        audio_mode: AudioSendMode::Off,
                        adaptive: adaptive_config(o.adaptive),
                        mode: H264SendMode::Probe,
                        verbose: true,
                    },
                ),
            )
        },
        Err(error) => Err(error),
    }
}

/// Reads the arguments of `h264-send-probe`.
pub fn parse_h264_send_probe_args(
    args: &[String],
    numbers: &[Option<Real>],
    by_quality: &Result<Real, String>,
) -> (r: Result<
    Command<String>,
    String,
>)
    requires
        numbers@.len() == args@.len(),
    ensures
        agrees(
            r,
            match cli_options::scan(
                CommandKind::H264SendProbe,
                args@,
                numbers@,
                0,
                OptionsModel::unset(),
            ) {
                Ok(Some(o)) => h264_send_probe_command(o, text::result(*by_quality)),
                Ok(None) => Ok(Command::Help),
                Err(error) => Err(error),
            },
        ),
{
    let o: Options = match scan_options(CommandKind::H264SendProbe, args, numbers)? {
        Some(o) => o,
        None => {
            return Ok(Command::Help);
        },
    };
    let request: BitrateRequest = build_bitrate_request(CommandKind::H264SendProbe, &o);
    let selection: BitrateSelection = BitrateSelection::resolve(request, by_quality)?;
    Ok(
        Command::H264SendProbe(
            H264SendConfig {
                host: text_or(o.texts.host, "127.0.0.1"),
                port: o.stream.port.unwrap_or(50130),
                duration_sec: Some(o.stream.duration_sec.unwrap_or(10)),
                target_fps: request.fps,
                bitrate_mbps: selection.target_mbps,
                bitrate_selection: selection,
                out_width: request.width,
                out_height: request.height,
                color_spec: ColorSpec {
                    matrix: o.stream.color_matrix.unwrap_or(ColorMatrix::Bt709),
                },
                encoder: o.stream.encoder.unwrap_or(EncoderChoice::Auto),
                convert_backend: o.stream.convert_backend.unwrap_or(ConvertBackend::Auto),
                packet_pacing: o.stream.packet_pacing.unwrap_or(PacketPacing::Auto),
                fec_mode: o.stream.fec_mode.unwrap_or(FecMode::Off),
                udp_payload_size: o.stream.udp_payload_size.unwrap_or(1452),
                keyframe_interval_sec: o.stream.keyframe_interval.unwrap_or(
                    Real { bits: ONE_BITS },
                ),
                repair_mode: o.stream.repair_mode.unwrap_or(RepairMode::Off),
                repair_cache_ms: o.stream.repair_cache_ms.unwrap_or(3000),
                audio_mode: AudioSendMode::Off,
                adaptive: build_adaptive_config(o.adaptive),
                mode: H264SendMode::Probe,
                verbose: true,
            },
        ),
    )
}

/// The `h264-recv-dump` command with the settings `o`.
pub open spec fn h264_recv_dump_command(o: OptionsModel) -> Result<
    Command<Seq<char>>,
    Seq<char>,
> {
    Ok(
        Command::H264RecvDump(
            H264RecvConfig {
                bind: o.texts.bind.unwrap_or("0.0.0.0"@),
                port: o.stream.port.unwrap_or(50130),
                output: o.texts.output.unwrap_or("received_capture.h264"@),
                idle_timeout_sec: o.viewer.idle_timeout_sec.unwrap_or(3),
                drop_damaged_gop: o.viewer.drop_damaged_gop.unwrap_or(true),
                reorder_wait_ms: o.viewer.reorder_wait_ms.unwrap_or(None),
            },
        ),
    )
}

/// Reads the arguments of `h264-recv-dump`.
pub fn parse_h264_recv_dump_args(args: &[String], numbers: &[Option<Real>]) -> (r: Result<
    Command<String>,
    String,
>)
    requires
        numbers@.len() == args@.len(),
    ensures
        agrees(
            r,
            match cli_options::scan(
                CommandKind::H264RecvDump,
                args@,
                numbers@,
                0,
                OptionsModel::unset(),
            ) {
                Ok(Some(o)) => h264_recv_dump_command(o),
                Ok(None) => Ok(Command::Help),
                Err(error) => Err(error),
            },
        ),
{
    let o: Options = match scan_options(CommandKind::H264RecvDump, args, numbers)? {
        Some(o) => o,
        None => {
            return Ok(Command::Help);
        },
    };
    Ok(
        Command::H264RecvDump(
            H264RecvConfig {
                bind: text_or(o.texts.bind, "0.0.0.0"),
                port: o.stream.port.unwrap_or(50130),
                output: text_or(o.texts.output, "received_capture.h264"),
                idle_timeout_sec: o.viewer.idle_timeout_sec.unwrap_or(3),
                drop_damaged_gop: o.viewer.drop_damaged_gop.unwrap_or(true),
                reorder_wait_ms: o.viewer.reorder_wait_ms.unwrap_or(None),
            },
        ),
    )
}

/// The `h264-recv-view` command with the settings `o`.
pub open spec fn h264_recv_view_command(o: OptionsModel) -> Result<
    Command<Seq<char>>,
    Seq<char>,
> {
    match o.stream.port {
        Some(port) => {
            Ok(
                Command::H264RecvView(receiver_config(o, port, false)),
            )
        },
        None => Err("h264-recv-view requires --port <port>"@),
    }
}

/// Reads the arguments of `h264-recv-view`.
pub fn parse_h264_recv_view_args(args: &[String], numbers: &[Option<Real>]) -> (r: Result<
    Command<String>,
    String,
>)
    requires
        numbers@.len() == args@.len(),
    ensures
        agrees(
            r,
            match cli_options::scan(
                CommandKind::H264RecvView,
                args@,
                numbers@,
                0,
                OptionsModel::unset(),
            ) {
                Ok(Some(o)) => h264_recv_view_command(o),
                Ok(None) => Ok(Command::Help),
                Err(error) => Err(error),
            },
        ),
{
    let o: Options = match scan_options(CommandKind::H264RecvView, args, numbers)? {
        Some(o) => o,
        None => {
            return Ok(Command::Help);
        },
    };
    let port: u16 = match o.stream.port {
        Some(port) => port,
        None => {
            return Err("h264-recv-view requires --port <port>".to_string());
        },
    };
    Ok(
        Command::H264RecvView(build_receiver_config(o, port, false)),
    )
}

/// The `screen-send` command with the settings `o`.
pub open spec fn screen_send_command(
    o: OptionsModel,
    by_quality: Result<Real, Seq<char>>,
) -> Result<
    Command<Seq<char>>,
    Seq<char>,
> {
    let request = bitrate_request(CommandKind::ScreenSend, o);
    match BitrateSelection::chosen(request, by_quality) {
        Ok(selection) => {
            match o.texts.host {
                Some(host) => {
                    match o.stream.port {
                        Some(port) => {
                            Ok(
                                Command::ScreenSend(
                                    H264SendConfig {
                                        host,
                                        port,
                                        duration_sec: o.stream.duration_sec,
                                        target_fps: request.fps,
                                        bitrate_mbps: selection.target_mbps,
                                        bitrate_selection: selection,
                                        out_width: request.width,
                                        out_height: request.height,
                                        color_spec: ColorSpec {
                                            matrix: o.stream.color_matrix.unwrap_or(
                                                ColorMatrix::Bt709,
                                            ),
                                        },
                                        encoder: o.stream.encoder.unwrap_or(EncoderChoice::Auto),
                                        convert_backend: o.stream.convert_backend.unwrap_or(
                                            ConvertBackend::Auto,
                                        ),
                                        packet_pacing: o.stream.packet_pacing.unwrap_or(
                                            PacketPacing::Auto,
                                        ),
                                        fec_mode: o.stream.fec_mode.unwrap_or(FecMode::Off),
                                        udp_payload_size: o.stream.udp_payload_size.unwrap_or(1452),
                                        keyframe_interval_sec: o.stream.keyframe_interval.unwrap_or(
                                            Real { bits: ONE_BITS },
                                        ),
                                        repair_mode: o.stream.repair_mode.unwrap_or(
                                            RepairMode::Nack,
                                        ),
                                        repair_cache_ms: o.stream.repair_cache_ms.unwrap_or(3000),
                                        audio_mode: o.stream.audio_mode.unwrap_or(
                                            AudioSendMode::Off,
                                        ),
                                        adaptive: adaptive_config(o.adaptive),
                                        mode: H264SendMode::Screen,
                                        verbose: o.stream.verbose,
                                    },
                                ),
                            )
                        },
                        None => Err("screen-send requires --port <port>"@),
                    }
                },
                None => Err("screen-send requires --host <ip>"@),
            }
        },
        Err(error) => Err(error),
    }
}

/// Reads the arguments of `screen-send`.
pub fn parse_screen_send_args(
    args: &[String],
    numbers: &[Option<Real>],
    by_quality: &Result<Real, String>,
) -> (r: Result<
    Command<String>,
    String,
>)
    requires
        numbers@.len() == args@.len(),
    ensures
        agrees(
            r,
            match cli_options::scan(
                CommandKind::ScreenSend,
                args@,
                numbers@,
                0,
                OptionsModel::unset(),
            ) {
                Ok(Some(o)) => screen_send_command(o, text::result(*by_quality)),
                Ok(None) => Ok(Command::Help),
                Err(error) => Err(error),
            },
        ),
{
    let o: Options = match scan_options(CommandKind::ScreenSend, args, numbers)? {
        Some(o) => o,
        None => {
            return Ok(Command::Help);
        },
    };
    let request: BitrateRequest = build_bitrate_request(CommandKind::ScreenSend, &o);
    let selection: BitrateSelection = BitrateSelection::resolve(request, by_quality)?;
    let host: String = match o.texts.host {
        Some(host) => host,
        None => {
            return Err("screen-send requires --host <ip>".to_string());
        },
    };
    let port: u16 = match o.stream.port {
        Some(port) => port,
        None => {
            return Err("screen-send requires --port <port>".to_string());
        },
    };
    Ok(
        Command::ScreenSend(
            H264SendConfig {
                host,
                port,
                duration_sec: o.stream.duration_sec,
                target_fps: request.fps,
                bitrate_mbps: selection.target_mbps,
                bitrate_selection: selection,
                out_width: request.width,
                out_height: request.height,
                color_spec: ColorSpec {
                    matrix: o.stream.color_matrix.unwrap_or(ColorMatrix::Bt709),
                },
                encoder: o.stream.encoder.unwrap_or(EncoderChoice::Auto),
                convert_backend: o.stream.convert_backend.unwrap_or(ConvertBackend::Auto),
                packet_pacing: o.stream.packet_pacing.unwrap_or(PacketPacing::Auto),
                fec_mode: o.stream.fec_mode.unwrap_or(FecMode::Off),
                udp_payload_size: o.stream.udp_payload_size.unwrap_or(1452),
                keyframe_interval_sec: o.stream.keyframe_interval.unwrap_or(
                    Real { bits: ONE_BITS },
                ),
                repair_mode: o.stream.repair_mode.unwrap_or(RepairMode::Nack),
                repair_cache_ms: o.stream.repair_cache_ms.unwrap_or(3000),
                audio_mode: o.stream.audio_mode.unwrap_or(AudioSendMode::Off),
                adaptive: build_adaptive_config(o.adaptive),
                mode: H264SendMode::Screen,
                verbose: o.stream.verbose,
            },
        ),
    )
}

/// The `screen-recv` command with the settings `o`.
pub open spec fn screen_recv_command(o: OptionsModel) -> Result<
    Command<Seq<char>>,
    Seq<char>,
> {
    match o.stream.port {
        Some(port) => {
            Ok(
                Command::ScreenRecv(receiver_config(o, port, true)),
            )
        },
        None => Err("screen-recv requires --port <port>"@),
    }
}

/// Reads the arguments of `screen-recv`.
pub fn parse_screen_recv_args(args: &[String], numbers: &[Option<Real>]) -> (r: Result<
    Command<String>,
    String,
>)
    requires
        numbers@.len() == args@.len(),
    ensures
        agrees(
            r,
            match cli_options::scan(
                CommandKind::ScreenRecv,
                args@,
                numbers@,
                0,
                OptionsModel::unset(),
            ) {
                Ok(Some(o)) => screen_recv_command(o),
                Ok(None) => Ok(Command::Help),
                Err(error) => Err(error),
            },
        ),
{
    let o: Options = match scan_options(CommandKind::ScreenRecv, args, numbers)? {
        Some(o) => o,
        None => {
            return Ok(Command::Help);
        },
    };
    let port: u16 = match o.stream.port {
        Some(port) => port,
        None => {
            return Err("screen-recv requires --port <port>".to_string());
        },
    };
    Ok(
        Command::ScreenRecv(build_receiver_config(o, port, true)),
    )
}

/// The `h264-file-viewer` command with the settings `o`.
pub open spec fn h264_file_viewer_command(o: OptionsModel) -> Result<
    Command<Seq<char>>,
    Seq<char>,
> {
    match o.texts.input {
        Some(input) => if text::is_blank(input) {
            Err("h264-file-viewer requires --input <path>"@)
        } else {
            Ok(
                Command::H264FileViewer(
                    H264FileViewerConfig {
                        input,
                        render_scale: o.viewer.render_scale.unwrap_or(RenderScaleMode::Exact),
                        window_mode: o.viewer.window_mode.unwrap_or(WindowMode::Windowed),
                        render_backend: o.viewer.render_backend.unwrap_or(RenderBackend::Gdi),
                    },
                ),
            )
        },
        None => Err("h264-file-viewer requires --input <path>"@),
    }
}

/// Reads the arguments of `h264-file-viewer`.
pub fn parse_h264_file_viewer_args(args: &[String], numbers: &[Option<Real>]) -> (r: Result<
    Command<String>,
    String,
>)
    requires
        numbers@.len() == args@.len(),
    ensures
        agrees(
            r,
            match cli_options::scan(
                CommandKind::H264FileViewer,
                args@,
                numbers@,
                0,
                OptionsModel::unset(),
            ) {
                Ok(Some(o)) => h264_file_viewer_command(o),
                Ok(None) => Ok(Command::Help),
                Err(error) => Err(error),
            },
        ),
{
    let o: Options = match scan_options(CommandKind::H264FileViewer, args, numbers)? {
        Some(o) => o,
        None => {
            return Ok(Command::Help);
        },
    };
    let input: String = match o.texts.input {
        Some(input) => input,
        None => {
            return Err("h264-file-viewer requires --input <path>".to_string());
        },
    };
    if is_blank_text(input.as_str()) {
        return Err("h264-file-viewer requires --input <path>".to_string());
    }
    Ok(
        Command::H264FileViewer(
            H264FileViewerConfig {
                input,
                render_scale: o.viewer.render_scale.unwrap_or(RenderScaleMode::Exact),
                window_mode: o.viewer.window_mode.unwrap_or(WindowMode::Windowed),
                render_backend: o.viewer.render_backend.unwrap_or(RenderBackend::Gdi),
            },
        ),
    )
}

/// The `color-test-pattern` command with the settings `o`.
pub open spec fn color_test_pattern_command(o: OptionsModel) -> Result<
    Command<Seq<char>>,
    Seq<char>,
> {
    Ok(
        Command::ColorTestPattern(
            ColorTestPatternConfig {
                output: o.texts.output.unwrap_or("color_test_1080p.h264"@),
                width: o.stream.width.unwrap_or(1920),
                height: o.stream.height.unwrap_or(1080),
                fps: o.stream.fps.unwrap_or(30),
                duration_sec: o.stream.duration_sec.unwrap_or(3),
                bitrate_mbps: o.stream.bitrate.unwrap_or(Real { bits: EIGHT_BITS }),
                color_spec: ColorSpec {
                    matrix: o.stream.color_matrix.unwrap_or(ColorMatrix::Bt709),
                },
            },
        ),
    )
}

/// Reads the arguments of `color-test-pattern`.
pub fn parse_color_test_pattern_args(args: &[String], numbers: &[Option<Real>]) -> (r: Result<
    Command<String>,
    String,
>)
    requires
        numbers@.len() == args@.len(),
    ensures
        agrees(
            r,
            match cli_options::scan(
                CommandKind::ColorTestPattern,
                args@,
                numbers@,
                0,
                OptionsModel::unset(),
            ) {
                Ok(Some(o)) => color_test_pattern_command(o),
                Ok(None) => Ok(Command::Help),
                Err(error) => Err(error),
            },
        ),
{
    let o: Options = match scan_options(CommandKind::ColorTestPattern, args, numbers)? {
        Some(o) => o,
        None => {
            return Ok(Command::Help);
        },
    };
    Ok(
        Command::ColorTestPattern(
            ColorTestPatternConfig {
                output: text_or(o.texts.output, "color_test_1080p.h264"),
                width: o.stream.width.unwrap_or(1920),
                height: o.stream.height.unwrap_or(1080),
                fps: o.stream.fps.unwrap_or(30),
                duration_sec: o.stream.duration_sec.unwrap_or(3),
                bitrate_mbps: o.stream.bitrate.unwrap_or(Real { bits: EIGHT_BITS }),
                color_spec: ColorSpec {
                    matrix: o.stream.color_matrix.unwrap_or(ColorMatrix::Bt709),
                },
            },
        ),
    )
}

/// The `bench-reassembly` command with the settings `o`.
pub open spec fn bench_reassembly_command(o: OptionsModel) -> Result<
    Command<Seq<char>>,
    Seq<char>,
> {
    Ok(
        Command::BenchReassembly(
            BenchReassemblyConfig {
                frames: o.probe.frames.unwrap_or(1800),
                packets_per_frame: o.probe.packets_per_frame.unwrap_or(120),
                payload_size: o.probe.payload_size.unwrap_or(1414),
                loss_rate: o.probe.loss_rate.unwrap_or(Real { bits: ZERO_BITS }),
            },
        ),
    )
}

/// Reads the arguments of `bench-reassembly`.
pub fn parse_bench_reassembly_args(args: &[String], numbers: &[Option<Real>]) -> (r: Result<
    Command<String>,
    String,
>)
    requires
        numbers@.len() == args@.len(),
    ensures
        agrees(
            r,
            match cli_options::scan(
                CommandKind::BenchReassembly,
                args@,
                numbers@,
                0,
                OptionsModel::unset(),
            ) {
                Ok(Some(o)) => bench_reassembly_command(o),
                Ok(None) => Ok(Command::Help),
                Err(error) => Err(error),
            },
        ),
{
    let o: Options = match scan_options(CommandKind::BenchReassembly, args, numbers)? {
        Some(o) => o,
        None => {
            return Ok(Command::Help);
        },
    };
    Ok(
        Command::BenchReassembly(
            BenchReassemblyConfig {
                frames: o.probe.frames.unwrap_or(1800),
                packets_per_frame: o.probe.packets_per_frame.unwrap_or(120),
                payload_size: o.probe.payload_size.unwrap_or(1414),
                loss_rate: o.probe.loss_rate.unwrap_or(Real { bits: ZERO_BITS }),
            },
        ),
    )
}

/// The `audio-capture-probe` command with the settings `o`.
pub open spec fn audio_capture_probe_command(o: OptionsModel) -> Result<
    Command<Seq<char>>,
    Seq<char>,
> {
    Ok(
        Command::AudioCaptureProbe(
            AudioCaptureProbeConfig {
                duration_sec: o.stream.duration_sec.unwrap_or(10),
                output: o.texts.output.unwrap_or("audio_probe.pcm"@),
            },
        ),
    )
}

/// Reads the arguments of `audio-capture-probe`.
pub fn parse_audio_capture_probe_args(args: &[String], numbers: &[Option<Real>]) -> (r: Result<
    Command<String>,
    String,
>)
    requires
        numbers@.len() == args@.len(),
    ensures
        agrees(
            r,
            match cli_options::scan(
                CommandKind::AudioCaptureProbe,
                args@,
                numbers@,
                0,
                OptionsModel::unset(),
            ) {
                Ok(Some(o)) => audio_capture_probe_command(o),
                Ok(None) => Ok(Command::Help),
                Err(error) => Err(error),
            },
        ),
{
    let o: Options = match scan_options(CommandKind::AudioCaptureProbe, args, numbers)? {
        Some(o) => o,
        None => {
            return Ok(Command::Help);
        },
    };
    Ok(
        Command::AudioCaptureProbe(
            AudioCaptureProbeConfig {
                duration_sec: o.stream.duration_sec.unwrap_or(10),
                output: text_or(o.texts.output, "audio_probe.pcm"),
            },
        ),
    )
}

/// The `audio-send` command with the settings `o`.
pub open spec fn audio_send_command(o: OptionsModel) -> Result<
    Command<Seq<char>>,
    Seq<char>,
> {
    match o.texts.host {
        Some(host) => {
            match o.stream.port {
                Some(port) => {
                    Ok(
                        Command::AudioSend(
                            AudioSendConfig {
                                host,
                                port,
                                duration_sec: o.stream.duration_sec,
                                frame_ms: o.probe.frame_ms.unwrap_or(10),
                            },
                        ),
                    )
                },
                None => Err("audio-send requires --port"@),
            }
        },
        None => Err("audio-send requires --host"@),
    }
}

/// Reads the arguments of `audio-send`.
pub fn parse_audio_send_args(args: &[String], numbers: &[Option<Real>]) -> (r: Result<
    Command<String>,
    String,
>)
    requires
        numbers@.len() == args@.len(),
    ensures
        agrees(
            r,
            match cli_options::scan(
                CommandKind::AudioSend,
                args@,
                numbers@,
                0,
                OptionsModel::unset(),
            ) {
                Ok(Some(o)) => audio_send_command(o),
                Ok(None) => Ok(Command::Help),
                Err(error) => Err(error),
            },
        ),
{
    let o: Options = match scan_options(CommandKind::AudioSend, args, numbers)? {
        Some(o) => o,
        None => {
            return Ok(Command::Help);
        },
    };
    let host: String = match o.texts.host {
        Some(host) => host,
        None => {
            return Err("audio-send requires --host".to_string());
        },
    };
    let port: u16 = match o.stream.port {
        Some(port) => port,
        None => {
            return Err("audio-send requires --port".to_string());
        },
    };
    Ok(
        Command::AudioSend(
            AudioSendConfig {
                host,
                port,
                duration_sec: o.stream.duration_sec,
                frame_ms: o.probe.frame_ms.unwrap_or(10),
            },
        ),
    )
}

/// The `audio-recv-play` command with the settings `o`.
pub open spec fn audio_recv_play_command(o: OptionsModel) -> Result<
    Command<Seq<char>>,
    Seq<char>,
> {
    match o.stream.port {
        Some(port) => {
            Ok(
                Command::AudioRecvPlay(
                    AudioRecvPlayConfig {
                        bind: o.texts.bind.unwrap_or("0.0.0.0"@),
                        port,
                        duration_sec: o.stream.duration_sec,
                        jitter_buffer_ms: o.viewer.jitter_buffer_ms.unwrap_or(120),
                    },
                ),
            )
        },
        None => Err("audio-recv-play requires --port"@),
    }
}

/// Reads the arguments of `audio-recv-play`.
pub fn parse_audio_recv_play_args(args: &[String], numbers: &[Option<Real>]) -> (r: Result<
    Command<String>,
    String,
>)
    requires
        numbers@.len() == args@.len(),
    ensures
        agrees(
            r,
            match cli_options::scan(
                CommandKind::AudioRecvPlay,
                args@,
                numbers@,
                0,
                OptionsModel::unset(),
            ) {
                Ok(Some(o)) => audio_recv_play_command(o),
                Ok(None) => Ok(Command::Help),
                Err(error) => Err(error),
            },
        ),
{
    let o: Options = match scan_options(CommandKind::AudioRecvPlay, args, numbers)? {
        Some(o) => o,
        None => {
            return Ok(Command::Help);
        },
    };
    let port: u16 = match o.stream.port {
        Some(port) => port,
        None => {
            return Err("audio-recv-play requires --port".to_string());
        },
    };
    Ok(
        Command::AudioRecvPlay(
            AudioRecvPlayConfig {
                bind: text_or(o.texts.bind, "0.0.0.0"),
                port,
                duration_sec: o.stream.duration_sec,
                jitter_buffer_ms: o.viewer.jitter_buffer_ms.unwrap_or(120),
            },
        ),
    )
}

/// The command of kind `kind` with the settings `o`.
pub open spec fn command_of(
    kind: CommandKind,
    o: OptionsModel,
    by_quality: Result<Real, Seq<char>>,
) -> Result<Command<Seq<char>>, Seq<char>> {
    match kind {
        CommandKind::Sender => sender_command(o),
        CommandKind::Receiver => receiver_command(o),
        CommandKind::CaptureProbe => capture_probe_command(o),
        CommandKind::GpuConvertProbe => gpu_convert_probe_command(o),
        CommandKind::EncodeProbe => encode_probe_command(o),
        CommandKind::CaptureEncodeProbe => capture_encode_probe_command(o, by_quality),
        CommandKind::H264SendProbe => h264_send_probe_command(o, by_quality),
        CommandKind::H264RecvDump => h264_recv_dump_command(o),
        CommandKind::H264RecvView => h264_recv_view_command(o),
        CommandKind::ScreenSend => screen_send_command(o, by_quality),
        CommandKind::ScreenRecv => screen_recv_command(o),
        CommandKind::H264FileViewer => h264_file_viewer_command(o),
        CommandKind::ColorTestPattern => color_test_pattern_command(o),
        CommandKind::BenchReassembly => bench_reassembly_command(o),
        CommandKind::AudioCaptureProbe => audio_capture_probe_command(o),
        CommandKind::AudioSend => audio_send_command(o),
        CommandKind::AudioRecvPlay => audio_recv_play_command(o),
    }
}

/// What the arguments `args` ask for.
pub open spec fn command(
    args: Seq<String>,
    numbers: Seq<Option<Real>>,
    by_quality: Result<Real, Seq<char>>,
) -> Result<Command<Seq<char>>, Seq<char>> {
    if args.len() == 0 {
        Ok(Command::Help)
    } else {
        let word = args[0]@;
        if word == "-h"@ || word == "--help"@ || word == "help"@ {
            Ok(Command::Help)
        } else if word == "self-test"@ {
            if args.len() == 1 {
                Ok(Command::SelfTest)
            } else {
                Err("self-test does not accept extra arguments"@)
            }
        } else if word == "wmf-probe"@ {
            if args.len() == 1 {
                Ok(Command::WmfProbe)
            } else {
                Err("wmf-probe does not accept extra arguments"@)
            }
        } else {
            match CommandKind::named(word) {
                Some(kind) => match cli_options::scan(
                    kind,
                    args.skip(1),
                    numbers.skip(1),
                    0,
                    OptionsModel::unset(),
                ) {
                    Ok(Some(o)) => command_of(kind, o, by_quality),
                    Ok(None) => Ok(Command::Help),
                    Err(error) => Err(error),
                },
                None => Err("unknown command: "@ + word),
            }
        }
    }
}

/// Reads the arguments of the program.  `numbers` holds the real number that each
/// argument spells, if it spells one, and `by_quality` the bitrate that the request
/// of `quality_request` comes to.
pub fn parse_args(
    args: &[String],
    numbers: &[Option<Real>],
    by_quality: &Result<Real, String>,
) -> (r: Result<Command<String>, String>)
    requires
        numbers@.len() == args@.len(),
    ensures
        agrees(r, command(args@, numbers@, text::result(*by_quality))),
{
    if args.len() == 0 {
        return Ok(Command::Help);
    }
    let word: &str = args[0].as_str();
    if same_text(word, "-h") || same_text(word, "--help") || same_text(word, "help") {
        return Ok(Command::Help);
    }
    if same_text(word, "self-test") {
        return if args.len() == 1 {
            Ok(Command::SelfTest)
        } else {
            Err("self-test does not accept extra arguments".to_string())
        };
    }
    if same_text(word, "wmf-probe") {
        return if args.len() == 1 {
            Ok(Command::WmfProbe)
        } else {
            Err("wmf-probe does not accept extra arguments".to_string())
        };
    }
    let rest: &[String] = slice_subrange(args, 1, args.len());
    let values: &[Option<Real>] = slice_subrange(numbers, 1, numbers.len());
    assert(rest@ =~= args@.skip(1));
    assert(values@ =~= numbers@.skip(1));
    match CommandKind::find(word) {
        Some(kind) => match kind {
            CommandKind::Sender => parse_sender_args(rest, values),
            CommandKind::Receiver => parse_receiver_args(rest, values),
            CommandKind::CaptureProbe => parse_capture_probe_args(rest, values),
            CommandKind::GpuConvertProbe => parse_gpu_convert_probe_args(rest, values),
            CommandKind::EncodeProbe => parse_encode_probe_args(rest, values),
            CommandKind::CaptureEncodeProbe => parse_capture_encode_probe_args(
                rest,
                values,
                by_quality,
            ),
            CommandKind::H264SendProbe => parse_h264_send_probe_args(rest, values, by_quality),
            CommandKind::H264RecvDump => parse_h264_recv_dump_args(rest, values),
            CommandKind::H264RecvView => parse_h264_recv_view_args(rest, values),
            CommandKind::ScreenSend => parse_screen_send_args(rest, values, by_quality),
            CommandKind::ScreenRecv => parse_screen_recv_args(rest, values),
            CommandKind::H264FileViewer => parse_h264_file_viewer_args(rest, values),
            CommandKind::ColorTestPattern => parse_color_test_pattern_args(rest, values),
            CommandKind::BenchReassembly => parse_bench_reassembly_args(rest, values),
            CommandKind::AudioCaptureProbe => parse_audio_capture_probe_args(rest, values),
            CommandKind::AudioSend => parse_audio_send_args(rest, values),
            CommandKind::AudioRecvPlay => parse_audio_recv_play_args(rest, values),
        },
        None => Err("unknown command: ".to_string().concat(word)),
    }
}

/// What the arguments ask to be turned into a bitrate: the size, the frame rate and the
/// bits per pixel of a command that sends or encodes, where they decide.
pub open spec fn quality_question(args: Seq<String>, numbers: Seq<Option<Real>>) -> Option<
    BitrateRequest,
> {
    if args.len() == 0 {
        None
    } else {
        match CommandKind::named(args[0]@) {
            Some(kind) => if kind == CommandKind::CaptureEncodeProbe || kind
                == CommandKind::H264SendProbe || kind == CommandKind::ScreenSend {
                match cli_options::scan(
                    kind,
                    args.skip(1),
                    numbers.skip(1),
                    0,
                    OptionsModel::unset(),
                ) {
                    Ok(Some(o)) => if o.stream.bitrate is None && o.stream.quality_bpf is Some {
                        Some(bitrate_request(kind, o))
                    } else {
                        None
                    },
                    _ => None,
                }
            } else {
                None
            },
            None => None,
        }
    }
}

/// Finds what has to be turned into a bitrate before the arguments are read.
pub fn quality_request(args: &[String], numbers: &[Option<Real>]) -> (r: Option<BitrateRequest>)
    requires
        numbers@.len() == args@.len(),
    ensures
        r == quality_question(args@, numbers@),
{
    if args.len() == 0 {
        return None;
    }
    let kind: CommandKind = match CommandKind::find(args[0].as_str()) {
        Some(kind) => kind,
        None => {
            return None;
        },
    };
    if kind != CommandKind::CaptureEncodeProbe && kind != CommandKind::H264SendProbe && kind
        != CommandKind::ScreenSend {
        return None;
    }
    let rest: &[String] = slice_subrange(args, 1, args.len());
    let values: &[Option<Real>] = slice_subrange(numbers, 1, numbers.len());
    assert(rest@ =~= args@.skip(1));
    assert(values@ =~= numbers@.skip(1));
    match scan_options(kind, rest, values) {
        Ok(Some(o)) => if o.stream.bitrate.is_none() && o.stream.quality_bpf.is_some() {
            Some(build_bitrate_request(kind, &o))
        } else {
            None
        },
        _ => None,
    }
}

// What holds of every command line.

/// What a quality comes to matters only where the arguments ask for it.
pub proof fn law_quality_only_where_asked(
    args: Seq<String>,
    numbers: Seq<Option<Real>>,
    one: Result<Real, Seq<char>>,
    other: Result<Real, Seq<char>>,
)
    requires
        quality_question(args, numbers) is None,
    ensures
        command(args, numbers, one) == command(args, numbers, other),
{
}

/// With a host and a port alone, a screen is sent as 1920x1080 at 60 frames per second
/// and 22 megabits per second, with repair on request, and nothing adapts.
pub proof fn law_screen_send_defaults(
    host: Seq<char>,
    port: u16,
    by_quality: Result<Real, Seq<char>>,
)
    ensures
        ({
            let unset = OptionsModel::unset();
            let set = OptionsModel {
                texts: cli_options::TextOptions { host: Some(host), ..unset.texts },
                stream: cli_options::StreamOptions { port: Some(port), ..unset.stream },
                ..unset
            };
            screen_send_command(set, by_quality) matches Ok(Command::ScreenSend(config))
                && config.host == host && config.port == port && config.duration_sec is None
                && config.out_width == 1920 && config.out_height == 1080 && config.target_fps == 60
                && config.bitrate_mbps == (Real { bits: TWENTY_TWO_BITS })
                && config.bitrate_selection.source == crate::bitrate::BitrateSource::Default
                && config.repair_mode == RepairMode::Nack && config.encoder == EncoderChoice::Auto
                && config.convert_backend == ConvertBackend::Auto && config.audio_mode
                == AudioSendMode::Off && config.adaptive == AdaptiveRuntimeConfig::standard()
        }),
{
}

/// An explicit bitrate is the bitrate of the screen, whatever else is set.
pub proof fn law_screen_send_keeps_explicit_bitrate(
    set: OptionsModel,
    by_quality: Result<Real, Seq<char>>,
)
    requires
        set.stream.bitrate is Some,
        screen_send_command(set, by_quality) is Ok,
    ensures
        screen_send_command(set, by_quality)->Ok_0 matches Command::ScreenSend(config)
            && config.bitrate_mbps == set.stream.bitrate->0,
{
}

/// Where no bitrate is set, a quality decides the bitrate of the screen, and where neither
/// is set it is 22 megabits per second.
pub proof fn law_screen_send_quality_before_default(
    set: OptionsModel,
    by_quality: Result<Real, Seq<char>>,
)
    requires
        set.stream.bitrate is None,
        screen_send_command(set, by_quality) is Ok,
    ensures
        screen_send_command(set, by_quality)->Ok_0 matches Command::ScreenSend(config)
            && config.bitrate_mbps == if set.stream.quality_bpf is Some {
            by_quality->Ok_0
        } else {
            Real { bits: TWENTY_TWO_BITS }
        },
{
}

/// Without sound, pictures wait for no sound, whatever is asked for; with sound they do
/// unless it is switched off, and they come later unless a delay is set.
pub proof fn law_screen_recv_sound(set: OptionsModel, port: u16)
    ensures
        ({
            let config = receiver_config(set, port, true);
            &&& config.audio_mode == AudioRecvMode::Off ==> config.av_sync_mode == AvSyncMode::Off
            &&& config.audio_mode == AudioRecvMode::On && set.viewer.av_sync_mode is None
                ==> config.av_sync_mode == AvSyncMode::Conservative
            &&& set.viewer.playout_delay_ms is None ==> config.playout_delay_ms == if config.audio_mode
                == AudioRecvMode::On {
                250u64
            } else {
                120u64
            }
            &&& set.viewer.playout_delay_ms matches Some(delay) ==> config.playout_delay_ms == delay
        }),
{
}

/// A screen is sent to the host and port that are asked for, in the size and at the frame
/// rate that are asked for; each has its standard only where it is not set.
pub proof fn law_screen_send_keeps_the_picture(
    set: OptionsModel,
    by_quality: Result<Real, Seq<char>>,
)
    requires
        screen_send_command(set, by_quality) is Ok,
    ensures
        screen_send_command(set, by_quality)->Ok_0 is ScreenSend,
        ({
            let config = screen_send_command(set, by_quality)->Ok_0->ScreenSend_0;
            &&& set.stream.width matches Some(width) ==> config.out_width == width
            &&& set.stream.width is None ==> config.out_width == 1920
            &&& set.stream.height matches Some(height) ==> config.out_height == height
            &&& set.stream.height is None ==> config.out_height == 1080
            &&& set.stream.fps matches Some(fps) ==> config.target_fps == fps
            &&& set.stream.fps is None ==> config.target_fps == 60
            &&& set.texts.host == Some(config.host)
            &&& set.stream.port == Some(config.port)
            &&& config.duration_sec == set.stream.duration_sec
            &&& config.verbose == set.stream.verbose
            &&& config.mode == H264SendMode::Screen
        }),
{
}

/// Every other setting of a screen that is asked for is the one that is used.
pub proof fn law_screen_send_keeps_what_is_set(
    set: OptionsModel,
    by_quality: Result<Real, Seq<char>>,
)
    requires
        screen_send_command(set, by_quality) is Ok,
    ensures
        ({
            let config = screen_send_command(set, by_quality)->Ok_0->ScreenSend_0;
            &&& set.stream.color_matrix matches Some(v) ==> config.color_spec.matrix == v
            &&& set.stream.color_matrix is None ==> config.color_spec.matrix == ColorMatrix::Bt709
            &&& set.stream.encoder matches Some(v) ==> config.encoder == v
            &&& set.stream.convert_backend matches Some(v) ==> config.convert_backend == v
            &&& set.stream.packet_pacing matches Some(v) ==> config.packet_pacing == v
            &&& set.stream.packet_pacing is None ==> config.packet_pacing == PacketPacing::Auto
            &&& set.stream.fec_mode matches Some(v) ==> config.fec_mode == v
            &&& set.stream.fec_mode is None ==> config.fec_mode == FecMode::Off
            &&& set.stream.udp_payload_size matches Some(v) ==> config.udp_payload_size == v
            &&& set.stream.udp_payload_size is None ==> config.udp_payload_size == 1452
            &&& set.stream.keyframe_interval matches Some(v) ==> config.keyframe_interval_sec == v
            &&& set.stream.keyframe_interval is None ==> config.keyframe_interval_sec.bits
                == 0x3ff0_0000_0000_0000
            &&& set.stream.repair_mode matches Some(v) ==> config.repair_mode == v
            &&& set.stream.repair_mode is None ==> config.repair_mode == RepairMode::Nack
            &&& set.stream.repair_cache_ms matches Some(v) ==> config.repair_cache_ms == v
            &&& set.stream.repair_cache_ms is None ==> config.repair_cache_ms == 3000
            &&& set.stream.audio_mode matches Some(v) ==> config.audio_mode == v
            &&& set.stream.audio_mode is None ==> config.audio_mode == AudioSendMode::Off
        }),
{
}

/// The settings of the adaptive sender that are asked for are those that are used, with the
/// standard for the others.
pub proof fn law_adaptive_settings_are_kept(set: AdaptiveOptions)
    ensures
        ({
            let config = adaptive_config(set);
            &&& config.quality.mode == match set.mode {
                Some(v) => v,
                None => AdaptiveMode::Off,
            }
            &&& config.quality.min_width == match set.min_width {
                Some(v) => v,
                None => 1280,
            }
            &&& config.quality.min_height == match set.min_height {
                Some(v) => v,
                None => 720,
            }
            &&& config.quality.min_fps == match set.min_fps {
                Some(v) => v,
                None => 30,
            }
            &&& config.quality.max_bitrate_mbps == set.max_bitrate
            &&& config.quality.upgrade_stable_sec == match set.upgrade_stable_sec {
                Some(v) => v,
                None => 15,
            }
            &&& config.quality.resolution_cooldown_sec == match set.resolution_cooldown_sec {
                Some(v) => v,
                None => 30,
            }
            &&& config.quality.fps_cooldown_sec == match set.fps_cooldown_sec {
                Some(v) => v,
                None => 20,
            }
            &&& config.quality.interactive_lag_guard == match set.interactive_lag_guard {
                Some(v) => v,
                None => true,
            }
            &&& config.max_fps == match set.max_fps {
                Some(v) => v,
                None => MaxFps::Fixed(60),
            }
            &&& config.enable_high_refresh == match set.enable_high_refresh {
                Some(v) => v,
                None => false,
            }
            &&& config.feedback_ms == match set.feedback_ms {
                Some(v) => v,
                None => 1000,
            }
            &&& config.display_refresh_detect == match set.display_refresh_detect {
                Some(v) => v,
                None => DisplayRefreshDetect::Auto,
            }
        }),
{
}

/// The adaptive settings reach both commands that send what is encoded.
pub proof fn law_senders_adapt_as_asked(set: OptionsModel, by_quality: Result<Real, Seq<char>>)
    ensures
        screen_send_command(set, by_quality) matches Ok(Command::ScreenSend(config))
            ==> config.adaptive == adaptive_config(set.adaptive),
        h264_send_probe_command(set, by_quality) matches Ok(Command::H264SendProbe(config))
            ==> config.adaptive == adaptive_config(set.adaptive),
{
}

/// A screen is sent exactly where a host and a port are given and the bitrate is known.
pub proof fn law_screen_send_needs_host_and_port(
    set: OptionsModel,
    by_quality: Result<Real, Seq<char>>,
)
    ensures
        screen_send_command(set, by_quality) is Ok <==> set.texts.host is Some
            && set.stream.port is Some && (set.stream.bitrate is Some || set.stream.quality_bpf is None
            || by_quality is Ok),
        screen_recv_command(set) is Ok <==> set.stream.port is Some,
        screen_recv_command(set) is Ok ==> screen_recv_command(set)->Ok_0 is ScreenRecv,
{
}

/// What a receiver is asked for is what it does, with its standard for what is not set.
pub proof fn law_receivers_keep_what_is_set(set: OptionsModel, port: u16, screen: bool)
    ensures
        ({
            let config = receiver_config(set, port, screen);
            &&& config.port == port
            &&& set.texts.bind matches Some(v) ==> config.bind == v
            &&& set.texts.bind is None ==> config.bind == "0.0.0.0"@
            &&& set.texts.title matches Some(v) ==> config.title == v
            &&& config.debug_dump_frames == set.texts.debug_dump_frames
            &&& set.stream.fps matches Some(v) ==> config.decoder_fps == v
            &&& set.stream.fps is None ==> config.decoder_fps == 30
            &&& set.viewer.frame_timeout_ms matches Some(v) ==> config.frame_timeout_ms == v
            &&& set.viewer.frame_timeout_ms is None ==> config.frame_timeout_ms == 300
            &&& set.viewer.reorder_wait_ms matches Some(v) ==> config.reorder_wait_ms == v
            &&& set.viewer.reorder_wait_ms is None ==> config.reorder_wait_ms is None
            &&& set.viewer.playout_delay_ms matches Some(v) ==> config.playout_delay_ms == v
            &&& set.viewer.max_inflight_frames matches Some(v) ==> config.max_inflight_frames == v
            &&& set.viewer.max_inflight_frames is None ==> config.max_inflight_frames == 120
            &&& set.viewer.max_decode_queue matches Some(v) ==> config.max_decode_queue == v
            &&& set.viewer.max_decode_queue is None ==> config.max_decode_queue == 30
            &&& set.viewer.strict_decode_order matches Some(v) ==> config.strict_decode_order == v
            &&& set.viewer.strict_decode_order is None ==> config.strict_decode_order
            &&& set.viewer.drop_damaged_gop matches Some(v) ==> config.drop_damaged_gop == v
            &&& set.viewer.drop_damaged_gop is None ==> config.drop_damaged_gop
            &&& set.viewer.debug_dump_limit matches Some(v) ==> config.debug_dump_limit == v
            &&& set.viewer.json_interval_ms matches Some(v) ==> config.json_interval_ms == v
            &&& set.viewer.json_interval_ms is None ==> config.json_interval_ms == 1000
            &&& set.viewer.render_scale matches Some(v) ==> config.render_scale == v
            &&& set.viewer.window_mode matches Some(v) ==> config.window_mode == v
            &&& set.viewer.render_backend matches Some(v) ==> config.render_backend == v
            &&& set.stream.repair_mode matches Some(v) ==> config.repair_mode == v
            &&& set.stream.repair_mode is None ==> config.repair_mode == RepairMode::Off
            &&& set.viewer.nack_delay_ms matches Some(v) ==> config.nack_delay_ms == v
            &&& set.viewer.nack_delay_ms is None ==> config.nack_delay_ms == 20
            &&& set.viewer.nack_repeat_ms matches Some(v) ==> config.nack_repeat_ms == v
            &&& set.viewer.nack_repeat_ms is None ==> config.nack_repeat_ms == 20
            &&& set.viewer.nack_max_rounds matches Some(v) ==> config.nack_max_rounds == v
            &&& set.viewer.nack_max_rounds is None ==> config.nack_max_rounds == 3
            &&& set.adaptive.feedback_ms matches Some(v) ==> config.capability_feedback_ms == v
            &&& set.adaptive.feedback_ms is None ==> config.capability_feedback_ms == 1000
            &&& set.adaptive.display_refresh_detect matches Some(v)
                ==> config.display_refresh_detect == v
            &&& config.mode == if screen {
                H264RecvViewMode::Screen
            } else {
                H264RecvViewMode::Probe
            }
            &&& screen ==> config.duration_sec == set.stream.duration_sec && config.verbose
                == set.stream.verbose
            &&& !screen ==> config.duration_sec is None && config.audio_mode == AudioRecvMode::Off
                && config.verbose
        }),
        ({
            let config = receiver_config(set, port, true);
            &&& set.viewer.audio_mode matches Some(v) ==> config.audio_mode == v
            &&& set.viewer.audio_mode is None ==> config.audio_mode == AudioRecvMode::Off
            &&& set.viewer.jitter_buffer_ms matches Some(v) ==> config.audio_jitter_buffer_ms == v
            &&& set.viewer.jitter_buffer_ms is None ==> config.audio_jitter_buffer_ms == 120
            &&& config.audio_mode == AudioRecvMode::On ==> (set.viewer.av_sync_mode matches Some(v)
                ==> config.av_sync_mode == v)
        }),
        screen_recv_command(set) matches Ok(Command::ScreenRecv(config)) ==> config
            == receiver_config(set, set.stream.port->0, true),
        h264_recv_view_command(set) matches Ok(Command::H264RecvView(config)) ==> config
            == receiver_config(set, config.port, false),
{
}

/// The probe of the sender sends what it is asked to send, with its standard for the rest.
pub proof fn law_send_probe_keeps_what_is_set(
    set: OptionsModel,
    by_quality: Result<Real, Seq<char>>,
)
    requires
        h264_send_probe_command(set, by_quality) is Ok,
    ensures
        h264_send_probe_command(set, by_quality)->Ok_0 is H264SendProbe,
        ({
            let config = h264_send_probe_command(set, by_quality)->Ok_0->H264SendProbe_0;
            &&& set.texts.host matches Some(v) ==> config.host == v
            &&& set.texts.host is None ==> config.host == "127.0.0.1"@
            &&& set.stream.port matches Some(v) ==> config.port == v
            &&& set.stream.port is None ==> config.port == 50130
            &&& set.stream.duration_sec matches Some(v) ==> config.duration_sec == Some(v)
            &&& set.stream.duration_sec is None ==> config.duration_sec == Some(10u64)
            &&& set.stream.width matches Some(v) ==> config.out_width == v
            &&& set.stream.width is None ==> config.out_width == 1280
            &&& set.stream.height matches Some(v) ==> config.out_height == v
            &&& set.stream.height is None ==> config.out_height == 720
            &&& set.stream.fps matches Some(v) ==> config.target_fps == v
            &&& set.stream.fps is None ==> config.target_fps == 30
            &&& set.stream.bitrate matches Some(v) ==> config.bitrate_mbps == v
            &&& set.stream.bitrate is None && set.stream.quality_bpf is None
                ==> config.bitrate_mbps.bits == 0x4010_0000_0000_0000
            &&& set.stream.color_matrix matches Some(v) ==> config.color_spec.matrix == v
            &&& set.stream.encoder matches Some(v) ==> config.encoder == v
            &&& set.stream.convert_backend matches Some(v) ==> config.convert_backend == v
            &&& set.stream.packet_pacing matches Some(v) ==> config.packet_pacing == v
            &&& set.stream.packet_pacing is None ==> config.packet_pacing == PacketPacing::Auto
            &&& set.stream.fec_mode matches Some(v) ==> config.fec_mode == v
            &&& set.stream.fec_mode is None ==> config.fec_mode == FecMode::Off
            &&& set.stream.udp_payload_size matches Some(v) ==> config.udp_payload_size == v
            &&& set.stream.udp_payload_size is None ==> config.udp_payload_size == 1452
            &&& set.stream.keyframe_interval matches Some(v) ==> config.keyframe_interval_sec == v
            &&& set.stream.repair_mode matches Some(v) ==> config.repair_mode == v
            &&& set.stream.repair_mode is None ==> config.repair_mode == RepairMode::Off
            &&& set.stream.repair_cache_ms matches Some(v) ==> config.repair_cache_ms == v
            &&& config.mode == H264SendMode::Probe
        }),
{
}

/// What a quality is turned into a bitrate for is the picture that is then sent.
pub proof fn law_quality_is_asked_for_the_picture(
    set: OptionsModel,
    by_quality: Result<Real, Seq<char>>,
)
    ensures
        screen_send_command(set, by_quality) matches Ok(Command::ScreenSend(config)) ==> {
            let asked = bitrate_request(CommandKind::ScreenSend, set);
            &&& asked.width == config.out_width
            &&& asked.height == config.out_height
            &&& asked.fps == config.target_fps
            &&& asked.quality_bpf == set.stream.quality_bpf
        },
        h264_send_probe_command(set, by_quality) matches Ok(Command::H264SendProbe(config)) ==> {
            let asked = bitrate_request(CommandKind::H264SendProbe, set);
            &&& asked.width == config.out_width
            &&& asked.height == config.out_height
            &&& asked.fps == config.target_fps
            &&& asked.quality_bpf == set.stream.quality_bpf
        },
{
}

/// A conversion is tried as it is asked for; each setting has its standard only where it is
/// not set.
pub proof fn law_gpu_convert_probe_keeps_what_is_set(set: OptionsModel)
    ensures
        gpu_convert_probe_command(set) matches Ok(Command::GpuConvertProbe(config)) && ({
            &&& set.stream.duration_sec is Some ==> config.duration_sec == set.stream.duration_sec->0
            &&& set.stream.duration_sec is None ==> config.duration_sec == 5
            &&& set.stream.fps is Some ==> config.target_fps == set.stream.fps->0
            &&& set.stream.fps is None ==> config.target_fps == 30
            &&& set.stream.width is Some ==> config.out_width == set.stream.width->0
            &&& set.stream.width is None ==> config.out_width == 1280
            &&& set.stream.height is Some ==> config.out_height == set.stream.height->0
            &&& set.stream.height is None ==> config.out_height == 720
            &&& set.stream.color_matrix is Some ==> config.color_spec.matrix == set.stream.color_matrix->0
            &&& set.stream.color_matrix is None ==> config.color_spec.matrix == ColorMatrix::Bt709
            &&& set.viewer.debug_dump_limit is Some ==> config.debug_dump_limit == set.viewer.debug_dump_limit->0
            &&& set.viewer.debug_dump_limit is None ==> config.debug_dump_limit == 3
            &&& config.debug_dump_nv12 == set.texts.debug_dump_nv12
            &&& config.debug_dump_bgra == set.texts.debug_dump_bgra
        }),
{
}

/// An encoder is tried as it is asked for; each setting has its standard only where it is not
/// set.
pub proof fn law_encode_probe_keeps_what_is_set(set: OptionsModel)
    ensures
        encode_probe_command(set) matches Ok(Command::EncodeProbe(config)) && ({
            &&& set.stream.width is Some ==> config.width == set.stream.width->0
            &&& set.stream.width is None ==> config.width == 1280
            &&& set.stream.height is Some ==> config.height == set.stream.height->0
            &&& set.stream.height is None ==> config.height == 720
            &&& set.stream.fps is Some ==> config.fps == set.stream.fps->0
            &&& set.stream.fps is None ==> config.fps == 30
            &&& set.stream.duration_sec is Some ==> config.duration_sec == set.stream.duration_sec->0
            &&& set.stream.duration_sec is None ==> config.duration_sec == 5
            &&& set.stream.bitrate is Some ==> config.bitrate_mbps == set.stream.bitrate->0
            &&& set.stream.bitrate is None ==> config.bitrate_mbps.bits == 0x4010_0000_0000_0000
            &&& set.texts.output is Some ==> config.output == set.texts.output->0
            &&& set.texts.output is None ==> config.output == "synthetic_720p30.h264"@
            &&& set.stream.encoder is Some ==> config.encoder == set.stream.encoder->0
            &&& set.stream.encoder is None ==> config.encoder == EncoderChoice::Auto
            &&& set.stream.color_matrix is Some ==> config.color_spec.matrix == set.stream.color_matrix->0
            &&& set.stream.color_matrix is None ==> config.color_spec.matrix == ColorMatrix::Bt709
        }),
{
}

/// Captured pictures are encoded as it is asked for; each setting has its standard only where
/// it is not set.
pub proof fn law_capture_encode_probe_keeps_what_is_set(set: OptionsModel, by_quality: Result<Real, Seq<char>>)
    requires
        set.stream.bitrate is Some || set.stream.quality_bpf is None || by_quality is Ok,
    ensures
        capture_encode_probe_command(set, by_quality) matches Ok(Command::CaptureEncodeProbe(config)) && ({
            &&& set.stream.fps is Some ==> config.target_fps == set.stream.fps->0
            &&& set.stream.fps is None ==> config.target_fps == 30
            &&& set.stream.width is Some ==> config.out_width == set.stream.width->0
            &&& set.stream.width is None ==> config.out_width == 1280
            &&& set.stream.height is Some ==> config.out_height == set.stream.height->0
            &&& set.stream.height is None ==> config.out_height == 720
            &&& set.texts.output is Some ==> config.output == set.texts.output->0
            &&& set.texts.output is None ==> config.output == "capture_720p30.h264"@
            &&& set.stream.color_matrix is Some ==> config.color_spec.matrix == set.stream.color_matrix->0
            &&& set.stream.color_matrix is None ==> config.color_spec.matrix == ColorMatrix::Bt709
            &&& set.stream.encoder is Some ==> config.encoder == set.stream.encoder->0
            &&& set.stream.encoder is None ==> config.encoder == EncoderChoice::Auto
            &&& set.stream.convert_backend is Some ==> config.convert_backend == set.stream.convert_backend->0
            &&& set.stream.convert_backend is None ==> config.convert_backend == ConvertBackend::Auto
            &&& config.duration_sec == Some(set.stream.duration_sec.unwrap_or(5))
            &&& config.keyframe_interval_sec is None
            &&& config.verbose
            &&& config.bitrate_mbps == config.bitrate_selection.target_mbps
            &&& set.stream.bitrate is Some ==> config.bitrate_mbps == set.stream.bitrate->0
        }),
{
}

/// A stream is written to a file as it is asked for; each setting has its standard only where
/// it is not set.
pub proof fn law_recv_dump_keeps_what_is_set(set: OptionsModel)
    ensures
        h264_recv_dump_command(set) matches Ok(Command::H264RecvDump(config)) && ({
            &&& set.texts.bind is Some ==> config.bind == set.texts.bind->0
            &&& set.texts.bind is None ==> config.bind == "0.0.0.0"@
            &&& set.stream.port is Some ==> config.port == set.stream.port->0
            &&& set.stream.port is None ==> config.port == 50130
            &&& set.texts.output is Some ==> config.output == set.texts.output->0
            &&& set.texts.output is None ==> config.output == "received_capture.h264"@
            &&& set.viewer.idle_timeout_sec is Some ==> config.idle_timeout_sec == set.viewer.idle_timeout_sec->0
            &&& set.viewer.idle_timeout_sec is None ==> config.idle_timeout_sec == 3
            &&& set.viewer.drop_damaged_gop is Some ==> config.drop_damaged_gop == set.viewer.drop_damaged_gop->0
            &&& set.viewer.drop_damaged_gop is None ==> config.drop_damaged_gop == true
            &&& set.viewer.reorder_wait_ms is Some ==> config.reorder_wait_ms == set.viewer.reorder_wait_ms->0
            &&& set.viewer.reorder_wait_ms is None ==> config.reorder_wait_ms == None::<u64>
        }),
{
}

/// A file is shown as it is asked for; each setting has its standard only where it is not
/// set.
pub proof fn law_file_viewer_keeps_what_is_set(set: OptionsModel)
    requires
        set.texts.input is Some,
        !text::is_blank(set.texts.input->0),
    ensures
        h264_file_viewer_command(set) matches Ok(Command::H264FileViewer(config)) && ({
            &&& set.viewer.render_scale is Some ==> config.render_scale == set.viewer.render_scale->0
            &&& set.viewer.render_scale is None ==> config.render_scale == RenderScaleMode::Exact
            &&& set.viewer.window_mode is Some ==> config.window_mode == set.viewer.window_mode->0
            &&& set.viewer.window_mode is None ==> config.window_mode == WindowMode::Windowed
            &&& set.viewer.render_backend is Some ==> config.render_backend == set.viewer.render_backend->0
            &&& set.viewer.render_backend is None ==> config.render_backend == RenderBackend::Gdi
            &&& config.input == set.texts.input->0
        }),
{
}

/// A pattern of colors is encoded as it is asked for; each setting has its standard only where
/// it is not set.
pub proof fn law_color_pattern_keeps_what_is_set(set: OptionsModel)
    ensures
        color_test_pattern_command(set) matches Ok(Command::ColorTestPattern(config)) && ({
            &&& set.texts.output is Some ==> config.output == set.texts.output->0
            &&& set.texts.output is None ==> config.output == "color_test_1080p.h264"@
            &&& set.stream.width is Some ==> config.width == set.stream.width->0
            &&& set.stream.width is None ==> config.width == 1920
            &&& set.stream.height is Some ==> config.height == set.stream.height->0
            &&& set.stream.height is None ==> config.height == 1080
            &&& set.stream.fps is Some ==> config.fps == set.stream.fps->0
            &&& set.stream.fps is None ==> config.fps == 30
            &&& set.stream.duration_sec is Some ==> config.duration_sec == set.stream.duration_sec->0
            &&& set.stream.duration_sec is None ==> config.duration_sec == 3
            &&& set.stream.color_matrix is Some ==> config.color_spec.matrix == set.stream.color_matrix->0
            &&& set.stream.color_matrix is None ==> config.color_spec.matrix == ColorMatrix::Bt709
            &&& set.stream.bitrate is Some ==> config.bitrate_mbps == set.stream.bitrate->0
            &&& set.stream.bitrate is None ==> config.bitrate_mbps.bits == 0x4020_0000_0000_0000
        }),
{
}

/// The reassembly is measured as it is asked for; each setting has its standard only where it
/// is not set.
pub proof fn law_bench_keeps_what_is_set(set: OptionsModel)
    ensures
        bench_reassembly_command(set) matches Ok(Command::BenchReassembly(config)) && ({
            &&& set.probe.frames is Some ==> config.frames == set.probe.frames->0
            &&& set.probe.frames is None ==> config.frames == 1800
            &&& set.probe.packets_per_frame is Some ==> config.packets_per_frame == set.probe.packets_per_frame->0
            &&& set.probe.packets_per_frame is None ==> config.packets_per_frame == 120
            &&& set.probe.payload_size is Some ==> config.payload_size == set.probe.payload_size->0
            &&& set.probe.payload_size is None ==> config.payload_size == 1414
            &&& set.probe.loss_rate is Some ==> config.loss_rate == set.probe.loss_rate->0
            &&& set.probe.loss_rate is None ==> config.loss_rate.bits == 0
        }),
{
}

/// Sound is recorded as it is asked for; each setting has its standard only where it is not
/// set.
pub proof fn law_audio_probe_keeps_what_is_set(set: OptionsModel)
    ensures
        audio_capture_probe_command(set) matches Ok(Command::AudioCaptureProbe(config)) && ({
            &&& set.stream.duration_sec is Some ==> config.duration_sec == set.stream.duration_sec->0
            &&& set.stream.duration_sec is None ==> config.duration_sec == 10
            &&& set.texts.output is Some ==> config.output == set.texts.output->0
            &&& set.texts.output is None ==> config.output == "audio_probe.pcm"@
        }),
{
}

/// Sound is sent to the host and port that are asked for; its packets have their standard
/// length only where none is set.
pub proof fn law_audio_send_keeps_what_is_set(set: OptionsModel)
    requires
        set.texts.host is Some,
        set.stream.port is Some,
    ensures
        audio_send_command(set) matches Ok(Command::AudioSend(config)) && ({
            &&& set.probe.frame_ms is Some ==> config.frame_ms == set.probe.frame_ms->0
            &&& set.probe.frame_ms is None ==> config.frame_ms == 10
            &&& config.host == set.texts.host->0
            &&& config.port == set.stream.port->0
            &&& config.duration_sec == set.stream.duration_sec
        }),
{
}

/// Sound is received on the port that is asked for; the rest has its standard only where it is
/// not set.
pub proof fn law_audio_play_keeps_what_is_set(set: OptionsModel)
    requires
        set.stream.port is Some,
    ensures
        audio_recv_play_command(set) matches Ok(Command::AudioRecvPlay(config)) && ({
            &&& set.texts.bind is Some ==> config.bind == set.texts.bind->0
            &&& set.texts.bind is None ==> config.bind == "0.0.0.0"@
            &&& set.viewer.jitter_buffer_ms is Some ==> config.jitter_buffer_ms == set.viewer.jitter_buffer_ms->0
            &&& set.viewer.jitter_buffer_ms is None ==> config.jitter_buffer_ms == 120
            &&& config.port == set.stream.port->0
            &&& config.duration_sec == set.stream.duration_sec
        }),
{
}

/// The synthetic sender and receiver, and the probe of the capture, keep what is set.
pub proof fn law_synthetic_streams_keep_what_is_set(set: OptionsModel)
    ensures
        sender_command(set) matches Ok(Command::Sender { host, port, fps, bitrate_mbps }) && (
        set.texts.host is Some ==> host == set.texts.host->0) && (set.texts.host is None ==> host
            == "127.0.0.1"@) && (set.stream.port is Some ==> port == set.stream.port->0) && (
        set.stream.port is None ==> port == 50120) && (set.stream.fps is Some ==> fps
            == set.stream.fps->0) && (set.stream.fps is None ==> fps == 30) && (
        set.stream.bitrate is Some ==> bitrate_mbps == set.stream.bitrate->0) && (
        set.stream.bitrate is None ==> bitrate_mbps.bits == 0x4010_0000_0000_0000),
        receiver_command(set) matches Ok(Command::Receiver { bind, port }) && (
        set.texts.bind is Some ==> bind == set.texts.bind->0) && (set.texts.bind is None ==> bind
            == "0.0.0.0"@) && (set.stream.port is Some ==> port == set.stream.port->0) && (
        set.stream.port is None ==> port == 50120),
        capture_probe_command(set) matches Ok(Command::CaptureProbe { duration_sec, target_fps })
            && (set.stream.duration_sec is Some ==> duration_sec == set.stream.duration_sec->0) && (
        set.stream.duration_sec is None ==> duration_sec == 10) && (set.stream.fps is Some
            ==> target_fps == set.stream.fps->0) && (set.stream.fps is None ==> target_fps == 30),
{
}

/// What a command cannot do without is asked for by its name.
pub proof fn law_missing_settings_are_asked_for(set: OptionsModel)
    ensures
        set.stream.port is None ==> h264_recv_view_command(set) == Err::<
            Command<Seq<char>>,
            Seq<char>,
        >("h264-recv-view requires --port <port>"@),
        set.stream.port is None ==> screen_recv_command(set) == Err::<
            Command<Seq<char>>,
            Seq<char>,
        >("screen-recv requires --port <port>"@),
        set.texts.input is None || text::is_blank(set.texts.input->0) ==> h264_file_viewer_command(
            set,
        ) == Err::<Command<Seq<char>>, Seq<char>>("h264-file-viewer requires --input <path>"@),
        set.texts.host is None ==> audio_send_command(set) == Err::<Command<Seq<char>>, Seq<char>>(
            "audio-send requires --host"@,
        ),
        set.texts.host is Some && set.stream.port is None ==> audio_send_command(set) == Err::<
            Command<Seq<char>>,
            Seq<char>,
        >("audio-send requires --port"@),
        set.stream.port is None ==> audio_recv_play_command(set) == Err::<
            Command<Seq<char>>,
            Seq<char>,
        >("audio-recv-play requires --port"@),
{
}

/// Every word gives the command of its name, and no other.
pub proof fn law_words_give_their_commands(
    kind: CommandKind,
    set: OptionsModel,
    by_quality: Result<Real, Seq<char>>,
)
    ensures
        command_of(kind, set, by_quality) matches Ok(command) ==> match kind {
            CommandKind::Sender => command is Sender,
            CommandKind::Receiver => command is Receiver,
            CommandKind::CaptureProbe => command is CaptureProbe,
            CommandKind::GpuConvertProbe => command is GpuConvertProbe,
            CommandKind::EncodeProbe => command is EncodeProbe,
            CommandKind::CaptureEncodeProbe => command is CaptureEncodeProbe,
            CommandKind::H264SendProbe => command is H264SendProbe,
            CommandKind::H264RecvDump => command is H264RecvDump,
            CommandKind::H264RecvView => command is H264RecvView,
            CommandKind::ScreenSend => command is ScreenSend,
            CommandKind::ScreenRecv => command is ScreenRecv,
            CommandKind::H264FileViewer => command is H264FileViewer,
            CommandKind::ColorTestPattern => command is ColorTestPattern,
            CommandKind::BenchReassembly => command is BenchReassembly,
            CommandKind::AudioCaptureProbe => command is AudioCaptureProbe,
            CommandKind::AudioSend => command is AudioSend,
            CommandKind::AudioRecvPlay => command is AudioRecvPlay,
        },
{
}

/// A word that begins a command with settings: none of those that stand alone.
pub open spec fn begins_settings(word: Seq<char>, kind: CommandKind) -> bool {
    &&& CommandKind::named(word) == Some(kind)
    &&& word != "-h"@
    &&& word != "--help"@
    &&& word != "help"@
    &&& word != "self-test"@
    &&& word != "wmf-probe"@
}

/// A command line with one more setting at its end gives the command of the settings before
/// it, with that one set.
pub proof fn law_last_setting_reaches_the_command(
    kind: CommandKind,
    args: Seq<String>,
    numbers: Seq<Option<Real>>,
    name: String,
    value: String,
    number: Option<Real>,
    set: OptionsModel,
    by_quality: Result<Real, Seq<char>>,
)
    requires
        args.len() > 0,
        args.len() == numbers.len(),
        begins_settings(args[0]@, kind),
        cli_options::scan(kind, args.skip(1), numbers.skip(1), 0, OptionsModel::unset()) == Ok::<
            Option<OptionsModel>,
            Seq<char>,
        >(Some(set)),
        cli_options::CliOption::named(name@) matches Some(option) && kind.takes(option) && option
            != cli_options::CliOption::Verbose,
    ensures
        command(args, numbers, by_quality) == command_of(kind, set, by_quality),
        command(args + seq![name, value], numbers + seq![None, number], by_quality)
            == match cli_options::set_option(
            kind,
            cli_options::CliOption::named(name@)->0,
            value@,
            number,
            set,
        ) {
            Ok(next) => command_of(kind, next, by_quality),
            Err(error) => Err(error),
        },
{
    let rest = args.skip(1);
    let rest_numbers = numbers.skip(1);
    cli_options::law_last_setting_stands(kind, rest, rest_numbers, name, value, number);
    assert((args + seq![name, value]).skip(1) =~= rest + seq![name, value]);
    assert((numbers + seq![None, number]).skip(1) =~= rest_numbers + seq![None, number]);
    assert((args + seq![name, value])[0] == args[0]);
}

/// The words for screens begin commands with settings.
pub proof fn law_screen_words_begin_settings()
    ensures
        begins_settings("screen-send"@, CommandKind::ScreenSend),
        begins_settings("screen-recv"@, CommandKind::ScreenRecv),
{
    cli_options::law_words_name_their_commands();
    reveal_strlit("screen-send");
    reveal_strlit("screen-recv");
    reveal_strlit("-h");
    reveal_strlit("--help");
    reveal_strlit("help");
    reveal_strlit("self-test");
    reveal_strlit("wmf-probe");
    assert("screen-send"@.len() == 11 && "screen-recv"@.len() == 11 && "-h"@.len() == 2
        && "--help"@.len() == 6 && "help"@.len() == 4 && "self-test"@.len() == 9
        && "wmf-probe"@.len() == 9);
}

/// Words that stand alone: help for nothing at all, and two tests that take no settings.
pub proof fn law_words_that_stand_alone(
    args: Seq<String>,
    numbers: Seq<Option<Real>>,
    by_quality: Result<Real, Seq<char>>,
)
    ensures
        args.len() == 0 ==> command(args, numbers, by_quality) == Ok::<
            Command<Seq<char>>,
            Seq<char>,
        >(Command::Help),
        args.len() > 0 && (args[0]@ == "-h"@ || args[0]@ == "--help"@ || args[0]@ == "help"@)
            ==> command(args, numbers, by_quality) == Ok::<Command<Seq<char>>, Seq<char>>(
            Command::Help,
        ),
        args.len() == 1 && args[0]@ == "self-test"@ ==> command(args, numbers, by_quality) == Ok::<
            Command<Seq<char>>,
            Seq<char>,
        >(Command::SelfTest),
        args.len() == 1 && args[0]@ == "wmf-probe"@ ==> command(args, numbers, by_quality) == Ok::<
            Command<Seq<char>>,
            Seq<char>,
        >(Command::WmfProbe),
        args.len() > 1 && (args[0]@ == "self-test"@ || args[0]@ == "wmf-probe"@) ==> command(
            args,
            numbers,
            by_quality,
        ) is Err,
{
    reveal_strlit("-h");
    reveal_strlit("--help");
    reveal_strlit("help");
    reveal_strlit("self-test");
    reveal_strlit("wmf-probe");
    assert("-h"@.len() == 2 && "--help"@.len() == 6 && "help"@.len() == 4 && "self-test"@.len() == 9
        && "wmf-probe"@.len() == 9 && "self-test"@[0] == 's' && "wmf-probe"@[0] == 'w');
}

} // verus!
