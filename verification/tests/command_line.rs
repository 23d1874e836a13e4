//! The command line.

use agoralink_media::choices::{
    AdaptiveMode, AvSyncMode, MaxFps, RenderBackend, RenderScaleMode, RepairMode, WindowMode,
};
use agoralink_media::cli::{parse_args, quality_request, Command};
use agoralink_media::cli_values::{
    parse_bitrate, parse_bool, parse_dimension, parse_duration_sec, parse_fps, parse_port,
    parse_reorder_wait_ms, parse_udp_payload_size,
};
use agoralink_media::h264_recv_view::{AudioRecvMode, H264RecvViewConfig};
use agoralink_media::h264_send_probe::{AudioSendMode, H264SendConfig, PacketPacing};
use agoralink_media::real_number::Real;

fn numbers_of(args: &[String]) -> Vec<Option<Real>> {
    args.iter()
        .map(|text| text.parse::<f64>().ok().map(|value| Real { bits: value.to_bits() }))
        .collect()
}

fn value(number: Real) -> f64 {
    f64::from_bits(number.bits)
}

fn parse(words: &[&str]) -> Result<Command<String>, String> {
    let args: Vec<String> = words.iter().map(|word| word.to_string()).collect();
    let numbers = numbers_of(&args);
    let by_quality = match quality_request(&args, &numbers) {
        Some(request) => Ok(Real {
            bits: (f64::from(request.width)
                * f64::from(request.height)
                * f64::from(request.fps)
                * request.quality_bpf.map_or(0.0, value)
                / 1_000_000.0)
                .to_bits(),
        }),
        None => Err("no quality is asked for".to_string()),
    };
    parse_args(&args, &numbers, &by_quality)
}

fn screen_send_config(extra: &[&str]) -> H264SendConfig<String> {
    let mut words = vec!["screen-send", "--host", "127.0.0.1", "--port", "55134"];
    words.extend_from_slice(extra);
    match parse(&words).expect("screen-send arguments should parse") {
        Command::ScreenSend(config) => config,
        other => panic!("expected screen-send command, got {other:?}"),
    }
}

fn screen_recv_config(extra: &[&str]) -> H264RecvViewConfig<String> {
    let mut words = vec!["screen-recv", "--port", "55134"];
    words.extend_from_slice(extra);
    match parse(&words).expect("screen-recv arguments should parse") {
        Command::ScreenRecv(config) => config,
        other => panic!("expected screen-recv command, got {other:?}"),
    }
}

#[test]
fn r4_screen_send_default_is_complete_product_tuple() {
    let config = screen_send_config(&[]);

    assert_eq!((config.out_width, config.out_height), (1920, 1080));
    assert_eq!(config.target_fps, 60);
    assert!((value(config.bitrate_mbps) - 22.0).abs() < f64::EPSILON);
    assert_eq!(config.bitrate_selection.source.name(), "default");
    assert_eq!(config.adaptive.quality.mode, AdaptiveMode::Off);
    assert_eq!(config.repair_mode.name(), "nack");
    assert_eq!(config.encoder.name(), "auto");
    assert_eq!(config.convert_backend.name(), "auto");
}

#[test]
fn r4_explicit_bitrate_overrides_quality_bpf() {
    let config = screen_send_config(&["--bitrate-mbps", "30", "--quality-bpf", "1.0"]);

    assert!((value(config.bitrate_mbps) - 30.0).abs() < f64::EPSILON);
    assert_eq!(config.bitrate_selection.source.name(), "explicit-bitrate");
    assert_eq!(config.bitrate_selection.quality_bpf_requested.map(value), Some(1.0));
}

#[test]
fn r4_explicit_bitrate_is_preserved_with_adaptive_quality_off() {
    let config = screen_send_config(&["--bitrate-mbps", "30", "--adaptive-quality", "off"]);

    assert!((value(config.bitrate_mbps) - 30.0).abs() < f64::EPSILON);
    assert_eq!(config.adaptive.quality.mode, AdaptiveMode::Off);
}

#[test]
fn r4_quality_bpf_is_used_when_explicit_bitrate_is_absent() {
    let config = screen_send_config(&["--quality-bpf", "0.5"]);
    let expected = 1920.0 * 1080.0 * 60.0 * 0.5 / 1_000_000.0;

    assert!((value(config.bitrate_mbps) - expected).abs() < 0.001);
    assert_eq!(config.bitrate_selection.source.name(), "quality-bpf");
}

#[test]
fn words_that_stand_alone() {
    assert!(matches!(parse(&[]), Ok(Command::Help)));
    for word in ["-h", "--help", "help"] {
        assert!(matches!(parse(&[word]), Ok(Command::Help)));
    }
    assert!(matches!(parse(&["self-test"]), Ok(Command::SelfTest)));
    assert!(matches!(parse(&["wmf-probe"]), Ok(Command::WmfProbe)));
    assert_eq!(
        parse(&["self-test", "now"]).unwrap_err(),
        "self-test does not accept extra arguments"
    );
    assert_eq!(
        parse(&["wmf-probe", "now"]).unwrap_err(),
        "wmf-probe does not accept extra arguments"
    );
    assert_eq!(parse(&["dance"]).unwrap_err(), "unknown command: dance");
}

#[test]
fn options_that_cannot_be_read() {
    assert_eq!(
        parse(&["sender", "--jitter-buffer-ms", "5"]).unwrap_err(),
        "unknown sender argument: --jitter-buffer-ms"
    );
    assert_eq!(
        parse(&["receiver", "--nothing", "5"]).unwrap_err(),
        "unknown receiver argument: --nothing"
    );
    assert_eq!(parse(&["sender", "--port"]).unwrap_err(), "missing value for --port");
    assert_eq!(parse(&["sender", "--port", "0"]).unwrap_err(), "port must be greater than zero");
    assert_eq!(parse(&["sender", "--port", "x"]).unwrap_err(), "invalid port: x");
    assert!(matches!(parse(&["sender", "--help"]), Ok(Command::Help)));
}

#[test]
fn the_sender_has_defaults() {
    match parse(&["sender"]).unwrap() {
        Command::Sender { host, port, fps, bitrate_mbps } => {
            assert_eq!(host, "127.0.0.1");
            assert_eq!(port, 50120);
            assert_eq!(fps, 30);
            assert!((value(bitrate_mbps) - 4.0).abs() < f64::EPSILON);
        }
        other => panic!("expected sender command, got {other:?}"),
    }
    match parse(&["receiver", "--bind", "::1"]).unwrap() {
        Command::Receiver { bind, port } => {
            assert_eq!(bind, "::1");
            assert_eq!(port, 50120);
        }
        other => panic!("expected receiver command, got {other:?}"),
    }
}

#[test]
fn the_last_setting_stands() {
    let config = screen_send_config(&["--fps", "30", "--fps", "75", "--verbose"]);
    assert_eq!(config.target_fps, 75);
    assert!(config.verbose);
}

#[test]
fn adaptive_options_are_taken() {
    let config = screen_send_config(&[
        "--adaptive-quality",
        "smoothness",
        "--max-fps",
        "120",
        "--enable-high-refresh",
        "true",
        "--adaptive-feedback-ms",
        "750",
        "--audio",
        "system",
        "--packet-pacing",
        "OFF",
    ]);
    assert_eq!(config.adaptive.quality.mode, AdaptiveMode::Smoothness);
    assert_eq!(config.adaptive.max_fps, MaxFps::Fixed(120));
    assert!(config.adaptive.enable_high_refresh);
    assert_eq!(config.adaptive.feedback_ms, 750);
    assert_eq!(config.audio_mode, AudioSendMode::System);
    assert_eq!(config.packet_pacing, PacketPacing::Off);
}

#[test]
fn sound_delays_pictures_and_silence_frees_them() {
    let silent = screen_recv_config(&["--audio", "off", "--av-sync", "conservative"]);
    assert_eq!(silent.av_sync_mode, AvSyncMode::Off);
    assert_eq!(silent.playout_delay_ms, 120);
    let sounding = screen_recv_config(&["--audio", "on"]);
    assert_eq!(sounding.audio_mode, AudioRecvMode::On);
    assert_eq!(sounding.playout_delay_ms, 250);
    assert_eq!(sounding.av_sync_mode, AvSyncMode::Conservative);
    let chosen = screen_recv_config(&["--audio", "on", "--playout-delay-ms", "30", "--av-sync", "off"]);
    assert_eq!(chosen.playout_delay_ms, 30);
    assert_eq!(chosen.av_sync_mode, AvSyncMode::Off);
}

#[test]
fn the_receiver_of_a_screen_has_defaults() {
    let config = screen_recv_config(&[]);
    assert_eq!(config.bind, "0.0.0.0");
    assert_eq!(config.port, 55134);
    assert_eq!(config.render_scale, RenderScaleMode::Exact);
    assert_eq!(config.window_mode, WindowMode::Windowed);
    assert_eq!(config.render_backend, RenderBackend::D3d11);
    assert_eq!(config.max_inflight_frames, 120);
    assert_eq!(config.max_decode_queue, 30);
    assert_eq!(config.title, "AgoraLink Native Viewer");
    assert_eq!(config.reorder_wait_ms, None);
}

#[test]
fn values_have_bounds() {
    assert_eq!(parse_port("65535"), Ok(65535));
    assert!(parse_port("65536").is_err());
    assert_eq!(parse_fps("240"), Ok(240));
    assert_eq!(parse_fps("241").unwrap_err(), "fps must be between 1 and 240");
    assert_eq!(parse_duration_sec("3600"), Ok(3600));
    assert_eq!(
        parse_duration_sec("0").unwrap_err(),
        "duration-sec must be between 1 and 3600"
    );
    assert_eq!(parse_bool("Yes"), Ok(true));
    assert_eq!(parse_bool("OFF"), Ok(false));
    assert_eq!(parse_bool("maybe").unwrap_err(), "invalid boolean value: maybe");
    assert_eq!(parse_reorder_wait_ms("AUTO"), Ok(None));
    assert_eq!(parse_reorder_wait_ms("42"), Ok(Some(42)));
    assert_eq!(parse_udp_payload_size("+1452"), Ok(1452));
    assert!(parse_udp_payload_size("500").is_err());
    assert_eq!(parse_dimension("1280", "width"), Ok(1280));
    assert_eq!(parse_dimension("1281", "width").unwrap_err(), "width must be even for NV12");
    assert!(parse_bitrate("zero", None).is_err());
}

#[test]
fn choices_are_named() {
    assert_eq!(RepairMode::parse("nack").unwrap(), RepairMode::Nack);
    assert_eq!(RepairMode::Off.name(), "off");
    assert_eq!(WindowMode::parse("borderless-fullscreen").unwrap(), WindowMode::BorderlessFullscreen);
    assert_eq!(MaxFps::parse("auto").unwrap().name(), "auto");
    assert_eq!(MaxFps::parse("90").unwrap().name(), "90");
    assert!(MaxFps::parse("61").is_err());
    assert_eq!(AudioSendMode::parse("loud").unwrap_err(), "invalid audio mode: loud");
    assert_eq!(PacketPacing::Auto.effective_name(), "batch");
    assert!(!PacketPacing::Off.uses_batch());
}

#[test]
fn quality_is_asked_for_where_it_decides() {
    let words = |extra: &[&str]| -> Vec<String> {
        let mut all = vec!["screen-send", "--host", "h", "--port", "1"];
        all.extend_from_slice(extra);
        all.iter().map(|word| word.to_string()).collect()
    };
    let plain = words(&[]);
    assert!(quality_request(&plain, &numbers_of(&plain)).is_none());
    let explicit = words(&["--bitrate-mbps", "30", "--quality-bpf", "1.0"]);
    assert!(quality_request(&explicit, &numbers_of(&explicit)).is_none());
    let asked = words(&["--quality-bpf", "0.5", "--fps", "30"]);
    let request = quality_request(&asked, &numbers_of(&asked)).unwrap();
    assert_eq!((request.width, request.height, request.fps), (1920, 1080, 30));
}
