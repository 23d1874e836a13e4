//! Pictures, clocks and the buffer that paces pictures.

use agoralink_media::color_spec::{ColorMatrix, ColorSpec};
use agoralink_media::encoded_frame::EncodedFrame;
use agoralink_media::media_clock::{
    duration_to_us, optional_f64_json, optional_u64_json, MediaClock, MediaTimestampUs,
    QpcMediaTimestampMapper, ReceiverMediaClockAnchor, EXACT_DELTA_US,
};
use agoralink_media::nv12_synthetic::{buffer_size, fill_frame};
use agoralink_media::nv12_to_bgra::{
    bgra_size, convert, convert_with_layout, convert_with_layout_and_spec, convert_with_strides,
};
use agoralink_media::playout_buffer::{PlayoutBuffer, MAX_PLAYOUT_DELAY_MS};

const MILLISECOND: u64 = 1_000_000;

fn frame(frame_id: u64, timestamp_ms: u64) -> EncodedFrame {
    EncodedFrame { frame_id, flags: 0, timestamp_ms, bytes: vec![] }
}

#[test]
fn grey_stays_grey() {
    let mut bgra = vec![];
    convert(&[16, 16, 16, 16, 128, 128], 2, 2, &mut bgra).unwrap();
    assert_eq!(bgra, [0, 0, 0, 255].repeat(4));
    convert(&[235, 235, 235, 235, 128, 128], 2, 2, &mut bgra).unwrap();
    assert_eq!(bgra, [255, 255, 255, 255].repeat(4));
}

#[test]
fn strides_and_planes_may_be_apart() {
    let padded = [16, 235, 9, 9, 235, 16, 9, 9, 128, 128, 9, 9];
    let mut bgra = vec![];
    convert_with_strides(&padded, 2, 2, 4, 4, &mut bgra).unwrap();
    let shades: Vec<u8> = bgra.chunks(4).map(|pixel| pixel[0]).collect();
    assert_eq!(shades, vec![0, 255, 255, 0]);
    let apart = [16, 235, 235, 16, 7, 7, 128, 128];
    convert_with_layout(&apart, 2, 2, 2, 2, 6, &mut bgra).unwrap();
    let shades: Vec<u8> = bgra.chunks(4).map(|pixel| pixel[2]).collect();
    assert_eq!(shades, vec![0, 255, 255, 0]);
}

#[test]
fn matrices_differ_in_colour_only() {
    let red = [81, 81, 81, 81, 90, 240];
    let mut older = vec![];
    let mut newer = vec![];
    let bt601 = ColorSpec::with_matrix(ColorMatrix::Bt601);
    let bt709 = ColorSpec::with_matrix(ColorMatrix::Bt709);
    convert_with_layout_and_spec(&red, 2, 2, 2, 2, 4, &mut older, bt601).unwrap();
    convert_with_layout_and_spec(&red, 2, 2, 2, 2, 4, &mut newer, bt709).unwrap();
    assert_ne!(older, newer);
    let grey = [126, 126, 126, 126, 128, 128];
    convert_with_layout_and_spec(&grey, 2, 2, 2, 2, 4, &mut older, bt601).unwrap();
    convert_with_layout_and_spec(&grey, 2, 2, 2, 2, 4, &mut newer, bt709).unwrap();
    assert_eq!(older, newer);
    assert_eq!(&older[..4], &[128, 128, 128, 255]);
}

#[test]
fn pictures_that_do_not_fit_are_refused() {
    let mut bgra = vec![];
    assert!(convert(&[0; 6], 3, 2, &mut bgra).is_err());
    assert!(convert(&[0; 6], 0, 2, &mut bgra).is_err());
    assert!(convert(&[0; 5], 2, 2, &mut bgra).is_err());
    assert_eq!(bgra_size(2, 2), Ok(16));
    assert_eq!(buffer_size(4, 2), Ok(12));
    assert!(buffer_size(3, 2).is_err());
    assert!(fill_frame(&mut [0; 5], 2, 2, 0).is_err());
}

#[test]
fn synthetic_pictures_move() {
    let mut first = vec![0; buffer_size(16, 8).unwrap()];
    let mut second = first.clone();
    fill_frame(&mut first, 16, 8, 0).unwrap();
    fill_frame(&mut second, 16, 8, 1).unwrap();
    assert_ne!(first, second);
    let mut again = vec![9; first.len()];
    fill_frame(&mut again, 16, 8, 0).unwrap();
    assert_eq!(first, again);
}

#[test]
fn the_media_clock_counts_from_its_start() {
    let clock = MediaClock::new(5_000);
    assert_eq!(clock.now_us(5_000), 0);
    assert_eq!(clock.now_us(2_005_000), 2_000);
    assert_eq!(duration_to_us(1_999), 1);
}

#[test]
fn captures_are_mapped_to_the_media_clock() {
    let mut mapper = QpcMediaTimestampMapper::new(Some(10_000_000));
    assert!(mapper.qpc_available());
    assert_eq!(mapper.map_capture_timestamp(0, 40), (40, false));
    assert_eq!(mapper.map_capture_timestamp(1_000, 50), (50, true));
    assert_eq!(mapper.map_capture_timestamp(101_000, 99), (10_050, true));
    assert_eq!(mapper.map_capture_timestamp(999, 70), (70, false));
    assert_eq!(mapper.qpc_errors(), 2);
    let mut missing = QpcMediaTimestampMapper::new(None);
    assert_eq!(missing.map_capture_timestamp(1_000, 50), (50, false));
    assert_eq!(missing.qpc_errors(), 0);
}

#[test]
fn the_anchor_is_set_once() {
    let mut anchor = ReceiverMediaClockAnchor::new(120);
    assert_eq!(anchor.audio_video_timestamp_delta_us(), None);
    anchor.observe_video(MediaTimestampUs(1_000), 50);
    anchor.observe_audio(MediaTimestampUs(900), 60);
    assert_eq!(anchor.first_media_timestamp_us, Some(1_000));
    assert_eq!(anchor.receiver_clock_anchor_us, Some(120_050));
    assert_eq!(anchor.audio_video_timestamp_delta_us(), Some(-100));
    assert_eq!(
        anchor.json_fragment("far"),
        r#""first_media_timestamp_us":1000,"receiver_clock_anchor_us":120050,"audio_video_timestamp_delta_ms":-0.100"#
    );
    assert_eq!(optional_u64_json(None), "null");
    assert_eq!(optional_u64_json(Some(7)), "7");
    assert_eq!(optional_f64_json(Some("1.500")), "1.500");
}

#[test]
fn distances_are_written_as_a_double_would_be() {
    let distance = |audio: u64, video: u64| {
        let mut anchor = ReceiverMediaClockAnchor::new(0);
        anchor.observe_video(MediaTimestampUs(video), 0);
        anchor.observe_audio(MediaTimestampUs(audio), 0);
        let fragment = anchor.json_fragment("far");
        fragment.rsplit(':').next().unwrap().to_string()
    };
    let limit = EXACT_DELTA_US as u64;
    let close = [0, 1, 9, 10, 999, 1_000, 1_001, 123_456_789, limit / 3, limit - 999, limit - 1, limit];
    for size in close {
        let ms = size as f64 / 1000.0;
        assert_eq!(distance(size, 0), format!("{ms:.3}"));
        if size > 0 {
            assert_eq!(distance(0, size), format!("-{ms:.3}"));
        }
    }
    assert_eq!(distance(limit + 1, 0), "far");
    assert_eq!(distance(0, u64::MAX), "far");
    assert_eq!(
        ReceiverMediaClockAnchor::new(0).json_fragment("far"),
        r#""first_media_timestamp_us":null,"receiver_clock_anchor_us":null,"audio_video_timestamp_delta_ms":null"#
    );
}

#[test]
fn pictures_are_paced_by_their_timestamps() {
    let mut buffer = PlayoutBuffer::new(100).unwrap();
    assert_eq!(buffer.delay_ms(), 100);
    buffer.push_frames(vec![frame(1, 0), frame(2, 33)], 0);
    assert_eq!(buffer.len(), 2);
    assert!(buffer.pop_due(99 * MILLISECOND).is_empty());
    let due = buffer.pop_due(100 * MILLISECOND);
    assert_eq!(due.len(), 1);
    assert_eq!(due[0].frame_id, 1);
    assert!(buffer.pop_due(132 * MILLISECOND).is_empty());
    assert_eq!(buffer.pop_due(133 * MILLISECOND)[0].frame_id, 2);
    assert_eq!(buffer.stats().released_frames, 2);
    buffer.push_frames(vec![frame(3, 66)], 140 * MILLISECOND);
    buffer.clear_for_discontinuity();
    assert_eq!(buffer.len(), 0);
    assert_eq!(buffer.stats().dropped_discontinuity_frames, 1);
}

#[test]
fn delays_have_a_bound() {
    assert!(PlayoutBuffer::new(MAX_PLAYOUT_DELAY_MS).is_ok());
    assert!(PlayoutBuffer::new(MAX_PLAYOUT_DELAY_MS + 1).is_err());
}

#[test]
fn self_tests_of_pictures_and_clocks_pass() {
    agoralink_media::nv12_to_bgra::run_self_test().unwrap();
    agoralink_media::media_clock::run_self_test().unwrap();
    agoralink_media::playout_buffer::run_self_test().unwrap();
}
