//! The self-tests, and how they are reported.

use agoralink_media::cli_self_test::command_line_self_test;
use agoralink_media::self_test::{
    media_self_test, run_self_test, self_test_failure_json, self_test_success_json,
};

#[test]
fn self_test_success_includes_version_and_capabilities() {
    let output = self_test_success_json("0.1.0");

    assert!(output.contains(r#""type":"SELF_TEST""#));
    assert!(output.contains(r#""ok":true"#));
    assert!(output.contains(r#""version":"0.1.0""#));
    assert!(output.contains(r#""capabilities":{"#));
    assert!(output.contains(r#""hardware_runtime_probe_required":true"#));
}

#[test]
fn the_report_of_a_success_is_complete() {
    assert_eq!(
        self_test_success_json("1.2.3"),
        r#"{"type":"SELF_TEST","ok":true,"version":"1.2.3","packet_format":"AGM1","capabilities":{"screen_send":true,"screen_recv":true,"audio_send":true,"audio_recv_play":true,"hardware_runtime_probe_required":true}}"#
    );
}

#[test]
fn the_report_of_a_failure_is_escaped() {
    assert_eq!(
        self_test_failure_json("a \"b\" \\ c"),
        r#"{"type":"SELF_TEST","ok":false,"error":"a \"b\" \\ c"}"#
    );
}

#[test]
fn the_self_test_passes() {
    assert!(command_line_self_test().is_ok());
    assert!(media_self_test(5).is_ok());
    assert!(run_self_test(0).is_ok());
}
