//! Commands from the standard input.

use agoralink_media::local_control::{
    consume_local_control, json_string_field, json_u64_field, parse_local_stop,
};
use agoralink_media::shutdown::{CancellationToken, StopReason};

fn lines(text: &str) -> Vec<String> {
    text.lines().map(|line| line.to_string()).collect()
}

#[test]
fn valid_gui_stop_cancels_shared_token() {
    let mut token = CancellationToken::new();
    let input = lines("{\"type\":\"LOCAL_STOP\",\"reason\":\"gui_stop\",\"version\":1}\n");
    assert_eq!(consume_local_control(&input, &mut token), Ok(true));
    assert_eq!(token.reason(), Some(StopReason::LocalStop));
}

#[test]
fn unrelated_commands_are_ignored() {
    let mut token = CancellationToken::new();
    let input = lines("{\"type\":\"PING\",\"version\":1}\n");
    assert_eq!(consume_local_control(&input, &mut token), Ok(false));
    assert!(!token.is_cancelled());
}

#[test]
fn malformed_local_stop_is_rejected_without_cancellation() {
    let mut token = CancellationToken::new();
    let input = lines("{\"type\":\"LOCAL_STOP\",\"reason\":\"gui_stop\",\"version\":2}\n");
    assert!(consume_local_control(&input, &mut token).is_err());
    assert!(!token.is_cancelled());
}

#[test]
fn lines_before_the_stop_do_not_matter() {
    let mut token = CancellationToken::new();
    let input = lines(mixed_lines());
    assert_eq!(consume_local_control(&input, &mut token), Ok(true));
    assert_eq!(token.reason(), Some(StopReason::LocalStop));
}

fn mixed_lines() -> &'static str {
    "\n{\"type\":\"PING\"}\nnoise\n{ \"type\" : \"LOCAL_STOP\", \"version\" : 1, \"reason\":\"gui_stop\" }\n"
}

#[test]
fn the_first_reason_stays() {
    let mut token = CancellationToken::new();
    assert!(token.cancel(StopReason::CtrlC));
    let input = lines("{\"type\":\"LOCAL_STOP\",\"reason\":\"gui_stop\",\"version\":1}");
    assert_eq!(consume_local_control(&input, &mut token), Ok(true));
    assert_eq!(token.reason(), Some(StopReason::CtrlC));
}

#[test]
fn fields_are_found() {
    let line = "{\"type\": \"PING\", \"version\" : 42}";
    assert_eq!(json_string_field(line, "type"), Some("PING".to_string()));
    assert_eq!(json_string_field(line, "reason"), None);
    assert_eq!(json_u64_field(line, "version"), Some(42));
    assert_eq!(json_u64_field(line, "type"), None);
    assert!(parse_local_stop(line).is_ok());
}
