use canister_logs::logs::{
    contains_unicode_escape, format_bytes, format_canister_logs, is_displayable_text,
    normalize_record, render_message, timestamp_seconds,
};
use canister_logs::types::{CanisterLogRecord, EventLog, FetchCanisterLogsResponse};

fn record(idx: u64, timestamp_nanos: u64, content: &[u8]) -> CanisterLogRecord {
    CanisterLogRecord { idx, timestamp_nanos, content: content.to_vec() }
}

fn response(records: Vec<CanisterLogRecord>) -> FetchCanisterLogsResponse {
    FetchCanisterLogsResponse { canister_log_records: records }
}

#[test]
fn empty_response_gives_no_records() {
    let out = format_canister_logs(response(vec![]));
    assert!(out.is_empty());
}

#[test]
fn text_record_is_kept() {
    let out = format_canister_logs(response(vec![record(3, 1_000_000_000, b"hello")]));
    assert_eq!(out.len(), 1);
    assert_eq!(out[0].index, 3);
    assert_eq!(out[0].timestamp, 1);
    assert_eq!(out[0].logs, "hello");
}

#[test]
fn invalid_text_is_shown_as_bytes() {
    let out = format_canister_logs(response(vec![record(0, 0, &[0xFF, 0xFE])]));
    assert_eq!(out[0].logs, "(bytes) 0xfffe");
}

#[test]
fn timestamp_is_truncated_to_seconds() {
    assert_eq!(timestamp_seconds(1_700_000_000_500_000_000), 1_700_000_000);
    assert_eq!(timestamp_seconds(999_999_999), 0);
    assert_eq!(timestamp_seconds(0), 0);
    assert_eq!(timestamp_seconds(u64::MAX), 18_446_744_073);
}

#[test]
fn order_and_indices_are_kept() {
    let out = format_canister_logs(response(vec![
        record(7, 2_000_000_000, b"b"),
        record(2, 1_000_000_000, b"a"),
        record(9, 3_500_000_000, &[0x00]),
    ]));
    let indices: Vec<u64> = out.iter().map(|e| e.index).collect();
    assert_eq!(indices, vec![7, 2, 9]);
    let times: Vec<i64> = out.iter().map(|e| e.timestamp).collect();
    assert_eq!(times, vec![2, 1, 3]);
    assert_eq!(out[1].logs, "a");
}

#[test]
fn control_character_is_shown_as_bytes() {
    // U+0000 renders as `\0`, U+0007 as `\u{7}`.
    assert_eq!(render_message(&vec![0x07]), "(bytes) 0x07");
    assert_eq!(render_message(&b"a\x07b".to_vec()), "(bytes) 0x610762");
    assert_eq!(render_message(&vec![0x00]), "\0");
}

#[test]
fn escaped_newline_is_displayable() {
    assert_eq!(render_message(&b"line\nnext\t\"q\"".to_vec()), "line\nnext\t\"q\"");
}

#[test]
fn printable_non_ascii_text_is_kept() {
    assert_eq!(render_message(&"héllo ✓".as_bytes().to_vec()), "héllo ✓");
}

#[test]
fn empty_payload_is_empty_text() {
    assert_eq!(render_message(&vec![]), "");
}

#[test]
fn format_bytes_is_lowercase_hex() {
    assert_eq!(format_bytes(&[]), "(bytes) 0x");
    assert_eq!(format_bytes(&[0x00, 0x0a, 0xab, 0xff]), "(bytes) 0x000aabff");
}

#[test]
fn escape_marker_is_found() {
    assert!(contains_unicode_escape("\"\\u{7}\""));
    assert!(contains_unicode_escape("\\u{"));
    assert!(!contains_unicode_escape("\\u"));
    assert!(!contains_unicode_escape("u{"));
    assert!(!contains_unicode_escape(""));
}

#[test]
fn displayable_text_predicate() {
    assert!(is_displayable_text("hello"));
    assert!(!is_displayable_text("bell\u{7}"));
    assert!(!is_displayable_text("\u{200b}"));
}

#[test]
fn single_record_normalizes() {
    let e: EventLog = normalize_record(&record(42, 5_999_999_999, b"ok"));
    assert_eq!(e.index, 42);
    assert_eq!(e.timestamp, 5);
    assert_eq!(e.logs, "ok");
}

#[test]
fn event_log_new_keeps_fields() {
    let e = EventLog::new(1, -5, "m".to_string());
    assert_eq!(e.index, 1);
    assert_eq!(e.timestamp, -5);
    assert_eq!(e.logs, "m");
}
