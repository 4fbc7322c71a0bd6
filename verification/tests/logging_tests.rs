use std::time::Instant;

use proxy_utils::logging::init_global_logger;
use proxy_utils::logging::is_logging_enabled;
use proxy_utils::logging::log_error;
use proxy_utils::logging::log_info;
use proxy_utils::logging::log_request;
use proxy_utils::logging::log_timed;
use proxy_utils::logging::log_warning;
use proxy_utils::render::format_duration;
use proxy_utils::text::sanitize_log_message;

#[test]
fn logger_handle_keeps_flag() {
    assert!(is_logging_enabled(&init_global_logger(true)));
    assert!(!is_logging_enabled(&init_global_logger(false)));
}

#[test]
fn disabled_logger_writes_nothing() {
    let l = init_global_logger(false);
    assert!(log_info(&l, "hello").is_none());
    assert!(log_warning(&l, "op", "warn").is_none());
    assert!(log_error(&l, "op", "err").is_none());
    assert!(log_request(&l, "GET", "/v1/models", None).is_none());
    assert!(log_request(&l, "POST", "/v1/chat", Some("m")).is_none());
    assert!(log_timed(&l, ">>", "op", Instant::now()).is_none());
}

#[test]
fn info_line_is_timestamped_and_sanitized() {
    let l = init_global_logger(true);
    let line = log_info(&l, "hello\u{1}world").unwrap();
    let bytes = line.as_bytes();
    assert_eq!(bytes[0], b'[');
    assert_eq!(bytes[3], b':');
    assert_eq!(bytes[6], b':');
    assert_eq!(bytes[9], b']');
    assert_eq!(bytes[10], b' ');
    assert!(line.ends_with("hello?world"));
}

#[test]
fn warning_line_names_operation_and_text() {
    let l = init_global_logger(true);
    let line = log_warning(&l, "fetch", "slow").unwrap();
    assert!(line.ends_with("fetch: slow"));
}

#[test]
fn error_line_names_operation_and_text() {
    let l = init_global_logger(true);
    let line = log_error(&l, "fetch", "boom").unwrap();
    assert!(line.ends_with("fetch failed: boom"));
}

#[test]
fn request_line_renders_optional_model() {
    let l = init_global_logger(true);
    let with = log_request(&l, "POST", "/v1/chat", Some("llama")).unwrap();
    assert!(with.contains("POST /v1/chat (model: llama)"));
    let without = log_request(&l, "GET", "/v1/models", None).unwrap();
    assert!(without.ends_with("GET /v1/models"));
}

#[test]
fn timed_line_holds_duration() {
    let l = init_global_logger(true);
    let line = log_timed(&l, ">>", "proxy", Instant::now()).unwrap();
    assert!(line.contains(">> proxy | "));
    assert!(line.ends_with('s'));
}

#[test]
fn duration_units_adapt() {
    assert_eq!(format_duration(0), "0.0\u{b5}s");
    assert_eq!(format_duration(500), "0.5\u{b5}s");
    assert_eq!(format_duration(123_456), "123.5\u{b5}s");
    assert_eq!(format_duration(999_949), "999.9\u{b5}s");
    assert_eq!(format_duration(1_000_000), "1.00ms");
    assert_eq!(format_duration(1_500_000), "1.50ms");
    assert_eq!(format_duration(999_994_999), "999.99ms");
    assert_eq!(format_duration(1_000_000_000), "1.00s");
    assert_eq!(format_duration(2_500_000_000), "2.50s");
    assert_eq!(format_duration(61_230_000_000), "61.23s");
}

#[test]
fn sanitize_replaces_control_characters() {
    assert_eq!(sanitize_log_message("a\u{1}b\u{7f}c"), "a?b?c");
    assert_eq!(sanitize_log_message("keep\ttabs\nand\rreturns"), "keep\ttabs\nand\rreturns");
    assert_eq!(sanitize_log_message("plain"), "plain");
}

#[test]
fn sanitize_is_idempotent_on_samples() {
    let samples = ["a\u{1}b", "\u{9b}escape", "ok\n", "\u{0}\u{1f}\u{7f}\u{9f}"];
    for s in samples {
        let once = sanitize_log_message(s);
        let twice = sanitize_log_message(&once);
        assert_eq!(once, twice);
    }
}
