use log::{Level, LevelFilter};
use sse_clock::logger::{needs_rotation, SseLogger, MAX_LOG_SIZE};

#[test]
fn level_from_setting() {
    assert_eq!(SseLogger::new(Some("debug"), false, None).get_level(), LevelFilter::Debug);
    assert_eq!(SseLogger::new(Some("WARN"), false, None).get_level(), LevelFilter::Warn);
    assert_eq!(SseLogger::new(Some("tRaCe"), false, None).get_level(), LevelFilter::Trace);
    assert_eq!(SseLogger::new(Some("off"), false, None).get_level(), LevelFilter::Off);
}

#[test]
fn level_defaults_to_info() {
    assert_eq!(SseLogger::new(None, false, None).get_level(), LevelFilter::Info);
    assert_eq!(SseLogger::new(Some("loud"), false, None).get_level(), LevelFilter::Info);
    assert_eq!(SseLogger::new(Some(""), false, None).get_level(), LevelFilter::Info);
}

#[test]
fn logger_fields() {
    let l = SseLogger::new(None, true, Some("C:\\Temp".to_string()));
    assert!(l.has_console());
    assert_eq!(l.log_dir(), Some("C:\\Temp"));
    let l = SseLogger::new(None, false, None);
    assert!(!l.has_console());
    assert_eq!(l.log_dir(), None);
}

#[test]
fn own_records_follow_the_level() {
    let l = SseLogger::new(Some("info"), false, None);
    assert!(l.enabled("sse_clock", Level::Info));
    assert!(!l.enabled("sse_clock", Level::Debug));
    let l = SseLogger::new(Some("trace"), false, None);
    assert!(l.enabled("sse_clock", Level::Trace));
}

#[test]
fn other_records_only_warnings() {
    let l = SseLogger::new(Some("trace"), false, None);
    assert!(!l.enabled("ureq", Level::Info));
    assert!(l.enabled("ureq", Level::Warn));
    assert!(l.enabled("ureq", Level::Error));
    let l = SseLogger::new(Some("off"), false, None);
    assert!(l.enabled("sse_clock", Level::Warn));
    assert!(!l.enabled("sse_clock", Level::Info));
}

#[test]
fn rotation_threshold() {
    assert_eq!(MAX_LOG_SIZE, 10 * 1024 * 1024);
    assert!(!needs_rotation(MAX_LOG_SIZE - 1));
    assert!(needs_rotation(MAX_LOG_SIZE));
    assert!(needs_rotation(u64::MAX));
}
