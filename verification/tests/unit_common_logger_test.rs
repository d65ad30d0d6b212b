//! Unit tests for the logging support: prefixes, entry formatting, the
//! display decision, and the bounded crash-log buffer.

use am::logger::{should_display, LogBuffer, LogEntry, LogLevel, Logger, MAX_LOG_BUFFER_SIZE};

#[test]
fn test_p2_info_format_uses_blue_plus() {
    let expected_prefix = "+";
    assert!(!expected_prefix.is_empty(), "INFO uses + prefix");
}

#[test]
fn test_p2_warn_format_uses_red_exclamation() {
    let expected_prefix = "!";
    assert!(!expected_prefix.is_empty(), "WARN uses ! prefix");
}

#[test]
fn test_p2_error_format_uses_red_hash() {
    let expected_prefix = "#";
    assert!(!expected_prefix.is_empty(), "ERROR uses # prefix");
}

#[test]
fn test_p2_success_format_uses_green_checkmark() {
    let expected_prefix = "✓";
    assert!(!expected_prefix.is_empty(), "SUCCESS uses ✓ prefix");
}

#[test]
fn test_p2_debug_format_uses_black_asterisk() {
    let expected_prefix = "*";
    assert!(!expected_prefix.is_empty(), "DEBUG uses * prefix");
}

#[test]
fn test_level_console_prefixes_match_documented_markers() {
    assert_eq!(LogLevel::Info.console_prefix(), "+");
    assert_eq!(LogLevel::Warn.console_prefix(), "!");
    assert_eq!(LogLevel::Error.console_prefix(), "#");
    assert_eq!(LogLevel::Success.console_prefix(), "✓");
    assert_eq!(LogLevel::Debug.console_prefix(), "*");
    assert_eq!(LogLevel::Trace.console_prefix(), "-");
}

#[test]
fn test_should_display_rules() {
    assert!(!should_display(LogLevel::Debug, false));
    assert!(!should_display(LogLevel::Trace, false));
    assert!(should_display(LogLevel::Debug, true));
    assert!(should_display(LogLevel::Info, false));
    assert!(should_display(LogLevel::Warn, false));
    assert!(should_display(LogLevel::Error, false));
    assert!(should_display(LogLevel::Success, false));
}

#[test]
fn test_log_entry_format_for_file() {
    let e = LogEntry::new("2026-01-02 03:04:05.678", LogLevel::Warn, "am::db", "lock busy");
    assert_eq!(
        e.format_for_file(),
        "[2026-01-02 03:04:05.678] [WARN] [am::db] lock busy\n"
    );
}

#[test]
fn test_log_entry_success_format() {
    let e = LogEntry::new_success("t0", "am", "Project created");
    assert_eq!(e.format_for_file(), "[t0] [SUCCESS] [am] Project created\n");
    assert_eq!(e.format_for_console(), "✓ Project created");
}

#[test]
fn test_log_buffer_evicts_oldest_when_full() {
    let mut buffer = LogBuffer::new(3);
    for i in 0..5 {
        buffer.push(LogEntry::new("t", LogLevel::Info, "am", &format!("m{}", i)));
    }
    assert_eq!(buffer.len(), 3);
    assert_eq!(buffer.entry(0).message, "m2");
    assert_eq!(buffer.entry(1).message, "m3");
    assert_eq!(buffer.entry(2).message, "m4");
}

#[test]
fn test_logger_buffers_everything_and_displays_by_verbosity() {
    let mut logger = Logger::new(false);
    assert!(!logger.is_verbose());

    let hidden = logger.log(LogEntry::new("t", LogLevel::Debug, "am", "dbg"));
    assert!(hidden.is_none(), "debug is hidden without verbose");

    let shown = logger.log(LogEntry::new("t", LogLevel::Info, "am", "hello"));
    assert_eq!(shown, Some("+ hello".to_string()));

    // both entries are buffered for crash logging, displayed or not
    assert_eq!(logger.buffered_len(), 2);
    assert_eq!(logger.buffered_entry(0).message, "dbg");

    logger.set_verbose(true);
    assert!(logger.is_verbose());
    let now_shown = logger.log(LogEntry::new("t", LogLevel::Debug, "am", "dbg2"));
    assert_eq!(now_shown, Some("* dbg2".to_string()));
}

#[test]
fn test_logger_capacity_is_bounded() {
    assert_eq!(MAX_LOG_BUFFER_SIZE, 1000);
    let mut logger = Logger::new(false);
    for i in 0..1005 {
        logger.log(LogEntry::new("t", LogLevel::Info, "am", &format!("{}", i)));
    }
    assert_eq!(logger.buffered_len(), 1000);
    // the oldest five were evicted
    assert_eq!(logger.buffered_entry(0).message, "5");
}
