use mowl::is_enabled;
use mowl::render;
use mowl::render_line;
use mowl::LevelFilter;
use mowl::LogLevel;
use mowl::LogRecord;
use mowl::Logger;
use mowl::Op;
use mowl::RegistrationError;
use mowl::Registry;
use mowl::Sink;

fn record(level: LogLevel, origin: Option<&str>, message: &str, timestamp: &str) -> LogRecord {
    LogRecord::new(
        level,
        origin.map(|o| o.to_string()),
        message.to_string(),
        timestamp.to_string(),
    )
}

fn stripped(ops: &[Op]) -> String {
    let mut text = String::new();
    for op in ops {
        if let Op::Text(t) = op {
            text.push_str(t);
        }
    }
    text
}

#[test]
fn success_log() {
    let mut registry = Registry::new();
    mowl::init(&mut registry).unwrap();
    let logger = registry.active().unwrap();
    logger.log(&LogRecord::capture(LogLevel::Info, None, "Info".to_string()));
    logger.log(&LogRecord::capture(LogLevel::Warn, None, "Warn".to_string()));
    logger.log(&LogRecord::capture(LogLevel::Debug, None, "Debug".to_string()));
    logger.log(&LogRecord::capture(LogLevel::Trace, None, "Trace".to_string()));
    logger.log(&LogRecord::capture(LogLevel::Error, None, "Error".to_string()));
}

#[test]
fn filter_decision_table() {
    let levels = [
        LogLevel::Error,
        LogLevel::Warn,
        LogLevel::Info,
        LogLevel::Debug,
        LogLevel::Trace,
    ];
    let filters = [
        LevelFilter::Off,
        LevelFilter::Error,
        LevelFilter::Warn,
        LevelFilter::Info,
        LevelFilter::Debug,
        LevelFilter::Trace,
    ];
    for (i, level) in levels.iter().enumerate() {
        for (j, filter) in filters.iter().enumerate() {
            assert_eq!(is_enabled(*level, *filter), i + 1 <= j);
        }
    }
}

#[test]
fn second_registration_rejected() {
    let mut registry = Registry::new();
    assert!(mowl::init_with_level(&mut registry, LevelFilter::Warn).is_ok());
    assert_eq!(
        mowl::init(&mut registry),
        Err(RegistrationError::AlreadyInitialized)
    );
    assert_eq!(
        mowl::init_with_level_and_without_colors(&mut registry, LevelFilter::Error),
        Err(RegistrationError::AlreadyInitialized)
    );
    let logger = registry.active().unwrap();
    assert!(!logger.enabled(LogLevel::Info));
    assert!(logger.enabled(LogLevel::Warn));
    assert!(logger.has_colors());
}

#[test]
fn plain_output_has_no_escapes() {
    let rec = record(
        LogLevel::Info,
        Some("net"),
        "listening",
        "2024-01-02T03:04:05Z",
    );
    let plain = render(&rec, false);
    assert_eq!(plain.len(), 4);
    for op in &plain {
        assert!(matches!(op, Op::Text(_)));
    }
    let colored = render(&rec, true);
    assert_eq!(stripped(&plain), stripped(&colored));
    assert_eq!(stripped(&plain), render_line(&rec));
}

#[test]
fn level_color_table() {
    let table = [
        (LogLevel::Error, 9u32),
        (LogLevel::Warn, 11),
        (LogLevel::Info, 10),
        (LogLevel::Debug, 14),
        (LogLevel::Trace, 15),
    ];
    for (level, color) in table {
        let rec = record(level, None, "x", "t");
        let ops = render(&rec, true);
        assert_eq!(ops.len(), 8);
        assert_eq!(ops[0], Op::Fg(8));
        assert_eq!(ops[2], Op::Fg(12));
        assert_eq!(ops[4], Op::Fg(color));
        assert_eq!(ops[6], Op::Reset);
    }
}

#[test]
fn fallback_styling_never_fails() {
    let mut sink = Sink::fallback();
    assert!(sink.set_fg(9).is_ok());
    assert!(sink.reset_style().is_ok());
    assert!(sink.write_str("plain fallback line\n").is_ok());
}

#[test]
fn acquired_sink_delivers_without_failing_the_caller() {
    let logger = Logger::new(LevelFilter::Trace, true);
    let rec = LogRecord::capture(
        LogLevel::Info,
        Some("net".to_string()),
        "listening".to_string(),
    );
    let mut sink = Sink::acquire();
    logger.log_to(&mut sink, &rec);
}

#[test]
fn scenario_info_net_listening() {
    let rec = record(
        LogLevel::Info,
        Some("net"),
        "listening",
        "2024-01-02T03:04:05Z",
    );
    assert_eq!(
        render_line(&rec),
        "[2024-01-02T03:04:05Z] [net] [INFO] listening\n"
    );
    let missing_origin = record(LogLevel::Warn, None, "odd", "2024-01-02T03:04:05Z");
    assert_eq!(
        render_line(&missing_origin),
        "[2024-01-02T03:04:05Z] [?] [WARN] odd\n"
    );
}

#[test]
fn scenario_register_and_handle_info() {
    let mut registry = Registry::new();
    mowl::init(&mut registry).unwrap();
    let logger = registry.active().unwrap();
    assert!(logger.enabled(LogLevel::Info));
    let rec = LogRecord::capture(
        LogLevel::Info,
        Some("net".to_string()),
        "listening".to_string(),
    );
    logger.log(&rec);
    let line = render_line(&rec);
    assert!(line.starts_with('['));
    assert!(line.ends_with("] [net] [INFO] listening\n"));
    let close = line.find(']').unwrap();
    assert!(close > 1);
    for c in line[1..close].chars() {
        assert!(c.is_ascii_digit() || c == '-' || c == ':' || c == 'T' || c == 'Z' || c == '+');
    }
}

#[test]
fn threshold_filters_lower_levels() {
    let logger = Logger::new(LevelFilter::Warn, false);
    assert!(!logger.enabled(LogLevel::Info));
    assert!(!logger.enabled(LogLevel::Debug));
    assert!(!logger.enabled(LogLevel::Trace));
    assert!(logger.enabled(LogLevel::Warn));
    assert!(logger.enabled(LogLevel::Error));
    let quiet = record(LogLevel::Info, None, "quiet", "t");
    let loud = record(LogLevel::Error, None, "loud", "t");
    let mut sink = Sink::fallback();
    logger.log_to(&mut sink, &quiet);
    logger.log_to(&mut sink, &loud);
}

#[test]
fn repeated_formatting_is_identical() {
    let rec = record(
        LogLevel::Debug,
        Some("core"),
        "tick",
        "2024-01-02T03:04:05Z",
    );
    assert_eq!(render(&rec, true), render(&rec, true));
    assert_eq!(render(&rec, false), render(&rec, false));
    assert_eq!(render_line(&rec), render_line(&rec));
}

#[test]
fn disable_colors_is_set_once() {
    let mut logger = Logger::new(LevelFilter::Trace, true);
    assert!(logger.has_colors());
    logger.disable_colors();
    assert!(!logger.has_colors());
    assert!(logger.enabled(LogLevel::Trace));
}
