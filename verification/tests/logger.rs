use nls_ls::logger::{level_filter, log_line, LogFilter, LogLevel};

#[test]
fn test_level_filter_words() {
    assert_eq!(level_filter(None), LogFilter::Off);
    assert_eq!(level_filter(Some("error")), LogFilter::Error);
    assert_eq!(level_filter(Some("warn")), LogFilter::Warn);
    assert_eq!(level_filter(Some("info")), LogFilter::Info);
    assert_eq!(level_filter(Some("debug")), LogFilter::Debug);
    assert_eq!(level_filter(Some("trace")), LogFilter::Trace);
    assert_eq!(level_filter(Some("DEBUG")), LogFilter::Off);
    assert_eq!(level_filter(Some("")), LogFilter::Off);
}

#[test]
fn test_log_line_plain() {
    assert_eq!(log_line(LogLevel::Debug, "nls::config", "parsed", false), "[DEBUG nls::config] parsed");
    assert_eq!(log_line(LogLevel::Warn, "t", "m", false), "[WARN t] m");
}

#[test]
fn test_log_line_colored() {
    assert_eq!(
        log_line(LogLevel::Error, "nls", "boom", true),
        "\x1b[90m[\x1b[0m\x1b[31mERROR\x1b[0m nls\x1b[90m]\x1b[0m boom"
    );
    assert_eq!(
        log_line(LogLevel::Trace, "x", "y", true),
        "\x1b[90m[\x1b[0m\x1b[36mTRACE\x1b[0m x\x1b[90m]\x1b[0m y"
    );
    assert_eq!(
        log_line(LogLevel::Info, "x", "y", true),
        "\x1b[90m[\x1b[0m\x1b[32mINFO\x1b[0m x\x1b[90m]\x1b[0m y"
    );
}
