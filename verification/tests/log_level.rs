use host_health::log_level::{parse_log_level, LogLevel};

#[test]
fn each_word_names_its_level() {
    assert_eq!(parse_log_level("trace"), LogLevel::Trace);
    assert_eq!(parse_log_level("debug"), LogLevel::Debug);
    assert_eq!(parse_log_level("info"), LogLevel::Info);
    assert_eq!(parse_log_level("warn"), LogLevel::Warn);
    assert_eq!(parse_log_level("error"), LogLevel::Error);
    assert_eq!(parse_log_level("none"), LogLevel::Off);
}

#[test]
fn the_case_of_the_letters_does_not_matter() {
    assert_eq!(parse_log_level("TRACE"), LogLevel::Trace);
    assert_eq!(parse_log_level("Debug"), LogLevel::Debug);
    assert_eq!(parse_log_level("wArN"), LogLevel::Warn);
    assert_eq!(parse_log_level("ERROR"), LogLevel::Error);
    assert_eq!(parse_log_level("None"), LogLevel::Off);
}

#[test]
fn any_other_word_names_info() {
    assert_eq!(parse_log_level(""), LogLevel::Info);
    assert_eq!(parse_log_level("verbose"), LogLevel::Info);
    assert_eq!(parse_log_level("off"), LogLevel::Info);
    assert_eq!(parse_log_level("trace "), LogLevel::Info);
    assert_eq!(parse_log_level("trac"), LogLevel::Info);
    assert_eq!(parse_log_level("warning"), LogLevel::Info);
    assert_eq!(parse_log_level("dêbug"), LogLevel::Info);
    assert_eq!(parse_log_level("TR\u{c1}CE"), LogLevel::Info);
}

#[test]
fn characters_that_only_look_alike_are_not_lowered() {
    assert_eq!(parse_log_level("\u{212a}"), LogLevel::Info);
    assert_eq!(parse_log_level("TRACE".to_ascii_lowercase().as_str()), LogLevel::Trace);
    for word in ["Trace", "DEBUG", "iNfO", "WARN", "errOR", "NONE", "other", "@race", "[race"] {
        let expected = match word.to_ascii_lowercase().as_str() {
            "trace" => LogLevel::Trace,
            "debug" => LogLevel::Debug,
            "info" => LogLevel::Info,
            "warn" => LogLevel::Warn,
            "error" => LogLevel::Error,
            "none" => LogLevel::Off,
            _ => LogLevel::Info,
        };
        assert_eq!(parse_log_level(word), expected);
    }
}
