use httpstime_rs::logger::{max_level, timestamp_format, Level, SimpleLogger};

#[test]
fn levels_up_to_debug_are_enabled() {
    let logger = SimpleLogger;
    assert!(logger.enabled(Level::Error));
    assert!(logger.enabled(Level::Warn));
    assert!(logger.enabled(Level::Info));
    assert!(logger.enabled(Level::Debug));
    assert!(!logger.enabled(Level::Trace));
}

#[test]
fn levels_are_ordered_by_verbosity() {
    assert_eq!(Level::Error.verbosity(), 1);
    assert_eq!(Level::Warn.verbosity(), 2);
    assert_eq!(Level::Info.verbosity(), 3);
    assert_eq!(Level::Debug.verbosity(), 4);
    assert_eq!(Level::Trace.verbosity(), 5);
}

#[test]
fn level_names_fill_five_columns() {
    assert_eq!(Level::Error.padded_name(), "ERROR");
    assert_eq!(Level::Warn.padded_name(), "WARN ");
    assert_eq!(Level::Info.padded_name(), "INFO ");
    assert_eq!(Level::Debug.padded_name(), "DEBUG");
    assert_eq!(Level::Trace.padded_name(), "TRACE");
    for (level, name) in [
        (Level::Error, "ERROR"),
        (Level::Warn, "WARN"),
        (Level::Info, "INFO"),
        (Level::Debug, "DEBUG"),
        (Level::Trace, "TRACE"),
    ] {
        assert_eq!(level.padded_name(), format!("{:<5}", name));
    }
}

#[test]
fn debug_flag_raises_the_level() {
    assert_eq!(max_level(false), Level::Info);
    assert_eq!(max_level(true), Level::Debug);
}

#[test]
fn line_of_a_record() {
    let logger = SimpleLogger;
    assert_eq!(
        logger.format("2015-06-01 12:30:05", Level::Debug, "ssl verify OK"),
        "2015-06-01 12:30:05 DEBUG [httpstime-rs] ssl verify OK"
    );
    assert_eq!(
        logger.format("2015-06-01 12:30:05", Level::Info, "dt: 623"),
        "2015-06-01 12:30:05 INFO  [httpstime-rs] dt: 623"
    );
    assert_eq!(
        logger.format("2015-06-01 12:30:05", Level::Error, "require server parameter"),
        "2015-06-01 12:30:05 ERROR [httpstime-rs] require server parameter"
    );
    assert_eq!(logger.format("", Level::Warn, ""), " WARN  [httpstime-rs] ");
}

#[test]
fn line_agrees_with_the_format_of_the_standard_library() {
    let logger = SimpleLogger;
    for (level, name) in [(Level::Warn, "WARN"), (Level::Debug, "DEBUG"), (Level::Info, "INFO")] {
        let expected = format!(
            "{} {:<5} [{}] {}",
            "2020-02-29 23:59:59", name, "httpstime-rs", "B -877 133"
        );
        assert_eq!(logger.format("2020-02-29 23:59:59", level, "B -877 133"), expected);
    }
}

#[test]
fn records_of_this_program_are_rendered() {
    let logger = SimpleLogger;
    assert_eq!(
        logger.render(Level::Debug, "httpstime_rs", "2015-06-01 12:30:05", "HEAD https://h/"),
        Some("2015-06-01 12:30:05 DEBUG [httpstime-rs] HEAD https://h/".to_string())
    );
}

#[test]
fn records_of_other_modules_are_left_out() {
    let logger = SimpleLogger;
    assert_eq!(logger.render(Level::Debug, "hyper::client", "t", "m"), None);
    assert_eq!(logger.render(Level::Error, "httpstime_rs::probe", "t", "m"), None);
    assert_eq!(logger.render(Level::Error, "httpstime-rs", "t", "m"), None);
    assert_eq!(logger.render(Level::Error, "", "t", "m"), None);
    assert_eq!(logger.log(Level::Error, "hyper::client", "m"), None);
}

#[test]
fn trace_records_are_left_out() {
    let logger = SimpleLogger;
    assert_eq!(logger.render(Level::Trace, "httpstime_rs", "t", "m"), None);
    assert_eq!(logger.log(Level::Trace, "httpstime_rs", "m"), None);
}

#[test]
fn timestamp_format_is_date_and_time() {
    assert_eq!(timestamp_format(), "%Y-%m-%d %H:%M:%S");
}

#[test]
fn record_made_now_begins_with_the_local_time() {
    let logger = SimpleLogger;
    let line = logger.log(Level::Debug, "httpstime_rs", "ssl verify OK").unwrap();
    let tail = " DEBUG [httpstime-rs] ssl verify OK";
    assert!(line.ends_with(tail));
    let stamp = &line[..line.len() - tail.len()];
    // YYYY-MM-DD HH:MM:SS
    let bytes = stamp.as_bytes();
    assert_eq!(bytes.len(), 19);
    for (i, b) in bytes.iter().enumerate() {
        match i {
            4 | 7 => assert_eq!(*b, b'-'),
            10 => assert_eq!(*b, b' '),
            13 | 16 => assert_eq!(*b, b':'),
            _ => assert!(b.is_ascii_digit()),
        }
    }
    assert_ne!(stamp, timestamp_format());
}

#[test]
fn line_with_the_time_that_the_clock_gave() {
    let logger = SimpleLogger;
    assert_eq!(
        logger.stamped(Some("2015-06-01 12:30:05".to_string()), Level::Debug, "dt: 623"),
        "2015-06-01 12:30:05 DEBUG [httpstime-rs] dt: 623"
    );
}

#[test]
fn line_without_a_time_when_the_clock_gave_none() {
    let logger = SimpleLogger;
    assert_eq!(
        logger.stamped(None, Level::Warn, "no clock"),
        " WARN  [httpstime-rs] no clock"
    );
}

#[test]
fn every_record_of_this_program_up_to_debug_gets_a_line() {
    let logger = SimpleLogger;
    for level in [Level::Error, Level::Warn, Level::Info, Level::Debug] {
        let line = logger.log(level, "httpstime_rs", "m").unwrap();
        let tail = format!(" {} [httpstime-rs] m", level.padded_name());
        assert!(line.ends_with(&tail));
    }
}
