use chrono::{DateTime, Duration, Local, NaiveDateTime, TimeDelta};
use vpn_handler::logger::{
    is_stale, make_entry, make_header, strip_header_prefix, HeaderError, IoKind, LogHead, Logger,
    LoggerError, MAX_AGE_SECONDS,
};

const FORMAT: &str = "%Y-%m-%d %H:%M:%S";

fn seconds(moment: NaiveDateTime) -> i64 {
    moment.and_utc().timestamp()
}

fn moment(seconds: i64) -> NaiveDateTime {
    DateTime::from_timestamp(seconds, 0).unwrap().naive_utc()
}

/// Waits for the first half of a second, so that a moment written down in
/// whole seconds and the reading that follows it are less than a second
/// apart.
fn early_in_the_second() {
    while Local::now().timestamp_subsec_millis() >= 500 {
        std::hint::spin_loop();
    }
}

fn head_of(contents: &str) -> LogHead {
    match contents.lines().next() {
        Some(line) => LogHead::FirstLine(line.to_string()),
        None => LogHead::Empty,
    }
}

#[test]
fn test_rotate_needed_no_file() {
    let mut logger = Logger::new();

    let result = logger.rotate_needed(&LogHead::Missing);
    assert!(
        result.is_ok(),
        "Rotate needed returned error! Error: {}",
        result.unwrap_err().describe()
    );
    assert_eq!(result.unwrap(), true, "Rotate needed returned false!");
}

#[test]
fn test_rotate_needed_old_file() {
    let outdated_timestamp = (Local::now() - Duration::hours(25)).format(FORMAT).to_string();
    let file = format!("LOG CREATED AT: {}", outdated_timestamp);

    let mut logger = Logger::new();

    let result = logger.rotate_needed(&head_of(&file));
    assert!(
        result.is_ok(),
        "Result Returned Error  -> {}",
        result.err().unwrap().describe()
    );
    assert_eq!(result.unwrap(), true);
}

#[test]
fn test_rotate_needed_new_file() {
    let fresh_timestamp = Local::now().format(FORMAT).to_string();
    let file = format!("LOG CREATED AT: {}", fresh_timestamp);

    let mut logger = Logger::new();

    let result = logger.rotate_needed(&head_of(&file));
    assert!(
        result.is_ok(),
        "Result Returned Error  -> {}",
        result.err().unwrap().describe()
    );
    assert_eq!(result.unwrap(), false);
    assert_eq!(moment(logger.timestamp()).format(FORMAT).to_string(), fresh_timestamp);
}

#[test]
fn test_rotate_logs_no_file() {
    let mut logger = Logger::new();

    let result = logger.rotate_needed(&LogHead::Missing);
    assert!(
        result.is_ok(),
        "Failed to run rotate needed! Error: {}",
        result.unwrap_err().describe()
    );
    assert_eq!(result.unwrap(), true);

    early_in_the_second();
    let result = logger.rotate_logs();
    assert!(
        result.is_ok(),
        "Failed to run rotate logs! Error: {}",
        result.unwrap_err().describe()
    );
    let file = result.unwrap();

    let first_line = file.lines().next();
    assert!(first_line.is_some(), "Log File Is Empty");
    let first_line = first_line.unwrap();

    let timestamp_str = first_line.strip_prefix("LOG CREATED AT: ");
    assert!(timestamp_str.is_some());

    let timestamp = NaiveDateTime::parse_from_str(timestamp_str.unwrap(), FORMAT);
    assert!(timestamp.is_ok());

    let timestamp = timestamp.unwrap();
    let now = Local::now().naive_local();

    let total_time_passed = now.signed_duration_since(timestamp);
    assert!(
        total_time_passed > TimeDelta::seconds(0),
        "Total time passed is {}",
        total_time_passed
    );
    assert!(total_time_passed < Duration::seconds(1));
    assert_eq!(seconds(timestamp), logger.timestamp());
    assert_eq!(file.lines().count(), 1);
    assert!(file.ends_with('\n'));
}

#[test]
fn test_rotate_logs_with_old_file() {
    let outdated_timestamp = (Local::now() - Duration::hours(25)).format(FORMAT).to_string();
    let old_file = format!("LOG CREATED AT: {}", outdated_timestamp);

    let mut logger = Logger::new();

    let result = logger.rotate_needed(&head_of(&old_file));
    assert!(
        result.is_ok(),
        "Result Returned Error  -> {}",
        result.err().unwrap().describe()
    );
    assert_eq!(result.unwrap(), true);

    early_in_the_second();
    let result = logger.rotate_logs();
    assert!(
        result.is_ok(),
        "Failed to run rotate logs! Error: {}",
        result.unwrap_err().describe()
    );
    let file = result.unwrap();

    let first_line = file.lines().next();
    assert!(first_line.is_some(), "Log File Is Empty");

    let timestamp_str = first_line.unwrap().strip_prefix("LOG CREATED AT: ");
    assert!(timestamp_str.is_some());

    let timestamp = NaiveDateTime::parse_from_str(timestamp_str.unwrap(), FORMAT);
    assert!(timestamp.is_ok());

    let timestamp = timestamp.unwrap();
    let now = Local::now().naive_local();

    let total_time_passed = now.signed_duration_since(timestamp);
    assert!(
        total_time_passed > TimeDelta::seconds(0),
        "Total time passed is {}",
        total_time_passed
    );
    assert!(total_time_passed < Duration::seconds(1));
}

#[test]
fn test_logger_log() {
    let mut logger = Logger::new();

    let result = logger.rotate_needed(&LogHead::Missing);
    assert!(
        result.is_ok(),
        "Failed to run rotate needed! Error: {}",
        result.unwrap_err().describe()
    );
    assert_eq!(result.unwrap(), true);

    early_in_the_second();
    let result = logger.rotate_logs();
    assert!(
        result.is_ok(),
        "Failed to run rotate logs! Error: {}",
        result.unwrap_err().describe()
    );
    let mut file = result.unwrap();

    let line = logger.log(&"Test Message".to_string());
    assert!(line.is_ok());
    file.push_str(&line.unwrap());

    let second_line = file.lines().nth(1);
    assert!(second_line.is_some(), "Log File Is Empty");
    let second_line: Vec<&str> = second_line.unwrap().split(">").collect();
    assert_eq!(second_line.len(), 2);

    let timestamp = second_line[0].trim().trim_matches(|c| c == '[' || c == ']');
    let timestamp = NaiveDateTime::parse_from_str(timestamp, FORMAT);
    assert!(timestamp.is_ok());

    let now = Local::now().naive_local();
    let total_time_passed = now.signed_duration_since(timestamp.unwrap());
    assert!(total_time_passed < Duration::seconds(5));

    let message = second_line[1].trim();
    assert_eq!(message, "Test Message");
}

#[test]
fn test_log_rotate_log() {
    let outdated = Local::now().naive_local() - Duration::hours(25);
    let outdated_timestamp = outdated.format(FORMAT).to_string();
    let mut old_file = format!("LOG CREATED AT: {}\n", outdated_timestamp);
    assert!(NaiveDateTime::parse_from_str(&outdated_timestamp, FORMAT).is_ok());
    old_file.push_str(&format!("[{}] > Test Message\n", outdated_timestamp));

    let mut logger = Logger::new();

    let result = logger.rotate_needed(&head_of(&old_file));
    assert!(
        result.is_ok(),
        "Failed to run rotate needed! Error: {}",
        result.unwrap_err().describe()
    );
    assert_eq!(result.unwrap(), true);

    early_in_the_second();
    let result = logger.rotate_logs();
    assert!(
        result.is_ok(),
        "Failed to run rotate logs! Error: {}",
        result.unwrap_err().describe()
    );
    let mut file = result.unwrap();
    assert_eq!(file.lines().count(), 1);

    let first_line = file.lines().next().unwrap().to_string();
    let timestamp_str = first_line.strip_prefix("LOG CREATED AT: ");
    assert!(timestamp_str.is_some());
    let timestamp = NaiveDateTime::parse_from_str(timestamp_str.unwrap(), FORMAT);
    assert!(timestamp.is_ok());
    let now = Local::now().naive_local();
    let total_time_passed = now.signed_duration_since(timestamp.unwrap());
    assert!(
        total_time_passed > TimeDelta::seconds(0),
        "Total time passed is {}",
        total_time_passed
    );
    assert!(total_time_passed < Duration::seconds(1));

    let line = logger.log(&"Test Message".to_string());
    assert!(line.is_ok());
    file.push_str(&line.unwrap());

    let second_line = file.lines().nth(1);
    assert!(second_line.is_some());
    let second_line: Vec<&str> = second_line.unwrap().split(">").collect();
    assert_eq!(second_line.len(), 2);
    let timestamp = second_line[0].trim().trim_matches(|c| c == '[' || c == ']');
    let timestamp = NaiveDateTime::parse_from_str(timestamp, FORMAT);
    assert!(timestamp.is_ok());
    let now = Local::now().naive_local();
    assert!(now.signed_duration_since(timestamp.unwrap()) < Duration::seconds(5));
    assert_eq!(second_line[1].trim(), "Test Message");
    assert_eq!(file.lines().count(), 2);
}

#[test]
fn a_log_is_stale_one_second_past_24_hours() {
    let now = 1_700_000_000;
    assert_eq!(MAX_AGE_SECONDS, 24 * 60 * 60);
    assert!(is_stale(now, now - (24 * 3600 + 1)));
    assert!(!is_stale(now, now - 24 * 3600));
    assert!(!is_stale(now, now - (23 * 3600 + 59 * 60)));
    assert!(!is_stale(now, now));
    assert!(!is_stale(now, now + 10));
    assert!(is_stale(i64::MAX, i64::MIN));
    assert!(!is_stale(i64::MIN, i64::MAX));
}

#[test]
fn the_rotation_boundary_holds_for_a_header_on_file() {
    let now = seconds(NaiveDateTime::parse_from_str("2024-03-10 12:00:00", FORMAT).unwrap());

    let mut logger = Logger::created(7);
    let past = LogHead::FirstLine("LOG CREATED AT: 2024-03-09 11:59:59".to_string());
    assert!(matches!(logger.rotate_needed_at(&past, now), Ok(true)));
    assert_eq!(logger.timestamp(), 7);

    let short = LogHead::FirstLine("LOG CREATED AT: 2024-03-09 12:01:00".to_string());
    assert!(matches!(logger.rotate_needed_at(&short, now), Ok(false)));
    assert_eq!(logger.timestamp(), now - (23 * 3600 + 59 * 60));

    let exact = LogHead::FirstLine("LOG CREATED AT: 2024-03-09 12:00:00".to_string());
    assert!(matches!(logger.rotate_needed_at(&exact, now), Ok(false)));
    assert_eq!(logger.timestamp(), now - 24 * 3600);
}

#[test]
fn a_header_that_cannot_be_read_is_an_error_and_no_rotation() {
    let mut logger = Logger::created(42);
    let now = 1_700_000_000;

    let result = logger.rotate_needed_at(&LogHead::Empty, now);
    assert!(matches!(result, Err(LoggerError::IOError(IoKind::UnexpectedEof))));
    assert_eq!(result.unwrap_err().describe(), "I/O Error: Log File Is Empty");

    let bare = LogHead::FirstLine("2024-03-09 12:00:00".to_string());
    let result = logger.rotate_needed_at(&bare, now);
    assert!(matches!(
        result,
        Err(LoggerError::DateTimeParseError(HeaderError::MissingPrefixError))
    ));
    assert_eq!(
        result.unwrap_err().describe(),
        "Error parsing NaiveDateTime: Missing DateTime Prefix"
    );

    let broken = LogHead::FirstLine("LOG CREATED AT: yesterday".to_string());
    let result = logger.update_at(&broken, now);
    assert!(matches!(
        result,
        Err(LoggerError::DateTimeParseError(HeaderError::ParseError(_)))
    ));
    assert!(result.unwrap_err().describe().starts_with("Error parsing NaiveDateTime: "));

    let short = LogHead::FirstLine("LOG CREATED AT:".to_string());
    assert!(matches!(
        logger.update_at(&short, now),
        Err(LoggerError::DateTimeParseError(HeaderError::MissingPrefixError))
    ));
    assert_eq!(logger.timestamp(), 42);
}

#[test]
fn an_update_rotates_a_missing_or_stale_log_only() {
    let now = seconds(NaiveDateTime::parse_from_str("2015-05-16 00:00:01", FORMAT).unwrap());
    let mut logger = Logger::created(0);

    let fresh = logger.update_at(&LogHead::Missing, now).unwrap();
    assert_eq!(fresh, Some("LOG CREATED AT: 2015-05-16 00:00:01\n".to_string()));
    assert_eq!(logger.timestamp(), now);

    let stale = LogHead::FirstLine("LOG CREATED AT: 2015-05-15 00:00:00".to_string());
    let fresh = logger.update_at(&stale, now).unwrap();
    assert_eq!(fresh, Some("LOG CREATED AT: 2015-05-16 00:00:01\n".to_string()));

    let young = LogHead::FirstLine("LOG CREATED AT: 2015-05-15 00:00:01".to_string());
    assert_eq!(logger.update_at(&young, now).unwrap(), None);
    assert_eq!(logger.timestamp(), 1431648001);
}

#[test]
fn header_and_entry_have_their_exact_layout() {
    let mut logger = Logger::created(5);
    assert_eq!(logger.rotate_logs_at(0).unwrap(), "LOG CREATED AT: 1970-01-01 00:00:00\n");
    assert_eq!(logger.timestamp(), 0);
    assert_eq!(
        logger.rotate_logs_at(1431648000).unwrap(),
        "LOG CREATED AT: 2015-05-15 00:00:00\n"
    );
    assert_eq!(
        Logger::log_at(&"X".to_string(), 1431648000).unwrap(),
        "[2015-05-15 00:00:00] > X\n"
    );
    assert_eq!(make_header("T"), "LOG CREATED AT: T\n");
    assert_eq!(make_entry("T", "a > b"), "[T] > a > b\n");
    assert_eq!(Logger::log_path(), "/home/kwunch/Documents/Rust/vpn_handler/log.txt");
}

#[test]
fn a_moment_outside_the_calendar_has_no_text() {
    let mut logger = Logger::created(5);
    let result = logger.rotate_logs_at(i64::MAX);
    assert!(matches!(result, Err(LoggerError::IOError(IoKind::InvalidInput))));
    assert_eq!(result.unwrap_err().describe(), "I/O Error: Time Is Out Of Range");
    assert_eq!(logger.timestamp(), 5);
    assert!(matches!(
        Logger::log_at(&"X".to_string(), i64::MIN),
        Err(LoggerError::IOError(IoKind::InvalidInput))
    ));
    assert!(matches!(
        logger.update_at(&LogHead::Missing, i64::MAX),
        Err(LoggerError::IOError(IoKind::InvalidInput))
    ));
}

#[test]
fn an_appended_message_reads_back_with_its_time() {
    let logger = Logger::new();
    let before = seconds(Local::now().naive_local());
    let line = logger.log(&"X".to_string()).unwrap();
    assert!(line.ends_with("] > X\n"));
    let stamp = &line[1..line.len() - "] > X\n".len()];
    let written = seconds(NaiveDateTime::parse_from_str(stamp, FORMAT).unwrap());
    assert!(written >= before);
    assert!(written - before <= 5);
}

#[test]
fn the_verdict_follows_what_chrono_read() {
    let mut logger = Logger::created(1);
    assert!(matches!(logger.settle(Ok(100), 100 + 86401), Ok(true)));
    assert_eq!(logger.timestamp(), 1);
    assert!(matches!(logger.settle(Ok(100), 100 + 86400), Ok(false)));
    assert_eq!(logger.timestamp(), 100);
    let refused = NaiveDateTime::parse_from_str("no time", FORMAT).unwrap_err();
    assert!(matches!(
        logger.settle(Err(refused), 0),
        Err(LoggerError::DateTimeParseError(HeaderError::ParseError(e))) if e == refused
    ));
    assert_eq!(logger.timestamp(), 100);
}

#[test]
fn the_prefix_is_split_off_a_header_line() {
    assert_eq!(strip_header_prefix("LOG CREATED AT: 2024"), Some("2024"));
    assert_eq!(strip_header_prefix("LOG CREATED AT: "), Some(""));
    assert_eq!(strip_header_prefix("LOG CREATED AT:"), None);
    assert_eq!(strip_header_prefix("log created at: 2024"), None);
    assert_eq!(strip_header_prefix(" LOG CREATED AT: 2024"), None);
    assert_eq!(strip_header_prefix(""), None);
    assert_eq!(strip_header_prefix("LOG CREATED AT: \u{e9}t\u{e9}"), Some("\u{e9}t\u{e9}"));
}
