use ic_http_proxy::logger::{get_logs, log, Logger, LOG_TIME_PRECISION};

#[test]
fn time_is_written_with_milliseconds() {
    assert_eq!(LOG_TIME_PRECISION, 3);
}

#[test]
fn new_logger_is_empty() {
    let logger = Logger::new();
    assert_eq!(get_logs(&logger), vec![]);
}

#[test]
fn log_writes_the_time_with_milliseconds() {
    let mut logger = Logger::new();
    log(&mut logger, 0, "first");
    logger.log(1_686_824_288_903_000_000, "second");
    log(&mut logger, 1_686_824_288_903_999_999, "third");
    log(&mut logger, u64::MAX, "");
    assert_eq!(
        get_logs(&logger),
        vec![
            (String::from("1970-01-01T00:00:00.000Z"), String::from("first")),
            (String::from("2023-06-15T10:18:08.903Z"), String::from("second")),
            (String::from("2023-06-15T10:18:08.903Z"), String::from("third")),
            (String::from("2554-07-21T23:34:33.709Z"), String::from("")),
        ]
    );
}

#[test]
fn record_keeps_the_given_time_and_the_order() {
    let mut logger = Logger::new();
    logger.record(String::from("yesterday"), "a");
    logger.record(String::from("today"), "b");
    assert_eq!(
        get_logs(&logger),
        vec![
            (String::from("yesterday"), String::from("a")),
            (String::from("today"), String::from("b")),
        ]
    );
    // what was handed out is a copy
    let mut logs = get_logs(&logger);
    logs.clear();
    assert_eq!(get_logs(&logger).len(), 2);
}
