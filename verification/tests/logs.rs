use binary_options_tools_js::capture::{
    checked_lifetime, lifetime, PullPlan, StreamLogsIterator, StreamLogsLayer,
};
use binary_options_tools_js::level::{Level, LevelFilter};
use binary_options_tools_js::logs::{
    install_tracing, log_paths, start_tracing, LogBuilder, Logger, TARGET,
};
use binary_options_tools_js::sink::{LogError, LogSink, Multiplexer, SinkKind};
use binary_options_tools_js::stream::SourceEvent;

fn create_logs_iterator_test(level: String) -> (StreamLogsLayer, StreamLogsIterator) {
    StreamLogsLayer::create(LevelFilter::from_name(&level), None)
}

fn sinks_of(process: &Multiplexer) -> Vec<LogSink> {
    (0..process.len()).map(|index| process.sink(index).clone()).collect()
}

#[test]
fn test_start_tracing() {
    let mut process = Multiplexer::new();
    start_tracing(
        &mut process,
        ".".to_string(),
        "DEBUG".to_string(),
        true,
        vec![],
        Ok(()),
        Ok(()),
    )
    .unwrap();
    let record = Logger::new().info("Test".to_string());
    assert!(process.is_installed());
    assert_eq!(
        sinks_of(&process),
        vec![
            LogSink { kind: SinkKind::Discard, min_level: LevelFilter::Trace },
            LogSink { kind: SinkKind::File("./error.log".to_string()), min_level: LevelFilter::Warn },
            LogSink { kind: SinkKind::File("./logs.log".to_string()), min_level: LevelFilter::Debug },
            LogSink { kind: SinkKind::Terminal, min_level: LevelFilter::Debug },
        ]
    );
    assert_eq!(process.receivers(record.level), vec![0, 2, 3]);
}

#[test]
fn test_start_tracing_stream() {
    let (layer, mut receiver) = create_logs_iterator_test("ERROR".to_string());
    let mut process = Multiplexer::new();
    start_tracing(
        &mut process,
        ".".to_string(),
        "DEBUG".to_string(),
        false,
        vec![&layer],
        Ok(()),
        Ok(()),
    )
    .unwrap();
    assert_eq!(process.len(), 4);
    assert_eq!(
        *process.sink(0),
        LogSink { kind: SinkKind::Capture(None), min_level: LevelFilter::Error }
    );
    let emitted = [
        (Level::Trace, "Test trace"),
        (Level::Debug, "Test debug"),
        (Level::Info, "Test info"),
        (Level::Warn, "Test warning"),
        (Level::Error, "Test error"),
    ];
    let mut values = Vec::new();
    for num in 1..=3u64 {
        for (level, text) in emitted {
            if layer.accepts(level, num) {
                assert_eq!(receiver.plan(num), PullPlan::Poll { deadline: None });
                let line = format!("{{\"num\":{},\"message\":\"{}\"}}", num, text);
                values.push(receiver.next(SourceEvent::Item(line)).unwrap().unwrap());
            }
        }
    }
    assert_eq!(values.len(), 3);
    for (index, value) in values.iter().enumerate() {
        assert_eq!(value["num"], serde_json::Value::from(index as u64 + 1));
        assert_eq!(value["message"], serde_json::Value::from("Test error"));
        println!("{}", value);
    }
}

#[test]
fn second_setup_is_refused_and_first_sinks_stay() {
    let mut process = Multiplexer::new();
    let first = start_tracing(
        &mut process,
        "/var/log/app".to_string(),
        "INFO".to_string(),
        false,
        vec![],
        Ok(()),
        Ok(()),
    );
    assert_eq!(first, Ok(()));
    let installed = sinks_of(&process);
    let second = start_tracing(
        &mut process,
        "/tmp".to_string(),
        "TRACE".to_string(),
        true,
        vec![],
        Ok(()),
        Ok(()),
    );
    assert_eq!(second, Err(LogError::AlreadyInstalled));
    assert_eq!(sinks_of(&process), installed);
    assert_eq!(
        installed,
        vec![
            LogSink { kind: SinkKind::Discard, min_level: LevelFilter::Trace },
            LogSink {
                kind: SinkKind::File("/var/log/app/error.log".to_string()),
                min_level: LevelFilter::Warn,
            },
            LogSink {
                kind: SinkKind::File("/var/log/app/logs.log".to_string()),
                min_level: LevelFilter::Info,
            },
        ]
    );
    // The installed sinks still take records: an error goes to all three,
    // a debug record only to the discarding sink.
    assert_eq!(process.receivers(Level::Error), vec![0, 1, 2]);
    assert_eq!(process.receivers(Level::Info), vec![0, 2]);
    assert_eq!(process.receivers(Level::Debug), vec![0]);
}

#[test]
fn setup_fails_when_a_file_cannot_be_opened() {
    let mut process = Multiplexer::new();
    let outcome = start_tracing(
        &mut process,
        "/nowhere".to_string(),
        "DEBUG".to_string(),
        true,
        vec![],
        Err("No such file or directory (os error 2)".to_string()),
        Ok(()),
    );
    assert_eq!(outcome, Err(LogError::Io("No such file or directory (os error 2)".to_string())));
    assert!(!process.is_installed());
    assert_eq!(process.len(), 0);
    let outcome = install_tracing(
        &mut process,
        "/nowhere".to_string(),
        LevelFilter::Debug,
        true,
        vec![],
        Ok(()),
        Err("Permission denied (os error 13)".to_string()),
    );
    assert_eq!(outcome, Err(LogError::Io("Permission denied (os error 13)".to_string())));
    assert!(!process.is_installed());
    // A failed setup does not use up the one installation.
    let retry = install_tracing(
        &mut process,
        ".".to_string(),
        LevelFilter::Debug,
        false,
        vec![],
        Ok(()),
        Ok(()),
    );
    assert_eq!(retry, Ok(()));
}

#[test]
fn unknown_level_falls_back_to_debug() {
    let mut process = Multiplexer::new();
    start_tracing(
        &mut process,
        "logs".to_string(),
        "loud".to_string(),
        true,
        vec![],
        Ok(()),
        Ok(()),
    )
    .unwrap();
    assert_eq!(process.sink(2).min_level, LevelFilter::Debug);
    assert_eq!(process.sink(3).min_level, LevelFilter::Debug);
}

#[test]
fn log_paths_are_inside_the_directory() {
    assert_eq!(log_paths("./logs"), ("./logs/error.log".to_string(), "./logs/logs.log".to_string()));
    assert_eq!(log_paths(""), ("/error.log".to_string(), "/logs.log".to_string()));
}

#[test]
fn builder_installs_its_sinks_once() {
    let mut process = Multiplexer::new();
    let mut builder = LogBuilder::new();
    assert_eq!(builder.log_file("./app.log".to_string(), "INFO".to_string(), Ok(())), Ok(()));
    builder.terminal("DEBUG".to_string());
    let iterator = builder.create_logs_iterator("WARN".to_string(), Some(60));
    assert!(!iterator.is_terminated());
    assert_eq!(builder.build(&mut process), Ok(()));
    assert_eq!(
        sinks_of(&process),
        vec![
            LogSink { kind: SinkKind::File("./app.log".to_string()), min_level: LevelFilter::Info },
            LogSink { kind: SinkKind::Terminal, min_level: LevelFilter::Debug },
            LogSink { kind: SinkKind::Capture(Some(60)), min_level: LevelFilter::Warn },
            LogSink { kind: SinkKind::Discard, min_level: LevelFilter::Trace },
        ]
    );
    let again = builder.build(&mut process);
    assert_eq!(again, Err(LogError::AlreadyInstalled));
    assert_eq!(
        again.unwrap_err().to_string(),
        "Builder has already been built, cannot be called again"
    );
    assert_eq!(process.len(), 4);
}

#[test]
fn second_builder_in_one_process_is_refused() {
    let mut process = Multiplexer::new();
    let mut first = LogBuilder::new();
    first.terminal("INFO".to_string());
    assert_eq!(first.build(&mut process), Ok(()));
    let mut second = LogBuilder::default();
    second.terminal("TRACE".to_string());
    assert_eq!(second.build(&mut process), Err(LogError::AlreadyInstalled));
    assert_eq!(
        sinks_of(&process),
        vec![
            LogSink { kind: SinkKind::Terminal, min_level: LevelFilter::Info },
            LogSink { kind: SinkKind::Discard, min_level: LevelFilter::Trace },
        ]
    );
}

#[test]
fn empty_builder_installs_the_discarding_sink() {
    let mut process = Multiplexer::new();
    let mut builder = LogBuilder::new();
    assert_eq!(builder.build(&mut process), Ok(()));
    assert_eq!(
        sinks_of(&process),
        vec![LogSink { kind: SinkKind::Discard, min_level: LevelFilter::Trace }]
    );
}

#[test]
fn file_sink_that_cannot_be_opened_is_not_registered() {
    let mut process = Multiplexer::new();
    let mut builder = LogBuilder::new();
    let outcome =
        builder.log_file("/nowhere/app.log".to_string(), "INFO".to_string(), Err("denied".to_string()));
    assert_eq!(outcome, Err(LogError::Io("denied".to_string())));
    assert_eq!(outcome.unwrap_err().to_string(), "denied");
    builder.build(&mut process).unwrap();
    assert_eq!(process.len(), 1);
}

#[test]
fn sinks_filter_independently() {
    let mut process = Multiplexer::new();
    let mut builder = LogBuilder::new();
    builder.add_terminal_sink(LevelFilter::Error);
    builder.add_terminal_sink(LevelFilter::Off);
    builder.add_terminal_sink(LevelFilter::Trace);
    builder.add_terminal_sink(LevelFilter::Info);
    builder.build(&mut process).unwrap();
    assert_eq!(process.receivers(Level::Error), vec![0, 2, 3, 4]);
    assert_eq!(process.receivers(Level::Warn), vec![2, 3, 4]);
    assert_eq!(process.receivers(Level::Info), vec![2, 3, 4]);
    assert_eq!(process.receivers(Level::Debug), vec![2, 4]);
    assert_eq!(process.receivers(Level::Trace), vec![2, 4]);
    assert!(process.delivers(0, Level::Error));
    assert!(!process.delivers(0, Level::Warn));
    assert!(!process.delivers(1, Level::Error));
}

#[test]
fn capture_sink_with_one_second_timeout_ends_without_records() {
    let mut builder = LogBuilder::new();
    let mut iterator = builder.create_logs_iterator("DEBUG".to_string(), Some(1));
    // Pulled at once: wait for a record, but only until the deadline.
    assert_eq!(iterator.plan(0), PullPlan::Poll { deadline: Some(1) });
    // Nothing was emitted and the wait ran out.
    assert_eq!(iterator.next(SourceEvent::TimedOut), Ok(None));
    assert!(iterator.is_terminated());
    assert_eq!(iterator.plan(2), PullPlan::Finished);
    assert_eq!(iterator.next(SourceEvent::Item("{}".to_string())), Ok(None));
}

#[test]
fn capture_iterator_pulled_after_its_lifetime_ends_immediately() {
    let (layer, mut iterator) = StreamLogsLayer::create(LevelFilter::Debug, Some(1));
    assert!(layer.accepts(Level::Info, 0));
    assert!(!layer.accepts(Level::Info, 1));
    assert!(!layer.accepts(Level::Error, 5));
    assert_eq!(iterator.plan(1), PullPlan::Finished);
    assert!(iterator.is_terminated());
    assert_eq!(iterator.plan(0), PullPlan::Finished);
}

#[test]
fn capture_layer_filters_by_level() {
    let (layer, _iterator) = StreamLogsLayer::create(LevelFilter::Warn, None);
    assert!(layer.accepts(Level::Error, 0));
    assert!(layer.accepts(Level::Warn, u64::MAX));
    assert!(!layer.accepts(Level::Info, 0));
    assert!(!layer.accepts(Level::Trace, 0));
    assert_eq!(
        layer.to_sink(),
        LogSink { kind: SinkKind::Capture(None), min_level: LevelFilter::Warn }
    );
}

#[test]
fn log_iterator_parses_records() {
    let (_layer, mut iterator) = StreamLogsLayer::create(LevelFilter::Debug, None);
    let value = iterator
        .next(SourceEvent::Item("{\"level\":\"INFO\",\"fields\":{\"message\":\"hi\"}}".to_string()))
        .unwrap()
        .unwrap();
    assert_eq!(value["level"], serde_json::Value::from("INFO"));
    assert_eq!(value["fields"]["message"], serde_json::Value::from("hi"));
    assert!(!iterator.is_terminated());
    assert_eq!(iterator.next(SourceEvent::Closed), Ok(None));
    assert!(iterator.is_terminated());
}

#[test]
fn log_iterator_fails_once_on_a_malformed_record() {
    let (_layer, mut iterator) = StreamLogsLayer::create(LevelFilter::Debug, None);
    let failure = iterator.next(SourceEvent::Item("{not json".to_string()));
    assert!(failure.is_err());
    assert!(iterator.is_terminated());
    assert_eq!(iterator.next(SourceEvent::Item("{}".to_string())), Ok(None));
    assert_eq!(iterator.plan(0), PullPlan::Finished);
}

#[test]
fn log_iterator_reports_a_channel_failure_once() {
    let (_layer, mut iterator) = StreamLogsLayer::create(LevelFilter::Debug, None);
    assert_eq!(
        iterator.next(SourceEvent::Failed("channel closed".to_string())),
        Err("channel closed".to_string())
    );
    assert_eq!(iterator.next(SourceEvent::Failed("channel closed".to_string())), Ok(None));
}

#[test]
fn lifetime_from_a_timeout_in_seconds() {
    assert_eq!(lifetime(None), None);
    assert_eq!(lifetime(Some(60)), Some(60));
    assert_eq!(lifetime(Some(0)), Some(0));
    assert_eq!(lifetime(Some(-1)), None);
    assert_eq!(lifetime(Some(9_223_372_036_854_775)), Some(9_223_372_036_854_775));
    assert_eq!(lifetime(Some(-9_223_372_036_854_775)), None);
    assert_eq!(checked_lifetime(Some(60)), Some(Some(60)));
    assert_eq!(checked_lifetime(Some(-5)), Some(None));
    assert_eq!(checked_lifetime(None), Some(None));
    assert_eq!(checked_lifetime(Some(9_223_372_036_854_776)), None);
    assert_eq!(checked_lifetime(Some(i64::MIN)), None);
}

#[test]
fn negative_timeout_means_no_deadline() {
    let mut builder = LogBuilder::new();
    let mut iterator = builder.create_logs_iterator("INFO".to_string(), Some(-3));
    assert_eq!(iterator.plan(1_000_000), PullPlan::Poll { deadline: None });
}

#[test]
fn logger_builds_records_for_its_target() {
    let logger = Logger::new();
    assert_eq!(TARGET, "JavaScript");
    let record = logger.debug("Processing started".to_string());
    assert_eq!(record.level, Level::Debug);
    assert_eq!(record.target, "JavaScript");
    assert_eq!(record.message, "Processing started");
    assert_eq!(logger.info("a".to_string()).level, Level::Info);
    assert_eq!(logger.warn("b".to_string()).level, Level::Warn);
    assert_eq!(logger.error("c".to_string()).level, Level::Error);
    assert_eq!(Logger::default().error("c".to_string()).message, "c");
}
