use az_logger::{
    expand_log_name_fmt, ConsoleStream, FileOutcome, LogEntry, LogLevel, Logger, LoggerError,
    LoggerOptions, Persist, SinkKind,
};

fn init_log(logger: &mut Logger) {
    let opts = LoggerOptions {
        truncate_previous_logs: true,
        log_dir: Some("test_logs".to_string()),
        log_name_format: Some("<exe>_test_<dd><mm><HH><MM><SS>.log".to_string()),
        ..Default::default()
    };
    let plan = Logger::plan_init(Some("ignored.log"), &opts, Some("sync_logger"));
    assert!(plan.path.is_some());
    logger.init(opts, FileOutcome::Opened).unwrap();
}

#[test]
fn test_log_writes_to_memory() {
    let mut logger = Logger::new(false);
    init_log(&mut logger);
    logger.log_info("This is a test info log", "tests/sync_logger.rs", 22).unwrap();
    let logs = logger.get_logs().unwrap();
    assert!(logs.iter().any(|l| l.message.contains("test info log")));
}

#[test]
fn test_filename_expansion() {
    let result = expand_log_name_fmt("<exe>_<dd>_<mm>_<HH><MM><SS>.log", Some("sync_logger"));
    assert!(result.contains(".log"));
    assert!(result.contains("_"));
    assert!(!result.contains("<"));
}

#[test]
fn test_log_dir_created() {
    let opts = LoggerOptions {
        truncate_previous_logs: true,
        log_dir: Some("test_logs".to_string()),
        log_name_format: Some("<exe>_test_<dd><mm><HH><MM><SS>.log".to_string()),
        ..Default::default()
    };
    let plan = Logger::plan_init(Some("ignored.log"), &opts, Some("sync_logger"));
    assert_eq!(plan.create_dir, Some("test_logs".to_string()));
    let path = plan.path.unwrap();
    println!("Path: {}", path);
    assert!(path.starts_with("test_logs"));
    assert!(path.ends_with(".log"));
    assert!(plan.mode.truncate && !plan.mode.append && plan.mode.create && plan.mode.write);
}

#[test]
fn test_log_entry_format_all_fields() {
    let entry = LogEntry::new(
        "01:05 1234".to_string(),
        LogLevel::Info,
        "hello",
        Some("main.rs".to_string()),
        Some(42),
    );

    let formatted = entry.format(false, false);
    assert_eq!(formatted, "[01:05 1234] [INFO][main.rs:42]: hello");
}

#[test]
fn test_log_entry_format_hide_level() {
    let entry = LogEntry::new(
        "01:05 1234".to_string(),
        LogLevel::Debug,
        "debugging",
        Some("debug.rs".to_string()),
        Some(10),
    );

    let formatted = entry.format(true, false);
    assert_eq!(formatted, "[01:05 1234] [debug.rs:10]: debugging");
}

#[test]
fn test_log_entry_format_no_file() {
    let entry = LogEntry::new(
        "01:05 1234".to_string(),
        LogLevel::Warn,
        "warning",
        None,
        Some(3),
    );

    let formatted = entry.format(false, false);
    assert_eq!(formatted, "[01:05 1234] [WARN][line 3]: warning");
}

#[test]
fn test_logger_respects_no_file_name_and_line_num() {
    let opts = LoggerOptions {
        no_file_name: true,
        no_line_num: true,
        log_dir: None,
        truncate_previous_logs: true,
        ..Default::default()
    };
    let plan = Logger::plan_init(Some("in_memory.log"), &opts, None);
    assert_eq!(plan.path, Some("in_memory.log".to_string()));
    assert_eq!(plan.create_dir, None);
    let mut logger = Logger::new(false);
    logger.init(opts, FileOutcome::Opened).unwrap();
    logger.log_warn("warn no file/line", "tests/sync_logger.rs", 22).unwrap();

    let logs = logger.get_logs().unwrap();
    let entry = logs.last().unwrap();
    assert!(entry.file.is_none());
    assert!(entry.line.is_none());
    assert_eq!(entry.message, "warn no file/line");
}

fn started(opts: LoggerOptions, outcome: FileOutcome) -> Logger {
    let mut logger = Logger::new(false);
    logger.init(opts, outcome).unwrap();
    logger
}

fn messages(logger: &Logger) -> Vec<String> {
    logger.get_logs().unwrap().iter().map(|e| e.message.clone()).collect()
}

#[test]
fn end_to_end_bounded_buffer_evicts_the_previous_entry() {
    let opts = LoggerOptions { max_logs: 2, show_debug: true, ..Default::default() };
    let mut logger = started(opts, FileOutcome::NoFile);
    logger.log(LogLevel::Info, "a", "main.rs", 1).unwrap();
    logger.log(LogLevel::Info, "b", "main.rs", 2).unwrap();
    logger.log(LogLevel::Info, "c", "main.rs", 3).unwrap();
    assert_eq!(messages(&logger), vec!["a".to_string(), "c".to_string()]);
}

#[test]
fn buffer_never_exceeds_max_logs() {
    let opts = LoggerOptions { max_logs: 3, ..Default::default() };
    let mut logger = started(opts, FileOutcome::NoFile);
    for i in 0..10u32 {
        logger.log_at("01:01 00:00".to_string(), LogLevel::Warn, &format!("m{}", i), "f.rs", i).unwrap();
        assert!(logger.get_logs().unwrap().len() <= 3);
    }
    assert_eq!(messages(&logger), vec!["m0".to_string(), "m1".to_string(), "m9".to_string()]);
}

#[test]
fn buffer_made_for_zero_entries_keeps_the_last_one() {
    let opts = LoggerOptions { max_logs: 0, ..Default::default() };
    let mut logger = started(opts, FileOutcome::NoFile);
    logger.log_err("x", "f.rs", 1).unwrap();
    logger.log_err("y", "f.rs", 2).unwrap();
    assert_eq!(messages(&logger), vec!["y".to_string()]);
}

#[test]
fn debug_is_filtered_everywhere() {
    let opts = LoggerOptions { show_debug: false, color_output: false, ..Default::default() };
    let mut logger = started(opts, FileOutcome::Opened);
    for _ in 0..5 {
        let d = logger.log_debug("noise", "f.rs", 7).unwrap();
        assert!(d.console.is_none());
        assert!(matches!(d.persist, Persist::Skip));
    }
    assert!(logger.get_logs().unwrap().is_empty());
    let d = logger.log_info("kept", "f.rs", 8).unwrap();
    assert!(d.console.is_some());
    assert_eq!(messages(&logger), vec!["kept".to_string()]);
}

#[test]
fn info_is_filtered_when_switched_off() {
    let opts = LoggerOptions { show_info: false, ..Default::default() };
    let mut logger = started(opts, FileOutcome::NoFile);
    let d = logger.log_info("quiet", "f.rs", 1).unwrap();
    assert!(d.console.is_none());
    logger.log_success("loud", "f.rs", 2).unwrap();
    assert_eq!(messages(&logger), vec!["loud".to_string()]);
}

#[test]
fn disabled_logger_drops_every_call() {
    let opts = LoggerOptions { no_console: false, ..Default::default() };
    let mut logger = started(opts, FileOutcome::Opened);
    let d = logger.log_critical("lost", "f.rs", 1).unwrap();
    assert!(d.console.is_none());
    assert!(matches!(d.persist, Persist::Skip));
    assert!(logger.get_logs().unwrap().is_empty());
}

#[test]
fn formatting_twice_gives_the_same_text() {
    let entry = LogEntry::new("02:03 04:05".to_string(), LogLevel::Error, "boom", Some("a.rs".to_string()), Some(9));
    assert_eq!(entry.format(false, false), entry.format(false, false));
    assert_eq!(entry.format(true, true), entry.clone().format(true, true));
    assert_eq!(entry.format(true, true), "[a.rs:9]: boom");
    assert_eq!(entry.format(false, true), "[ERROR][a.rs:9]: boom");
}

#[test]
fn format_without_origin_and_with_file_only() {
    let bare = LogEntry::new("02:03 04:05".to_string(), LogLevel::Success, "done", None, None);
    assert_eq!(bare.format(false, false), "[02:03 04:05] [SUCCESS]: done");
    let file_only = LogEntry::new("02:03 04:05".to_string(), LogLevel::Critical, "bad", Some("x.rs".to_string()), None);
    assert_eq!(file_only.format(false, false), "[02:03 04:05] [CRITICAL][x.rs]: bad");
    let big = LogEntry::new("t".to_string(), LogLevel::Debug, "n", None, Some(4294967295));
    assert_eq!(big.format(true, true), "[line 4294967295]: n");
    let zero = LogEntry::new("t".to_string(), LogLevel::Debug, "n", None, Some(0));
    assert_eq!(zero.format(true, true), "[line 0]: n");
}

#[test]
fn level_names() {
    assert_eq!(LogLevel::Critical.to_string(), "CRITICAL");
    assert_eq!(LogLevel::Error.to_string(), "ERROR");
    assert_eq!(LogLevel::Warn.to_string(), "WARN");
    assert_eq!(LogLevel::Info.to_string(), "INFO");
    assert_eq!(LogLevel::Debug.to_string(), "DEBUG");
    assert_eq!(LogLevel::Success.to_string(), "SUCCESS");
}

#[test]
fn suppression_spares_debug_and_critical() {
    let opts = LoggerOptions { no_file_name: true, no_line_num: true, ..Default::default() };
    let mut logger = started(opts, FileOutcome::NoFile);
    for level in [LogLevel::Info, LogLevel::Warn, LogLevel::Error, LogLevel::Success] {
        logger.log(level, "m", "src.rs", 5).unwrap();
        let logs = logger.get_logs().unwrap();
        let e = logs.last().unwrap();
        assert!(e.file.is_none() && e.line.is_none());
    }
    for level in [LogLevel::Debug, LogLevel::Critical] {
        logger.log(level, "m", "src.rs", 5).unwrap();
        let logs = logger.get_logs().unwrap();
        let e = logs.last().unwrap();
        assert_eq!(e.file.as_deref(), Some("src.rs"));
        assert_eq!(e.line, Some(5));
    }
}

#[test]
fn suppression_flags_are_independent() {
    let mut logger = started(LoggerOptions { no_file_name: true, ..Default::default() }, FileOutcome::NoFile);
    logger.log_info("m", "src.rs", 5).unwrap();
    let logs = logger.get_logs().unwrap();
    assert!(logs[0].file.is_none());
    assert_eq!(logs[0].line, Some(5));
    let mut logger = started(LoggerOptions { no_line_num: true, ..Default::default() }, FileOutcome::NoFile);
    logger.log_info("m", "src.rs", 5).unwrap();
    let logs = logger.get_logs().unwrap();
    assert_eq!(logs[0].file.as_deref(), Some("src.rs"));
    assert!(logs[0].line.is_none());
}

#[test]
fn routing_is_exclusive() {
    let opts = LoggerOptions { color_output: false, ..Default::default() };
    let mut logger = started(opts, FileOutcome::NoFile);
    let d = logger.log_at("01:02 03:04".to_string(), LogLevel::Error, "e", "f.rs", 1).unwrap();
    let line = d.console.unwrap();
    assert_eq!(line.stream, ConsoleStream::Stderr);
    assert_eq!(line.render(), "[01:02 03:04] [ERROR][f.rs:1]: e");
    let d = logger.log_at("01:02 03:04".to_string(), LogLevel::Critical, "c", "f.rs", 1).unwrap();
    assert_eq!(d.console.unwrap().stream, ConsoleStream::Stderr);
    let d = logger.log_at("01:02 03:04".to_string(), LogLevel::Info, "i", "f.rs", 2).unwrap();
    let line = d.console.unwrap();
    assert_eq!(line.stream, ConsoleStream::Stdout);
    assert_eq!(line.text, "[01:02 03:04] [INFO][f.rs:2]: i");
}

#[test]
fn routing_with_one_stream_only() {
    let opts = LoggerOptions { log_to_stderr: false, ..Default::default() };
    let mut logger = started(opts, FileOutcome::NoFile);
    assert_eq!(logger.log_err("e", "f.rs", 1).unwrap().console.unwrap().stream, ConsoleStream::Stdout);
    let opts = LoggerOptions { log_to_stdout: false, ..Default::default() };
    let mut logger = started(opts, FileOutcome::NoFile);
    assert_eq!(logger.log_err("e", "f.rs", 1).unwrap().console.unwrap().stream, ConsoleStream::Stderr);
    assert!(logger.log_info("i", "f.rs", 1).unwrap().console.is_none());
    assert_eq!(messages(&logger), vec!["e".to_string(), "i".to_string()]);
    let opts = LoggerOptions { log_to_stdout: false, log_to_stderr: false, ..Default::default() };
    let mut logger = started(opts, FileOutcome::NoFile);
    assert!(logger.log_critical("c", "f.rs", 1).unwrap().console.is_none());
}

#[test]
fn double_init_is_rejected_and_first_options_stay() {
    let mut logger = Logger::new(false);
    assert!(!logger.is_initialized());
    logger.init(LoggerOptions { max_logs: 2, ..Default::default() }, FileOutcome::NoFile).unwrap();
    let second = logger.init(LoggerOptions { max_logs: 50, ..Default::default() }, FileOutcome::Opened);
    match second {
        Err(LoggerError::AlreadyInitialized) => {}
        other => panic!("unexpected: {:?}", other),
    }
    assert_eq!(LoggerError::AlreadyInitialized.message(), "Logger already initialized");
    for m in ["a", "b", "c", "d"] {
        let d = logger.log_warn(m, "f.rs", 1).unwrap();
        assert!(matches!(d.persist, Persist::Skip));
    }
    assert_eq!(logger.get_logs().unwrap().len(), 2);
}

#[test]
fn use_before_init_fails() {
    let mut logger = Logger::new(false);
    assert!(matches!(logger.get_logs(), Err(LoggerError::NotInitialized)));
    assert!(matches!(logger.log_info("m", "f.rs", 1), Err(LoggerError::NotInitialized)));
    assert_eq!(LoggerError::NotInitialized.message(), "Logger not initialized");
}

#[test]
fn failed_file_aborts_init() {
    let mut logger = Logger::new(false);
    let r = logger.init(LoggerOptions::default(), FileOutcome::OpenFailed("denied".to_string()));
    match r {
        Err(e @ LoggerError::OpenFile(_)) => assert_eq!(e.message(), "Failed to open log file: denied"),
        other => panic!("unexpected: {:?}", other),
    }
    assert!(!logger.is_initialized());
    let r = logger.init(LoggerOptions::default(), FileOutcome::DirFailed("no space".to_string()));
    match r {
        Err(e @ LoggerError::CreateDir(_)) => assert_eq!(e.message(), "no space"),
        other => panic!("unexpected: {:?}", other),
    }
    assert!(!logger.is_initialized());
    let s = logger.init(LoggerOptions::default(), FileOutcome::Opened).unwrap();
    assert_eq!(s.sink, SinkKind::SyncFile);
    assert!(s.warning.is_none());
}

#[test]
fn sync_sink_writes_the_line_with_a_line_end() {
    let mut logger = started(LoggerOptions::default(), FileOutcome::Opened);
    let d = logger.log_at("09:10 11:12".to_string(), LogLevel::Success, "ok", "m.rs", 3).unwrap();
    match d.persist {
        Persist::Write(text) => assert_eq!(text, "[09:10 11:12] [SUCCESS][m.rs:3]: ok\n"),
        other => panic!("unexpected: {:?}", other),
    }
}

#[test]
fn timestamp_has_the_documented_shape() {
    let mut logger = started(LoggerOptions::default(), FileOutcome::NoFile);
    logger.log_info("m", "f.rs", 1).unwrap();
    let logs = logger.get_logs().unwrap();
    let stamp: Vec<char> = logs[0].timestamp.chars().collect();
    assert_eq!(stamp.len(), 11);
    for (i, c) in stamp.iter().enumerate() {
        match i {
            2 | 8 => assert_eq!(*c, ':'),
            5 => assert_eq!(*c, ' '),
            _ => assert!(c.is_ascii_digit()),
        }
    }
    let day: u32 = logs[0].timestamp[0..2].parse().unwrap();
    let month: u32 = logs[0].timestamp[3..5].parse().unwrap();
    assert!((1..=31).contains(&day) && (1..=12).contains(&month));
}

#[test]
fn defaults() {
    let o = LoggerOptions::default();
    assert!(o.no_console && o.log_to_stdout && o.log_to_stderr && o.color_output);
    assert!(o.show_debug && o.show_info);
    assert_eq!(o.max_logs, 500);
    assert!(!o.truncate_previous_logs && !o.no_file_name && !o.no_line_num);
    assert!(o.log_dir.is_none() && o.log_name_format.is_none() && o.custom_log_styles.is_none());
}

#[test]
fn plan_without_file() {
    let plan = Logger::plan_init(None, &LoggerOptions::default(), None);
    assert!(plan.path.is_none() && plan.create_dir.is_none());
    assert!(plan.mode.append && !plan.mode.truncate);
    let plan = Logger::plan_init(Some(""), &LoggerOptions::default(), None);
    assert!(plan.path.is_none());
    let opts = LoggerOptions { log_name_format: Some("<>".to_string()), ..Default::default() };
    assert!(Logger::plan_init(Some("x.log"), &opts, None).path.is_none());
    let opts = LoggerOptions { log_name_format: Some("fixed.log".to_string()), ..Default::default() };
    assert_eq!(Logger::plan_init(Some("x.log"), &opts, None).path, Some("fixed.log".to_string()));
    let opts = LoggerOptions {
        log_name_format: Some("fixed.log".to_string()),
        log_dir: Some("logs".to_string()),
        ..Default::default()
    };
    let joined = Logger::plan_init(None, &opts, None).path.unwrap();
    assert!(joined.starts_with("logs") && joined.ends_with("fixed.log") && joined.len() == 14);
}
