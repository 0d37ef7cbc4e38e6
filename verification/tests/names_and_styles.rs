use az_logger::{
    expand_log_name_at, expand_log_name_fmt, sanitize_filename, Clock, Color, FileOutcome,
    LogFormatStyle, LogFormatStyles, LogLevel, Logger, LoggerOptions, Paint, Style,
};

fn clock() -> Clock {
    Clock {
        day: 7,
        month: 4,
        hour: 13,
        minute: 9,
        second: 45,
        year: "2025".to_string(),
        year_short: "25".to_string(),
        unix: 1713706800,
    }
}

#[test]
fn sanitize_removes_the_unsafe_characters() {
    assert_eq!(sanitize_filename("a<b>c\"d\\e/f|g?h*i:j"), "abcdefghij");
    assert_eq!(sanitize_filename("plain_name-1.log"), "plain_name-1.log");
    assert_eq!(sanitize_filename(""), "");
    assert_eq!(sanitize_filename("<>"), "");
    assert_eq!(sanitize_filename("héllo:wörld"), "héllowörld");
}

#[test]
fn expansion_replaces_every_token() {
    let c = clock();
    assert_eq!(
        expand_log_name_at("<exe>_<yyyy>-<mm>-<dd>_<HH><MM><SS>.log", Some("myapp"), &c),
        "myapp_2025-04-07_130945.log"
    );
    assert_eq!(expand_log_name_at("<yy>/<timestamp>", Some("x"), &c), "251713706800");
    assert_eq!(expand_log_name_at("<exe><exe>", None, &c), "az_logaz_log");
    assert_eq!(expand_log_name_at("<dd<dd>>", Some("x"), &c), "dd07");
    assert_eq!(expand_log_name_at("<unknown>_<DD>", Some("x"), &c), "unknown_DD");
    assert_eq!(expand_log_name_at("", Some("x"), &c), "");
}

#[test]
fn expansion_goes_token_by_token() {
    let c = clock();
    // The program's name is itself subject to the later replacements.
    assert_eq!(expand_log_name_at("<exe>", Some("a<dd>b"), &c), "a07b");
    let negative = Clock { unix: -5, day: 31, month: 12, hour: 0, minute: 0, second: 0, ..clock() };
    assert_eq!(expand_log_name_at("<timestamp>_<dd><mm><HH><MM><SS>", Some("x"), &negative), "-5_3112000000");
    let smallest = Clock { unix: i64::MIN, ..clock() };
    assert_eq!(expand_log_name_at("<timestamp>", Some("x"), &smallest), "-9223372036854775808");
}

#[test]
fn stamp_pads_to_two_digits() {
    assert_eq!(clock().stamp(), "07:04 13:09");
    let c = Clock { day: 31, month: 12, hour: 0, minute: 59, ..clock() };
    assert_eq!(c.stamp(), "31:12 00:59");
}

#[test]
fn template_expansion_is_safe_and_keeps_the_extension() {
    let name = expand_log_name_fmt("<exe>_<dd>_<mm>_<HH><MM><SS>.log", Some("prog"));
    assert!(!name.contains('<') && !name.contains('>'));
    assert!(name.ends_with(".log"));
    assert!(name.starts_with("prog_"));
    assert_eq!(name.len(), "prog_00_00_000000.log".len());
    let year = expand_log_name_fmt("<yyyy>|<yy>", None);
    assert_eq!(year.len(), 6);
    assert!(year.chars().all(|c| c.is_ascii_digit()));
    assert_eq!(&year[2..4], &year[4..6]);
}

#[test]
fn plain_paint_leaves_text_alone() {
    assert_eq!(Paint::Plain.render("text"), "text");
    let mut logger = Logger::new(false);
    assert_eq!(logger.apply_log_color(&LogLevel::Error, "early"), "early");
    logger.init(LoggerOptions { color_output: false, ..Default::default() }, FileOutcome::NoFile).unwrap();
    assert_eq!(logger.apply_log_color(&LogLevel::Error, "msg"), "msg");
}

#[test]
fn builtin_scheme_in_escape_codes() {
    colored::control::set_override(true);
    assert_eq!(Paint::BuiltIn(LogLevel::Debug).render("m"), "\x1b[40;33mm\x1b[0m");
    assert_eq!(Paint::BuiltIn(LogLevel::Error).render("m"), "\x1b[1;91mm\x1b[0m");
    assert_eq!(Paint::BuiltIn(LogLevel::Warn).render("m"), "\x1b[33mm\x1b[0m");
    assert_eq!(Paint::BuiltIn(LogLevel::Info).render("m"), "\x1b[36mm\x1b[0m");
    assert_eq!(Paint::BuiltIn(LogLevel::Success).render("m"), "\x1b[32mm\x1b[0m");
    assert_eq!(Paint::BuiltIn(LogLevel::Critical).render("m"), "\x1b[1;106;91mm\x1b[0m");
    assert_eq!(LogFormatStyle::warning().apply("w").to_string(), "\x1b[1;4;91mw\x1b[0m");
    colored::control::set_override(false);
    assert_eq!(Paint::BuiltIn(LogLevel::Debug).render("m"), "m");
}

fn style(fg: Option<Color>) -> LogFormatStyle {
    LogFormatStyle { fg, bg: None, style: Style::default() }
}

#[test]
fn custom_styles_override_the_builtin_scheme() {
    colored::control::set_override(true);
    let styles = LogFormatStyles {
        error: LogFormatStyle { fg: Some(Color::Red), bg: Some(Color::Black), style: Style::default().bold().underline() },
        warn: style(Some(Color::Magenta)),
        info: style(Some(Color::Blue)),
        debug: style(None),
        success: style(Some(Color::White)),
        critical: style(Some(Color::Green)),
    };
    let styled = styles.error.apply("Critical error!");
    assert_eq!(styled.text, "Critical error!");
    assert_eq!(styled.fg, Some(Color::Red));
    assert_eq!(styled.bg, Some(Color::Black));
    assert_eq!(styled.style, Style::default().bold().underline());
    assert_eq!(styled.to_string(), "\x1b[1;4;40;31mCritical error!\x1b[0m");
    let mut logger = Logger::new(false);
    logger.init(LoggerOptions { custom_log_styles: Some(styles), ..Default::default() }, FileOutcome::NoFile).unwrap();
    assert_eq!(logger.apply_log_color(&LogLevel::Info, "i"), "\x1b[34mi\x1b[0m");
    assert_eq!(logger.apply_log_color(&LogLevel::Debug, "d"), "d");
    assert_eq!(logger.apply_log_color(&LogLevel::Critical, "c"), "\x1b[32mc\x1b[0m");
    let d = logger.log_at("01:01 01:01".to_string(), LogLevel::Warn, "w", "f.rs", 1).unwrap();
    let line = d.console.unwrap();
    assert_eq!(line.text, "[01:01 01:01] [WARN][f.rs:1]: w");
    assert_eq!(line.render(), "\x1b[35m[01:01 01:01] [WARN][f.rs:1]: w\x1b[0m");
    assert!(matches!(line.paint, Paint::Custom(_)));
    assert_eq!(styles.for_level(LogLevel::Success).fg, Some(Color::White));
}
