//! Logger configuration, and the rules that follow from it alone: which calls
//! are accepted, what origin an entry keeps, which stream a line goes to and
//! how it is decorated.

use crate::log_entry::{LogEntryView, LogLevel};
use crate::style::{LogFormatStyles, Paint};
use vstd::prelude::*;

verus! {

/// Configuration options for a logger.
#[derive(Debug)]
pub struct LoggerOptions {
    /// Switches logging on or off as a whole. Despite its name, logging is on
    /// where the flag is `true`, and every call is dropped where it is `false`.
    pub no_console: bool,
    /// If true, logs will be printed to stdout.
    pub log_to_stdout: bool,
    /// If true, errors and critical logs will be printed to stderr.
    pub log_to_stderr: bool,
    /// Enables or disables colored terminal output.
    pub color_output: bool,
    /// Whether debug-level logs should be emitted.
    pub show_debug: bool,
    /// Whether info-level logs should be emitted.
    pub show_info: bool,
    /// Maximum number of logs retained in memory.
    pub max_logs: usize,
    /// If `true`, the existing log file (if any) is truncated when the logger
    /// starts. Otherwise, new logs are appended to it.
    pub truncate_previous_logs: bool,
    /// Optional template for the log file's name, with tokens such as `<exe>`,
    /// `<dd>`, `<mm>`, `<HH>`, `<MM>`, `<SS>`, `<yy>`, `<yyyy>` and `<timestamp>`.
    pub log_name_format: Option<String>,
    /// Optional directory where log files are stored. It is created if absent.
    pub log_dir: Option<String>,
    /// Optional custom color configuration for each log level.
    pub custom_log_styles: Option<LogFormatStyles>,
    /// Turns off the line number for every level but debug and critical.
    pub no_line_num: bool,
    /// Turns off the file name for every level but debug and critical.
    pub no_file_name: bool,
}

impl Default for LoggerOptions {
    fn default() -> (options: Self)
        ensures
            options.no_console,
            options.log_to_stdout,
            options.log_to_stderr,
            options.color_output,
            options.show_debug,
            options.show_info,
            options.max_logs == 500,
            !options.truncate_previous_logs,
            options.log_dir is None,
            options.log_name_format is None,
            options.custom_log_styles is None,
            !options.no_file_name,
            !options.no_line_num,
    {
        Self {
            no_console: true,
            log_to_stdout: true,
            log_to_stderr: true,
            color_output: true,
            show_debug: true,
            show_info: true,
            max_logs: 500,
            truncate_previous_logs: false,
            log_dir: None,
            log_name_format: None,
            custom_log_styles: None,
            no_file_name: false,
            no_line_num: false,
        }
    }
}

/// The console stream a line is printed to.
#[derive(Debug, PartialEq, Eq, Structural, Clone, Copy)]
pub enum ConsoleStream {
    Stdout,
    Stderr,
}

/// Whether a level always keeps its origin, whatever the suppression flags say.
pub open spec fn keeps_origin(level: LogLevel) -> bool {
    level is Debug || level is Critical
}

impl LoggerOptions {
    /// Whether a call at `level` is accepted: logging is on, and the level is
    /// not filtered out. Only `Debug` and `Info` can be filtered out.
    pub open spec fn accepts(&self, level: LogLevel) -> bool {
        &&& self.no_console
        &&& !(level is Debug && !self.show_debug)
        &&& !(level is Info && !self.show_info)
    }

    /// The file that the stored entry carries.
    pub open spec fn kept_file(&self, level: LogLevel, file: Seq<char>) -> Option<Seq<char>> {
        if self.no_file_name && !keeps_origin(level) {
            None
        } else {
            Some(file)
        }
    }

    /// The line number that the stored entry carries.
    pub open spec fn kept_line(&self, level: LogLevel, line: u32) -> Option<u32> {
        if self.no_line_num && !keeps_origin(level) {
            None
        } else {
            Some(line)
        }
    }

    /// The entry stored for an accepted call.
    pub open spec fn stored_entry(
        &self,
        timestamp: Seq<char>,
        level: LogLevel,
        message: Seq<char>,
        file: Seq<char>,
        line: u32,
    ) -> LogEntryView {
        LogEntryView {
            timestamp,
            level,
            file: self.kept_file(level, file),
            line: self.kept_line(level, line),
            message,
        }
    }

    /// The stream on which a line of `level` is printed, if on any. `Error` and
    /// `Critical` go to stderr where that is enabled; what does not go to
    /// stderr goes to stdout where that is enabled.
    pub open spec fn stream_for(&self, level: LogLevel) -> Option<ConsoleStream> {
        if (level is Error || level is Critical) && self.log_to_stderr {
            Some(ConsoleStream::Stderr)
        } else if self.log_to_stdout {
            Some(ConsoleStream::Stdout)
        } else {
            None
        }
    }

    /// The decoration of a console line of `level`.
    pub open spec fn paint_for(&self, level: LogLevel) -> Paint {
        if !self.color_output {
            Paint::Plain
        } else {
            match self.custom_log_styles {
                Some(styles) => Paint::Custom(styles.spec_for_level(level)),
                None => Paint::BuiltIn(level),
            }
        }
    }

    /// Whether a call at `level` is accepted.
    pub fn is_accepted(&self, level: LogLevel) -> (accepted: bool)
        ensures
            accepted == self.accepts(level),
    {
        if !self.no_console {
            return false;
        }
        match level {
            LogLevel::Debug => self.show_debug,
            LogLevel::Info => self.show_info,
            _ => true,
        }
    }

    /// The stream on which a line of `level` is printed, if on any.
    pub fn console_stream(&self, level: LogLevel) -> (stream: Option<ConsoleStream>)
        ensures
            stream == self.stream_for(level),
    {
        let to_stderr = match level {
            LogLevel::Error | LogLevel::Critical => self.log_to_stderr,
            _ => false,
        };
        if to_stderr {
            Some(ConsoleStream::Stderr)
        } else if self.log_to_stdout {
            Some(ConsoleStream::Stdout)
        } else {
            None
        }
    }

    /// The decoration of a console line of `level`.
    pub fn console_paint(&self, level: LogLevel) -> (paint: Paint)
        ensures
            paint == self.paint_for(level),
    {
        if !self.color_output {
            Paint::Plain
        } else {
            match self.custom_log_styles {
                Some(styles) => Paint::Custom(styles.for_level(level)),
                None => Paint::BuiltIn(level),
            }
        }
    }
}

} // verus!
