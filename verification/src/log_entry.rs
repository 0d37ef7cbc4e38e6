//! Log levels and log entries, and how an entry is rendered as one line.

use crate::text::{decimal, push_char, push_decimal};
use vstd::prelude::*;
use vstd::string::*;

verus! {

/// Severity level of a log entry.
#[derive(Debug, PartialEq, Eq, Structural, Clone, Copy)]
pub enum LogLevel {
    /// Used for unrecoverable fatal issues.
    Critical,
    /// Used for runtime errors or failures.
    Error,
    /// Used for warning conditions.
    Warn,
    /// Used for general informational messages.
    Info,
    /// Used for debugging-level diagnostics.
    Debug,
    /// Used to indicate successful operations.
    Success,
}

impl LogLevel {
    /// The upper-case name under which the level appears in a rendered line.
    pub open spec fn label(self) -> Seq<char> {
        match self {
            LogLevel::Critical => seq!['C', 'R', 'I', 'T', 'I', 'C', 'A', 'L'],
            LogLevel::Error => seq!['E', 'R', 'R', 'O', 'R'],
            LogLevel::Warn => seq!['W', 'A', 'R', 'N'],
            LogLevel::Info => seq!['I', 'N', 'F', 'O'],
            LogLevel::Debug => seq!['D', 'E', 'B', 'U', 'G'],
            LogLevel::Success => seq!['S', 'U', 'C', 'C', 'E', 'S', 'S'],
        }
    }

    /// The level's name as a string slice.
    pub fn as_str(&self) -> (name: &'static str)
        ensures
            name@ == self.label(),
    {
        match self {
            LogLevel::Critical => {
                proof {
                    reveal_strlit("CRITICAL");
                }
                assert("CRITICAL"@ =~= self.label());
                "CRITICAL"
            },
            LogLevel::Error => {
                proof {
                    reveal_strlit("ERROR");
                }
                assert("ERROR"@ =~= self.label());
                "ERROR"
            },
            LogLevel::Warn => {
                proof {
                    reveal_strlit("WARN");
                }
                assert("WARN"@ =~= self.label());
                "WARN"
            },
            LogLevel::Info => {
                proof {
                    reveal_strlit("INFO");
                }
                assert("INFO"@ =~= self.label());
                "INFO"
            },
            LogLevel::Debug => {
                proof {
                    reveal_strlit("DEBUG");
                }
                assert("DEBUG"@ =~= self.label());
                "DEBUG"
            },
            LogLevel::Success => {
                proof {
                    reveal_strlit("SUCCESS");
                }
                assert("SUCCESS"@ =~= self.label());
                "SUCCESS"
            },
        }
    }

    /// The level's name as an owned string.
    pub fn to_string(&self) -> (name: String)
        ensures
            name@ == self.label(),
    {
        self.as_str().to_owned()
    }
}

/// Represents a single log entry with metadata.
#[derive(Debug)]
pub struct LogEntry {
    /// Timestamp in `dd:mm HH:MM` format.
    pub timestamp: String,
    /// Severity level of the log.
    pub level: LogLevel,
    /// Optional file path where the log originated.
    pub file: Option<String>,
    /// Optional line number in the source file.
    pub line: Option<u32>,
    /// Actual log message content.
    pub message: String,
}

/// What a log entry holds, as mathematical values.
pub struct LogEntryView {
    pub timestamp: Seq<char>,
    pub level: LogLevel,
    pub file: Option<Seq<char>>,
    pub line: Option<u32>,
    pub message: Seq<char>,
}

impl LogEntryView {
    /// The timestamp in square brackets and a space, or nothing where the date is hidden.
    pub open spec fn date_part(self, no_date: bool) -> Seq<char> {
        if no_date {
            Seq::empty()
        } else {
            seq!['['] + self.timestamp + seq![']', ' ']
        }
    }

    /// The level's name in square brackets, or nothing where the level is hidden.
    pub open spec fn level_part(self, hide_level: bool) -> Seq<char> {
        if hide_level {
            Seq::empty()
        } else {
            seq!['['] + self.level.label() + seq![']']
        }
    }

    /// The origin in square brackets: `[file:line]`, `[file]`, `[line N]`, or
    /// nothing where the entry carries neither.
    pub open spec fn location_part(self) -> Seq<char> {
        match (self.file, self.line) {
            (Some(file), Some(line)) => seq!['['] + file + seq![':'] + decimal(line as nat)
                + seq![']'],
            (Some(file), None) => seq!['['] + file + seq![']'],
            (None, Some(line)) => seq!['[', 'l', 'i', 'n', 'e', ' '] + decimal(line as nat)
                + seq![']'],
            (None, None) => Seq::empty(),
        }
    }

    /// The entry as one line of text, without a line end:
    /// date, level, origin, a colon and a space, then the message.
    pub open spec fn rendered(self, hide_level: bool, no_date: bool) -> Seq<char> {
        self.date_part(no_date) + self.level_part(hide_level) + self.location_part() + seq![
            ':',
            ' ',
        ] + self.message
    }
}

impl View for LogEntry {
    type V = LogEntryView;

    open spec fn view(&self) -> LogEntryView {
        LogEntryView {
            timestamp: self.timestamp@,
            level: self.level,
            file: match self.file {
                Some(f) => Some(f@),
                None => None,
            },
            line: self.line,
            message: self.message@,
        }
    }
}

/// The views of a sequence of entries, in the same order.
pub open spec fn entry_views(entries: Seq<LogEntry>) -> Seq<LogEntryView> {
    entries.map_values(|e: LogEntry| e@)
}

impl Clone for LogEntry {
    fn clone(&self) -> (copy: Self)
        ensures
            copy == *self,
    {
        LogEntry {
            timestamp: self.timestamp.clone(),
            level: self.level,
            file: match &self.file {
                Some(f) => Some(f.clone()),
                None => None,
            },
            line: self.line,
            message: self.message.clone(),
        }
    }
}

impl LogEntry {
    /// Builds an entry from its parts.
    pub fn new(
        timestamp: String,
        level: LogLevel,
        message: &str,
        file: Option<String>,
        line: Option<u32>,
    ) -> (entry: Self)
        ensures
            entry.timestamp == timestamp,
            entry.level == level,
            entry.file == file,
            entry.line == line,
            entry.message@ == message@,
    {
        Self { timestamp, level, line, file, message: message.to_owned() }
    }

    /// Appends the date part of the rendered line.
    fn push_date(&self, out: &mut String, no_date: bool)
        ensures
            final(out)@ == old(out)@ + self@.date_part(no_date),
    {
        if !no_date {
            push_char(out, '[');
            out.append(self.timestamp.as_str());
            push_char(out, ']');
            push_char(out, ' ');
        }
        assert(out@ =~= old(out)@ + self@.date_part(no_date));
    }

    /// Appends the level part of the rendered line.
    fn push_level(&self, out: &mut String, hide_level: bool)
        ensures
            final(out)@ == old(out)@ + self@.level_part(hide_level),
    {
        if !hide_level {
            push_char(out, '[');
            out.append(self.level.as_str());
            push_char(out, ']');
        }
        assert(out@ =~= old(out)@ + self@.level_part(hide_level));
    }

    /// Appends the origin part of the rendered line.
    fn push_location(&self, out: &mut String)
        ensures
            final(out)@ == old(out)@ + self@.location_part(),
    {
        match (&self.file, self.line) {
            (Some(file), Some(number)) => {
                push_char(out, '[');
                out.append(file.as_str());
                push_char(out, ':');
                push_decimal(out, number as u64);
                push_char(out, ']');
            },
            (Some(file), None) => {
                push_char(out, '[');
                out.append(file.as_str());
                push_char(out, ']');
            },
            (None, Some(number)) => {
                proof {
                    reveal_strlit("[line ");
                }
                out.append("[line ");
                push_decimal(out, number as u64);
                push_char(out, ']');
            },
            (None, None) => {},
        }
        assert(out@ =~= old(out)@ + self@.location_part());
    }

    /// Renders the entry as one line of text, without a line end.
    ///
    /// `hide_level` leaves the level out, `no_date` leaves the timestamp out.
    pub fn format(&self, hide_level: bool, no_date: bool) -> (line: String)
        ensures
            line@ == self@.rendered(hide_level, no_date),
    {
        let mut out = String::new();
        self.push_date(&mut out, no_date);
        self.push_level(&mut out, hide_level);
        self.push_location(&mut out);
        push_char(&mut out, ':');
        push_char(&mut out, ' ');
        out.append(self.message.as_str());
        assert(out@ =~= self@.rendered(hide_level, no_date));
        out
    }
}

} // verus!
