//! A leveled, bounded logging core.
//!
//! The crate decides what a log call does: whether it is accepted, what entry
//! is kept in memory, what text goes to which sink. Writing to the console or to
//! a file is left to the caller, which carries out the returned instructions.

pub mod async_utils;
pub mod buffer;
pub mod clock;
pub mod laws;
pub mod log_entry;
pub mod logger;
pub mod options;
pub mod style;
pub mod text;
pub mod utils;

pub use async_utils::{AsyncWriter, WriterAction, WriterEvent, WriterPhase};
pub use buffer::RingBuffer;
pub use clock::Clock;
pub use colored::{Color, Style};
pub use log_entry::{LogEntry, LogEntryView, LogLevel};
pub use logger::{
    ConsoleLine, Dispatch, FileMode, FileOutcome, InitPlan, Logger, LoggerError, Persist, SinkKind,
    Startup,
};
pub use options::{ConsoleStream, LoggerOptions};
pub use style::{LogFormatStyle, LogFormatStyles, Paint, StyledText};
pub use utils::{expand_log_name_at, expand_log_name_fmt, sanitize_filename};
