//! The background writer: the decisions of the task that owns the log file
//! and writes queued entries to it, one at a time.
//!
//! The task itself runs elsewhere. It asks the writer what to do, does it, and
//! reports what happened; the writer answers with the next thing to do.

use crate::log_entry::{LogEntry, LogEntryView};
use crate::logger::{FileMode, Logger};
use crate::text::push_char;
use vstd::prelude::*;
use vstd::string::*;

verus! {

/// Where the background writer stands.
#[derive(Debug, PartialEq, Eq, Structural, Clone, Copy)]
pub enum WriterPhase {
    /// The file is not open yet.
    Opening,
    /// The file is open; entries are received and written.
    Running,
    /// The task has ended.
    Stopped,
}

/// What the task observed.
#[derive(Debug)]
pub enum WriterEvent {
    /// The file was opened.
    Opened,
    /// The file could not be opened; the text is the system's reason.
    OpenFailed(String),
    /// An entry arrived on the queue.
    Received(LogEntry),
    /// The last text was written.
    Written,
    /// The last text could not be written; the text is the system's reason.
    WriteFailed(String),
    /// Every sender is gone: the queue is closed.
    Closed,
}

/// What the task is to do next.
#[derive(Debug)]
pub enum WriterAction {
    /// Open the file at this path in this mode.
    Open { path: String, mode: FileMode },
    /// Report the text, if any, on stderr, then wait for the next entry.
    Receive { report: Option<String> },
    /// Write this text to the file.
    Write(String),
    /// Report the text, if any, on stderr, then end the task.
    Stop { report: Option<String> },
}

/// An event as mathematical values.
pub enum WriterEventView {
    Opened,
    OpenFailed(Seq<char>),
    Received(LogEntryView),
    Written,
    WriteFailed(Seq<char>),
    Closed,
}

/// An action as mathematical values.
pub enum WriterActionView {
    Open { path: Seq<char>, mode: FileMode },
    Receive { report: Option<Seq<char>> },
    Write(Seq<char>),
    Stop { report: Option<Seq<char>> },
}

impl View for WriterEvent {
    type V = WriterEventView;

    open spec fn view(&self) -> WriterEventView {
        match self {
            WriterEvent::Opened => WriterEventView::Opened,
            WriterEvent::OpenFailed(reason) => WriterEventView::OpenFailed(reason@),
            WriterEvent::Received(entry) => WriterEventView::Received(entry@),
            WriterEvent::Written => WriterEventView::Written,
            WriterEvent::WriteFailed(reason) => WriterEventView::WriteFailed(reason@),
            WriterEvent::Closed => WriterEventView::Closed,
        }
    }
}

impl View for WriterAction {
    type V = WriterActionView;

    open spec fn view(&self) -> WriterActionView {
        match self {
            WriterAction::Open { path, mode } => WriterActionView::Open { path: path@, mode: *mode },
            WriterAction::Receive { report } => WriterActionView::Receive {
                report: match report {
                    Some(text) => Some(text@),
                    None => None,
                },
            },
            WriterAction::Write(text) => WriterActionView::Write(text@),
            WriterAction::Stop { report } => WriterActionView::Stop {
                report: match report {
                    Some(text) => Some(text@),
                    None => None,
                },
            },
        }
    }
}

/// The report of a failure to open the file.
pub open spec fn open_failure(reason: Seq<char>) -> Seq<char> {
    "Failed to open async log file: "@ + reason
}

/// The report of a failure to write.
pub open spec fn write_failure(reason: Seq<char>) -> Seq<char> {
    "Logger async write error: "@ + reason
}

/// The phase after an event.
///
/// The file opens once; a failure to open ends the task. A running task
/// keeps running through writes and failed writes, and ends when the queue
/// is closed. An event that does not belong to the phase ends the task.
pub open spec fn next_phase(phase: WriterPhase, event: WriterEventView) -> WriterPhase {
    match (phase, event) {
        (WriterPhase::Opening, WriterEventView::Opened) => WriterPhase::Running,
        (WriterPhase::Running, WriterEventView::Received(_)) => WriterPhase::Running,
        (WriterPhase::Running, WriterEventView::Written) => WriterPhase::Running,
        (WriterPhase::Running, WriterEventView::WriteFailed(_)) => WriterPhase::Running,
        _ => WriterPhase::Stopped,
    }
}

/// The action that answers an event.
pub open spec fn next_action(
    phase: WriterPhase,
    hide_level: bool,
    hide_date: bool,
    event: WriterEventView,
) -> WriterActionView {
    match (phase, event) {
        (WriterPhase::Opening, WriterEventView::Opened) => WriterActionView::Receive {
            report: None,
        },
        (WriterPhase::Opening, WriterEventView::OpenFailed(reason)) => WriterActionView::Stop {
            report: Some(open_failure(reason)),
        },
        (WriterPhase::Running, WriterEventView::Received(entry)) => WriterActionView::Write(
            entry.rendered(hide_level, hide_date).push('\n'),
        ),
        (WriterPhase::Running, WriterEventView::Written) => WriterActionView::Receive {
            report: None,
        },
        (WriterPhase::Running, WriterEventView::WriteFailed(reason)) => WriterActionView::Receive {
            report: Some(write_failure(reason)),
        },
        _ => WriterActionView::Stop { report: None },
    }
}

/// The background writer's state.
#[derive(Debug)]
pub struct AsyncWriter {
    path: String,
    truncate: bool,
    hide_level: bool,
    hide_date: bool,
    phase: WriterPhase,
}

impl AsyncWriter {
    /// The path of the file that the writer owns.
    pub closed spec fn path(&self) -> Seq<char> {
        self.path@
    }

    /// Whether the file is truncated on opening.
    pub closed spec fn truncate(&self) -> bool {
        self.truncate
    }

    /// Whether written lines leave the level out.
    pub closed spec fn hide_level(&self) -> bool {
        self.hide_level
    }

    /// Whether written lines leave the date out.
    pub closed spec fn hide_date(&self) -> bool {
        self.hide_date
    }

    /// Where the writer stands.
    pub closed spec fn phase(&self) -> WriterPhase {
        self.phase
    }

    /// Where the writer stands.
    pub fn current_phase(&self) -> (phase: WriterPhase)
        ensures
            phase == self.phase(),
    {
        self.phase
    }

    /// The first thing the task does: open the file.
    pub fn start(&self) -> (action: WriterAction)
        ensures
            action@ == (WriterActionView::Open {
                path: self.path(),
                mode: crate::logger::file_mode(self.truncate()),
            }),
    {
        WriterAction::Open {
            path: self.path.clone(),
            mode: Logger::create_log_file_options(self.truncate),
        }
    }

    /// Takes in what the task observed and answers with what it is to do next.
    pub fn step(&mut self, event: WriterEvent) -> (action: WriterAction)
        ensures
            final(self).phase() == next_phase(old(self).phase(), event@),
            action@ == next_action(
                old(self).phase(),
                old(self).hide_level(),
                old(self).hide_date(),
                event@,
            ),
            final(self).path() == old(self).path(),
            final(self).truncate() == old(self).truncate(),
            final(self).hide_level() == old(self).hide_level(),
            final(self).hide_date() == old(self).hide_date(),
    {
        let phase = self.phase;
        match (phase, event) {
            (WriterPhase::Opening, WriterEvent::Opened) => {
                self.phase = WriterPhase::Running;
                WriterAction::Receive { report: None }
            },
            (WriterPhase::Opening, WriterEvent::OpenFailed(reason)) => {
                self.phase = WriterPhase::Stopped;
                let mut report = "Failed to open async log file: ".to_owned();
                report.append(reason.as_str());
                WriterAction::Stop { report: Some(report) }
            },
            (WriterPhase::Running, WriterEvent::Received(entry)) => {
                let mut text = entry.format(self.hide_level, self.hide_date);
                push_char(&mut text, '\n');
                WriterAction::Write(text)
            },
            (WriterPhase::Running, WriterEvent::Written) => WriterAction::Receive { report: None },
            (WriterPhase::Running, WriterEvent::WriteFailed(reason)) => {
                let mut report = "Logger async write error: ".to_owned();
                report.append(reason.as_str());
                WriterAction::Receive { report: Some(report) }
            },
            _ => {
                self.phase = WriterPhase::Stopped;
                WriterAction::Stop { report: None }
            },
        }
    }
}

impl Logger {
    /// The writer for a background task that owns the file at `path`.
    ///
    /// `hide_level` and `hide_date` are the flags with which the task renders
    /// each entry.
    pub fn spawn_async_writer(path: &str, truncate: bool, hide_level: bool, hide_date: bool) -> (writer:
        AsyncWriter)
        ensures
            writer.path() == path@,
            writer.truncate() == truncate,
            writer.hide_level() == hide_level,
            writer.hide_date() == hide_date,
            writer.phase() == WriterPhase::Opening,
    {
        AsyncWriter {
            path: path.to_owned(),
            truncate,
            hide_level,
            hide_date,
            phase: WriterPhase::Opening,
        }
    }

    /// The writer for a background task, where a runtime is there to run it.
    pub fn try_spawn_async_writer_with(
        path: &str,
        truncate: bool,
        hide_level: bool,
        hide_date: bool,
        runtime_active: bool,
    ) -> (writer: Option<AsyncWriter>)
        ensures
            writer is Some == runtime_active,
            writer is Some ==> {
                &&& writer->0.path() == path@
                &&& writer->0.truncate() == truncate
                &&& writer->0.hide_level() == hide_level
                &&& writer->0.hide_date() == hide_date
                &&& writer->0.phase() == WriterPhase::Opening
            },
    {
        if !runtime_active {
            return None;
        }
        Some(Logger::spawn_async_writer(path, truncate, hide_level, hide_date))
    }

    /// The writer for a background task, where a tokio runtime is active on
    /// the calling thread; `None` where none is.
    pub fn try_spawn_async_writer(path: &str, truncate: bool, hide_level: bool, hide_date: bool) -> (writer:
        Option<AsyncWriter>)
        ensures
            writer is Some ==> {
                &&& writer->0.path() == path@
                &&& writer->0.truncate() == truncate
                &&& writer->0.hide_level() == hide_level
                &&& writer->0.hide_date() == hide_date
                &&& writer->0.phase() == WriterPhase::Opening
            },
    {
        Logger::try_spawn_async_writer_with(
            path,
            truncate,
            hide_level,
            hide_date,
            crate::logger::runtime_is_active(),
        )
    }
}

} // verus!
