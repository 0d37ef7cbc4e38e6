//! The logger: initialisation at most once, acceptance of log calls, the
//! bounded history, and what each call sends to the console and to the file.
//!
//! The logger performs no input or output. `init` is told how opening the log
//! file went; a log call returns a `Dispatch` that says what to print and what
//! to persist, and the caller carries it out.

use crate::buffer::{bound, retained, RingBuffer};
use crate::clock::{read_local_clock, Clock};
use crate::log_entry::{entry_views, LogEntry, LogEntryView, LogLevel};
use crate::options::{ConsoleStream, LoggerOptions};
use crate::style::Paint;
use crate::text::push_char;
use crate::utils::{expand_log_name_fmt, expanded, program_name};
use vstd::prelude::*;
use vstd::string::*;

verus! {

/// Why a call on the logger failed.
#[derive(Debug)]
pub enum LoggerError {
    /// The logger was used before `init` succeeded.
    NotInitialized,
    /// `init` was called on a logger that is initialised already.
    AlreadyInitialized,
    /// The log directory could not be created; the text is the system's reason.
    CreateDir(String),
    /// The log file could not be opened; the text is the system's reason.
    OpenFile(String),
}

impl LoggerError {
    /// The error in words.
    pub fn message(&self) -> (text: String)
        ensures
            self is NotInitialized ==> text@ == "Logger not initialized"@,
            self is AlreadyInitialized ==> text@ == "Logger already initialized"@,
            self matches LoggerError::CreateDir(reason) ==> text@ == reason@,
            self matches LoggerError::OpenFile(reason) ==> text@ == "Failed to open log file: "@
                + reason@,
    {
        match self {
            LoggerError::NotInitialized => "Logger not initialized".to_owned(),
            LoggerError::AlreadyInitialized => "Logger already initialized".to_owned(),
            LoggerError::CreateDir(reason) => reason.clone(),
            LoggerError::OpenFile(reason) => {
                let mut text = "Failed to open log file: ".to_owned();
                text.append(reason.as_str());
                text
            },
        }
    }
}

/// Where accepted entries are persisted.
#[derive(Debug, PartialEq, Eq, Structural, Clone, Copy)]
pub enum SinkKind {
    /// No file: entries are kept in memory and shown on the console only.
    Memory,
    /// The caller's thread writes each line to the file.
    SyncFile,
    /// Entries are queued for a background writer.
    AsyncQueue,
}

/// How the caller fared with the log file before `init`.
#[derive(Debug)]
pub enum FileOutcome {
    /// No log file is configured.
    NoFile,
    /// The log file is open.
    Opened,
    /// The log directory could not be created.
    DirFailed(String),
    /// The log file could not be opened.
    OpenFailed(String),
}

/// One line for the console.
#[derive(Debug)]
pub struct ConsoleLine {
    /// The stream to print on.
    pub stream: ConsoleStream,
    /// The line's text, without decoration and without a line end.
    pub text: String,
    /// The decoration to print the text with.
    pub paint: Paint,
}

impl ConsoleLine {
    /// The line as it is to be printed, decoration included.
    pub fn render(&self) -> (out: String)
        ensures
            self.paint is Plain ==> out@ == self.text@,
    {
        self.paint.render(self.text.as_str())
    }
}

/// What is to be persisted for one log call.
#[derive(Debug)]
pub enum Persist {
    /// Nothing.
    Skip,
    /// Append this text, which ends in a line end, to the log file.
    Write(String),
    /// Hand this entry to the background writer.
    Enqueue(LogEntry),
}

/// What the caller is to do for one log call.
#[derive(Debug)]
pub struct Dispatch {
    /// The line to print, if any.
    pub console: Option<ConsoleLine>,
    /// What to persist.
    pub persist: Persist,
}

/// A console line as mathematical values.
pub struct ConsoleLineView {
    pub stream: ConsoleStream,
    pub text: Seq<char>,
    pub paint: Paint,
}

/// A persistence instruction as mathematical values.
pub enum PersistView {
    Skip,
    Write(Seq<char>),
    Enqueue(LogEntryView),
}

/// A dispatch as mathematical values.
pub struct DispatchView {
    pub console: Option<ConsoleLineView>,
    pub persist: PersistView,
}

impl View for ConsoleLine {
    type V = ConsoleLineView;

    open spec fn view(&self) -> ConsoleLineView {
        ConsoleLineView { stream: self.stream, text: self.text@, paint: self.paint }
    }
}

impl View for Persist {
    type V = PersistView;

    open spec fn view(&self) -> PersistView {
        match self {
            Persist::Skip => PersistView::Skip,
            Persist::Write(text) => PersistView::Write(text@),
            Persist::Enqueue(entry) => PersistView::Enqueue(entry@),
        }
    }
}

impl View for Dispatch {
    type V = DispatchView;

    open spec fn view(&self) -> DispatchView {
        DispatchView {
            console: match self.console {
                Some(line) => Some(line@),
                None => None,
            },
            persist: self.persist@,
        }
    }
}

/// The dispatch of a call that was dropped: nothing to print, nothing to persist.
pub open spec fn nothing() -> DispatchView {
    DispatchView { console: None, persist: PersistView::Skip }
}

/// The text written to the log file for an entry: the rendered line with
/// level and date, and a line end.
pub open spec fn file_text(entry: LogEntryView) -> Seq<char> {
    entry.rendered(false, false).push('\n')
}

/// The console line of an accepted entry, if it is printed at all.
pub open spec fn console_for(options: LoggerOptions, entry: LogEntryView) -> Option<
    ConsoleLineView,
> {
    match options.stream_for(entry.level) {
        Some(stream) => Some(
            ConsoleLineView {
                stream,
                text: entry.rendered(false, false),
                paint: options.paint_for(entry.level),
            },
        ),
        None => None,
    }
}

/// What is persisted for an accepted entry.
pub open spec fn persist_for(sink: SinkKind, entry: LogEntryView) -> PersistView {
    match sink {
        SinkKind::Memory => PersistView::Skip,
        SinkKind::SyncFile => PersistView::Write(file_text(entry)),
        SinkKind::AsyncQueue => PersistView::Enqueue(entry),
    }
}

/// The dispatch of an accepted entry.
pub open spec fn dispatch_for(
    options: LoggerOptions,
    sink: SinkKind,
    entry: LogEntryView,
) -> DispatchView {
    DispatchView { console: console_for(options, entry), persist: persist_for(sink, entry) }
}

/// One log call, as the logger sees it.
pub struct Call {
    pub timestamp: Seq<char>,
    pub level: LogLevel,
    pub message: Seq<char>,
    pub file: Seq<char>,
    pub line: u32,
}

/// An initialised logger as mathematical values.
pub struct Active {
    pub options: LoggerOptions,
    pub entries: Seq<LogEntryView>,
    pub sink: SinkKind,
}

impl Active {
    /// Whether the history respects the bound of the configured size.
    pub open spec fn wf(self) -> bool {
        self.entries.len() <= bound(self.options.max_logs as nat)
    }

    /// The entry stored for a call.
    pub open spec fn entry_of(self, call: Call) -> LogEntryView {
        self.options.stored_entry(call.timestamp, call.level, call.message, call.file, call.line)
    }

    /// The state after a call: unchanged where the call is dropped, else with
    /// the call's entry taken into the history.
    pub open spec fn after(self, call: Call) -> Active {
        if self.options.accepts(call.level) {
            Active {
                entries: retained(self.entries, self.options.max_logs as nat, self.entry_of(call)),
                ..self
            }
        } else {
            self
        }
    }

    /// What a call sends out: nothing where it is dropped.
    pub open spec fn dispatch(self, call: Call) -> DispatchView {
        if self.options.accepts(call.level) {
            dispatch_for(self.options, self.sink, self.entry_of(call))
        } else {
            nothing()
        }
    }

    /// The state after a sequence of calls, the first call first.
    pub open spec fn after_all(self, calls: Seq<Call>) -> Active
        decreases calls.len(),
    {
        if calls.len() == 0 {
            self
        } else {
            self.after_all(calls.drop_last()).after(calls.last())
        }
    }
}

/// The sink that initialisation chooses.
///
/// Without a log file there is no sink. With one, the background writer is
/// used where the logger is capable of it and a runtime is active; else the
/// file is written synchronously.
pub open spec fn chosen_sink(has_file: bool, async_capable: bool, runtime_active: bool) -> SinkKind {
    if !has_file {
        SinkKind::Memory
    } else if async_capable && runtime_active {
        SinkKind::AsyncQueue
    } else {
        SinkKind::SyncFile
    }
}

/// Whether initialisation warns that it fell back to synchronous writing.
pub open spec fn falls_back(has_file: bool, async_capable: bool, runtime_active: bool) -> bool {
    has_file && async_capable && !runtime_active
}

/// The text of the fallback warning.
pub open spec fn fallback_warning() -> Seq<char> {
    "[az_logger] Async logging is enabled, but no Tokio runtime is active. Defaulting to sync logging"@
}

/// A logger as mathematical values: nothing before initialisation, the
/// active state after it.
pub type Model = Option<Active>;

/// The logger after an attempt to initialise it, and whether the attempt
/// succeeded.
///
/// An initialised logger stays as it is and the attempt fails. An
/// uninitialised one stays uninitialised where the directory or the file
/// could not be had; else it becomes active with the given options, an empty
/// history and the chosen sink.
pub open spec fn init_model(
    before: Model,
    options: LoggerOptions,
    outcome: FileOutcome,
    async_capable: bool,
    runtime_active: bool,
) -> (Model, bool) {
    if before is Some {
        (before, false)
    } else if outcome is DirFailed || outcome is OpenFailed {
        (before, false)
    } else {
        (
            Some(
                Active {
                    options,
                    entries: Seq::<LogEntryView>::empty(),
                    sink: chosen_sink(outcome is Opened, async_capable, runtime_active),
                },
            ),
            true,
        )
    }
}

/// What `init` reports on success.
#[derive(Debug)]
pub struct Startup {
    /// The sink that the logger now uses.
    pub sink: SinkKind,
    /// A warning to show on stderr, where the logger fell back to synchronous
    /// writing.
    pub warning: Option<ConsoleLine>,
}

/// How the log file is to be opened.
#[derive(Debug, PartialEq, Eq, Structural, Clone, Copy)]
pub struct FileMode {
    /// Create the file if it does not exist.
    pub create: bool,
    /// Open the file for writing.
    pub write: bool,
    /// Empty the file on opening.
    pub truncate: bool,
    /// Write at the end of the file.
    pub append: bool,
}

/// The mode in which the log file is opened: created if absent, for writing,
/// and either truncated or appended to.
pub open spec fn file_mode(truncate: bool) -> FileMode {
    FileMode { create: true, write: true, truncate, append: !truncate }
}

/// What the caller is to do with the file system before `init`.
#[derive(Debug)]
pub struct InitPlan {
    /// The directory to create, if it does not exist yet.
    pub create_dir: Option<String>,
    /// The file to open; `None` where no log file is configured.
    pub path: Option<String>,
    /// How to open the file.
    pub mode: FileMode,
}

/// The text of an optional string.
pub open spec fn text_of(s: Option<String>) -> Option<Seq<char>> {
    match s {
        Some(text) => Some(text@),
        None => None,
    }
}

/// A path as the plan holds it: none where the text is empty.
pub open spec fn path_of(text: Seq<char>) -> Option<Seq<char>> {
    if text.len() == 0 {
        None
    } else {
        Some(text)
    }
}

/// The path that a literal file argument stands for.
pub open spec fn literal_path(log_file: Option<&str>) -> Option<Seq<char>> {
    match log_file {
        Some(path) => path_of(path@),
        None => None,
    }
}

/// The path of a file in a directory.
///
/// Trusted: this is `Path::join` of the standard library, applied to the two
/// texts as paths. The separator, and what an absolute `name` does, depend on
/// the platform, so nothing is claimed of the path returned.
#[verifier::external_body]
fn join_path(dir: &str, name: &str) -> String {
    std::path::Path::new(dir).join(name).to_string_lossy().into_owned()
}

/// Whether a tokio runtime is active on the calling thread.
///
/// Trusted: the body asks `tokio::runtime::Handle::try_current()`. The answer
/// depends on where the call is made, so nothing is claimed of it.
#[verifier::external_body]
pub(crate) fn runtime_is_active() -> bool {
    tokio::runtime::Handle::try_current().is_ok()
}

/// A logger: not initialised at first, then initialised once and for good.
#[derive(Debug)]
pub struct Logger {
    async_capable: bool,
    options: Option<LoggerOptions>,
    logs: RingBuffer,
    sink: SinkKind,
}

impl Logger {
    /// Whether the logger may use a background writer.
    pub closed spec fn async_capable(&self) -> bool {
        self.async_capable
    }

    /// Whether `init` has succeeded on this logger.
    pub closed spec fn initialized(&self) -> bool {
        self.options is Some
    }

    /// The state of an initialised logger.
    pub closed spec fn state(&self) -> Active {
        Active { options: self.options->0, entries: self.logs@, sink: self.sink }
    }

    /// The logger as mathematical values.
    pub open spec fn model(&self) -> Model {
        if self.initialized() {
            Some(self.state())
        } else {
            None
        }
    }

    /// The invariant of a logger: the history is made for the configured
    /// number of entries and respects its bound.
    pub closed spec fn wf(&self) -> bool {
        &&& self.logs.wf()
        &&& self.options is Some ==> self.logs.max_logs() == (self.options->0).max_logs
    }

    /// A logger that is not initialised yet.
    ///
    /// `async_capable` says whether the logger may hand entries to a
    /// background writer.
    pub fn new(async_capable: bool) -> (logger: Logger)
        ensures
            !logger.initialized(),
            logger.async_capable() == async_capable,
            logger.wf(),
    {
        Logger { async_capable, options: None, logs: RingBuffer::new(0), sink: SinkKind::Memory }
    }

    /// Whether `init` has succeeded on this logger.
    pub fn is_initialized(&self) -> (yes: bool)
        ensures
            yes == self.initialized(),
    {
        self.options.is_some()
    }

    /// The mode in which the log file is opened.
    pub fn create_log_file_options(truncate: bool) -> (mode: FileMode)
        ensures
            mode == file_mode(truncate),
    {
        FileMode { create: true, write: true, truncate, append: !truncate }
    }

    /// A candidate path as the plan holds it: none where it is empty.
    pub fn nonempty_path(candidate: String) -> (path: Option<String>)
        ensures
            text_of(path) == path_of(candidate@),
    {
        if candidate.as_str().is_empty() {
            None
        } else {
            Some(candidate)
        }
    }

    /// Works out what initialisation needs from the file system.
    ///
    /// A name template takes precedence over `log_file`: it is expanded at the
    /// current local time and, where a directory is configured, placed in that
    /// directory. Without a template `log_file` is used as it is. With neither,
    /// or where the path comes out empty, there is no log file.
    pub fn plan_init(log_file: Option<&str>, options: &LoggerOptions, exe: Option<&str>) -> (plan:
        InitPlan)
        ensures
            text_of(plan.create_dir) == text_of(options.log_dir),
            plan.mode == file_mode(options.truncate_previous_logs),
            plan.path is Some ==> plan.path->0@.len() > 0,
            options.log_name_format is None ==> text_of(plan.path) == literal_path(log_file),
            options.log_name_format is Some && options.log_dir is None ==> exists|clock: Clock|
                clock.wf() && text_of(plan.path) == path_of(
                    #[trigger] expanded(options.log_name_format->0@, program_name(exe), clock),
                ),
    {
        let create_dir = match &options.log_dir {
            Some(dir) => Some(dir.clone()),
            None => None,
        };
        let candidate = match &options.log_name_format {
            Some(fmt) => {
                let name = expand_log_name_fmt(fmt.as_str(), exe);
                match &options.log_dir {
                    Some(dir) => join_path(dir.as_str(), name.as_str()),
                    None => name,
                }
            },
            None => match log_file {
                Some(path) => path.to_owned(),
                None => String::new(),
            },
        };
        InitPlan {
            create_dir,
            path: Logger::nonempty_path(candidate),
            mode: Logger::create_log_file_options(options.truncate_previous_logs),
        }
    }

    /// Initialises the logger, given how the caller fared with the log file
    /// and whether a runtime for the background writer is active.
    ///
    /// On a logger that is initialised already this fails and changes
    /// nothing. It fails, and leaves the logger uninitialised, where the
    /// directory or the file could not be had.
    pub fn init_with(
        &mut self,
        options: LoggerOptions,
        outcome: FileOutcome,
        runtime_active: bool,
    ) -> (result: Result<Startup, LoggerError>)
        requires
            old(self).wf(),
        ensures
            final(self).wf(),
            final(self).async_capable() == old(self).async_capable(),
            (final(self).model(), result is Ok) == init_model(
                old(self).model(),
                options,
                outcome,
                old(self).async_capable(),
                runtime_active,
            ),
            old(self).initialized() ==> result is Err && result->Err_0 is AlreadyInitialized
                && *final(self) == *old(self),
            !old(self).initialized() ==> match outcome {
                FileOutcome::DirFailed(reason) => result is Err && result->Err_0
                    == LoggerError::CreateDir(reason) && *final(self) == *old(self),
                FileOutcome::OpenFailed(reason) => result is Err && result->Err_0
                    == LoggerError::OpenFile(reason) && *final(self) == *old(self),
                _ => {
                    let has_file = outcome is Opened;
                    let capable = old(self).async_capable();
                    &&& result is Ok
                    &&& final(self).initialized()
                    &&& final(self).state() == Active {
                        options,
                        entries: Seq::<LogEntryView>::empty(),
                        sink: chosen_sink(has_file, capable, runtime_active),
                    }
                    &&& result->Ok_0.sink == chosen_sink(has_file, capable, runtime_active)
                    &&& result->Ok_0.warning is Some == falls_back(
                        has_file,
                        capable,
                        runtime_active,
                    )
                    &&& result->Ok_0.warning is Some ==> {
                        let warning = result->Ok_0.warning->0;
                        &&& warning.stream == ConsoleStream::Stderr
                        &&& warning.text@ == fallback_warning()
                        &&& warning.paint is Custom
                    }
                },
            },
    {
        if self.options.is_some() {
            return Err(LoggerError::AlreadyInitialized);
        }
        let has_file = match outcome {
            FileOutcome::DirFailed(reason) => {
                return Err(LoggerError::CreateDir(reason));
            },
            FileOutcome::OpenFailed(reason) => {
                return Err(LoggerError::OpenFile(reason));
            },
            FileOutcome::Opened => true,
            FileOutcome::NoFile => false,
        };
        let sink = if !has_file {
            SinkKind::Memory
        } else if self.async_capable && runtime_active {
            SinkKind::AsyncQueue
        } else {
            SinkKind::SyncFile
        };
        let warning = if has_file && self.async_capable && !runtime_active {
            Some(
                ConsoleLine {
                    stream: ConsoleStream::Stderr,
                    text: "[az_logger] Async logging is enabled, but no Tokio runtime is active. Defaulting to sync logging".to_owned(),
                    paint: Paint::Custom(crate::style::LogFormatStyle::warning()),
                },
            )
        } else {
            None
        };
        self.logs = RingBuffer::new(options.max_logs);
        self.options = Some(options);
        self.sink = sink;
        Ok(Startup { sink, warning })
    }

    /// Initialises the logger, given how the caller fared with the log file.
    ///
    /// Where the logger is capable of a background writer and a file is open,
    /// this asks whether a tokio runtime is active and chooses the sink by the
    /// answer. Else it is `init_with`, whatever the runtime.
    pub fn init(&mut self, options: LoggerOptions, outcome: FileOutcome) -> (result: Result<
        Startup,
        LoggerError,
    >)
        requires
            old(self).wf(),
        ensures
            final(self).wf(),
            final(self).async_capable() == old(self).async_capable(),
            old(self).initialized() ==> result is Err && result->Err_0 is AlreadyInitialized
                && *final(self) == *old(self),
            !old(self).initialized() ==> match outcome {
                FileOutcome::DirFailed(reason) => result is Err && result->Err_0
                    == LoggerError::CreateDir(reason) && *final(self) == *old(self),
                FileOutcome::OpenFailed(reason) => result is Err && result->Err_0
                    == LoggerError::OpenFile(reason) && *final(self) == *old(self),
                _ => {
                    let has_file = outcome is Opened;
                    let capable = old(self).async_capable();
                    &&& result is Ok
                    &&& final(self).initialized()
                    &&& final(self).state().options == options
                    &&& final(self).state().entries == Seq::<LogEntryView>::empty()
                    &&& final(self).state().sink == result->Ok_0.sink
                    &&& exists|runtime_active: bool|
                        {
                            &&& result->Ok_0.sink == #[trigger] chosen_sink(
                                has_file,
                                capable,
                                runtime_active,
                            )
                            &&& result->Ok_0.warning is Some == falls_back(
                                has_file,
                                capable,
                                runtime_active,
                            )
                        }
                },
            },
    {
        let has_file = match &outcome {
            FileOutcome::Opened => true,
            _ => false,
        };
        let runtime_active = if has_file && self.async_capable {
            runtime_is_active()
        } else {
            false
        };
        let ghost capable = self.async_capable;
        let result = self.init_with(options, outcome, runtime_active);
        proof {
            if result is Ok {
                assert(result->Ok_0.sink == chosen_sink(has_file, capable, runtime_active));
            }
        }
        result
    }

    /// Takes in one log call with the given timestamp.
    ///
    /// A call that the options do not accept changes nothing and sends nothing
    /// out. An accepted call stores its entry in the history, evicting one
    /// entry where the history is full, and returns what to print and what to
    /// persist.
    pub fn log_at(
        &mut self,
        timestamp: String,
        level: LogLevel,
        message: &str,
        file: &str,
        line: u32,
    ) -> (result: Result<Dispatch, LoggerError>)
        requires
            old(self).wf(),
        ensures
            final(self).wf(),
            final(self).async_capable() == old(self).async_capable(),
            final(self).initialized() == old(self).initialized(),
            !old(self).initialized() ==> result is Err && result->Err_0 is NotInitialized
                && *final(self) == *old(self),
            old(self).initialized() ==> {
                let call = Call { timestamp: timestamp@, level, message: message@, file: file@, line };
                &&& result is Ok
                &&& final(self).state() == old(self).state().after(call)
                &&& result->Ok_0@ == old(self).state().dispatch(call)
                &&& !old(self).state().options.accepts(level) ==> *final(self) == *old(self)
            },
    {
        let options = match &self.options {
            Some(options) => options,
            None => {
                return Err(LoggerError::NotInitialized);
            },
        };
        if !options.is_accepted(level) {
            return Ok(Dispatch { console: None, persist: Persist::Skip });
        }
        let keeps = match level {
            LogLevel::Debug | LogLevel::Critical => true,
            _ => false,
        };
        let kept_file = if options.no_file_name && !keeps {
            None
        } else {
            Some(file.to_owned())
        };
        let kept_line = if options.no_line_num && !keeps {
            None
        } else {
            Some(line)
        };
        let entry = LogEntry::new(timestamp, level, message, kept_file, kept_line);
        let ghost stored = entry@;
        assert(stored == old(self).state().entry_of(
            Call { timestamp: timestamp@, level, message: message@, file: file@, line },
        ));
        let text = entry.format(false, false);
        let console = match options.console_stream(level) {
            Some(stream) => Some(
                ConsoleLine { stream, text: text.clone(), paint: options.console_paint(level) },
            ),
            None => None,
        };
        let persist = match self.sink {
            SinkKind::Memory => Persist::Skip,
            SinkKind::SyncFile => {
                let mut written = text;
                push_char(&mut written, '\n');
                Persist::Write(written)
            },
            SinkKind::AsyncQueue => Persist::Enqueue(entry.clone()),
        };
        self.logs.insert(entry);
        Ok(Dispatch { console, persist })
    }

    /// What holds of a log call that read the clock itself: the logger went
    /// from `before` to `after` as `log_at` does for the timestamp of some
    /// reading of the clock, and `result` is what `log_at` returns for it.
    pub open spec fn logged(
        before: Logger,
        after: Logger,
        result: Result<Dispatch, LoggerError>,
        level: LogLevel,
        message: Seq<char>,
        file: Seq<char>,
        line: u32,
    ) -> bool {
        &&& after.wf()
        &&& after.async_capable() == before.async_capable()
        &&& after.initialized() == before.initialized()
        &&& !before.initialized() ==> result is Err && result->Err_0 is NotInitialized && after
            == before
        &&& before.initialized() ==> exists|clock: Clock|
            {
                let call = Call {
                    timestamp: #[trigger] clock.stamp_text(),
                    level,
                    message,
                    file,
                    line,
                };
                &&& clock.wf()
                &&& result is Ok
                &&& after.state() == before.state().after(call)
                &&& result->Ok_0@ == before.state().dispatch(call)
            }
        &&& before.initialized() && !before.state().options.accepts(level) ==> after == before
            && result is Ok && result->Ok_0@ == nothing()
    }

    /// Takes in one log call, stamped with the current local time.
    ///
    /// This is `log_at` with the timestamp `dd:mm HH:MM` of a reading of the
    /// local clock.
    pub fn log(&mut self, level: LogLevel, message: &str, file: &str, line: u32) -> (result: Result<
        Dispatch,
        LoggerError,
    >)
        requires
            old(self).wf(),
        ensures
            Logger::logged(*old(self), *final(self), result, level, message@, file@, line),
    {
        let clock = read_local_clock();
        let timestamp = clock.stamp();
        let result = self.log_at(timestamp, level, message, file, line);
        proof {
            if old(self).initialized() {
                let call = Call {
                    timestamp: clock.stamp_text(),
                    level,
                    message: message@,
                    file: file@,
                    line,
                };
                assert(clock.wf() && self.state() == old(self).state().after(call));
            }
        }
        result
    }

    /// Logs an error-level message.
    pub fn log_err(&mut self, message: &str, file: &str, line: u32) -> (result: Result<
        Dispatch,
        LoggerError,
    >)
        requires
            old(self).wf(),
        ensures
            Logger::logged(*old(self), *final(self), result, LogLevel::Error, message@, file@, line),
    {
        self.log(LogLevel::Error, message, file, line)
    }

    /// Logs a success-level message.
    pub fn log_success(&mut self, message: &str, file: &str, line: u32) -> (result: Result<
        Dispatch,
        LoggerError,
    >)
        requires
            old(self).wf(),
        ensures
            Logger::logged(
                *old(self),
                *final(self),
                result,
                LogLevel::Success,
                message@,
                file@,
                line,
            ),
    {
        self.log(LogLevel::Success, message, file, line)
    }

    /// Logs an info-level message.
    pub fn log_info(&mut self, message: &str, file: &str, line: u32) -> (result: Result<
        Dispatch,
        LoggerError,
    >)
        requires
            old(self).wf(),
        ensures
            Logger::logged(*old(self), *final(self), result, LogLevel::Info, message@, file@, line),
    {
        self.log(LogLevel::Info, message, file, line)
    }

    /// Logs a debug-level message.
    pub fn log_debug(&mut self, message: &str, file: &str, line: u32) -> (result: Result<
        Dispatch,
        LoggerError,
    >)
        requires
            old(self).wf(),
        ensures
            Logger::logged(*old(self), *final(self), result, LogLevel::Debug, message@, file@, line),
    {
        self.log(LogLevel::Debug, message, file, line)
    }

    /// Logs a warning-level message.
    pub fn log_warn(&mut self, message: &str, file: &str, line: u32) -> (result: Result<
        Dispatch,
        LoggerError,
    >)
        requires
            old(self).wf(),
        ensures
            Logger::logged(*old(self), *final(self), result, LogLevel::Warn, message@, file@, line),
    {
        self.log(LogLevel::Warn, message, file, line)
    }

    /// Logs a critical-level message.
    pub fn log_critical(&mut self, message: &str, file: &str, line: u32) -> (result: Result<
        Dispatch,
        LoggerError,
    >)
        requires
            old(self).wf(),
        ensures
            Logger::logged(
                *old(self),
                *final(self),
                result,
                LogLevel::Critical,
                message@,
                file@,
                line,
            ),
    {
        self.log(LogLevel::Critical, message, file, line)
    }

    /// The given message as the console shows it for `level`: decorated where
    /// colour output is on, unchanged where it is off. Before initialisation
    /// the message comes back unchanged.
    pub fn apply_log_color(&self, level: &LogLevel, message: &str) -> (out: String)
        ensures
            !self.initialized() || self.state().options.paint_for(*level) is Plain ==> out@
                == message@,
    {
        match &self.options {
            Some(options) => options.console_paint(*level).render(message),
            None => message.to_owned(),
        }
    }

    /// Returns a copy of the in-memory logs, oldest first.
    pub fn get_logs(&self) -> (result: Result<Vec<LogEntry>, LoggerError>)
        requires
            self.wf(),
        ensures
            !self.initialized() ==> result is Err && result->Err_0 is NotInitialized,
            self.initialized() ==> result is Ok && entry_views(result->Ok_0@)
                == self.state().entries && self.state().wf(),
    {
        if self.options.is_none() {
            return Err(LoggerError::NotInitialized);
        }
        Ok(self.logs.snapshot())
    }
}

} // verus!
