//! Laws of the logger, proved over its mathematical model.

use crate::buffer::{bound, retained};
use crate::log_entry::{LogEntryView, LogLevel};
use crate::logger::{init_model, nothing, Active, Call, FileOutcome, Model};
use crate::options::{keeps_origin, ConsoleStream, LoggerOptions};
use vstd::prelude::*;

verus! {

/// Taking in an entry never lets the history grow beyond its bound.
pub proof fn lemma_retained_bounded<E>(entries: Seq<E>, max_logs: nat, entry: E)
    requires
        entries.len() <= bound(max_logs),
    ensures
        retained(entries, max_logs, entry).len() <= bound(max_logs),
        retained(entries, max_logs, entry).last() == entry,
{
}

/// The history respects its bound in every state: a bounded history stays
/// bounded through any sequence of calls.
pub proof fn lemma_history_bounded(state: Active, calls: Seq<Call>)
    requires
        state.wf(),
    ensures
        state.after_all(calls).wf(),
    decreases calls.len(),
{
    if calls.len() > 0 {
        lemma_history_bounded(state, calls.drop_last());
        lemma_calls_keep_configuration(state, calls.drop_last());
    }
}

/// Buffer bound: after accepted calls the history holds as many entries as
/// there were before plus the calls, but no more than `max_logs`. So once more
/// than `max_logs` calls were accepted it holds exactly `max_logs` entries.
///
/// This is stated for `max_logs` of at least one: a history made for zero
/// entries still keeps the entry that arrived last.
pub proof fn lemma_buffer_bound(state: Active, calls: Seq<Call>)
    requires
        state.options.max_logs >= 1,
        state.entries.len() <= state.options.max_logs,
        forall|i: int| 0 <= i < calls.len() ==> state.options.accepts(#[trigger] calls[i].level),
    ensures
        state.after_all(calls).entries.len() == if state.entries.len() + calls.len()
            <= state.options.max_logs {
            state.entries.len() + calls.len()
        } else {
            state.options.max_logs as nat
        },
        state.entries.len() == 0 && calls.len() > state.options.max_logs ==> state.after_all(
            calls,
        ).entries.len() == state.options.max_logs,
    decreases calls.len(),
{
    if calls.len() > 0 {
        let earlier = calls.drop_last();
        assert forall|i: int| 0 <= i < earlier.len() implies state.options.accepts(
            #[trigger] earlier[i].level,
        ) by {
            assert(earlier[i] == calls[i]);
        }
        lemma_buffer_bound(state, earlier);
        lemma_calls_keep_configuration(state, earlier);
        assert(state.options.accepts(calls[calls.len() - 1].level));
    }
}

/// Eviction policy: where a full history of at least one entry takes in an
/// entry, every entry but the last stays where it is, and the new entry
/// takes the last place. The oldest entry is never evicted.
pub proof fn lemma_eviction_keeps_older<E>(entries: Seq<E>, max_logs: nat, entry: E, i: int)
    requires
        entries.len() >= max_logs,
        0 <= i < entries.len() - 1,
    ensures
        retained(entries, max_logs, entry).len() == entries.len(),
        retained(entries, max_logs, entry)[i] == entries[i],
        retained(entries, max_logs, entry).last() == entry,
{
}

/// Filtering: with `show_debug` off, a `Debug` call changes nothing and sends
/// nothing to the console or to the file.
pub proof fn lemma_debug_dropped(state: Active, call: Call)
    requires
        !state.options.show_debug,
        call.level is Debug,
    ensures
        state.after(call) == state,
        state.dispatch(call) == nothing(),
{
}

/// Filtering: with `show_debug` off, a history without `Debug` entries holds
/// none after any sequence of calls, however many of them are `Debug` calls.
pub proof fn lemma_debug_never_stored(state: Active, calls: Seq<Call>)
    requires
        !state.options.show_debug,
        forall|i: int| 0 <= i < state.entries.len() ==> !(#[trigger] state.entries[i].level is Debug),
    ensures
        forall|i: int|
            0 <= i < state.after_all(calls).entries.len() ==> !(#[trigger] state.after_all(
                calls,
            ).entries[i].level is Debug),
    decreases calls.len(),
{
    if calls.len() > 0 {
        lemma_debug_never_stored(state, calls.drop_last());
        lemma_calls_keep_configuration(state, calls.drop_last());
    }
}

/// A sequence of calls leaves the options and the sink as they are.
pub proof fn lemma_calls_keep_configuration(state: Active, calls: Seq<Call>)
    ensures
        state.after_all(calls).options == state.options,
        state.after_all(calls).sink == state.sink,
    decreases calls.len(),
{
    if calls.len() > 0 {
        lemma_calls_keep_configuration(state, calls.drop_last());
    }
}

/// Idempotent formatting: two entries that hold the same values render to
/// the same text under the same flags, character for character.
pub proof fn lemma_format_deterministic(
    a: LogEntryView,
    b: LogEntryView,
    hide_level: bool,
    no_date: bool,
)
    requires
        a == b,
    ensures
        a.rendered(hide_level, no_date) == b.rendered(hide_level, no_date),
{
}

/// Location suppression: with both suppression flags set, the stored entry
/// of an `Info`, `Warn`, `Error` or `Success` call has neither file nor line.
pub proof fn lemma_location_suppressed(
    options: LoggerOptions,
    timestamp: Seq<char>,
    level: LogLevel,
    message: Seq<char>,
    file: Seq<char>,
    line: u32,
)
    requires
        options.no_file_name,
        options.no_line_num,
        level is Info || level is Warn || level is Error || level is Success,
    ensures
        options.stored_entry(timestamp, level, message, file, line).file is None,
        options.stored_entry(timestamp, level, message, file, line).line is None,
{
}

/// Location suppression: the stored entry of a `Debug` or `Critical` call
/// has its file and its line, whatever the suppression flags say.
pub proof fn lemma_location_kept(
    options: LoggerOptions,
    timestamp: Seq<char>,
    level: LogLevel,
    message: Seq<char>,
    file: Seq<char>,
    line: u32,
)
    requires
        level is Debug || level is Critical,
    ensures
        keeps_origin(level),
        options.stored_entry(timestamp, level, message, file, line).file == Some(file),
        options.stored_entry(timestamp, level, message, file, line).line == Some(line),
{
}

/// Routing exclusivity: with both streams enabled, `Error` and `Critical`
/// lines go to stderr and every other line goes to stdout. A line goes to one
/// stream only: the dispatch holds at most one console line.
pub proof fn lemma_routing_exclusive(options: LoggerOptions, level: LogLevel)
    requires
        options.log_to_stderr,
        options.log_to_stdout,
    ensures
        (level is Error || level is Critical) ==> options.stream_for(level) == Some(
            ConsoleStream::Stderr,
        ),
        !(level is Error || level is Critical) ==> options.stream_for(level) == Some(
            ConsoleStream::Stdout,
        ),
{
}

/// Double-init rejection: a second initialisation fails and leaves the first
/// one's state untouched, so later calls go by the first options, the first
/// `max_logs` among them.
pub proof fn lemma_double_init_rejected(
    first: LoggerOptions,
    first_outcome: FileOutcome,
    second: LoggerOptions,
    second_outcome: FileOutcome,
    async_capable: bool,
    runtime_first: bool,
    runtime_second: bool,
    call: Call,
)
    requires
        first_outcome is NoFile || first_outcome is Opened,
    ensures
        ({
            let start: Model = None;
            let (once, first_ok) = init_model(
                start,
                first,
                first_outcome,
                async_capable,
                runtime_first,
            );
            let (twice, second_ok) = init_model(
                once,
                second,
                second_outcome,
                async_capable,
                runtime_second,
            );
            &&& first_ok
            &&& !second_ok
            &&& twice == once
            &&& twice is Some
            &&& twice->0.options == first
            &&& twice->0.after(call).options.max_logs == first.max_logs
            &&& twice->0.after(call) == once->0.after(call)
        }),
{
}

/// Initialisation happens at most once: on an initialised logger every
/// attempt fails and changes nothing.
pub proof fn lemma_init_at_most_once(
    before: Model,
    options: LoggerOptions,
    outcome: FileOutcome,
    async_capable: bool,
    runtime_active: bool,
)
    requires
        before is Some,
    ensures
        init_model(before, options, outcome, async_capable, runtime_active) == (before, false),
{
}

} // verus!
