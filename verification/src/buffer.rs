//! The bounded in-memory history of recent log entries.

use crate::log_entry::{entry_views, LogEntry, LogEntryView};
use vstd::prelude::*;

verus! {

/// The largest number of entries that a buffer made for `max_logs` entries
/// ever holds: `max_logs`, but one where `max_logs` is zero, since the entry
/// that arrives is always kept.
pub open spec fn bound(max_logs: nat) -> nat {
    if max_logs == 0 {
        1
    } else {
        max_logs
    }
}

/// The history after `entry` arrives at a buffer made for `max_logs` entries.
///
/// Where the buffer already holds `max_logs` entries or more, the entry that
/// arrived last before this one leaves, and `entry` takes its place at the end.
/// Older entries stay: the oldest entry is never evicted.
pub open spec fn retained<E>(entries: Seq<E>, max_logs: nat, entry: E) -> Seq<E> {
    if entries.len() >= max_logs && entries.len() > 0 {
        entries.drop_last().push(entry)
    } else {
        entries.push(entry)
    }
}

/// A bounded, insertion-ordered history of log entries.
#[derive(Debug)]
pub struct RingBuffer {
    entries: Vec<LogEntry>,
    max_logs: usize,
}

impl View for RingBuffer {
    type V = Seq<LogEntryView>;

    /// The entries held, oldest first.
    closed spec fn view(&self) -> Seq<LogEntryView> {
        entry_views(self.entries@)
    }
}

impl RingBuffer {
    /// The number of entries the buffer was made for.
    pub closed spec fn max_logs(&self) -> nat {
        self.max_logs as nat
    }

    /// Whether the buffer holds no more entries than its bound allows. This holds
    /// of a new buffer, and `insert` keeps it.
    pub closed spec fn wf(&self) -> bool {
        self.entries@.len() <= bound(self.max_logs as nat)
    }

    /// An empty buffer for `max_logs` entries.
    pub fn new(max_logs: usize) -> (buffer: RingBuffer)
        ensures
            buffer@ == Seq::<LogEntryView>::empty(),
            buffer.max_logs() == max_logs,
            buffer.wf(),
    {
        let buffer = RingBuffer { entries: Vec::new(), max_logs };
        assert(buffer@ =~= Seq::<LogEntryView>::empty());
        buffer
    }

    /// The number of entries held.
    pub fn len(&self) -> (n: usize)
        ensures
            n == self@.len(),
            self.wf() ==> n <= bound(self.max_logs()),
    {
        self.entries.len()
    }

    /// Takes in an entry, evicting one where the buffer is full.
    pub fn insert(&mut self, entry: LogEntry)
        ensures
            final(self)@ == retained(old(self)@, old(self).max_logs(), entry@),
            final(self).max_logs() == old(self).max_logs(),
            old(self).wf() ==> final(self).wf(),
    {
        let ghost before = self.entries@;
        if self.entries.len() >= self.max_logs {
            self.entries.pop();
        }
        self.entries.push(entry);
        proof {
            if before.len() >= self.max_logs && before.len() > 0 {
                assert(self.entries@ =~= before.drop_last().push(entry));
                assert(entry_views(self.entries@) =~= entry_views(before).drop_last().push(entry@));
            } else {
                assert(self.entries@ =~= before.push(entry));
                assert(entry_views(self.entries@) =~= entry_views(before).push(entry@));
            }
        }
    }

    /// A copy of the entries held, oldest first.
    pub fn snapshot(&self) -> (copy: Vec<LogEntry>)
        ensures
            copy@ == self.entries(),
            entry_views(copy@) == self@,
            self.wf() ==> copy@.len() <= bound(self.max_logs()),
    {
        let mut copy: Vec<LogEntry> = Vec::new();
        let mut i: usize = 0;
        while i < self.entries.len()
            invariant
                i <= self.entries.len(),
                copy@ == self.entries@.take(i as int),
            decreases self.entries.len() - i,
        {
            copy.push(self.entries[i].clone());
            assert(self.entries@.take(i + 1) =~= self.entries@.take(i as int).push(
                self.entries@[i as int],
            ));
            i += 1;
        }
        assert(self.entries@.take(self.entries@.len() as int) =~= self.entries@);
        copy
    }

    /// The entries held, oldest first, as values.
    pub closed spec fn entries(&self) -> Seq<LogEntry> {
        self.entries@
    }
}

} // verus!
