//! The local date and time, as far as log lines and file names show it.

use crate::text::{push_char, push_two_digits, two_digits};
use vstd::prelude::*;
use vstd::string::*;

verus! {

/// One reading of the local clock.
#[derive(Debug)]
pub struct Clock {
    /// Day of the month, from 1.
    pub day: u32,
    /// Month of the year, from 1.
    pub month: u32,
    /// Hour of the day, on the 24-hour clock.
    pub hour: u32,
    /// Minute of the hour.
    pub minute: u32,
    /// Second of the minute.
    pub second: u32,
    /// The year, written in full.
    pub year: String,
    /// The year's last two digits.
    pub year_short: String,
    /// Seconds since the start of 1970, UTC.
    pub unix: i64,
}

impl Clock {
    /// Whether the calendar fields are in the ranges of a date and a time of day.
    pub open spec fn wf(&self) -> bool {
        &&& 1 <= self.day <= 31
        &&& 1 <= self.month <= 12
        &&& self.hour <= 23
        &&& self.minute <= 59
        &&& self.second <= 59
    }

    /// The reading as a log line shows it: `dd:mm HH:MM`.
    pub open spec fn stamp_text(&self) -> Seq<char> {
        two_digits(self.day as nat) + seq![':'] + two_digits(self.month as nat) + seq![' ']
            + two_digits(self.hour as nat) + seq![':'] + two_digits(self.minute as nat)
    }

    /// The reading as a log line shows it: `dd:mm HH:MM`.
    pub fn stamp(&self) -> (text: String)
        ensures
            text@ == self.stamp_text(),
    {
        let mut out = String::new();
        push_two_digits(&mut out, self.day);
        push_char(&mut out, ':');
        push_two_digits(&mut out, self.month);
        push_char(&mut out, ' ');
        push_two_digits(&mut out, self.hour);
        push_char(&mut out, ':');
        push_two_digits(&mut out, self.minute);
        assert(out@ =~= self.stamp_text());
        out
    }
}

/// Reads the local clock.
///
/// Trusted: the body calls `chrono::Local::now()` and copies the reading's
/// fields. The ranges claimed are those that `chrono` documents for `day`,
/// `month`, `hour`, `minute` and `second`; `year` and `year_short` are what
/// `chrono` prints for `%Y` and `%y`, of which nothing is claimed.
#[verifier::external_body]
pub(crate) fn read_local_clock() -> (clock: Clock)
    ensures
        clock.wf(),
{
    let now = chrono::Local::now();
    Clock {
        day: chrono::Datelike::day(&now),
        month: chrono::Datelike::month(&now),
        hour: chrono::Timelike::hour(&now),
        minute: chrono::Timelike::minute(&now),
        second: chrono::Timelike::second(&now),
        year: now.format("%Y").to_string(),
        year_short: now.format("%y").to_string(),
        unix: now.timestamp(),
    }
}

} // verus!
