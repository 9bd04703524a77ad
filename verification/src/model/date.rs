//! Calendar dates and the clock: a work's publication date as plain
//! year, month and day, and the current UTC time for message headers.

use chrono::{Datelike, Timelike};
use vstd::prelude::*;

use crate::text::{pad2, pad4, push_char, spec_pad2, spec_pad4};

verus! {

/// A calendar date as plain values.
#[derive(Clone, Copy, Debug, PartialEq, Eq, Structural)]
pub struct Date {
    pub year: u64,
    pub month: u64,
    pub day: u64,
}

impl Date {
    /// The ranges every date the exporter formats must lie in.
    pub open spec fn wf(self) -> bool {
        &&& self.year <= 9999
        &&& 1 <= self.month <= 12
        &&& 1 <= self.day <= 31
    }

    /// Builds a date from its parts.
    pub fn from_ymd(year: u64, month: u64, day: u64) -> (r: Date)
        requires
            year <= 9999,
            1 <= month <= 12,
            1 <= day <= 31,
        ensures
            r == (Date { year, month, day }),
            r.wf(),
    {
        Date { year, month, day }
    }

    /// What `display` returns: `YYYY-MM-DD`.
    pub open spec fn spec_display(self) -> Seq<char> {
        spec_pad4(self.year as nat).push('-') + spec_pad2(self.month as nat).push('-')
            + spec_pad2(self.day as nat)
    }

    /// Renders the date as `YYYY-MM-DD`.
    pub fn display(&self) -> (r: String)
        requires
            self.wf(),
        ensures
            r@ == self.spec_display(),
    {
        let mut s = pad4(self.year);
        push_char(&mut s, '-');
        let m = pad2(self.month);
        s.append(m.as_str());
        push_char(&mut s, '-');
        let d = pad2(self.day);
        s.append(d.as_str());
        proof {
            assert(s@ =~= self.spec_display());
        }
        s
    }

    /// What `yyyymmdd` returns.
    pub open spec fn spec_yyyymmdd(self) -> Seq<char> {
        spec_pad4(self.year as nat) + spec_pad2(self.month as nat) + spec_pad2(self.day as nat)
    }

    /// Renders the date as `YYYYMMDD`.
    pub fn yyyymmdd(&self) -> (r: String)
        requires
            self.wf(),
        ensures
            r@ == self.spec_yyyymmdd(),
    {
        let mut s = pad4(self.year);
        let m = pad2(self.month);
        s.append(m.as_str());
        let d = pad2(self.day);
        s.append(d.as_str());
        s
    }

    /// What `yyyymm` returns.
    pub open spec fn spec_yyyymm(self) -> Seq<char> {
        spec_pad4(self.year as nat) + spec_pad2(self.month as nat)
    }

    /// Renders the date as `YYYYMM`.
    pub fn yyyymm(&self) -> (r: String)
        requires
            self.wf(),
        ensures
            r@ == self.spec_yyyymm(),
    {
        let mut s = pad4(self.year);
        let m = pad2(self.month);
        s.append(m.as_str());
        s
    }

    /// What `yyyy` returns.
    pub open spec fn spec_yyyy(self) -> Seq<char> {
        spec_pad4(self.year as nat)
    }

    /// Renders the year as four digits.
    pub fn yyyy(&self) -> (r: String)
        requires
            self.wf(),
        ensures
            r@ == self.spec_yyyy(),
    {
        pad4(self.year)
    }
}

/// A moment in UTC as plain values, as read from the system clock.
#[derive(Clone, Copy, Debug, PartialEq, Eq, Structural)]
pub struct TimeParts {
    pub year: i64,
    pub month: u64,
    pub day: u64,
    pub hour: u64,
    pub minute: u64,
    pub second: u64,
}

impl TimeParts {
    /// The ranges under which the header stamps can be formatted.
    pub open spec fn wf(self) -> bool {
        &&& 0 <= self.year <= 9999
        &&& 1 <= self.month <= 12
        &&& 1 <= self.day <= 31
        &&& self.hour <= 23
        &&& self.minute <= 59
        &&& self.second <= 59
    }

    /// The date part of the moment.
    pub fn date(&self) -> (r: Date)
        requires
            self.wf(),
        ensures
            r == (Date { year: self.year as u64, month: self.month, day: self.day }),
            r.wf(),
    {
        Date { year: self.year as u64, month: self.month, day: self.day }
    }

    /// What `stamp` returns: `YYYYMMDDThhmmss`.
    pub open spec fn spec_stamp(self) -> Seq<char> {
        spec_pad4(self.year as nat) + spec_pad2(self.month as nat) + spec_pad2(self.day as nat)
            + seq!['T'] + spec_pad2(self.hour as nat) + spec_pad2(self.minute as nat) + spec_pad2(
            self.second as nat,
        )
    }

    /// Renders the moment as `YYYYMMDDThhmmss`.
    pub fn stamp(&self) -> (r: String)
        requires
            self.wf(),
        ensures
            r@ == self.spec_stamp(),
    {
        let mut s = pad4(self.year as u64);
        let mo = pad2(self.month);
        s.append(mo.as_str());
        let d = pad2(self.day);
        s.append(d.as_str());
        push_char(&mut s, 'T');
        let h = pad2(self.hour);
        s.append(h.as_str());
        let mi = pad2(self.minute);
        s.append(mi.as_str());
        let sec = pad2(self.second);
        s.append(sec.as_str());
        proof {
            assert(s@ =~= self.spec_stamp());
        }
        s
    }
}

/// Relies on chrono's `Utc::now` with the `Datelike` and `Timelike`
/// accessors: the month, day, hour, minute and second of a real moment
/// lie in their calendar ranges.  Nothing is promised of the year.
#[verifier::external_body]
pub(crate) fn utc_now_parts() -> (r: TimeParts)
    ensures
        1 <= r.month <= 12,
        1 <= r.day <= 31,
        r.hour <= 23,
        r.minute <= 59,
        r.second <= 59,
{
    let now = chrono::Utc::now();
    TimeParts {
        year: now.year() as i64,
        month: now.month() as u64,
        day: now.day() as u64,
        hour: now.hour() as u64,
        minute: now.minute() as u64,
        second: now.second() as u64,
    }
}

} // verus!
