//! Wall-clock timestamps as plain values: the current UTC time is read once
//! through the clock wrapper, and all formatting of it is done here.

use vstd::prelude::*;
use vstd::string::StringExecFns;

use chrono::Datelike;
use chrono::Timelike;

use crate::text::dec_rep_signed;
use crate::text::two_digits;

verus! {

/// A calendar date and wall-clock time, UTC.
#[derive(Debug, Clone, PartialEq, Eq)]
pub struct Timestamp {
    pub year: i32,
    pub month: u32,
    pub day: u32,
    pub hour: u32,
    pub minute: u32,
}

impl Timestamp {
    /// The field ranges of a real calendar timestamp.
    pub open spec fn wf(&self) -> bool {
        &&& 1 <= self.month <= 12
        &&& 1 <= self.day <= 31
        &&& self.hour <= 23
        &&& self.minute <= 59
    }

    /// A date formatted as zero-padded day, month abbreviation, and year,
    /// separated by single spaces.
    pub open spec fn spec_date(&self) -> Seq<char> {
        two_digits(self.day as nat) + seq![' '] + month_abbrev(self.month as int) + seq![' ']
            + dec_rep_signed(self.year as int)
    }

    /// A time of day formatted as zero-padded hours and minutes separated by
    /// a colon.
    pub open spec fn spec_time(&self) -> Seq<char> {
        two_digits(self.hour as nat) + seq![':'] + two_digits(self.minute as nat)
    }

    /// Format the date part, as in `02 Jan 2026`.
    pub fn date_string(&self) -> (r: String)
        requires
            self.wf(),
        ensures
            r@ == self.spec_date(),
    {
        let mut s = crate::text::pad2(self.day as u64);
        s.push(' ');
        let m = month_name(self.month);
        s.append(m.as_str());
        s.push(' ');
        let y = crate::text::i64_to_string(self.year as i64);
        s.append(y.as_str());
        proof {
            assert(s@ =~= self.spec_date());
        }
        s
    }

    /// Format the time part, as in `15:04`.
    pub fn time_string(&self) -> (r: String)
        requires
            self.wf(),
        ensures
            r@ == self.spec_time(),
    {
        let mut s = crate::text::pad2(self.hour as u64);
        s.push(':');
        let m = crate::text::pad2(self.minute as u64);
        s.append(m.as_str());
        proof {
            assert(s@ =~= self.spec_time());
        }
        s
    }
}

/// The three-letter English abbreviation of month `m`.
pub open spec fn month_abbrev(m: int) -> Seq<char> {
    if m == 1 {
        "Jan"@
    } else if m == 2 {
        "Feb"@
    } else if m == 3 {
        "Mar"@
    } else if m == 4 {
        "Apr"@
    } else if m == 5 {
        "May"@
    } else if m == 6 {
        "Jun"@
    } else if m == 7 {
        "Jul"@
    } else if m == 8 {
        "Aug"@
    } else if m == 9 {
        "Sep"@
    } else if m == 10 {
        "Oct"@
    } else if m == 11 {
        "Nov"@
    } else {
        "Dec"@
    }
}

/// The three-letter English abbreviation of month `m`.
fn month_name(m: u32) -> (r: String)
    ensures
        r@ == month_abbrev(m as int),
{
    if m == 1 {
        String::from_str("Jan")
    } else if m == 2 {
        String::from_str("Feb")
    } else if m == 3 {
        String::from_str("Mar")
    } else if m == 4 {
        String::from_str("Apr")
    } else if m == 5 {
        String::from_str("May")
    } else if m == 6 {
        String::from_str("Jun")
    } else if m == 7 {
        String::from_str("Jul")
    } else if m == 8 {
        String::from_str("Aug")
    } else if m == 9 {
        String::from_str("Sep")
    } else if m == 10 {
        String::from_str("Oct")
    } else if m == 11 {
        String::from_str("Nov")
    } else {
        String::from_str("Dec")
    }
}

/// Relies on `chrono::Utc::now` and the `Datelike`/`Timelike` accessors,
/// whose documentation bounds the month to 1..=12, the day to 1..=31, the
/// hour to 0..=23 and the minute to 0..=59.
#[verifier::external_body]
pub fn now_utc() -> (r: Timestamp)
    ensures
        r.wf(),
{
    let now = chrono::Utc::now();
    Timestamp {
        year: now.year(),
        month: now.month(),
        day: now.day(),
        hour: now.hour(),
        minute: now.minute(),
    }
}

} // verus!
