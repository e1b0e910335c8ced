//! A verified civil (proleptic Gregorian) date: the history pull walks
//! backward day by day from today, and each day-report request carries the
//! date formatted as `YYYY-MM-DD`.

use vstd::prelude::*;
use vstd::string::StringExecFns;

use crate::decimal::{dec_pad, u64_to_dec_pad2, u64_to_dec_pad4};

verus! {

/// A calendar date in the proleptic Gregorian calendar.
#[derive(Clone, Copy, Debug, PartialEq, Eq, Structural)]
pub struct Date {
    pub year: u64,
    pub month: u64,
    pub day: u64,
}

/// Whether `y` is a Gregorian leap year.
pub open spec fn is_leap_year(y: nat) -> bool {
    y % 4 == 0 && (y % 100 != 0 || y % 400 == 0)
}

/// How many days the month `m` of year `y` has.
pub open spec fn spec_days_in_month(y: nat, m: nat) -> nat {
    if m == 2 {
        if is_leap_year(y) {
            29
        } else {
            28
        }
    } else if m == 4 || m == 6 || m == 9 || m == 11 {
        30
    } else {
        31
    }
}

impl Date {
    /// A well-formed date: a real day of a real month, from year one on.
    pub open spec fn wf(self) -> bool {
        &&& 1 <= self.year
        &&& 1 <= self.month <= 12
        &&& 1 <= self.day <= spec_days_in_month(self.year as nat, self.month as nat)
    }

    /// What the previous calendar day is.
    pub open spec fn spec_previous_day(self) -> Date {
        if self.day > 1 {
            Date { year: self.year, month: self.month, day: (self.day - 1) as u64 }
        } else if self.month > 1 {
            Date {
                year: self.year,
                month: (self.month - 1) as u64,
                day: spec_days_in_month(self.year as nat, (self.month - 1) as nat) as u64,
            }
        } else {
            Date { year: (self.year - 1) as u64, month: 12, day: 31 }
        }
    }

    /// The `YYYY-MM-DD` rendering of the date, the form the day-report
    /// endpoint takes.
    pub open spec fn spec_format(self) -> Seq<char> {
        dec_pad(self.year as nat, 4) + seq!['-'] + dec_pad(self.month as nat, 2) + seq!['-']
            + dec_pad(self.day as nat, 2)
    }
}

/// Whether `y` is a leap year.
pub fn is_leap_year_exec(y: u64) -> (r: bool)
    ensures
        r == is_leap_year(y as nat),
{
    y % 4 == 0 && (y % 100 != 0 || y % 400 == 0)
}

/// How many days the month `m` of year `y` has.
pub fn days_in_month(y: u64, m: u64) -> (d: u64)
    requires
        1 <= m <= 12,
    ensures
        d == spec_days_in_month(y as nat, m as nat),
{
    if m == 2 {
        if is_leap_year_exec(y) {
            29
        } else {
            28
        }
    } else if m == 4 || m == 6 || m == 9 || m == 11 {
        30
    } else {
        31
    }
}

/// The calendar day before `d`. The day before the first of a month is the
/// last day of the previous month; the day before the first of January is the
/// last of December of the year before.
pub fn previous_day(d: Date) -> (r: Date)
    requires
        d.wf(),
        !(d.year == 1 && d.month == 1 && d.day == 1),
    ensures
        r == d.spec_previous_day(),
        r.wf(),
{
    if d.day > 1 {
        Date { year: d.year, month: d.month, day: d.day - 1 }
    } else if d.month > 1 {
        Date { year: d.year, month: d.month - 1, day: days_in_month(d.year, d.month - 1) }
    } else {
        Date { year: d.year - 1, month: 12, day: 31 }
    }
}

/// Renders the date as `YYYY-MM-DD`.
pub fn format_date(d: Date) -> (s: String)
    ensures
        s@ == d.spec_format(),
{
    let mut s = u64_to_dec_pad4(d.year);
    let dash = "-";
    proof {
        reveal_strlit("-");
        assert(dash@ =~= seq!['-']);
    }
    s.append(dash);
    let mm = u64_to_dec_pad2(d.month);
    s.append(mm.as_str());
    s.append(dash);
    let dd = u64_to_dec_pad2(d.day);
    s.append(dd.as_str());
    s
}

/// The dates of the history window: the twenty-nine days before `today`,
/// most recent first, each the calendar day before the one in front of it.
pub fn history_window(today: Date) -> (v: Vec<Date>)
    requires
        today.wf(),
        today.year >= 2,
    ensures
        v@.len() == 29,
        v@[0] == today.spec_previous_day(),
        forall|i: int| 0 < i < 29 ==> #[trigger] v@[i] == v@[i - 1].spec_previous_day(),
        forall|i: int| 0 <= i < 29 ==> (#[trigger] v@[i]).wf(),
{
    let mut v: Vec<Date> = Vec::new();
    let mut cur = today;
    let mut i: usize = 0;
    while i < 29
        invariant
            i == v@.len(),
            i <= 29,
            cur.wf(),
            cur.year >= 2 || (cur.month == 12 && cur.day + i >= 32),
            i == 0 ==> cur == today,
            i > 0 ==> cur == v@[i - 1],
            v@.len() > 0 ==> v@[0] == today.spec_previous_day(),
            forall|j: int| 0 < j < i ==> #[trigger] v@[j] == v@[j - 1].spec_previous_day(),
            forall|j: int| 0 <= j < i ==> (#[trigger] v@[j]).wf(),
        decreases 29 - i,
    {
        let prev = previous_day(cur);
        v.push(prev);
        cur = prev;
        i = i + 1;
    }
    v
}

/// Relies on `chrono::Utc::now` and `chrono::Datelike`: the current civil
/// date in UTC. `chrono` only hands out valid calendar dates, and
/// `Utc::now` does not return for clocks before 1970, so a returned date is
/// well formed and its year is at least 1970 and at most chrono's greatest
/// representable year.
#[verifier::external_body]
pub fn today_utc() -> (d: Option<Date>)
    ensures
        d matches Some(day) ==> day.wf() && 1970 <= day.year <= 262143,
{
    let now = chrono::Utc::now().date_naive();
    let year: u64 = match u64::try_from(chrono::Datelike::year(&now)) {
        Ok(y) => y,
        Err(_) => {
            return None;
        },
    };
    let month: u64 = chrono::Datelike::month(&now) as u64;
    let day: u64 = chrono::Datelike::day(&now) as u64;
    Some(Date { year, month, day })
}

} // verus!
