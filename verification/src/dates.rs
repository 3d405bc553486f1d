//! Calendar dates as plain year / month / day numbers, with validity,
//! parsing, formatting and age computation.

use vstd::prelude::*;
use vstd::arithmetic::div_mod::lemma_mod_multiples_vanish;
use chrono::Datelike;

verus! {

/// A proleptic Gregorian calendar date.
#[derive(Clone, Copy, Debug, PartialEq, Eq, Structural)]
pub struct Date {
    pub year: i32,
    pub month: u32,
    pub day: u32,
}

pub open spec fn is_leap_year(y: int) -> bool {
    (y % 4 == 0 && y % 100 != 0) || y % 400 == 0
}

pub open spec fn days_in_month(y: int, m: int) -> int {
    if m == 2 {
        if is_leap_year(y) {
            29
        } else {
            28
        }
    } else if m == 4 || m == 6 || m == 9 || m == 11 {
        30
    } else {
        31
    }
}

/// The year range the library works with: the range that backs every
/// calendar date handed to it.
pub open spec fn year_in_range(y: int) -> bool {
    -262143 <= y <= 262142
}

pub open spec fn valid_date(y: int, m: int, d: int) -> bool {
    year_in_range(y) && 1 <= m <= 12 && 1 <= d <= days_in_month(y, m)
}

impl Date {
    pub open spec fn wf(self) -> bool {
        valid_date(self.year as int, self.month as int, self.day as int)
    }

    /// Builds a date only when the numbers name a real calendar day.
    pub fn new_checked(year: i32, month: u32, day: u32) -> (r: Option<Date>)
        ensures
            r is Some <==> valid_date(year as int, month as int, day as int),
            r is Some ==> r->Some_0 == (Date { year, month, day }),
    {
        if year < -262143 || year > 262142 {
            return None;
        }
        if month < 1 || month > 12 {
            return None;
        }
        let dim = exec_days_in_month(year, month);
        if day < 1 || day > dim {
            return None;
        }
        Some(Date { year, month, day })
    }
}

fn exec_is_leap_year(y: i32) -> (r: bool)
    requires
        year_in_range(y as int),
    ensures
        r == is_leap_year(y as int),
{
    // Shift by a multiple of 400 years so the remainder computations run on
    // a non-negative value; leap years repeat with period 400.
    let yy: u32 = (y + 262400) as u32;
    proof {
        lemma_mod_multiples_vanish(65600, y as int, 4);
        lemma_mod_multiples_vanish(2624, y as int, 100);
        lemma_mod_multiples_vanish(656, y as int, 400);
    }
    (yy % 4 == 0 && yy % 100 != 0) || yy % 400 == 0
}

fn exec_days_in_month(y: i32, m: u32) -> (r: u32)
    requires
        year_in_range(y as int),
        1 <= m <= 12,
    ensures
        r as int == days_in_month(y as int, m as int),
{
    if m == 2 {
        if exec_is_leap_year(y) {
            29
        } else {
            28
        }
    } else if m == 4 || m == 6 || m == 9 || m == 11 {
        30
    } else {
        31
    }
}

/// The number of full years lived by someone born on `birth` as of `today`:
/// the year difference, less one when the month and day of `today` still lie
/// before the birthday.
pub open spec fn spec_age(birth: Date, today: Date) -> int {
    if today.month < birth.month || (today.month == birth.month && today.day < birth.day) {
        today.year - birth.year - 1
    } else {
        today.year - birth.year
    }
}

pub fn age_on(birth: &Date, today: &Date) -> (r: i32)
    requires
        birth.wf(),
        today.wf(),
    ensures
        r as int == spec_age(*birth, *today),
{
    let mut age: i32 = today.year - birth.year;
    if today.month < birth.month || (today.month == birth.month && today.day < birth.day) {
        age = age - 1;
    }
    age
}

/// Relies on `chrono::Local::now` and the `chrono::Datelike` accessors of
/// `chrono::NaiveDate`: the current local date is a valid calendar date, and
/// `NaiveDate` holds years within its documented range.
#[verifier::external_body]
pub fn today_date() -> (r: Date)
    ensures
        r.wf(),
{
    let now = chrono::Local::now().date_naive();
    Date { year: now.year(), month: now.month(), day: now.day() }
}

/// The age as of the current local date.
pub fn calculate_age(birth: &Date) -> (r: i32)
    requires
        birth.wf(),
    ensures
        exists|t: Date| t.wf() && r as int == #[trigger] spec_age(*birth, t),
{
    let today = today_date();
    let age = age_on(birth, &today);
    proof {
        assert(today.wf() && age as int == spec_age(*birth, today));
    }
    age
}

} // verus!
