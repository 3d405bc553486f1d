//! Small display and parsing helpers shared by the views: date formatting
//! and parsing, and text truncation for table cells.

use vstd::prelude::*;
use crate::dates::{Date, valid_date};
use crate::text::{is_digit_char, digit_val};

verus! {

/// `s` renders `d` as `dd/mm/yyyy`, all three parts zero-padded.
pub open spec fn date_formatted(d: Date, s: Seq<char>) -> bool {
    &&& s.len() == 10
    &&& is_digit_char(s[0]) && digit_val(s[0]) == d.day as int / 10
    &&& is_digit_char(s[1]) && digit_val(s[1]) == d.day as int % 10
    &&& s[2] == '/'
    &&& is_digit_char(s[3]) && digit_val(s[3]) == d.month as int / 10
    &&& is_digit_char(s[4]) && digit_val(s[4]) == d.month as int % 10
    &&& s[5] == '/'
    &&& is_digit_char(s[6]) && digit_val(s[6]) == d.year as int / 1000
    &&& is_digit_char(s[7]) && digit_val(s[7]) == (d.year as int / 100) % 10
    &&& is_digit_char(s[8]) && digit_val(s[8]) == (d.year as int / 10) % 10
    &&& is_digit_char(s[9]) && digit_val(s[9]) == d.year as int % 10
}

fn push_digit_char(s: &mut String, d: u32)
    requires
        d < 10,
    ensures
        final(s)@ == old(s)@.push(((48 + d) as u8) as char),
        final(s)@.len() == old(s)@.len() + 1,
        is_digit_char(final(s)@.last()),
        digit_val(final(s)@.last()) == d as int,
{
    let c: char = ((48 + d) as u8) as char;
    s.push(c);
}

/// Renders a date as `dd/mm/yyyy`. Four-digit years are the range this
/// renderer supports.
pub fn format_date(date: &Date) -> (r: String)
    requires
        date.wf(),
        0 <= date.year <= 9999,
    ensures
        date_formatted(*date, r@),
{
    let mut s = String::new();
    push_digit_char(&mut s, date.day / 10);
    push_digit_char(&mut s, date.day % 10);
    s.push('/');
    push_digit_char(&mut s, date.month / 10);
    push_digit_char(&mut s, date.month % 10);
    s.push('/');
    let y = date.year as u32;
    push_digit_char(&mut s, y / 1000);
    push_digit_char(&mut s, (y / 100) % 10);
    push_digit_char(&mut s, (y / 10) % 10);
    push_digit_char(&mut s, y % 10);
    s
}

/// Renders an optional date, with `N/A` standing for an absent one.
pub fn format_optional_date(date: &Option<Date>) -> (r: String)
    requires
        date matches Some(d) ==> d.wf() && 0 <= d.year <= 9999,
    ensures
        date matches Some(d) ==> date_formatted(*d, r@),
        date is None ==> r@ == "N/A"@,
{
    match date {
        Some(d) => format_date(d),
        None => String::from_str("N/A"),
    }
}

/// The string has the shape `dd/mm/yyyy`.
pub open spec fn dmy_shape(s: Seq<char>) -> bool {
    &&& s.len() == 10
    &&& is_digit_char(s[0]) && is_digit_char(s[1])
    &&& s[2] == '/'
    &&& is_digit_char(s[3]) && is_digit_char(s[4])
    &&& s[5] == '/'
    &&& is_digit_char(s[6]) && is_digit_char(s[7]) && is_digit_char(s[8]) && is_digit_char(s[9])
}

pub open spec fn dmy_day(s: Seq<char>) -> int {
    10 * digit_val(s[0]) + digit_val(s[1])
}

pub open spec fn dmy_month(s: Seq<char>) -> int {
    10 * digit_val(s[3]) + digit_val(s[4])
}

pub open spec fn dmy_year(s: Seq<char>) -> int {
    1000 * digit_val(s[6]) + 100 * digit_val(s[7]) + 10 * digit_val(s[8]) + digit_val(s[9])
}

/// The string has the shape `yyyy-mm-dd`.
pub open spec fn iso_shape(s: Seq<char>) -> bool {
    &&& s.len() == 10
    &&& is_digit_char(s[0]) && is_digit_char(s[1]) && is_digit_char(s[2]) && is_digit_char(s[3])
    &&& s[4] == '-'
    &&& is_digit_char(s[5]) && is_digit_char(s[6])
    &&& s[7] == '-'
    &&& is_digit_char(s[8]) && is_digit_char(s[9])
}

pub open spec fn iso_year(s: Seq<char>) -> int {
    1000 * digit_val(s[0]) + 100 * digit_val(s[1]) + 10 * digit_val(s[2]) + digit_val(s[3])
}

pub open spec fn iso_month(s: Seq<char>) -> int {
    10 * digit_val(s[5]) + digit_val(s[6])
}

pub open spec fn iso_day(s: Seq<char>) -> int {
    10 * digit_val(s[8]) + digit_val(s[9])
}

fn check_digit(s: &str, i: usize) -> (r: bool)
    requires
        i < s@.len(),
    ensures
        r == is_digit_char(s@[i as int]),
{
    let c = s.get_char(i);
    48 <= c as u32 && c as u32 <= 57
}

fn get_digit(s: &str, i: usize) -> (r: u32)
    requires
        i < s@.len(),
        is_digit_char(s@[i as int]),
    ensures
        r == digit_val(s@[i as int]),
        r < 10,
{
    (s.get_char(i) as u32) - 48
}

/// Reads a date written either as `dd/mm/yyyy` or as `yyyy-mm-dd`; any other
/// text, or digits that name no real calendar day, yields nothing.
pub fn parse_date(date_str: &str) -> (r: Option<Date>)
    ensures
        dmy_shape(date_str@) ==> {
            &&& r is Some <==> valid_date(
                dmy_year(date_str@),
                dmy_month(date_str@),
                dmy_day(date_str@),
            )
            &&& r matches Some(d) ==> d.year as int == dmy_year(date_str@) && d.month as int
                == dmy_month(date_str@) && d.day as int == dmy_day(date_str@)
        },
        iso_shape(date_str@) ==> {
            &&& r is Some <==> valid_date(
                iso_year(date_str@),
                iso_month(date_str@),
                iso_day(date_str@),
            )
            &&& r matches Some(d) ==> d.year as int == iso_year(date_str@) && d.month as int
                == iso_month(date_str@) && d.day as int == iso_day(date_str@)
        },
        !dmy_shape(date_str@) && !iso_shape(date_str@) ==> r is None,
        r matches Some(d) ==> d.wf(),
{
    let n = date_str.unicode_len();
    if n != 10 {
        return None;
    }
    if check_digit(date_str, 0) && check_digit(date_str, 1) && date_str.get_char(2) == '/'
        && check_digit(date_str, 3) && check_digit(date_str, 4) && date_str.get_char(5) == '/'
        && check_digit(date_str, 6) && check_digit(date_str, 7) && check_digit(date_str, 8)
        && check_digit(date_str, 9) {
        let day = 10 * get_digit(date_str, 0) + get_digit(date_str, 1);
        let month = 10 * get_digit(date_str, 3) + get_digit(date_str, 4);
        let year = 1000 * get_digit(date_str, 6) + 100 * get_digit(date_str, 7) + 10 * get_digit(
            date_str,
            8,
        ) + get_digit(date_str, 9);
        return Date::new_checked(year as i32, month, day);
    }
    if check_digit(date_str, 0) && check_digit(date_str, 1) && check_digit(date_str, 2)
        && check_digit(date_str, 3) && date_str.get_char(4) == '-' && check_digit(date_str, 5)
        && check_digit(date_str, 6) && date_str.get_char(7) == '-' && check_digit(date_str, 8)
        && check_digit(date_str, 9) {
        let year = 1000 * get_digit(date_str, 0) + 100 * get_digit(date_str, 1) + 10 * get_digit(
            date_str,
            2,
        ) + get_digit(date_str, 3);
        let month = 10 * get_digit(date_str, 5) + get_digit(date_str, 6);
        let day = 10 * get_digit(date_str, 8) + get_digit(date_str, 9);
        return Date::new_checked(year as i32, month, day);
    }
    None
}

/// Reads a date written as `yyyy-mm-dd` only; the insertion forms parse
/// their date fields in this one shape.
pub fn parse_iso_date(date_str: &str) -> (r: Option<Date>)
    ensures
        iso_shape(date_str@) ==> {
            &&& r is Some <==> valid_date(
                iso_year(date_str@),
                iso_month(date_str@),
                iso_day(date_str@),
            )
            &&& r matches Some(d) ==> d.year as int == iso_year(date_str@) && d.month as int
                == iso_month(date_str@) && d.day as int == iso_day(date_str@)
        },
        !iso_shape(date_str@) ==> r is None,
        r matches Some(d) ==> d.wf(),
{
    let n = date_str.unicode_len();
    if n != 10 {
        return None;
    }
    if check_digit(date_str, 0) && check_digit(date_str, 1) && check_digit(date_str, 2)
        && check_digit(date_str, 3) && date_str.get_char(4) == '-' && check_digit(date_str, 5)
        && check_digit(date_str, 6) && date_str.get_char(7) == '-' && check_digit(date_str, 8)
        && check_digit(date_str, 9) {
        let year = 1000 * get_digit(date_str, 0) + 100 * get_digit(date_str, 1) + 10 * get_digit(
            date_str,
            2,
        ) + get_digit(date_str, 3);
        let month = 10 * get_digit(date_str, 5) + get_digit(date_str, 6);
        let day = 10 * get_digit(date_str, 8) + get_digit(date_str, 9);
        return Date::new_checked(year as i32, month, day);
    }
    None
}

/// Shortens text to at most `max_len` characters, ending a shortened text
/// with an ellipsis of three dots.
pub fn truncate_text(text: &str, max_len: usize) -> (r: String)
    ensures
        text@.len() <= max_len ==> r@ == text@,
        text@.len() > max_len ==> r@ == text@.subrange(
            0,
            if max_len >= 3 {
                max_len - 3
            } else {
                0
            },
        ) + "..."@,
{
    let n = text.unicode_len();
    if n <= max_len {
        String::from_str(text)
    } else {
        let keep = if max_len >= 3 {
            max_len - 3
        } else {
            0
        };
        let head = text.substring_char(0, keep);
        String::from_str(head).concat("...")
    }
}

} // verus!
