//! Wall-clock times as plain fields, and the two textual forms the server
//! writes: the index page's date column and the `Last-Modified` header.

use vstd::prelude::*;
use chrono::{Datelike, Timelike};
use crate::text::{decimal, pad_left, push_char, push_padded_decimal, push_str};

verus! {

/// A local date and time of day, as the local time zone shows it.
#[derive(Clone, Copy, PartialEq, Eq, Structural, Debug)]
pub struct CivilTime {
    pub year: i32,
    /// 1 to 12.
    pub month: u8,
    /// 1 to 31.
    pub day: u8,
    pub hour: u8,
    pub minute: u8,
    pub second: u8,
    /// Days since Monday: 0 to 6.
    pub weekday: u8,
}

impl CivilTime {
    pub open spec fn wf(self) -> bool {
        &&& 1 <= self.month <= 12
        &&& 1 <= self.day <= 31
        &&& self.hour < 24
        &&& self.minute < 60
        &&& self.second < 61
        &&& self.weekday < 7
    }
}

/// A moment, in seconds and nanoseconds since the Unix epoch, well inside
/// the range of dates that chrono represents (about 250,000 years either way).
pub open spec fn representable(secs: i64, nanos: u32) -> bool {
    nanos < 1_000_000_000 && -8_000_000_000_000 <= secs <= 8_000_000_000_000
}

/// Relies on chrono's `DateTime::from_timestamp` and `with_timezone(&Local)`:
/// the local date and time of a moment given as seconds and nanoseconds since
/// the Unix epoch, or `None` where chrono cannot represent the moment, which
/// is never the case for a representable one. The
/// fields come from chrono's `Datelike` and `Timelike` accessors, whose ranges
/// chrono documents.
#[verifier::external_body]
pub(crate) fn local_time_of(secs: i64, nanos: u32) -> (r: Option<CivilTime>)
    ensures
        r matches Some(t) ==> t.wf(),
        representable(secs, nanos) ==> r is Some,
{
    let t = chrono::DateTime::from_timestamp(secs, nanos)?.with_timezone(&chrono::Local);
    Some(CivilTime {
        year: t.year(),
        month: t.month() as u8,
        day: t.day() as u8,
        hour: t.hour() as u8,
        minute: t.minute() as u8,
        second: t.second() as u8,
        weekday: t.weekday().num_days_from_monday() as u8,
    })
}

pub open spec fn month_abbrev(m: u8) -> Seq<char> {
    if m == 1 { "Jan"@ } else if m == 2 { "Feb"@ } else if m == 3 { "Mar"@ }
    else if m == 4 { "Apr"@ } else if m == 5 { "May"@ } else if m == 6 { "Jun"@ }
    else if m == 7 { "Jul"@ } else if m == 8 { "Aug"@ } else if m == 9 { "Sep"@ }
    else if m == 10 { "Oct"@ } else if m == 11 { "Nov"@ } else { "Dec"@ }
}

pub open spec fn weekday_abbrev(w: u8) -> Seq<char> {
    if w == 0 { "Mon"@ } else if w == 1 { "Tue"@ } else if w == 2 { "Wed"@ }
    else if w == 3 { "Thu"@ } else if w == 4 { "Fri"@ } else if w == 5 { "Sat"@ }
    else { "Sun"@ }
}

/// Two digits, zero-padded.
pub open spec fn two_digits(n: u8) -> Seq<char> {
    pad_left(decimal(n as nat), 2, '0')
}

/// The year zero-padded to four digits; outside 0 to 9999 it carries its
/// sign, as `+10000` or `-0001`.
pub open spec fn year_text(y: i32) -> Seq<char> {
    if 0 <= y <= 9999 {
        pad_left(decimal(y as nat), 4, '0')
    } else if y > 9999 {
        seq!['+'] + decimal(y as nat)
    } else {
        seq!['-'] + pad_left(decimal((-y) as nat), 4, '0')
    }
}

/// `DD-Mon-YYYY HH:MM`.
pub open spec fn listing_stamp(t: CivilTime) -> Seq<char> {
    two_digits(t.day) + seq!['-'] + month_abbrev(t.month) + seq!['-'] + year_text(t.year)
        + seq![' '] + two_digits(t.hour) + seq![':'] + two_digits(t.minute)
}

/// `Day, DD Mon YYYY HH:MM:SS GMT`, from the local time.
pub open spec fn http_stamp(t: CivilTime) -> Seq<char> {
    weekday_abbrev(t.weekday) + ", "@ + two_digits(t.day) + seq![' '] + month_abbrev(t.month)
        + seq![' '] + year_text(t.year) + seq![' '] + two_digits(t.hour) + seq![':']
        + two_digits(t.minute) + seq![':'] + two_digits(t.second) + " GMT"@
}

fn push_two_digits(s: &mut String, n: u8)
    ensures
        final(s)@ == old(s)@ + two_digits(n),
{
    push_padded_decimal(s, n as u64, 2, '0');
}

fn push_month(s: &mut String, m: u8)
    ensures
        final(s)@ == old(s)@ + month_abbrev(m),
{
    let name = if m == 1 { "Jan" } else if m == 2 { "Feb" } else if m == 3 { "Mar" }
    else if m == 4 { "Apr" } else if m == 5 { "May" } else if m == 6 { "Jun" }
    else if m == 7 { "Jul" } else if m == 8 { "Aug" } else if m == 9 { "Sep" }
    else if m == 10 { "Oct" } else if m == 11 { "Nov" } else { "Dec" };
    push_str(s, name);
}

fn push_weekday(s: &mut String, w: u8)
    ensures
        final(s)@ == old(s)@ + weekday_abbrev(w),
{
    let name = if w == 0 { "Mon" } else if w == 1 { "Tue" } else if w == 2 { "Wed" }
    else if w == 3 { "Thu" } else if w == 4 { "Fri" } else if w == 5 { "Sat" }
    else { "Sun" };
    push_str(s, name);
}

fn push_year(s: &mut String, y: i32)
    ensures
        final(s)@ == old(s)@ + year_text(y),
{
    let ghost start = s@;
    if 0 <= y && y <= 9999 {
        push_padded_decimal(s, y as u64, 4, '0');
    } else if y > 9999 {
        push_char(s, '+');
        push_padded_decimal(s, y as u64, 0, '0');
        assert(pad_left(decimal(y as nat), 0, '0') == decimal(y as nat));
    } else {
        push_char(s, '-');
        let a: i64 = -(y as i64);
        push_padded_decimal(s, a as u64, 4, '0');
    }
    assert(s@ =~= start + year_text(y));
}

/// Appends the index page's date column for `t`.
pub fn push_listing_stamp(s: &mut String, t: &CivilTime)
    ensures
        final(s)@ == old(s)@ + listing_stamp(*t),
{
    let ghost start = s@;
    push_two_digits(s, t.day);
    push_char(s, '-');
    push_month(s, t.month);
    push_char(s, '-');
    push_year(s, t.year);
    push_char(s, ' ');
    push_two_digits(s, t.hour);
    push_char(s, ':');
    push_two_digits(s, t.minute);
    assert(s@ =~= start + listing_stamp(*t));
}

/// The `Last-Modified` header value for a file last changed at `t`.
pub fn http_date(t: &CivilTime) -> (r: String)
    ensures
        r@ == http_stamp(*t),
{
    let mut s = String::new();
    push_weekday(&mut s, t.weekday);
    push_str(&mut s, ", ");
    push_two_digits(&mut s, t.day);
    push_char(&mut s, ' ');
    push_month(&mut s, t.month);
    push_char(&mut s, ' ');
    push_year(&mut s, t.year);
    push_char(&mut s, ' ');
    push_two_digits(&mut s, t.hour);
    push_char(&mut s, ':');
    push_two_digits(&mut s, t.minute);
    push_char(&mut s, ':');
    push_two_digits(&mut s, t.second);
    push_str(&mut s, " GMT");
    assert(s@ =~= http_stamp(*t));
    s
}

} // verus!
