//! Calendar dates and timestamps, backed by the `time` crate.
//!
//! `CalDate` holds a date of the proleptic Gregorian calendar as plain
//! numbers, and `Stamp` a date with a time of day and a UTC offset. Every
//! arithmetic step on dates is delegated to `time`; the contracts of those
//! calls are stated here over the calendar model below.
use vstd::prelude::*;

use crate::text::{decimal, decimal2, push_char, push_decimal, push_decimal2, push_signed, signed_decimal};

verus! {

/// The smallest year that a date can have.
pub const MIN_YEAR: i32 = -9999;

/// The largest year that a date can have.
pub const MAX_YEAR: i32 = 9999;

/// Leap years of the Gregorian calendar.
pub open spec fn is_leap_year(y: int) -> bool {
    y % 4 == 0 && (y % 100 != 0 || y % 400 == 0)
}

/// Number of days in month `m` (1 to 12) of year `y`.
pub open spec fn month_length(y: int, m: int) -> int {
    if m == 2 {
        if is_leap_year(y) {
            29
        } else {
            28
        }
    } else if m == 4 || m == 6 || m == 9 || m == 11 {
        30
    } else {
        31
    }
}

/// A (year, month, day) triple names an existing date in the supported range.
pub open spec fn valid_date(v: (int, int, int)) -> bool {
    &&& MIN_YEAR <= v.0 <= MAX_YEAR
    &&& 1 <= v.1 <= 12
    &&& 1 <= v.2 <= month_length(v.0, v.1)
}

/// The day after a date, if it is still in the supported range.
pub open spec fn next_day_of(v: (int, int, int)) -> Option<(int, int, int)> {
    if v.2 < month_length(v.0, v.1) {
        Some((v.0, v.1, v.2 + 1))
    } else if v.1 < 12 {
        Some((v.0, v.1 + 1, 1))
    } else if v.0 < MAX_YEAR {
        Some((v.0 + 1, 1, 1))
    } else {
        None
    }
}

/// The day before a date, if it is still in the supported range.
pub open spec fn prev_day_of(v: (int, int, int)) -> Option<(int, int, int)> {
    if v.2 > 1 {
        Some((v.0, v.1, v.2 - 1))
    } else if v.1 > 1 {
        Some((v.0, v.1 - 1, month_length(v.0, v.1 - 1)))
    } else if v.0 > MIN_YEAR {
        Some((v.0 - 1, 12, 31))
    } else {
        None
    }
}

/// The date `n` days after `v` (before it, for negative `n`), if every day on
/// the way is in the supported range.
pub open spec fn shift_days(v: (int, int, int), n: int) -> Option<(int, int, int)>
    decreases
            (if n >= 0 {
                n
            } else {
                -n
            }),
{
    if n == 0 {
        Some(v)
    } else if n > 0 {
        match next_day_of(v) {
            Some(w) => shift_days(w, n - 1),
            None => None,
        }
    } else {
        match prev_day_of(v) {
            Some(w) => shift_days(w, n + 1),
            None => None,
        }
    }
}

/// Days from 1970-01-01 to a date of the proleptic Gregorian calendar
/// (negative before it), counting years from March so that a leap day ends
/// its year.
pub open spec fn days_from_epoch(year: int, month: int, day: int) -> int {
    let y = if month <= 2 {
        year - 1
    } else {
        year
    };
    let era = y / 400;
    let yoe = y - era * 400;
    let doy = (153 * (if month > 2 {
        month - 3
    } else {
        month + 9
    }) + 2) / 5 + day - 1;
    let doe = yoe * 365 + yoe / 4 - yoe / 100 + doy;
    era * 146097 + doe - 719468
}

/// The weekday of a date, counted in days from Monday (Monday is 0, Sunday is
/// 6); 1970-01-01 was a Thursday.
pub open spec fn weekday_of(year: int, month: int, day: int) -> int {
    (days_from_epoch(year, month, day) + 3) % 7
}

/// Days before 1 March of the shifted year after `y` (years run from March to
/// February), counted from the start of its 400-year era and its era.
spec fn shifted_year_start(y: int) -> int {
    let era = y / 400;
    let yoe = y - era * 400;
    era * 146097 + yoe * 365 + yoe / 4 - yoe / 100
}

/// A shifted year, from 1 March of `y` to the end of February of `y + 1`, has
/// 366 days when `y + 1` is a leap year and 365 otherwise.
proof fn lemma_shifted_year_length(y: int)
    ensures
        shifted_year_start(y + 1) - shifted_year_start(y) == if is_leap_year(y + 1) {
            366int
        } else {
            365int
        },
{
    let era = y / 400;
    let yoe = y - era * 400;
    assert(0 <= yoe < 400 && y == era * 400 + yoe) by (nonlinear_arith)
        requires
            era == y / 400,
            yoe == y - era * 400,
    ;
    if yoe == 399 {
        assert((y + 1) / 400 == era + 1 && (y + 1) - (era + 1) * 400 == 0) by (nonlinear_arith)
            requires
                y == era * 400 + 399,
        ;
        assert((y + 1) % 400 == 0 && (y + 1) % 4 == 0) by (nonlinear_arith)
            requires
                y == era * 400 + 399,
        ;
        assert(shifted_year_start(y + 1) == (era + 1) * 146097);
        assert(shifted_year_start(y) == era * 146097 + 399int * 365 + 399int / 4 - 399int / 100);
    } else {
        assert((y + 1) / 400 == era && (y + 1) - era * 400 == yoe + 1) by (nonlinear_arith)
            requires
                y == era * 400 + yoe,
                0 <= yoe < 399,
        ;
        assert((y + 1) % 400 != 0 && (y + 1) % 4 == (yoe + 1) % 4 && (y + 1) % 100 == (yoe + 1)
            % 100) by (nonlinear_arith)
            requires
                y == era * 400 + yoe,
                0 <= yoe < 399,
        ;
        assert((yoe + 1) / 4 - yoe / 4 == (if (yoe + 1) % 4 == 0 {
            1int
        } else {
            0int
        })) by (nonlinear_arith)
            requires
                0 <= yoe,
        ;
        assert((yoe + 1) / 100 - yoe / 100 == (if (yoe + 1) % 100 == 0 {
            1int
        } else {
            0int
        })) by (nonlinear_arith)
            requires
                0 <= yoe,
        ;
        assert(shifted_year_start(y + 1) == era * 146097 + (yoe + 1) * 365 + (yoe + 1) / 4 - (yoe
            + 1) / 100);
        assert(shifted_year_start(y) == era * 146097 + yoe * 365 + yoe / 4 - yoe / 100);
    }
}

/// The day count of a date is that of its shifted year's start plus its
/// place in the shifted year.
proof fn lemma_days_from_epoch_parts(v: (int, int, int))
    ensures
        days_from_epoch(v.0, v.1, v.2) == shifted_year_start(
            if v.1 <= 2 {
                v.0 - 1
            } else {
                v.0
            },
        ) + (153 * (if v.1 > 2 {
            v.1 - 3
        } else {
            v.1 + 9
        }) + 2) / 5 + v.2 - 1 - 719468,
{
}

/// The day after a date is counted one more.
proof fn lemma_next_day_count(v: (int, int, int))
    requires
        valid_date(v),
        next_day_of(v) is Some,
    ensures
        valid_date(next_day_of(v)->0),
        ({
            let w = next_day_of(v)->0;
            days_from_epoch(w.0, w.1, w.2) == days_from_epoch(v.0, v.1, v.2) + 1
        }),
{
    let w = next_day_of(v)->0;
    lemma_days_from_epoch_parts(v);
    lemma_days_from_epoch_parts(w);
    if v.2 < month_length(v.0, v.1) {
    } else if v.1 == 2 {
        lemma_shifted_year_length(v.0 - 1);
    } else if v.1 < 12 {
        assert(v.1 == 1 || 3 <= v.1 <= 11);
    } else {
    }
}

/// The day before a date is counted one less.
proof fn lemma_prev_day_count(v: (int, int, int))
    requires
        valid_date(v),
        prev_day_of(v) is Some,
    ensures
        valid_date(prev_day_of(v)->0),
        ({
            let w = prev_day_of(v)->0;
            days_from_epoch(w.0, w.1, w.2) == days_from_epoch(v.0, v.1, v.2) - 1
        }),
{
    let w = prev_day_of(v)->0;
    assert(valid_date(w));
    assert(next_day_of(w) == Some(v));
    lemma_next_day_count(w);
}

/// Moving `n` days from a valid date moves its day count by `n`.
pub proof fn lemma_shift_count(v: (int, int, int), n: int)
    requires
        valid_date(v),
        shift_days(v, n) is Some,
    ensures
        valid_date(shift_days(v, n)->0),
        ({
            let w = shift_days(v, n)->0;
            days_from_epoch(w.0, w.1, w.2) == days_from_epoch(v.0, v.1, v.2) + n
        }),
    decreases
            (if n >= 0 {
                n
            } else {
                -n
            }),
{
    if n > 0 {
        lemma_next_day_count(v);
        lemma_shift_count(next_day_of(v)->0, n - 1);
    } else if n < 0 {
        lemma_prev_day_count(v);
        lemma_shift_count(prev_day_of(v)->0, n + 1);
    }
}

/// Moving a number of days moves the weekday by as much, modulo 7.
pub proof fn lemma_shift_weekday(v: (int, int, int), n: int)
    requires
        valid_date(v),
        shift_days(v, n) is Some,
    ensures
        ({
            let w = shift_days(v, n)->0;
            weekday_of(w.0, w.1, w.2) == (weekday_of(v.0, v.1, v.2) + n) % 7
        }),
{
    lemma_shift_count(v, n);
    let d = days_from_epoch(v.0, v.1, v.2);
    assert((d + n + 3) % 7 == ((d + 3) % 7 + n) % 7) by (nonlinear_arith);
}

/// Saturday and Sunday.
pub open spec fn is_weekend_day(w: int) -> bool {
    w == 5 || w == 6
}

/// A date of the proleptic Gregorian calendar between years -9999 and 9999.
#[derive(Clone, Copy, Debug)]
pub struct CalDate {
    year: i32,
    month: u8,
    day: u8,
}

impl View for CalDate {
    type V = (int, int, int);

    closed spec fn view(&self) -> (int, int, int) {
        (self.year as int, self.month as int, self.day as int)
    }
}

impl CalDate {
    /// Every `CalDate` names an existing date.
    #[verifier::type_invariant]
    pub open spec fn inv(&self) -> bool {
        valid_date(self@)
    }

    /// Builds a date from its year, month (1 to 12) and day, or `None` when no
    /// such date exists.
    pub fn new(year: i32, month: u8, day: u8) -> (r: Option<CalDate>)
        ensures
            r is Some <==> valid_date((year as int, month as int, day as int)),
            r matches Some(d) ==> d@ == (year as int, month as int, day as int),
    {
        time_from_calendar_date(year, month, day)
    }

    /// The year.
    pub fn year(&self) -> (r: i32)
        ensures
            r == self@.0,
            valid_date(self@),
    {
        proof {
            use_type_invariant(self);
        }
        self.year
    }

    /// The month, from 1 (January) to 12 (December).
    pub fn month(&self) -> (r: u8)
        ensures
            r == self@.1,
            valid_date(self@),
    {
        proof {
            use_type_invariant(self);
        }
        self.month
    }

    /// The day of the month, from 1.
    pub fn day(&self) -> (r: u8)
        ensures
            r == self@.2,
            valid_date(self@),
    {
        proof {
            use_type_invariant(self);
        }
        self.day
    }

    /// Whether two dates are the same day.
    pub fn same_day(&self, other: &CalDate) -> (r: bool)
        ensures
            r == (self@ == other@),
    {
        self.year == other.year && self.month == other.month && self.day == other.day
    }
}

/// `time::Date::from_calendar_date`: the date with the given year, month and
/// day, which exists exactly when the triple is a valid date.
#[verifier::external_body]
pub(crate) fn time_from_calendar_date(year: i32, month: u8, day: u8) -> (r: Option<CalDate>)
    ensures
        r is Some <==> valid_date((year as int, month as int, day as int)),
        r matches Some(d) ==> d@ == (year as int, month as int, day as int),
{
    match time::Month::try_from(month) {
        Ok(m) => match time::Date::from_calendar_date(year, m, day) {
            Ok(d) => Some(CalDate { year: d.year(), month: d.month() as u8, day: d.day() }),
            Err(_) => None,
        },
        Err(_) => None,
    }
}

/// `time::Date::next_day`: the following day, `None` after `Date::MAX`.
#[verifier::external_body]
pub(crate) fn time_next_day(d: CalDate) -> (r: Option<CalDate>)
    ensures
        r matches Some(n) ==> Some(n@) == next_day_of(d@),
        r is None ==> next_day_of(d@) is None,
{
    let t = time::Date::from_calendar_date(
        d.year,
        time::Month::try_from(d.month).unwrap(),
        d.day,
    ).unwrap();
    t.next_day().map(|n| CalDate { year: n.year(), month: n.month() as u8, day: n.day() })
}

/// `time::Date::previous_day`: the preceding day, `None` before `Date::MIN`.
#[verifier::external_body]
pub(crate) fn time_previous_day(d: CalDate) -> (r: Option<CalDate>)
    ensures
        r matches Some(n) ==> Some(n@) == prev_day_of(d@),
        r is None ==> prev_day_of(d@) is None,
{
    let t = time::Date::from_calendar_date(
        d.year,
        time::Month::try_from(d.month).unwrap(),
        d.day,
    ).unwrap();
    t.previous_day().map(|n| CalDate { year: n.year(), month: n.month() as u8, day: n.day() })
}

/// `time::Date::checked_add` with `Duration::days(days)`: the date `days`
/// days later (earlier when negative), or `None` when it leaves the supported
/// range.
#[verifier::external_body]
pub(crate) fn time_checked_add_days(d: CalDate, days: i32) -> (r: Option<CalDate>)
    ensures
        r matches Some(n) ==> Some(n@) == shift_days(d@, days as int),
        r is None ==> shift_days(d@, days as int) is None,
{
    let t = time::Date::from_calendar_date(
        d.year,
        time::Month::try_from(d.month).unwrap(),
        d.day,
    ).unwrap();
    t.checked_add(time::Duration::days(days as i64)).map(
        |n| CalDate { year: n.year(), month: n.month() as u8, day: n.day() },
    )
}

/// `time::Date::weekday`, as the number of days from Monday.
#[verifier::external_body]
pub(crate) fn time_weekday(d: CalDate) -> (r: u8)
    ensures
        r == weekday_of(d@.0, d@.1, d@.2),
{
    let t = time::Date::from_calendar_date(
        d.year,
        time::Month::try_from(d.month).unwrap(),
        d.day,
    ).unwrap();
    t.weekday().number_days_from_monday()
}

/// The parts of a timestamp: date, time of day, and UTC offset in seconds.
pub struct StampView {
    pub date: (int, int, int),
    pub hour: int,
    pub minute: int,
    pub second: int,
    pub nanosecond: int,
    pub offset: int,
}

/// A time of day and UTC offset that `time` can represent.
pub open spec fn valid_clock(hour: int, minute: int, second: int, nanosecond: int, offset: int) -> bool {
    &&& 0 <= hour < 24
    &&& 0 <= minute < 60
    &&& 0 <= second < 60
    &&& 0 <= nanosecond < 1_000_000_000
    &&& -93599 <= offset <= 93599
}

/// A date and time of day at a given UTC offset (a model of
/// `time::OffsetDateTime`).
#[derive(Clone, Copy, Debug)]
pub struct Stamp {
    date: CalDate,
    hour: u8,
    minute: u8,
    second: u8,
    nanosecond: u32,
    offset_seconds: i32,
}

impl View for Stamp {
    type V = StampView;

    closed spec fn view(&self) -> StampView {
        StampView {
            date: self.date@,
            hour: self.hour as int,
            minute: self.minute as int,
            second: self.second as int,
            nanosecond: self.nanosecond as int,
            offset: self.offset_seconds as int,
        }
    }
}

impl Stamp {
    /// Every `Stamp` holds a representable time of day and offset.
    #[verifier::type_invariant]
    pub open spec fn inv(&self) -> bool {
        valid_clock(self@.hour, self@.minute, self@.second, self@.nanosecond, self@.offset)
    }

    /// Builds a timestamp, or `None` when the time of day or offset is out of range.
    pub fn new(
        date: CalDate,
        hour: u8,
        minute: u8,
        second: u8,
        nanosecond: u32,
        offset_seconds: i32,
    ) -> (r: Option<Stamp>)
        ensures
            r is Some <==> valid_clock(
                hour as int,
                minute as int,
                second as int,
                nanosecond as int,
                offset_seconds as int,
            ),
            r matches Some(s) ==> s@ == (StampView {
                date: date@,
                hour: hour as int,
                minute: minute as int,
                second: second as int,
                nanosecond: nanosecond as int,
                offset: offset_seconds as int,
            }),
    {
        if hour < 24 && minute < 60 && second < 60 && nanosecond < 1_000_000_000
            && -93599 <= offset_seconds && offset_seconds <= 93599 {
            Some(Stamp { date, hour, minute, second, nanosecond, offset_seconds })
        } else {
            None
        }
    }

    /// The calendar date.
    pub fn date(&self) -> (r: CalDate)
        ensures
            r@ == self@.date,
    {
        self.date
    }

    /// The hour, from 0 to 23.
    pub fn hour(&self) -> (r: u8)
        ensures
            r == self@.hour,
            valid_clock(self@.hour, self@.minute, self@.second, self@.nanosecond, self@.offset),
    {
        proof {
            use_type_invariant(self);
        }
        self.hour
    }

    /// The minute, from 0 to 59.
    pub fn minute(&self) -> (r: u8)
        ensures
            r == self@.minute,
            valid_clock(self@.hour, self@.minute, self@.second, self@.nanosecond, self@.offset),
    {
        proof {
            use_type_invariant(self);
        }
        self.minute
    }

    /// The second, from 0 to 59.
    pub fn second(&self) -> (r: u8)
        ensures
            r == self@.second,
            valid_clock(self@.hour, self@.minute, self@.second, self@.nanosecond, self@.offset),
    {
        proof {
            use_type_invariant(self);
        }
        self.second
    }

    /// The nanosecond within the second.
    pub fn nanosecond(&self) -> (r: u32)
        ensures
            r == self@.nanosecond,
            valid_clock(self@.hour, self@.minute, self@.second, self@.nanosecond, self@.offset),
    {
        proof {
            use_type_invariant(self);
        }
        self.nanosecond
    }

    /// The UTC offset in seconds.
    pub fn offset_seconds(&self) -> (r: i32)
        ensures
            r == self@.offset,
            valid_clock(self@.hour, self@.minute, self@.second, self@.nanosecond, self@.offset),
    {
        proof {
            use_type_invariant(self);
        }
        self.offset_seconds
    }

    /// The same time of day and offset on another date.
    pub fn replace_date(&self, date: CalDate) -> (r: Stamp)
        ensures
            r@ == (StampView { date: date@, ..self@ }),
    {
        proof {
            use_type_invariant(self);
        }
        Stamp { date, ..*self }
    }
}

/// `time::OffsetDateTime::now_utc`: the current time in UTC. Nothing is stated
/// of which time it is.
#[verifier::external_body]
pub(crate) fn time_now_utc() -> (r: Stamp)
    ensures
        r@.offset == 0,
{
    let t = time::OffsetDateTime::now_utc();
    let date = CalDate { year: t.year(), month: t.month() as u8, day: t.day() };
    let (hour, minute, second, nanosecond) = (t.hour(), t.minute(), t.second(), t.nanosecond());
    Stamp { date, hour, minute, second, nanosecond, offset_seconds: t.offset().whole_seconds() }
}

/// `time::OffsetDateTime::now_local`: the current local time, or `None` when
/// the local UTC offset cannot be determined. Nothing is stated of which time
/// it is.
#[verifier::external_body]
pub(crate) fn time_now_local() -> (r: Option<Stamp>) {
    let t = match time::OffsetDateTime::now_local() {
        Ok(t) => t,
        Err(_) => return None,
    };
    let date = CalDate { year: t.year(), month: t.month() as u8, day: t.day() };
    let (hour, minute, second, nanosecond) = (t.hour(), t.minute(), t.second(), t.nanosecond());
    Some(Stamp { date, hour, minute, second, nanosecond, offset_seconds: t.offset().whole_seconds() })
}

/// The current local time, falling back to UTC when the local offset is unknown.
pub fn now() -> (r: Stamp) {
    match time_now_local() {
        Some(t) => t,
        None => time_now_utc(),
    }
}

/// Today's local date, falling back to the UTC date when the local offset is
/// unknown.
pub fn today() -> (r: CalDate) {
    now().date()
}

/// The text `YYYY-MM-DDTHH:MM:SSZ` of a timestamp (the year is written in full,
/// the other parts with two digits).
pub open spec fn utc_timestamp_text(s: StampView) -> Seq<char> {
    signed_decimal(s.date.0) + seq!['-'] + decimal2(s.date.1 as nat) + seq!['-'] + decimal2(
        s.date.2 as nat,
    ) + seq!['T'] + decimal2(s.hour as nat) + seq![':'] + decimal2(s.minute as nat) + seq![':']
        + decimal2(s.second as nat) + seq!['Z']
}

/// Formats a timestamp as `YYYY-MM-DDTHH:MM:SSZ`.
pub fn format_utc_timestamp(s: &Stamp) -> (r: String)
    ensures
        r@ == utc_timestamp_text(s@),
{
    let d = s.date();
    let mut out = String::new();
    push_signed(&mut out, d.year() as i64);
    push_char(&mut out, '-');
    push_decimal2(&mut out, d.month() as u64);
    push_char(&mut out, '-');
    push_decimal2(&mut out, d.day() as u64);
    push_char(&mut out, 'T');
    push_decimal2(&mut out, s.hour() as u64);
    push_char(&mut out, ':');
    push_decimal2(&mut out, s.minute() as u64);
    push_char(&mut out, ':');
    push_decimal2(&mut out, s.second() as u64);
    push_char(&mut out, 'Z');
    assert(out@ =~= utc_timestamp_text(s@));
    out
}

/// The current UTC time as `YYYY-MM-DDTHH:MM:SSZ`.
pub fn now_utc_str() -> (r: String)
    ensures
        exists|s: StampView| s.offset == 0 && r@ == utc_timestamp_text(s),
{
    let t = time_now_utc();
    format_utc_timestamp(&t)
}

/// Zeros in front of the digits of `n` up to four digits.
pub open spec fn padded4(n: nat) -> Seq<char> {
    let d = decimal(n);
    if d.len() < 4 {
        Seq::new((4 - d.len()) as nat, |i: int| '0') + d
    } else {
        d
    }
}

/// A date as `YYYY-MM-DD`, the year with four digits at least and a minus
/// sign before year 0.
pub open spec fn date_text(v: (int, int, int)) -> Seq<char> {
    (if v.0 < 0 {
        seq!['-'] + padded4((-v.0) as nat)
    } else {
        padded4(v.0 as nat)
    }) + seq!['-'] + decimal2(v.1 as nat) + seq!['-'] + decimal2(v.2 as nat)
}

/// Appends `n` with zeros in front up to four digits.
fn push_padded4(s: &mut String, n: u64)
    ensures
        final(s)@ == old(s)@ + padded4(n as nat),
{
    let ghost d = decimal(n as nat);
    if n < 10 {
        push_char(s, '0');
        push_char(s, '0');
        push_char(s, '0');
        assert(d.len() == 1);
    } else if n < 100 {
        push_char(s, '0');
        push_char(s, '0');
        assert(decimal((n / 10) as nat).len() == 1);
        assert(d.len() == 2);
    } else if n < 1000 {
        push_char(s, '0');
        assert(decimal((n / 100) as nat).len() == 1);
        assert(decimal((n / 10) as nat).len() == 2);
        assert(d.len() == 3);
    } else {
        proof {
            lemma_decimal_len_ge4(n as nat);
        }
    }
    push_decimal(s, n);
    assert(s@ =~= old(s)@ + padded4(n as nat));
}

proof fn lemma_decimal_len_pos(n: nat)
    ensures
        decimal(n).len() >= 1,
    decreases n,
{
    if n >= 10 {
        lemma_decimal_len_pos(n / 10);
    }
}

proof fn lemma_decimal_len_ge4(n: nat)
    requires
        n >= 1000,
    ensures
        decimal(n).len() >= 4,
{
    let a = n / 10;
    let b = a / 10;
    let c = b / 10;
    assert(decimal(n).len() == decimal(a).len() + 1);
    assert(decimal(a).len() == decimal(b).len() + 1);
    assert(decimal(b).len() == decimal(c).len() + 1);
    lemma_decimal_len_pos(c);
}

/// Formats a date as `YYYY-MM-DD`.
pub fn format_date(d: &CalDate) -> (r: String)
    ensures
        r@ == date_text(d@),
{
    let mut out = String::new();
    let y = d.year();
    if y < 0 {
        push_char(&mut out, '-');
        push_padded4(&mut out, (-y) as u64);
    } else {
        push_padded4(&mut out, y as u64);
    }
    push_char(&mut out, '-');
    push_decimal2(&mut out, d.month() as u64);
    push_char(&mut out, '-');
    push_decimal2(&mut out, d.day() as u64);
    assert(out@ =~= date_text(d@));
    out
}

} // verus!
