//! Recurrence rules for todos.
use vstd::prelude::*;

use crate::date::{
    is_weekend_day, next_day_of, shift_days, time_checked_add_days, time_from_calendar_date,
    days_from_epoch, lemma_shift_count, lemma_shift_weekday, time_weekday, valid_date, weekday_of,
    CalDate, MAX_YEAR,
};

verus! {

/// A recurrence rule for a todo item.
#[derive(Clone, Copy, Debug, PartialEq, Eq, Structural)]
pub enum Repeat {
    /// Repeats every day.
    Daily,
    /// Repeats on the same weekday each week.
    Weekly,
    /// Repeats on weekends only (Saturday-Sunday).
    Weekends,
    /// Repeats on weekdays only (Monday-Friday).
    Weekdays,
    /// Repeats on the same day of each month.
    Monthly,
    /// Repeats on the same day each year.
    Yearly,
}

/// Position of a rule in display order.
pub open spec fn repeat_index(r: Repeat) -> int {
    match r {
        Repeat::Daily => 0,
        Repeat::Weekly => 1,
        Repeat::Weekends => 2,
        Repeat::Weekdays => 3,
        Repeat::Monthly => 4,
        Repeat::Yearly => 5,
    }
}

/// The rule at a position in display order.
pub open spec fn repeat_at(i: int) -> Repeat {
    if i == 0 {
        Repeat::Daily
    } else if i == 1 {
        Repeat::Weekly
    } else if i == 2 {
        Repeat::Weekends
    } else if i == 3 {
        Repeat::Weekdays
    } else if i == 4 {
        Repeat::Monthly
    } else {
        Repeat::Yearly
    }
}

/// The database identifier of a rule.
pub open spec fn repeat_db_str(r: Repeat) -> Seq<char> {
    match r {
        Repeat::Daily => "daily"@,
        Repeat::Weekly => "weekly_same_day"@,
        Repeat::Weekends => "weekends_sat_sun"@,
        Repeat::Weekdays => "weekdays_mon_fri"@,
        Repeat::Monthly => "monthly_on_day"@,
        Repeat::Yearly => "yearly_on_day"@,
    }
}

/// The human-readable label of a rule.
pub open spec fn repeat_label(r: Repeat) -> Seq<char> {
    match r {
        Repeat::Daily => "Daily"@,
        Repeat::Weekly => "Weekly (same day)"@,
        Repeat::Weekends => "Weekends (Sat-Sun)"@,
        Repeat::Weekdays => "Weekdays (Mon-Fri)"@,
        Repeat::Monthly => "Monthly on day"@,
        Repeat::Yearly => "Yearly on day"@,
    }
}

/// The rule whose database identifier is `s`, if any.
pub open spec fn repeat_from_db(s: Seq<char>) -> Option<Repeat> {
    if s == "daily"@ {
        Some(Repeat::Daily)
    } else if s == "weekly_same_day"@ {
        Some(Repeat::Weekly)
    } else if s == "weekends_sat_sun"@ {
        Some(Repeat::Weekends)
    } else if s == "weekdays_mon_fri"@ {
        Some(Repeat::Weekdays)
    } else if s == "monthly_on_day"@ {
        Some(Repeat::Monthly)
    } else if s == "yearly_on_day"@ {
        Some(Repeat::Yearly)
    } else {
        None
    }
}

/// The weekday of a date given as a triple.
pub open spec fn weekday_at(v: (int, int, int)) -> int {
    weekday_of(v.0, v.1, v.2)
}

/// Whether a day counts as an occurrence of the weekend or weekday rules.
pub open spec fn wanted_day(weekends: bool, v: (int, int, int)) -> bool {
    is_weekend_day(weekday_at(v)) == weekends
}

/// `to` is the first day strictly after `from`, at most a week later, whose
/// kind (weekend or weekday) is the one wanted.
pub open spec fn first_wanted_after(weekends: bool, from: (int, int, int), to: (int, int, int)) -> bool {
    exists|k: int|
        1 <= k <= 7 && shift_days(from, k) == Some(to) && wanted_day(weekends, to) && (forall|i: int|
            1 <= i < k ==> (#[trigger] shift_days(from, i) matches Some(x) && !wanted_day(
                weekends,
                x,
            )))
}

/// `a` is an earlier date than `b`.
pub open spec fn date_before(a: (int, int, int), b: (int, int, int)) -> bool {
    a.0 < b.0 || (a.0 == b.0 && (a.1 < b.1 || (a.1 == b.1 && a.2 < b.2)))
}

/// The same day of the month `k` months after `from`.
pub open spec fn month_later(from: (int, int, int), k: int) -> (int, int, int) {
    let t = from.1 - 1 + k;
    (from.0 + t / 12, t % 12 + 1, from.2)
}

/// The same day of the month in the next month that has it: a 31st skips the
/// months of 30 days and February, a 29th or 30th skips a February without it.
pub open spec fn next_month_same_day(from: (int, int, int)) -> (int, int, int) {
    if valid_date(month_later(from, 1)) {
        month_later(from, 1)
    } else {
        month_later(from, 2)
    }
}

/// The same day of the year `k` years after `from`.
pub open spec fn year_later(from: (int, int, int), k: int) -> (int, int, int) {
    (from.0 + k, from.1, from.2)
}

/// `to` is the same day in the next year that has it (a 29 February moves to
/// the next leap year, at most eight years on).
pub open spec fn next_year_same_day(from: (int, int, int), to: (int, int, int)) -> bool {
    exists|k: int|
        1 <= k <= 8 && to == year_later(from, k) && valid_date(to) && (forall|i: int|
            1 <= i < k ==> !valid_date(#[trigger] year_later(from, i)))
}

/// `to` is the next due date after `from` under rule `r`.
pub open spec fn is_next_date(r: Repeat, from: (int, int, int), to: (int, int, int)) -> bool {
    match r {
        Repeat::Daily => shift_days(from, 1) == Some(to),
        Repeat::Weekly => shift_days(from, 7) == Some(to),
        Repeat::Weekends => first_wanted_after(true, from, to),
        Repeat::Weekdays => first_wanted_after(false, from, to),
        Repeat::Monthly => to == next_month_same_day(from),
        Repeat::Yearly => next_year_same_day(from, to),
    }
}

/// Days from a day of weekday `w` (0 is Monday) to the first later day of the
/// wanted kind: the next Saturday or Sunday for the weekend rule, the next
/// Monday to Friday for the weekday rule.
pub open spec fn days_to_wanted(weekends: bool, w: int) -> int {
    let d = w % 7;
    if weekends {
        if d == 5 {
            1
        } else if d == 6 {
            6
        } else {
            5 - d
        }
    } else {
        if d == 4 {
            3
        } else if d == 5 {
            2
        } else {
            1
        }
    }
}

/// The next due date lies in the supported range of dates.
pub open spec fn next_date_in_range(r: Repeat, from: (int, int, int)) -> bool {
    match r {
        Repeat::Daily => shift_days(from, 1) is Some,
        Repeat::Weekly => shift_days(from, 7) is Some,
        Repeat::Weekends => shift_days(from, days_to_wanted(true, weekday_at(from))) is Some,
        Repeat::Weekdays => shift_days(from, days_to_wanted(false, weekday_at(from))) is Some,
        Repeat::Monthly => from.1 < 12 || from.0 < MAX_YEAR,
        Repeat::Yearly => exists|k: int| 1 <= k <= 8 && valid_date(#[trigger] year_later(from, k)),
    }
}

/// Within two months a month has the day of a valid date (the year end of the
/// supported range aside).
proof fn lemma_month_has_day(from: (int, int, int))
    requires
        valid_date(from),
        from.1 < 12 || from.0 < MAX_YEAR,
    ensures
        valid_date(next_month_same_day(from)),
        date_before(from, next_month_same_day(from)),
{
}

/// A date some days later is a later date.
proof fn lemma_shift_after(v: (int, int, int), n: int)
    requires
        n >= 1,
        shift_days(v, n) is Some,
    ensures
        date_before(v, shift_days(v, n)->0),
    decreases n,
{
    let w = next_day_of(v)->0;
    if n > 1 {
        lemma_shift_after(w, n - 1);
    } else {
        assert(shift_days(w, 0) == Some(w));
    }
}

/// Moving `a` days and then `b` days is moving `a + b` days.
pub proof fn lemma_shift_split(v: (int, int, int), a: nat, b: nat)
    ensures
        shift_days(v, (a + b) as int) == (match shift_days(v, a as int) {
            Some(w) => shift_days(w, b as int),
            None => None,
        }),
    decreases a,
{
    if a > 0 {
        match crate::date::next_day_of(v) {
            Some(w) => {
                lemma_shift_split(w, (a - 1) as nat, b);
                assert(shift_days(v, (a + b) as int) == shift_days(w, (a - 1 + b) as int));
            },
            None => {},
        }
    }
}

/// When the date `n` days ahead exists, so does every date before it.
pub proof fn lemma_shift_prefix(v: (int, int, int), j: nat, n: nat)
    requires
        j <= n,
        shift_days(v, n as int) is Some,
    ensures
        shift_days(v, j as int) is Some,
{
    lemma_shift_split(v, j, (n - j) as nat);
}

impl Repeat {
    /// Returns the icon used to indicate a repeating todo.
    pub fn icon() -> (r: &'static str)
        ensures
            r@ == "\u{27f3}"@,
    {
        "\u{27f3}"
    }

    /// Returns all rules in display order.
    pub fn all() -> (r: [Repeat; 6])
        ensures
            forall|i: int| 0 <= i < 6 ==> #[trigger] r@[i] == repeat_at(i),
    {
        [
            Repeat::Daily,
            Repeat::Weekly,
            Repeat::Weekends,
            Repeat::Weekdays,
            Repeat::Monthly,
            Repeat::Yearly,
        ]
    }

    /// Copies a `Repeat` value from a reference.
    pub fn of(r: &Repeat) -> (res: Repeat)
        ensures
            res == *r,
    {
        match r {
            Repeat::Daily => Repeat::Daily,
            Repeat::Weekly => Repeat::Weekly,
            Repeat::Weekends => Repeat::Weekends,
            Repeat::Weekdays => Repeat::Weekdays,
            Repeat::Monthly => Repeat::Monthly,
            Repeat::Yearly => Repeat::Yearly,
        }
    }

    /// Returns the human-readable label for the repeat rule.
    pub fn label(&self) -> (r: &'static str)
        ensures
            r@ == repeat_label(*self),
    {
        match self {
            Repeat::Daily => "Daily",
            Repeat::Weekly => "Weekly (same day)",
            Repeat::Weekends => "Weekends (Sat-Sun)",
            Repeat::Weekdays => "Weekdays (Mon-Fri)",
            Repeat::Monthly => "Monthly on day",
            Repeat::Yearly => "Yearly on day",
        }
    }

    /// Returns the database string identifier for the repeat rule.
    pub fn to_db_str(&self) -> (r: &'static str)
        ensures
            r@ == repeat_db_str(*self),
    {
        match self {
            Repeat::Daily => "daily",
            Repeat::Weekly => "weekly_same_day",
            Repeat::Weekends => "weekends_sat_sun",
            Repeat::Weekdays => "weekdays_mon_fri",
            Repeat::Monthly => "monthly_on_day",
            Repeat::Yearly => "yearly_on_day",
        }
    }

    /// Returns the next due date after `from` according to this repeat rule: a
    /// day or a week later, the first later weekend day or weekday, or the same
    /// day in the next month or year that has it.
    pub fn next_date(&self, from: CalDate) -> (r: CalDate)
        requires
            next_date_in_range(*self, from@),
        ensures
            is_next_date(*self, from@, r@),
            date_before(from@, r@),
    {
        proof {
            use_type_invariant(&from);
        }
        match self {
            Repeat::Daily => {
                let r = time_checked_add_days(from, 1).unwrap();
                proof {
                    lemma_shift_after(from@, 1);
                }
                r
            },
            Repeat::Weekly => {
                let r = time_checked_add_days(from, 7).unwrap();
                proof {
                    lemma_shift_after(from@, 7);
                }
                r
            },
            Repeat::Weekends => {
                let ghost w = weekday_at(from@);
                let ghost n = days_to_wanted(true, w);
                proof {
                    lemma_shift_prefix(from@, 1, n as nat);
                }
                proof {
                    lemma_shift_weekday(from@, 1);
                }
                let mut next = time_checked_add_days(from, 1).unwrap();
                let ghost mut j: int = 1;
                let mut wd = time_weekday(next);
                while wd <= 4
                    invariant
                        1 <= j <= n,
                        n == days_to_wanted(true, w),
                        w == weekday_at(from@),
                        wd == weekday_at(next@),
                        wd == (w + j) % 7,
                        wd < 7,
                        shift_days(from@, j) == Some(next@),
                        shift_days(from@, n) is Some,
                        forall|i: int|
                            1 <= i < j ==> (#[trigger] shift_days(from@, i) matches Some(x)
                                && !wanted_day(true, x)),
                    decreases n - j,
                {
                    proof {
                        assert((w + j) % 7 == (w % 7 + j) % 7) by (nonlinear_arith);
                        assert(j < n);
                        lemma_shift_split(from@, j as nat, 1);
                        lemma_shift_prefix(from@, (j + 1) as nat, n as nat);
                    }
                    proof {
                        use_type_invariant(&next);
                        lemma_shift_weekday(next@, 1);
                    }
                    next = time_checked_add_days(next, 1).unwrap();
                    wd = time_weekday(next);
                    proof {
                        assert(shift_days(from@, j) matches Some(x) && !wanted_day(true, x));
                        assert((w + j + 1) % 7 == ((w + j) % 7 + 1) % 7) by (nonlinear_arith);
                        j = j + 1;
                    }
                }
                proof {
                    lemma_shift_after(from@, j);
                    assert(1 <= j <= 7) by {
                        assert(n <= 7);
                    }
                }
                assert(first_wanted_after(true, from@, next@)) by {
                    assert(shift_days(from@, j) == Some(next@));
                }
                next
            },
            Repeat::Weekdays => {
                let ghost w = weekday_at(from@);
                let ghost n = days_to_wanted(false, w);
                proof {
                    lemma_shift_prefix(from@, 1, n as nat);
                }
                proof {
                    lemma_shift_weekday(from@, 1);
                }
                let mut next = time_checked_add_days(from, 1).unwrap();
                let ghost mut j: int = 1;
                let mut wd = time_weekday(next);
                while wd == 5 || wd == 6
                    invariant
                        1 <= j <= n,
                        n == days_to_wanted(false, w),
                        w == weekday_at(from@),
                        wd == weekday_at(next@),
                        wd == (w + j) % 7,
                        wd < 7,
                        shift_days(from@, j) == Some(next@),
                        shift_days(from@, n) is Some,
                        forall|i: int|
                            1 <= i < j ==> (#[trigger] shift_days(from@, i) matches Some(x)
                                && !wanted_day(false, x)),
                    decreases n - j,
                {
                    proof {
                        assert((w + j) % 7 == (w % 7 + j) % 7) by (nonlinear_arith);
                        assert(j < n);
                        lemma_shift_split(from@, j as nat, 1);
                        lemma_shift_prefix(from@, (j + 1) as nat, n as nat);
                    }
                    proof {
                        use_type_invariant(&next);
                        lemma_shift_weekday(next@, 1);
                    }
                    next = time_checked_add_days(next, 1).unwrap();
                    wd = time_weekday(next);
                    proof {
                        assert(shift_days(from@, j) matches Some(x) && !wanted_day(false, x));
                        assert((w + j + 1) % 7 == ((w + j) % 7 + 1) % 7) by (nonlinear_arith);
                        j = j + 1;
                    }
                }
                proof {
                    lemma_shift_after(from@, j);
                }
                assert(first_wanted_after(false, from@, next@)) by {
                    assert(shift_days(from@, j) == Some(next@));
                }
                next
            },
            Repeat::Monthly => {
                proof {
                    lemma_month_has_day(from@);
                }
                let (y, m, d) = (from.year(), from.month(), from.day());
                let (y1, m1) = if m == 12 {
                    (y + 1, 1u8)
                } else {
                    (y, m + 1)
                };
                match time_from_calendar_date(y1, m1, d) {
                    Some(r) => r,
                    None => {
                        let (y2, m2) = if m1 == 12 {
                            (y1 + 1, 1u8)
                        } else {
                            (y1, m1 + 1)
                        };
                        match time_from_calendar_date(y2, m2, d) {
                            Some(r) => r,
                            None => from,
                        }
                    },
                }
            },
            Repeat::Yearly => {
                let mut k: i32 = 1;
                loop
                    invariant
                        1 <= k <= 8,
                        *self == Repeat::Yearly,
                        valid_date(from@),
                        forall|i: int| 1 <= i < k ==> !valid_date(#[trigger] year_later(from@, i)),
                        exists|i: int| k <= i <= 8 && valid_date(#[trigger] year_later(from@, i)),
                    decreases 8 - k,
                {
                    match time_from_calendar_date(from.year() + k, from.month(), from.day()) {
                        Some(r) => {
                            let ghost kk: int = k as int;
                            assert(r@ == year_later(from@, kk));
                            assert(valid_date(r@));
                            assert(1 <= kk <= 8);
                            assert(forall|i: int|
                                1 <= i < kk ==> !valid_date(#[trigger] year_later(from@, i)));
                            assert(next_year_same_day(from@, r@));
                            return r;
                        },
                        None => {
                            assert(!valid_date(year_later(from@, k as int)));
                            k = k + 1;
                        },
                    }
                }
            },
        }
    }

    /// Parses a repeat rule from its database string identifier, returning `None`
    /// if unrecognised.
    pub fn from_db_str(s: &str) -> (r: Option<Repeat>)
        ensures
            r == repeat_from_db(s@),
    {
        if crate::text::str_eq(s, "daily") {
            Some(Repeat::Daily)
        } else if crate::text::str_eq(s, "weekly_same_day") {
            Some(Repeat::Weekly)
        } else if crate::text::str_eq(s, "weekends_sat_sun") {
            Some(Repeat::Weekends)
        } else if crate::text::str_eq(s, "weekdays_mon_fri") {
            Some(Repeat::Weekdays)
        } else if crate::text::str_eq(s, "monthly_on_day") {
            Some(Repeat::Monthly)
        } else if crate::text::str_eq(s, "yearly_on_day") {
            Some(Repeat::Yearly)
        } else {
            None
        }
    }
}

/// Reading back the database identifier of a rule gives the rule.
pub proof fn lemma_repeat_db_round_trip(r: Repeat)
    ensures
        repeat_from_db(repeat_db_str(r)) == Some(r),
{
    reveal_strlit("daily");
    reveal_strlit("weekly_same_day");
    reveal_strlit("weekends_sat_sun");
    reveal_strlit("weekdays_mon_fri");
    reveal_strlit("monthly_on_day");
    reveal_strlit("yearly_on_day");
    assert("weekends_sat_sun"@[4] != "weekdays_mon_fri"@[4]);
    assert("weekly_same_day"@.len() != "daily"@.len());
    assert("monthly_on_day"@.len() != "daily"@.len());
    assert("monthly_on_day"@.len() != "weekly_same_day"@.len());
    assert("monthly_on_day"@.len() != "weekends_sat_sun"@.len());
    assert("monthly_on_day"@.len() != "weekdays_mon_fri"@.len());
    assert("yearly_on_day"@.len() != "daily"@.len());
    assert("yearly_on_day"@.len() != "weekly_same_day"@.len());
    assert("yearly_on_day"@.len() != "weekends_sat_sun"@.len());
    assert("yearly_on_day"@.len() != "weekdays_mon_fri"@.len());
    assert("yearly_on_day"@.len() != "monthly_on_day"@.len());
    assert("weekends_sat_sun"@.len() != "daily"@.len());
    assert("weekdays_mon_fri"@.len() != "daily"@.len());
    assert("weekends_sat_sun"@.len() != "weekly_same_day"@.len());
    assert("weekdays_mon_fri"@.len() != "weekly_same_day"@.len());
}

/// Every string that parses as a rule is that rule's identifier.
pub proof fn lemma_repeat_db_parse_exact(s: Seq<char>)
    ensures
        repeat_from_db(s) matches Some(r) ==> repeat_db_str(r) == s,
{
}

/// The next due date after a valid date, measured in days and weekdays: one day
/// later for the daily rule; seven days later on the same weekday for the
/// weekly rule; one to seven days later for the weekend and weekday rules, on
/// a Saturday or Sunday (resp. Monday to Friday) with every day in between of
/// the other kind; the same day of the month, strictly later, for the monthly
/// and yearly rules (the yearly rule also keeps the month).
pub proof fn lemma_next_date_distance(r: Repeat, from: (int, int, int), to: (int, int, int))
    requires
        valid_date(from),
        is_next_date(r, from, to),
    ensures
        ({
            let gap = days_from_epoch(to.0, to.1, to.2) - days_from_epoch(from.0, from.1, from.2);
            let w = weekday_at(to);
            &&& r == Repeat::Daily ==> gap == 1
            &&& r == Repeat::Weekly ==> gap == 7 && w == weekday_at(from)
            &&& r == Repeat::Weekends ==> 1 <= gap <= 7 && (w == 5 || w == 6)
            &&& r == Repeat::Weekdays ==> 1 <= gap <= 7 && 0 <= w <= 4
            &&& r == Repeat::Monthly ==> to.2 == from.2 && date_before(from, to)
            &&& r == Repeat::Yearly ==> to.1 == from.1 && to.2 == from.2 && date_before(from, to)
        }),
{
    match r {
        Repeat::Daily => {
            lemma_shift_count(from, 1);
        },
        Repeat::Weekly => {
            lemma_shift_count(from, 7);
            lemma_shift_weekday(from, 7);
            assert((weekday_at(from) + 7) % 7 == weekday_at(from));
        },
        Repeat::Weekends => {
            let k = choose|k: int|
                1 <= k <= 7 && shift_days(from, k) == Some(to) && wanted_day(true, to) && (forall|
                    i: int,
                | 1 <= i < k ==> (#[trigger] shift_days(from, i) matches Some(x) && !wanted_day(
                    true,
                    x,
                )));
            lemma_shift_count(from, k);
        },
        Repeat::Weekdays => {
            let k = choose|k: int|
                1 <= k <= 7 && shift_days(from, k) == Some(to) && wanted_day(false, to) && (forall|
                    i: int,
                | 1 <= i < k ==> (#[trigger] shift_days(from, i) matches Some(x) && !wanted_day(
                    false,
                    x,
                )));
            lemma_shift_count(from, k);
        },
        Repeat::Monthly => {
            if valid_date(month_later(from, 1)) {
            } else {
            }
        },
        Repeat::Yearly => {},
    }
}

} // verus!
