//! Text parsing and formatting of the terminal interface, and the data of its
//! small display components.
pub mod workspace;

use chrono::Datelike;
use vstd::prelude::*;

use crate::date::{month_length, padded4};
use crate::kinds::accent::Accent;
use crate::text::{
    ascii_lower, decimal, decimal2, lemma_decimal_digits, trim_start, eq_ignore_ascii_case, eq_ignore_case_spec, push_char, push_decimal,
    push_decimal2, rsplit_once_space, rsplit_space_spec, trim, trim_spec,
};
use crate::timer::{Phase, TimerState};

verus! {

/// The smallest year of a `chrono::NaiveDate`.
pub const CHRONO_MIN_YEAR: i32 = -262143;

/// The largest year of a `chrono::NaiveDate`.
pub const CHRONO_MAX_YEAR: i32 = 262142;

/// A (year, month, day) triple that `chrono::NaiveDate` can hold.
pub open spec fn chrono_date(v: (int, int, int)) -> bool {
    &&& CHRONO_MIN_YEAR <= v.0 <= CHRONO_MAX_YEAR
    &&& 1 <= v.1 <= 12
    &&& 1 <= v.2 <= month_length(v.0, v.1)
}

/// The following calendar day.
pub open spec fn civil_next_day(v: (int, int, int)) -> (int, int, int) {
    if v.2 < month_length(v.0, v.1) {
        (v.0, v.1, v.2 + 1)
    } else if v.1 < 12 {
        (v.0, v.1 + 1, 1)
    } else {
        (v.0 + 1, 1, 1)
    }
}

/// The year as `chrono` writes `%Y`: four digits at least, with a sign outside
/// years 0 to 9999.
pub open spec fn year_text(y: int) -> Seq<char> {
    if 0 <= y <= 9999 {
        padded4(y as nat)
    } else if y < 0 {
        seq!['-'] + padded4((-y) as nat)
    } else {
        seq!['+'] + padded4(y as nat)
    }
}

/// A date as `chrono` writes `%Y-%m-%d`.
pub open spec fn ymd_text(v: (int, int, int)) -> Seq<char> {
    year_text(v.0) + seq!['-'] + decimal2(v.1 as nat) + seq!['-'] + decimal2(v.2 as nat)
}

/// `chrono::Local::now().date_naive()`: today's local date. Nothing is stated
/// of which day it is.
#[verifier::external_body]
pub(crate) fn chrono_local_today() -> (r: (i32, u32, u32))
    ensures
        chrono_date((r.0 as int, r.1 as int, r.2 as int)),
{
    let d = chrono::Local::now().date_naive();
    (d.year(), d.month(), d.day())
}

/// `chrono::NaiveDate::format("%Y-%m-%d")`, written out with `to_string`.
#[verifier::external_body]
pub(crate) fn chrono_format_ymd(year: i32, month: u32, day: u32) -> (r: String)
    requires
        chrono_date((year as int, month as int, day as int)),
    ensures
        r@ == ymd_text((year as int, month as int, day as int)),
{
    chrono::NaiveDate::from_ymd_opt(year, month, day).unwrap().format("%Y-%m-%d").to_string()
}

/// `chrono::NaiveDate::checked_add_signed` with `TimeDelta::days(1)` (what
/// `date + Duration::days(1)` computes): the next day, `None` after the last
/// representable date.
#[verifier::external_body]
fn chrono_next_day(year: i32, month: u32, day: u32) -> (r: Option<(i32, u32, u32)>)
    requires
        chrono_date((year as int, month as int, day as int)),
    ensures
        r matches Some(n) ==> (n.0 as int, n.1 as int, n.2 as int) == civil_next_day(
            (year as int, month as int, day as int),
        ),
        r is None <==> !chrono_date(civil_next_day((year as int, month as int, day as int))),
{
    let d = chrono::NaiveDate::from_ymd_opt(year, month, day).unwrap();
    d.checked_add_signed(chrono::TimeDelta::days(1)).map(|n| (n.year(), n.month(), n.day()))
}

/// Today's local date as `YYYY-MM-DD`.
pub fn today_string() -> (r: String)
    ensures
        exists|y: int, m: int, d: int| chrono_date((y, m, d)) && r@ == ymd_text((y, m, d)),
{
    let (y, m, d) = chrono_local_today();
    chrono_format_ymd(y, m, d)
}

/// The text has the shape `YYYY-MM-DD` (ten characters, digits and two dashes).
pub open spec fn date_like(s: Seq<char>) -> bool {
    &&& s.len() == 10
    &&& forall|i: int|
        0 <= i < 10 ==> (if i == 4 || i == 7 {
            #[trigger] s[i] == '-'
        } else {
            '0' <= s[i] <= '9'
        })
}

/// Whether the text has the shape `YYYY-MM-DD` (its digits are not checked to
/// form a real date).
pub fn looks_like_date(s: &str) -> (r: bool)
    ensures
        r == date_like(s@),
{
    if s.unicode_len() != 10 {
        return false;
    }
    let mut i: usize = 0;
    while i < 10
        invariant
            s@.len() == 10,
            i <= 10,
            forall|k: int|
                0 <= k < i ==> (if k == 4 || k == 7 {
                    #[trigger] s@[k] == '-'
                } else {
                    '0' <= s@[k] <= '9'
                }),
        decreases 10 - i,
    {
        let c = s.get_char(i);
        if i == 4 || i == 7 {
            if c != '-' {
                return false;
            }
        } else if !('0' <= c && c <= '9') {
            return false;
        }
        i = i + 1;
    }
    true
}

/// The message for a due date that cannot be read.
pub open spec fn due_date_error() -> Seq<char> {
    "due date: expected YYYY-MM-DD, today, tomorrow, or empty"@
}

/// How a due date typed by the user reads, given today's date: nothing for an
/// empty text, `none` or `clear`; today or tomorrow as `YYYY-MM-DD` for
/// `today` and `tomorrow` (in any ASCII case); a text shaped `YYYY-MM-DD` as it
/// is; an error otherwise.
pub open spec fn due_date_spec(input: Seq<char>, today: (int, int, int)) -> Result<
    Option<Seq<char>>,
    Seq<char>,
> {
    let t = trim_spec(input);
    if t.len() == 0 || eq_ignore_case_spec(t, "none"@) || eq_ignore_case_spec(t, "clear"@) {
        Ok(None)
    } else if eq_ignore_case_spec(t, "today"@) {
        Ok(Some(ymd_text(today)))
    } else if eq_ignore_case_spec(t, "tomorrow"@) {
        if chrono_date(civil_next_day(today)) {
            Ok(Some(ymd_text(civil_next_day(today))))
        } else {
            Err(due_date_error())
        }
    } else if date_like(t) {
        Ok(Some(t))
    } else {
        Err(due_date_error())
    }
}

/// The views of the strings of a parsed due date.
pub open spec fn due_date_view(r: Result<Option<String>, String>) -> Result<
    Option<Seq<char>>,
    Seq<char>,
> {
    match r {
        Ok(Some(s)) => Ok(Some(s@)),
        Ok(None) => Ok(None),
        Err(e) => Err(e@),
    }
}

/// Reads a due date typed by the user, with today's date given as (year,
/// month, day).
pub fn parse_due_date_on(input: &str, today: (i32, u32, u32)) -> (r: Result<Option<String>, String>)
    requires
        chrono_date((today.0 as int, today.1 as int, today.2 as int)),
    ensures
        due_date_view(r) == due_date_spec(input@, (today.0 as int, today.1 as int, today.2 as int)),
{
    let t = trim(input);
    if t.unicode_len() == 0 {
        return Ok(None);
    }
    if eq_ignore_ascii_case(t, "none") || eq_ignore_ascii_case(t, "clear") {
        return Ok(None);
    }
    if eq_ignore_ascii_case(t, "today") {
        return Ok(Some(chrono_format_ymd(today.0, today.1, today.2)));
    }
    if eq_ignore_ascii_case(t, "tomorrow") {
        return match chrono_next_day(today.0, today.1, today.2) {
            Some((y, m, d)) => Ok(Some(chrono_format_ymd(y, m, d))),
            None => Err(String::from_str("due date: expected YYYY-MM-DD, today, tomorrow, or empty")),
        };
    }
    if looks_like_date(t) {
        return Ok(Some(String::from_str(t)));
    }
    Err(String::from_str("due date: expected YYYY-MM-DD, today, tomorrow, or empty"))
}

/// Reads a due date typed by the user (see `parse_due_date_on`), reading today's
/// date from the local clock.
pub fn parse_due_date_input(input: &str) -> (r: Result<Option<String>, String>)
    ensures
        exists|y: int, m: int, d: int|
            chrono_date((y, m, d)) && due_date_view(r) == due_date_spec(input@, (y, m, d)),
{
    let today = chrono_local_today();
    parse_due_date_on(input, today)
}

/// How a new todo typed by the user splits into a title and a due date, given
/// today's date: a last word that reads as a due date (see `due_date_spec`) is
/// taken off as the due date.
pub open spec fn todo_input_spec(input: Seq<char>, today: (int, int, int)) -> (Seq<char>, Option<Seq<char>>) {
    let trimmed = trim_spec(input);
    match rsplit_space_spec(trimmed) {
        Some((head, tail)) => if date_like(tail) {
            (trim_spec(head), Some(tail))
        } else {
            match due_date_spec(tail, today) {
                Ok(Some(d)) => (trim_spec(head), Some(d)),
                _ => (trimmed, None),
            }
        },
        None => (trimmed, None),
    }
}

/// Splits a new todo typed by the user into its title and due date, with
/// today's date given as (year, month, day).
pub fn parse_todo_input_on(input: &str, today: (i32, u32, u32)) -> (r: (String, Option<String>))
    requires
        chrono_date((today.0 as int, today.1 as int, today.2 as int)),
    ensures
        (r.0@, match r.1 {
            Some(d) => Some(d@),
            None => None,
        }) == todo_input_spec(input@, (today.0 as int, today.1 as int, today.2 as int)),
{
    let trimmed = trim(input);
    if let Some((head, tail)) = rsplit_once_space(trimmed) {
        if looks_like_date(tail) {
            return (String::from_str(trim(head)), Some(String::from_str(tail)));
        }
        if let Ok(Some(d)) = parse_due_date_on(tail, today) {
            return (String::from_str(trim(head)), Some(d));
        }
    }
    (String::from_str(trimmed), None)
}

/// Splits a new todo typed by the user into its title and due date (see
/// `parse_todo_input_on`), reading today's date from the local clock.
pub fn parse_todo_input(input: &str) -> (r: (String, Option<String>))
    ensures
        exists|y: int, m: int, d: int|
            chrono_date((y, m, d)) && (r.0@, match r.1 {
                Some(d) => Some(d@),
                None => None,
            }) == todo_input_spec(input@, (y, m, d)),
{
    let today = chrono_local_today();
    parse_todo_input_on(input, today)
}

/// Worked time as hours and minutes (`1h05m`), or minutes alone under an
/// hour (`42m`); seconds are dropped.
pub open spec fn work_text(secs: nat) -> Seq<char> {
    let mins = secs / 60;
    let h = mins / 60;
    let m = mins % 60;
    if h > 0 {
        decimal(h) + seq!['h'] + decimal2(m) + seq!['m']
    } else {
        decimal(m) + seq!['m']
    }
}

/// Formats worked time given in seconds.
pub fn format_work(secs: u64) -> (r: String)
    ensures
        r@ == work_text(secs as nat),
{
    let mins = secs / 60;
    let h = mins / 60;
    let m = mins % 60;
    let mut out = String::new();
    if h > 0 {
        push_decimal(&mut out, h);
        push_char(&mut out, 'h');
        push_decimal2(&mut out, m);
        push_char(&mut out, 'm');
    } else {
        push_decimal(&mut out, m);
        push_char(&mut out, 'm');
    }
    assert(out@ =~= work_text(secs as nat));
    out
}

/// A countdown as minutes and seconds, each with at least two digits.
pub open spec fn clock_text(secs: nat) -> Seq<char> {
    decimal2(secs / 60) + seq![':'] + decimal2(secs % 60)
}

/// The accent color of a phase of the standalone timer.
pub fn phase_color(phase: &Phase) -> (r: Accent)
    ensures
        r == (match *phase {
            Phase::Work => Accent::Red,
            Phase::Break => Accent::Green,
            Phase::LongBreak => Accent::Blue,
        }),
{
    match phase {
        Phase::Work => Accent::Red,
        Phase::Break => Accent::Green,
        Phase::LongBreak => Accent::Blue,
    }
}

/// The keyboard hints of the standalone timer.
pub struct Hints;

impl Hints {
    /// The hint line.
    pub fn text(&self) -> (r: &'static str)
        ensures
            r@ == "[space] pause/resume  [s] skip  [r] reset  [q] quit"@,
    {
        "[space] pause/resume  [s] skip  [r] reset  [q] quit"
    }
}

/// The label of the current phase.
pub struct PhaseLabel {
    /// The phase shown.
    pub phase: Phase,
}

impl PhaseLabel {
    /// The text of the label.
    pub fn text(&self) -> (r: &'static str)
        ensures
            r@ == (match self.phase {
                Phase::Work => "Work"@,
                Phase::Break => "Short Break"@,
                Phase::LongBreak => "Long Break"@,
            }),
    {
        self.phase.label()
    }

    /// The color of the label.
    pub fn color(&self) -> (r: Accent)
        ensures
            r == (match self.phase {
                Phase::Work => Accent::Red,
                Phase::Break => Accent::Green,
                Phase::LongBreak => Accent::Blue,
            }),
    {
        phase_color(&self.phase)
    }
}

/// The progress bar of the current phase.
pub struct ProgressBar {
    /// Seconds elapsed in the phase.
    pub elapsed: u64,
    /// Length of the phase in seconds.
    pub total: u64,
    /// The phase, which sets the bar's color.
    pub phase: Phase,
}

impl ProgressBar {
    /// The color of the bar.
    pub fn color(&self) -> (r: Accent)
        ensures
            r == (match self.phase {
                Phase::Work => Accent::Red,
                Phase::Break => Accent::Green,
                Phase::LongBreak => Accent::Blue,
            }),
    {
        phase_color(&self.phase)
    }
}

/// Whether the timer runs, shown as a word.
pub struct StatusIndicator {
    /// The state shown.
    pub status: TimerState,
}

impl StatusIndicator {
    /// The text of the indicator.
    pub fn text(&self) -> (r: &'static str)
        ensures
            r@ == (match self.status {
                TimerState::Running => "\u{25cf} Running"@,
                TimerState::Paused => "\u{23f8} Paused"@,
            }),
    {
        match self.status {
            TimerState::Running => "\u{25cf} Running",
            TimerState::Paused => "\u{23f8} Paused",
        }
    }
}

/// The countdown of the standalone timer.
pub struct TimerDisplay {
    /// Seconds left.
    pub remaining_secs: u64,
    /// Whether the countdown runs.
    pub status: TimerState,
}

impl TimerDisplay {
    /// The countdown as `MM:SS`.
    pub fn text(&self) -> (r: String)
        ensures
            r@ == clock_text(self.remaining_secs as nat),
    {
        let mut out = String::new();
        push_decimal2(&mut out, self.remaining_secs / 60);
        push_char(&mut out, ':');
        push_decimal2(&mut out, self.remaining_secs % 60);
        assert(out@ =~= clock_text(self.remaining_secs as nat));
        out
    }

    /// Dimmed while paused.
    pub fn color(&self) -> (r: Accent)
        ensures
            r == (if self.status == TimerState::Paused {
                Accent::DarkGray
            } else {
                Accent::White
            }),
    {
        if self.status == TimerState::Paused {
            Accent::DarkGray
        } else {
            Accent::White
        }
    }
}

/// The header of the tabbed interface.
pub struct Tui {
    /// Index of the selected tab (0 for todos, 1 for the timer).
    pub selected_tab: usize,
}

/// A text shaped `YYYY-MM-DD` has no whitespace to trim.
pub proof fn lemma_date_like_trimmed(s: Seq<char>)
    requires
        date_like(s),
    ensures
        trim_spec(s) == s,
{
    assert('0' <= s[0] <= '9');
    assert('0' <= s[9] <= '9');
    assert(trim_start(s) == s);
    assert(s.last() == s[9]);
}

/// A due date shaped `YYYY-MM-DD` reads back as itself, whatever today's date.
pub proof fn lemma_date_text_reads_back(s: Seq<char>, today: (int, int, int))
    requires
        date_like(s),
    ensures
        due_date_spec(s, today) == Ok::<Option<Seq<char>>, Seq<char>>(Some(s)),
{
    lemma_date_like_trimmed(s);
    reveal_strlit("none");
    reveal_strlit("clear");
    reveal_strlit("today");
    reveal_strlit("tomorrow");
}

/// `chrono` writes a date of years 0 to 9999 in the shape `YYYY-MM-DD`.
pub proof fn lemma_ymd_text_date_like(v: (int, int, int))
    requires
        0 <= v.0 <= 9999,
        1 <= v.1 <= 12,
        1 <= v.2 <= 31,
    ensures
        date_like(ymd_text(v)),
{
    let y = v.0 as nat;
    lemma_decimal_digits(y);
    lemma_decimal_digits(v.1 as nat);
    lemma_decimal_digits(v.2 as nat);
    let p = padded4(y);
    let d = decimal(y);
    assert(p.len() == 4);
    assert forall|i: int| 0 <= i < 4 implies '0' <= #[trigger] p[i] <= '9' by {
        if d.len() < 4 {
            let z = (4 - d.len()) as int;
            if i >= z {
                assert(p[i] == d[i - z]);
            }
        }
    }
    let m = decimal2(v.1 as nat);
    let dd = decimal2(v.2 as nat);
    assert(m.len() == 2 && '0' <= m[0] <= '9' && '0' <= m[1] <= '9');
    assert(dd.len() == 2 && '0' <= dd[0] <= '9' && '0' <= dd[1] <= '9');
    let t = ymd_text(v);
    assert(t =~= p + seq!['-'] + m + seq!['-'] + dd);
    assert forall|i: int| 0 <= i < 10 implies (if i == 4 || i == 7 {
        #[trigger] t[i] == '-'
    } else {
        '0' <= t[i] <= '9'
    }) by {
        if i < 4 {
            assert(t[i] == p[i]);
        } else if 4 < i < 7 {
            assert(t[i] == m[i - 5]);
        } else if i > 7 {
            assert(t[i] == dd[i - 8]);
        }
    }
}

/// A word of letters has no whitespace to trim.
proof fn lemma_word_trimmed(s: Seq<char>, w: Seq<char>)
    requires
        eq_ignore_case_spec(s, w),
        w.len() > 0,
        forall|i: int| 0 <= i < w.len() ==> 'a' <= #[trigger] w[i] <= 'z',
    ensures
        trim_spec(s) == s,
{
    assert(ascii_lower(s[0]) == w[0]);
    assert(ascii_lower(s[s.len() - 1]) == w[w.len() - 1]);
    assert(trim_start(s) == s);
    assert(s.last() == s[s.len() - 1]);
}

/// The last word of a typed todo becomes its due date, and leaves the title,
/// exactly when it reads as a due date (a `YYYY-MM-DD` date, or `today` or
/// `tomorrow` in any case); otherwise the whole trimmed text is the title.
/// In particular a last word `today` gives today's date.
pub proof fn lemma_todo_last_word(input: Seq<char>, today: (int, int, int))
    ensures
        match rsplit_space_spec(trim_spec(input)) {
            Some((head, tail)) => match due_date_spec(tail, today) {
                Ok(Some(d)) => todo_input_spec(input, today) == (trim_spec(head), Some(d)),
                _ => todo_input_spec(input, today) == (trim_spec(input), None::<Seq<char>>),
            },
            None => todo_input_spec(input, today) == (trim_spec(input), None::<Seq<char>>),
        },
        match rsplit_space_spec(trim_spec(input)) {
            Some((head, tail)) => eq_ignore_case_spec(tail, "today"@) ==> todo_input_spec(
                input,
                today,
            ) == (trim_spec(head), Some(ymd_text(today))),
            None => true,
        },
{
    match rsplit_space_spec(trim_spec(input)) {
        Some((head, tail)) => {
            if date_like(tail) {
                lemma_date_text_reads_back(tail, today);
            }
            if eq_ignore_case_spec(tail, "today"@) {
                reveal_strlit("today");
                reveal_strlit("none");
                reveal_strlit("clear");
                lemma_word_trimmed(tail, "today"@);
            }
        },
        None => {},
    }
}

} // verus!
