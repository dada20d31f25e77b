//! The due date picker: a month calendar moved by key presses, with an
//! optional repeat rule.
use vstd::prelude::*;

use crate::date::{
    month_length, next_day_of, prev_day_of, shift_days, time_checked_add_days,
    time_from_calendar_date, time_next_day, time_previous_day, today, valid_date, CalDate,
};
use crate::kinds::key::{Key, KeyCode};
use crate::kinds::repeat::Repeat;
use crate::widgets::repeat_picker::{cursor_after, row_choice, RepeatAction, RepeatPicker};

verus! {

/// What a key press in the calendar asks for.
#[derive(Clone, Copy, Debug, PartialEq, Eq, Structural)]
pub enum CalendarAction {
    /// The selected date (and repeat rule) is chosen.
    Confirm,
    /// The calendar is closed without a choice.
    Cancel,
    /// Nothing to do.
    NoAction,
}

/// Days in a month as the calendar counts them: the day before the first of the
/// next month, or 28 when that first day is out of range.
pub open spec fn calendar_month_days(year: int, month: int) -> int {
    let (ny, nm) = if month == 12 {
        (year + 1, 1int)
    } else {
        (year, month + 1)
    };
    if valid_date((ny, nm, 1)) && prev_day_of((ny, nm, 1)) is Some {
        month_length(year, month)
    } else {
        28
    }
}

/// The same day `delta` months later (earlier when negative), moved back to
/// the last day of a shorter month; the date itself when the result is out of
/// range.
pub open spec fn shift_month_spec(v: (int, int, int), delta: int) -> (int, int, int) {
    let total = v.1 - 1 + delta;
    let y = v.0 + total / 12;
    let m = total % 12 + 1;
    let d = if v.2 < calendar_month_days(y, m) {
        v.2
    } else {
        calendar_month_days(y, m)
    };
    if valid_date((y, m, d)) {
        (y, m, d)
    } else {
        v
    }
}

/// Days in `month` of `year`, counted from the first of the next month.
pub fn days_in_month(year: i32, month: u8) -> (r: u8)
    requires
        1 <= month <= 12,
        month == 12 ==> year < i32::MAX,
    ensures
        r == calendar_month_days(year as int, month as int),
{
    let (ny, nm): (i32, u8) = if month == 12 {
        (year + 1, 1)
    } else {
        (year, month + 1)
    };
    if let Some(first) = time_from_calendar_date(ny, nm, 1) {
        if let Some(last) = time_previous_day(first) {
            return last.day();
        }
    }
    28
}

/// Moves a date by `delta` months, keeping the day where the month has it.
pub fn shift_month(date: CalDate, delta: i32) -> (r: CalDate)
    requires
        delta <= i32::MAX - 12,
        delta >= i32::MIN + 12,
    ensures
        r@ == shift_month_spec(date@, delta as int),
{
    let month = date.month();
    let year = date.year();
    let total: i32 = month as i32 - 1 + delta;
    let (q, rem): (i32, i32) = if total >= 0 {
        ((total as u32 / 12) as i32, (total as u32 % 12) as i32)
    } else {
        let p = (-(total + 1)) as u32;
        (-((p / 12) as i32) - 1, 11 - (p % 12) as i32)
    };
    assert(q == total as int / 12 && rem == total as int % 12);
    let new_year = year + q;
    let new_month = (rem + 1) as u8;
    let dim = days_in_month(new_year, new_month);
    let day = date.day();
    let new_day = if day < dim {
        day
    } else {
        dim
    };
    match time_from_calendar_date(new_year, new_month, new_day) {
        Some(d) => d,
        None => date,
    }
}

/// The due date picker.
#[derive(Clone, Copy, Debug)]
pub struct CalendarPopup {
    selected_date: CalDate,
    selected_repeat: Option<Repeat>,
    view_date: CalDate,
    repeat_picker: Option<RepeatPicker>,
}

/// The date a navigation key moves to from `sel`, given today's date, or
/// `None` for keys that do not navigate or lead out of range.
pub open spec fn calendar_target(code: KeyCode, sel: (int, int, int), today: (int, int, int)) -> Option<
    (int, int, int),
> {
    match code {
        KeyCode::Char('h') | KeyCode::Left => prev_day_of(sel),
        KeyCode::Char('l') | KeyCode::Right => next_day_of(sel),
        KeyCode::Char('k') | KeyCode::Up => shift_days(sel, -7),
        KeyCode::Char('j') | KeyCode::Down => shift_days(sel, 7),
        KeyCode::Char('H') => Some(shift_month_spec(sel, -1)),
        KeyCode::Char('L') => Some(shift_month_spec(sel, 1)),
        KeyCode::Char('t') => Some(today),
        KeyCode::Char('y') => prev_day_of(today),
        KeyCode::Char('n') => next_day_of(today),
        _ => None,
    }
}

/// The calendar `p1` and the answer `r` after a key press on calendar `p0`,
/// given today's date: while the repeat picker is open the key goes only to
/// it (Enter confirms its choice, Esc closes it); otherwise the navigation
/// keys move the highlighted date (see `calendar_target`), `r` opens the
/// picker on the current rule, Enter confirms and Esc cancels.
pub open spec fn calendar_step(
    p0: CalendarPopup,
    p1: CalendarPopup,
    key: Key,
    today: (int, int, int),
    r: CalendarAction,
) -> bool {
    &&& p1.selected_spec() == p1.view_date_spec()
    &&& p0.picker_open() ==> {
        &&& p1.selected_spec() == p0.selected_spec()
        &&& r == if key.code == KeyCode::Enter {
            CalendarAction::Confirm
        } else {
            CalendarAction::NoAction
        }
        &&& key.code == KeyCode::Enter ==> !p1.picker_open() && p1.repeat_spec() == row_choice(
            p0.picker_spec().cursor_spec(),
        )
        &&& key.code == KeyCode::Esc ==> !p1.picker_open() && p1.repeat_spec() == p0.repeat_spec()
        &&& key.code != KeyCode::Enter && key.code != KeyCode::Esc ==> {
            &&& p1.picker_open()
            &&& p1.repeat_spec() == p0.repeat_spec()
            &&& p1.picker_spec().cursor_spec() == cursor_after(p0.picker_spec().cursor_spec(), key.code)
        }
    }
    &&& !p0.picker_open() ==> {
        &&& p1.repeat_spec() == p0.repeat_spec()
        &&& p1.selected_spec() == match calendar_target(key.code, p0.selected_spec(), today) {
            Some(d) => d,
            None => p0.selected_spec(),
        }
        &&& r == match key.code {
            KeyCode::Enter => CalendarAction::Confirm,
            KeyCode::Esc => CalendarAction::Cancel,
            _ => CalendarAction::NoAction,
        }
        &&& p1.picker_open() == (key.code == KeyCode::Char('r'))
        &&& key.code == KeyCode::Char('r') ==> row_choice(p1.picker_spec().cursor_spec())
            == p0.repeat_spec()
    }
}

impl CalendarPopup {
    /// The month shown is the month of the highlighted date.
    #[verifier::type_invariant]
    spec fn inv(&self) -> bool {
        self.selected_date@ == self.view_date@
    }

    /// The highlighted date.
    pub closed spec fn selected_spec(&self) -> (int, int, int) {
        self.selected_date@
    }

    /// The chosen repeat rule.
    pub closed spec fn repeat_spec(&self) -> Option<Repeat> {
        self.selected_repeat
    }

    /// The highlighted date.
    pub fn selected_date(&self) -> (r: CalDate)
        ensures
            r@ == self.selected_spec(),
    {
        self.selected_date
    }

    /// The chosen repeat rule.
    pub fn selected_repeat(&self) -> (r: Option<Repeat>)
        ensures
            r == self.repeat_spec(),
    {
        self.selected_repeat
    }

    /// The month shown.
    pub closed spec fn view_date_spec(&self) -> (int, int, int) {
        self.view_date@
    }

    /// The month shown, as a date in it.
    pub fn view_date(&self) -> (r: CalDate)
        ensures
            r@ == self.view_date_spec(),
    {
        self.view_date
    }

    /// The repeat picker, when it is open over the calendar.
    pub fn repeat_picker(&self) -> (r: Option<RepeatPicker>)
        ensures
            r is Some <==> self.picker_open(),
            r matches Some(p) ==> p == self.picker_spec(),
    {
        self.repeat_picker
    }

    /// Whether the repeat picker is open over the calendar.
    pub closed spec fn picker_open(&self) -> bool {
        self.repeat_picker is Some
    }

    /// The open repeat picker.
    pub closed spec fn picker_spec(&self) -> RepeatPicker {
        self.repeat_picker->0
    }

    /// Opens the calendar on `date`, or on `today` when there is none.
    pub fn new_on(date: Option<CalDate>, repeat: Option<Repeat>, today: CalDate) -> (p: Self)
        ensures
            p.selected_spec() == match date {
                Some(d) => d@,
                None => today@,
            },
            p.view_date_spec() == p.selected_spec(),
            p.repeat_spec() == repeat,
            !p.picker_open(),
    {
        let d = match date {
            Some(d) => d,
            None => today,
        };
        Self { selected_date: d, selected_repeat: repeat, view_date: d, repeat_picker: None }
    }

    /// Opens the calendar on `date`, or on today's local date when there is none.
    pub fn new(date: Option<CalDate>, repeat: Option<Repeat>) -> (p: Self)
        ensures
            date matches Some(d) ==> p.selected_spec() == d@,
            p.view_date_spec() == p.selected_spec(),
            p.repeat_spec() == repeat,
            !p.picker_open(),
    {
        Self::new_on(date, repeat, today())
    }

    fn navigate(&mut self, date: CalDate)
        ensures
            final(self).selected_spec() == date@,
            final(self).view_date_spec() == date@,
            final(self).repeat_spec() == old(self).repeat_spec(),
            final(self).repeat_picker == old(self).repeat_picker,
    {
        *self = CalendarPopup {
            selected_date: date,
            selected_repeat: self.selected_repeat,
            view_date: date,
            repeat_picker: self.repeat_picker,
        };
    }

    /// Handles a key press, with today's date given. While the repeat picker is
    /// open, keys go to it and its choice sets the repeat rule and confirms.
    /// Otherwise `h`/`l` (or Left/Right) move by a day, `k`/`j` (or Up/Down) by a
    /// week, `H`/`L` by a month, `t`, `y`, `n` go to today, yesterday and
    /// tomorrow, `r` opens the repeat picker, Enter confirms and Esc cancels.
    pub fn handle_on(&mut self, key: Key, today: CalDate) -> (r: CalendarAction)
        ensures
            calendar_step(*old(self), *final(self), key, today@, r),
    {
        proof {
            use_type_invariant(&*self);
        }
        if let Some(mut repeat_picker) = self.repeat_picker {
            match repeat_picker.handle(key) {
                RepeatAction::Confirm(repeat) => {
                    self.repeat_picker = None;
                    self.selected_repeat = repeat;
                    return CalendarAction::Confirm;
                },
                RepeatAction::Cancel => {
                    self.repeat_picker = None;
                },
                RepeatAction::NoAction => {
                    self.repeat_picker = Some(repeat_picker);
                },
            }
            return CalendarAction::NoAction;
        }
        match key.code {
            KeyCode::Char('h') | KeyCode::Left => {
                if let Some(d) = time_previous_day(self.selected_date) {
                    self.navigate(d);
                }
            },
            KeyCode::Char('l') | KeyCode::Right => {
                if let Some(d) = time_next_day(self.selected_date) {
                    self.navigate(d);
                }
            },
            KeyCode::Char('k') | KeyCode::Up => {
                if let Some(d) = time_checked_add_days(self.selected_date, -7) {
                    self.navigate(d);
                }
            },
            KeyCode::Char('j') | KeyCode::Down => {
                if let Some(d) = time_checked_add_days(self.selected_date, 7) {
                    self.navigate(d);
                }
            },
            KeyCode::Char('H') => {
                let d = shift_month(self.selected_date, -1);
                self.navigate(d);
            },
            KeyCode::Char('L') => {
                let d = shift_month(self.selected_date, 1);
                self.navigate(d);
            },
            KeyCode::Char('t') => {
                self.navigate(today);
            },
            KeyCode::Char('y') => {
                if let Some(d) = time_previous_day(today) {
                    self.navigate(d);
                }
            },
            KeyCode::Char('n') => {
                if let Some(d) = time_next_day(today) {
                    self.navigate(d);
                }
            },
            KeyCode::Char('r') => {
                self.repeat_picker = Some(RepeatPicker::new(self.selected_repeat));
            },
            KeyCode::Enter => {
                return CalendarAction::Confirm;
            },
            KeyCode::Esc => {
                return CalendarAction::Cancel;
            },
            _ => {},
        }
        CalendarAction::NoAction
    }

    /// Handles a key press (see `handle_on`), reading today's local date.
    pub fn handle(&mut self, key: Key) -> (r: CalendarAction)
        ensures
            exists|t: (int, int, int)|
                valid_date(t) && #[trigger] calendar_step(*old(self), *final(self), key, t, r),
    {
        let t = today();
        proof {
            use_type_invariant(&t);
        }
        let r = self.handle_on(key, t);
        assert(calendar_step(*old(self), *self, key, t@, r));
        r
    }
}

/// A rectangle of terminal cells.
#[derive(Clone, Copy, Debug, PartialEq, Eq, Structural)]
pub struct Rect {
    /// Leftmost column.
    pub x: u16,
    /// Top row.
    pub y: u16,
    /// Columns.
    pub width: u16,
    /// Rows.
    pub height: u16,
}

/// A rectangle of at most `width` by `height` cells centered in `area`.
pub fn centered_rect(area: Rect, width: u16, height: u16) -> (r: Rect)
    requires
        area.x + (if area.width >= width { area.width - width } else { 0 }) / 2 <= u16::MAX,
        area.y + (if area.height >= height { area.height - height } else { 0 }) / 2 <= u16::MAX,
    ensures
        r.x == area.x + (if area.width >= width { area.width - width } else { 0 }) / 2,
        r.y == area.y + (if area.height >= height { area.height - height } else { 0 }) / 2,
        r.width == if width < area.width { width } else { area.width },
        r.height == if height < area.height { height } else { area.height },
{
    let free_w: u16 = if area.width >= width { area.width - width } else { 0 };
    let free_h: u16 = if area.height >= height { area.height - height } else { 0 };
    Rect {
        x: area.x + free_w / 2,
        y: area.y + free_h / 2,
        width: if width < area.width { width } else { area.width },
        height: if height < area.height { height } else { area.height },
    }
}

/// Rows of the calendar: the month grid, two hint lines and the border, plus
/// the repeat picker's rows and a separator when it is open.
pub fn popup_height(picker_open: bool) -> (r: u16)
    ensures
        r == if picker_open { 8 + 1 + 1 + 1 + 8 + 2 } else { 8 + 1 + 1 + 2 },
{
    if picker_open {
        8 + 1 + 1 + 1 + RepeatPicker::height() + 2
    } else {
        8 + 1 + 1 + 2
    }
}

} // verus!
