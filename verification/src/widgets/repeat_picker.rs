//! The list from which a repeat rule is picked.
use vstd::prelude::*;

use crate::kinds::key::{Key, KeyCode};
use crate::kinds::repeat::{repeat_at, repeat_index, Repeat};

verus! {

/// What a key press in the picker asks for.
#[derive(Clone, Copy, Debug, PartialEq, Eq, Structural)]
pub enum RepeatAction {
    /// A choice was made: no repeat, or a rule.
    Confirm(Option<Repeat>),
    /// The picker is closed without a choice.
    Cancel,
    /// Nothing to do.
    NoAction,
}

/// The cursor after a key press: `j`/Down and `k`/Up move it one row, staying
/// on the seven rows; other keys keep it.
pub open spec fn cursor_after(cursor: int, code: KeyCode) -> int {
    match code {
        KeyCode::Char('j') | KeyCode::Down => if cursor < 6 {
            cursor + 1
        } else {
            6
        },
        KeyCode::Char('k') | KeyCode::Up => if cursor > 0 {
            cursor - 1
        } else {
            0
        },
        _ => cursor,
    }
}

/// The rule that the cursor row stands for: row 0 is "no repeat", rows 1 to 6
/// the rules in display order.
pub open spec fn row_choice(cursor: int) -> Option<Repeat> {
    if cursor == 0 {
        None
    } else {
        Some(repeat_at(cursor - 1))
    }
}

/// The picker's cursor row.
#[derive(Clone, Copy, Debug)]
pub struct RepeatPicker {
    cursor: usize,
}

impl RepeatPicker {
    /// The cursor is on one of the seven rows.
    #[verifier::type_invariant]
    spec fn inv(&self) -> bool {
        self.cursor <= 6
    }

    /// The cursor row.
    pub closed spec fn cursor_spec(&self) -> int {
        self.cursor as int
    }

    /// Opens the picker with the cursor on the current choice.
    pub fn new(selected: Option<Repeat>) -> (p: Self)
        ensures
            p.cursor_spec() == match selected {
                Some(r) => repeat_index(r) + 1,
                None => 0,
            },
            row_choice(p.cursor_spec()) == selected,
    {
        let cursor: usize = match selected {
            Some(r) => match r {
                Repeat::Daily => 1,
                Repeat::Weekly => 2,
                Repeat::Weekends => 3,
                Repeat::Weekdays => 4,
                Repeat::Monthly => 5,
                Repeat::Yearly => 6,
            },
            None => 0,
        };
        Self { cursor }
    }

    /// Rows of the picker: every rule, the "None" row and the hint line.
    pub fn height() -> (r: u16)
        ensures
            r == 8,
    {
        6 + 1 + 1
    }

    /// The cursor row.
    pub fn cursor(&self) -> (r: usize)
        ensures
            r == self.cursor_spec(),
            r <= 6,
    {
        proof {
            use_type_invariant(self);
        }
        self.cursor
    }

    /// Handles a key press: `j`/Down and `k`/Up move the cursor (staying on
    /// the rows), Enter confirms the row's choice, Esc cancels.
    pub fn handle(&mut self, key: Key) -> (r: RepeatAction)
        ensures
            match key.code {
                KeyCode::Char('j') | KeyCode::Down => {
                    &&& final(self).cursor_spec() == if old(self).cursor_spec() < 6 {
                        old(self).cursor_spec() + 1
                    } else {
                        6
                    }
                    &&& r == RepeatAction::NoAction
                },
                KeyCode::Char('k') | KeyCode::Up => {
                    &&& final(self).cursor_spec() == if old(self).cursor_spec() > 0 {
                        old(self).cursor_spec() - 1
                    } else {
                        0
                    }
                    &&& r == RepeatAction::NoAction
                },
                KeyCode::Enter => {
                    &&& final(self).cursor_spec() == old(self).cursor_spec()
                    &&& r == RepeatAction::Confirm(row_choice(old(self).cursor_spec()))
                },
                KeyCode::Esc => final(self).cursor_spec() == old(self).cursor_spec() && r
                    == RepeatAction::Cancel,
                _ => final(self).cursor_spec() == old(self).cursor_spec() && r == RepeatAction::NoAction,
            },
    {
        proof {
            use_type_invariant(&*self);
        }
        let max: usize = 6;
        match key.code {
            KeyCode::Char('j') | KeyCode::Down => {
                self.cursor = if self.cursor + 1 < max {
                    self.cursor + 1
                } else {
                    max
                };
            },
            KeyCode::Char('k') | KeyCode::Up => {
                self.cursor = if self.cursor > 0 {
                    self.cursor - 1
                } else {
                    0
                };
            },
            KeyCode::Enter => {
                let repeat = if self.cursor == 0 {
                    None
                } else {
                    let all = Repeat::all();
                    Some(all[self.cursor - 1])
                };
                return RepeatAction::Confirm(repeat);
            },
            KeyCode::Esc => return RepeatAction::Cancel,
            _ => {},
        }
        RepeatAction::NoAction
    }
}

} // verus!
