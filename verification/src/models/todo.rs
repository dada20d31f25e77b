//! Todo items with optional due dates and repeat rules.
use vstd::prelude::*;

use crate::date::{now, Stamp, StampView};
use crate::kinds::repeat::{is_next_date, next_date_in_range, Repeat};

verus! {

/// Row of the `todos` table.
#[derive(Clone, Debug)]
pub struct Model {
    /// Primary key.
    pub id: i32,
    /// The todo's text.
    pub text: String,
    /// When the todo was completed, if it was.
    pub done_at: Option<String>,
    /// The due date, if any.
    pub due_date: Option<String>,
    /// Repeat rule identifier, if any.
    pub repeat: Option<String>,
    /// Id of the todo this one repeats, if any.
    pub parent_id: Option<i32>,
    /// Creation time.
    pub created_at: String,
    /// Last update time.
    pub updated_at: String,
}

/// A single todo item with optional scheduling and repeat configuration.
#[derive(Clone, Debug)]
pub struct Todo {
    /// Database primary key; `None` until the todo is persisted.
    pub id: Option<i32>,
    /// The todo's display text.
    pub text: String,
    /// Local datetime when the todo was completed, or `None` if not yet done.
    pub done_at: Option<Stamp>,
    /// Optional datetime the todo is due.
    pub due_date: Option<Stamp>,
    /// Optional repeat schedule applied when the todo is completed.
    pub repeat: Option<Repeat>,
    /// Id of the todo this was spawned from, if it is a repeated occurrence.
    pub parent_id: Option<i32>,
    /// Local datetime when the todo was created.
    pub created_at: Stamp,
    /// Local datetime when the todo was last updated.
    pub updated_at: Stamp,
}

/// The occurrence that follows a repeating todo with a due date: same text and
/// time of day, due on the rule's next date, pointing back to `t` as parent.
pub open spec fn is_next_occurrence(t: Todo, n: Todo) -> bool {
    &&& t.repeat is Some
    &&& t.due_date is Some
    &&& n.id is None
    &&& n.text@ == t.text@
    &&& n.done_at is None
    &&& n.repeat == t.repeat
    &&& n.parent_id == t.id
    &&& n.due_date matches Some(d) && is_next_date(t.repeat->0, t.due_date->0@.date, d@.date)
        && d@ == (StampView { date: d@.date, ..t.due_date->0@ })
    &&& n.created_at@ == n.updated_at@
}

impl Todo {
    /// Creates an unsaved todo, created and updated at `at`.
    pub fn new_at(
        text: String,
        due_date: Option<Stamp>,
        repeat: Option<Repeat>,
        parent_id: Option<i32>,
        at: Stamp,
    ) -> (t: Self)
        ensures
            t.id is None,
            t.text == text,
            t.done_at is None,
            t.due_date == due_date,
            t.repeat == repeat,
            t.parent_id == parent_id,
            t.created_at@ == at@,
            t.updated_at@ == at@,
    {
        Self { id: None, text, done_at: None, due_date, repeat, parent_id, created_at: at, updated_at: at }
    }

    /// Creates an unsaved todo, created and updated now.
    pub fn new(text: String, due_date: Option<Stamp>, repeat: Option<Repeat>, parent_id: Option<i32>) -> (t: Self)
        ensures
            t.id is None,
            t.text == text,
            t.done_at is None,
            t.due_date == due_date,
            t.repeat == repeat,
            t.parent_id == parent_id,
            t.created_at@ == t.updated_at@,
    {
        Self::new_at(text, due_date, repeat, parent_id, now())
    }

    /// The next occurrence of a repeating todo with a due date (not saved, and
    /// not yet checked against existing occurrences), or `None` when the todo
    /// does not repeat or has no due date.
    pub fn next_occurrence(&self) -> (r: Option<Todo>)
        requires
            self.repeat is Some && self.due_date is Some ==> next_date_in_range(
                self.repeat->0,
                self.due_date->0@.date,
            ),
        ensures
            r is Some <==> (self.repeat is Some && self.due_date is Some),
            r matches Some(n) ==> is_next_occurrence(*self, n),
    {
        match (self.repeat, self.due_date) {
            (Some(repeat), Some(due_date)) => {
                let next_date = repeat.next_date(due_date.date());
                let next_dt = due_date.replace_date(next_date);
                Some(Todo::new(self.text.clone(), Some(next_dt), Some(Repeat::of(&repeat)), self.id))
            },
            _ => None,
        }
    }

    /// Toggles the done state at time `now`: a done todo becomes open; an open
    /// one becomes done at `now` and, without a due date, due at `now`. Returns
    /// the previous completion time, to restore it if saving fails.
    pub fn toggle_done(&mut self, now: Stamp) -> (prev: Option<Stamp>)
        ensures
            prev == old(self).done_at,
            old(self).done_at is Some ==> final(self).done_at is None && final(self).due_date
                == old(self).due_date,
            old(self).done_at is None ==> final(self).done_at == Some(now) && final(self).due_date
                == if old(self).due_date is None {
                Some(now)
            } else {
                old(self).due_date
            },
            final(self).id == old(self).id,
            final(self).text == old(self).text,
            final(self).repeat == old(self).repeat,
            final(self).parent_id == old(self).parent_id,
            final(self).created_at == old(self).created_at,
            final(self).updated_at == old(self).updated_at,
    {
        let prev_done_at = self.done_at;
        if self.done_at.is_some() {
            self.done_at = None;
        } else {
            self.done_at = Some(now);
            if self.due_date.is_none() {
                self.due_date = Some(now);
            }
        }
        prev_done_at
    }
    /// Completes a toggle once saving it was tried: when the save failed, the
    /// previous completion time `prev_done_at` is restored and nothing follows;
    /// when it succeeded and the todo is now done, returns the next occurrence
    /// of a repeating todo with a due date (the caller saves it unless the
    /// database already holds an occurrence with that parent and date).
    pub fn finish_toggle(&mut self, prev_done_at: Option<Stamp>, saved: bool) -> (r: Option<Todo>)
        requires
            saved && old(self).done_at is Some && old(self).repeat is Some && old(self).due_date is Some
                ==> next_date_in_range(old(self).repeat->0, old(self).due_date->0@.date),
        ensures
            !saved ==> {
                &&& final(self).done_at == prev_done_at
                &&& final(self).id == old(self).id
                &&& final(self).text == old(self).text
                &&& final(self).due_date == old(self).due_date
                &&& final(self).repeat == old(self).repeat
                &&& final(self).parent_id == old(self).parent_id
                &&& final(self).created_at == old(self).created_at
                &&& final(self).updated_at == old(self).updated_at
                &&& r is None
            },
            saved ==> *final(self) == *old(self),
            saved && old(self).done_at is None ==> r is None,
            saved && old(self).done_at is Some ==> (r is Some <==> (old(self).repeat is Some
                && old(self).due_date is Some)),
            r matches Some(n) ==> is_next_occurrence(*old(self), n),
    {
        if !saved {
            self.done_at = prev_done_at;
            return None;
        }
        if self.done_at.is_none() {
            return None;
        }
        self.next_occurrence()
    }
}

} // verus!
