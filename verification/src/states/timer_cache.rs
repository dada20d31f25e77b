//! Cached data of the timer tab: today's todos and the statistics of the
//! selected todo.
use vstd::prelude::*;

use crate::models::todo::Todo;

verus! {

/// The first todo of a list with the given id, if any.
pub open spec fn find_todo(todos: Seq<Todo>, id: i32) -> Option<Todo>
    decreases todos.len(),
{
    if todos.len() == 0 {
        None
    } else if todos[0].id == Some(id) {
        Some(todos[0])
    } else {
        find_todo(todos.drop_first(), id)
    }
}

/// Cache of today's todos and of session statistics (sessions completed and
/// seconds worked), tagged with the session counter they were read at.
pub struct TimerCache {
    todos: Option<Vec<Todo>>,
    stats: (u32, Option<(u32, u32)>),
}

impl TimerCache {
    /// The cached todos, if loaded.
    pub closed spec fn todos_spec(&self) -> Option<Seq<Todo>> {
        match self.todos {
            Some(v) => Some(v@),
            None => None,
        }
    }

    /// The session counter at which the statistics were read.
    pub closed spec fn stats_counter(&self) -> u32 {
        self.stats.0
    }

    /// The cached statistics, if loaded.
    pub closed spec fn stats_spec(&self) -> Option<(u32, u32)> {
        self.stats.1
    }

    /// An empty cache.
    pub fn new() -> (c: Self)
        ensures
            c.todos_spec() is None,
            c.stats_spec() is None,
            c.stats_counter() == u32::MAX,
    {
        Self { todos: None, stats: (u32::MAX, None) }
    }

    /// The cached todo list, or `None` when it must be read again.
    pub fn cached_todos(&self) -> (r: Option<&Vec<Todo>>)
        ensures
            match r {
                Some(v) => self.todos_spec() == Some(v@),
                None => self.todos_spec() is None,
            },
    {
        match &self.todos {
            Some(v) => Some(v),
            None => None,
        }
    }

    /// Stores a freshly read todo list.
    pub fn set_todos(&mut self, todos: Vec<Todo>)
        ensures
            final(self).todos_spec() == Some(todos@),
            final(self).stats_spec() == old(self).stats_spec(),
            final(self).stats_counter() == old(self).stats_counter(),
    {
        self.todos = Some(todos);
    }

    /// Drops the cached todo list so that it is read again.
    pub fn invalidate_todos(&mut self)
        ensures
            final(self).todos_spec() is None,
            final(self).stats_spec() == old(self).stats_spec(),
            final(self).stats_counter() == old(self).stats_counter(),
    {
        self.todos = None;
    }

    /// Drops the cached session statistics so that they are read again.
    pub fn invalidate_stats(&mut self)
        ensures
            final(self).stats_spec() is None,
            final(self).stats_counter() == u32::MAX,
            final(self).todos_spec() == old(self).todos_spec(),
    {
        self.stats = (u32::MAX, None);
    }

    /// Whether the statistics must be read again for the session counter
    /// `sessions`: they are missing or were read at another counter.
    pub fn stats_stale(&self, sessions: u32) -> (r: bool)
        ensures
            r == (self.stats_spec() is None || self.stats_counter() != sessions),
    {
        self.stats.1.is_none() || self.stats.0 != sessions
    }

    /// Stores statistics read at session counter `sessions`.
    pub fn set_stats(&mut self, sessions: u32, stats: (u32, u32))
        ensures
            final(self).stats_spec() == Some(stats),
            final(self).stats_counter() == sessions,
            final(self).todos_spec() == old(self).todos_spec(),
    {
        self.stats = (sessions, Some(stats));
    }

    /// The cached todo with the given id, if the list is loaded and holds it.
    pub fn get_todo(&self, id: i32) -> (r: Option<&Todo>)
        ensures
            match self.todos_spec() {
                Some(v) => match r {
                    Some(t) => find_todo(v, id) == Some(*t),
                    None => find_todo(v, id) is None,
                },
                None => r is None,
            },
    {
        match &self.todos {
            Some(v) => {
                let mut i: usize = 0;
                assert(v@.skip(0) =~= v@);
                while i < v.len()
                    invariant
                        i <= v.len(),
                        find_todo(v@, id) == find_todo(v@.skip(i as int), id),
                        self.todos_spec() == Some(v@),
                    decreases v.len() - i,
                {
                    if let Some(x) = v[i].id {
                        if x == id {
                            assert(v@.skip(i as int)[0] == v@[i as int]);
                            assert(v@[i as int].id == Some(id));
                            assert(find_todo(v@.skip(i as int), id) == Some(v@[i as int]));
                            return Some(&v[i]);
                        }
                    }
                    assert(v@.skip(i as int).drop_first() =~= v@.skip(i + 1));
                    i = i + 1;
                }
                assert(v@.skip(i as int).len() == 0);
                None
            },
            None => None,
        }
    }

    /// The cached statistics, if loaded.
    pub fn get_stats(&self) -> (r: Option<(u32, u32)>)
        ensures
            r == self.stats_spec(),
    {
        self.stats.1
    }
}

} // verus!
