//! The two tabs of the tabbed interface and the keys that switch between them.
use vstd::prelude::*;

use crate::kinds::key::{Key, KeyCode};

verus! {

/// The tab shown.
#[derive(Clone, Copy, Debug, PartialEq, Eq, Structural)]
pub enum ActiveTab {
    /// The pomodoro timer.
    Timer,
    /// The todo list.
    Todos,
}

impl ActiveTab {
    /// The tab a key press switches to, if it is a tab key: Tab goes to the
    /// other tab, `1` to the timer and `2` to the todos; other keys belong to the
    /// tab shown.
    pub fn switched_by(self, key: Key) -> (r: Option<ActiveTab>)
        ensures
            r == match key.code {
                KeyCode::Tab => Some(
                    match self {
                        ActiveTab::Timer => ActiveTab::Todos,
                        ActiveTab::Todos => ActiveTab::Timer,
                    },
                ),
                KeyCode::Char('1') => Some(ActiveTab::Timer),
                KeyCode::Char('2') => Some(ActiveTab::Todos),
                _ => None,
            },
    {
        match key.code {
            KeyCode::Tab => Some(
                match self {
                    ActiveTab::Timer => ActiveTab::Todos,
                    ActiveTab::Todos => ActiveTab::Timer,
                },
            ),
            KeyCode::Char('1') => Some(ActiveTab::Timer),
            KeyCode::Char('2') => Some(ActiveTab::Todos),
            _ => None,
        }
    }

    /// Index of the tab in the tab bar.
    pub fn index(self) -> (r: usize)
        ensures
            r == match self {
                ActiveTab::Timer => 0usize,
                ActiveTab::Todos => 1usize,
            },
    {
        match self {
            ActiveTab::Timer => 0,
            ActiveTab::Todos => 1,
        }
    }
}

} // verus!
