//! The todos tab: the page shown, the input mode, and how key presses in the
//! browsing mode move through the list.
use vstd::prelude::*;

use crate::kinds::accent::Accent;
use crate::kinds::key::{Key, KeyCode};
use crate::kinds::page::{page_at, page_index, Page};
use crate::kinds::todos_mode::TodosMode;
use crate::states::todos::{
    lemma_reset_selects_today, move_down, move_up, reset_spec, visible_len, TodosState,
};

verus! {

/// Accent color of the todos tab.
pub fn color() -> (r: Accent)
    ensures
        r == Accent::Green,
{
    Accent::Green
}

/// The numbers of todos that the list needs from the database: the entries
/// of each page, and the open and done entries dated before today.
#[derive(Clone, Copy, Debug)]
pub struct PageCounts {
    /// Entries of the due page.
    pub due: usize,
    /// Entries of the today page.
    pub today: usize,
    /// Entries of the index page.
    pub index: usize,
    /// Entries of the history page.
    pub history: usize,
    /// Open todos dated before today (or undated).
    pub open_before_today: usize,
    /// Done todos dated before today (or undated).
    pub done_before_today: usize,
}

/// Entries of a page.
pub open spec fn page_total(c: PageCounts, p: Page) -> int {
    match p {
        Page::Due => c.due as int,
        Page::Today => c.today as int,
        Page::Index => c.index as int,
        Page::History => c.history as int,
    }
}

/// Entries before today that a page opens after.
pub open spec fn page_before(c: PageCounts, p: Page) -> int {
    match p {
        Page::History => c.done_before_today as int,
        _ => c.open_before_today as int,
    }
}

impl PageCounts {
    /// Entries of a page.
    pub fn total(&self, page: Page) -> (r: usize)
        ensures
            r == page_total(*self, page),
    {
        match page {
            Page::Due => self.due,
            Page::Today => self.today,
            Page::Index => self.index,
            Page::History => self.history,
        }
    }

    /// Entries before today that a page opens after.
    pub fn before(&self, page: Page) -> (r: usize)
        ensures
            r == page_before(*self, page),
    {
        match page {
            Page::History => self.done_before_today,
            _ => self.open_before_today,
        }
    }
}

/// What the caller must do after a key press in the browsing mode.
#[derive(Clone, Copy, Debug, PartialEq, Eq, Structural)]
pub enum TodosEffect {
    /// Nothing.
    NoEffect,
    /// Toggle the done state of the selected todo, then refresh.
    ToggleSelected,
    /// Delete the selected todo if it is open, then refresh.
    DeleteSelected,
    /// Open the input for a new todo, dated today when `due_today`.
    BeginAdd {
        /// Whether the new todo starts due today.
        due_today: bool,
    },
    /// Open the input to edit the selected todo.
    BeginEdit,
    /// Open the search bar.
    OpenSearch,
    /// Clear the search filter, if one is active.
    ClearSearch,
    /// The todo input is open: hand the key to it; on its answer add or
    /// update the todo and call `cancel_input`.
    ForInput,
    /// The search bar is open: hand the key to it; on its answer call
    /// `close_search`, clearing the filter first when it was cancelled.
    ForSearch,
}

/// The todos tab.
pub struct TodosTab {
    page: Page,
    mode: TodosMode,
    state: TodosState,
}

/// The page a digit or bracket key switches to from `page`, if any.
pub open spec fn page_key_target(code: KeyCode, page: Page) -> Option<Page> {
    match code {
        KeyCode::Char('1') => Some(Page::Due),
        KeyCode::Char('2') => Some(Page::Today),
        KeyCode::Char('3') => Some(Page::Index),
        KeyCode::Char('4') => Some(Page::History),
        KeyCode::Char(']') => Some(page_at(page_index(page) + 1)),
        KeyCode::Char('[') => Some(page_at(page_index(page) + 3)),
        _ => None,
    }
}

impl TodosTab {
    /// The page shown.
    pub closed spec fn page_spec(&self) -> Page {
        self.page
    }

    /// The input mode.
    pub closed spec fn mode_spec(&self) -> TodosMode {
        self.mode
    }

    /// The pagination state.
    pub closed spec fn state_spec(&self) -> TodosState {
        self.state
    }

    /// The tab opens on today's page, browsing.
    pub fn new() -> (t: Self)
        ensures
            t.page_spec() == Page::Today,
            t.mode_spec() == TodosMode::Normal,
            t.state_spec().offset_spec() == 0,
            t.state_spec().selected_spec() == 0,
    {
        Self { page: Page::Today, mode: TodosMode::Normal, state: TodosState::new() }
    }

    /// The label of the tab in the tab bar.
    pub fn name(&self) -> (r: &'static str)
        ensures
            r@ == "Todos [^t]"@,
    {
        "Todos [^t]"
    }

    /// The page shown.
    pub fn page(&self) -> (r: Page)
        ensures
            r == self.page_spec(),
    {
        self.page
    }

    /// The input mode.
    pub fn mode(&self) -> (r: TodosMode)
        ensures
            r == self.mode_spec(),
    {
        self.mode
    }

    /// The pagination state.
    pub fn state(&self) -> (r: &TodosState)
        ensures
            *r == self.state_spec(),
    {
        &self.state
    }

    /// The pagination state, to change it.
    pub fn state_mut(&mut self) -> (r: &mut TodosState)
        ensures
            *r == old(self).state_spec(),
            final(self).state_spec() == *final(r),
            final(self).page_spec() == old(self).page_spec(),
            final(self).mode_spec() == old(self).mode_spec(),
    {
        &mut self.state
    }

    /// Switches to the given page and resets its pagination state.
    pub fn set_page(&mut self, page: Page, counts: &PageCounts)
        ensures
            final(self).page_spec() == page,
            final(self).mode_spec() == old(self).mode_spec(),
            (final(self).state_spec().offset_spec(), final(self).state_spec().selected_spec())
                == reset_spec(
                page,
                page_before(*counts, page),
                page_total(*counts, page),
                old(self).state_spec().page_size_spec(),
            ),
            final(self).state_spec().page_size_spec() == old(self).state_spec().page_size_spec(),
            !final(self).state_spec().pending_g_spec(),
    {
        self.page = page;
        let before = counts.before(page);
        let total = counts.total(page);
        self.state.reset_page(page, before, total);
    }

    /// Closes the search bar and returns to browsing.
    pub fn close_search(&mut self)
        ensures
            final(self).mode_spec() == TodosMode::Normal,
            final(self).page_spec() == old(self).page_spec(),
            final(self).state_spec() == old(self).state_spec(),
    {
        self.mode = TodosMode::Normal;
    }

    /// Discards the active input and returns to browsing.
    pub fn cancel_input(&mut self)
        ensures
            final(self).mode_spec() == TodosMode::Normal,
            final(self).page_spec() == old(self).page_spec(),
            final(self).state_spec() == old(self).state_spec(),
    {
        self.mode = TodosMode::Normal;
    }

    /// Handles a key press in the browsing mode, with the current counts of
    /// todos: digits `1` to `4` and `]`/`[` switch pages, `j`/`k` (or Down/Up)
    /// move the selection, `gg` and `G` jump to the start and to the end,
    /// Space/Enter toggles the selected todo, Ctrl-`x` deletes it, `a` starts a
    /// new todo, `e` edits the selected one, `/` searches and Esc clears the
    /// search. In the other modes keys go to the input or the search bar.
    pub fn handle(&mut self, key: Key, counts: &PageCounts) -> (r: TodosEffect)
        ensures
            final(self).state_spec().page_size_spec() == old(self).state_spec().page_size_spec(),
            old(self).mode_spec() != TodosMode::Normal ==> {
                &&& r == (if old(self).mode_spec() == TodosMode::Searching {
                    TodosEffect::ForSearch
                } else {
                    TodosEffect::ForInput
                })
                &&& !final(self).state_spec().pending_g_spec()
                &&& final(self).page_spec() == old(self).page_spec()
                &&& final(self).mode_spec() == old(self).mode_spec()
                &&& final(self).state_spec().offset_spec() == old(self).state_spec().offset_spec()
                &&& final(self).state_spec().selected_spec() == old(
                    self,
                ).state_spec().selected_spec()
            },
            old(self).mode_spec() == TodosMode::Normal ==> normal_key_effect(
                key,
                *counts,
                old(self).page_spec(),
                old(self).state_spec(),
                final(self).page_spec(),
                final(self).mode_spec(),
                final(self).state_spec(),
                r,
            ),
    {
        let pending_g = self.state.begin_input();
        match self.mode {
            TodosMode::Normal => {},
            TodosMode::Searching => return TodosEffect::ForSearch,
            _ => return TodosEffect::ForInput,
        }
        let page = self.page;
        let total = counts.total(page);
        match key.code {
            KeyCode::Char('1') => {
                self.set_page(Page::Due, counts);
            },
            KeyCode::Char('2') => {
                self.set_page(Page::Today, counts);
            },
            KeyCode::Char('3') => {
                self.set_page(Page::Index, counts);
            },
            KeyCode::Char('4') => {
                self.set_page(Page::History, counts);
            },
            KeyCode::Char(']') => {
                let next = page.next();
                self.set_page(next, counts);
            },
            KeyCode::Char('[') => {
                let prev = page.prev();
                self.set_page(prev, counts);
            },
            KeyCode::Char('j') | KeyCode::Down => {
                self.state.move_selection(1, total);
            },
            KeyCode::Char('k') | KeyCode::Up => {
                self.state.move_selection(-1, total);
            },
            KeyCode::Char('g') => {
                self.state.go_to_start(pending_g);
            },
            KeyCode::Char('G') => {
                self.state.go_to_end(total);
            },
            KeyCode::Char(' ') | KeyCode::Enter => {
                return TodosEffect::ToggleSelected;
            },
            KeyCode::Char('x') => {
                if key.ctrl {
                    return TodosEffect::DeleteSelected;
                }
            },
            KeyCode::Char('a') => {
                self.mode = TodosMode::Adding;
                return TodosEffect::BeginAdd { due_today: page == Page::Today };
            },
            KeyCode::Char('e') => {
                if self.state.selected() < self.state.visible_len(total) {
                    self.mode = TodosMode::Editing;
                    return TodosEffect::BeginEdit;
                }
            },
            KeyCode::Char('/') => {
                self.mode = TodosMode::Searching;
                return TodosEffect::OpenSearch;
            },
            KeyCode::Esc => {
                return TodosEffect::ClearSearch;
            },
            _ => {},
        }
        TodosEffect::NoEffect
    }

    /// The row of the list widget to highlight, for the current page.
    pub fn list_selection(&self, counts: &PageCounts) -> (r: Option<usize>)
        ensures
            ({
                let len = visible_len(
                    page_total(*counts, self.page_spec()),
                    self.state_spec().offset_spec(),
                    self.state_spec().page_size_spec(),
                );
                r == (if len == 0 {
                    None::<usize>
                } else {
                    Some(
                        if self.state_spec().selected_spec() < len - 1 {
                            self.state_spec().selected_spec() as usize
                        } else {
                            (len - 1) as usize
                        },
                    )
                })
            }),
    {
        let len = self.state.visible_len(counts.total(self.page));
        self.state.sync_list_state(len)
    }
}

/// The effect of a key press in browsing mode on page `p0` with pagination
/// state `s0`, leading to page `p1`, mode `m1` and state `s1` and answering `r`.
pub open spec fn normal_key_effect(
    key: Key,
    counts: PageCounts,
    p0: Page,
    s0: TodosState,
    p1: Page,
    m1: TodosMode,
    s1: TodosState,
    r: TodosEffect,
) -> bool {
    let total = page_total(counts, p0);
    let ps = s0.page_size_spec();
    let pos1 = (s1.offset_spec(), s1.selected_spec());
    let pos0 = (s0.offset_spec(), s0.selected_spec());
    match page_key_target(key.code, p0) {
        Some(target) => {
            &&& p1 == target
            &&& m1 == TodosMode::Normal
            &&& pos1 == reset_spec(target, page_before(counts, target), page_total(counts, target), ps)
            &&& !s1.pending_g_spec()
            &&& r == TodosEffect::NoEffect
        },
        None => {
            &&& p1 == p0
            &&& match key.code {
                KeyCode::Char('j') | KeyCode::Down => pos1 == move_down(total, ps, pos0.0, pos0.1, 1)
                    && m1 == TodosMode::Normal && r == TodosEffect::NoEffect,
                KeyCode::Char('k') | KeyCode::Up => pos1 == move_up(total, ps, pos0.0, pos0.1, 1)
                    && m1 == TodosMode::Normal && r == TodosEffect::NoEffect,
                KeyCode::Char('g') => {
                    &&& s0.pending_g_spec() ==> pos1 == (0int, 0int)
                    &&& !s0.pending_g_spec() ==> pos1 == pos0
                    &&& s1.pending_g_spec() == !s0.pending_g_spec()
                    &&& m1 == TodosMode::Normal
                    &&& r == TodosEffect::NoEffect
                },
                KeyCode::Char('G') => {
                    &&& total > 0 ==> pos1.0 + pos1.1 == total - 1 && pos1.0 == (if total >= ps {
                        total - ps
                    } else {
                        0
                    })
                    &&& total == 0 ==> pos1 == pos0
                    &&& m1 == TodosMode::Normal
                    &&& r == TodosEffect::NoEffect
                },
                KeyCode::Char(' ') | KeyCode::Enter => pos1 == pos0 && m1 == TodosMode::Normal && r
                    == TodosEffect::ToggleSelected,
                KeyCode::Char('x') => pos1 == pos0 && m1 == TodosMode::Normal && r == (if key.ctrl {
                    TodosEffect::DeleteSelected
                } else {
                    TodosEffect::NoEffect
                }),
                KeyCode::Char('a') => pos1 == pos0 && m1 == TodosMode::Adding && r
                    == TodosEffect::BeginAdd { due_today: p0 == Page::Today },
                KeyCode::Char('e') => pos1 == pos0 && if s0.selected_spec() < visible_len(
                    total,
                    s0.offset_spec(),
                    ps,
                ) {
                    m1 == TodosMode::Editing && r == TodosEffect::BeginEdit
                } else {
                    m1 == TodosMode::Normal && r == TodosEffect::NoEffect
                },
                KeyCode::Char('/') => pos1 == pos0 && m1 == TodosMode::Searching && r
                    == TodosEffect::OpenSearch,
                KeyCode::Esc => pos1 == pos0 && m1 == TodosMode::Normal && r
                    == TodosEffect::ClearSearch,
                _ => pos1 == pos0 && m1 == TodosMode::Normal && r == TodosEffect::NoEffect,
            }
            &&& key.code != KeyCode::Char('g') ==> !s1.pending_g_spec()
            &&& s1.page_size_spec() == ps
        },
    }
}

/// Only two `g` presses in a row jump to the top: after any other key in
/// browsing mode, a `g` moves nothing and only waits for the second one.
pub proof fn lemma_g_needs_two_in_a_row(
    key: Key,
    g: Key,
    counts: PageCounts,
    p0: Page,
    s0: TodosState,
    p1: Page,
    m1: TodosMode,
    s1: TodosState,
    r1: TodosEffect,
    p2: Page,
    m2: TodosMode,
    s2: TodosState,
    r2: TodosEffect,
)
    requires
        key.code != KeyCode::Char('g'),
        g.code == KeyCode::Char('g'),
        normal_key_effect(key, counts, p0, s0, p1, m1, s1, r1),
        normal_key_effect(g, counts, p1, s1, p2, m2, s2, r2),
    ensures
        s2.offset_spec() == s1.offset_spec(),
        s2.selected_spec() == s1.selected_spec(),
        s2.pending_g_spec(),
{
}

/// In browsing mode `a` opens the input for a new todo, due today exactly
/// when the page shown is the today page; the page and the selection stay.
pub proof fn lemma_add_key_dates_today(
    key: Key,
    counts: PageCounts,
    p0: Page,
    s0: TodosState,
    p1: Page,
    m1: TodosMode,
    s1: TodosState,
    r: TodosEffect,
)
    requires
        key.code == KeyCode::Char('a'),
        normal_key_effect(key, counts, p0, s0, p1, m1, s1, r),
    ensures
        r == (TodosEffect::BeginAdd { due_today: p0 == Page::Today }),
        m1 == TodosMode::Adding,
        p1 == p0,
        s1.offset_spec() == s0.offset_spec(),
        s1.selected_spec() == s0.selected_spec(),
{
}

/// Opening the history page lands on the first done todo from today on: with
/// `b` done todos dated before today (or undated), the window starts at the
/// multiple of the page size at or below `b` and the selection is on entry
/// `b`. The index page does the same with the open todos before today.
pub proof fn lemma_pages_open_on_today(counts: PageCounts, page_size: int)
    requires
        page_size >= 1,
    ensures
        counts.done_before_today < counts.history ==> ({
            let pos = reset_spec(
                Page::History,
                page_before(counts, Page::History),
                page_total(counts, Page::History),
                page_size,
            );
            &&& pos.0 == (counts.done_before_today as int / page_size) * page_size
            &&& pos.0 + pos.1 == counts.done_before_today
        }),
        counts.open_before_today < counts.index ==> ({
            let pos = reset_spec(
                Page::Index,
                page_before(counts, Page::Index),
                page_total(counts, Page::Index),
                page_size,
            );
            &&& pos.0 == (counts.open_before_today as int / page_size) * page_size
            &&& pos.0 + pos.1 == counts.open_before_today
        }),
{
    if counts.done_before_today < counts.history {
        lemma_reset_selects_today(counts.history as int, page_size, counts.done_before_today as int);
    }
    if counts.open_before_today < counts.index {
        lemma_reset_selects_today(counts.index as int, page_size, counts.open_before_today as int);
    }
}

} // verus!
