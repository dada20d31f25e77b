//! Pagination and selection state of the todos tab.
//!
//! The visible window is a page of at most `page_size` rows starting at
//! `offset` in the list of todos of the current page filter. The number of
//! todos in that list (`total`) lives in the database; the functions below
//! take it as an argument. The window then holds `visible_len(total, offset,
//! page_size)` rows, and `selected` is a row of the window.
use vstd::prelude::*;

use crate::kinds::page::Page;
use crate::models::todo::Todo;

verus! {

/// Number of rows the window at `offset` shows out of `total` todos.
pub open spec fn visible_len(total: int, offset: int, page_size: int) -> int {
    if offset >= total {
        0
    } else if total - offset < page_size {
        total - offset
    } else {
        page_size
    }
}

/// The selection points at a row that the window shows.
pub open spec fn consistent(total: int, page_size: int, offset: int, selected: int) -> bool {
    0 <= selected < visible_len(total, offset, page_size)
}

/// Where `clamp_selected` leaves the window and the selection: back by one page
/// when the window is past the end, and the selection on the last row when it
/// is below it.
pub open spec fn clamp_spec(total: int, page_size: int, offset: int, selected: int) -> (int, int) {
    let offset1 = if visible_len(total, offset, page_size) == 0 && offset > 0 {
        if offset >= page_size {
            offset - page_size
        } else {
            0
        }
    } else {
        offset
    };
    let len = visible_len(total, offset1, page_size);
    (
        offset1,
        if len == 0 {
            0
        } else if selected < len - 1 {
            selected
        } else {
            len - 1
        },
    )
}

/// `n` downward steps of the cursor: each moves it to the next row, scrolls
/// the window by one row when the cursor is on the last row of a full window,
/// and otherwise stops; an empty window resets the cursor and stops.
pub open spec fn move_down(total: int, page_size: int, offset: int, selected: int, n: nat) -> (
    int,
    int,
)
    decreases n,
{
    if n == 0 {
        (offset, selected)
    } else {
        let len = visible_len(total, offset, page_size);
        if len == 0 {
            (offset, 0)
        } else if selected + 1 < len {
            move_down(total, page_size, offset, selected + 1, (n - 1) as nat)
        } else if len == page_size {
            move_down(total, page_size, offset + 1, selected, (n - 1) as nat)
        } else {
            (offset, selected)
        }
    }
}

/// `n` upward steps of the cursor: each moves it to the previous row, scrolls
/// the window back by one row when the cursor is on the first row, and stops at
/// the top of the list; an empty window resets the cursor and stops.
pub open spec fn move_up(total: int, page_size: int, offset: int, selected: int, n: nat) -> (
    int,
    int,
)
    decreases n,
{
    if n == 0 {
        (offset, selected)
    } else {
        let len = visible_len(total, offset, page_size);
        if len == 0 {
            (offset, 0)
        } else if selected > 0 {
            move_up(total, page_size, offset, selected - 1, (n - 1) as nat)
        } else if offset > 0 {
            move_up(total, page_size, offset - 1, selected, (n - 1) as nat)
        } else {
            (offset, selected)
        }
    }
}

/// The pages that open on today's entries: for them the count of entries
/// before today is queried, among open todos (`false`) or done ones (`true`).
pub open spec fn before_today_filter(page: Page) -> Option<bool> {
    match page {
        Page::Index => Some(false),
        Page::History => Some(true),
        _ => None,
    }
}

/// Where `reset_page` leaves the window and the selection: at the start of the
/// list, or, for pages that open on today's entries, on the first entry from
/// today on (`before` entries come before it), then clamped to the list.
pub open spec fn reset_spec(page: Page, before: int, total: int, page_size: int) -> (int, int) {
    let start = if before_today_filter(page) is Some {
        (before / page_size) * page_size
    } else {
        0
    };
    let sel = if before_today_filter(page) is Some {
        before - start
    } else {
        0
    };
    clamp_spec(total, page_size, start, sel)
}

/// Runtime state for the todos tab: pagination and selection.
pub struct TodosState {
    /// Whether a `g` keypress is pending (waiting for a second `g` to jump to top).
    pending_g: bool,
    /// Index of the currently selected row within the visible page.
    selected: usize,
    /// Global offset into the full todo list for the current page view.
    offset: usize,
    /// Number of items that fit in the visible list area; updated on each resize.
    page_size: usize,
}

impl TodosState {
    /// The window always has room for at least one row.
    #[verifier::type_invariant]
    spec fn inv(&self) -> bool {
        self.page_size >= 1
    }

    /// Whether a first `g` is waiting for a second one.
    pub closed spec fn pending_g_spec(&self) -> bool {
        self.pending_g
    }

    /// The selected row of the window.
    pub closed spec fn selected_spec(&self) -> int {
        self.selected as int
    }

    /// The position of the window in the list.
    pub closed spec fn offset_spec(&self) -> int {
        self.offset as int
    }

    /// The number of rows of the window.
    pub closed spec fn page_size_spec(&self) -> int {
        self.page_size as int
    }

    /// Creates a new state: first row of the first window, one row per window.
    pub fn new() -> (s: Self)
        ensures
            s.selected_spec() == 0,
            s.offset_spec() == 0,
            s.page_size_spec() == 1,
            !s.pending_g_spec(),
    {
        TodosState { pending_g: false, selected: 0, offset: 0, page_size: 1 }
    }

    /// Returns the index of the currently selected row.
    pub fn selected(&self) -> (r: usize)
        ensures
            r == self.selected_spec(),
    {
        self.selected
    }

    /// Returns the current pagination offset.
    pub fn offset(&self) -> (r: usize)
        ensures
            r == self.offset_spec(),
    {
        self.offset
    }

    /// Consumes and returns the pending-`g` flag, resetting it to `false`.
    pub fn begin_input(&mut self) -> (r: bool)
        ensures
            r == old(self).pending_g_spec(),
            !final(self).pending_g_spec(),
            final(self).selected_spec() == old(self).selected_spec(),
            final(self).offset_spec() == old(self).offset_spec(),
            final(self).page_size_spec() == old(self).page_size_spec(),
    {
        proof {
            use_type_invariant(&*self);
        }
        let pending_g = self.pending_g;
        self.pending_g = false;
        pending_g
    }

    /// Returns the 1-based index of the first visible item, or 0 if the list is empty.
    pub fn from(&self, total: usize) -> (r: usize)
        requires
            self.offset_spec() < usize::MAX,
        ensures
            r == (if total == 0 {
                0
            } else {
                self.offset_spec() + 1
            }),
    {
        if total == 0 {
            0
        } else {
            self.offset + 1
        }
    }

    /// Returns the 1-based index of the last visible item.
    pub fn to(&self, loaded_len: usize) -> (r: usize)
        requires
            self.offset_spec() + loaded_len <= usize::MAX,
        ensures
            r == self.offset_spec() + loaded_len,
    {
        self.offset + loaded_len
    }

    /// Returns the current 1-based page number.
    pub fn page(&self) -> (r: usize)
        requires
            self.offset_spec() / self.page_size_spec() < usize::MAX,
        ensures
            r == self.offset_spec() / self.page_size_spec() + 1,
    {
        (self.offset / self.page_size()) + 1
    }

    /// Returns `true` if there are hidden items above the visible window.
    pub fn show_more_above(&self) -> (r: bool)
        ensures
            r == (self.offset_spec() > 0),
    {
        self.offset > 0
    }

    /// Returns `true` if there are hidden items below the visible window.
    pub fn show_more_below(&self, loaded_len: usize) -> (r: bool)
        ensures
            r == (loaded_len == self.page_size_spec()),
    {
        loaded_len == self.page_size()
    }

    /// Updates the visible capacity from the height of the rendered list area
    /// (one row is padding) and returns whether it changed, in which case the
    /// cached rows are stale.
    pub fn set_visible_capacity(&mut self, list_height: u16) -> (changed: bool)
        ensures
            final(self).page_size_spec() == (if list_height >= 2 {
                list_height - 1
            } else {
                1
            }),
            changed == (final(self).page_size_spec() != old(self).page_size_spec()),
            final(self).selected_spec() == old(self).selected_spec(),
            final(self).offset_spec() == old(self).offset_spec(),
            final(self).pending_g_spec() == old(self).pending_g_spec(),
    {
        proof {
            use_type_invariant(&*self);
        }
        let capacity: usize = if list_height >= 1 {
            (list_height - 1) as usize
        } else {
            0
        };
        let capacity: usize = if capacity < 1 {
            1
        } else {
            capacity
        };
        if self.page_size != capacity {
            self.page_size = capacity;
            true
        } else {
            false
        }
    }

    /// Returns the current page size, at least 1.
    pub fn page_size(&self) -> (r: usize)
        ensures
            r == self.page_size_spec(),
            r >= 1,
    {
        proof {
            use_type_invariant(self);
        }
        self.page_size
    }

    /// Number of rows of the current window, out of `total` todos.
    pub fn visible_len(&self, total: usize) -> (r: usize)
        ensures
            r == visible_len(total as int, self.offset_spec(), self.page_size_spec()),
    {
        if self.offset >= total {
            0
        } else if total - self.offset < self.page_size {
            total - self.offset
        } else {
            self.page_size
        }
    }

    /// Whether the selected todo of the window `items` can be deleted: not on
    /// the history page, and only an open todo.
    pub fn can_delete(&self, page: Page, items: &Vec<Todo>) -> (r: bool)
        ensures
            r == (page != Page::History && self.selected_spec() < items@.len()
                && items@[self.selected_spec()].done_at is None),
    {
        if page == Page::History {
            return false;
        }
        if self.selected < items.len() {
            items[self.selected].done_at.is_none()
        } else {
            false
        }
    }

    /// Clamps the selection to valid bounds, scrolling back a page if the current
    /// page is empty.
    pub fn clamp_selected(&mut self, total: usize)
        ensures
            (final(self).offset_spec(), final(self).selected_spec()) == clamp_spec(
                total as int,
                old(self).page_size_spec(),
                old(self).offset_spec(),
                old(self).selected_spec(),
            ),
            final(self).page_size_spec() == old(self).page_size_spec(),
            final(self).pending_g_spec() == old(self).pending_g_spec(),
    {
        proof {
            use_type_invariant(&*self);
        }
        let page_size = self.page_size();
        let mut len = self.visible_len(total);
        if len == 0 && self.offset > 0 {
            self.offset = if self.offset >= page_size {
                self.offset - page_size
            } else {
                0
            };
            len = self.visible_len(total);
        }
        if len == 0 {
            self.selected = 0;
        } else if self.selected < len - 1 {
        } else {
            self.selected = len - 1;
        }
    }

    /// The row of the list widget to highlight for a window of `len` rows.
    pub fn sync_list_state(&self, len: usize) -> (r: Option<usize>)
        ensures
            r == (if len == 0 {
                None::<usize>
            } else {
                Some(
                    if self.selected_spec() < len - 1 {
                        self.selected_spec() as usize
                    } else {
                        (len - 1) as usize
                    },
                )
            }),
    {
        if len == 0 {
            None
        } else if self.selected < len - 1 {
            Some(self.selected)
        } else {
            Some(len - 1)
        }
    }

    /// For pages that open on today's entries, whether to count the done
    /// (`true`) or the open (`false`) todos dated before today.
    pub fn before_today_filter(page: Page) -> (r: Option<bool>)
        ensures
            r == before_today_filter(page),
    {
        match page {
            Page::Index => Some(false),
            Page::History => Some(true),
            _ => None,
        }
    }

    /// Resets pagination and selection for the given page, jumping to today's
    /// items where applicable: `before` is the number of entries before today
    /// (only read for the pages of `before_today_filter`) and `total` the number
    /// of entries of the page.
    pub fn reset_page(&mut self, page: Page, before: usize, total: usize)
        ensures
            (final(self).offset_spec(), final(self).selected_spec()) == reset_spec(
                page,
                before as int,
                total as int,
                old(self).page_size_spec(),
            ),
            final(self).page_size_spec() == old(self).page_size_spec(),
            !final(self).pending_g_spec(),
    {
        proof {
            use_type_invariant(&*self);
        }
        self.pending_g = false;
        self.offset = 0;
        self.selected = 0;
        if Self::before_today_filter(page).is_some() {
            let page_size = self.page_size();
            proof {
                assert((before / page_size) * page_size <= before) by (nonlinear_arith)
                    requires
                        page_size >= 1,
                ;
            }
            self.offset = (before / page_size) * page_size;
            self.selected = before - self.offset;
        }
        self.clamp_selected(total);
    }

    /// Jumps to the top of the list on a double `g` press.
    pub fn go_to_start(&mut self, pending_g: bool)
        ensures
            pending_g ==> final(self).offset_spec() == 0 && final(self).selected_spec() == 0,
            !pending_g ==> final(self).offset_spec() == old(self).offset_spec()
                && final(self).selected_spec() == old(self).selected_spec(),
            final(self).pending_g_spec() == !pending_g,
            final(self).page_size_spec() == old(self).page_size_spec(),
    {
        proof {
            use_type_invariant(&*self);
        }
        if pending_g {
            self.offset = 0;
            self.selected = 0;
        }
        self.pending_g = !pending_g;
    }

    /// Jumps to the last item of a list of `total` items.
    pub fn go_to_end(&mut self, total: usize)
        ensures
            total == 0 ==> final(self).offset_spec() == old(self).offset_spec()
                && final(self).selected_spec() == old(self).selected_spec(),
            total > 0 ==> final(self).offset_spec() == (if total >= old(self).page_size_spec() {
                total - old(self).page_size_spec()
            } else {
                0
            }) && final(self).offset_spec() + final(self).selected_spec() == total - 1,
            final(self).page_size_spec() == old(self).page_size_spec(),
            final(self).pending_g_spec() == old(self).pending_g_spec(),
    {
        proof {
            use_type_invariant(&*self);
        }
        if total == 0 {
            return ;
        }
        let page_size = self.page_size();
        self.offset = if total >= page_size {
            total - page_size
        } else {
            0
        };
        self.selected = (total - 1) - self.offset;
    }

    /// Refreshes after a data mutation: clamps the selection to the new list of
    /// `total` items.
    pub fn refresh(&mut self, total: usize)
        ensures
            (final(self).offset_spec(), final(self).selected_spec()) == clamp_spec(
                total as int,
                old(self).page_size_spec(),
                old(self).offset_spec(),
                old(self).selected_spec(),
            ),
            final(self).page_size_spec() == old(self).page_size_spec(),
            final(self).pending_g_spec() == old(self).pending_g_spec(),
    {
        proof {
            use_type_invariant(&*self);
        }
        self.clamp_selected(total);
    }

    /// Moves the selection by `delta` rows, scrolling the page when reaching the
    /// edge, in a list of `total` items.
    pub fn move_selection(&mut self, delta: isize, total: usize)
        ensures
            delta > 0 ==> (final(self).offset_spec(), final(self).selected_spec()) == move_down(
                total as int,
                old(self).page_size_spec(),
                old(self).offset_spec(),
                old(self).selected_spec(),
                delta as nat,
            ),
            delta < 0 ==> (final(self).offset_spec(), final(self).selected_spec()) == move_up(
                total as int,
                old(self).page_size_spec(),
                old(self).offset_spec(),
                old(self).selected_spec(),
                (-delta) as nat,
            ),
            delta == 0 ==> final(self).offset_spec() == old(self).offset_spec()
                && final(self).selected_spec() == old(self).selected_spec(),
            final(self).page_size_spec() == old(self).page_size_spec(),
            final(self).pending_g_spec() == old(self).pending_g_spec(),
    {
        proof {
            use_type_invariant(&*self);
        }
        let page_size = self.page_size();
        let ghost t = total as int;
        let ghost ps = page_size as int;
        let ghost o0 = self.offset as int;
        let ghost s0 = self.selected as int;
        if delta > 0 {
            let n = delta as usize;
            let mut i: usize = 0;
            while i < n
                invariant_except_break
                    move_down(t, ps, o0, s0, n as nat) == move_down(
                        t,
                        ps,
                        self.offset as int,
                        self.selected as int,
                        (n - i) as nat,
                    ),
                invariant
                    i <= n,
                    n == delta,
                    ps == page_size,
                    t == total,
                    page_size >= 1,
                    self.page_size == page_size,
                    self.pending_g == old(self).pending_g,
                ensures
                    move_down(t, ps, o0, s0, n as nat) == (self.offset as int, self.selected as int),
                decreases n - i,
            {
                let len = self.visible_len(total);
                if len == 0 {
                    self.selected = 0;
                    break;
                }
                if self.selected < len - 1 {
                    self.selected = self.selected + 1;
                } else if len == page_size {
                    self.offset = self.offset + 1;
                } else {
                    break;
                }
                i = i + 1;
            }
        } else if delta < 0 {
            let n: usize = (-(delta + 1)) as usize + 1;
            let mut i: usize = 0;
            while i < n
                invariant_except_break
                    move_up(t, ps, o0, s0, n as nat) == move_up(
                        t,
                        ps,
                        self.offset as int,
                        self.selected as int,
                        (n - i) as nat,
                    ),
                invariant
                    i <= n,
                    n == -delta,
                    ps == page_size,
                    t == total,
                    page_size >= 1,
                    self.page_size == page_size,
                    self.pending_g == old(self).pending_g,
                ensures
                    move_up(t, ps, o0, s0, n as nat) == (self.offset as int, self.selected as int),
                decreases n - i,
            {
                let len = self.visible_len(total);
                if len == 0 {
                    self.selected = 0;
                    break;
                }
                if self.selected > 0 {
                    self.selected = self.selected - 1;
                } else if self.offset > 0 {
                    self.offset = self.offset - 1;
                } else {
                    break;
                }
                i = i + 1;
            }
        }
    }
}

/// After clamping, the selection is on a row of the window, or the window is
/// empty and the selection is reset; the window never moves forward.
pub proof fn lemma_clamp_consistent(total: int, page_size: int, offset: int, selected: int)
    requires
        page_size >= 1,
        offset >= 0,
        selected >= 0,
    ensures
        ({
            let (o, s) = clamp_spec(total, page_size, offset, selected);
            &&& 0 <= o <= offset
            &&& consistent(total, page_size, o, s) || (visible_len(total, o, page_size) <= 0 && s
                == 0)
        }),
{
}

/// From a selection on a visible row, `k` steps down that stay within the list
/// select the item `k` places further, still on a visible row.
pub proof fn lemma_move_down_steps(total: int, page_size: int, offset: int, selected: int, k: nat)
    requires
        page_size >= 1,
        offset >= 0,
        consistent(total, page_size, offset, selected),
        offset + selected + k < total,
    ensures
        ({
            let (o, s) = move_down(total, page_size, offset, selected, k);
            &&& o + s == offset + selected + k
            &&& consistent(total, page_size, o, s)
        }),
    decreases k,
{
    if k > 0 {
        let len = visible_len(total, offset, page_size);
        if selected + 1 < len {
            lemma_move_down_steps(total, page_size, offset, selected + 1, (k - 1) as nat);
        } else {
            lemma_move_down_steps(total, page_size, offset + 1, selected, (k - 1) as nat);
        }
    }
}

/// From a selection on a visible row, `k` steps up select the item `k` places
/// earlier, or the first item, still on a visible row.
pub proof fn lemma_move_up_steps(total: int, page_size: int, offset: int, selected: int, k: nat)
    requires
        page_size >= 1,
        offset >= 0,
        consistent(total, page_size, offset, selected),
    ensures
        ({
            let (o, s) = move_up(total, page_size, offset, selected, k);
            &&& o + s == (if offset + selected >= k {
                offset + selected - k
            } else {
                0
            })
            &&& o >= 0
            &&& consistent(total, page_size, o, s)
        }),
    decreases k,
{
    if k > 0 {
        if selected > 0 {
            lemma_move_up_steps(total, page_size, offset, selected - 1, (k - 1) as nat);
        } else if offset > 0 {
            lemma_move_up_steps(total, page_size, offset - 1, selected, (k - 1) as nat);
        }
    }
}

/// Opening a page that jumps to today selects the first entry from today on,
/// whenever there is one, in the window of the page that holds it.
pub proof fn lemma_reset_selects_today(total: int, page_size: int, before: int)
    requires
        page_size >= 1,
        0 <= before < total,
    ensures
        ({
            let start = (before / page_size) * page_size;
            &&& clamp_spec(total, page_size, start, before - start) == (start, before - start)
            &&& consistent(total, page_size, start, before - start)
            &&& start % page_size == 0
        }),
{
    let start = (before / page_size) * page_size;
    assert(0 <= before - start < page_size) by (nonlinear_arith)
        requires
            page_size >= 1,
            before >= 0,
            start == (before / page_size) * page_size,
    ;
    assert(start % page_size == 0) by (nonlinear_arith)
        requires
            page_size >= 1,
            start == (before / page_size) * page_size,
    ;
}

/// Jumping to the end selects the last item on a visible row.
pub proof fn lemma_end_consistent(total: int, page_size: int)
    requires
        page_size >= 1,
        total > 0,
    ensures
        ({
            let o = if total >= page_size {
                total - page_size
            } else {
                0
            };
            consistent(total, page_size, o, total - 1 - o)
        }),
{
}

} // verus!
