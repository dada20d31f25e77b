//! Todo page identifiers used for filtering and navigating list views.
use vstd::prelude::*;

verus! {

/// A view within the todos tab.
#[derive(Clone, Copy, PartialEq, Eq, Structural, Debug)]
pub enum Page {
    /// Todos that are past due.
    Due,
    /// Todos scheduled for today.
    Today,
    /// All todos grouped by date.
    Index,
    /// Completed todos.
    History,
}

/// Position of a page in display order.
pub open spec fn page_index(p: Page) -> int {
    match p {
        Page::Due => 0,
        Page::Today => 1,
        Page::Index => 2,
        Page::History => 3,
    }
}

/// The page at a position in display order (positions are taken modulo 4).
pub open spec fn page_at(i: int) -> Page {
    let k = i % 4;
    if k == 0 {
        Page::Due
    } else if k == 1 {
        Page::Today
    } else if k == 2 {
        Page::Index
    } else {
        Page::History
    }
}

/// The display label of a page, including its keybinding.
pub open spec fn page_label(p: Page) -> Seq<char> {
    match p {
        Page::Due => "Due [1]"@,
        Page::Today => "Today [2]"@,
        Page::Index => "Index [3]"@,
        Page::History => "History [4]"@,
    }
}

impl Page {
    /// Returns all pages in display order.
    pub fn all() -> (r: [Page; 4])
        ensures
            forall|i: int| 0 <= i < 4 ==> #[trigger] r@[i] == page_at(i),
    {
        [Page::Due, Page::Today, Page::Index, Page::History]
    }

    /// Returns the display label for the page, including its keybinding.
    pub fn label(&self) -> (r: &'static str)
        ensures
            r@ == page_label(*self),
    {
        match self {
            Page::Due => "Due [1]",
            Page::Today => "Today [2]",
            Page::Index => "Index [3]",
            Page::History => "History [4]",
        }
    }

    /// Returns the index of this page within the display order.
    pub fn index(&self) -> (r: usize)
        ensures
            r == page_index(*self),
    {
        match self {
            Page::Due => 0,
            Page::Today => 1,
            Page::Index => 2,
            Page::History => 3,
        }
    }

    /// Returns the next page, wrapping around.
    pub fn next(&self) -> (r: Page)
        ensures
            r == page_at(page_index(*self) + 1),
    {
        match self {
            Page::Due => Page::Today,
            Page::Today => Page::Index,
            Page::Index => Page::History,
            Page::History => Page::Due,
        }
    }

    /// Returns the previous page, wrapping around.
    pub fn prev(&self) -> (r: Page)
        ensures
            r == page_at(page_index(*self) + 3),
    {
        match self {
            Page::Due => Page::History,
            Page::Today => Page::Due,
            Page::Index => Page::Today,
            Page::History => Page::Index,
        }
    }
}

/// Going to the next page and then to the previous one returns to the start,
/// and the other way round.
pub proof fn lemma_next_prev_inverse(p: Page)
    ensures
        page_at(page_index(page_at(page_index(p) + 1)) + 3) == p,
        page_at(page_index(page_at(page_index(p) + 3)) + 1) == p,
{
}

/// Four steps forward come back to the start, and no fewer do.
pub proof fn lemma_next_cycle(p: Page)
    ensures
        page_at(page_index(p) + 4) == p,
        page_at(page_index(p) + 1) != p,
        page_at(page_index(p) + 2) != p,
        page_at(page_index(p) + 3) != p,
{
}

/// The index of a page locates it in the display order.
pub proof fn lemma_index_locates(p: Page)
    ensures
        0 <= page_index(p) < 4,
        page_at(page_index(p)) == p,
{
}

} // verus!
