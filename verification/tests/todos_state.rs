use orivo::kinds::page::Page;
use orivo::states::todos::TodosState;

fn state_with(page_size_height: u16) -> TodosState {
    let mut s = TodosState::new();
    s.set_visible_capacity(page_size_height);
    s
}

#[test]
fn capacity_from_height() {
    let mut s = TodosState::new();
    assert_eq!(s.page_size(), 1);
    assert!(s.set_visible_capacity(11));
    assert_eq!(s.page_size(), 10);
    assert!(!s.set_visible_capacity(11));
    assert!(s.set_visible_capacity(0));
    assert_eq!(s.page_size(), 1);
}

#[test]
fn move_down_scrolls_one_row_at_a_time() {
    // 5 rows per window, 12 items.
    let mut s = state_with(6);
    for _ in 0..4 {
        s.move_selection(1, 12);
    }
    assert_eq!((s.offset(), s.selected()), (0, 4));
    s.move_selection(1, 12);
    assert_eq!((s.offset(), s.selected()), (1, 4));
    s.move_selection(100, 12);
    // At the last item the window is still full, so it scrolls once more and
    // the cursor stops one row past the end of the list.
    assert_eq!((s.offset(), s.selected()), (8, 4));
    assert_eq!(s.visible_len(12), 4);
    s.move_selection(-3, 12);
    assert_eq!((s.offset(), s.selected()), (8, 1));
    s.move_selection(-100, 12);
    assert_eq!((s.offset(), s.selected()), (0, 0));
}

#[test]
fn move_down_past_a_full_last_window() {
    // 5 rows per window and exactly 5 items: at the last item a further step
    // scrolls the window by one row and the selection falls past the end.
    let mut s = state_with(6);
    s.move_selection(4, 5);
    assert_eq!((s.offset(), s.selected()), (0, 4));
    s.move_selection(1, 5);
    assert_eq!((s.offset(), s.selected()), (1, 4));
    assert_eq!(s.visible_len(5), 4);
    assert_eq!(s.sync_list_state(4), Some(3));
}

#[test]
fn empty_list_resets_selection() {
    let mut s = state_with(6);
    s.move_selection(3, 0);
    assert_eq!((s.offset(), s.selected()), (0, 0));
    s.go_to_end(0);
    assert_eq!((s.offset(), s.selected()), (0, 0));
    assert_eq!(s.sync_list_state(0), None);
    assert_eq!(s.from(0), 0);
}

#[test]
fn go_to_end_and_start() {
    let mut s = state_with(6);
    s.go_to_end(23);
    assert_eq!((s.offset(), s.selected()), (18, 4));
    assert_eq!(s.page(), 4);
    assert!(s.show_more_above());
    assert_eq!(s.from(23), 19);
    assert_eq!(s.to(5), 23);
    // A single g only arms the jump; the second one jumps.
    s.go_to_start(false);
    assert_eq!((s.offset(), s.selected()), (18, 4));
    let pending = s.begin_input();
    assert!(pending);
    s.go_to_start(pending);
    assert_eq!((s.offset(), s.selected()), (0, 0));
    assert!(!s.show_more_above());
}

#[test]
fn reset_page_jumps_to_today() {
    let mut s = state_with(6);
    // 7 entries before today out of 20 on the index page.
    s.reset_page(Page::Index, 7, 20);
    assert_eq!((s.offset(), s.selected()), (5, 2));
    // The today page always starts at the top.
    s.reset_page(Page::Today, 7, 20);
    assert_eq!((s.offset(), s.selected()), (0, 0));
    // All entries before today: the selection lands on the last one.
    s.reset_page(Page::History, 9, 9);
    assert_eq!((s.offset(), s.selected()), (5, 3));
    assert_eq!(TodosState::before_today_filter(Page::History), Some(true));
    assert_eq!(TodosState::before_today_filter(Page::Index), Some(false));
    assert_eq!(TodosState::before_today_filter(Page::Due), None);
}

#[test]
fn clamp_after_deletions() {
    let mut s = state_with(6);
    s.go_to_end(11);
    assert_eq!((s.offset(), s.selected()), (6, 4));
    // Items vanish: the window is past the end and moves back one page.
    s.refresh(3);
    assert_eq!((s.offset(), s.selected()), (1, 1));
    s.refresh(0);
    assert_eq!((s.offset(), s.selected()), (0, 0));
}

#[test]
fn more_below_when_window_full() {
    let s = state_with(6);
    assert!(s.show_more_below(5));
    assert!(!s.show_more_below(4));
}
