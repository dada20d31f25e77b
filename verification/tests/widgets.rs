use orivo::date::CalDate;
use orivo::kinds::key::{Key, KeyCode};
use orivo::kinds::repeat::Repeat;
use orivo::tabs::active::ActiveTab;
use orivo::widgets::calendar_popup::{centered_rect, popup_height, CalendarAction, CalendarPopup, Rect};
use orivo::widgets::input_area::{InputArea, InputAreaAction};
use orivo::widgets::repeat_picker::{RepeatAction, RepeatPicker};

fn key(c: char) -> Key {
    Key { code: KeyCode::Char(c), ctrl: false }
}

fn code(code: KeyCode) -> Key {
    Key { code, ctrl: false }
}

fn d(y: i32, m: u8, day: u8) -> CalDate {
    CalDate::new(y, m, day).unwrap()
}

fn ymd(x: CalDate) -> (i32, u8, u8) {
    (x.year(), x.month(), x.day())
}

#[test]
fn repeat_picker_moves_and_confirms() {
    let mut p = RepeatPicker::new(None);
    assert_eq!(p.cursor(), 0);
    assert_eq!(p.handle(code(KeyCode::Enter)), RepeatAction::Confirm(None));
    p.handle(key('j'));
    p.handle(code(KeyCode::Down));
    assert_eq!(p.handle(code(KeyCode::Enter)), RepeatAction::Confirm(Some(Repeat::Weekly)));
    for _ in 0..10 {
        p.handle(key('j'));
    }
    assert_eq!(p.cursor(), 6);
    assert_eq!(p.handle(code(KeyCode::Enter)), RepeatAction::Confirm(Some(Repeat::Yearly)));
    for _ in 0..10 {
        p.handle(key('k'));
    }
    assert_eq!(p.cursor(), 0);
    assert_eq!(p.handle(code(KeyCode::Esc)), RepeatAction::Cancel);
    assert_eq!(p.handle(key('x')), RepeatAction::NoAction);
    assert_eq!(RepeatPicker::new(Some(Repeat::Monthly)).cursor(), 5);
    assert_eq!(RepeatPicker::height(), 8);
}

#[test]
fn calendar_navigation() {
    let today = d(2024, 5, 15);
    let mut c = CalendarPopup::new_on(Some(d(2024, 1, 31)), None, today);
    assert_eq!(c.handle_on(key('l'), today), CalendarAction::NoAction);
    assert_eq!(ymd(c.selected_date()), (2024, 2, 1));
    c.handle_on(code(KeyCode::Left), today);
    c.handle_on(code(KeyCode::Left), today);
    assert_eq!(ymd(c.selected_date()), (2024, 1, 30));
    c.handle_on(key('j'), today);
    assert_eq!(ymd(c.selected_date()), (2024, 2, 6));
    c.handle_on(key('k'), today);
    c.handle_on(key('k'), today);
    assert_eq!(ymd(c.selected_date()), (2024, 1, 23));
    c.handle_on(key('L'), today);
    assert_eq!(ymd(c.selected_date()), (2024, 2, 23));
    c.handle_on(key('H'), today);
    c.handle_on(key('H'), today);
    assert_eq!(ymd(c.selected_date()), (2023, 12, 23));
    c.handle_on(key('t'), today);
    assert_eq!(ymd(c.selected_date()), (2024, 5, 15));
    c.handle_on(key('y'), today);
    assert_eq!(ymd(c.selected_date()), (2024, 5, 14));
    c.handle_on(key('n'), today);
    assert_eq!(ymd(c.selected_date()), (2024, 5, 16));
    assert_eq!(c.handle_on(code(KeyCode::Esc), today), CalendarAction::Cancel);
    assert_eq!(c.handle_on(code(KeyCode::Enter), today), CalendarAction::Confirm);
}

#[test]
fn calendar_repeat_picker() {
    let today = d(2024, 5, 15);
    let mut c = CalendarPopup::new_on(None, Some(Repeat::Daily), today);
    assert_eq!(ymd(c.selected_date()), (2024, 5, 15));
    c.handle_on(key('r'), today);
    // Keys go to the picker now.
    c.handle_on(key('j'), today);
    assert_eq!(ymd(c.selected_date()), (2024, 5, 15));
    assert_eq!(c.handle_on(code(KeyCode::Enter), today), CalendarAction::Confirm);
    assert_eq!(c.selected_repeat(), Some(Repeat::Weekly));
    c.handle_on(key('r'), today);
    c.handle_on(code(KeyCode::Esc), today);
    assert_eq!(c.selected_repeat(), Some(Repeat::Weekly));
    c.handle_on(key('l'), today);
    assert_eq!(ymd(c.selected_date()), (2024, 5, 16));
}

#[test]
fn input_area_typing() {
    let mut a = InputArea::new();
    assert!(matches!(a.handle(code(KeyCode::Enter)), InputAreaAction::NoAction));
    a.handle(key(' '));
    assert!(matches!(a.handle(code(KeyCode::Enter)), InputAreaAction::NoAction));
    a.handle(code(KeyCode::Backspace));
    a.handle(code(KeyCode::Backspace));
    for c in "milkx".chars() {
        a.handle(key(c));
    }
    a.handle(code(KeyCode::Backspace));
    assert_eq!(a.text(), "milk");
    match a.handle(code(KeyCode::Enter)) {
        InputAreaAction::Confirm(t) => assert_eq!(t, "milk"),
        InputAreaAction::NoAction => panic!("expected a confirmation"),
    }
    assert_eq!(a.text(), "");
}

#[test]
fn popup_layout_centers_and_clips() {
    let area = Rect { x: 2, y: 1, width: 80, height: 24 };
    assert_eq!(popup_height(false), 12);
    assert_eq!(popup_height(true), 21);
    let r = centered_rect(area, 28, popup_height(false));
    assert_eq!((r.x, r.y, r.width, r.height), (28, 7, 28, 12));
    let small = Rect { x: 0, y: 0, width: 20, height: 10 };
    let r = centered_rect(small, 28, popup_height(true));
    assert_eq!((r.x, r.y, r.width, r.height), (0, 0, 20, 10));
}

#[test]
fn tab_keys_switch_tabs() {
    assert_eq!(ActiveTab::Timer.switched_by(code(KeyCode::Tab)), Some(ActiveTab::Todos));
    assert_eq!(ActiveTab::Todos.switched_by(code(KeyCode::Tab)), Some(ActiveTab::Timer));
    assert_eq!(ActiveTab::Todos.switched_by(key('1')), Some(ActiveTab::Timer));
    assert_eq!(ActiveTab::Timer.switched_by(key('2')), Some(ActiveTab::Todos));
    assert_eq!(ActiveTab::Timer.switched_by(key('3')), None);
    assert_eq!(ActiveTab::Timer.index(), 0);
    assert_eq!(ActiveTab::Todos.index(), 1);
}
