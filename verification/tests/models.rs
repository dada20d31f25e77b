use orivo::date::{CalDate, Stamp};
use orivo::kinds::key::{Key, KeyCode};
use orivo::kinds::page::Page;
use orivo::kinds::phase::Phase;
use orivo::kinds::repeat::Repeat;
use orivo::kinds::todos_mode::TodosMode;
use orivo::models::session::{Model, Session, Stat};
use orivo::models::todo::Todo;
use orivo::states::timer_cache::TimerCache;
use orivo::tabs::todos::{PageCounts, TodosEffect, TodosTab};

fn stamp(y: i32, m: u8, d: u8, h: u8) -> Stamp {
    Stamp::new(CalDate::new(y, m, d).unwrap(), h, 30, 0, 0, 3600).unwrap()
}

fn session(phase: &str, secs: u32, done: bool) -> Session {
    Session {
        id: Some(1),
        phase: phase.to_string(),
        duration_secs: secs,
        completed_at: if done { Some("2024-01-01T00:00:00Z".to_string()) } else { None },
        todo_id: Some(3),
    }
}

#[test]
fn stats_count_completed_work_only() {
    let sessions = vec![
        session("work", 1500, true),
        session("break", 300, true),
        session("work", 1200, false),
        session("work", 1500, true),
    ];
    let s = Stat::of_sessions(&sessions);
    assert_eq!(s.completed_sessions, 2);
    assert_eq!(s.completed_secs, 3000);
    let s = Stat::of_sessions(&vec![]);
    assert_eq!((s.completed_sessions, s.completed_secs), (0, 0));
}

#[test]
fn sessions_from_rows_and_new() {
    let s = Session::from(Model {
        id: 9,
        phase: "break".to_string(),
        duration_secs: -5,
        completed_at: None,
        todo_id: None,
    });
    assert_eq!(s.id, Some(9));
    assert_eq!(s.duration_secs, 0);
    let s = Session::new(&Phase::LongBreak, 900_999, Some(2));
    assert_eq!(s.phase, "long_break");
    assert_eq!(s.duration_secs, 900);
    assert!(s.completed_at.is_some());
    assert_eq!(s.id, None);
}

#[test]
fn todo_toggle_and_next_occurrence() {
    let mut t = Todo::new("water plants".to_string(), None, Some(Repeat::Weekly), None);
    t.id = Some(4);
    assert!(t.next_occurrence().is_none());
    let now = stamp(2024, 5, 1, 9);
    let prev = t.toggle_done(now);
    assert!(prev.is_none());
    assert!(t.done_at.is_some());
    assert_eq!(t.due_date.unwrap().date().day(), 1);
    let next = t.next_occurrence().unwrap();
    let due = next.due_date.unwrap();
    assert_eq!((due.date().year(), due.date().month(), due.date().day()), (2024, 5, 8));
    assert_eq!(due.hour(), 9);
    assert_eq!(next.parent_id, Some(4));
    assert_eq!(next.text, "water plants");
    assert!(next.done_at.is_none());
    let prev = t.toggle_done(stamp(2024, 5, 2, 9));
    assert!(prev.is_some());
    assert!(t.done_at.is_none());
    assert_eq!(t.due_date.unwrap().date().day(), 1);
}

#[test]
fn timer_cache_behaviour() {
    let mut c = TimerCache::new();
    assert!(c.cached_todos().is_none());
    assert!(c.stats_stale(0));
    c.set_stats(2, (2, 3000));
    assert!(!c.stats_stale(2));
    assert!(c.stats_stale(3));
    assert_eq!(c.get_stats(), Some((2, 3000)));
    c.invalidate_stats();
    assert!(c.stats_stale(2));
    let mut a = Todo::new("a".to_string(), None, None, None);
    a.id = Some(1);
    let mut b = Todo::new("b".to_string(), None, None, None);
    b.id = Some(2);
    c.set_todos(vec![a, b]);
    assert_eq!(c.get_todo(2).unwrap().text, "b");
    assert!(c.get_todo(5).is_none());
    c.invalidate_todos();
    assert!(c.get_todo(2).is_none());
}

fn k(c: char) -> Key {
    Key { code: KeyCode::Char(c), ctrl: false }
}

#[test]
fn todos_tab_browsing_keys() {
    let counts = PageCounts {
        due: 2,
        today: 3,
        index: 40,
        history: 0,
        open_before_today: 12,
        done_before_today: 0,
    };
    let mut tab = TodosTab::new();
    tab.state_mut().set_visible_capacity(6);
    assert!(tab.page() == Page::Today);
    assert_eq!(tab.handle(k('j'), &counts), TodosEffect::NoEffect);
    assert_eq!(tab.state().selected(), 1);
    assert_eq!(tab.handle(k('3'), &counts), TodosEffect::NoEffect);
    assert!(tab.page() == Page::Index);
    assert_eq!((tab.state().offset(), tab.state().selected()), (10, 2));
    tab.handle(k('G'), &counts);
    assert_eq!(tab.state().offset() + tab.state().selected(), 39);
    tab.handle(k('g'), &counts);
    tab.handle(k('g'), &counts);
    assert_eq!((tab.state().offset(), tab.state().selected()), (0, 0));
    tab.handle(k(']'), &counts);
    assert!(tab.page() == Page::History);
    assert_eq!(tab.list_selection(&counts), None);
    assert_eq!(tab.handle(k('e'), &counts), TodosEffect::NoEffect);
    tab.handle(k('['), &counts);
    assert_eq!(tab.handle(k(' '), &counts), TodosEffect::ToggleSelected);
    assert_eq!(tab.handle(k('x'), &counts), TodosEffect::NoEffect);
    assert_eq!(
        tab.handle(Key { code: KeyCode::Char('x'), ctrl: true }, &counts),
        TodosEffect::DeleteSelected
    );
    assert_eq!(tab.handle(k('a'), &counts), TodosEffect::BeginAdd { due_today: false });
    assert!(tab.mode() == TodosMode::Adding);
    assert_eq!(tab.handle(k('j'), &counts), TodosEffect::ForInput);
    tab.cancel_input();
    assert_eq!(tab.handle(k('e'), &counts), TodosEffect::BeginEdit);
    assert!(tab.mode() == TodosMode::Editing);
    assert_eq!(tab.handle(k('q'), &counts), TodosEffect::ForInput);
    tab.cancel_input();
    assert_eq!(tab.handle(k('/'), &counts), TodosEffect::OpenSearch);
    assert!(tab.mode() == TodosMode::Searching);
    assert_eq!(tab.handle(k('j'), &counts), TodosEffect::ForSearch);
    tab.close_search();
    assert!(tab.mode() == TodosMode::Normal);
    assert_eq!(tab.name(), "Todos [^t]");
}

#[test]
fn todos_tab_g_needs_two_in_a_row() {
    let counts = PageCounts {
        due: 0,
        today: 0,
        index: 40,
        history: 0,
        open_before_today: 0,
        done_before_today: 0,
    };
    let mut tab = TodosTab::new();
    tab.state_mut().set_visible_capacity(6);
    tab.handle(k('3'), &counts);
    tab.handle(k('G'), &counts);
    let end = (tab.state().offset(), tab.state().selected());
    assert_eq!(end.0 + end.1, 39);
    tab.handle(k('g'), &counts);
    tab.handle(k('x'), &counts);
    tab.handle(k('g'), &counts);
    assert_eq!((tab.state().offset(), tab.state().selected()), end);
    tab.handle(k('g'), &counts);
    assert_eq!((tab.state().offset(), tab.state().selected()), (0, 0));
}

#[test]
fn todo_toggle_save_outcomes() {
    let mut t = Todo::new("pay rent".to_string(), None, Some(Repeat::Monthly), None);
    t.id = Some(9);
    // The save fails: the todo is open again, with nothing to create.
    let prev = t.toggle_done(stamp(2024, 1, 31, 8));
    assert!(t.finish_toggle(prev, false).is_none());
    assert!(t.done_at.is_none());
    // The save succeeds: the next occurrence is due on the next 31st.
    let prev = t.toggle_done(stamp(2024, 1, 31, 8));
    let next = t.finish_toggle(prev, true).unwrap();
    let due = next.due_date.unwrap().date();
    assert_eq!((due.year(), due.month(), due.day()), (2024, 3, 31));
    assert_eq!(next.parent_id, Some(9));
    assert!(t.done_at.is_some());
    // Reopening a done todo creates nothing.
    let prev = t.toggle_done(stamp(2024, 2, 1, 8));
    assert!(t.finish_toggle(prev, true).is_none());
    assert!(t.done_at.is_none());
}

#[test]
fn todo_toggle_without_repeat() {
    let mut t = Todo::new("call bank".to_string(), None, None, None);
    t.id = Some(2);
    assert!(t.next_occurrence().is_none());
    let prev = t.toggle_done(stamp(2024, 6, 3, 10));
    assert!(t.finish_toggle(prev, true).is_none());
    assert!(t.done_at.is_some());
    assert_eq!(t.due_date.unwrap().date().day(), 3);
}
