use orivo::kinds::page::Page;
use orivo::kinds::phase::Phase;
use orivo::kinds::repeat::Repeat;
use orivo::config::TimerConfig;
use orivo::kinds::accent::Accent;

#[test]
fn page_labels_and_indices() {
    assert_eq!(Page::Due.label(), "Due [1]");
    assert_eq!(Page::Today.label(), "Today [2]");
    assert_eq!(Page::Index.label(), "Index [3]");
    assert_eq!(Page::History.label(), "History [4]");
    assert_eq!(Page::Due.index(), 0);
    assert_eq!(Page::History.index(), 3);
    let all = Page::all();
    for (i, p) in all.iter().enumerate() {
        assert_eq!(p.index(), i);
    }
}

#[test]
fn page_next_prev_wrap() {
    assert!(Page::Due.next() == Page::Today);
    assert!(Page::History.next() == Page::Due);
    assert!(Page::Due.prev() == Page::History);
    assert!(Page::Index.prev() == Page::Today);
    for p in Page::all() {
        assert!(p.next().prev() == p);
        assert!(p.prev().next() == p);
        assert!(p.next().next().next().next() == p);
    }
}

#[test]
fn phase_db_round_trip() {
    for p in [Phase::Work, Phase::Break, Phase::LongBreak] {
        assert_eq!(Phase::from_db_str(p.to_db_str()), Some(p));
    }
    assert_eq!(Phase::Work.to_db_str(), "work");
    assert_eq!(Phase::LongBreak.to_db_str(), "long_break");
    assert_eq!(Phase::from_db_str("Work"), None);
    assert_eq!(Phase::from_db_str(""), None);
    assert_eq!(Phase::Break.label(), "Short Break");
    assert_eq!(Phase::Work.color(), Accent::Red);
    assert_eq!(Phase::LongBreak.color(), Accent::Cyan);
}

#[test]
fn phase_durations_in_millis() {
    let c = TimerConfig::default_config();
    assert_eq!(Phase::Work.duration(&c), 25 * 60_000);
    assert_eq!(Phase::Break.duration(&c), 5 * 60_000);
    assert_eq!(Phase::LongBreak.duration(&c), 15 * 60_000);
    let c = TimerConfig::new(true, 50, 10, 30, 2, 8).unwrap();
    assert_eq!(Phase::Work.duration(&c), 3_000_000);
    assert!(c.show_millis());
    assert_eq!(c.long_break_interval(), 2);
}

#[test]
fn timer_config_bounds() {
    assert!(TimerConfig::new(false, 0, 5, 15, 4, 16).is_none());
    assert!(TimerConfig::new(false, 121, 5, 15, 4, 16).is_none());
    assert!(TimerConfig::new(false, 120, 60, 60, 10, 24).is_some());
    assert!(TimerConfig::new(false, 25, 5, 15, 11, 16).is_none());
    assert!(TimerConfig::new(false, 25, 5, 15, 4, 25).is_none());
}

#[test]
fn repeat_db_round_trip_and_labels() {
    for r in Repeat::all() {
        assert_eq!(Repeat::from_db_str(r.to_db_str()), Some(r));
        assert_eq!(Repeat::of(&r), r);
    }
    assert_eq!(Repeat::Weekly.to_db_str(), "weekly_same_day");
    assert_eq!(Repeat::Weekends.label(), "Weekends (Sat-Sun)");
    assert_eq!(Repeat::from_db_str("weekly"), None);
    assert_eq!(Repeat::icon(), "\u{27f3}");
}
