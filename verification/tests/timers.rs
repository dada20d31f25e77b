use orivo::kinds::accent::Accent;
use orivo::kinds::key::{Key, KeyCode};
use orivo::tabs::timer::{TimerTab, TimerTabEffect};
use orivo::config::{Config, TimerConfig};
use orivo::kinds::phase::Phase as CyclePhase;
use orivo::state::State;
use orivo::states::timer::TimerState as RuntimeTimer;
use orivo::timer::{Phase, Timer, TimerState};

fn config() -> Config {
    Config {
        work_session_duration: 25,
        break_session_duration: 5,
        long_break_session_duration: 15,
        long_break_session_interval: 4,
    }
}

#[test]
fn standalone_timer_cycle_of_four() {
    let mut t = Timer::new(config(), None);
    assert_eq!(t.phase, Phase::Work);
    assert_eq!(t.remaining_secs, 1500);
    assert_eq!(t.state, TimerState::Paused);
    let mut phases = vec![];
    for _ in 0..8 {
        t.skip();
        phases.push(t.phase);
    }
    assert_eq!(
        phases,
        vec![
            Phase::Break,
            Phase::Work,
            Phase::Break,
            Phase::Work,
            Phase::Break,
            Phase::Work,
            Phase::LongBreak,
            Phase::Work
        ]
    );
    assert_eq!(t.sessions_completed, 4);
    t.skip();
    assert_eq!(t.remaining_secs, 300);
}

#[test]
fn standalone_timer_ticks() {
    let mut t = Timer::new(config(), None);
    t.tick();
    assert_eq!(t.remaining_secs, 1500);
    t.toggle_pause();
    assert_eq!(t.state, TimerState::Running);
    t.tick();
    t.tick();
    assert_eq!(t.remaining_secs, 1498);
    t.remaining_secs = 0;
    t.tick();
    assert_eq!(t.phase, Phase::Break);
    assert_eq!(t.remaining_secs, 300);
    assert_eq!(t.state, TimerState::Paused);
    t.remaining_secs = 17;
    t.reset();
    assert_eq!(t.remaining_secs, 300);
    assert_eq!(t.total_secs(), 300);
    t.toggle_pause();
    t.toggle_pause();
    assert_eq!(t.state, TimerState::Paused);
}

#[test]
fn standalone_timer_resumes_saved_state() {
    let saved = State { phase: Phase::LongBreak, remaining_secs: 42, sessions_completed: 8 };
    let t = Timer::new(config(), Some(saved));
    assert_eq!(t.phase, Phase::LongBreak);
    assert_eq!(t.remaining_secs, 42);
    assert_eq!(t.sessions_completed, 8);
    let s = State::of_timer(&t);
    assert_eq!(s.remaining_secs, 42);
    assert_eq!(Phase::Work.label(), "Work");
}

#[test]
fn runtime_timer_counts_down_on_the_clock() {
    let c = TimerConfig::new(false, 1, 1, 2, 2, 4).unwrap();
    let mut t = RuntimeTimer::new(c);
    assert_eq!(t.current_millis(0), 60_000);
    t.toggle_running(1_000);
    assert!(t.is_running());
    assert_eq!(t.current_millis(11_000), 50_000);
    t.toggle_running(21_000);
    assert!(!t.is_running());
    assert_eq!(t.current_millis(99_000), 40_000);
    t.toggle_running(100_000);
    assert!(t.tick(139_999).is_none());
    let s = t.tick(140_000).expect("the work session ends");
    assert_eq!(s.phase, "work");
    assert_eq!(s.duration_secs, 60);
    assert!(s.completed_at.is_some());
    assert!(*t.cycle_phase() == CyclePhase::Break);
    assert_eq!(t.sessions_count(), 1);
    assert!(!t.is_running());
    assert_eq!(t.current_millis(0), 60_000);
}

#[test]
fn runtime_timer_long_break_after_interval() {
    let c = TimerConfig::new(false, 1, 1, 2, 2, 4).unwrap();
    let mut t = RuntimeTimer::new(c);
    t.set_todo_id(Some(7));
    t.advance();
    assert!(*t.cycle_phase() == CyclePhase::Break);
    t.advance();
    let s = t.advance();
    assert_eq!(s.todo_id, Some(7));
    assert!(*t.cycle_phase() == CyclePhase::LongBreak);
    assert_eq!(t.current_millis(0), 120_000);
    t.toggle_running(0);
    t.reset();
    assert!(!t.is_running());
    assert_eq!(t.current_millis(5), 120_000);
    t.toggle_show_millis();
    assert!(t.show_millis());
}

#[test]
fn timer_tab_keys() {
    let k = |c: char| Key { code: KeyCode::Char(c), ctrl: false };
    let mut tab = TimerTab::new(TimerConfig::default_config());
    assert_eq!(tab.name(), "Timer [^y]");
    assert_eq!(tab.color(), Accent::Red);
    assert!(matches!(tab.handle(k(' '), 1_000), TimerTabEffect::NoEffect));
    assert!(tab.state().is_running());
    assert_eq!(tab.state().current_millis(61_000), 1_440_000);
    assert!(matches!(tab.handle(k(' '), 61_000), TimerTabEffect::NoEffect));
    assert!(!tab.state().is_running());
    assert!(matches!(tab.handle(k('r'), 62_000), TimerTabEffect::NoEffect));
    assert_eq!(tab.state().current_millis(62_000), 1_500_000);
    assert!(matches!(tab.handle(k('m'), 0), TimerTabEffect::NoEffect));
    assert!(tab.state().show_millis());
    assert!(matches!(tab.handle(k('t'), 0), TimerTabEffect::OpenPicker));
    assert!(tab.picker_open());
    assert!(matches!(tab.handle(k('n'), 0), TimerTabEffect::ForPicker));
    tab.picker_select(9);
    assert!(!tab.picker_open());
    assert_eq!(tab.state().todo_id(), Some(9));
    match tab.handle(k('n'), 0) {
        TimerTabEffect::Skipped(s) => {
            assert_eq!(s.phase, "work");
            assert_eq!(s.duration_secs, 1500);
            assert_eq!(s.todo_id, Some(9));
        }
        _ => panic!("expected a skipped session"),
    }
    assert_eq!(tab.state().cycle_phase(), &CyclePhase::Break);
    assert_eq!(tab.color(), Accent::Green);
    assert!(matches!(tab.handle(k('T'), 0), TimerTabEffect::NoEffect));
    assert_eq!(tab.state().todo_id(), None);
    assert!(matches!(tab.handle(k('d'), 0), TimerTabEffect::NoEffect));
    assert!(tab.reduce_open());
    assert!(matches!(tab.handle(k(' '), 0), TimerTabEffect::ForReduce));
    assert!(!tab.state().is_running());
    tab.reduce_picker_cancel();
    assert!(!tab.reduce_open());
    assert!(matches!(tab.handle(k('t'), 0), TimerTabEffect::OpenPicker));
    tab.picker_cancel();
    assert!(!tab.picker_open());
    assert!(matches!(tab.handle(k('z'), 0), TimerTabEffect::NoEffect));
}

#[test]
fn standalone_timer_keys() {
    let mut t = Timer::new(config(), None);
    let key = |c: char| Key { code: KeyCode::Char(c), ctrl: false };
    assert!(!t.handle_key(key(' ')));
    assert_eq!(t.state, TimerState::Running);
    t.tick();
    assert_eq!(t.remaining_secs, 1499);
    assert!(!t.handle_key(key('r')));
    assert_eq!((t.remaining_secs, t.state), (1500, TimerState::Paused));
    assert!(!t.handle_key(key('s')));
    assert_eq!((t.phase, t.remaining_secs, t.sessions_completed), (Phase::Break, 300, 1));
    assert!(!t.handle_key(key('c')));
    assert!(!t.handle_key(key('x')));
    assert_eq!(t.phase, Phase::Break);
    assert!(t.handle_key(Key { code: KeyCode::Char('c'), ctrl: true }));
    assert!(t.handle_key(key('q')));
    assert_eq!((t.phase, t.remaining_secs), (Phase::Break, 300));
}
