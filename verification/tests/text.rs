use orivo::ui::{
    format_work, looks_like_date, parse_due_date_on, parse_todo_input_on, today_string, PhaseLabel,
    StatusIndicator, TimerDisplay,
};
use orivo::text::{eq_ignore_ascii_case, rsplit_once_space, str_eq, trim};
use orivo::timer::{Phase, TimerState};
use orivo::kinds::accent::Accent;

#[test]
fn trimming_and_splitting() {
    assert_eq!(trim("  buy milk \t\n"), "buy milk");
    assert_eq!(trim("\u{3000}x\u{a0}"), "x");
    assert_eq!(trim("   "), "");
    assert_eq!(rsplit_once_space("a b c"), Some(("a b", "c")));
    assert_eq!(rsplit_once_space("abc"), None);
    assert_eq!(rsplit_once_space("abc "), Some(("abc", "")));
    assert!(eq_ignore_ascii_case("ToDaY", "today"));
    assert!(!eq_ignore_ascii_case("todays", "today"));
    assert!(str_eq("abc", "abc"));
    assert!(!str_eq("abc", "abd"));
    for s in ["  buy milk \t\n", "\u{2003}a b\u{2029}", "", " x"] {
        assert_eq!(trim(s), s.trim());
    }
}

#[test]
fn date_shape() {
    assert!(looks_like_date("2024-05-01"));
    assert!(looks_like_date("0000-99-99"));
    assert!(!looks_like_date("2024-5-01"));
    assert!(!looks_like_date("2024/05/01"));
    assert!(!looks_like_date("2024-05-011"));
    assert!(!looks_like_date("２０２４-05-01"));
    let today = today_string();
    assert!(looks_like_date(&today));
    assert_eq!(parse_due_date_on(&today, (2024, 2, 28)), Ok(Some(today.clone())));
    assert_eq!(parse_due_date_on("0001-02-03", (2024, 2, 28)), Ok(Some("0001-02-03".to_string())));
}

#[test]
fn due_date_inputs() {
    let today = (2024, 2, 28);
    assert_eq!(parse_due_date_on("", today), Ok(None));
    assert_eq!(parse_due_date_on("  None ", today), Ok(None));
    assert_eq!(parse_due_date_on("clear", today), Ok(None));
    assert_eq!(parse_due_date_on("Today", today), Ok(Some("2024-02-28".to_string())));
    assert_eq!(parse_due_date_on("tomorrow", today), Ok(Some("2024-02-29".to_string())));
    assert_eq!(parse_due_date_on("tomorrow", (2023, 12, 31)), Ok(Some("2024-01-01".to_string())));
    assert_eq!(parse_due_date_on(" 2025-01-02 ", today), Ok(Some("2025-01-02".to_string())));
    assert_eq!(
        parse_due_date_on("next week", today),
        Err("due date: expected YYYY-MM-DD, today, tomorrow, or empty".to_string())
    );
}

#[test]
fn todo_inputs() {
    let today = (2024, 2, 28);
    assert_eq!(
        parse_todo_input_on("  buy milk 2024-03-01 ", today),
        ("buy milk".to_string(), Some("2024-03-01".to_string()))
    );
    assert_eq!(
        parse_todo_input_on("call mom tomorrow", today),
        ("call mom".to_string(), Some("2024-02-29".to_string()))
    );
    assert_eq!(parse_todo_input_on("read a book", today), ("read a book".to_string(), None));
    assert_eq!(parse_todo_input_on("single", today), ("single".to_string(), None));
    assert_eq!(parse_todo_input_on("  ", today), ("".to_string(), None));
}

#[test]
fn work_and_clock_formatting() {
    assert_eq!(format_work(0), "0m");
    assert_eq!(format_work(59), "0m");
    assert_eq!(format_work(42 * 60 + 5), "42m");
    assert_eq!(format_work(3900), "1h05m");
    assert_eq!(format_work(36000), "10h00m");
    let d = TimerDisplay { remaining_secs: 65, status: TimerState::Paused };
    assert_eq!(d.text(), "01:05");
    assert_eq!(d.color(), Accent::DarkGray);
    let d = TimerDisplay { remaining_secs: 6000, status: TimerState::Running };
    assert_eq!(d.text(), "100:00");
    assert_eq!(d.color(), Accent::White);
    assert_eq!(StatusIndicator { status: TimerState::Running }.text(), "\u{25cf} Running");
    assert_eq!(PhaseLabel { phase: Phase::LongBreak }.color(), Accent::Blue);
}
