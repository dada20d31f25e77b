use orivo::kinds::key::{Key, KeyCode};
use orivo::tabs::active::ActiveTab;
use orivo::ui::workspace::{
    list_title, todo_row_text, DbCall, Focus, Mode, Project, TodoFilter, TodoRow, UiAction, UiApp,
};

const TODAY: (i32, u32, u32) = (2024, 12, 31);

fn k(c: char) -> Key {
    Key { code: KeyCode::Char(c), ctrl: false }
}

fn code(code: KeyCode) -> Key {
    Key { code, ctrl: false }
}

fn press(app: &mut UiApp, key: Key) -> UiAction {
    app.handle_key_on(key, TODAY)
}

fn type_text(app: &mut UiApp, text: &str) {
    for c in text.chars() {
        assert!(matches!(press(app, k(c)), UiAction::NoAction));
    }
}

fn rows() -> Vec<TodoRow> {
    vec![
        TodoRow { id: 10, due_date: None },
        TodoRow { id: 11, due_date: Some("2025-03-04".to_string()) },
        TodoRow { id: 12, due_date: None },
    ]
}

#[test]
fn workspace_starts_on_timer_tab() {
    let app = UiApp::new(Some(7));
    assert_eq!(app.tab(), ActiveTab::Timer);
    assert_eq!(app.focus(), Focus::Sidebar);
    assert_eq!(app.mode(), Mode::Normal);
    assert_eq!(app.sidebar_index(), 0);
    assert_eq!(app.todo_index(), 0);
    assert!(!app.show_completed());
    assert_eq!(app.input(), "");
    assert!(app.message().is_none());
    assert_eq!(app.active_todo_id(), Some(7));
    assert_eq!(app.sidebar_len(), 2);
}

#[test]
fn workspace_timer_keys() {
    let mut app = UiApp::new(Some(7));
    assert!(matches!(press(&mut app, k(' ')), UiAction::ToggleTimer));
    assert!(matches!(press(&mut app, k('s')), UiAction::SkipTimer));
    assert!(matches!(press(&mut app, k('r')), UiAction::ResetTimer));
    assert!(matches!(press(&mut app, k('x')), UiAction::NoAction));
    assert!(matches!(press(&mut app, k('u')), UiAction::ClearActiveTodo));
    assert_eq!(app.active_todo_id(), None);
    assert!(matches!(press(&mut app, code(KeyCode::Tab)), UiAction::NoAction));
    assert_eq!(app.tab(), ActiveTab::Todos);
    press(&mut app, k('1'));
    assert_eq!(app.tab(), ActiveTab::Timer);
    press(&mut app, k('2'));
    assert_eq!(app.tab(), ActiveTab::Todos);
    press(&mut app, code(KeyCode::Tab));
    assert_eq!(app.tab(), ActiveTab::Timer);
}

#[test]
fn workspace_sidebar_moves_and_filters() {
    let mut app = UiApp::new(None);
    press(&mut app, k('2'));
    app.set_projects(vec![100, 200]);
    assert_eq!(app.sidebar_len(), 4);
    match app.current_filter_on(TODAY) {
        TodoFilter::Today { date, show_completed } => {
            assert_eq!(date, "2024-12-31");
            assert!(!show_completed);
        }
        _ => panic!("expected today's filter"),
    }
    assert!(matches!(press(&mut app, k('k')), UiAction::RefreshTodos));
    assert_eq!(app.sidebar_index(), 0);
    assert!(matches!(press(&mut app, k('j')), UiAction::RefreshTodos));
    assert!(matches!(app.current_filter_on(TODAY), TodoFilter::Index { show_completed: false }));
    assert!(matches!(press(&mut app, code(KeyCode::Down)), UiAction::RefreshTodos));
    assert!(matches!(
        app.current_filter_on(TODAY),
        TodoFilter::Project { project_id: 100, show_completed: false }
    ));
    assert_eq!(app.current_project_id_for_new_todo(), Some(100));
    press(&mut app, k('j'));
    press(&mut app, k('j'));
    assert_eq!(app.sidebar_index(), 3);
    assert!(matches!(press(&mut app, k('c')), UiAction::RefreshTodos));
    assert!(app.show_completed());
    assert!(matches!(
        app.current_filter_on(TODAY),
        TodoFilter::Project { project_id: 200, show_completed: true }
    ));
    app.set_projects(vec![100]);
    assert_eq!(app.sidebar_index(), 2);
    app.set_projects(vec![]);
    assert_eq!(app.sidebar_index(), 1);
    assert_eq!(app.current_project_id_for_new_todo(), None);
}

#[test]
fn workspace_list_keys() {
    let mut app = UiApp::new(None);
    press(&mut app, k('2'));
    app.set_todos(rows());
    assert!(matches!(press(&mut app, k('l')), UiAction::NoAction));
    assert_eq!(app.focus(), Focus::List);
    press(&mut app, k('j'));
    press(&mut app, k('j'));
    press(&mut app, k('j'));
    assert_eq!(app.todo_index(), 2);
    press(&mut app, code(KeyCode::Up));
    assert_eq!(app.todo_index(), 1);
    assert!(matches!(press(&mut app, code(KeyCode::Enter)), UiAction::SetActiveTodo(11)));
    assert_eq!(app.active_todo_id(), Some(11));
    assert!(matches!(press(&mut app, k('x')), UiAction::ToggleTodo(11)));
    assert!(matches!(press(&mut app, k('d')), UiAction::NoAction));
    assert_eq!(app.mode(), Mode::EditDueDate { todo_id: 11 });
    assert_eq!(app.input(), "2025-03-04");
    press(&mut app, code(KeyCode::Esc));
    press(&mut app, k('k'));
    press(&mut app, k('d'));
    assert_eq!(app.mode(), Mode::EditDueDate { todo_id: 10 });
    assert_eq!(app.input(), "2024-12-31");
    press(&mut app, code(KeyCode::Esc));
    app.set_todos(vec![]);
    assert_eq!(app.todo_index(), 0);
    assert!(matches!(press(&mut app, code(KeyCode::Enter)), UiAction::NoAction));
    assert!(matches!(press(&mut app, k('h')), UiAction::NoAction));
    assert_eq!(app.focus(), Focus::Sidebar);
}

#[test]
fn workspace_set_todos_clamps_selection() {
    let mut app = UiApp::new(None);
    press(&mut app, k('2'));
    press(&mut app, k('l'));
    app.set_todos(rows());
    press(&mut app, k('j'));
    press(&mut app, k('j'));
    assert_eq!(app.todo_index(), 2);
    app.set_todos(vec![TodoRow { id: 1, due_date: None }, TodoRow { id: 2, due_date: None }]);
    assert_eq!(app.todo_index(), 1);
}

#[test]
fn workspace_adds_project_and_todo() {
    let mut app = UiApp::new(None);
    press(&mut app, k('2'));
    assert!(matches!(press(&mut app, k('p')), UiAction::NoAction));
    assert_eq!(app.mode(), Mode::AddProject);
    type_text(&mut app, "  Home  ");
    match press(&mut app, code(KeyCode::Enter)) {
        UiAction::CreateProject(name) => assert_eq!(name, "Home"),
        _ => panic!("expected a new project"),
    }
    assert_eq!(app.mode(), Mode::Normal);
    assert_eq!(app.input(), "");
    app.set_projects(vec![5]);
    press(&mut app, k('j'));
    press(&mut app, k('j'));
    press(&mut app, k('a'));
    assert_eq!(app.mode(), Mode::AddTodo);
    type_text(&mut app, "buy milk tomorrow");
    match press(&mut app, code(KeyCode::Enter)) {
        UiAction::CreateTodo { project_id, title, due_date } => {
            assert_eq!(project_id, Some(5));
            assert_eq!(title, "buy milk");
            assert_eq!(due_date.as_deref(), Some("2025-01-01"));
        }
        _ => panic!("expected a new todo"),
    }
    press(&mut app, k('a'));
    type_text(&mut app, "read 2025-02-03");
    match press(&mut app, code(KeyCode::Enter)) {
        UiAction::CreateTodo { title, due_date, .. } => {
            assert_eq!(title, "read");
            assert_eq!(due_date.as_deref(), Some("2025-02-03"));
        }
        _ => panic!("expected a new todo"),
    }
}

#[test]
fn workspace_blank_input_is_dropped() {
    let mut app = UiApp::new(None);
    press(&mut app, k('2'));
    press(&mut app, k('a'));
    type_text(&mut app, "   ");
    assert!(matches!(press(&mut app, code(KeyCode::Enter)), UiAction::NoAction));
    assert_eq!(app.mode(), Mode::Normal);
    press(&mut app, k('p'));
    assert!(matches!(press(&mut app, code(KeyCode::Enter)), UiAction::NoAction));
    assert_eq!(app.mode(), Mode::Normal);
}

#[test]
fn workspace_input_editing_keys() {
    let mut app = UiApp::new(None);
    press(&mut app, k('2'));
    press(&mut app, k('a'));
    type_text(&mut app, "ab");
    press(&mut app, Key { code: KeyCode::Char('c'), ctrl: true });
    assert_eq!(app.input(), "ab");
    press(&mut app, code(KeyCode::Backspace));
    assert_eq!(app.input(), "a");
    press(&mut app, code(KeyCode::Backspace));
    press(&mut app, code(KeyCode::Backspace));
    assert_eq!(app.input(), "");
    type_text(&mut app, "12");
    assert_eq!(app.tab(), ActiveTab::Todos);
    assert_eq!(app.input(), "12");
    assert!(matches!(press(&mut app, code(KeyCode::Esc)), UiAction::NoAction));
    assert_eq!(app.mode(), Mode::Normal);
    assert_eq!(app.input(), "");
}

#[test]
fn workspace_due_date_edit() {
    let mut app = UiApp::new(None);
    press(&mut app, k('2'));
    press(&mut app, k('l'));
    app.set_todos(rows());
    press(&mut app, k('d'));
    for _ in 0..10 {
        press(&mut app, code(KeyCode::Backspace));
    }
    type_text(&mut app, "soon");
    assert!(matches!(press(&mut app, code(KeyCode::Enter)), UiAction::NoAction));
    assert_eq!(app.mode(), Mode::EditDueDate { todo_id: 10 });
    assert_eq!(app.input(), "soon");
    assert_eq!(
        app.message().map(|m| m.as_str()),
        Some("due date: expected YYYY-MM-DD, today, tomorrow, or empty")
    );
    for _ in 0..4 {
        press(&mut app, code(KeyCode::Backspace));
    }
    type_text(&mut app, "Today");
    match press(&mut app, code(KeyCode::Enter)) {
        UiAction::SetDueDate { todo_id, due_date } => {
            assert_eq!(todo_id, 10);
            assert_eq!(due_date.as_deref(), Some("2024-12-31"));
        }
        _ => panic!("expected a due date"),
    }
    press(&mut app, k('d'));
    for _ in 0..10 {
        press(&mut app, code(KeyCode::Backspace));
    }
    type_text(&mut app, "clear");
    assert!(matches!(
        press(&mut app, code(KeyCode::Enter)),
        UiAction::SetDueDate { todo_id: 10, due_date: None }
    ));
    app.set_message("db: failed".to_string());
    assert_eq!(app.message().map(|m| m.as_str()), Some("db: failed"));
}

#[test]
fn workspace_due_date_editor_keeps_its_start() {
    let mut app = UiApp::new(None);
    press(&mut app, k('2'));
    press(&mut app, k('l'));
    app.set_todos(rows());
    press(&mut app, k('j'));
    press(&mut app, k('d'));
    assert!(matches!(
        press(&mut app, code(KeyCode::Enter)),
        UiAction::SetDueDate { todo_id: 11, due_date: Some(ref d) } if d == "2025-03-04"
    ));
    press(&mut app, k('k'));
    press(&mut app, k('d'));
    assert!(matches!(
        press(&mut app, code(KeyCode::Enter)),
        UiAction::SetDueDate { todo_id: 10, due_date: Some(ref d) } if d == "2024-12-31"
    ));
    assert_eq!(app.mode(), Mode::Normal);
}

#[test]
fn workspace_row_and_title_texts() {
    assert_eq!(todo_row_text(true, false, "buy milk", Some("2024-05-01"), 3900), "> [ ] buy milk 2024-05-01  1h05m");
    assert_eq!(todo_row_text(false, true, "read", None, 0), "  [x] read");
    assert_eq!(todo_row_text(false, false, "walk", None, 59), "  [ ] walk  0m");
    let projects = vec![
        Project { id: 3, name: "Home".to_string() },
        Project { id: 5, name: "Work".to_string() },
        Project { id: 5, name: "Work (old)".to_string() },
    ];
    let today = TodoFilter::Today { date: "2024-12-31".to_string(), show_completed: false };
    assert_eq!(list_title(&today, &projects), "Today (2024-12-31)");
    assert_eq!(list_title(&TodoFilter::Index { show_completed: true }, &projects), "Index");
    let work = TodoFilter::Project { project_id: 5, show_completed: false };
    assert_eq!(list_title(&work, &projects), "Work");
    let gone = TodoFilter::Project { project_id: -1, show_completed: false };
    assert_eq!(list_title(&gone, &projects), "Project");
}

#[test]
fn workspace_failure_messages() {
    let mut app = UiApp::new(None);
    app.db_failed(DbCall::CreateTodo, "disk full");
    assert_eq!(app.message().map(|m| m.as_str()), Some("db: failed to create todo: disk full"));
    app.db_failed(DbCall::ListProjects, "locked");
    assert_eq!(app.message().map(|m| m.as_str()), Some("db: failed to list projects: locked"));
    app.db_failed(DbCall::SetDueDate, "x");
    assert_eq!(app.message().map(|m| m.as_str()), Some("db: failed to set due date: x"));
    app.db_failed(DbCall::InsertSession, "y");
    assert_eq!(app.message().map(|m| m.as_str()), Some("db: failed to insert session: y"));
}
