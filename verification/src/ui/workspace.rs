//! The state of the two-tab workspace (timer and todos with a project sidebar)
//! and how key presses change it.
//!
//! The workspace does no I/O itself: a key press changes its state and returns
//! a [`UiAction`] naming the database or timer work the caller must do, after
//! which the caller hands back fresh lists with [`UiApp::set_projects`] and
//! [`UiApp::set_todos`].
use vstd::prelude::*;
use vstd::string::*;

use crate::kinds::key::{Key, KeyCode};
use crate::tabs::active::ActiveTab;
use crate::text::{pop_char, push_char, trim, trim_spec};
use crate::ui::{
    format_work, work_text, chrono_date, chrono_format_ymd, chrono_local_today, date_like, due_date_spec,
    lemma_date_like_trimmed, lemma_date_text_reads_back, lemma_ymd_text_date_like,
    parse_due_date_on, parse_todo_input_on, todo_input_spec, ymd_text,
};

verus! {

/// Which pane of the todos tab has the keyboard.
#[derive(Clone, Copy, Debug, PartialEq, Eq, Structural)]
pub enum Focus {
    /// The list of views and projects.
    Sidebar,
    /// The list of todos.
    List,
}

/// What key presses are typed into.
#[derive(Clone, Copy, Debug, PartialEq, Eq, Structural)]
pub enum Mode {
    /// Keys are commands.
    Normal,
    /// Keys type a new todo.
    AddTodo,
    /// Keys type a new project.
    AddProject,
    /// Keys type the due date of a todo.
    EditDueDate {
        /// The todo whose due date is edited.
        todo_id: i64,
    },
}

/// A todo of the list, as far as key handling reads it.
#[derive(Clone, Debug)]
pub struct TodoRow {
    /// Database id.
    pub id: i64,
    /// Due date as `YYYY-MM-DD`, if any.
    pub due_date: Option<String>,
}

/// The view of an optional string.
pub open spec fn opt_text(o: Option<String>) -> Option<Seq<char>> {
    match o {
        Some(s) => Some(s@),
        None => None,
    }
}

impl View for TodoRow {
    type V = (i64, Option<Seq<char>>);

    open spec fn view(&self) -> (i64, Option<Seq<char>>) {
        (self.id, opt_text(self.due_date))
    }
}

/// Which todos the list shows.
#[derive(Clone, Debug)]
pub enum TodoFilter {
    /// Todos due on the given date.
    Today {
        /// The date, as `YYYY-MM-DD`.
        date: String,
        /// Whether done todos are listed too.
        show_completed: bool,
    },
    /// All todos.
    Index {
        /// Whether done todos are listed too.
        show_completed: bool,
    },
    /// The todos of one project.
    Project {
        /// The project's id (`-1` when the sidebar points past the projects).
        project_id: i64,
        /// Whether done todos are listed too.
        show_completed: bool,
    },
}

/// The work a key press leaves to the caller.
#[derive(Clone, Debug)]
pub enum UiAction {
    /// Nothing.
    NoAction,
    /// Start or pause the timer.
    ToggleTimer,
    /// Skip to the next phase of the timer, recording finished work.
    SkipTimer,
    /// Restart the current phase of the timer.
    ResetTimer,
    /// Store that no todo is active.
    ClearActiveTodo,
    /// Store that the given todo is active.
    SetActiveTodo(i64),
    /// List the todos again with the current filter.
    RefreshTodos,
    /// Toggle the done state of the given todo, then list the todos again.
    ToggleTodo(i64),
    /// Create a project with the given name, then list projects and todos again.
    CreateProject(String),
    /// Create a todo, then list the todos again.
    CreateTodo {
        /// The project it belongs to, if any.
        project_id: Option<i64>,
        /// Its title.
        title: String,
        /// Its due date, if any.
        due_date: Option<String>,
    },
    /// Set or clear the due date of a todo, then list the todos again.
    SetDueDate {
        /// The todo.
        todo_id: i64,
        /// The new due date, `None` to clear it.
        due_date: Option<String>,
    },
}

/// The abstract value of a [`UiAction`], with strings as character sequences.
pub enum ActionModel {
    /// Nothing.
    NoAction,
    /// Start or pause the timer.
    ToggleTimer,
    /// Skip to the next phase of the timer.
    SkipTimer,
    /// Restart the current phase of the timer.
    ResetTimer,
    /// No todo is active.
    ClearActiveTodo,
    /// The given todo is active.
    SetActiveTodo(i64),
    /// List the todos again.
    RefreshTodos,
    /// Toggle the done state of a todo.
    ToggleTodo(i64),
    /// Create a project.
    CreateProject(Seq<char>),
    /// Create a todo in a project, with a title and a due date.
    CreateTodo(Option<i64>, Seq<char>, Option<Seq<char>>),
    /// Set or clear the due date of a todo.
    SetDueDate(i64, Option<Seq<char>>),
}

impl View for UiAction {
    type V = ActionModel;

    open spec fn view(&self) -> ActionModel {
        match self {
            UiAction::NoAction => ActionModel::NoAction,
            UiAction::ToggleTimer => ActionModel::ToggleTimer,
            UiAction::SkipTimer => ActionModel::SkipTimer,
            UiAction::ResetTimer => ActionModel::ResetTimer,
            UiAction::ClearActiveTodo => ActionModel::ClearActiveTodo,
            UiAction::SetActiveTodo(id) => ActionModel::SetActiveTodo(*id),
            UiAction::RefreshTodos => ActionModel::RefreshTodos,
            UiAction::ToggleTodo(id) => ActionModel::ToggleTodo(*id),
            UiAction::CreateProject(name) => ActionModel::CreateProject(name@),
            UiAction::CreateTodo { project_id, title, due_date } => ActionModel::CreateTodo(
                *project_id,
                title@,
                opt_text(*due_date),
            ),
            UiAction::SetDueDate { todo_id, due_date } => ActionModel::SetDueDate(
                *todo_id,
                opt_text(*due_date),
            ),
        }
    }
}

/// The abstract state of the workspace.
pub struct UiModel {
    /// The tab shown.
    pub tab: ActiveTab,
    /// Ids of the projects, in sidebar order.
    pub projects: Seq<i64>,
    /// The todos listed: id and due date.
    pub todos: Seq<(i64, Option<Seq<char>>)>,
    /// The pane with the keyboard.
    pub focus: Focus,
    /// Selected sidebar entry: 0 today, 1 index, then the projects.
    pub sidebar_index: int,
    /// Selected todo.
    pub todo_index: int,
    /// Whether done todos are listed.
    pub show_completed: bool,
    /// What keys are typed into.
    pub mode: Mode,
    /// The text typed so far.
    pub input: Seq<char>,
    /// The last error to show, if any.
    pub message: Option<Seq<char>>,
    /// The todo that worked time is recorded for, if any.
    pub active_todo_id: Option<i64>,
}

/// The state of the two-tab workspace.
pub struct UiApp {
    tab: ActiveTab,
    projects: Vec<i64>,
    todos: Vec<TodoRow>,
    focus: Focus,
    sidebar_index: usize,
    todo_index: usize,
    show_completed: bool,
    mode: Mode,
    input: String,
    message: Option<String>,
    active_todo_id: Option<i64>,
}

impl View for UiApp {
    type V = UiModel;

    closed spec fn view(&self) -> UiModel {
        UiModel {
            tab: self.tab,
            projects: self.projects@,
            todos: self.todos@.map_values(|t: TodoRow| t@),
            focus: self.focus,
            sidebar_index: self.sidebar_index as int,
            todo_index: self.todo_index as int,
            show_completed: self.show_completed,
            mode: self.mode,
            input: self.input@,
            message: opt_text(self.message),
            active_todo_id: self.active_todo_id,
        }
    }
}

/// One less, but not below zero.
pub open spec fn dec_sat(i: int) -> int {
    if i > 0 {
        i - 1
    } else {
        0
    }
}

/// Index of the last sidebar entry: the two views, then the projects.
pub open spec fn sidebar_last(m: UiModel) -> int {
    m.projects.len() + 1int
}

/// The project a new todo goes to: the one selected in the sidebar, if any.
pub open spec fn project_for_new_todo(m: UiModel) -> Option<i64> {
    if m.sidebar_index >= 2 && m.sidebar_index - 2 < m.projects.len() {
        Some(m.projects[m.sidebar_index - 2])
    } else {
        None
    }
}

/// Tab, `1` and `2` switch tabs.
pub open spec fn global_step(m: UiModel, key: Key) -> UiModel {
    match key.code {
        KeyCode::Tab => UiModel {
            tab: match m.tab {
                ActiveTab::Timer => ActiveTab::Todos,
                ActiveTab::Todos => ActiveTab::Timer,
            },
            ..m
        },
        KeyCode::Char('1') => UiModel { tab: ActiveTab::Timer, ..m },
        KeyCode::Char('2') => UiModel { tab: ActiveTab::Todos, ..m },
        _ => m,
    }
}

/// Timer tab keys: Space starts or pauses, `s` skips, `r` resets, `u` clears
/// the active todo.
pub open spec fn timer_step(m: UiModel, key: Key) -> (UiModel, ActionModel) {
    match key.code {
        KeyCode::Char(' ') => (m, ActionModel::ToggleTimer),
        KeyCode::Char('s') => (m, ActionModel::SkipTimer),
        KeyCode::Char('r') => (m, ActionModel::ResetTimer),
        KeyCode::Char('u') => (UiModel { active_todo_id: None, ..m }, ActionModel::ClearActiveTodo),
        _ => (m, ActionModel::NoAction),
    }
}

/// Sidebar keys: Up/`k` and Down/`j` move through the views and projects and
/// select the first todo of the new list.
pub open spec fn sidebar_step(m: UiModel, key: Key) -> (UiModel, ActionModel) {
    match key.code {
        KeyCode::Up | KeyCode::Char('k') => (
            UiModel { sidebar_index: dec_sat(m.sidebar_index), todo_index: 0, ..m },
            ActionModel::RefreshTodos,
        ),
        KeyCode::Down | KeyCode::Char('j') => (
            UiModel {
                sidebar_index: if m.sidebar_index + 1 < sidebar_last(m) {
                    m.sidebar_index + 1
                } else {
                    sidebar_last(m)
                },
                todo_index: 0,
                ..m
            },
            ActionModel::RefreshTodos,
        ),
        _ => (m, ActionModel::NoAction),
    }
}

/// Todo list keys: Up/`k` and Down/`j` move, Enter makes the selected todo
/// active, `x` toggles it done, `d` edits its due date (starting from its
/// date, or today's).
pub open spec fn list_step(m: UiModel, key: Key, today: (int, int, int)) -> (UiModel, ActionModel) {
    let n = m.todos.len();
    let i = m.todo_index;
    match key.code {
        KeyCode::Up | KeyCode::Char('k') => (UiModel { todo_index: dec_sat(i), ..m }, ActionModel::NoAction),
        KeyCode::Down | KeyCode::Char('j') => if n > 0 {
            (
                UiModel { todo_index: if i + 1 < n - 1 { i + 1 } else { n - 1 }, ..m },
                ActionModel::NoAction,
            )
        } else {
            (m, ActionModel::NoAction)
        },
        KeyCode::Enter => if i < n {
            (
                UiModel { active_todo_id: Some(m.todos[i].0), ..m },
                ActionModel::SetActiveTodo(m.todos[i].0),
            )
        } else {
            (m, ActionModel::NoAction)
        },
        KeyCode::Char('x') => if i < n {
            (m, ActionModel::ToggleTodo(m.todos[i].0))
        } else {
            (m, ActionModel::NoAction)
        },
        KeyCode::Char('d') => if i < n {
            (
                UiModel {
                    mode: Mode::EditDueDate { todo_id: m.todos[i].0 },
                    input: match m.todos[i].1 {
                        Some(d) => d,
                        None => ymd_text(today),
                    },
                    ..m
                },
                ActionModel::NoAction,
            )
        } else {
            (m, ActionModel::NoAction)
        },
        _ => (m, ActionModel::NoAction),
    }
}

/// Todos tab keys: Left/`h` and Right/`l` move the focus, `c` shows or hides
/// done todos, `u` clears the active todo, `a` and `p` start typing a todo or a
/// project; other keys go to the pane with the focus.
pub open spec fn todos_step(m: UiModel, key: Key, today: (int, int, int)) -> (UiModel, ActionModel) {
    match key.code {
        KeyCode::Left | KeyCode::Char('h') => (UiModel { focus: Focus::Sidebar, ..m }, ActionModel::NoAction),
        KeyCode::Right | KeyCode::Char('l') => (UiModel { focus: Focus::List, ..m }, ActionModel::NoAction),
        KeyCode::Char('c') => (
            UiModel { show_completed: !m.show_completed, ..m },
            ActionModel::RefreshTodos,
        ),
        KeyCode::Char('u') => (UiModel { active_todo_id: None, ..m }, ActionModel::ClearActiveTodo),
        KeyCode::Char('a') => (
            UiModel { mode: Mode::AddTodo, input: Seq::empty(), ..m },
            ActionModel::NoAction,
        ),
        KeyCode::Char('p') => (
            UiModel { mode: Mode::AddProject, input: Seq::empty(), ..m },
            ActionModel::NoAction,
        ),
        _ => match m.focus {
            Focus::Sidebar => sidebar_step(m, key),
            Focus::List => list_step(m, key, today),
        },
    }
}

/// Back to command keys with an empty input.
pub open spec fn closed_input(m: UiModel) -> UiModel {
    UiModel { mode: Mode::Normal, input: Seq::empty(), ..m }
}

/// Keys while typing: Esc cancels, Backspace deletes, a character key (without
/// Control) types it, and Enter submits the trimmed text. A blank todo or
/// project is dropped; a due date that cannot be read leaves the input open
/// with the error as message.
pub open spec fn input_step(m: UiModel, key: Key, today: (int, int, int)) -> (UiModel, ActionModel) {
    match key.code {
        KeyCode::Esc => (closed_input(m), ActionModel::NoAction),
        KeyCode::Enter => {
            let text = trim_spec(m.input);
            match m.mode {
                Mode::AddProject => if text.len() == 0 {
                    (closed_input(m), ActionModel::NoAction)
                } else {
                    (closed_input(m), ActionModel::CreateProject(text))
                },
                Mode::AddTodo => if text.len() == 0 {
                    (closed_input(m), ActionModel::NoAction)
                } else {
                    let parsed = todo_input_spec(text, today);
                    (
                        closed_input(m),
                        ActionModel::CreateTodo(project_for_new_todo(m), parsed.0, parsed.1),
                    )
                },
                Mode::EditDueDate { todo_id } => match due_date_spec(text, today) {
                    Ok(d) => (closed_input(m), ActionModel::SetDueDate(todo_id, d)),
                    Err(msg) => (UiModel { message: Some(msg), ..m }, ActionModel::NoAction),
                },
                Mode::Normal => (closed_input(m), ActionModel::NoAction),
            }
        },
        KeyCode::Backspace => (
            UiModel {
                input: if m.input.len() > 0 {
                    m.input.drop_last()
                } else {
                    m.input
                },
                ..m
            },
            ActionModel::NoAction,
        ),
        KeyCode::Char(c) => if key.ctrl {
            (m, ActionModel::NoAction)
        } else {
            (UiModel { input: m.input.push(c), ..m }, ActionModel::NoAction)
        },
        _ => (m, ActionModel::NoAction),
    }
}

/// A key press: while typing it goes to the input; otherwise the tab keys are
/// read first and the key then goes to the tab shown.
pub open spec fn key_step(m: UiModel, key: Key, today: (int, int, int)) -> (UiModel, ActionModel) {
    match m.mode {
        Mode::Normal => {
            let g = global_step(m, key);
            match g.tab {
                ActiveTab::Timer => timer_step(g, key),
                ActiveTab::Todos => todos_step(g, key, today),
            }
        },
        _ => input_step(m, key, today),
    }
}

/// The first state: the timer tab, the sidebar on today's view, nothing listed
/// yet, command keys, and the given active todo.
pub open spec fn initial_model(active_todo_id: Option<i64>) -> UiModel {
    UiModel {
        tab: ActiveTab::Timer,
        projects: Seq::empty(),
        todos: Seq::empty(),
        focus: Focus::Sidebar,
        sidebar_index: 0,
        todo_index: 0,
        show_completed: false,
        mode: Mode::Normal,
        input: Seq::empty(),
        message: None,
        active_todo_id,
    }
}

/// The selections point at entries: the sidebar selection at one of the views
/// or projects, the todo selection at a todo (or at 0 when none is listed).
pub open spec fn selections_in_range(m: UiModel) -> bool {
    &&& 0 <= m.sidebar_index <= sidebar_last(m)
    &&& 0 <= m.todo_index <= dec_sat(m.todos.len() as int)
}

/// Key presses keep the selections on entries: no key moves the sidebar
/// selection past the last project or the todo selection past the last todo.
pub proof fn lemma_key_step_keeps_selections(m: UiModel, key: Key, today: (int, int, int))
    requires
        selections_in_range(m),
    ensures
        selections_in_range(key_step(m, key, today).0),
{
}

/// A fresh list of projects or todos keeps the selections on entries.
pub proof fn lemma_fresh_lists_keep_selections(
    m: UiModel,
    projects: Seq<i64>,
    todos: Seq<(i64, Option<Seq<char>>)>,
)
    requires
        0 <= m.sidebar_index,
        0 <= m.todo_index,
    ensures
        selections_in_range(
            UiModel {
                projects,
                todos,
                sidebar_index: if m.sidebar_index < projects.len() + 1int {
                    m.sidebar_index
                } else {
                    projects.len() + 1int
                },
                todo_index: if m.todo_index < dec_sat(todos.len() as int) {
                    m.todo_index
                } else {
                    dec_sat(todos.len() as int)
                },
                ..m
            },
        ),
{
}

/// Opening the due date editor on a todo and confirming at once keeps the
/// date it starts from: the todo's own date when it has one shaped
/// `YYYY-MM-DD`, today's date otherwise (for years 0 to 9999).
pub proof fn lemma_due_date_edit_keeps_date(m: UiModel, today: (int, int, int))
    requires
        m.mode == Mode::Normal,
        m.tab == ActiveTab::Todos,
        m.focus == Focus::List,
        0 <= m.todo_index < m.todos.len(),
        match m.todos[m.todo_index].1 {
            Some(d) => date_like(d),
            None => 0 <= today.0 <= 9999 && 1 <= today.1 <= 12 && 1 <= today.2 <= 31,
        },
    ensures
        ({
            let (m1, a1) = key_step(m, Key { code: KeyCode::Char('d'), ctrl: false }, today);
            let (m2, a2) = key_step(m1, Key { code: KeyCode::Enter, ctrl: false }, today);
            let start = match m.todos[m.todo_index].1 {
                Some(d) => d,
                None => ymd_text(today),
            };
            &&& a1 == ActionModel::NoAction
            &&& m1.input == start
            &&& a2 == ActionModel::SetDueDate(m.todos[m.todo_index].0, Some(start))
            &&& m2.mode == Mode::Normal
        }),
{
    let start = match m.todos[m.todo_index].1 {
        Some(d) => d,
        None => ymd_text(today),
    };
    if m.todos[m.todo_index].1 is None {
        lemma_ymd_text_date_like(today);
    }
    lemma_date_like_trimmed(start);
    lemma_date_text_reads_back(start, today);
}

/// Outside the input, Tab switches to the other tab and nothing else, so
/// pressing it twice comes back to the same state.
pub proof fn lemma_tab_twice(m: UiModel, today: (int, int, int))
    requires
        m.mode == Mode::Normal,
    ensures
        ({
            let tab = Key { code: KeyCode::Tab, ctrl: false };
            let (m1, a1) = key_step(m, tab, today);
            let (m2, a2) = key_step(m1, tab, today);
            &&& m1 == UiModel {
                tab: match m.tab {
                    ActiveTab::Timer => ActiveTab::Todos,
                    ActiveTab::Todos => ActiveTab::Timer,
                },
                ..m
            }
            &&& a1 == ActionModel::NoAction
            &&& m2 == m
            &&& a2 == ActionModel::NoAction
        }),
{
}

/// A database call of the workspace that can fail.
#[derive(Clone, Copy, Debug, PartialEq, Eq, Structural)]
pub enum DbCall {
    /// Listing the projects.
    ListProjects,
    /// Listing the todos.
    ListTodos,
    /// Creating a project.
    CreateProject,
    /// Creating a todo.
    CreateTodo,
    /// Setting a due date.
    SetDueDate,
    /// Recording a finished work session.
    InsertSession,
}

/// What a failed call was doing, as the message words it.
pub open spec fn db_call_text(call: DbCall) -> Seq<char> {
    match call {
        DbCall::ListProjects => "list projects"@,
        DbCall::ListTodos => "list todos"@,
        DbCall::CreateProject => "create project"@,
        DbCall::CreateTodo => "create todo"@,
        DbCall::SetDueDate => "set due date"@,
        DbCall::InsertSession => "insert session"@,
    }
}

/// The message shown after a failed database call: `db: failed to <what>: <error>`.
pub open spec fn failure_text(call: DbCall, error: Seq<char>) -> Seq<char> {
    "db: failed to "@ + db_call_text(call) + ": "@ + error
}

/// A project of the sidebar.
#[derive(Clone, Debug)]
pub struct Project {
    /// Database id.
    pub id: i64,
    /// Its name.
    pub name: String,
}

/// The line of a todo in the list: `>` for the active todo (a space
/// otherwise), its check box, its title, its due date after a space, and its
/// worked time after two spaces when there is any.
pub open spec fn row_text_spec(
    active: bool,
    done: bool,
    title: Seq<char>,
    due: Option<Seq<char>>,
    work_secs: nat,
) -> Seq<char> {
    (if active {
        ">"@
    } else {
        " "@
    }) + " "@ + (if done {
        "[x]"@
    } else {
        "[ ]"@
    }) + " "@ + title + (match due {
        Some(d) => " "@ + d,
        None => Seq::<char>::empty(),
    }) + (if work_secs > 0 {
        "  "@ + work_text(work_secs)
    } else {
        Seq::<char>::empty()
    })
}

/// Writes the line of a todo in the list (see `row_text_spec`).
pub fn todo_row_text(active: bool, done: bool, title: &str, due: Option<&str>, work_secs: u64) -> (r:
    String)
    ensures
        r@ == row_text_spec(
            active,
            done,
            title@,
            match due {
                Some(d) => Some(d@),
                None => None,
            },
            work_secs as nat,
        ),
{
    let mut out = String::from_str(
        if active {
            ">"
        } else {
            " "
        },
    );
    out.append(" ");
    out.append(
        if done {
            "[x]"
        } else {
            "[ ]"
        },
    );
    out.append(" ");
    out.append(title);
    if let Some(d) = due {
        out.append(" ");
        out.append(d);
    }
    if work_secs > 0 {
        out.append("  ");
        let w = format_work(work_secs);
        out.append(w.as_str());
    }
    proof {
        let ghost due_v: Option<Seq<char>> = match due {
            Some(d) => Some(d@),
            None => None,
        };
        assert(out@ =~= row_text_spec(active, done, title@, due_v, work_secs as nat));
    }
    out
}

/// The title of the todo list for a filter: today's list with its date, the
/// index, or the name of the first project with the filter's id (`Project`
/// when there is none).
pub fn list_title(filter: &TodoFilter, projects: &Vec<Project>) -> (r: String)
    ensures
        match filter {
            TodoFilter::Today { date, .. } => r@ == "Today ("@ + date@ + ")"@,
            TodoFilter::Index { .. } => r@ == "Index"@,
            TodoFilter::Project { project_id, .. } => {
                ||| exists|i: int|
                    0 <= i < projects@.len() && #[trigger] projects@[i].id == *project_id && (forall|
                        j: int,
                    | 0 <= j < i ==> projects@[j].id != *project_id) && r@ == projects@[i].name@
                ||| (forall|i: int| 0 <= i < projects@.len() ==> projects@[i].id != *project_id)
                    && r@ == "Project"@
            },
        },
{
    match filter {
        TodoFilter::Today { date, .. } => {
            let mut out = String::from_str("Today (");
            out.append(date.as_str());
            out.append(")");
            out
        },
        TodoFilter::Index { .. } => String::from_str("Index"),
        TodoFilter::Project { project_id, show_completed } => {
            let mut i: usize = 0;
            while i < projects.len()
                invariant
                    *filter == (TodoFilter::Project {
                        project_id: *project_id,
                        show_completed: *show_completed,
                    }),
                    i <= projects@.len(),
                    forall|j: int| 0 <= j < i ==> projects@[j].id != *project_id,
                decreases projects@.len() - i,
            {
                if projects[i].id == *project_id {
                    let name = projects[i].name.clone();
                    assert(projects@[i as int].id == *project_id && name@ == projects@[i as int].name@);
                    return name;
                }
                i = i + 1;
            }
            String::from_str("Project")
        },
    }
}

/// While typing, a character key followed by Backspace leaves everything as
/// it was, and Esc discards the text and returns to command keys.
pub proof fn lemma_typing_keys(m: UiModel, c: char, today: (int, int, int))
    requires
        m.mode != Mode::Normal,
    ensures
        ({
            let (m1, a1) = key_step(m, Key { code: KeyCode::Char(c), ctrl: false }, today);
            let (m2, a2) = key_step(m1, Key { code: KeyCode::Backspace, ctrl: false }, today);
            &&& m1.input == m.input.push(c)
            &&& m2 == m
            &&& a1 == ActionModel::NoAction
            &&& a2 == ActionModel::NoAction
        }),
        key_step(m, Key { code: KeyCode::Esc, ctrl: false }, today) == (
            UiModel { mode: Mode::Normal, input: Seq::empty(), ..m },
            ActionModel::NoAction,
        ),
{
    let m1 = key_step(m, Key { code: KeyCode::Char(c), ctrl: false }, today).0;
    assert(m1.input.drop_last() =~= m.input);
}

/// In the sidebar of the todos tab, Down moves to the next view or project
/// (staying on the last one) and Up to the previous one (staying on the
/// first); either selects the first todo and asks for the list of the new
/// view, and Down then Up comes back to the same view when it was not the last.
pub proof fn lemma_sidebar_moves(m: UiModel, today: (int, int, int))
    requires
        m.mode == Mode::Normal,
        m.tab == ActiveTab::Todos,
        m.focus == Focus::Sidebar,
        0 <= m.sidebar_index <= m.projects.len() + 1,
    ensures
        ({
            let (d, ad) = key_step(m, Key { code: KeyCode::Down, ctrl: false }, today);
            let (u, au) = key_step(m, Key { code: KeyCode::Up, ctrl: false }, today);
            let (du, _) = key_step(d, Key { code: KeyCode::Up, ctrl: false }, today);
            &&& d.sidebar_index == if m.sidebar_index < m.projects.len() + 1 {
                m.sidebar_index + 1
            } else {
                m.sidebar_index
            }
            &&& u.sidebar_index == if m.sidebar_index > 0 {
                m.sidebar_index - 1
            } else {
                0
            }
            &&& d.todo_index == 0 && u.todo_index == 0
            &&& ad == ActionModel::RefreshTodos && au == ActionModel::RefreshTodos
            &&& m.sidebar_index < m.projects.len() + 1 ==> du.sidebar_index == m.sidebar_index
        }),
{
}

impl UiApp {
    #[verifier::type_invariant]
    spec fn wf(self) -> bool {
        self.projects@.len() + 2 <= usize::MAX
    }

    /// A workspace on the timer tab with nothing listed yet, where the given
    /// todo is active.
    pub fn new(active_todo_id: Option<i64>) -> (s: Self)
        ensures
            s@ == initial_model(active_todo_id),
    {
        let s = Self {
            tab: ActiveTab::Timer,
            projects: Vec::new(),
            todos: Vec::new(),
            focus: Focus::Sidebar,
            sidebar_index: 0,
            todo_index: 0,
            show_completed: false,
            mode: Mode::Normal,
            input: String::new(),
            message: None,
            active_todo_id,
        };
        proof {
            assert(s@.todos =~= Seq::<(i64, Option<Seq<char>>)>::empty());
        }
        s
    }

    /// The tab shown.
    pub fn tab(&self) -> (r: ActiveTab)
        ensures
            r == self@.tab,
    {
        self.tab
    }

    /// The pane with the keyboard.
    pub fn focus(&self) -> (r: Focus)
        ensures
            r == self@.focus,
    {
        self.focus
    }

    /// What keys are typed into.
    pub fn mode(&self) -> (r: Mode)
        ensures
            r == self@.mode,
    {
        self.mode
    }

    /// The selected sidebar entry.
    pub fn sidebar_index(&self) -> (r: usize)
        ensures
            r == self@.sidebar_index,
    {
        self.sidebar_index
    }

    /// The selected todo.
    pub fn todo_index(&self) -> (r: usize)
        ensures
            r == self@.todo_index,
    {
        self.todo_index
    }

    /// Whether done todos are listed.
    pub fn show_completed(&self) -> (r: bool)
        ensures
            r == self@.show_completed,
    {
        self.show_completed
    }

    /// The text typed so far.
    pub fn input(&self) -> (r: &str)
        ensures
            r@ == self@.input,
    {
        self.input.as_str()
    }

    /// The last error to show, if any.
    pub fn message(&self) -> (r: Option<&String>)
        ensures
            r matches Some(s) ==> self@.message == Some(s@),
            r is None ==> self@.message is None,
    {
        self.message.as_ref()
    }

    /// The active todo, if any.
    pub fn active_todo_id(&self) -> (r: Option<i64>)
        ensures
            r == self@.active_todo_id,
    {
        self.active_todo_id
    }

    /// Records that a database call failed with error text `error`: the
    /// message shows it (after a failed list the caller also empties that list
    /// with `set_projects` or `set_todos`).
    pub fn db_failed(&mut self, call: DbCall, error: &str)
        ensures
            final(self)@ == (UiModel { message: Some(failure_text(call, error@)), ..old(self)@ }),
    {
        proof {
            use_type_invariant(&*self);
        }
        let mut m = String::from_str("db: failed to ");
        m.append(
            match call {
                DbCall::ListProjects => "list projects",
                DbCall::ListTodos => "list todos",
                DbCall::CreateProject => "create project",
                DbCall::CreateTodo => "create todo",
                DbCall::SetDueDate => "set due date",
                DbCall::InsertSession => "insert session",
            },
        );
        m.append(": ");
        m.append(error);
        self.message = Some(m);
    }

    /// Sets the message shown (the caller reports a failed database call).
    pub fn set_message(&mut self, message: String)
        ensures
            final(self)@ == (UiModel { message: Some(message@), ..old(self)@ }),
    {
        proof {
            use_type_invariant(&*self);
        }
        self.message = Some(message);
    }

    /// Number of sidebar entries: the two views and the projects.
    pub fn sidebar_len(&self) -> (r: usize)
        ensures
            r == self@.projects.len() + 2,
    {
        proof {
            use_type_invariant(self);
        }
        2 + self.projects.len()
    }

    /// Replaces the projects with a fresh list and keeps the sidebar selection
    /// on an entry.
    pub fn set_projects(&mut self, projects: Vec<i64>)
        requires
            projects@.len() + 2 <= usize::MAX,
        ensures
            final(self)@ == (UiModel {
                projects: projects@,
                sidebar_index: if old(self)@.sidebar_index < projects@.len() + 1 {
                    old(self)@.sidebar_index
                } else {
                    projects@.len() + 1int
                },
                ..old(self)@
            }),
    {
        proof {
            use_type_invariant(&*self);
        }
        self.projects = projects;
        let last = self.sidebar_len() - 1;
        if self.sidebar_index > last {
            self.sidebar_index = last;
        }
    }

    /// Replaces the todos with a fresh list and keeps the selection on a todo
    /// (or at 0 when there are none).
    pub fn set_todos(&mut self, todos: Vec<TodoRow>)
        ensures
            final(self)@ == (UiModel {
                todos: todos@.map_values(|t: TodoRow| t@),
                todo_index: if old(self)@.todo_index < dec_sat(todos@.len() as int) {
                    old(self)@.todo_index
                } else {
                    dec_sat(todos@.len() as int)
                },
                ..old(self)@
            }),
    {
        proof {
            use_type_invariant(&*self);
        }
        self.todos = todos;
        let n = self.todos.len();
        let last = if n > 0 {
            n - 1
        } else {
            0
        };
        if self.todo_index > last {
            self.todo_index = last;
        }
    }
    /// The project a new todo goes to: the one selected in the sidebar, if
    /// the selection is on a project.
    pub fn current_project_id_for_new_todo(&self) -> (r: Option<i64>)
        ensures
            r == project_for_new_todo(self@),
    {
        if self.sidebar_index >= 2 {
            let i = self.sidebar_index - 2;
            if i < self.projects.len() {
                return Some(self.projects[i]);
            }
        }
        None
    }

    /// The filter of the todo list for the sidebar selection, with today's date
    /// given as (year, month, day): today's todos, all todos, or the todos of
    /// the selected project.
    pub fn current_filter_on(&self, today: (i32, u32, u32)) -> (r: TodoFilter)
        requires
            chrono_date((today.0 as int, today.1 as int, today.2 as int)),
        ensures
            match r {
                TodoFilter::Today { date, show_completed } => {
                    &&& self@.sidebar_index == 0
                    &&& date@ == ymd_text((today.0 as int, today.1 as int, today.2 as int))
                    &&& show_completed == self@.show_completed
                },
                TodoFilter::Index { show_completed } => self@.sidebar_index == 1
                    && show_completed == self@.show_completed,
                TodoFilter::Project { project_id, show_completed } => {
                    &&& self@.sidebar_index >= 2
                    &&& project_id == (if self@.sidebar_index - 2 < self@.projects.len() {
                        self@.projects[self@.sidebar_index - 2]
                    } else {
                        -1i64
                    })
                    &&& show_completed == self@.show_completed
                },
            },
    {
        if self.sidebar_index == 0 {
            TodoFilter::Today {
                date: chrono_format_ymd(today.0, today.1, today.2),
                show_completed: self.show_completed,
            }
        } else if self.sidebar_index == 1 {
            TodoFilter::Index { show_completed: self.show_completed }
        } else {
            let i = self.sidebar_index - 2;
            let project_id = if i < self.projects.len() {
                self.projects[i]
            } else {
                -1
            };
            TodoFilter::Project { project_id, show_completed: self.show_completed }
        }
    }

    /// The filter of the todo list for the sidebar selection (see
    /// `current_filter_on`), reading today's date from the local clock.
    pub fn current_filter(&self) -> (r: TodoFilter)
        ensures
            match r {
                TodoFilter::Today { date, show_completed } => {
                    &&& self@.sidebar_index == 0
                    &&& exists|y: int, m: int, d: int|
                        chrono_date((y, m, d)) && date@ == ymd_text((y, m, d))
                    &&& show_completed == self@.show_completed
                },
                TodoFilter::Index { show_completed } => self@.sidebar_index == 1
                    && show_completed == self@.show_completed,
                TodoFilter::Project { project_id, show_completed } => {
                    &&& self@.sidebar_index >= 2
                    &&& project_id == (if self@.sidebar_index - 2 < self@.projects.len() {
                        self@.projects[self@.sidebar_index - 2]
                    } else {
                        -1i64
                    })
                    &&& show_completed == self@.show_completed
                },
            },
    {
        let today = chrono_local_today();
        self.current_filter_on(today)
    }

    /// Tab, `1` and `2` switch tabs.
    fn handle_global_key(&mut self, key: Key)
        ensures
            final(self)@ == global_step(old(self)@, key),
    {
        proof {
            use_type_invariant(&*self);
        }
        if let Some(t) = self.tab.switched_by(key) {
            self.tab = t;
        }
    }

    /// Keys of the timer tab.
    fn handle_timer_key(&mut self, key: Key) -> (r: UiAction)
        ensures
            (final(self)@, r@) == timer_step(old(self)@, key),
    {
        proof {
            use_type_invariant(&*self);
        }
        match key.code {
            KeyCode::Char(' ') => UiAction::ToggleTimer,
            KeyCode::Char('s') => UiAction::SkipTimer,
            KeyCode::Char('r') => UiAction::ResetTimer,
            KeyCode::Char('u') => {
                self.active_todo_id = None;
                UiAction::ClearActiveTodo
            },
            _ => UiAction::NoAction,
        }
    }

    /// Keys of the sidebar.
    fn handle_sidebar_key(&mut self, key: Key) -> (r: UiAction)
        ensures
            (final(self)@, r@) == sidebar_step(old(self)@, key),
    {
        proof {
            use_type_invariant(&*self);
        }
        match key.code {
            KeyCode::Up | KeyCode::Char('k') => {
                if self.sidebar_index > 0 {
                    self.sidebar_index = self.sidebar_index - 1;
                }
                self.todo_index = 0;
                UiAction::RefreshTodos
            },
            KeyCode::Down | KeyCode::Char('j') => {
                let last = self.sidebar_len() - 1;
                if self.sidebar_index < last {
                    self.sidebar_index = self.sidebar_index + 1;
                } else {
                    self.sidebar_index = last;
                }
                self.todo_index = 0;
                UiAction::RefreshTodos
            },
            _ => UiAction::NoAction,
        }
    }

    /// Keys of the todo list.
    fn handle_todo_list_key(&mut self, key: Key, today: (i32, u32, u32)) -> (r: UiAction)
        requires
            chrono_date((today.0 as int, today.1 as int, today.2 as int)),
        ensures
            (final(self)@, r@) == list_step(
                old(self)@,
                key,
                (today.0 as int, today.1 as int, today.2 as int),
            ),
    {
        proof {
            use_type_invariant(&*self);
        }
        let n = self.todos.len();
        let i = self.todo_index;
        match key.code {
            KeyCode::Up | KeyCode::Char('k') => {
                if i > 0 {
                    self.todo_index = i - 1;
                }
                UiAction::NoAction
            },
            KeyCode::Down | KeyCode::Char('j') => {
                if n > 0 {
                    if i < n - 1 {
                        self.todo_index = i + 1;
                    } else {
                        self.todo_index = n - 1;
                    }
                }
                UiAction::NoAction
            },
            KeyCode::Enter => {
                if i < n {
                    let id = self.todos[i].id;
                    self.active_todo_id = Some(id);
                    UiAction::SetActiveTodo(id)
                } else {
                    UiAction::NoAction
                }
            },
            KeyCode::Char('x') => {
                if i < n {
                    UiAction::ToggleTodo(self.todos[i].id)
                } else {
                    UiAction::NoAction
                }
            },
            KeyCode::Char('d') => {
                if i < n {
                    let id = self.todos[i].id;
                    let input = match &self.todos[i].due_date {
                        Some(d) => d.clone(),
                        None => chrono_format_ymd(today.0, today.1, today.2),
                    };
                    self.mode = Mode::EditDueDate { todo_id: id };
                    self.input = input;
                }
                UiAction::NoAction
            },
            _ => UiAction::NoAction,
        }
    }

    /// Keys of the todos tab.
    fn handle_todos_key(&mut self, key: Key, today: (i32, u32, u32)) -> (r: UiAction)
        requires
            chrono_date((today.0 as int, today.1 as int, today.2 as int)),
        ensures
            (final(self)@, r@) == todos_step(
                old(self)@,
                key,
                (today.0 as int, today.1 as int, today.2 as int),
            ),
    {
        proof {
            use_type_invariant(&*self);
        }
        match key.code {
            KeyCode::Left | KeyCode::Char('h') => {
                self.focus = Focus::Sidebar;
                UiAction::NoAction
            },
            KeyCode::Right | KeyCode::Char('l') => {
                self.focus = Focus::List;
                UiAction::NoAction
            },
            KeyCode::Char('c') => {
                self.show_completed = !self.show_completed;
                UiAction::RefreshTodos
            },
            KeyCode::Char('u') => {
                self.active_todo_id = None;
                UiAction::ClearActiveTodo
            },
            KeyCode::Char('a') => {
                self.mode = Mode::AddTodo;
                self.input = String::new();
                UiAction::NoAction
            },
            KeyCode::Char('p') => {
                self.mode = Mode::AddProject;
                self.input = String::new();
                UiAction::NoAction
            },
            _ => match self.focus {
                Focus::Sidebar => self.handle_sidebar_key(key),
                Focus::List => self.handle_todo_list_key(key, today),
            },
        }
    }

    /// Keys while typing.
    fn handle_input_key(&mut self, key: Key, today: (i32, u32, u32)) -> (r: UiAction)
        requires
            chrono_date((today.0 as int, today.1 as int, today.2 as int)),
        ensures
            (final(self)@, r@) == input_step(
                old(self)@,
                key,
                (today.0 as int, today.1 as int, today.2 as int),
            ),
    {
        proof {
            use_type_invariant(&*self);
        }
        match key.code {
            KeyCode::Esc => {
                self.mode = Mode::Normal;
                self.input = String::new();
                UiAction::NoAction
            },
            KeyCode::Enter => {
                let text = trim(self.input.as_str());
                let blank = text.unicode_len() == 0;
                let action = match self.mode {
                    Mode::AddProject => {
                        if blank {
                            UiAction::NoAction
                        } else {
                            UiAction::CreateProject(String::from_str(text))
                        }
                    },
                    Mode::AddTodo => {
                        if blank {
                            UiAction::NoAction
                        } else {
                            let (title, due_date) = parse_todo_input_on(text, today);
                            let project_id = self.current_project_id_for_new_todo();
                            UiAction::CreateTodo { project_id, title, due_date }
                        }
                    },
                    Mode::EditDueDate { todo_id } => {
                        match parse_due_date_on(text, today) {
                            Ok(due_date) => UiAction::SetDueDate { todo_id, due_date },
                            Err(msg) => {
                                self.message = Some(msg);
                                return UiAction::NoAction;
                            },
                        }
                    },
                    Mode::Normal => UiAction::NoAction,
                };
                self.mode = Mode::Normal;
                self.input = String::new();
                action
            },
            KeyCode::Backspace => {
                let mut input = self.input.clone();
                pop_char(&mut input);
                self.input = input;
                UiAction::NoAction
            },
            KeyCode::Char(c) => {
                if !key.ctrl {
                    let mut input = self.input.clone();
                    push_char(&mut input, c);
                    self.input = input;
                }
                UiAction::NoAction
            },
            _ => UiAction::NoAction,
        }
    }

    /// Handles a key press, with today's date given as (year, month, day):
    /// while typing the key goes to the input; otherwise Tab, `1` and `2`
    /// switch tabs and the key then goes to the tab shown. Returns the work
    /// left to the caller.
    pub fn handle_key_on(&mut self, key: Key, today: (i32, u32, u32)) -> (r: UiAction)
        requires
            chrono_date((today.0 as int, today.1 as int, today.2 as int)),
        ensures
            (final(self)@, r@) == key_step(
                old(self)@,
                key,
                (today.0 as int, today.1 as int, today.2 as int),
            ),
    {
        match self.mode {
            Mode::Normal => {
                self.handle_global_key(key);
                match self.tab {
                    ActiveTab::Timer => self.handle_timer_key(key),
                    ActiveTab::Todos => self.handle_todos_key(key, today),
                }
            },
            _ => self.handle_input_key(key, today),
        }
    }

    /// Handles a key press (see `handle_key_on`), reading today's date from
    /// the local clock.
    pub fn handle_key(&mut self, key: Key) -> (r: UiAction)
        ensures
            exists|y: int, m: int, d: int|
                chrono_date((y, m, d)) && (final(self)@, r@) == key_step(old(self)@, key, (y, m, d)),
    {
        let today = chrono_local_today();
        self.handle_key_on(key, today)
    }
}

/// In command mode `u` clears the active todo on either tab, whatever pane
/// has the focus, and asks the caller to store that; nothing else changes.
pub proof fn lemma_u_clears_active_todo(m: UiModel, today: (int, int, int))
    requires
        m.mode == Mode::Normal,
    ensures
        key_step(m, Key { code: KeyCode::Char('u'), ctrl: false }, today) == (
            UiModel { active_todo_id: None, ..m },
            ActionModel::ClearActiveTodo,
        ),
{
}

} // verus!
