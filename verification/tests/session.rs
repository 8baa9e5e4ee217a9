//! Scenario tests for the per-profile task browser session.

use ditto_tui::config::Identity;
use ditto_tui::config::OnlinePlayground;
use ditto_tui::config::Profile;
use ditto_tui::error::UiError;
use ditto_tui::input::Event;
use ditto_tui::input::KeyCode;
use ditto_tui::input::KeyEvent;
use ditto_tui::tasks::MutationRequest;
use ditto_tui::tasks::TodoItem;
use ditto_tui::todolist::TodoEffect;
use ditto_tui::todolist::TodoMode;
use ditto_tui::todolist::TodolistState;

fn profile(name: Option<&str>, app_id: &str) -> Profile {
    Profile {
        name: name.map(|s| s.to_string()),
        app_id: app_id.to_string(),
        root: None,
        identity: Identity::OnlinePlayground(OnlinePlayground { token: "tokentokentoken".to_string() }),
    }
}

fn key(code: KeyCode) -> Event {
    Event::Key(KeyEvent { code, ctrl: false })
}

fn task(id: &str, title: &str, done: bool) -> TodoItem {
    TodoItem { id: id.to_string(), title: title.to_string(), done, deleted: false }
}

fn fresh_session() -> TodolistState {
    let (state, _tx) = TodolistState::new(profile(Some("App"), "0xdeadbeef"));
    state
}

#[test]
fn create_type_backspace_round_trip() {
    // Typing characters and backspacing the same count leaves the create
    // dialog open with an empty buffer; only one more backspace exits.
    let mut s = fresh_session();
    let tasks = Vec::new();
    assert_eq!(s.try_handle_event(&key(KeyCode::Char('c')), &tasks), Ok(TodoEffect::Nothing));
    for c in "abc".chars() {
        assert_eq!(s.try_handle_event(&key(KeyCode::Char(c)), &tasks), Ok(TodoEffect::Nothing));
    }
    assert_eq!(s.mode, TodoMode::CreateTask { buffer: "abc".to_string() });
    for _ in 0..3 {
        assert_eq!(s.try_handle_event(&key(KeyCode::Backspace), &tasks), Ok(TodoEffect::Nothing));
    }
    assert_eq!(s.mode, TodoMode::CreateTask { buffer: String::new() });
    assert_eq!(s.try_handle_event(&key(KeyCode::Backspace), &tasks), Ok(TodoEffect::Nothing));
    assert_eq!(s.mode, TodoMode::Normal);
}

#[test]
fn escape_cancels_without_mutation() {
    let mut s = fresh_session();
    let tasks = vec![task("a", "first", false)];
    assert_eq!(s.try_handle_event(&key(KeyCode::Char('c')), &tasks), Ok(TodoEffect::Nothing));
    for c in "half-typed".chars() {
        assert_eq!(s.try_handle_event(&key(KeyCode::Char(c)), &tasks), Ok(TodoEffect::Nothing));
    }
    assert_eq!(s.try_handle_event(&key(KeyCode::Esc), &tasks), Ok(TodoEffect::Nothing));
    assert_eq!(s.mode, TodoMode::Normal);

    // the same from the edit dialog
    assert_eq!(s.try_handle_event(&key(KeyCode::Down), &tasks), Ok(TodoEffect::Nothing));
    assert_eq!(s.try_handle_event(&key(KeyCode::Char('e')), &tasks), Ok(TodoEffect::Nothing));
    assert!(matches!(s.mode, TodoMode::EditTask { .. }));
    assert_eq!(s.try_handle_event(&key(KeyCode::Esc), &tasks), Ok(TodoEffect::Nothing));
    assert_eq!(s.mode, TodoMode::Normal);
}

#[test]
fn empty_submit_is_no_op() {
    let mut s = fresh_session();
    let tasks = Vec::new();
    assert_eq!(s.try_handle_event(&key(KeyCode::Char('c')), &tasks), Ok(TodoEffect::Nothing));
    assert_eq!(s.try_handle_event(&key(KeyCode::Enter), &tasks), Ok(TodoEffect::Nothing));
    assert_eq!(s.mode, TodoMode::CreateTask { buffer: String::new() });

    // edit dialog emptied by backspaces, then submitted
    let tasks = vec![task("a", "x", false)];
    assert_eq!(s.try_handle_event(&key(KeyCode::Esc), &tasks), Ok(TodoEffect::Nothing));
    assert_eq!(s.try_handle_event(&key(KeyCode::Down), &tasks), Ok(TodoEffect::Nothing));
    assert_eq!(s.try_handle_event(&key(KeyCode::Char('e')), &tasks), Ok(TodoEffect::Nothing));
    assert_eq!(s.try_handle_event(&key(KeyCode::Backspace), &tasks), Ok(TodoEffect::Nothing));
    assert_eq!(s.mode, TodoMode::EditTask { id: "a".to_string(), buffer: String::new() });
    assert_eq!(s.try_handle_event(&key(KeyCode::Enter), &tasks), Ok(TodoEffect::Nothing));
    assert_eq!(s.mode, TodoMode::EditTask { id: "a".to_string(), buffer: String::new() });
}

#[test]
fn submit_create_issues_one_insert() {
    let mut s = fresh_session();
    let tasks = Vec::new();
    assert_eq!(s.try_handle_event(&key(KeyCode::Char('c')), &tasks), Ok(TodoEffect::Nothing));
    for c in "Buy milk".chars() {
        assert_eq!(s.try_handle_event(&key(KeyCode::Char(c)), &tasks), Ok(TodoEffect::Nothing));
    }
    let r = s.try_handle_event(&key(KeyCode::Enter), &tasks).unwrap();
    match r {
        TodoEffect::Mutation(MutationRequest::InsertTask { task }) => {
            assert_eq!(task.title, "Buy milk");
            assert!(!task.done);
            assert!(!task.deleted);
            assert_eq!(task.id.len(), 36);
        }
        other => panic!("expected one insert mutation, got {:?}", other),
    }
    assert_eq!(s.mode, TodoMode::Normal);
}

#[test]
fn toggle_twice_alternates() {
    let mut s = fresh_session();
    let tasks = vec![task("t1", "first", false)];
    assert_eq!(s.try_handle_event(&key(KeyCode::Down), &tasks), Ok(TodoEffect::Nothing));

    let r1 = s.try_handle_event(&key(KeyCode::Enter), &tasks).unwrap();
    assert_eq!(
        r1,
        TodoEffect::Mutation(MutationRequest::SetDone { id: "t1".to_string(), done: true })
    );

    // the store applies the first toggle; the next snapshot shows it
    let tasks2 = vec![task("t1", "first", true)];
    let r2 = s.try_handle_event(&key(KeyCode::Enter), &tasks2).unwrap();
    assert_eq!(
        r2,
        TodoEffect::Mutation(MutationRequest::SetDone { id: "t1".to_string(), done: false })
    );
}

#[test]
fn space_also_toggles() {
    let mut s = fresh_session();
    let tasks = vec![task("t1", "first", false)];
    assert_eq!(s.try_handle_event(&key(KeyCode::Down), &tasks), Ok(TodoEffect::Nothing));
    let r = s.try_handle_event(&key(KeyCode::Char(' ')), &tasks).unwrap();
    assert_eq!(
        r,
        TodoEffect::Mutation(MutationRequest::SetDone { id: "t1".to_string(), done: true })
    );
}

#[test]
fn shrunk_snapshot_clamps_selection() {
    // Move the cursor far down a long list, then hand the handler a much
    // shorter snapshot: the action applies to the last remaining row.
    let mut s = fresh_session();
    let long: Vec<TodoItem> = (0..5).map(|i| task(&format!("id{}", i), "t", false)).collect();
    for _ in 0..5 {
        assert_eq!(s.try_handle_event(&key(KeyCode::Char('j')), &long), Ok(TodoEffect::Nothing));
    }
    assert_eq!(s.table_state.selected, Some(4));

    let short = vec![task("a", "first", false), task("b", "second", false)];
    let r = s.try_handle_event(&key(KeyCode::Char('d')), &short).unwrap();
    assert_eq!(r, TodoEffect::Mutation(MutationRequest::SoftDelete { id: "b".to_string() }));
}

#[test]
fn delete_issues_soft_delete() {
    let mut s = fresh_session();
    let tasks = vec![task("x1", "one", false), task("x2", "two", true)];
    assert_eq!(s.try_handle_event(&key(KeyCode::Down), &tasks), Ok(TodoEffect::Nothing));
    assert_eq!(s.try_handle_event(&key(KeyCode::Down), &tasks), Ok(TodoEffect::Nothing));
    let r = s.try_handle_event(&key(KeyCode::Char('d')), &tasks).unwrap();
    assert_eq!(r, TodoEffect::Mutation(MutationRequest::SoftDelete { id: "x2".to_string() }));
}

#[test]
fn edit_flow_renames_task() {
    let mut s = fresh_session();
    let tasks = vec![task("t9", "old", false)];
    assert_eq!(s.try_handle_event(&key(KeyCode::Up), &tasks), Ok(TodoEffect::Nothing));
    assert_eq!(s.try_handle_event(&key(KeyCode::Char('e')), &tasks), Ok(TodoEffect::Nothing));
    assert_eq!(s.mode, TodoMode::EditTask { id: "t9".to_string(), buffer: "old".to_string() });
    assert_eq!(s.try_handle_event(&key(KeyCode::Char('!')), &tasks), Ok(TodoEffect::Nothing));
    let r = s.try_handle_event(&key(KeyCode::Enter), &tasks).unwrap();
    assert_eq!(
        r,
        TodoEffect::Mutation(MutationRequest::SetTitle {
            id: "t9".to_string(),
            title: "old!".to_string(),
        })
    );
    assert_eq!(s.mode, TodoMode::Normal);
}

#[test]
fn actions_without_selection_fail() {
    let mut s = fresh_session();
    let tasks = Vec::new();
    assert_eq!(s.try_handle_event(&key(KeyCode::Char('d')), &tasks), Err(UiError::NoSelection));
    assert_eq!(s.try_handle_event(&key(KeyCode::Char('e')), &tasks), Err(UiError::NoSelection));
    assert_eq!(s.try_handle_event(&key(KeyCode::Enter), &tasks), Err(UiError::NoSelection));
    assert_eq!(UiError::NoSelection.message(), "failed to get selected index");
}

#[test]
fn navigation_suppressed_while_editing() {
    let mut s = fresh_session();
    let tasks = vec![task("a", "x", false), task("b", "y", false)];
    assert_eq!(s.try_handle_event(&key(KeyCode::Char('c')), &tasks), Ok(TodoEffect::Nothing));
    let before = s.table_state.selected;
    assert_eq!(s.try_handle_event(&key(KeyCode::Up), &tasks), Ok(TodoEffect::Nothing));
    assert_eq!(s.try_handle_event(&key(KeyCode::Down), &tasks), Ok(TodoEffect::Nothing));
    assert_eq!(s.table_state.selected, before);
    // j and k type into the buffer instead of scrolling
    assert_eq!(s.try_handle_event(&key(KeyCode::Char('j')), &tasks), Ok(TodoEffect::Nothing));
    assert_eq!(s.try_handle_event(&key(KeyCode::Char('k')), &tasks), Ok(TodoEffect::Nothing));
    assert_eq!(s.mode, TodoMode::CreateTask { buffer: "jk".to_string() });
}

#[test]
fn escape_in_normal_requests_exit() {
    let mut s = fresh_session();
    let tasks = Vec::new();
    assert_eq!(s.try_handle_event(&key(KeyCode::Esc), &tasks), Ok(TodoEffect::ExitProfile));
}

#[test]
fn ignored_events_do_nothing() {
    let mut s = fresh_session();
    let tasks = vec![task("a", "x", false)];
    assert_eq!(s.try_handle_event(&Event::Other, &tasks), Ok(TodoEffect::Nothing));
    assert_eq!(s.try_handle_event(&key(KeyCode::Other), &tasks), Ok(TodoEffect::Nothing));
    assert_eq!(s.try_handle_event(&key(KeyCode::Char('z')), &tasks), Ok(TodoEffect::Nothing));
    assert_eq!(s.mode, TodoMode::Normal);
    assert_eq!(s.table_state.selected, None);
}

#[test]
fn statements_match_templates() {
    let insert = MutationRequest::InsertTask { task: task("i", "t", false) };
    let set_done = MutationRequest::SetDone { id: "i".to_string(), done: true };
    let set_title = MutationRequest::SetTitle { id: "i".to_string(), title: "t".to_string() };
    let soft_delete = MutationRequest::SoftDelete { id: "i".to_string() };
    assert_eq!(insert.statement(), "INSERT INTO tasks DOCUMENTS (:task)");
    assert_eq!(set_done.statement(), "UPDATE tasks SET done=:done WHERE _id=:id");
    assert_eq!(set_title.statement(), "UPDATE tasks SET title=:title WHERE _id=:id");
    assert_eq!(soft_delete.statement(), "UPDATE tasks SET deleted=true WHERE _id=:id");
}

#[test]
fn new_task_gets_fresh_hyphenated_id() {
    let a = TodoItem::new("milk".to_string());
    let b = TodoItem::new("milk".to_string());
    assert_eq!(a.title, "milk");
    assert!(!a.done);
    assert!(!a.deleted);
    assert_eq!(a.id.len(), 36);
    assert_eq!(a.id.matches('-').count(), 4);
    // fresh means unique
    assert_ne!(a.id, b.id);
}

#[test]
fn snapshot_slot_delivers_latest_value() {
    let (s, tx) = TodolistState::new(profile(None, "0xfeed"));
    assert_eq!(s.current_tasks(), Vec::new());
    let one = vec![task("a", "first", false)];
    tx.send_replace(one.clone());
    assert_eq!(s.current_tasks(), one);
    let two = vec![task("a", "first", false), task("b", "second", true)];
    tx.send_replace(two.clone());
    assert_eq!(s.current_tasks(), two);
}

#[test]
fn active_buffer_reports_open_dialog() {
    let mut s = fresh_session();
    let tasks = Vec::new();
    assert!(!s.is_popup_open());
    assert_eq!(s.active_buffer(), None);
    assert_eq!(s.try_handle_event(&key(KeyCode::Char('c')), &tasks), Ok(TodoEffect::Nothing));
    assert_eq!(s.try_handle_event(&key(KeyCode::Char('h')), &tasks), Ok(TodoEffect::Nothing));
    assert!(s.is_popup_open());
    assert_eq!(s.active_buffer(), Some(&"h".to_string()));
}

#[test]
fn session_breadcrumbs_use_nickname_or_app_id() {
    let (named, _tx) = TodolistState::new(profile(Some("App"), "0xdeadbeef"));
    assert_eq!(named.breadcrumbs(), vec!["App ".to_string(), "❯❯ ".to_string()]);
    let (anon, _tx) = TodolistState::new(profile(None, "0xdeadbeef"));
    assert_eq!(anon.breadcrumbs(), vec!["0xdeadbeef ".to_string(), "❯❯ ".to_string()]);
}
