//! Scenario tests for the profile picker.

use ditto_tui::actions::TuiActions;
use ditto_tui::actions::TuiInput;
use ditto_tui::config::Identity;
use ditto_tui::config::OnlinePlayground;
use ditto_tui::config::Profile;
use ditto_tui::input::Event;
use ditto_tui::input::KeyCode;
use ditto_tui::input::KeyEvent;
use ditto_tui::profiles::ProfileListItem;
use ditto_tui::profiles::ProfilesContainer;
use ditto_tui::profiles::ProfilesList;
use ditto_tui::profiles::ProfilesState;

fn profile(name: &str, app_id: &str) -> Profile {
    Profile {
        name: Some(name.to_string()),
        app_id: app_id.to_string(),
        root: Some("./ditto".to_string()),
        identity: Identity::OnlinePlayground(OnlinePlayground { token: "tokentokentoken".to_string() }),
    }
}

fn key(code: KeyCode) -> Event {
    Event::Key(KeyEvent { code, ctrl: false })
}

fn picker(n: usize) -> ProfilesState {
    let mut state = ProfilesState::new();
    for i in 0..n {
        let p = profile(&format!("p{}", i), &format!("0xapp{}", i));
        state.profiles_list_state.items.push(ProfileListItem::from_profile(&p));
    }
    state
}

#[test]
fn navigation_stays_in_range() {
    // Any run of j/k/up/down keeps the selection inside [0, N-1].
    let mut s = picker(3);
    assert_eq!(s.profiles_list_state.table_state.selected, Some(0));
    let mut actions = TuiActions::new();
    let runs = [
        KeyCode::Char('j'),
        KeyCode::Char('j'),
        KeyCode::Char('j'),
        KeyCode::Char('j'),
        KeyCode::Down,
        KeyCode::Char('k'),
        KeyCode::Up,
        KeyCode::Up,
        KeyCode::Up,
        KeyCode::Char('j'),
    ];
    let expected = [1, 2, 2, 2, 2, 1, 0, 0, 0, 1];
    for (code, want) in runs.iter().zip(expected.iter()) {
        s.handle_event(&mut actions, &key(*code));
        let got = s.profiles_list_state.table_state.selected.unwrap();
        assert_eq!(got, *want);
        assert!(got < 3);
    }
    assert!(actions.queued.is_empty());
}

#[test]
fn saturates_at_both_ends() {
    let mut s = picker(2);
    let mut actions = TuiActions::new();
    for _ in 0..10 {
        s.handle_event(&mut actions, &key(KeyCode::Char('j')));
        assert!(s.profiles_list_state.table_state.selected.unwrap() < 2);
    }
    assert_eq!(s.profiles_list_state.table_state.selected, Some(1));
    for _ in 0..10 {
        s.handle_event(&mut actions, &key(KeyCode::Char('k')));
    }
    assert_eq!(s.profiles_list_state.table_state.selected, Some(0));
}

#[test]
fn confirm_queues_selected_profile() {
    let mut s = picker(2);
    let mut actions = TuiActions::new();
    s.handle_event(&mut actions, &key(KeyCode::Char('j')));
    s.handle_event(&mut actions, &key(KeyCode::Enter));
    assert_eq!(actions.queued, vec![TuiInput::EnterProfile(profile("p1", "0xapp1"))]);
}

#[test]
fn confirm_on_empty_list_queues_nothing() {
    let mut s = picker(0);
    let mut actions = TuiActions::new();
    s.handle_event(&mut actions, &key(KeyCode::Enter));
    assert!(actions.queued.is_empty());
    assert_eq!(s.profiles_list_state.selected_profile(), None);
}

#[test]
fn unknown_keys_are_ignored() {
    let mut s = picker(2);
    let mut actions = TuiActions::new();
    s.handle_event(&mut actions, &key(KeyCode::Char('x')));
    s.handle_event(&mut actions, &key(KeyCode::Backspace));
    s.handle_event(&mut actions, &Event::Other);
    assert_eq!(s.profiles_list_state.table_state.selected, Some(0));
    assert!(actions.queued.is_empty());
}

#[test]
fn selected_profile_clamps_into_list() {
    let mut s = picker(3);
    s.profiles_list_state.table_state.selected = Some(9);
    assert_eq!(s.profiles_list_state.selected_profile(), Some(profile("p2", "0xapp2")));
}

#[test]
fn from_profile_keeps_the_profile() {
    let p = profile("App", "0xdeadbeef");
    let item = ProfileListItem::from_profile(&p);
    assert_eq!(item.profile, p);
}

#[test]
fn picker_breadcrumbs() {
    let s = picker(1);
    assert_eq!(s.breadcrumbs(), vec!["Profiles ".to_string()]);
}

#[test]
fn widget_markers_construct() {
    let _c = ProfilesContainer::new();
    let _l = ProfilesList::new();
}

#[test]
fn action_queue_collects_in_order() {
    let mut actions = TuiActions::new();
    assert!(actions.queued.is_empty());
    actions.enter_profile(profile("a", "0x1"));
    actions.exit_profile();
    assert_eq!(
        actions.queued,
        vec![TuiInput::EnterProfile(profile("a", "0x1")), TuiInput::ExitProfile]
    );
}
