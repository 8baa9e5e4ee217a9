//! The profile picker: a static list of configured profiles and a
//! selection cursor.
//!
//! Navigation keys move the cursor, saturating at both ends; the confirm
//! key queues an `EnterProfile` action for the profile under the cursor.
//! The list itself is populated once at startup and never changes.

use vstd::prelude::*;

use crate::actions::TuiActions;
use crate::actions::TuiInput;
use crate::config::Profile;
use crate::input::Event;
use crate::input::KeyCode;
use crate::table::TableState;
use crate::table::spec_select_next;
use crate::table::spec_select_previous;
use crate::table::spec_selected;

verus! {

/// One row of the profile table.
pub struct ProfileListItem {
    pub profile: Profile,
}

impl ProfileListItem {
    /// A row displaying `profile`.
    pub fn from_profile(profile: &Profile) -> (r: Self)
        ensures
            r.profile == *profile,
    {
        Self { profile: profile.clone() }
    }
}

/// Selection state of the profile table.
pub struct ProfilesListState {
    pub items: Vec<ProfileListItem>,
    pub table_state: TableState,
}

impl ProfilesListState {
    /// An empty list with the first row preselected.
    pub fn new() -> (r: Self)
        ensures
            r.items@ == Seq::<ProfileListItem>::empty(),
            r.table_state.selected == Option::Some(0usize),
    {
        Self { items: Vec::new(), table_state: TableState::with_selected(Some(0)) }
    }

    /// The profile under the cursor, clamped into the current list;
    /// `None` when the list is empty.
    pub fn selected_profile(&self) -> (r: Option<Profile>)
        ensures
            r == match spec_selected(self.table_state.selected, self.items@.len() as usize) {
                Option::Some(i) => Option::Some(self.items@[i as int].profile),
                Option::None => Option::<Profile>::None,
            },
    {
        match self.table_state.selected(self.items.len()) {
            None => None,
            Some(i) => Some(self.items[i].profile.clone()),
        }
    }
}

/// State of the profile picker screen.
pub struct ProfilesState {
    pub profiles_list_state: ProfilesListState,
}

/// Transition relation of [`ProfilesState::handle_event`]: navigation
/// keys move the cursor by the saturating step functions, the confirm
/// key queues entering the selected profile, and every other event does
/// nothing. The profile list itself never changes.
pub open spec fn profiles_step_post(
    pre: ProfilesState,
    post: ProfilesState,
    acts_pre: Seq<TuiInput>,
    acts_post: Seq<TuiInput>,
    event: Event,
) -> bool {
    let n = pre.profiles_list_state.items@.len() as usize;
    let sel = pre.profiles_list_state.table_state.selected;
    &&& post.profiles_list_state.items == pre.profiles_list_state.items
    &&& match event {
        Event::Key(k) => if k.code == KeyCode::Up || k.code == KeyCode::Char('k') {
            &&& post.profiles_list_state.table_state.selected == spec_select_previous(sel, n)
            &&& acts_post == acts_pre
        } else if k.code == KeyCode::Down || k.code == KeyCode::Char('j') {
            &&& post.profiles_list_state.table_state.selected == spec_select_next(sel, n)
            &&& acts_post == acts_pre
        } else if k.code == KeyCode::Enter {
            &&& post.profiles_list_state.table_state == pre.profiles_list_state.table_state
            &&& match spec_selected(sel, n) {
                Option::Some(i) => acts_post == acts_pre.push(
                    TuiInput::EnterProfile(pre.profiles_list_state.items@[i as int].profile),
                ),
                Option::None => acts_post == acts_pre,
            }
        } else {
            post == pre && acts_post == acts_pre
        },
        Event::Other => post == pre && acts_post == acts_pre,
    }
}

impl ProfilesState {
    /// A picker over an empty list; the embedder fills in the rows from
    /// its configuration.
    pub fn new() -> (r: Self)
        ensures
            r.profiles_list_state.items@ == Seq::<ProfileListItem>::empty(),
            r.profiles_list_state.table_state.selected == Option::Some(0usize),
    {
        Self { profiles_list_state: ProfilesListState::new() }
    }

    /// Apply one terminal event to the picker. The full behaviour is the
    /// transition relation [`profiles_step_post`].
    pub fn handle_event(&mut self, actions: &mut TuiActions, event: &Event)
        ensures
            profiles_step_post(
                *old(self),
                *final(self),
                old(actions).queued@,
                final(actions).queued@,
                *event,
            ),
    {
        let code = match event {
            Event::Key(k) => k.code,
            Event::Other => {
                return ;
            },
        };
        let n = self.profiles_list_state.items.len();
        match code {
            KeyCode::Up => self.profiles_list_state.table_state.select_previous(n),
            KeyCode::Down => self.profiles_list_state.table_state.select_next(n),
            KeyCode::Enter => {
                let maybe_profile = self.profiles_list_state.selected_profile();
                match maybe_profile {
                    Some(profile) => actions.enter_profile(profile),
                    None => {},
                }
            },
            KeyCode::Char(c) => {
                if c == 'k' {
                    self.profiles_list_state.table_state.select_previous(n);
                } else if c == 'j' {
                    self.profiles_list_state.table_state.select_next(n);
                }
            },
            _ => {},
        }
    }

    /// Breadcrumb fragment for the title line.
    pub fn breadcrumbs(&self) -> (r: Vec<String>)
        ensures
            r@.len() == 1,
            r@[0]@ == "Profiles "@,
    {
        let mut r: Vec<String> = Vec::new();
        r.push("Profiles ".to_owned());
        r
    }
}

/// Widget marker for the profile picker screen; its drawing lives with
/// the embedder, which renders from a [`ProfilesState`].
pub struct ProfilesContainer {}

impl ProfilesContainer {
    pub fn new() -> Self {
        Self {  }
    }
}

/// Widget marker for the profile table; its drawing lives with the
/// embedder, which renders from a [`ProfilesListState`].
pub struct ProfilesList {}

impl ProfilesList {
    pub fn new() -> Self {
        Self {  }
    }
}

} // verus!
