//! The root controller: focus, the session registry, and the dispatch of
//! every input of the UI loop.
//!
//! The controller owns the profile picker, the registry of per-profile
//! sessions and the focus between them. Each input yields a new state
//! plus an outcome: whether the loop should quit, and at most one
//! command for the embedder — start a sync session for a profile, or
//! execute one mutation. Starting a session is fallible outside work; on
//! failure the embedder simply never calls
//! [`RootContainerState::finish_start_session`], which leaves the state
//! unchanged and the focus on the profile picker.

use vstd::prelude::*;

use crate::actions::TuiActions;
use crate::actions::TuiInput;
use crate::config::Profile;
use crate::error::UiError;
use crate::input::Event;
use crate::input::spec_should_quit;
use crate::input::should_quit;
use crate::profiles::ProfilesState;
use crate::profiles::profiles_step_post;
use crate::registry::index_entries;
use crate::registry::registry_get;
use crate::registry::registry_insert;
use crate::registry::registry_new;
use crate::tasks::MutationRequest;
use crate::tasks::TodoItem;
use crate::todolist::TodoEffect;
use crate::todolist::TodolistState;
use crate::todolist::session_step_post;

verus! {

/// Which screen receives input.
#[derive(Debug, PartialEq, Eq, Clone, Copy)]
pub enum RootContainerFocus {
    Profiles,
    TodoList,
}

/// What the embedder must do after one handled input.
#[derive(Debug, PartialEq, Eq)]
pub enum RootCommand {
    /// Start the sync session for this profile: register its
    /// subscription and observer, then hand the resulting session to
    /// [`RootContainerState::finish_start_session`]. On failure, surface
    /// the error and call nothing: the focus stays on the picker.
    StartSession(Profile),
    /// Execute this mutation against the store, asynchronously.
    Mutation(MutationRequest),
}

/// Result of handling one input: whether the loop should stop, and at
/// most one command to perform.
#[derive(Debug, PartialEq, Eq)]
pub struct HandleOutcome {
    pub quit: bool,
    pub command: Option<RootCommand>,
}

/// State of the whole UI.
pub struct RootContainerState {
    pub focus: RootContainerFocus,
    pub profiles_state: ProfilesState,
    /// The initialized sessions, one per distinct profile ever entered,
    /// in creation order. Entries are never removed.
    pub ditto_app_states: Vec<TodolistState>,
    /// Slot number of each session, filed under its application id.
    pub session_index: indexmap::IndexMap<String, usize>,
    /// Application id of the session the task list screen shows.
    pub active_ditto_app: Option<String>,
}

impl RootContainerState {
    /// Well-formedness: every registered slot exists and holds the
    /// session of the profile it is filed under, and the task list
    /// screen is only focused while some registered session is active.
    pub open spec fn wf(self) -> bool {
        let idx = index_entries(self.session_index);
        &&& idx.dom().finite()
        &&& forall|k: Seq<char>| #[trigger]
            idx.contains_key(k) ==> idx[k] < self.ditto_app_states@.len()
        &&& forall|k: Seq<char>| #[trigger]
            idx.contains_key(k) ==> self.ditto_app_states@[idx[k] as int].profile.app_id@ == k
        &&& match self.focus {
            RootContainerFocus::TodoList => match self.active_ditto_app {
                Option::Some(id) => idx.contains_key(id@),
                Option::None => false,
            },
            RootContainerFocus::Profiles => true,
        }
    }
}

/// Transition relation of [`RootContainerState::try_handle_event`]: a
/// terminal event goes to the screen that has focus. On the picker it
/// can only queue actions; on the task list it can yield one mutation or
/// one queued exit, and the only session that changes is the active one.
pub open spec fn root_event_post(
    pre: RootContainerState,
    post: RootContainerState,
    acts_pre: Seq<TuiInput>,
    acts_post: Seq<TuiInput>,
    event: Event,
    tasks: Seq<TodoItem>,
    r: Result<Option<MutationRequest>, UiError>,
) -> bool {
    &&& post.focus == pre.focus
    &&& post.active_ditto_app == pre.active_ditto_app
    &&& index_entries(post.session_index) == index_entries(pre.session_index)
    &&& post.ditto_app_states@.len() == pre.ditto_app_states@.len()
    &&& match pre.focus {
        RootContainerFocus::Profiles => {
            &&& post.ditto_app_states == pre.ditto_app_states
            &&& profiles_step_post(pre.profiles_state, post.profiles_state, acts_pre, acts_post, event)
            &&& r == Result::<Option<MutationRequest>, UiError>::Ok(Option::None)
        },
        RootContainerFocus::TodoList => {
            &&& post.profiles_state == pre.profiles_state
            &&& match pre.active_ditto_app {
                Option::Some(id) => if index_entries(pre.session_index).contains_key(id@) {
                    let i = index_entries(pre.session_index)[id@] as int;
                    let s_post = post.ditto_app_states@[i];
                    &&& post.ditto_app_states@ == pre.ditto_app_states@.update(i, s_post)
                    &&& exists|eff: Result<TodoEffect, UiError>|
                        {
                            &&& #[trigger] session_step_post(
                                pre.ditto_app_states@[i],
                                s_post,
                                event,
                                tasks,
                                eff,
                            )
                            &&& lift_effect(eff, acts_pre, acts_post, r)
                        }
                } else {
                    no_op(pre, post, acts_pre, acts_post, r)
                },
                Option::None => no_op(pre, post, acts_pre, acts_post, r),
            }
        },
    }
}

/// The defensive no-op: state and queue unchanged, nothing to do.
pub open spec fn no_op(
    pre: RootContainerState,
    post: RootContainerState,
    acts_pre: Seq<TuiInput>,
    acts_post: Seq<TuiInput>,
    r: Result<Option<MutationRequest>, UiError>,
) -> bool {
    &&& post == pre
    &&& acts_post == acts_pre
    &&& r == Result::<Option<MutationRequest>, UiError>::Ok(Option::None)
}

/// How a session effect surfaces at the root: an exit request is queued
/// as an `ExitProfile` action, a mutation becomes the step's result, and
/// an error propagates.
pub open spec fn lift_effect(
    eff: Result<TodoEffect, UiError>,
    acts_pre: Seq<TuiInput>,
    acts_post: Seq<TuiInput>,
    r: Result<Option<MutationRequest>, UiError>,
) -> bool {
    match eff {
        Result::Ok(TodoEffect::Nothing) => acts_post == acts_pre && r == Result::<
            Option<MutationRequest>,
            UiError,
        >::Ok(Option::None),
        Result::Ok(TodoEffect::ExitProfile) => acts_post == acts_pre.push(TuiInput::ExitProfile)
            && r == Result::<Option<MutationRequest>, UiError>::Ok(Option::None),
        Result::Ok(TodoEffect::Mutation(m)) => acts_post == acts_pre && r == Result::<
            Option<MutationRequest>,
            UiError,
        >::Ok(Option::Some(m)),
        Result::Err(e) => acts_post == acts_pre && r == Result::<
            Option<MutationRequest>,
            UiError,
        >::Err(e),
    }
}

/// The result of the focus dispatch, as it appears inside the outcome of
/// the full input step.
pub open spec fn lower_result(r: Result<HandleOutcome, UiError>) -> Result<
    Option<MutationRequest>,
    UiError,
> {
    match r {
        Result::Ok(o) => Result::Ok(
            match o.command {
                Option::Some(RootCommand::Mutation(m)) => Option::Some(m),
                Option::Some(RootCommand::StartSession(..)) => Option::None,
                Option::None => Option::None,
            },
        ),
        Result::Err(e) => Result::Err(e),
    }
}

/// Transition relation of [`RootContainerState::handle_input`], the full
/// dispatch of one item of the merged input stream.
pub open spec fn root_input_post(
    pre: RootContainerState,
    post: RootContainerState,
    acts_pre: Seq<TuiInput>,
    acts_post: Seq<TuiInput>,
    input: TuiInput,
    tasks: Seq<TodoItem>,
    r: Result<HandleOutcome, UiError>,
) -> bool {
    match input {
        // A tick only asks for a redraw.
        TuiInput::FrameTick => post == pre && acts_post == acts_pre && r == Result::<
            HandleOutcome,
            UiError,
        >::Ok(HandleOutcome { quit: false, command: Option::None }),
        TuiInput::Terminal(res) => match res {
            // A failed terminal source surfaces as an error; the caller
            // logs it and restarts the stream with the state intact.
            Result::Err(msg) => post == pre && acts_post == acts_pre && r == Result::<
                HandleOutcome,
                UiError,
            >::Err(UiError::TerminalInput(msg)),
            Result::Ok(ev) => if spec_should_quit(ev) {
                // The global quit keys stop the loop from any state.
                post == pre && acts_post == acts_pre && r == Result::<
                    HandleOutcome,
                    UiError,
                >::Ok(HandleOutcome { quit: true, command: Option::None })
            } else {
                &&& root_event_post(pre, post, acts_pre, acts_post, ev, tasks, lower_result(r))
                &&& (r matches Ok(o) ==> o.quit == false && !(o.command matches Some(
                    RootCommand::StartSession(..),
                )))
            },
        },
        TuiInput::EnterProfile(profile) => {
            &&& acts_post == acts_pre
            &&& post.profiles_state == pre.profiles_state
            &&& if index_entries(pre.session_index).contains_key(profile.app_id@) {
                // Entering a profile already entered before reuses its
                // session: nothing is created, nothing re-subscribed.
                &&& post.ditto_app_states == pre.ditto_app_states
                &&& index_entries(post.session_index) == index_entries(pre.session_index)
                &&& post.active_ditto_app == Option::Some(profile.app_id)
                &&& post.focus is TodoList
                &&& r == Result::<HandleOutcome, UiError>::Ok(
                    HandleOutcome { quit: false, command: Option::None },
                )
            } else {
                // First entry: the embedder must start the session; the
                // state does not change until that succeeds.
                &&& post == pre
                &&& r == Result::<HandleOutcome, UiError>::Ok(
                    HandleOutcome {
                        quit: false,
                        command: Option::Some(RootCommand::StartSession(profile)),
                    },
                )
            }
        },
        TuiInput::ExitProfile => {
            &&& acts_post == acts_pre
            &&& post == (RootContainerState { focus: RootContainerFocus::Profiles, ..pre })
            &&& r == Result::<HandleOutcome, UiError>::Ok(
                HandleOutcome { quit: false, command: Option::None },
            )
        },
    }
}

impl RootContainerState {
    /// The initial state: picker focused, no sessions, nothing active.
    pub fn new() -> (r: Self)
        ensures
            r.wf(),
            r.focus is Profiles,
            r.profiles_state.profiles_list_state.items@.len() == 0,
            r.ditto_app_states@.len() == 0,
            index_entries(r.session_index) == crate::registry::empty_index(),
            r.active_ditto_app is None,
    {
        RootContainerState {
            focus: RootContainerFocus::Profiles,
            profiles_state: ProfilesState::new(),
            ditto_app_states: Vec::new(),
            session_index: registry_new(),
            active_ditto_app: None,
        }
    }

    /// The active session, when the registry knows one.
    pub fn active_ditto_app(&self) -> (r: Option<&TodolistState>)
        requires
            self.wf(),
        ensures
            match r {
                Option::Some(s) => match self.active_ditto_app {
                    Option::Some(id) => {
                        &&& index_entries(self.session_index).contains_key(id@)
                        &&& *s == self.ditto_app_states@[index_entries(self.session_index)[id@] as int]
                    },
                    Option::None => false,
                },
                Option::None => match self.active_ditto_app {
                    Option::Some(id) => !index_entries(self.session_index).contains_key(id@),
                    Option::None => true,
                },
            },
    {
        let id = match &self.active_ditto_app {
            Some(id) => id,
            None => {
                return None;
            },
        };
        match registry_get(&self.session_index, id) {
            Some(i) => Some(&self.ditto_app_states[i]),
            None => None,
        }
    }

    /// The snapshot of the active session, or the empty list when no
    /// session is active. The slot is fed concurrently, so nothing can
    /// be promised about a non-empty read; every consumer is verified
    /// for every value.
    pub fn active_tasks(&self) -> (r: Vec<TodoItem>)
        requires
            self.wf(),
        ensures
            self.active_ditto_app is None ==> r@.len() == 0,
    {
        match self.active_ditto_app() {
            Some(s) => s.current_tasks(),
            None => Vec::new(),
        }
    }

    /// Handle one item of the merged input stream. The full behaviour is
    /// the transition relation [`root_input_post`]; well-formedness is
    /// preserved.
    pub fn handle_input(
        &mut self,
        actions: &mut TuiActions,
        input: TuiInput,
        tasks: &Vec<TodoItem>,
    ) -> (r: Result<HandleOutcome, UiError>)
        requires
            old(self).wf(),
        ensures
            final(self).wf(),
            root_input_post(
                *old(self),
                *final(self),
                old(actions).queued@,
                final(actions).queued@,
                input,
                tasks@,
                r,
            ),
    {
        match input {
            TuiInput::FrameTick => Ok(HandleOutcome { quit: false, command: None }),
            TuiInput::Terminal(res) => {
                let ev = match res {
                    Ok(ev) => ev,
                    Err(msg) => {
                        return Err(UiError::TerminalInput(msg));
                    },
                };
                if should_quit(&ev) {
                    return Ok(HandleOutcome { quit: true, command: None });
                }
                match self.try_handle_event(actions, &ev, tasks) {
                    Ok(Some(m)) => Ok(
                        HandleOutcome {
                            quit: false,
                            command: Some(RootCommand::Mutation(m)),
                        },
                    ),
                    Ok(None) => Ok(HandleOutcome { quit: false, command: None }),
                    Err(e) => Err(e),
                }
            },
            TuiInput::EnterProfile(profile) => {
                let known = registry_get(&self.session_index, &profile.app_id);
                match known {
                    Some(_slot) => {
                        self.active_ditto_app = Some(profile.app_id);
                        self.focus = RootContainerFocus::TodoList;
                        Ok(HandleOutcome { quit: false, command: None })
                    },
                    None => Ok(
                        HandleOutcome {
                            quit: false,
                            command: Some(RootCommand::StartSession(profile)),
                        },
                    ),
                }
            },
            TuiInput::ExitProfile => {
                self.focus = RootContainerFocus::Profiles;
                Ok(HandleOutcome { quit: false, command: None })
            },
        }
    }

    /// Dispatch one terminal event to the focused screen. The full
    /// behaviour is the transition relation [`root_event_post`].
    pub fn try_handle_event(
        &mut self,
        actions: &mut TuiActions,
        event: &Event,
        tasks: &Vec<TodoItem>,
    ) -> (r: Result<Option<MutationRequest>, UiError>)
        requires
            old(self).wf(),
        ensures
            final(self).wf(),
            root_event_post(
                *old(self),
                *final(self),
                old(actions).queued@,
                final(actions).queued@,
                *event,
                tasks@,
                r,
            ),
    {
        match self.focus {
            RootContainerFocus::Profiles => {
                self.profiles_state.handle_event(actions, event);
                Ok(None)
            },
            RootContainerFocus::TodoList => {
                let slot = match &self.active_ditto_app {
                    Some(id) => registry_get(&self.session_index, id),
                    None => None,
                };
                match slot {
                    None => Ok(None),
                    Some(i) => {
                        proof {
                            // the registry only files existing slots
                            assert(i < self.ditto_app_states@.len());
                        }
                        let sess = &mut self.ditto_app_states[i];
                        let eff = sess.try_handle_event(event, tasks);
                        match eff {
                            Ok(TodoEffect::Nothing) => Ok(None),
                            Ok(TodoEffect::ExitProfile) => {
                                actions.exit_profile();
                                Ok(None)
                            },
                            Ok(TodoEffect::Mutation(m)) => Ok(Some(m)),
                            Err(e) => Err(e),
                        }
                    },
                }
            },
        }
    }

    /// Install a freshly started session: append it, file its slot under
    /// its profile's application id, make it active and focus the task
    /// list. Called by the embedder once the profile's sync session
    /// started successfully.
    pub fn finish_start_session(&mut self, session: TodolistState)
        requires
            old(self).wf(),
        ensures
            final(self).wf(),
            final(self).ditto_app_states@ == old(self).ditto_app_states@.push(session),
            index_entries(final(self).session_index) == index_entries(
                old(self).session_index,
            ).insert(session.profile.app_id@, old(self).ditto_app_states@.len() as usize),
            final(self).active_ditto_app == Option::Some(session.profile.app_id),
            final(self).focus is TodoList,
            final(self).profiles_state == old(self).profiles_state,
    {
        let slot = self.ditto_app_states.len();
        let app_id = session.profile.app_id.clone();
        self.active_ditto_app = Some(session.profile.app_id.clone());
        let _ = registry_insert(&mut self.session_index, app_id, slot);
        self.ditto_app_states.push(session);
        self.focus = RootContainerFocus::TodoList;
    }

    /// Breadcrumb fragments for the title line: the leading marker, then
    /// the focused screen's own fragments.
    pub fn breadcrumb(&self) -> (r: Vec<String>)
        requires
            self.wf(),
        ensures
            r@.len() >= 1,
            r@[0]@ == " ❯❯ "@,
            self.focus is Profiles ==> r@.len() == 2 && r@[1]@ == "Profiles "@,
            self.focus is TodoList ==> match self.active_ditto_app {
                Option::Some(id) => {
                    let s = self.ditto_app_states@[index_entries(self.session_index)[id@] as int];
                    &&& r@.len() == 3
                    &&& r@[1]@ == (match s.profile.name {
                        Option::Some(nm) => nm@,
                        Option::None => s.profile.app_id@,
                    }).push(' ')
                    &&& r@[2]@ == "❯❯ "@
                },
                Option::None => false,
            },
    {
        let mut crumbs: Vec<String> = Vec::new();
        crumbs.push(" ❯❯ ".to_owned());
        match self.focus {
            RootContainerFocus::Profiles => {
                let mut more = self.profiles_state.breadcrumbs();
                crumbs.append(&mut more);
            },
            RootContainerFocus::TodoList => {
                match self.active_ditto_app() {
                    Some(s) => {
                        let mut more = s.breadcrumbs();
                        crumbs.append(&mut more);
                    },
                    None => {},
                }
            },
        }
        crumbs
    }
}

/// Widget marker for the whole screen; its drawing lives with the
/// embedder, which renders from a [`RootContainerState`].
pub struct RootContainer {}

impl RootContainer {
    pub fn new() -> Self {
        Self {  }
    }
}

} // verus!
