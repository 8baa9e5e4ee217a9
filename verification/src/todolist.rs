//! Per-profile task browser: the Todo session state machine.
//!
//! A session owns the selection cursor, the modal edit buffer and the
//! live snapshot slot for one profile. Its handler interprets one key
//! against the current mode and snapshot and yields at most one effect:
//! an exit request, or one mutation request for the embedder to execute.
//! The transition relation [`session_step_post`] is the contract; it
//! follows the per-mode key table of the UI design.

use vstd::prelude::*;

use crate::config::Profile;
use crate::error::UiError;
use crate::input::Event;
use crate::input::KeyCode;
use crate::snapshot::read_tasks;
use crate::snapshot::tasks_channel;
use crate::table::TableState;
use crate::table::spec_select_next;
use crate::table::spec_select_previous;
use crate::table::spec_selected;
use crate::tasks::MutationRequest;
use crate::tasks::TodoItem;
use crate::tasks::toggle_done_value;

verus! {

/// Relies on `String::push`: appends the character to the end of the
/// string.
pub assume_specification[ String::push ](s: &mut String, c: char)
    ensures
        final(s)@ == old(s)@.push(c),
;

/// Relies on `String::pop`: removes and returns the last character, or
/// returns `None` and leaves the string unchanged when it is empty.
pub assume_specification[ String::pop ](s: &mut String) -> (r: Option<char>)
    ensures
        old(s)@.len() > 0 ==> r == Some(old(s)@.last()) && final(s)@ == old(s)@.drop_last(),
        old(s)@.len() == 0 ==> r == None::<char> && final(s)@ == old(s)@,
;

/// Mode of the task browser: at most one edit buffer is open at a time,
/// and while one is open, list navigation is suppressed and character
/// keys are routed into the buffer.
#[derive(Debug, PartialEq, Eq)]
pub enum TodoMode {
    /// No buffer open; keys navigate the list and act on the selection.
    Normal,
    /// The "new task" dialog is open, holding the title typed so far.
    CreateTask { buffer: String },
    /// The "edit task" dialog is open for the task with key `id`.
    EditTask { id: String, buffer: String },
}

/// Mathematical image of a [`TodoMode`].
pub enum ModeView {
    Normal,
    CreateTask { buffer: Seq<char> },
    EditTask { id: Seq<char>, buffer: Seq<char> },
}

impl View for TodoMode {
    type V = ModeView;

    open spec fn view(&self) -> ModeView {
        match self {
            TodoMode::Normal => ModeView::Normal,
            TodoMode::CreateTask { buffer } => ModeView::CreateTask { buffer: buffer@ },
            TodoMode::EditTask { id, buffer } => ModeView::EditTask { id: id@, buffer: buffer@ },
        }
    }
}

/// How one key changes the mode while an edit buffer is open: characters
/// append, backspace deletes the last character or cancels once the
/// buffer is empty, escape always cancels, and enter submits a non-empty
/// buffer. On a `Normal` mode this is the identity; the `Normal`-mode
/// transitions also depend on the snapshot and are stated separately.
pub open spec fn mode_step(m: ModeView, code: KeyCode) -> ModeView {
    match m {
        ModeView::Normal => m,
        ModeView::CreateTask { buffer } => match code {
            KeyCode::Char(c) => ModeView::CreateTask { buffer: buffer.push(c) },
            KeyCode::Backspace => if buffer.len() == 0 {
                ModeView::Normal
            } else {
                ModeView::CreateTask { buffer: buffer.drop_last() }
            },
            KeyCode::Esc => ModeView::Normal,
            KeyCode::Enter => if buffer.len() == 0 {
                m
            } else {
                ModeView::Normal
            },
            _ => m,
        },
        ModeView::EditTask { id, buffer } => match code {
            KeyCode::Char(c) => ModeView::EditTask { id, buffer: buffer.push(c) },
            KeyCode::Backspace => if buffer.len() == 0 {
                ModeView::Normal
            } else {
                ModeView::EditTask { id, buffer: buffer.drop_last() }
            },
            KeyCode::Esc => ModeView::Normal,
            KeyCode::Enter => if buffer.len() == 0 {
                m
            } else {
                ModeView::Normal
            },
            _ => m,
        },
    }
}

/// The buffer currently open for typing, if any.
pub open spec fn spec_active_buffer(m: TodoMode) -> Option<Seq<char>> {
    match m {
        TodoMode::Normal => Option::None,
        TodoMode::CreateTask { buffer } => Option::Some(buffer@),
        TodoMode::EditTask { buffer, .. } => Option::Some(buffer@),
    }
}

/// What handling one key yields besides a state change.
#[derive(Debug, PartialEq, Eq)]
pub enum TodoEffect {
    /// The key was consumed (or ignored) without any outward effect.
    Nothing,
    /// The user asked to leave this profile's task list.
    ExitProfile,
    /// The embedder must execute this mutation against the store.
    Mutation(MutationRequest),
}

/// Shorthand for the "consumed, no effect" result.
pub open spec fn ok_nothing() -> Result<TodoEffect, UiError> {
    Result::Ok(TodoEffect::Nothing)
}

/// Shorthand for the "needs a selection, none exists" result.
pub open spec fn no_selection() -> Result<TodoEffect, UiError> {
    Result::Err(UiError::NoSelection)
}

/// One session of the task browser, bound to one profile. It holds the
/// receiving half of the snapshot slot; the sending half lives inside
/// the profile's observer callback.
pub struct TodolistState {
    pub profile: Profile,
    pub mode: TodoMode,
    pub table_state: TableState,
    pub tasks_rx: tokio::sync::watch::Receiver<Vec<TodoItem>>,
}

/// Transition relation of [`TodolistState::try_handle_event`] for a key
/// pressed in `Normal` mode, against the snapshot `tasks`. The selected
/// row is the cursor clamped into the snapshot; actions that need a
/// selection fail with `NoSelection` exactly when there is none.
pub open spec fn session_step_normal(
    pre: TodolistState,
    post: TodolistState,
    code: KeyCode,
    tasks: Seq<TodoItem>,
    r: Result<TodoEffect, UiError>,
) -> bool {
    let n = tasks.len() as usize;
    let sel = spec_selected(pre.table_state.selected, n);
    &&& post.profile == pre.profile
    &&& post.tasks_rx == pre.tasks_rx
    &&& if code == KeyCode::Esc {
        post == pre && r == Result::<TodoEffect, UiError>::Ok(TodoEffect::ExitProfile)
    } else if code == KeyCode::Up || code == KeyCode::Char('k') {
        &&& post.mode == pre.mode
        &&& post.table_state.selected == spec_select_previous(pre.table_state.selected, n)
        &&& r == ok_nothing()
    } else if code == KeyCode::Down || code == KeyCode::Char('j') {
        &&& post.mode == pre.mode
        &&& post.table_state.selected == spec_select_next(pre.table_state.selected, n)
        &&& r == ok_nothing()
    } else if code == KeyCode::Char('c') {
        &&& post.table_state == pre.table_state
        &&& (post.mode matches TodoMode::CreateTask { buffer } && buffer@ == Seq::<char>::empty())
        &&& r == ok_nothing()
    } else if code == KeyCode::Char('e') {
        match sel {
            Option::Some(i) => {
                &&& post.table_state == pre.table_state
                &&& (post.mode matches TodoMode::EditTask { id, buffer } && id == tasks[i as int].id
                    && buffer == tasks[i as int].title)
                &&& r == ok_nothing()
            },
            Option::None => post == pre && r == no_selection(),
        }
    } else if code == KeyCode::Char('d') {
        match sel {
            Option::Some(i) => post == pre && r == Result::<TodoEffect, UiError>::Ok(
                TodoEffect::Mutation(MutationRequest::SoftDelete { id: tasks[i as int].id }),
            ),
            Option::None => post == pre && r == no_selection(),
        }
    } else if code == KeyCode::Enter || code == KeyCode::Char(' ') {
        match sel {
            Option::Some(i) => post == pre && r == Result::<TodoEffect, UiError>::Ok(
                TodoEffect::Mutation(
                    MutationRequest::SetDone {
                        id: tasks[i as int].id,
                        done: toggle_done_value(tasks, i as int),
                    },
                ),
            ),
            Option::None => post == pre && r == no_selection(),
        }
    } else {
        post == pre && r == ok_nothing()
    }
}

/// Transition relation of [`TodolistState::try_handle_event`] for a key
/// pressed while an edit buffer is open. The mode moves by
/// [`mode_step`]; submitting a non-empty buffer yields exactly one
/// mutation, everything else yields none.
pub open spec fn session_step_editing(
    pre: TodolistState,
    post: TodolistState,
    code: KeyCode,
    r: Result<TodoEffect, UiError>,
) -> bool {
    &&& post.profile == pre.profile
    &&& post.tasks_rx == pre.tasks_rx
    &&& post.table_state == pre.table_state
    &&& post.mode@ == mode_step(pre.mode@, code)
    &&& match pre.mode {
        TodoMode::Normal => false,
        TodoMode::CreateTask { buffer } => if code == KeyCode::Enter && buffer@.len() > 0 {
            r matches Ok(TodoEffect::Mutation(MutationRequest::InsertTask { task }))
                && task.title == buffer && task.done == false && task.deleted == false
                && task.id@.len() == 36
        } else {
            r == ok_nothing()
        },
        TodoMode::EditTask { id, buffer } => if code == KeyCode::Enter && buffer@.len() > 0 {
            r == Result::<TodoEffect, UiError>::Ok(
                TodoEffect::Mutation(MutationRequest::SetTitle { id, title: buffer }),
            )
        } else {
            r == ok_nothing()
        },
    }
}

/// Full transition relation of [`TodolistState::try_handle_event`]: a
/// key is dispatched by mode, every other terminal event is ignored.
pub open spec fn session_step_post(
    pre: TodolistState,
    post: TodolistState,
    event: Event,
    tasks: Seq<TodoItem>,
    r: Result<TodoEffect, UiError>,
) -> bool {
    match event {
        Event::Key(k) => if pre.mode is Normal {
            session_step_normal(pre, post, k.code, tasks, r)
        } else {
            session_step_editing(pre, post, k.code, r)
        },
        Event::Other => post == pre && r == ok_nothing(),
    }
}

impl TodolistState {
    /// A fresh session for `profile`: normal mode, nothing selected, and
    /// a new snapshot slot whose sending half is returned for the
    /// embedder to move into the profile's observer callback.
    pub fn new(profile: Profile) -> (r: (
        TodolistState,
        tokio::sync::watch::Sender<Vec<TodoItem>>,
    ))
        ensures
            r.0.profile == profile,
            r.0.mode is Normal,
            r.0.table_state.selected == Option::<usize>::None,
    {
        let (tx, rx) = tasks_channel();
        let state = TodolistState {
            profile,
            mode: TodoMode::Normal,
            table_state: TableState::new(),
            tasks_rx: rx,
        };
        (state, tx)
    }

    /// The snapshot most recently published by this session's observer.
    /// The producer runs concurrently, so nothing can be promised about
    /// the value; every consumer of it is verified for every value.
    pub fn current_tasks(&self) -> Vec<TodoItem> {
        read_tasks(&self.tasks_rx)
    }

    /// Whether an edit buffer (create or edit) is open.
    pub fn is_popup_open(&self) -> (r: bool)
        ensures
            r == !(self.mode is Normal),
    {
        match &self.mode {
            TodoMode::Normal => false,
            _ => true,
        }
    }

    /// The buffer currently open for typing, if any.
    pub fn active_buffer(&self) -> (r: Option<&String>)
        ensures
            match r {
                Option::Some(b) => Option::Some(b@) == spec_active_buffer(self.mode),
                Option::None => self.mode is Normal,
            },
    {
        match &self.mode {
            TodoMode::Normal => None,
            TodoMode::CreateTask { buffer } => Some(buffer),
            TodoMode::EditTask { buffer, .. } => Some(buffer),
        }
    }

    /// Breadcrumb fragments for the title line: the profile's nickname
    /// (or its application id) with a trailing space, then a separator.
    pub fn breadcrumbs(&self) -> (r: Vec<String>)
        ensures
            r@.len() == 2,
            r@[0]@ == (match self.profile.name {
                Option::Some(n) => n@,
                Option::None => self.profile.app_id@,
            }).push(' '),
            r@[1]@ == "❯❯ "@,
    {
        let mut name = match &self.profile.name {
            Some(n) => n.clone(),
            None => self.profile.app_id.clone(),
        };
        name.push(' ');
        let mut r: Vec<String> = Vec::new();
        r.push(name);
        r.push("❯❯ ".to_owned());
        r
    }

    /// Apply one terminal event to this session against the snapshot
    /// `tasks`, yielding at most one effect. The full behaviour is the
    /// transition relation [`session_step_post`].
    pub fn try_handle_event(&mut self, event: &Event, tasks: &Vec<TodoItem>) -> (r: Result<
        TodoEffect,
        UiError,
    >)
        ensures
            session_step_post(*old(self), *final(self), *event, tasks@, r),
    {
        let code = match event {
            Event::Key(k) => k.code,
            Event::Other => {
                return Ok(TodoEffect::Nothing);
            },
        };
        if self.is_popup_open() {
            self.handle_editing(code)
        } else {
            self.handle_normal(code, tasks)
        }
    }

    /// Normal-mode key dispatch: navigation, opening buffers, and the
    /// selection-based mutations.
    fn handle_normal(&mut self, code: KeyCode, tasks: &Vec<TodoItem>) -> (r: Result<
        TodoEffect,
        UiError,
    >)
        requires
            old(self).mode is Normal,
        ensures
            session_step_normal(*old(self), *final(self), code, tasks@, r),
    {
        let n = tasks.len();
        match code {
            KeyCode::Esc => Ok(TodoEffect::ExitProfile),
            KeyCode::Up => {
                self.table_state.select_previous(n);
                Ok(TodoEffect::Nothing)
            },
            KeyCode::Down => {
                self.table_state.select_next(n);
                Ok(TodoEffect::Nothing)
            },
            KeyCode::Enter => self.try_toggle_done(tasks),
            KeyCode::Char(c) => {
                if c == 'k' {
                    self.table_state.select_previous(n);
                    Ok(TodoEffect::Nothing)
                } else if c == 'j' {
                    self.table_state.select_next(n);
                    Ok(TodoEffect::Nothing)
                } else if c == 'c' {
                    self.mode = TodoMode::CreateTask { buffer: String::new() };
                    Ok(TodoEffect::Nothing)
                } else if c == 'd' {
                    self.try_delete_task(tasks)
                } else if c == 'e' {
                    match self.table_state.selected(n) {
                        None => Err(UiError::NoSelection),
                        Some(i) => {
                            let t = &tasks[i];
                            let id = t.id.clone();
                            let buffer = t.title.clone();
                            self.mode = TodoMode::EditTask { id, buffer };
                            Ok(TodoEffect::Nothing)
                        },
                    }
                } else if c == ' ' {
                    self.try_toggle_done(tasks)
                } else {
                    Ok(TodoEffect::Nothing)
                }
            },
            _ => Ok(TodoEffect::Nothing),
        }
    }

    /// Key dispatch while an edit buffer is open: typing, deleting,
    /// cancelling, and submission.
    fn handle_editing(&mut self, code: KeyCode) -> (r: Result<TodoEffect, UiError>)
        requires
            !(old(self).mode is Normal),
        ensures
            session_step_editing(*old(self), *final(self), code, r),
    {
        match code {
            KeyCode::Esc => {
                self.mode = TodoMode::Normal;
                Ok(TodoEffect::Nothing)
            },
            KeyCode::Char(c) => {
                match &mut self.mode {
                    TodoMode::CreateTask { buffer } => {
                        buffer.push(c);
                    },
                    TodoMode::EditTask { buffer, .. } => {
                        buffer.push(c);
                    },
                    TodoMode::Normal => {},
                }
                Ok(TodoEffect::Nothing)
            },
            KeyCode::Backspace => {
                let empty = match &self.mode {
                    TodoMode::CreateTask { buffer } => buffer.as_str().is_empty(),
                    TodoMode::EditTask { buffer, .. } => buffer.as_str().is_empty(),
                    TodoMode::Normal => true,
                };
                if empty {
                    self.mode = TodoMode::Normal;
                } else {
                    match &mut self.mode {
                        TodoMode::CreateTask { buffer } => {
                            let _ = buffer.pop();
                        },
                        TodoMode::EditTask { buffer, .. } => {
                            let _ = buffer.pop();
                        },
                        TodoMode::Normal => {},
                    }
                }
                Ok(TodoEffect::Nothing)
            },
            KeyCode::Enter => {
                let submit: Option<MutationRequest> = match &self.mode {
                    TodoMode::CreateTask { buffer } => if buffer.as_str().is_empty() {
                        None
                    } else {
                        Some(Self::try_create_new_todo(buffer.clone()))
                    },
                    TodoMode::EditTask { id, buffer } => if buffer.as_str().is_empty() {
                        None
                    } else {
                        Some(Self::try_edit_todo(id.clone(), buffer.clone()))
                    },
                    TodoMode::Normal => None,
                };
                match submit {
                    None => Ok(TodoEffect::Nothing),
                    Some(m) => {
                        self.mode = TodoMode::Normal;
                        Ok(TodoEffect::Mutation(m))
                    },
                }
            },
            _ => Ok(TodoEffect::Nothing),
        }
    }

    /// The mutation that toggles `done` on the selected task: it asks
    /// the store to write the negation of what the snapshot shows.
    pub fn try_toggle_done(&self, tasks: &Vec<TodoItem>) -> (r: Result<TodoEffect, UiError>)
        ensures
            match spec_selected(self.table_state.selected, tasks@.len() as usize) {
                Option::Some(i) => r == Result::<TodoEffect, UiError>::Ok(
                    TodoEffect::Mutation(
                        MutationRequest::SetDone {
                            id: tasks@[i as int].id,
                            done: toggle_done_value(tasks@, i as int),
                        },
                    ),
                ),
                Option::None => r == no_selection(),
            },
    {
        match self.table_state.selected(tasks.len()) {
            None => Err(UiError::NoSelection),
            Some(i) => {
                let t = &tasks[i];
                Ok(
                    TodoEffect::Mutation(
                        MutationRequest::SetDone { id: t.id.clone(), done: !t.done },
                    ),
                )
            },
        }
    }

    /// The mutation that soft-deletes the selected task.
    pub fn try_delete_task(&self, tasks: &Vec<TodoItem>) -> (r: Result<TodoEffect, UiError>)
        ensures
            match spec_selected(self.table_state.selected, tasks@.len() as usize) {
                Option::Some(i) => r == Result::<TodoEffect, UiError>::Ok(
                    TodoEffect::Mutation(MutationRequest::SoftDelete { id: tasks@[i as int].id }),
                ),
                Option::None => r == no_selection(),
            },
    {
        match self.table_state.selected(tasks.len()) {
            None => Err(UiError::NoSelection),
            Some(i) => {
                let t = &tasks[i];
                Ok(TodoEffect::Mutation(MutationRequest::SoftDelete { id: t.id.clone() }))
            },
        }
    }

    /// The mutation that inserts a new task with the given title, not
    /// done and not deleted, under a fresh random id.
    pub fn try_create_new_todo(title: String) -> (m: MutationRequest)
        ensures
            m matches MutationRequest::InsertTask { task } && task.title == title && task.done
                == false && task.deleted == false && task.id@.len() == 36,
    {
        MutationRequest::InsertTask { task: TodoItem::new(title) }
    }

    /// The mutation that renames the task with key `id` to `title`.
    pub fn try_edit_todo(id: String, title: String) -> (m: MutationRequest)
        ensures
            m == (MutationRequest::SetTitle { id, title }),
    {
        MutationRequest::SetTitle { id, title }
    }
}

/// Widget marker for the task browser; its drawing lives with the
/// embedder, which renders from a [`TodolistState`].
pub struct TodolistContainer {}

impl TodolistContainer {
    pub fn new() -> Self {
        Self {  }
    }
}

} // verus!
