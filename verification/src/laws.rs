//! Laws of the state machine: properties that relate several steps or
//! several functions, proved once over the spec functions the handlers'
//! contracts are stated with.

use vstd::prelude::*;

use crate::actions::TuiInput;
use crate::config::Profile;
use crate::error::UiError;
use crate::input::KeyCode;
use crate::registry::index_entries;
use crate::root::HandleOutcome;
use crate::root::RootContainerState;
use crate::root::root_input_post;
use crate::table::spec_select_next;
use crate::table::spec_select_previous;
use crate::table::spec_selected;
use crate::tasks::TodoItem;
use crate::tasks::toggle_done_value;
use crate::todolist::ModeView;
use crate::todolist::TodolistState;
use crate::todolist::TodoEffect;
use crate::todolist::mode_step;
use crate::todolist::ok_nothing;
use crate::todolist::session_step_editing;

verus! {

/// Whether `code` is one of the list navigation keys.
pub open spec fn is_nav_key(code: KeyCode) -> bool {
    ||| code == KeyCode::Up
    ||| code == KeyCode::Char('k')
    ||| code == KeyCode::Down
    ||| code == KeyCode::Char('j')
}

/// The cursor after one navigation key: up-like keys step back,
/// down-like keys step forward, both saturating.
pub open spec fn nav_step(sel: Option<usize>, len: usize, code: KeyCode) -> Option<usize> {
    if code == KeyCode::Up || code == KeyCode::Char('k') {
        spec_select_previous(sel, len)
    } else {
        spec_select_next(sel, len)
    }
}

/// The cursor after a sequence of navigation keys, applied in order.
pub open spec fn nav_steps(sel: Option<usize>, len: usize, keys: Seq<KeyCode>) -> Option<usize>
    decreases keys.len(),
{
    if keys.len() == 0 {
        sel
    } else {
        nav_steps(nav_step(sel, len, keys[0]), len, keys.drop_first())
    }
}

/// One navigation key keeps the cursor inside a non-empty table.
proof fn lemma_nav_step_in_range(sel: Option<usize>, len: usize, code: KeyCode)
    requires
        len > 0,
        sel matches Some(i) ==> i < len,
    ensures
        nav_step(sel, len, code) matches Some(j) && j < len,
{
}

/// LAW: for every sequence of navigation keys applied to a table of
/// `len > 0` rows with the cursor in range (or not yet set), the cursor
/// ends in `[0, len-1]`; it can never leave the table. The handlers'
/// contracts move the cursor exactly by [`nav_step`], so this covers any
/// run of navigation keys on the profile picker or the task list.
pub proof fn lemma_navigation_stays_in_range(sel: Option<usize>, len: usize, keys: Seq<KeyCode>)
    requires
        len > 0,
        sel matches Some(i) ==> i < len,
        keys.len() > 0,
    ensures
        nav_steps(sel, len, keys) matches Some(j) && j < len,
    decreases keys.len(),
{
    lemma_nav_step_in_range(sel, len, keys[0]);
    if keys.len() > 1 {
        lemma_navigation_stays_in_range(nav_step(sel, len, keys[0]), len, keys.drop_first());
    }
}

/// LAW: a navigation key pressed on the profile picker moves the cursor
/// exactly by [`nav_step`] and queues nothing, so
/// [`lemma_navigation_stays_in_range`] applies to any run of navigation
/// keys on a non-empty picker.
pub proof fn lemma_picker_navigation_is_nav_step(
    pre: crate::profiles::ProfilesState,
    post: crate::profiles::ProfilesState,
    acts_pre: Seq<TuiInput>,
    acts_post: Seq<TuiInput>,
    k: crate::input::KeyEvent,
)
    requires
        crate::profiles::profiles_step_post(
            pre,
            post,
            acts_pre,
            acts_post,
            crate::input::Event::Key(k),
        ),
        is_nav_key(k.code),
    ensures
        post.profiles_list_state.table_state.selected == nav_step(
            pre.profiles_list_state.table_state.selected,
            pre.profiles_list_state.items@.len() as usize,
            k.code,
        ),
        acts_post == acts_pre,
{
}

/// Whether every key in the sequence is a plain character key.
pub open spec fn all_char_keys(keys: Seq<KeyCode>) -> bool {
    forall|i: int| 0 <= i < keys.len() ==> keys[i] is Char
}

/// The character a key types.
pub open spec fn char_of(k: KeyCode) -> char {
    match k {
        KeyCode::Char(c) => c,
        _ => ' ',
    }
}

/// The characters a sequence of character keys types, in order.
pub open spec fn chars_of(keys: Seq<KeyCode>) -> Seq<char>
    decreases keys.len(),
{
    if keys.len() == 0 {
        Seq::empty()
    } else {
        chars_of(keys.drop_last()).push(char_of(keys.last()))
    }
}

/// A key sequence types exactly one character per key.
proof fn lemma_chars_of_len(keys: Seq<KeyCode>)
    ensures
        chars_of(keys).len() == keys.len(),
    decreases keys.len(),
{
    if keys.len() > 0 {
        lemma_chars_of_len(keys.drop_last());
    }
}

/// `n` backspace keys.
pub open spec fn backspace_keys(n: nat) -> Seq<KeyCode> {
    Seq::new(n, |i: int| KeyCode::Backspace)
}

/// The mode after a sequence of keys pressed while a buffer is open.
pub open spec fn mode_steps(m: ModeView, keys: Seq<KeyCode>) -> ModeView
    decreases keys.len(),
{
    if keys.len() == 0 {
        m
    } else {
        mode_steps(mode_step(m, keys[0]), keys.drop_first())
    }
}

/// Splitting a key sequence splits the walk.
proof fn lemma_mode_steps_append(m: ModeView, ks1: Seq<KeyCode>, ks2: Seq<KeyCode>)
    ensures
        mode_steps(m, ks1 + ks2) == mode_steps(mode_steps(m, ks1), ks2),
    decreases ks1.len(),
{
    if ks1.len() == 0 {
        assert(ks1 + ks2 =~= ks2);
    } else {
        assert((ks1 + ks2).drop_first() =~= ks1.drop_first() + ks2);
        lemma_mode_steps_append(mode_step(m, ks1[0]), ks1.drop_first(), ks2);
    }
}

/// Typing character keys into an open create dialog appends their
/// characters to the buffer.
proof fn lemma_typing_appends(b: Seq<char>, keys: Seq<KeyCode>)
    requires
        all_char_keys(keys),
    ensures
        mode_steps(ModeView::CreateTask { buffer: b }, keys) == (
        ModeView::CreateTask { buffer: b + chars_of(keys) }),
    decreases keys.len(),
{
    if keys.len() == 0 {
        assert(b + chars_of(keys) =~= b);
    } else {
        let front = keys.drop_last();
        let lastk = Seq::<KeyCode>::empty().push(keys.last());
        assert forall|i: int| 0 <= i < front.len() implies front[i] is Char by {
            assert(front[i] == keys[i]);
        }
        assert(keys =~= front + lastk);
        lemma_mode_steps_append(ModeView::CreateTask { buffer: b }, front, lastk);
        lemma_typing_appends(b, front);
        assert(lastk[0] == keys.last());
        assert(lastk.drop_first() =~= Seq::<KeyCode>::empty());
        assert(keys[keys.len() - 1] is Char);
        let m1 = ModeView::CreateTask { buffer: b + chars_of(front) };
        assert(lastk.len() == 1);
        assert(mode_steps(m1, lastk) == mode_steps(mode_step(m1, lastk[0]), lastk.drop_first()));
        assert(mode_steps(mode_step(m1, lastk[0]), Seq::<KeyCode>::empty()) == mode_step(
            m1,
            lastk[0],
        ));
        assert(mode_steps(m1, lastk) == mode_step(m1, keys.last()));
        assert(mode_step(m1, keys.last()) == (ModeView::CreateTask {
            buffer: (b + chars_of(front)).push(char_of(keys.last())),
        }));
        assert((b + chars_of(front)).push(char_of(keys.last())) =~= b + chars_of(keys));
    }
}

/// Backspacing `n <= |b|` times shortens the buffer by `n` and keeps the
/// dialog open.
proof fn lemma_backspaces_drop(b: Seq<char>, n: nat)
    requires
        n <= b.len(),
    ensures
        mode_steps(ModeView::CreateTask { buffer: b }, backspace_keys(n)) == (
        ModeView::CreateTask { buffer: b.take(b.len() - n) }),
    decreases n,
{
    if n == 0 {
        assert(backspace_keys(0).len() == 0);
        assert(b.take(b.len() - 0) =~= b);
    } else {
        assert(backspace_keys(n)[0] == KeyCode::Backspace);
        assert(backspace_keys(n).drop_first() =~= backspace_keys((n - 1) as nat));
        assert(b.drop_last() =~= b.take(b.len() - 1));
        lemma_backspaces_drop(b.take(b.len() - 1), (n - 1) as nat);
        assert(b.take(b.len() - 1).take(b.len() - n) =~= b.take(b.len() - n));
    }
}

/// LAW: with the create dialog open on buffer `b`, typing any character
/// keys and then backspacing the same count leaves the dialog open with
/// `b` again — it does not spuriously exit.
pub proof fn lemma_type_then_backspace(b: Seq<char>, keys: Seq<KeyCode>)
    requires
        all_char_keys(keys),
    ensures
        mode_steps(
            ModeView::CreateTask { buffer: b },
            keys + backspace_keys(keys.len()),
        ) == (ModeView::CreateTask { buffer: b }),
{
    lemma_mode_steps_append(
        ModeView::CreateTask { buffer: b },
        keys,
        backspace_keys(keys.len()),
    );
    lemma_typing_appends(b, keys);
    lemma_chars_of_len(keys);
    lemma_backspaces_drop(b + chars_of(keys), keys.len());
    assert((b + chars_of(keys)).take(b.len() as int) =~= b);
}

/// LAW: one more backspace from an empty open buffer cancels the dialog.
pub proof fn lemma_backspace_on_empty_exits()
    ensures
        mode_step(ModeView::CreateTask { buffer: Seq::empty() }, KeyCode::Backspace)
            == ModeView::Normal,
{
}

/// LAW: submitting an open buffer that is empty is a no-op: the mode
/// does not change and no mutation is issued.
pub proof fn lemma_empty_submit_is_noop(
    pre: TodolistState,
    post: TodolistState,
    r: Result<TodoEffect, UiError>,
)
    requires
        session_step_editing(pre, post, KeyCode::Enter, r),
        match pre.mode {
            crate::todolist::TodoMode::Normal => false,
            crate::todolist::TodoMode::CreateTask { buffer } => buffer@.len() == 0,
            crate::todolist::TodoMode::EditTask { buffer, .. } => buffer@.len() == 0,
        },
    ensures
        post.mode@ == pre.mode@,
        post.table_state == pre.table_state,
        r == ok_nothing(),
{
}

/// LAW: pressing escape while a buffer is open cancels back to `Normal`,
/// discards the buffer, and issues no mutation.
pub proof fn lemma_escape_cancels(
    pre: TodolistState,
    post: TodolistState,
    r: Result<TodoEffect, UiError>,
)
    requires
        session_step_editing(pre, post, KeyCode::Esc, r),
        !(pre.mode is Normal),
    ensures
        post.mode is Normal,
        r == ok_nothing(),
{
    assert(mode_step(pre.mode@, KeyCode::Esc) == ModeView::Normal);
}

/// LAW: two toggles of `done` on the same row, with the store applying
/// the first in between, request the negation of the original value and
/// then the original value again.
pub proof fn lemma_toggle_twice(tasks: Seq<TodoItem>, i: int)
    requires
        0 <= i < tasks.len(),
    ensures
        toggle_done_value(tasks, i) == !tasks[i].done,
        toggle_done_value(
            tasks.update(
                i,
                TodoItem {
                    id: tasks[i].id,
                    title: tasks[i].title,
                    done: !tasks[i].done,
                    deleted: tasks[i].deleted,
                },
            ),
            i,
        ) == tasks[i].done,
{
}

/// LAW: a clamped read never leaves the table — it returns the cursor
/// itself while in range, the last row once the list has shrunk below
/// the cursor, and nothing only when nothing is selected or the list is
/// empty.
pub proof fn lemma_selected_clamps(sel: Option<usize>, len: usize)
    ensures
        match spec_selected(sel, len) {
            Option::Some(j) => {
                &&& j < len
                &&& (sel matches Some(i) && (i < len ==> j == i) && (i >= len ==> j + 1 == len))
            },
            Option::None => sel is None || len == 0,
        },
{
}

/// LAW: entering a profile whose session already exists reuses it: the
/// session list and the registry are unchanged, no start-session command
/// is issued, and the focus moves to the existing session.
pub proof fn lemma_reenter_reuses_session(
    pre: RootContainerState,
    post: RootContainerState,
    acts_pre: Seq<TuiInput>,
    acts_post: Seq<TuiInput>,
    profile: Profile,
    tasks: Seq<TodoItem>,
    r: Result<HandleOutcome, UiError>,
)
    requires
        root_input_post(pre, post, acts_pre, acts_post, TuiInput::EnterProfile(profile), tasks, r),
        index_entries(pre.session_index).contains_key(profile.app_id@),
    ensures
        post.ditto_app_states == pre.ditto_app_states,
        index_entries(post.session_index) == index_entries(pre.session_index),
        post.focus is TodoList,
        post.active_ditto_app == Option::Some(profile.app_id),
        r matches Ok(o) && o.command is None && o.quit == false,
{
}

} // verus!
