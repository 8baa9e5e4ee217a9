//! Task records and the mutation requests the UI issues against the
//! external document store.
//!
//! The store owns the records; the UI only reads snapshots of them and
//! asks for changes by handing the embedder a [`MutationRequest`], which
//! the embedder executes against the sync service.

use vstd::prelude::*;

verus! {

/// One task, as the store reports it: a primary key, a title, a done
/// flag and a soft-delete flag.
#[derive(Debug, PartialEq, Eq)]
pub struct TodoItem {
    pub id: String,
    pub title: String,
    pub done: bool,
    pub deleted: bool,
}

impl Clone for TodoItem {
    fn clone(&self) -> (r: Self)
        ensures
            r == *self,
    {
        TodoItem {
            id: self.id.clone(),
            title: self.title.clone(),
            done: self.done,
            deleted: self.deleted,
        }
    }
}

/// Relies on `uuid::Uuid::new_v4` and its display form: a fresh random
/// version-4 UUID rendered as the 36-character hyphenated string. The
/// result is random; nothing beyond its length is promised.
#[verifier::external_body]
fn fresh_task_id() -> (r: String)
    ensures
        r@.len() == 36,
{
    uuid::Uuid::new_v4().to_string()
}

impl TodoItem {
    /// A new, not-yet-stored task: the given title, not done, not
    /// deleted, under a fresh randomly generated id.
    pub fn new(title: String) -> (r: TodoItem)
        ensures
            r.title == title,
            r.done == false,
            r.deleted == false,
            r.id@.len() == 36,
    {
        TodoItem { id: fresh_task_id(), title, done: false, deleted: false }
    }
}

/// The `done` value a toggle on row `i` of `tasks` asks the store to
/// write: the negation of what the snapshot currently shows.
pub open spec fn toggle_done_value(tasks: Seq<TodoItem>, i: int) -> bool {
    !tasks[i].done
}

/// One requested change to the task collection. Requests are data; the
/// embedder turns each into one templated statement plus parameters and
/// executes it asynchronously.
#[derive(Debug, PartialEq, Eq)]
pub enum MutationRequest {
    /// Insert `task` as a new document.
    InsertTask { task: TodoItem },
    /// Set the `done` field of the task with key `id` to `done`.
    SetDone { id: String, done: bool },
    /// Set the `title` field of the task with key `id` to `title`.
    SetTitle { id: String, title: String },
    /// Set the `deleted` field of the task with key `id` to true.
    SoftDelete { id: String },
}

impl MutationRequest {
    /// The templated query statement this request executes, with one
    /// named parameter per value carried by the request.
    pub fn statement(&self) -> (r: &'static str)
        ensures
            r@ == match *self {
                MutationRequest::InsertTask { .. } => "INSERT INTO tasks DOCUMENTS (:task)"@,
                MutationRequest::SetDone { .. } => "UPDATE tasks SET done=:done WHERE _id=:id"@,
                MutationRequest::SetTitle { .. } => "UPDATE tasks SET title=:title WHERE _id=:id"@,
                MutationRequest::SoftDelete { .. } => "UPDATE tasks SET deleted=true WHERE _id=:id"@,
            },
    {
        match self {
            MutationRequest::InsertTask { .. } => "INSERT INTO tasks DOCUMENTS (:task)",
            MutationRequest::SetDone { .. } => "UPDATE tasks SET done=:done WHERE _id=:id",
            MutationRequest::SetTitle { .. } => "UPDATE tasks SET title=:title WHERE _id=:id",
            MutationRequest::SoftDelete { .. } => "UPDATE tasks SET deleted=true WHERE _id=:id",
        }
    }
}

} // verus!
