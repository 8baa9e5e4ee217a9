//! The task-list snapshot slot.
//!
//! Each session owns the receiving half of a single-slot "latest value"
//! channel. The sync layer's observer callback, running on its own
//! thread, replaces the slot's content wholesale whenever the query
//! result changes; the UI reads by cloning the current snapshot. Readers
//! see either the previous or the new complete snapshot, never a partial
//! one. Because the producer runs concurrently, no contract can pin what
//! a read returns; everything that consumes a snapshot is verified for
//! every possible value.

use vstd::prelude::*;

use crate::tasks::TodoItem;

verus! {

/// The sending half of tokio's single-slot watch channel, declared so it
/// can appear in signatures. Opaque to verification.
#[verifier::external_type_specification]
#[verifier::external_body]
#[verifier::reject_recursive_types(T)]
pub struct ExWatchSender<T>(tokio::sync::watch::Sender<T>);

/// The receiving half of tokio's single-slot watch channel, declared so
/// it can appear in signatures. Opaque to verification.
#[verifier::external_type_specification]
#[verifier::external_body]
#[verifier::reject_recursive_types(T)]
pub struct ExWatchReceiver<T>(tokio::sync::watch::Receiver<T>);

/// Relies on `tokio::sync::watch::channel`: a fresh single-slot channel,
/// initially holding the empty task list. Sends replace the slot; reads
/// return its current content. Nothing about later reads can be promised
/// here, since the sender is handed to a concurrent producer.
#[verifier::external_body]
pub(crate) fn tasks_channel() -> (r: (
    tokio::sync::watch::Sender<Vec<TodoItem>>,
    tokio::sync::watch::Receiver<Vec<TodoItem>>,
))
{
    tokio::sync::watch::channel(Vec::new())
}

/// Relies on `tokio::sync::watch::Receiver::borrow`: yields the value
/// most recently sent on the channel (a complete snapshot). The producer
/// runs concurrently, so no particular snapshot can be promised; callers
/// must handle every value.
#[verifier::external_body]
pub(crate) fn read_tasks(rx: &tokio::sync::watch::Receiver<Vec<TodoItem>>) -> (r: Vec<TodoItem>)
{
    rx.borrow().clone()
}

} // verus!
