//! Verified core of a terminal task-list application.
//!
//! The library models the event-driven UI state machine of the app: a
//! profile picker, a per-profile task browser with modal text entry, and
//! the mutation requests those screens issue against an external
//! document-sync store. Terminal I/O, rendering and the sync transport
//! live with the embedder; this crate owns the decisions.

pub mod actions;
pub mod config;
pub mod error;
pub mod input;
pub mod laws;
pub mod profiles;
pub mod registry;
pub mod root;
pub mod snapshot;
pub mod table;
pub mod tasks;
pub mod todolist;

pub use input::Event;
pub use input::KeyCode;
pub use input::KeyEvent;
