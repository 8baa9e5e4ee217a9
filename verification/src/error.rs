//! Errors a single event-handling step can surface.
//!
//! Every fallible handler returns one of these; the embedder logs it and
//! continues the loop. No error unwinds past the handling of one input.

use vstd::prelude::*;

verus! {

/// Why handling one input failed.
#[derive(Debug, PartialEq, Eq)]
pub enum UiError {
    /// An action needed a selected row, but no row is selected.
    NoSelection,
    /// The terminal input source reported an error instead of an event.
    TerminalInput(String),
}

impl UiError {
    /// A human-readable description, for the embedder's log.
    pub fn message(&self) -> (r: String)
        ensures
            r@ == match *self {
                UiError::NoSelection => "failed to get selected index"@,
                UiError::TerminalInput(m) => m@,
            },
    {
        match self {
            UiError::NoSelection => "failed to get selected index".to_owned(),
            UiError::TerminalInput(m) => m.clone(),
        }
    }
}

} // verus!
