//! Inputs of the UI loop, and the queue handlers put new ones on.
//!
//! The embedder merges three asynchronous sources — terminal events, a
//! fixed-rate frame tick and this action queue — into one ordered stream
//! of [`TuiInput`] items. Handlers never touch the channel themselves:
//! they push follow-up actions onto a [`TuiActions`] collector, whose
//! content the embedder submits to the bounded queue after the step.

use vstd::prelude::*;

use crate::config::Profile;
use crate::input::Event;

verus! {

/// The set of input events the UI reacts to.
#[derive(Debug, PartialEq, Eq)]
pub enum TuiInput {
    /// One tick of the frame rate has passed; redraw.
    FrameTick,
    /// An input was received from the terminal, or the terminal source
    /// failed with the given message.
    Terminal(Result<Event, String>),
    /// Select a profile and open its task list.
    EnterProfile(Profile),
    /// Navigate up and out of the active profile.
    ExitProfile,
}

/// Collector for the navigation actions one handling step emits. The
/// embedder drains `queued`, in order, into the bounded action queue.
pub struct TuiActions {
    pub queued: Vec<TuiInput>,
}

impl TuiActions {
    /// An empty collector for one handling step.
    pub fn new() -> (r: Self)
        ensures
            r.queued@ == Seq::<TuiInput>::empty(),
    {
        TuiActions { queued: Vec::new() }
    }

    /// Queue entering `profile`.
    pub fn enter_profile(&mut self, profile: Profile)
        ensures
            final(self).queued@ == old(self).queued@.push(TuiInput::EnterProfile(profile)),
    {
        self.queued.push(TuiInput::EnterProfile(profile));
    }

    /// Queue leaving the active profile.
    pub fn exit_profile(&mut self)
        ensures
            final(self).queued@ == old(self).queued@.push(TuiInput::ExitProfile),
    {
        self.queued.push(TuiInput::ExitProfile);
    }
}

} // verus!
