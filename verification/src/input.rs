//! Terminal input events, reduced to what the state machine reads.
//!
//! The embedder translates raw terminal events into [`Event`] values;
//! the handlers in this crate dispatch on the key code and on whether
//! the control modifier was held.

use vstd::prelude::*;

verus! {

/// The key codes the state machine distinguishes; every other key is
/// mapped to `Other` and ignored by all handlers.
#[derive(PartialEq, Eq, Structural, Clone, Copy, Debug)]
pub enum KeyCode {
    Up,
    Down,
    Enter,
    Esc,
    Backspace,
    Char(char),
    Other,
}

/// One key press, with the only modifier the handlers care about.
#[derive(PartialEq, Eq, Structural, Clone, Copy, Debug)]
pub struct KeyEvent {
    pub code: KeyCode,
    /// Whether the control modifier was held.
    pub ctrl: bool,
}

/// A terminal event. Resizes, mouse input and everything else that the
/// state machine never reads arrive as `Other`.
#[derive(PartialEq, Eq, Structural, Clone, Copy, Debug)]
pub enum Event {
    Key(KeyEvent),
    Other,
}

/// Whether `input` asks to quit the whole application: a plain `q`, or
/// `c` / `d` with the control modifier held.
pub open spec fn spec_should_quit(input: Event) -> bool {
    match input {
        Event::Key(k) => {
            k.code == KeyCode::Char('q') || (k.ctrl && (k.code == KeyCode::Char('c')
                || k.code == KeyCode::Char('d')))
        },
        Event::Other => false,
    }
}

/// Global quit filter, applied before any screen-specific handler.
pub fn should_quit(input: &Event) -> (r: bool)
    ensures
        r == spec_should_quit(*input),
{
    match input {
        Event::Key(k) => match k.code {
            KeyCode::Char(c) => c == 'q' || (k.ctrl && (c == 'c' || c == 'd')),
            _ => false,
        },
        Event::Other => false,
    }
}

/// Whether `input` is the space bar, however modified.
pub fn is_space(input: &Event) -> (r: bool)
    ensures
        r == (match *input {
            Event::Key(k) => k.code == KeyCode::Char(' '),
            Event::Other => false,
        }),
{
    match input {
        Event::Key(k) => match k.code {
            KeyCode::Char(c) => c == ' ',
            _ => false,
        },
        Event::Other => false,
    }
}

} // verus!
