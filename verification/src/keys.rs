//! The keys a prompt is fed.

use vstd::prelude::*;

verus! {

/// One decoded key press, as the terminal reports it.
#[derive(Clone, Copy, Debug, PartialEq, Eq, Structural)]
pub enum Key {
    /// A character key.
    Char(char),
    Backspace,
    Enter,
    ArrowUp,
    ArrowDown,
    ArrowLeft,
    ArrowRight,
    /// Any key the prompts do not react to.
    Other,
}

} // verus!
