//! The keys that the state machine tells apart.

use vstd::prelude::*;

verus! {

/// One discrete key event.
#[derive(Clone, Copy, Debug, PartialEq, Eq, Structural)]
pub enum Key {
    /// Arrow up.
    Up,
    /// Arrow down.
    Down,
    /// Enter or confirm.
    Enter,
    /// Escape or dismiss.
    Esc,
    /// A character key.
    Char(char),
    /// Any other key.
    Other,
}

} // verus!
