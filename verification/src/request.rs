//! What a transition asks of whoever drives the state machine.

use vstd::prelude::*;

verus! {

/// Outside work that a transition leaves to its caller. The state machine
/// never reads a directory or a file itself.
#[derive(Clone, Copy, Debug, PartialEq, Eq, Structural)]
pub enum Request {
    /// Nothing is left to do.
    Nothing,
    /// List the browser's current directory and hand the names to
    /// `FileBrowser::load_file_list`.
    ReadDirectory,
    /// Read the selected file, hand its bytes to `Game::load_csv`, and hand
    /// what that returns to `key_handler::finish_load`.
    ReadFile,
}

} // verus!
