//! The host's input modes.

use vstd::prelude::*;

verus! {

/// The input mode the host is in. Only [`InteractionMode::Normal`] is
/// distinguished by the history rules; every other mode gates recording off.
#[derive(Clone, Copy, Debug, PartialEq, Eq, Structural)]
pub enum InteractionMode {
    Normal,
    Locked,
    Resize,
    Pane,
    Tab,
    Scroll,
    EnterSearch,
    Search,
    RenameTab,
    RenamePane,
    Session,
    Move,
    Prompt,
    Tmux,
}

impl InteractionMode {
    /// Whether this is the normal navigation mode.
    pub fn is_normal(&self) -> (r: bool)
        ensures
            r == (*self == InteractionMode::Normal),
    {
        match self {
            InteractionMode::Normal => true,
            _ => false,
        }
    }
}

impl Default for InteractionMode {
    /// The mode a host starts in.
    fn default() -> (r: InteractionMode)
        ensures
            r == InteractionMode::Normal,
    {
        InteractionMode::Normal
    }
}

} // verus!
