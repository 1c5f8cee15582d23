//! Notifications from the host, and the requests sent back to it.

use vstd::prelude::*;
use crate::mode::InteractionMode;
use crate::snapshot::{Snapshot, SnapshotView};

verus! {

/// A key pressed while the plugin surface has focus.
#[derive(Clone, Copy, Debug, PartialEq, Eq, Structural)]
pub enum Key {
    /// A printable or control character; Enter arrives as `Char('\n')`.
    Char(char),
    Up,
    Down,
    Esc,
    /// Any key that the plugin has no use for.
    Other,
}

/// What the plugin asks of the host.
#[derive(Clone, Copy, Debug, PartialEq, Eq, Structural)]
pub enum HostRequest {
    /// Give input focus to the panel with this id.
    FocusPanel(u32),
    /// Hide the plugin's own surface.
    HideSurface,
}

/// A notification delivered by the host.
#[derive(Debug)]
pub enum Event {
    /// The host's input mode changed to the given one.
    ModeChanged(InteractionMode),
    /// A key was pressed.
    KeyPressed(Key),
    /// The set of panels, or the focus among them, changed.
    FocusSnapshot(Snapshot),
    /// A notification that the plugin did not subscribe to.
    Other,
}

/// Mathematical value of an [`Event`].
pub enum EventView {
    ModeChanged(InteractionMode),
    KeyPressed(Key),
    FocusSnapshot(SnapshotView),
    Other,
}

impl View for Event {
    type V = EventView;

    open spec fn view(&self) -> EventView {
        match self {
            Event::ModeChanged(mode) => EventView::ModeChanged(*mode),
            Event::KeyPressed(key) => EventView::KeyPressed(*key),
            Event::FocusSnapshot(snapshot) => EventView::FocusSnapshot(snapshot@),
            Event::Other => EventView::Other,
        }
    }
}

/// The plugin's answer to one notification.
#[derive(Debug)]
pub struct Reaction {
    /// Whether the surface must be drawn again.
    pub redraw: bool,
    /// The requests to pass on to the host, in this order.
    pub requests: Vec<HostRequest>,
}

} // verus!
