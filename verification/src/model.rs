//! The state machine as mathematics: the value of a state, and what each
//! notification makes of it.

use vstd::math::{max, min};
use vstd::prelude::*;
use crate::event::{EventView, HostRequest, Key};
use crate::history::{is_head, reconciled, visited, CAPACITY};
use crate::mode::InteractionMode;
use crate::panel::PanelView;
use crate::snapshot::{focused_panel, SnapshotView};

verus! {

/// The highest selection that a list of the given length admits: its
/// length, but never more than the capacity.
pub open spec fn selection_limit(len: nat) -> int {
    min(CAPACITY as int, len as int)
}

/// The selection brought into the range of a list of the given length; for
/// an empty list it is 1.
pub open spec fn clamped(selection: int, len: nat) -> int {
    max(1, min(selection, selection_limit(len)))
}

/// Mathematical value of a [`State`](crate::state::State).
pub struct StateView {
    pub current_focus: PanelView,
    pub current_mode: InteractionMode,
    pub previous_mode: InteractionMode,
    pub jump_list: Seq<PanelView>,
    pub selection: int,
}

impl StateView {
    /// The state is consistent: the list is within its capacity, and where
    /// it is not empty the selection points into it.
    pub open spec fn wf(self) -> bool {
        &&& self.jump_list.len() <= CAPACITY
        &&& self.jump_list.len() > 0 ==> 1 <= self.selection <= selection_limit(
            self.jump_list.len(),
        )
    }

    /// The state of a plugin that was just loaded: an empty panel in focus,
    /// normal mode, an empty list and no selection.
    pub open spec fn initial() -> StateView {
        StateView {
            current_focus: PanelView { id: 0, name: Seq::empty(), is_plugin: false },
            current_mode: InteractionMode::Normal,
            previous_mode: InteractionMode::Normal,
            jump_list: Seq::empty(),
            selection: 0,
        }
    }

    /// Whether the panel in focus already heads the list.
    pub open spec fn parked(self) -> bool {
        is_head(self.jump_list, self.current_focus)
    }

    /// The state with another list, the selection clamped into its range.
    pub open spec fn with_list(self, list: Seq<PanelView>) -> StateView {
        StateView { jump_list: list, selection: clamped(self.selection, list.len()), ..self }
    }

    /// The state after the list was reconciled against the live ids.
    pub open spec fn purged(self, live: Option<Set<u32>>) -> StateView {
        self.with_list(reconciled(self.jump_list, live))
    }

    /// The state after the host changed to `mode`.
    ///
    /// The mode is taken over in any case. Only a change into normal mode
    /// from another mode goes on: unless the panel in focus is a plugin
    /// panel or heads the list already, it is visited.
    pub open spec fn mode_changed(self, mode: InteractionMode) -> StateView {
        let switched = StateView { current_mode: mode, ..self };
        if mode != InteractionMode::Normal || mode == self.previous_mode {
            StateView { previous_mode: mode, ..switched }
        } else if self.current_focus.is_plugin || self.parked() {
            switched
        } else {
            StateView { previous_mode: mode, ..switched }.with_list(
                visited(self.jump_list, self.current_focus),
            )
        }
    }

    /// Whether a panel that comes into focus is kept off the list: it is a
    /// plugin panel or heads the list already, or the host is not in normal
    /// mode.
    pub open spec fn focus_is_gated(self, p: PanelView) -> bool {
        ||| p.is_plugin
        ||| is_head(self.jump_list, p)
        ||| self.current_mode != InteractionMode::Normal
    }

    /// The state after the panel `p` was seen in focus, with the live ids
    /// seen along with it.
    ///
    /// The panel is in focus from then on. Unless it is kept off the list,
    /// it is visited, the cursor is put on the second entry (on the first
    /// where the list had none before), and the list is reconciled against
    /// the live ids.
    pub open spec fn focused_on(self, p: PanelView, live: Option<Set<u32>>) -> StateView {
        let focused = StateView { current_focus: p, ..self };
        if self.focus_is_gated(p) {
            focused
        } else {
            let mark: int = if self.jump_list.len() + 1 < 2 {
                1
            } else {
                2
            };
            StateView { jump_list: visited(self.jump_list, p), selection: mark, ..focused }.purged(
                live,
            )
        }
    }

    /// The state after a snapshot of the panels arrived: the state after
    /// its focused panel was seen in focus; the state as it was, where no
    /// panel of the snapshot reports focus.
    pub open spec fn focus_snapshot(self, snapshot: SnapshotView) -> StateView {
        match focused_panel(snapshot.panels) {
            Some(p) => self.focused_on(p, snapshot.live_ids()),
            None => self,
        }
    }

    /// The state after the cursor moved one entry up.
    pub open spec fn moved_up(self) -> StateView {
        StateView { selection: max(1, self.selection - 1), ..self }
    }

    /// The state after the cursor moved one entry down.
    pub open spec fn moved_down(self) -> StateView {
        StateView {
            selection: min(self.selection + 1, selection_limit(self.jump_list.len())),
            ..self
        }
    }

    /// The state after the cursor moved up `n` times.
    pub open spec fn moved_up_by(self, n: nat) -> StateView
        decreases n,
    {
        if n == 0 {
            self
        } else {
            self.moved_up_by((n - 1) as nat).moved_up()
        }
    }

    /// The state after the cursor moved down `n` times.
    pub open spec fn moved_down_by(self, n: nat) -> StateView
        decreases n,
    {
        if n == 0 {
            self
        } else {
            self.moved_down_by((n - 1) as nat).moved_down()
        }
    }

    /// The entry under the cursor, where the cursor points into the list.
    pub open spec fn selected(self) -> Option<PanelView> {
        if 1 <= self.selection <= self.jump_list.len() {
            Some(self.jump_list[self.selection - 1])
        } else {
            None
        }
    }

    /// What confirming the selection asks of the host: focus on the
    /// selected panel, then hiding the surface; nothing where no entry is
    /// selected.
    pub open spec fn confirm_requests(self) -> Seq<HostRequest> {
        match self.selected() {
            Some(p) => seq![HostRequest::FocusPanel(p.id), HostRequest::HideSurface],
            None => Seq::empty(),
        }
    }

    /// The state after a key was pressed: `k` and Up move the cursor up,
    /// `j` and Down move it down, no other key changes the state.
    pub open spec fn key_pressed(self, key: Key) -> StateView {
        if key == Key::Char('k') || key == Key::Up {
            self.moved_up()
        } else if key == Key::Char('j') || key == Key::Down {
            self.moved_down()
        } else {
            self
        }
    }

    /// What a key press asks of the host: Escape dismisses the surface,
    /// Enter confirms the selection, no other key asks anything.
    pub open spec fn key_requests(self, key: Key) -> Seq<HostRequest> {
        if key == Key::Esc {
            seq![HostRequest::HideSurface]
        } else if key == Key::Char('\n') {
            self.confirm_requests()
        } else {
            Seq::empty()
        }
    }

    /// The state after one notification.
    pub open spec fn after(self, event: EventView) -> StateView {
        match event {
            EventView::ModeChanged(mode) => self.mode_changed(mode),
            EventView::KeyPressed(key) => self.key_pressed(key),
            EventView::FocusSnapshot(snapshot) => self.focus_snapshot(snapshot),
            EventView::Other => self,
        }
    }

    /// The state after a run of notifications, handled one after the other.
    pub open spec fn after_all(self, events: Seq<EventView>) -> StateView
        decreases events.len(),
    {
        if events.len() == 0 {
            self
        } else {
            self.after_all(events.drop_last()).after(events.last())
        }
    }

    /// What one notification asks of the host.
    pub open spec fn requests(self, event: EventView) -> Seq<HostRequest> {
        match event {
            EventView::KeyPressed(key) => self.key_requests(key),
            _ => Seq::empty(),
        }
    }
}

/// Whether a notification calls for the surface to be drawn again: every
/// one that the plugin subscribes to does.
pub open spec fn wants_redraw(event: EventView) -> bool {
    !(event is Other)
}

} // verus!
