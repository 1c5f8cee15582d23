//! The plugin's state and the handlers that change it.

use vstd::prelude::*;
use crate::event::{Event, HostRequest, Key, Reaction};
use crate::history::{reconcile, record_visit, CAPACITY};
use crate::mode::InteractionMode;
use crate::model::{clamped, wants_redraw, StateView};
use crate::panel::{panel_views, PanelRef};
use crate::snapshot::Snapshot;

verus! {

/// The plugin's state: the panel in focus, the host's mode, the jump list
/// and the selection cursor.
#[derive(Debug)]
pub struct State {
    current_focus: PanelRef,
    current_mode: InteractionMode,
    previous_mode: InteractionMode,
    jump_list: Vec<PanelRef>,
    selection: usize,
}

impl View for State {
    type V = StateView;

    closed spec fn view(&self) -> StateView {
        StateView {
            current_focus: self.current_focus@,
            current_mode: self.current_mode,
            previous_mode: self.previous_mode,
            jump_list: panel_views(self.jump_list@),
            selection: self.selection as int,
        }
    }
}

/// The selection brought into the range of a list of `len` entries.
fn clamp_selection(selection: usize, len: usize) -> (r: usize)
    ensures
        r == clamped(selection as int, len as nat),
{
    let limit = if len < CAPACITY {
        len
    } else {
        CAPACITY
    };
    let capped = if selection < limit {
        selection
    } else {
        limit
    };
    if capped < 1 {
        1
    } else {
        capped
    }
}

impl State {
    /// Every state is consistent, at all times.
    #[verifier::type_invariant]
    spec fn consistent(self) -> bool {
        self@.wf()
    }

    /// The state of a plugin that was just loaded: an empty panel in focus,
    /// normal mode, an empty list.
    pub fn new() -> (r: State)
        ensures
            r@ == StateView::initial(),
            r@.wf(),
    {
        let jump_list: Vec<PanelRef> = Vec::new();
        assert(panel_views(jump_list@) =~= Seq::empty());
        State {
            current_focus: PanelRef { id: 0, name: String::new(), is_plugin: false },
            current_mode: InteractionMode::Normal,
            previous_mode: InteractionMode::Normal,
            jump_list,
            selection: 0,
        }
    }

    /// The panel last seen in focus.
    pub fn current_focus(&self) -> (r: &PanelRef)
        ensures
            r@ == self@.current_focus,
    {
        &self.current_focus
    }

    /// The mode the host is in, as far as it told.
    pub fn current_mode(&self) -> (r: InteractionMode)
        ensures
            r == self@.current_mode,
    {
        self.current_mode
    }

    /// The mode against which the next change of mode is compared.
    pub fn previous_mode(&self) -> (r: InteractionMode)
        ensures
            r == self@.previous_mode,
    {
        self.previous_mode
    }

    /// The jump list, most recent visit first.
    pub fn jump_list(&self) -> (r: &Vec<PanelRef>)
        ensures
            panel_views(r@) == self@.jump_list,
            r.len() <= CAPACITY,
            self@.wf(),
    {
        proof {
            use_type_invariant(self);
        }
        &self.jump_list
    }

    /// The selection cursor, counted from 1.
    pub fn selection(&self) -> (r: usize)
        ensures
            r == self@.selection,
            self@.wf(),
    {
        proof {
            use_type_invariant(self);
        }
        self.selection
    }

    /// Whether the panel in focus already heads the jump list.
    pub fn is_previous_jump(&self) -> (r: bool)
        ensures
            r == self@.parked(),
    {
        self.jump_list.len() > 0 && self.jump_list[0] == self.current_focus
    }

    /// Removes from the jump list the panels that the snapshot shows to be
    /// closed, and clamps the selection into what is left.
    pub fn purge(&mut self, snapshot: &Snapshot)
        ensures
            final(self)@ == old(self)@.purged(snapshot@.live_ids()),
            final(self)@.wf(),
    {
        proof {
            use_type_invariant(&*self);
        }
        let live_ids = snapshot.live_ids();
        let mut list: Vec<PanelRef> = Vec::new();
        std::mem::swap(&mut list, &mut self.jump_list);
        let list = reconcile(list, &live_ids);
        self.selection = clamp_selection(self.selection, list.len());
        self.jump_list = list;
    }

    /// Handles a change of the host's mode. A change into normal mode from
    /// another mode records the panel in focus at the head of the jump
    /// list, unless it is a plugin panel or heads the list already.
    /// The surface is always drawn again.
    pub fn on_mode_changed(&mut self, mode: InteractionMode) -> (redraw: bool)
        ensures
            redraw,
            final(self)@ == old(self)@.mode_changed(mode),
            final(self)@.wf(),
    {
        proof {
            use_type_invariant(&*self);
        }
        self.current_mode = mode;
        if !mode.is_normal() || mode == self.previous_mode {
            self.previous_mode = mode;
            return true;
        }
        if self.current_focus.is_plugin {
            return true;
        }
        if self.is_previous_jump() {
            return true;
        }
        let mut list: Vec<PanelRef> = Vec::new();
        std::mem::swap(&mut list, &mut self.jump_list);
        record_visit(&mut list, self.current_focus.clone());
        self.selection = clamp_selection(self.selection, list.len());
        self.jump_list = list;
        self.previous_mode = mode;
        true
    }

    /// Handles a snapshot of the panels. Where no panel reports focus, the
    /// state is left as it is. Else the panel that reports focus becomes
    /// the panel in focus. Unless that panel is a plugin panel or heads the
    /// list already, or the host is not in normal mode, it is recorded at
    /// the head of the jump list, the cursor is put on the entry behind it
    /// (on the panel itself where there is no other), and the list is
    /// reconciled against the snapshot.
    /// The surface is always drawn again.
    pub fn on_focus_snapshot(&mut self, snapshot: &Snapshot) -> (redraw: bool)
        ensures
            redraw,
            final(self)@ == old(self)@.focus_snapshot(snapshot@),
            final(self)@.wf(),
    {
        proof {
            use_type_invariant(&*self);
        }
        match snapshot.current_pane() {
            Some(p) => {
                self.current_focus = p;
            },
            None => {
                return true;
            },
        }
        if self.current_focus.is_plugin {
            return true;
        }
        if self.is_previous_jump() {
            return true;
        }
        if !self.current_mode.is_normal() {
            return true;
        }
        let mut list: Vec<PanelRef> = Vec::new();
        std::mem::swap(&mut list, &mut self.jump_list);
        let mark: usize = if list.len() == 0 {
            1
        } else {
            2
        };
        record_visit(&mut list, self.current_focus.clone());
        self.selection = mark;
        self.jump_list = list;
        self.purge(snapshot);
        true
    }

    /// Moves the cursor one entry up, stopping at the first.
    pub fn move_up(&mut self)
        ensures
            final(self)@ == old(self)@.moved_up(),
            final(self)@.wf(),
    {
        proof {
            use_type_invariant(&*self);
        }
        if self.selection > 1 {
            self.selection = self.selection - 1;
        } else {
            self.selection = 1;
        }
    }

    /// Moves the cursor one entry down, stopping at the last.
    pub fn move_down(&mut self)
        ensures
            final(self)@ == old(self)@.moved_down(),
            final(self)@.wf(),
    {
        proof {
            use_type_invariant(&*self);
        }
        let limit = self.jump_list.len();
        if self.selection < limit {
            self.selection = self.selection + 1;
        } else {
            self.selection = limit;
        }
    }

    /// The entry under the cursor; `None` where the list is empty or the
    /// cursor does not point into it.
    pub fn selected(&self) -> (r: Option<&PanelRef>)
        ensures
            r.is_some() == (1 <= self@.selection <= self@.jump_list.len()),
            r matches Some(p) ==> Some(p@) == self@.selected(),
            r is None ==> self@.selected() is None,
    {
        if 1 <= self.selection && self.selection <= self.jump_list.len() {
            Some(&self.jump_list[self.selection - 1])
        } else {
            None
        }
    }

    /// Confirms the selection: asks the host to focus the selected panel
    /// and then to hide the surface. Asks nothing where no entry is
    /// selected. The state is not changed.
    pub fn confirm(&self) -> (r: Vec<HostRequest>)
        ensures
            r@ == self@.confirm_requests(),
    {
        let mut requests: Vec<HostRequest> = Vec::new();
        match self.selected() {
            Some(p) => {
                requests.push(HostRequest::FocusPanel(p.id));
                requests.push(HostRequest::HideSurface);
            },
            None => {},
        }
        requests
    }

    /// Dismisses the surface: asks the host to hide it. The state is not
    /// changed.
    pub fn dismiss(&self) -> (r: Vec<HostRequest>)
        ensures
            r@ == seq![HostRequest::HideSurface],
    {
        let mut requests: Vec<HostRequest> = Vec::new();
        requests.push(HostRequest::HideSurface);
        requests
    }

    /// Handles a key: Escape dismisses, Enter confirms, `k` and Up move the
    /// cursor up, `j` and Down move it down; any other key does nothing.
    /// Returns what to ask of the host.
    pub fn on_key(&mut self, key: Key) -> (r: Vec<HostRequest>)
        ensures
            final(self)@ == old(self)@.key_pressed(key),
            r@ == old(self)@.key_requests(key),
            final(self)@.wf(),
    {
        proof {
            use_type_invariant(&*self);
        }
        match key {
            Key::Esc => self.dismiss(),
            Key::Char('\n') => self.confirm(),
            Key::Char('k') | Key::Up => {
                self.move_up();
                Vec::new()
            },
            Key::Char('j') | Key::Down => {
                self.move_down();
                Vec::new()
            },
            _ => Vec::new(),
        }
    }

    /// Handles one notification from the host: updates the state, and
    /// returns whether to draw the surface again and what to ask of the
    /// host.
    pub fn update(&mut self, event: Event) -> (r: Reaction)
        ensures
            final(self)@ == old(self)@.after(event@),
            r.requests@ == old(self)@.requests(event@),
            r.redraw == wants_redraw(event@),
            final(self)@.wf(),
    {
        proof {
            use_type_invariant(&*self);
        }
        match event {
            Event::ModeChanged(mode) => {
                let redraw = self.on_mode_changed(mode);
                Reaction { redraw, requests: Vec::new() }
            },
            Event::KeyPressed(key) => {
                let requests = self.on_key(key);
                Reaction { redraw: true, requests }
            },
            Event::FocusSnapshot(snapshot) => {
                let redraw = self.on_focus_snapshot(&snapshot);
                Reaction { redraw, requests: Vec::new() }
            },
            Event::Other => Reaction { redraw: false, requests: Vec::new() },
        }
    }
}

impl Default for State {
    /// The state of a plugin that was just loaded.
    fn default() -> (r: State)
        ensures
            r@ == StateView::initial(),
    {
        State::new()
    }
}

} // verus!
