//! Panel references: the value stored in the jump list.

use vstd::prelude::*;
use vstd::std_specs::cmp::PartialEqSpecImpl;

verus! {

/// Mathematical value of a [`PanelRef`].
pub struct PanelView {
    pub id: u32,
    pub name: Seq<char>,
    pub is_plugin: bool,
}

/// A reference to a panel of the host: its id, its display name and whether
/// it is a plugin surface rather than a terminal.
#[derive(Debug)]
pub struct PanelRef {
    pub id: u32,
    pub name: String,
    pub is_plugin: bool,
}

impl View for PanelRef {
    type V = PanelView;

    open spec fn view(&self) -> PanelView {
        PanelView { id: self.id, name: self.name@, is_plugin: self.is_plugin }
    }
}

impl PartialEq for PanelRef {
    /// Structural equality: the id, the name and the plugin flag all agree.
    fn eq(&self, other: &PanelRef) -> (r: bool) {
        self.id == other.id && self.name == other.name && self.is_plugin == other.is_plugin
    }
}

impl PartialEqSpecImpl for PanelRef {
    open spec fn obeys_eq_spec() -> bool {
        true
    }

    open spec fn eq_spec(&self, other: &PanelRef) -> bool {
        self@ == other@
    }
}

impl Eq for PanelRef {}

impl Clone for PanelRef {
    fn clone(&self) -> (r: PanelRef)
        ensures
            r@ == self@,
    {
        PanelRef { id: self.id, name: self.name.clone(), is_plugin: self.is_plugin }
    }
}

/// The mathematical values of a list of panel references, in order.
pub open spec fn panel_views(list: Seq<PanelRef>) -> Seq<PanelView> {
    list.map_values(|p: PanelRef| p@)
}

} // verus!
