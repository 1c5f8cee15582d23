//! Snapshots of the host's panels, and the focus tracker that reads them.

use std::collections::HashSet;
use vstd::prelude::*;
use crate::panel::{PanelRef, PanelView};

verus! {

/// What a snapshot reports of one open panel.
#[derive(Debug)]
pub struct PanelInfo {
    pub id: u32,
    pub title: String,
    pub is_plugin: bool,
    pub is_focused: bool,
}

/// Mathematical value of a [`PanelInfo`].
pub struct PanelInfoView {
    pub id: u32,
    pub title: Seq<char>,
    pub is_plugin: bool,
    pub is_focused: bool,
}

impl PanelInfoView {
    /// The reference under which this panel enters the history.
    pub open spec fn panel(self) -> PanelView {
        PanelView { id: self.id, name: self.title, is_plugin: self.is_plugin }
    }
}

impl View for PanelInfo {
    type V = PanelInfoView;

    open spec fn view(&self) -> PanelInfoView {
        PanelInfoView {
            id: self.id,
            title: self.title@,
            is_plugin: self.is_plugin,
            is_focused: self.is_focused,
        }
    }
}

impl Clone for PanelInfo {
    fn clone(&self) -> (r: PanelInfo)
        ensures
            r@ == self@,
    {
        PanelInfo {
            id: self.id,
            title: self.title.clone(),
            is_plugin: self.is_plugin,
            is_focused: self.is_focused,
        }
    }
}

/// The panels of every workspace group at one moment, as the host reports
/// them.
#[derive(Debug)]
pub struct Snapshot {
    /// The panels of each workspace group. Groups are scanned in this order.
    pub groups: Vec<Vec<PanelInfo>>,
    /// Whether the host vouches that every open panel is listed, so that a
    /// panel missing from `groups` is known to be closed.
    pub reports_liveness: bool,
}

/// Mathematical value of a [`Snapshot`]: all its panels in scan order.
pub struct SnapshotView {
    pub panels: Seq<PanelInfoView>,
    pub reports_liveness: bool,
}

/// The panels of one group as mathematical values.
pub open spec fn group_view(group: Vec<PanelInfo>) -> Seq<PanelInfoView> {
    group@.map_values(|p: PanelInfo| p@)
}

/// The panels of all groups, one group after the other.
pub open spec fn all_panels(groups: Seq<Vec<PanelInfo>>) -> Seq<PanelInfoView> {
    groups.map_values(|g: Vec<PanelInfo>| group_view(g)).flatten()
}

impl View for Snapshot {
    type V = SnapshotView;

    open spec fn view(&self) -> SnapshotView {
        SnapshotView {
            panels: all_panels(self.groups@),
            reports_liveness: self.reports_liveness,
        }
    }
}

/// Whether `i` is the position of the first panel that reports focus.
pub open spec fn is_first_focused(panels: Seq<PanelInfoView>, i: int) -> bool {
    &&& 0 <= i < panels.len()
    &&& panels[i].is_focused
    &&& forall|j: int| 0 <= j < i ==> !(#[trigger] panels[j]).is_focused
}

/// The panel in focus: the first one in scan order whose focus flag is set,
/// or `None` where no panel reports focus.
pub open spec fn focused_panel(panels: Seq<PanelInfoView>) -> Option<PanelView> {
    if exists|i: int| is_first_focused(panels, i) {
        Some(panels[choose|i: int| is_first_focused(panels, i)].panel())
    } else {
        None
    }
}

/// Whether some panel carries the id.
pub open spec fn has_id(panels: Seq<PanelInfoView>, id: u32) -> bool {
    exists|i: int| 0 <= i < panels.len() && (#[trigger] panels[i]).id == id
}

/// The ids of all the panels.
pub open spec fn panel_ids(panels: Seq<PanelInfoView>) -> Set<u32> {
    Set::new(|id: u32| has_id(panels, id))
}

impl SnapshotView {
    /// The ids known to be open, where the host vouches for the listing.
    pub open spec fn live_ids(self) -> Option<Set<u32>> {
        if self.reports_liveness {
            Some(panel_ids(self.panels))
        } else {
            None
        }
    }
}

/// The set of ids that a collection of live ids holds.
pub open spec fn live_set(ids: Option<HashSet<u32>>) -> Option<Set<u32>> {
    match ids {
        Some(held) => Some(held@),
        None => None,
    }
}

/// At most one position is the first focused one.
pub proof fn lemma_first_focused_unique(panels: Seq<PanelInfoView>, i: int, k: int)
    requires
        is_first_focused(panels, i),
        is_first_focused(panels, k),
    ensures
        i == k,
{
}

/// The focused panel is the panel at the first focused position.
proof fn lemma_focused_at(panels: Seq<PanelInfoView>, i: int)
    requires
        is_first_focused(panels, i),
    ensures
        focused_panel(panels) == Some(panels[i].panel()),
{
    let k = choose|k: int| is_first_focused(panels, k);
    lemma_first_focused_unique(panels, i, k);
}

/// The flattened view grows by one group when the scan takes one more group.
proof fn lemma_all_panels_step(groups: Seq<Vec<PanelInfo>>, g: int)
    requires
        0 <= g < groups.len(),
    ensures
        all_panels(groups.take(g + 1)) == all_panels(groups.take(g)) + group_view(groups[g]),
{
    let f = |v: Vec<PanelInfo>| group_view(v);
    let mapped = groups.take(g).map_values(f);
    assert(groups.take(g + 1).map_values(f) =~= mapped.push(group_view(groups[g])));
    mapped.lemma_flatten_push(group_view(groups[g]));
}

/// The panels of the first `g` groups open the panels of all groups.
proof fn lemma_panels_prefix(groups: Seq<Vec<PanelInfo>>, g: int)
    requires
        0 <= g <= groups.len(),
    ensures
        all_panels(groups.take(g)).len() <= all_panels(groups).len(),
        forall|j: int|
            0 <= j < all_panels(groups.take(g)).len() ==> all_panels(groups)[j] == all_panels(
                groups.take(g),
            )[j],
    decreases groups.len() - g,
{
    if g == groups.len() {
        assert(groups.take(g) =~= groups);
    } else {
        lemma_panels_prefix(groups, g + 1);
        lemma_all_panels_step(groups, g);
    }
}

/// Whether the panel stands in one of the groups.
pub open spec fn in_some_group(groups: Seq<Vec<PanelInfo>>, p: PanelInfoView) -> bool {
    exists|g: int, i: int|
        0 <= g < groups.len() && 0 <= i < groups[g]@.len() && (#[trigger] groups[g]@[i])@ == p
}

/// The panels of a snapshot are the panels of its groups: a panel is
/// among all panels exactly where it stands in one of the groups.
pub proof fn theorem_all_panels_lists_the_groups(groups: Seq<Vec<PanelInfo>>, p: PanelInfoView)
    ensures
        all_panels(groups).contains(p) <==> in_some_group(groups, p),
    decreases groups.len(),
{
    if groups.len() == 0 {
        assert(all_panels(groups) =~= Seq::empty());
    } else {
        let n = groups.len() - 1;
        let front = groups.take(n);
        let last = group_view(groups[n]);
        theorem_all_panels_lists_the_groups(front, p);
        lemma_all_panels_step(groups, n);
        assert(groups.take(n + 1) =~= groups);
        let all = all_panels(groups);
        assert(all == all_panels(front) + last);
        if all.contains(p) {
            let k = choose|k: int| 0 <= k < all.len() && all[k] == p;
            if k < all_panels(front).len() {
                assert(all_panels(front)[k] == p);
                let (g, i) = choose|g: int, i: int|
                    0 <= g < front.len() && 0 <= i < front[g]@.len() && (#[trigger] front[g]@[i])@
                        == p;
                assert(groups[g]@[i]@ == p);
            } else {
                let i = k - all_panels(front).len();
                assert(groups[n]@[i]@ == p);
            }
        }
        if in_some_group(groups, p) {
            let (g, i) = choose|g: int, i: int|
                0 <= g < groups.len() && 0 <= i < groups[g]@.len() && (#[trigger] groups[g]@[i])@
                    == p;
            if g < n {
                assert(front[g]@[i]@ == p);
                let k = choose|k: int| 0 <= k < all_panels(front).len() && all_panels(front)[k] == p;
                assert(all[k] == p);
            } else {
                assert(all[all_panels(front).len() + i] == p);
            }
        }
    }
}

/// The ids of a listing that has one more panel are those of the listing
/// and the id of that panel.
proof fn lemma_panel_ids_push(panels: Seq<PanelInfoView>, p: PanelInfoView)
    ensures
        panel_ids(panels.push(p)) == panel_ids(panels).insert(p.id),
{
    let longer = panels.push(p);
    assert forall|id: u32| has_id(longer, id) == (has_id(panels, id) || id == p.id) by {
        if has_id(longer, id) {
            let i = choose|i: int| 0 <= i < longer.len() && (#[trigger] longer[i]).id == id;
            if i < panels.len() {
                assert(panels[i].id == id);
            }
        }
        if has_id(panels, id) {
            let i = choose|i: int| 0 <= i < panels.len() && (#[trigger] panels[i]).id == id;
            assert(longer[i].id == id);
        }
        if id == p.id {
            assert(longer[panels.len() as int].id == id);
        }
    }
    assert(panel_ids(longer) =~= panel_ids(panels).insert(p.id));
}

impl Snapshot {
    /// The ids of the panels known to be open: every listed id where the
    /// host vouches for the listing, `None` where it does not.
    pub fn live_ids(&self) -> (r: Option<HashSet<u32>>)
        ensures
            live_set(r) == self@.live_ids(),
    {
        broadcast use vstd::std_specs::hash::group_hash_axioms;

        if !self.reports_liveness {
            return None;
        }
        let mut ids: HashSet<u32> = HashSet::new();
        assert(all_panels(self.groups@.take(0)) =~= Seq::empty());
        let mut g: usize = 0;
        while g < self.groups.len()
            invariant
                g <= self.groups.len(),
                ids@ == panel_ids(all_panels(self.groups@.take(g as int))),
            decreases self.groups.len() - g,
        {
            let group = &self.groups[g];
            let ghost before = all_panels(self.groups@.take(g as int));
            proof {
                lemma_all_panels_step(self.groups@, g as int);
            }
            let mut i: usize = 0;
            while i < group.len()
                invariant
                    i <= group.len(),
                    ids@ == panel_ids(before + group_view(*group).take(i as int)),
                decreases group.len() - i,
            {
                let ghost seen = before + group_view(*group).take(i as int);
                ids.insert(group[i].id);
                proof {
                    lemma_panel_ids_push(seen, group@[i as int]@);
                    assert(before + group_view(*group).take(i + 1) =~= seen.push(
                        group@[i as int]@,
                    ));
                }
                i += 1;
            }
            assert(group_view(*group).take(i as int) =~= group_view(*group));
            g += 1;
        }
        assert(self.groups@.take(g as int) =~= self.groups@);
        Some(ids)
    }

    /// The panel that has input focus, if any panel reports it.
    pub fn current_pane(&self) -> (r: Option<PanelRef>)
        ensures
            r.is_some() == focused_panel(self@.panels).is_some(),
            r matches Some(p) ==> Some(p@) == focused_panel(self@.panels),
    {
        let mut g: usize = 0;
        while g < self.groups.len()
            invariant
                g <= self.groups.len(),
                forall|j: int|
                    0 <= j < all_panels(self.groups@.take(g as int)).len() ==> !(
                    #[trigger] all_panels(self.groups@.take(g as int))[j]).is_focused,
            decreases self.groups.len() - g,
        {
            let group = &self.groups[g];
            let ghost before = all_panels(self.groups@.take(g as int));
            let ghost after = all_panels(self.groups@.take(g + 1));
            proof {
                lemma_all_panels_step(self.groups@, g as int);
            }
            let mut i: usize = 0;
            while i < group.len()
                invariant
                    i <= group.len(),
                    g < self.groups.len(),
                    *group == self.groups@[g as int],
                    before == all_panels(self.groups@.take(g as int)),
                    after == all_panels(self.groups@.take(g + 1)),
                    after == before + group_view(*group),
                    forall|j: int| 0 <= j < before.len() + i ==> !(#[trigger] after[j]).is_focused,
                decreases group.len() - i,
            {
                let p = &group[i];
                if p.is_focused {
                    let found = PanelRef {
                        id: p.id,
                        name: p.title.clone(),
                        is_plugin: p.is_plugin,
                    };
                    proof {
                        lemma_panels_prefix(self.groups@, g as int + 1);
                        assert(is_first_focused(self@.panels, before.len() + i));
                        lemma_focused_at(self@.panels, before.len() + i);
                    }
                    return Some(found);
                }
                i += 1;
            }
            g += 1;
        }
        proof {
            assert(self.groups@.take(g as int) =~= self.groups@);
            assert forall|i: int| !is_first_focused(self@.panels, i) by {}
        }
        None
    }
}

} // verus!
