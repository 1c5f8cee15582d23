//! The jump list: a bounded list of visited panels, most recent first.

use std::collections::HashSet;
use vstd::prelude::*;
use crate::panel::{panel_views, PanelRef, PanelView};
use crate::snapshot::live_set;

verus! {

/// The most entries the jump list ever holds.
pub const CAPACITY: usize = 10;

/// Whether the list is headed by the panel.
pub open spec fn is_head(list: Seq<PanelView>, p: PanelView) -> bool {
    list.len() > 0 && list[0] == p
}

/// The list cut down to its first [`CAPACITY`] entries.
pub open spec fn capped(list: Seq<PanelView>) -> Seq<PanelView> {
    if list.len() > CAPACITY {
        list.take(CAPACITY as int)
    } else {
        list
    }
}

/// The list after a visit to the panel: the panel in front, the oldest
/// entries dropped beyond the capacity.
pub open spec fn visited(list: Seq<PanelView>, p: PanelView) -> Seq<PanelView> {
    capped(seq![p] + list)
}

/// The test that keeps the entries whose id is among the live ones.
pub open spec fn is_live(ids: Set<u32>) -> spec_fn(PanelView) -> bool {
    |p: PanelView| ids.contains(p.id)
}

/// The list reconciled against the live ids: the entries whose id is live,
/// in their order. Without live ids the list is left as it is.
pub open spec fn reconciled(list: Seq<PanelView>, live: Option<Set<u32>>) -> Seq<PanelView> {
    match live {
        Some(ids) => list.filter(is_live(ids)),
        None => list,
    }
}

/// Puts the panel in front of the list and drops what exceeds the capacity.
pub fn record_visit(list: &mut Vec<PanelRef>, p: PanelRef)
    ensures
        panel_views(final(list)@) == visited(panel_views(old(list)@), p@),
        final(list).len() <= CAPACITY,
{
    list.insert(0, p);
    list.truncate(CAPACITY);
}

/// Removes the entries whose id is not live, keeping the others in their
/// order. Without live ids nothing is removed.
pub fn reconcile(list: Vec<PanelRef>, live_ids: &Option<HashSet<u32>>) -> (r: Vec<PanelRef>)
    ensures
        panel_views(r@) == reconciled(panel_views(list@), live_set(*live_ids)),
        r.len() <= list.len(),
{
    broadcast use vstd::std_specs::hash::group_hash_axioms;

    match live_ids {
        None => list,
        Some(ids) => {
            let ghost keep = is_live(ids@);
            let ghost all = panel_views(list@);
            let mut kept: Vec<PanelRef> = Vec::new();
            let mut i: usize = 0;
            while i < list.len()
                invariant
                    i <= list.len(),
                    all == panel_views(list@),
                    keep == is_live(ids@),
                    panel_views(kept@) == all.take(i as int).filter(keep),
                    kept.len() <= i,
                decreases list.len() - i,
            {
                let ghost seen = all.take(i as int);
                proof {
                    assert(all.take(i + 1) =~= seen.push(list@[i as int]@));
                    seen.lemma_filter_push(list@[i as int]@, keep);
                }
                if ids.contains(&list[i].id) {
                    let entry = list[i].clone();
                    kept.push(entry);
                }
                i += 1;
            }
            assert(all.take(i as int) =~= all);
            kept
        },
    }
}

} // verus!
