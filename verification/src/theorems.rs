//! What holds of the state machine, proved over its model.

use vstd::prelude::*;
use crate::event::{EventView, HostRequest};
use crate::history::{is_head, is_live, reconciled, visited, CAPACITY};
use crate::mode::InteractionMode;
use crate::model::{clamped, selection_limit, StateView};
use crate::panel::PanelView;
use crate::snapshot::{
    focused_panel, has_id, is_first_focused, panel_ids, PanelInfoView, SnapshotView,
};

verus! {

/// A visit leaves the list within its capacity, with the visited panel at
/// its head and the former entries behind it in their order. A panel that
/// did not head the list is not followed by itself.
pub proof fn lemma_visited(list: Seq<PanelView>, p: PanelView)
    ensures
        list.len() < CAPACITY ==> visited(list, p) == seq![p] + list,
        list.len() >= CAPACITY ==> visited(list, p) == seq![p] + list.take(CAPACITY - 1),
        visited(list, p).len() <= CAPACITY,
        visited(list, p)[0] == p,
        !is_head(list, p) && visited(list, p).len() > 1 ==> visited(list, p)[1] != p,
{
}

/// Reconciliation never lengthens the list.
pub proof fn lemma_reconciled_len(list: Seq<PanelView>, live: Option<Set<u32>>)
    ensures
        reconciled(list, live).len() <= list.len(),
{
    if let Some(ids) = live {
        list.lemma_filter_len(is_live(ids));
    }
}

/// A test that holds of every entry keeps the whole list.
proof fn lemma_filter_keeps_all(list: Seq<PanelView>, keep: spec_fn(PanelView) -> bool)
    requires
        forall|i: int| 0 <= i < list.len() ==> keep(#[trigger] list[i]),
    ensures
        list.filter(keep) == list,
    decreases list.len(),
{
    reveal(Seq::filter);
    if list.len() > 0 {
        lemma_filter_keeps_all(list.drop_last(), keep);
    }
}

/// Where a test keeps all of a list, it keeps all of each of its prefixes.
proof fn lemma_filter_of_prefix(list: Seq<PanelView>, keep: spec_fn(PanelView) -> bool, n: int)
    requires
        0 <= n <= list.len(),
        list.filter(keep) == list,
    ensures
        list.take(n).filter(keep) == list.take(n),
{
    assert forall|i: int| 0 <= i < list.len() implies keep(list[i]) by {
        list.lemma_filter_pred(keep, i);
    }
    lemma_filter_keeps_all(list.take(n), keep);
}

/// Where a panel reports focus, some panel is the first to do so.
proof fn lemma_some_first_focused(panels: Seq<PanelInfoView>, i: int)
    requires
        0 <= i < panels.len(),
        panels[i].is_focused,
    ensures
        exists|k: int| is_first_focused(panels, k),
    decreases i,
{
    if exists|j: int| 0 <= j < i && (#[trigger] panels[j]).is_focused {
        let j = choose|j: int| 0 <= j < i && (#[trigger] panels[j]).is_focused;
        lemma_some_first_focused(panels, j);
    } else {
        assert(is_first_focused(panels, i));
    }
}

/// The focus tracker reports a panel exactly where some panel of the
/// snapshot reports focus, and then the first such panel in scan order;
/// its id is among the ids of the snapshot.
pub proof fn theorem_focus_tracker(panels: Seq<PanelInfoView>)
    ensures
        focused_panel(panels) is Some <==> exists|i: int|
            0 <= i < panels.len() && (#[trigger] panels[i]).is_focused,
        focused_panel(panels) matches Some(p) ==> exists|i: int|
            is_first_focused(panels, i) && panels[i].panel() == p,
        focused_panel(panels) matches Some(p) ==> panel_ids(panels).contains(p.id),
{
    if focused_panel(panels) is Some {
        let i = choose|i: int| is_first_focused(panels, i);
        assert(has_id(panels, panels[i].id));
    }
    if exists|i: int| 0 <= i < panels.len() && (#[trigger] panels[i]).is_focused {
        let i = choose|i: int| 0 <= i < panels.len() && (#[trigger] panels[i]).is_focused;
        lemma_some_first_focused(panels, i);
    }
}

/// A clamped selection lies between 1 and the limit of the list, where the
/// list is not empty; a selection in that range is left as it is.
pub proof fn theorem_clamp_brings_selection_into_range(selection: int, len: nat)
    ensures
        1 <= clamped(selection, len),
        len > 0 ==> clamped(selection, len) <= selection_limit(len),
        len == 0 ==> clamped(selection, len) == 1,
        1 <= selection <= selection_limit(len) ==> clamped(selection, len) == selection,
{
}

/// Every notification keeps the state consistent: the list stays within
/// its capacity of ten entries, and where it is not empty the selection
/// stays between 1 and its length.
pub proof fn theorem_notification_keeps_consistency(s: StateView, event: EventView)
    requires
        s.wf(),
    ensures
        s.after(event).wf(),
        s.after(event).jump_list.len() <= 10,
        s.after(event).jump_list.len() > 0 ==> 1 <= s.after(event).selection <= s.after(
            event,
        ).jump_list.len(),
{
    match event {
        EventView::ModeChanged(mode) => {
            lemma_visited(s.jump_list, s.current_focus);
        },
        EventView::KeyPressed(key) => {},
        EventView::FocusSnapshot(snapshot) => {
            if let Some(p) = focused_panel(snapshot.panels) {
                lemma_visited(s.jump_list, p);
                lemma_reconciled_len(visited(s.jump_list, p), snapshot.live_ids());
            }
        },
        EventView::Other => {},
    }
}

/// Consistency holds after every run of notifications: whatever the host
/// sends, and in whatever order, the list holds at most ten entries and
/// the selection points into it where it is not empty.
pub proof fn theorem_consistency_holds_throughout(s: StateView, events: Seq<EventView>)
    requires
        s.wf(),
    ensures
        s.after_all(events).wf(),
        s.after_all(events).jump_list.len() <= 10,
        s.after_all(events).jump_list.len() > 0 ==> 1 <= s.after_all(events).selection
            <= s.after_all(events).jump_list.len(),
    decreases events.len(),
{
    if events.len() > 0 {
        theorem_consistency_holds_throughout(s, events.drop_last());
        theorem_notification_keeps_consistency(s.after_all(events.drop_last()), events.last());
    }
}

/// A plugin that was just loaded is consistent, and stays so through every
/// run of notifications.
pub proof fn theorem_consistency_from_the_start(events: Seq<EventView>)
    ensures
        StateView::initial().wf(),
        StateView::initial().after_all(events).wf(),
{
    theorem_consistency_holds_throughout(StateView::initial(), events);
}

/// A notification changes the list only where the panel in focus after it
/// did not head the list before it: the list never gains a head equal to
/// its current head. A change of mode or of focus then leaves the
/// selection alone as well.
pub proof fn theorem_no_repeat_at_head(s: StateView, event: EventView)
    requires
        is_head(s.jump_list, s.after(event).current_focus),
    ensures
        s.after(event).jump_list == s.jump_list,
        !(event is KeyPressed) ==> s.after(event).selection == s.selection,
{
}

/// Where a notification changes the list, the list is then headed by the
/// panel in focus, and that panel did not head the list before.
pub proof fn theorem_new_head_is_new(s: StateView, event: EventView)
    requires
        s.after(event).jump_list != s.jump_list,
    ensures
        s.after(event).jump_list.len() > 0,
        s.after(event).jump_list[0] == s.after(event).current_focus,
        !is_head(s.jump_list, s.after(event).jump_list[0]),
{
    match event {
        EventView::ModeChanged(mode) => {
            lemma_visited(s.jump_list, s.current_focus);
        },
        EventView::FocusSnapshot(snapshot) => {
            lemma_visit_survives_reconciliation(s.jump_list, snapshot);
        },
        _ => {},
    }
}

/// Focusing the same panel again, with no other focus in between, changes
/// nothing: a snapshot handled twice leaves the state that it left when
/// handled once.
pub proof fn theorem_refocus_is_idle(s: StateView, snapshot: SnapshotView)
    ensures
        s.focus_snapshot(snapshot).focus_snapshot(snapshot) == s.focus_snapshot(snapshot),
{
    if let Some(p) = focused_panel(snapshot.panels) {
        if !s.focus_is_gated(p) {
            lemma_visit_survives_reconciliation(s.jump_list, snapshot);
            assert(s.focus_snapshot(snapshot).parked());
        }
    }
}

/// A snapshot in which no panel reports focus changes nothing.
pub proof fn theorem_snapshot_without_focus_is_idle(s: StateView, snapshot: SnapshotView)
    requires
        forall|i: int| 0 <= i < snapshot.panels.len() ==> !(#[trigger] snapshot.panels[i]).is_focused,
    ensures
        s.focus_snapshot(snapshot) == s,
{
    theorem_focus_tracker(snapshot.panels);
}

/// The focused panel of a snapshot, once visited, heads the list after
/// reconciliation against that snapshot too.
proof fn lemma_visit_survives_reconciliation(list: Seq<PanelView>, snapshot: SnapshotView)
    requires
        focused_panel(snapshot.panels) is Some,
    ensures
        ({
            let p = focused_panel(snapshot.panels).unwrap();
            let rest = visited(list, p).drop_first();
            reconciled(visited(list, p), snapshot.live_ids()) == seq![p] + reconciled(
                rest,
                snapshot.live_ids(),
            )
        }),
{
    let p = focused_panel(snapshot.panels).unwrap();
    let rest = visited(list, p).drop_first();
    theorem_focus_tracker(snapshot.panels);
    assert(visited(list, p) =~= seq![p] + rest);
    if let Some(ids) = snapshot.live_ids() {
        rest.lemma_filter_prepend(p, is_live(ids));
    }
}

/// While the host is not in normal mode, snapshots of the panels change
/// neither the list nor the selection nor the mode, however many arrive.
pub proof fn theorem_snapshots_outside_normal_mode(s: StateView, events: Seq<EventView>)
    requires
        s.current_mode != InteractionMode::Normal,
        forall|i: int| 0 <= i < events.len() ==> #[trigger] events[i] is FocusSnapshot,
    ensures
        s.after_all(events).jump_list == s.jump_list,
        s.after_all(events).selection == s.selection,
        s.after_all(events).current_mode == s.current_mode,
        s.after_all(events).previous_mode == s.previous_mode,
    decreases events.len(),
{
    if events.len() > 0 {
        theorem_snapshots_outside_normal_mode(s, events.drop_last());
    }
}

/// In normal mode, a snapshot whose focused panel is no plugin panel and
/// does not head the list records exactly that panel: the list becomes the
/// visited list, reconciled, and the panel heads it. Where no entry of the
/// list is closed, the panel is put in front and nothing else changes but
/// what the capacity drops: below the capacity the list grows by exactly
/// one entry.
pub proof fn theorem_focus_in_normal_mode_records(s: StateView, snapshot: SnapshotView)
    requires
        s.current_mode == InteractionMode::Normal,
        focused_panel(snapshot.panels) matches Some(p) && !p.is_plugin && !is_head(s.jump_list, p),
    ensures
        ({
            let p = focused_panel(snapshot.panels).unwrap();
            let after = s.focus_snapshot(snapshot);
            &&& after.current_focus == p
            &&& after.jump_list == reconciled(visited(s.jump_list, p), snapshot.live_ids())
            &&& after.jump_list.len() > 0
            &&& after.jump_list[0] == p
            &&& reconciled(s.jump_list, snapshot.live_ids()) == s.jump_list ==> after.jump_list
                == visited(s.jump_list, p)
            &&& reconciled(s.jump_list, snapshot.live_ids()) == s.jump_list && s.jump_list.len()
                < 10 ==> after.jump_list == seq![p] + s.jump_list
        }),
{
    let p = focused_panel(snapshot.panels).unwrap();
    let rest = visited(s.jump_list, p).drop_first();
    lemma_visit_survives_reconciliation(s.jump_list, snapshot);
    lemma_visited(s.jump_list, p);
    if let Some(ids) = snapshot.live_ids() {
        if s.jump_list.filter(is_live(ids)) == s.jump_list {
            lemma_filter_of_prefix(s.jump_list, is_live(ids), rest.len() as int);
        }
    }
}

/// A change into normal mode from another mode, with a panel in focus that
/// is no plugin panel and does not head the list, records exactly that
/// panel: below the capacity the list grows by exactly one entry.
pub proof fn theorem_return_to_normal_mode_records(s: StateView)
    requires
        s.previous_mode != InteractionMode::Normal,
        !s.current_focus.is_plugin,
        !s.parked(),
    ensures
        s.mode_changed(InteractionMode::Normal).jump_list == visited(s.jump_list, s.current_focus),
        s.mode_changed(InteractionMode::Normal).jump_list[0] == s.current_focus,
        s.jump_list.len() < 10 ==> s.mode_changed(InteractionMode::Normal).jump_list == seq![
            s.current_focus,
        ] + s.jump_list,
{
}

/// A change of mode that is not a change into normal mode from another
/// mode leaves the list and the selection alone.
pub proof fn theorem_other_mode_changes_are_idle(s: StateView, mode: InteractionMode)
    requires
        mode != InteractionMode::Normal || s.previous_mode == InteractionMode::Normal,
    ensures
        s.mode_changed(mode).jump_list == s.jump_list,
        s.mode_changed(mode).selection == s.selection,
        s.mode_changed(mode).current_mode == mode,
        s.mode_changed(mode).previous_mode == mode,
{
}

/// Moving up `n` times, one time at least, puts the cursor `n` entries up,
/// but not above the first: from any state the cursor reaches 1 and stays
/// there.
pub proof fn theorem_move_up_clamps(s: StateView, n: nat)
    requires
        n >= 1,
    ensures
        s.moved_up_by(n).selection == vstd::math::max(1, s.selection - n),
        n >= s.selection - 1 ==> s.moved_up_by(n).selection == 1,
        s.moved_up_by(n).jump_list == s.jump_list,
    decreases n,
{
    if n > 1 {
        theorem_move_up_clamps(s, (n - 1) as nat);
    } else {
        assert(s.moved_up_by(0) == s);
    }
}

/// Moving down `n` times, one time at least, puts the cursor `n` entries
/// down, but not below the last entry nor the tenth: from any state the
/// cursor reaches that limit and stays there.
pub proof fn theorem_move_down_clamps(s: StateView, n: nat)
    requires
        n >= 1,
    ensures
        s.moved_down_by(n).selection == vstd::math::min(
            s.selection + n,
            selection_limit(s.jump_list.len()),
        ),
        n >= selection_limit(s.jump_list.len()) - s.selection ==> s.moved_down_by(n).selection
            == selection_limit(s.jump_list.len()),
        s.moved_down_by(n).jump_list == s.jump_list,
    decreases n,
{
    if n > 1 {
        theorem_move_down_clamps(s, (n - 1) as nat);
    } else {
        assert(s.moved_down_by(0) == s);
    }
}

/// Confirming asks for focus on the id of the entry under the cursor and
/// then for the surface to be hidden, exactly where the cursor points into
/// the list; in a consistent state that is wherever the list is not empty.
pub proof fn theorem_confirm_resolves_selection(s: StateView)
    ensures
        1 <= s.selection <= s.jump_list.len() ==> s.confirm_requests() == seq![
            HostRequest::FocusPanel(s.jump_list[s.selection - 1].id),
            HostRequest::HideSurface,
        ],
        !(1 <= s.selection <= s.jump_list.len()) ==> s.confirm_requests() == Seq::<
            HostRequest,
        >::empty(),
        s.wf() && s.jump_list.len() > 0 ==> s.confirm_requests().len() == 2,
{
}

/// In a consistent state with a list that is not empty, the listing marks
/// exactly one row as selected, and it is the row of the panel that
/// confirming resolves.
pub proof fn theorem_listing_marks_the_selection(s: StateView)
    requires
        s.wf(),
        s.jump_list.len() > 0,
    ensures
        s.entries().len() == s.jump_list.len(),
        s.entries()[s.selection - 1].is_selected,
        Some(s.entries()[s.selection - 1].panel) == s.selected(),
        forall|i: int|
            0 <= i < s.entries().len() && i != s.selection - 1 ==> !(#[trigger] s.entries()[i]).is_selected,
        forall|i: int| 0 <= i < s.entries().len() ==> (#[trigger] s.entries()[i]).index == i + 1,
{
}

/// A snapshot whose focused panel is a plugin panel changes neither the
/// list nor the selection nor the mode, whatever the state.
pub proof fn theorem_plugin_panels_are_not_recorded(s: StateView, snapshot: SnapshotView)
    requires
        focused_panel(snapshot.panels) matches Some(p) && p.is_plugin,
    ensures
        s.focus_snapshot(snapshot).jump_list == s.jump_list,
        s.focus_snapshot(snapshot).selection == s.selection,
        s.focus_snapshot(snapshot).current_mode == s.current_mode,
        s.focus_snapshot(snapshot).previous_mode == s.previous_mode,
{
}

/// Reconciliation against live ids treats each entry by itself: an entry
/// whose id is not live is removed, every other entry stays, and what
/// stands before and after it is reconciled in place, so the entries that
/// stay keep their order.
pub proof fn theorem_reconciliation_keeps_order(
    before: Seq<PanelView>,
    entry: PanelView,
    after: Seq<PanelView>,
    ids: Set<u32>,
)
    ensures
        reconciled(before + seq![entry] + after, Some(ids)) == reconciled(before, Some(ids)) + (
        if ids.contains(entry.id) {
            seq![entry]
        } else {
            Seq::empty()
        }) + reconciled(after, Some(ids)),
{
    let keep = is_live(ids);
    Seq::filter_distributes_over_add(before + seq![entry], after, keep);
    Seq::filter_distributes_over_add(before, seq![entry], keep);
    Seq::<PanelView>::empty().lemma_filter_push(entry, keep);
    reveal(Seq::filter);
}

/// After reconciliation against live ids every entry is live, and every
/// live entry of the list is still there. Without live ids the list is
/// left as it is.
pub proof fn theorem_reconciliation_keeps_the_live(list: Seq<PanelView>, ids: Set<u32>)
    ensures
        forall|i: int|
            0 <= i < reconciled(list, Some(ids)).len() ==> ids.contains(
                (#[trigger] reconciled(list, Some(ids))[i]).id,
            ),
        forall|i: int|
            0 <= i < list.len() && ids.contains((#[trigger] list[i]).id) ==> reconciled(
                list,
                Some(ids),
            ).contains(list[i]),
        reconciled(list, None) == list,
{
    let keep = is_live(ids);
    assert forall|i: int| 0 <= i < list.filter(keep).len() implies ids.contains(
        (#[trigger] list.filter(keep)[i]).id,
    ) by {
        list.lemma_filter_pred(keep, i);
    }
    assert forall|i: int| 0 <= i < list.len() && ids.contains((#[trigger] list[i]).id) implies list.filter(
        keep,
    ).contains(list[i]) by {
        list.lemma_filter_contains(keep, i);
    }
}

/// Reconciliation of a state's list against a snapshot that vouches for
/// its listing leaves exactly the entries whose id the snapshot lists, and
/// keeps the state consistent.
pub proof fn theorem_purge_reconciles(s: StateView, snapshot: SnapshotView)
    requires
        s.wf(),
        snapshot.reports_liveness,
    ensures
        s.purged(snapshot.live_ids()).jump_list == s.jump_list.filter(
            is_live(panel_ids(snapshot.panels)),
        ),
        s.purged(snapshot.live_ids()).wf(),
{
    lemma_reconciled_len(s.jump_list, snapshot.live_ids());
}

} // verus!
