use jump_list::event::{Event, HostRequest, Key};
use jump_list::mode::InteractionMode;
use jump_list::panel::PanelRef;
use jump_list::snapshot::{PanelInfo, Snapshot};
use jump_list::state::State;

fn pane(id: u32, name: &str) -> PanelRef {
    PanelRef { id, name: name.to_string(), is_plugin: false }
}

/// A snapshot of one group that lists the given terminal panels, the one
/// with id `focused` in focus.
fn snapshot_of(ids: &[u32], focused: u32) -> Snapshot {
    let group = ids
        .iter()
        .map(|&id| PanelInfo {
            id,
            title: format!("pane {}", id),
            is_plugin: false,
            is_focused: id == focused,
        })
        .collect();
    Snapshot { groups: vec![group], reports_liveness: true }
}

fn named(id: u32) -> PanelRef {
    pane(id, &format!("pane {}", id))
}

fn ids_of(state: &State) -> Vec<u32> {
    state.jump_list().iter().map(|p| p.id).collect()
}

/// A state whose list is `[3, 2, 1]` with the cursor on the second entry.
fn three_visited() -> State {
    let mut state = State::new();
    state.on_focus_snapshot(&snapshot_of(&[1, 2, 3], 1));
    state.on_focus_snapshot(&snapshot_of(&[1, 2, 3], 2));
    state.on_focus_snapshot(&snapshot_of(&[1, 2, 3], 3));
    state
}

#[test]
fn new_state_has_the_defaults() {
    let state = State::new();
    assert_eq!(*state.current_focus(), pane(0, ""));
    assert_eq!(state.current_mode(), InteractionMode::Normal);
    assert_eq!(state.previous_mode(), InteractionMode::Normal);
    assert!(state.jump_list().is_empty());
    assert_eq!(state.selection(), 0);
    assert!(!state.is_previous_jump());
}

#[test]
fn default_state_is_the_new_state() {
    let state = State::default();
    assert!(state.jump_list().is_empty());
    assert_eq!(state.selection(), 0);
    assert_eq!(state.current_mode(), InteractionMode::default());
    assert_eq!(InteractionMode::default(), InteractionMode::Normal);
}

#[test]
fn only_normal_mode_is_normal() {
    assert!(InteractionMode::Normal.is_normal());
    assert!(!InteractionMode::Locked.is_normal());
    assert!(!InteractionMode::Tmux.is_normal());
}

#[test]
fn first_focus_is_recorded_and_selected() {
    let mut state = State::new();
    let redraw = state.on_focus_snapshot(&snapshot_of(&[1, 2], 1));
    assert!(redraw);
    assert_eq!(*state.current_focus(), named(1));
    assert_eq!(*state.jump_list(), vec![named(1)]);
    assert_eq!(state.selection(), 1);
    assert!(state.is_previous_jump());
}

#[test]
fn next_focus_selects_the_previous_location() {
    let mut state = State::new();
    state.on_focus_snapshot(&snapshot_of(&[1, 2], 1));
    state.on_focus_snapshot(&snapshot_of(&[1, 2], 2));
    assert_eq!(*state.jump_list(), vec![named(2), named(1)]);
    assert_eq!(state.selection(), 2);
}

#[test]
fn selection_returns_to_the_second_entry_on_each_visit() {
    let mut state = three_visited();
    state.move_down();
    assert_eq!(state.selection(), 3);
    state.on_focus_snapshot(&snapshot_of(&[1, 2, 3], 1));
    assert_eq!(ids_of(&state), vec![1, 3, 2, 1]);
    assert_eq!(state.selection(), 2);
}

#[test]
fn refocusing_the_head_changes_nothing() {
    let mut state = three_visited();
    state.move_down();
    let redraw = state.on_focus_snapshot(&snapshot_of(&[1, 2, 3], 3));
    assert!(redraw);
    assert_eq!(ids_of(&state), vec![3, 2, 1]);
    assert_eq!(state.selection(), 3);
}

#[test]
fn same_id_under_another_title_is_another_panel() {
    let mut state = State::new();
    state.on_focus_snapshot(&snapshot_of(&[1], 1));
    let renamed = Snapshot {
        groups: vec![vec![PanelInfo {
            id: 1,
            title: "renamed".to_string(),
            is_plugin: false,
            is_focused: true,
        }]],
        reports_liveness: true,
    };
    state.on_focus_snapshot(&renamed);
    assert_eq!(*state.jump_list(), vec![pane(1, "renamed"), named(1)]);
    assert_eq!(state.selection(), 2);
}

#[test]
fn list_never_exceeds_ten_entries() {
    let all: Vec<u32> = (1..=12).collect();
    let mut state = State::new();
    for id in 1..=12 {
        state.on_focus_snapshot(&snapshot_of(&all, id));
        assert!(state.jump_list().len() <= 10);
        assert!(1 <= state.selection() && state.selection() <= state.jump_list().len());
    }
    assert_eq!(ids_of(&state), vec![12, 11, 10, 9, 8, 7, 6, 5, 4, 3]);
    assert_eq!(state.selection(), 2);
}

#[test]
fn mode_changes_keep_the_list_within_ten_entries() {
    let all: Vec<u32> = (1..=12).collect();
    let mut state = State::new();
    for id in 1..=10 {
        state.on_focus_snapshot(&snapshot_of(&all, id));
    }
    state.on_mode_changed(InteractionMode::Pane);
    state.on_focus_snapshot(&snapshot_of(&all, 11));
    assert_eq!(state.jump_list().len(), 10);
    state.on_mode_changed(InteractionMode::Normal);
    assert_eq!(ids_of(&state), vec![11, 10, 9, 8, 7, 6, 5, 4, 3, 2]);
    assert_eq!(state.selection(), 2);
}

#[test]
fn snapshots_outside_normal_mode_leave_the_list_alone() {
    let mut state = three_visited();
    state.on_mode_changed(InteractionMode::Locked);
    assert_eq!(state.current_mode(), InteractionMode::Locked);
    assert_eq!(state.previous_mode(), InteractionMode::Locked);
    state.on_focus_snapshot(&snapshot_of(&[1, 2, 3, 4], 4));
    state.on_focus_snapshot(&snapshot_of(&[2, 3, 4], 2));
    assert_eq!(ids_of(&state), vec![3, 2, 1]);
    assert_eq!(state.selection(), 2);
    assert_eq!(*state.current_focus(), named(2));
}

#[test]
fn return_to_normal_mode_records_one_entry() {
    let mut state = three_visited();
    state.on_mode_changed(InteractionMode::Locked);
    state.on_focus_snapshot(&snapshot_of(&[1, 2, 3, 4], 4));
    let redraw = state.on_mode_changed(InteractionMode::Normal);
    assert!(redraw);
    assert_eq!(ids_of(&state), vec![4, 3, 2, 1]);
    assert_eq!(state.selection(), 2);
    assert_eq!(state.previous_mode(), InteractionMode::Normal);
    state.on_focus_snapshot(&snapshot_of(&[1, 2, 3, 4, 5], 5));
    assert_eq!(ids_of(&state), vec![5, 4, 3, 2, 1]);
}

#[test]
fn repeated_normal_mode_records_nothing() {
    let mut state = three_visited();
    state.on_mode_changed(InteractionMode::Locked);
    state.on_focus_snapshot(&snapshot_of(&[1, 2, 3, 4], 4));
    state.on_mode_changed(InteractionMode::Normal);
    state.on_mode_changed(InteractionMode::Normal);
    assert_eq!(ids_of(&state), vec![4, 3, 2, 1]);
}

#[test]
fn normal_mode_at_the_start_records_nothing() {
    let mut state = State::new();
    let redraw = state.on_mode_changed(InteractionMode::Normal);
    assert!(redraw);
    assert!(state.jump_list().is_empty());
    assert_eq!(state.selection(), 0);
}

#[test]
fn return_to_normal_mode_onto_the_head_records_nothing() {
    let mut state = three_visited();
    state.on_mode_changed(InteractionMode::Scroll);
    state.on_mode_changed(InteractionMode::Normal);
    assert_eq!(ids_of(&state), vec![3, 2, 1]);
    assert_eq!(state.current_mode(), InteractionMode::Normal);
    assert_eq!(state.previous_mode(), InteractionMode::Scroll);
}

#[test]
fn return_to_normal_mode_on_an_empty_list_defines_the_selection() {
    let mut state = State::new();
    state.on_mode_changed(InteractionMode::Locked);
    state.on_focus_snapshot(&snapshot_of(&[7], 7));
    assert!(state.jump_list().is_empty());
    state.on_mode_changed(InteractionMode::Normal);
    assert_eq!(*state.jump_list(), vec![named(7)]);
    assert_eq!(state.selection(), 1);
}

#[test]
fn return_to_normal_mode_with_a_plugin_in_focus_records_nothing() {
    let mut state = three_visited();
    state.on_mode_changed(InteractionMode::Locked);
    let snapshot = Snapshot {
        groups: vec![vec![PanelInfo {
            id: 9,
            title: "plugin".to_string(),
            is_plugin: true,
            is_focused: true,
        }]],
        reports_liveness: true,
    };
    state.on_focus_snapshot(&snapshot);
    state.on_mode_changed(InteractionMode::Normal);
    assert_eq!(ids_of(&state), vec![3, 2, 1]);
    assert_eq!(state.previous_mode(), InteractionMode::Locked);
}

#[test]
fn move_up_stops_at_the_first_entry() {
    let mut state = three_visited();
    state.move_down();
    assert_eq!(state.selection(), 3);
    state.move_up();
    assert_eq!(state.selection(), 2);
    state.move_up();
    assert_eq!(state.selection(), 1);
    for _ in 0..5 {
        state.move_up();
        assert_eq!(state.selection(), 1);
    }
    assert_eq!(ids_of(&state), vec![3, 2, 1]);
}

#[test]
fn move_down_stops_at_the_last_entry() {
    let mut state = three_visited();
    state.move_down();
    assert_eq!(state.selection(), 3);
    for _ in 0..5 {
        state.move_down();
        assert_eq!(state.selection(), 3);
    }
}

#[test]
fn move_down_stops_at_the_tenth_entry() {
    let all: Vec<u32> = (1..=12).collect();
    let mut state = State::new();
    for id in 1..=12 {
        state.on_focus_snapshot(&snapshot_of(&all, id));
    }
    for _ in 0..20 {
        state.move_down();
    }
    assert_eq!(state.selection(), 10);
}

#[test]
fn moves_on_an_empty_list() {
    let mut state = State::new();
    state.move_up();
    assert_eq!(state.selection(), 1);
    state.move_down();
    assert_eq!(state.selection(), 0);
    assert!(state.selected().is_none());
}

#[test]
fn confirm_resolves_the_selected_entry() {
    let mut state = State::new();
    let a = PanelInfo { id: 10, title: "A".to_string(), is_plugin: false, is_focused: false };
    let b = PanelInfo { id: 20, title: "B".to_string(), is_plugin: false, is_focused: false };
    let c = PanelInfo { id: 30, title: "C".to_string(), is_plugin: false, is_focused: false };
    for focused in [30, 20, 10] {
        let group = [&a, &b, &c]
            .iter()
            .map(|p| PanelInfo { is_focused: p.id == focused, ..(*p).clone() })
            .collect();
        state.on_focus_snapshot(&Snapshot { groups: vec![group], reports_liveness: true });
    }
    assert_eq!(*state.jump_list(), vec![pane(10, "A"), pane(20, "B"), pane(30, "C")]);
    assert_eq!(state.selection(), 2);
    assert_eq!(state.selected(), Some(&pane(20, "B")));
    let requests = state.confirm();
    assert_eq!(requests, vec![HostRequest::FocusPanel(20), HostRequest::HideSurface]);
    assert_eq!(*state.jump_list(), vec![pane(10, "A"), pane(20, "B"), pane(30, "C")]);
    assert_eq!(state.selection(), 2);
}

#[test]
fn confirm_on_an_empty_list_asks_nothing() {
    let state = State::new();
    assert!(state.selected().is_none());
    assert!(state.confirm().is_empty());
    let mut moved = State::new();
    moved.move_up();
    assert_eq!(moved.selection(), 1);
    assert!(moved.confirm().is_empty());
}

#[test]
fn dismiss_hides_the_surface() {
    let state = three_visited();
    assert_eq!(state.dismiss(), vec![HostRequest::HideSurface]);
    assert_eq!(ids_of(&state), vec![3, 2, 1]);
    assert_eq!(state.selection(), 2);
}

#[test]
fn plugin_panels_are_not_recorded() {
    let mut state = three_visited();
    state.move_down();
    let snapshot = Snapshot {
        groups: vec![
            vec![PanelInfo { id: 1, title: "pane 1".to_string(), is_plugin: false, is_focused: false }],
            vec![PanelInfo { id: 9, title: "plugin".to_string(), is_plugin: true, is_focused: true }],
        ],
        reports_liveness: true,
    };
    let redraw = state.on_focus_snapshot(&snapshot);
    assert!(redraw);
    assert_eq!(ids_of(&state), vec![3, 2, 1]);
    assert_eq!(state.selection(), 3);
    assert_eq!(state.current_mode(), InteractionMode::Normal);
    assert_eq!(
        *state.current_focus(),
        PanelRef { id: 9, name: "plugin".to_string(), is_plugin: true }
    );
}

#[test]
fn closed_panels_leave_the_list_on_the_next_visit() {
    let mut state = three_visited();
    state.on_focus_snapshot(&snapshot_of(&[1, 3, 4], 4));
    assert_eq!(ids_of(&state), vec![4, 3, 1]);
    assert_eq!(state.selection(), 2);
}

#[test]
fn selection_is_clamped_when_the_list_shrinks() {
    let mut state = State::new();
    state.on_focus_snapshot(&snapshot_of(&[1, 2], 1));
    state.on_focus_snapshot(&snapshot_of(&[2], 2));
    assert_eq!(ids_of(&state), vec![2]);
    assert_eq!(state.selection(), 1);
}

#[test]
fn purge_clamps_the_selection() {
    let mut state = three_visited();
    state.move_down();
    assert_eq!(state.selection(), 3);
    state.purge(&snapshot_of(&[3, 1], 3));
    assert_eq!(ids_of(&state), vec![3, 1]);
    assert_eq!(state.selection(), 2);
    state.purge(&snapshot_of(&[], 0));
    assert!(state.jump_list().is_empty());
    assert_eq!(state.selection(), 1);
}

#[test]
fn purge_without_liveness_is_idle() {
    let mut state = three_visited();
    let snapshot = Snapshot { groups: Vec::new(), reports_liveness: false };
    state.purge(&snapshot);
    assert_eq!(ids_of(&state), vec![3, 2, 1]);
    assert_eq!(state.selection(), 2);
}

#[test]
fn snapshot_without_liveness_is_not_reconciled() {
    let mut state = three_visited();
    let snapshot = Snapshot {
        groups: vec![vec![PanelInfo {
            id: 4,
            title: "pane 4".to_string(),
            is_plugin: false,
            is_focused: true,
        }]],
        reports_liveness: false,
    };
    state.on_focus_snapshot(&snapshot);
    assert_eq!(ids_of(&state), vec![4, 3, 2, 1]);
}

#[test]
fn snapshot_without_focus_changes_nothing() {
    let mut state = three_visited();
    state.move_down();
    let redraw = state.on_focus_snapshot(&snapshot_of(&[1, 2, 3], 0));
    assert!(redraw);
    assert_eq!(*state.current_focus(), named(3));
    assert_eq!(ids_of(&state), vec![3, 2, 1]);
    assert_eq!(state.selection(), 3);
    state.on_focus_snapshot(&snapshot_of(&[1], 0));
    assert_eq!(ids_of(&state), vec![3, 2, 1]);
    assert_eq!(state.selection(), 3);
    state.on_focus_snapshot(&Snapshot { groups: Vec::new(), reports_liveness: true });
    assert_eq!(ids_of(&state), vec![3, 2, 1]);
}

#[test]
fn snapshot_without_focus_on_a_new_state_records_nothing() {
    let mut state = State::new();
    let redraw = state.on_focus_snapshot(&snapshot_of(&[1, 2], 0));
    assert!(redraw);
    assert!(state.jump_list().is_empty());
    assert_eq!(state.selection(), 0);
    assert_eq!(*state.current_focus(), pane(0, ""));
}

#[test]
fn a_closed_panel_between_two_visits_leaves_duplicates_in_place() {
    let mut state = State::new();
    state.on_focus_snapshot(&snapshot_of(&[1, 2], 1));
    state.on_focus_snapshot(&snapshot_of(&[1, 2], 2));
    state.on_focus_snapshot(&snapshot_of(&[1], 1));
    assert_eq!(ids_of(&state), vec![1, 1]);
    assert_eq!(state.selection(), 2);
}

#[test]
fn keys_move_the_cursor() {
    let mut state = three_visited();
    assert!(state.on_key(Key::Down).is_empty());
    assert_eq!(state.selection(), 3);
    assert!(state.on_key(Key::Up).is_empty());
    assert_eq!(state.selection(), 2);
    assert!(state.on_key(Key::Char('k')).is_empty());
    assert_eq!(state.selection(), 1);
    assert!(state.on_key(Key::Char('j')).is_empty());
    assert_eq!(state.selection(), 2);
}

#[test]
fn escape_dismisses_and_enter_confirms() {
    let mut state = three_visited();
    assert_eq!(state.on_key(Key::Esc), vec![HostRequest::HideSurface]);
    assert_eq!(
        state.on_key(Key::Char('\n')),
        vec![HostRequest::FocusPanel(2), HostRequest::HideSurface]
    );
    assert_eq!(ids_of(&state), vec![3, 2, 1]);
    assert_eq!(state.selection(), 2);
}

#[test]
fn other_keys_do_nothing() {
    let mut state = three_visited();
    assert!(state.on_key(Key::Other).is_empty());
    assert!(state.on_key(Key::Char('x')).is_empty());
    assert!(state.on_key(Key::Char('K')).is_empty());
    assert_eq!(ids_of(&state), vec![3, 2, 1]);
    assert_eq!(state.selection(), 2);
}

#[test]
fn update_dispatches_each_notification() {
    let mut state = State::new();
    let r = state.update(Event::FocusSnapshot(snapshot_of(&[1, 2], 1)));
    assert!(r.redraw);
    assert!(r.requests.is_empty());
    let r = state.update(Event::FocusSnapshot(snapshot_of(&[1, 2], 2)));
    assert!(r.redraw);
    assert_eq!(ids_of(&state), vec![2, 1]);
    let r = state.update(Event::KeyPressed(Key::Char('\n')));
    assert!(r.redraw);
    assert_eq!(r.requests, vec![HostRequest::FocusPanel(1), HostRequest::HideSurface]);
    let r = state.update(Event::KeyPressed(Key::Other));
    assert!(r.redraw);
    assert!(r.requests.is_empty());
    let r = state.update(Event::ModeChanged(InteractionMode::Tab));
    assert!(r.redraw);
    assert!(r.requests.is_empty());
    assert_eq!(state.current_mode(), InteractionMode::Tab);
    let r = state.update(Event::Other);
    assert!(!r.redraw);
    assert!(r.requests.is_empty());
    assert_eq!(ids_of(&state), vec![2, 1]);
    assert_eq!(state.selection(), 2);
}
