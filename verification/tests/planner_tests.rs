use artillery_planner::api::{PlanData, PositionData};
use artillery_planner::map_view::{
    handle_marker_placement, MarkerKind, PlacementMode, SelectedMarker,
};
use artillery_planner::planner::{
    capture_snapshot, key_action, paired_target, push_undo, restore_snapshot, to_map_px,
    to_meters, Key, KeyAction, PlanSnapshot, Planner, UNDO_LIMIT,
};

fn snapshot_with_guns(n: usize) -> PlanSnapshot {
    let mut s = PlanSnapshot::new();
    for i in 0..n {
        s.gun_positions.push((i as i64 * 1_000, 0));
        s.gun_weapon_ids.push("mortar".to_string());
        s.gun_target_indices.push(None);
    }
    s
}

fn same(a: &PlanSnapshot, b: &PlanSnapshot) -> bool {
    a.gun_positions == b.gun_positions
        && a.target_positions == b.target_positions
        && a.spotter_positions == b.spotter_positions
        && a.gun_weapon_ids == b.gun_weapon_ids
        && a.gun_target_indices == b.gun_target_indices
        && a.wind_direction == b.wind_direction
        && a.wind_strength == b.wind_strength
}

#[test]
fn a_snapshot_is_a_deep_copy() {
    let mut plan = snapshot_with_guns(2);
    plan.target_positions.push((5, 6));
    plan.spotter_positions.push((7, 8));
    plan.gun_target_indices[1] = Some(0);
    plan.wind_direction = Some(90_000);
    plan.wind_strength = 4;
    let snap = capture_snapshot(&plan);
    assert!(same(&snap, &plan));
    plan.gun_positions[0] = (99, 99);
    plan.gun_weapon_ids[0] = "other".to_string();
    assert_eq!(snap.gun_positions[0], (0, 0));
    assert_eq!(snap.gun_weapon_ids[0], "mortar");
    let mut live = PlanSnapshot::new();
    restore_snapshot(&snap, &mut live);
    assert!(same(&live, &snap));
    assert!(same(&snap.clone(), &snap));
}

#[test]
fn the_undo_stack_holds_at_most_fifty_snapshots() {
    let mut undo = Vec::new();
    let mut redo = vec![snapshot_with_guns(9)];
    for i in 0..UNDO_LIMIT {
        push_undo(&mut undo, &mut redo, snapshot_with_guns(i));
        assert_eq!(undo.len(), i + 1);
        assert!(redo.is_empty());
    }
    assert_eq!(undo.len(), 50);
    push_undo(&mut undo, &mut redo, snapshot_with_guns(50));
    assert_eq!(undo.len(), 50);
    // The oldest left; the others kept their order.
    for (k, snap) in undo.iter().enumerate() {
        assert_eq!(snap.gun_positions.len(), k + 1);
    }
    push_undo(&mut undo, &mut redo, snapshot_with_guns(51));
    assert_eq!(undo.len(), 50);
    assert_eq!(undo[0].gun_positions.len(), 2);
    assert_eq!(undo[49].gun_positions.len(), 51);
}

#[test]
fn fifty_one_placements_leave_fifty_steps_back() {
    let mut planner = Planner::new();
    planner.placement_mode = PlacementMode::Spotter;
    let mut after_first = PlanSnapshot::new();
    for i in 0..51 {
        handle_marker_placement(i * 1_000, i * 2_000, 1_000, &mut planner);
        if i == 0 {
            after_first = capture_snapshot(&planner.plan);
        }
    }
    assert_eq!(planner.plan.spotter_positions.len(), 51);
    assert_eq!(planner.undo_stack.len(), 50);
    for step in 0..50 {
        assert!(planner.undo(), "step {} should be reversible", step);
    }
    assert!(same(&planner.plan, &after_first));
    assert_eq!(planner.plan.spotter_positions, vec![(0, 0)]);
    assert!(!planner.undo());
    assert!(same(&planner.plan, &after_first));
    assert_eq!(planner.redo_stack.len(), 50);
}

#[test]
fn undo_and_redo_mirror_each_other() {
    let mut planner = Planner::new();
    handle_marker_placement(1_000, 1_000, 1_000, &mut planner);
    handle_marker_placement(500_000, 500_000, 1_000, &mut planner);
    let full = capture_snapshot(&planner.plan);
    planner.selected_marker = Some(SelectedMarker { kind: MarkerKind::Gun, index: 0 });
    assert!(planner.undo());
    assert_eq!(planner.selected_marker, None);
    assert_eq!(planner.plan.target_positions.len(), 0);
    assert_eq!(planner.plan.gun_target_indices, vec![None]);
    assert_eq!(planner.undo_stack.len(), 1);
    assert_eq!(planner.redo_stack.len(), 1);
    planner.selected_marker = Some(SelectedMarker { kind: MarkerKind::Gun, index: 0 });
    assert!(planner.redo());
    assert_eq!(planner.selected_marker, None);
    assert!(same(&planner.plan, &full));
    assert_eq!(planner.undo_stack.len(), 2);
    assert_eq!(planner.redo_stack.len(), 0);
    assert!(!planner.redo());
    assert!(same(&planner.plan, &full));
}

#[test]
fn a_new_action_after_undo_leaves_nothing_to_redo() {
    let mut planner = Planner::new();
    handle_marker_placement(1_000, 1_000, 1_000, &mut planner);
    handle_marker_placement(500_000, 500_000, 1_000, &mut planner);
    assert!(planner.undo());
    assert_eq!(planner.redo_stack.len(), 1);
    handle_marker_placement(9_000, 9_000, 1_000, &mut planner);
    assert!(planner.redo_stack.is_empty());
    let before = capture_snapshot(&planner.plan);
    assert!(!planner.redo());
    assert!(same(&planner.plan, &before));
    // The same holds of every other change.
    assert!(planner.undo());
    planner.set_wind(Some(45_000), 2);
    assert!(planner.redo_stack.is_empty());
    assert!(planner.undo());
    planner.change_map();
    assert!(planner.redo_stack.is_empty());
    assert!(planner.undo());
    planner.toggle_wind_direction(90_000);
    assert!(planner.redo_stack.is_empty());
}

#[test]
fn changing_the_map_clears_the_markers_and_can_be_undone() {
    let mut planner = Planner::new();
    handle_marker_placement(1_000, 1_000, 1_000, &mut planner);
    handle_marker_placement(500_000, 500_000, 1_000, &mut planner);
    planner.set_wind(Some(90_000), 3);
    planner.selected_marker = Some(SelectedMarker { kind: MarkerKind::Gun, index: 0 });
    let before = capture_snapshot(&planner.plan);
    planner.change_map();
    assert!(planner.plan.gun_positions.is_empty());
    assert!(planner.plan.target_positions.is_empty());
    assert!(planner.plan.gun_weapon_ids.is_empty());
    assert!(planner.plan.gun_target_indices.is_empty());
    assert_eq!(planner.plan.wind_direction, Some(90_000));
    assert_eq!(planner.plan.wind_strength, 3);
    assert_eq!(planner.selected_marker, None);
    assert!(planner.undo());
    assert!(same(&planner.plan, &before));
}

#[test]
fn wind_buttons_toggle() {
    let mut planner = Planner::new();
    planner.toggle_wind_direction(270_000);
    assert_eq!(planner.plan.wind_direction, Some(270_000));
    planner.toggle_wind_direction(90_000);
    assert_eq!(planner.plan.wind_direction, Some(90_000));
    planner.toggle_wind_direction(90_000);
    assert_eq!(planner.plan.wind_direction, None);
    assert_eq!(planner.undo_stack.len(), 3);
}

#[test]
fn keys_and_what_they_ask_for() {
    let ch = Key::Character;
    assert_eq!(key_action(ch('z'), true, false, false), KeyAction::Undo);
    assert_eq!(key_action(ch('z'), true, true, false), KeyAction::Redo);
    assert_eq!(key_action(ch('Z'), true, true, false), KeyAction::Redo);
    assert_eq!(key_action(ch('Z'), true, false, false), KeyAction::Nothing);
    assert_eq!(key_action(ch('z'), false, false, false), KeyAction::Nothing);
    assert_eq!(key_action(ch('1'), false, false, false), KeyAction::SetMode(PlacementMode::Gun));
    assert_eq!(key_action(ch('g'), false, false, false), KeyAction::SetMode(PlacementMode::Gun));
    assert_eq!(key_action(ch('2'), false, false, false), KeyAction::SetMode(PlacementMode::Target));
    assert_eq!(key_action(ch('t'), true, false, false), KeyAction::SetMode(PlacementMode::Target));
    assert_eq!(key_action(ch('3'), false, false, false), KeyAction::SetMode(PlacementMode::Spotter));
    assert_eq!(key_action(ch('s'), false, true, false), KeyAction::SetMode(PlacementMode::Spotter));
    assert_eq!(key_action(ch('h'), false, false, false), KeyAction::ToggleHelp);
    assert_eq!(key_action(ch('?'), false, true, false), KeyAction::ToggleHelp);
    assert_eq!(key_action(ch('r'), false, false, false), KeyAction::ResetView);
    assert_eq!(key_action(ch('x'), false, false, false), KeyAction::Nothing);
    assert_eq!(key_action(Key::Delete, false, false, false), KeyAction::DeleteSelected);
    assert_eq!(key_action(Key::Backspace, false, false, false), KeyAction::DeleteSelected);
    assert_eq!(key_action(Key::Escape, false, false, false), KeyAction::Dismiss);
    assert_eq!(key_action(Key::Other, true, true, false), KeyAction::Nothing);
    // While an input field has the focus only Escape acts.
    assert_eq!(key_action(Key::Escape, false, false, true), KeyAction::BlurInput);
    assert_eq!(key_action(ch('z'), true, false, true), KeyAction::Nothing);
    assert_eq!(key_action(Key::Delete, false, false, true), KeyAction::Nothing);
}

#[test]
fn escape_closes_the_help_before_it_clears_the_selection() {
    let mut planner = Planner::new();
    planner.selected_marker = Some(SelectedMarker { kind: MarkerKind::Spotter, index: 0 });
    planner.toggle_help();
    assert!(planner.show_help);
    planner.dismiss();
    assert!(!planner.show_help);
    assert!(planner.selected_marker.is_some());
    planner.dismiss();
    assert_eq!(planner.selected_marker, None);
}

#[test]
fn selection_toggles_and_modes_are_set() {
    let mut planner = Planner::new();
    let marker = SelectedMarker { kind: MarkerKind::Target, index: 2 };
    planner.toggle_selection(marker);
    assert_eq!(planner.selected_marker, Some(marker));
    planner.toggle_selection(SelectedMarker { kind: MarkerKind::Gun, index: 2 });
    assert_eq!(planner.selected_marker, Some(SelectedMarker { kind: MarkerKind::Gun, index: 2 }));
    planner.toggle_selection(SelectedMarker { kind: MarkerKind::Gun, index: 2 });
    assert_eq!(planner.selected_marker, None);
    planner.set_mode(PlacementMode::Spotter);
    assert_eq!(planner.placement_mode, PlacementMode::Spotter);
    planner.request_view_reset();
    assert_eq!(planner.reset_view_counter, 1);
    planner.reset_view_counter = u64::MAX;
    planner.request_view_reset();
    assert_eq!(planner.reset_view_counter, 0);
}

#[test]
fn pairings_are_read_defensively() {
    let pairings = vec![Some(0), Some(5), None];
    assert_eq!(paired_target(&pairings, 0, 2), Some(0));
    assert_eq!(paired_target(&pairings, 1, 2), None);
    assert_eq!(paired_target(&pairings, 2, 2), None);
    assert_eq!(paired_target(&pairings, 3, 2), None);
    assert_eq!(paired_target(&pairings, 0, 0), None);
}

#[test]
fn firing_lines_follow_the_pairings() {
    let mut planner = Planner::new();
    planner.plan = snapshot_with_guns(4);
    planner.plan.target_positions = vec![(1, 1), (2, 2)];
    planner.plan.gun_target_indices = vec![Some(1), None, Some(0), Some(5)];
    assert_eq!(planner.firing_lines(), vec![(0, 1), (2, 0)]);
    // Two guns at one target give two lines.
    planner.plan.gun_target_indices = vec![Some(0), Some(0), None, None];
    assert_eq!(planner.firing_lines(), vec![(0, 0), (1, 0)]);
    planner.plan.gun_target_indices = vec![None, None, None, None];
    assert!(planner.firing_lines().is_empty());
}

#[test]
fn solutions_are_asked_for_guns_with_weapon_and_target() {
    let mut planner = Planner::new();
    planner.plan = snapshot_with_guns(3);
    planner.plan.target_positions = vec![(1, 1)];
    planner.plan.gun_target_indices = vec![Some(0), Some(0), Some(3)];
    planner.plan.gun_weapon_ids[1] = String::new();
    assert_eq!(planner.needs_solution(0), Some(0));
    assert_eq!(planner.needs_solution(1), None);
    assert_eq!(planner.needs_solution(2), None);
    assert_eq!(planner.needs_solution(3), None);
}

#[test]
fn a_gun_gets_another_weapon() {
    let mut planner = Planner::new();
    planner.plan = snapshot_with_guns(2);
    planner.set_gun_weapon(1, "storm-cannon");
    assert_eq!(planner.plan.gun_weapon_ids, vec!["mortar".to_string(), "storm-cannon".to_string()]);
    assert_eq!(planner.undo_stack.len(), 1);
    planner.set_gun_weapon(7, "storm-cannon");
    assert_eq!(planner.plan.gun_weapon_ids.len(), 2);
}

fn stored_plan(indices: Vec<Option<i32>>, wind: Option<i64>) -> PlanData {
    PlanData {
        id: "abc-123".to_string(),
        name: "Plan".to_string(),
        map_id: "deadlands".to_string(),
        weapon_ids: vec!["storm-cannon".to_string(), "mortar".to_string()],
        gun_positions: vec![PositionData { x: 2_184_000, y: 0 }, PositionData { x: 1_092_000, y: 945_000 }],
        target_positions: vec![PositionData { x: 0, y: 1_890_000 }],
        spotter_positions: vec![],
        gun_target_indices: indices,
        wind_direction: wind,
        wind_strength: 3,
    }
}

#[test]
fn loading_a_plan_converts_metres_to_pixels() {
    let mut planner = Planner::new();
    planner.plan.wind_direction = Some(10_000);
    handle_marker_placement(1_000, 1_000, 1_000, &mut planner);
    planner.load_plan(&stored_plan(vec![Some(0), None], Some(90_000)));
    assert_eq!(planner.plan.gun_positions, vec![(1_024_000, 0), (512_000, 444_000)]);
    assert_eq!(planner.plan.target_positions, vec![(0, 888_000)]);
    assert!(planner.plan.spotter_positions.is_empty());
    assert_eq!(planner.plan.gun_weapon_ids, vec!["storm-cannon".to_string(), "mortar".to_string()]);
    assert_eq!(planner.plan.gun_target_indices, vec![Some(0), None]);
    assert_eq!(planner.plan.wind_direction, Some(90_000));
    assert_eq!(planner.plan.wind_strength, 3);
    assert_eq!(planner.selected_weapon, "storm-cannon");
    assert_eq!(planner.undo_stack.len(), 1);
}

#[test]
fn loading_an_older_plan_pairs_by_index() {
    let mut planner = Planner::new();
    planner.plan.wind_direction = Some(10_000);
    planner.load_plan(&stored_plan(vec![], None));
    assert_eq!(planner.plan.gun_target_indices, vec![Some(0), None]);
    // A plan without a wind direction leaves the direction that was set.
    assert_eq!(planner.plan.wind_direction, Some(10_000));
    assert_eq!(planner.plan.wind_strength, 3);
}

#[test]
fn positions_are_stored_in_metres() {
    let metres = to_meters(&vec![(1_024_000, 0), (512_000, 444_000)]).unwrap();
    assert_eq!(metres, vec![PositionData { x: 2_184_000, y: 0 }, PositionData { x: 1_092_000, y: 945_000 }]);
    assert_eq!(to_map_px(&metres), vec![(1_024_000, 0), (512_000, 444_000)]);
    assert_eq!(to_meters(&vec![]), Some(vec![]));
    assert_eq!(to_meters(&vec![(0, 0), (i64::MAX, 0)]), None);
    assert_eq!(to_meters(&vec![(0, -1_000_000_000_000_001)]), None);
}
