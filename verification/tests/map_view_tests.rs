use artillery_planner::map_view::{
    coord_readout, delete_selected, find_first_unpaired_target, find_nearest, find_removal_target, fix_selection,
    handle_marker_placement, handle_marker_removal, marker_label, pair_first_unpaired_gun,
    remove_marker, removal_threshold, squared_distance, Faction, MarkerKind, PlacementMode,
    SelectedMarker,
};
use artillery_planner::planner::{PlanSnapshot, Planner};
use artillery_planner::view::clamp_pan;

/// Thousandths of a unit from a number of units.
fn m(v: f64) -> i64 {
    (v * 1000.0).round() as i64
}

/// Units from thousandths of a unit.
fn f(v: i64) -> f64 {
    v as f64 / 1000.0
}

fn pts(list: &[(f64, f64)]) -> Vec<(i64, i64)> {
    list.iter().map(|p| (m(p.0), m(p.1))).collect()
}

fn plan_with(
    guns: &[(f64, f64)],
    targets: &[(f64, f64)],
    spotters: &[(f64, f64)],
    pairings: &[Option<usize>],
) -> PlanSnapshot {
    PlanSnapshot {
        gun_positions: pts(guns),
        target_positions: pts(targets),
        spotter_positions: pts(spotters),
        gun_weapon_ids: guns.iter().enumerate().map(|(i, _)| format!("weapon-{}", i)).collect(),
        gun_target_indices: pairings.to_vec(),
        wind_direction: None,
        wind_strength: 0,
    }
}

// --- find_nearest tests ---

#[test]
fn test_find_nearest_within_threshold() {
    let positions = pts(&[(100.0, 100.0), (200.0, 200.0)]);
    assert_eq!(find_nearest(&positions, (m(101.0), m(101.0)), m(30.0)), Some(0));
    assert_eq!(find_nearest(&positions, (m(199.0), m(199.0)), m(30.0)), Some(1));
}

#[test]
fn test_find_nearest_outside_threshold() {
    let positions = pts(&[(100.0, 100.0)]);
    assert_eq!(find_nearest(&positions, (m(200.0), m(200.0)), m(30.0)), None);
}

#[test]
fn test_find_nearest_picks_closest() {
    // Two targets both within threshold — should pick the closer one
    let positions = pts(&[(100.0, 100.0), (110.0, 110.0)]);
    assert_eq!(find_nearest(&positions, (m(108.0), m(108.0)), m(30.0)), Some(1));
    assert_eq!(find_nearest(&positions, (m(102.0), m(102.0)), m(30.0)), Some(0));
}

// --- marker_label tests ---

#[test]
fn test_marker_label_single() {
    assert_eq!(marker_label("GUN", 0, 1), "GUN");
}

#[test]
fn test_marker_label_multiple() {
    assert_eq!(marker_label("GUN", 0, 3), "GUN 1");
    assert_eq!(marker_label("GUN", 2, 3), "GUN 3");
}

// --- clamp_pan tests ---

#[test]
fn test_clamp_pan_zoom1_map_fits_in_container() {
    // Container is taller than the map: no panning needed
    let (px, py) = clamp_pan(m(0.0), m(0.0), m(1.0), m(2048.0), m(2000.0));
    assert!((f(px) - 0.0).abs() < 0.01);
    assert!((f(py) - 0.0).abs() < 0.01);
}

#[test]
fn test_clamp_pan_zoom1_map_taller_than_container() {
    // Wide container: image renders taller than container
    // container_w=3200, image_h = 3200*(888/1024) = 2775, container_h=2000
    // min_pan_y = -(2775 - 2000) = -775
    let (_, py) = clamp_pan(m(0.0), m(-400.0), m(1.0), m(3200.0), m(2000.0));
    assert!((f(py) - (-400.0)).abs() < 0.01, "Should allow panning down");
    let (_, py) = clamp_pan(m(0.0), m(-1000.0), m(1.0), m(3200.0), m(2000.0));
    let min_y = -(3200.0 * (888.0 / 1024.0) - 2000.0);
    assert!((f(py) - min_y).abs() < 0.01, "Should clamp at min_pan_y");
}

#[test]
fn test_clamp_pan_prevents_positive_pan() {
    // Pan should never go positive (would show empty space on left/top)
    let (px, py) = clamp_pan(m(50.0), m(50.0), m(1.0), m(800.0), m(600.0));
    assert!((f(px) - 0.0).abs() < 0.01);
    assert!((f(py) - 0.0).abs() < 0.01);
}

// --- nearest-marker search ---

#[test]
fn nearest_is_strictly_within_the_threshold() {
    let positions = pts(&[(0.0, 0.0)]);
    assert_eq!(find_nearest(&positions, (m(30.0), 0), m(30.0)), None);
    assert_eq!(find_nearest(&positions, (m(30.0) - 1, 0), m(30.0)), Some(0));
    assert_eq!(find_nearest(&positions, (0, 0), 0), None);
    assert_eq!(find_nearest(&positions, (0, 0), -5), None);
    assert_eq!(find_nearest(&Vec::new(), (0, 0), m(30.0)), None);
}

#[test]
fn nearest_takes_the_first_of_equals() {
    let positions = pts(&[(10.0, 0.0), (-10.0, 0.0), (0.0, 10.0)]);
    assert_eq!(find_nearest(&positions, (0, 0), m(30.0)), Some(0));
}

#[test]
fn nearest_copes_with_the_largest_coordinates() {
    let positions = vec![(i64::MIN, i64::MIN), (i64::MAX, i64::MAX), (5, 5)];
    assert_eq!(find_nearest(&positions, (0, 0), i64::MAX), Some(2));
    assert_eq!(find_nearest(&positions, (i64::MAX, i64::MAX), 10), Some(1));
    assert_eq!(squared_distance((3, 4), (0, 0)), 25);
    assert_eq!(squared_distance((i64::MIN, 0), (i64::MAX, 0)), 1u128 << 127);
}

#[test]
fn search_radius_shrinks_with_zoom_up_to_five() {
    assert_eq!(removal_threshold(1_000), 60_000);
    assert_eq!(removal_threshold(2_000), 30_000);
    assert_eq!(removal_threshold(3_000), 20_000);
    assert_eq!(removal_threshold(5_000), 12_000);
    assert_eq!(removal_threshold(10_000), 12_000);
    assert_eq!(removal_threshold(1_100), 54_545);
    assert_eq!(removal_threshold(0), 60_000);
}

// --- pairing ---

#[test]
fn first_unpaired_target_is_found_by_ascending_index() {
    assert_eq!(find_first_unpaired_target(&vec![], 0), None);
    assert_eq!(find_first_unpaired_target(&vec![], 2), Some(0));
    assert_eq!(find_first_unpaired_target(&vec![Some(0)], 2), Some(1));
    assert_eq!(find_first_unpaired_target(&vec![Some(1), None], 2), Some(0));
    assert_eq!(find_first_unpaired_target(&vec![Some(1), Some(0)], 2), None);
    assert_eq!(find_first_unpaired_target(&vec![Some(0), Some(0), Some(2)], 3), Some(1));
    assert_eq!(find_first_unpaired_target(&vec![Some(7)], 1), Some(0));
}

#[test]
fn first_unpaired_gun_gets_the_target() {
    let mut pairings = vec![Some(0), None, None];
    pair_first_unpaired_gun(&mut pairings, 4);
    assert_eq!(pairings, vec![Some(0), Some(4), None]);
    pair_first_unpaired_gun(&mut pairings, 5);
    assert_eq!(pairings, vec![Some(0), Some(4), Some(5)]);
    pair_first_unpaired_gun(&mut pairings, 6);
    assert_eq!(pairings, vec![Some(0), Some(4), Some(5)]);
    let mut none: Vec<Option<usize>> = vec![];
    pair_first_unpaired_gun(&mut none, 0);
    assert!(none.is_empty());
}

#[test]
fn second_gun_pairs_with_the_free_second_target() {
    let mut planner = Planner::new();
    planner.plan = plan_with(&[(10.0, 10.0)], &[(50.0, 50.0), (90.0, 90.0)], &[], &[Some(0)]);
    planner.placement_mode = PlacementMode::Gun;
    planner.selected_weapon = "mortar".to_string();
    let placed = handle_marker_placement(m(20.0), m(20.0), m(1.0), &mut planner);
    assert_eq!(placed, Some(MarkerKind::Gun));
    assert_eq!(planner.plan.gun_target_indices, vec![Some(0), Some(1)]);
    assert_eq!(planner.plan.gun_positions, pts(&[(10.0, 10.0), (20.0, 20.0)]));
    assert_eq!(planner.plan.gun_weapon_ids[1], "mortar");
    assert_eq!(planner.placement_mode, PlacementMode::Target);
}

#[test]
fn a_gun_stays_unpaired_where_every_target_is_taken() {
    let mut planner = Planner::new();
    planner.plan = plan_with(&[(10.0, 10.0)], &[(50.0, 50.0)], &[], &[Some(0)]);
    handle_marker_placement(m(20.0), m(20.0), m(1.0), &mut planner);
    assert_eq!(planner.plan.gun_target_indices, vec![Some(0), None]);
}

#[test]
fn a_new_target_is_paired_with_the_first_unpaired_gun() {
    let mut planner = Planner::new();
    planner.plan =
        plan_with(&[(10.0, 10.0), (20.0, 20.0), (30.0, 30.0)], &[(500.0, 500.0)], &[], &[Some(0), None, None]);
    planner.placement_mode = PlacementMode::Target;
    let placed = handle_marker_placement(m(700.0), m(700.0), m(1.0), &mut planner);
    assert_eq!(placed, Some(MarkerKind::Target));
    assert_eq!(planner.plan.target_positions.len(), 2);
    assert_eq!(planner.plan.gun_target_indices, vec![Some(0), Some(1), None]);
    assert_eq!(planner.placement_mode, PlacementMode::Gun);
}

#[test]
fn spotters_pair_with_nothing_and_keep_the_mode() {
    let mut planner = Planner::new();
    planner.plan = plan_with(&[(10.0, 10.0)], &[], &[], &[None]);
    planner.placement_mode = PlacementMode::Spotter;
    let placed = handle_marker_placement(m(5.0), m(6.0), m(1.0), &mut planner);
    assert_eq!(placed, Some(MarkerKind::Spotter));
    assert_eq!(planner.plan.spotter_positions, pts(&[(5.0, 6.0)]));
    assert_eq!(planner.plan.gun_target_indices, vec![None]);
    assert_eq!(planner.placement_mode, PlacementMode::Spotter);
}

#[test]
fn placement_alternates_between_gun_and_target() {
    let mut planner = Planner::new();
    assert_eq!(planner.placement_mode, PlacementMode::Gun);
    handle_marker_placement(m(10.0), m(10.0), m(1.0), &mut planner);
    assert_eq!(planner.placement_mode, PlacementMode::Target);
    handle_marker_placement(m(400.0), m(400.0), m(1.0), &mut planner);
    assert_eq!(planner.placement_mode, PlacementMode::Gun);
    assert_eq!(planner.plan.gun_target_indices, vec![Some(0)]);
    assert_eq!(planner.undo_stack.len(), 2);
}

// --- move mode ---

#[test]
fn a_selected_gun_near_a_target_is_paired_with_it() {
    let mut planner = Planner::new();
    planner.plan = plan_with(&[(10.0, 10.0)], &[(500.0, 500.0), (700.0, 700.0)], &[], &[Some(0)]);
    planner.selected_marker = Some(SelectedMarker { kind: MarkerKind::Gun, index: 0 });
    let placed = handle_marker_placement(m(705.0), m(695.0), m(1.0), &mut planner);
    assert_eq!(placed, None);
    assert_eq!(planner.plan.gun_target_indices, vec![Some(1)]);
    assert_eq!(planner.plan.gun_positions, pts(&[(10.0, 10.0)]));
    assert_eq!(planner.selected_marker, None);
    assert_eq!(planner.placement_mode, PlacementMode::Gun);
    assert_eq!(planner.undo_stack.len(), 1);
}

#[test]
fn a_selected_gun_away_from_targets_moves() {
    let mut planner = Planner::new();
    planner.plan = plan_with(&[(10.0, 10.0)], &[(500.0, 500.0)], &[], &[Some(0)]);
    planner.selected_marker = Some(SelectedMarker { kind: MarkerKind::Gun, index: 0 });
    handle_marker_placement(m(100.0), m(100.0), m(1.0), &mut planner);
    assert_eq!(planner.plan.gun_positions, pts(&[(100.0, 100.0)]));
    assert_eq!(planner.plan.gun_target_indices, vec![Some(0)]);
    assert_eq!(planner.selected_marker, None);
}

#[test]
fn the_pairing_radius_shrinks_with_zoom() {
    let mut planner = Planner::new();
    planner.plan = plan_with(&[(10.0, 10.0)], &[(500.0, 500.0)], &[], &[None]);
    planner.selected_marker = Some(SelectedMarker { kind: MarkerKind::Gun, index: 0 });
    // 40 px away: within 60 px at zoom 1, outside 12 px at zoom 5.
    handle_marker_placement(m(540.0), m(500.0), m(5.0), &mut planner);
    assert_eq!(planner.plan.gun_target_indices, vec![None]);
    assert_eq!(planner.plan.gun_positions, pts(&[(540.0, 500.0)]));
}

#[test]
fn selected_targets_and_spotters_move() {
    let mut planner = Planner::new();
    planner.plan = plan_with(&[], &[(1.0, 1.0), (2.0, 2.0)], &[(3.0, 3.0)], &[]);
    planner.selected_marker = Some(SelectedMarker { kind: MarkerKind::Target, index: 1 });
    handle_marker_placement(m(9.0), m(9.0), m(1.0), &mut planner);
    assert_eq!(planner.plan.target_positions, pts(&[(1.0, 1.0), (9.0, 9.0)]));
    planner.selected_marker = Some(SelectedMarker { kind: MarkerKind::Spotter, index: 0 });
    handle_marker_placement(m(8.0), m(8.0), m(1.0), &mut planner);
    assert_eq!(planner.plan.spotter_positions, pts(&[(8.0, 8.0)]));
    // A selection that names no marker moves nothing.
    planner.selected_marker = Some(SelectedMarker { kind: MarkerKind::Spotter, index: 5 });
    handle_marker_placement(m(7.0), m(7.0), m(1.0), &mut planner);
    assert_eq!(planner.plan.spotter_positions, pts(&[(8.0, 8.0)]));
    assert_eq!(planner.selected_marker, None);
}

// --- removal ---

#[test]
fn removing_the_first_target_clears_and_shifts_pairings() {
    let mut plan = plan_with(
        &[(1.0, 1.0), (2.0, 2.0), (3.0, 3.0)],
        &[(10.0, 10.0), (20.0, 20.0)],
        &[],
        &[Some(0), Some(0), Some(1)],
    );
    remove_marker(MarkerKind::Target, 0, &mut plan);
    assert_eq!(plan.target_positions, pts(&[(20.0, 20.0)]));
    assert_eq!(plan.gun_target_indices, vec![None, None, Some(0)]);
    assert_eq!(plan.gun_positions.len(), 3);
    assert_eq!(plan.gun_weapon_ids.len(), 3);
}

#[test]
fn removing_a_middle_target_leaves_earlier_pairings() {
    let mut plan = plan_with(
        &[(1.0, 1.0), (2.0, 2.0), (3.0, 3.0), (4.0, 4.0)],
        &[(10.0, 10.0), (20.0, 20.0), (30.0, 30.0)],
        &[],
        &[Some(0), Some(1), Some(2), None],
    );
    remove_marker(MarkerKind::Target, 1, &mut plan);
    assert_eq!(plan.gun_target_indices, vec![Some(0), None, Some(1), None]);
    assert_eq!(plan.target_positions, pts(&[(10.0, 10.0), (30.0, 30.0)]));
}

#[test]
fn removing_a_gun_drops_its_weapon_and_pairing() {
    let mut plan = plan_with(
        &[(1.0, 1.0), (2.0, 2.0), (3.0, 3.0)],
        &[(10.0, 10.0)],
        &[],
        &[Some(0), None, Some(0)],
    );
    remove_marker(MarkerKind::Gun, 1, &mut plan);
    assert_eq!(plan.gun_positions, pts(&[(1.0, 1.0), (3.0, 3.0)]));
    assert_eq!(plan.gun_weapon_ids, vec!["weapon-0".to_string(), "weapon-2".to_string()]);
    assert_eq!(plan.gun_target_indices, vec![Some(0), Some(0)]);
    assert_eq!(plan.target_positions.len(), 1);
}

#[test]
fn removing_a_spotter_touches_nothing_else() {
    let mut plan = plan_with(&[(1.0, 1.0)], &[(10.0, 10.0)], &[(5.0, 5.0), (6.0, 6.0)], &[Some(0)]);
    remove_marker(MarkerKind::Spotter, 0, &mut plan);
    assert_eq!(plan.spotter_positions, pts(&[(6.0, 6.0)]));
    assert_eq!(plan.gun_target_indices, vec![Some(0)]);
    assert_eq!(plan.gun_positions.len(), 1);
    assert_eq!(plan.target_positions.len(), 1);
}

#[test]
fn removing_a_marker_that_does_not_exist_changes_nothing() {
    let mut plan = plan_with(&[(1.0, 1.0)], &[(10.0, 10.0)], &[(5.0, 5.0)], &[Some(0)]);
    remove_marker(MarkerKind::Gun, 1, &mut plan);
    remove_marker(MarkerKind::Target, 1, &mut plan);
    remove_marker(MarkerKind::Spotter, 1, &mut plan);
    remove_marker(MarkerKind::Target, usize::MAX, &mut plan);
    assert_eq!(plan.gun_positions.len(), 1);
    assert_eq!(plan.target_positions.len(), 1);
    assert_eq!(plan.spotter_positions.len(), 1);
    assert_eq!(plan.gun_target_indices, vec![Some(0)]);
}

#[test]
fn selection_follows_a_removal() {
    let sel = |kind, index| Some(SelectedMarker { kind, index });
    assert_eq!(fix_selection(sel(MarkerKind::Gun, 2), MarkerKind::Gun, 2), None);
    assert_eq!(fix_selection(sel(MarkerKind::Gun, 3), MarkerKind::Gun, 2), sel(MarkerKind::Gun, 2));
    assert_eq!(fix_selection(sel(MarkerKind::Gun, 1), MarkerKind::Gun, 2), sel(MarkerKind::Gun, 1));
    assert_eq!(
        fix_selection(sel(MarkerKind::Target, 3), MarkerKind::Gun, 2),
        sel(MarkerKind::Target, 3)
    );
    assert_eq!(fix_selection(None, MarkerKind::Gun, 0), None);
}

#[test]
fn removal_prefers_the_active_kind() {
    let plan = plan_with(&[(100.0, 100.0)], &[(110.0, 100.0)], &[(101.0, 100.0)], &[None]);
    let click = (m(102.0), m(100.0));
    let hit = find_removal_target(&plan, PlacementMode::Target, click, m(60.0)).unwrap();
    assert_eq!((hit.kind, hit.index), (MarkerKind::Target, 0));
    let hit = find_removal_target(&plan, PlacementMode::Gun, click, m(60.0)).unwrap();
    assert_eq!((hit.kind, hit.index), (MarkerKind::Gun, 0));
    let hit = find_removal_target(&plan, PlacementMode::Spotter, click, m(60.0)).unwrap();
    assert_eq!((hit.kind, hit.index), (MarkerKind::Spotter, 0));
}

#[test]
fn removal_falls_back_to_the_nearest_of_any_kind() {
    let plan = plan_with(&[(100.0, 100.0)], &[], &[(130.0, 100.0)], &[None]);
    let hit = find_removal_target(&plan, PlacementMode::Target, (m(120.0), m(100.0)), m(60.0)).unwrap();
    assert_eq!((hit.kind, hit.index), (MarkerKind::Spotter, 0));
    assert_eq!(hit.dist_sq, 100_000_000);
    // Equally near: the gun goes first.
    let hit = find_removal_target(&plan, PlacementMode::Target, (m(115.0), m(100.0)), m(60.0)).unwrap();
    assert_eq!((hit.kind, hit.index), (MarkerKind::Gun, 0));
    assert!(find_removal_target(&plan, PlacementMode::Target, (m(500.0), m(500.0)), m(60.0)).is_none());
}

#[test]
fn a_removal_click_removes_saves_and_fixes_the_selection() {
    let mut planner = Planner::new();
    planner.plan = plan_with(
        &[(100.0, 100.0), (300.0, 300.0)],
        &[(500.0, 500.0), (700.0, 700.0)],
        &[],
        &[Some(1), Some(0)],
    );
    planner.placement_mode = PlacementMode::Target;
    planner.selected_marker = Some(SelectedMarker { kind: MarkerKind::Target, index: 1 });
    let removed = handle_marker_removal(m(505.0), m(505.0), m(1.0), &mut planner);
    assert_eq!(removed, Some((MarkerKind::Target, 0)));
    assert_eq!(planner.plan.target_positions, pts(&[(700.0, 700.0)]));
    assert_eq!(planner.plan.gun_target_indices, vec![Some(0), None]);
    assert_eq!(planner.selected_marker, Some(SelectedMarker { kind: MarkerKind::Target, index: 0 }));
    assert_eq!(planner.undo_stack.len(), 1);
    assert_eq!(planner.undo_stack[0].target_positions.len(), 2);
    // A click that hits nothing leaves everything, the history too.
    let removed = handle_marker_removal(m(5.0), m(900.0), m(1.0), &mut planner);
    assert_eq!(removed, None);
    assert_eq!(planner.undo_stack.len(), 1);
}

#[test]
fn deleting_the_selected_marker() {
    let mut planner = Planner::new();
    planner.plan = plan_with(&[(100.0, 100.0)], &[(500.0, 500.0)], &[], &[Some(0)]);
    assert!(!delete_selected(&mut planner));
    assert_eq!(planner.undo_stack.len(), 0);
    planner.selected_marker = Some(SelectedMarker { kind: MarkerKind::Target, index: 0 });
    assert!(delete_selected(&mut planner));
    assert!(planner.plan.target_positions.is_empty());
    assert_eq!(planner.plan.gun_target_indices, vec![None]);
    assert_eq!(planner.selected_marker, None);
    assert_eq!(planner.undo_stack.len(), 1);
}

#[test]
fn labels_count_from_one() {
    assert_eq!(marker_label("TARGET", 0, 0), "TARGET");
    assert_eq!(marker_label("SPOTTER", 9, 12), "SPOTTER 10");
    assert_eq!(marker_label("GUN", 99, 100), "GUN 100");
}

// --- the operations behind the clicks ---

#[test]
fn markers_are_added_with_their_pairings() {
    let mut plan = PlanSnapshot::new();
    plan.add_target((m(500.0), m(500.0)));
    plan.add_gun((m(10.0), m(10.0)), "mortar".to_string());
    plan.add_gun((m(20.0), m(20.0)), String::new());
    plan.add_spotter((m(1.0), m(2.0)));
    assert_eq!(plan.gun_target_indices, vec![Some(0), None]);
    assert_eq!(plan.gun_weapon_ids, vec!["mortar".to_string(), String::new()]);
    plan.add_target((m(600.0), m(600.0)));
    assert_eq!(plan.gun_target_indices, vec![Some(0), Some(1)]);
    plan.add_target((m(700.0), m(700.0)));
    assert_eq!(plan.gun_target_indices, vec![Some(0), Some(1)]);
    assert_eq!(plan.target_positions.len(), 3);
    assert_eq!(plan.spotter_positions, pts(&[(1.0, 2.0)]));
}

#[test]
fn a_gun_can_be_paired_by_hand() {
    let mut plan = plan_with(&[(1.0, 1.0), (2.0, 2.0)], &[(10.0, 10.0), (20.0, 20.0)], &[], &[Some(0), None]);
    plan.pair_gun_to_target(1, 0);
    assert_eq!(plan.gun_target_indices, vec![Some(0), Some(0)]);
    plan.pair_gun_to_target(0, 1);
    assert_eq!(plan.gun_target_indices, vec![Some(1), Some(0)]);
    // A gun or a target that does not exist changes nothing.
    plan.pair_gun_to_target(2, 0);
    plan.pair_gun_to_target(0, 2);
    plan.pair_gun_to_target(usize::MAX, usize::MAX);
    assert_eq!(plan.gun_target_indices, vec![Some(1), Some(0)]);
}

#[test]
fn markers_move_in_place() {
    let mut plan = plan_with(&[(1.0, 1.0)], &[(10.0, 10.0)], &[(5.0, 5.0)], &[Some(0)]);
    plan.move_marker(MarkerKind::Gun, 0, (7, 7));
    plan.move_marker(MarkerKind::Target, 0, (8, 8));
    plan.move_marker(MarkerKind::Spotter, 0, (9, 9));
    plan.move_marker(MarkerKind::Spotter, 1, (0, 0));
    assert_eq!(plan.gun_positions, vec![(7, 7)]);
    assert_eq!(plan.target_positions, vec![(8, 8)]);
    assert_eq!(plan.spotter_positions, vec![(9, 9)]);
    assert_eq!(plan.gun_target_indices, vec![Some(0)]);
}

#[test]
fn the_side_is_kept_as_a_word() {
    assert_eq!(Faction::from_saved(Some("colonial")), Faction::Colonial);
    assert_eq!(Faction::from_saved(Some("warden")), Faction::Warden);
    assert_eq!(Faction::from_saved(Some("Colonial")), Faction::Warden);
    assert_eq!(Faction::from_saved(Some("")), Faction::Warden);
    assert_eq!(Faction::from_saved(None), Faction::Warden);
    assert_eq!(Faction::Colonial.saved_word(), "colonial");
    assert_eq!(Faction::Warden.saved_word(), "warden");
}

#[test]
fn read_out_lines_join_label_and_grid() {
    assert_eq!(coord_readout(MarkerKind::Gun, 0, 1, (m(1.0), m(1.0))), "GUN: A1k7");
    assert_eq!(coord_readout(MarkerKind::Target, 1, 2, (m(512.0), m(444.0))), "TGT 2: I8k5");
    assert_eq!(coord_readout(MarkerKind::Spotter, 2, 3, (m(1023.0), m(887.0))), "SPT 3: Q15k3");
}
