use artillery_planner::report::{
    format_stats, format_war_state, FactionPlacementStats, MarkerPlacementStats, Stats, WarState,
    WeaponPlacementStat,
};

fn war(start: Option<u64>, end: Option<u64>) -> WarState {
    WarState {
        war_number: 117,
        winner: "WARDENS".to_string(),
        conquest_start_time: start,
        conquest_end_time: end,
        required_victory_towns: 32,
    }
}

#[test]
fn a_finished_war_shows_its_duration() {
    // 3 days, 5 hours and 59 minutes.
    let start = 1_700_000_000_000;
    let end = start + (3 * 86_400 + 5 * 3_600 + 59 * 60) * 1_000;
    assert_eq!(
        format_war_state(&war(Some(start), Some(end)), 0),
        "=== War Status ===\n  War Number: 117\n  Winner: WARDENS\n  Victory Towns Required: 32\n  War Duration: 3 days, 5 hours\n\n"
    );
}

#[test]
fn a_running_war_shows_the_time_so_far() {
    let start = 1_700_000_000_000;
    let now = start + 86_400_000 + 3_600_000;
    assert_eq!(
        format_war_state(&war(Some(start), None), now),
        "=== War Status ===\n  War Number: 117\n  Winner: WARDENS\n  Victory Towns Required: 32\n  War Duration So Far: 1 days, 1 hours (ongoing)\n\n"
    );
    // A clock behind the start shows no time at all.
    assert!(format_war_state(&war(Some(start), None), 5).contains("So Far: 0 days, 0 hours (ongoing)"));
}

#[test]
fn a_war_without_a_start_shows_no_duration() {
    let expected = "=== War Status ===\n  War Number: 117\n  Winner: WARDENS\n  Victory Towns Required: 32\n\n";
    assert_eq!(format_war_state(&war(None, None), 99), expected);
    assert_eq!(format_war_state(&war(None, Some(5)), 99), expected);
}

#[test]
fn an_end_before_the_start_counts_as_no_time() {
    assert!(format_war_state(&war(Some(9_000), Some(1_000)), 0).contains("War Duration: 0 days, 0 hours\n"));
    // Parts of a second are dropped from each time before the two are compared.
    assert!(format_war_state(&war(Some(999), Some(86_400_000)), 0).contains("War Duration: 1 days, 0 hours\n"));
}

#[test]
fn statistics_as_text() {
    let stats = Stats {
        gun_placements: vec![
            WeaponPlacementStat { display_name: "Mortar".to_string(), faction: "BOTH".to_string(), count: 12 },
            WeaponPlacementStat { display_name: "Storm Cannon".to_string(), faction: "WARDEN".to_string(), count: 0 },
        ],
        gun_placement_totals: FactionPlacementStats { colonial: 12, warden: 12, total: 12 },
        marker_placements: MarkerPlacementStats { targets: 30, spotters: 4 },
    };
    assert_eq!(
        format_stats(&stats),
        "=== Gun Placement Totals ===\n  Warden:   12\n  Colonial: 12\n  Total:    12\n\n=== Gun Placements by Weapon ===\n  Mortar (BOTH): 12\n  Storm Cannon (WARDEN): 0\n\n=== Marker Placements ===\n  Targets placed: 30\n  Spotters placed: 4\n"
    );
}

#[test]
fn statistics_without_weapons() {
    let stats = Stats {
        gun_placements: vec![],
        gun_placement_totals: FactionPlacementStats { colonial: 0, warden: 0, total: 0 },
        marker_placements: MarkerPlacementStats { targets: 0, spotters: 0 },
    };
    assert_eq!(
        format_stats(&stats),
        "=== Gun Placement Totals ===\n  Warden:   0\n  Colonial: 0\n  Total:    0\n\n=== Gun Placements by Weapon ===\n\n=== Marker Placements ===\n  Targets placed: 0\n  Spotters placed: 0\n"
    );
}
