use artillery_planner::calc::{
    accuracy_radius, azimuth, distance, firing_solution, in_range, normalize_bearing,
    push_heading, round_to_five, wind_offset,
};
use artillery_planner::models::{Faction, Position, Weapon, WindInput};

/// Thousandths of a unit from a number of units.
fn m(v: f64) -> i64 {
    (v * 1000.0).round() as i64
}

/// Units from thousandths of a unit.
fn f(v: i64) -> f64 {
    v as f64 / 1000.0
}

fn pos(x: f64, y: f64) -> Position {
    Position { x: m(x), y: m(y) }
}

/// Bearing of a displacement, clockwise from north, the vertical axis growing southward.
fn heading_of(east: i64, south: i64) -> i64 {
    let rad = (east as f64).atan2(-(south as f64));
    (rad.to_degrees() * 1000.0).round() as i64
}

/// Displacement of the given length along the given bearing.
fn vector_of(heading: i64, length: i64) -> (i64, i64) {
    let rad = (heading as f64 / 1000.0).to_radians();
    let dx = rad.sin() * length as f64;
    let dy = -rad.cos() * length as f64;
    (dx.round() as i64, dy.round() as i64)
}

fn test_weapon() -> Weapon {
    Weapon {
        faction: Faction::Both,
        display_name: "Test Gun".to_string(),
        min_range: m(100.0),
        max_range: m(300.0),
        acc_radius: [m(10.0), m(30.0)],
        wind_drift: [m(0.0), m(0.0)],
    }
}

#[test]
fn test_distance_horizontal() {
    let a = pos(0.0, 0.0);
    let b = pos(100.0, 0.0);
    assert!((f(distance(a, b)) - 100.0).abs() < 1e-9);
}

#[test]
fn test_distance_diagonal() {
    let a = pos(0.0, 0.0);
    let b = pos(3.0, 4.0);
    assert!((f(distance(a, b)) - 5.0).abs() < 1e-9);
}

#[test]
fn test_azimuth_north() {
    // Target is directly north (negative Y in screen coords)
    let gun = pos(100.0, 100.0);
    let target = pos(100.0, 0.0);
    assert!((f(azimuth(gun, target, &heading_of)) - 0.0).abs() < 1e-9);
}

#[test]
fn test_azimuth_east() {
    let gun = pos(0.0, 0.0);
    let target = pos(100.0, 0.0);
    assert!((f(azimuth(gun, target, &heading_of)) - 90.0).abs() < 1e-9);
}

#[test]
fn test_azimuth_south() {
    let gun = pos(0.0, 0.0);
    let target = pos(0.0, 100.0);
    assert!((f(azimuth(gun, target, &heading_of)) - 180.0).abs() < 1e-9);
}

#[test]
fn test_azimuth_west() {
    let gun = pos(100.0, 0.0);
    let target = pos(0.0, 0.0);
    assert!((f(azimuth(gun, target, &heading_of)) - 270.0).abs() < 1e-9);
}

#[test]
fn test_accuracy_at_min_range() {
    let w = test_weapon();
    assert!((f(accuracy_radius(&w, m(100.0))) - 10.0).abs() < 1e-9);
}

#[test]
fn test_accuracy_at_max_range() {
    let w = test_weapon();
    assert!((f(accuracy_radius(&w, m(300.0))) - 30.0).abs() < 1e-9);
}

#[test]
fn test_accuracy_midpoint() {
    let w = test_weapon();
    assert!((f(accuracy_radius(&w, m(200.0))) - 20.0).abs() < 1e-9);
}

#[test]
fn test_firing_solution_no_wind() {
    let gun = pos(0.0, 0.0);
    let target = pos(0.0, -200.0);
    let w = test_weapon();
    let sol = firing_solution(gun, target, &w, None, &heading_of, &vector_of);
    assert!((f(sol.azimuth) - 0.0).abs() < 1e-6);
    assert!((f(sol.distance) - 200.0).abs() < 1e-6);
    assert!(sol.in_range);
    assert!(sol.wind_adjusted_azimuth.is_none());
}

#[test]
fn test_firing_solution_out_of_range() {
    let gun = pos(0.0, 0.0);
    let target = pos(500.0, 0.0);
    let w = test_weapon();
    let sol = firing_solution(gun, target, &w, None, &heading_of, &vector_of);
    assert!(!sol.in_range);
}

#[test]
fn test_firing_solution_with_wind() {
    let gun = pos(0.0, 0.0);
    let target = pos(0.0, -200.0);
    let w = test_weapon();
    let wind = WindInput {
        direction: m(270.0), // wind from west
        strength: 3,
    };
    let sol = firing_solution(gun, target, &w, Some(wind), &heading_of, &vector_of);
    // Wind from west pushes east, so compensation aims west of target
    assert!(sol.wind_adjusted_azimuth.is_some());
    let adj_az = f(sol.wind_adjusted_azimuth.unwrap());
    // Without wind the azimuth is 0 (north); wind pushes east, so the aim goes slightly west (< 360)
    assert!(adj_az > 350.0 || adj_az < 10.0); // roughly north, slightly west
}

#[test]
fn test_wind_offset_strength_zero() {
    let gun = pos(0.0, 0.0);
    let target = pos(200.0, 0.0);
    let w = test_weapon();
    let wind = WindInput {
        direction: m(0.0),
        strength: 0,
    };
    let sol = firing_solution(gun, target, &w, Some(wind), &heading_of, &vector_of);
    assert!(sol.wind_adjusted_azimuth.is_none());
}

#[test]
fn target_due_south_at_two_hundred_metres() {
    let sol = firing_solution(
        pos(0.0, 0.0),
        pos(0.0, 200.0),
        &test_weapon(),
        None,
        &heading_of,
        &vector_of,
    );
    assert_eq!(sol.distance, 200_000);
    assert_eq!(sol.azimuth, 180_000);
    assert!(sol.in_range);
    assert_eq!(sol.accuracy_radius, 20_000);
    assert_eq!(sol.wind_adjusted_azimuth, None);
    assert_eq!(sol.wind_adjusted_distance, None);
    assert_eq!(sol.wind_offset_meters, None);
}

#[test]
fn wind_from_the_west_moves_the_aim_point_west() {
    let wind = WindInput { direction: 270_000, strength: 3 };
    let sol = firing_solution(
        pos(0.0, 0.0),
        pos(0.0, 200.0),
        &test_weapon(),
        Some(wind),
        &heading_of,
        &vector_of,
    );
    assert_eq!(sol.distance, 200_000);
    assert_eq!(sol.azimuth, 180_000);
    assert_eq!(sol.wind_offset_meters, Some(24_000));
    // The aim point lies 24 m west of the target: bearing 180 + atan(24 / 200) degrees.
    let adj = sol.wind_adjusted_azimuth.unwrap();
    assert_ne!(adj, 180_000);
    assert_eq!(adj, 186_843);
    // sqrt(200^2 + 24^2) = 201.434...
    assert_eq!(sol.wind_adjusted_distance, Some(201_434));
}

#[test]
fn wind_values_come_together_or_not_at_all() {
    let w = test_weapon();
    for strength in 0u8..=5 {
        for direction in [0i64, 45_000, 90_000, 180_000, 270_000, 359_999] {
            let sol = firing_solution(
                pos(10.0, 20.0),
                pos(150.0, 90.0),
                &w,
                Some(WindInput { direction, strength }),
                &heading_of,
                &vector_of,
            );
            let present = strength > 0;
            assert_eq!(sol.wind_adjusted_azimuth.is_some(), present);
            assert_eq!(sol.wind_adjusted_distance.is_some(), present);
            assert_eq!(sol.wind_offset_meters.is_some(), present);
            if present {
                assert_eq!(sol.wind_offset_meters, Some(strength as i64 * 8_000));
            }
        }
    }
}

#[test]
fn wind_offset_is_absent_for_strength_zero_whatever_the_direction() {
    for direction in [0i64, 1, 90_000, 180_000, 359_999, -45_000, 720_000] {
        let wind = WindInput { direction, strength: 0 };
        assert_eq!(wind_offset(&wind, &vector_of), None);
    }
}

#[test]
fn wind_offset_points_away_from_where_the_wind_comes_from() {
    // Wind from the north pushes south: y grows.
    assert_eq!(wind_offset(&WindInput { direction: 0, strength: 1 }, &vector_of), Some((0, 8_000)));
    // Wind from the east pushes west.
    assert_eq!(
        wind_offset(&WindInput { direction: 90_000, strength: 5 }, &vector_of),
        Some((-40_000, 0))
    );
    // Wind from the west pushes east.
    assert_eq!(
        wind_offset(&WindInput { direction: 270_000, strength: 3 }, &vector_of),
        Some((24_000, 0))
    );
}

#[test]
fn push_heading_is_the_opposite_bearing() {
    assert_eq!(push_heading(0), 180_000);
    assert_eq!(push_heading(180_000), 0);
    assert_eq!(push_heading(270_000), 90_000);
    assert_eq!(push_heading(359_999), 179_999);
    assert_eq!(push_heading(-90_000), 90_000);
}

#[test]
fn bearings_are_brought_into_range() {
    assert_eq!(normalize_bearing(0), 0);
    assert_eq!(normalize_bearing(-90_000), 270_000);
    assert_eq!(normalize_bearing(-180_000), 180_000);
    assert_eq!(normalize_bearing(360_000), 0);
    assert_eq!(normalize_bearing(725_000), 5_000);
    assert_eq!(normalize_bearing(-1), 359_999);
}

#[test]
fn accuracy_is_held_at_the_ends_outside_the_range() {
    let w = test_weapon();
    assert_eq!(accuracy_radius(&w, 0), 10_000);
    assert_eq!(accuracy_radius(&w, 99_999), 10_000);
    assert_eq!(accuracy_radius(&w, 300_001), 30_000);
    assert_eq!(accuracy_radius(&w, 5_000_000), 30_000);
    assert_eq!(accuracy_radius(&w, 150_000), 15_000);
    assert_eq!(accuracy_radius(&w, 250_000), 25_000);
    assert_eq!(accuracy_radius(&w, 100_001), 10_000);
    assert_eq!(accuracy_radius(&w, 100_005), 10_001);
}

#[test]
fn accuracy_of_a_weapon_without_a_range_span() {
    let mut w = test_weapon();
    w.max_range = w.min_range;
    assert_eq!(accuracy_radius(&w, 0), 10_000);
    assert_eq!(accuracy_radius(&w, 100_000), 10_000);
    assert_eq!(accuracy_radius(&w, 900_000), 10_000);
    w.max_range = w.min_range - 1;
    assert_eq!(accuracy_radius(&w, 100_000), 10_000);
}

#[test]
fn accuracy_may_shrink_with_distance() {
    let mut w = test_weapon();
    w.acc_radius = [30_000, 10_000];
    assert_eq!(accuracy_radius(&w, 100_000), 30_000);
    assert_eq!(accuracy_radius(&w, 200_000), 20_000);
    assert_eq!(accuracy_radius(&w, 300_000), 10_000);
}

#[test]
fn range_check_includes_both_ends() {
    let w = test_weapon();
    assert!(!in_range(&w, 99_999));
    assert!(in_range(&w, 100_000));
    assert!(in_range(&w, 300_000));
    assert!(!in_range(&w, 300_001));
}

#[test]
fn distance_is_the_whole_part_of_the_root() {
    // sqrt(2) = 1.41421356...
    assert_eq!(distance(pos(0.0, 0.0), pos(1.0, 1.0)), 1_414);
    assert_eq!(distance(pos(5.0, 5.0), pos(5.0, 5.0)), 0);
    assert_eq!(distance(pos(-3.0, 0.0), pos(0.0, -4.0)), 5_000);
    let far = Position { x: i64::MAX, y: i64::MAX };
    let near = Position { x: i64::MIN, y: i64::MIN };
    assert_eq!(distance(far, near), 4_000_000_000_000_000_000);
}

#[test]
fn shown_distances_are_multiples_of_five_metres() {
    assert_eq!(round_to_five(0), 0);
    assert_eq!(round_to_five(2_499), 0);
    assert_eq!(round_to_five(2_500), 5_000);
    assert_eq!(round_to_five(201_434), 200_000);
    assert_eq!(round_to_five(202_500), 205_000);
    assert_eq!(round_to_five(-2_500), -5_000);
    assert_eq!(round_to_five(-2_499), 0);
}

/// A function that must not be asked.
fn no_heading(_east: i64, _south: i64) -> i64 {
    panic!("the bearing along an axis needs no trigonometry")
}

/// A function that must not be asked.
fn no_vector(_heading: i64, _length: i64) -> (i64, i64) {
    panic!("the displacement along an axis needs no trigonometry")
}

#[test]
fn bearings_along_the_axes_are_exact() {
    let gun = pos(50.0, 50.0);
    assert_eq!(azimuth(gun, pos(50.0, 0.0), &no_heading), 0);
    assert_eq!(azimuth(gun, pos(90.0, 50.0), &no_heading), 90_000);
    assert_eq!(azimuth(gun, pos(50.0, 50.001), &no_heading), 180_000);
    assert_eq!(azimuth(gun, pos(-1000.0, 50.0), &no_heading), 270_000);
    // Off the axes the given function decides, and its result is brought into range.
    assert_eq!(azimuth(gun, pos(60.0, 40.0), &heading_of), 45_000);
    assert_eq!(azimuth(gun, pos(40.0, 60.0), &heading_of), 225_000);
    assert_eq!(azimuth(gun, pos(40.0, 40.0), &|_, _| -45_000), 315_000);
    assert_eq!(azimuth(gun, gun, &|_, _| 180_000), 180_000);
}

#[test]
fn wind_along_the_axes_is_exact() {
    for (direction, expected) in [
        (0i64, (0i64, 16_000i64)),
        (90_000, (-16_000, 0)),
        (180_000, (0, -16_000)),
        (270_000, (16_000, 0)),
    ] {
        let wind = WindInput { direction, strength: 2 };
        assert_eq!(wind_offset(&wind, &no_vector), Some(expected));
    }
    // Wind from the north-east pushes south-west.
    let wind = WindInput { direction: 45_000, strength: 1 };
    assert_eq!(wind_offset(&wind, &vector_of), Some((-5_657, 5_657)));
}

#[test]
fn a_solution_along_the_axes_needs_no_trigonometry() {
    let wind = WindInput { direction: 180_000, strength: 5 };
    let sol = firing_solution(
        pos(0.0, 0.0),
        pos(0.0, -200.0),
        &test_weapon(),
        Some(wind),
        &no_heading,
        &no_vector,
    );
    // Wind from the south pushes north: aim 40 m short of the target.
    assert_eq!(sol.azimuth, 0);
    assert_eq!(sol.wind_adjusted_azimuth, Some(0));
    assert_eq!(sol.wind_adjusted_distance, Some(160_000));
    assert_eq!(sol.wind_offset_meters, Some(40_000));
}

#[test]
fn a_displacement_function_is_asked_for_lengths_from_zero_up_only() {
    // A function that keeps within every length from zero up, and panics below zero.
    let guarded = |heading: i64, length: i64| -> (i64, i64) {
        assert!(length >= 0);
        vector_of(heading, length)
    };
    for strength in 0u8..=5 {
        for direction in [0i64, 30_000, 90_000, 200_000, 359_999] {
            let sol = firing_solution(
                pos(0.0, 0.0),
                pos(120.0, 160.0),
                &test_weapon(),
                Some(WindInput { direction, strength }),
                &heading_of,
                &guarded,
            );
            assert_eq!(sol.distance, 200_000);
            assert_eq!(sol.wind_offset_meters.is_some(), strength > 0);
        }
    }
}
