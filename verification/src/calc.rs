//! Firing solutions: distance, bearing, accuracy radius and compensation for wind.
//!
//! Bearings are compass bearings clockwise from north, in thousandths of a degree from 0
//! up to, but not including, 360 000. The vertical axis grows southward, as on a screen.
//! Trigonometry is not part of this crate: the functions that need a bearing or a
//! displacement take the function that computes it as an argument, and their contracts
//! state what they do with its result.

use vstd::prelude::*;
use crate::models::{FiringSolution, Position, Weapon, WindInput};
use crate::map_view::dist_sq;
use crate::units::{clamped, in_domain, is_floor_sqrt, scale, scaled};
use crate::view::{distance_between, point_distance, DISTANCE_MAX};

verus! {

/// Drift per level of wind strength, in thousandths of a metre.
pub const WIND_DRIFT_PER_LEVEL: i64 = 8_000;

/// A full turn in thousandths of a degree.
pub const FULL_TURN: i64 = 360_000;

/// A bearing brought into the range from 0 up to a full turn.
pub open spec fn normalized(raw: int) -> int {
    raw % (FULL_TURN as int)
}

/// The bearing of a displacement along an axis: north, east, south or west. None for
/// any other displacement, and for none at all.
pub open spec fn axis_bearing(east: int, south: int) -> Option<int> {
    if east == 0 && south < 0 {
        Some(0)
    } else if east > 0 && south == 0 {
        Some(90_000)
    } else if east == 0 && south > 0 {
        Some(180_000)
    } else if east < 0 && south == 0 {
        Some(270_000)
    } else {
        None
    }
}

/// The displacement of the given length along a bearing due north, east, south or
/// west, as its eastward and its southward part. None for any other bearing.
pub open spec fn axis_vector(heading: int, length: int) -> Option<(int, int)> {
    if heading == 0 {
        Some((0, -length))
    } else if heading == 90_000 {
        Some((length, 0))
    } else if heading == 180_000 {
        Some((0, length))
    } else if heading == 270_000 {
        Some((-length, 0))
    } else {
        None
    }
}

/// `bearing` is the bearing of the displacement: its exact value along an axis, and
/// otherwise a result of `heading_of` brought into range.
pub open spec fn is_bearing<H: Fn(i64, i64) -> i64>(
    heading_of: &H,
    east: i64,
    south: i64,
    bearing: int,
) -> bool {
    match axis_bearing(east as int, south as int) {
        Some(b) => bearing == b,
        None => exists|raw: i64|
            call_ensures(heading_of, (east, south), raw) && bearing == normalized(raw as int),
    }
}

/// `offset` is the displacement of the given length along the bearing: its exact value
/// along an axis, and otherwise a result of `vector_of`.
pub open spec fn is_vector<V: Fn(i64, i64) -> (i64, i64)>(
    vector_of: &V,
    heading: i64,
    length: i64,
    offset: (i64, i64),
) -> bool {
    match axis_vector(heading as int, length as int) {
        Some(v) => offset.0 == v.0 && offset.1 == v.1,
        None => call_ensures(vector_of, (heading, length), offset),
    }
}

/// The direction that wind from `direction` pushes toward: the opposite bearing.
pub open spec fn push_direction(direction: int) -> int {
    normalized(direction + 180_000)
}

/// The drift of a wind of the given strength.
pub open spec fn drift(strength: int) -> int {
    strength * WIND_DRIFT_PER_LEVEL
}

/// Whether the wind has an effect: there is wind, and its strength is above zero.
pub open spec fn wind_active(wind: Option<WindInput>) -> bool {
    match wind {
        Some(w) => w.strength > 0,
        None => false,
    }
}

/// Whether `distance` lies within the range of the weapon.
pub open spec fn within_range(weapon: &Weapon, distance: int) -> bool {
    weapon.min_range <= distance <= weapon.max_range
}

/// The accuracy radius of the weapon at `distance`: between its least and its greatest
/// range the radius runs linearly from the one radius to the other; below and above it
/// is the radius at the nearer end. A weapon whose greatest range is not above its least
/// has the radius of its least range everywhere.
pub open spec fn accuracy_at(weapon: &Weapon, distance: int) -> int {
    let span = weapon.max_range - weapon.min_range;
    if span <= 0 {
        weapon.acc_radius[0] as int
    } else {
        weapon.acc_radius[0] + scaled(
            weapon.acc_radius[1] - weapon.acc_radius[0],
            clamped(distance - weapon.min_range, 0, span),
            span,
        )
    }
}

/// A share `n` of `d` of a value lies between zero and the value.
pub proof fn lemma_share_bounds(a: int, n: int, d: int)
    requires
        0 <= n <= d,
        0 < d,
    ensures
        a >= 0 ==> 0 <= scaled(a, n, d) <= a,
        a <= 0 ==> a <= scaled(a, n, d) <= 0,
        scaled(a, 0, d) == 0,
        scaled(a, d, d) == a,
{
    let q = scaled(a, n, d);
    let num = 2 * a * n + d;
    assert(num == (2 * d) * q + num % (2 * d)) by {
        vstd::arithmetic::div_mod::lemma_fundamental_div_mod(num, 2 * d);
    }
    assert(0 <= num % (2 * d) < 2 * d) by {
        vstd::arithmetic::div_mod::lemma_mod_bound(num, 2 * d);
    }
    let r = num % (2 * d);
    if a >= 0 {
        assert(0 <= q <= a) by (nonlinear_arith)
            requires
                2 * a * n + d == (2 * d) * q + r,
                0 <= r < 2 * d,
                0 <= n <= d,
                0 < d,
                a >= 0,
        ;
    }
    if a <= 0 {
        assert(a <= q <= 0) by (nonlinear_arith)
            requires
                2 * a * n + d == (2 * d) * q + r,
                0 <= r < 2 * d,
                0 <= n <= d,
                0 < d,
                a <= 0,
        ;
    }
    assert(scaled(a, 0, d) == 0) by {
        assert(2 * a * 0 + d == d) by (nonlinear_arith);
        vstd::arithmetic::div_mod::lemma_fundamental_div_mod_converse(d, 2 * d, 0, d);
    }
    assert(scaled(a, d, d) == a) by {
        assert(2 * a * d + d == (2 * d) * a + d) by (nonlinear_arith);
        vstd::arithmetic::div_mod::lemma_fundamental_div_mod_converse(
            2 * a * d + d,
            2 * d,
            a,
            d,
        );
    }
}

/// At the least range the accuracy radius is the first radius of the weapon, at the
/// greatest range the second, and everywhere it lies between the two.
pub proof fn lemma_accuracy_at_range_ends(weapon: &Weapon, distance: int)
    requires
        weapon.min_range < weapon.max_range,
    ensures
        accuracy_at(weapon, weapon.min_range as int) == weapon.acc_radius[0],
        accuracy_at(weapon, weapon.max_range as int) == weapon.acc_radius[1],
        weapon.acc_radius[0] <= weapon.acc_radius[1] ==> weapon.acc_radius[0] <= accuracy_at(
            weapon,
            distance,
        ) <= weapon.acc_radius[1],
        weapon.acc_radius[0] >= weapon.acc_radius[1] ==> weapon.acc_radius[1] <= accuracy_at(
            weapon,
            distance,
        ) <= weapon.acc_radius[0],
        distance <= weapon.min_range ==> accuracy_at(weapon, distance) == weapon.acc_radius[0],
        distance >= weapon.max_range ==> accuracy_at(weapon, distance) == weapon.acc_radius[1],
{
    let span = weapon.max_range - weapon.min_range;
    let a = weapon.acc_radius[1] - weapon.acc_radius[0];
    lemma_share_bounds(a, 0, span);
    lemma_share_bounds(a, span, span);
    lemma_share_bounds(a, clamped(distance - weapon.min_range, 0, span), span);
}

/// Halfway between the least and the greatest range the accuracy radius is the mean of
/// the two radii of the weapon, rounded up to the next thousandth where the mean has a
/// half.
pub proof fn lemma_accuracy_at_midpoint(weapon: &Weapon, distance: int)
    requires
        weapon.min_range < weapon.max_range,
        2 * distance == weapon.min_range + weapon.max_range,
    ensures
        2 * accuracy_at(weapon, distance) == weapon.acc_radius[0] + weapon.acc_radius[1] || 2
            * accuracy_at(weapon, distance) == weapon.acc_radius[0] + weapon.acc_radius[1] + 1,
{
    let span = weapon.max_range - weapon.min_range;
    let a = weapon.acc_radius[1] - weapon.acc_radius[0];
    let h = distance - weapon.min_range;
    assert(2 * h == span);
    assert(clamped(h, 0, span) == h);
    let q = scaled(a, h, span);
    let num = 2 * a * h + span;
    assert(num == (2 * span) * q + num % (2 * span)) by {
        vstd::arithmetic::div_mod::lemma_fundamental_div_mod(num, 2 * span);
    }
    assert(0 <= num % (2 * span) < 2 * span) by {
        vstd::arithmetic::div_mod::lemma_mod_bound(num, 2 * span);
    }
    let r = num % (2 * span);
    assert(2 * q == a || 2 * q == a + 1) by (nonlinear_arith)
        requires
            2 * a * h + span == (2 * span) * q + r,
            0 <= r < 2 * span,
            2 * h == span,
            0 < span,
    ;
}

/// The distance between two positions.
pub fn distance(a: Position, b: Position) -> (d: i64)
    ensures
        d == distance_between(a.pair(), b.pair()),
        d >= 0,
        dist_sq(a.pair(), b.pair()) < DISTANCE_MAX * DISTANCE_MAX ==> is_floor_sqrt(
            dist_sq(a.pair(), b.pair()),
            d as int,
        ),
{
    point_distance((a.x, a.y), (b.x, b.y))
}

/// Between positions in the coordinate domain the distance is below its cap.
pub proof fn lemma_distance_uncapped(a: Position, b: Position)
    requires
        a.wf(),
        b.wf(),
    ensures
        dist_sq(a.pair(), b.pair()) < DISTANCE_MAX * DISTANCE_MAX,
{
    let dx = a.x - b.x;
    let dy = a.y - b.y;
    assert(dx * dx <= 4_000_000_000_000_000_000_000_000_000_000) by (nonlinear_arith)
        requires
            -2_000_000_000_000_000 <= dx <= 2_000_000_000_000_000,
    ;
    assert(dy * dy <= 4_000_000_000_000_000_000_000_000_000_000) by (nonlinear_arith)
        requires
            -2_000_000_000_000_000 <= dy <= 2_000_000_000_000_000,
    ;
    assert(DISTANCE_MAX * DISTANCE_MAX == 16_000_000_000_000_000_000_000_000_000_000_000_000)
        by (nonlinear_arith)
        requires
            DISTANCE_MAX == 4_000_000_000_000_000_000,
    ;
}

/// A bearing brought into the range from 0 up to a full turn.
pub fn normalize_bearing(raw: i64) -> (bearing: i64)
    ensures
        bearing == normalized(raw as int),
        0 <= bearing < FULL_TURN,
{
    let r: i64 = raw % FULL_TURN;
    if r < 0 {
        r + FULL_TURN
    } else {
        r
    }
}

/// The compass bearing from `gun` to `target`: 0 due north, 90 000 due east, 180 000
/// due south and 270 000 due west. For any other displacement `heading_of` computes the
/// bearing from the eastward and the southward part, and its result is brought into
/// the range from 0 up to a full turn.
pub fn azimuth<H: Fn(i64, i64) -> i64>(gun: Position, target: Position, heading_of: &H) -> (bearing:
    i64)
    requires
        gun.wf(),
        target.wf(),
        forall|east: i64, south: i64| call_requires(heading_of, (east, south)),
    ensures
        is_bearing(heading_of, (target.x - gun.x) as i64, (target.y - gun.y) as i64, bearing as int),
        0 <= bearing < FULL_TURN,
{
    bearing_of(target.x - gun.x, target.y - gun.y, heading_of)
}

/// The bearing of a displacement.
fn bearing_of<H: Fn(i64, i64) -> i64>(east: i64, south: i64, heading_of: &H) -> (bearing: i64)
    requires
        forall|e: i64, s: i64| call_requires(heading_of, (e, s)),
    ensures
        is_bearing(heading_of, east, south, bearing as int),
        0 <= bearing < FULL_TURN,
{
    if east == 0 && south < 0 {
        0
    } else if east > 0 && south == 0 {
        90_000
    } else if east == 0 && south > 0 {
        180_000
    } else if east < 0 && south == 0 {
        270_000
    } else {
        let raw: i64 = heading_of(east, south);
        normalize_bearing(raw)
    }
}

/// Whether `dist` lies within the range of the weapon.
pub fn in_range(weapon: &Weapon, dist: i64) -> (b: bool)
    ensures
        b == within_range(weapon, dist as int),
{
    dist >= weapon.min_range && dist <= weapon.max_range
}

/// The accuracy radius of the weapon at the distance `dist`.
pub fn accuracy_radius(weapon: &Weapon, dist: i64) -> (radius: i64)
    requires
        weapon.wf(),
    ensures
        radius == accuracy_at(weapon, dist as int),
{
    let span: i64 = weapon.max_range - weapon.min_range;
    if span <= 0 {
        return weapon.acc_radius[0];
    }
    let offset: i128 = dist as i128 - weapon.min_range as i128;
    let t: i64 = if offset < 0 {
        0
    } else if offset > span as i128 {
        span
    } else {
        offset as i64
    };
    let a: i64 = weapon.acc_radius[1] - weapon.acc_radius[0];
    proof {
        lemma_share_bounds(a as int, t as int, span as int);
    }
    let part: i128 = scale(a, t, span);
    (weapon.acc_radius[0] as i128 + part) as i64
}

/// The direction that wind from `direction` pushes toward.
pub fn push_heading(direction: i64) -> (heading: i64)
    ensures
        heading == push_direction(direction as int),
        0 <= heading < FULL_TURN,
{
    let d: i64 = normalize_bearing(direction);
    proof {
        assert((direction + 180_000) % 360_000 == (direction % 360_000 + 180_000) % 360_000) by {
            vstd::arithmetic::div_mod::lemma_add_mod_noop(direction as int, 180_000, 360_000);
            vstd::arithmetic::div_mod::lemma_add_mod_noop(
                (direction % 360_000) as int,
                180_000,
                360_000,
            );
            vstd::arithmetic::div_mod::lemma_mod_twice(direction as int, 360_000);
        }
    }
    if d >= 180_000 {
        d - 180_000
    } else {
        d + 180_000
    }
}

/// The displacement by which the wind pushes a shell, as its eastward and its southward
/// part; none for wind of strength zero. The displacement has the drift of the wind's
/// strength as its length and points where the wind pushes toward. Due north, east,
/// south and west it is exact; for any other bearing `vector_of` computes the
/// displacement of a given length along a given bearing.
pub fn wind_offset<V: Fn(i64, i64) -> (i64, i64)>(wind: &WindInput, vector_of: &V) -> (offset: Option<
    (i64, i64),
>)
    requires
        forall|heading: i64, length: i64| call_requires(vector_of, (heading, length)),
    ensures
        wind.strength == 0 ==> offset.is_none(),
        wind.strength > 0 ==> offset.is_some() && is_vector(
            vector_of,
            push_direction(wind.direction as int) as i64,
            drift(wind.strength as int) as i64,
            offset.unwrap(),
        ),
{
    if wind.strength == 0 {
        None
    } else {
        let heading: i64 = push_heading(wind.direction);
        let length: i64 = wind.strength as i64 * WIND_DRIFT_PER_LEVEL;
        if heading == 0 {
            Some((0, -length))
        } else if heading == 90_000 {
            Some((length, 0))
        } else if heading == 180_000 {
            Some((0, length))
        } else if heading == 270_000 {
            Some((-length, 0))
        } else {
            Some(vector_of(heading, length))
        }
    }
}

/// Neither part of the displacement is longer than the magnitude of `length`.
pub open spec fn within_length(v: (i64, i64), length: int) -> bool {
    let limit = if length < 0 {
        -length
    } else {
        length
    };
    -limit <= v.0 <= limit && -limit <= v.1 <= limit
}

/// The point to aim at so that a shell pushed by `offset` lands on `target`.
pub open spec fn aim_point(target: Position, offset: (i64, i64)) -> Position {
    Position { x: (target.x - offset.0) as i64, y: (target.y - offset.1) as i64 }
}

/// The displacement from `gun` to `target`, as its eastward and its southward part.
pub open spec fn displacement(gun: Position, target: Position) -> (i64, i64) {
    ((target.x - gun.x) as i64, (target.y - gun.y) as i64)
}

/// The firing solution from `gun` to `target` with the given weapon and wind.
///
/// Of `vector_of` it is asked that, for a length from zero up, neither part of what it
/// returns is longer than the length.
///
/// Distance, range check and accuracy radius are computed here. The bearing is what
/// `heading_of` gives for the displacement from gun to target, brought into range. Where
/// the wind has an effect, `vector_of` gives the displacement by which it pushes a
/// shell; the aim point is the target moved back by that displacement, the corrected
/// bearing and distance are those to the aim point, and the reported drift is the drift
/// of the wind's strength. Without such wind the three corrected values are absent.
pub fn firing_solution<H: Fn(i64, i64) -> i64, V: Fn(i64, i64) -> (i64, i64)>(
    gun: Position,
    target: Position,
    weapon: &Weapon,
    wind: Option<WindInput>,
    heading_of: &H,
    vector_of: &V,
) -> (sol: FiringSolution)
    requires
        gun.wf(),
        target.wf(),
        weapon.wf(),
        forall|east: i64, south: i64| call_requires(heading_of, (east, south)),
        forall|heading: i64, length: i64| call_requires(vector_of, (heading, length)),
        forall|heading: i64, length: i64, v: (i64, i64)|
            0 <= length && call_ensures(vector_of, (heading, length), v) ==> within_length(
                v,
                length as int,
            ),
    ensures
        sol.distance == distance_between(gun.pair(), target.pair()),
        is_floor_sqrt(dist_sq(gun.pair(), target.pair()), sol.distance as int),
        sol.in_range == within_range(weapon, sol.distance as int),
        sol.accuracy_radius == accuracy_at(weapon, sol.distance as int),
        0 <= sol.azimuth < FULL_TURN,
        is_bearing(
            heading_of,
            displacement(gun, target).0,
            displacement(gun, target).1,
            sol.azimuth as int,
        ),
        !wind_active(wind) ==> sol.wind_adjusted_azimuth.is_none()
            && sol.wind_adjusted_distance.is_none() && sol.wind_offset_meters.is_none(),
        wind_active(wind) ==> sol.wind_offset_meters == Some(
            drift(wind.unwrap().strength as int) as i64,
        ) && exists|offset: (i64, i64)|
            {
                &&& #[trigger] is_vector(
                    vector_of,
                    push_direction(wind.unwrap().direction as int) as i64,
                    drift(wind.unwrap().strength as int) as i64,
                    offset,
                )
                &&& sol.wind_adjusted_azimuth.is_some()
                &&& is_bearing(
                    heading_of,
                    displacement(gun, aim_point(target, offset)).0,
                    displacement(gun, aim_point(target, offset)).1,
                    sol.wind_adjusted_azimuth.unwrap() as int,
                )
                &&& sol.wind_adjusted_distance == Some(
                    distance_between(gun.pair(), aim_point(target, offset).pair()) as i64,
                )
            },
{
    let dist: i64 = distance(gun, target);
    proof {
        lemma_distance_uncapped(gun, target);
    }
    let az: i64 = azimuth(gun, target, heading_of);
    let within: bool = in_range(weapon, dist);
    let acc: i64 = accuracy_radius(weapon, dist);
    let offset: Option<(i64, i64)> = match wind {
        Some(w) => wind_offset(&w, vector_of),
        None => None,
    };
    match offset {
        Some(v) => {
            let strength: u8 = wind.unwrap().strength;
            let length: i64 = strength as i64 * WIND_DRIFT_PER_LEVEL;
            let compensated = Position { x: target.x - v.0, y: target.y - v.1 };
            let adj_az: i64 = bearing_of(
                compensated.x - gun.x,
                compensated.y - gun.y,
                heading_of,
            );
            let adj_dist: i64 = distance(gun, compensated);
            proof {
                assert(compensated == aim_point(target, v));
                assert(is_vector(
                    vector_of,
                    push_direction(wind.unwrap().direction as int) as i64,
                    drift(wind.unwrap().strength as int) as i64,
                    v,
                ));
            }
            FiringSolution {
                azimuth: az,
                distance: dist,
                in_range: within,
                accuracy_radius: acc,
                wind_adjusted_azimuth: Some(adj_az),
                wind_adjusted_distance: Some(adj_dist),
                wind_offset_meters: Some(length),
            }
        },
        None => FiringSolution {
            azimuth: az,
            distance: dist,
            in_range: within,
            accuracy_radius: acc,
            wind_adjusted_azimuth: None,
            wind_adjusted_distance: None,
            wind_offset_meters: None,
        },
    }
}

/// Along the axes the bearing needs no trigonometry: it is 0 due north, 90 000 due
/// east, 180 000 due south and 270 000 due west, whatever `heading_of` computes.
pub proof fn lemma_bearings_along_the_axes<H: Fn(i64, i64) -> i64>(
    heading_of: &H,
    length: i64,
    bearing: int,
)
    requires
        length > 0,
    ensures
        is_bearing(heading_of, 0, (-length) as i64, bearing) <==> bearing == 0,
        is_bearing(heading_of, length, 0, bearing) <==> bearing == 90_000,
        is_bearing(heading_of, 0, length, bearing) <==> bearing == 180_000,
        is_bearing(heading_of, (-length) as i64, 0, bearing) <==> bearing == 270_000,
{
}

/// Without wind, or with wind of strength zero, a firing solution carries no corrected
/// value, whatever the direction.
pub proof fn lemma_calm_wind_is_inactive(direction: i64)
    ensures
        !wind_active(None),
        !wind_active(Some(WindInput { direction, strength: 0 })),
{
}

/// A distance to the nearest five metres, for display: halves of five go away from
/// zero.
pub open spec fn to_nearest_five(distance: int) -> int {
    if distance >= 0 {
        (distance + 2_500) / 5_000 * 5_000
    } else {
        -((-distance + 2_500) / 5_000 * 5_000)
    }
}

/// A distance to the nearest five metres, for display.
pub fn round_to_five(distance: i64) -> (shown: i64)
    requires
        in_domain(distance as int),
    ensures
        shown == to_nearest_five(distance as int),
{
    if distance >= 0 {
        (distance + 2_500) / 5_000 * 5_000
    } else {
        -((-distance + 2_500) / 5_000 * 5_000)
    }
}

} // verus!
