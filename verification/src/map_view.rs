//! Markers on the map: kinds, selection, nearest-marker search, pairing of guns with
//! targets, and removal with its fix-ups.

use vstd::prelude::*;
use vstd::string::StringExecFns;
use crate::coords::format_px_as_grid;
use crate::grid::{grid_label, x_metres, y_metres};
use crate::text::{decimal, push_decimal};
use crate::planner::{id_chars, PlanModel, PlanSnapshot, Planner, PlannerModel, UNDO_LIMIT};
use crate::units::{clamp, scale, scaled, clamped};

verus! {

/// Smallest zoom factor, in thousandths.
pub const ZOOM_MIN: i64 = 1_000;

/// Largest zoom factor, in thousandths.
pub const ZOOM_MAX: i64 = 10_000;

/// Zoom factor above which the search radius shrinks no further, in thousandths.
pub const THRESHOLD_ZOOM_CAP: i64 = 5_000;

/// Search radius around a click at zoom one, in thousandths of a map-image pixel.
pub const REMOVE_THRESHOLD: i64 = 60_000;

/// Squared distances at or above this value are all reported as this value.
pub const FAR: u128 = 0x8000_0000_0000_0000_0000_0000_0000_0000;

/// The kind of marker that the next click places.
#[derive(Debug, Clone, Copy, PartialEq, Eq, Structural)]
pub enum PlacementMode {
    Gun,
    Target,
    Spotter,
}

/// The kind of a placed marker.
#[derive(Debug, Clone, Copy, PartialEq, Eq, Structural)]
pub enum MarkerKind {
    Gun,
    Target,
    Spotter,
}

/// The marker that has the focus: its kind and its index in the list of that kind.
#[derive(Debug, Clone, Copy, PartialEq, Eq, Structural)]
pub struct SelectedMarker {
    pub kind: MarkerKind,
    pub index: usize,
}

/// The square of the distance between `p` and `q`.
pub open spec fn dist_sq(p: (i64, i64), q: (i64, i64)) -> int {
    (p.0 - q.0) * (p.0 - q.0) + (p.1 - q.1) * (p.1 - q.1)
}

/// `p` lies closer to `click` than `threshold`.
pub open spec fn within(p: (i64, i64), click: (i64, i64), threshold: int) -> bool {
    threshold > 0 && dist_sq(p, click) < threshold * threshold
}

/// `i` is the first of the positions nearest to `click`, and lies closer than `threshold`.
pub open spec fn is_nearest(
    positions: Seq<(i64, i64)>,
    click: (i64, i64),
    threshold: int,
    i: int,
) -> bool {
    &&& 0 <= i < positions.len()
    &&& within(positions[i], click, threshold)
    &&& forall|j: int|
        0 <= j < positions.len() ==> dist_sq(positions[i], click) <= dist_sq(
            #[trigger] positions[j],
            click,
        )
    &&& forall|j: int|
        0 <= j < i ==> dist_sq(positions[i], click) < dist_sq(#[trigger] positions[j], click)
}

/// No position lies closer to `click` than `threshold`.
pub open spec fn none_within(positions: Seq<(i64, i64)>, click: (i64, i64), threshold: int) -> bool {
    forall|j: int| 0 <= j < positions.len() ==> !within(#[trigger] positions[j], click, threshold)
}

/// The search radius at the given zoom: [`REMOVE_THRESHOLD`] divided by the zoom factor,
/// where the zoom factor counts as at least one and at most five.
pub open spec fn threshold_at(zoom: int) -> int {
    scaled(REMOVE_THRESHOLD as int, 1_000, clamped(zoom, ZOOM_MIN as int, THRESHOLD_ZOOM_CAP as int))
}

/// `s` without the element at `i`; `s` itself where it has no such element.
pub open spec fn without<T>(s: Seq<T>, i: int) -> Seq<T> {
    if 0 <= i < s.len() {
        s.remove(i)
    } else {
        s
    }
}

/// A pairing after the target at index `k` has left: a pairing with `k` is cleared, one
/// with a later target moves down by one, any other stays.
pub open spec fn shifted_pairing(p: Option<usize>, k: int) -> Option<usize> {
    match p {
        Some(t) => if t == k {
            None
        } else if t > k {
            Some((t - 1) as usize)
        } else {
            Some(t)
        },
        None => None,
    }
}

/// The pairings after the target at index `k` has left.
pub open spec fn shifted_pairings(s: Seq<Option<usize>>, k: int) -> Seq<Option<usize>> {
    Seq::new(s.len(), |i: int| shifted_pairing(s[i], k))
}

/// The state after the marker of the given kind and index has left. A marker that does
/// not exist leaves the state as it is.
pub open spec fn after_removal(plan: PlanModel, kind: MarkerKind, index: int) -> PlanModel {
    match kind {
        MarkerKind::Gun => if 0 <= index < plan.guns.len() {
            PlanModel {
                guns: plan.guns.remove(index),
                weapons: without(plan.weapons, index),
                pairings: without(plan.pairings, index),
                ..plan
            }
        } else {
            plan
        },
        MarkerKind::Target => if 0 <= index < plan.targets.len() {
            PlanModel {
                targets: plan.targets.remove(index),
                pairings: shifted_pairings(plan.pairings, index),
                ..plan
            }
        } else {
            plan
        },
        MarkerKind::Spotter => PlanModel { spotters: without(plan.spotters, index), ..plan },
    }
}

/// The selection after the marker of the given kind and index has left: cleared where it
/// was that marker, moved down by one where it was a later marker of that kind.
pub open spec fn selection_after_removal(
    selected: Option<SelectedMarker>,
    kind: MarkerKind,
    index: usize,
) -> Option<SelectedMarker> {
    match selected {
        Some(sm) => if sm.kind == kind {
            if sm.index == index {
                None
            } else if sm.index > index {
                Some(SelectedMarker { kind, index: (sm.index - 1) as usize })
            } else {
                selected
            }
        } else {
            selected
        },
        None => None,
    }
}

/// Whether some gun is paired with target `t`.
pub open spec fn is_paired_target(pairings: Seq<Option<usize>>, t: int) -> bool {
    exists|g: int| 0 <= g < pairings.len() && #[trigger] pairings[g] == Some(t as usize)
}

/// `t` is the first target index below `target_count` that no gun is paired with.
pub open spec fn is_first_unpaired_target(
    pairings: Seq<Option<usize>>,
    target_count: int,
    t: int,
) -> bool {
    &&& 0 <= t < target_count
    &&& !is_paired_target(pairings, t)
    &&& forall|u: int| 0 <= u < t ==> is_paired_target(pairings, u)
}

/// `g` is the first gun without a pairing.
pub open spec fn is_first_unpaired_gun(pairings: Seq<Option<usize>>, g: int) -> bool {
    &&& 0 <= g < pairings.len()
    &&& pairings[g] is None
    &&& forall|h: int| 0 <= h < g ==> (#[trigger] pairings[h]) is Some
}

/// Every gun has a pairing.
pub open spec fn all_paired(pairings: Seq<Option<usize>>) -> bool {
    forall|h: int| 0 <= h < pairings.len() ==> (#[trigger] pairings[h]) is Some
}

/// The first of the positions nearest to `click` among those closer than `threshold`.
pub open spec fn nearest(positions: Seq<(i64, i64)>, click: (i64, i64), threshold: int) -> Option<
    usize,
> {
    if exists|i: int| is_nearest(positions, click, threshold, i) {
        Some((choose|i: int| is_nearest(positions, click, threshold, i)) as usize)
    } else {
        None
    }
}

/// The first target index below `target_count` that no gun is paired with.
pub open spec fn first_unpaired_target(pairings: Seq<Option<usize>>, target_count: int) -> Option<
    usize,
> {
    if exists|t: int| is_first_unpaired_target(pairings, target_count, t) {
        Some((choose|t: int| is_first_unpaired_target(pairings, target_count, t)) as usize)
    } else {
        None
    }
}

/// The pairings after the first gun without a pairing was paired with target `t`; the
/// pairings themselves where every gun has one.
pub open spec fn paired_first(pairings: Seq<Option<usize>>, t: usize) -> Seq<Option<usize>> {
    if exists|g: int| is_first_unpaired_gun(pairings, g) {
        pairings.update(choose|g: int| is_first_unpaired_gun(pairings, g), Some(t))
    } else {
        pairings
    }
}

/// `s` with `v` at index `i`; `s` itself where it has no such index.
pub open spec fn set_at<T>(s: Seq<T>, i: int, v: T) -> Seq<T> {
    if 0 <= i < s.len() {
        s.update(i, v)
    } else {
        s
    }
}

/// The kind of marker that a placement mode places.
pub open spec fn kind_of(mode: PlacementMode) -> MarkerKind {
    match mode {
        PlacementMode::Gun => MarkerKind::Gun,
        PlacementMode::Target => MarkerKind::Target,
        PlacementMode::Spotter => MarkerKind::Spotter,
    }
}

/// The mode after a placement: guns and targets alternate, spotters stay.
pub open spec fn next_mode(mode: PlacementMode) -> PlacementMode {
    match mode {
        PlacementMode::Gun => PlacementMode::Target,
        PlacementMode::Target => PlacementMode::Gun,
        PlacementMode::Spotter => PlacementMode::Spotter,
    }
}

impl PlanModel {
    /// The state with one more gun at `p`, with the given weapon, paired with the first
    /// target that no gun is paired with; unpaired where there is no such target.
    pub open spec fn with_gun(self, p: (i64, i64), weapon: Seq<char>) -> PlanModel {
        PlanModel {
            guns: self.guns.push(p),
            weapons: self.weapons.push(weapon),
            pairings: self.pairings.push(
                first_unpaired_target(self.pairings, self.targets.len() as int),
            ),
            ..self
        }
    }

    /// The state with one more target at `p`; the first gun without a pairing, where
    /// there is one, is paired with it.
    pub open spec fn with_target(self, p: (i64, i64)) -> PlanModel {
        PlanModel {
            targets: self.targets.push(p),
            pairings: paired_first(self.pairings, self.targets.len() as usize),
            ..self
        }
    }

    /// The state with one more spotter at `p`.
    pub open spec fn with_spotter(self, p: (i64, i64)) -> PlanModel {
        PlanModel { spotters: self.spotters.push(p), ..self }
    }

    /// The state with gun `gun` paired with target `target`, whatever it was paired with
    /// before. Where the gun or the target does not exist, the state stays as it is.
    pub open spec fn with_pairing(self, gun: int, target: usize) -> PlanModel {
        if 0 <= gun < self.pairings.len() && target < self.targets.len() {
            PlanModel { pairings: self.pairings.update(gun, Some(target)), ..self }
        } else {
            self
        }
    }

    /// The state with the marker of the given kind and index at `p`. A marker that does
    /// not exist leaves the state as it is.
    pub open spec fn with_marker_at(self, kind: MarkerKind, index: int, p: (i64, i64)) -> PlanModel {
        match kind {
            MarkerKind::Gun => PlanModel { guns: set_at(self.guns, index, p), ..self },
            MarkerKind::Target => PlanModel { targets: set_at(self.targets, index, p), ..self },
            MarkerKind::Spotter => PlanModel { spotters: set_at(self.spotters, index, p), ..self },
        }
    }
}

/// The state after a click at `p` while `sm` was selected. A selected gun is paired with
/// the target nearest to `p` where one lies within the search radius, and moves to `p`
/// otherwise; a selected target or spotter moves to `p`.
pub open spec fn plan_after_move(plan: PlanModel, sm: SelectedMarker, p: (i64, i64), zoom: int) -> PlanModel {
    match sm.kind {
        MarkerKind::Gun => match nearest(plan.targets, p, threshold_at(zoom)) {
            Some(ti) => plan.with_pairing(sm.index as int, ti),
            None => plan.with_marker_at(MarkerKind::Gun, sm.index as int, p),
        },
        MarkerKind::Target => plan.with_marker_at(MarkerKind::Target, sm.index as int, p),
        MarkerKind::Spotter => plan.with_marker_at(MarkerKind::Spotter, sm.index as int, p),
    }
}

/// The state after a marker was placed at `p`. A new gun gets the active weapon and is
/// paired with the first target that no gun is paired with. A new target is paired with
/// the first gun that has no pairing. A new spotter changes no pairing.
pub open spec fn plan_after_placement(
    plan: PlanModel,
    mode: PlacementMode,
    p: (i64, i64),
    weapon: Seq<char>,
) -> PlanModel {
    match mode {
        PlacementMode::Gun => plan.with_gun(p, weapon),
        PlacementMode::Target => plan.with_target(p),
        PlacementMode::Spotter => plan.with_spotter(p),
    }
}

/// The session after a click at `p`. The live state is saved for undo first. With a
/// selection the click moves or pairs the selected marker and clears the selection;
/// without one it places a marker of the active mode and advances the mode.
pub open spec fn after_click(m: PlannerModel, p: (i64, i64), zoom: int) -> PlannerModel {
    match m.selected {
        Some(sm) => PlannerModel {
            plan: plan_after_move(m.plan, sm, p, zoom),
            selected: None,
            ..m.saved()
        },
        None => PlannerModel {
            plan: plan_after_placement(m.plan, m.mode, p, m.weapon),
            mode: next_mode(m.mode),
            ..m.saved()
        },
    }
}

/// A marker near a click: its kind, its index and the square of its distance.
#[derive(Debug, Clone, Copy, PartialEq, Eq)]
pub struct Hit {
    pub kind: MarkerKind,
    pub index: usize,
    pub dist_sq: u128,
}

/// The marker of the given list that a click at `p` hits, if any.
pub open spec fn hit_in(positions: Seq<(i64, i64)>, kind: MarkerKind, p: (i64, i64), threshold: int) -> Option<Hit> {
    match nearest(positions, p, threshold) {
        Some(i) => Some(Hit { kind, index: i, dist_sq: dist_sq(positions[i as int], p) as u128 }),
        None => None,
    }
}

/// The closer of two hits; the first of two that are equally close.
pub open spec fn closer(a: Option<Hit>, b: Option<Hit>) -> Option<Hit> {
    match (a, b) {
        (Some(x), Some(y)) => if y.dist_sq < x.dist_sq {
            b
        } else {
            a
        },
        (Some(_), None) => a,
        (None, _) => b,
    }
}

/// The positions of the markers of one kind.
pub open spec fn positions_of(plan: PlanModel, kind: MarkerKind) -> Seq<(i64, i64)> {
    match kind {
        MarkerKind::Gun => plan.guns,
        MarkerKind::Target => plan.targets,
        MarkerKind::Spotter => plan.spotters,
    }
}

/// The marker that a removal click at `p` takes: the nearest marker of the active mode's
/// kind within the search radius; where there is none, the nearest marker of any kind
/// within it, guns before targets before spotters where two are equally near.
pub open spec fn removal_hit(plan: PlanModel, mode: PlacementMode, p: (i64, i64), threshold: int) -> Option<Hit> {
    match hit_in(positions_of(plan, kind_of(mode)), kind_of(mode), p, threshold) {
        Some(h) => Some(h),
        None => closer(
            closer(
                hit_in(plan.guns, MarkerKind::Gun, p, threshold),
                hit_in(plan.targets, MarkerKind::Target, p, threshold),
            ),
            hit_in(plan.spotters, MarkerKind::Spotter, p, threshold),
        ),
    }
}

/// The session after the marker of the given kind and index was removed on request: the
/// live state is saved for undo, the marker leaves, and the selection follows.
pub open spec fn after_marker_removed(m: PlannerModel, kind: MarkerKind, index: usize) -> PlannerModel {
    PlannerModel {
        plan: after_removal(m.plan, kind, index as int),
        selected: selection_after_removal(m.selected, kind, index),
        ..m.saved()
    }
}

/// The session after a removal click at `p`.
pub open spec fn after_removal_click(m: PlannerModel, p: (i64, i64), zoom: int) -> PlannerModel {
    match removal_hit(m.plan, m.mode, p, threshold_at(zoom)) {
        Some(h) => after_marker_removed(m, h.kind, h.index),
        None => m,
    }
}

/// At most one index is the nearest position.
pub proof fn lemma_nearest_unique(
    positions: Seq<(i64, i64)>,
    click: (i64, i64),
    threshold: int,
    i: int,
    j: int,
)
    requires
        is_nearest(positions, click, threshold, i),
        is_nearest(positions, click, threshold, j),
    ensures
        i == j,
{
    if i < j {
        assert(dist_sq(positions[j], click) < dist_sq(positions[i], click));
        assert(dist_sq(positions[i], click) <= dist_sq(positions[j], click));
    } else if j < i {
        assert(dist_sq(positions[i], click) < dist_sq(positions[j], click));
        assert(dist_sq(positions[j], click) <= dist_sq(positions[i], click));
    }
}

/// At most one index is the first unpaired target.
pub proof fn lemma_first_unpaired_target_unique(
    pairings: Seq<Option<usize>>,
    target_count: int,
    t: int,
    u: int,
)
    requires
        is_first_unpaired_target(pairings, target_count, t),
        is_first_unpaired_target(pairings, target_count, u),
    ensures
        t == u,
{
}

/// At most one index is the first unpaired gun.
pub proof fn lemma_first_unpaired_gun_unique(pairings: Seq<Option<usize>>, g: int, h: int)
    requires
        is_first_unpaired_gun(pairings, g),
        is_first_unpaired_gun(pairings, h),
    ensures
        g == h,
{
}

/// Removing the target at index `k` clears every pairing with `k`, moves every pairing
/// with a later target down by one, and leaves every other pairing as it was.
pub proof fn lemma_target_removal_fixes_pairings(plan: PlanModel, k: int, g: int)
    requires
        0 <= k < plan.targets.len(),
        0 <= g < plan.pairings.len(),
    ensures
        after_removal(plan, MarkerKind::Target, k).pairings.len() == plan.pairings.len(),
        match plan.pairings[g] {
            Some(t) => if t == k {
                after_removal(plan, MarkerKind::Target, k).pairings[g].is_none()
            } else if t > k {
                after_removal(plan, MarkerKind::Target, k).pairings[g] == Some((t - 1) as usize)
            } else {
                after_removal(plan, MarkerKind::Target, k).pairings[g] == Some(t)
            },
            None => after_removal(plan, MarkerKind::Target, k).pairings[g].is_none(),
        },
{
}

/// Removing a marker keeps the weapon and pairing lists parallel to the gun list.
pub proof fn lemma_removal_keeps_lists_parallel(plan: PlanModel, kind: MarkerKind, index: int)
    requires
        plan.wf(),
    ensures
        after_removal(plan, kind, index).wf(),
{
}

/// A click keeps the weapon and pairing lists parallel to the gun list.
pub proof fn lemma_click_keeps_lists_parallel(m: PlannerModel, p: (i64, i64), zoom: int)
    requires
        m.plan.wf(),
    ensures
        after_click(m, p, zoom).plan.wf(),
{
}

/// A gun placed by a click is paired with a target that no gun was paired with, and with
/// the first such target.
pub proof fn lemma_new_gun_takes_first_free_target(m: PlannerModel, p: (i64, i64), zoom: int)
    requires
        m.selected.is_none(),
        m.mode == PlacementMode::Gun,
    ensures
        after_click(m, p, zoom).plan.pairings.len() == m.plan.pairings.len() + 1,
        match after_click(m, p, zoom).plan.pairings.last() {
            Some(t) => is_first_unpaired_target(
                m.plan.pairings,
                m.plan.targets.len() as int,
                t as int,
            ),
            None => forall|u: int|
                0 <= u < m.plan.targets.len() ==> is_paired_target(m.plan.pairings, u),
        },
{
    let free = first_unpaired_target(m.plan.pairings, m.plan.targets.len() as int);
    assert(after_click(m, p, zoom).plan.pairings.last() == free);
    if free.is_none() {
        assert forall|u: int| 0 <= u < m.plan.targets.len() implies is_paired_target(
            m.plan.pairings,
            u,
        ) by {
            lemma_some_target_is_first(m.plan.pairings, m.plan.targets.len() as int, u);
        }
    }
}

/// Where some target below `target_count` is unpaired, one of them is the first.
proof fn lemma_some_target_is_first(pairings: Seq<Option<usize>>, target_count: int, u: int)
    requires
        0 <= u < target_count,
        forall|t: int| !is_first_unpaired_target(pairings, target_count, t),
    ensures
        is_paired_target(pairings, u),
    decreases u,
{
    if !is_paired_target(pairings, u) {
        assert forall|v: int| 0 <= v < u implies is_paired_target(pairings, v) by {
            lemma_some_target_is_first(pairings, target_count, v);
        }
        assert(is_first_unpaired_target(pairings, target_count, u));
    }
}

/// Every pairing names a target that exists.
pub open spec fn pairings_valid(plan: PlanModel) -> bool {
    forall|g: int|
        0 <= g < plan.pairings.len() ==> match #[trigger] plan.pairings[g] {
            Some(t) => t < plan.targets.len(),
            None => true,
        }
}

/// Removing a marker leaves no pairing behind that names a target that is gone.
pub proof fn lemma_removal_keeps_pairings_valid(plan: PlanModel, kind: MarkerKind, index: int)
    requires
        pairings_valid(plan),
    ensures
        pairings_valid(after_removal(plan, kind, index)),
{
    let after = after_removal(plan, kind, index);
    assert forall|g: int| 0 <= g < after.pairings.len() implies match #[trigger] after.pairings[g] {
        Some(t) => t < after.targets.len(),
        None => true,
    } by {
        match kind {
            MarkerKind::Gun => {
                if 0 <= index < plan.guns.len() && index < plan.pairings.len() {
                    if g < index {
                        assert(after.pairings[g] == plan.pairings[g]);
                    } else {
                        assert(after.pairings[g] == plan.pairings[g + 1]);
                    }
                } else {
                    assert(after.pairings[g] == plan.pairings[g]);
                }
            },
            MarkerKind::Target => {
                if 0 <= index < plan.targets.len() {
                    assert(after.pairings[g] == shifted_pairing(plan.pairings[g], index));
                } else {
                    assert(after.pairings[g] == plan.pairings[g]);
                }
            },
            MarkerKind::Spotter => {
                assert(after.pairings[g] == plan.pairings[g]);
            },
        }
    }
}

/// A click leaves every pairing naming a target that exists.
pub proof fn lemma_click_keeps_pairings_valid(m: PlannerModel, p: (i64, i64), zoom: int)
    requires
        pairings_valid(m.plan),
    ensures
        pairings_valid(after_click(m, p, zoom).plan),
{
    let after = after_click(m, p, zoom).plan;
    assert forall|g: int| 0 <= g < after.pairings.len() implies match #[trigger] after.pairings[g] {
        Some(t) => t < after.targets.len(),
        None => true,
    } by {
        if g < m.plan.pairings.len() {
            assert(after.pairings[g] == m.plan.pairings[g] || match after.pairings[g] {
                Some(t) => t < after.targets.len(),
                None => true,
            });
        }
    }
}

/// A step back after a click restores the state before the click.
pub proof fn lemma_undo_reverts_click(m: PlannerModel, p: (i64, i64), zoom: int)
    ensures
        after_click(m, p, zoom).undone().plan == m.plan,
        after_click(m, p, zoom).redo.len() == 0,
{
}

/// The magnitude of `a - b`.
fn gap(a: i64, b: i64) -> (d: u128)
    ensures
        d == if a >= b {
            a - b
        } else {
            b - a
        },
        d < 0x1_0000_0000_0000_0000,
{
    if a >= b {
        (a as i128 - b as i128) as u128
    } else {
        (b as i128 - a as i128) as u128
    }
}

/// The square of the distance between `p` and `q`, or [`FAR`] where it is that large.
pub fn squared_distance(p: (i64, i64), q: (i64, i64)) -> (d: u128)
    ensures
        d == if dist_sq(p, q) < FAR {
            dist_sq(p, q)
        } else {
            FAR as int
        },
{
    let dx: u128 = gap(p.0, q.0);
    let dy: u128 = gap(p.1, q.1);
    assert(dx * dx < 0x1_0000_0000_0000_0000 * 0x1_0000_0000_0000_0000) by (nonlinear_arith)
        requires
            0 <= dx < 0x1_0000_0000_0000_0000,
    ;
    assert(dy * dy < 0x1_0000_0000_0000_0000 * 0x1_0000_0000_0000_0000) by (nonlinear_arith)
        requires
            0 <= dy < 0x1_0000_0000_0000_0000,
    ;
    assert(dx * dx == (p.0 - q.0) * (p.0 - q.0)) by (nonlinear_arith)
        requires
            dx == p.0 - q.0 || dx == q.0 - p.0,
    ;
    assert(dy * dy == (p.1 - q.1) * (p.1 - q.1)) by (nonlinear_arith)
        requires
            dy == p.1 - q.1 || dy == q.1 - p.1,
    ;
    assert(dx * dx >= 0 && dy * dy >= 0) by (nonlinear_arith);
    let sx: u128 = dx * dx;
    let sy: u128 = dy * dy;
    if sx >= FAR || sy >= FAR {
        FAR
    } else {
        let sum: u128 = sx + sy;
        if sum >= FAR {
            FAR
        } else {
            sum
        }
    }
}

/// The search radius around a click at the given zoom.
pub fn removal_threshold(zoom: i64) -> (threshold: i64)
    ensures
        threshold == threshold_at(zoom as int),
        0 < threshold <= REMOVE_THRESHOLD,
{
    let z: i64 = clamp(zoom, ZOOM_MIN, THRESHOLD_ZOOM_CAP);
    let t: i128 = scale(REMOVE_THRESHOLD, 1_000, z);
    assert(0 < t <= 60_000) by {
        assert(t == (120_000_000 + z) / (2 * z));
        assert(0 < (120_000_000 + z) / (2 * z) <= 60_000) by (nonlinear_arith)
            requires
                1_000 <= z <= 5_000,
        ;
    }
    t as i64
}

/// The index of the position nearest to `click` among those closer than `threshold`; of
/// several at the same distance, the first.
pub fn find_nearest(positions: &Vec<(i64, i64)>, click: (i64, i64), threshold: i64) -> (hit:
    Option<usize>)
    ensures
        match hit {
            Some(i) => is_nearest(positions@, click, threshold as int, i as int),
            None => none_within(positions@, click, threshold as int),
        },
        hit == nearest(positions@, click, threshold as int),
{
    if threshold <= 0 {
        assert forall|i: int| !is_nearest(positions@, click, threshold as int, i) by {}
        return None;
    }
    let t: u128 = threshold as u128;
    assert(t * t < 0x8000_0000_0000_0000 * 0x8000_0000_0000_0000) by (nonlinear_arith)
        requires
            0 < t < 0x8000_0000_0000_0000,
    ;
    let limit: u128 = t * t;
    let mut best: Option<usize> = None;
    let mut best_sq: u128 = limit;
    let mut i: usize = 0;
    while i < positions.len()
        invariant
            i <= positions.len(),
            threshold > 0,
            limit == threshold * threshold,
            limit < FAR,
            best_sq <= limit,
            match best {
                Some(b) => {
                    &&& b < i
                    &&& best_sq == dist_sq(positions@[b as int], click)
                    &&& best_sq < limit
                    &&& forall|j: int|
                        0 <= j < i ==> best_sq <= dist_sq(#[trigger] positions@[j], click)
                    &&& forall|j: int|
                        0 <= j < b ==> best_sq < dist_sq(#[trigger] positions@[j], click)
                },
                None => {
                    &&& best_sq == limit
                    &&& forall|j: int|
                        0 <= j < i ==> limit <= dist_sq(#[trigger] positions@[j], click)
                },
            },
        decreases positions.len() - i,
    {
        let d: u128 = squared_distance(positions[i], click);
        if d < best_sq {
            best_sq = d;
            best = Some(i);
        }
        i += 1;
    }
    proof {
        match best {
            Some(b) => {
                assert(is_nearest(positions@, click, threshold as int, b as int));
                let c = choose|i: int| is_nearest(positions@, click, threshold as int, i);
                lemma_nearest_unique(positions@, click, threshold as int, b as int, c);
            },
            None => {
                assert forall|i: int| !is_nearest(positions@, click, threshold as int, i) by {
                    if 0 <= i < positions@.len() {
                        assert(limit <= dist_sq(positions@[i], click));
                    }
                }
            },
        }
    }
    best
}

/// The first target index below `target_count` that no gun is paired with.
pub fn find_first_unpaired_target(pairings: &Vec<Option<usize>>, target_count: usize) -> (free:
    Option<usize>)
    ensures
        match free {
            Some(t) => is_first_unpaired_target(pairings@, target_count as int, t as int),
            None => forall|u: int| 0 <= u < target_count ==> is_paired_target(pairings@, u),
        },
        free == first_unpaired_target(pairings@, target_count as int),
{
    let mut t: usize = 0;
    while t < target_count
        invariant
            t <= target_count,
            forall|u: int| 0 <= u < t ==> is_paired_target(pairings@, u),
        decreases target_count - t,
    {
        let mut g: usize = 0;
        let mut found: bool = false;
        while g < pairings.len() && !found
            invariant
                g <= pairings.len(),
                found ==> is_paired_target(pairings@, t as int),
                !found ==> forall|h: int| 0 <= h < g ==> pairings@[h] != Some(t),
            decreases pairings.len() - g + if found { 0int } else { 1int },
        {
            match pairings[g] {
                Some(p) => {
                    if p == t {
                        found = true;
                    }
                },
                None => {},
            }
            if !found {
                g += 1;
            }
        }
        if !found {
            proof {
                assert(is_first_unpaired_target(pairings@, target_count as int, t as int));
                let c = choose|u: int| is_first_unpaired_target(pairings@, target_count as int, u);
                lemma_first_unpaired_target_unique(pairings@, target_count as int, t as int, c);
            }
            return Some(t);
        }
        t += 1;
    }
    None
}

/// Pairs the first gun that has no pairing with the target at `target_idx`. Where every
/// gun has a pairing, nothing changes.
pub fn pair_first_unpaired_gun(pairings: &mut Vec<Option<usize>>, target_idx: usize)
    ensures
        all_paired(old(pairings)@) ==> final(pairings)@ == old(pairings)@,
        forall|g: int|
            is_first_unpaired_gun(old(pairings)@, g) ==> final(pairings)@ == old(pairings)@.update(
                g,
                Some(target_idx),
            ),
        final(pairings)@ == paired_first(old(pairings)@, target_idx),
{
    let mut g: usize = 0;
    while g < pairings.len()
        invariant
            g <= pairings.len(),
            pairings@ == old(pairings)@,
            forall|h: int| 0 <= h < g ==> (#[trigger] pairings@[h]) is Some,
        decreases pairings.len() - g,
    {
        if pairings[g].is_none() {
            proof {
                assert(is_first_unpaired_gun(old(pairings)@, g as int));
                let c = choose|h: int| is_first_unpaired_gun(old(pairings)@, h);
                lemma_first_unpaired_gun_unique(old(pairings)@, g as int, c);
            }
            pairings[g] = Some(target_idx);
            return;
        }
        g += 1;
    }
}

/// The selection after the marker of the given kind and index has left.
pub fn fix_selection(selected: Option<SelectedMarker>, kind: MarkerKind, index: usize) -> (out:
    Option<SelectedMarker>)
    ensures
        out == selection_after_removal(selected, kind, index),
{
    match selected {
        Some(sm) => {
            if sm.kind == kind {
                if sm.index == index {
                    None
                } else if sm.index > index {
                    Some(SelectedMarker { kind, index: sm.index - 1 })
                } else {
                    selected
                }
            } else {
                selected
            }
        },
        None => None,
    }
}

/// Removes the marker of the given kind and index. Later markers of its list move down by
/// one. With a gun go its weapon and its pairing; with a target, every pairing with it is
/// cleared and every pairing with a later target moves down by one. A marker that does
/// not exist leaves the state as it is.
pub fn remove_marker(kind: MarkerKind, index: usize, plan: &mut PlanSnapshot)
    ensures
        final(plan)@ == after_removal(old(plan)@, kind, index as int),
{
    match kind {
        MarkerKind::Gun => {
            if index < plan.gun_positions.len() {
                plan.gun_positions.remove(index);
                if index < plan.gun_weapon_ids.len() {
                    plan.gun_weapon_ids.remove(index);
                    assert(id_chars(plan.gun_weapon_ids@) =~= id_chars(
                        old(plan).gun_weapon_ids@,
                    ).remove(index as int));
                }
                if index < plan.gun_target_indices.len() {
                    plan.gun_target_indices.remove(index);
                }
            }
        },
        MarkerKind::Target => {
            if index < plan.target_positions.len() {
                plan.target_positions.remove(index);
                let mut g: usize = 0;
                while g < plan.gun_target_indices.len()
                    invariant
                        g <= plan.gun_target_indices.len(),
                        plan.gun_target_indices.len() == old(plan).gun_target_indices.len(),
                        plan.gun_positions == old(plan).gun_positions,
                        plan.spotter_positions == old(plan).spotter_positions,
                        plan.gun_weapon_ids == old(plan).gun_weapon_ids,
                        plan.wind_direction == old(plan).wind_direction,
                        plan.wind_strength == old(plan).wind_strength,
                        plan.target_positions@ == old(plan).target_positions@.remove(index as int),
                        forall|h: int|
                            0 <= h < g ==> plan.gun_target_indices@[h] == shifted_pairing(
                                old(plan).gun_target_indices@[h],
                                index as int,
                            ),
                        forall|h: int|
                            g <= h < plan.gun_target_indices.len() ==> plan.gun_target_indices@[h]
                                == old(plan).gun_target_indices@[h],
                    decreases plan.gun_target_indices.len() - g,
                {
                    match plan.gun_target_indices[g] {
                        Some(t) => {
                            if t == index {
                                plan.gun_target_indices[g] = None;
                            } else if t > index {
                                plan.gun_target_indices[g] = Some(t - 1);
                            }
                        },
                        None => {},
                    }
                    g += 1;
                }
                assert(plan.gun_target_indices@ =~= shifted_pairings(
                    old(plan).gun_target_indices@,
                    index as int,
                ));
            }
        },
        MarkerKind::Spotter => {
            if index < plan.spotter_positions.len() {
                plan.spotter_positions.remove(index);
            }
        },
    }
}

/// The hit of a click at `p` in one list of markers.
fn probe(positions: &Vec<(i64, i64)>, kind: MarkerKind, p: (i64, i64), threshold: i64) -> (hit:
    Option<Hit>)
    ensures
        hit == hit_in(positions@, kind, p, threshold as int),
{
    match find_nearest(positions, p, threshold) {
        Some(i) => {
            let d: u128 = squared_distance(positions[i], p);
            assert(threshold * threshold < FAR) by (nonlinear_arith)
                requires
                    0 < threshold < 0x8000_0000_0000_0000,
                    FAR == 0x8000_0000_0000_0000_0000_0000_0000_0000,
            ;
            Some(Hit { kind, index: i, dist_sq: d })
        },
        None => None,
    }
}

/// The closer of two hits; the first of two that are equally close.
fn pick_closer(a: Option<Hit>, b: Option<Hit>) -> (out: Option<Hit>)
    ensures
        out == closer(a, b),
{
    match (a, b) {
        (Some(x), Some(y)) => {
            if y.dist_sq < x.dist_sq {
                Some(y)
            } else {
                Some(x)
            }
        },
        (Some(x), None) => Some(x),
        (None, other) => other,
    }
}

/// The marker that a removal click at `p` takes, if any.
pub fn find_removal_target(plan: &PlanSnapshot, mode: PlacementMode, p: (i64, i64), threshold: i64) -> (hit:
    Option<Hit>)
    ensures
        hit == removal_hit(plan@, mode, p, threshold as int),
{
    let own = match mode {
        PlacementMode::Gun => probe(&plan.gun_positions, MarkerKind::Gun, p, threshold),
        PlacementMode::Target => probe(&plan.target_positions, MarkerKind::Target, p, threshold),
        PlacementMode::Spotter => probe(&plan.spotter_positions, MarkerKind::Spotter, p, threshold),
    };
    match own {
        Some(h) => Some(h),
        None => {
            let gun_hit = probe(&plan.gun_positions, MarkerKind::Gun, p, threshold);
            let tgt_hit = probe(&plan.target_positions, MarkerKind::Target, p, threshold);
            let spt_hit = probe(&plan.spotter_positions, MarkerKind::Spotter, p, threshold);
            pick_closer(pick_closer(gun_hit, tgt_hit), spt_hit)
        },
    }
}

impl PlanSnapshot {
    /// Adds a gun at `pos` with the given weapon and pairs it with the first target that
    /// no gun is paired with.
    pub fn add_gun(&mut self, pos: (i64, i64), weapon_id: String)
        ensures
            final(self)@ == old(self)@.with_gun(pos, weapon_id@),
    {
        let free = find_first_unpaired_target(&self.gun_target_indices, self.target_positions.len());
        self.gun_positions.push(pos);
        self.gun_weapon_ids.push(weapon_id);
        self.gun_target_indices.push(free);
        assert(id_chars(self.gun_weapon_ids@) =~= id_chars(old(self).gun_weapon_ids@).push(
            weapon_id@,
        ));
    }

    /// Adds a target at `pos` and pairs the first gun without a pairing with it.
    pub fn add_target(&mut self, pos: (i64, i64))
        ensures
            final(self)@ == old(self)@.with_target(pos),
    {
        let new_target_idx: usize = self.target_positions.len();
        self.target_positions.push(pos);
        pair_first_unpaired_gun(&mut self.gun_target_indices, new_target_idx);
    }

    /// Adds a spotter at `pos`.
    pub fn add_spotter(&mut self, pos: (i64, i64))
        ensures
            final(self)@ == old(self)@.with_spotter(pos),
    {
        self.spotter_positions.push(pos);
    }

    /// Pairs the gun at `gun_index` with the target at `target_index`, whatever the gun
    /// was paired with before. Several guns may be paired with one target.
    pub fn pair_gun_to_target(&mut self, gun_index: usize, target_index: usize)
        ensures
            final(self)@ == old(self)@.with_pairing(gun_index as int, target_index),
    {
        if gun_index < self.gun_target_indices.len() && target_index < self.target_positions.len() {
            self.gun_target_indices[gun_index] = Some(target_index);
        }
    }

    /// Moves the marker of the given kind and index to `pos`.
    pub fn move_marker(&mut self, kind: MarkerKind, index: usize, pos: (i64, i64))
        ensures
            final(self)@ == old(self)@.with_marker_at(kind, index as int, pos),
    {
        match kind {
            MarkerKind::Gun => {
                if index < self.gun_positions.len() {
                    self.gun_positions[index] = pos;
                }
            },
            MarkerKind::Target => {
                if index < self.target_positions.len() {
                    self.target_positions[index] = pos;
                }
            },
            MarkerKind::Spotter => {
                if index < self.spotter_positions.len() {
                    self.spotter_positions[index] = pos;
                }
            },
        }
    }
}

/// Handles a click at `(img_x, img_y)`, in thousandths of a map-image pixel, at the given
/// zoom. Returns the kind of marker that was placed, for usage tracking; `None` where the
/// click moved or paired the selected marker.
pub fn handle_marker_placement(img_x: i64, img_y: i64, zoom: i64, planner: &mut Planner) -> (placed:
    Option<MarkerKind>)
    ensures
        final(planner)@ == after_click(old(planner)@, (img_x, img_y), zoom as int),
        placed == match old(planner)@.selected {
            Some(_) => None,
            None => Some(kind_of(old(planner)@.mode)),
        },
        final(planner)@.redo.len() == 0,
        old(planner)@.undo.len() <= UNDO_LIMIT ==> final(planner)@.wf(),
{
    let p: (i64, i64) = (img_x, img_y);
    planner.push_snapshot();
    match planner.selected_marker {
        Some(sm) => {
            match sm.kind {
                MarkerKind::Gun => {
                    let threshold: i64 = removal_threshold(zoom);
                    match find_nearest(&planner.plan.target_positions, p, threshold) {
                        Some(ti) => {
                            planner.plan.pair_gun_to_target(sm.index, ti);
                        },
                        None => {
                            planner.plan.move_marker(MarkerKind::Gun, sm.index, p);
                        },
                    }
                },
                MarkerKind::Target => {
                    planner.plan.move_marker(MarkerKind::Target, sm.index, p);
                },
                MarkerKind::Spotter => {
                    planner.plan.move_marker(MarkerKind::Spotter, sm.index, p);
                },
            }
            planner.selected_marker = None;
            None
        },
        None => {
            let mode = planner.placement_mode;
            match mode {
                PlacementMode::Gun => {
                    let weapon = planner.selected_weapon.clone();
                    planner.plan.add_gun(p, weapon);
                    planner.placement_mode = PlacementMode::Target;
                    Some(MarkerKind::Gun)
                },
                PlacementMode::Target => {
                    planner.plan.add_target(p);
                    planner.placement_mode = PlacementMode::Gun;
                    Some(MarkerKind::Target)
                },
                PlacementMode::Spotter => {
                    planner.plan.add_spotter(p);
                    Some(MarkerKind::Spotter)
                },
            }
        },
    }
}

/// Handles a removal click at `(img_x, img_y)` at the given zoom. Returns the kind and
/// index of the marker that left, if one was hit.
pub fn handle_marker_removal(img_x: i64, img_y: i64, zoom: i64, planner: &mut Planner) -> (removed:
    Option<(MarkerKind, usize)>)
    ensures
        final(planner)@ == after_removal_click(old(planner)@, (img_x, img_y), zoom as int),
        removed == match removal_hit(
            old(planner)@.plan,
            old(planner)@.mode,
            (img_x, img_y),
            threshold_at(zoom as int),
        ) {
            Some(h) => Some((h.kind, h.index)),
            None => None,
        },
        old(planner)@.wf() ==> final(planner)@.wf(),
{
    let threshold: i64 = removal_threshold(zoom);
    match find_removal_target(&planner.plan, planner.placement_mode, (img_x, img_y), threshold) {
        Some(h) => {
            planner.push_snapshot();
            remove_marker(h.kind, h.index, &mut planner.plan);
            planner.selected_marker = fix_selection(planner.selected_marker, h.kind, h.index);
            Some((h.kind, h.index))
        },
        None => None,
    }
}

/// Removes the selected marker, if there is one, and clears the selection. Returns
/// whether a marker was selected.
pub fn delete_selected(planner: &mut Planner) -> (done: bool)
    ensures
        done == old(planner)@.selected.is_some(),
        final(planner)@ == match old(planner)@.selected {
            Some(sm) => PlannerModel {
                plan: after_removal(old(planner)@.plan, sm.kind, sm.index as int),
                selected: None,
                ..old(planner)@.saved()
            },
            None => old(planner)@,
        },
        old(planner)@.wf() ==> final(planner)@.wf(),
{
    match planner.selected_marker {
        Some(sm) => {
            planner.push_snapshot();
            remove_marker(sm.kind, sm.index, &mut planner.plan);
            planner.selected_marker = None;
            true
        },
        None => false,
    }
}

/// The label of the marker at `index` among `total` markers of one kind: the name of
/// the kind alone where there is at most one, else the name and the marker's number,
/// counted from 1.
pub open spec fn label_for(base: Seq<char>, index: usize, total: usize) -> Seq<char> {
    if total <= 1 {
        base
    } else {
        base + " "@ + decimal((index + 1) as nat)
    }
}

/// The label of the marker at `index` among `total` markers of one kind.
pub fn marker_label(base: &str, index: usize, total: usize) -> (label: String)
    requires
        index < usize::MAX,
    ensures
        label@ == label_for(base@, index, total),
{
    let mut label = String::from_str(base);
    if total > 1 {
        label.append(" ");
        push_decimal(&mut label, (index + 1) as u64);
    }
    label
}

/// The side whose colours the planner shows.
#[derive(Debug, Clone, Copy, PartialEq, Eq, Structural)]
pub enum Faction {
    Warden,
    Colonial,
}

impl Faction {
    /// The word under which the choice of a side is kept between visits.
    pub open spec fn key(self) -> Seq<char> {
        match self {
            Faction::Warden => "warden"@,
            Faction::Colonial => "colonial"@,
        }
    }

    /// The side that a kept word names: Colonial for `colonial`, Warden for any other
    /// word and where no word was kept.
    pub open spec fn of_saved(saved: Option<Seq<char>>) -> Faction {
        match saved {
            Some(word) => if word == "colonial"@ {
                Faction::Colonial
            } else {
                Faction::Warden
            },
            None => Faction::Warden,
        }
    }

    /// The word under which the choice of this side is kept.
    pub fn saved_word(&self) -> (word: &'static str)
        ensures
            word@ == self.key(),
    {
        match self {
            Faction::Warden => "warden",
            Faction::Colonial => "colonial",
        }
    }

    /// The side that a kept word names.
    pub fn from_saved(saved: Option<&str>) -> (side: Faction)
        ensures
            side == Self::of_saved(
                match saved {
                    Some(word) => Some(word@),
                    None => None,
                },
            ),
    {
        match saved {
            Some(word) => {
                if String::from_str(word) == String::from_str("colonial") {
                    Faction::Colonial
                } else {
                    Faction::Warden
                }
            },
            None => Faction::Warden,
        }
    }
}

/// Keeping the word of a side and reading it back gives the same side.
pub proof fn lemma_saved_side_round_trip(side: Faction)
    ensures
        Faction::of_saved(Some(side.key())) == side,
{
    reveal_strlit("warden");
    reveal_strlit("colonial");
    assert("warden"@.len() == 6);
    assert("colonial"@.len() == 8);
}

impl MarkerKind {
    /// The short name of the kind in the read-out of coordinates.
    pub open spec fn short_name(self) -> Seq<char> {
        match self {
            MarkerKind::Gun => "GUN"@,
            MarkerKind::Target => "TGT"@,
            MarkerKind::Spotter => "SPT"@,
        }
    }

    /// The short name of the kind in the read-out of coordinates.
    pub fn short_text(&self) -> (name: &'static str)
        ensures
            name@ == self.short_name(),
    {
        match self {
            MarkerKind::Gun => "GUN",
            MarkerKind::Target => "TGT",
            MarkerKind::Spotter => "SPT",
        }
    }
}

/// The line of the read-out for a marker: its label, a colon, and the grid label of its
/// position on the map image.
pub open spec fn readout_for(kind: MarkerKind, index: usize, total: usize, pos: (i64, i64)) -> Seq<
    char,
> {
    label_for(kind.short_name(), index, total) + ": "@ + grid_label(
        x_metres(pos.0 as int),
        y_metres(pos.1 as int),
    )
}

/// The line of the read-out of coordinates for the marker at `index` among `total`
/// markers of its kind, at `pos` on the map image.
pub fn coord_readout(kind: MarkerKind, index: usize, total: usize, pos: (i64, i64)) -> (line: String)
    requires
        index < usize::MAX,
    ensures
        line@ == readout_for(kind, index, total, pos),
{
    let mut line = marker_label(kind.short_text(), index, total);
    line.append(": ");
    let grid = format_px_as_grid(pos.0, pos.1);
    line.append(grid.as_str());
    line
}

} // verus!
