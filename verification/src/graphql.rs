//! The service side: what a request may hold, and what the service answers.
//!
//! Requests are checked before anything enters a plan. Each check names the first fault
//! it finds; the text of a fault is made on request.

use vstd::prelude::*;
use vstd::string::StringExecFns;
use crate::api::UNASSIGNED_WEAPON;
use crate::assets::{is_first_weapon, no_map, no_weapon, weapon_slug, Assets};
use crate::calc::{firing_solution, within_length};
use crate::grid::{MAP_HEIGHT_M, MAP_WIDTH_M};
use crate::models::{Faction, FiringSolution, Plan, Position, Weapon, WindInput};
use crate::planner::{copy_ids, id_chars};
use crate::text::{decimal, push_decimal};
use crate::units::{in_domain, is_in_domain};

verus! {

/// Most bytes that the name of a plan may have.
pub const MAX_NAME_LEN: usize = 200;

/// Greatest wind strength.
pub const MAX_WIND_STRENGTH: u32 = 5;

/// The number of bytes of a text.
pub open spec fn byte_len(s: Seq<char>) -> nat {
    vstd::utf8::encode_utf8(s).len()
}

/// A faction as the service names it.
#[derive(Debug, Clone, Copy, PartialEq, Eq, Structural)]
pub enum GqlFaction {
    Colonial,
    Warden,
    Both,
}

/// The service's name for a faction.
pub open spec fn gql_faction_of(f: Faction) -> GqlFaction {
    match f {
        Faction::Colonial => GqlFaction::Colonial,
        Faction::Warden => GqlFaction::Warden,
        Faction::Both => GqlFaction::Both,
    }
}

/// The faction that the service names.
pub open spec fn faction_of(f: GqlFaction) -> Faction {
    match f {
        GqlFaction::Colonial => Faction::Colonial,
        GqlFaction::Warden => Faction::Warden,
        GqlFaction::Both => Faction::Both,
    }
}

impl GqlFaction {
    /// The service's name for a faction.
    pub fn from_faction(f: Faction) -> (out: Self)
        ensures
            out == gql_faction_of(f),
    {
        match f {
            Faction::Colonial => GqlFaction::Colonial,
            Faction::Warden => GqlFaction::Warden,
            Faction::Both => GqlFaction::Both,
        }
    }

    /// The faction that the service names.
    pub fn to_faction(self) -> (out: Faction)
        ensures
            out == faction_of(self),
    {
        match self {
            GqlFaction::Colonial => Faction::Colonial,
            GqlFaction::Warden => Faction::Warden,
            GqlFaction::Both => Faction::Both,
        }
    }
}

/// Converting a faction to the service's name and back gives the same faction, and the
/// other way round.
pub proof fn lemma_faction_round_trip(f: Faction, g: GqlFaction)
    ensures
        faction_of(gql_faction_of(f)) == f,
        gql_faction_of(faction_of(g)) == g,
{
}

/// A position in a request, in thousandths of a metre.
#[derive(Debug, Clone, Copy, PartialEq, Eq, Structural)]
pub struct PositionInput {
    pub x: i64,
    pub y: i64,
}

/// The wind in a request.
#[derive(Debug, Clone, Copy, PartialEq, Eq, Structural)]
pub struct GqlWindInput {
    pub direction: i64,
    pub strength: u32,
}

/// A request for a firing solution.
#[derive(Debug, Clone)]
pub struct CalculateInput {
    pub gun_position: PositionInput,
    pub target_position: PositionInput,
    pub weapon_id: String,
    pub wind: Option<GqlWindInput>,
}

/// A request to store a plan.
#[derive(Debug, Clone)]
pub struct CreatePlanInput {
    pub name: String,
    pub map_id: String,
    pub weapon_ids: Vec<String>,
    pub gun_positions: Option<Vec<PositionInput>>,
    pub target_positions: Option<Vec<PositionInput>>,
    pub spotter_positions: Option<Vec<PositionInput>>,
    pub gun_target_indices: Option<Vec<Option<i32>>>,
    pub wind_direction: Option<i64>,
    pub wind_strength: Option<u32>,
}

/// The list of positions that a fault lies in.
#[derive(Debug, Clone, Copy, PartialEq, Eq, Structural)]
pub enum PositionField {
    Gun,
    Target,
    Spotter,
}

/// A fault in a request.
#[derive(Debug, Clone, Copy, PartialEq, Eq, Structural)]
pub enum PlanError {
    /// The name of the plan is longer than [`MAX_NAME_LEN`] bytes.
    NameTooLong,
    /// The catalogue has no map with the identifier of the request.
    UnknownMap,
    /// The catalogue has no weapon with the identifier at this index of the request.
    UnknownWeapon { index: usize },
    /// A coordinate of the position at this index lies outside the coordinate domain.
    NotFinite { field: PositionField, index: usize },
    /// The position at this index lies outside the map.
    OutOfBounds { field: PositionField, index: usize },
    /// The pairing at this position is below zero.
    NegativeIndex { position: usize },
    /// The pairing at this position names no target.
    IndexOutOfBounds { position: usize, index: i32, target_count: usize },
    /// The wind direction is not a bearing from 0 up to a full turn.
    WindDirection,
    /// The wind is stronger than [`MAX_WIND_STRENGTH`].
    WindStrength,
}

/// Whether a position lies on the map: from zero up to, but not including, the width
/// and the height of the map.
pub open spec fn on_map(p: PositionInput) -> bool {
    0 <= p.x < MAP_WIDTH_M && 0 <= p.y < MAP_HEIGHT_M
}

/// The fault of the position at `index` of a list, if it has one.
pub open spec fn position_fault(p: PositionInput, field: PositionField, index: usize) -> Option<
    PlanError,
> {
    if !in_domain(p.x as int) || !in_domain(p.y as int) {
        Some(PlanError::NotFinite { field, index })
    } else if !on_map(p) {
        Some(PlanError::OutOfBounds { field, index })
    } else {
        None
    }
}

/// The first fault among the positions from index `from` on.
pub open spec fn positions_fault(positions: Seq<PositionInput>, field: PositionField, from: int) -> Option<
    PlanError,
>
    decreases positions.len() - from,
{
    if from < 0 || from >= positions.len() {
        None
    } else {
        match position_fault(positions[from], field, from as usize) {
            Some(e) => Some(e),
            None => positions_fault(positions, field, from + 1),
        }
    }
}

/// The fault of the pairing at `position`, if it has one: an index below zero, or an
/// index that names none of the targets where there are targets.
pub open spec fn pairing_fault(entry: Option<i32>, position: usize, target_count: usize) -> Option<
    PlanError,
> {
    match entry {
        Some(v) => if v < 0 {
            Some(PlanError::NegativeIndex { position })
        } else if target_count > 0 && v >= target_count {
            Some(PlanError::IndexOutOfBounds { position, index: v, target_count })
        } else {
            None
        },
        None => None,
    }
}

/// The first fault among the pairings from index `from` on.
pub open spec fn pairings_fault(indices: Seq<Option<i32>>, target_count: usize, from: int) -> Option<
    PlanError,
>
    decreases indices.len() - from,
{
    if from < 0 || from >= indices.len() {
        None
    } else {
        match pairing_fault(indices[from], from as usize, target_count) {
            Some(e) => Some(e),
            None => pairings_fault(indices, target_count, from + 1),
        }
    }
}

/// Whether a weapon identifier needs no entry in the catalogue: the empty identifier
/// and the one for guns without a weapon.
pub open spec fn is_unassigned(id: Seq<char>) -> bool {
    id.len() == 0 || id == UNASSIGNED_WEAPON@
}

/// The first fault among the weapon identifiers from index `from` on.
pub open spec fn weapons_fault(ids: Seq<String>, assets: &Assets, from: int) -> Option<PlanError>
    decreases ids.len() - from,
{
    if from < 0 || from >= ids.len() {
        None
    } else if !is_unassigned(ids[from]@) && no_weapon(assets.weapons@, ids[from]@) {
        Some(PlanError::UnknownWeapon { index: from as usize })
    } else {
        weapons_fault(ids, assets, from + 1)
    }
}

/// The fault of the name of a plan, if it has one.
pub open spec fn name_fault(name: Seq<char>) -> Option<PlanError> {
    if byte_len(name) > MAX_NAME_LEN {
        Some(PlanError::NameTooLong)
    } else {
        None
    }
}

/// The fault of the map of a plan, if it has one.
pub open spec fn map_fault(map_id: Seq<char>, assets: &Assets) -> Option<PlanError> {
    if no_map(assets.maps@, map_id) {
        Some(PlanError::UnknownMap)
    } else {
        None
    }
}

/// The fault of a wind direction, if it has one.
pub open spec fn wind_direction_fault(direction: Option<i64>) -> Option<PlanError> {
    match direction {
        Some(d) => if 0 <= d < 360_000 {
            None
        } else {
            Some(PlanError::WindDirection)
        },
        None => None,
    }
}

/// The fault of a wind strength, if it has one.
pub open spec fn wind_strength_fault(strength: Option<u32>) -> Option<PlanError> {
    match strength {
        Some(s) => if s > MAX_WIND_STRENGTH {
            Some(PlanError::WindStrength)
        } else {
            None
        },
        None => None,
    }
}

/// The first fault among the positions of an optional list.
pub open spec fn list_fault(positions: Option<Vec<PositionInput>>, field: PositionField) -> Option<
    PlanError,
> {
    match positions {
        Some(v) => positions_fault(v@, field, 0),
        None => None,
    }
}

/// The number of targets of a request.
pub open spec fn target_count_of(input: &CreatePlanInput) -> usize {
    match input.target_positions {
        Some(v) => v@.len() as usize,
        None => 0,
    }
}

/// The first fault among the pairings of a request.
pub open spec fn indices_fault(input: &CreatePlanInput) -> Option<PlanError> {
    match input.gun_target_indices {
        Some(v) => pairings_fault(v@, target_count_of(input), 0),
        None => None,
    }
}

/// The first fault of a request to store a plan, in this order: name, map, weapons,
/// gun positions, target positions, spotter positions, pairings, wind direction, wind
/// strength.
pub open spec fn create_plan_fault(input: &CreatePlanInput, assets: &Assets) -> Option<PlanError> {
    if name_fault(input.name@).is_some() {
        name_fault(input.name@)
    } else if map_fault(input.map_id@, assets).is_some() {
        map_fault(input.map_id@, assets)
    } else if weapons_fault(input.weapon_ids@, assets, 0).is_some() {
        weapons_fault(input.weapon_ids@, assets, 0)
    } else if list_fault(input.gun_positions, PositionField::Gun).is_some() {
        list_fault(input.gun_positions, PositionField::Gun)
    } else if list_fault(input.target_positions, PositionField::Target).is_some() {
        list_fault(input.target_positions, PositionField::Target)
    } else if list_fault(input.spotter_positions, PositionField::Spotter).is_some() {
        list_fault(input.spotter_positions, PositionField::Spotter)
    } else if indices_fault(input).is_some() {
        indices_fault(input)
    } else if wind_direction_fault(input.wind_direction).is_some() {
        wind_direction_fault(input.wind_direction)
    } else {
        wind_strength_fault(input.wind_strength)
    }
}

/// The outcome of a check: the fault where there is one.
pub open spec fn outcome(fault: Option<PlanError>) -> Result<(), PlanError> {
    match fault {
        Some(e) => Err(e),
        None => Ok(()),
    }
}

/// Checks the name of a plan.
pub fn validate_name(name: &str) -> (r: Result<(), PlanError>)
    ensures
        r == outcome(name_fault(name@)),
{
    if name.as_bytes().len() > MAX_NAME_LEN {
        Err(PlanError::NameTooLong)
    } else {
        Ok(())
    }
}

/// Checks that the catalogue has the map.
pub fn validate_map_id(map_id: &str, assets: &Assets) -> (r: Result<(), PlanError>)
    ensures
        r == outcome(map_fault(map_id@, assets)),
{
    match assets.map_index(map_id) {
        Some(i) => {
            assert(!no_map(assets.maps@, map_id@)) by {
                assert(assets.maps@[i as int].file_name@ == map_id@);
            }
            Ok(())
        },
        None => Err(PlanError::UnknownMap),
    }
}

/// Whether the catalogue has a weapon with the given identifier.
pub fn has_weapon(assets: &Assets, id: &str) -> (b: bool)
    ensures
        b == !no_weapon(assets.weapons@, id@),
{
    match assets.weapon_index(id) {
        Some(i) => {
            assert(!no_weapon(assets.weapons@, id@)) by {
                assert(crate::assets::weapon_slug(assets.weapons@[i as int]) == id@);
            }
            true
        },
        None => false,
    }
}

/// Whether a weapon identifier needs no entry in the catalogue.
pub fn needs_no_entry(id: &str) -> (b: bool)
    ensures
        b == is_unassigned(id@),
{
    if id.is_empty() {
        true
    } else {
        String::from_str(id) == String::from_str(UNASSIGNED_WEAPON)
    }
}

/// Checks that the catalogue has every weapon of the list that needs an entry.
pub fn validate_weapon_ids(weapon_ids: &Vec<String>, assets: &Assets) -> (r: Result<(), PlanError>)
    ensures
        r == outcome(weapons_fault(weapon_ids@, assets, 0)),
{
    let mut i: usize = 0;
    while i < weapon_ids.len()
        invariant
            i <= weapon_ids.len(),
            weapons_fault(weapon_ids@, assets, 0) == weapons_fault(weapon_ids@, assets, i as int),
        decreases weapon_ids.len() - i,
    {
        let id: &str = weapon_ids[i].as_str();
        if !needs_no_entry(id) && !has_weapon(assets, id) {
            return Err(PlanError::UnknownWeapon { index: i });
        }
        i += 1;
    }
    Ok(())
}

/// Checks one position: its coordinates lie in the coordinate domain, and on the map.
pub fn validate_position(pos: &PositionInput, field: PositionField, index: usize) -> (r: Result<
    (),
    PlanError,
>)
    ensures
        r == outcome(position_fault(*pos, field, index)),
{
    if !is_in_domain(pos.x) || !is_in_domain(pos.y) {
        return Err(PlanError::NotFinite { field, index });
    }
    if pos.x < 0 || pos.x >= MAP_WIDTH_M || pos.y < 0 || pos.y >= MAP_HEIGHT_M {
        return Err(PlanError::OutOfBounds { field, index });
    }
    Ok(())
}

/// Checks a list of positions and names the first fault.
pub fn validate_positions(positions: &Vec<PositionInput>, field: PositionField) -> (r: Result<
    (),
    PlanError,
>)
    ensures
        r == outcome(positions_fault(positions@, field, 0)),
{
    let mut i: usize = 0;
    while i < positions.len()
        invariant
            i <= positions.len(),
            positions_fault(positions@, field, 0) == positions_fault(positions@, field, i as int),
        decreases positions.len() - i,
    {
        match validate_position(&positions[i], field, i) {
            Err(e) => {
                return Err(e);
            },
            Ok(_) => {},
        }
        i += 1;
    }
    Ok(())
}

/// Checks the pairings of a request against the number of its targets and names the
/// first fault.
pub fn validate_gun_target_indices(indices: &Vec<Option<i32>>, target_count: usize) -> (r: Result<
    (),
    PlanError,
>)
    ensures
        r == outcome(pairings_fault(indices@, target_count, 0)),
{
    let mut i: usize = 0;
    while i < indices.len()
        invariant
            i <= indices.len(),
            pairings_fault(indices@, target_count, 0) == pairings_fault(
                indices@,
                target_count,
                i as int,
            ),
        decreases indices.len() - i,
    {
        match indices[i] {
            Some(v) => {
                if v < 0 {
                    return Err(PlanError::NegativeIndex { position: i });
                }
                if target_count > 0 && v as usize >= target_count {
                    return Err(
                        PlanError::IndexOutOfBounds { position: i, index: v, target_count },
                    );
                }
            },
            None => {},
        }
        i += 1;
    }
    Ok(())
}

/// Checks a wind direction: a bearing from 0 up to, but not including, a full turn.
pub fn validate_wind_direction(dir: i64) -> (r: Result<(), PlanError>)
    ensures
        r == outcome(wind_direction_fault(Some(dir))),
{
    if 0 <= dir && dir < 360_000 {
        Ok(())
    } else {
        Err(PlanError::WindDirection)
    }
}

/// Checks a wind strength: at most [`MAX_WIND_STRENGTH`].
pub fn validate_wind_strength(strength: u32) -> (r: Result<(), PlanError>)
    ensures
        r == outcome(wind_strength_fault(Some(strength))),
{
    if strength > MAX_WIND_STRENGTH {
        Err(PlanError::WindStrength)
    } else {
        Ok(())
    }
}

/// Checks an optional list of positions.
fn validate_list(positions: &Option<Vec<PositionInput>>, field: PositionField) -> (r: Result<
    (),
    PlanError,
>)
    ensures
        r == outcome(list_fault(*positions, field)),
{
    match positions {
        Some(v) => validate_positions(v, field),
        None => Ok(()),
    }
}

/// Checks a request to store a plan and names its first fault.
pub fn validate_create_plan(input: &CreatePlanInput, assets: &Assets) -> (r: Result<(), PlanError>)
    ensures
        r == outcome(create_plan_fault(input, assets)),
{
    match validate_name(input.name.as_str()) {
        Err(e) => {
            return Err(e);
        },
        Ok(_) => {},
    }
    match validate_map_id(input.map_id.as_str(), assets) {
        Err(e) => {
            return Err(e);
        },
        Ok(_) => {},
    }
    match validate_weapon_ids(&input.weapon_ids, assets) {
        Err(e) => {
            return Err(e);
        },
        Ok(_) => {},
    }
    match validate_list(&input.gun_positions, PositionField::Gun) {
        Err(e) => {
            return Err(e);
        },
        Ok(_) => {},
    }
    match validate_list(&input.target_positions, PositionField::Target) {
        Err(e) => {
            return Err(e);
        },
        Ok(_) => {},
    }
    match validate_list(&input.spotter_positions, PositionField::Spotter) {
        Err(e) => {
            return Err(e);
        },
        Ok(_) => {},
    }
    match &input.gun_target_indices {
        Some(indices) => {
            let target_count: usize = match &input.target_positions {
                Some(v) => v.len(),
                None => 0,
            };
            match validate_gun_target_indices(indices, target_count) {
                Err(e) => {
                    return Err(e);
                },
                Ok(_) => {},
            }
        },
        None => {},
    }
    match input.wind_direction {
        Some(dir) => {
            match validate_wind_direction(dir) {
                Err(e) => {
                    return Err(e);
                },
                Ok(_) => {},
            }
        },
        None => {},
    }
    match input.wind_strength {
        Some(strength) => {
            match validate_wind_strength(strength) {
                Err(e) => {
                    return Err(e);
                },
                Ok(_) => {},
            }
        },
        None => {},
    }
    Ok(())
}

/// A map as the service lists it.
#[derive(Debug, Clone, PartialEq, Eq)]
pub struct GqlGameMap {
    pub display_name: String,
    pub file_name: String,
    pub image_type: String,
    pub active: bool,
}

/// A weapon as the service lists it.
#[derive(Debug, Clone, PartialEq, Eq)]
pub struct GqlWeapon {
    pub slug: String,
    pub faction: GqlFaction,
    pub display_name: String,
    pub min_range: i64,
    pub max_range: i64,
    pub acc_radius_min: i64,
    pub acc_radius_max: i64,
    pub wind_drift_min: i64,
    pub wind_drift_max: i64,
}

/// A firing solution as the service reports it.
#[derive(Debug, Clone, Copy, PartialEq, Eq, Structural)]
pub struct GqlFiringSolution {
    pub azimuth: i64,
    pub distance: i64,
    pub in_range: bool,
    pub accuracy_radius: i64,
    pub wind_adjusted_azimuth: Option<i64>,
    pub wind_adjusted_distance: Option<i64>,
    pub wind_offset_meters: Option<i64>,
}

/// A position as the service reports it.
#[derive(Debug, Clone, Copy, PartialEq, Eq, Structural)]
pub struct GqlPosition {
    pub x: i64,
    pub y: i64,
}

/// A stored plan as the service reports it.
#[derive(Debug, Clone)]
pub struct GqlPlan {
    pub id: String,
    pub name: String,
    pub map_id: String,
    pub weapon_ids: Vec<String>,
    pub gun_positions: Vec<GqlPosition>,
    pub target_positions: Vec<GqlPosition>,
    pub spotter_positions: Vec<GqlPosition>,
    pub gun_target_indices: Vec<Option<i32>>,
    pub wind_direction: Option<i64>,
    pub wind_strength: u32,
    pub created_at: String,
    pub updated_at: String,
}

/// How often guns with one weapon were placed.
#[derive(Debug, Clone, PartialEq, Eq)]
pub struct GqlWeaponPlacementStat {
    pub weapon_slug: String,
    pub display_name: String,
    pub faction: GqlFaction,
    pub count: u64,
}

/// How often guns were placed, by faction. A weapon of both factions counts for each.
#[derive(Debug, Clone, Copy, PartialEq, Eq, Structural)]
pub struct GqlFactionPlacementStats {
    pub colonial: u64,
    pub warden: u64,
    pub total: u64,
}

/// How often targets and spotters were placed.
#[derive(Debug, Clone, Copy, PartialEq, Eq, Structural)]
pub struct GqlMarkerPlacementStats {
    pub targets: u64,
    pub spotters: u64,
}

/// The usage statistics of the service.
#[derive(Debug, Clone)]
pub struct GqlStats {
    pub total_plans: u64,
    pub db_size_bytes: u64,
    pub gun_placements: Vec<GqlWeaponPlacementStat>,
    pub gun_placement_totals: GqlFactionPlacementStats,
    pub marker_placements: GqlMarkerPlacementStats,
}

/// The queries of the service.
#[derive(Debug, Clone, Copy, PartialEq, Eq, Structural)]
pub struct QueryRoot;

/// The changes that the service accepts.
#[derive(Debug, Clone, Copy, PartialEq, Eq, Structural)]
pub struct MutationRoot;

impl Assets {
    /// Every weapon of the catalogue has ranges and radii in the coordinate domain.
    pub open spec fn wf(&self) -> bool {
        forall|i: int| 0 <= i < self.weapons@.len() ==> (#[trigger] self.weapons@[i]).wf()
    }
}

/// Whether the map at index `i` is listed: every map, or the active ones only.
pub open spec fn map_listed(maps: Seq<crate::models::GameMap>, active_only: bool, i: int) -> bool {
    !active_only || maps[i].active
}

/// Whether a weapon is listed for a faction: every weapon where none is asked for, else
/// the weapons of that faction and those of both.
pub open spec fn weapon_listed(w: Weapon, faction: Option<GqlFaction>) -> bool {
    match faction {
        Some(f) => w.faction == faction_of(f) || w.faction == Faction::Both,
        None => true,
    }
}

/// The service's entry shows the map.
pub open spec fn shows_map(entry: GqlGameMap, map: crate::models::GameMap) -> bool {
    &&& entry.display_name@ == map.display_name@
    &&& entry.file_name@ == map.file_name@
    &&& entry.image_type@ == map.image_type@
    &&& entry.active == map.active
}

/// The service's entry shows the weapon.
pub open spec fn shows_weapon(entry: GqlWeapon, w: Weapon) -> bool {
    &&& entry.slug@ == weapon_slug(w)
    &&& entry.faction == gql_faction_of(w.faction)
    &&& entry.display_name@ == w.display_name@
    &&& entry.min_range == w.min_range
    &&& entry.max_range == w.max_range
    &&& entry.acc_radius_min == w.acc_radius[0]
    &&& entry.acc_radius_max == w.acc_radius[1]
    &&& entry.wind_drift_min == w.wind_drift[0]
    &&& entry.wind_drift_max == w.wind_drift[1]
}

/// The firing solution as the service reports it.
pub open spec fn reported(sol: FiringSolution) -> GqlFiringSolution {
    GqlFiringSolution {
        azimuth: sol.azimuth,
        distance: sol.distance,
        in_range: sol.in_range,
        accuracy_radius: sol.accuracy_radius,
        wind_adjusted_azimuth: sol.wind_adjusted_azimuth,
        wind_adjusted_distance: sol.wind_adjusted_distance,
        wind_offset_meters: sol.wind_offset_meters,
    }
}

/// The wind of a request as the calculator takes it: the strength is kept to its low
/// eight bits.
pub open spec fn wind_of(w: Option<GqlWindInput>) -> Option<WindInput> {
    match w {
        Some(g) => Some(WindInput { direction: g.direction, strength: (g.strength % 256) as u8 }),
        None => None,
    }
}

/// The fault of a request for a firing solution: an unknown weapon, or a position
/// outside the coordinate domain, the gun's before the target's.
pub open spec fn calculate_fault(input: &CalculateInput, assets: &Assets) -> Option<PlanError> {
    if no_weapon(assets.weapons@, input.weapon_id@) {
        Some(PlanError::UnknownWeapon { index: 0 })
    } else if !in_domain(input.gun_position.x as int) || !in_domain(input.gun_position.y as int) {
        Some(PlanError::NotFinite { field: PositionField::Gun, index: 0 })
    } else if !in_domain(input.target_position.x as int) || !in_domain(
        input.target_position.y as int,
    ) {
        Some(PlanError::NotFinite { field: PositionField::Target, index: 0 })
    } else {
        None
    }
}

/// The entries show the listed maps among the first `upto` of the catalogue, one entry
/// for each, in the catalogue's order.
pub open spec fn maps_shown(
    out: Seq<GqlGameMap>,
    maps: Seq<crate::models::GameMap>,
    active_only: bool,
    upto: int,
) -> bool
    decreases upto,
{
    if upto <= 0 {
        out.len() == 0
    } else if map_listed(maps, active_only, upto - 1) {
        out.len() > 0 && shows_map(out.last(), maps[upto - 1]) && maps_shown(
            out.drop_last(),
            maps,
            active_only,
            upto - 1,
        )
    } else {
        maps_shown(out, maps, active_only, upto - 1)
    }
}

/// The entries show the listed weapons among the first `upto` of the catalogue, one
/// entry for each, in the catalogue's order.
pub open spec fn weapons_shown(
    out: Seq<GqlWeapon>,
    weapons: Seq<Weapon>,
    faction: Option<GqlFaction>,
    upto: int,
) -> bool
    decreases upto,
{
    if upto <= 0 {
        out.len() == 0
    } else if weapon_listed(weapons[upto - 1], faction) {
        out.len() > 0 && shows_weapon(out.last(), weapons[upto - 1]) && weapons_shown(
            out.drop_last(),
            weapons,
            faction,
            upto - 1,
        )
    } else {
        weapons_shown(out, weapons, faction, upto - 1)
    }
}

impl QueryRoot {
    /// The maps of the catalogue in its order: all of them, or the active ones only.
    pub fn maps(&self, assets: &Assets, active_only: Option<bool>) -> (out: Vec<GqlGameMap>)
        ensures
            maps_shown(out@, assets.maps@, active_only == Some(true), assets.maps@.len() as int),
    {
        let only: bool = match active_only {
            Some(b) => b,
            None => false,
        };
        let mut out: Vec<GqlGameMap> = Vec::new();
        let mut i: usize = 0;
        while i < assets.maps.len()
            invariant
                i <= assets.maps.len(),
                only == (active_only == Some(true)),
                maps_shown(out@, assets.maps@, only, i as int),
            decreases assets.maps.len() - i,
        {
            let m = &assets.maps[i];
            let ghost prev_out = out@;
            if !only || m.active {
                out.push(
                    GqlGameMap {
                        display_name: m.display_name.clone(),
                        file_name: m.file_name.clone(),
                        image_type: m.image_type.clone(),
                        active: m.active,
                    },
                );
                assert(out@.drop_last() =~= prev_out);
            }
            i += 1;
        }
        out
    }

    /// The weapons of the catalogue in its order: all of them, or those that a faction
    /// can field.
    pub fn weapons(&self, assets: &Assets, faction: Option<GqlFaction>) -> (out: Vec<GqlWeapon>)
        ensures
            weapons_shown(out@, assets.weapons@, faction, assets.weapons@.len() as int),
    {
        let mut out: Vec<GqlWeapon> = Vec::new();
        let mut i: usize = 0;
        while i < assets.weapons.len()
            invariant
                i <= assets.weapons.len(),
                weapons_shown(out@, assets.weapons@, faction, i as int),
            decreases assets.weapons.len() - i,
        {
            let w = &assets.weapons[i];
            let ghost prev_out = out@;
            let listed: bool = match faction {
                Some(f) => {
                    let wanted = f.to_faction();
                    w.faction == wanted || w.faction == Faction::Both
                },
                None => true,
            };
            if listed {
                out.push(
                    GqlWeapon {
                        slug: w.slug(),
                        faction: GqlFaction::from_faction(w.faction),
                        display_name: w.display_name.clone(),
                        min_range: w.min_range,
                        max_range: w.max_range,
                        acc_radius_min: w.acc_radius[0],
                        acc_radius_max: w.acc_radius[1],
                        wind_drift_min: w.wind_drift[0],
                        wind_drift_max: w.wind_drift[1],
                    },
                );
                assert(out@.drop_last() =~= prev_out);
            }
            i += 1;
        }
        out
    }

    /// The firing solution that a request asks for, with the first weapon of the
    /// catalogue that has the identifier of the request. `heading_of` and `vector_of`
    /// compute bearings and displacements, as for [`firing_solution`].
    pub fn calculate<H: Fn(i64, i64) -> i64, V: Fn(i64, i64) -> (i64, i64)>(
        &self,
        assets: &Assets,
        input: &CalculateInput,
        heading_of: &H,
        vector_of: &V,
    ) -> (r: Result<GqlFiringSolution, PlanError>)
        requires
            assets.wf(),
            forall|east: i64, south: i64| call_requires(heading_of, (east, south)),
            forall|heading: i64, length: i64| call_requires(vector_of, (heading, length)),
            forall|heading: i64, length: i64, v: (i64, i64)|
                0 <= length && call_ensures(vector_of, (heading, length), v) ==> within_length(
                    v,
                    length as int,
                ),
        ensures
            match r {
                Ok(sol) => calculate_fault(input, assets).is_none() && exists|i: int, s: FiringSolution|
                    {
                        &&& is_first_weapon(assets.weapons@, input.weapon_id@, i)
                        &&& sol == reported(s)
                        &&& call_ensures(
                            firing_solution::<H, V>,
                            (
                                Position { x: input.gun_position.x, y: input.gun_position.y },
                                Position { x: input.target_position.x, y: input.target_position.y },
                                &assets.weapons@[i],
                                wind_of(input.wind),
                                heading_of,
                                vector_of,
                            ),
                            s,
                        )
                    },
                Err(e) => calculate_fault(input, assets) == Some(e),
            },
    {
        let i: usize = match assets.weapon_index(input.weapon_id.as_str()) {
            Some(i) => i,
            None => {
                return Err(PlanError::UnknownWeapon { index: 0 });
            },
        };
        assert(!no_weapon(assets.weapons@, input.weapon_id@)) by {
            assert(weapon_slug(assets.weapons@[i as int]) == input.weapon_id@);
        }
        if !is_in_domain(input.gun_position.x) || !is_in_domain(input.gun_position.y) {
            return Err(PlanError::NotFinite { field: PositionField::Gun, index: 0 });
        }
        if !is_in_domain(input.target_position.x) || !is_in_domain(input.target_position.y) {
            return Err(PlanError::NotFinite { field: PositionField::Target, index: 0 });
        }
        let gun = Position { x: input.gun_position.x, y: input.gun_position.y };
        let target = Position { x: input.target_position.x, y: input.target_position.y };
        let wind: Option<WindInput> = match input.wind {
            Some(w) => Some(
                WindInput { direction: w.direction, strength: (w.strength % 256) as u8 },
            ),
            None => None,
        };
        let sol = firing_solution(gun, target, &assets.weapons[i], wind, heading_of, vector_of);
        Ok(
            GqlFiringSolution {
                azimuth: sol.azimuth,
                distance: sol.distance,
                in_range: sol.in_range,
                accuracy_radius: sol.accuracy_radius,
                wind_adjusted_azimuth: sol.wind_adjusted_azimuth,
                wind_adjusted_distance: sol.wind_adjusted_distance,
                wind_offset_meters: sol.wind_offset_meters,
            },
        )
    }
}

/// The positions of an optional list of a request.
pub open spec fn positions_of(list: Option<Vec<PositionInput>>) -> Seq<Position> {
    match list {
        Some(v) => Seq::new(v@.len(), |i: int| Position { x: v@[i].x, y: v@[i].y }),
        None => Seq::empty(),
    }
}

/// The pairings of a request as a plan stores them.
pub open spec fn stored_pairings(list: Option<Vec<Option<i32>>>) -> Seq<Option<u32>> {
    match list {
        Some(v) => Seq::new(
            v@.len(),
            |i: int|
                match v@[i] {
                    Some(t) => Some(t as u32),
                    None => None,
                },
        ),
        None => Seq::empty(),
    }
}

/// The plan holds what the request asks to store, under the given identifier and time.
pub open spec fn stores(plan: Plan, input: CreatePlanInput, id: Seq<char>, now: Seq<char>) -> bool {
    &&& plan.id@ == id
    &&& plan.name@ == input.name@
    &&& plan.map_id@ == input.map_id@
    &&& id_chars(plan.weapon_ids@) == id_chars(input.weapon_ids@)
    &&& plan.gun_position.is_none()
    &&& plan.target_position.is_none()
    &&& plan.spotter_position.is_none()
    &&& plan.gun_positions@ == positions_of(input.gun_positions)
    &&& plan.target_positions@ == positions_of(input.target_positions)
    &&& plan.spotter_positions@ == positions_of(input.spotter_positions)
    &&& plan.gun_target_indices@ == stored_pairings(input.gun_target_indices)
    &&& plan.wind_direction == input.wind_direction
    &&& plan.wind_strength == match input.wind_strength {
        Some(s) => s as u8,
        None => 0u8,
    }
    &&& plan.created_at@ == now
    &&& plan.updated_at@ == now
}

/// The positions of an optional list of a request.
fn to_positions(list: &Option<Vec<PositionInput>>) -> (out: Vec<Position>)
    ensures
        out@ == positions_of(*list),
{
    let mut out: Vec<Position> = Vec::new();
    match list {
        Some(v) => {
            let mut i: usize = 0;
            while i < v.len()
                invariant
                    i <= v.len(),
                    out@.len() == i,
                    forall|j: int|
                        0 <= j < i ==> out@[j] == (Position { x: v@[j].x, y: v@[j].y }),
                decreases v.len() - i,
            {
                out.push(Position { x: v[i].x, y: v[i].y });
                i += 1;
            }
            assert(out@ =~= positions_of(*list));
        },
        None => {
            assert(out@ =~= positions_of(*list));
        },
    }
    out
}

/// The pairings of a request as a plan stores them.
fn to_stored_pairings(list: &Option<Vec<Option<i32>>>) -> (out: Vec<Option<u32>>)
    ensures
        out@ == stored_pairings(*list),
{
    let mut out: Vec<Option<u32>> = Vec::new();
    match list {
        Some(v) => {
            let mut i: usize = 0;
            while i < v.len()
                invariant
                    i <= v.len(),
                    out@.len() == i,
                    forall|j: int|
                        0 <= j < i ==> out@[j] == match v@[j] {
                            Some(t) => Some(t as u32),
                            None => None::<u32>,
                        },
                decreases v.len() - i,
            {
                let entry: Option<u32> = match v[i] {
                    Some(t) => Some(#[verifier::truncate] (t as u32)),
                    None => None,
                };
                out.push(entry);
                i += 1;
            }
            assert(out@ =~= stored_pairings(*list));
        },
        None => {
            assert(out@ =~= stored_pairings(*list));
        },
    }
    out
}

/// The fault of a weapon identifier that a usage notification names: an identifier
/// that needs an entry in the catalogue and has none.
pub open spec fn tracked_weapon_fault(assets: &Assets, slug: Seq<char>) -> Option<PlanError> {
    if !is_unassigned(slug) && no_weapon(assets.weapons@, slug) {
        Some(PlanError::UnknownWeapon { index: 0 })
    } else {
        None
    }
}

impl MutationRoot {
    /// Checks a request to store a plan and makes the plan to store, under the given
    /// identifier and with the given time as the time of its making and of its last
    /// change.
    pub fn create_plan(&self, assets: &Assets, input: CreatePlanInput, id: String, now: String) -> (r:
        Result<Plan, PlanError>)
        ensures
            match r {
                Ok(plan) => create_plan_fault(&input, assets).is_none() && stores(
                    plan,
                    input,
                    id@,
                    now@,
                ),
                Err(e) => create_plan_fault(&input, assets) == Some(e),
            },
    {
        match validate_create_plan(&input, assets) {
            Err(e) => {
                return Err(e);
            },
            Ok(_) => {},
        }
        let strength: u8 = match input.wind_strength {
            Some(s) => #[verifier::truncate] (s as u8),
            None => 0,
        };
        let gun_positions = to_positions(&input.gun_positions);
        let target_positions = to_positions(&input.target_positions);
        let spotter_positions = to_positions(&input.spotter_positions);
        let gun_target_indices = to_stored_pairings(&input.gun_target_indices);
        let weapon_ids = copy_ids(&input.weapon_ids);
        Ok(
            Plan {
                id,
                name: input.name.clone(),
                map_id: input.map_id.clone(),
                weapon_ids,
                gun_position: None,
                target_position: None,
                spotter_position: None,
                gun_positions,
                target_positions,
                spotter_positions,
                gun_target_indices,
                wind_direction: input.wind_direction,
                wind_strength: strength,
                created_at: now.clone(),
                updated_at: now,
            },
        )
    }

    /// Checks the weapon identifier of a usage notification.
    pub fn track_gun_placement(&self, assets: &Assets, weapon_slug: &str) -> (r: Result<
        (),
        PlanError,
    >)
        ensures
            r == outcome(tracked_weapon_fault(assets, weapon_slug@)),
    {
        if !needs_no_entry(weapon_slug) && !has_weapon(assets, weapon_slug) {
            Err(PlanError::UnknownWeapon { index: 0 })
        } else {
            Ok(())
        }
    }
}

/// The plan as the service reports it.
pub open spec fn reports_plan(out: GqlPlan, p: Plan) -> bool {
    &&& out.id@ == p.id@
    &&& out.name@ == p.name@
    &&& out.map_id@ == p.map_id@
    &&& id_chars(out.weapon_ids@) == id_chars(p.weapon_ids@)
    &&& out.gun_positions@ == reported_positions(p.gun_positions@)
    &&& out.target_positions@ == reported_positions(p.target_positions@)
    &&& out.spotter_positions@ == reported_positions(p.spotter_positions@)
    &&& out.gun_target_indices@ == Seq::new(
        p.gun_target_indices@.len(),
        |i: int|
            match p.gun_target_indices@[i] {
                Some(t) => Some(t as i32),
                None => None,
            },
    )
    &&& out.wind_direction == p.wind_direction
    &&& out.wind_strength == p.wind_strength
    &&& out.created_at@ == p.created_at@
    &&& out.updated_at@ == p.updated_at@
}

/// Positions as the service reports them.
pub open spec fn reported_positions(list: Seq<Position>) -> Seq<GqlPosition> {
    Seq::new(list.len(), |i: int| GqlPosition { x: list[i].x, y: list[i].y })
}

/// Positions as the service reports them.
fn report_positions(list: &Vec<Position>) -> (out: Vec<GqlPosition>)
    ensures
        out@ == reported_positions(list@),
{
    let mut out: Vec<GqlPosition> = Vec::new();
    let mut i: usize = 0;
    while i < list.len()
        invariant
            i <= list.len(),
            out@.len() == i,
            forall|j: int| 0 <= j < i ==> out@[j] == (GqlPosition { x: list@[j].x, y: list@[j].y }),
        decreases list.len() - i,
    {
        out.push(GqlPosition { x: list[i].x, y: list[i].y });
        i += 1;
    }
    assert(out@ =~= reported_positions(list@));
    out
}

impl GqlPlan {
    /// The plan as the service reports it.
    pub fn from_plan(p: Plan) -> (out: GqlPlan)
        ensures
            reports_plan(out, p),
    {
        let mut indices: Vec<Option<i32>> = Vec::new();
        let mut i: usize = 0;
        while i < p.gun_target_indices.len()
            invariant
                i <= p.gun_target_indices.len(),
                indices@.len() == i,
                forall|j: int|
                    0 <= j < i ==> indices@[j] == match p.gun_target_indices@[j] {
                        Some(t) => Some(t as i32),
                        None => None::<i32>,
                    },
            decreases p.gun_target_indices.len() - i,
        {
            let entry: Option<i32> = match p.gun_target_indices[i] {
                Some(t) => Some(#[verifier::truncate] (t as i32)),
                None => None,
            };
            indices.push(entry);
            i += 1;
        }
        let out = GqlPlan {
            id: p.id.clone(),
            name: p.name.clone(),
            map_id: p.map_id.clone(),
            weapon_ids: copy_ids(&p.weapon_ids),
            gun_positions: report_positions(&p.gun_positions),
            target_positions: report_positions(&p.target_positions),
            spotter_positions: report_positions(&p.spotter_positions),
            gun_target_indices: indices,
            wind_direction: p.wind_direction,
            wind_strength: p.wind_strength as u32,
            created_at: p.created_at.clone(),
            updated_at: p.updated_at.clone(),
        };
        assert(out.gun_target_indices@ =~= Seq::new(
            p.gun_target_indices@.len(),
            |i: int|
                match p.gun_target_indices@[i] {
                    Some(t) => Some(t as i32),
                    None => None,
                },
        ));
        out
    }
}

/// `a + b`, or the greatest value where the sum is above it.
pub open spec fn capped_sum(a: int, b: int) -> int {
    if a + b > u64::MAX {
        u64::MAX as int
    } else {
        a + b
    }
}

/// Whether a weapon of the given faction counts for `side`.
pub open spec fn counts_for(faction: GqlFaction, side: GqlFaction) -> bool {
    faction == side || faction == GqlFaction::Both
}

/// The placements among the first `upto` entries that count for `side`, capped at the
/// greatest value. For [`GqlFaction::Both`] as the side, every entry counts.
pub open spec fn side_total(stats: Seq<GqlWeaponPlacementStat>, side: GqlFaction, upto: int) -> int
    decreases upto,
{
    if upto <= 0 {
        0
    } else if side == GqlFaction::Both || counts_for(stats[upto - 1].faction, side) {
        capped_sum(side_total(stats, side, upto - 1), stats[upto - 1].count as int)
    } else {
        side_total(stats, side, upto - 1)
    }
}

/// `a + b`, or the greatest value where the sum is above it.
fn add_capped(a: u64, b: u64) -> (sum: u64)
    ensures
        sum == capped_sum(a as int, b as int),
{
    if a > u64::MAX - b {
        u64::MAX
    } else {
        a + b
    }
}

/// The placements by faction: a weapon of both factions counts for each, and every
/// weapon counts for the total.
pub fn placement_totals(stats: &Vec<GqlWeaponPlacementStat>) -> (totals: GqlFactionPlacementStats)
    ensures
        totals.colonial == side_total(stats@, GqlFaction::Colonial, stats@.len() as int),
        totals.warden == side_total(stats@, GqlFaction::Warden, stats@.len() as int),
        totals.total == side_total(stats@, GqlFaction::Both, stats@.len() as int),
{
    let mut colonial: u64 = 0;
    let mut warden: u64 = 0;
    let mut total: u64 = 0;
    let mut i: usize = 0;
    while i < stats.len()
        invariant
            i <= stats.len(),
            colonial == side_total(stats@, GqlFaction::Colonial, i as int),
            warden == side_total(stats@, GqlFaction::Warden, i as int),
            total == side_total(stats@, GqlFaction::Both, i as int),
        decreases stats.len() - i,
    {
        let count: u64 = stats[i].count;
        match stats[i].faction {
            GqlFaction::Colonial => {
                colonial = add_capped(colonial, count);
            },
            GqlFaction::Warden => {
                warden = add_capped(warden, count);
            },
            GqlFaction::Both => {
                colonial = add_capped(colonial, count);
                warden = add_capped(warden, count);
            },
        }
        total = add_capped(total, count);
        i += 1;
    }
    GqlFactionPlacementStats { colonial, warden, total }
}

/// The entry shows the placements counted under one weapon identifier: a gun without a
/// weapon is shown as `Unassigned` and counts for both factions; a weapon of the
/// catalogue is shown with its name and faction; any other identifier is shown as it is
/// and counts for both factions.
pub open spec fn shows_placements(
    entry: GqlWeaponPlacementStat,
    slug: Seq<char>,
    count: u64,
    assets: &Assets,
) -> bool {
    &&& entry.weapon_slug@ == slug
    &&& entry.count == count
    &&& if slug == UNASSIGNED_WEAPON@ {
        entry.display_name@ == "Unassigned"@ && entry.faction == GqlFaction::Both
    } else if no_weapon(assets.weapons@, slug) {
        entry.display_name@ == slug && entry.faction == GqlFaction::Both
    } else {
        exists|i: int|
            is_first_weapon(assets.weapons@, slug, i) && entry.display_name@
                == assets.weapons@[i].display_name@ && entry.faction == gql_faction_of(
                assets.weapons@[i].faction,
            )
    }
}

/// The entry for the placements counted under one weapon identifier.
pub fn placement_stat(slug: &str, count: u64, assets: &Assets) -> (entry: GqlWeaponPlacementStat)
    ensures
        shows_placements(entry, slug@, count, assets),
{
    if String::from_str(slug) == String::from_str(UNASSIGNED_WEAPON) {
        return GqlWeaponPlacementStat {
            weapon_slug: String::from_str(slug),
            display_name: String::from_str("Unassigned"),
            faction: GqlFaction::Both,
            count,
        };
    }
    match assets.weapon_index(slug) {
        Some(i) => {
            assert(!no_weapon(assets.weapons@, slug@)) by {
                assert(weapon_slug(assets.weapons@[i as int]) == slug@);
            }
            GqlWeaponPlacementStat {
                weapon_slug: String::from_str(slug),
                display_name: assets.weapons[i].display_name.clone(),
                faction: GqlFaction::from_faction(assets.weapons[i].faction),
                count,
            }
        },
        None => GqlWeaponPlacementStat {
            weapon_slug: String::from_str(slug),
            display_name: String::from_str(slug),
            faction: GqlFaction::Both,
            count,
        },
    }
}

impl QueryRoot {
    /// The usage statistics, from the numbers that the store holds: one entry for each
    /// counted weapon identifier in the order given, the totals by faction, and the
    /// counts of targets and spotters.
    pub fn stats(
        &self,
        assets: &Assets,
        total_plans: u64,
        db_size_bytes: u64,
        raw_counts: &Vec<(String, u64)>,
        target_count: u64,
        spotter_count: u64,
    ) -> (out: GqlStats)
        ensures
            out.total_plans == total_plans,
            out.db_size_bytes == db_size_bytes,
            out.marker_placements == (GqlMarkerPlacementStats {
                targets: target_count,
                spotters: spotter_count,
            }),
            out.gun_placements@.len() == raw_counts@.len(),
            forall|i: int|
                0 <= i < raw_counts@.len() ==> shows_placements(
                    #[trigger] out.gun_placements@[i],
                    raw_counts@[i].0@,
                    raw_counts@[i].1,
                    assets,
                ),
            out.gun_placement_totals.colonial == side_total(
                out.gun_placements@,
                GqlFaction::Colonial,
                raw_counts@.len() as int,
            ),
            out.gun_placement_totals.warden == side_total(
                out.gun_placements@,
                GqlFaction::Warden,
                raw_counts@.len() as int,
            ),
            out.gun_placement_totals.total == side_total(
                out.gun_placements@,
                GqlFaction::Both,
                raw_counts@.len() as int,
            ),
    {
        let mut gun_placements: Vec<GqlWeaponPlacementStat> = Vec::new();
        let mut i: usize = 0;
        while i < raw_counts.len()
            invariant
                i <= raw_counts.len(),
                gun_placements@.len() == i,
                forall|j: int|
                    0 <= j < i ==> shows_placements(
                        #[trigger] gun_placements@[j],
                        raw_counts@[j].0@,
                        raw_counts@[j].1,
                        assets,
                    ),
            decreases raw_counts.len() - i,
        {
            let entry = placement_stat(raw_counts[i].0.as_str(), raw_counts[i].1, assets);
            gun_placements.push(entry);
            i += 1;
        }
        let totals = placement_totals(&gun_placements);
        GqlStats {
            total_plans,
            db_size_bytes,
            gun_placements,
            gun_placement_totals: totals,
            marker_placements: GqlMarkerPlacementStats {
                targets: target_count,
                spotters: spotter_count,
            },
        }
    }
}

impl PositionField {
    /// The name of the list in a request.
    pub open spec fn name(self) -> Seq<char> {
        match self {
            PositionField::Gun => "gun_positions"@,
            PositionField::Target => "target_positions"@,
            PositionField::Spotter => "spotter_positions"@,
        }
    }
}

/// The name of the element at `index` of a list, such as `gun_positions[3]`.
pub open spec fn element_name(list: Seq<char>, index: usize) -> Seq<char> {
    list + "["@ + decimal(index as nat) + "]"@
}

/// The text of a fault. `subject` is the identifier that the request named, for the
/// faults that speak of one.
pub open spec fn message_of(e: PlanError, subject: Seq<char>) -> Seq<char> {
    match e {
        PlanError::NameTooLong => "Plan name must be 200 characters or fewer"@,
        PlanError::UnknownMap => "Unknown map: "@ + subject,
        PlanError::UnknownWeapon { index } => "Unknown weapon: "@ + subject,
        PlanError::NotFinite { field, index } => element_name(field.name(), index)
            + ": coordinates must be finite numbers"@,
        PlanError::OutOfBounds { field, index } => element_name(field.name(), index)
            + ": coordinates out of bounds (x: 0..2184, y: 0..1890)"@,
        PlanError::NegativeIndex { position } => element_name("gun_target_indices"@, position)
            + ": index must be non-negative"@,
        PlanError::IndexOutOfBounds { position, index, target_count } => element_name(
            "gun_target_indices"@,
            position,
        ) + ": index "@ + (if index < 0 {
            "-"@ + decimal((-index) as nat)
        } else {
            decimal(index as nat)
        }) + " out of bounds (target count: "@ + decimal(target_count as nat) + ")"@,
        PlanError::WindDirection => "wind_direction must be a finite number in range [0, 360)"@,
        PlanError::WindStrength => "wind_strength must be between 0 and 5"@,
    }
}

/// Starts a text with the name of the element at `index` of a list.
fn element_text(list: &str, index: usize) -> (s: String)
    ensures
        s@ == element_name(list@, index),
{
    let mut s = String::from_str(list);
    s.append("[");
    push_decimal(&mut s, index as u64);
    s.append("]");
    s
}

impl PositionField {
    /// The name of the list in a request.
    pub fn as_text(&self) -> (s: &'static str)
        ensures
            s@ == self.name(),
    {
        match self {
            PositionField::Gun => "gun_positions",
            PositionField::Target => "target_positions",
            PositionField::Spotter => "spotter_positions",
        }
    }
}

impl PlanError {
    /// The text of the fault. `subject` is the identifier that the request named, for
    /// the faults that speak of one.
    pub fn message(&self, subject: &str) -> (s: String)
        ensures
            s@ == message_of(*self, subject@),
    {
        match *self {
            PlanError::NameTooLong => String::from_str("Plan name must be 200 characters or fewer"),
            PlanError::UnknownMap => {
                let mut s = String::from_str("Unknown map: ");
                s.append(subject);
                s
            },
            PlanError::UnknownWeapon { index } => {
                let mut s = String::from_str("Unknown weapon: ");
                s.append(subject);
                s
            },
            PlanError::NotFinite { field, index } => {
                let mut s = element_text(field.as_text(), index);
                s.append(": coordinates must be finite numbers");
                s
            },
            PlanError::OutOfBounds { field, index } => {
                let mut s = element_text(field.as_text(), index);
                s.append(": coordinates out of bounds (x: 0..2184, y: 0..1890)");
                s
            },
            PlanError::NegativeIndex { position } => {
                let mut s = element_text("gun_target_indices", position);
                s.append(": index must be non-negative");
                s
            },
            PlanError::IndexOutOfBounds { position, index, target_count } => {
                let mut s = element_text("gun_target_indices", position);
                s.append(": index ");
                if index < 0 {
                    s.append("-");
                    push_decimal(&mut s, (-(index as i64)) as u64);
                } else {
                    push_decimal(&mut s, index as u64);
                }
                s.append(" out of bounds (target count: ");
                push_decimal(&mut s, target_count as u64);
                s.append(")");
                s
            },
            PlanError::WindDirection => String::from_str(
                "wind_direction must be a finite number in range [0, 360)",
            ),
            PlanError::WindStrength => String::from_str("wind_strength must be between 0 and 5"),
        }
    }
}

} // verus!
