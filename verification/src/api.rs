//! What the planner exchanges with the service that stores plans and computes firing
//! solutions: the shape of the data, and the rules applied before sending and after
//! receiving.

use vstd::prelude::*;
use vstd::string::StringExecFns;

verus! {

/// Weapon identifier under which a gun without a weapon is counted.
pub const UNASSIGNED_WEAPON: &'static str = "unassigned";

/// A map as the catalogue lists it.
#[derive(Debug, Clone, PartialEq, Eq)]
pub struct MapData {
    pub display_name: String,
    pub file_name: String,
    pub active: bool,
}

/// A weapon as the catalogue lists it: lengths in thousandths of a metre.
#[derive(Debug, Clone, PartialEq, Eq)]
pub struct WeaponData {
    pub slug: String,
    pub faction: String,
    pub display_name: String,
    pub min_range: i64,
    pub max_range: i64,
    pub acc_radius_min: i64,
    pub acc_radius_max: i64,
    pub wind_drift_min: i64,
    pub wind_drift_max: i64,
}

/// A firing solution as the service reports it.
#[derive(Debug, Clone, Copy, PartialEq, Eq, Structural)]
pub struct FiringSolutionData {
    pub azimuth: i64,
    pub distance: i64,
    pub in_range: bool,
    pub accuracy_radius: i64,
    pub wind_adjusted_azimuth: Option<i64>,
    pub wind_adjusted_distance: Option<i64>,
    pub wind_offset_meters: Option<i64>,
}

/// A position in thousandths of a metre, as the service reports it.
#[derive(Debug, Clone, Copy, PartialEq, Eq, Structural)]
pub struct PositionData {
    pub x: i64,
    pub y: i64,
}

/// A stored plan as the service reports it.
#[derive(Debug, Clone)]
pub struct PlanData {
    pub id: String,
    pub name: String,
    pub map_id: String,
    pub weapon_ids: Vec<String>,
    pub gun_positions: Vec<PositionData>,
    pub target_positions: Vec<PositionData>,
    pub spotter_positions: Vec<PositionData>,
    pub gun_target_indices: Vec<Option<i32>>,
    pub wind_direction: Option<i64>,
    pub wind_strength: u32,
}

/// The catalogue's answer to a request for the weapons.
#[derive(Debug, Clone)]
pub struct WeaponsResponse {
    pub weapons: Vec<WeaponData>,
}

/// The service's answer to a request for a firing solution.
#[derive(Debug, Clone, Copy)]
pub struct CalculateResponse {
    pub calculate: FiringSolutionData,
}

/// The service's answer to a request to store a plan.
#[derive(Debug, Clone)]
pub struct CreatePlanResponse {
    pub create_plan: PlanData,
}

/// The service's answer to a request for a stored plan.
#[derive(Debug, Clone)]
pub struct FetchPlanResponse {
    pub plan: Option<PlanData>,
}

/// The catalogue's answer to a request for the maps.
#[derive(Debug, Clone, PartialEq, Eq)]
pub struct MapsResponse {
    pub maps: Vec<MapData>,
}

/// An error that the service reports.
#[derive(Debug, Clone, PartialEq, Eq)]
pub struct GraphQLError {
    pub message: String,
}

/// An answer of the service: data, errors, or both.
#[derive(Debug, Clone)]
pub struct GraphQLResponse<T> {
    pub data: Option<T>,
    pub errors: Option<Vec<GraphQLError>>,
}

/// The service's answer to a usage-tracking notification.
#[derive(Debug, Clone, Copy, PartialEq, Eq, Structural)]
pub struct TrackGunPlacementResponse {
    pub track_gun_placement: bool,
}

/// The address under which a stored plan can be opened.
pub open spec fn plan_url(origin: Seq<char>, plan_id: Seq<char>) -> Seq<char> {
    origin + "/plan/"@ + plan_id
}

/// The address under which the plan with the given identifier can be opened.
pub fn build_plan_url(origin: &str, plan_id: &str) -> (url: String)
    ensures
        url@ == plan_url(origin@, plan_id@),
{
    let mut url = String::from_str(origin);
    url.append("/plan/");
    url.append(plan_id);
    url
}

/// The outcome of an answer: the first error where it holds one, else the data, else a
/// note that no data came.
#[derive(Debug)]
pub enum Outcome<T> {
    Data(T),
    Failed(String),
    NoData,
}

/// Reads an answer of the service: the first error it reports wins over its data.
pub fn read_response<T>(response: GraphQLResponse<T>) -> (out: Outcome<T>)
    ensures
        match out {
            Outcome::Failed(message) => response.errors.is_some() && response.errors.unwrap()@.len()
                > 0 && message@ == response.errors.unwrap()@[0].message@,
            Outcome::Data(data) => !(response.errors.is_some() && response.errors.unwrap()@.len()
                > 0) && response.data == Some(data),
            Outcome::NoData => !(response.errors.is_some() && response.errors.unwrap()@.len() > 0)
                && response.data.is_none(),
        },
{
    match response.errors {
        Some(errors) => {
            if errors.len() > 0 {
                return Outcome::Failed(errors[0].message.clone());
            }
        },
        None => {},
    }
    match response.data {
        Some(data) => Outcome::Data(data),
        None => Outcome::NoData,
    }
}

/// The wind that a request for a firing solution carries: direction and strength where
/// both are given and the strength is above zero.
pub open spec fn wind_to_send(direction: Option<i64>, strength: Option<u32>) -> Option<(i64, u32)> {
    match (direction, strength) {
        (Some(d), Some(s)) => if s > 0 {
            Some((d, s))
        } else {
            None
        },
        _ => None,
    }
}

/// The wind that a request for a firing solution carries, if any.
pub fn request_wind(direction: Option<i64>, strength: Option<u32>) -> (wind: Option<(i64, u32)>)
    ensures
        wind == wind_to_send(direction, strength),
{
    match (direction, strength) {
        (Some(d), Some(s)) => {
            if s > 0 {
                Some((d, s))
            } else {
                None
            }
        },
        _ => None,
    }
}

/// The pairings of a loaded plan with `num_guns` guns and `num_targets` targets. A plan
/// that stores no pairings pairs gun `i` with target `i` as far as there are targets. A
/// stored pairing below zero counts as none.
pub open spec fn loaded_pairings(stored: Seq<Option<i32>>, num_guns: int, num_targets: int) -> Seq<
    Option<usize>,
> {
    if stored.len() == 0 {
        Seq::new(
            num_guns as nat,
            |i: int|
                if i < num_targets {
                    Some(i as usize)
                } else {
                    None
                },
        )
    } else {
        Seq::new(
            stored.len(),
            |i: int|
                match stored[i] {
                    Some(v) => if v >= 0 {
                        Some(v as usize)
                    } else {
                        None
                    },
                    None => None,
                },
        )
    }
}

/// The pairings of a loaded plan.
pub fn pairings_from_plan(stored: &Vec<Option<i32>>, num_guns: usize, num_targets: usize) -> (out:
    Vec<Option<usize>>)
    ensures
        out@ == loaded_pairings(stored@, num_guns as int, num_targets as int),
{
    let mut out: Vec<Option<usize>> = Vec::new();
    if stored.len() == 0 {
        let mut i: usize = 0;
        while i < num_guns
            invariant
                i <= num_guns,
                out@.len() == i,
                forall|j: int|
                    0 <= j < i ==> out@[j] == if j < num_targets {
                        Some(j as usize)
                    } else {
                        None::<usize>
                    },
            decreases num_guns - i,
        {
            out.push(
                if i < num_targets {
                    Some(i)
                } else {
                    None
                },
            );
            i += 1;
        }
    } else {
        let mut i: usize = 0;
        while i < stored.len()
            invariant
                i <= stored.len(),
                out@.len() == i,
                forall|j: int|
                    0 <= j < i ==> out@[j] == match stored@[j] {
                        Some(v) => if v >= 0 {
                            Some(v as usize)
                        } else {
                            None::<usize>
                        },
                        None => None,
                    },
            decreases stored.len() - i,
        {
            let entry: Option<usize> = match stored[i] {
                Some(v) => {
                    if v >= 0 {
                        Some(v as usize)
                    } else {
                        None
                    }
                },
                None => None,
            };
            out.push(entry);
            i += 1;
        }
    }
    assert(out@ =~= loaded_pairings(stored@, num_guns as int, num_targets as int));
    out
}

/// The weapon identifier under which a placed gun is counted: the weapon's own, or
/// [`UNASSIGNED_WEAPON`] for a gun without a weapon.
pub fn tracked_weapon_slug(weapon_slug: &str) -> (slug: String)
    ensures
        slug@ == if weapon_slug@.len() == 0 {
            UNASSIGNED_WEAPON@
        } else {
            weapon_slug@
        },
{
    if weapon_slug.unicode_len() == 0 {
        String::from_str(UNASSIGNED_WEAPON)
    } else {
        String::from_str(weapon_slug)
    }
}

/// Whether a weapon of the catalogue is offered to a side: the weapons of that side and
/// those of both.
pub open spec fn offered_to(w: WeaponData, side: Seq<char>) -> bool {
    w.faction@ == side || w.faction@ == "BOTH"@
}

/// The indices of the weapons among the first `upto` that are offered to a side, in
/// order.
pub open spec fn offered(weapons: Seq<WeaponData>, side: Seq<char>, upto: int) -> Seq<usize>
    decreases upto,
{
    if upto <= 0 {
        Seq::empty()
    } else if offered_to(weapons[upto - 1], side) {
        offered(weapons, side, upto - 1).push((upto - 1) as usize)
    } else {
        offered(weapons, side, upto - 1)
    }
}

/// The indices of the weapons that are offered to the side with the given name, such
/// as `COLONIAL`, in the order of the catalogue.
pub fn weapons_for_side(weapons: &Vec<WeaponData>, side: &str) -> (list: Vec<usize>)
    ensures
        list@ == offered(weapons@, side@, weapons@.len() as int),
{
    let wanted = String::from_str(side);
    let both = String::from_str("BOTH");
    let mut list: Vec<usize> = Vec::new();
    let mut i: usize = 0;
    while i < weapons.len()
        invariant
            i <= weapons.len(),
            wanted@ == side@,
            both@ == "BOTH"@,
            list@ == offered(weapons@, side@, i as int),
        decreases weapons.len() - i,
    {
        if weapons[i].faction == wanted || weapons[i].faction == both {
            list.push(i);
        }
        i += 1;
    }
    list
}

} // verus!
