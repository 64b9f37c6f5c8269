//! Reference data and plans: factions, weapons, maps, positions, wind, firing solutions
//! and stored plans. Lengths are in thousandths of a metre, angles in thousandths of a
//! degree.

use vstd::prelude::*;
use vstd::string::StringExecFns;
use crate::text::push_char;
use crate::units::in_domain;

verus! {

/// The side that fields a weapon.
#[derive(Debug, Clone, Copy, PartialEq, Eq, Structural)]
pub enum Faction {
    Colonial,
    Warden,
    Both,
}

impl Faction {
    /// The name of the faction.
    pub open spec fn name(self) -> Seq<char> {
        match self {
            Faction::Colonial => "Colonial"@,
            Faction::Warden => "Warden"@,
            Faction::Both => "Both"@,
        }
    }

    /// The name of the faction as text.
    pub fn to_text(&self) -> (s: String)
        ensures
            s@ == self.name(),
    {
        match self {
            Faction::Colonial => String::from_str("Colonial"),
            Faction::Warden => String::from_str("Warden"),
            Faction::Both => String::from_str("Both"),
        }
    }
}

/// A weapon of the catalogue: its range, its accuracy radius at the least and at the
/// greatest range, and its wind drift at both.
#[derive(Debug, Clone)]
pub struct Weapon {
    pub faction: Faction,
    pub display_name: String,
    pub min_range: i64,
    pub max_range: i64,
    pub acc_radius: [i64; 2],
    pub wind_drift: [i64; 2],
}

/// A map of the catalogue.
#[derive(Debug, Clone, PartialEq, Eq)]
pub struct GameMap {
    pub image_type: String,
    pub display_name: String,
    pub file_name: String,
    pub active: bool,
}

/// A position in the world.
#[derive(Debug, Clone, Copy, PartialEq, Eq, Structural)]
pub struct Position {
    pub x: i64,
    pub y: i64,
}

/// The wind: the compass direction it blows from, and its strength from 0 to 5.
#[derive(Debug, Clone, Copy, PartialEq, Eq, Structural)]
pub struct WindInput {
    pub direction: i64,
    pub strength: u8,
}

/// What a gun needs to hit a target: bearing and distance, whether the target is in
/// range, the accuracy radius there, and the same bearing and distance corrected for
/// wind together with the drift that was corrected.
#[derive(Debug, Clone, Copy, PartialEq, Eq, Structural)]
pub struct FiringSolution {
    pub azimuth: i64,
    pub distance: i64,
    pub in_range: bool,
    pub accuracy_radius: i64,
    pub wind_adjusted_azimuth: Option<i64>,
    pub wind_adjusted_distance: Option<i64>,
    pub wind_offset_meters: Option<i64>,
}

/// A stored plan. The three single positions are what older plans hold in place of the
/// lists.
#[derive(Debug, Clone)]
pub struct Plan {
    pub id: String,
    pub name: String,
    pub map_id: String,
    pub weapon_ids: Vec<String>,
    pub gun_position: Option<Position>,
    pub target_position: Option<Position>,
    pub spotter_position: Option<Position>,
    pub gun_positions: Vec<Position>,
    pub target_positions: Vec<Position>,
    pub spotter_positions: Vec<Position>,
    pub gun_target_indices: Vec<Option<u32>>,
    pub wind_direction: Option<i64>,
    pub wind_strength: u8,
    pub created_at: String,
    pub updated_at: String,
}

impl Position {
    /// Both coordinates lie in the coordinate domain.
    pub open spec fn wf(self) -> bool {
        in_domain(self.x as int) && in_domain(self.y as int)
    }

    /// The position as a pair.
    pub open spec fn pair(self) -> (i64, i64) {
        (self.x, self.y)
    }
}

impl Weapon {
    /// Ranges and accuracy radii lie in the coordinate domain.
    pub open spec fn wf(&self) -> bool {
        &&& in_domain(self.min_range as int)
        &&& in_domain(self.max_range as int)
        &&& in_domain(self.acc_radius[0] as int)
        &&& in_domain(self.acc_radius[1] as int)
    }
}

/// The list after a single position of an older plan was promoted into it: the single
/// position alone where the list is empty and there is one, else the list.
pub open spec fn promoted(list: Seq<Position>, single: Option<Position>) -> Seq<Position> {
    match single {
        Some(p) => if list.len() == 0 {
            seq![p]
        } else {
            list
        },
        None => list,
    }
}

/// The single position after promotion: taken where the list was empty.
pub open spec fn after_promotion(list: Seq<Position>, single: Option<Position>) -> Option<
    Position,
> {
    if list.len() == 0 {
        None
    } else {
        single
    }
}

/// Promotes a single position into its list.
fn promote(list: &mut Vec<Position>, single: &mut Option<Position>)
    ensures
        final(list)@ == promoted(old(list)@, *old(single)),
        *final(single) == after_promotion(old(list)@, *old(single)),
{
    if list.len() == 0 {
        match *single {
            Some(p) => {
                list.push(p);
                assert(list@ =~= seq![p]);
            },
            None => {},
        }
        *single = None;
    }
}

impl Plan {
    /// Promotes the single positions of an older plan into the lists that are empty.
    /// Everything else stays as it is.
    pub fn migrate(&mut self)
        ensures
            final(self).gun_positions@ == promoted(old(self).gun_positions@, old(self).gun_position),
            final(self).target_positions@ == promoted(
                old(self).target_positions@,
                old(self).target_position,
            ),
            final(self).spotter_positions@ == promoted(
                old(self).spotter_positions@,
                old(self).spotter_position,
            ),
            final(self).gun_position == after_promotion(
                old(self).gun_positions@,
                old(self).gun_position,
            ),
            final(self).target_position == after_promotion(
                old(self).target_positions@,
                old(self).target_position,
            ),
            final(self).spotter_position == after_promotion(
                old(self).spotter_positions@,
                old(self).spotter_position,
            ),
            final(self).id == old(self).id,
            final(self).name == old(self).name,
            final(self).map_id == old(self).map_id,
            final(self).weapon_ids == old(self).weapon_ids,
            final(self).gun_target_indices == old(self).gun_target_indices,
            final(self).wind_direction == old(self).wind_direction,
            final(self).wind_strength == old(self).wind_strength,
            final(self).created_at == old(self).created_at,
            final(self).updated_at == old(self).updated_at,
    {
        promote(&mut self.gun_positions, &mut self.gun_position);
        promote(&mut self.target_positions, &mut self.target_position);
        promote(&mut self.spotter_positions, &mut self.spotter_position);
    }
}

/// The lower-case form of a text, as `str::to_lowercase` gives it.
pub uninterp spec fn lowercase_of(s: Seq<char>) -> Seq<char>;

/// Whether a character is a letter or a digit, as `char::is_alphanumeric` tells it.
pub uninterp spec fn alphanumeric(c: char) -> bool;

/// The lower-case form of `s`. Wraps `str::to_lowercase`, which returns the lower-case
/// equivalent of the text as a new string; the contract names that result.
#[verifier::external_body]
fn lowercase(s: &str) -> (out: String)
    ensures
        out@ == lowercase_of(s@),
{
    s.to_lowercase()
}

/// Whether `c` is a letter or a digit. Wraps `char::is_alphanumeric`; the contract names
/// its result.
#[verifier::external_body]
fn is_alphanumeric(c: char) -> (b: bool)
    ensures
        b == alphanumeric(c),
{
    c.is_alphanumeric()
}

/// The slug of a text: its runs of letters and digits, joined by single hyphens.
pub open spec fn slug_of(s: Seq<char>) -> Seq<char>
    decreases s.len(),
{
    if s.len() == 0 {
        Seq::empty()
    } else if !alphanumeric(s.last()) {
        slug_of(s.drop_last())
    } else if s.len() >= 2 && !alphanumeric(s[s.len() - 2]) && slug_of(s.drop_last()).len() > 0 {
        slug_of(s.drop_last()).push('-').push(s.last())
    } else {
        slug_of(s.drop_last()).push(s.last())
    }
}

/// The slug of a text that is in lower case already.
pub fn slug_from_lowercase(lower: &str) -> (slug: String)
    ensures
        slug@ == slug_of(lower@),
{
    let n: usize = lower.unicode_len();
    let mut slug = String::new();
    let mut gap: bool = false;
    let mut i: usize = 0;
    while i < n
        invariant
            i <= n,
            n == lower@.len(),
            slug@ == slug_of(lower@.subrange(0, i as int)),
            gap == (i > 0 && !alphanumeric(lower@[i - 1])),
        decreases n - i,
    {
        let c: char = lower.get_char(i);
        let ghost before = lower@.subrange(0, i as int);
        let ghost now = lower@.subrange(0, i + 1);
        proof {
            assert(now.drop_last() =~= before);
            assert(now.last() == c);
            if i > 0 {
                assert(now[now.len() - 2] == lower@[i - 1]);
            }
        }
        if is_alphanumeric(c) {
            if gap && slug.as_str().unicode_len() > 0 {
                push_char(&mut slug, '-');
            }
            push_char(&mut slug, c);
            gap = false;
        } else {
            gap = true;
        }
        i += 1;
    }
    assert(lower@.subrange(0, n as int) =~= lower@);
    slug
}

impl Weapon {
    /// The identifier of the weapon in addresses: the slug of its name in lower case.
    pub fn slug(&self) -> (slug: String)
        ensures
            slug@ == slug_of(lowercase_of(self.display_name@)),
    {
        let lower = lowercase(self.display_name.as_str());
        slug_from_lowercase(lower.as_str())
    }
}

} // verus!
