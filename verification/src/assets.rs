//! The catalogue of maps and weapons, and lookups in it.

use vstd::prelude::*;
use vstd::string::StringExecFns;
use crate::models::{lowercase_of, slug_of, GameMap, Weapon};

verus! {

/// The catalogue: every map and every weapon.
pub struct Assets {
    pub maps: Vec<GameMap>,
    pub weapons: Vec<Weapon>,
}

/// The slug of a weapon: the slug of its name in lower case.
pub open spec fn weapon_slug(w: Weapon) -> Seq<char> {
    slug_of(lowercase_of(w.display_name@))
}

/// `i` is the first weapon with the given slug.
pub open spec fn is_first_weapon(weapons: Seq<Weapon>, slug: Seq<char>, i: int) -> bool {
    &&& 0 <= i < weapons.len()
    &&& weapon_slug(weapons[i]) == slug
    &&& forall|j: int| 0 <= j < i ==> weapon_slug(#[trigger] weapons[j]) != slug
}

/// No weapon has the given slug.
pub open spec fn no_weapon(weapons: Seq<Weapon>, slug: Seq<char>) -> bool {
    forall|j: int| 0 <= j < weapons.len() ==> weapon_slug(#[trigger] weapons[j]) != slug
}

/// `i` is the first map with the given file name.
pub open spec fn is_first_map(maps: Seq<GameMap>, file_name: Seq<char>, i: int) -> bool {
    &&& 0 <= i < maps.len()
    &&& maps[i].file_name@ == file_name
    &&& forall|j: int| 0 <= j < i ==> (#[trigger] maps[j]).file_name@ != file_name
}

/// No map has the given file name.
pub open spec fn no_map(maps: Seq<GameMap>, file_name: Seq<char>) -> bool {
    forall|j: int| 0 <= j < maps.len() ==> (#[trigger] maps[j]).file_name@ != file_name
}

impl Assets {
    /// The index of the first weapon with the given slug.
    pub fn weapon_index(&self, slug: &str) -> (found: Option<usize>)
        ensures
            match found {
                Some(i) => is_first_weapon(self.weapons@, slug@, i as int),
                None => no_weapon(self.weapons@, slug@),
            },
    {
        let wanted = String::from_str(slug);
        let mut i: usize = 0;
        while i < self.weapons.len()
            invariant
                i <= self.weapons.len(),
                wanted@ == slug@,
                forall|j: int| 0 <= j < i ==> weapon_slug(#[trigger] self.weapons@[j]) != slug@,
            decreases self.weapons.len() - i,
        {
            let s = self.weapons[i].slug();
            if s == wanted {
                return Some(i);
            }
            i += 1;
        }
        None
    }

    /// The first weapon with the given slug.
    pub fn find_weapon_by_slug(&self, slug: &str) -> (found: Option<&Weapon>)
        ensures
            match found {
                Some(w) => exists|i: int|
                    is_first_weapon(self.weapons@, slug@, i) && *w == self.weapons@[i],
                None => no_weapon(self.weapons@, slug@),
            },
    {
        match self.weapon_index(slug) {
            Some(i) => Some(&self.weapons[i]),
            None => None,
        }
    }

    /// The index of the first map with the given file name.
    pub fn map_index(&self, file_name: &str) -> (found: Option<usize>)
        ensures
            match found {
                Some(i) => is_first_map(self.maps@, file_name@, i as int),
                None => no_map(self.maps@, file_name@),
            },
    {
        let wanted = String::from_str(file_name);
        let mut i: usize = 0;
        while i < self.maps.len()
            invariant
                i <= self.maps.len(),
                wanted@ == file_name@,
                forall|j: int| 0 <= j < i ==> (#[trigger] self.maps@[j]).file_name@ != file_name@,
            decreases self.maps.len() - i,
        {
            if self.maps[i].file_name == wanted {
                return Some(i);
            }
            i += 1;
        }
        None
    }

    /// The first map with the given file name.
    pub fn find_map_by_file_name(&self, file_name: &str) -> (found: Option<&GameMap>)
        ensures
            match found {
                Some(m) => exists|i: int|
                    is_first_map(self.maps@, file_name@, i) && *m == self.maps@[i],
                None => no_map(self.maps@, file_name@),
            },
    {
        match self.map_index(file_name) {
            Some(i) => Some(&self.maps[i]),
            None => None,
        }
    }
}

} // verus!
