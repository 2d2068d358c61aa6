//! Named color pairs for roles outside the fixed eight.

use crate::color_pair::ColorPair;
use bevy::utils::HashMap;
use vstd::prelude::*;

verus! {

/// The custom roles of a theme: color pairs under unique names, kept in Bevy's hash
/// map. The map itself is out of the verifier's sight; what it holds is
/// [`custom_pairs`].
#[verifier::external_body]
pub struct CustomColors {
    map: HashMap<String, ColorPair>,
}

/// What the map holds: each name, as its characters, with the pair stored under it.
pub uninterp spec fn custom_pairs(colors: CustomColors) -> Map<Seq<char>, ColorPair>;

/// `HashMap::default` of hashbrown, under Bevy's alias. Assumed: the new map holds
/// nothing.
#[verifier::external_body]
fn map_empty() -> (colors: CustomColors)
    ensures
        custom_pairs(colors) =~= Map::empty(),
{
    CustomColors { map: HashMap::default() }
}

/// `HashMap::insert` of hashbrown. Assumed: afterwards the map holds `pair` under
/// `name` and is otherwise unchanged, and the pair that stood under `name` before,
/// if any, is returned.
#[verifier::external_body]
fn map_insert(colors: &mut CustomColors, name: String, pair: ColorPair) -> (previous: Option<
    ColorPair,
>)
    ensures
        custom_pairs(*final(colors)) == custom_pairs(*old(colors)).insert(name@, pair),
        previous == (if custom_pairs(*old(colors)).contains_key(name@) {
            Some(custom_pairs(*old(colors))[name@])
        } else {
            None
        }),
{
    colors.map.insert(name, pair)
}

/// `HashMap::get` of hashbrown. Assumed: the pair stored under `name` is returned,
/// and `None` if the map has no such name.
#[verifier::external_body]
fn map_get<'a>(colors: &'a CustomColors, name: &str) -> (found: Option<&'a ColorPair>)
    ensures
        found == (if custom_pairs(*colors).contains_key(name@) {
            Some(&custom_pairs(*colors)[name@])
        } else {
            None
        }),
{
    colors.map.get(name)
}

impl View for CustomColors {
    type V = Map<Seq<char>, ColorPair>;

    open spec fn view(&self) -> Map<Seq<char>, ColorPair> {
        custom_pairs(*self)
    }
}

impl CustomColors {
    /// No custom roles.
    pub fn new() -> (colors: Self)
        ensures
            colors@ =~= Map::empty(),
    {
        map_empty()
    }

    /// Stores `pair` under `name`, replacing and returning what the name held.
    pub fn insert(&mut self, name: String, pair: ColorPair) -> (previous: Option<ColorPair>)
        ensures
            final(self)@ == old(self)@.insert(name@, pair),
            previous == (if old(self)@.contains_key(name@) {
                Some(old(self)@[name@])
            } else {
                None
            }),
    {
        map_insert(self, name, pair)
    }

    /// The pair stored under `name`, if there is one.
    pub fn get(&self, name: &str) -> (found: Option<&ColorPair>)
        ensures
            found == (if self@.contains_key(name@) {
                Some(&self@[name@])
            } else {
                None
            }),
    {
        map_get(self, name)
    }
}

impl Default for CustomColors {
    fn default() -> (colors: Self)
        ensures
            colors@ =~= Map::empty(),
    {
        map_empty()
    }
}

} // verus!
