//! A role's colors: one text color and the ramp behind it.

use crate::color::{color_eq, is_white, same_color};
use crate::color_set::ColorSet;
use bevy::color::Color;
use vstd::prelude::*;
use vstd::std_specs::cmp::{PartialEqSpec, PartialEqSpecImpl};

verus! {

/// Pair of a shade ramp and one text color.
#[derive(Debug)]
pub struct ColorPair {
    pub text: Color,
    pub base: ColorSet,
}

impl Clone for ColorPair {
    /// A pair of the same text color over the same shades.
    fn clone(&self) -> (copy: Self)
        ensures
            copy.text == self.text,
            copy.base@ == self.base@,
    {
        ColorPair { text: self.text, base: self.base.clone() }
    }
}

impl PartialEqSpecImpl for ColorPair {
    open spec fn obeys_eq_spec() -> bool {
        true
    }

    /// Two pairs are equal when Bevy's `==` holds of their text colors and their
    /// ramps are equal.
    open spec fn eq_spec(&self, other: &ColorPair) -> bool {
        same_color(self.text, other.text) && PartialEqSpec::eq_spec(&self.base, &other.base)
    }
}

impl PartialEq for ColorPair {
    fn eq(&self, other: &Self) -> (equal: bool) {
        color_eq(&self.text, &other.text) && self.base == other.base
    }
}

impl Default for ColorPair {
    /// The engine's default text color, which is white, over an empty ramp.
    fn default() -> (pair: Self)
        ensures
            is_white(pair.text),
            pair.base@ == Seq::<Color>::empty(),
    {
        ColorPair { text: Color::default(), base: ColorSet::default() }
    }
}

} // verus!
