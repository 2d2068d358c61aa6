//! The engine's color type, and the one color this library makes itself: white.

use bevy::color::Color;
use vstd::prelude::*;

verus! {

/// `bevy::color::Color`, taken as an opaque value. The library stores colors and
/// hands them out again; it never looks inside one.
#[verifier::external_type_specification]
#[verifier::external_body]
pub struct ExColor(Color);

/// Holds of the color that Bevy calls white: the value of the constant
/// `Color::WHITE`, which `Color::default()` returns as well. Nothing else is
/// assumed of it; in particular a ramp may hold a shade that is white too.
pub uninterp spec fn is_white(c: Color) -> bool;

/// The constant `bevy::color::Color::WHITE`. Assumed: the value it yields is white
/// in the sense of [`is_white`].
#[verifier::external_body]
pub(crate) fn white() -> (c: Color)
    ensures
        is_white(c),
{
    Color::WHITE
}

/// What Bevy's `==` answers for two colors. It compares the color spaces and then
/// the components, which are floating-point numbers, so a color need not be equal
/// to itself in this sense. Nothing is assumed of it.
pub uninterp spec fn same_color(a: Color, b: Color) -> bool;

/// `<Color as PartialEq>::eq`, which Bevy derives. Assumed: the answer depends on
/// the two colors alone; it is what [`same_color`] names.
#[verifier::external_body]
pub(crate) fn color_eq(a: &Color, b: &Color) -> (same: bool)
    ensures
        same == same_color(*a, *b),
{
    a.eq(b)
}

/// `<Color as Default>::default`, which Bevy defines as `Color::WHITE`. Assumed: the
/// default color is white.
pub assume_specification[ <Color as Default>::default ]() -> (c: Color)
    ensures
        is_white(c),
;

/// `<Color as Clone>::clone`, derived by Bevy for a `Copy` type. Assumed: the clone
/// is the color itself.
pub assume_specification[ <Color as Clone>::clone ](c: &Color) -> (r: Color)
    ensures
        r == *c,
;

} // verus!
