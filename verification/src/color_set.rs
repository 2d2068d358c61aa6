//! Shade ramps: the shades of one color in order, lightest first.

use crate::color::{color_eq, is_white, same_color, white};
use bevy::color::Color;
use vstd::prelude::*;
use vstd::std_specs::cmp::PartialEqSpecImpl;
use vstd::std_specs::convert::FromSpecImpl;

verus! {

/// The darkest level of the scale. Levels run from 0 to this value.
pub const FULL_SCALE: u32 = 1000;

/// Position that `level` selects in a ramp of `count` shades. The scale 0..=1000 is
/// laid linearly over the positions 0..=count-1, the fraction is dropped, and the
/// result is clamped to 0..=count.
///
/// The upper clamp is `count`, one past the last position, not `count - 1`. A level
/// of at most 1000 never gets that far (see [`lemma_scale_stays_inside`]); a higher
/// level can.
pub open spec fn shade_index(count: nat, level: nat) -> nat {
    let scaled = (count - 1) * level / 1000;
    if scaled < 0 {
        0
    } else if scaled > count {
        count
    } else {
        scaled as nat
    }
}

/// Shades of one color, sorted from lightest to darkest. An empty ramp is valid and
/// shows as white.
#[derive(Debug)]
pub struct ColorSet {
    pub shades: Vec<Color>,
}

impl View for ColorSet {
    type V = Seq<Color>;

    open spec fn view(&self) -> Seq<Color> {
        self.shades@
    }
}

impl ColorSet {
    /// Whether `level` selects a position inside the ramp. An empty ramp takes every
    /// level.
    pub open spec fn reaches(&self, level: nat) -> bool {
        self@.len() == 0 || shade_index(self@.len(), level) < self@.len()
    }

    /// The shade that `level` selects, or `None` for an empty ramp. Meaningful where
    /// [`Self::reaches`] holds.
    pub open spec fn shade_for(&self, level: nat) -> Option<Color> {
        if self@.len() == 0 {
            None
        } else {
            Some(self@[shade_index(self@.len(), level) as int])
        }
    }

    /// The position that `level` selects, clamped to the number of shades.
    pub fn position(&self, level: u32) -> (i: usize)
        ensures
            i == shade_index(self@.len(), level as nat),
    {
        let n = self.shades.len();
        if n == 0 {
            return 0;
        }
        let span: u128 = (n - 1) as u128;
        let wide: u128 = level as u128;
        assert(0 <= span * wide <= 0xFFFF_FFFF_FFFF_FFFF * 0xFFFF_FFFF) by (nonlinear_arith)
            requires
                span <= 0xFFFF_FFFF_FFFF_FFFF,
                wide <= 0xFFFF_FFFF,
        ;
        let scaled: u128 = span * wide / 1000;
        if scaled > n as u128 {
            n
        } else {
            scaled as usize
        }
    }

    /// Tells whether [`Self::get_val`] may be called with `level`.
    pub fn accepts(&self, level: u32) -> (ok: bool)
        ensures
            ok == self.reaches(level as nat),
    {
        let n = self.shades.len();
        n == 0 || self.position(level) < n
    }

    /// The shade at level `x`; white if the ramp is empty.
    ///
    /// Every level from 0 to 1000 is accepted. A higher level is accepted as long as
    /// the position it selects is still inside the ramp.
    pub fn get_val(&self, x: u32) -> (c: Color)
        requires
            self.reaches(x as nat),
        ensures
            match self.shade_for(x as nat) {
                Some(shade) => c == shade,
                None => is_white(c),
            },
            self@.len() > 0 ==> self@.contains(c),
            x == 0 && self@.len() > 0 ==> c == self@.first(),
            x == 1000 && self@.len() > 0 ==> c == self@.last(),
    {
        if self.shades.len() == 0 {
            return white();
        }
        let i = self.position(x);
        proof {
            lemma_endpoints(self@.len());
        }
        self.shades[i]
    }

    /// The shade at position `i`, or white unless another shade follows it. The last
    /// shade of a ramp is therefore never handed out, and a ramp of one shade
    /// always gives white.
    pub fn get_index(&self, i: usize) -> (c: Color)
        ensures
            i + 1 >= self@.len() ==> is_white(c),
            i + 1 < self@.len() ==> c == self@[i as int],
    {
        let n = self.shades.len();
        if n == 0 || i >= n - 1 {
            return white();
        }
        self.shades[i]
    }
}

impl Clone for ColorSet {
    /// A ramp of the same shades.
    fn clone(&self) -> (copy: Self)
        ensures
            copy@ == self@,
    {
        let copy = ColorSet { shades: self.shades.clone() };
        assert(copy@ =~= self@);
        copy
    }
}

impl PartialEqSpecImpl for ColorSet {
    open spec fn obeys_eq_spec() -> bool {
        true
    }

    /// Two ramps are equal when they are equally long and Bevy's `==` holds of
    /// their shades, position by position.
    open spec fn eq_spec(&self, other: &ColorSet) -> bool {
        &&& self@.len() == other@.len()
        &&& forall|i: int| 0 <= i < self@.len() ==> same_color(self@[i], other@[i])
    }
}

impl PartialEq for ColorSet {
    fn eq(&self, other: &Self) -> (equal: bool) {
        let n = self.shades.len();
        if n != other.shades.len() {
            return false;
        }
        let mut i: usize = 0;
        while i < n
            invariant
                i <= n,
                n == self@.len(),
                n == other@.len(),
                forall|j: int| 0 <= j < i ==> same_color(self@[j], other@[j]),
            decreases n - i,
        {
            if !color_eq(&self.shades[i], &other.shades[i]) {
                return false;
            }
            i += 1;
        }
        true
    }
}

impl Default for ColorSet {
    /// The empty ramp.
    fn default() -> (set: Self)
        ensures
            set@ == Seq::<Color>::empty(),
    {
        ColorSet { shades: Vec::new() }
    }
}

/// A ramp built from one color holds a list made on the spot, which no
/// specification can name. What `from` returns is therefore stated on `from`
/// itself, by the shades of the result.
impl FromSpecImpl<Color> for ColorSet {
    open spec fn obeys_from_spec() -> bool {
        false
    }

    open spec fn from_spec(value: Color) -> Self {
        arbitrary()
    }
}

impl From<Color> for ColorSet {
    /// A ramp of the one shade `value`.
    fn from(value: Color) -> (set: Self)
        ensures
            set@ == seq![value],
    {
        ColorSet { shades: vec![value] }
    }
}

impl FromSpecImpl<Vec<Color>> for ColorSet {
    open spec fn obeys_from_spec() -> bool {
        true
    }

    open spec fn from_spec(value: Vec<Color>) -> Self {
        ColorSet { shades: value }
    }
}

impl From<Vec<Color>> for ColorSet {
    /// The ramp of the given shades, in their order.
    fn from(value: Vec<Color>) -> (set: Self)
        ensures
            set@ == value@,
    {
        ColorSet { shades: value }
    }
}

/// Level 0 selects the first position and level 1000 the last.
pub proof fn lemma_endpoints(count: nat)
    requires
        count > 0,
    ensures
        shade_index(count, 0) == 0,
        shade_index(count, 1000) == count - 1,
{
}

/// Level 500 selects the middle position, rounded down.
pub proof fn lemma_midpoint(count: nat)
    requires
        count > 0,
    ensures
        shade_index(count, 500) == (count - 1) / 2,
{
}

/// A level of the scale selects a position inside any ramp that is not empty, so the
/// upper clamp never shows for levels up to 1000.
pub proof fn lemma_scale_stays_inside(count: nat, level: nat)
    requires
        count > 0,
        level <= 1000,
    ensures
        shade_index(count, level) < count,
{
    assert((count - 1) * level <= (count - 1) * 1000) by (nonlinear_arith)
        requires
            count > 0,
            level <= 1000,
    ;
    assert(0 <= (count - 1) * level) by (nonlinear_arith)
        requires
            count > 0,
    ;
}

/// Every ramp takes every level of the scale, and answers with one of its shades
/// unless it is empty.
pub proof fn lemma_scale_is_accepted(set: ColorSet, level: nat)
    requires
        level <= 1000,
    ensures
        set.reaches(level),
        set@.len() > 0 ==> set.shade_for(level) is Some && set@.contains(
            set.shade_for(level)->0,
        ),
        set@.len() == 0 <==> set.shade_for(level) is None,
{
    if set@.len() > 0 {
        lemma_scale_stays_inside(set@.len(), level);
    }
}

/// A ramp of one shade gives that shade at every level, also above 1000.
pub proof fn lemma_single_shade(set: ColorSet, color: Color, level: nat)
    requires
        set@ == seq![color],
    ensures
        set.reaches(level),
        set.shade_for(level) == Some(color),
{
    let count = set@.len();
    assert((count - 1) * level == 0) by (nonlinear_arith)
        requires
            count == 1,
    ;
}

} // verus!
