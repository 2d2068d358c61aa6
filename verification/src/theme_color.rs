//! Selectors: what a widget carries in place of a color, and how a theme turns
//! one into a color.

use crate::color::{is_white, white};
use crate::color_pair::ColorPair;
use crate::color_set::{lemma_midpoint, lemma_scale_stays_inside};
use crate::theme::{Role, Theme};
use bevy::color::Color;
use vstd::prelude::*;
use vstd::std_specs::cmp::{PartialEqSpec, PartialEqSpecImpl};

verus! {

/// The shade level of the default selector.
pub const DEFAULT_SHADE: u32 = 500;

/// The conventional stops of the shade scale, lightest first.
pub const STOPS: [u32; 10] = [50, 100, 200, 300, 400, 500, 600, 700, 800, 900];

/// Color selector from theme: a role, or a named or embedded pair, with a shade
/// level. It owns no theme and is resolved against whichever theme is active.
#[derive(Debug)]
pub enum ThemeColor {
    Primary(u32),
    Secondary(u32),
    Tertiary(u32),
    Info(u32),
    Warning(u32),
    Success(u32),
    Error(u32),
    Surface(u32),
    /// A custom role of the theme, by name.
    Custom(String, u32),
    /// A pair of its own, tied to no theme.
    Unique(ColorPair, u32),
}

impl ThemeColor {
    /// The selector of `role` at `shade`.
    pub open spec fn spec_fixed(role: Role, shade: u32) -> ThemeColor {
        match role {
            Role::Primary => ThemeColor::Primary(shade),
            Role::Secondary => ThemeColor::Secondary(shade),
            Role::Tertiary => ThemeColor::Tertiary(shade),
            Role::Info => ThemeColor::Info(shade),
            Role::Warning => ThemeColor::Warning(shade),
            Role::Success => ThemeColor::Success(shade),
            Role::Error => ThemeColor::Error(shade),
            Role::Surface => ThemeColor::Surface(shade),
        }
    }

    /// The selector of `role` at `shade`.
    #[verifier::when_used_as_spec(spec_fixed)]
    pub fn fixed(role: Role, shade: u32) -> (selector: ThemeColor)
        ensures
            selector == Self::spec_fixed(role, shade),
    {
        match role {
            Role::Primary => ThemeColor::Primary(shade),
            Role::Secondary => ThemeColor::Secondary(shade),
            Role::Tertiary => ThemeColor::Tertiary(shade),
            Role::Info => ThemeColor::Info(shade),
            Role::Warning => ThemeColor::Warning(shade),
            Role::Success => ThemeColor::Success(shade),
            Role::Error => ThemeColor::Error(shade),
            Role::Surface => ThemeColor::Surface(shade),
        }
    }

    /// The shade level that the selector carries.
    pub open spec fn level(&self) -> u32 {
        match *self {
            ThemeColor::Primary(shade) => shade,
            ThemeColor::Secondary(shade) => shade,
            ThemeColor::Tertiary(shade) => shade,
            ThemeColor::Info(shade) => shade,
            ThemeColor::Warning(shade) => shade,
            ThemeColor::Success(shade) => shade,
            ThemeColor::Error(shade) => shade,
            ThemeColor::Surface(shade) => shade,
            ThemeColor::Custom(_, shade) => shade,
            ThemeColor::Unique(_, shade) => shade,
        }
    }

    /// The shade level that the selector carries.
    pub fn shade(&self) -> (shade: u32)
        ensures
            shade == self.level(),
    {
        match self {
            ThemeColor::Primary(shade) => *shade,
            ThemeColor::Secondary(shade) => *shade,
            ThemeColor::Tertiary(shade) => *shade,
            ThemeColor::Info(shade) => *shade,
            ThemeColor::Warning(shade) => *shade,
            ThemeColor::Success(shade) => *shade,
            ThemeColor::Error(shade) => *shade,
            ThemeColor::Surface(shade) => *shade,
            ThemeColor::Custom(_, shade) => *shade,
            ThemeColor::Unique(_, shade) => *shade,
        }
    }

    /// The pair that the selector picks: the theme's pair for a role, the theme's
    /// custom pair of that name if it has one, or the selector's own pair.
    pub open spec fn selected<F, G>(&self, theme: &Theme<F, G>) -> Option<ColorPair> {
        match *self {
            ThemeColor::Primary(_) => Some(theme.primary),
            ThemeColor::Secondary(_) => Some(theme.secondary),
            ThemeColor::Tertiary(_) => Some(theme.tertiary),
            ThemeColor::Info(_) => Some(theme.info),
            ThemeColor::Warning(_) => Some(theme.warning),
            ThemeColor::Success(_) => Some(theme.success),
            ThemeColor::Error(_) => Some(theme.error),
            ThemeColor::Surface(_) => Some(theme.surface),
            ThemeColor::Custom(name, _) => if theme.custom@.contains_key(name@) {
                Some(theme.custom@[name@])
            } else {
                None
            },
            ThemeColor::Unique(pair, _) => Some(pair),
        }
    }

    /// Whether the carried level selects a shade of the picked pair, so that
    /// [`Self::resolve`] has an answer. A custom name that the theme lacks always
    /// resolves: to white.
    pub open spec fn resolvable<F, G>(&self, theme: &Theme<F, G>) -> bool {
        match self.selected(theme) {
            Some(pair) => pair.base.reaches(self.level() as nat),
            None => true,
        }
    }

    /// The shade that the selector resolves to, or `None` where the answer is
    /// white for want of a shade: the picked ramp is empty, or the theme has no
    /// custom pair of that name.
    pub open spec fn resolved<F, G>(&self, theme: &Theme<F, G>) -> Option<Color> {
        match self.selected(theme) {
            Some(pair) => pair.base.shade_for(self.level() as nat),
            None => None,
        }
    }

    /// The pair that the selector picks in `theme`. `None` only for a custom name
    /// that the theme does not have.
    pub fn select<'a, F, G>(&'a self, theme: &'a Theme<F, G>) -> (pair: Option<&'a ColorPair>)
        ensures
            pair == (match self.selected(theme) {
                Some(picked) => Some(&picked),
                None => None,
            }),
    {
        match self {
            ThemeColor::Primary(_) => Some(&theme.primary),
            ThemeColor::Secondary(_) => Some(&theme.secondary),
            ThemeColor::Tertiary(_) => Some(&theme.tertiary),
            ThemeColor::Info(_) => Some(&theme.info),
            ThemeColor::Warning(_) => Some(&theme.warning),
            ThemeColor::Success(_) => Some(&theme.success),
            ThemeColor::Error(_) => Some(&theme.error),
            ThemeColor::Surface(_) => Some(&theme.surface),
            ThemeColor::Custom(name, _) => theme.custom.get(name.as_str()),
            ThemeColor::Unique(pair, _) => Some(pair),
        }
    }

    /// Tells whether [`Self::resolve`] may be called with `theme`.
    pub fn can_resolve<F, G>(&self, theme: &Theme<F, G>) -> (ok: bool)
        ensures
            ok == self.resolvable(theme),
    {
        match self.select(theme) {
            Some(pair) => pair.base.accepts(self.shade()),
            None => true,
        }
    }

    /// The color that the selector stands for in `theme`: the shade of the picked
    /// pair's ramp at the carried level. White if that ramp is empty, and white
    /// for a custom name that the theme does not have.
    pub fn resolve<F, G>(&self, theme: &Theme<F, G>) -> (color: Color)
        requires
            self.resolvable(theme),
        ensures
            match self.resolved(theme) {
                Some(shade) => color == shade,
                None => is_white(color),
            },
    {
        match self.select(theme) {
            Some(pair) => pair.base.get_val(self.shade()),
            None => white(),
        }
    }
}

impl Clone for ThemeColor {
    /// A selector of the same role or name and level; an embedded pair is cloned.
    fn clone(&self) -> (copy: Self)
        ensures
            !(self is Unique) ==> copy == *self,
            self matches ThemeColor::Unique(pair, shade) ==> (copy matches ThemeColor::Unique(
                other,
                level,
            ) && other.text == pair.text && other.base@ == pair.base@ && level == shade),
    {
        match self {
            ThemeColor::Primary(shade) => ThemeColor::Primary(*shade),
            ThemeColor::Secondary(shade) => ThemeColor::Secondary(*shade),
            ThemeColor::Tertiary(shade) => ThemeColor::Tertiary(*shade),
            ThemeColor::Info(shade) => ThemeColor::Info(*shade),
            ThemeColor::Warning(shade) => ThemeColor::Warning(*shade),
            ThemeColor::Success(shade) => ThemeColor::Success(*shade),
            ThemeColor::Error(shade) => ThemeColor::Error(*shade),
            ThemeColor::Surface(shade) => ThemeColor::Surface(*shade),
            ThemeColor::Custom(name, shade) => ThemeColor::Custom(name.clone(), *shade),
            ThemeColor::Unique(pair, shade) => ThemeColor::Unique(pair.clone(), *shade),
        }
    }
}

impl PartialEqSpecImpl for ThemeColor {
    open spec fn obeys_eq_spec() -> bool {
        true
    }

    /// Two selectors are equal when they are of the same kind and level and, by
    /// kind, carry the same name or equal pairs.
    open spec fn eq_spec(&self, other: &ThemeColor) -> bool {
        match (*self, *other) {
            (ThemeColor::Primary(a), ThemeColor::Primary(b)) => a == b,
            (ThemeColor::Secondary(a), ThemeColor::Secondary(b)) => a == b,
            (ThemeColor::Tertiary(a), ThemeColor::Tertiary(b)) => a == b,
            (ThemeColor::Info(a), ThemeColor::Info(b)) => a == b,
            (ThemeColor::Warning(a), ThemeColor::Warning(b)) => a == b,
            (ThemeColor::Success(a), ThemeColor::Success(b)) => a == b,
            (ThemeColor::Error(a), ThemeColor::Error(b)) => a == b,
            (ThemeColor::Surface(a), ThemeColor::Surface(b)) => a == b,
            (ThemeColor::Custom(n, a), ThemeColor::Custom(m, b)) => n@ == m@ && a == b,
            (ThemeColor::Unique(p, a), ThemeColor::Unique(q, b)) => PartialEqSpec::eq_spec(&p, &q)
                && a == b,
            _ => false,
        }
    }
}

impl PartialEq for ThemeColor {
    fn eq(&self, other: &Self) -> (equal: bool) {
        match (self, other) {
            (ThemeColor::Primary(a), ThemeColor::Primary(b)) => *a == *b,
            (ThemeColor::Secondary(a), ThemeColor::Secondary(b)) => *a == *b,
            (ThemeColor::Tertiary(a), ThemeColor::Tertiary(b)) => *a == *b,
            (ThemeColor::Info(a), ThemeColor::Info(b)) => *a == *b,
            (ThemeColor::Warning(a), ThemeColor::Warning(b)) => *a == *b,
            (ThemeColor::Success(a), ThemeColor::Success(b)) => *a == *b,
            (ThemeColor::Error(a), ThemeColor::Error(b)) => *a == *b,
            (ThemeColor::Surface(a), ThemeColor::Surface(b)) => *a == *b,
            (ThemeColor::Custom(n, a), ThemeColor::Custom(m, b)) => *n == *m && *a == *b,
            (ThemeColor::Unique(p, a), ThemeColor::Unique(q, b)) => *p == *q && *a == *b,
            _ => false,
        }
    }
}

impl Default for ThemeColor {
    /// The surface role at level 500.
    fn default() -> (selector: Self)
        ensures
            selector == ThemeColor::Surface(500),
    {
        ThemeColor::Surface(DEFAULT_SHADE)
    }
}

/// A selector whose level is on the scale resolves against every theme.
pub proof fn lemma_scale_resolves<F, G>(selector: ThemeColor, theme: Theme<F, G>)
    requires
        selector.level() <= 1000,
    ensures
        selector.resolvable(&theme),
{
    match selector.selected(&theme) {
        Some(pair) => {
            if pair.base@.len() > 0 {
                lemma_scale_stays_inside(pair.base@.len(), selector.level() as nat);
            }
        },
        None => {},
    }
}

/// A role's selector at level 500 picks the theme's pair for that role and resolves
/// to the shade in the middle of its ramp, rounded down; to white if the ramp is
/// empty.
pub proof fn lemma_role_resolves_to_midpoint<F, G>(theme: Theme<F, G>, role: Role)
    ensures
        ThemeColor::fixed(role, 500).selected(&theme) == Some(theme.role_pair(role)),
        ThemeColor::fixed(role, 500).resolvable(&theme),
        ThemeColor::fixed(role, 500).resolved(&theme) == theme.role_pair(role).base.shade_for(500),
        theme.role_pair(role).base@.len() > 0 ==> ThemeColor::fixed(role, 500).resolved(&theme)
            == Some(theme.role_pair(role).base@[(theme.role_pair(role).base@.len() - 1) / 2]),
{
    let count = theme.role_pair(role).base@.len();
    if count > 0 {
        lemma_midpoint(count);
        lemma_scale_stays_inside(count, 500);
    }
}

} // verus!
