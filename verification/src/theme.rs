//! The theme: the full visual vocabulary of one design.

use crate::color_pair::ColorPair;
use crate::custom::CustomColors;
use crate::theme_color::ThemeColor;
use bevy::color::Color;
use vstd::prelude::*;

verus! {

/// The eight color roles that every theme defines.
#[derive(Debug, Clone, Copy, PartialEq, Eq, Hash, Structural)]
pub enum Role {
    Primary,
    Secondary,
    Tertiary,
    Info,
    Warning,
    Success,
    Error,
    Surface,
}

/// One design: its colors by role, its fonts and its geometry.
///
/// `F` is the engine's font handle and `G` its scale-dependent size of four
/// components. The theme only keeps them for the renderer.
pub struct Theme<F, G> {
    /// Name of the theme
    pub name: String,
    /// Theme tags, such as "Dark" or "Colorblind"
    pub tags: Vec<String>,
    /// Primary striking color
    pub primary: ColorPair,
    /// Secondary striking color
    pub secondary: ColorPair,
    /// Tertiary striking color
    pub tertiary: ColorPair,
    /// Color of the "INFO" widgets
    pub info: ColorPair,
    /// Color of the "WARNING" widgets
    pub warning: ColorPair,
    /// Color of the "SUCCESS" widgets
    pub success: ColorPair,
    /// Color of the "ERROR" widgets
    pub error: ColorPair,
    /// Color of the background fill
    pub surface: ColorPair,
    /// The color of the text
    pub text: Color,
    /// Additional custom colors that do not fit the eight roles
    pub custom: CustomColors,
    /// Font of general text
    pub font_base: F,
    /// Font of headings
    pub font_heading: F,
    /// Corner rounding of containers
    pub rounding_container: G,
    /// Corner rounding of base elements
    pub rounding_base: G,
    /// Thickness of borders
    pub border_thickness: G,
    /// Accent for highlights
    pub highlight_color: ThemeColor,
    /// Accent for borders
    pub border_color: ThemeColor,
}

impl<F, G> Theme<F, G> {
    /// The pair that the theme gives to `role`.
    pub open spec fn role_pair(&self, role: Role) -> ColorPair {
        match role {
            Role::Primary => self.primary,
            Role::Secondary => self.secondary,
            Role::Tertiary => self.tertiary,
            Role::Info => self.info,
            Role::Warning => self.warning,
            Role::Success => self.success,
            Role::Error => self.error,
            Role::Surface => self.surface,
        }
    }

    /// The pair that the theme gives to `role`.
    pub fn pair(&self, role: Role) -> (pair: &ColorPair)
        ensures
            *pair == self.role_pair(role),
    {
        match role {
            Role::Primary => &self.primary,
            Role::Secondary => &self.secondary,
            Role::Tertiary => &self.tertiary,
            Role::Info => &self.info,
            Role::Warning => &self.warning,
            Role::Success => &self.success,
            Role::Error => &self.error,
            Role::Surface => &self.surface,
        }
    }
}

} // verus!
