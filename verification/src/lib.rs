//! Theme model for a Bevy user interface: shade ramps, color roles, and the
//! selectors that widgets carry and resolve against the active theme.
//!
//! Shade levels are whole numbers on a scale from 0 (lightest) to 1000
//! (darkest); the conventional stops are 50, 100, 200, ..., 900.

pub mod color;
pub mod color_pair;
pub mod color_set;
pub mod custom;
pub mod theme;
pub mod theme_color;

pub use color::is_white;
pub use color_pair::ColorPair;
pub use color_set::{shade_index, ColorSet, FULL_SCALE};
pub use custom::{custom_pairs, CustomColors};
pub use theme::{Role, Theme};
pub use theme_color::{ThemeColor, DEFAULT_SHADE, STOPS};
