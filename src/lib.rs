//! Lospec palettes: an ordered list of 8-bit sRGB colors read from a list of
//! hex strings, with queries for the lightest, the darkest and the nearest color.

pub mod color;
pub mod error;
pub mod palette;
pub mod lemmas;
