//! RGB colors, a fixed palette, and text styles rendered as ANSI escape
//! sequences or CSS declarations.

pub mod color;
pub mod palette;
pub mod style;
pub mod text;
