//! Screen navigation, region text layout and frame planning for a small
//! fixed-size display driven by a handful of buttons.

pub mod types;
pub mod screen;
pub mod wrap;
pub mod text;
pub mod layout;
pub mod poll;
