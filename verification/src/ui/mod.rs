//! Pieces that the screens share.

pub mod choosing;
pub mod form;
pub mod help;
pub mod input;
pub mod line;
pub mod list;
pub mod picker;
pub mod rows;
pub mod text;
pub mod theme;
