//! The widgets.
pub mod column;
pub mod radio;
pub mod row;
pub mod rule;
pub mod text;
pub mod toggler;
pub mod tooltip;
