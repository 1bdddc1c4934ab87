//! The looks of the widgets, as the application supplies them.
pub mod container;
pub mod radio;
pub mod rule;
pub mod toggler;
