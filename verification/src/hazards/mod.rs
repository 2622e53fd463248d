//! Hazards and sets of hazards.
pub mod catalog;
