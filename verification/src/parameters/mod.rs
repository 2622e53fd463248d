//! Typed input parameters of a route, by name.
pub mod kind;
pub mod entries;
pub mod data;
pub mod bounded;
pub mod reading;
