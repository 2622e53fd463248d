//! The registry of a device: its actions, kept free of conflicts, and the
//! manifest made of them.
pub mod action;
pub mod table;
pub mod registry;
pub mod manifest;
