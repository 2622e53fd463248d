//! Device-capability registry for networked appliances.
//!
//! A device declares routes, each with a typed parameter schema and a set of
//! hazards. The registry assembles these declarations into a conflict-free
//! action table and a manifest document that a controller reads before it
//! invokes any action.
//!
//! Everything here is decided in memory and proved: nothing opens a socket.
//! From the leaves up:
//!
//! - [`collections`] holds sets of distinct items, growable and bounded;
//! - [`parameters`] holds typed parameters by name, in a bounded map and in
//!   a growable one, both over the same mathematics;
//! - [`hazards`] is the catalog of hazards;
//! - [`route`] joins method, path, description, parameters and hazards;
//! - [`device`] keeps the actions of a device free of conflicts and makes
//!   its manifest;
//! - [`json`] is the document tree of the manifest and its text.
//!
//! Around them stand what a device reports about its energy ([`energy`]),
//! what it answers ([`response`], [`actions`]), and what a server has to
//! know before it runs a device ([`server`], [`wifi`], [`mqtt`]).
//!
//! Floating-point numbers are held as their bit patterns; [`ieee`] orders
//! them.
pub mod text;
pub mod error;
pub mod ieee;
pub mod json;
pub mod collections;
pub mod parameters;
pub mod input;
pub mod hazards;
pub mod route;
pub mod device;
pub mod energy;
pub mod response;
pub mod actions;
pub mod server;
pub mod wifi;
pub mod mqtt;
