//! Gameplay rules of a networked hover-vehicle arena.
//!
//! The crate holds the decisions of the authoritative server and of the thin
//! client: which trusted inputs are accepted, when the client may simulate,
//! how a parent chain is walked, how the hover vehicle gains and loses speed,
//! where the chase camera stands. Rendering, physics, transport and the scene
//! store belong to the host, which hands plain values in and applies the
//! plain values it gets back.
//!
//! Every length, speed, angle, factor and time span is an `i64` counted in
//! millionths of its unit (see [`shared::units`]); identifiers are `u128`.

pub mod client;
pub mod server;
pub mod shared;
