//! The server: the authority over the scene.

pub mod network_controller;
pub mod players;
pub mod server;
