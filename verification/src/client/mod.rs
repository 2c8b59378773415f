//! The client: a mirror of the server's scene, simulated locally between
//! updates.

pub mod assets;
pub mod camera;
pub mod client;
pub mod physics;
pub mod positions;
pub mod world;
