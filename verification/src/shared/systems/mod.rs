//! The systems that run once per tick on both sides.

pub mod player_movement;
pub mod sky;
pub mod smoke_bomb;
