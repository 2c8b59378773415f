//! Types and rules shared by server and client.

pub mod components;
pub mod entity;
pub mod ids;
pub mod input;
pub mod keys;
pub mod parent;
pub mod player_controller;
pub mod prefab;
pub mod systems;
pub mod text;
pub mod trusted;
pub mod units;
pub mod weapon;
