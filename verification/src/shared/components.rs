//! The components that the gameplay rules read and write.

use crate::shared::units::Vec3;
use vstd::prelude::*;

verus! {

/// Identity of an entity, with the marker that tells a client which entity
/// stands for its own player.
#[derive(Clone, Copy, Debug, PartialEq, Eq, Structural)]
pub struct IdComponent {
    pub id: u128,
    pub is_self: bool,
}

/// A camera. Only the perspective projection is implemented.
#[derive(Clone, Copy, Debug, PartialEq, Eq, Structural)]
pub enum CameraComponent {
    Perspective { id: u128, aspect: i64, fovy: i64, znear: i64, zfar: i64 },
    Orthographic,
}

/// A light source.
#[derive(Clone, Copy, Debug, PartialEq, Eq, Structural)]
pub enum LightComponent {
    Directional { radiance: Vec3, azimuth: i64, inclination: i64, intensity: i64 },
    Point { radiance: Vec3, intensity: i64, radius: i64, falloff: i64 },
}

/// The sky: a fixed image, or a sky computed from the sun's position.
#[derive(Clone, Copy, Debug, PartialEq, Eq, Structural)]
pub enum SkyLightComponent {
    Image { id: u128 },
    Dynamic { id: u128, intensity: i64, turbidity: i64, azimuth: i64, inclination: i64 },
}

/// The physics body of an entity: the key of its body in the physics world,
/// where the body sits relative to the entity, and the velocities that the
/// rules ask for until the next physics step.
#[derive(Clone, Copy, Debug, PartialEq, Eq, Structural)]
pub struct PhysicsComponent {
    pub body_id: u128,
    pub offset: Vec3,
    pub delta_translation: Vec3,
    pub delta_rotation: Vec3,
}

/// The animations of an entity, by identifier: the one that plays, and those
/// for running and for standing.
#[derive(Clone, Copy, Debug, PartialEq, Eq, Structural)]
pub struct AnimationComponent {
    pub current: u128,
    pub running: u128,
    pub idle: u128,
}

/// Tuning of the hover vehicle, and the direction that it takes for down.
///
/// `down_vector` is the opposite of the normal of the surface below the
/// vehicle; the hover ray cast renews it.
#[derive(Clone, Copy, Debug, PartialEq, Eq, Structural)]
pub struct PlayerMovementComponent {
    pub down_vector: Vec3,
    pub max_velocity: i64,
    pub acceleration: i64,
    pub rotation_speed: i64,
    pub min_height_from_surface: i64,
    pub max_height_from_surface: i64,
    pub height_from_surface_speed: i64,
    pub deceleration: i64,
}

impl PlayerMovementComponent {
    /// The tuning that a vehicle has unless its level says otherwise:
    /// down is (0, -1, 0), top speed 2000, acceleration 200, rotation speed
    /// 110, hover height 0.02 to 0.35 at speed 6, deceleration 150.
    pub open spec fn spec_default() -> PlayerMovementComponent {
        PlayerMovementComponent {
            down_vector: Vec3 { x: 0, y: (-1_000_000) as i64, z: 0 },
            max_velocity: 2_000_000_000,
            acceleration: 200_000_000,
            rotation_speed: 110_000_000,
            min_height_from_surface: 20_000,
            max_height_from_surface: 350_000,
            height_from_surface_speed: 6_000_000,
            deceleration: 150_000_000,
        }
    }

    /// The direction that a vehicle takes for down before any ray cast:
    /// (0, -1, 0).
    pub fn default_down_vector() -> (down: Vec3)
        ensures
            down == (Vec3 { x: 0, y: (-1_000_000) as i64, z: 0 }),
    {
        Vec3 { x: 0, y: -1_000_000, z: 0 }
    }
}

impl Default for PlayerMovementComponent {
    fn default() -> (component: PlayerMovementComponent)
        ensures
            component == PlayerMovementComponent::spec_default(),
    {
        PlayerMovementComponent {
            down_vector: PlayerMovementComponent::default_down_vector(),
            max_velocity: 2_000_000_000,
            acceleration: 200_000_000,
            rotation_speed: 110_000_000,
            min_height_from_surface: 20_000,
            max_height_from_surface: 350_000,
            height_from_surface_speed: 6_000_000,
            deceleration: 150_000_000,
        }
    }
}

} // verus!
