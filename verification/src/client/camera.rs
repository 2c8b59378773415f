//! The chase camera: behind and above the local player, looking at a point
//! just above the player's origin.

use crate::shared::components::CameraComponent;
use crate::shared::units::{TransformComponent, Vec3};
use vstd::prelude::*;

verus! {

/// How far behind the player the camera stands, as a factor of the
/// direction the player faces.
pub const CAMERA_DISTANCE: i64 = -5_000_000;

/// How far above the player the camera stands.
pub const CAMERA_HEIGHT: i64 = 750_000;

/// How far above the player's origin the camera looks.
pub const TARGET_HEIGHT: i64 = 50_000;

/// What the renderer needs to know of the camera.
#[derive(Clone, Copy, Debug, PartialEq, Eq, Structural)]
pub struct CameraConfig {
    pub fovy: i64,
    pub znear: i64,
    pub zfar: i64,
    pub translation: Vec3,
    pub front: Vec3,
    pub up: Vec3,
}

/// Where the camera stands and what it looks at. The host makes the
/// right-handed view matrix from the three of them.
#[derive(Clone, Copy, Debug, PartialEq, Eq, Structural)]
pub struct CameraFrame {
    pub position: Vec3,
    pub target: Vec3,
    pub up: Vec3,
}

/// The upward axis, (0, 1, 0).
pub open spec fn up_axis() -> Vec3 {
    Vec3 { x: 0, y: 1_000_000, z: 0 }
}

/// Where the camera stands: behind the player by five times the direction
/// it faces, and 0.75 above.
pub open spec fn eye_position(translation: Vec3, eye_direction: Vec3) -> Vec3 {
    translation.spec_plus(
        eye_direction.spec_scale(CAMERA_DISTANCE).spec_plus(Vec3 { x: 0, y: CAMERA_HEIGHT, z: 0 }),
    )
}

/// What the camera looks at: 0.05 above the player's origin.
pub open spec fn eye_target(translation: Vec3) -> Vec3 {
    translation.spec_plus(Vec3 { x: 0, y: TARGET_HEIGHT, z: 0 })
}

/// The system that keeps the renderer's camera behind the local player.
pub struct CameraSystem {}

impl CameraSystem {
    /// A camera system; it has no state of its own.
    pub fn initialize() -> (system: CameraSystem)
        ensures
            system == (CameraSystem {  }),
    {
        CameraSystem {  }
    }

    /// Where the camera of a player stands and looks, for a player at
    /// `transform` that faces `eye_direction`.
    pub fn frame(&self, transform: &TransformComponent, eye_direction: Vec3) -> (frame: CameraFrame)
        ensures
            frame == (CameraFrame {
                position: eye_position(transform.translation, eye_direction),
                target: eye_target(transform.translation),
                up: up_axis(),
            }),
    {
        let offset = eye_direction.scale(CAMERA_DISTANCE).plus(Vec3::new(0, CAMERA_HEIGHT, 0));
        CameraFrame {
            position: transform.translation.plus(offset),
            target: transform.translation.plus(Vec3::new(0, TARGET_HEIGHT, 0)),
            up: Vec3::new(0, 1_000_000, 0),
        }
    }

    /// Runs the system for one entity that carries the self marker, a
    /// transform and `camera`, and faces `eye_direction`. For a perspective
    /// camera the renderer's camera, if there is one, takes the camera's
    /// opening and planes, stands at [`eye_position`], faces
    /// `eye_direction` and has its up along the upward axis. Any other camera
    /// changes nothing.
    pub fn run(
        &mut self,
        transform: &TransformComponent,
        eye_direction: Vec3,
        camera: &CameraComponent,
        config: Option<CameraConfig>,
    ) -> (after: Option<CameraConfig>)
        ensures
            after == (match (*camera, config) {
                (CameraComponent::Perspective { id, aspect, fovy, znear, zfar }, Some(_)) => Some(
                    CameraConfig {
                        fovy,
                        znear,
                        zfar,
                        translation: eye_position(transform.translation, eye_direction),
                        front: eye_direction,
                        up: up_axis(),
                    },
                ),
                _ => config,
            }),
    {
        let frame = self.frame(transform, eye_direction);
        match camera {
            CameraComponent::Perspective { id, aspect, fovy, znear, zfar } => {
                match config {
                    Some(_) => Some(
                        CameraConfig {
                            fovy: *fovy,
                            znear: *znear,
                            zfar: *zfar,
                            translation: frame.position,
                            front: eye_direction,
                            up: frame.up,
                        },
                    ),
                    None => None,
                }
            },
            CameraComponent::Orthographic => config,
        }
    }
}

} // verus!
