use hover_arena::client::camera::{CameraConfig, CameraFrame, CameraSystem};
use hover_arena::shared::components::CameraComponent;
use hover_arena::shared::units::{TransformComponent, Vec3, MICRO};

fn blank_config() -> CameraConfig {
    CameraConfig {
        fovy: 0,
        znear: 0,
        zfar: 0,
        translation: Vec3::zeros(),
        front: Vec3::zeros(),
        up: Vec3::zeros(),
    }
}

#[test]
fn camera_framing() {
    let mut system = CameraSystem::initialize();
    let transform = TransformComponent { translation: Vec3::zeros(), rotation: Vec3::zeros() };
    let camera = CameraComponent::Perspective {
        id: 9,
        aspect: 1_777_777,
        fovy: 785_398,
        znear: 100_000,
        zfar: 1_000 * MICRO,
    };
    let after = system.run(&transform, Vec3::new(0, 0, MICRO), &camera, Some(blank_config()));
    assert_eq!(
        after,
        Some(CameraConfig {
            fovy: 785_398,
            znear: 100_000,
            zfar: 1_000 * MICRO,
            translation: Vec3::new(0, 750_000, -5 * MICRO),
            front: Vec3::new(0, 0, MICRO),
            up: Vec3::new(0, MICRO, 0),
        })
    );
}

#[test]
fn camera_follows_the_player() {
    let system = CameraSystem::initialize();
    let transform = TransformComponent {
        translation: Vec3::new(10 * MICRO, 2 * MICRO, -3 * MICRO),
        rotation: Vec3::zeros(),
    };
    let frame = system.frame(&transform, Vec3::new(MICRO, 0, 0));
    assert_eq!(
        frame,
        CameraFrame {
            position: Vec3::new(5 * MICRO, 2_750_000, -3 * MICRO),
            target: Vec3::new(10 * MICRO, 2_050_000, -3 * MICRO),
            up: Vec3::new(0, MICRO, 0),
        }
    );
}

#[test]
fn camera_without_renderer_config_changes_nothing() {
    let mut system = CameraSystem::initialize();
    let transform = TransformComponent { translation: Vec3::zeros(), rotation: Vec3::zeros() };
    let camera =
        CameraComponent::Perspective { id: 1, aspect: MICRO, fovy: MICRO, znear: 1, zfar: 2 };
    assert_eq!(system.run(&transform, Vec3::new(0, 0, MICRO), &camera, None), None);
}

#[test]
fn orthographic_camera_leaves_the_config() {
    let mut system = CameraSystem::initialize();
    let transform = TransformComponent { translation: Vec3::zeros(), rotation: Vec3::zeros() };
    let config = blank_config();
    assert_eq!(
        system.run(&transform, Vec3::new(0, 0, MICRO), &CameraComponent::Orthographic, Some(config)),
        Some(config)
    );
}
