use hover_arena::shared::components::PlayerMovementComponent;
use hover_arena::shared::input::PlayerInput;
use hover_arena::shared::systems::player_movement::{
    Drive, HoverRay, PhysicsConfig, PlayerMovementSystem, RigidBodyHandle, HOVER_RAY_REACH,
};
use hover_arena::shared::units::{Vec3, MICRO};

const TICK: i64 = 16_667;

#[test]
fn default_tuning_is_the_documented_one() {
    let tuning = PlayerMovementComponent::default();
    assert_eq!(tuning.down_vector, Vec3::new(0, -MICRO, 0));
    assert_eq!(tuning.max_velocity, 2_000 * MICRO);
    assert_eq!(tuning.acceleration, 200 * MICRO);
    assert_eq!(tuning.rotation_speed, 110 * MICRO);
    assert_eq!(tuning.min_height_from_surface, 20_000);
    assert_eq!(tuning.max_height_from_surface, 350_000);
    assert_eq!(tuning.height_from_surface_speed, 6 * MICRO);
    assert_eq!(tuning.deceleration, 150 * MICRO);
    assert_eq!(PlayerMovementComponent::default_down_vector(), Vec3::new(0, -MICRO, 0));
}

#[test]
fn accelerate_adds_acceleration_times_time_times_input() {
    let tuning = PlayerMovementComponent::default();
    let mut system = PlayerMovementSystem::initialize();
    system.accelerate(MICRO, &tuning, TICK);
    // 200 * 0.016667 * 1 = 3.3334
    assert_eq!(system.current_velocity, 3_333_400);
    system.accelerate(-MICRO / 2, &tuning, TICK);
    // 3.3334 - 200 * 0.016667 * 0.5 = 1.6667
    assert_eq!(system.current_velocity, 1_666_700);
}

#[test]
fn velocity_never_leaves_the_top_speed() {
    let tuning = PlayerMovementComponent::default();
    let mut system = PlayerMovementSystem::initialize();
    for _ in 0..2_000 {
        system.accelerate(MICRO, &tuning, TICK);
        assert!(system.current_velocity <= tuning.max_velocity);
        assert!(system.current_velocity >= -tuning.max_velocity);
    }
    assert_eq!(system.current_velocity, tuning.max_velocity);
    for _ in 0..4_000 {
        system.accelerate(-MICRO, &tuning, TICK);
        assert!(system.current_velocity >= -tuning.max_velocity);
    }
    assert_eq!(system.current_velocity, -tuning.max_velocity);
}

#[test]
fn velocity_is_clamped_in_one_step_from_anywhere() {
    let tuning = PlayerMovementComponent::default();
    let mut system = PlayerMovementSystem::initialize();
    system.current_velocity = i64::MAX;
    system.accelerate(MICRO, &tuning, TICK);
    assert_eq!(system.current_velocity, tuning.max_velocity);
    system.current_velocity = i64::MIN;
    system.accelerate(MICRO, &tuning, TICK);
    assert_eq!(system.current_velocity, -tuning.max_velocity);
}

#[test]
fn deceleration_stops_at_zero_and_keeps_the_sign() {
    let tuning = PlayerMovementComponent::default();
    let mut system = PlayerMovementSystem::initialize();
    system.current_velocity = 4 * MICRO;
    // one step is 150 * 0.016667 = 2.50005
    system.accelerate(0, &tuning, TICK);
    assert_eq!(system.current_velocity, 1_499_950);
    system.accelerate(0, &tuning, TICK);
    assert_eq!(system.current_velocity, 0);
    system.accelerate(0, &tuning, TICK);
    assert_eq!(system.current_velocity, 0);

    system.current_velocity = -4 * MICRO;
    system.decelerate(&tuning, TICK);
    assert_eq!(system.current_velocity, -1_499_950);
    system.decelerate(&tuning, TICK);
    assert_eq!(system.current_velocity, 0);
}

#[test]
fn deceleration_approaches_zero_monotonically() {
    let tuning = PlayerMovementComponent::default();
    let mut system = PlayerMovementSystem::initialize();
    system.current_velocity = 1_000 * MICRO;
    let mut last = system.current_velocity;
    for _ in 0..1_000 {
        system.decelerate(&tuning, TICK);
        assert!(system.current_velocity >= 0);
        assert!(system.current_velocity <= last);
        last = system.current_velocity;
    }
    assert_eq!(last, 0);
}

#[test]
fn handle_input_drives_along_the_direction_and_round_the_up_axis() {
    let tuning = PlayerMovementComponent::default();
    let mut system = PlayerMovementSystem::initialize();
    let mut input = PlayerInput::new(1920, 1080);
    input.direction_vector = Vec3::new(MICRO, 0, MICRO);
    let drive = system.handle_input(&tuning, Vec3::new(0, 0, MICRO), &input, TICK);
    assert_eq!(system.current_velocity, 3_333_400);
    // linear: direction * 3.3334 * 0.016667 * 1 = 0.055557 (rounded toward zero)
    // angular: up * 110 * 0.016667 * -1 = -1.83337
    assert_eq!(
        drive,
        Drive { linear: Vec3::new(0, 0, 55_557), angular: Vec3::new(0, -1_833_370, 0) }
    );
}

#[test]
fn hover_ray_points_down_and_passes_through_the_own_body() {
    let tuning = PlayerMovementComponent::default();
    let system = PlayerMovementSystem::initialize();
    let own = RigidBodyHandle { index: 3, generation: 1 };
    let ray = system.hover_ray(&tuning, Vec3::new(1, 2, 3), Some(own));
    assert_eq!(
        ray,
        Some(HoverRay {
            origin: Vec3::new(1, 2, 3),
            direction: Vec3::new(0, -MICRO, 0),
            reach: HOVER_RAY_REACH,
            solid: true,
            exclude: own,
        })
    );
    let other = RigidBodyHandle { index: 4, generation: 0 };
    assert_eq!(system.hover_ray(&tuning, Vec3::zeros(), Some(other)).unwrap().exclude, other);
}

#[test]
fn a_vehicle_without_a_body_casts_no_ray() {
    let tuning = PlayerMovementComponent::default();
    let system = PlayerMovementSystem::initialize();
    assert_eq!(system.hover_ray(&tuning, Vec3::new(1, 2, 3), None), None);
}

#[test]
fn a_negative_top_speed_does_not_matter_without_forward_input() {
    let mut tuning = PlayerMovementComponent::default();
    tuning.max_velocity = -1;
    let mut system = PlayerMovementSystem::initialize();
    system.current_velocity = 4 * MICRO;
    system.accelerate(0, &tuning, TICK);
    assert_eq!(system.current_velocity, 1_499_950);
    let input = PlayerInput::new(0, 0);
    let drive = system.handle_input(&tuning, Vec3::new(0, 0, MICRO), &input, TICK);
    assert_eq!(system.current_velocity, 0);
    assert_eq!(drive, Drive { linear: Vec3::zeros(), angular: Vec3::zeros() });
}

#[test]
fn hover_raycast_aligns_to_slope() {
    let system = PlayerMovementSystem::initialize();
    let mut tuning = PlayerMovementComponent::default();
    system.align(&mut tuning, Some(Vec3::new(0, MICRO, 0)));
    assert_eq!(tuning.down_vector, Vec3::new(0, -MICRO, 0));
    // a surface tilted by 45 degrees: the normal is (0, sqrt(1/2), sqrt(1/2))
    system.align(&mut tuning, Some(Vec3::new(0, 707_107, 707_107)));
    assert_eq!(tuning.down_vector, Vec3::new(0, -707_107, -707_107));
    let before = tuning;
    system.align(&mut tuning, None);
    assert_eq!(tuning, before);
}

#[test]
fn hover_lift_swings_between_the_two_heights() {
    let tuning = PlayerMovementComponent::default();
    let system = PlayerMovementSystem::initialize();
    let still = Vec3::zeros();
    // sine 0: the lower height
    assert_eq!(system.handle_hover(&tuning, still, 0), Vec3::new(0, 20_000, 0));
    // sine 1: the upper height
    assert_eq!(system.handle_hover(&tuning, still, MICRO), Vec3::new(0, 350_000, 0));
    // sine 1/2: half way, 0.5 * 0.33 + 0.02
    assert_eq!(system.handle_hover(&tuning, still, MICRO / 2), Vec3::new(0, 185_000, 0));
    // sine -1 pulls below the lower height: -0.33 + 0.02
    assert_eq!(system.handle_hover(&tuning, still, -MICRO), Vec3::new(0, -310_000, 0));
}

#[test]
fn hover_adds_to_the_velocity_the_body_has() {
    let tuning = PlayerMovementComponent::default();
    let system = PlayerMovementSystem::initialize();
    let moving = Vec3::new(5, 6, 7);
    assert_eq!(system.handle_hover(&tuning, moving, 0), Vec3::new(5, 20_006, 7));
}

#[test]
fn hover_phase_is_time_times_speed() {
    let tuning = PlayerMovementComponent::default();
    let mut system = PlayerMovementSystem::initialize();
    assert_eq!(system.hover_phase(&tuning), 0);
    system.run(TICK);
    system.run(TICK);
    assert_eq!(system.running_time, 2 * TICK);
    assert_eq!(system.hover_phase(&tuning), 200_004);
}

#[test]
fn attach_switches_gravity_off() {
    let mut system = PlayerMovementSystem::initialize();
    let config = PhysicsConfig { gravity: Vec3::new(0, -9_810_000, 0) };
    assert_eq!(system.attach(Some(config)), Some(PhysicsConfig { gravity: Vec3::zeros() }));
    assert_eq!(system.attach(None), None);
}

#[test]
fn capture_mouse_only_on_a_click_while_free() {
    let system = PlayerMovementSystem::initialize();
    let mut input = PlayerInput::new(1, 1);
    assert!(!system.capture_mouse(&input));
    input.left_click = true;
    assert!(system.capture_mouse(&input));
    input.mouse_lock = true;
    assert!(!system.capture_mouse(&input));
}
