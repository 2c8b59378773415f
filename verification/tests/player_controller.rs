use hover_arena::shared::components::{AnimationComponent, PhysicsComponent};
use hover_arena::shared::entity::Entity;
use hover_arena::shared::player_controller::{
    Controlled, DefaultInput, PlayerController, JUMP_VELOCITY, MAX_JUMPS, WALKING_SPEED,
};
use hover_arena::shared::units::{Vec2, Vec3, MICRO};
use hover_arena::shared::weapon::cleric::Cleric;
use hover_arena::shared::weapon::great_ax::GreatAx;
use hover_arena::shared::weapon::hammer::Hammer;
use hover_arena::shared::weapon::tank::Tank;
use hover_arena::shared::weapon::{Armament, Weapon};

const TICK: i64 = 16_667;

fn locked(forward: i64, right: i64, dx: i64, action: bool) -> DefaultInput {
    DefaultInput {
        mouse_lock: true,
        left_click: false,
        action,
        forward,
        right,
        delta: Vec2 { x: dx, y: 0 },
        canvas: (0, 0),
    }
}

fn controller() -> PlayerController {
    let mut controller = PlayerController::new();
    controller.initialize(Entity { bits: 1 }, 42);
    controller
}

fn standing() -> Controlled {
    Controlled {
        direction: Vec3::new(0, 0, MICRO),
        speed: WALKING_SPEED,
        physics: Some(PhysicsComponent {
            body_id: 1,
            offset: Vec3::zeros(),
            delta_translation: Vec3::zeros(),
            delta_rotation: Vec3::zeros(),
        }),
        animation: Some(AnimationComponent { current: 0, running: 1, idle: 2 }),
    }
}

#[test]
fn a_new_controller_controls_nothing() {
    let controller = PlayerController::new();
    assert!(!controller.is_initialized());
    assert_eq!(controller.entity, None);
    assert_eq!(controller.id, 0);
    assert!(matches!(controller.weapon, Some(Armament::GreatAx(_))));
    assert_eq!(controller.current_jumps, 0);
    assert!(!controller.is_grounded);
    assert!(!controller.should_jump);
}

#[test]
fn input_is_ignored_before_initialisation_and_while_the_mouse_is_free() {
    let mut fresh = PlayerController::new();
    fresh.input(&locked(MICRO, 0, 5, true));
    assert!(fresh.delta_translation.is_zero());
    assert!(!fresh.should_jump);
    let body = standing();
    let after = fresh.update(Some(body), TICK).unwrap();
    assert_eq!(after.physics, body.physics);
    assert_eq!(after.animation, body.animation);

    let mut controller = controller();
    let mut free = locked(MICRO, 0, 5, true);
    free.mouse_lock = false;
    controller.input(&free);
    assert!(controller.delta_translation.is_zero());
    assert!(controller.delta_rotation.is_zero());
    assert!(!controller.should_jump);
}

#[test]
fn input_gathers_direction_rotation_and_jump() {
    let mut controller = controller();
    controller.input(&locked(3 * MICRO, 4 * MICRO, 7, true));
    assert_eq!(controller.delta_translation, Vec3::new(800_000, 0, 600_000));
    assert_eq!(controller.delta_rotation, Vec3::new(0, -7, 0));
    assert!(controller.should_jump);
}

#[test]
fn a_wild_mouse_movement_is_ignored() {
    let mut controller = controller();
    controller.input(&locked(0, 0, 100 * MICRO, false));
    assert!(controller.delta_rotation.is_zero());
    controller.input(&locked(0, 0, -100 * MICRO, false));
    assert!(controller.delta_rotation.is_zero());
    controller.input(&locked(0, 0, 100 * MICRO - 1, false));
    assert_eq!(controller.delta_rotation, Vec3::new(0, -(100 * MICRO - 1), 0));
}

#[test]
fn update_pushes_the_body_and_forgets_the_input() {
    let mut controller = controller();
    controller.input(&locked(MICRO, 0, 2 * MICRO, false));
    let after = controller.update(Some(standing()), TICK).unwrap();
    let physics = after.physics.unwrap();
    // forward: direction * 0.3 * 1
    assert_eq!(physics.delta_translation, Vec3::new(0, 0, 300_000));
    // rotation: -2 * 20 * 0.016667
    assert_eq!(physics.delta_rotation, Vec3::new(0, -666_680, 0));
    assert!(controller.delta_translation.is_zero());
    assert!(controller.delta_rotation.is_zero());
}

#[test]
fn walking_sideways_follows_the_cross_product_with_up() {
    let mut controller = controller();
    controller.input(&locked(0, MICRO, 0, false));
    let after = controller.update(Some(standing()), TICK).unwrap();
    // facing z, sideways is (-1, 0, 0)
    assert_eq!(after.physics.unwrap().delta_translation, Vec3::new(-300_000, 0, 0));
}

#[test]
fn jumps_are_counted_until_the_ground_is_touched() {
    let mut controller = controller();
    for jump in 1..=MAX_JUMPS {
        controller.input(&locked(0, 0, 0, true));
        let after = controller.update(Some(standing()), TICK).unwrap();
        assert_eq!(controller.current_jumps, jump);
        assert_eq!(controller.delta_velocity, Vec3::new(0, jump as i64 * JUMP_VELOCITY, 0));
        assert_eq!(
            after.physics.unwrap().delta_translation,
            Vec3::new(0, jump as i64 * JUMP_VELOCITY, 0)
        );
    }
    controller.input(&locked(0, 0, 0, true));
    let after = controller.update(Some(standing()), TICK).unwrap();
    assert_eq!(controller.current_jumps, MAX_JUMPS);
    assert!(after.physics.unwrap().delta_translation.is_zero());
    assert!(!controller.should_jump);
    controller.on_collision_start();
    assert!(controller.is_grounded);
    assert_eq!(controller.current_jumps, 0);
    controller.on_collision_stop();
    assert!(!controller.is_grounded);
}

#[test]
fn a_body_without_physics_does_not_jump() {
    let mut controller = controller();
    controller.input(&locked(0, 0, 0, true));
    let mut body = standing();
    body.physics = None;
    let after = controller.update(Some(body), TICK).unwrap();
    assert_eq!(after.physics, None);
    assert_eq!(controller.current_jumps, 0);
    assert!(!controller.should_jump);
    assert!(controller.update(None, TICK).is_none());
}

#[test]
fn a_grounded_player_runs_or_stands() {
    let mut controller = controller();
    controller.input(&locked(MICRO, 0, 0, false));
    let airborne = controller.update(Some(standing()), TICK).unwrap();
    assert_eq!(airborne.animation.unwrap().current, 0);
    controller.on_collision_start();
    controller.input(&locked(MICRO, 0, 0, false));
    let running = controller.update(Some(standing()), TICK).unwrap();
    assert_eq!(running.animation.unwrap().current, 1);
    let idle = controller.update(Some(standing()), TICK).unwrap();
    assert_eq!(idle.animation.unwrap().current, 2);
}

#[test]
fn weapons_grant_shield_and_health() {
    assert_eq!((Cleric::new().shield(), Cleric::new().health()), (4 * MICRO, 0));
    assert_eq!((GreatAx::new().shield(), GreatAx::new().health()), (0, 2 * MICRO));
    assert_eq!((Hammer::new().shield(), Hammer::new().health()), (0, 2 * MICRO));
    assert_eq!((Tank::new().shield(), Tank::new().health()), (4 * MICRO, 2 * MICRO));
    let held = [
        Armament::Cleric(Cleric::new()),
        Armament::GreatAx(GreatAx::new()),
        Armament::Hammer(Hammer::new()),
        Armament::Tank(Tank::new()),
    ];
    let stats: Vec<(i64, i64)> =
        held.iter().map(|weapon| (weapon.shield(), weapon.health())).collect();
    assert_eq!(
        stats,
        vec![(4 * MICRO, 0), (0, 2 * MICRO), (0, 2 * MICRO), (4 * MICRO, 2 * MICRO)]
    );
    for weapon in &held {
        weapon.primary_ability();
        weapon.secondary_ability();
        weapon.ultimate_ability();
    }
}
