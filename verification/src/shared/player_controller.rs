//! The controller of the local player on foot: it gathers the input of a
//! frame, turns it into velocities for the physics body, counts jumps and
//! knows whether the player stands on something.

use crate::shared::components::{AnimationComponent, PhysicsComponent};
use crate::shared::entity::Entity;
use crate::shared::ids::NIL_ID;
use crate::shared::units::{negate, plus, spec_negate, spec_plus, Vec2, Vec3};
use crate::shared::weapon::great_ax::GreatAx;
use crate::shared::weapon::Armament;
use vstd::prelude::*;

verus! {

/// How often a player can jump before touching ground again.
pub const MAX_JUMPS: u32 = 2;

/// The upward speed that one jump adds.
pub const JUMP_VELOCITY: i64 = 2_000_000;

/// The walking speed, in metres per second, that a controlled entity gets
/// when the controller takes it over.
pub const WALKING_SPEED: i64 = 300_000;

/// A mouse movement of this size or more in one frame is ignored.
pub const MOUSE_JUMP_LIMIT: i64 = 100_000_000;

/// How fast the mouse turns the player.
pub const TURN_RATE: i64 = 20_000_000;

/// One frame of input from keyboard and mouse.
#[derive(Clone, Copy, Debug)]
pub struct DefaultInput {
    pub mouse_lock: bool,
    pub left_click: bool,
    pub action: bool,
    pub forward: i64,
    pub right: i64,
    pub delta: Vec2,
    pub canvas: (u32, u32),
}

/// What the scene holds of the controlled entity: the direction it faces,
/// its walking speed, and its physics and animation components if it has
/// them.
#[derive(Clone, Copy, Debug)]
pub struct Controlled {
    pub direction: Vec3,
    pub speed: i64,
    pub physics: Option<PhysicsComponent>,
    pub animation: Option<AnimationComponent>,
}

/// The controller's state.
pub struct PlayerController {
    pub entity: Option<Entity>,
    pub id: u128,
    pub weapon: Option<Armament>,
    pub delta_translation: Vec3,
    pub delta_rotation: Vec3,
    pub delta_velocity: Vec3,
    pub is_grounded: bool,
    pub current_jumps: u32,
    pub should_jump: bool,
}

/// The direction to the side of `direction`: its cross product with the
/// upward axis, brought to length one.
pub open spec fn sideways(direction: Vec3) -> Vec3 {
    (Vec3 { x: spec_negate(direction.z), y: 0, z: direction.x }).spec_normalize()
}

/// The physics component after the controller pushed it: sideways and
/// forward as far as the gathered input says, turned by the gathered
/// rotation, and lifted by `lift` where the player jumps.
pub open spec fn pushed(
    physics: PhysicsComponent,
    direction: Vec3,
    speed: i64,
    delta_translation: Vec3,
    delta_rotation: Vec3,
    delta_in_seconds: i64,
    lift: Option<Vec3>,
) -> PhysicsComponent {
    let walked = physics.delta_translation.spec_plus(
        sideways(direction).spec_scale(speed).spec_scale(delta_translation.x),
    ).spec_plus(direction.spec_scale(speed).spec_scale(delta_translation.z));
    PhysicsComponent {
        delta_translation: match lift {
            Some(velocity) => walked.spec_plus(velocity),
            None => walked,
        },
        delta_rotation: physics.delta_rotation.spec_plus(
            delta_rotation.spec_scale(TURN_RATE).spec_scale(delta_in_seconds),
        ),
        ..physics
    }
}

impl PlayerController {
    /// Whether the controller has taken over an entity.
    pub open spec fn spec_is_initialized(&self) -> bool {
        self.id != NIL_ID
    }

    /// Whether the next update makes the player jump.
    pub open spec fn jumps(&self) -> bool {
        self.should_jump && self.current_jumps < MAX_JUMPS
    }

    /// A controller that controls nothing yet and carries a great ax.
    pub fn new() -> (controller: PlayerController)
        ensures
            controller.entity == None::<Entity>,
            controller.id == NIL_ID,
            controller.weapon matches Some(Armament::GreatAx(_)),
            controller.delta_translation == Vec3::spec_zeros(),
            controller.delta_rotation == Vec3::spec_zeros(),
            controller.delta_velocity == Vec3::spec_zeros(),
            !controller.is_grounded,
            controller.current_jumps == 0,
            !controller.should_jump,
    {
        PlayerController {
            entity: None,
            id: NIL_ID,
            weapon: Some(Armament::GreatAx(GreatAx::new())),
            delta_translation: Vec3::zeros(),
            delta_rotation: Vec3::zeros(),
            delta_velocity: Vec3::zeros(),
            is_grounded: false,
            current_jumps: 0,
            should_jump: false,
        }
    }

    /// Whether the controller has taken over an entity.
    pub fn is_initialized(&self) -> (initialized: bool)
        ensures
            initialized == self.spec_is_initialized(),
    {
        self.id != NIL_ID
    }

    /// Takes over `entity`, which carries `id`. The host gives the entity's
    /// input component the speed [`WALKING_SPEED`].
    pub fn initialize(&mut self, entity: Entity, id: u128)
        ensures
            *final(self) == (PlayerController { entity: Some(entity), id, ..*old(self) }),
    {
        self.entity = Some(entity);
        self.id = id;
    }

    fn reset_input(&mut self)
        ensures
            *final(self) == (PlayerController {
                delta_translation: Vec3::spec_zeros(),
                delta_rotation: Vec3::spec_zeros(),
                should_jump: false,
                ..*old(self)
            }),
    {
        self.delta_translation = Vec3::zeros();
        self.delta_rotation = Vec3::zeros();
        self.should_jump = false;
    }

    /// The controller after one frame of input was gathered. Nothing
    /// changes before the controller has taken over an entity, nor while the
    /// mouse is free. Otherwise a mouse movement below [`MOUSE_JUMP_LIMIT`]
    /// turns the player the other way round, the keys add to the walking
    /// direction, which is brought to length one, and the action key asks for
    /// a jump.
    pub open spec fn after_input(self, input: DefaultInput) -> PlayerController {
        if !(self.spec_is_initialized() && input.mouse_lock) {
            self
        } else {
            PlayerController {
                delta_rotation: if -MOUSE_JUMP_LIMIT < input.delta.x < MOUSE_JUMP_LIMIT {
                    Vec3 { y: spec_negate(input.delta.x), ..self.delta_rotation }
                } else {
                    self.delta_rotation
                },
                delta_translation: (Vec3 {
                    x: spec_plus(self.delta_translation.x, input.right),
                    y: self.delta_translation.y,
                    z: spec_plus(self.delta_translation.z, input.forward),
                }).spec_normalize(),
                should_jump: self.should_jump || input.action,
                ..self
            }
        }
    }

    /// Whether the next update lifts `controlled` off the ground.
    pub open spec fn lifts(self, controlled: Option<Controlled>) -> bool {
        controlled matches Some(body) && body.physics is Some && self.jumps()
    }

    /// The controller after an update: the gathered input is forgotten, and
    /// a jump is counted and adds [`JUMP_VELOCITY`] to the upward speed.
    /// Nothing changes before the controller has taken over an entity.
    pub open spec fn after_update(self, controlled: Option<Controlled>) -> PlayerController {
        if !self.spec_is_initialized() {
            self
        } else {
            PlayerController {
                delta_translation: Vec3::spec_zeros(),
                delta_rotation: Vec3::spec_zeros(),
                should_jump: false,
                current_jumps: if self.lifts(controlled) {
                    (self.current_jumps + 1) as u32
                } else {
                    self.current_jumps
                },
                delta_velocity: if self.lifts(controlled) {
                    Vec3 {
                        y: spec_plus(self.delta_velocity.y, JUMP_VELOCITY),
                        ..self.delta_velocity
                    }
                } else {
                    self.delta_velocity
                },
                ..self
            }
        }
    }

    /// The controlled entity after an update. An entity with a physics
    /// component is pushed as [`pushed`] says, and lifted if it jumps. A
    /// grounded entity with an animation component runs while it walks and
    /// stands otherwise. Nothing changes before the controller has taken
    /// over an entity.
    pub open spec fn moved(self, controlled: Option<Controlled>, delta_in_seconds: i64) -> Option<
        Controlled,
    > {
        if !self.spec_is_initialized() {
            controlled
        } else {
            match controlled {
                Some(body) => Some(
                    Controlled {
                        direction: body.direction,
                        speed: body.speed,
                        physics: match body.physics {
                            Some(physics) => Some(
                                pushed(
                                    physics,
                                    body.direction,
                                    body.speed,
                                    self.delta_translation,
                                    self.delta_rotation,
                                    delta_in_seconds,
                                    if self.jumps() {
                                        Some(self.after_update(controlled).delta_velocity)
                                    } else {
                                        None
                                    },
                                ),
                            ),
                            None => None,
                        },
                        animation: match body.animation {
                            Some(animation) => Some(
                                if !self.is_grounded {
                                    animation
                                } else if self.delta_translation.spec_magnitude_squared() > 0 {
                                    AnimationComponent { current: animation.running, ..animation }
                                } else {
                                    AnimationComponent { current: animation.idle, ..animation }
                                },
                            ),
                            None => None,
                        },
                    },
                ),
                None => None,
            }
        }
    }

    /// Gathers one frame of input, as [`PlayerController::after_input`]
    /// says.
    pub fn input(&mut self, input: &DefaultInput)
        ensures
            *final(self) == old(self).after_input(*input),
    {
        if self.id == NIL_ID {
            return ;
        }
        if !input.mouse_lock {
            return ;
        }
        if -MOUSE_JUMP_LIMIT < input.delta.x && input.delta.x < MOUSE_JUMP_LIMIT {
            self.delta_rotation.y = negate(input.delta.x);
        }
        self.delta_translation.z = plus(self.delta_translation.z, input.forward);
        self.delta_translation.x = plus(self.delta_translation.x, input.right);
        if self.delta_translation.magnitude_squared() > 0 {
            self.delta_translation = self.delta_translation.normalize();
        }
        if input.action {
            self.should_jump = true;
        }
    }

    /// Applies the gathered input to the controlled entity and forgets it:
    /// the entity becomes what [`PlayerController::moved`] says, the
    /// controller what [`PlayerController::after_update`] says.
    pub fn update(&mut self, controlled: Option<Controlled>, delta_in_seconds: i64) -> (after:
        Option<Controlled>)
        ensures
            *final(self) == old(self).after_update(controlled),
            after == old(self).moved(controlled, delta_in_seconds),
    {
        if self.id == NIL_ID {
            return controlled;
        }
        let after = match controlled {
            Some(body) => {
                let physics = match body.physics {
                    Some(mut physics) => {
                        let side = Vec3::new(negate(body.direction.z), 0, body.direction.x).normalize();
                        physics.delta_translation = physics.delta_translation.plus(
                            side.scale(body.speed).scale(self.delta_translation.x),
                        );
                        physics.delta_translation = physics.delta_translation.plus(
                            body.direction.scale(body.speed).scale(self.delta_translation.z),
                        );
                        physics.delta_rotation = physics.delta_rotation.plus(
                            self.delta_rotation.scale(TURN_RATE).scale(delta_in_seconds),
                        );
                        if self.should_jump && self.current_jumps < MAX_JUMPS {
                            self.current_jumps += 1;
                            self.delta_velocity.y = plus(self.delta_velocity.y, JUMP_VELOCITY);
                            physics.delta_translation = physics.delta_translation.plus(
                                self.delta_velocity,
                            );
                            self.should_jump = false;
                        }
                        Some(physics)
                    },
                    None => None,
                };
                let animation = match body.animation {
                    Some(mut animation) => {
                        if self.is_grounded {
                            if self.delta_translation.magnitude_squared() > 0 {
                                animation.current = animation.running;
                            } else {
                                animation.current = animation.idle;
                            }
                        }
                        Some(animation)
                    },
                    None => None,
                };
                Some(Controlled { direction: body.direction, speed: body.speed, physics, animation })
            },
            None => None,
        };
        self.reset_input();
        after
    }

    /// The controller of a player that stands on something: grounded, with
    /// no jump counted.
    pub open spec fn grounded(self) -> PlayerController {
        PlayerController { is_grounded: true, current_jumps: 0, ..self }
    }

    /// The controller of a player in the air.
    pub open spec fn airborne(self) -> PlayerController {
        PlayerController { is_grounded: false, ..self }
    }

    /// Something touches the player: the player stands on it and may jump
    /// anew.
    pub fn on_collision_start(&mut self)
        ensures
            *final(self) == old(self).grounded(),
    {
        self.is_grounded = true;
        self.current_jumps = 0;
    }

    /// Something no longer touches the player: the player is in the air.
    pub fn on_collision_stop(&mut self)
        ensures
            *final(self) == old(self).airborne(),
    {
        self.is_grounded = false;
    }
}

} // verus!
