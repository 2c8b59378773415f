//! The hover vehicle: how it gains and loses speed, how it turns, and how it
//! floats above the surface below it.
//!
//! The host casts the ray and takes the sine; everything else is decided
//! here.

use crate::shared::components::PlayerMovementComponent;
use crate::shared::input::PlayerInput;
use crate::shared::units::{
    clamp, minus, negate, plus, spec_clamp, spec_minus, spec_negate, spec_plus, spec_times, times, Vec3,
    MICRO,
};
use vstd::prelude::*;

verus! {

/// How far the hover ray reaches.
pub const HOVER_RAY_REACH: i64 = 1_000_000;

/// The settings of the physics world that the movement system touches.
#[derive(Clone, Copy, Debug, PartialEq, Eq, Structural)]
pub struct PhysicsConfig {
    pub gravity: Vec3,
}

/// The handle of a rigid body in the physics world.
#[derive(Clone, Copy, Debug, PartialEq, Eq, Structural)]
pub struct RigidBodyHandle {
    pub index: u32,
    pub generation: u32,
}

/// The ray that looks for the surface below a vehicle: where it starts,
/// where it points, how far it reaches, whether shapes count as solid, and
/// the one body that it passes through, the vehicle's own.
#[derive(Clone, Copy, Debug, PartialEq, Eq, Structural)]
pub struct HoverRay {
    pub origin: Vec3,
    pub direction: Vec3,
    pub reach: i64,
    pub solid: bool,
    pub exclude: RigidBodyHandle,
}

/// The velocities that one tick asks of a vehicle's body.
#[derive(Clone, Copy, Debug, PartialEq, Eq, Structural)]
pub struct Drive {
    pub linear: Vec3,
    pub angular: Vec3,
}

/// The state of the movement system.
#[derive(Clone, Copy, Debug, PartialEq, Eq, Structural)]
pub struct PlayerMovementSystem {
    pub running_time: i64,
    pub initialized: bool,
    pub current_velocity: i64,
}

/// The speed after one tick without forward input: it moves toward zero by
/// `deceleration` times `delta_time` and stops at zero.
pub open spec fn decelerated(velocity: i64, deceleration: i64, delta_time: i64) -> i64 {
    let step = spec_times(deceleration, delta_time);
    if velocity > 0 {
        if spec_minus(velocity, step) < 0 {
            0
        } else {
            spec_minus(velocity, step)
        }
    } else if velocity < 0 {
        if spec_plus(velocity, step) > 0 {
            0
        } else {
            spec_plus(velocity, step)
        }
    } else {
        velocity
    }
}

/// The speed after one tick: with forward input it grows by acceleration
/// times `delta_time` times the input and is held within the top speed;
/// without, it decays.
pub open spec fn accelerated(
    velocity: i64,
    forward_input: i64,
    tuning: PlayerMovementComponent,
    delta_time: i64,
) -> i64 {
    if forward_input != 0 {
        spec_clamp(
            spec_plus(
                velocity,
                spec_times(spec_times(tuning.acceleration, delta_time), forward_input),
            ),
            spec_negate(tuning.max_velocity),
            tuning.max_velocity,
        )
    } else {
        decelerated(velocity, tuning.deceleration, delta_time)
    }
}

/// The direction that a vehicle takes for up: the opposite of its down
/// vector.
pub open spec fn up_of(tuning: PlayerMovementComponent) -> Vec3 {
    tuning.down_vector.spec_negate()
}

/// The velocities of one tick: along `direction` at the current speed, and
/// round the up axis at the rotation speed, each scaled by `delta_time` and
/// by its input.
pub open spec fn driven(
    velocity: i64,
    tuning: PlayerMovementComponent,
    direction: Vec3,
    forward_input: i64,
    right_input: i64,
    delta_time: i64,
) -> Drive {
    Drive {
        linear: direction.spec_scale(velocity).spec_scale(delta_time).spec_scale(forward_input),
        angular: up_of(tuning).spec_scale(tuning.rotation_speed).spec_scale(delta_time).spec_scale(
            right_input,
        ),
    }
}

/// How fast the vehicle rises at the moment when the hover swing stands at
/// `sine`: the swing times the span between the two hover heights, above the
/// lower height.
pub open spec fn hover_lift(tuning: PlayerMovementComponent, sine: i64) -> i64 {
    spec_plus(
        spec_times(
            sine,
            spec_minus(tuning.max_height_from_surface, tuning.min_height_from_surface),
        ),
        tuning.min_height_from_surface,
    )
}

/// Whatever the speed was, a tick with forward input leaves it within the top
/// speed; a tick without forward input that does not accelerate leaves it
/// within the top speed if it was there before.
pub proof fn lemma_velocity_is_clamped(
    velocity: i64,
    forward_input: i64,
    tuning: PlayerMovementComponent,
    delta_time: i64,
)
    requires
        tuning.max_velocity >= 0,
        forward_input == 0 ==> -tuning.max_velocity <= velocity <= tuning.max_velocity
            && spec_times(tuning.deceleration, delta_time) >= 0,
    ensures
        -tuning.max_velocity <= accelerated(velocity, forward_input, tuning, delta_time)
            <= tuning.max_velocity,
{
}

/// Without forward input, and with a deceleration step that is not
/// negative, the speed comes no further from zero and does not change its
/// sign: it decays or stops.
pub proof fn lemma_deceleration_never_overshoots(velocity: i64, deceleration: i64, delta_time: i64)
    requires
        spec_times(deceleration, delta_time) >= 0,
    ensures
        velocity >= 0 ==> 0 <= decelerated(velocity, deceleration, delta_time) <= velocity,
        velocity <= 0 ==> velocity <= decelerated(velocity, deceleration, delta_time) <= 0,
        velocity != 0 && spec_times(deceleration, delta_time) > 0 ==> decelerated(
            velocity,
            deceleration,
            delta_time,
        ) != velocity,
{
}

/// While the hover swing does not pull below the lower height, the lift lies
/// between the two hover heights.
pub proof fn lemma_hover_lift_is_bounded(tuning: PlayerMovementComponent, sine: i64)
    requires
        tuning.min_height_from_surface <= tuning.max_height_from_surface,
        -MICRO <= sine <= MICRO,
        spec_times(
            sine,
            spec_minus(tuning.max_height_from_surface, tuning.min_height_from_surface),
        ) >= 0,
    ensures
        tuning.min_height_from_surface <= hover_lift(tuning, sine)
            <= tuning.max_height_from_surface,
{
    let span = spec_minus(tuning.max_height_from_surface, tuning.min_height_from_surface);
    assert(0 <= span <= tuning.max_height_from_surface - tuning.min_height_from_surface);
    if sine >= 0 {
        assert(sine * span <= 1_000_000 * span) by (nonlinear_arith)
            requires
                0 <= sine <= 1_000_000,
                0 <= span,
        ;
        assert(0 <= sine * span) by (nonlinear_arith)
            requires
                0 <= sine,
                0 <= span,
        ;
        assert((sine * span) / 1_000_000 <= span);
    } else {
        assert(sine * span <= 0) by (nonlinear_arith)
            requires
                sine < 0,
                0 <= span,
        ;
    }
}

impl PlayerMovementSystem {
    /// A system at rest: no time has run and the vehicle stands.
    pub fn initialize() -> (system: PlayerMovementSystem)
        ensures
            system == (PlayerMovementSystem {
                running_time: 0,
                initialized: false,
                current_velocity: 0,
            }),
    {
        PlayerMovementSystem { running_time: 0, initialized: false, current_velocity: 0 }
    }

    /// Switches gravity off in the physics settings, if there are any: the
    /// vehicle hovers.
    pub fn attach(&mut self, physics: Option<PhysicsConfig>) -> (after: Option<PhysicsConfig>)
        ensures
            *final(self) == *old(self),
            after == (match physics {
                Some(config) => Some(PhysicsConfig { gravity: Vec3::spec_zeros() }),
                None => None,
            }),
    {
        match physics {
            Some(_) => Some(PhysicsConfig { gravity: Vec3::zeros() }),
            None => None,
        }
    }

    /// Lets the speed decay by one tick.
    pub fn decelerate(&mut self, player_movement: &PlayerMovementComponent, delta_time: i64)
        ensures
            final(self).current_velocity == decelerated(
                old(self).current_velocity,
                player_movement.deceleration,
                delta_time,
            ),
            final(self).running_time == old(self).running_time,
            final(self).initialized == old(self).initialized,
    {
        let step = times(player_movement.deceleration, delta_time);
        if self.current_velocity > 0 {
            self.current_velocity = minus(self.current_velocity, step);
            if self.current_velocity < 0 {
                self.current_velocity = 0;
            }
        } else if self.current_velocity < 0 {
            self.current_velocity = plus(self.current_velocity, step);
            if self.current_velocity > 0 {
                self.current_velocity = 0;
            }
        }
    }

    /// Moves the speed by one tick. Where there is forward input, the top
    /// speed must not be negative.
    pub fn accelerate(
        &mut self,
        forward_input: i64,
        player_movement: &PlayerMovementComponent,
        delta_time: i64,
    )
        requires
            forward_input != 0 ==> player_movement.max_velocity >= 0,
        ensures
            final(self).current_velocity == accelerated(
                old(self).current_velocity,
                forward_input,
                *player_movement,
                delta_time,
            ),
            forward_input != 0 ==> -player_movement.max_velocity <= final(self).current_velocity
                <= player_movement.max_velocity,
            final(self).running_time == old(self).running_time,
            final(self).initialized == old(self).initialized,
    {
        if forward_input != 0 {
            let gained = plus(
                self.current_velocity,
                times(times(player_movement.acceleration, delta_time), forward_input),
            );
            self.current_velocity = clamp(
                gained,
                negate(player_movement.max_velocity),
                player_movement.max_velocity,
            );
        } else {
            self.decelerate(player_movement, delta_time);
        }
    }

    /// Whether the mouse is to be captured: on a left click while it is
    /// free.
    pub fn capture_mouse(&self, input: &PlayerInput) -> (capture: bool)
        ensures
            capture == (input.left_click && !input.mouse_lock),
    {
        input.left_click && !input.mouse_lock
    }

    /// One tick of steering for one vehicle that faces `direction`: the
    /// forward input is the input's z, the turning input the opposite of its
    /// x. The speed moves by one tick, and the body is asked for the
    /// velocities that [`driven`] gives at the new speed.
    pub fn handle_input(
        &mut self,
        player_component: &PlayerMovementComponent,
        direction: Vec3,
        input: &PlayerInput,
        delta_time: i64,
    ) -> (drive: Drive)
        requires
            input.direction_vector.z != 0 ==> player_component.max_velocity >= 0,
        ensures
            final(self).current_velocity == accelerated(
                old(self).current_velocity,
                input.direction_vector.z,
                *player_component,
                delta_time,
            ),
            final(self).running_time == old(self).running_time,
            final(self).initialized == old(self).initialized,
            drive == driven(
                final(self).current_velocity,
                *player_component,
                direction,
                input.direction_vector.z,
                spec_negate(input.direction_vector.x),
                delta_time,
            ),
    {
        let forward_input = input.direction_vector.z;
        let right_input = negate(input.direction_vector.x);
        self.accelerate(forward_input, player_component, delta_time);
        let player_up = player_component.down_vector.negate();
        Drive {
            linear: direction.scale(self.current_velocity).scale(delta_time).scale(forward_input),
            angular: player_up.scale(player_component.rotation_speed).scale(delta_time).scale(
                right_input,
            ),
        }
    }

    /// The ray that looks for the surface below a vehicle at `translation`
    /// whose rigid body is `own_body`: from there, against the vehicle's up,
    /// as far as [`HOVER_RAY_REACH`], against solid shapes, passing through
    /// the vehicle's own body. A vehicle without a rigid body casts no
    /// ray.
    pub fn hover_ray(
        &self,
        player_component: &PlayerMovementComponent,
        translation: Vec3,
        own_body: Option<RigidBodyHandle>,
    ) -> (ray: Option<HoverRay>)
        ensures
            ray == (match own_body {
                Some(handle) => Some(
                    HoverRay {
                        origin: translation,
                        direction: up_of(*player_component).spec_negate(),
                        reach: HOVER_RAY_REACH,
                        solid: true,
                        exclude: handle,
                    },
                ),
                None => None,
            }),
    {
        match own_body {
            Some(handle) => Some(
                HoverRay {
                    origin: translation,
                    direction: player_component.down_vector.negate().negate(),
                    reach: HOVER_RAY_REACH,
                    solid: true,
                    exclude: handle,
                },
            ),
            None => None,
        }
    }

    /// Takes the outcome of the hover ray: on a hit, down becomes the
    /// opposite of the normal of the surface that was hit; without a hit,
    /// nothing changes.
    pub fn align(&self, player_component: &mut PlayerMovementComponent, hit_normal: Option<Vec3>)
        ensures
            *final(player_component) == (match hit_normal {
                Some(normal) => PlayerMovementComponent {
                    down_vector: normal.spec_negate(),
                    ..*old(player_component)
                },
                None => *old(player_component),
            }),
    {
        match hit_normal {
            Some(normal) => {
                player_component.down_vector = normal.negate();
            },
            None => {},
        }
    }

    /// The angle of the hover swing now: the time that has run, times the
    /// swing's speed. The host takes its sine.
    pub fn hover_phase(&self, player_component: &PlayerMovementComponent) -> (phase: i64)
        ensures
            phase == spec_times(self.running_time, player_component.height_from_surface_speed),
    {
        times(self.running_time, player_component.height_from_surface_speed)
    }

    /// One tick of hovering for one vehicle, after the ray was cast: the
    /// body's velocity `old_linvel` with the lift of [`hover_lift`] added
    /// along the vehicle's up.
    pub fn handle_hover(
        &self,
        player_component: &PlayerMovementComponent,
        old_linvel: Vec3,
        sine: i64,
    ) -> (linvel: Vec3)
        ensures
            linvel == old_linvel.spec_plus(
                up_of(*player_component).spec_scale(hover_lift(*player_component, sine)),
            ),
    {
        let height_delta = minus(
            player_component.max_height_from_surface,
            player_component.min_height_from_surface,
        );
        let player_up = player_component.down_vector.negate();
        old_linvel.plus(
            player_up.scale(plus(times(sine, height_delta), player_component.min_height_from_surface)),
        )
    }

    /// Ends a tick: the time that has run grows by `delta_time`.
    pub fn run(&mut self, delta_time: i64)
        ensures
            final(self).running_time == spec_plus(old(self).running_time, delta_time),
            final(self).current_velocity == old(self).current_velocity,
            final(self).initialized == old(self).initialized,
    {
        self.running_time = plus(self.running_time, delta_time);
    }
}

} // verus!
