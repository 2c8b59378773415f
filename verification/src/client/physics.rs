//! What the client does with each physics body on a physics tick, and what
//! it takes back from the physics world afterwards.

use crate::shared::components::PhysicsComponent;
use crate::shared::entity::Entity;
use crate::shared::units::{TransformComponent, Vec3};
use vstd::prelude::*;

verus! {

/// An entity whose height is below this has fallen out of the world.
pub const FALLOUT_HEIGHT: i64 = -700_000_000;

/// The downward pull that the client simulates with.
pub const GRAVITY: i64 = -98_100_000;

/// The handle of a collider in the physics world.
#[derive(Clone, Copy, Debug, PartialEq, Eq, Structural)]
pub struct ColliderHandle {
    pub index: u32,
    pub generation: u32,
}

/// What the scene and the physics world hold of one entity with a physics
/// component: where it is, whether its body exists, and its collider if it
/// has one.
#[derive(Clone, Copy, Debug)]
pub struct PhysicsBody {
    pub entity: Entity,
    pub translation: Vec3,
    pub has_body: bool,
    pub collider: Option<ColliderHandle>,
}

/// What the host does with one entity on a physics tick.
#[derive(Clone, Copy, Debug, PartialEq, Eq, Structural)]
pub enum PhysicsCommand {
    /// Take the entity out of the scene and its collider out of the physics
    /// world, once all entities were looked at and before the world steps.
    Despawn { entity: Entity, collider: ColliderHandle },
    /// Make the body, the collider and the joints of the entity; then, if
    /// none of its colliders was wanting, drive the body.
    Materialise { entity: Entity },
    /// Set the body's velocities to what its physics component asks for.
    Drive { entity: Entity },
}

/// How a joint holds a body to its parent's.
#[derive(Clone, Copy, Debug, PartialEq, Eq, Structural)]
pub enum JointConfig {
    Fixed { local_anchor: Vec3 },
    Spherical { local_anchor: Vec3 },
    Revolute { axis: Vec3, local_anchor: Vec3 },
}

/// A joint to be made between a body and its parent's body.
#[derive(Clone, Copy, Debug, PartialEq, Eq, Structural)]
pub struct JointOrder {
    pub config: JointConfig,
    pub anchor_on_parent: Vec3,
    pub contacts_enabled: bool,
}

/// Two colliders began or ceased to touch.
#[derive(Clone, Copy, Debug, PartialEq, Eq, Structural)]
pub struct CollisionEvent {
    pub collider1: ColliderHandle,
    pub collider2: ColliderHandle,
    pub started: bool,
    pub stopped: bool,
}

/// Whether an entity at `translation` has fallen out of the world.
pub open spec fn fallen_out(translation: Vec3) -> bool {
    translation.y < FALLOUT_HEIGHT
}

/// What is done with `body` on a physics tick: an entity that has fallen
/// out and has a collider leaves; an entity without a body gets one; every
/// other entity is driven.
pub open spec fn command_for(body: PhysicsBody) -> PhysicsCommand {
    if fallen_out(body.translation) && body.collider is Some {
        PhysicsCommand::Despawn { entity: body.entity, collider: body.collider->0 }
    } else if !body.has_body {
        PhysicsCommand::Materialise { entity: body.entity }
    } else {
        PhysicsCommand::Drive { entity: body.entity }
    }
}

/// The commands for `bodies`, one each, in order.
pub open spec fn commands_for(bodies: Seq<PhysicsBody>) -> Seq<PhysicsCommand> {
    bodies.map_values(|body: PhysicsBody| command_for(body))
}

/// What is done with `body` on a physics tick.
pub fn plan_body(body: &PhysicsBody) -> (command: PhysicsCommand)
    ensures
        command == command_for(*body),
{
    if body.translation.y < FALLOUT_HEIGHT {
        match body.collider {
            Some(collider) => {
                return PhysicsCommand::Despawn { entity: body.entity, collider };
            },
            None => {},
        }
    }
    if !body.has_body {
        PhysicsCommand::Materialise { entity: body.entity }
    } else {
        PhysicsCommand::Drive { entity: body.entity }
    }
}

/// The commands for `bodies`, one each, in order.
pub fn plan_bodies(bodies: &Vec<PhysicsBody>) -> (commands: Vec<PhysicsCommand>)
    ensures
        commands@ == commands_for(bodies@),
{
    let mut commands: Vec<PhysicsCommand> = Vec::new();
    let mut i: usize = 0;
    while i < bodies.len()
        invariant
            i <= bodies@.len(),
            commands@ == commands_for(bodies@.take(i as int)),
        decreases bodies@.len() - i,
    {
        commands.push(plan_body(&bodies[i]));
        assert(commands@ =~= commands_for(bodies@.take(i + 1)));
        i += 1;
    }
    assert(bodies@.take(bodies@.len() as int) == bodies@);
    commands
}

/// The joint that holds a body to its parent's: a body with a parent and a
/// joint configuration is held at the body's offset on the parent and at the
/// configured anchor on itself, without contacts between the two; any other
/// body hangs on nothing.
pub fn joint_order(has_parent: bool, offset: Vec3, config: Option<JointConfig>) -> (order: Option<
    JointOrder,
>)
    ensures
        order == (match config {
            Some(config) => if has_parent {
                Some(JointOrder { config, anchor_on_parent: offset, contacts_enabled: false })
            } else {
                None
            },
            None => None,
        }),
{
    match config {
        Some(config) => {
            if has_parent {
                Some(JointOrder { config, anchor_on_parent: offset, contacts_enabled: false })
            } else {
                None
            }
        },
        None => None,
    }
}

/// The transform of an entity after the physics world stepped: where its
/// collider is, less the offset of the body, turned as the collider is
/// turned.
pub open spec fn spec_settled_transform(
    physics: PhysicsComponent,
    collider_translation: Vec3,
    collider_rotation: Vec3,
) -> TransformComponent {
    TransformComponent {
        translation: collider_translation.spec_minus(physics.offset),
        rotation: collider_rotation,
    }
}

/// Takes the outcome of a physics step for one entity with a collider: its
/// new transform, and its physics component with the asked velocities back
/// at zero.
pub fn settle(physics: PhysicsComponent, collider_translation: Vec3, collider_rotation: Vec3) -> (after:
    (TransformComponent, PhysicsComponent))
    ensures
        after.0 == spec_settled_transform(physics, collider_translation, collider_rotation),
        after.1 == (PhysicsComponent {
            delta_translation: Vec3::spec_zeros(),
            delta_rotation: Vec3::spec_zeros(),
            ..physics
        }),
{
    (
        TransformComponent {
            translation: collider_translation.minus(physics.offset),
            rotation: collider_rotation,
        },
        PhysicsComponent {
            delta_translation: Vec3::zeros(),
            delta_rotation: Vec3::zeros(),
            ..physics
        },
    )
}

} // verus!
