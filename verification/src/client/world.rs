//! The world system of the client: it owns the movement system and runs it
//! once per tick. The lights of the scene stay as they are.

use crate::shared::systems::player_movement::PlayerMovementSystem;
use crate::shared::units::spec_plus;
use vstd::prelude::*;

verus! {

/// The state of the world system.
#[derive(Clone, Copy, Debug, PartialEq, Eq, Structural)]
pub struct WorldSystem {
    pub player_movement: PlayerMovementSystem,
}

impl WorldSystem {
    /// A world system whose movement system is at rest.
    pub fn initialize() -> (system: WorldSystem)
        ensures
            system.player_movement == (PlayerMovementSystem {
                running_time: 0,
                initialized: false,
                current_velocity: 0,
            }),
    {
        WorldSystem { player_movement: PlayerMovementSystem::initialize() }
    }

    /// Ends a tick of `delta_time`, after the host has steered and hovered
    /// every vehicle through [`WorldSystem::player_movement`]: the movement
    /// system's time moves on.
    pub fn run(&mut self, delta_time: i64)
        ensures
            final(self).player_movement == (PlayerMovementSystem {
                running_time: spec_plus(old(self).player_movement.running_time, delta_time),
                ..old(self).player_movement
            }),
    {
        self.player_movement.run(delta_time);
    }
}

} // verus!
