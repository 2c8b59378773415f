//! The smoke bomb: once thrown it stays for a fixed time.

use crate::shared::units::{plus, spec_plus};
use vstd::prelude::*;

verus! {

/// How long a smoke bomb stays, in seconds.
pub const ACTIVE_TIME: i64 = 10_000_000;

/// What the host does with the smoke bomb's entity after one frame of
/// input.
#[derive(Clone, Copy, Debug, PartialEq, Eq, Structural)]
pub struct SmokeBombOrder {
    /// Unpack the smoke bomb's prefab onto the entity, parented to itself.
    pub deploy: bool,
    /// Remove the entity from the scene.
    pub remove: bool,
}

/// The state of the smoke bomb system.
#[derive(Clone, Copy, Debug, PartialEq, Eq, Structural)]
pub struct SmokeBombSystem {
    pub timer: i64,
    pub is_active: bool,
}

impl SmokeBombSystem {
    /// Whether a bomb is thrown on this frame: the player asks for one and
    /// none is active.
    pub open spec fn deploys(&self, thrown: bool) -> bool {
        thrown && !self.is_active
    }

    /// Whether the active time has run out.
    pub open spec fn expires(&self) -> bool {
        self.timer >= ACTIVE_TIME
    }

    /// A system without an active bomb.
    pub fn initialize() -> (system: SmokeBombSystem)
        ensures
            system == (SmokeBombSystem { timer: 0, is_active: false }),
    {
        SmokeBombSystem { timer: 0, is_active: false }
    }

    /// Takes one frame of input: `thrown` says whether the player asks for
    /// a smoke bomb. A bomb is deployed if none is active; once the timer
    /// has reached [`ACTIVE_TIME`], the bomb ends and the timer starts
    /// over.
    pub fn handle_input(&mut self, thrown: bool) -> (order: SmokeBombOrder)
        ensures
            order == (SmokeBombOrder {
                deploy: old(self).deploys(thrown),
                remove: old(self).expires(),
            }),
            final(self).is_active == (!old(self).expires() && (old(self).is_active || thrown)),
            final(self).timer == (if old(self).expires() {
                0
            } else {
                old(self).timer
            }),
    {
        let deploy = thrown && !self.is_active;
        if deploy {
            self.is_active = true;
        }
        let remove = self.timer >= ACTIVE_TIME;
        if remove {
            self.is_active = false;
            self.timer = 0;
        }
        SmokeBombOrder { deploy, remove }
    }

    /// One tick. Without an input nothing happens. With one, the input is
    /// handled, and the timer of an active bomb moves on by `delta_time`.
    pub fn run(&mut self, input: Option<bool>, delta_time: i64) -> (order: Option<SmokeBombOrder>)
        ensures
            input is None ==> order is None && *final(self) == *old(self),
            input matches Some(thrown) ==> {
                &&& order == Some(
                    SmokeBombOrder {
                        deploy: old(self).deploys(thrown),
                        remove: old(self).expires(),
                    },
                )
                &&& final(self).is_active == (!old(self).expires() && (old(self).is_active
                    || thrown))
                &&& final(self).timer == ({
                    let kept = if old(self).expires() {
                        0
                    } else {
                        old(self).timer
                    };
                    if final(self).is_active {
                        spec_plus(kept, delta_time)
                    } else {
                        kept
                    }
                })
            },
    {
        match input {
            Some(thrown) => {
                let order = self.handle_input(thrown);
                if self.is_active {
                    self.timer = plus(self.timer, delta_time);
                }
                Some(order)
            },
            None => None,
        }
    }
}

} // verus!
