//! The sky system. The sun does not move; the system only counts time.

use crate::shared::units::{plus, spec_plus};
use vstd::prelude::*;

verus! {

/// By how much the sky's clock moves per tick.
pub const SKY_TIME_STEP: i64 = 500;

/// How high the sun stands.
#[derive(Clone, Copy, Debug, PartialEq, Eq, Structural)]
pub struct SkyComponent {
    pub elevation: i64,
}

/// The state of the sky system: its clock.
#[derive(Clone, Copy, Debug, PartialEq, Eq, Structural)]
pub struct SkySystem {
    pub timing: i64,
}

impl SkySystem {
    /// A sky system whose clock stands at zero.
    pub fn initialize() -> (system: SkySystem)
        ensures
            system.timing == 0,
    {
        SkySystem { timing: 0 }
    }

    /// One tick: the clock moves by [`SKY_TIME_STEP`]. No component of the
    /// scene changes.
    pub fn run(&mut self)
        ensures
            final(self).timing == spec_plus(old(self).timing, SKY_TIME_STEP),
    {
        self.timing = plus(self.timing, SKY_TIME_STEP);
    }
}

} // verus!
