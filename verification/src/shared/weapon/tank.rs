//! The tank's armour.

use crate::shared::weapon::Weapon;
use vstd::prelude::*;

verus! {

/// The tank's armour: shield 4, health 2.
pub struct Tank {}

impl Weapon for Tank {
    fn shield(&self) -> (points: i64)
        ensures
            points == 4_000_000,
    {
        4_000_000
    }

    fn health(&self) -> (points: i64)
        ensures
            points == 2_000_000,
    {
        2_000_000
    }
}

impl Tank {
    /// A new tank's armour.
    pub fn new() -> (weapon: Tank)
        ensures
            weapon == (Tank {  }),
    {
        Tank {  }
    }
}

} // verus!
