//! The cleric's staff.

use crate::shared::weapon::Weapon;
use vstd::prelude::*;

verus! {

/// The cleric's staff: shield 4, health 0.
pub struct Cleric {}

impl Weapon for Cleric {
    fn shield(&self) -> (points: i64)
        ensures
            points == 4_000_000,
    {
        4_000_000
    }

    fn health(&self) -> (points: i64)
        ensures
            points == 0,
    {
        0
    }
}

impl Cleric {
    /// A new cleric's staff.
    pub fn new() -> (weapon: Cleric)
        ensures
            weapon == (Cleric {  }),
    {
        Cleric {  }
    }
}

} // verus!
