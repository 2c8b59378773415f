//! The great ax.

use crate::shared::weapon::Weapon;
use vstd::prelude::*;

verus! {

/// The great ax: shield 0, health 2.
pub struct GreatAx {}

impl Weapon for GreatAx {
    fn shield(&self) -> (points: i64)
        ensures
            points == 0,
    {
        0
    }

    fn health(&self) -> (points: i64)
        ensures
            points == 2_000_000,
    {
        2_000_000
    }
}

impl GreatAx {
    /// A new great ax.
    pub fn new() -> (weapon: GreatAx)
        ensures
            weapon == (GreatAx {  }),
    {
        GreatAx {  }
    }
}

} // verus!
