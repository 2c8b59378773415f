//! The hammer.

use crate::shared::weapon::Weapon;
use vstd::prelude::*;

verus! {

/// The hammer: shield 0, health 2.
pub struct Hammer {}

impl Weapon for Hammer {
    fn shield(&self) -> (points: i64)
        ensures
            points == 0,
    {
        0
    }

    fn health(&self) -> (points: i64)
        ensures
            points == 2_000_000,
    {
        2_000_000
    }
}

impl Hammer {
    /// A new hammer.
    pub fn new() -> (weapon: Hammer)
        ensures
            weapon == (Hammer {  }),
    {
        Hammer {  }
    }
}

} // verus!
