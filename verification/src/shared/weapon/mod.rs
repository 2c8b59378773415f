//! Weapons: what a player carries decides its shield and its health bonus.
//! The abilities have no effect yet.

pub mod cleric;
pub mod great_ax;
pub mod hammer;
pub mod tank;

use crate::shared::weapon::cleric::Cleric;
use crate::shared::weapon::great_ax::GreatAx;
use crate::shared::weapon::hammer::Hammer;
use crate::shared::weapon::tank::Tank;
use vstd::prelude::*;

verus! {

/// What every weapon can do. A weapon that says nothing of its shield or its
/// health grants none.
pub trait Weapon: Sync + Send {
    /// The shield that the weapon grants.
    fn shield(&self) -> (points: i64)
        default_ensures
            points == 0,
    {
        0
    }

    /// The health that the weapon grants.
    fn health(&self) -> (points: i64)
        default_ensures
            points == 0,
    {
        0
    }

    /// The weapon's first ability.
    fn primary_ability(&self) {
    }

    /// The weapon's second ability.
    fn secondary_ability(&self) {
    }

    /// The weapon's strongest ability.
    fn ultimate_ability(&self) {
    }
}

/// The weapon that a player holds: one of the four kinds.
pub enum Armament {
    Cleric(Cleric),
    GreatAx(GreatAx),
    Hammer(Hammer),
    Tank(Tank),
}

impl Armament {
    /// The shield that each kind grants: 4 for the cleric and the tank, none
    /// for the others.
    pub open spec fn spec_shield(&self) -> i64 {
        match self {
            Armament::Cleric(_) | Armament::Tank(_) => 4_000_000,
            Armament::GreatAx(_) | Armament::Hammer(_) => 0,
        }
    }

    /// The health that each kind grants: none for the cleric, 2 for the
    /// others.
    pub open spec fn spec_health(&self) -> i64 {
        match self {
            Armament::Cleric(_) => 0,
            Armament::GreatAx(_) | Armament::Hammer(_) | Armament::Tank(_) => 2_000_000,
        }
    }
}

impl Weapon for Armament {
    fn shield(&self) -> (points: i64)
        ensures
            points == self.spec_shield(),
    {
        match self {
            Armament::Cleric(weapon) => weapon.shield(),
            Armament::GreatAx(weapon) => weapon.shield(),
            Armament::Hammer(weapon) => weapon.shield(),
            Armament::Tank(weapon) => weapon.shield(),
        }
    }

    fn health(&self) -> (points: i64)
        ensures
            points == self.spec_health(),
    {
        match self {
            Armament::Cleric(weapon) => weapon.health(),
            Armament::GreatAx(weapon) => weapon.health(),
            Armament::Hammer(weapon) => weapon.health(),
            Armament::Tank(weapon) => weapon.health(),
        }
    }
}

} // verus!
