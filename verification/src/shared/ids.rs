//! Identifiers: 128-bit numbers, zero standing for "none".

use vstd::prelude::*;

verus! {

/// The identifier that no entity carries.
pub const NIL_ID: u128 = 0;

/// The bits of an identifier that hold its version and its variant.
pub const VERSION_AND_VARIANT: u128 = 0x0000_0000_0000_f000_c000_0000_0000_0000;

/// What the version and variant bits of a random identifier hold: version 4,
/// variant 1.
pub const RANDOM_MARK: u128 = 0x0000_0000_0000_4000_8000_0000_0000_0000;

/// Whether `id` has the form of a random identifier.
pub open spec fn is_random_id(id: u128) -> bool {
    id & VERSION_AND_VARIANT == RANDOM_MARK
}

/// A random identifier is never the nil identifier.
pub proof fn lemma_random_id_is_not_nil(id: u128)
    requires
        is_random_id(id),
    ensures
        id != NIL_ID,
{
    assert(0u128 & 0x0000_0000_0000_f000_c000_0000_0000_0000u128 == 0u128) by (bit_vector);
}

/// Draws a fresh identifier with `uuid::Uuid::new_v4` and hands it out as
/// the number that `Uuid::as_u128` gives. Which identifier comes is up to
/// chance; trusted of it is only what `new_v4` does to every random number it
/// draws: it sets the version bits to 4 and the variant bits to binary 10.
#[verifier::external_body]
pub(crate) fn random_id() -> (id: u128)
    ensures
        is_random_id(id),
{
    uuid::Uuid::new_v4().as_u128()
}

/// A fresh identifier for a new entity; it is not nil.
pub fn fresh_id() -> (id: u128)
    ensures
        is_random_id(id),
        id != NIL_ID,
{
    let id = random_id();
    proof {
        lemma_random_id_is_not_nil(id);
    }
    id
}

} // verus!
