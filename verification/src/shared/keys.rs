//! Walking a table by its keys.

use std::collections::HashMap;
use vstd::prelude::*;
use vstd::std_specs::iter::IteratorSpec;

verus! {

broadcast use vstd::std_specs::hash::group_hash_axioms;

/// The keys of `table`, each once, in the order in which the table hands
/// them out; that order is not fixed.
pub fn keys_of<V>(table: &HashMap<u128, V>) -> (keys: Vec<u128>)
    ensures
        keys@.no_duplicates(),
        forall|key: u128| keys@.contains(key) <==> table@.contains_key(key),
{
    let mut keys: Vec<u128> = Vec::new();
    for key in walk: table.keys()
        invariant
            keys@ == walk.seq().take(walk.index() as int).map_values(|key: &u128| *key),
    {
        keys.push(*key);
    }
    proof {
        let all = table.keys().remaining();
        assert(keys@ =~= all.unref()) by {
            assert(forall|i: int| 0 <= i < all.len() ==> all.unref()[i] == *all[i]);
        }
        assert(keys@.to_set() == table@.dom());
        assert forall|key: u128| keys@.contains(key) <==> table@.contains_key(key) by {
            assert(keys@.to_set().contains(key) <==> keys@.contains(key));
        }
    }
    keys
}

} // verus!
