//! The players of a room: for each player its entity and the frame lock of
//! its trusted inputs, kept in one table so that they come and go together.

use crate::shared::entity::Entity;
use crate::shared::keys::keys_of;
use std::collections::HashMap;
use vstd::prelude::*;

verus! {

broadcast use vstd::std_specs::hash::group_hash_axioms;

/// One player of the room.
#[derive(Clone, Copy, Debug, PartialEq, Eq, Structural)]
pub struct PlayerSlot {
    pub player_id: u128,
    pub entity: Entity,
    pub input_lock: u32,
}

/// The players of the room, by identifier.
pub struct PlayerTable {
    pub slots: HashMap<u128, PlayerSlot>,
}

impl PlayerTable {
    /// Every slot is kept under the identifier of its player.
    pub open spec fn wf(&self) -> bool {
        forall|player_id: u128|
            self.slots@.contains_key(player_id) ==> (#[trigger] self.slots@[player_id]).player_id
                == player_id
    }

    /// Whether `player_id` is in the room.
    pub open spec fn has(&self, player_id: u128) -> bool {
        self.slots@.contains_key(player_id)
    }

    /// The slot of `player_id`, who is in the room.
    pub open spec fn slot_of(&self, player_id: u128) -> PlayerSlot {
        self.slots@[player_id]
    }

    /// An empty room.
    pub fn new() -> (table: PlayerTable)
        ensures
            table.wf(),
            table.slots@ == Map::<u128, PlayerSlot>::empty(),
    {
        PlayerTable { slots: HashMap::new() }
    }

    /// The slot of `player_id`, if it is in the room.
    pub fn get(&self, player_id: u128) -> (found: Option<PlayerSlot>)
        ensures
            found == (if self.has(player_id) {
                Some(self.slot_of(player_id))
            } else {
                None
            }),
    {
        match self.slots.get(&player_id) {
            Some(slot) => Some(*slot),
            None => None,
        }
    }

    /// Lists `slot` under the identifier of its player, in the place of the
    /// slot that the player had.
    pub fn insert(&mut self, slot: PlayerSlot)
        requires
            old(self).wf(),
        ensures
            final(self).wf(),
            final(self).slots@ == old(self).slots@.insert(slot.player_id, slot),
    {
        self.slots.insert(slot.player_id, slot);
    }

    /// Takes `player_id` off the list, if it is on it, and hands its slot
    /// out.
    pub fn remove(&mut self, player_id: u128) -> (gone: Option<PlayerSlot>)
        requires
            old(self).wf(),
        ensures
            final(self).wf(),
            gone == (if old(self).has(player_id) {
                Some(old(self).slot_of(player_id))
            } else {
                None
            }),
            final(self).slots@ == old(self).slots@.remove(player_id),
    {
        self.slots.remove(&player_id)
    }

    /// Every player of the room, each once, in no fixed order.
    pub fn ids(&self) -> (ids: Vec<u128>)
        ensures
            ids@.no_duplicates(),
            forall|id: u128| ids@.contains(id) <==> self.has(id),
    {
        keys_of(&self.slots)
    }

    /// The players of the room but `player_id`, each once, in no fixed
    /// order.
    pub fn others(&self, player_id: u128) -> (ids: Vec<u128>)
        ensures
            ids@.no_duplicates(),
            forall|id: u128| ids@.contains(id) <==> self.has(id) && id != player_id,
    {
        let all = keys_of(&self.slots);
        let mut ids: Vec<u128> = Vec::new();
        let mut i: usize = 0;
        while i < all.len()
            invariant
                i <= all@.len(),
                all@.no_duplicates(),
                ids@.no_duplicates(),
                forall|id: u128|
                    ids@.contains(id) <==> all@.take(i as int).contains(id) && id != player_id,
            decreases all@.len() - i,
        {
            let id = all[i];
            let ghost before = all@.take(i as int);
            let ghost after = all@.take(i + 1);
            let ghost kept = ids@;
            proof {
                assert(after == before.push(id));
                assert forall|other: u128|
                    after.contains(other) <==> before.contains(other) || other == id by {
                    if before.contains(other) {
                        let k = choose|k: int| 0 <= k < before.len() && before[k] == other;
                        assert(after[k] == other);
                    }
                    if other == id {
                        assert(after[i as int] == other);
                    }
                    if after.contains(other) {
                        let k = choose|k: int| 0 <= k < after.len() && after[k] == other;
                        if k < i {
                            assert(before[k] == other);
                        }
                    }
                }
                assert(!before.contains(id)) by {
                    if before.contains(id) {
                        let k = choose|k: int| 0 <= k < before.len() && before[k] == id;
                        assert(all@[k] == id && all@[i as int] == id);
                    }
                }
                assert(!kept.contains(id));
            }
            if id != player_id {
                ids.push(id);
                proof {
                    assert forall|other: u128|
                        ids@.contains(other) <==> kept.contains(other) || other == id by {
                        if kept.contains(other) {
                            let k = choose|k: int| 0 <= k < kept.len() && kept[k] == other;
                            assert(ids@[k] == other);
                        }
                        if other == id {
                            assert(ids@[ids@.len() - 1] == other);
                        }
                        if ids@.contains(other) {
                            let k = choose|k: int| 0 <= k < ids@.len() && ids@[k] == other;
                            if k < kept.len() {
                                assert(kept[k] == other);
                            }
                        }
                    }
                    assert forall|a: int, b: int|
                        0 <= a < ids@.len() && 0 <= b < ids@.len() && a != b implies ids@[a]
                        != ids@[b] by {
                        if a == kept.len() {
                            assert(kept[b] == ids@[b]);
                            assert(kept.contains(ids@[b]));
                        } else if b == kept.len() {
                            assert(kept[a] == ids@[a]);
                            assert(kept.contains(ids@[a]));
                        } else {
                            assert(kept[a] == ids@[a] && kept[b] == ids@[b]);
                        }
                    }
                }
            }
            proof {
                assert forall|other: u128|
                    ids@.contains(other) <==> after.contains(other) && other != player_id by {
                    assert(after.contains(other) <==> before.contains(other) || other == id);
                    assert(kept.contains(other) <==> before.contains(other) && other != player_id);
                    if id != player_id {
                        assert(ids@.contains(other) <==> kept.contains(other) || other == id);
                    }
                }
            }
            i += 1;
        }
        proof {
            assert(all@.take(all@.len() as int) == all@);
        }
        ids
    }
}

} // verus!
