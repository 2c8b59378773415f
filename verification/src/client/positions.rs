//! The positions that remote players reported and that the client has not
//! shown yet: one queue per player, oldest first. A queue keeps the last
//! [`POSITION_CACHE_LIMIT`] positions, so that a player whose inputs arrive
//! faster than they are shown cannot fill the memory.

use crate::shared::units::Vec3;
use crate::shared::keys::keys_of;
use std::collections::{HashMap, VecDeque};
use vstd::prelude::*;

verus! {

broadcast use vstd::std_specs::hash::group_hash_axioms;

/// How many positions are kept per player. When a queue is full, the oldest
/// position makes room for a new one.
pub const POSITION_CACHE_LIMIT: usize = 64;

/// One position taken from the cache, to be written to the player's
/// transform.
#[derive(Clone, Copy, Debug, PartialEq, Eq, Structural)]
pub struct PositionUpdate {
    pub player_id: u128,
    pub translation: Vec3,
}

/// `queue` with `translation` added as its newest entry, the oldest one
/// dropped where the queue was full.
pub open spec fn pushed(queue: Seq<Vec3>, translation: Vec3) -> Seq<Vec3> {
    if queue.len() >= POSITION_CACHE_LIMIT {
        queue.skip(queue.len() - POSITION_CACHE_LIMIT + 1).push(translation)
    } else {
        queue.push(translation)
    }
}

/// `queue` after each of `translations` was added in order.
pub open spec fn extended(queue: Seq<Vec3>, translations: Seq<Vec3>) -> Seq<Vec3>
    decreases translations.len(),
{
    if translations.len() == 0 {
        queue
    } else {
        pushed(extended(queue, translations.drop_last()), translations.last())
    }
}

/// `queue` without its oldest entry.
pub open spec fn without_oldest(queue: Seq<Vec3>) -> Seq<Vec3> {
    if queue.len() > 0 {
        queue.skip(1)
    } else {
        queue
    }
}

/// The queue of one player.
struct PlayerQueue {
    player_id: u128,
    positions: VecDeque<Vec3>,
}

/// The players that `updates` are for, in order.
pub open spec fn players_of(updates: Seq<PositionUpdate>) -> Seq<u128> {
    updates.map_values(|update: PositionUpdate| update.player_id)
}

/// Per player, the reported positions that wait to be shown.
pub struct PositionCache {
    queues: HashMap<u128, VecDeque<Vec3>>,
}

impl View for PositionCache {
    type V = Map<u128, Seq<Vec3>>;

    closed spec fn view(&self) -> Map<u128, Seq<Vec3>> {
        Map::new(
            |player_id: u128| self.queues@.contains_key(player_id),
            |player_id: u128| self.queues@[player_id]@,
        )
    }
}

impl PositionCache {
    /// No queue is longer than [`POSITION_CACHE_LIMIT`].
    pub closed spec fn wf(&self) -> bool {
        forall|player_id: u128|
            self.queues@.contains_key(player_id) ==> (#[trigger] self.queues@[player_id])@.len()
                <= POSITION_CACHE_LIMIT
    }

    /// An empty cache.
    pub fn new() -> (cache: PositionCache)
        ensures
            cache.wf(),
            cache@ == Map::<u128, Seq<Vec3>>::empty(),
    {
        let cache = PositionCache { queues: HashMap::new() };
        assert(cache@ =~= Map::<u128, Seq<Vec3>>::empty());
        cache
    }

    /// How many positions wait for `player_id`.
    pub fn pending(&self, player_id: u128) -> (count: usize)
        requires
            self.wf(),
        ensures
            count == (if self@.contains_key(player_id) {
                self@[player_id].len()
            } else {
                0
            }),
            count <= POSITION_CACHE_LIMIT,
    {
        match self.queues.get(&player_id) {
            Some(queue) => queue.len(),
            None => 0,
        }
    }

    /// Adds `translations`, oldest first, to the queue of `player_id`. A
    /// player not heard of before gets a queue, even for an empty batch.
    pub fn extend(&mut self, player_id: u128, translations: &Vec<Vec3>)
        requires
            old(self).wf(),
        ensures
            final(self).wf(),
            final(self)@ == old(self)@.insert(
                player_id,
                extended(
                    if old(self)@.contains_key(player_id) {
                        old(self)@[player_id]
                    } else {
                        Seq::empty()
                    },
                    translations@,
                ),
            ),
    {
        let mut queue = match self.queues.remove(&player_id) {
            Some(queue) => queue,
            None => VecDeque::new(),
        };
        let ghost prior = queue@;
        let mut i: usize = 0;
        while i < translations.len()
            invariant
                i <= translations.len(),
                queue@.len() <= POSITION_CACHE_LIMIT,
                queue@ == extended(prior, translations@.take(i as int)),
            decreases translations.len() - i,
        {
            proof {
                assert(translations@.take(i + 1).drop_last() == translations@.take(i as int));
            }
            if queue.len() >= POSITION_CACHE_LIMIT {
                queue.pop_front();
            }
            queue.push_back(translations[i]);
            i += 1;
        }
        proof {
            assert(translations@.take(translations.len() as int) == translations@);
        }
        self.queues.insert(player_id, queue);
        proof {
            assert(self@ =~= old(self)@.insert(player_id, extended(prior, translations@)));
        }
    }

    /// Takes the oldest position out of every queue that has one, and lists
    /// what was taken: one update for each player with a waiting position,
    /// in no fixed order. One call serves one tick.
    pub fn take_oldest(&mut self) -> (updates: Vec<PositionUpdate>)
        requires
            old(self).wf(),
        ensures
            final(self).wf(),
            final(self)@.dom() == old(self)@.dom(),
            forall|player_id: u128|
                old(self)@.contains_key(player_id) ==> #[trigger] final(self)@[player_id]
                    == without_oldest(old(self)@[player_id]),
            players_of(updates@).no_duplicates(),
            forall|player_id: u128|
                players_of(updates@).contains(player_id) <==> old(self)@.contains_key(player_id)
                    && old(self)@[player_id].len() > 0,
            forall|i: int|
                0 <= i < updates@.len() ==> (#[trigger] updates@[i]).translation == old(self)@[updates@[i].player_id][0],
    {
        broadcast use vstd::seq_lib::lemma_seq_contains_after_push;

        let ids = keys_of(&self.queues);
        let mut updates: Vec<PositionUpdate> = Vec::new();
        let mut i: usize = 0;
        assert(ids@.take(0) =~= Seq::<u128>::empty());
        assert(players_of(updates@) =~= Seq::<u128>::empty());
        while i < ids.len()
            invariant
                i <= ids@.len(),
                ids@.no_duplicates(),
                forall|player_id: u128|
                    ids@.contains(player_id) <==> old(self).queues@.contains_key(player_id),
                old(self).wf(),
                self.wf(),
                forall|player_id: u128|
                    self.queues@.contains_key(player_id) <==> old(self).queues@.contains_key(
                        player_id,
                    ),
                forall|player_id: u128|
                    ids@.take(i as int).contains(player_id) ==> (#[trigger] self.queues@[player_id])@
                        == without_oldest(old(self).queues@[player_id]@),
                forall|player_id: u128|
                    old(self).queues@.contains_key(player_id) && !ids@.take(i as int).contains(
                        player_id,
                    ) ==> #[trigger] self.queues@[player_id] == old(self).queues@[player_id],
                players_of(updates@).no_duplicates(),
                forall|player_id: u128|
                    players_of(updates@).contains(player_id) <==> ids@.take(i as int).contains(
                        player_id,
                    ) && old(self).queues@[player_id]@.len() > 0,
                forall|k: int|
                    0 <= k < updates@.len() ==> (#[trigger] updates@[k]).translation == old(self).queues@[updates@[k].player_id]@[0],
            decreases ids@.len() - i,
        {
            let player_id = ids[i];
            let ghost before = ids@.take(i as int);
            let ghost given = updates@;
            proof {
                assert(ids@.take(i + 1) == before.push(player_id));
                assert(ids@.contains(player_id));
                assert(!before.contains(player_id)) by {
                    if before.contains(player_id) {
                        let k = choose|k: int| 0 <= k < before.len() && before[k] == player_id;
                        assert(ids@[k] == player_id && ids@[i as int] == player_id);
                    }
                }
                assert(self.queues@[player_id] == old(self).queues@[player_id]);
            }
            let taken = match self.queues.remove(&player_id) {
                Some(mut queue) => {
                    let taken = queue.pop_front();
                    self.queues.insert(player_id, queue);
                    taken
                },
                None => None,
            };
            let ghost took = taken is Some;
            proof {
                assert(took <==> old(self).queues@[player_id]@.len() > 0);
            }
            match taken {
                Some(translation) => {
                    updates.push(PositionUpdate { player_id, translation });
                    proof {
                        assert(players_of(updates@) =~= players_of(given).push(player_id));
                        assert(!players_of(given).contains(player_id));
                        assert forall|a: int, b: int|
                            0 <= a < updates@.len() && 0 <= b < updates@.len() && a
                                != b implies players_of(updates@)[a] != players_of(updates@)[b] by {
                            let names = players_of(given);
                            if a == given.len() {
                                assert(names[b] == players_of(updates@)[b]);
                                assert(names.contains(names[b]));
                            } else if b == given.len() {
                                assert(names[a] == players_of(updates@)[a]);
                                assert(names.contains(names[a]));
                            } else {
                                assert(names[a] == players_of(updates@)[a]);
                                assert(names[b] == players_of(updates@)[b]);
                            }
                        }
                    }
                },
                None => {},
            }
            proof {
                let after = ids@.take(i + 1);
                assert forall|other: u128| after.contains(other) implies (
                #[trigger] self.queues@[other])@ == without_oldest(old(self).queues@[other]@) by {
                    vstd::seq_lib::lemma_seq_contains_after_push(before, player_id, other);
                }
                assert forall|other: u128|
                    old(self).queues@.contains_key(other) && !after.contains(
                        other,
                    ) implies #[trigger] self.queues@[other] == old(self).queues@[other] by {
                    vstd::seq_lib::lemma_seq_contains_after_push(before, player_id, other);
                }
                assert forall|other: u128|
                    players_of(updates@).contains(other) <==> after.contains(other) && old(self).queues@[other]@.len() > 0 by {
                    vstd::seq_lib::lemma_seq_contains_after_push(before, player_id, other);
                    assert(players_of(given).contains(other) <==> before.contains(other) && old(self).queues@[other]@.len() > 0);
                    if took {
                        vstd::seq_lib::lemma_seq_contains_after_push(
                            players_of(given),
                            player_id,
                            other,
                        );
                    } else {
                        assert(updates@ == given);
                    }
                }
                assert forall|other: u128| self.queues@.contains_key(other) implies (
                #[trigger] self.queues@[other])@.len() <= POSITION_CACHE_LIMIT by {
                    if other != player_id {
                        if before.contains(other) {
                        } else {
                            assert(self.queues@[other] == old(self).queues@[other]);
                        }
                    }
                }
            }
            i += 1;
        }
        proof {
            assert(ids@.take(ids@.len() as int) == ids@);
            assert(self@.dom() =~= old(self)@.dom());
            assert forall|k: int| 0 <= k < updates@.len() implies (#[trigger] updates@[k]).translation
                == old(self)@[updates@[k].player_id][0] by {
                let player_id = updates@[k].player_id;
                assert(players_of(updates@)[k] == player_id);
                assert(players_of(updates@).contains(player_id));
                assert(old(self).queues@.contains_key(player_id));
            }
        }
        updates
    }
}

} // verus!
