//! The arena: the room that players join and leave, with its spawn points,
//! its spectators, and the trusted inputs that move its players.

use crate::server::players::{PlayerSlot, PlayerTable};
use crate::shared::components::IdComponent;
use crate::shared::entity::{Entity, EntityIndex};
use crate::shared::ids::{fresh_id, is_random_id, NIL_ID};
use crate::shared::parent::{ancestors, resolve_parent_chain, MissingParent, ParentLinks, MAX_PARENTS};
use crate::shared::prefab::{ComponentKind, FullPrefab, Side};
use crate::shared::text::same_text;
use crate::shared::trusted::{accept_batch, accepted, lock_after, TrustedInput};
use crate::shared::units::{plus, spec_plus, TransformComponent, Vec3};
use vstd::prelude::*;

verus! {

/// By how much the arena's clock moves per tick.
pub const ARENA_TIME_STEP: i64 = 500;

/// What an entity of the level is for, going by its tag.
#[derive(Clone, Copy, Debug, PartialEq, Eq, Structural)]
pub enum LevelRole {
    /// A place where a spectator stands.
    SpectatorPoint,
    /// A place where a player starts.
    SpawnPoint,
    /// The prefab that spectators are stamped out of.
    SpectatorPrefab,
    /// The prefab that players are stamped out of.
    FoxyPrefab,
    /// An entity of the scene.
    Scene,
}

/// An entity of the level file: its tag and, if it has one, its transform.
pub struct LevelEntity {
    pub tag: String,
    pub transform: Option<TransformComponent>,
}

/// A spawn or spectator point of the level has no transform.
#[derive(Clone, Copy, Debug, PartialEq, Eq, Structural)]
pub struct MissingTransform {}

/// Why a player cannot join.
#[derive(Clone, Copy, Debug, PartialEq, Eq, Structural)]
pub enum JoinError {
    /// The level held no player prefab.
    MissingFoxy,
    /// The level held no spawn point.
    NoSpawnPoint,
}

/// The level held no spectator prefab.
#[derive(Clone, Copy, Debug, PartialEq, Eq, Structural)]
pub struct MissingSpectator {}

/// The head of a world synchronisation message.
#[derive(Clone, Copy, Debug, PartialEq, Eq, Structural)]
pub struct SyncWorld {
    pub trigger_loading: bool,
    pub frame: u128,
}

/// A spectator to be put into the scene.
#[derive(Clone, Copy, Debug, PartialEq, Eq, Structural)]
pub struct Spectator {
    pub id: u128,
    pub transform: TransformComponent,
}

/// The news of a newcomer for one player of the room: whom it goes to, and
/// the newcomer's identity as that player sees it.
#[derive(Clone, Copy, Debug, PartialEq, Eq, Structural)]
pub struct Notice {
    pub recipient: u128,
    pub id: IdComponent,
}

/// What a join comes to: the player's entity, where it starts, and the news
/// for every player of the room, the newcomer among them.
pub struct Joined {
    pub entity: Entity,
    pub spawn_index: usize,
    pub spawn: TransformComponent,
    pub notices: Vec<Notice>,
}

/// What a batch of trusted inputs comes to: the entity that moves, where it
/// moves to if any input was accepted, and the players that the batch is
/// passed on to.
pub struct Ingested {
    pub entity: Entity,
    pub translation: Option<Vec3>,
    pub recipients: Vec<u128>,
}

/// The state of the arena.
pub struct ArenaLayer {
    pub players: PlayerTable,
    pub entities: EntityIndex,
    pub has_foxy: bool,
    pub has_spectator: bool,
    pub spectator_points: Vec<TransformComponent>,
    pub spawn_points: Vec<TransformComponent>,
    pub assigned_spawns: Vec<Option<u128>>,
    pub frame: u128,
    pub timing: i64,
}

/// What an entity with the tag `tag` is for.
pub open spec fn role_of(tag: Seq<char>) -> LevelRole {
    if tag == "spectator-spawn-1"@ {
        LevelRole::SpectatorPoint
    } else if tag == "spawn 1"@ || tag == "spawn 2"@ || tag == "spawn 3"@ || tag == "spawn 4"@ {
        LevelRole::SpawnPoint
    } else if tag == "spectator"@ {
        LevelRole::SpectatorPrefab
    } else if tag == "foxy"@ {
        LevelRole::FoxyPrefab
    } else {
        LevelRole::Scene
    }
}

/// The first spawn point that no player holds, if there is one.
pub open spec fn first_free(assigned: Seq<Option<u128>>) -> Option<int> {
    if exists|i: int| 0 <= i < assigned.len() && assigned[i] is None {
        Some(
            choose|i: int|
                0 <= i < assigned.len() && assigned[i] is None && forall|j: int|
                    0 <= j < i ==> assigned[j] is Some,
        )
    } else {
        None
    }
}

/// The spawn points after `player_id` gave up those it held.
pub open spec fn released(assigned: Seq<Option<u128>>, player_id: u128) -> Seq<Option<u128>> {
    assigned.map_values(
        |holder: Option<u128>|
            if holder == Some(player_id) {
                None
            } else {
                holder
            },
    )
}

/// Whom `notices` go to, in order.
pub open spec fn recipients_of(notices: Seq<Notice>) -> Seq<u128> {
    notices.map_values(|notice: Notice| notice.recipient)
}

/// The news of the newcomer `player_id` for each of `recipients`: only the
/// newcomer itself sees the newcomer's entity as its own.
pub open spec fn news(recipients: Seq<u128>, player_id: u128) -> Seq<Notice> {
    recipients.map_values(
        |recipient: u128|
            Notice { recipient, id: IdComponent { id: player_id, is_self: recipient == player_id } },
    )
}

/// The translation of the last accepted input of a batch, if any was
/// accepted.
pub open spec fn last_accepted(lock: u32, inputs: Seq<TrustedInput>) -> Option<Vec3> {
    if accepted(lock, inputs).len() > 0 {
        Some(accepted(lock, inputs).last().translation)
    } else {
        None
    }
}

/// What an entity with the tag `tag` is for.
pub fn classify(tag: &str) -> (role: LevelRole)
    ensures
        role == role_of(tag@),
{
    if same_text(tag, "spectator-spawn-1") {
        LevelRole::SpectatorPoint
    } else if same_text(tag, "spawn 1") || same_text(tag, "spawn 2") || same_text(tag, "spawn 3")
        || same_text(tag, "spawn 4") {
        LevelRole::SpawnPoint
    } else if same_text(tag, "spectator") {
        LevelRole::SpectatorPrefab
    } else if same_text(tag, "foxy") {
        LevelRole::FoxyPrefab
    } else {
        LevelRole::Scene
    }
}

impl ArenaLayer {
    /// No player is listed twice, every spawn point has its holder's place,
    /// and what is kept by player goes in step: the identifier of every
    /// player of the room is bound to that player's entity.
    pub open spec fn wf(&self) -> bool {
        &&& self.players.wf()
        &&& self.spawn_points@.len() == self.assigned_spawns@.len()
        &&& forall|player_id: u128| #[trigger]
            self.players.has(player_id) ==> self.entities@.contains_key(player_id)
                && self.entities@[player_id] == self.players.slot_of(player_id).entity
    }

    /// An empty arena at frame zero.
    pub fn new() -> (arena: ArenaLayer)
        ensures
            arena.wf(),
            arena.players.slots@ == Map::<u128, PlayerSlot>::empty(),
            arena.entities@ == Map::<u128, Entity>::empty(),
            !arena.has_foxy,
            !arena.has_spectator,
            arena.spectator_points@ == Seq::<TransformComponent>::empty(),
            arena.spawn_points@ == Seq::<TransformComponent>::empty(),
            arena.assigned_spawns@ == Seq::<Option<u128>>::empty(),
            arena.frame == 0,
            arena.timing == 0,
    {
        ArenaLayer {
            players: PlayerTable::new(),
            entities: EntityIndex::new(),
            has_foxy: false,
            has_spectator: false,
            spectator_points: Vec::new(),
            spawn_points: Vec::new(),
            assigned_spawns: Vec::new(),
            frame: 0,
            timing: 0,
        }
    }

    /// The head of the message that brings a joining player's world up to
    /// date: it triggers loading and carries the current frame.
    pub fn sync_world(&self) -> (message: SyncWorld)
        ensures
            message == (SyncWorld { trigger_loading: true, frame: self.frame }),
    {
        SyncWorld { trigger_loading: true, frame: self.frame }
    }

    /// The head of the message that tells a player of a newcomer: it does
    /// not trigger loading and carries the current frame.
    pub fn update_player(&self) -> (message: SyncWorld)
        ensures
            message == (SyncWorld { trigger_loading: false, frame: self.frame }),
    {
        SyncWorld { trigger_loading: false, frame: self.frame }
    }

    /// Takes one entity of the level, when the arena is attached. A
    /// spectator point or a spawn point is noted with its transform, a spawn
    /// point as free; the spectator and the player prefab are noted as held.
    /// Returns whether the entity belongs into the scene. Fails, and changes
    /// nothing, on a point without a transform.
    pub fn on_attach(&mut self, entity: &LevelEntity) -> (into_scene: Result<bool, MissingTransform>)
        requires
            old(self).wf(),
        ensures
            final(self).wf(),
            final(self).players == old(self).players,
            final(self).entities == old(self).entities,
            final(self).frame == old(self).frame,
            final(self).timing == old(self).timing,
            into_scene is Err <==> (role_of(entity.tag@) == LevelRole::SpectatorPoint || role_of(
                entity.tag@,
            ) == LevelRole::SpawnPoint) && entity.transform is None,
            into_scene is Err ==> {
                &&& final(self).has_foxy == old(self).has_foxy
                &&& final(self).has_spectator == old(self).has_spectator
                &&& final(self).spectator_points@ == old(self).spectator_points@
                &&& final(self).spawn_points@ == old(self).spawn_points@
                &&& final(self).assigned_spawns@ == old(self).assigned_spawns@
            },
            into_scene matches Ok(scene) ==> {
                &&& scene == (role_of(entity.tag@) == LevelRole::Scene)
                &&& final(self).has_foxy == (old(self).has_foxy || role_of(entity.tag@)
                    == LevelRole::FoxyPrefab)
                &&& final(self).has_spectator == (old(self).has_spectator || role_of(entity.tag@)
                    == LevelRole::SpectatorPrefab)
                &&& final(self).spectator_points@ == (if role_of(entity.tag@)
                    == LevelRole::SpectatorPoint {
                    old(self).spectator_points@.push(entity.transform->0)
                } else {
                    old(self).spectator_points@
                })
                &&& final(self).spawn_points@ == (if role_of(entity.tag@) == LevelRole::SpawnPoint {
                    old(self).spawn_points@.push(entity.transform->0)
                } else {
                    old(self).spawn_points@
                })
                &&& final(self).assigned_spawns@ == (if role_of(entity.tag@)
                    == LevelRole::SpawnPoint {
                    old(self).assigned_spawns@.push(None)
                } else {
                    old(self).assigned_spawns@
                })
            },
    {
        match classify(entity.tag.as_str()) {
            LevelRole::SpectatorPoint => {
                match entity.transform {
                    Some(transform) => {
                        self.spectator_points.push(transform);
                        Ok(false)
                    },
                    None => Err(MissingTransform {  }),
                }
            },
            LevelRole::SpawnPoint => {
                match entity.transform {
                    Some(transform) => {
                        self.spawn_points.push(transform);
                        self.assigned_spawns.push(None);
                        Ok(false)
                    },
                    None => Err(MissingTransform {  }),
                }
            },
            LevelRole::SpectatorPrefab => {
                self.has_spectator = true;
                Ok(false)
            },
            LevelRole::FoxyPrefab => {
                self.has_foxy = true;
                Ok(false)
            },
            LevelRole::Scene => Ok(true),
        }
    }

    /// The spectators of the level, once all its entities were taken: one
    /// for each spectator point, in order, standing at the point, each with
    /// a fresh identifier. Fails where the level held no spectator prefab.
    pub fn spectators(&self) -> (found: Result<Vec<Spectator>, MissingSpectator>)
        ensures
            found is Ok <==> self.has_spectator,
            found matches Ok(list) ==> {
                &&& list@.len() == self.spectator_points@.len()
                &&& forall|i: int|
                    0 <= i < list@.len() ==> (#[trigger] list@[i]).transform
                        == self.spectator_points@[i] && is_random_id(list@[i].id) && list@[i].id
                        != NIL_ID
            },
    {
        if !self.has_spectator {
            return Err(MissingSpectator {  });
        }
        let mut list: Vec<Spectator> = Vec::new();
        let mut i: usize = 0;
        while i < self.spectator_points.len()
            invariant
                i <= self.spectator_points@.len(),
                list@.len() == i,
                forall|k: int|
                    0 <= k < i ==> (#[trigger] list@[k]).transform == self.spectator_points@[k]
                        && is_random_id(list@[k].id) && list@[k].id != NIL_ID,
            decreases self.spectator_points@.len() - i,
        {
            list.push(Spectator { id: fresh_id(), transform: self.spectator_points[i] });
            i += 1;
        }
        Ok(list)
    }

    /// Takes a prefab into the scene: finds the entity that carries the
    /// prefab's identifier, or has `create` make one and binds it, and lists
    /// the components to attach to it.
    pub fn receive_prefab<F: FnOnce() -> Entity>(&mut self, prefab: &FullPrefab, create: F) -> (received:
        (Entity, u128, Vec<ComponentKind>))
        requires
            old(self).wf(),
            create.requires(()),
        ensures
            final(self).wf(),
            final(self).players == old(self).players,
            final(self).has_foxy == old(self).has_foxy,
            final(self).has_spectator == old(self).has_spectator,
            final(self).spectator_points == old(self).spectator_points,
            final(self).spawn_points == old(self).spawn_points,
            final(self).assigned_spawns == old(self).assigned_spawns,
            final(self).frame == old(self).frame,
            final(self).timing == old(self).timing,
            received.1 == prefab.id.id,
            received.2@ == prefab.spec_attached(Side::Server),
            old(self).entities@.contains_key(prefab.id.id) ==> received.0 == old(self).entities@[prefab.id.id] && final(self).entities@ == old(self).entities@,
            !old(self).entities@.contains_key(prefab.id.id) ==> create.ensures((), received.0)
                && final(self).entities@ == old(self).entities@.insert(prefab.id.id, received.0),
    {
        let entity = self.entities.get_or_create(prefab.id.id, create);
        (entity, prefab.id.id, prefab.attached(Side::Server))
    }

    /// A player joins, after the host has sent it the configuration and the
    /// world. The player takes the first free spawn point, or
    /// starts at the first spawn point if none is free; its entity is the
    /// one that carries its identifier, or a new one made by `create`; it is
    /// listed with its frame lock at zero; and every player of the room, the
    /// newcomer included, gets the news once. Fails, and changes nothing, where
    /// the level held no player prefab or no spawn point.
    pub fn on_player_joined<F: FnOnce() -> Entity>(&mut self, player_id: u128, create: F) -> (joined:
        Result<Joined, JoinError>)
        requires
            old(self).wf(),
            create.requires(()),
        ensures
            final(self).wf(),
            final(self).has_foxy == old(self).has_foxy,
            final(self).has_spectator == old(self).has_spectator,
            final(self).spectator_points == old(self).spectator_points,
            final(self).spawn_points == old(self).spawn_points,
            final(self).frame == old(self).frame,
            final(self).timing == old(self).timing,
            joined == Err::<Joined, JoinError>(JoinError::MissingFoxy) <==> !old(self).has_foxy,
            joined == Err::<Joined, JoinError>(JoinError::NoSpawnPoint) <==> old(self).has_foxy
                && old(self).spawn_points@.len() == 0,
            joined is Err ==> {
                &&& final(self).players == old(self).players
                &&& final(self).entities == old(self).entities
                &&& final(self).assigned_spawns == old(self).assigned_spawns
            },
            joined matches Ok(plan) ==> {
                &&& plan.spawn_index == (match first_free(old(self).assigned_spawns@) {
                    Some(i) => i,
                    None => 0,
                })
                &&& plan.spawn == old(self).spawn_points@[plan.spawn_index as int]
                &&& final(self).assigned_spawns@ == (match first_free(old(self).assigned_spawns@) {
                    Some(i) => old(self).assigned_spawns@.update(i, Some(player_id)),
                    None => old(self).assigned_spawns@,
                })
                &&& old(self).entities@.contains_key(player_id) ==> plan.entity == old(self).entities@[player_id]
                &&& !old(self).entities@.contains_key(player_id) ==> create.ensures(
                    (),
                    plan.entity,
                )
                &&& final(self).entities@ == old(self).entities@.insert(player_id, plan.entity)
                &&& final(self).players.has(player_id)
                &&& final(self).players.slot_of(player_id) == (PlayerSlot {
                    player_id,
                    entity: plan.entity,
                    input_lock: 0,
                })
                &&& forall|other: u128|
                    other != player_id ==> final(self).players.has(other) == old(self).players.has(
                        other,
                    )
                &&& forall|other: u128|
                    other != player_id && old(self).players.has(other) ==> final(self).players.slot_of(other) == old(self).players.slot_of(other)
                &&& plan.notices@ == news(recipients_of(plan.notices@), player_id)
                &&& recipients_of(plan.notices@).no_duplicates()
                &&& forall|other: u128|
                    recipients_of(plan.notices@).contains(other) <==> final(self).players.has(
                        other,
                    )
            },
    {
        if !self.has_foxy {
            return Err(JoinError::MissingFoxy);
        }
        if self.spawn_points.len() == 0 {
            return Err(JoinError::NoSpawnPoint);
        }
        let mut spawn_index: usize = 0;
        let mut found = false;
        let mut i: usize = 0;
        while i < self.assigned_spawns.len() && !found
            invariant
                i <= self.assigned_spawns@.len(),
                self.assigned_spawns@ == old(self).assigned_spawns@,
                !found ==> forall|j: int| 0 <= j < i ==> self.assigned_spawns@[j] is Some,
                !found ==> spawn_index == 0,
                found ==> spawn_index < self.assigned_spawns@.len()
                    && self.assigned_spawns@[spawn_index as int] is None && forall|j: int|
                    0 <= j < spawn_index ==> self.assigned_spawns@[j] is Some,
            decreases self.assigned_spawns@.len() - i + (if found {
                    0int
                } else {
                    1int
                }),
        {
            if self.assigned_spawns[i].is_none() {
                spawn_index = i;
                found = true;
            } else {
                i += 1;
            }
        }
        proof {
            let assigned = old(self).assigned_spawns@;
            if found {
                let chosen = first_free(assigned)->0;
                assert(0 <= chosen < assigned.len() && assigned[chosen] is None && forall|j: int|
                    0 <= j < chosen ==> assigned[j] is Some);
                assert(chosen == spawn_index);
            }
        }
        if found {
            self.assigned_spawns.set(spawn_index, Some(player_id));
        }
        let spawn = self.spawn_points[spawn_index];
        let entity = self.entities.get_or_create(player_id, create);
        self.entities.insert(player_id, entity);
        assert(self.entities@ =~= old(self).entities@.insert(player_id, entity));
        self.players.insert(PlayerSlot { player_id, entity, input_lock: 0 });
        proof {
            assert forall|other: u128| #[trigger] self.players.has(other) implies self.entities@.contains_key(
                other,
            ) && self.entities@[other] == self.players.slot_of(other).entity by {
                if other != player_id {
                    assert(old(self).players.has(other));
                }
            }
        }
        let recipients = self.players.ids();
        let mut notices: Vec<Notice> = Vec::new();
        let mut k: usize = 0;
        while k < recipients.len()
            invariant
                k <= recipients@.len(),
                notices@ == news(recipients@.take(k as int), player_id),
            decreases recipients@.len() - k,
        {
            let recipient = recipients[k];
            notices.push(
                Notice { recipient, id: IdComponent { id: player_id, is_self: recipient == player_id } },
            );
            assert(notices@ =~= news(recipients@.take(k + 1), player_id));
            k += 1;
        }
        assert(recipients@.take(recipients@.len() as int) == recipients@);
        assert(recipients_of(notices@) =~= recipients@);
        Ok(Joined { entity, spawn_index, spawn, notices })
    }

    /// A player leaves: it is taken off the list, lock and all, its
    /// identifier is bound to no entity any more, and it gives up its spawn
    /// points. Returns its entity, which the host takes out of the scene. A
    /// player who is not in the room has no entity to take out.
    #[verifier::loop_isolation(false)]
    pub fn on_player_left(&mut self, player_id: u128) -> (despawn: Option<Entity>)
        requires
            old(self).wf(),
        ensures
            final(self).wf(),
            final(self).entities@ == old(self).entities@.remove(player_id),
            final(self).has_foxy == old(self).has_foxy,
            final(self).has_spectator == old(self).has_spectator,
            final(self).spectator_points == old(self).spectator_points,
            final(self).spawn_points == old(self).spawn_points,
            final(self).frame == old(self).frame,
            final(self).timing == old(self).timing,
            despawn == (if old(self).players.has(player_id) {
                Some(old(self).players.slot_of(player_id).entity)
            } else {
                None
            }),
            !final(self).players.has(player_id),
            forall|other: u128|
                other != player_id ==> final(self).players.has(other) == old(self).players.has(
                    other,
                ),
            forall|other: u128|
                other != player_id && old(self).players.has(other) ==> final(self).players.slot_of(
                    other,
                ) == old(self).players.slot_of(other),
            final(self).assigned_spawns@ == released(old(self).assigned_spawns@, player_id),
    {
        let despawn = match self.players.remove(player_id) {
            Some(slot) => Some(slot.entity),
            None => None,
        };
        self.entities.remove(player_id);
        proof {
            assert forall|other: u128| #[trigger] self.players.has(other) implies self.entities@.contains_key(
                other,
            ) && self.entities@[other] == self.players.slot_of(other).entity by {
                assert(old(self).players.has(other));
            }
        }
        let ghost listed = self.players;
        let ghost bound = self.entities;
        let mut i: usize = 0;
        while i < self.assigned_spawns.len()
            invariant
                i <= self.assigned_spawns@.len(),
                self.assigned_spawns@.len() == old(self).assigned_spawns@.len(),
                self.players == listed,
                self.entities == bound,
                self.has_foxy == old(self).has_foxy,
                self.has_spectator == old(self).has_spectator,
                self.spectator_points == old(self).spectator_points,
                self.spawn_points == old(self).spawn_points,
                self.frame == old(self).frame,
                self.timing == old(self).timing,
                forall|j: int|
                    0 <= j < i ==> #[trigger] self.assigned_spawns@[j] == released(
                        old(self).assigned_spawns@,
                        player_id,
                    )[j],
                forall|j: int|
                    i <= j < self.assigned_spawns@.len() ==> #[trigger] self.assigned_spawns@[j]
                        == old(self).assigned_spawns@[j],
            decreases self.assigned_spawns@.len() - i,
        {
            let holds = match self.assigned_spawns[i] {
                Some(holder) => holder == player_id,
                None => false,
            };
            if holds {
                self.assigned_spawns.set(i, None);
            }
            i += 1;
        }
        assert(self.assigned_spawns@ =~= released(old(self).assigned_spawns@, player_id));
        despawn
    }

    /// Takes a batch of trusted inputs of `player_id`. A batch of a player
    /// who is not in the room is dropped. Otherwise the inputs pass the
    /// player's frame lock in order; the player's entity moves to where the
    /// last accepted input says; and the whole batch is passed on to every
    /// other player of the room.
    pub fn receive_inputs(&mut self, player_id: u128, inputs: &Vec<TrustedInput>) -> (ingested:
        Option<Ingested>)
        requires
            old(self).wf(),
        ensures
            final(self).wf(),
            final(self).entities == old(self).entities,
            final(self).has_foxy == old(self).has_foxy,
            final(self).has_spectator == old(self).has_spectator,
            final(self).spectator_points == old(self).spectator_points,
            final(self).spawn_points == old(self).spawn_points,
            final(self).assigned_spawns == old(self).assigned_spawns,
            final(self).frame == old(self).frame,
            final(self).timing == old(self).timing,
            ingested is Some <==> old(self).players.has(player_id),
            ingested is None ==> final(self).players == old(self).players,
            forall|other: u128| final(self).players.has(other) == old(self).players.has(other),
            forall|other: u128|
                other != player_id && old(self).players.has(other) ==> final(self).players.slot_of(
                    other,
                ) == old(self).players.slot_of(other),
            ingested matches Some(outcome) ==> {
                let before = old(self).players.slot_of(player_id);
                &&& final(self).players.slot_of(player_id) == (PlayerSlot {
                    input_lock: lock_after(before.input_lock, inputs@),
                    ..before
                })
                &&& outcome.entity == before.entity
                &&& outcome.translation == last_accepted(before.input_lock, inputs@)
                &&& outcome.recipients@.no_duplicates()
                &&& forall|other: u128|
                    outcome.recipients@.contains(other) <==> old(self).players.has(other)
                        && other != player_id
            },
    {
        let slot = match self.players.get(player_id) {
            Some(slot) => slot,
            None => {
                return None;
            },
        };
        let (lock, moves) = accept_batch(slot.input_lock, inputs);
        let translation = if moves.len() > 0 {
            Some(moves[moves.len() - 1])
        } else {
            None
        };
        let recipients = self.players.others(player_id);
        self.players.insert(PlayerSlot { input_lock: lock, ..slot });
        proof {
            assert(old(self).players.has(player_id));
            assert forall|other: u128| #[trigger] self.players.has(other) implies self.entities@.contains_key(
                other,
            ) && self.entities@[other] == self.players.slot_of(other).entity by {
                assert(old(self).players.has(other));
            }
        }
        Some(Ingested { entity: slot.entity, translation, recipients })
    }

    /// The ancestors whose matrices make the world matrix of a child whose
    /// parent component names `parent_id`, nearest first. Where a parent
    /// cannot be found the update is dropped: the child keeps the matrix it
    /// had.
    pub fn update_parent_transform(&self, links: &ParentLinks, parent_id: u128) -> (chain: Option<
        Vec<Entity>,
    >)
        ensures
            match chain {
                Some(list) => ancestors(self.entities@, links@, parent_id) == Ok::<
                    Seq<Entity>,
                    MissingParent,
                >(list@) && list@.len() <= MAX_PARENTS,
                None => ancestors(self.entities@, links@, parent_id) is Err,
            },
    {
        match resolve_parent_chain(&self.entities, links, parent_id) {
            Ok(list) => Some(list),
            Err(_) => None,
        }
    }

    /// Ends a tick: the clock moves by [`ARENA_TIME_STEP`] and the frame
    /// counter by one; at its largest value the counter stays.
    pub fn on_update(&mut self)
        ensures
            final(self).timing == spec_plus(old(self).timing, ARENA_TIME_STEP),
            final(self).frame == (if old(self).frame == u128::MAX {
                old(self).frame
            } else {
                (old(self).frame + 1) as u128
            }),
            final(self).players == old(self).players,
            final(self).entities == old(self).entities,
            final(self).has_foxy == old(self).has_foxy,
            final(self).has_spectator == old(self).has_spectator,
            final(self).spectator_points == old(self).spectator_points,
            final(self).spawn_points == old(self).spawn_points,
            final(self).assigned_spawns == old(self).assigned_spawns,
    {
        self.timing = plus(self.timing, ARENA_TIME_STEP);
        if self.frame < u128::MAX {
            self.frame += 1;
        }
    }
}

} // verus!
