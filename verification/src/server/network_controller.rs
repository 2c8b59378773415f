//! The network controller: it sorts the prefabs of a level, equips a
//! joining player, and lays out the messages that bring a player's world up
//! to date.
//!
//! When a player leaves, the host takes the player's entity out of the
//! scene and nothing else: the hoverboard stays behind and names a parent
//! that is gone.

use crate::shared::components::IdComponent;
use crate::shared::ids::{fresh_id, is_random_id, NIL_ID};
use crate::shared::text::same_text;
use vstd::prelude::*;

verus! {

/// The prefabs that the server knows by name.
#[derive(Clone, Copy, Debug, PartialEq, Eq, Hash, Structural)]
pub enum ModelNames {
    Spectator,
    Player,
    SmokeBomb,
    Hoverboard,
}

/// What becomes of a prefab of the level: it is kept under its name to be
/// stamped out later, or it goes into the scene at once.
#[derive(Clone, Copy, Debug, PartialEq, Eq, Structural)]
pub enum Placement {
    Catalog(ModelNames),
    Scene,
}

/// A step of a world synchronisation: one message on the reliable channel.
#[derive(Clone, Copy, Debug, PartialEq, Eq, Structural)]
pub enum SyncStep {
    Config,
    Assets { trigger_loading: bool },
    Entities,
    Prefabs,
}

/// A world synchronisation for one player: the messages in the order in
/// which they are sent, the identities of the entities that the entity
/// message lists, the player's own one marked, and the names of the prefabs
/// that the prefab message lists.
pub struct SyncPlan {
    pub steps: Vec<SyncStep>,
    pub entities: Vec<IdComponent>,
    pub prefabs: Vec<ModelNames>,
}

/// An entity to be stamped out of a prefab of the catalog.
#[derive(Clone, Copy, Debug, PartialEq, Eq, Structural)]
pub struct Spawn {
    pub prefab: ModelNames,
    pub id: u128,
    pub parent: Option<u128>,
}

/// What a joining player gets: its own entity, on the handle that the
/// transport supplies, and a hoverboard on a new handle.
#[derive(Clone, Copy, Debug, PartialEq, Eq, Structural)]
pub struct JoinPlan {
    pub player: Spawn,
    pub hoverboard: Spawn,
}

/// The prefab that the catalog lacks.
#[derive(Clone, Copy, Debug, PartialEq, Eq, Structural)]
pub struct MissingPrefab {
    pub name: ModelNames,
}

/// The network controller's state: which prefabs it holds, and whether a
/// level gave it a configuration.
#[derive(Clone, Copy, Debug, PartialEq, Eq, Structural)]
pub struct NetworkController {
    pub has_spectator: bool,
    pub has_player: bool,
    pub has_smoke_bomb: bool,
    pub has_hoverboard: bool,
    pub has_config: bool,
}

/// The prefab that goes by `name`, if `name` is one of the four names.
pub open spec fn named(name: Seq<char>) -> Option<ModelNames> {
    if name == "Spectator"@ {
        Some(ModelNames::Spectator)
    } else if name == "Player"@ {
        Some(ModelNames::Player)
    } else if name == "Smoke Bomb"@ {
        Some(ModelNames::SmokeBomb)
    } else if name == "Hoverboard"@ {
        Some(ModelNames::Hoverboard)
    } else {
        None
    }
}

/// What becomes of a prefab with the tag `tag` when a session starts: the
/// player, the smoke bomb and the hoverboard are kept in the catalog;
/// everything else goes into the scene.
pub open spec fn placement_of(tag: Seq<char>) -> Placement {
    if tag == "Player"@ {
        Placement::Catalog(ModelNames::Player)
    } else if tag == "Smoke Bomb"@ {
        Placement::Catalog(ModelNames::SmokeBomb)
    } else if tag == "Hoverboard"@ {
        Placement::Catalog(ModelNames::Hoverboard)
    } else {
        Placement::Scene
    }
}

/// The identities as the entity message lists them: the entity that
/// carries the player's identifier is marked as the player's own.
pub open spec fn marked(ids: Seq<u128>, player_id: u128) -> Seq<IdComponent> {
    ids.map_values(|id: u128| IdComponent { id, is_self: id == player_id })
}

/// `names` with `name` added at its end if `held`.
pub open spec fn listed(names: Seq<ModelNames>, held: bool, name: ModelNames) -> Seq<ModelNames> {
    if held {
        names.push(name)
    } else {
        names
    }
}

/// The messages of a world synchronisation in their order: the
/// configuration if there is one, the assets with the loading trigger, the
/// entities, the prefabs.
pub open spec fn steps_of(has_config: bool) -> Seq<SyncStep> {
    if has_config {
        seq![
            SyncStep::Config,
            SyncStep::Assets { trigger_loading: true },
            SyncStep::Entities,
            SyncStep::Prefabs,
        ]
    } else {
        seq![SyncStep::Assets { trigger_loading: true }, SyncStep::Entities, SyncStep::Prefabs]
    }
}

impl ModelNames {
    /// The name that the prefab goes by.
    pub open spec fn spec_name(&self) -> Seq<char> {
        match self {
            ModelNames::Spectator => "Spectator"@,
            ModelNames::Player => "Player"@,
            ModelNames::SmokeBomb => "Smoke Bomb"@,
            ModelNames::Hoverboard => "Hoverboard"@,
        }
    }

    /// The prefab that goes by `name`, if there is one.
    pub fn parse(name: &str) -> (found: Option<ModelNames>)
        ensures
            found == named(name@),
    {
        if same_text(name, "Spectator") {
            Some(ModelNames::Spectator)
        } else if same_text(name, "Player") {
            Some(ModelNames::Player)
        } else if same_text(name, "Smoke Bomb") {
            Some(ModelNames::SmokeBomb)
        } else if same_text(name, "Hoverboard") {
            Some(ModelNames::Hoverboard)
        } else {
            None
        }
    }

    /// The prefab that goes by `name`, which must be one of the four names.
    pub fn from_str(name: &str) -> (model: ModelNames)
        requires
            named(name@) is Some,
        ensures
            named(name@) == Some(model),
    {
        match ModelNames::parse(name) {
            Some(model) => model,
            None => ModelNames::Spectator,
        }
    }

    /// The name that the prefab goes by.
    pub fn to_str(&self) -> (name: &'static str)
        ensures
            name@ == self.spec_name(),
    {
        match self {
            ModelNames::Spectator => "Spectator",
            ModelNames::Player => "Player",
            ModelNames::SmokeBomb => "Smoke Bomb",
            ModelNames::Hoverboard => "Hoverboard",
        }
    }
}

/// A prefab is found again by the name it goes by.
pub proof fn lemma_names_round_trip(model: ModelNames)
    ensures
        named(model.spec_name()) == Some(model),
{
    reveal_strlit("Spectator");
    reveal_strlit("Player");
    reveal_strlit("Smoke Bomb");
    reveal_strlit("Hoverboard");
    assert("Spectator"@.len() == 9);
    assert("Player"@.len() == 6);
    assert("Smoke Bomb"@.len() == 10);
    assert("Hoverboard"@.len() == 10);
    assert("Smoke Bomb"@[0] == 'S');
    assert("Hoverboard"@[0] == 'H');
}

/// The prefab message names exactly the prefabs that the catalog holds,
/// each once.
pub proof fn lemma_catalog_names_what_is_held(controller: NetworkController)
    ensures
        forall|name: ModelNames|
            #[trigger] controller.catalog().contains(name) <==> controller.holds(name),
        controller.catalog().no_duplicates(),
{
    let s1 = listed(Seq::empty(), controller.has_spectator, ModelNames::Spectator);
    let s2 = listed(s1, controller.has_player, ModelNames::Player);
    let s3 = listed(s2, controller.has_smoke_bomb, ModelNames::SmokeBomb);
    let s4 = listed(s3, controller.has_hoverboard, ModelNames::Hoverboard);
    assert(s4 == controller.catalog());
    assert forall|name: ModelNames| #[trigger] s4.contains(name) <==> controller.holds(name) by {
        if s4.contains(name) {
            let i = choose|i: int| 0 <= i < s4.len() && s4[i] == name;
            assert(s4[i] == name);
        }
        if controller.holds(name) {
            match name {
                ModelNames::Spectator => {
                    assert(s4[0] == name);
                },
                ModelNames::Player => {
                    assert(s4[s2.len() - 1] == name);
                },
                ModelNames::SmokeBomb => {
                    assert(s4[s3.len() - 1] == name);
                },
                ModelNames::Hoverboard => {
                    assert(s4[s4.len() - 1] == name);
                },
            }
        }
    }
}

/// Where no two entities of the scene share an identifier, at most one
/// entity is marked as the player's own, and a marked entity carries the
/// identifier of the player that the synchronisation is written for.
pub proof fn lemma_single_self(ids: Seq<u128>, player_id: u128)
    requires
        ids.no_duplicates(),
    ensures
        forall|i: int|
            0 <= i < ids.len() && (#[trigger] marked(ids, player_id)[i]).is_self ==> marked(
                ids,
                player_id,
            )[i].id == player_id,
        forall|i: int, j: int|
            0 <= i < ids.len() && 0 <= j < ids.len() && (#[trigger] marked(
                ids,
                player_id,
            )[i]).is_self && (#[trigger] marked(ids, player_id)[j]).is_self ==> i == j,
{
}

impl NetworkController {
    /// Whether the catalog holds the prefab `name`.
    pub open spec fn holds(&self, name: ModelNames) -> bool {
        match name {
            ModelNames::Spectator => self.has_spectator,
            ModelNames::Player => self.has_player,
            ModelNames::SmokeBomb => self.has_smoke_bomb,
            ModelNames::Hoverboard => self.has_hoverboard,
        }
    }

    /// The names of the prefabs that the catalog holds: the spectator, the
    /// player, the smoke bomb and the hoverboard, in this order, each if it
    /// is held.
    pub open spec fn catalog(&self) -> Seq<ModelNames> {
        listed(
            listed(
                listed(
                    listed(Seq::empty(), self.has_spectator, ModelNames::Spectator),
                    self.has_player,
                    ModelNames::Player,
                ),
                self.has_smoke_bomb,
                ModelNames::SmokeBomb,
            ),
            self.has_hoverboard,
            ModelNames::Hoverboard,
        )
    }

    /// A controller with an empty catalog and no configuration.
    pub fn initialize() -> (controller: NetworkController)
        ensures
            forall|name: ModelNames| !controller.holds(name),
            !controller.has_config,
    {
        NetworkController {
            has_spectator: false,
            has_player: false,
            has_smoke_bomb: false,
            has_hoverboard: false,
            has_config: false,
        }
    }

    /// Starts a session on a level whose prefabs carry `tags`: the level's
    /// configuration is taken over, and every prefab is placed as
    /// [`placement_of`] says. The catalog keeps what it held and gains the
    /// prefabs that were placed in it.
    pub fn on_session_start(&mut self, tags: &Vec<String>) -> (placements: Vec<Placement>)
        ensures
            placements@.len() == tags@.len(),
            forall|i: int|
                0 <= i < tags@.len() ==> #[trigger] placements@[i] == placement_of(tags@[i]@),
            forall|name: ModelNames|
                final(self).holds(name) == (old(self).holds(name) || exists|i: int|
                    0 <= i < tags@.len() && placement_of(#[trigger] tags@[i]@) == Placement::Catalog(
                        name,
                    )),
            final(self).has_config,
    {
        self.has_config = true;
        let mut placements: Vec<Placement> = Vec::new();
        let mut i: usize = 0;
        while i < tags.len()
            invariant
                i <= tags@.len(),
                placements@.len() == i,
                self.has_config,
                forall|k: int| 0 <= k < i ==> #[trigger] placements@[k] == placement_of(tags@[k]@),
                forall|name: ModelNames|
                    self.holds(name) == (old(self).holds(name) || exists|k: int|
                        0 <= k < i && placement_of(#[trigger] tags@[k]@) == Placement::Catalog(
                            name,
                        )),
            decreases tags@.len() - i,
        {
            let tag = tags[i].as_str();
            let ghost before = *self;
            let placement = if same_text(tag, "Player") {
                self.has_player = true;
                Placement::Catalog(ModelNames::Player)
            } else if same_text(tag, "Smoke Bomb") {
                self.has_smoke_bomb = true;
                Placement::Catalog(ModelNames::SmokeBomb)
            } else if same_text(tag, "Hoverboard") {
                self.has_hoverboard = true;
                Placement::Catalog(ModelNames::Hoverboard)
            } else {
                Placement::Scene
            };
            placements.push(placement);
            proof {
                assert(placement == placement_of(tags@[i as int]@));
                assert forall|name: ModelNames|
                    self.holds(name) == (old(self).holds(name) || exists|k: int|
                        0 <= k < i + 1 && placement_of(#[trigger] tags@[k]@) == Placement::Catalog(
                            name,
                        )) by {
                    if before.holds(name) && !old(self).holds(name) {
                        let k = choose|k: int|
                            0 <= k < i && placement_of(#[trigger] tags@[k]@) == Placement::Catalog(
                                name,
                            );
                        assert(0 <= k < i + 1);
                    }
                    if placement == Placement::Catalog(name) {
                        assert(placement_of(tags@[i as int]@) == Placement::Catalog(name));
                    }
                }
            }
            i += 1;
        }
        placements
    }

    /// Equips the joining player `player_id`, given the identifier drawn
    /// for its hoverboard: the player's entity is stamped out of the player
    /// prefab and carries the player's identifier; the hoverboard is stamped
    /// out of the hoverboard prefab, carries `hoverboard_id` and has the
    /// player for its parent. Fails where the catalog lacks one of the two
    /// prefabs, the player prefab first.
    pub fn plan_join(&self, player_id: u128, hoverboard_id: u128) -> (plan: Result<
        JoinPlan,
        MissingPrefab,
    >)
        ensures
            plan == (if !self.has_player {
                Err::<JoinPlan, MissingPrefab>(MissingPrefab { name: ModelNames::Player })
            } else if !self.has_hoverboard {
                Err::<JoinPlan, MissingPrefab>(MissingPrefab { name: ModelNames::Hoverboard })
            } else {
                Ok::<JoinPlan, MissingPrefab>(
                    JoinPlan {
                        player: Spawn { prefab: ModelNames::Player, id: player_id, parent: None },
                        hoverboard: Spawn {
                            prefab: ModelNames::Hoverboard,
                            id: hoverboard_id,
                            parent: Some(player_id),
                        },
                    },
                )
            }),
    {
        if !self.has_player {
            return Err(MissingPrefab { name: ModelNames::Player });
        }
        if !self.has_hoverboard {
            return Err(MissingPrefab { name: ModelNames::Hoverboard });
        }
        Ok(
            JoinPlan {
                player: Spawn { prefab: ModelNames::Player, id: player_id, parent: None },
                hoverboard: Spawn {
                    prefab: ModelNames::Hoverboard,
                    id: hoverboard_id,
                    parent: Some(player_id),
                },
            },
        )
    }

    /// Equips the joining player `player_id` as [`NetworkController::plan_join`]
    /// says, with a fresh identifier for the hoverboard. Once the host has
    /// stamped out both entities it synchronises the player's world.
    pub fn on_player_joined(&self, player_id: u128) -> (plan: Result<JoinPlan, MissingPrefab>)
        ensures
            !self.has_player ==> plan == Err::<JoinPlan, MissingPrefab>(
                MissingPrefab { name: ModelNames::Player },
            ),
            self.has_player && !self.has_hoverboard ==> plan == Err::<JoinPlan, MissingPrefab>(
                MissingPrefab { name: ModelNames::Hoverboard },
            ),
            self.has_player && self.has_hoverboard ==> {
                &&& plan matches Ok(join)
                &&& join.player == (Spawn { prefab: ModelNames::Player, id: player_id, parent: None })
                &&& join.hoverboard.prefab == ModelNames::Hoverboard
                &&& join.hoverboard.parent == Some(player_id)
                &&& is_random_id(join.hoverboard.id)
                &&& join.hoverboard.id != NIL_ID
            },
    {
        let hoverboard_id = fresh_id();
        self.plan_join(player_id, hoverboard_id)
    }

    /// Lays out the world synchronisation for `player_id`, for a scene whose
    /// entities carry `scene_ids`: the messages of [`steps_of`]; every
    /// entity of the scene, the player's own one marked; and the prefabs of
    /// the catalog by name.
    pub fn sync_world(&self, scene_ids: &Vec<u128>, player_id: u128) -> (plan: SyncPlan)
        ensures
            plan.steps@ == steps_of(self.has_config),
            plan.entities@ == marked(scene_ids@, player_id),
            plan.prefabs@ == self.catalog(),
    {
        let mut entities: Vec<IdComponent> = Vec::new();
        let mut i: usize = 0;
        while i < scene_ids.len()
            invariant
                i <= scene_ids@.len(),
                entities@ == marked(scene_ids@.take(i as int), player_id),
            decreases scene_ids@.len() - i,
        {
            let id = scene_ids[i];
            entities.push(IdComponent { id, is_self: id == player_id });
            assert(entities@ =~= marked(scene_ids@.take(i + 1), player_id));
            i += 1;
        }
        assert(scene_ids@.take(scene_ids@.len() as int) == scene_ids@);
        let mut steps: Vec<SyncStep> = Vec::new();
        if self.has_config {
            steps.push(SyncStep::Config);
        }
        steps.push(SyncStep::Assets { trigger_loading: true });
        steps.push(SyncStep::Entities);
        steps.push(SyncStep::Prefabs);
        assert(steps@ =~= steps_of(self.has_config));
        let mut prefabs: Vec<ModelNames> = Vec::new();
        if self.has_spectator {
            prefabs.push(ModelNames::Spectator);
        }
        if self.has_player {
            prefabs.push(ModelNames::Player);
        }
        if self.has_smoke_bomb {
            prefabs.push(ModelNames::SmokeBomb);
        }
        if self.has_hoverboard {
            prefabs.push(ModelNames::Hoverboard);
        }
        SyncPlan { steps, entities, prefabs }
    }
}

} // verus!
