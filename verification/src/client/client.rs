//! The client layer: what the client keeps between ticks, and what it
//! decides in each phase of a tick. The host drives the phases in order:
//! network, update, physics, post-physics.

use crate::client::assets::{
    capped, lemma_closed_while_pending, models_among, one_less, Asset, AssetGate, LoadedAsset,
};
use crate::client::camera::CameraFrame;
use crate::client::physics::{
    commands_for, plan_bodies, CollisionEvent, ColliderHandle, PhysicsBody, PhysicsCommand,
};
use crate::client::positions::{
    extended, players_of, without_oldest, PositionCache, PositionUpdate,
};
use crate::shared::components::{
    CameraComponent, IdComponent, LightComponent, SkyLightComponent,
};
use crate::shared::entity::{Entity, EntityIndex};
use crate::shared::parent::{ancestors, resolve_parent_chain, MissingParent, ParentLinks, MAX_PARENTS};
use crate::shared::player_controller::{Controlled, DefaultInput, PlayerController};
use crate::shared::prefab::{ComponentKind, FullPrefab, PartialPrefab, Side};
use crate::shared::trusted::{accept_batch, accepted, lock_after, translations, TrustedInput};
use crate::shared::units::{plus, spec_plus, TransformComponent, Vec3};
use std::collections::HashMap;
use vstd::prelude::*;

verus! {

broadcast use vstd::std_specs::hash::group_hash_axioms;

/// By how much the client's clock moves per simulated tick.
pub const CLIENT_TIME_STEP: i64 = 50;

/// The debouncer starts over when it reaches this.
pub const DEBOUNCE_PERIOD: i64 = 60_000_000;

/// How far behind the player the client's own view stands, as a factor of
/// the direction the player faces.
pub const VIEW_DISTANCE: i64 = -450_000;

/// How far above the player the client's own view stands.
pub const VIEW_HEIGHT: i64 = 150_000;

/// How far above the player's origin the client's own view looks.
pub const VIEW_TARGET_HEIGHT: i64 = 50_000;

/// A size in pixels.
#[derive(Clone, Copy, Debug, PartialEq, Eq, Structural)]
pub struct Dimensions {
    pub width: u32,
    pub height: u32,
}

/// What the client remembers of the mouse.
#[derive(Clone, Copy, Debug, PartialEq, Eq, Structural)]
pub struct MouseManager {
    pub left_click: bool,
}

/// The projection of a perspective camera.
#[derive(Clone, Copy, Debug, PartialEq, Eq, Structural)]
pub struct PerspectiveCamera {
    pub aspect: i64,
    pub fovy: i64,
    pub znear: i64,
    pub zfar: i64,
}

/// A camera that is not a perspective camera; none such is implemented.
#[derive(Clone, Copy, Debug, PartialEq, Eq, Structural)]
pub struct UnsupportedCamera {}

/// Where the sun stands and how it shines.
#[derive(Clone, Copy, Debug, PartialEq, Eq, Structural)]
pub struct Sun {
    pub azimuth: i64,
    pub inclination: i64,
    pub radiance: Vec3,
}

/// An entity with its identity.
#[derive(Clone, Copy, Debug, PartialEq, Eq, Structural)]
pub struct Identified {
    pub entity: Entity,
    pub id: IdComponent,
}

/// An entity with a physics body: its identity, and its collider if the
/// physics world holds one for it.
#[derive(Clone, Copy, Debug)]
pub struct Collidable {
    pub id: IdComponent,
    pub collider: Option<ColliderHandle>,
}

/// How a model is drawn.
#[derive(Clone, Copy, Debug, PartialEq, Eq, Structural)]
pub enum DrawMode {
    Static,
    Animated,
    Skipped,
}

/// How a model is drawn, and whether with the world matrix that its parent
/// chain gave or with its own transform.
#[derive(Clone, Copy, Debug, PartialEq, Eq, Structural)]
pub struct DrawChoice {
    pub with_parent_matrix: bool,
    pub mode: DrawMode,
}

/// The state of the client layer.
pub struct ClientLayer {
    pub entities: EntityIndex,
    pub perspective_cameras: HashMap<u128, PerspectiveCamera>,
    pub gate: AssetGate,
    pub position_cache: PositionCache,
    pub input_lock: HashMap<u128, u32>,
    pub identities: HashMap<u128, IdComponent>,
    pub player_controller: PlayerController,
    pub frame: i64,
    pub debouncer: i64,
    pub tick: u32,
    pub viewport: Dimensions,
    pub canvas_size: Dimensions,
    pub cursor_lock: bool,
    pub mouse: MouseManager,
    pub previous_mouse: MouseManager,
}

/// The sun after one more light was looked at: a directional light sets
/// it, any other light leaves it.
pub open spec fn lit(sun: Sun, light: LightComponent) -> Sun {
    match light {
        LightComponent::Directional { radiance, azimuth, inclination, intensity } => Sun {
            azimuth,
            inclination,
            radiance,
        },
        LightComponent::Point { .. } => sun,
    }
}

/// The sun before any light was looked at.
pub open spec fn dark() -> Sun {
    Sun { azimuth: 0, inclination: 0, radiance: Vec3::spec_zeros() }
}

/// A sky turned toward the sun: a dynamic sky takes the sun's azimuth and
/// inclination, an image stays as it is.
pub open spec fn turned(sky: SkyLightComponent, sun: Sun) -> SkyLightComponent {
    match sky {
        SkyLightComponent::Dynamic { id, intensity, turbidity, azimuth, inclination } =>
            SkyLightComponent::Dynamic {
            id,
            intensity,
            turbidity,
            azimuth: sun.azimuth,
            inclination: sun.inclination,
        },
        SkyLightComponent::Image { id } => sky,
    }
}

/// Whose player the controller takes over after one more entity was looked
/// at: an entity that carries the self marker replaces whatever was found
/// before.
pub open spec fn chosen(found: Option<Identified>, candidate: Identified) -> Option<Identified> {
    if candidate.id.is_self {
        Some(candidate)
    } else {
        found
    }
}

/// The collider that the collision events of a tick are matched against:
/// that of the first entity that carries the self marker, if it has one.
pub open spec fn own_collider(bodies: Seq<Collidable>) -> Option<ColliderHandle>
    decreases bodies.len(),
{
    if bodies.len() == 0 {
        None
    } else if bodies[0].id.is_self {
        bodies[0].collider
    } else {
        own_collider(bodies.skip(1))
    }
}

/// The identities that the client holds, by identifier, after it received
/// `prefabs` in order: each prefab gives the entity that carries its
/// identifier the identity it brings.
pub open spec fn mirrored(
    identities: Map<u128, IdComponent>,
    prefabs: Seq<IdComponent>,
) -> Map<u128, IdComponent>
    decreases prefabs.len(),
{
    if prefabs.len() == 0 {
        identities
    } else {
        mirrored(identities, prefabs.drop_last()).insert(prefabs.last().id, prefabs.last())
    }
}

/// Whether every identity is held under the identifier it names.
pub open spec fn keyed(identities: Map<u128, IdComponent>) -> bool {
    forall|id: u128| identities.contains_key(id) ==> (#[trigger] identities[id]).id == id
}

/// On a client that holds no entity with the self marker, a
/// synchronisation that marks a prefab as the player's own only where it
/// carries the identifier of `player_id` leaves at most one entity with the
/// self marker, and that entity carries the identifier of `player_id`.
pub proof fn lemma_single_self_on_the_client(
    identities: Map<u128, IdComponent>,
    prefabs: Seq<IdComponent>,
    player_id: u128,
)
    requires
        keyed(identities),
        forall|id: u128| identities.contains_key(id) ==> !(#[trigger] identities[id]).is_self,
        forall|i: int|
            0 <= i < prefabs.len() && (#[trigger] prefabs[i]).is_self ==> prefabs[i].id
                == player_id,
    ensures
        keyed(mirrored(identities, prefabs)),
        forall|id: u128|
            mirrored(identities, prefabs).contains_key(id) && (#[trigger] mirrored(
                identities,
                prefabs,
            )[id]).is_self ==> id == player_id,
    decreases prefabs.len(),
{
    if prefabs.len() > 0 {
        let front = prefabs.drop_last();
        assert forall|i: int| 0 <= i < front.len() && (#[trigger] front[i]).is_self implies front[i].id
            == player_id by {
            assert(front[i] == prefabs[i]);
        }
        lemma_single_self_on_the_client(identities, front, player_id);
        assert(prefabs.last() == prefabs[prefabs.len() - 1]);
    }
}

/// The controller after one more collision event, for a player whose
/// collider is `own`: an event between `own` and another collider grounds
/// the player where the touch started and lifts it where the touch stopped.
pub open spec fn touched(
    controller: PlayerController,
    own: ColliderHandle,
    event: CollisionEvent,
) -> PlayerController {
    if event.collider1 == own || event.collider2 == own {
        if event.started {
            controller.grounded()
        } else if event.stopped {
            controller.airborne()
        } else {
            controller
        }
    } else {
        controller
    }
}

/// The debouncer brought back below [`DEBOUNCE_PERIOD`]: the remainder of
/// its division by the period, with the sign of the debouncer.
pub open spec fn wrapped(debouncer: i64) -> i64 {
    if debouncer >= 0 {
        (debouncer % DEBOUNCE_PERIOD) as i64
    } else {
        (-((-debouncer) % (DEBOUNCE_PERIOD as int))) as i64
    }
}

/// How a model is drawn: with its parent's matrix if it has a parent
/// component; animated if it has an animation component, and then only if
/// the animation has a frame to show.
pub fn draw_choice(has_parent: bool, has_animation: bool, has_frame: bool) -> (choice: DrawChoice)
    ensures
        choice == (DrawChoice {
            with_parent_matrix: has_parent,
            mode: if !has_animation {
                DrawMode::Static
            } else if has_frame {
                DrawMode::Animated
            } else {
                DrawMode::Skipped
            },
        }),
{
    DrawChoice {
        with_parent_matrix: has_parent,
        mode: if !has_animation {
            DrawMode::Static
        } else if has_frame {
            DrawMode::Animated
        } else {
            DrawMode::Skipped
        },
    }
}

/// The collider that the collision events of a tick are matched against.
pub fn find_own_collider(bodies: &Vec<Collidable>) -> (own: Option<ColliderHandle>)
    ensures
        own == own_collider(bodies@),
{
    let mut k: usize = 0;
    assert(bodies@.skip(0) == bodies@);
    while k < bodies.len()
        invariant
            k <= bodies@.len(),
            own_collider(bodies@) == own_collider(bodies@.skip(k as int)),
        decreases bodies@.len() - k,
    {
        proof {
            assert(bodies@.skip(k as int).skip(1) == bodies@.skip(k + 1));
        }
        if bodies[k].id.is_self {
            return bodies[k].collider;
        }
        k += 1;
    }
    None
}

/// The sun as the lights of the scene give it: the last directional light
/// decides.
pub fn sun_of(lights: &Vec<LightComponent>) -> (sun: Sun)
    ensures
        sun == lights@.fold_left(dark(), |sun: Sun, light: LightComponent| lit(sun, light)),
{
    let ghost step = |sun: Sun, light: LightComponent| lit(sun, light);
    let mut sun = Sun { azimuth: 0, inclination: 0, radiance: Vec3::zeros() };
    let mut i: usize = 0;
    while i < lights.len()
        invariant
            i <= lights@.len(),
            step == |sun: Sun, light: LightComponent| lit(sun, light),
            sun == lights@.take(i as int).fold_left(dark(), step),
        decreases lights@.len() - i,
    {
        proof {
            assert(lights@.take(i + 1).drop_last() == lights@.take(i as int));
        }
        match lights[i] {
            LightComponent::Directional { radiance, azimuth, inclination, intensity } => {
                sun = Sun { azimuth, inclination, radiance };
            },
            LightComponent::Point { .. } => {},
        }
        i += 1;
    }
    assert(lights@.take(lights@.len() as int) == lights@);
    sun
}

/// Turns a sky toward the sun.
pub fn turn_sky(sky: SkyLightComponent, sun: Sun) -> (after: SkyLightComponent)
    ensures
        after == turned(sky, sun),
{
    match sky {
        SkyLightComponent::Dynamic { id, intensity, turbidity, azimuth, inclination } =>
            SkyLightComponent::Dynamic {
            id,
            intensity,
            turbidity,
            azimuth: sun.azimuth,
            inclination: sun.inclination,
        },
        SkyLightComponent::Image { id } => sky,
    }
}

impl ClientLayer {
    /// The asset counters are not negative and the position cache is in
    /// order.
    pub open spec fn wf(&self) -> bool {
        self.gate.wf() && self.position_cache.wf()
    }

    /// The frame lock of `player_id`: zero for a player not heard of.
    pub open spec fn lock_of(&self, player_id: u128) -> u32 {
        if self.input_lock@.contains_key(player_id) {
            self.input_lock@[player_id]
        } else {
            0
        }
    }

    /// The positions that wait for `player_id`, oldest first.
    pub open spec fn queue_of(&self, player_id: u128) -> Seq<Vec3> {
        if self.position_cache@.contains_key(player_id) {
            self.position_cache@[player_id]
        } else {
            Seq::empty()
        }
    }

    /// A client that knows no entity, awaits no asset and has a canvas of
    /// `width` by `height`.
    pub fn new(width: u32, height: u32) -> (layer: ClientLayer)
        ensures
            layer.wf(),
            layer.entities@ == Map::<u128, Entity>::empty(),
            layer.perspective_cameras@ == Map::<u128, PerspectiveCamera>::empty(),
            layer.gate.pending_models() == 0,
            layer.gate.pending_trimeshes() == 0,
            layer.position_cache@ == Map::<u128, Seq<Vec3>>::empty(),
            layer.input_lock@ == Map::<u128, u32>::empty(),
            layer.identities@ == Map::<u128, IdComponent>::empty(),
            !layer.player_controller.spec_is_initialized(),
            layer.frame == 0,
            layer.debouncer == 0,
            layer.tick == 0,
            layer.viewport == (Dimensions { width, height }),
            layer.canvas_size == (Dimensions { width, height }),
            !layer.cursor_lock,
            !layer.mouse.left_click,
            !layer.previous_mouse.left_click,
    {
        ClientLayer {
            entities: EntityIndex::new(),
            perspective_cameras: HashMap::new(),
            gate: AssetGate::new(),
            position_cache: PositionCache::new(),
            input_lock: HashMap::new(),
            identities: HashMap::new(),
            player_controller: PlayerController::new(),
            frame: 0,
            debouncer: 0,
            tick: 0,
            viewport: Dimensions { width, height },
            canvas_size: Dimensions { width, height },
            cursor_lock: false,
            mouse: MouseManager { left_click: false },
            previous_mouse: MouseManager { left_click: false },
        }
    }

    /// Whether the host is asked to capture the mouse: while the left
    /// button is down.
    pub fn update_mouse_state(&self) -> (capture: bool)
        ensures
            capture == self.mouse.left_click,
    {
        self.mouse.left_click
    }

    /// The entity that carries `id`; where there is none, `create` makes
    /// one and the client binds it.
    pub fn get_or_create_entity<F: FnOnce() -> Entity>(&mut self, id: u128, create: F) -> (entity:
        Entity)
        requires
            create.requires(()),
        ensures
            old(self).entities@.contains_key(id) ==> entity == old(self).entities@[id] && final(self).entities@ == old(self).entities@,
            !old(self).entities@.contains_key(id) ==> create.ensures((), entity) && final(self).entities@ == old(self).entities@.insert(id, entity),
            final(self).perspective_cameras == old(self).perspective_cameras,
            final(self).gate == old(self).gate,
            final(self).position_cache == old(self).position_cache,
            final(self).input_lock == old(self).input_lock,
            final(self).player_controller == old(self).player_controller,
            final(self).identities == old(self).identities,
            final(self).frame == old(self).frame,
            final(self).debouncer == old(self).debouncer,
            final(self).tick == old(self).tick,
            final(self).viewport == old(self).viewport,
            final(self).canvas_size == old(self).canvas_size,
            final(self).cursor_lock == old(self).cursor_lock,
            final(self).mouse == old(self).mouse,
            final(self).previous_mouse == old(self).previous_mouse,
    {
        self.entities.get_or_create(id, create)
    }

    /// A frame's packet arrives for an entity: the client notes the
    /// identity that the packet gives the entity, and lists the components to
    /// attach.
    pub fn receive_packet(&mut self, prefab: &PartialPrefab) -> (kinds: Vec<ComponentKind>)
        ensures
            kinds@ == prefab.spec_attached(),
            final(self).identities@ == old(self).identities@.insert(prefab.id.id, prefab.id),
            final(self).entities == old(self).entities,
            final(self).perspective_cameras == old(self).perspective_cameras,
            final(self).gate == old(self).gate,
            final(self).position_cache == old(self).position_cache,
            final(self).input_lock == old(self).input_lock,
            final(self).player_controller == old(self).player_controller,
            final(self).frame == old(self).frame,
            final(self).debouncer == old(self).debouncer,
            final(self).tick == old(self).tick,
            final(self).viewport == old(self).viewport,
            final(self).canvas_size == old(self).canvas_size,
            final(self).cursor_lock == old(self).cursor_lock,
            final(self).mouse == old(self).mouse,
            final(self).previous_mouse == old(self).previous_mouse,
    {
        self.identities.insert(prefab.id.id, prefab.id);
        prefab.attached()
    }

    /// A full prefab arrives for an entity: the client notes the identity
    /// that the prefab gives the entity, and lists the components to attach.
    pub fn receive_prefab(&mut self, prefab: &FullPrefab) -> (kinds: Vec<ComponentKind>)
        ensures
            kinds@ == prefab.spec_attached(Side::Client),
            final(self).identities@ == old(self).identities@.insert(prefab.id.id, prefab.id),
            final(self).entities == old(self).entities,
            final(self).perspective_cameras == old(self).perspective_cameras,
            final(self).gate == old(self).gate,
            final(self).position_cache == old(self).position_cache,
            final(self).input_lock == old(self).input_lock,
            final(self).player_controller == old(self).player_controller,
            final(self).frame == old(self).frame,
            final(self).debouncer == old(self).debouncer,
            final(self).tick == old(self).tick,
            final(self).viewport == old(self).viewport,
            final(self).canvas_size == old(self).canvas_size,
            final(self).cursor_lock == old(self).cursor_lock,
            final(self).mouse == old(self).mouse,
            final(self).previous_mouse == old(self).previous_mouse,
    {
        self.identities.insert(prefab.id.id, prefab.id);
        prefab.attached(Side::Client)
    }

    /// Whether every parent that the walk from `parent_id` comes to is
    /// bound to an entity. A parent identifier that no entity carries is a
    /// fault in the level or in the wiring; the host stops on it.
    pub fn parents_are_bound(&self, links: &ParentLinks, parent_id: u128) -> (bound: bool)
        ensures
            bound == ancestors(self.entities@, links@, parent_id) is Ok,
    {
        resolve_parent_chain(&self.entities, links, parent_id).is_ok()
    }

    /// The ancestors whose matrices make the world matrix of a child whose
    /// parent component names `parent_id`, nearest first and at most
    /// [`MAX_PARENTS`] of them. Every parent on the way must be bound to an
    /// entity, as [`ClientLayer::parents_are_bound`] tells.
    pub fn update_parent_transform(&self, links: &ParentLinks, parent_id: u128) -> (chain: Vec<
        Entity,
    >)
        requires
            ancestors(self.entities@, links@, parent_id) is Ok,
        ensures
            ancestors(self.entities@, links@, parent_id) == Ok::<Seq<Entity>, MissingParent>(
                chain@,
            ),
            chain@.len() <= MAX_PARENTS,
    {
        match resolve_parent_chain(&self.entities, links, parent_id) {
            Ok(chain) => chain,
            Err(_) => Vec::new(),
        }
    }

    /// Network phase: an asset finished loading. A model or a collision
    /// mesh is awaited no longer.
    pub fn on_asset(&mut self, asset: LoadedAsset)
        requires
            old(self).wf(),
        ensures
            final(self).wf(),
            final(self).gate.pending_models() == (if asset == LoadedAsset::Model {
                one_less(old(self).gate.pending_models())
            } else {
                old(self).gate.pending_models()
            }),
            final(self).gate.pending_trimeshes() == (if asset == LoadedAsset::Trimesh {
                one_less(old(self).gate.pending_trimeshes())
            } else {
                old(self).gate.pending_trimeshes()
            }),
            final(self).entities == old(self).entities,
            final(self).perspective_cameras == old(self).perspective_cameras,
            final(self).position_cache == old(self).position_cache,
            final(self).input_lock == old(self).input_lock,
            final(self).player_controller == old(self).player_controller,
            final(self).identities == old(self).identities,
            final(self).frame == old(self).frame,
            final(self).debouncer == old(self).debouncer,
            final(self).tick == old(self).tick,
    {
        self.gate.arrived(asset);
    }

    /// Network phase: a world synchronisation lists `assets`. With
    /// `trigger_loading` every model among them is awaited, and with it its
    /// collision mesh. The host asks for each asset to be downloaded, and
    /// takes each prefab of the message with
    /// [`ClientLayer::get_or_create_entity`] and
    /// [`ClientLayer::receive_prefab`].
    pub fn on_sync_world(&mut self, assets: &Vec<Asset>, trigger_loading: bool)
        requires
            old(self).wf(),
        ensures
            final(self).wf(),
            trigger_loading ==> final(self).gate.pending_models() == capped(
                old(self).gate.pending_models() + models_among(assets@),
            ),
            trigger_loading ==> final(self).gate.pending_trimeshes() == capped(
                old(self).gate.pending_trimeshes() + models_among(assets@),
            ),
            !trigger_loading ==> final(self).gate == old(self).gate,
            final(self).entities == old(self).entities,
            final(self).perspective_cameras == old(self).perspective_cameras,
            final(self).position_cache == old(self).position_cache,
            final(self).input_lock == old(self).input_lock,
            final(self).player_controller == old(self).player_controller,
            final(self).identities == old(self).identities,
            final(self).frame == old(self).frame,
            final(self).debouncer == old(self).debouncer,
            final(self).tick == old(self).tick,
    {
        self.gate.announce(assets, trigger_loading);
    }

    /// Network phase: the server passes on a batch of trusted inputs of
    /// `player_id`. The player gets an entity if it has none. The inputs
    /// pass the player's frame lock in order, starting from zero for a
    /// player not heard of, and the positions of the accepted ones join the
    /// player's queue, oldest first.
    pub fn on_trusted<F: FnOnce() -> Entity>(
        &mut self,
        player_id: u128,
        inputs: &Vec<TrustedInput>,
        create: F,
    ) -> (entity: Entity)
        requires
            old(self).wf(),
            create.requires(()),
        ensures
            final(self).wf(),
            old(self).entities@.contains_key(player_id) ==> entity == old(self).entities@[player_id] && final(self).entities@ == old(self).entities@,
            !old(self).entities@.contains_key(player_id) ==> create.ensures((), entity) && final(self).entities@ == old(self).entities@.insert(player_id, entity),
            final(self).input_lock@ == old(self).input_lock@.insert(
                player_id,
                lock_after(old(self).lock_of(player_id), inputs@),
            ),
            accepted(old(self).lock_of(player_id), inputs@).len() == 0 ==> final(self).position_cache@
                == old(self).position_cache@,
            accepted(old(self).lock_of(player_id), inputs@).len() > 0 ==> final(self).position_cache@
                == old(self).position_cache@.insert(
                player_id,
                extended(
                    old(self).queue_of(player_id),
                    translations(accepted(old(self).lock_of(player_id), inputs@)),
                ),
            ),
            final(self).perspective_cameras == old(self).perspective_cameras,
            final(self).gate == old(self).gate,
            final(self).player_controller == old(self).player_controller,
            final(self).identities == old(self).identities,
            final(self).frame == old(self).frame,
            final(self).debouncer == old(self).debouncer,
            final(self).tick == old(self).tick,
    {
        let entity = self.entities.get_or_create(player_id, create);
        let lock = match self.input_lock.get(&player_id) {
            Some(lock) => *lock,
            None => 0,
        };
        let (lock, moves) = accept_batch(lock, inputs);
        self.input_lock.insert(player_id, lock);
        if moves.len() > 0 {
            self.position_cache.extend(player_id, &moves);
        }
        entity
    }

    /// Update phase, first step: every remote player with a waiting
    /// position moves to its oldest one; the updates come one per such
    /// player, in no fixed order. The host writes each update to the
    /// transform of the player's entity, which it finds with
    /// [`ClientLayer::get_or_create_entity`].
    pub fn reconcile_positions(&mut self) -> (updates: Vec<PositionUpdate>)
        requires
            old(self).wf(),
        ensures
            final(self).wf(),
            players_of(updates@).no_duplicates(),
            forall|player_id: u128|
                players_of(updates@).contains(player_id) <==> old(self).position_cache@.contains_key(
                    player_id,
                ) && old(self).position_cache@[player_id].len() > 0,
            forall|i: int|
                0 <= i < updates@.len() ==> (#[trigger] updates@[i]).translation == old(self).position_cache@[updates@[i].player_id][0],
            final(self).position_cache@.dom() == old(self).position_cache@.dom(),
            forall|player_id: u128|
                old(self).position_cache@.contains_key(player_id) ==> #[trigger] final(self).position_cache@[player_id] == without_oldest(
                    old(self).position_cache@[player_id],
                ),
            final(self).entities == old(self).entities,
            final(self).perspective_cameras == old(self).perspective_cameras,
            final(self).gate == old(self).gate,
            final(self).input_lock == old(self).input_lock,
            final(self).player_controller == old(self).player_controller,
            final(self).identities == old(self).identities,
            final(self).frame == old(self).frame,
            final(self).debouncer == old(self).debouncer,
            final(self).tick == old(self).tick,
    {
        self.position_cache.take_oldest()
    }

    /// Update phase: takes note of a camera of the scene. A perspective
    /// camera is kept, under its identifier, with its projection; any other
    /// camera is refused and changes nothing.
    pub fn refresh_camera(&mut self, camera: &CameraComponent) -> (kept: Result<
        (),
        UnsupportedCamera,
    >)
        ensures
            kept is Ok <==> *camera is Perspective,
            final(self).perspective_cameras@ == (match *camera {
                CameraComponent::Perspective { id, aspect, fovy, znear, zfar } => old(self).perspective_cameras@.insert(id, PerspectiveCamera { aspect, fovy, znear, zfar }),
                CameraComponent::Orthographic => old(self).perspective_cameras@,
            }),
            final(self).entities == old(self).entities,
            final(self).gate == old(self).gate,
            final(self).position_cache == old(self).position_cache,
            final(self).input_lock == old(self).input_lock,
            final(self).player_controller == old(self).player_controller,
            final(self).identities == old(self).identities,
            final(self).frame == old(self).frame,
            final(self).debouncer == old(self).debouncer,
            final(self).tick == old(self).tick,
    {
        match camera {
            CameraComponent::Perspective { id, aspect, fovy, znear, zfar } => {
                self.perspective_cameras.insert(
                    *id,
                    PerspectiveCamera { aspect: *aspect, fovy: *fovy, znear: *znear, zfar: *zfar },
                );
                Ok(())
            },
            CameraComponent::Orthographic => Err(UnsupportedCamera {  }),
        }
    }

    /// Update phase: the player controller takes over the local player, if
    /// it has not yet. Of the entities of the scene, the last one that
    /// carries the self marker is taken; without one, nothing changes.
    pub fn adopt_self(&mut self, scene: &Vec<Identified>)
        ensures
            final(self).player_controller == (if old(self).player_controller.spec_is_initialized() {
                old(self).player_controller
            } else {
                match scene@.fold_left(
                    None,
                    |found: Option<Identified>, candidate: Identified| chosen(found, candidate),
                ) {
                    Some(own) => PlayerController {
                        entity: Some(own.entity),
                        id: own.id.id,
                        ..old(self).player_controller
                    },
                    None => old(self).player_controller,
                }
            }),
            final(self).entities == old(self).entities,
            final(self).identities == old(self).identities,
            final(self).perspective_cameras == old(self).perspective_cameras,
            final(self).gate == old(self).gate,
            final(self).position_cache == old(self).position_cache,
            final(self).input_lock == old(self).input_lock,
            final(self).frame == old(self).frame,
            final(self).debouncer == old(self).debouncer,
            final(self).tick == old(self).tick,
    {
        if self.player_controller.is_initialized() {
            return ;
        }
        let ghost step = |found: Option<Identified>, candidate: Identified|
            chosen(found, candidate);
        let mut i: usize = 0;
        while i < scene.len()
            invariant
                i <= scene@.len(),
                step == |found: Option<Identified>, candidate: Identified|
                    chosen(found, candidate),
                !old(self).player_controller.spec_is_initialized(),
                self.player_controller == (match scene@.take(i as int).fold_left(
                    None::<Identified>,
                    step,
                ) {
                    Some(own) => PlayerController {
                        entity: Some(own.entity),
                        id: own.id.id,
                        ..old(self).player_controller
                    },
                    None => old(self).player_controller,
                }),
                self.entities == old(self).entities,
                self.identities == old(self).identities,
                self.perspective_cameras == old(self).perspective_cameras,
                self.gate == old(self).gate,
                self.position_cache == old(self).position_cache,
                self.input_lock == old(self).input_lock,
                self.frame == old(self).frame,
                self.debouncer == old(self).debouncer,
                self.tick == old(self).tick,
            decreases scene@.len() - i,
        {
            proof {
                assert(scene@.take(i + 1).drop_last() == scene@.take(i as int));
            }
            if scene[i].id.is_self {
                self.player_controller.initialize(scene[i].entity, scene[i].id.id);
            }
            i += 1;
        }
        assert(scene@.take(scene@.len() as int) == scene@);
    }

    /// Update phase: the one input of the tick. The client remembers the
    /// left button and the canvas, hands the input to the player controller
    /// and lets it move the controlled entity. Returns whether the host is
    /// asked to capture the mouse, and the controlled entity as it is now.
    pub fn on_input(
        &mut self,
        input: &DefaultInput,
        controlled: Option<Controlled>,
        delta_in_seconds: i64,
    ) -> (outcome: (bool, Option<Controlled>))
        ensures
            outcome.0 == input.left_click,
            outcome.1 == old(self).player_controller.after_input(*input).moved(
                controlled,
                delta_in_seconds,
            ),
            final(self).player_controller == old(self).player_controller.after_input(
                *input,
            ).after_update(controlled),
            final(self).mouse == (MouseManager { left_click: input.left_click }),
            final(self).previous_mouse == final(self).mouse,
            final(self).canvas_size == (Dimensions {
                width: input.canvas.0,
                height: input.canvas.1,
            }),
            final(self).viewport == old(self).viewport,
            final(self).cursor_lock == old(self).cursor_lock,
            final(self).entities == old(self).entities,
            final(self).identities == old(self).identities,
            final(self).perspective_cameras == old(self).perspective_cameras,
            final(self).gate == old(self).gate,
            final(self).position_cache == old(self).position_cache,
            final(self).input_lock == old(self).input_lock,
            final(self).frame == old(self).frame,
            final(self).debouncer == old(self).debouncer,
            final(self).tick == old(self).tick,
    {
        self.mouse.left_click = input.left_click;
        let capture = self.update_mouse_state();
        self.canvas_size.width = input.canvas.0;
        self.canvas_size.height = input.canvas.1;
        self.player_controller.input(input);
        let after = self.player_controller.update(controlled, delta_in_seconds);
        self.previous_mouse = self.mouse;
        (capture, after)
    }

    /// Update phase: where the client's own view of the local player
    /// stands and looks, for a player at `transform` that faces
    /// `direction`.
    pub fn view_frame(&self, transform: &TransformComponent, direction: Vec3) -> (frame: CameraFrame)
        ensures
            frame == (CameraFrame {
                position: transform.translation.spec_plus(
                    direction.spec_scale(VIEW_DISTANCE).spec_plus(
                        Vec3 { x: 0, y: VIEW_HEIGHT, z: 0 },
                    ),
                ),
                target: transform.translation.spec_plus(Vec3 { x: 0, y: VIEW_TARGET_HEIGHT, z: 0 }),
                up: Vec3 { x: 0, y: 1_000_000, z: 0 },
            }),
    {
        let offset = direction.scale(VIEW_DISTANCE).plus(Vec3::new(0, VIEW_HEIGHT, 0));
        CameraFrame {
            position: transform.translation.plus(offset),
            target: transform.translation.plus(Vec3::new(0, VIEW_TARGET_HEIGHT, 0)),
            up: Vec3::new(0, 1_000_000, 0),
        }
    }

    /// Update phase, last step. The tick is counted; at its largest value
    /// the counter stays. While assets are awaited nothing else happens.
    /// Otherwise the clock moves by [`CLIENT_TIME_STEP`], and so does the
    /// debouncer, which starts over at [`DEBOUNCE_PERIOD`]. Returns whether
    /// the client simulates on this tick.
    pub fn on_update(&mut self) -> (simulates: bool)
        requires
            old(self).wf(),
        ensures
            final(self).wf(),
            simulates == old(self).gate.spec_is_open(),
            final(self).tick == (if old(self).tick == u32::MAX {
                old(self).tick
            } else {
                (old(self).tick + 1) as u32
            }),
            final(self).frame == (if simulates {
                spec_plus(old(self).frame, CLIENT_TIME_STEP)
            } else {
                old(self).frame
            }),
            final(self).debouncer == (if simulates {
                wrapped(spec_plus(old(self).debouncer, CLIENT_TIME_STEP))
            } else {
                old(self).debouncer
            }),
            final(self).entities == old(self).entities,
            final(self).perspective_cameras == old(self).perspective_cameras,
            final(self).gate == old(self).gate,
            final(self).position_cache == old(self).position_cache,
            final(self).input_lock == old(self).input_lock,
            final(self).player_controller == old(self).player_controller,
            final(self).identities == old(self).identities,
    {
        if self.tick < u32::MAX {
            self.tick += 1;
        }
        if !self.gate.is_open() {
            return false;
        }
        self.frame = plus(self.frame, CLIENT_TIME_STEP);
        self.debouncer = plus(self.debouncer, CLIENT_TIME_STEP) % DEBOUNCE_PERIOD;
        true
    }

    /// Physics phase. While assets are awaited, nothing is simulated: no
    /// command is given and the host does not step the physics world.
    /// Otherwise every body gets its command.
    pub fn on_physics(&self, bodies: &Vec<PhysicsBody>) -> (commands: Option<Vec<PhysicsCommand>>)
        requires
            self.wf(),
        ensures
            commands is Some <==> self.gate.spec_is_open(),
            commands is None <==> self.gate.pending_models() + self.gate.pending_trimeshes() > 0,
            commands matches Some(list) ==> list@ == commands_for(bodies@),
    {
        proof {
            lemma_closed_while_pending(self.gate);
        }
        if !self.gate.is_open() {
            return None;
        }
        Some(plan_bodies(bodies))
    }

    /// Physics phase: the collision events of the tick reach the player
    /// controller. They are matched against the collider of the first of
    /// `bodies` that carries the self marker; without such a collider,
    /// nothing happens.
    pub fn on_collisions(&mut self, bodies: &Vec<Collidable>, events: &Vec<CollisionEvent>)
        ensures
            final(self).player_controller == (match own_collider(bodies@) {
                Some(handle) => events@.fold_left(
                    old(self).player_controller,
                    |controller: PlayerController, event: CollisionEvent|
                        touched(controller, handle, event),
                ),
                None => old(self).player_controller,
            }),
            final(self).entities == old(self).entities,
            final(self).identities == old(self).identities,
            final(self).perspective_cameras == old(self).perspective_cameras,
            final(self).gate == old(self).gate,
            final(self).position_cache == old(self).position_cache,
            final(self).input_lock == old(self).input_lock,
            final(self).frame == old(self).frame,
            final(self).debouncer == old(self).debouncer,
            final(self).tick == old(self).tick,
    {
        let handle = match find_own_collider(bodies) {
            Some(handle) => handle,
            None => {
                return ;
            },
        };
        let ghost step = |controller: PlayerController, event: CollisionEvent|
            touched(controller, handle, event);
        let mut i: usize = 0;
        while i < events.len()
            invariant
                i <= events@.len(),
                step == |controller: PlayerController, event: CollisionEvent|
                    touched(controller, handle, event),
                self.player_controller == events@.take(i as int).fold_left(
                    old(self).player_controller,
                    step,
                ),
                self.entities == old(self).entities,
                self.identities == old(self).identities,
                self.perspective_cameras == old(self).perspective_cameras,
                self.gate == old(self).gate,
                self.position_cache == old(self).position_cache,
                self.input_lock == old(self).input_lock,
                self.frame == old(self).frame,
                self.debouncer == old(self).debouncer,
                self.tick == old(self).tick,
            decreases events@.len() - i,
        {
            proof {
                assert(events@.take(i + 1).drop_last() == events@.take(i as int));
            }
            let event = events[i];
            if event.collider1 == handle {
                if event.started {
                    self.player_controller.on_collision_start();
                } else if event.stopped {
                    self.player_controller.on_collision_stop();
                }
            } else if event.collider2 == handle {
                if event.started {
                    self.player_controller.on_collision_start();
                } else if event.stopped {
                    self.player_controller.on_collision_stop();
                }
            }
            i += 1;
        }
        assert(events@.take(events@.len() as int) == events@);
    }

    /// Post-physics phase: what the client reports to the server of one
    /// entity. Only the local player's own entity is reported: its position,
    /// under the number of the current tick.
    pub fn on_post_physics(&self, id: &IdComponent, transform: &TransformComponent) -> (report:
        Option<TrustedInput>)
        ensures
            report == (if id.is_self {
                Some(TrustedInput { frame: self.tick, translation: transform.translation })
            } else {
                None
            }),
    {
        if id.is_self {
            Some(TrustedInput { frame: self.tick, translation: transform.translation })
        } else {
            None
        }
    }
}

} // verus!
