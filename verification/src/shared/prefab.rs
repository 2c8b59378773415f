//! Prefabs: the components of one entity as they travel between server and
//! client, and the order in which a receiver attaches them.

use crate::shared::components::{
    AnimationComponent, CameraComponent, IdComponent, LightComponent, PhysicsComponent,
    SkyLightComponent,
};
use crate::shared::units::TransformComponent;
use vstd::prelude::*;

verus! {

/// The kinds of component that a prefab can carry.
#[derive(Clone, Copy, Debug, PartialEq, Eq, Structural)]
pub enum ComponentKind {
    Id,
    Tag,
    Transform,
    Animation,
    Sky,
    Model,
    Terrain,
    Input,
    Camera,
    Text,
    Light,
    Parent,
    Physics,
    AudioListener,
    Particle,
}

/// Who attaches the components of a full prefab.
#[derive(Clone, Copy, Debug, PartialEq, Eq, Structural)]
pub enum Side {
    Client,
    Server,
}

/// All components of one entity. Identity and tag are always there; of a
/// component that the rules never look into, only its presence is known.
pub struct FullPrefab {
    pub id: IdComponent,
    pub tag: String,
    pub transform: Option<TransformComponent>,
    pub animation: Option<AnimationComponent>,
    pub sky: Option<SkyLightComponent>,
    pub model: bool,
    pub terrain: bool,
    pub input: bool,
    pub camera: Option<CameraComponent>,
    pub text: bool,
    pub light: Option<LightComponent>,
    pub parent: Option<u128>,
    pub physics: Option<PhysicsComponent>,
    pub audio_listener: bool,
    pub particle: bool,
}

/// The components of one entity that change from frame to frame.
pub struct PartialPrefab {
    pub id: IdComponent,
    pub tag: String,
    pub transform: Option<TransformComponent>,
    pub animation: Option<AnimationComponent>,
    pub sky: Option<SkyLightComponent>,
    pub input: bool,
    pub camera: Option<CameraComponent>,
}

/// `kinds` with `kind` added at its end if `present`.
pub open spec fn with(kinds: Seq<ComponentKind>, present: bool, kind: ComponentKind) -> Seq<
    ComponentKind,
> {
    if present {
        kinds.push(kind)
    } else {
        kinds
    }
}

impl FullPrefab {
    /// Whether the prefab carries a component of `kind`.
    pub open spec fn carries(&self, kind: ComponentKind) -> bool {
        match kind {
            ComponentKind::Id | ComponentKind::Tag => true,
            ComponentKind::Transform => self.transform is Some,
            ComponentKind::Animation => self.animation is Some,
            ComponentKind::Sky => self.sky is Some,
            ComponentKind::Model => self.model,
            ComponentKind::Terrain => self.terrain,
            ComponentKind::Input => self.input,
            ComponentKind::Camera => self.camera is Some,
            ComponentKind::Text => self.text,
            ComponentKind::Light => self.light is Some,
            ComponentKind::Parent => self.parent is Some,
            ComponentKind::Physics => self.physics is Some,
            ComponentKind::AudioListener => self.audio_listener,
            ComponentKind::Particle => self.particle,
        }
    }

    /// The components that `side` attaches, in the order in which it
    /// attaches them. The server leaves particles out and attaches the
    /// camera last.
    pub open spec fn spec_attached(&self, side: Side) -> Seq<ComponentKind> {
        let common = with(
            with(
                with(
                    with(
                        with(
                            with(
                                seq![ComponentKind::Id, ComponentKind::Tag],
                                self.transform is Some,
                                ComponentKind::Transform,
                            ),
                            self.animation is Some,
                            ComponentKind::Animation,
                        ),
                        self.sky is Some,
                        ComponentKind::Sky,
                    ),
                    self.model,
                    ComponentKind::Model,
                ),
                self.terrain,
                ComponentKind::Terrain,
            ),
            self.input,
            ComponentKind::Input,
        );
        let middle = if side == Side::Client {
            with(common, self.camera is Some, ComponentKind::Camera)
        } else {
            common
        };
        let rest = with(
            with(
                with(
                    with(
                        with(middle, self.text, ComponentKind::Text),
                        self.light is Some,
                        ComponentKind::Light,
                    ),
                    self.parent is Some,
                    ComponentKind::Parent,
                ),
                self.physics is Some,
                ComponentKind::Physics,
            ),
            self.audio_listener,
            ComponentKind::AudioListener,
        );
        if side == Side::Client {
            with(rest, self.particle, ComponentKind::Particle)
        } else {
            with(rest, self.camera is Some, ComponentKind::Camera)
        }
    }

    /// The components that `side` attaches to the prefab's entity, in
    /// order.
    pub fn attached(&self, side: Side) -> (kinds: Vec<ComponentKind>)
        ensures
            kinds@ == self.spec_attached(side),
    {
        let client = match side {
            Side::Client => true,
            Side::Server => false,
        };
        let mut kinds: Vec<ComponentKind> = Vec::new();
        kinds.push(ComponentKind::Id);
        kinds.push(ComponentKind::Tag);
        assert(kinds@ =~= seq![ComponentKind::Id, ComponentKind::Tag]);
        if self.transform.is_some() {
            kinds.push(ComponentKind::Transform);
        }
        if self.animation.is_some() {
            kinds.push(ComponentKind::Animation);
        }
        if self.sky.is_some() {
            kinds.push(ComponentKind::Sky);
        }
        if self.model {
            kinds.push(ComponentKind::Model);
        }
        if self.terrain {
            kinds.push(ComponentKind::Terrain);
        }
        if self.input {
            kinds.push(ComponentKind::Input);
        }
        if client && self.camera.is_some() {
            kinds.push(ComponentKind::Camera);
        }
        if self.text {
            kinds.push(ComponentKind::Text);
        }
        if self.light.is_some() {
            kinds.push(ComponentKind::Light);
        }
        if self.parent.is_some() {
            kinds.push(ComponentKind::Parent);
        }
        if self.physics.is_some() {
            kinds.push(ComponentKind::Physics);
        }
        if self.audio_listener {
            kinds.push(ComponentKind::AudioListener);
        }
        if client {
            if self.particle {
                kinds.push(ComponentKind::Particle);
            }
        } else {
            if self.camera.is_some() {
                kinds.push(ComponentKind::Camera);
            }
        }
        kinds
    }
}

impl PartialPrefab {
    /// The components that the client attaches when the prefab arrives, in
    /// order: the identity always, the others where the prefab carries
    /// them. The tag is not attached.
    pub open spec fn spec_attached(&self) -> Seq<ComponentKind> {
        with(
            with(
                with(
                    with(
                        with(
                            seq![ComponentKind::Id],
                            self.transform is Some,
                            ComponentKind::Transform,
                        ),
                        self.animation is Some,
                        ComponentKind::Animation,
                    ),
                    self.sky is Some,
                    ComponentKind::Sky,
                ),
                self.input,
                ComponentKind::Input,
            ),
            self.camera is Some,
            ComponentKind::Camera,
        )
    }

    /// The components that the client attaches to the prefab's entity, in
    /// order.
    pub fn attached(&self) -> (kinds: Vec<ComponentKind>)
        ensures
            kinds@ == self.spec_attached(),
    {
        let mut kinds: Vec<ComponentKind> = Vec::new();
        kinds.push(ComponentKind::Id);
        assert(kinds@ =~= seq![ComponentKind::Id]);
        if self.transform.is_some() {
            kinds.push(ComponentKind::Transform);
        }
        if self.animation.is_some() {
            kinds.push(ComponentKind::Animation);
        }
        if self.sky.is_some() {
            kinds.push(ComponentKind::Sky);
        }
        if self.input {
            kinds.push(ComponentKind::Input);
        }
        if self.camera.is_some() {
            kinds.push(ComponentKind::Camera);
        }
        kinds
    }
}

/// The place of each kind in the order of attachment.
pub open spec fn rank(side: Side, kind: ComponentKind) -> int {
    match kind {
        ComponentKind::Id => 0,
        ComponentKind::Tag => 1,
        ComponentKind::Transform => 2,
        ComponentKind::Animation => 3,
        ComponentKind::Sky => 4,
        ComponentKind::Model => 5,
        ComponentKind::Terrain => 6,
        ComponentKind::Input => 7,
        ComponentKind::Camera => if side == Side::Client {
            8
        } else {
            15
        },
        ComponentKind::Text => 9,
        ComponentKind::Light => 10,
        ComponentKind::Parent => 11,
        ComponentKind::Physics => 12,
        ComponentKind::AudioListener => 13,
        ComponentKind::Particle => 14,
    }
}

/// Whether `kinds` holds exactly the kinds that `prefab` carries and that
/// rank below `bound`, particles only for the client, in rising rank.
#[verifier::opaque]
spec fn complete_below(prefab: FullPrefab, side: Side, kinds: Seq<ComponentKind>, bound: int) -> bool {
    &&& forall|kind: ComponentKind|
        #[trigger] kinds.contains(kind) <==> prefab.carries(kind) && rank(side, kind) < bound && (
        side == Side::Client || kind != ComponentKind::Particle)
    &&& forall|i: int, j: int|
        0 <= i < j < kinds.len() ==> rank(side, #[trigger] kinds[i]) < rank(
            side,
            #[trigger] kinds[j],
        )
}

proof fn lemma_with(
    prefab: FullPrefab,
    side: Side,
    kinds: Seq<ComponentKind>,
    present: bool,
    kind: ComponentKind,
)
    requires
        complete_below(prefab, side, kinds, rank(side, kind)),
        present == (prefab.carries(kind) && (side == Side::Client || kind
            != ComponentKind::Particle)),
    ensures
        complete_below(prefab, side, with(kinds, present, kind), rank(side, kind) + 1),
{
    reveal(complete_below);
    let after = with(kinds, present, kind);
    assert forall|other: ComponentKind|
        #[trigger] after.contains(other) <==> prefab.carries(other) && rank(side, other) < rank(
            side,
            kind,
        ) + 1 && (side == Side::Client || other != ComponentKind::Particle) by {
        if after.contains(other) {
            let i = choose|i: int| 0 <= i < after.len() && after[i] == other;
            if i < kinds.len() {
                assert(kinds[i] == other);
                assert(kinds.contains(other));
            }
        }
        if kinds.contains(other) {
            let i = choose|i: int| 0 <= i < kinds.len() && kinds[i] == other;
            assert(after[i] == other);
        }
        if present && other == kind {
            assert(after[after.len() - 1] == other);
        }
    }
    assert forall|i: int, j: int| 0 <= i < j < after.len() implies rank(side, #[trigger] after[i])
        < rank(side, #[trigger] after[j]) by {
        if j == kinds.len() {
            assert(kinds[i] == after[i]);
            assert(kinds.contains(after[i]));
        }
    }
}

proof fn lemma_no_kind_at(prefab: FullPrefab, side: Side, kinds: Seq<ComponentKind>, bound: int)
    requires
        complete_below(prefab, side, kinds, bound),
        side == Side::Server,
        bound == 8 || bound == 14,
    ensures
        complete_below(prefab, side, kinds, bound + 1),
{
    reveal(complete_below);
}

/// A receiver attaches a kind of component exactly if the prefab carries
/// it and the receiver takes that kind: the client takes every kind, the
/// server every kind but particles. The kinds come in rising rank, so none
/// is attached twice.
pub proof fn lemma_attached_is_what_is_carried(prefab: FullPrefab, side: Side)
    ensures
        forall|kind: ComponentKind|
            #[trigger] prefab.spec_attached(side).contains(kind) <==> prefab.carries(kind) && (side
                == Side::Client || kind != ComponentKind::Particle),
        forall|i: int, j: int|
            0 <= i < j < prefab.spec_attached(side).len() ==> rank(
                side,
                #[trigger] prefab.spec_attached(side)[i],
            ) < rank(side, #[trigger] prefab.spec_attached(side)[j]),
{
    let s0 = seq![ComponentKind::Id, ComponentKind::Tag];
    assert(complete_below(prefab, side, s0, 2)) by {
        reveal(complete_below);
        assert(s0[0] == ComponentKind::Id && s0[1] == ComponentKind::Tag);
    }
    let s1 = with(s0, prefab.transform is Some, ComponentKind::Transform);
    lemma_with(prefab, side, s0, prefab.transform is Some, ComponentKind::Transform);
    let s2 = with(s1, prefab.animation is Some, ComponentKind::Animation);
    lemma_with(prefab, side, s1, prefab.animation is Some, ComponentKind::Animation);
    let s3 = with(s2, prefab.sky is Some, ComponentKind::Sky);
    lemma_with(prefab, side, s2, prefab.sky is Some, ComponentKind::Sky);
    let s4 = with(s3, prefab.model, ComponentKind::Model);
    lemma_with(prefab, side, s3, prefab.model, ComponentKind::Model);
    let s5 = with(s4, prefab.terrain, ComponentKind::Terrain);
    lemma_with(prefab, side, s4, prefab.terrain, ComponentKind::Terrain);
    let s6 = with(s5, prefab.input, ComponentKind::Input);
    lemma_with(prefab, side, s5, prefab.input, ComponentKind::Input);
    let s7 = if side == Side::Client {
        with(s6, prefab.camera is Some, ComponentKind::Camera)
    } else {
        s6
    };
    if side == Side::Client {
        lemma_with(prefab, side, s6, prefab.camera is Some, ComponentKind::Camera);
    } else {
        lemma_no_kind_at(prefab, side, s6, 8);
    }
    let s8 = with(s7, prefab.text, ComponentKind::Text);
    lemma_with(prefab, side, s7, prefab.text, ComponentKind::Text);
    let s9 = with(s8, prefab.light is Some, ComponentKind::Light);
    lemma_with(prefab, side, s8, prefab.light is Some, ComponentKind::Light);
    let s10 = with(s9, prefab.parent is Some, ComponentKind::Parent);
    lemma_with(prefab, side, s9, prefab.parent is Some, ComponentKind::Parent);
    let s11 = with(s10, prefab.physics is Some, ComponentKind::Physics);
    lemma_with(prefab, side, s10, prefab.physics is Some, ComponentKind::Physics);
    let s12 = with(s11, prefab.audio_listener, ComponentKind::AudioListener);
    lemma_with(prefab, side, s11, prefab.audio_listener, ComponentKind::AudioListener);
    let s13 = if side == Side::Client {
        with(s12, prefab.particle, ComponentKind::Particle)
    } else {
        with(s12, prefab.camera is Some, ComponentKind::Camera)
    };
    if side == Side::Client {
        lemma_with(prefab, side, s12, prefab.particle, ComponentKind::Particle);
    } else {
        lemma_no_kind_at(prefab, side, s12, 14);
        lemma_with(prefab, side, s12, prefab.camera is Some, ComponentKind::Camera);
    }
    assert(s13 == prefab.spec_attached(side));
    lemma_complete(prefab, side, s13, if side == Side::Client {
        15
    } else {
        16
    });
}

proof fn lemma_complete(prefab: FullPrefab, side: Side, kinds: Seq<ComponentKind>, bound: int)
    requires
        complete_below(prefab, side, kinds, bound),
        bound == (if side == Side::Client {
            15int
        } else {
            16int
        }),
    ensures
        forall|kind: ComponentKind|
            #[trigger] kinds.contains(kind) <==> prefab.carries(kind) && (side == Side::Client
                || kind != ComponentKind::Particle),
        forall|i: int, j: int|
            0 <= i < j < kinds.len() ==> rank(side, #[trigger] kinds[i]) < rank(
                side,
                #[trigger] kinds[j],
            ),
{
    reveal(complete_below);
}

} // verus!
