//! The asset gate: the client does not simulate while geometry that the
//! server announced is still on its way.

use vstd::prelude::*;

verus! {

/// An asset that a world synchronisation announces.
#[derive(Clone, Copy, Debug, PartialEq, Eq, Structural)]
pub enum Asset {
    Model,
    DynamicBackground,
    Animation,
    Terrain,
    Texture,
    Particle,
}

/// An asset that finished loading.
#[derive(Clone, Copy, Debug, PartialEq, Eq, Structural)]
pub enum LoadedAsset {
    DynamicBackground,
    Trimesh,
    Model,
    Terrain,
    Animation,
    Texture,
    Particle,
}

/// How many of `assets` are models.
pub open spec fn models_among(assets: Seq<Asset>) -> nat
    decreases assets.len(),
{
    if assets.len() == 0 {
        0
    } else {
        models_among(assets.drop_last()) + if assets.last() == Asset::Model {
            1nat
        } else {
            0nat
        }
    }
}

/// `count`, stopping at the largest `i16`.
pub open spec fn capped(count: int) -> int {
    if count > i16::MAX as int {
        i16::MAX as int
    } else {
        count
    }
}

/// One less than `count`, but never below zero.
pub open spec fn one_less(count: int) -> int {
    if count > 0 {
        count - 1
    } else {
        0
    }
}

/// Counts the models and the collision meshes that were announced and have
/// not arrived.
#[derive(Clone, Copy, Debug)]
pub struct AssetGate {
    received_models: i16,
    received_trimeshes: i16,
}

impl AssetGate {
    /// Neither counter is negative.
    pub closed spec fn wf(&self) -> bool {
        self.received_models >= 0 && self.received_trimeshes >= 0
    }

    /// The models still awaited.
    pub closed spec fn pending_models(&self) -> int {
        self.received_models as int
    }

    /// The collision meshes still awaited.
    pub closed spec fn pending_trimeshes(&self) -> int {
        self.received_trimeshes as int
    }

    /// Whether nothing is awaited, so that the client may simulate.
    pub open spec fn spec_is_open(&self) -> bool {
        !(self.pending_models() > 0 || self.pending_trimeshes() > 0)
    }

    /// A gate that awaits nothing.
    pub fn new() -> (gate: AssetGate)
        ensures
            gate.wf(),
            gate.pending_models() == 0,
            gate.pending_trimeshes() == 0,
    {
        AssetGate { received_models: 0, received_trimeshes: 0 }
    }

    /// The models still awaited.
    pub fn received_models(&self) -> (count: i16)
        ensures
            count == self.pending_models(),
    {
        self.received_models
    }

    /// The collision meshes still awaited.
    pub fn received_trimeshes(&self) -> (count: i16)
        ensures
            count == self.pending_trimeshes(),
    {
        self.received_trimeshes
    }

    /// Whether nothing is awaited.
    pub fn is_open(&self) -> (open: bool)
        ensures
            open == self.spec_is_open(),
    {
        !(self.received_models > 0 || self.received_trimeshes > 0)
    }

    /// Takes note of the assets of a world synchronisation. With
    /// `trigger_loading`, every model among them is awaited, and with it its
    /// collision mesh; without, nothing changes.
    pub fn announce(&mut self, assets: &Vec<Asset>, trigger_loading: bool)
        requires
            old(self).wf(),
        ensures
            final(self).wf(),
            trigger_loading ==> final(self).pending_models() == capped(
                old(self).pending_models() + models_among(assets@),
            ),
            trigger_loading ==> final(self).pending_trimeshes() == capped(
                old(self).pending_trimeshes() + models_among(assets@),
            ),
            !trigger_loading ==> *final(self) == *old(self),
    {
        if !trigger_loading {
            return ;
        }
        let mut i: usize = 0;
        while i < assets.len()
            invariant
                i <= assets.len(),
                self.wf(),
                self.pending_models() == capped(
                    old(self).pending_models() + models_among(assets@.take(i as int)),
                ),
                self.pending_trimeshes() == capped(
                    old(self).pending_trimeshes() + models_among(assets@.take(i as int)),
                ),
            decreases assets.len() - i,
        {
            proof {
                assert(assets@.take(i + 1).drop_last() == assets@.take(i as int));
            }
            match assets[i] {
                Asset::Model => {
                    if self.received_models < i16::MAX {
                        self.received_models += 1;
                    }
                    if self.received_trimeshes < i16::MAX {
                        self.received_trimeshes += 1;
                    }
                },
                _ => {},
            }
            i += 1;
        }
        proof {
            assert(assets@.take(assets.len() as int) == assets@);
        }
    }

    /// Takes note of an asset that finished loading: a model or a collision
    /// mesh is awaited no longer; any other asset changes nothing.
    pub fn arrived(&mut self, asset: LoadedAsset)
        requires
            old(self).wf(),
        ensures
            final(self).wf(),
            final(self).pending_models() == (if asset == LoadedAsset::Model {
                one_less(old(self).pending_models())
            } else {
                old(self).pending_models()
            }),
            final(self).pending_trimeshes() == (if asset == LoadedAsset::Trimesh {
                one_less(old(self).pending_trimeshes())
            } else {
                old(self).pending_trimeshes()
            }),
    {
        match asset {
            LoadedAsset::Model => {
                if self.received_models > 0 {
                    self.received_models -= 1;
                }
            },
            LoadedAsset::Trimesh => {
                if self.received_trimeshes > 0 {
                    self.received_trimeshes -= 1;
                }
            },
            _ => {},
        }
    }
}

/// While the two counters together are above zero nothing may be simulated, and
/// only then.
pub proof fn lemma_closed_while_pending(gate: AssetGate)
    requires
        gate.wf(),
    ensures
        !gate.spec_is_open() <==> gate.pending_models() + gate.pending_trimeshes() > 0,
{
}

} // verus!
