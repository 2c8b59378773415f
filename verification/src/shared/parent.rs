//! Walking a chain of parents.
//!
//! A parent component names another entity by identifier. The world matrix of
//! a child is its own matrix multiplied from the left by the matrices of the
//! ancestors that this module lists, nearest first. Nothing keeps the parent
//! relation free of cycles, so the walk gives up after [`MAX_PARENTS`]
//! ancestors.

use crate::shared::entity::{Entity, EntityIndex};
use std::collections::HashMap;
use vstd::prelude::*;

verus! {

broadcast use vstd::std_specs::hash::group_hash_axioms;

/// How many ancestors contribute to a world matrix at most.
pub const MAX_PARENTS: usize = 4;

/// A parent component named an identifier that no entity carries.
#[derive(Clone, Copy, Debug, PartialEq, Eq, Structural)]
pub struct MissingParent {
    pub id: u128,
}

/// For each entity that has both a transform and a parent component, the
/// identifier that its parent component names.
pub struct ParentLinks {
    parent_of: HashMap<u64, u128>,
}

impl View for ParentLinks {
    type V = Map<Entity, u128>;

    closed spec fn view(&self) -> Map<Entity, u128> {
        Map::new(
            |entity: Entity| self.parent_of@.contains_key(entity.bits),
            |entity: Entity| self.parent_of@[entity.bits],
        )
    }
}

impl ParentLinks {
    /// No entity has a parent.
    pub fn new() -> (links: ParentLinks)
        ensures
            links@ == Map::<Entity, u128>::empty(),
    {
        let links = ParentLinks { parent_of: HashMap::new() };
        assert(links@ =~= Map::<Entity, u128>::empty());
        links
    }

    /// Records that `entity` has a transform and a parent component naming
    /// `parent_id`.
    pub fn insert(&mut self, entity: Entity, parent_id: u128)
        ensures
            final(self)@ == old(self)@.insert(entity, parent_id),
    {
        self.parent_of.insert(entity.bits, parent_id);
        assert(self@ =~= old(self)@.insert(entity, parent_id));
    }

    /// The identifier that the parent component of `entity` names, if the
    /// entity has a transform and a parent component.
    pub fn get(&self, entity: Entity) -> (parent_id: Option<u128>)
        ensures
            parent_id == (if self@.contains_key(entity) {
                Some(self@[entity])
            } else {
                None
            }),
    {
        match self.parent_of.get(&entity.bits) {
            Some(id) => Some(*id),
            None => None,
        }
    }
}

/// `found` with `nearer` put in front of the ancestors it lists.
pub open spec fn behind(nearer: Seq<Entity>, found: Result<Seq<Entity>, MissingParent>) -> Result<
    Seq<Entity>,
    MissingParent,
> {
    match found {
        Ok(further) => Ok(nearer + further),
        Err(missing) => Err(missing),
    }
}

/// The ancestors that contribute, starting with `at` itself and taking at most
/// `budget` of them. The walk ends at an entity that lacks a transform or a
/// parent component, which contributes nothing; it fails where a parent
/// component names an identifier that `index` does not hold.
pub open spec fn walk(
    index: Map<u128, Entity>,
    links: Map<Entity, u128>,
    at: Entity,
    budget: nat,
) -> Result<Seq<Entity>, MissingParent>
    decreases budget,
{
    if budget == 0 || !links.contains_key(at) {
        Ok(Seq::empty())
    } else if !index.contains_key(links[at]) {
        Err(MissingParent { id: links[at] })
    } else {
        behind(seq![at], walk(index, links, index[links[at]], (budget - 1) as nat))
    }
}

/// The ancestors whose matrices make the world matrix of a child whose parent
/// component names `parent_id`, nearest first.
pub open spec fn ancestors(
    index: Map<u128, Entity>,
    links: Map<Entity, u128>,
    parent_id: u128,
) -> Result<Seq<Entity>, MissingParent> {
    if index.contains_key(parent_id) {
        walk(index, links, index[parent_id], MAX_PARENTS as nat)
    } else {
        Err(MissingParent { id: parent_id })
    }
}

/// A walk lists no more ancestors than its budget allows, whatever the parent
/// relation looks like, cycles included.
pub proof fn lemma_walk_is_bounded(
    index: Map<u128, Entity>,
    links: Map<Entity, u128>,
    at: Entity,
    budget: nat,
)
    ensures
        walk(index, links, at, budget) matches Ok(chain) ==> chain.len() <= budget,
    decreases budget,
{
    if budget > 0 && links.contains_key(at) && index.contains_key(links[at]) {
        lemma_walk_is_bounded(index, links, index[links[at]], (budget - 1) as nat);
    }
}

/// Lists the ancestors whose matrices make the world matrix of a child whose
/// parent component names `parent_id`: nearest first, each multiplied from the
/// left onto the product so far. At most [`MAX_PARENTS`] ancestors are
/// listed. Fails with the identifier that could not be found.
pub fn resolve_parent_chain(index: &EntityIndex, links: &ParentLinks, parent_id: u128) -> (found:
    Result<Vec<Entity>, MissingParent>)
    ensures
        match found {
            Ok(chain) => ancestors(index@, links@, parent_id) == Ok::<Seq<Entity>, MissingParent>(
                chain@,
            ) && chain@.len() <= MAX_PARENTS,
            Err(missing) => ancestors(index@, links@, parent_id) == Err::<
                Seq<Entity>,
                MissingParent,
            >(missing),
        },
{
    let mut at = match index.get(parent_id) {
        Some(entity) => entity,
        None => {
            return Err(MissingParent { id: parent_id });
        },
    };
    let mut chain: Vec<Entity> = Vec::new();
    let mut taken: usize = 0;
    while taken < MAX_PARENTS
        invariant
            taken <= MAX_PARENTS,
            chain@.len() == taken,
            ancestors(index@, links@, parent_id) == behind(
                chain@,
                walk(index@, links@, at, (MAX_PARENTS - taken) as nat),
            ),
        decreases MAX_PARENTS - taken,
    {
        let next_id = match links.get(at) {
            Some(id) => id,
            None => {
                assert(chain@ + Seq::<Entity>::empty() == chain@);
                return Ok(chain);
            },
        };
        let next = match index.get(next_id) {
            Some(entity) => entity,
            None => {
                return Err(MissingParent { id: next_id });
            },
        };
        proof {
            let rest = walk(index@, links@, next, (MAX_PARENTS - taken - 1) as nat);
            match rest {
                Ok(further) => {
                    assert(chain@ + (seq![at] + further) == chain@.push(at) + further);
                },
                Err(_) => {},
            }
        }
        chain.push(at);
        at = next;
        taken += 1;
    }
    assert(chain@ + Seq::<Entity>::empty() == chain@);
    Ok(chain)
}

} // verus!
