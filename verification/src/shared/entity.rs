//! Scene handles and the table that finds them by identifier.

use std::collections::HashMap;
use vstd::prelude::*;

verus! {

broadcast use vstd::std_specs::hash::group_hash_axioms;

/// An opaque handle of the host's scene store.
#[derive(Clone, Copy, Debug, PartialEq, Eq, Structural)]
pub struct Entity {
    pub bits: u64,
}

/// The table from identifiers to scene handles.
pub struct EntityIndex {
    handles: HashMap<u128, Entity>,
}

impl View for EntityIndex {
    type V = Map<u128, Entity>;

    closed spec fn view(&self) -> Map<u128, Entity> {
        self.handles@
    }
}

impl EntityIndex {
    /// An empty table.
    pub fn new() -> (index: EntityIndex)
        ensures
            index@ == Map::<u128, Entity>::empty(),
    {
        EntityIndex { handles: HashMap::new() }
    }

    /// The handle bound to `id`, if any.
    pub fn get(&self, id: u128) -> (found: Option<Entity>)
        ensures
            found == (if self@.contains_key(id) {
                Some(self@[id])
            } else {
                None
            }),
    {
        match self.handles.get(&id) {
            Some(entity) => Some(*entity),
            None => None,
        }
    }

    /// Binds `id` to `entity`, replacing an earlier binding.
    pub fn insert(&mut self, id: u128, entity: Entity)
        ensures
            final(self)@ == old(self)@.insert(id, entity),
    {
        self.handles.insert(id, entity);
    }

    /// Forgets the binding of `id`; a missing one is tolerated.
    pub fn remove(&mut self, id: u128) -> (gone: Option<Entity>)
        ensures
            final(self)@ == old(self)@.remove(id),
            gone == (if old(self)@.contains_key(id) {
                Some(old(self)@[id])
            } else {
                None
            }),
    {
        self.handles.remove(&id)
    }

    /// The handle bound to `id`; where there is none, `create` makes one and
    /// the table binds it.
    pub fn get_or_create<F: FnOnce() -> Entity>(&mut self, id: u128, create: F) -> (entity: Entity)
        requires
            create.requires(()),
        ensures
            old(self)@.contains_key(id) ==> entity == old(self)@[id] && final(self)@ == old(self)@,
            !old(self)@.contains_key(id) ==> create.ensures((), entity) && final(self)@ == old(
                self,
            )@.insert(id, entity),
    {
        match self.get(id) {
            Some(entity) => entity,
            None => {
                let entity = create();
                self.handles.insert(id, entity);
                entity
            },
        }
    }
}

} // verus!
