//! Which render command belongs to which entity.
//!
//! An entity is named by its 64 bits. The links are kept as a list of pairs
//! and, for each entity, the place of its pair in the list as it was when
//! the entity was linked. Taking a pair out of the list does not renumber
//! the places that were noted for the pairs behind it.

use vstd::prelude::*;
use bit_set::BitSet;
use std::collections::HashMap;
use crate::engine::utils::bits::{
    bit_set_members, bits_clear, bits_contains, bits_insert, bits_with_capacity,
};

verus! {

broadcast use vstd::std_specs::hash::group_hash_axioms;

/// The render handles on which culling was done in the pass at hand.
pub struct CulledCheck {
    handles: BitSet,
}

impl CulledCheck {
    /// The handles that were checked.
    pub closed spec fn checked(&self) -> Set<usize> {
        bit_set_members(self.handles)
    }

    pub fn new() -> (check: Self)
        ensures
            check.checked() == Set::<usize>::empty(),
    {
        CulledCheck { handles: bits_with_capacity(2048) }
    }

    /// Notes that culling was done on a handle. The largest handle that the
    /// machine can count to cannot be noted.
    pub fn insert(&mut self, handle: usize)
        requires
            handle < usize::MAX,
        ensures
            final(self).checked() == old(self).checked().insert(handle),
    {
        bits_insert(&mut self.handles, handle);
    }

    pub fn contains(&self, handle: usize) -> (r: bool)
        ensures
            r == self.checked().contains(handle),
    {
        bits_contains(&self.handles, handle)
    }

    /// Ends the pass: no handle counts as checked.
    pub fn clear(&mut self)
        ensures
            final(self).checked() == Set::<usize>::empty(),
    {
        bits_clear(&mut self.handles);
    }
}

/// The links between entities and render commands.
pub struct EntityLinks {
    entity_handle_pairs: Vec<(usize, u64)>,
    handle_index_by_entity: HashMap<u64, usize>,
}

impl EntityLinks {
    /// The pairs of render handle and entity, in the order of linking.
    pub closed spec fn pairs(&self) -> Seq<(usize, u64)> {
        self.entity_handle_pairs@
    }

    /// The place noted for each linked entity.
    pub closed spec fn places(&self) -> Map<u64, usize> {
        self.handle_index_by_entity@
    }

    /// Whether the place noted for an entity is a place in the list.
    pub open spec fn place_in_range(&self, entity: u64) -> bool {
        self.places().contains_key(entity) && self.places()[entity] < self.pairs().len()
    }

    /// Every noted place holds the pair of its own entity.
    pub open spec fn coherent(&self) -> bool {
        forall|e: u64| #[trigger]
            self.places().contains_key(e) ==> self.place_in_range(e) && self.pairs()[self.places()[e] as int].1
                == e
    }

    pub fn new() -> (links: Self)
        ensures
            links.pairs() == Seq::<(usize, u64)>::empty(),
            links.places() == Map::<u64, usize>::empty(),
            links.coherent(),
    {
        EntityLinks { entity_handle_pairs: Vec::new(), handle_index_by_entity: HashMap::new() }
    }

    /// Links an entity to a render command: the pair goes to the end of the
    /// list and the entity's place is noted. Links that were coherent stay so.
    pub fn link(&mut self, handle: usize, entity: u64)
        ensures
            final(self).pairs() == old(self).pairs().push((handle, entity)),
            final(self).places() == old(self).places().insert(
                entity,
                old(self).pairs().len() as usize,
            ),
            old(self).coherent() ==> final(self).coherent(),
    {
        let links_len: usize = self.entity_handle_pairs.len();
        self.entity_handle_pairs.push((handle, entity));
        self.handle_index_by_entity.insert(entity, links_len);
    }

    pub fn is_linked(&self, entity: u64) -> (r: bool)
        ensures
            r == self.places().contains_key(entity),
    {
        self.handle_index_by_entity.contains_key(&entity)
    }

    /// Whether the entity is linked and its noted place is a place in the list.
    pub fn has_place(&self, entity: u64) -> (r: bool)
        ensures
            r == self.place_in_range(entity),
    {
        match self.handle_index_by_entity.get(&entity) {
            Some(index) => *index < self.entity_handle_pairs.len(),
            None => false,
        }
    }

    /// The render handle in the place noted for a linked entity.
    pub fn handle_of(&self, entity: u64) -> (handle: usize)
        requires
            self.place_in_range(entity),
        ensures
            handle == self.pairs()[self.places()[entity] as int].0,
    {
        match self.handle_index_by_entity.get(&entity) {
            Some(index) => self.entity_handle_pairs[*index].0,
            None => vstd::pervasive::unreached(),
        }
    }

    /// The render handle noted for an entity, if the entity is linked and
    /// its place is a place in the list.
    pub fn try_handle_of(&self, entity: u64) -> (handle: Option<usize>)
        ensures
            match handle {
                Some(h) => self.place_in_range(entity) && h == self.pairs()[self.places()[entity] as int].0,
                None => !self.place_in_range(entity),
            },
    {
        if self.has_place(entity) {
            Some(self.handle_of(entity))
        } else {
            None
        }
    }

    /// Takes the link of an entity away: the pair in its noted place leaves
    /// the list, and the entity is no longer linked. Returns the render
    /// handle of that pair. Nothing happens for an entity that is not
    /// linked. The places noted for other entities stay as they are.
    pub fn unlink(&mut self, entity: u64) -> (handle: Option<usize>)
        requires
            old(self).places().contains_key(entity) ==> old(self).place_in_range(entity),
        ensures
            match handle {
                Some(h) => {
                    &&& old(self).places().contains_key(entity)
                    &&& h == old(self).pairs()[old(self).places()[entity] as int].0
                    &&& final(self).pairs() == old(self).pairs().remove(
                        old(self).places()[entity] as int,
                    )
                    &&& final(self).places() == old(self).places().remove(entity)
                },
                None => {
                    &&& !old(self).places().contains_key(entity)
                    &&& final(self).pairs() == old(self).pairs()
                    &&& final(self).places() == old(self).places()
                },
            },
    {
        if self.handle_index_by_entity.contains_key(&entity) {
            let link_index: usize = match self.handle_index_by_entity.get(&entity) {
                Some(index) => *index,
                None => vstd::pervasive::unreached(),
            };
            let handle: usize = self.entity_handle_pairs[link_index].0;
            self.entity_handle_pairs.remove(link_index);
            self.handle_index_by_entity.remove(&entity);
            Some(handle)
        } else {
            None
        }
    }

    pub fn len(&self) -> (n: usize)
        ensures
            n == self.pairs().len(),
    {
        self.entity_handle_pairs.len()
    }

    /// The `i`-th pair of the list.
    pub fn pair(&self, i: usize) -> (pair: (usize, u64))
        requires
            i < self.pairs().len(),
        ensures
            pair == self.pairs()[i as int],
    {
        self.entity_handle_pairs[i]
    }
}

/// As long as no link is taken away, or only the last of the list, the
/// links stay coherent: taking away the pair at the end renumbers nothing.
pub proof fn lemma_unlink_last_keeps_coherent(before: EntityLinks, after: EntityLinks, entity: u64)
    requires
        before.coherent(),
        before.places().contains_key(entity),
        before.places()[entity] == before.pairs().len() - 1,
        after.pairs() == before.pairs().remove(before.places()[entity] as int),
        after.places() == before.places().remove(entity),
        forall|e: u64, f: u64|
            before.places().contains_key(e) && before.places().contains_key(f) && e != f
                ==> before.places()[e] != before.places()[f],
    ensures
        after.coherent(),
{
    assert forall|e: u64| #[trigger] after.places().contains_key(e) implies after.place_in_range(e)
        && after.pairs()[after.places()[e] as int].1 == e by {
        assert(before.places().contains_key(e));
        assert(before.places()[e] != before.places()[entity]);
    }
}

} // verus!
