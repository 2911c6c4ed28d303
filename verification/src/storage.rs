//! Densely packed component storage. A sparse array maps an entity's
//! slot index to a position in the dense arrays, so iteration touches
//! only live components while lookup stays constant time. Stale entity
//! handles are rejected by comparing generations.

use vstd::prelude::*;

use crate::entity::Entity;

verus! {

/// Component storage for one component type.
pub struct SparseSet<T> {
    /// Tightly packed component data.
    pub dense: Vec<T>,
    /// The entity owning the data at the same dense position.
    pub entities: Vec<Entity>,
    /// Maps an entity's slot index to its dense position.
    pub sparse: Vec<Option<usize>>,
}

impl<T> SparseSet<T> {
    /// The two dense arrays run in lockstep, every sparse slot points at
    /// a dense entry owned by an entity with that slot index, and every
    /// dense entry is pointed at by its owner's sparse slot.
    pub open spec fn wf(&self) -> bool {
        &&& self.dense@.len() == self.entities@.len()
        &&& forall|i: int|
            0 <= i < self.sparse@.len() ==> ((#[trigger] self.sparse@[i]) matches Some(d)
                ==> d < self.dense@.len() && self.entities@[d as int].spec_index() == i)
        &&& forall|d: int|
            0 <= d < self.entities@.len() ==> (#[trigger] self.entities@[d]).spec_index()
                < self.sparse@.len() && self.sparse@[self.entities@[d].spec_index() as int]
                == Some(d as usize)
    }

    /// The dense position the sparse array gives for `e`'s slot index.
    pub open spec fn spec_dense_index(&self, e: Entity) -> Option<usize> {
        if e.spec_index() < self.sparse@.len() {
            self.sparse@[e.spec_index() as int]
        } else {
            None
        }
    }

    /// The component stored for `e`: the dense entry at its slot's
    /// position, provided the owning entity is of `e`'s generation.
    pub open spec fn spec_get(&self, e: Entity) -> Option<T> {
        match self.spec_dense_index(e) {
            Some(d) => if d < self.entities@.len() && self.entities@[d as int].spec_generation()
                == e.spec_generation() {
                Some(self.dense@[d as int])
            } else {
                None
            },
            None => None,
        }
    }

    /// Empty storage.
    pub fn new() -> (r: Self)
        ensures
            r.wf(),
            r.dense@.len() == 0,
            r.entities@.len() == 0,
            r.sparse@.len() == 0,
            forall|e: Entity| #[trigger] r.spec_get(e) is None,
    {
        SparseSet { dense: Vec::new(), entities: Vec::new(), sparse: Vec::new() }
    }

    /// Stores `value` for `entity`. An entry already at that slot index
    /// is overwritten in place — the dense data keeps its length and the
    /// entry then answers only to `entity`'s generation; a fresh slot
    /// grows the dense data by exactly one. Entries at other slot
    /// indexes are untouched.
    pub fn insert(&mut self, entity: Entity, value: T)
        requires
            old(self).wf(),
            entity.spec_index() < usize::MAX,
        ensures
            old(self).spec_dense_index(entity) is Some ==> final (self).dense@.len() == old(self).dense@.len(),
            old(self).spec_dense_index(entity) is None ==> final (self).dense@.len() == old(self).dense@.len() + 1,
            final (self).wf(),
            final (self).spec_get(entity) == Some(value),
            forall|e2: Entity|
                e2.spec_index() != entity.spec_index() ==> final (self).spec_get(e2) == old(self).spec_get(e2),
            forall|e2: Entity|
                e2.spec_index() == entity.spec_index() && e2.spec_generation()
                    != entity.spec_generation() ==> final (self).spec_get(e2) is None,
    {
        let index = entity.index();
        if index >= self.sparse.len() {
            self.sparse.resize(index + 1, None);
        }
        let slot: Option<usize> = self.sparse[index];
        match slot {
            Some(dense_index) => {
                self.dense[dense_index] = value;
                self.entities[dense_index] = entity;
            },
            None => {
                let dense_index = self.dense.len();
                self.dense.push(value);
                self.entities.push(entity);
                self.sparse[index] = Some(dense_index);
            },
        }
    }

    /// Returns the component stored for `entity`, or `None` when the
    /// slot is empty or held by another generation.
    pub fn get(&self, entity: Entity) -> (r: Option<&T>)
        requires
            self.wf(),
        ensures
            r matches Some(v) ==> self.spec_get(entity) == Some(*v),
            r is None ==> self.spec_get(entity) is None,
    {
        let index = entity.index();
        if index < self.sparse.len() {
            let slot: Option<usize> = self.sparse[index];
            match slot {
                Some(dense_index) => {
                    if self.entities[dense_index].generation() == entity.generation() {
                        return Some(&self.dense[dense_index]);
                    }
                },
                None => {},
            }
        }
        None
    }

    /// The packed component data, for linear iteration.
    pub fn as_slice(&self) -> (r: &[T])
        ensures
            r@ == self.dense@,
    {
        self.dense.as_slice()
    }

    /// The packed component data, mutable, for linear passes over every
    /// component.
    pub fn as_mut_slice(&mut self) -> (r: &mut [T])
        ensures
            r@ == old(self).dense@,
            final (r)@ == final (self).dense@,
            final (self).entities@ == old(self).entities@,
            final (self).sparse@ == old(self).sparse@,
    {
        self.dense.as_mut_slice()
    }
}

} // verus!
