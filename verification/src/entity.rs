//! Entity identifiers: a slot index in the low 32 bits and a generation
//! counter in the high 32 bits, so a stale handle to a recycled slot can
//! be told apart from the slot's current occupant.

use vstd::prelude::*;

verus! {

/// A unique identifier for an entity.
#[derive(Clone, Copy, PartialEq, Eq, Hash, Debug, Structural)]
pub struct Entity {
    id: u64,
}

impl Entity {
    /// The slot index packed into the identifier.
    pub closed spec fn spec_index(&self) -> nat {
        (self.id & 0xFFFF_FFFF) as nat
    }

    /// The generation packed into the identifier.
    pub closed spec fn spec_generation(&self) -> nat {
        (self.id >> 32) as nat
    }

    /// Packs a slot index and a generation into one identifier.
    pub fn new(index: u32, generation: u32) -> (e: Self)
        ensures
            e.spec_index() == index,
            e.spec_generation() == generation,
    {
        let ix = index as u64;
        let gen = generation as u64;
        let id = ix | (gen << 32);
        proof {
            assert((ix | (gen << 32)) & 0xFFFF_FFFF == ix && (ix | (gen << 32)) >> 32 == gen)
                by (bit_vector)
                requires
                    ix < 0x1_0000_0000,
                    gen < 0x1_0000_0000,
            ;
        }
        Entity { id }
    }

    /// The slot index this identifier points at.
    pub fn index(&self) -> (r: usize)
        ensures
            r == self.spec_index(),
    {
        let id = self.id;
        proof {
            assert(id & 0xFFFF_FFFF < 0x1_0000_0000) by (bit_vector);
        }
        (id & 0xFFFF_FFFF) as usize
    }

    /// The generation of the slot this identifier was created for.
    pub fn generation(&self) -> (r: u32)
        ensures
            r == self.spec_generation(),
    {
        let id = self.id;
        proof {
            assert(id >> 32 < 0x1_0000_0000) by (bit_vector);
        }
        (id >> 32) as u32
    }
}

} // verus!
