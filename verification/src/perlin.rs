//! The gradient-noise instance: a 32-bit seed and the permutation table
//! derived from it. Immutable after construction; changing the seed builds a
//! fresh instance, while setting the seed already held returns the instance
//! unchanged, table and all.

use vstd::prelude::*;

use crate::permutationtable::{
    hash2_of, hash3_of, hash4_of, identity_table, table_of, PermutationTable,
};

verus! {

/// The seed a freshly built instance carries.
pub const DEFAULT_SEED: u32 = 0;

/// A seeded gradient-noise instance for 2-, 3- and 4-dimensional points: it
/// owns the permutation table its seed derives and hands out the lattice
/// hashes that drive gradient selection.
#[derive(Clone, Debug)]
pub struct Perlin {
    seed: u32,
    perm_table: PermutationTable,
}

impl Perlin {
    /// The seed this instance was built from.
    pub closed spec fn seed_spec(&self) -> u32 {
        self.seed
    }

    /// The permutation table this instance carries.
    pub closed spec fn table_view(&self) -> Seq<u8> {
        self.perm_table@
    }

    /// An instance is well formed when its table is a well-formed permutation
    /// table and exactly the one its seed derives.
    pub open spec fn wf(&self) -> bool {
        &&& self.table_view().len() == 256
        &&& self.table_view().to_multiset() == identity_table().to_multiset()
        &&& self.table_view() == table_of(self.seed_spec())
    }

    /// Build an instance from the default seed.
    pub fn new() -> (r: Self)
        ensures
            r.wf(),
            r.seed_spec() == DEFAULT_SEED,
    {
        Perlin { seed: DEFAULT_SEED, perm_table: PermutationTable::new(DEFAULT_SEED) }
    }

    /// Derive an instance with the given seed. Setting the seed already held
    /// returns the instance unchanged, so no table is rebuilt; any other seed
    /// derives a fresh table.
    pub fn set_seed(self, seed: u32) -> (r: Self)
        requires
            self.wf(),
        ensures
            r.wf(),
            r.seed_spec() == seed,
            self.seed_spec() == seed ==> r == self,
    {
        if self.seed == seed {
            return self;
        }
        Perlin { seed, perm_table: PermutationTable::new(seed) }
    }

    /// The seed this instance was built from.
    pub fn seed(&self) -> (r: u32)
        ensures
            r == self.seed_spec(),
    {
        self.seed
    }

    /// The permutation table, for the corner hashing that evaluation needs.
    pub fn table(&self) -> (r: &PermutationTable)
        ensures
            r@ == self.table_view(),
            self.wf() ==> r.wf(),
    {
        &self.perm_table
    }
}

impl Default for Perlin {
    /// Build an instance from the default seed.
    fn default() -> (r: Self)
        ensures
            r.wf(),
            r.seed_spec() == DEFAULT_SEED,
    {
        Perlin::new()
    }
}

/// Determinism: two instances built from the same seed carry bit-identical
/// permutation tables, so the lattice hash of every coordinate, in every
/// dimension, agrees between them.
pub proof fn lemma_determinism(a: Perlin, b: Perlin)
    requires
        a.wf(),
        b.wf(),
        a.seed_spec() == b.seed_spec(),
    ensures
        a.table_view() == b.table_view(),
        forall|x: i64, y: i64|
            #[trigger] hash2_of(a.table_view(), x, y) == hash2_of(b.table_view(), x, y),
        forall|x: i64, y: i64, z: i64|
            #[trigger] hash3_of(a.table_view(), x, y, z) == hash3_of(b.table_view(), x, y, z),
        forall|x: i64, y: i64, z: i64, w: i64|
            #[trigger] hash4_of(a.table_view(), x, y, z, w) == hash4_of(
                b.table_view(),
                x,
                y,
                z,
                w,
            ),
{
}

} // verus!
