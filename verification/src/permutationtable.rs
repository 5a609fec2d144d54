//! The seeded permutation table and the chained lookup that hashes integer
//! lattice coordinates into a table index.

use vstd::prelude::*;

use rand::{Rng, SeedableRng, XorShiftRng};

verus! {

/// What the seeded shuffle leaves in a slice: a reordering of `s` determined
/// by `s` and the four seed words alone.
pub uninterp spec fn shuffle_of(s: Seq<u8>, seed: Seq<u32>) -> Seq<u8>;

/// The table before shuffling: entry `i` holds the byte `i`.
pub open spec fn identity_table() -> Seq<u8> {
    Seq::new(256, |i: int| i as u8)
}

/// The seed words handed to the generator for a given 32-bit table seed. The
/// leading word is fixed non-zero, so every seed value is acceptable to the
/// generator.
pub open spec fn seed_words(seed: u32) -> Seq<u32> {
    seq![1u32, seed, seed, seed]
}

/// The permutation table a given seed derives: the shuffled identity table.
pub open spec fn table_of(seed: u32) -> Seq<u8> {
    shuffle_of(identity_table(), seed_words(seed))
}

/// A lattice coordinate reduced to the table range: its low eight bits, so
/// every integer input, negative ones included, lands in `0..256`.
pub open spec fn coord_index(c: i64) -> int {
    (c & 0xff) as int
}

/// One step of the hash chain: add the next coordinate (reduced to the table
/// range) to the previous lookup and look the sum up again.
pub open spec fn hash_step(t: Seq<u8>, h: int, c: i64) -> int {
    t[(h + coord_index(c)) % 256] as int
}

/// The one-coordinate hash: the table entry at the reduced coordinate.
pub open spec fn hash1_of(t: Seq<u8>, x: i64) -> int {
    hash_step(t, 0, x)
}

/// The two-coordinate hash: chain both axes through the table, starting from
/// index zero, so the final index depends on every axis.
pub open spec fn hash2_of(t: Seq<u8>, x: i64, y: i64) -> int {
    hash_step(t, hash1_of(t, x), y)
}

/// The three-coordinate hash, defined by the same chaining as `hash2_of`.
pub open spec fn hash3_of(t: Seq<u8>, x: i64, y: i64, z: i64) -> int {
    hash_step(t, hash2_of(t, x, y), z)
}

/// The four-coordinate hash, defined by the same chaining as `hash2_of`.
pub open spec fn hash4_of(t: Seq<u8>, x: i64, y: i64, z: i64, w: i64) -> int {
    hash_step(t, hash3_of(t, x, y, z), w)
}

/// Relies on `rand::XorShiftRng::from_seed` (a generator whose whole state is
/// the four seed words; it panics only on an all-zero seed, which the
/// precondition excludes) and on `rand::Rng::shuffle` (Durstenfeld's
/// Fisher-Yates shuffle, an in-place permutation of the slice drawn from the
/// generator's stream): the outcome is a reordering of the input determined
/// by the input and the seed words alone.
#[verifier::external_body]
fn shuffle_seeded(values: &mut Vec<u8>, s0: u32, s1: u32, s2: u32, s3: u32)
    requires
        s0 != 0 || s1 != 0 || s2 != 0 || s3 != 0,
    ensures
        final(values)@ == shuffle_of(old(values)@, seq![s0, s1, s2, s3]),
        final(values)@.len() == old(values)@.len(),
        final(values)@.to_multiset() == old(values)@.to_multiset(),
{
    let mut rng: XorShiftRng = SeedableRng::from_seed([s0, s1, s2, s3]);
    rng.shuffle(values.as_mut_slice());
}

/// A fixed 256-entry table holding a seeded permutation of the bytes
/// `0..=255`, with the chained lookups that hash 2-, 3- and 4-dimensional
/// integer lattice coordinates. Never mutated after construction.
#[derive(Clone, Debug)]
pub struct PermutationTable {
    values: Vec<u8>,
}

impl View for PermutationTable {
    type V = Seq<u8>;

    closed spec fn view(&self) -> Seq<u8> {
        self.values@
    }
}

impl PermutationTable {
    /// A table is well formed when it has exactly 256 entries that are,
    /// together, a permutation of the bytes `0..=255`.
    pub open spec fn wf(&self) -> bool {
        &&& self@.len() == 256
        &&& self@.to_multiset() == identity_table().to_multiset()
    }

    /// Build the identity table, then shuffle it with the sequence the seed
    /// determines. The same seed always derives the same table.
    pub fn new(seed: u32) -> (r: Self)
        ensures
            r.wf(),
            r@ == table_of(seed),
    {
        let mut values: Vec<u8> = Vec::new();
        let mut i: usize = 0;
        while i < 256
            invariant
                i <= 256,
                values@.len() == i,
                forall|j: int| 0 <= j < i ==> values@[j] == j as u8,
            decreases 256 - i,
        {
            values.push(i as u8);
            i = i + 1;
        }
        proof {
            assert(values@ =~= identity_table());
        }
        shuffle_seeded(&mut values, 1, seed, seed, seed);
        proof {
            assert(seq![1u32, seed, seed, seed] =~= seed_words(seed));
        }
        PermutationTable { values }
    }

    /// Reduce one coordinate to the table range.
    fn coord(c: i64) -> (r: usize)
        ensures
            r == coord_index(c),
            r < 256,
    {
        proof {
            assert(0 <= (c & 0xff) < 256) by (bit_vector);
        }
        (c & 0xff) as usize
    }

    /// One chained lookup: fold the next coordinate into the running index.
    fn lookup_step(&self, h: usize, c: i64) -> (r: usize)
        requires
            self.wf(),
            h < 256,
        ensures
            r == hash_step(self@, h as int, c),
            r < 256,
    {
        let ci = Self::coord(c);
        let idx = (h + ci) % 256;
        self.values[idx] as usize
    }

    /// Hash a single lattice coordinate to a table index: the table entry at
    /// the reduced coordinate itself, which lays the table open entry by
    /// entry.
    pub fn get1(&self, x: i64) -> (r: usize)
        requires
            self.wf(),
        ensures
            r == hash1_of(self@, x),
            r < 256,
    {
        self.lookup_step(0, x)
    }

    /// Hash a 2-dimensional lattice coordinate to a table index.
    pub fn get2(&self, pos: [i64; 2]) -> (r: usize)
        requires
            self.wf(),
        ensures
            r == hash2_of(self@, pos[0], pos[1]),
            r < 256,
    {
        let h = self.lookup_step(0, pos[0]);
        self.lookup_step(h, pos[1])
    }

    /// Hash a 3-dimensional lattice coordinate to a table index.
    pub fn get3(&self, pos: [i64; 3]) -> (r: usize)
        requires
            self.wf(),
        ensures
            r == hash3_of(self@, pos[0], pos[1], pos[2]),
            r < 256,
    {
        let h = self.lookup_step(0, pos[0]);
        let h = self.lookup_step(h, pos[1]);
        self.lookup_step(h, pos[2])
    }

    /// Hash a 4-dimensional lattice coordinate to a table index.
    pub fn get4(&self, pos: [i64; 4]) -> (r: usize)
        requires
            self.wf(),
        ensures
            r == hash4_of(self@, pos[0], pos[1], pos[2], pos[3]),
            r < 256,
    {
        let h = self.lookup_step(0, pos[0]);
        let h = self.lookup_step(h, pos[1]);
        let h = self.lookup_step(h, pos[2]);
        self.lookup_step(h, pos[3])
    }
}

} // verus!
