//! The multi-octave fractal combinator's bookkeeping: the octave count
//! clamped to `[1, 32]`, the combinator seed, and the owned sequence of
//! independently seeded gradient-noise sources, one per octave. Octave `i`'s
//! source is seeded with the combinator seed advanced by `i`, wrapping at the
//! 32-bit boundary. Setters that change the seed or the octave count rebuild
//! the sources; setting the value already held returns the instance
//! unchanged.

use vstd::prelude::*;

use crate::perlin::Perlin;

verus! {

/// The seed a freshly built combinator carries.
pub const DEFAULT_SEED: u32 = 0;

/// The octave count a freshly built combinator carries.
pub const DEFAULT_OCTAVES: usize = 6;

/// The largest octave count a combinator accepts; larger requests clamp here.
pub const MAX_OCTAVES: usize = 32;

/// The seed handed to octave `i`: the combinator's seed advanced by the
/// octave index, wrapping at the 32-bit boundary.
pub open spec fn source_seed(seed: u32, i: int) -> u32 {
    ((seed + i) % 0x1_0000_0000) as u32
}

/// An octave request clamped to the accepted range.
pub open spec fn clamped_octaves(octaves: int) -> int {
    if octaves < 1 {
        1
    } else if octaves > MAX_OCTAVES {
        MAX_OCTAVES as int
    } else {
        octaves
    }
}

/// Build one gradient-noise source per octave, each seeded from the
/// combinator seed advanced by its octave index.
fn build_sources(seed: u32, octaves: usize) -> (r: Vec<Perlin>)
    requires
        octaves <= MAX_OCTAVES,
    ensures
        r@.len() == octaves,
        forall|i: int|
            0 <= i < octaves ==> (#[trigger] r@[i]).wf() && r@[i].seed_spec() == source_seed(
                seed,
                i,
            ),
{
    let mut sources: Vec<Perlin> = Vec::new();
    let mut x: usize = 0;
    while x < octaves
        invariant
            x <= octaves,
            octaves <= MAX_OCTAVES,
            sources@.len() == x,
            forall|i: int|
                0 <= i < x ==> (#[trigger] sources@[i]).wf() && sources@[i].seed_spec()
                    == source_seed(seed, i),
        decreases octaves - x,
    {
        let s = seed.wrapping_add(x as u32);
        sources.push(Perlin::new().set_seed(s));
        x = x + 1;
    }
    sources
}

/// The state of a hybrid-multifractal combinator: how many octaves it layers,
/// the seed those octaves derive from, and the per-octave sources themselves.
/// The scalar frequency, lacunarity and persistence parameters scale the
/// floating-point evaluation only and never touch this state.
#[derive(Clone, Debug)]
pub struct HybridMulti {
    octaves: usize,
    seed: u32,
    sources: Vec<Perlin>,
}

impl HybridMulti {
    /// The octave count this combinator layers.
    pub closed spec fn octaves_spec(&self) -> int {
        self.octaves as int
    }

    /// The seed this combinator's sources derive from.
    pub closed spec fn seed_spec(&self) -> u32 {
        self.seed
    }

    /// The owned sources, one per octave.
    pub closed spec fn sources_view(&self) -> Seq<Perlin> {
        self.sources@
    }

    /// A combinator is well formed when its octave count is in the accepted
    /// range, it owns exactly one source per octave, and source `i` is a
    /// well-formed instance seeded with the combinator seed advanced by `i`.
    pub open spec fn wf(&self) -> bool {
        &&& 1 <= self.octaves_spec() <= MAX_OCTAVES
        &&& self.sources_view().len() == self.octaves_spec()
        &&& forall|i: int|
            0 <= i < self.sources_view().len() ==> (#[trigger] self.sources_view()[i]).wf()
                && self.sources_view()[i].seed_spec() == source_seed(self.seed_spec(), i)
    }

    /// Build a combinator with the default seed and octave count.
    pub fn new() -> (r: Self)
        ensures
            r.wf(),
            r.seed_spec() == DEFAULT_SEED,
            r.octaves_spec() == DEFAULT_OCTAVES,
    {
        HybridMulti {
            octaves: DEFAULT_OCTAVES,
            seed: DEFAULT_SEED,
            sources: build_sources(DEFAULT_SEED, DEFAULT_OCTAVES),
        }
    }

    /// Derive a combinator that layers the given number of octaves. Asking
    /// for the count already held returns the instance unchanged; any other
    /// request is clamped to the accepted range and the sources are rebuilt,
    /// one per octave, from the unchanged seed.
    pub fn set_octaves(self, octaves: usize) -> (r: Self)
        requires
            self.wf(),
        ensures
            r.wf(),
            r.seed_spec() == self.seed_spec(),
            self.octaves_spec() == octaves ==> r == self,
            self.octaves_spec() != octaves ==> r.octaves_spec() == clamped_octaves(
                octaves as int,
            ),
    {
        if self.octaves == octaves {
            return self;
        }
        let octaves = if octaves < 1 {
            1
        } else if octaves > MAX_OCTAVES {
            MAX_OCTAVES
        } else {
            octaves
        };
        HybridMulti { octaves, seed: self.seed, sources: build_sources(self.seed, octaves) }
    }

    /// Derive a combinator whose sources are seeded from the given seed.
    /// Setting the seed already held returns the instance unchanged; any
    /// other seed rebuilds the sources, keeping the octave count.
    pub fn set_seed(self, seed: u32) -> (r: Self)
        requires
            self.wf(),
        ensures
            r.wf(),
            r.seed_spec() == seed,
            r.octaves_spec() == self.octaves_spec(),
            self.seed_spec() == seed ==> r == self,
    {
        if self.seed == seed {
            return self;
        }
        HybridMulti { octaves: self.octaves, seed, sources: build_sources(seed, self.octaves) }
    }

    /// The seed this combinator's sources derive from.
    pub fn seed(&self) -> (r: u32)
        ensures
            r == self.seed_spec(),
    {
        self.seed
    }

    /// The octave count this combinator layers.
    pub fn octaves(&self) -> (r: usize)
        ensures
            r == self.octaves_spec(),
    {
        self.octaves
    }

    /// How many sources this combinator owns.
    pub fn source_count(&self) -> (r: usize)
        ensures
            r == self.sources_view().len(),
    {
        self.sources.len()
    }

    /// The source for one octave.
    pub fn source(&self, index: usize) -> (r: &Perlin)
        requires
            index < self.sources_view().len(),
        ensures
            *r == self.sources_view()[index as int],
            self.wf() ==> r.wf() && r.seed_spec() == source_seed(self.seed_spec(), index as int),
    {
        &self.sources[index]
    }
}

impl Default for HybridMulti {
    /// Build a combinator with the default seed and octave count.
    fn default() -> (r: Self)
        ensures
            r.wf(),
            r.seed_spec() == DEFAULT_SEED,
            r.octaves_spec() == DEFAULT_OCTAVES,
    {
        HybridMulti::new()
    }
}

/// Octave-count invariant: a well-formed combinator owns exactly as many
/// sources as it has octaves, and every constructor and setter above returns
/// a well-formed combinator, so the equality survives any sequence of
/// `set_octaves` and `set_seed` calls.
pub proof fn lemma_octave_count(f: HybridMulti)
    requires
        f.wf(),
    ensures
        f.sources_view().len() == f.octaves_spec(),
{
}

/// Determinism: two well-formed combinators with the same seed and octave
/// count carry pairwise identically seeded sources with bit-identical
/// permutation tables, so every lattice hash agrees between them.
pub proof fn lemma_fractal_determinism(a: HybridMulti, b: HybridMulti)
    requires
        a.wf(),
        b.wf(),
        a.seed_spec() == b.seed_spec(),
        a.octaves_spec() == b.octaves_spec(),
    ensures
        a.sources_view().len() == b.sources_view().len(),
        forall|i: int|
            0 <= i < a.sources_view().len() ==> (#[trigger] a.sources_view()[i]).seed_spec()
                == b.sources_view()[i].seed_spec() && a.sources_view()[i].table_view()
                == b.sources_view()[i].table_view(),
{
}

/// With a single octave the combinator owns exactly one source, and that
/// source is seeded with the combinator's own seed.
pub proof fn lemma_single_octave_source(f: HybridMulti)
    requires
        f.wf(),
        f.octaves_spec() == 1,
    ensures
        f.sources_view().len() == 1,
        f.sources_view()[0].seed_spec() == f.seed_spec(),
{
    assert(source_seed(f.seed_spec(), 0) == f.seed_spec());
}

} // verus!
