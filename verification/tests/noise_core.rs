use noise::gradient;
use noise::{HybridMulti, Perlin, PermutationTable};

fn table_entries(t: &PermutationTable) -> Vec<u8> {
    (0..256i64).map(|i| t.get1(i) as u8).collect()
}

#[test]
fn table_same_seed_is_bit_identical() {
    let a = PermutationTable::new(42);
    let b = PermutationTable::new(42);
    assert_eq!(table_entries(&a), table_entries(&b));
}

#[test]
fn table_is_a_permutation_of_all_bytes() {
    for seed in [0u32, 1, 7, 0xffff_ffff] {
        let t = PermutationTable::new(seed);
        let mut values = table_entries(&t);
        values.sort_unstable();
        let expected: Vec<u8> = (0..=255u8).collect();
        assert_eq!(values, expected);
    }
}

#[test]
fn table_is_shuffled_away_from_identity() {
    // If the seeded shuffle handed its input back unchanged, every entry
    // would sit at its own index.
    let t = PermutationTable::new(0);
    let identity = (0..256i64).all(|i| t.get1(i) == i as usize);
    assert!(!identity);
}

#[test]
fn tables_of_different_seeds_differ() {
    let a = PermutationTable::new(0);
    let b = PermutationTable::new(1);
    assert_ne!(table_entries(&a), table_entries(&b));
}

#[test]
fn hash_wraps_any_integer_coordinate() {
    let t = PermutationTable::new(5);
    let coords = [
        i64::MIN,
        -1_000_000_007,
        -257,
        -256,
        -1,
        0,
        1,
        255,
        256,
        1_000_000_007,
        i64::MAX,
    ];
    for &x in &coords {
        for &y in &coords {
            assert!(t.get2([x, y]) < 256);
            assert!(t.get3([x, y, x]) < 256);
            assert!(t.get4([x, y, x, y]) < 256);
        }
    }
}

#[test]
fn hash_chains_one_lookup_per_axis() {
    // Each further axis re-enters the table: look up, add the next reduced
    // coordinate, look up again.
    let t = PermutationTable::new(33);
    for x in [-300i64, -2, 0, 1, 77, 4096] {
        for y in [-300i64, -2, 0, 1, 77, 4096] {
            let chained2 = t.get1(t.get1(x) as i64 + (y & 0xff));
            assert_eq!(t.get2([x, y]), chained2);
            for z in [-300i64, 5, 511] {
                let chained3 = t.get1(t.get2([x, y]) as i64 + (z & 0xff));
                assert_eq!(t.get3([x, y, z]), chained3);
                let w = 9i64;
                let chained4 = t.get1(t.get3([x, y, z]) as i64 + (w & 0xff));
                assert_eq!(t.get4([x, y, z, w]), chained4);
            }
        }
    }
}

#[test]
fn hash_reduces_coordinates_modulo_table_size() {
    let t = PermutationTable::new(9);
    // -256 and 0 share their low eight bits, as do -255 and 1.
    assert_eq!(t.get2([0, 1]), t.get2([-256, -255]));
    assert_eq!(t.get3([0, 1, 2]), t.get3([256, 257, 258]));
    assert_eq!(t.get4([0, 1, 2, 3]), t.get4([512, 513, 514, 515]));
}

#[test]
fn perlin_same_seed_hashes_identically() {
    let a = Perlin::new().set_seed(42);
    let b = Perlin::new().set_seed(42);
    for x in -20..20i64 {
        for y in -20..20i64 {
            assert_eq!(a.table().get2([x, y]), b.table().get2([x, y]));
            assert_eq!(a.table().get3([x, y, 3]), b.table().get3([x, y, 3]));
            assert_eq!(a.table().get4([x, y, 3, 4]), b.table().get4([x, y, 3, 4]));
        }
    }
}

#[test]
fn perlin_seed_sensitivity() {
    // Seeds 0 and 1 must disagree on most lattice points, though not
    // necessarily on every one.
    let a = Perlin::new();
    let b = Perlin::new().set_seed(1);
    let mut differing = 0usize;
    let mut total = 0usize;
    for x in -16..16i64 {
        for y in -16..16i64 {
            total += 1;
            if a.table().get2([x, y]) != b.table().get2([x, y]) {
                differing += 1;
            }
        }
    }
    assert!(differing * 2 > total, "{differing} of {total} points differ");
}

#[test]
fn perlin_set_seed_is_noop_on_same_seed() {
    let a = Perlin::new().set_seed(3);
    let b = Perlin::new().set_seed(3).set_seed(3);
    assert_eq!(a.seed(), b.seed());
    assert_eq!(table_entries(a.table()), table_entries(b.table()));
}

#[test]
fn perlin_defaults() {
    let p = Perlin::new();
    assert_eq!(p.seed(), 0);
    let d = Perlin::default();
    assert_eq!(d.seed(), 0);
    assert_eq!(table_entries(p.table()), table_entries(d.table()));
}

#[test]
fn gradient2_catalog() {
    assert_eq!(gradient::get2(0), (1, 1));
    assert_eq!(gradient::get2(1), (-1, 1));
    assert_eq!(gradient::get2(2), (1, -1));
    assert_eq!(gradient::get2(3), (-1, -1));
    // Only the low two bits select.
    assert_eq!(gradient::get2(6), gradient::get2(2));
    assert_eq!(gradient::get2(255), gradient::get2(3));
}

#[test]
fn gradient3_catalog() {
    assert_eq!(gradient::get3(0), (1, 1, 0));
    assert_eq!(gradient::get3(5), (-1, 0, 1));
    assert_eq!(gradient::get3(11), (0, -1, -1));
    // The last four cases alias earlier directions.
    assert_eq!(gradient::get3(12), gradient::get3(0));
    assert_eq!(gradient::get3(13), gradient::get3(1));
    assert_eq!(gradient::get3(14), gradient::get3(9));
    assert_eq!(gradient::get3(15), gradient::get3(11));
    // Only the low four bits select.
    assert_eq!(gradient::get3(16), gradient::get3(0));
    // Every direction has exactly two non-zero axes.
    for h in 0..16usize {
        let (x, y, z) = gradient::get3(h);
        let zeroes = [x, y, z].iter().filter(|&&c| c == 0).count();
        assert_eq!(zeroes, 1);
        assert!([x, y, z].iter().all(|&c| c == -1 || c == 0 || c == 1));
    }
}

#[test]
fn gradient4_catalog() {
    assert_eq!(gradient::get4(0), (0, 1, 1, 1));
    assert_eq!(gradient::get4(9), (1, 0, 1, -1));
    assert_eq!(gradient::get4(31), (-1, -1, -1, 0));
    // Only the low five bits select.
    assert_eq!(gradient::get4(32), gradient::get4(0));
    // The 32 entries are distinct, each with exactly one zero axis.
    let mut seen = Vec::new();
    for h in 0..32usize {
        let (x, y, z, w) = gradient::get4(h);
        let zeroes = [x, y, z, w].iter().filter(|&&c| c == 0).count();
        assert_eq!(zeroes, 1);
        assert!([x, y, z, w].iter().all(|&c| c == -1 || c == 0 || c == 1));
        assert!(!seen.contains(&(x, y, z, w)));
        seen.push((x, y, z, w));
    }
}

#[test]
fn hybrid_defaults() {
    let f = HybridMulti::new();
    assert_eq!(f.seed(), 0);
    assert_eq!(f.octaves(), 6);
    assert_eq!(f.source_count(), 6);
    let d = HybridMulti::default();
    assert_eq!(d.seed(), 0);
    assert_eq!(d.octaves(), 6);
}

#[test]
fn hybrid_source_count_tracks_octaves() {
    // The source collection stays exactly as long as the octave count
    // through any sequence of seed and octave changes.
    let mut f = HybridMulti::new();
    assert_eq!(f.source_count(), f.octaves());
    f = f.set_octaves(3);
    assert_eq!(f.octaves(), 3);
    assert_eq!(f.source_count(), 3);
    f = f.set_seed(9);
    assert_eq!(f.source_count(), f.octaves());
    f = f.set_octaves(20);
    assert_eq!(f.octaves(), 20);
    assert_eq!(f.source_count(), 20);
    f = f.set_seed(0xdead_beef).set_octaves(1).set_seed(4);
    assert_eq!(f.octaves(), 1);
    assert_eq!(f.source_count(), 1);
}

#[test]
fn hybrid_octaves_clamp() {
    let f = HybridMulti::new().set_octaves(0);
    assert_eq!(f.octaves(), 1);
    assert_eq!(f.source_count(), 1);
    let f = HybridMulti::new().set_octaves(100);
    assert_eq!(f.octaves(), 32);
    assert_eq!(f.source_count(), 32);
}

#[test]
fn hybrid_sources_are_seeded_by_octave_index() {
    let f = HybridMulti::new().set_seed(5).set_octaves(8);
    for i in 0..8usize {
        assert_eq!(f.source(i).seed(), 5 + i as u32);
    }
}

#[test]
fn hybrid_source_seed_wraps() {
    let f = HybridMulti::new().set_seed(u32::MAX).set_octaves(3);
    assert_eq!(f.source(0).seed(), u32::MAX);
    assert_eq!(f.source(1).seed(), 0);
    assert_eq!(f.source(2).seed(), 1);
}

#[test]
fn hybrid_single_octave_source_uses_own_seed() {
    let f = HybridMulti::new().set_seed(77).set_octaves(1);
    assert_eq!(f.source_count(), 1);
    assert_eq!(f.source(0).seed(), 77);
    // That source hashes exactly as a stand-alone instance with seed 77.
    let alone = Perlin::new().set_seed(77);
    assert_eq!(table_entries(f.source(0).table()), table_entries(alone.table()));
}

#[test]
fn hybrid_noop_setters_keep_state() {
    let f = HybridMulti::new().set_seed(11).set_octaves(4);
    let g = f.set_seed(11).set_octaves(4);
    assert_eq!(g.seed(), 11);
    assert_eq!(g.octaves(), 4);
    for i in 0..4usize {
        assert_eq!(g.source(i).seed(), 11 + i as u32);
    }
}

#[test]
fn hybrid_same_seed_sources_hash_identically() {
    let a = HybridMulti::new().set_seed(3);
    let b = HybridMulti::new().set_seed(3);
    for i in 0..a.octaves() {
        assert_eq!(table_entries(a.source(i).table()), table_entries(b.source(i).table()));
    }
}
