//! Gradient-direction catalogs: fixed, seed-independent direction vectors
//! with components in `{-1, 0, 1}`, selected by the low bits of a
//! permutation-table hash. The 2-dimensional set has 4 directions, the
//! 3-dimensional set folds 16 hash cases onto 12 face diagonals, and the
//! 4-dimensional set holds 32 entries, each with exactly one zero axis.

use vstd::prelude::*;

verus! {

/// The 2-dimensional direction the low two bits of a hash select: the four
/// cell diagonals.
pub open spec fn grad2_spec(h: int) -> (int, int) {
    let i = h % 4;
    if i == 0 {
        (1, 1)
    } else if i == 1 {
        (-1, 1)
    } else if i == 2 {
        (1, -1)
    } else {
        (-1, -1)
    }
}

/// The 3-dimensional direction the low four bits of a hash select. Each
/// direction has exactly two non-zero axes; the last four cases alias
/// directions already in the first twelve, by design, so that the selection
/// covers all 16 bit patterns with a 12-entry catalog.
pub open spec fn grad3_spec(h: int) -> (int, int, int) {
    let i = h % 16;
    if i == 0 {
        (1, 1, 0)
    } else if i == 1 {
        (-1, 1, 0)
    } else if i == 2 {
        (1, -1, 0)
    } else if i == 3 {
        (-1, -1, 0)
    } else if i == 4 {
        (1, 0, 1)
    } else if i == 5 {
        (-1, 0, 1)
    } else if i == 6 {
        (1, 0, -1)
    } else if i == 7 {
        (-1, 0, -1)
    } else if i == 8 {
        (0, 1, 1)
    } else if i == 9 {
        (0, -1, 1)
    } else if i == 10 {
        (0, 1, -1)
    } else if i == 11 {
        (0, -1, -1)
    } else if i == 12 {
        (1, 1, 0)
    } else if i == 13 {
        (-1, 1, 0)
    } else if i == 14 {
        (0, -1, 1)
    } else {
        (0, -1, -1)
    }
}

/// The sign a selector bit stands for: a clear bit means `1`, a set bit `-1`.
pub open spec fn sign_of(b: int) -> int {
    if b == 0 {
        1
    } else {
        -1
    }
}

/// The 4-dimensional direction the low five bits of a hash select. The two
/// high bits choose which axis is zero; the three low bits choose the signs
/// of the remaining axes, giving 32 distinct directions.
pub open spec fn grad4_spec(h: int) -> (int, int, int, int) {
    let i = h % 32;
    let a = sign_of((i / 4) % 2);
    let b = sign_of((i / 2) % 2);
    let c = sign_of(i % 2);
    if i < 8 {
        (0, a, b, c)
    } else if i < 16 {
        (a, 0, b, c)
    } else if i < 24 {
        (a, b, 0, c)
    } else {
        (a, b, c, 0)
    }
}

/// Select a 2-dimensional gradient direction by hash.
pub fn get2(h: usize) -> (g: (i8, i8))
    ensures
        g.0 == grad2_spec(h as int).0,
        g.1 == grad2_spec(h as int).1,
{
    match h % 4 {
        0 => (1, 1),
        1 => (-1, 1),
        2 => (1, -1),
        _ => (-1, -1),
    }
}

/// Select a 3-dimensional gradient direction by hash.
pub fn get3(h: usize) -> (g: (i8, i8, i8))
    ensures
        g.0 == grad3_spec(h as int).0,
        g.1 == grad3_spec(h as int).1,
        g.2 == grad3_spec(h as int).2,
{
    match h % 16 {
        0 => (1, 1, 0),
        1 => (-1, 1, 0),
        2 => (1, -1, 0),
        3 => (-1, -1, 0),
        4 => (1, 0, 1),
        5 => (-1, 0, 1),
        6 => (1, 0, -1),
        7 => (-1, 0, -1),
        8 => (0, 1, 1),
        9 => (0, -1, 1),
        10 => (0, 1, -1),
        11 => (0, -1, -1),
        12 => (1, 1, 0),
        13 => (-1, 1, 0),
        14 => (0, -1, 1),
        _ => (0, -1, -1),
    }
}

/// Select a 4-dimensional gradient direction by hash.
pub fn get4(h: usize) -> (g: (i8, i8, i8, i8))
    ensures
        g.0 == grad4_spec(h as int).0,
        g.1 == grad4_spec(h as int).1,
        g.2 == grad4_spec(h as int).2,
        g.3 == grad4_spec(h as int).3,
{
    let i = h % 32;
    let a: i8 = if (i / 4) % 2 == 0 { 1 } else { -1 };
    let b: i8 = if (i / 2) % 2 == 0 { 1 } else { -1 };
    let c: i8 = if i % 2 == 0 { 1 } else { -1 };
    if i < 8 {
        (0, a, b, c)
    } else if i < 16 {
        (a, 0, b, c)
    } else if i < 24 {
        (a, b, 0, c)
    } else {
        (a, b, c, 0)
    }
}

} // verus!
