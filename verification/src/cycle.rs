//! The shared four-cycle primitive.
//!
//! Every turn of the puzzle, in both the facelet model and the
//! piece-position model, is a composition of simultaneous four-cycles of
//! array positions.  Both models go through the one exec primitive
//! [`apply_cycle`] and the one spec source map [`cyc_src`], parameterised
//! only by the positions involved, so a turn can never be encoded two
//! different ways.

use vstd::prelude::*;

verus! {

/// Source map of one four-cycle step.
///
/// Applying the cycle `(a b c d)` forward moves the contents of `b` into
/// `a`, `c` into `b`, `d` into `c` and `a` into `d`; every other position
/// keeps its contents.  `rev` walks the cycle the other way.  The result
/// is the position whose old contents end up at position `i`.
pub open spec fn cyc_src(a: int, b: int, c: int, d: int, rev: bool, i: int) -> int {
    if !rev {
        if i == a {
            b
        } else if i == b {
            c
        } else if i == c {
            d
        } else if i == d {
            a
        } else {
            i
        }
    } else {
        if i == a {
            d
        } else if i == d {
            c
        } else if i == c {
            b
        } else if i == b {
            a
        } else {
            i
        }
    }
}

/// The result of one four-cycle step on a whole sequence.
pub open spec fn cyc<T>(s: Seq<T>, a: int, b: int, c: int, d: int, rev: bool) -> Seq<T> {
    Seq::new(s.len(), |i: int| s[cyc_src(a, b, c, d, rev, i)])
}

/// One four-cycle step on an array, in place.
///
/// Forward, position `a` receives the contents of `b`, `b` of `c`, `c` of
/// `d` and `d` of `a`; reversed walks the other way.  This is the single
/// permutation primitive shared by the facelet and the piece-position
/// state.
pub fn apply_cycle<T: Copy, const N: usize>(
    arr: &mut [T; N],
    a: usize,
    b: usize,
    c: usize,
    d: usize,
    rev: bool,
)
    requires
        a < N,
        b < N,
        c < N,
        d < N,
        a != b,
        a != c,
        a != d,
        b != c,
        b != d,
        c != d,
    ensures
        final(arr)@ == cyc(old(arr)@, a as int, b as int, c as int, d as int, rev),
{
    let va = arr[a];
    let vb = arr[b];
    let vc = arr[c];
    let vd = arr[d];
    if !rev {
        arr[a] = vb;
        arr[b] = vc;
        arr[c] = vd;
        arr[d] = va;
    } else {
        arr[a] = vd;
        arr[d] = vc;
        arr[c] = vb;
        arr[b] = va;
    }
    proof {
        assert(arr@ =~= cyc(old(arr)@, a as int, b as int, c as int, d as int, rev));
    }
}

} // verus!
