//! The adjacency table.
//!
//! One static description of the puzzle's geometry, shared by the facelet
//! state and (through the descriptors in [`crate::layout`]) the
//! piece-position state.  Within a face the nine facelets are numbered as
//! a ring: positions 0..8 walk the outer ring clockwise starting at the
//! top-left corner (even positions are corners, odd positions are edges),
//! and position 8 is the centre.  A side of a face is named by the ring
//! position where it starts: 0 is the top row, 2 the right column, 4 the
//! bottom row and 6 the left column; the side covers three consecutive
//! ring positions.

use vstd::prelude::*;

verus! {

/// One of the six outer faces of the cube.
#[derive(Copy, Clone, Debug, PartialEq, Eq, Structural)]
pub enum Face {
    Up,
    Down,
    Left,
    Right,
    Front,
    Back,
}

/// One of the three middle slices: the cut between Left and Right,
/// between Up and Down, and between Front and Back.
#[derive(Copy, Clone, Debug, PartialEq, Eq, Structural)]
pub enum Slice {
    Middle,
    Equator,
    Standing,
}

/// One of the three whole-cube reorientation axes.
#[derive(Copy, Clone, Debug, PartialEq, Eq, Structural)]
pub enum Rotate {
    X,
    Y,
    Z,
}

/// The index of a face in the facelet state, in declaration order.
pub open spec fn face_idx(f: Face) -> int {
    match f {
        Face::Up => 0,
        Face::Down => 1,
        Face::Left => 2,
        Face::Right => 3,
        Face::Front => 4,
        Face::Back => 5,
    }
}

/// Global index of facelet `p` of face `f` in the flat facelet state.
pub open spec fn fidx(f: Face, p: int) -> int {
    9 * face_idx(f) + p
}

/// The four faces around `f`, in the cyclic order a forward turn of `f`
/// moves their rows: forward, each listed face receives the row of the
/// next one.
pub open spec fn spec_surrounding(f: Face) -> Seq<Face> {
    match f {
        Face::Up => seq![Face::Front, Face::Right, Face::Back, Face::Left],
        Face::Left => seq![Face::Up, Face::Back, Face::Down, Face::Front],
        Face::Front => seq![Face::Up, Face::Left, Face::Down, Face::Right],
        Face::Down => seq![Face::Front, Face::Left, Face::Back, Face::Right],
        Face::Right => seq![Face::Up, Face::Front, Face::Down, Face::Back],
        Face::Back => seq![Face::Up, Face::Right, Face::Down, Face::Left],
    }
}

/// On which side of the neighbouring face `g` the turning face `f` lies:
/// the ring position starting the three-facelet row of `g` that a turn of
/// `f` carries away.  Meaningful only when `g` is one of the four faces
/// around `f`.
pub open spec fn spec_side(f: Face, g: Face) -> int {
    match f {
        Face::Up => 0,
        Face::Down => 4,
        Face::Front => match g {
            Face::Up => 4,
            Face::Right => 6,
            Face::Down => 0,
            Face::Left => 2,
            _ => 0,
        },
        Face::Back => match g {
            Face::Up => 0,
            Face::Right => 2,
            Face::Down => 4,
            Face::Left => 6,
        _ => 0,
        },
        Face::Left => match g {
            Face::Up => 6,
            Face::Front => 6,
            Face::Down => 6,
            Face::Back => 2,
            _ => 0,
        },
        Face::Right => match g {
            Face::Up => 2,
            Face::Front => 2,
            Face::Down => 2,
            Face::Back => 6,
            _ => 0,
        },
    }
}

/// The four faces a slice cuts through, in the cyclic order a forward
/// slice turn moves their facelet groups: the slice between two opposite
/// faces walks the same ring of neighbours as the face it follows
/// (Middle follows Left, Equator follows Down, Standing follows Front).
pub open spec fn spec_slice_surrounding(s: Slice) -> Seq<Face> {
    match s {
        Slice::Middle => spec_surrounding(Face::Left),
        Slice::Equator => spec_surrounding(Face::Down),
        Slice::Standing => spec_surrounding(Face::Front),
    }
}

/// The three ring positions of face `g` that slice `s` cuts through, in
/// transfer order: position `k` of the group on one face moves to
/// position `k` of the group on the previous face of the cycle.  The
/// middle entry is always the centre facelet, which travels with the
/// slice.  Meaningful only when `g` is one of the slice's four faces.
pub open spec fn spec_slice_ring(s: Slice, g: Face) -> Seq<int> {
    match s {
        Slice::Equator => seq![7int, 8int, 3int],
        Slice::Middle => match g {
            Face::Back => seq![1int, 8int, 5int],
            _ => seq![5int, 8int, 1int],
        },
        Slice::Standing => match g {
            Face::Up => seq![7int, 8int, 3int],
            Face::Left => seq![5int, 8int, 1int],
            Face::Down => seq![3int, 8int, 7int],
            Face::Right => seq![1int, 8int, 5int],
            _ => seq![7int, 8int, 3int],
        },
    }
}

/// Exec mirror of [`face_idx`].
pub fn face_index(f: Face) -> (r: usize)
    ensures
        r == face_idx(f),
{
    match f {
        Face::Up => 0,
        Face::Down => 1,
        Face::Left => 2,
        Face::Right => 3,
        Face::Front => 4,
        Face::Back => 5,
    }
}

/// Exec mirror of [`spec_surrounding`].
pub fn surrounding(f: Face) -> (r: [Face; 4])
    ensures
        r@ == spec_surrounding(f),
{
    let r = match f {
        Face::Up => [Face::Front, Face::Right, Face::Back, Face::Left],
        Face::Left => [Face::Up, Face::Back, Face::Down, Face::Front],
        Face::Front => [Face::Up, Face::Left, Face::Down, Face::Right],
        Face::Down => [Face::Front, Face::Left, Face::Back, Face::Right],
        Face::Right => [Face::Up, Face::Front, Face::Down, Face::Back],
        Face::Back => [Face::Up, Face::Right, Face::Down, Face::Left],
    };
    proof {
        assert(r@ =~= spec_surrounding(f));
    }
    r
}

/// Exec mirror of [`spec_side`].
pub fn side(f: Face, g: Face) -> (r: usize)
    ensures
        r == spec_side(f, g),
{
    match f {
        Face::Up => 0,
        Face::Down => 4,
        Face::Front => match g {
            Face::Up => 4,
            Face::Right => 6,
            Face::Down => 0,
            Face::Left => 2,
            _ => 0,
        },
        Face::Back => match g {
            Face::Up => 0,
            Face::Right => 2,
            Face::Down => 4,
            Face::Left => 6,
            _ => 0,
        },
        Face::Left => match g {
            Face::Up => 6,
            Face::Front => 6,
            Face::Down => 6,
            Face::Back => 2,
            _ => 0,
        },
        Face::Right => match g {
            Face::Up => 2,
            Face::Front => 2,
            Face::Down => 2,
            Face::Back => 6,
            _ => 0,
        },
    }
}

/// Exec mirror of [`spec_slice_surrounding`].
pub fn slice_surrounding(s: Slice) -> (r: [Face; 4])
    ensures
        r@ == spec_slice_surrounding(s),
{
    match s {
        Slice::Middle => surrounding(Face::Left),
        Slice::Equator => surrounding(Face::Down),
        Slice::Standing => surrounding(Face::Front),
    }
}

/// Exec mirror of [`spec_slice_ring`].
pub fn slice_ring(s: Slice, g: Face) -> (r: [usize; 3])
    ensures
        r[0] as int == spec_slice_ring(s, g)[0],
        r[1] as int == spec_slice_ring(s, g)[1],
        r[2] as int == spec_slice_ring(s, g)[2],
{
    let r: [usize; 3] = match s {
        Slice::Equator => [7, 8, 3],
        Slice::Middle => match g {
            Face::Back => [1, 8, 5],
            _ => [5, 8, 1],
        },
        Slice::Standing => match g {
            Face::Up => [7, 8, 3],
            Face::Left => [5, 8, 1],
            Face::Down => [3, 8, 7],
            Face::Right => [1, 8, 5],
            _ => [7, 8, 3],
        },
    };
    r
}

} // verus!
