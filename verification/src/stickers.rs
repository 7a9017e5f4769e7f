//! The facelet (sticker-colour) state of the cube.
//!
//! Six faces of nine stickers each, stored flat: facelet `p` of face `f`
//! lives at index `9 * face_idx(f) + p`, with `p` numbered as in
//! [`crate::table`].  Turns permute the 54 stickers and never create,
//! destroy or recolour one; the solved predicate asks every face to be a
//! single colour.

use vstd::prelude::*;
use crate::cycle::apply_cycle;
use crate::cycle::cyc;
use crate::table::Face;
use crate::table::Rotate;
use crate::table::Slice;
use crate::table::face_idx;
use crate::table::face_index;
use crate::table::fidx;
use crate::table::side;
use crate::table::slice_ring;
use crate::table::slice_surrounding;
use crate::table::spec_side;
use crate::table::spec_slice_ring;
use crate::table::spec_slice_surrounding;
use crate::table::spec_surrounding;
use crate::table::surrounding;

verus! {

broadcast use vstd::array::group_array_axioms;

/// One sticker colour.
#[derive(Copy, Clone, Debug, PartialEq, Eq, Structural)]
pub enum Sticker {
    Red,
    Orange,
    Blue,
    Green,
    White,
    Yellow,
}

/// The single-character tag of a colour.
pub open spec fn spec_letter(s: Sticker) -> char {
    match s {
        Sticker::Red => 'R',
        Sticker::Orange => 'O',
        Sticker::Blue => 'B',
        Sticker::Green => 'G',
        Sticker::White => 'W',
        Sticker::Yellow => 'Y',
    }
}

impl Sticker {
    /// The single-character tag of this colour.
    pub fn letter(&self) -> (r: char)
        ensures
            r == spec_letter(*self),
    {
        match self {
            Sticker::Red => 'R',
            Sticker::Orange => 'O',
            Sticker::Blue => 'B',
            Sticker::Green => 'G',
            Sticker::White => 'W',
            Sticker::Yellow => 'Y',
        }
    }
}

/// The colour every facelet of face number `fi` has when the cube is
/// freshly built.
pub open spec fn face_color(fi: int) -> Sticker {
    if fi == 0 {
        Sticker::Yellow
    } else if fi == 1 {
        Sticker::White
    } else if fi == 2 {
        Sticker::Orange
    } else if fi == 3 {
        Sticker::Red
    } else if fi == 4 {
        Sticker::Blue
    } else {
        Sticker::Green
    }
}

/// The solved arrangement: each face uniformly in its own colour.
pub open spec fn solved_layout() -> Seq<Sticker> {
    Seq::new(54, |i: int| face_color(i / 9))
}

/// Every face shows a single colour: any two facelets of one face are
/// equal.
pub open spec fn is_solved(s: Seq<Sticker>) -> bool {
    forall|i: int, j: int|
        #![trigger s[i], s[j]]
        0 <= i < 54 && 0 <= j < 54 && i / 9 == j / 9 ==> s[i] == s[j]
}

/// The freshly built arrangement is solved.
pub proof fn lemma_solved_layout_is_solved()
    ensures
        solved_layout().len() == 54,
        is_solved(solved_layout()),
{
    assert forall|i: int, j: int|
        #![trigger solved_layout()[i], solved_layout()[j]]
        0 <= i < 54 && 0 <= j < 54 && i / 9 == j / 9 implies solved_layout()[i]
        == solved_layout()[j] by {
        assert(solved_layout()[i] == face_color(i / 9));
        assert(solved_layout()[j] == face_color(j / 9));
    }
}

/// The four global indices whose corner stickers a turn of `f` cycles on
/// `f`'s own ring: forward, the top-left corner receives the bottom-left
/// one, one quarter of a ring rotation.
pub open spec fn corner_quad(f: Face) -> (int, int, int, int) {
    (fidx(f, 0), fidx(f, 6), fidx(f, 4), fidx(f, 2))
}

/// The four global indices whose edge stickers a turn of `f` cycles on
/// `f`'s own ring.
pub open spec fn edge_quad(f: Face) -> (int, int, int, int) {
    (fidx(f, 1), fidx(f, 7), fidx(f, 5), fidx(f, 3))
}

/// The four global indices that hold position `k` of the neighbouring
/// rows a turn of `f` carries around: forward, each surrounding face
/// receives the row of the next one in the table's cyclic order.
pub open spec fn row_quad(f: Face, k: int) -> (int, int, int, int) {
    let s = spec_surrounding(f);
    (
        fidx(s[0], (spec_side(f, s[0]) + k) % 8),
        fidx(s[1], (spec_side(f, s[1]) + k) % 8),
        fidx(s[2], (spec_side(f, s[2]) + k) % 8),
        fidx(s[3], (spec_side(f, s[3]) + k) % 8),
    )
}

/// The four global indices that hold position `k` of the facelet groups
/// a turn of slice `sl` cycles.
pub open spec fn slice_quad(sl: Slice, k: int) -> (int, int, int, int) {
    let s = spec_slice_surrounding(sl);
    (
        fidx(s[0], spec_slice_ring(sl, s[0])[k]),
        fidx(s[1], spec_slice_ring(sl, s[1])[k]),
        fidx(s[2], spec_slice_ring(sl, s[2])[k]),
        fidx(s[3], spec_slice_ring(sl, s[3])[k]),
    )
}

/// One cycle step applied to a whole sequence, spelled with a quadruple.
pub open spec fn cyc_q<T>(s: Seq<T>, q: (int, int, int, int), rev: bool) -> Seq<T> {
    cyc(s, q.0, q.1, q.2, q.3, rev)
}

/// The facelet state after rotating face `f`'s own ring in place: one
/// quarter turn of its eight outer stickers, centre fixed.
pub open spec fn spec_rotate_face(s: Seq<Sticker>, f: Face, rev: bool) -> Seq<Sticker> {
    cyc_q(cyc_q(s, corner_quad(f), rev), edge_quad(f), rev)
}

/// The facelet state after one quarter turn of face `f`: the face's own
/// ring rotates, and the three-sticker rows of its four neighbours cycle.
pub open spec fn spec_face_turn(s: Seq<Sticker>, f: Face, rev: bool) -> Seq<Sticker> {
    cyc_q(
        cyc_q(cyc_q(spec_rotate_face(s, f, rev), row_quad(f, 0), rev), row_quad(f, 1), rev),
        row_quad(f, 2),
        rev,
    )
}

/// The facelet state after one quarter turn of slice `sl`: the
/// three-sticker groups of the four faces it cuts cycle; the two faces it
/// does not cut are untouched.
pub open spec fn spec_slice_turn(s: Seq<Sticker>, sl: Slice, rev: bool) -> Seq<Sticker> {
    cyc_q(cyc_q(cyc_q(s, slice_quad(sl, 0), rev), slice_quad(sl, 1), rev), slice_quad(sl, 2), rev)
}

/// The facelet state after a whole-cube reorientation: one slice turn and
/// the two parallel face turns, with the direction of each fixed so the
/// three layers travel together.
pub open spec fn spec_rotate(s: Seq<Sticker>, r: Rotate, rev: bool) -> Seq<Sticker> {
    match r {
        Rotate::X => spec_face_turn(
            spec_face_turn(spec_slice_turn(s, Slice::Middle, !rev), Face::Right, rev),
            Face::Left,
            !rev,
        ),
        Rotate::Y => spec_face_turn(
            spec_face_turn(spec_slice_turn(s, Slice::Equator, !rev), Face::Up, rev),
            Face::Down,
            !rev,
        ),
        Rotate::Z => spec_face_turn(
            spec_face_turn(spec_slice_turn(s, Slice::Standing, rev), Face::Front, rev),
            Face::Back,
            !rev,
        ),
    }
}

/// The sticker-colour state: 54 facelets, judged solved when every face
/// is uniform.
pub struct Layout {
    cells: [Sticker; 54],
}

impl View for Layout {
    type V = Seq<Sticker>;

    closed spec fn view(&self) -> Seq<Sticker> {
        self.cells@
    }
}

impl Layout {
    /// Builds the solved arrangement.
    pub fn new() -> (r: Layout)
        ensures
            r@ == solved_layout(),
    {
        let mut cells: [Sticker; 54] = [Sticker::Yellow; 54];
        let mut i: usize = 0;
        while i < 54
            invariant
                i <= 54,
                forall|j: int| 0 <= j < i ==> cells@[j] == solved_layout()[j],
            decreases 54 - i,
        {
            let fi = i / 9;
            let color = if fi == 0 {
                Sticker::Yellow
            } else if fi == 1 {
                Sticker::White
            } else if fi == 2 {
                Sticker::Orange
            } else if fi == 3 {
                Sticker::Red
            } else if fi == 4 {
                Sticker::Blue
            } else {
                Sticker::Green
            };
            cells[i] = color;
            i += 1;
        }
        proof {
            assert(cells@ =~= solved_layout());
        }
        Layout { cells }
    }

    /// The colour currently at facelet `p` of face `f`.
    pub fn sticker(&self, f: Face, p: usize) -> (r: Sticker)
        requires
            p < 9,
        ensures
            r == self@[fidx(f, p as int)],
    {
        let fi = face_index(f);
        self.cells[9 * fi + p]
    }

    /// True exactly when every face's nine facelets share one colour.
    pub fn solved(&self) -> (r: bool)
        ensures
            r == is_solved(self@),
    {
        let mut i: usize = 0;
        while i < 54
            invariant
                i <= 54,
                forall|j: int| 0 <= j < i ==> #[trigger] self@[j] == self@[9 * (j / 9)],
            decreases 54 - i,
        {
            if self.cells[i] != self.cells[9 * (i / 9)] {
                proof {
                    let wi = i as int;
                    assert(self@[wi] != self@[9 * (wi / 9)]);
                    assert((9 * (wi / 9)) / 9 == wi / 9);
                    assert(!is_solved(self@));
                }
                return false;
            }
            i += 1;
        }
        proof {
            assert forall|a: int, b: int|
                #![trigger self@[a], self@[b]]
                0 <= a < 54 && 0 <= b < 54 && a / 9 == b / 9 implies self@[a] == self@[b] by {
                assert(self@[a] == self@[9 * (a / 9)]);
                assert(self@[b] == self@[9 * (b / 9)]);
            }
        }
        true
    }

    /// Whether the two states hold the same colours everywhere.
    pub fn same_as(&self, other: &Layout) -> (r: bool)
        ensures
            r == (self@ == other@),
    {
        let mut i: usize = 0;
        while i < 54
            invariant
                i <= 54,
                forall|j: int| 0 <= j < i ==> self@[j] == other@[j],
            decreases 54 - i,
        {
            if self.cells[i] != other.cells[i] {
                return false;
            }
            i += 1;
        }
        proof {
            assert(self@ =~= other@);
        }
        true
    }

    /// Rotates face `f`'s own ring in place by a quarter turn.
    fn rotate_face(&mut self, f: Face, rev: bool)
        ensures
            final(self)@ == spec_rotate_face(old(self)@, f, rev),
    {
        let fi = face_index(f);
        apply_cycle(&mut self.cells, 9 * fi + 0, 9 * fi + 6, 9 * fi + 4, 9 * fi + 2, rev);
        apply_cycle(&mut self.cells, 9 * fi + 1, 9 * fi + 7, 9 * fi + 5, 9 * fi + 3, rev);
    }

    /// Applies one quarter turn of face `f`.
    #[verifier::rlimit(100)]
    #[verifier::spinoff_prover]
    pub fn face(&mut self, f: Face, rev: bool)
        ensures
            final(self)@ == spec_face_turn(old(self)@, f, rev),
    {
        self.rotate_face(f, rev);
        let sur = surrounding(f);
        let b0 = 9 * face_index(sur[0]);
        let b1 = 9 * face_index(sur[1]);
        let b2 = 9 * face_index(sur[2]);
        let b3 = 9 * face_index(sur[3]);
        let d0 = side(f, sur[0]);
        let d1 = side(f, sur[1]);
        let d2 = side(f, sur[2]);
        let d3 = side(f, sur[3]);
        proof {
            lemma_surrounding_wf(f);
            assert(row_quad(f, 0) == ((b0 + d0 % 8) as int, (b1 + d1 % 8) as int, (b2 + d2
                % 8) as int, (b3 + d3 % 8) as int));
            assert(row_quad(f, 1) == ((b0 + (d0 + 1) % 8) as int, (b1 + (d1 + 1) % 8) as int, (b2
                + (d2 + 1) % 8) as int, (b3 + (d3 + 1) % 8) as int));
            assert(row_quad(f, 2) == ((b0 + (d0 + 2) % 8) as int, (b1 + (d1 + 2) % 8) as int, (b2
                + (d2 + 2) % 8) as int, (b3 + (d3 + 2) % 8) as int));
        }
        apply_cycle(
            &mut self.cells,
            b0 + d0 % 8,
            b1 + d1 % 8,
            b2 + d2 % 8,
            b3 + d3 % 8,
            rev,
        );
        apply_cycle(
            &mut self.cells,
            b0 + (d0 + 1) % 8,
            b1 + (d1 + 1) % 8,
            b2 + (d2 + 1) % 8,
            b3 + (d3 + 1) % 8,
            rev,
        );
        apply_cycle(
            &mut self.cells,
            b0 + (d0 + 2) % 8,
            b1 + (d1 + 2) % 8,
            b2 + (d2 + 2) % 8,
            b3 + (d3 + 2) % 8,
            rev,
        );
    }

    /// Applies one quarter turn of slice `sl`.
    #[verifier::rlimit(100)]
    #[verifier::spinoff_prover]
    pub fn slice(&mut self, sl: Slice, rev: bool)
        ensures
            final(self)@ == spec_slice_turn(old(self)@, sl, rev),
    {
        let sur = slice_surrounding(sl);
        let b0 = 9 * face_index(sur[0]);
        let b1 = 9 * face_index(sur[1]);
        let b2 = 9 * face_index(sur[2]);
        let b3 = 9 * face_index(sur[3]);
        let g0 = slice_ring(sl, sur[0]);
        let g1 = slice_ring(sl, sur[1]);
        let g2 = slice_ring(sl, sur[2]);
        let g3 = slice_ring(sl, sur[3]);
        proof {
            lemma_slice_surrounding_wf(sl);
        }
        apply_cycle(&mut self.cells, b0 + g0[0], b1 + g1[0], b2 + g2[0], b3 + g3[0], rev);
        apply_cycle(&mut self.cells, b0 + g0[1], b1 + g1[1], b2 + g2[1], b3 + g3[1], rev);
        apply_cycle(&mut self.cells, b0 + g0[2], b1 + g1[2], b2 + g2[2], b3 + g3[2], rev);
    }

    /// Applies a whole-cube reorientation about the given axis.
    pub fn rotate(&mut self, rot: Rotate, rev: bool)
        ensures
            final(self)@ == spec_rotate(old(self)@, rot, rev),
    {
        match rot {
            Rotate::X => self.x(rev),
            Rotate::Y => self.y(rev),
            Rotate::Z => self.z(rev),
        }
    }

    /// Reorientation about the axis through Left and Right.
    fn x(&mut self, rev: bool)
        ensures
            final(self)@ == spec_rotate(old(self)@, Rotate::X, rev),
    {
        self.slice(Slice::Middle, !rev);
        self.face(Face::Right, rev);
        self.face(Face::Left, !rev);
    }

    /// Reorientation about the axis through Up and Down.
    fn y(&mut self, rev: bool)
        ensures
            final(self)@ == spec_rotate(old(self)@, Rotate::Y, rev),
    {
        self.slice(Slice::Equator, !rev);
        self.face(Face::Up, rev);
        self.face(Face::Down, !rev);
    }

    /// Reorientation about the axis through Front and Back.
    fn z(&mut self, rev: bool)
        ensures
            final(self)@ == spec_rotate(old(self)@, Rotate::Z, rev),
    {
        self.slice(Slice::Standing, rev);
        self.face(Face::Front, rev);
        self.face(Face::Back, !rev);
    }
}
/// Source map of one quadruple cycle step: the position whose old
/// contents end at `i`.
pub open spec fn cyc_src_q(q: (int, int, int, int), rev: bool, i: int) -> int {
    crate::cycle::cyc_src(q.0, q.1, q.2, q.3, rev, i)
}

/// Source map of a face turn: the facelet that a turn of `f` brings to
/// position `i`.
pub open spec fn face_src(f: Face, rev: bool, i: int) -> int {
    cyc_src_q(
        corner_quad(f),
        rev,
        cyc_src_q(
            edge_quad(f),
            rev,
            cyc_src_q(
                row_quad(f, 0),
                rev,
                cyc_src_q(row_quad(f, 1), rev, cyc_src_q(row_quad(f, 2), rev, i)),
            ),
        ),
    )
}

/// Source map of a slice turn.
pub open spec fn slice_src(sl: Slice, rev: bool, i: int) -> int {
    cyc_src_q(
        slice_quad(sl, 0),
        rev,
        cyc_src_q(slice_quad(sl, 1), rev, cyc_src_q(slice_quad(sl, 2), rev, i)),
    )
}

/// Source map of a whole-cube reorientation.
pub open spec fn rotate_src(r: Rotate, rev: bool, i: int) -> int {
    match r {
        Rotate::X => slice_src(
            Slice::Middle,
            !rev,
            face_src(Face::Right, rev, face_src(Face::Left, !rev, i)),
        ),
        Rotate::Y => slice_src(
            Slice::Equator,
            !rev,
            face_src(Face::Up, rev, face_src(Face::Down, !rev, i)),
        ),
        Rotate::Z => slice_src(
            Slice::Standing,
            rev,
            face_src(Face::Front, rev, face_src(Face::Back, !rev, i)),
        ),
    }
}

/// The source map of a face turn stays inside the 54 facelets.
pub proof fn lemma_face_src_range(f: Face, rev: bool, i: int)
    requires
        0 <= i < 54,
    ensures
        0 <= face_src(f, rev, i) < 54,
{
    lemma_surrounding_wf(f);
}

/// The source map of a slice turn stays inside the 54 facelets.
pub proof fn lemma_slice_src_range(sl: Slice, rev: bool, i: int)
    requires
        0 <= i < 54,
    ensures
        0 <= slice_src(sl, rev, i) < 54,
{
    lemma_slice_surrounding_wf(sl);
}

/// The source map of a reorientation stays inside the 54 facelets.
pub proof fn lemma_rotate_src_range(r: Rotate, rev: bool, i: int)
    requires
        0 <= i < 54,
    ensures
        0 <= rotate_src(r, rev, i) < 54,
{
    match r {
        Rotate::X => {
            lemma_face_src_range(Face::Left, !rev, i);
            lemma_face_src_range(Face::Right, rev, face_src(Face::Left, !rev, i));
            lemma_slice_src_range(
                Slice::Middle,
                !rev,
                face_src(Face::Right, rev, face_src(Face::Left, !rev, i)),
            );
        },
        Rotate::Y => {
            lemma_face_src_range(Face::Down, !rev, i);
            lemma_face_src_range(Face::Up, rev, face_src(Face::Down, !rev, i));
            lemma_slice_src_range(
                Slice::Equator,
                !rev,
                face_src(Face::Up, rev, face_src(Face::Down, !rev, i)),
            );
        },
        Rotate::Z => {
            lemma_face_src_range(Face::Back, !rev, i);
            lemma_face_src_range(Face::Front, rev, face_src(Face::Back, !rev, i));
            lemma_slice_src_range(
                Slice::Standing,
                rev,
                face_src(Face::Front, rev, face_src(Face::Back, !rev, i)),
            );
        },
    }
}

/// A face turn keeps 54 facelets and moves each one along the source
/// map: what ends at position `i` is what stood at `face_src(f, rev, i)`.
#[verifier::rlimit(60)]
#[verifier::spinoff_prover]
pub proof fn lemma_face_turn_pointwise(s: Seq<Sticker>, f: Face, rev: bool)
    requires
        s.len() == 54,
    ensures
        spec_face_turn(s, f, rev).len() == 54,
        forall|i: int|
            0 <= i < 54 ==> #[trigger] spec_face_turn(s, f, rev)[i] == s[face_src(f, rev, i)],
{
    lemma_surrounding_wf(f);
}

/// A slice turn keeps 54 facelets and moves each one along the source
/// map.
#[verifier::rlimit(60)]
#[verifier::spinoff_prover]
pub proof fn lemma_slice_turn_pointwise(s: Seq<Sticker>, sl: Slice, rev: bool)
    requires
        s.len() == 54,
    ensures
        spec_slice_turn(s, sl, rev).len() == 54,
        forall|i: int|
            0 <= i < 54 ==> #[trigger] spec_slice_turn(s, sl, rev)[i] == s[slice_src(sl, rev, i)],
{
    lemma_slice_surrounding_wf(sl);
}

/// A reorientation keeps 54 facelets and moves each one along the
/// source map.
pub proof fn lemma_rotate_pointwise(s: Seq<Sticker>, r: Rotate, rev: bool)
    requires
        s.len() == 54,
    ensures
        spec_rotate(s, r, rev).len() == 54,
        forall|i: int|
            0 <= i < 54 ==> #[trigger] spec_rotate(s, r, rev)[i] == s[rotate_src(r, rev, i)],
{
    match r {
        Rotate::X => {
            let t1 = spec_slice_turn(s, Slice::Middle, !rev);
            let t2 = spec_face_turn(t1, Face::Right, rev);
            lemma_slice_turn_pointwise(s, Slice::Middle, !rev);
            lemma_face_turn_pointwise(t1, Face::Right, rev);
            lemma_face_turn_pointwise(t2, Face::Left, !rev);
            assert forall|i: int| 0 <= i < 54 implies #[trigger] spec_rotate(s, r, rev)[i]
                == s[rotate_src(r, rev, i)] by {
                lemma_face_src_range(Face::Left, !rev, i);
                lemma_face_src_range(Face::Right, rev, face_src(Face::Left, !rev, i));
            }
        },
        Rotate::Y => {
            let t1 = spec_slice_turn(s, Slice::Equator, !rev);
            let t2 = spec_face_turn(t1, Face::Up, rev);
            lemma_slice_turn_pointwise(s, Slice::Equator, !rev);
            lemma_face_turn_pointwise(t1, Face::Up, rev);
            lemma_face_turn_pointwise(t2, Face::Down, !rev);
            assert forall|i: int| 0 <= i < 54 implies #[trigger] spec_rotate(s, r, rev)[i]
                == s[rotate_src(r, rev, i)] by {
                lemma_face_src_range(Face::Down, !rev, i);
                lemma_face_src_range(Face::Up, rev, face_src(Face::Down, !rev, i));
            }
        },
        Rotate::Z => {
            let t1 = spec_slice_turn(s, Slice::Standing, rev);
            let t2 = spec_face_turn(t1, Face::Front, rev);
            lemma_slice_turn_pointwise(s, Slice::Standing, rev);
            lemma_face_turn_pointwise(t1, Face::Front, rev);
            lemma_face_turn_pointwise(t2, Face::Back, !rev);
            assert forall|i: int| 0 <= i < 54 implies #[trigger] spec_rotate(s, r, rev)[i]
                == s[rotate_src(r, rev, i)] by {
                lemma_face_src_range(Face::Back, !rev, i);
                lemma_face_src_range(Face::Front, rev, face_src(Face::Back, !rev, i));
            }
        },
    }
}

#[verifier::spinoff_prover]
proof fn lemma_face_src_inverse_up(rev: bool, i: int)
    requires
        0 <= i < 54,
    ensures
        face_src(Face::Up, rev, face_src(Face::Up, !rev, i)) == i,
{
}

#[verifier::spinoff_prover]
proof fn lemma_face_src_inverse_down(rev: bool, i: int)
    requires
        0 <= i < 54,
    ensures
        face_src(Face::Down, rev, face_src(Face::Down, !rev, i)) == i,
{
}

#[verifier::spinoff_prover]
proof fn lemma_face_src_inverse_left(rev: bool, i: int)
    requires
        0 <= i < 54,
    ensures
        face_src(Face::Left, rev, face_src(Face::Left, !rev, i)) == i,
{
}

#[verifier::spinoff_prover]
proof fn lemma_face_src_inverse_right(rev: bool, i: int)
    requires
        0 <= i < 54,
    ensures
        face_src(Face::Right, rev, face_src(Face::Right, !rev, i)) == i,
{
}

#[verifier::spinoff_prover]
proof fn lemma_face_src_inverse_front(rev: bool, i: int)
    requires
        0 <= i < 54,
    ensures
        face_src(Face::Front, rev, face_src(Face::Front, !rev, i)) == i,
{
}

#[verifier::spinoff_prover]
proof fn lemma_face_src_inverse_back(rev: bool, i: int)
    requires
        0 <= i < 54,
    ensures
        face_src(Face::Back, rev, face_src(Face::Back, !rev, i)) == i,
{
}

/// Undoing a face turn at the level of positions: the source maps of a
/// turn and of its reversal cancel.
pub proof fn lemma_face_src_inverse(f: Face, rev: bool, i: int)
    requires
        0 <= i < 54,
    ensures
        face_src(f, rev, face_src(f, !rev, i)) == i,
{
    match f {
        Face::Up => lemma_face_src_inverse_up(rev, i),
        Face::Down => lemma_face_src_inverse_down(rev, i),
        Face::Left => lemma_face_src_inverse_left(rev, i),
        Face::Right => lemma_face_src_inverse_right(rev, i),
        Face::Front => lemma_face_src_inverse_front(rev, i),
        Face::Back => lemma_face_src_inverse_back(rev, i),
    }
}

/// Undoing a slice turn at the level of positions.
#[verifier::rlimit(100)]
#[verifier::spinoff_prover]
pub proof fn lemma_slice_src_inverse(sl: Slice, rev: bool, i: int)
    requires
        0 <= i < 54,
    ensures
        slice_src(sl, rev, slice_src(sl, !rev, i)) == i,
{
    lemma_slice_surrounding_wf(sl);
}

#[verifier::rlimit(50)]
#[verifier::spinoff_prover]
proof fn lemma_face_src_four_up(rev: bool, i: int)
    requires
        0 <= i < 54,
    ensures
        face_src(
            Face::Up,
            rev,
            face_src(Face::Up, rev, face_src(Face::Up, rev, face_src(Face::Up, rev, i))),
        ) == i,
{
}

#[verifier::rlimit(50)]
#[verifier::spinoff_prover]
proof fn lemma_face_src_four_down(rev: bool, i: int)
    requires
        0 <= i < 54,
    ensures
        face_src(
            Face::Down,
            rev,
            face_src(Face::Down, rev, face_src(Face::Down, rev, face_src(Face::Down, rev, i))),
        ) == i,
{
}

#[verifier::rlimit(50)]
#[verifier::spinoff_prover]
proof fn lemma_face_src_four_left(rev: bool, i: int)
    requires
        0 <= i < 54,
    ensures
        face_src(
            Face::Left,
            rev,
            face_src(Face::Left, rev, face_src(Face::Left, rev, face_src(Face::Left, rev, i))),
        ) == i,
{
}

#[verifier::rlimit(50)]
#[verifier::spinoff_prover]
proof fn lemma_face_src_four_right(rev: bool, i: int)
    requires
        0 <= i < 54,
    ensures
        face_src(
            Face::Right,
            rev,
            face_src(Face::Right, rev, face_src(Face::Right, rev, face_src(Face::Right, rev, i))),
        ) == i,
{
}

#[verifier::rlimit(50)]
#[verifier::spinoff_prover]
proof fn lemma_face_src_four_front(rev: bool, i: int)
    requires
        0 <= i < 54,
    ensures
        face_src(
            Face::Front,
            rev,
            face_src(Face::Front, rev, face_src(Face::Front, rev, face_src(Face::Front, rev, i))),
        ) == i,
{
}

#[verifier::rlimit(50)]
#[verifier::spinoff_prover]
proof fn lemma_face_src_four_back(rev: bool, i: int)
    requires
        0 <= i < 54,
    ensures
        face_src(
            Face::Back,
            rev,
            face_src(Face::Back, rev, face_src(Face::Back, rev, face_src(Face::Back, rev, i))),
        ) == i,
{
}

/// Four forward steps of a face turn at the level of positions.
pub proof fn lemma_face_src_four(f: Face, rev: bool, i: int)
    requires
        0 <= i < 54,
    ensures
        face_src(f, rev, face_src(f, rev, face_src(f, rev, face_src(f, rev, i)))) == i,
{
    match f {
        Face::Up => lemma_face_src_four_up(rev, i),
        Face::Down => lemma_face_src_four_down(rev, i),
        Face::Left => lemma_face_src_four_left(rev, i),
        Face::Right => lemma_face_src_four_right(rev, i),
        Face::Front => lemma_face_src_four_front(rev, i),
        Face::Back => lemma_face_src_four_back(rev, i),
    }
}

/// Four forward steps of a slice turn at the level of positions.
#[verifier::rlimit(100)]
#[verifier::spinoff_prover]
pub proof fn lemma_slice_src_four(sl: Slice, rev: bool, i: int)
    requires
        0 <= i < 54,
    ensures
        slice_src(sl, rev, slice_src(sl, rev, slice_src(sl, rev, slice_src(sl, rev, i)))) == i,
{
    lemma_slice_surrounding_wf(sl);
    match sl {
        Slice::Middle => assert(slice_src(Slice::Middle, rev, slice_src(Slice::Middle, rev, slice_src(Slice::Middle, rev, slice_src(Slice::Middle, rev, i)))) == i),
        Slice::Equator => assert(slice_src(Slice::Equator, rev, slice_src(Slice::Equator, rev, slice_src(Slice::Equator, rev, slice_src(Slice::Equator, rev, i)))) == i),
        Slice::Standing => assert(slice_src(Slice::Standing, rev, slice_src(Slice::Standing, rev, slice_src(Slice::Standing, rev, slice_src(Slice::Standing, rev, i)))) == i),
    }
}

/// Law: turning a face four times the same way restores every facelet.
pub proof fn lemma_face_turn_four(s: Seq<Sticker>, f: Face, rev: bool)
    requires
        s.len() == 54,
    ensures
        spec_face_turn(
            spec_face_turn(spec_face_turn(spec_face_turn(s, f, rev), f, rev), f, rev),
            f,
            rev,
        ) == s,
{
    let t1 = spec_face_turn(s, f, rev);
    let t2 = spec_face_turn(t1, f, rev);
    let t3 = spec_face_turn(t2, f, rev);
    let t4 = spec_face_turn(t3, f, rev);
    lemma_face_turn_pointwise(s, f, rev);
    lemma_face_turn_pointwise(t1, f, rev);
    lemma_face_turn_pointwise(t2, f, rev);
    lemma_face_turn_pointwise(t3, f, rev);
    assert forall|i: int| 0 <= i < 54 implies t4[i] == s[i] by {
        lemma_face_src_range(f, rev, i);
        lemma_face_src_range(f, rev, face_src(f, rev, i));
        lemma_face_src_range(f, rev, face_src(f, rev, face_src(f, rev, i)));
        lemma_face_src_four(f, rev, i);
    }
    assert(t4 =~= s);
}

/// Law: turning a slice four times the same way restores every facelet.
pub proof fn lemma_slice_turn_four(s: Seq<Sticker>, sl: Slice, rev: bool)
    requires
        s.len() == 54,
    ensures
        spec_slice_turn(
            spec_slice_turn(spec_slice_turn(spec_slice_turn(s, sl, rev), sl, rev), sl, rev),
            sl,
            rev,
        ) == s,
{
    let t1 = spec_slice_turn(s, sl, rev);
    let t2 = spec_slice_turn(t1, sl, rev);
    let t3 = spec_slice_turn(t2, sl, rev);
    let t4 = spec_slice_turn(t3, sl, rev);
    lemma_slice_turn_pointwise(s, sl, rev);
    lemma_slice_turn_pointwise(t1, sl, rev);
    lemma_slice_turn_pointwise(t2, sl, rev);
    lemma_slice_turn_pointwise(t3, sl, rev);
    assert forall|i: int| 0 <= i < 54 implies t4[i] == s[i] by {
        lemma_slice_src_range(sl, rev, i);
        lemma_slice_src_range(sl, rev, slice_src(sl, rev, i));
        lemma_slice_src_range(sl, rev, slice_src(sl, rev, slice_src(sl, rev, i)));
        lemma_slice_src_four(sl, rev, i);
    }
    assert(t4 =~= s);
}

/// Law: a face turn followed by the same turn reversed restores every
/// facelet, whichever direction came first.
pub proof fn lemma_face_turn_inverse(s: Seq<Sticker>, f: Face, rev: bool)
    requires
        s.len() == 54,
    ensures
        spec_face_turn(spec_face_turn(s, f, rev), f, !rev) == s,
{
    let t1 = spec_face_turn(s, f, rev);
    let t = spec_face_turn(t1, f, !rev);
    lemma_face_turn_pointwise(s, f, rev);
    lemma_face_turn_pointwise(t1, f, !rev);
    assert forall|i: int| 0 <= i < 54 implies t[i] == s[i] by {
        lemma_face_src_range(f, !rev, i);
        lemma_face_src_inverse(f, rev, i);
    }
    assert(t =~= s);
}

/// Law: a slice turn followed by the same turn reversed restores every
/// facelet, whichever direction came first.
pub proof fn lemma_slice_turn_inverse(s: Seq<Sticker>, sl: Slice, rev: bool)
    requires
        s.len() == 54,
    ensures
        spec_slice_turn(spec_slice_turn(s, sl, rev), sl, !rev) == s,
{
    let t1 = spec_slice_turn(s, sl, rev);
    let t = spec_slice_turn(t1, sl, !rev);
    lemma_slice_turn_pointwise(s, sl, rev);
    lemma_slice_turn_pointwise(t1, sl, !rev);
    assert forall|i: int| 0 <= i < 54 implies t[i] == s[i] by {
        lemma_slice_src_range(sl, !rev, i);
        lemma_slice_src_inverse(sl, rev, i);
    }
    assert(t =~= s);
}

/// Undoing a reorientation at the level of positions.
#[verifier::rlimit(100)]
#[verifier::spinoff_prover]
pub proof fn lemma_rotate_src_inverse(r: Rotate, rev: bool, i: int)
    requires
        0 <= i < 54,
    ensures
        rotate_src(r, rev, rotate_src(r, !rev, i)) == i,
{
    match r {
        Rotate::X => {
            lemma_surrounding_wf(Face::Left);
            lemma_surrounding_wf(Face::Right);
            lemma_slice_surrounding_wf(Slice::Middle);
        },
        Rotate::Y => {
            lemma_surrounding_wf(Face::Up);
            lemma_surrounding_wf(Face::Down);
            lemma_slice_surrounding_wf(Slice::Equator);
        },
        Rotate::Z => {
            lemma_surrounding_wf(Face::Front);
            lemma_surrounding_wf(Face::Back);
            lemma_slice_surrounding_wf(Slice::Standing);
        },
    }
}

/// Law: a whole-cube reorientation followed by the same reorientation
/// reversed restores every facelet.
pub proof fn lemma_rotate_inverse(s: Seq<Sticker>, r: Rotate, rev: bool)
    requires
        s.len() == 54,
    ensures
        spec_rotate(spec_rotate(s, r, rev), r, !rev) == s,
{
    let t1 = spec_rotate(s, r, rev);
    let t = spec_rotate(t1, r, !rev);
    lemma_rotate_pointwise(s, r, rev);
    lemma_rotate_pointwise(t1, r, !rev);
    assert forall|i: int| 0 <= i < 54 implies t[i] == s[i] by {
        lemma_rotate_src_range(r, !rev, i);
        lemma_rotate_src_inverse(r, rev, i);
    }
    assert(t =~= s);
}

/// Which face supplies the stickers that a reorientation brings onto
/// face `f`: every reorientation carries whole faces onto whole faces.
pub open spec fn block_src(r: Rotate, rev: bool, f: int) -> int {
    match r {
        Rotate::X => if !rev {
            if f == 0 {
            4
        } else if f == 1 {
            5
        } else if f == 2 {
            2
        } else if f == 3 {
            3
        } else if f == 4 {
            1
        } else {
            0
        }
        } else {
            if f == 0 {
            5
        } else if f == 1 {
            4
        } else if f == 2 {
            2
        } else if f == 3 {
            3
        } else if f == 4 {
            0
        } else {
            1
        }
        },
        Rotate::Y => if !rev {
            if f == 0 {
            0
        } else if f == 1 {
            1
        } else if f == 2 {
            4
        } else if f == 3 {
            5
        } else if f == 4 {
            3
        } else {
            2
        }
        } else {
            if f == 0 {
            0
        } else if f == 1 {
            1
        } else if f == 2 {
            5
        } else if f == 3 {
            4
        } else if f == 4 {
            2
        } else {
            3
        }
        },
        Rotate::Z => if !rev {
            if f == 0 {
            2
        } else if f == 1 {
            3
        } else if f == 2 {
            1
        } else if f == 3 {
            0
        } else if f == 4 {
            4
        } else {
            5
        }
        } else {
            if f == 0 {
            3
        } else if f == 1 {
            2
        } else if f == 2 {
            0
        } else if f == 3 {
            1
        } else if f == 4 {
            4
        } else {
            5
        }
        },
    }
}

#[verifier::rlimit(80)]
#[verifier::spinoff_prover]
proof fn lemma_rotate_src_block_x(rev: bool, f: int, p: int)
    requires
        0 <= f < 6,
        0 <= p < 9,
    ensures
        9 * block_src(Rotate::X, rev, f) <= rotate_src(Rotate::X, rev, 9 * f + p) < 9
            * block_src(Rotate::X, rev, f) + 9,
{
}

#[verifier::rlimit(80)]
#[verifier::spinoff_prover]
proof fn lemma_rotate_src_block_y(rev: bool, f: int, p: int)
    requires
        0 <= f < 6,
        0 <= p < 9,
    ensures
        9 * block_src(Rotate::Y, rev, f) <= rotate_src(Rotate::Y, rev, 9 * f + p) < 9
            * block_src(Rotate::Y, rev, f) + 9,
{
}

#[verifier::rlimit(80)]
#[verifier::spinoff_prover]
proof fn lemma_rotate_src_block_z(rev: bool, f: int, p: int)
    requires
        0 <= f < 6,
        0 <= p < 9,
    ensures
        9 * block_src(Rotate::Z, rev, f) <= rotate_src(Rotate::Z, rev, 9 * f + p) < 9
            * block_src(Rotate::Z, rev, f) + 9,
{
}

/// A reorientation carries whole faces onto whole faces: every position
/// of face `f` is filled from face `block_src(r, rev, f)`.
pub proof fn lemma_rotate_src_block(r: Rotate, rev: bool, f: int, p: int)
    requires
        0 <= f < 6,
        0 <= p < 9,
    ensures
        9 * block_src(r, rev, f) <= rotate_src(r, rev, 9 * f + p) < 9 * block_src(r, rev, f) + 9,
        0 <= block_src(r, rev, f) < 6,
{
    match r {
        Rotate::X => lemma_rotate_src_block_x(rev, f, p),
        Rotate::Y => lemma_rotate_src_block_y(rev, f, p),
        Rotate::Z => lemma_rotate_src_block_z(rev, f, p),
    }
}

/// Law: a whole-cube reorientation never mixes colours: if every face
/// was uniform before, every face is uniform after.
pub proof fn lemma_rotate_preserves_solved(s: Seq<Sticker>, r: Rotate, rev: bool)
    requires
        s.len() == 54,
        is_solved(s),
    ensures
        is_solved(spec_rotate(s, r, rev)),
{
    let t = spec_rotate(s, r, rev);
    lemma_rotate_pointwise(s, r, rev);
    assert forall|i: int, j: int|
        #![trigger t[i], t[j]]
        0 <= i < 54 && 0 <= j < 54 && i / 9 == j / 9 implies t[i] == t[j] by {
        let f = i / 9;
        lemma_rotate_src_range(r, rev, i);
        lemma_rotate_src_range(r, rev, j);
        lemma_rotate_src_block(r, rev, f, i - 9 * f);
        lemma_rotate_src_block(r, rev, f, j - 9 * f);
        let a = rotate_src(r, rev, i);
        let b = rotate_src(r, rev, j);
        assert(a / 9 == block_src(r, rev, f));
        assert(b / 9 == block_src(r, rev, f));
        assert(s[a] == s[b]);
    }
}

/// Any chain of whole-cube reorientations, each entry an axis and a
/// direction, applied first entry first.
pub open spec fn apply_rotates(s: Seq<Sticker>, ops: Seq<(Rotate, bool)>) -> Seq<Sticker>
    decreases ops.len(),
{
    if ops.len() == 0 {
        s
    } else {
        apply_rotates(spec_rotate(s, ops[0].0, ops[0].1), ops.skip(1))
    }
}

/// Law: starting from any solved arrangement, any number of whole-cube
/// reorientations, about any axes and in any directions, leaves the cube
/// solved.
pub proof fn lemma_rotates_preserve_solved(s: Seq<Sticker>, ops: Seq<(Rotate, bool)>)
    requires
        s.len() == 54,
        is_solved(s),
    ensures
        is_solved(apply_rotates(s, ops)),
        apply_rotates(s, ops).len() == 54,
    decreases ops.len(),
{
    if ops.len() > 0 {
        lemma_rotate_pointwise(s, ops[0].0, ops[0].1);
        lemma_rotate_preserves_solved(s, ops[0].0, ops[0].1);
        lemma_rotates_preserve_solved(spec_rotate(s, ops[0].0, ops[0].1), ops.skip(1));
    }
}

#[verifier::spinoff_prover]
proof fn lemma_face_src_center_up(rev: bool, g: int)
    requires
        0 <= g < 6,
    ensures
        face_src(Face::Up, rev, 9 * g + 8) == 9 * g + 8,
{
}

#[verifier::spinoff_prover]
proof fn lemma_face_src_center_down(rev: bool, g: int)
    requires
        0 <= g < 6,
    ensures
        face_src(Face::Down, rev, 9 * g + 8) == 9 * g + 8,
{
}

#[verifier::spinoff_prover]
proof fn lemma_face_src_center_left(rev: bool, g: int)
    requires
        0 <= g < 6,
    ensures
        face_src(Face::Left, rev, 9 * g + 8) == 9 * g + 8,
{
}

#[verifier::spinoff_prover]
proof fn lemma_face_src_center_right(rev: bool, g: int)
    requires
        0 <= g < 6,
    ensures
        face_src(Face::Right, rev, 9 * g + 8) == 9 * g + 8,
{
}

#[verifier::spinoff_prover]
proof fn lemma_face_src_center_front(rev: bool, g: int)
    requires
        0 <= g < 6,
    ensures
        face_src(Face::Front, rev, 9 * g + 8) == 9 * g + 8,
{
}

#[verifier::spinoff_prover]
proof fn lemma_face_src_center_back(rev: bool, g: int)
    requires
        0 <= g < 6,
    ensures
        face_src(Face::Back, rev, 9 * g + 8) == 9 * g + 8,
{
}

/// A face turn leaves every centre position where it was, at the level
/// of positions.
pub proof fn lemma_face_src_center(f: Face, rev: bool, g: int)
    requires
        0 <= g < 6,
    ensures
        face_src(f, rev, 9 * g + 8) == 9 * g + 8,
{
    match f {
        Face::Up => lemma_face_src_center_up(rev, g),
        Face::Down => lemma_face_src_center_down(rev, g),
        Face::Left => lemma_face_src_center_left(rev, g),
        Face::Right => lemma_face_src_center_right(rev, g),
        Face::Front => lemma_face_src_center_front(rev, g),
        Face::Back => lemma_face_src_center_back(rev, g),
    }
}

/// Law: a face turn leaves the centre facelet of every face where it
/// was.
pub proof fn lemma_face_turn_fixes_centers(s: Seq<Sticker>, f: Face, rev: bool)
    requires
        s.len() == 54,
    ensures
        forall|g: int| 0 <= g < 6 ==> #[trigger] spec_face_turn(s, f, rev)[9 * g + 8] == s[9 * g
            + 8],
{
    lemma_face_turn_pointwise(s, f, rev);
    assert forall|g: int| 0 <= g < 6 implies #[trigger] spec_face_turn(s, f, rev)[9 * g + 8] == s[9
        * g + 8] by {
        lemma_face_src_center(f, rev, g);
    }
}

/// Any chain of single face turns, applied first entry first.
pub open spec fn apply_face_turns(s: Seq<Sticker>, ops: Seq<(Face, bool)>) -> Seq<Sticker>
    decreases ops.len(),
{
    if ops.len() == 0 {
        s
    } else {
        apply_face_turns(spec_face_turn(s, ops[0].0, ops[0].1), ops.skip(1))
    }
}

/// Law: no sequence of face turns ever changes which facelet occupies a
/// face's centre position.
pub proof fn lemma_face_turns_fix_centers(s: Seq<Sticker>, ops: Seq<(Face, bool)>)
    requires
        s.len() == 54,
    ensures
        forall|g: int| 0 <= g < 6 ==> #[trigger] apply_face_turns(s, ops)[9 * g + 8] == s[9 * g
            + 8],
        apply_face_turns(s, ops).len() == 54,
    decreases ops.len(),
{
    if ops.len() > 0 {
        lemma_face_turn_pointwise(s, ops[0].0, ops[0].1);
        lemma_face_turn_fixes_centers(s, ops[0].0, ops[0].1);
        lemma_face_turns_fix_centers(spec_face_turn(s, ops[0].0, ops[0].1), ops.skip(1));
    }
}

/// The two faces a slice does not cut.
pub open spec fn slice_untouched(sl: Slice) -> (Face, Face) {
    match sl {
        Slice::Middle => (Face::Left, Face::Right),
        Slice::Equator => (Face::Up, Face::Down),
        Slice::Standing => (Face::Front, Face::Back),
    }
}

/// A slice turn leaves the two faces it does not cut in place, at the
/// level of positions.
pub proof fn lemma_slice_src_untouched(sl: Slice, rev: bool, p: int)
    requires
        0 <= p < 9,
    ensures
        slice_src(sl, rev, fidx(slice_untouched(sl).0, p)) == fidx(slice_untouched(sl).0, p),
        slice_src(sl, rev, fidx(slice_untouched(sl).1, p)) == fidx(slice_untouched(sl).1, p),
{
    lemma_slice_surrounding_wf(sl);
}

/// Law: a slice turn leaves the two faces it does not cut completely
/// untouched, their centres included.  (The centres of the four faces a
/// slice does cut travel with it, so a slice turn is the one move that
/// relocates centre facelets.)
pub proof fn lemma_slice_turn_fixes_untouched(s: Seq<Sticker>, sl: Slice, rev: bool)
    requires
        s.len() == 54,
    ensures
        forall|p: int|
            0 <= p < 9 ==> #[trigger] spec_slice_turn(s, sl, rev)[fidx(slice_untouched(sl).0, p)]
                == s[fidx(slice_untouched(sl).0, p)],
        forall|p: int|
            0 <= p < 9 ==> #[trigger] spec_slice_turn(s, sl, rev)[fidx(slice_untouched(sl).1, p)]
                == s[fidx(slice_untouched(sl).1, p)],
{
    lemma_slice_turn_pointwise(s, sl, rev);
    assert forall|p: int| 0 <= p < 9 implies #[trigger] spec_slice_turn(s, sl, rev)[fidx(
        slice_untouched(sl).0,
        p,
    )] == s[fidx(slice_untouched(sl).0, p)] by {
        lemma_slice_src_untouched(sl, rev, p);
    }
    assert forall|p: int| 0 <= p < 9 implies #[trigger] spec_slice_turn(s, sl, rev)[fidx(
        slice_untouched(sl).1,
        p,
    )] == s[fidx(slice_untouched(sl).1, p)] by {
        lemma_slice_src_untouched(sl, rev, p);
    }
}

/// The four surrounding faces of a face are four distinct faces, all
/// different from the turned face itself.
pub proof fn lemma_surrounding_wf(f: Face)
    ensures
        forall|j: int, k: int|
            0 <= j < 4 && 0 <= k < 4 && j != k ==> face_idx(#[trigger] spec_surrounding(f)[j])
                != face_idx(#[trigger] spec_surrounding(f)[k]),
        forall|j: int| 0 <= j < 4 ==> face_idx(#[trigger] spec_surrounding(f)[j]) != face_idx(f),
        forall|j: int| 0 <= j < 4 ==> 0 <= face_idx(#[trigger] spec_surrounding(f)[j]) < 6,
{
}

/// The four faces of a slice are four distinct faces.
pub proof fn lemma_slice_surrounding_wf(sl: Slice)
    ensures
        forall|j: int, k: int|
            0 <= j < 4 && 0 <= k < 4 && j != k ==> face_idx(
                #[trigger] spec_slice_surrounding(sl)[j],
            ) != face_idx(#[trigger] spec_slice_surrounding(sl)[k]),
        forall|j: int| 0 <= j < 4 ==> 0 <= face_idx(#[trigger] spec_slice_surrounding(sl)[j]) < 6,
        forall|j: int, k: int|
            0 <= j < 4 && 0 <= k < 3 ==> 0 <= #[trigger] spec_slice_ring(
                sl,
                spec_slice_surrounding(sl)[j],
            )[k] < 9,
{
}





} // verus!
