//! The piece-position state of the cube.
//!
//! The cube volume is split into 27 slots, numbered layer by layer from
//! the front: within a layer, positions run left to right, top to
//! bottom, so slot 0 is the front top-left corner, slot 13 the hidden
//! core, and slot 26 the back bottom-right corner.  The state maps each
//! slot to the physical cubie currently sitting there, and is always a
//! permutation of the initial identity mapping: no slot is ever empty or
//! duplicated.
//!
//! A turn is described by a [`Face`] descriptor: the four corner slots
//! and the four edge slots of the turning layer in cyclic order, and the
//! layer's centre slot, which no turn moves.  The same descriptors serve
//! the face layers, the slice layers and (combined) the whole-cube
//! reorientations; they go through the same four-cycle primitive as the
//! facelet state.

use vstd::prelude::*;
use crate::cycle::apply_cycle;
use crate::cycle::cyc;
use crate::cycle::cyc_src;

verus! {

broadcast use vstd::array::group_array_axioms;

/// A turning layer: four corner slots and four edge slots in cyclic
/// order, and the centre slot of the layer.  For a slice layer the
/// "corners" are its edge cubies and the "edges" its face-centre cubies;
/// the centre is the hidden core.
#[derive(Copy, Clone, Debug, PartialEq, Eq)]
pub struct Face {
    pub corners: [usize; 4],
    pub edges: [usize; 4],
    pub center: usize,
}

/// A descriptor is well formed when its nine slots are nine distinct
/// slot numbers.
pub open spec fn face_wf(f: Face) -> bool {
    &&& forall|i: int| 0 <= i < 4 ==> 0 <= #[trigger] f.corners@[i] < 27
    &&& forall|i: int| 0 <= i < 4 ==> 0 <= #[trigger] f.edges@[i] < 27
    &&& 0 <= f.center < 27
    &&& forall|i: int, j: int|
        0 <= i < 4 && 0 <= j < 4 && i != j ==> #[trigger] f.corners@[i] != #[trigger] f.corners@[j]
    &&& forall|i: int, j: int|
        0 <= i < 4 && 0 <= j < 4 && i != j ==> #[trigger] f.edges@[i] != #[trigger] f.edges@[j]
    &&& forall|i: int, j: int|
        0 <= i < 4 && 0 <= j < 4 ==> #[trigger] f.corners@[i] != #[trigger] f.edges@[j]
    &&& forall|i: int| 0 <= i < 4 ==> #[trigger] f.corners@[i] != f.center
    &&& forall|i: int| 0 <= i < 4 ==> #[trigger] f.edges@[i] != f.center
}

/// The descriptor read in the opposite cyclic order, which turns the
/// same layer the other way.  Reversing twice gives the original back,
/// and reversing never changes which slots belong to the layer.
pub open spec fn spec_reverse(f: Face) -> Face {
    Face {
        corners: [f.corners@[0], f.corners@[3], f.corners@[2], f.corners@[1]],
        edges: [f.edges@[0], f.edges@[3], f.edges@[2], f.edges@[1]],
        center: f.center,
    }
}

/// The descriptor as a turn reads it: reversed when the flag is set.
pub open spec fn reversed(f: Face, rev: bool) -> Face {
    if rev {
        spec_reverse(f)
    } else {
        f
    }
}

/// The nine slots of the layer, corners first, then edges, then the
/// centre.
pub open spec fn spec_layer(f: Face) -> Seq<int> {
    seq![
        f.corners@[0] as int,
        f.corners@[1] as int,
        f.corners@[2] as int,
        f.corners@[3] as int,
        f.edges@[0] as int,
        f.edges@[1] as int,
        f.edges@[2] as int,
        f.edges@[3] as int,
        f.center as int,
    ]
}

/// The slot whose occupant a turn of `f` moves into slot `i`: corners
/// and edges each advance one step around their cycle; every other slot,
/// the centre included, keeps its occupant.
pub open spec fn turn_src(f: Face, i: int) -> int {
    cyc_src(
        f.corners@[0] as int,
        f.corners@[1] as int,
        f.corners@[2] as int,
        f.corners@[3] as int,
        false,
        cyc_src(
            f.edges@[0] as int,
            f.edges@[1] as int,
            f.edges@[2] as int,
            f.edges@[3] as int,
            false,
            i,
        ),
    )
}

/// The occupancy after one turn of `f`.
pub open spec fn spec_turn(s: Seq<usize>, f: Face) -> Seq<usize> {
    cyc(
        cyc(
            s,
            f.corners@[0] as int,
            f.corners@[1] as int,
            f.corners@[2] as int,
            f.corners@[3] as int,
            false,
        ),
        f.edges@[0] as int,
        f.edges@[1] as int,
        f.edges@[2] as int,
        f.edges@[3] as int,
        false,
    )
}

/// The occupancy after a descriptor is applied once, or twice when the
/// turn is doubled.
pub open spec fn step_occ(p: Seq<usize>, d: Face, dbl: bool) -> Seq<usize> {
    if dbl {
        spec_turn(spec_turn(p, d), d)
    } else {
        spec_turn(p, d)
    }
}

/// The occupants of a layer's nine slots, corners first, then edges,
/// then the centre.
pub open spec fn layer_occ(p: Seq<usize>, d: Face) -> Seq<usize> {
    Seq::new(9, |k: int| p[spec_layer(d)[k]])
}

/// The occupancy is a permutation of the 27 cubies: every slot holds a
/// cubie and no cubie sits in two slots.
pub open spec fn is_permutation(s: Seq<usize>) -> bool {
    &&& s.len() == 27
    &&& forall|i: int| 0 <= i < 27 ==> 0 <= #[trigger] s[i] < 27
    &&& forall|i: int, j: int|
        0 <= i < 27 && 0 <= j < 27 && i != j ==> #[trigger] s[i] != #[trigger] s[j]
}

impl Face {
    /// The nine slots of this layer, corners first, then edges, then
    /// the centre.
    fn layer(&self) -> (r: [usize; 9])
        ensures
            r@.map_values(|v: usize| v as int) == spec_layer(*self),
    {
        let c = &self.corners;
        let e = &self.edges;
        let r = [c[0], c[1], c[2], c[3], e[0], e[1], e[2], e[3], self.center];
        proof {
            assert(r@.map_values(|v: usize| v as int) =~= spec_layer(*self));
        }
        r
    }

    /// This descriptor, read backwards when `rev` is set: the same
    /// layer, turned the other way.
    pub fn reverse(&self, rev: bool) -> (r: Face)
        ensures
            r == reversed(*self, rev),
            face_wf(*self) ==> face_wf(r),
    {
        if !rev {
            *self
        } else {
            let c = &self.corners;
            let e = &self.edges;
            Face {
                corners: [c[0], c[3], c[2], c[1]],
                edges: [e[0], e[3], e[2], e[1]],
                center: self.center,
            }
        }
    }
}

/// The Front face layer.
pub open spec fn front_face() -> Face {
    Face { corners: [0, 6, 8, 2], edges: [1, 3, 7, 5], center: 4 }
}

/// The Front face layer.
pub fn front() -> (r: Face)
    ensures
        r == front_face(),
        face_wf(r),
{
    let r = Face { corners: [0, 6, 8, 2], edges: [1, 3, 7, 5], center: 4 };
    proof {
        assert(r.corners@ =~= front_face().corners@);
        assert(r.edges@ =~= front_face().edges@);
    }
    r
}

/// The Back face layer.
pub open spec fn back_face() -> Face {
    Face { corners: [18, 20, 26, 24], edges: [19, 23, 25, 21], center: 22 }
}

/// The Back face layer.
pub fn back() -> (r: Face)
    ensures
        r == back_face(),
        face_wf(r),
{
    let r = Face { corners: [18, 20, 26, 24], edges: [19, 23, 25, 21], center: 22 };
    proof {
        assert(r.corners@ =~= back_face().corners@);
        assert(r.edges@ =~= back_face().edges@);
    }
    r
}

/// The Up face layer.
pub open spec fn up_face() -> Face {
    Face { corners: [18, 0, 2, 20], edges: [19, 9, 1, 11], center: 10 }
}

/// The Up face layer.
pub fn up() -> (r: Face)
    ensures
        r == up_face(),
        face_wf(r),
{
    let r = Face { corners: [18, 0, 2, 20], edges: [19, 9, 1, 11], center: 10 };
    proof {
        assert(r.corners@ =~= up_face().corners@);
        assert(r.edges@ =~= up_face().edges@);
    }
    r
}

/// The Down face layer.
pub open spec fn down_face() -> Face {
    Face { corners: [24, 26, 8, 6], edges: [25, 17, 7, 15], center: 16 }
}

/// The Down face layer.
pub fn down() -> (r: Face)
    ensures
        r == down_face(),
        face_wf(r),
{
    let r = Face { corners: [24, 26, 8, 6], edges: [25, 17, 7, 15], center: 16 };
    proof {
        assert(r.corners@ =~= down_face().corners@);
        assert(r.edges@ =~= down_face().edges@);
    }
    r
}

/// The Left face layer.
pub open spec fn left_face() -> Face {
    Face { corners: [18, 24, 6, 0], edges: [21, 15, 3, 9], center: 12 }
}

/// The Left face layer.
pub fn left() -> (r: Face)
    ensures
        r == left_face(),
        face_wf(r),
{
    let r = Face { corners: [18, 24, 6, 0], edges: [21, 15, 3, 9], center: 12 };
    proof {
        assert(r.corners@ =~= left_face().corners@);
        assert(r.edges@ =~= left_face().edges@);
    }
    r
}

/// The Right face layer.
pub open spec fn right_face() -> Face {
    Face { corners: [20, 2, 8, 26], edges: [23, 11, 5, 17], center: 14 }
}

/// The Right face layer.
pub fn right() -> (r: Face)
    ensures
        r == right_face(),
        face_wf(r),
{
    let r = Face { corners: [20, 2, 8, 26], edges: [23, 11, 5, 17], center: 14 };
    proof {
        assert(r.corners@ =~= right_face().corners@);
        assert(r.edges@ =~= right_face().edges@);
    }
    r
}

/// The Middle slice layer, between Left and Right.
pub open spec fn middle_face() -> Face {
    Face { corners: [1, 19, 25, 7], edges: [4, 10, 22, 16], center: 13 }
}

/// The Middle slice layer, between Left and Right.
pub fn middle() -> (r: Face)
    ensures
        r == middle_face(),
        face_wf(r),
{
    let r = Face { corners: [1, 19, 25, 7], edges: [4, 10, 22, 16], center: 13 };
    proof {
        assert(r.corners@ =~= middle_face().corners@);
        assert(r.edges@ =~= middle_face().edges@);
    }
    r
}

/// The Equator slice layer, between Up and Down.
pub open spec fn equator_face() -> Face {
    Face { corners: [5, 3, 21, 23], edges: [4, 12, 22, 14], center: 13 }
}

/// The Equator slice layer, between Up and Down.
pub fn equator() -> (r: Face)
    ensures
        r == equator_face(),
        face_wf(r),
{
    let r = Face { corners: [5, 3, 21, 23], edges: [4, 12, 22, 14], center: 13 };
    proof {
        assert(r.corners@ =~= equator_face().corners@);
        assert(r.edges@ =~= equator_face().edges@);
    }
    r
}

/// The Standing slice layer, between Front and Back.
pub open spec fn standing_face() -> Face {
    Face { corners: [11, 9, 15, 17], edges: [10, 12, 16, 14], center: 13 }
}

/// The Standing slice layer, between Front and Back.
pub fn standing() -> (r: Face)
    ensures
        r == standing_face(),
        face_wf(r),
{
    let r = Face { corners: [11, 9, 15, 17], edges: [10, 12, 16, 14], center: 13 };
    proof {
        assert(r.corners@ =~= standing_face().corners@);
        assert(r.edges@ =~= standing_face().edges@);
    }
    r
}

/// All nine layer descriptors are well formed, reversed or not.
pub proof fn lemma_desc_wf()
    ensures
        face_wf(front_face()),
        face_wf(back_face()),
        face_wf(up_face()),
        face_wf(down_face()),
        face_wf(left_face()),
        face_wf(right_face()),
        face_wf(middle_face()),
        face_wf(equator_face()),
        face_wf(standing_face()),
{
}

/// A descriptor read under a reverse flag stays well formed.
pub proof fn lemma_reversed_wf(f: Face, rev: bool)
    requires
        face_wf(f),
    ensures
        face_wf(reversed(f, rev)),
{
    if rev {
        lemma_reverse_wf(f);
    }
}

/// The piece-position state: which cubie occupies each of the 27 slots.
pub struct Layout {
    layout: [usize; 27],
}

impl View for Layout {
    type V = Seq<usize>;

    closed spec fn view(&self) -> Seq<usize> {
        self.layout@
    }
}

impl Layout {
    /// Builds the initial occupancy: every cubie in its home slot.
    pub fn new() -> (r: Layout)
        ensures
            r@ == Seq::new(27, |i: int| i as usize),
            is_permutation(r@),
    {
        let mut layout: [usize; 27] = [0; 27];
        let mut i: usize = 0;
        while i < 27
            invariant
                i <= 27,
                forall|j: int| 0 <= j < i ==> #[trigger] layout@[j] == j as usize,
            decreases 27 - i,
        {
            layout[i] = i;
            i += 1;
        }
        proof {
            assert(layout@ =~= Seq::new(27, |i: int| i as usize));
        }
        Layout { layout }
    }

    /// The cubie currently occupying slot `i`.
    pub fn at(&self, i: usize) -> (r: usize)
        requires
            i < 27,
        ensures
            r == self@[i as int],
    {
        self.layout[i]
    }

    /// Whether the two occupancies agree on every slot.
    pub fn same_as(&self, other: &Layout) -> (r: bool)
        ensures
            r == (self@ == other@),
    {
        let mut i: usize = 0;
        while i < 27
            invariant
                i <= 27,
                forall|j: int| 0 <= j < i ==> self@[j] == other@[j],
            decreases 27 - i,
        {
            if self.layout[i] != other.layout[i] {
                return false;
            }
            i += 1;
        }
        proof {
            assert(self@ =~= other@);
        }
        true
    }

    /// Turns the layer described by `face`: its corner cycle and its
    /// edge cycle each advance one step; the centre slot and all slots
    /// outside the layer keep their occupants.
    pub fn turn(&mut self, face: &Face)
        requires
            face_wf(*face),
        ensures
            final(self)@ == spec_turn(old(self)@, *face),
    {
        let c = &face.corners;
        let e = &face.edges;
        apply_cycle(&mut self.layout, c[0], c[1], c[2], c[3], false);
        apply_cycle(&mut self.layout, e[0], e[1], e[2], e[3], false);
    }

    /// The cubies currently occupying the nine slots of the layer,
    /// corners first, then edges, then the centre.
    pub fn layer(&self, face: &Face) -> (out: [usize; 9])
        requires
            face_wf(*face),
        ensures
            forall|k: int| 0 <= k < 9 ==> #[trigger] out@[k] == self@[spec_layer(*face)[k]],
    {
        let f = face.layer();
        let mut out: [usize; 9] = [0; 9];
        let mut i: usize = 0;
        while i < 9
            invariant
                i <= 9,
                forall|k: int| 0 <= k < 9 ==> 0 <= #[trigger] f@[k] < 27,
                f@.map_values(|v: usize| v as int) == spec_layer(*face),
                forall|k: int| 0 <= k < i ==> #[trigger] out@[k] == self@[spec_layer(*face)[k]],
            decreases 9 - i,
        {
            proof {
                assert(spec_layer(*face)[i as int] == f@[i as int] as int);
            }
            let slot = f[i];
            out[i] = self.layout[slot];
            proof {
                assert(out@[i as int] == self@[spec_layer(*face)[i as int]]);
            }
            i += 1;
        }
        out
    }
}

/// A turn keeps 27 slots and moves each occupant along the source map.
pub proof fn lemma_turn_pointwise(s: Seq<usize>, f: Face)
    requires
        s.len() == 27,
        face_wf(f),
    ensures
        spec_turn(s, f).len() == 27,
        forall|i: int| 0 <= i < 27 ==> #[trigger] spec_turn(s, f)[i] == s[turn_src(f, i)],
        forall|i: int| 0 <= i < 27 ==> 0 <= #[trigger] turn_src(f, i) < 27,
{
}

/// Law: a turn of any layer keeps the occupancy a permutation: still no
/// empty and no duplicated slot.
pub proof fn lemma_turn_permutation(s: Seq<usize>, f: Face)
    requires
        is_permutation(s),
        face_wf(f),
    ensures
        is_permutation(spec_turn(s, f)),
{
    lemma_turn_pointwise(s, f);
    let t = spec_turn(s, f);
    assert forall|i: int, j: int| 0 <= i < 27 && 0 <= j < 27 && i != j implies #[trigger] t[i]
        != #[trigger] t[j] by {
        if turn_src(f, i) == turn_src(f, j) {
            lemma_turn_src_injective(f, i, j);
        }
    }
}

/// The source map of a turn never sends two slots to one.
proof fn lemma_turn_src_injective(f: Face, i: int, j: int)
    requires
        face_wf(f),
        0 <= i < 27,
        0 <= j < 27,
        turn_src(f, i) == turn_src(f, j),
    ensures
        i == j,
{
}

/// Law: turning the same layer four times restores every occupant.
pub proof fn lemma_turn_four(s: Seq<usize>, f: Face)
    requires
        s.len() == 27,
        face_wf(f),
    ensures
        spec_turn(spec_turn(spec_turn(spec_turn(s, f), f), f), f) == s,
{
    let t1 = spec_turn(s, f);
    let t2 = spec_turn(t1, f);
    let t3 = spec_turn(t2, f);
    let t4 = spec_turn(t3, f);
    lemma_turn_pointwise(s, f);
    lemma_turn_pointwise(t1, f);
    lemma_turn_pointwise(t2, f);
    lemma_turn_pointwise(t3, f);
    assert forall|i: int| 0 <= i < 27 implies t4[i] == s[i] by {
        lemma_turn_src_four(f, i);
    }
    assert(t4 =~= s);
}

/// Four steps of a turn's source map are the identity.
proof fn lemma_turn_src_four(f: Face, i: int)
    requires
        face_wf(f),
        0 <= i < 27,
    ensures
        turn_src(f, turn_src(f, turn_src(f, turn_src(f, i)))) == i,
{
}

/// Law: turning a layer and then turning its reversed descriptor
/// restores every occupant, whichever came first.
pub proof fn lemma_turn_reverse_inverse(s: Seq<usize>, f: Face)
    requires
        s.len() == 27,
        face_wf(f),
    ensures
        spec_turn(spec_turn(s, f), spec_reverse(f)) == s,
        spec_turn(spec_turn(s, spec_reverse(f)), f) == s,
{
    lemma_reverse_wf(f);
    let t1 = spec_turn(s, f);
    let t = spec_turn(t1, spec_reverse(f));
    let u1 = spec_turn(s, spec_reverse(f));
    let u = spec_turn(u1, f);
    lemma_turn_pointwise(s, f);
    lemma_turn_pointwise(t1, spec_reverse(f));
    lemma_turn_pointwise(s, spec_reverse(f));
    lemma_turn_pointwise(u1, f);
    assert forall|i: int| 0 <= i < 27 implies t[i] == s[i] && u[i] == s[i] by {
        lemma_turn_src_reverse(f, i);
        lemma_turn_src_reverse(f, turn_src(f, i));
    }
    assert(t =~= s);
    assert(u =~= s);
}

/// Reversing a descriptor keeps it well formed.
pub proof fn lemma_reverse_wf(f: Face)
    requires
        face_wf(f),
    ensures
        face_wf(spec_reverse(f)),
{
}

/// Law: reversing a descriptor twice gives the descriptor back, and
/// reversing never changes which slots the layer holds.
pub proof fn lemma_reverse_involution(f: Face)
    ensures
        spec_reverse(spec_reverse(f)) == f,
        spec_layer(spec_reverse(f)).to_set() == spec_layer(f).to_set(),
{
    let g = spec_reverse(spec_reverse(f));
    assert(g.corners@ =~= f.corners@);
    assert(g.edges@ =~= f.edges@);
    assert(g.corners == f.corners);
    assert(g.edges == f.edges);
    let a = spec_layer(f);
    let b = spec_layer(spec_reverse(f));
    assert forall|x: int| a.to_set().contains(x) implies b.to_set().contains(x) by {
        let k = choose|k: int| 0 <= k < a.len() && a[k] == x;
        if k == 1 {
            assert(b[3] == x);
        } else if k == 3 {
            assert(b[1] == x);
        } else if k == 5 {
            assert(b[7] == x);
        } else if k == 7 {
            assert(b[5] == x);
        } else {
            assert(b[k] == x);
        }
    }
    assert forall|x: int| b.to_set().contains(x) implies a.to_set().contains(x) by {
        let k = choose|k: int| 0 <= k < b.len() && b[k] == x;
        if k == 1 {
            assert(a[3] == x);
        } else if k == 3 {
            assert(a[1] == x);
        } else if k == 5 {
            assert(a[7] == x);
        } else if k == 7 {
            assert(a[5] == x);
        } else {
            assert(a[k] == x);
        }
    }
    assert(a.to_set() =~= b.to_set());
}

/// The source map of the reversed descriptor undoes the source map of
/// the descriptor, in both orders.
proof fn lemma_turn_src_reverse(f: Face, i: int)
    requires
        face_wf(f),
        0 <= i < 27,
    ensures
        turn_src(spec_reverse(f), turn_src(f, i)) == i,
        turn_src(f, turn_src(spec_reverse(f), i)) == i,
{
}

} // verus!
