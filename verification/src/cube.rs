//! The turn algebra and the animation scheduler.
//!
//! A [`Cube`] couples the facelet state and the piece-position state and
//! mutates both through every turn, so the two can never drift apart.  A
//! move is one of the six faces, the three slices or the three
//! whole-cube axes, with a reverse and a double flag.  Issuing a move
//! updates the logical state at once and leaves behind a single pending
//! animation: the affected cubies, the rotation axis and direction, and
//! a tick countdown.  While one is pending, further moves are dropped;
//! the per-tick spatial interpolation itself is floating-point work and
//! belongs to the caller, which is handed the plain description each
//! tick.

use vstd::prelude::*;
use crate::layout;
use crate::layout::face_wf;
use crate::layout::layer_occ;
use crate::layout::reversed;
use crate::layout::spec_layer;
use crate::layout::spec_turn;
use crate::layout::step_occ;
use crate::stickers;
use crate::stickers::Sticker;
use crate::stickers::spec_face_turn;
use crate::stickers::spec_rotate;
use crate::stickers::spec_slice_turn;
use crate::table::Face;
use crate::table::Rotate;
use crate::table::Slice;
use crate::table::fidx;

verus! {

/// One move selector: a face, a slice, or a whole-cube axis.
#[derive(Copy, Clone, Debug, PartialEq, Eq, Structural)]
pub enum Turn {
    Up,
    Down,
    Left,
    Right,
    Front,
    Back,
    Middle,
    Equator,
    Standing,
    X,
    Y,
    Z,
}

/// A spatial axis of the rendered scene, for the animation direction.
#[derive(Copy, Clone, Debug, PartialEq, Eq, Structural)]
pub enum Axis {
    X,
    Y,
    Z,
}

/// The facelet state after a single application of a move.
pub open spec fn spec_move_stickers(s: Seq<Sticker>, t: Turn, rev: bool) -> Seq<Sticker> {
    match t {
        Turn::Up => spec_face_turn(s, Face::Up, rev),
        Turn::Down => spec_face_turn(s, Face::Down, rev),
        Turn::Left => spec_face_turn(s, Face::Left, rev),
        Turn::Right => spec_face_turn(s, Face::Right, rev),
        Turn::Front => spec_face_turn(s, Face::Front, rev),
        Turn::Back => spec_face_turn(s, Face::Back, rev),
        Turn::Middle => spec_slice_turn(s, Slice::Middle, rev),
        Turn::Equator => spec_slice_turn(s, Slice::Equator, rev),
        Turn::Standing => spec_slice_turn(s, Slice::Standing, rev),
        Turn::X => spec_rotate(s, Rotate::X, rev),
        Turn::Y => spec_rotate(s, Rotate::Y, rev),
        Turn::Z => spec_rotate(s, Rotate::Z, rev),
    }
}

/// The facelet state after a move, applied twice when doubled.
pub open spec fn spec_apply_stickers(s: Seq<Sticker>, t: Turn, rev: bool, dbl: bool) -> Seq<
    Sticker,
> {
    if dbl {
        spec_move_stickers(spec_move_stickers(s, t, rev), t, rev)
    } else {
        spec_move_stickers(s, t, rev)
    }
}

/// The layer descriptors a move resolves to, in application order: one
/// for a plain face or slice move, and for a whole-cube axis the slice
/// and the two parallel faces, each read in the direction that makes the
/// three layers travel together.
pub open spec fn move_descs(t: Turn, rev: bool) -> Seq<layout::Face> {
    match t {
        Turn::Up => seq![reversed(layout::up_face(), rev)],
        Turn::Down => seq![reversed(layout::down_face(), rev)],
        Turn::Left => seq![reversed(layout::left_face(), rev)],
        Turn::Right => seq![reversed(layout::right_face(), rev)],
        Turn::Front => seq![reversed(layout::front_face(), rev)],
        Turn::Back => seq![reversed(layout::back_face(), rev)],
        Turn::Middle => seq![reversed(layout::middle_face(), rev)],
        Turn::Equator => seq![reversed(layout::equator_face(), rev)],
        Turn::Standing => seq![reversed(layout::standing_face(), rev)],
        Turn::X => seq![
            reversed(layout::middle_face(), !rev),
            reversed(layout::left_face(), !rev),
            reversed(layout::right_face(), rev),
        ],
        Turn::Y => seq![
            reversed(layout::equator_face(), !rev),
            reversed(layout::up_face(), rev),
            reversed(layout::down_face(), !rev),
        ],
        Turn::Z => seq![
            reversed(layout::standing_face(), rev),
            reversed(layout::back_face(), !rev),
            reversed(layout::front_face(), rev),
        ],
    }
}

/// The piece occupancy after a move: each resolved descriptor turned
/// once, or twice when doubled, in order.
pub open spec fn spec_apply_pieces(p: Seq<usize>, t: Turn, rev: bool, dbl: bool) -> Seq<usize> {
    let ds = move_descs(t, rev);
    if ds.len() == 1 {
        step_occ(p, ds[0], dbl)
    } else {
        step_occ(step_occ(step_occ(p, ds[0], dbl), ds[1], dbl), ds[2], dbl)
    }
}

/// The cubies a move sets in motion: the occupants of each turned
/// layer, read right after that layer's descriptor was applied.
pub open spec fn spec_affected(p: Seq<usize>, t: Turn, rev: bool, dbl: bool) -> Seq<usize> {
    let ds = move_descs(t, rev);
    if ds.len() == 1 {
        layer_occ(step_occ(p, ds[0], dbl), ds[0])
    } else {
        let p0 = step_occ(p, ds[0], dbl);
        let p1 = step_occ(p0, ds[1], dbl);
        let p2 = step_occ(p1, ds[2], dbl);
        layer_occ(p0, ds[0]) + layer_occ(p1, ds[1]) + layer_occ(p2, ds[2])
    }
}

/// The scene axis a move rotates about.
pub open spec fn move_axis(t: Turn) -> Axis {
    match t {
        Turn::Up => Axis::Z,
        Turn::Down => Axis::Z,
        Turn::Left => Axis::X,
        Turn::Right => Axis::X,
        Turn::Front => Axis::Y,
        Turn::Back => Axis::Y,
        Turn::Middle => Axis::X,
        Turn::Equator => Axis::Z,
        Turn::Standing => Axis::Y,
        Turn::X => Axis::X,
        Turn::Y => Axis::Z,
        Turn::Z => Axis::Y,
    }
}

/// Whether a forward move rotates negatively about its scene axis; the
/// reverse flag flips it.
pub open spec fn move_neg(t: Turn) -> bool {
    match t {
        Turn::Up => false,
        Turn::Down => true,
        Turn::Left => false,
        Turn::Right => true,
        Turn::Front => true,
        Turn::Back => false,
        Turn::Middle => false,
        Turn::Equator => true,
        Turn::Standing => true,
        Turn::X => true,
        Turn::Y => false,
        Turn::Z => true,
    }
}

/// The single in-flight animation: which cubies move, about which axis
/// and in which direction, how many ticks one quarter turn takes, and
/// how many ticks are still to run.
pub struct TurnProgress {
    /// The cubies in motion.
    pub pieces: Vec<usize>,
    /// The scene axis of the rotation.
    pub axis: Axis,
    /// Whether the rotation is negative about that axis.
    pub neg: bool,
    /// Ticks for one quarter turn: each tick advances by a quarter turn
    /// divided by this.
    pub denom: usize,
    /// Ticks still to run before the animation settles.
    pub steps: usize,
}

/// What the caller must apply on one tick: rotate each listed cubie's
/// transform by a quarter turn divided by `denom` about `axis`, negated
/// when `neg` is set.
pub struct TickStep {
    /// The cubies in motion.
    pub pieces: Vec<usize>,
    /// The scene axis of the rotation.
    pub axis: Axis,
    /// Whether the rotation is negative about that axis.
    pub neg: bool,
    /// Ticks for one quarter turn.
    pub denom: usize,
}

/// The cube engine: both logical state models plus the scheduler.
pub struct Cube {
    stickers: stickers::Layout,
    layout: layout::Layout,
    turn: Option<TurnProgress>,
}

impl Cube {
    /// The facelet state.
    pub closed spec fn stickers_view(&self) -> Seq<Sticker> {
        self.stickers@
    }

    /// The piece occupancy.
    pub closed spec fn pieces_view(&self) -> Seq<usize> {
        self.layout@
    }

    /// Whether a turn is still settling visually.
    pub closed spec fn animating(&self) -> bool {
        self.turn is Some
    }

    /// Remaining ticks of the pending animation, zero when idle.
    pub closed spec fn anim_steps(&self) -> int {
        match self.turn {
            Some(tp) => tp.steps as int,
            None => 0,
        }
    }

    /// The cubies the pending animation moves.
    pub closed spec fn anim_pieces(&self) -> Seq<usize> {
        match self.turn {
            Some(tp) => tp.pieces@,
            None => Seq::empty(),
        }
    }

    /// The axis of the pending animation.
    pub closed spec fn anim_axis(&self) -> Axis {
        match self.turn {
            Some(tp) => tp.axis,
            None => Axis::X,
        }
    }

    /// The direction of the pending animation.
    pub closed spec fn anim_neg(&self) -> bool {
        match self.turn {
            Some(tp) => tp.neg,
            None => false,
        }
    }

    /// Ticks per quarter turn of the pending animation.
    pub closed spec fn anim_denom(&self) -> int {
        match self.turn {
            Some(tp) => tp.denom as int,
            None => 0,
        }
    }

    /// Builds a cube in the solved arrangement, idle.
    pub fn new() -> (r: Cube)
        ensures
            r.stickers_view() == stickers::solved_layout(),
            r.pieces_view() == Seq::new(27, |i: int| i as usize),
            !r.animating(),
    {
        Cube { stickers: stickers::Layout::new(), layout: layout::Layout::new(), turn: None }
    }

    /// True exactly when every face shows a single colour.
    pub fn solved(&self) -> (r: bool)
        ensures
            r == stickers::is_solved(self.stickers_view()),
    {
        self.stickers.solved()
    }

    /// The colour currently at facelet `p` of face `f`.
    pub fn sticker(&self, f: Face, p: usize) -> (r: Sticker)
        requires
            p < 9,
        ensures
            r == self.stickers_view()[fidx(f, p as int)],
    {
        self.stickers.sticker(f, p)
    }

    /// The cubie currently occupying slot `i`.
    pub fn piece_at(&self, i: usize) -> (r: usize)
        requires
            i < 27,
        ensures
            r == self.pieces_view()[i as int],
    {
        self.layout.at(i)
    }

    /// Whether a turn is still settling visually.
    pub fn is_animating(&self) -> (r: bool)
        ensures
            r == self.animating(),
    {
        self.turn.is_some()
    }

    /// Applies one move to the facelet state and reports the animation
    /// axis and forward direction; the piece state and the scheduler are
    /// untouched.
    fn turn_inner(&mut self, turn: Turn, rev: bool) -> (r: (Axis, bool))
        ensures
            final(self).stickers_view() == spec_move_stickers(old(self).stickers_view(), turn, rev),
            final(self).pieces_view() == old(self).pieces_view(),
            final(self).turn == old(self).turn,
            r.0 == move_axis(turn),
            r.1 == move_neg(turn),
    {
        match turn {
            Turn::Up => {
                self.stickers.face(Face::Up, rev);
                (Axis::Z, false)
            },
            Turn::Down => {
                self.stickers.face(Face::Down, rev);
                (Axis::Z, true)
            },
            Turn::Left => {
                self.stickers.face(Face::Left, rev);
                (Axis::X, false)
            },
            Turn::Right => {
                self.stickers.face(Face::Right, rev);
                (Axis::X, true)
            },
            Turn::Front => {
                self.stickers.face(Face::Front, rev);
                (Axis::Y, true)
            },
            Turn::Back => {
                self.stickers.face(Face::Back, rev);
                (Axis::Y, false)
            },
            Turn::Middle => {
                self.stickers.slice(Slice::Middle, rev);
                (Axis::X, false)
            },
            Turn::Equator => {
                self.stickers.slice(Slice::Equator, rev);
                (Axis::Z, true)
            },
            Turn::Standing => {
                self.stickers.slice(Slice::Standing, rev);
                (Axis::Y, true)
            },
            Turn::X => {
                self.stickers.rotate(Rotate::X, rev);
                (Axis::X, true)
            },
            Turn::Y => {
                self.stickers.rotate(Rotate::Y, rev);
                (Axis::Z, false)
            },
            Turn::Z => {
                self.stickers.rotate(Rotate::Z, rev);
                (Axis::Y, true)
            },
        }
    }

    /// Turns the layer of one descriptor, twice when doubled, and
    /// appends the occupants of that layer to the moving set.
    fn run_desc(&mut self, d: &layout::Face, dbl: bool, pieces: &mut Vec<usize>)
        requires
            face_wf(*d),
        ensures
            final(self).pieces_view() == step_occ(old(self).pieces_view(), *d, dbl),
            final(self).stickers_view() == old(self).stickers_view(),
            final(self).turn == old(self).turn,
            final(pieces)@ == old(pieces)@ + layer_occ(
                step_occ(old(self).pieces_view(), *d, dbl),
                *d,
            ),
    {
        self.layout.turn(d);
        if dbl {
            self.layout.turn(d);
        }
        let occupants = self.layout.layer(d);
        let mut k: usize = 0;
        while k < 9
            invariant
                k <= 9,
                forall|j: int|
                    0 <= j < 9 ==> #[trigger] occupants@[j] == self.pieces_view()[spec_layer(
                        *d,
                    )[j]],
                pieces@ == old(pieces)@ + Seq::new(k as nat, |j: int| occupants@[j]),
            decreases 9 - k,
        {
            pieces.push(occupants[k]);
            proof {
                assert(pieces@ =~= old(pieces)@ + Seq::new(k as nat + 1, |j: int| occupants@[j]));
            }
            k += 1;
        }
        proof {
            assert(Seq::new(9, |j: int| occupants@[j]) =~= layer_occ(self.pieces_view(), *d));
        }
    }

    /// Issues one move: if a turn is already settling the request is
    /// dropped and nothing changes; otherwise both state models are
    /// updated at once and the animation is scheduled.  `speed` sets the
    /// pace: one quarter turn settles over `101 - speed` ticks.
    #[verifier::rlimit(100)]
    #[verifier::spinoff_prover]
    pub fn turn(&mut self, turn: Turn, speed: usize, rev: bool, double: bool)
        requires
            speed <= 100,
        ensures
            old(self).animating() ==> *final(self) == *old(self),
            !old(self).animating() ==> final(self).stickers_view() == spec_apply_stickers(
                old(self).stickers_view(),
                turn,
                rev,
                double,
            ),
            !old(self).animating() ==> final(self).pieces_view() == spec_apply_pieces(
                old(self).pieces_view(),
                turn,
                rev,
                double,
            ),
            !old(self).animating() ==> final(self).animating(),
            !old(self).animating() ==> final(self).anim_pieces() == spec_affected(
                old(self).pieces_view(),
                turn,
                rev,
                double,
            ),
            !old(self).animating() ==> final(self).anim_axis() == move_axis(turn),
            !old(self).animating() ==> final(self).anim_neg() == (move_neg(turn) != rev),
            !old(self).animating() ==> final(self).anim_denom() == 101 - speed,
            !old(self).animating() ==> final(self).anim_steps() == if double {
                2 * (101 - speed)
            } else {
                (101 - speed) as int
            },
    {
        if self.turn.is_some() {
            return ;
        }
        let (axis, base_neg) = self.turn_inner(turn, rev);
        if double {
            self.turn_inner(turn, rev);
        }
        let neg = if rev {
            !base_neg
        } else {
            base_neg
        };
        let mut pieces: Vec<usize> = Vec::new();
        match turn {
            Turn::Up => self.run_desc(&layout::up().reverse(rev), double, &mut pieces),
            Turn::Down => self.run_desc(&layout::down().reverse(rev), double, &mut pieces),
            Turn::Left => self.run_desc(&layout::left().reverse(rev), double, &mut pieces),
            Turn::Right => self.run_desc(&layout::right().reverse(rev), double, &mut pieces),
            Turn::Front => self.run_desc(&layout::front().reverse(rev), double, &mut pieces),
            Turn::Back => self.run_desc(&layout::back().reverse(rev), double, &mut pieces),
            Turn::Middle => self.run_desc(&layout::middle().reverse(rev), double, &mut pieces),
            Turn::Equator => self.run_desc(&layout::equator().reverse(rev), double, &mut pieces),
            Turn::Standing => self.run_desc(&layout::standing().reverse(rev), double, &mut pieces),
            Turn::X => {
                proof {
                    layout::lemma_reverse_wf(layout::middle_face());
                    layout::lemma_reverse_wf(layout::left_face());
                    layout::lemma_reverse_wf(layout::right_face());
                }
                self.run_desc(&layout::middle().reverse(!rev), double, &mut pieces);
                self.run_desc(&layout::left().reverse(!rev), double, &mut pieces);
                self.run_desc(&layout::right().reverse(rev), double, &mut pieces);
            },
            Turn::Y => {
                proof {
                    layout::lemma_reverse_wf(layout::equator_face());
                    layout::lemma_reverse_wf(layout::up_face());
                    layout::lemma_reverse_wf(layout::down_face());
                }
                self.run_desc(&layout::equator().reverse(!rev), double, &mut pieces);
                self.run_desc(&layout::up().reverse(rev), double, &mut pieces);
                self.run_desc(&layout::down().reverse(!rev), double, &mut pieces);
            },
            Turn::Z => {
                proof {
                    layout::lemma_reverse_wf(layout::standing_face());
                    layout::lemma_reverse_wf(layout::back_face());
                    layout::lemma_reverse_wf(layout::front_face());
                }
                self.run_desc(&layout::standing().reverse(rev), double, &mut pieces);
                self.run_desc(&layout::back().reverse(!rev), double, &mut pieces);
                self.run_desc(&layout::front().reverse(rev), double, &mut pieces);
            },
        }
        let denom = 101 - speed;
        let steps = if double {
            2 * denom
        } else {
            denom
        };
        self.turn = Some(TurnProgress { pieces, axis, neg, denom, steps });
    }

    /// A fresh copy of the cubies the pending animation moves.
    fn copy_pieces(&self) -> (r: Vec<usize>)
        requires
            self.animating(),
        ensures
            r@ == self.anim_pieces(),
    {
        match &self.turn {
            Some(tp) => {
                let mut r: Vec<usize> = Vec::new();
                let mut k: usize = 0;
                let n = tp.pieces.len();
                while k < n
                    invariant
                        k <= n,
                        n == tp.pieces.len(),
                        r@ == tp.pieces@.take(k as int),
                    decreases n - k,
                {
                    r.push(tp.pieces[k]);
                    proof {
                        assert(r@ =~= tp.pieces@.take(k as int + 1));
                    }
                    k += 1;
                }
                proof {
                    assert(tp.pieces@.take(n as int) =~= tp.pieces@);
                }
                r
            },
            None => unreached(),
        }
    }

    /// Advances the pending animation by one tick.  When idle, nothing
    /// happens.  Otherwise the returned step tells the caller what to
    /// rotate this tick; the logical state never changes, and when the
    /// countdown reaches zero the scheduler returns to idle.
    pub fn tick_turn(&mut self) -> (r: Option<TickStep>)
        ensures
            !old(self).animating() ==> *final(self) == *old(self) && r is None,
            old(self).animating() ==> r is Some,
            old(self).animating() ==> r->0.pieces@ == old(self).anim_pieces(),
            old(self).animating() ==> r->0.axis == old(self).anim_axis(),
            old(self).animating() ==> r->0.neg == old(self).anim_neg(),
            old(self).animating() ==> r->0.denom as int == old(self).anim_denom(),
            final(self).stickers_view() == old(self).stickers_view(),
            final(self).pieces_view() == old(self).pieces_view(),
            old(self).animating() && old(self).anim_steps() > 1 ==> final(self).animating(),
            old(self).animating() && old(self).anim_steps() > 1 ==> final(self).anim_steps() == old(
                self,
            ).anim_steps() - 1,
            old(self).animating() && old(self).anim_steps() > 1 ==> final(self).anim_pieces()
                == old(self).anim_pieces(),
            old(self).animating() && old(self).anim_steps() > 1 ==> final(self).anim_axis() == old(
                self,
            ).anim_axis(),
            old(self).animating() && old(self).anim_steps() > 1 ==> final(self).anim_neg() == old(
                self,
            ).anim_neg(),
            old(self).animating() && old(self).anim_steps() > 1 ==> final(self).anim_denom()
                == old(self).anim_denom(),
            old(self).animating() && old(self).anim_steps() <= 1 ==> !final(self).animating(),
    {
        let (axis, neg, denom, steps_left) = match &self.turn {
            Some(tp) => (tp.axis, tp.neg, tp.denom, tp.steps),
            None => {
                return None;
            },
        };
        let step_pieces = self.copy_pieces();
        let step = TickStep { pieces: step_pieces, axis, neg, denom };
        if steps_left <= 1 {
            self.turn = None;
        } else {
            let keep = self.copy_pieces();
            self.turn = Some(
                TurnProgress { pieces: keep, axis, neg, denom, steps: steps_left - 1 },
            );
        }
        Some(step)
    }
}

/// Law: any move followed by the same move reversed restores every
/// facelet of the sticker state.
pub proof fn lemma_move_inverse_stickers(s: Seq<Sticker>, t: Turn, rev: bool)
    requires
        s.len() == 54,
    ensures
        spec_move_stickers(spec_move_stickers(s, t, rev), t, !rev) == s,
{
    match t {
        Turn::Up => stickers::lemma_face_turn_inverse(s, Face::Up, rev),
        Turn::Down => stickers::lemma_face_turn_inverse(s, Face::Down, rev),
        Turn::Left => stickers::lemma_face_turn_inverse(s, Face::Left, rev),
        Turn::Right => stickers::lemma_face_turn_inverse(s, Face::Right, rev),
        Turn::Front => stickers::lemma_face_turn_inverse(s, Face::Front, rev),
        Turn::Back => stickers::lemma_face_turn_inverse(s, Face::Back, rev),
        Turn::Middle => stickers::lemma_slice_turn_inverse(s, Slice::Middle, rev),
        Turn::Equator => stickers::lemma_slice_turn_inverse(s, Slice::Equator, rev),
        Turn::Standing => stickers::lemma_slice_turn_inverse(s, Slice::Standing, rev),
        Turn::X => stickers::lemma_rotate_inverse(s, Rotate::X, rev),
        Turn::Y => stickers::lemma_rotate_inverse(s, Rotate::Y, rev),
        Turn::Z => stickers::lemma_rotate_inverse(s, Rotate::Z, rev),
    }
}

#[verifier::rlimit(90)]
#[verifier::spinoff_prover]
proof fn lemma_inverse_pieces_x_f(p: Seq<usize>)
    requires
        p.len() == 27,
    ensures
        spec_apply_pieces(spec_apply_pieces(p, Turn::X, false, false), Turn::X, !false, false)
            == p,
{
    layout::lemma_desc_wf();
    layout::lemma_reversed_wf(layout::middle_face(), true);
    layout::lemma_reversed_wf(layout::middle_face(), false);
    layout::lemma_reversed_wf(layout::left_face(), true);
    layout::lemma_reversed_wf(layout::left_face(), false);
    layout::lemma_reversed_wf(layout::right_face(), false);
    layout::lemma_reversed_wf(layout::right_face(), true);
    let p1 = spec_turn(p, reversed(layout::middle_face(), true));
    let p2 = spec_turn(p1, reversed(layout::left_face(), true));
    let p3 = spec_turn(p2, reversed(layout::right_face(), false));
    let q1 = spec_turn(p3, reversed(layout::middle_face(), false));
    let q2 = spec_turn(q1, reversed(layout::left_face(), false));
    let q3 = spec_turn(q2, reversed(layout::right_face(), true));
    layout::lemma_turn_pointwise(p, reversed(layout::middle_face(), true));
    layout::lemma_turn_pointwise(p1, reversed(layout::left_face(), true));
    layout::lemma_turn_pointwise(p2, reversed(layout::right_face(), false));
    layout::lemma_turn_pointwise(p3, reversed(layout::middle_face(), false));
    layout::lemma_turn_pointwise(q1, reversed(layout::left_face(), false));
    layout::lemma_turn_pointwise(q2, reversed(layout::right_face(), true));
    assert forall|i: int| 0 <= i < 27 implies q3[i] == p[i] by {}
    assert(q3 =~= p);
}

#[verifier::rlimit(90)]
#[verifier::spinoff_prover]
proof fn lemma_inverse_pieces_x_r(p: Seq<usize>)
    requires
        p.len() == 27,
    ensures
        spec_apply_pieces(spec_apply_pieces(p, Turn::X, true, false), Turn::X, !true, false)
            == p,
{
    layout::lemma_desc_wf();
    layout::lemma_reversed_wf(layout::middle_face(), false);
    layout::lemma_reversed_wf(layout::middle_face(), true);
    layout::lemma_reversed_wf(layout::left_face(), false);
    layout::lemma_reversed_wf(layout::left_face(), true);
    layout::lemma_reversed_wf(layout::right_face(), true);
    layout::lemma_reversed_wf(layout::right_face(), false);
    let p1 = spec_turn(p, reversed(layout::middle_face(), false));
    let p2 = spec_turn(p1, reversed(layout::left_face(), false));
    let p3 = spec_turn(p2, reversed(layout::right_face(), true));
    let q1 = spec_turn(p3, reversed(layout::middle_face(), true));
    let q2 = spec_turn(q1, reversed(layout::left_face(), true));
    let q3 = spec_turn(q2, reversed(layout::right_face(), false));
    layout::lemma_turn_pointwise(p, reversed(layout::middle_face(), false));
    layout::lemma_turn_pointwise(p1, reversed(layout::left_face(), false));
    layout::lemma_turn_pointwise(p2, reversed(layout::right_face(), true));
    layout::lemma_turn_pointwise(p3, reversed(layout::middle_face(), true));
    layout::lemma_turn_pointwise(q1, reversed(layout::left_face(), true));
    layout::lemma_turn_pointwise(q2, reversed(layout::right_face(), false));
    assert forall|i: int| 0 <= i < 27 implies q3[i] == p[i] by {}
    assert(q3 =~= p);
}

proof fn lemma_inverse_pieces_x(p: Seq<usize>, rev: bool)
    requires
        p.len() == 27,
    ensures
        spec_apply_pieces(spec_apply_pieces(p, Turn::X, rev, false), Turn::X, !rev, false)
            == p,
{
    if rev {
        lemma_inverse_pieces_x_r(p);
    } else {
        lemma_inverse_pieces_x_f(p);
    }
}

#[verifier::rlimit(90)]
#[verifier::spinoff_prover]
proof fn lemma_inverse_pieces_y_f(p: Seq<usize>)
    requires
        p.len() == 27,
    ensures
        spec_apply_pieces(spec_apply_pieces(p, Turn::Y, false, false), Turn::Y, !false, false)
            == p,
{
    layout::lemma_desc_wf();
    layout::lemma_reversed_wf(layout::equator_face(), true);
    layout::lemma_reversed_wf(layout::equator_face(), false);
    layout::lemma_reversed_wf(layout::up_face(), false);
    layout::lemma_reversed_wf(layout::up_face(), true);
    layout::lemma_reversed_wf(layout::down_face(), true);
    layout::lemma_reversed_wf(layout::down_face(), false);
    let p1 = spec_turn(p, reversed(layout::equator_face(), true));
    let p2 = spec_turn(p1, reversed(layout::up_face(), false));
    let p3 = spec_turn(p2, reversed(layout::down_face(), true));
    let q1 = spec_turn(p3, reversed(layout::equator_face(), false));
    let q2 = spec_turn(q1, reversed(layout::up_face(), true));
    let q3 = spec_turn(q2, reversed(layout::down_face(), false));
    layout::lemma_turn_pointwise(p, reversed(layout::equator_face(), true));
    layout::lemma_turn_pointwise(p1, reversed(layout::up_face(), false));
    layout::lemma_turn_pointwise(p2, reversed(layout::down_face(), true));
    layout::lemma_turn_pointwise(p3, reversed(layout::equator_face(), false));
    layout::lemma_turn_pointwise(q1, reversed(layout::up_face(), true));
    layout::lemma_turn_pointwise(q2, reversed(layout::down_face(), false));
    assert forall|i: int| 0 <= i < 27 implies q3[i] == p[i] by {}
    assert(q3 =~= p);
}

#[verifier::rlimit(90)]
#[verifier::spinoff_prover]
proof fn lemma_inverse_pieces_y_r(p: Seq<usize>)
    requires
        p.len() == 27,
    ensures
        spec_apply_pieces(spec_apply_pieces(p, Turn::Y, true, false), Turn::Y, !true, false)
            == p,
{
    layout::lemma_desc_wf();
    layout::lemma_reversed_wf(layout::equator_face(), false);
    layout::lemma_reversed_wf(layout::equator_face(), true);
    layout::lemma_reversed_wf(layout::up_face(), true);
    layout::lemma_reversed_wf(layout::up_face(), false);
    layout::lemma_reversed_wf(layout::down_face(), false);
    layout::lemma_reversed_wf(layout::down_face(), true);
    let p1 = spec_turn(p, reversed(layout::equator_face(), false));
    let p2 = spec_turn(p1, reversed(layout::up_face(), true));
    let p3 = spec_turn(p2, reversed(layout::down_face(), false));
    let q1 = spec_turn(p3, reversed(layout::equator_face(), true));
    let q2 = spec_turn(q1, reversed(layout::up_face(), false));
    let q3 = spec_turn(q2, reversed(layout::down_face(), true));
    layout::lemma_turn_pointwise(p, reversed(layout::equator_face(), false));
    layout::lemma_turn_pointwise(p1, reversed(layout::up_face(), true));
    layout::lemma_turn_pointwise(p2, reversed(layout::down_face(), false));
    layout::lemma_turn_pointwise(p3, reversed(layout::equator_face(), true));
    layout::lemma_turn_pointwise(q1, reversed(layout::up_face(), false));
    layout::lemma_turn_pointwise(q2, reversed(layout::down_face(), true));
    assert forall|i: int| 0 <= i < 27 implies q3[i] == p[i] by {}
    assert(q3 =~= p);
}

proof fn lemma_inverse_pieces_y(p: Seq<usize>, rev: bool)
    requires
        p.len() == 27,
    ensures
        spec_apply_pieces(spec_apply_pieces(p, Turn::Y, rev, false), Turn::Y, !rev, false)
            == p,
{
    if rev {
        lemma_inverse_pieces_y_r(p);
    } else {
        lemma_inverse_pieces_y_f(p);
    }
}

#[verifier::rlimit(90)]
#[verifier::spinoff_prover]
proof fn lemma_inverse_pieces_z_f(p: Seq<usize>)
    requires
        p.len() == 27,
    ensures
        spec_apply_pieces(spec_apply_pieces(p, Turn::Z, false, false), Turn::Z, !false, false)
            == p,
{
    layout::lemma_desc_wf();
    layout::lemma_reversed_wf(layout::standing_face(), false);
    layout::lemma_reversed_wf(layout::standing_face(), true);
    layout::lemma_reversed_wf(layout::back_face(), true);
    layout::lemma_reversed_wf(layout::back_face(), false);
    layout::lemma_reversed_wf(layout::front_face(), false);
    layout::lemma_reversed_wf(layout::front_face(), true);
    let p1 = spec_turn(p, reversed(layout::standing_face(), false));
    let p2 = spec_turn(p1, reversed(layout::back_face(), true));
    let p3 = spec_turn(p2, reversed(layout::front_face(), false));
    let q1 = spec_turn(p3, reversed(layout::standing_face(), true));
    let q2 = spec_turn(q1, reversed(layout::back_face(), false));
    let q3 = spec_turn(q2, reversed(layout::front_face(), true));
    layout::lemma_turn_pointwise(p, reversed(layout::standing_face(), false));
    layout::lemma_turn_pointwise(p1, reversed(layout::back_face(), true));
    layout::lemma_turn_pointwise(p2, reversed(layout::front_face(), false));
    layout::lemma_turn_pointwise(p3, reversed(layout::standing_face(), true));
    layout::lemma_turn_pointwise(q1, reversed(layout::back_face(), false));
    layout::lemma_turn_pointwise(q2, reversed(layout::front_face(), true));
    assert forall|i: int| 0 <= i < 27 implies q3[i] == p[i] by {}
    assert(q3 =~= p);
}

#[verifier::rlimit(90)]
#[verifier::spinoff_prover]
proof fn lemma_inverse_pieces_z_r(p: Seq<usize>)
    requires
        p.len() == 27,
    ensures
        spec_apply_pieces(spec_apply_pieces(p, Turn::Z, true, false), Turn::Z, !true, false)
            == p,
{
    layout::lemma_desc_wf();
    layout::lemma_reversed_wf(layout::standing_face(), true);
    layout::lemma_reversed_wf(layout::standing_face(), false);
    layout::lemma_reversed_wf(layout::back_face(), false);
    layout::lemma_reversed_wf(layout::back_face(), true);
    layout::lemma_reversed_wf(layout::front_face(), true);
    layout::lemma_reversed_wf(layout::front_face(), false);
    let p1 = spec_turn(p, reversed(layout::standing_face(), true));
    let p2 = spec_turn(p1, reversed(layout::back_face(), false));
    let p3 = spec_turn(p2, reversed(layout::front_face(), true));
    let q1 = spec_turn(p3, reversed(layout::standing_face(), false));
    let q2 = spec_turn(q1, reversed(layout::back_face(), true));
    let q3 = spec_turn(q2, reversed(layout::front_face(), false));
    layout::lemma_turn_pointwise(p, reversed(layout::standing_face(), true));
    layout::lemma_turn_pointwise(p1, reversed(layout::back_face(), false));
    layout::lemma_turn_pointwise(p2, reversed(layout::front_face(), true));
    layout::lemma_turn_pointwise(p3, reversed(layout::standing_face(), false));
    layout::lemma_turn_pointwise(q1, reversed(layout::back_face(), true));
    layout::lemma_turn_pointwise(q2, reversed(layout::front_face(), false));
    assert forall|i: int| 0 <= i < 27 implies q3[i] == p[i] by {}
    assert(q3 =~= p);
}

proof fn lemma_inverse_pieces_z(p: Seq<usize>, rev: bool)
    requires
        p.len() == 27,
    ensures
        spec_apply_pieces(spec_apply_pieces(p, Turn::Z, rev, false), Turn::Z, !rev, false)
            == p,
{
    if rev {
        lemma_inverse_pieces_z_r(p);
    } else {
        lemma_inverse_pieces_z_f(p);
    }
}

/// Law: any move followed by the same move reversed restores every
/// slot of the piece-position state.
pub proof fn lemma_move_inverse_pieces(p: Seq<usize>, t: Turn, rev: bool)
    requires
        p.len() == 27,
    ensures
        spec_apply_pieces(spec_apply_pieces(p, t, rev, false), t, !rev, false) == p,
{
    match t {
        Turn::Up => {
            layout::lemma_desc_wf();
            layout::lemma_turn_reverse_inverse(p, layout::up_face());
        },
        Turn::Down => {
            layout::lemma_desc_wf();
            layout::lemma_turn_reverse_inverse(p, layout::down_face());
        },
        Turn::Left => {
            layout::lemma_desc_wf();
            layout::lemma_turn_reverse_inverse(p, layout::left_face());
        },
        Turn::Right => {
            layout::lemma_desc_wf();
            layout::lemma_turn_reverse_inverse(p, layout::right_face());
        },
        Turn::Front => {
            layout::lemma_desc_wf();
            layout::lemma_turn_reverse_inverse(p, layout::front_face());
        },
        Turn::Back => {
            layout::lemma_desc_wf();
            layout::lemma_turn_reverse_inverse(p, layout::back_face());
        },
        Turn::Middle => {
            layout::lemma_desc_wf();
            layout::lemma_turn_reverse_inverse(p, layout::middle_face());
        },
        Turn::Equator => {
            layout::lemma_desc_wf();
            layout::lemma_turn_reverse_inverse(p, layout::equator_face());
        },
        Turn::Standing => {
            layout::lemma_desc_wf();
            layout::lemma_turn_reverse_inverse(p, layout::standing_face());
        },
        Turn::X => lemma_inverse_pieces_x(p, rev),
        Turn::Y => lemma_inverse_pieces_y(p, rev),
        Turn::Z => lemma_inverse_pieces_z(p, rev),
    }
}

/// Law: a doubled move leaves the sticker state exactly where two
/// consecutive single moves leave it.
pub proof fn lemma_double_stickers(s: Seq<Sticker>, t: Turn, rev: bool)
    ensures
        spec_apply_stickers(s, t, rev, true) == spec_apply_stickers(
            spec_apply_stickers(s, t, rev, false),
            t,
            rev,
            false,
        ),
{
}

#[verifier::rlimit(100)]
#[verifier::spinoff_prover]
proof fn lemma_double_pieces_x(p: Seq<usize>, rev: bool)
    requires
        p.len() == 27,
    ensures
        spec_apply_pieces(p, Turn::X, rev, true) == spec_apply_pieces(
            spec_apply_pieces(p, Turn::X, rev, false),
            Turn::X,
            rev,
            false,
        ),
{
    layout::lemma_desc_wf();
    layout::lemma_reversed_wf(layout::middle_face(), !rev);
    layout::lemma_reversed_wf(layout::left_face(), !rev);
    layout::lemma_reversed_wf(layout::right_face(), rev);
    let a1 = spec_turn(spec_turn(p, reversed(layout::middle_face(), !rev)), reversed(layout::middle_face(), !rev));
    let a2 = spec_turn(spec_turn(a1, reversed(layout::left_face(), !rev)), reversed(layout::left_face(), !rev));
    let a3 = spec_turn(spec_turn(a2, reversed(layout::right_face(), rev)), reversed(layout::right_face(), rev));
    let b1 = spec_turn(p, reversed(layout::middle_face(), !rev));
    let b2 = spec_turn(b1, reversed(layout::left_face(), !rev));
    let b3 = spec_turn(b2, reversed(layout::right_face(), rev));
    let c1 = spec_turn(b3, reversed(layout::middle_face(), !rev));
    let c2 = spec_turn(c1, reversed(layout::left_face(), !rev));
    let c3 = spec_turn(c2, reversed(layout::right_face(), rev));
    layout::lemma_turn_pointwise(p, reversed(layout::middle_face(), !rev));
    layout::lemma_turn_pointwise(spec_turn(p, reversed(layout::middle_face(), !rev)), reversed(layout::middle_face(), !rev));
    layout::lemma_turn_pointwise(a1, reversed(layout::left_face(), !rev));
    layout::lemma_turn_pointwise(spec_turn(a1, reversed(layout::left_face(), !rev)), reversed(layout::left_face(), !rev));
    layout::lemma_turn_pointwise(a2, reversed(layout::right_face(), rev));
    layout::lemma_turn_pointwise(spec_turn(a2, reversed(layout::right_face(), rev)), reversed(layout::right_face(), rev));
    layout::lemma_turn_pointwise(b1, reversed(layout::left_face(), !rev));
    layout::lemma_turn_pointwise(b2, reversed(layout::right_face(), rev));
    layout::lemma_turn_pointwise(b3, reversed(layout::middle_face(), !rev));
    layout::lemma_turn_pointwise(c1, reversed(layout::left_face(), !rev));
    layout::lemma_turn_pointwise(c2, reversed(layout::right_face(), rev));
    assert forall|i: int| 0 <= i < 27 implies a3[i] == c3[i] by {}
    assert(a3 =~= c3);
}

#[verifier::rlimit(100)]
#[verifier::spinoff_prover]
proof fn lemma_double_pieces_y(p: Seq<usize>, rev: bool)
    requires
        p.len() == 27,
    ensures
        spec_apply_pieces(p, Turn::Y, rev, true) == spec_apply_pieces(
            spec_apply_pieces(p, Turn::Y, rev, false),
            Turn::Y,
            rev,
            false,
        ),
{
    layout::lemma_desc_wf();
    layout::lemma_reversed_wf(layout::equator_face(), !rev);
    layout::lemma_reversed_wf(layout::up_face(), rev);
    layout::lemma_reversed_wf(layout::down_face(), !rev);
    let a1 = spec_turn(spec_turn(p, reversed(layout::equator_face(), !rev)), reversed(layout::equator_face(), !rev));
    let a2 = spec_turn(spec_turn(a1, reversed(layout::up_face(), rev)), reversed(layout::up_face(), rev));
    let a3 = spec_turn(spec_turn(a2, reversed(layout::down_face(), !rev)), reversed(layout::down_face(), !rev));
    let b1 = spec_turn(p, reversed(layout::equator_face(), !rev));
    let b2 = spec_turn(b1, reversed(layout::up_face(), rev));
    let b3 = spec_turn(b2, reversed(layout::down_face(), !rev));
    let c1 = spec_turn(b3, reversed(layout::equator_face(), !rev));
    let c2 = spec_turn(c1, reversed(layout::up_face(), rev));
    let c3 = spec_turn(c2, reversed(layout::down_face(), !rev));
    layout::lemma_turn_pointwise(p, reversed(layout::equator_face(), !rev));
    layout::lemma_turn_pointwise(spec_turn(p, reversed(layout::equator_face(), !rev)), reversed(layout::equator_face(), !rev));
    layout::lemma_turn_pointwise(a1, reversed(layout::up_face(), rev));
    layout::lemma_turn_pointwise(spec_turn(a1, reversed(layout::up_face(), rev)), reversed(layout::up_face(), rev));
    layout::lemma_turn_pointwise(a2, reversed(layout::down_face(), !rev));
    layout::lemma_turn_pointwise(spec_turn(a2, reversed(layout::down_face(), !rev)), reversed(layout::down_face(), !rev));
    layout::lemma_turn_pointwise(b1, reversed(layout::up_face(), rev));
    layout::lemma_turn_pointwise(b2, reversed(layout::down_face(), !rev));
    layout::lemma_turn_pointwise(b3, reversed(layout::equator_face(), !rev));
    layout::lemma_turn_pointwise(c1, reversed(layout::up_face(), rev));
    layout::lemma_turn_pointwise(c2, reversed(layout::down_face(), !rev));
    assert forall|i: int| 0 <= i < 27 implies a3[i] == c3[i] by {}
    assert(a3 =~= c3);
}

#[verifier::rlimit(100)]
#[verifier::spinoff_prover]
proof fn lemma_double_pieces_z(p: Seq<usize>, rev: bool)
    requires
        p.len() == 27,
    ensures
        spec_apply_pieces(p, Turn::Z, rev, true) == spec_apply_pieces(
            spec_apply_pieces(p, Turn::Z, rev, false),
            Turn::Z,
            rev,
            false,
        ),
{
    layout::lemma_desc_wf();
    layout::lemma_reversed_wf(layout::standing_face(), rev);
    layout::lemma_reversed_wf(layout::back_face(), !rev);
    layout::lemma_reversed_wf(layout::front_face(), rev);
    let a1 = spec_turn(spec_turn(p, reversed(layout::standing_face(), rev)), reversed(layout::standing_face(), rev));
    let a2 = spec_turn(spec_turn(a1, reversed(layout::back_face(), !rev)), reversed(layout::back_face(), !rev));
    let a3 = spec_turn(spec_turn(a2, reversed(layout::front_face(), rev)), reversed(layout::front_face(), rev));
    let b1 = spec_turn(p, reversed(layout::standing_face(), rev));
    let b2 = spec_turn(b1, reversed(layout::back_face(), !rev));
    let b3 = spec_turn(b2, reversed(layout::front_face(), rev));
    let c1 = spec_turn(b3, reversed(layout::standing_face(), rev));
    let c2 = spec_turn(c1, reversed(layout::back_face(), !rev));
    let c3 = spec_turn(c2, reversed(layout::front_face(), rev));
    layout::lemma_turn_pointwise(p, reversed(layout::standing_face(), rev));
    layout::lemma_turn_pointwise(spec_turn(p, reversed(layout::standing_face(), rev)), reversed(layout::standing_face(), rev));
    layout::lemma_turn_pointwise(a1, reversed(layout::back_face(), !rev));
    layout::lemma_turn_pointwise(spec_turn(a1, reversed(layout::back_face(), !rev)), reversed(layout::back_face(), !rev));
    layout::lemma_turn_pointwise(a2, reversed(layout::front_face(), rev));
    layout::lemma_turn_pointwise(spec_turn(a2, reversed(layout::front_face(), rev)), reversed(layout::front_face(), rev));
    layout::lemma_turn_pointwise(b1, reversed(layout::back_face(), !rev));
    layout::lemma_turn_pointwise(b2, reversed(layout::front_face(), rev));
    layout::lemma_turn_pointwise(b3, reversed(layout::standing_face(), rev));
    layout::lemma_turn_pointwise(c1, reversed(layout::back_face(), !rev));
    layout::lemma_turn_pointwise(c2, reversed(layout::front_face(), rev));
    assert forall|i: int| 0 <= i < 27 implies a3[i] == c3[i] by {}
    assert(a3 =~= c3);
}

/// Law: a doubled move leaves the piece-position state exactly where
/// two consecutive single moves leave it.
pub proof fn lemma_double_pieces(p: Seq<usize>, t: Turn, rev: bool)
    requires
        p.len() == 27,
    ensures
        spec_apply_pieces(p, t, rev, true) == spec_apply_pieces(
            spec_apply_pieces(p, t, rev, false),
            t,
            rev,
            false,
        ),
{
    match t {
        Turn::Up => {},
        Turn::Down => {},
        Turn::Left => {},
        Turn::Right => {},
        Turn::Front => {},
        Turn::Back => {},
        Turn::Middle => {},
        Turn::Equator => {},
        Turn::Standing => {},
        Turn::X => lemma_double_pieces_x(p, rev),
        Turn::Y => lemma_double_pieces_y(p, rev),
        Turn::Z => lemma_double_pieces_z(p, rev),
    }
}

/// One descriptor step keeps the occupancy a permutation.
proof fn lemma_step_occ_permutation(p: Seq<usize>, d: layout::Face, dbl: bool)
    requires
        layout::is_permutation(p),
        face_wf(d),
    ensures
        layout::is_permutation(step_occ(p, d, dbl)),
{
    layout::lemma_turn_permutation(p, d);
    if dbl {
        layout::lemma_turn_permutation(spec_turn(p, d), d);
    }
}

/// Law: every move keeps the piece occupancy a permutation of the
/// cubies: no slot is ever empty or duplicated.
pub proof fn lemma_apply_pieces_permutation(p: Seq<usize>, t: Turn, rev: bool, dbl: bool)
    requires
        layout::is_permutation(p),
    ensures
        layout::is_permutation(spec_apply_pieces(p, t, rev, dbl)),
{
    layout::lemma_desc_wf();
    match t {
        Turn::Up => {
            layout::lemma_reversed_wf(layout::up_face(), rev);
            lemma_step_occ_permutation(p, reversed(layout::up_face(), rev), dbl);
        },
        Turn::Down => {
            layout::lemma_reversed_wf(layout::down_face(), rev);
            lemma_step_occ_permutation(p, reversed(layout::down_face(), rev), dbl);
        },
        Turn::Left => {
            layout::lemma_reversed_wf(layout::left_face(), rev);
            lemma_step_occ_permutation(p, reversed(layout::left_face(), rev), dbl);
        },
        Turn::Right => {
            layout::lemma_reversed_wf(layout::right_face(), rev);
            lemma_step_occ_permutation(p, reversed(layout::right_face(), rev), dbl);
        },
        Turn::Front => {
            layout::lemma_reversed_wf(layout::front_face(), rev);
            lemma_step_occ_permutation(p, reversed(layout::front_face(), rev), dbl);
        },
        Turn::Back => {
            layout::lemma_reversed_wf(layout::back_face(), rev);
            lemma_step_occ_permutation(p, reversed(layout::back_face(), rev), dbl);
        },
        Turn::Middle => {
            layout::lemma_reversed_wf(layout::middle_face(), rev);
            lemma_step_occ_permutation(p, reversed(layout::middle_face(), rev), dbl);
        },
        Turn::Equator => {
            layout::lemma_reversed_wf(layout::equator_face(), rev);
            lemma_step_occ_permutation(p, reversed(layout::equator_face(), rev), dbl);
        },
        Turn::Standing => {
            layout::lemma_reversed_wf(layout::standing_face(), rev);
            lemma_step_occ_permutation(p, reversed(layout::standing_face(), rev), dbl);
        },
        Turn::X => {
            layout::lemma_reversed_wf(layout::middle_face(), !rev);
            layout::lemma_reversed_wf(layout::left_face(), !rev);
            layout::lemma_reversed_wf(layout::right_face(), rev);
            let q0 = step_occ(p, reversed(layout::middle_face(), !rev), dbl);
            lemma_step_occ_permutation(p, reversed(layout::middle_face(), !rev), dbl);
            let q1 = step_occ(q0, reversed(layout::left_face(), !rev), dbl);
            lemma_step_occ_permutation(q0, reversed(layout::left_face(), !rev), dbl);
            let q2 = step_occ(q1, reversed(layout::right_face(), rev), dbl);
            lemma_step_occ_permutation(q1, reversed(layout::right_face(), rev), dbl);
        },
        Turn::Y => {
            layout::lemma_reversed_wf(layout::equator_face(), !rev);
            layout::lemma_reversed_wf(layout::up_face(), rev);
            layout::lemma_reversed_wf(layout::down_face(), !rev);
            let q0 = step_occ(p, reversed(layout::equator_face(), !rev), dbl);
            lemma_step_occ_permutation(p, reversed(layout::equator_face(), !rev), dbl);
            let q1 = step_occ(q0, reversed(layout::up_face(), rev), dbl);
            lemma_step_occ_permutation(q0, reversed(layout::up_face(), rev), dbl);
            let q2 = step_occ(q1, reversed(layout::down_face(), !rev), dbl);
            lemma_step_occ_permutation(q1, reversed(layout::down_face(), !rev), dbl);
        },
        Turn::Z => {
            layout::lemma_reversed_wf(layout::standing_face(), rev);
            layout::lemma_reversed_wf(layout::back_face(), !rev);
            layout::lemma_reversed_wf(layout::front_face(), rev);
            let q0 = step_occ(p, reversed(layout::standing_face(), rev), dbl);
            lemma_step_occ_permutation(p, reversed(layout::standing_face(), rev), dbl);
            let q1 = step_occ(q0, reversed(layout::back_face(), !rev), dbl);
            lemma_step_occ_permutation(q0, reversed(layout::back_face(), !rev), dbl);
            let q2 = step_occ(q1, reversed(layout::front_face(), rev), dbl);
            lemma_step_occ_permutation(q1, reversed(layout::front_face(), rev), dbl);
        },
    }
}

} // verus!
