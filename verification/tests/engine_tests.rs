use rcube::cube::{Axis, Cube, Turn};
use rcube::layout;
use rcube::table::Face;

const TURNS: [Turn; 12] = [
    Turn::Up,
    Turn::Down,
    Turn::Left,
    Turn::Right,
    Turn::Front,
    Turn::Back,
    Turn::Middle,
    Turn::Equator,
    Turn::Standing,
    Turn::X,
    Turn::Y,
    Turn::Z,
];

fn snapshot(c: &Cube) -> (Vec<char>, Vec<usize>) {
    let faces = [Face::Up, Face::Down, Face::Left, Face::Right, Face::Front, Face::Back];
    let mut stickers = Vec::new();
    for f in faces {
        for p in 0..9 {
            stickers.push(c.sticker(f, p).letter());
        }
    }
    let pieces = (0..27).map(|i| c.piece_at(i)).collect();
    (stickers, pieces)
}

fn settle(c: &mut Cube) {
    while c.is_animating() {
        c.tick_turn();
    }
}

#[test]
fn new_engine_is_idle_and_solved() {
    let c = Cube::new();
    assert!(c.solved());
    assert!(!c.is_animating());
    for i in 0..27 {
        assert_eq!(c.piece_at(i), i);
    }
}

#[test]
fn move_then_reverse_is_identity() {
    for t in TURNS {
        for rev in [false, true] {
            let mut c = Cube::new();
            let before = snapshot(&c);
            c.turn(t, 90, rev, false);
            settle(&mut c);
            c.turn(t, 90, !rev, false);
            settle(&mut c);
            assert_eq!(snapshot(&c), before, "inverse failed for {:?}", t);
        }
    }
}

#[test]
fn double_equals_two_singles() {
    for t in TURNS {
        for rev in [false, true] {
            let mut a = Cube::new();
            a.turn(t, 95, rev, true);
            settle(&mut a);
            let mut b = Cube::new();
            b.turn(t, 95, rev, false);
            settle(&mut b);
            b.turn(t, 95, rev, false);
            settle(&mut b);
            assert_eq!(snapshot(&a), snapshot(&b), "double failed for {:?}", t);
        }
    }
}

#[test]
fn four_identical_moves_are_identity() {
    for t in TURNS {
        let mut c = Cube::new();
        let before = snapshot(&c);
        for _ in 0..4 {
            c.turn(t, 100, false, false);
            settle(&mut c);
        }
        assert_eq!(snapshot(&c), before, "four turns failed for {:?}", t);
    }
}

#[test]
fn whole_cube_rotations_keep_solved() {
    let mut c = Cube::new();
    for (t, rev) in [
        (Turn::X, false),
        (Turn::Y, true),
        (Turn::Z, false),
        (Turn::X, true),
        (Turn::Z, true),
        (Turn::Y, false),
    ] {
        c.turn(t, 100, rev, false);
        settle(&mut c);
        assert!(c.solved());
    }
    // doubled rotations too
    c.turn(Turn::X, 100, false, true);
    settle(&mut c);
    assert!(c.solved());
}

#[test]
fn face_move_scrambles_and_is_tracked_in_both_models() {
    let mut c = Cube::new();
    c.turn(Turn::Up, 90, false, false);
    settle(&mut c);
    assert!(!c.solved());
    // the Up layer's corner cubies moved: slot 18 now holds cubie 0
    assert_eq!(c.piece_at(18), 0);
    assert_eq!(c.piece_at(0), 2);
    assert_eq!(c.piece_at(2), 20);
    assert_eq!(c.piece_at(20), 18);
    // centre cubie of the Up layer never moves
    assert_eq!(c.piece_at(10), 10);
}

#[test]
fn second_turn_is_dropped_while_animating() {
    let mut c = Cube::new();
    c.turn(Turn::Up, 80, false, false);
    assert!(c.is_animating());
    let after_first = snapshot(&c);

    // a different move issued before any tick must be dropped entirely
    c.turn(Turn::Right, 80, false, false);
    assert_eq!(snapshot(&c), after_first);
    assert!(c.is_animating());

    // speed 80 means 101 - 80 = 21 ticks to settle
    for k in 0..21 {
        assert!(c.is_animating(), "went idle early at tick {}", k);
        let step = c.tick_turn().expect("a step while animating");
        assert_eq!(step.denom, 21);
        assert_eq!(step.axis, Axis::Z);
        assert!(!step.neg);
        assert_eq!(step.pieces.len(), 9);
    }
    assert!(!c.is_animating());
    assert!(c.tick_turn().is_none());

    // now a new move is accepted
    c.turn(Turn::Right, 80, false, false);
    assert!(c.is_animating());
    settle(&mut c);
    assert!(!c.solved());
}

#[test]
fn tick_step_reports_the_moved_cubies() {
    let mut c = Cube::new();
    c.turn(Turn::Up, 80, false, false);
    let step = c.tick_turn().expect("animating");
    // occupants of the Up layer right after the turn, corners first,
    // then edges, then the centre
    assert_eq!(step.pieces, vec![0, 2, 20, 18, 9, 1, 11, 19, 10]);
}

#[test]
fn doubled_turn_runs_twice_as_long() {
    let mut c = Cube::new();
    c.turn(Turn::Front, 80, false, true);
    let mut ticks = 0;
    while c.is_animating() {
        let step = c.tick_turn().expect("animating");
        assert_eq!(step.denom, 21);
        ticks += 1;
    }
    assert_eq!(ticks, 42);
}

#[test]
fn slice_move_affects_nine_slots_axis_move_all() {
    let mut c = Cube::new();
    c.turn(Turn::Middle, 80, false, false);
    let step = c.tick_turn().expect("animating");
    assert_eq!(step.pieces.len(), 9);
    settle(&mut c);

    let mut c2 = Cube::new();
    c2.turn(Turn::X, 80, false, false);
    let step2 = c2.tick_turn().expect("animating");
    assert_eq!(step2.pieces.len(), 27);
    let mut sorted = step2.pieces.clone();
    sorted.sort();
    assert_eq!(sorted, (0..27).collect::<Vec<usize>>());
}

#[test]
fn reverse_is_an_involution_on_descriptors() {
    let descs = [
        layout::up(),
        layout::down(),
        layout::left(),
        layout::right(),
        layout::front(),
        layout::back(),
        layout::middle(),
        layout::equator(),
        layout::standing(),
    ];
    for d in descs {
        let twice = d.reverse(true).reverse(true);
        assert_eq!(twice, d);
        // reversing keeps the same slots in the layer
        let r = d.reverse(true);
        assert_eq!(r.center, d.center);
        let mut a = d.corners.to_vec();
        let mut b = r.corners.to_vec();
        a.sort();
        b.sort();
        assert_eq!(a, b);
    }
}

#[test]
fn piece_layout_four_turns_identity() {
    let mut l = layout::Layout::new();
    let up = layout::up();
    for _ in 0..4 {
        l.turn(&up);
    }
    let fresh = layout::Layout::new();
    assert!(l.same_as(&fresh));
}

#[test]
fn piece_layout_turn_then_reverse_identity() {
    let mut l = layout::Layout::new();
    let m = layout::middle();
    l.turn(&m);
    l.turn(&m.reverse(true));
    let fresh = layout::Layout::new();
    assert!(l.same_as(&fresh));
}

#[test]
fn piece_layout_layer_reads_occupants() {
    let l = layout::Layout::new();
    let up = layout::up();
    let occ = l.layer(&up);
    assert_eq!(occ, [18, 0, 2, 20, 19, 9, 1, 11, 10]);
}
