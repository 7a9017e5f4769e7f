use rcube::stickers::{Layout, Sticker};
use rcube::table::{Face, Rotate, Slice};

const FACES: [Face; 6] = [Face::Up, Face::Down, Face::Left, Face::Right, Face::Front, Face::Back];
const SLICES: [Slice; 3] = [Slice::Middle, Slice::Equator, Slice::Standing];

// Display order of a face's nine positions: row by row, top to bottom.
const PINDEX: [usize; 9] = [0, 1, 2, 7, 8, 3, 6, 5, 4];

fn row(l: &Layout, f: Face, y: usize) -> String {
    let mut s = String::new();
    for x in 0..3 {
        s.push(l.sticker(f, PINDEX[x + 3 * y]).letter());
        s.push(' ');
    }
    s
}

#[test]
fn print() {
    let mut l = Layout::new();

    l.slice(Slice::Middle, false);
    l.slice(Slice::Middle, false);
    l.slice(Slice::Equator, false);
    l.slice(Slice::Equator, false);
    l.slice(Slice::Standing, false);
    l.slice(Slice::Standing, false);
    println!("{}", l.solved());

    for y in 0..3 {
        println!("        {}", row(&l, Face::Up, y));
    }
    println!();
    for y in 0..3 {
        println!(
            "{}  {}  {}  {}",
            row(&l, Face::Left, y),
            row(&l, Face::Front, y),
            row(&l, Face::Right, y),
            row(&l, Face::Back, y)
        );
    }
    println!();
    for y in 0..3 {
        println!("        {}", row(&l, Face::Down, y));
    }
}

#[test]
fn letters_are_exact() {
    assert_eq!(Sticker::Red.letter(), 'R');
    assert_eq!(Sticker::Orange.letter(), 'O');
    assert_eq!(Sticker::Blue.letter(), 'B');
    assert_eq!(Sticker::Green.letter(), 'G');
    assert_eq!(Sticker::White.letter(), 'W');
    assert_eq!(Sticker::Yellow.letter(), 'Y');
}

#[test]
fn new_cube_is_solved() {
    let l = Layout::new();
    assert!(l.solved());
    // each face uniform in its own colour
    let colors = ['Y', 'W', 'O', 'R', 'B', 'G'];
    for (k, f) in FACES.iter().enumerate() {
        for p in 0..9 {
            assert_eq!(l.sticker(*f, p).letter(), colors[k]);
        }
    }
}

#[test]
fn face_turn_unsolves() {
    for f in FACES {
        for rev in [false, true] {
            let mut l = Layout::new();
            l.face(f, rev);
            assert!(!l.solved());
        }
    }
}

#[test]
fn slice_turn_unsolves() {
    for s in SLICES {
        for rev in [false, true] {
            let mut l = Layout::new();
            l.slice(s, rev);
            assert!(!l.solved());
        }
    }
}

#[test]
fn four_face_turns_are_identity() {
    for f in FACES {
        for rev in [false, true] {
            let reference = Layout::new();
            let mut l = Layout::new();
            // start from a scrambled state so the law is not vacuous
            l.face(Face::Up, false);
            l.slice(Slice::Middle, true);
            let mut before = Layout::new();
            before.face(Face::Up, false);
            before.slice(Slice::Middle, true);
            for _ in 0..4 {
                l.face(f, rev);
            }
            assert!(l.same_as(&before));
            assert!(reference.same_as(&Layout::new()));
        }
    }
}

#[test]
fn four_slice_turns_are_identity() {
    for s in SLICES {
        for rev in [false, true] {
            let mut l = Layout::new();
            l.face(Face::Right, true);
            let mut before = Layout::new();
            before.face(Face::Right, true);
            for _ in 0..4 {
                l.slice(s, rev);
            }
            assert!(l.same_as(&before));
        }
    }
}

#[test]
fn face_turn_then_reverse_is_identity() {
    for f in FACES {
        for rev in [false, true] {
            let mut l = Layout::new();
            l.slice(Slice::Standing, false);
            let mut before = Layout::new();
            before.slice(Slice::Standing, false);
            l.face(f, rev);
            l.face(f, !rev);
            assert!(l.same_as(&before));
        }
    }
}

#[test]
fn slice_turn_then_reverse_is_identity() {
    for s in SLICES {
        for rev in [false, true] {
            let mut l = Layout::new();
            l.face(Face::Front, false);
            let mut before = Layout::new();
            before.face(Face::Front, false);
            l.slice(s, rev);
            l.slice(s, !rev);
            assert!(l.same_as(&before));
        }
    }
}

#[test]
fn rotations_keep_solved() {
    let rotations = [Rotate::X, Rotate::Y, Rotate::Z];
    // single rotations, both directions
    for r in rotations {
        for rev in [false, true] {
            let mut l = Layout::new();
            l.rotate(r, rev);
            assert!(l.solved());
        }
    }
    // longer mixed chains
    let mut l = Layout::new();
    let chain = [
        (Rotate::X, false),
        (Rotate::Y, true),
        (Rotate::Z, false),
        (Rotate::X, true),
        (Rotate::X, true),
        (Rotate::Z, true),
        (Rotate::Y, false),
        (Rotate::Y, false),
        (Rotate::X, false),
        (Rotate::Z, false),
    ];
    for (r, rev) in chain {
        l.rotate(r, rev);
        assert!(l.solved());
    }
}

#[test]
fn face_turns_fix_centers() {
    let mut l = Layout::new();
    let before: Vec<char> = FACES.iter().map(|f| l.sticker(*f, 8).letter()).collect();
    let moves = [
        (Face::Up, false),
        (Face::Right, true),
        (Face::Front, false),
        (Face::Down, true),
        (Face::Left, false),
        (Face::Back, true),
        (Face::Up, true),
        (Face::Right, false),
    ];
    for (f, rev) in moves {
        l.face(f, rev);
        for (k, g) in FACES.iter().enumerate() {
            assert_eq!(l.sticker(*g, 8).letter(), before[k]);
        }
    }
}

#[test]
fn slice_turn_leaves_untouched_faces_alone() {
    // Middle leaves Left and Right untouched, but moves the centres of
    // the four faces it cuts.
    let mut l = Layout::new();
    l.slice(Slice::Middle, false);
    for p in 0..9 {
        assert_eq!(l.sticker(Face::Left, p).letter(), 'O');
        assert_eq!(l.sticker(Face::Right, p).letter(), 'R');
    }
    // the Up centre facelet travelled with the slice
    assert_ne!(l.sticker(Face::Up, 8).letter(), 'Y');
}

#[test]
fn up_turn_exact_mapping() {
    // Solved cube, Up face turned forward: Up stays uniform, and each
    // surrounding face's top row now shows the colours of the next face
    // around (Front gets Right's, Right gets Back's, and so on).
    let mut l = Layout::new();
    l.face(Face::Up, false);
    let expected = [
        (Face::Up, "YYYYYYYYY"),
        (Face::Down, "WWWWWWWWW"),
        (Face::Left, "BBBOOOOOO"),
        (Face::Right, "GGGRRRRRR"),
        (Face::Front, "RRRBBBBBB"),
        (Face::Back, "OOOGGGGGG"),
    ];
    for (f, want) in expected {
        let got: String = (0..9).map(|p| l.sticker(f, p).letter()).collect();
        assert_eq!(got, want);
    }
}
