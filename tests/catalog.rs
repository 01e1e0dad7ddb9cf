use tetris::shapes::{get_random, kind_from_index, PieceKind, TetraminoBitmap};

const KINDS: [PieceKind; 7] = [
    PieceKind::I,
    PieceKind::L,
    PieceKind::J,
    PieceKind::O,
    PieceKind::S,
    PieceKind::T,
    PieceKind::Z,
];

fn occupancy(p: &TetraminoBitmap, rot: u8) -> Vec<bool> {
    let (w, h) = p.get_dimension(rot);
    let mut out = Vec::new();
    for y in 0..h {
        for x in 0..w {
            out.push(!p.is_empty_cell(x, y, rot));
        }
    }
    out
}

#[test]
fn dimensions_swap_between_rotations() {
    for kind in KINDS {
        let p = TetraminoBitmap::of(kind);
        let (w, h) = p.get_dimension(0);
        assert_eq!(p.get_dimension(2), (w, h));
        assert_eq!(p.get_dimension(1), (h, w));
        assert_eq!(p.get_dimension(3), (h, w));
    }
    assert_eq!(TetraminoBitmap::of(PieceKind::I).get_dimension(0), (4, 4));
    assert_eq!(TetraminoBitmap::of(PieceKind::O).get_dimension(1), (3, 3));
    assert_eq!(TetraminoBitmap::of(PieceKind::T).get_dimension(3), (3, 3));
}

#[test]
fn o_kind_same_in_every_rotation() {
    let o = TetraminoBitmap::of(PieceKind::O);
    let first = occupancy(&o, 0);
    assert_eq!(first, vec![true, true, false, true, true, false, false, false, false]);
    for rot in 1..4 {
        assert_eq!(occupancy(&o, rot), first);
    }
}

#[test]
fn bitmap_cells_read_from_the_right() {
    let i = TetraminoBitmap::of(PieceKind::I);
    // rotation 0: column 1 of each row
    assert_eq!(occupancy(&i, 0), vec![
        false, true, false, false,
        false, true, false, false,
        false, true, false, false,
        false, true, false, false,
    ]);
    // rotation 3: the third row only
    assert_eq!(occupancy(&i, 3), vec![
        false, false, false, false,
        false, false, false, false,
        true, true, true, true,
        false, false, false, false,
    ]);
    let l = TetraminoBitmap::of(PieceKind::L);
    assert_eq!(occupancy(&l, 0), vec![false, true, false, false, true, false, false, true, true]);
    assert_eq!(occupancy(&l, 1), vec![false, false, false, true, true, true, true, false, false]);
    let s = TetraminoBitmap::of(PieceKind::S);
    assert_eq!(occupancy(&s, 0), occupancy(&s, 2));
    assert_eq!(occupancy(&s, 1), occupancy(&s, 3));
    assert_eq!(occupancy(&s, 0), vec![false, false, false, false, true, true, true, true, false]);
}

#[test]
fn colors_of_the_kinds() {
    assert_eq!(TetraminoBitmap::of(PieceKind::I).get_color(), (20, 162, 236));
    assert_eq!(TetraminoBitmap::of(PieceKind::L).get_color(), (62, 68, 206));
    assert_eq!(TetraminoBitmap::of(PieceKind::J).get_color(), (255, 0, 255));
    assert_eq!(TetraminoBitmap::of(PieceKind::O).get_color(), (254, 199, 18));
    assert_eq!(TetraminoBitmap::of(PieceKind::S).get_color(), (36, 176, 77));
    assert_eq!(TetraminoBitmap::of(PieceKind::T).get_color(), (162, 71, 164));
    assert_eq!(TetraminoBitmap::of(PieceKind::Z).get_color(), (238, 32, 36));
}

#[test]
fn catalog_order() {
    for (i, kind) in KINDS.iter().enumerate() {
        assert_eq!(kind_from_index(i), *kind);
    }
}

#[test]
fn random_draws_cover_several_kinds() {
    let mut rng = rand::thread_rng();
    let mut seen = Vec::new();
    for _ in 0..300 {
        let p = get_random(&mut rng);
        assert!(KINDS.contains(&p.kind));
        if !seen.contains(&p.kind) {
            seen.push(p.kind);
        }
    }
    assert!(seen.len() >= 3);
}
