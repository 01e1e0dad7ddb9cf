use tetris::field::{line_score, TetrisCell, TetrisField};
use tetris::round::{fold_events, InputEvent, SubFrame, TetraminoAction, TetraminoMove};
use tetris::shapes::{PieceKind, TetraminoBitmap};

const GREY: TetrisCell = TetrisCell::Brick(9, 9, 9);

fn field_with(kind: PieceKind, rot: u8, x: i32, y: i32) -> TetrisField {
    let mut f = TetrisField::new(TetraminoBitmap::of(kind));
    f.rot = rot;
    f.x_pos = x;
    f.y_pos = y;
    f
}

fn set(f: &mut TetrisField, x: usize, y: usize, c: TetrisCell) {
    f.game_field[y * 10 + x] = c;
}

fn get(f: &TetrisField, x: usize, y: usize) -> TetrisCell {
    f.game_field[y * 10 + x]
}

fn fill_row(f: &mut TetrisField, y: usize, except: Option<usize>) {
    for x in 0..10 {
        if Some(x) != except {
            set(f, x, y, TetrisCell::Brick(x as u8, y as u8, 1));
        }
    }
}

fn action(m: TetraminoMove, rot: bool, down: bool, exit: bool) -> TetraminoAction {
    TetraminoAction { tetr_move: m, tetr_switch_rot: rot, tetr_force_down: down, exit }
}

/// Cells of the piece in field coordinates, computed from the bitmap.
fn piece_cells(f: &TetrisField) -> Vec<(i32, i32)> {
    let (w, h) = f.curr_tetr.get_dimension(f.rot);
    let mut out = Vec::new();
    for y in 0..h {
        for x in 0..w {
            if !f.curr_tetr.is_empty_cell(x, y, f.rot) {
                out.push((f.x_pos + x as i32, f.y_pos + y as i32));
            }
        }
    }
    out
}

#[test]
fn new_field_is_empty_with_first_piece_turned_once() {
    let f = TetrisField::new(TetraminoBitmap::of(PieceKind::T));
    assert_eq!(f.game_field.len(), 200);
    assert!(f.game_field.iter().all(|c| *c == TetrisCell::Empty));
    assert_eq!((f.x_pos, f.y_pos, f.rot, f.score), (3, 0, 1, 0));
}

#[test]
fn collisions_match_brute_force() {
    let mut base = TetrisField::new(TetraminoBitmap::of(PieceKind::I));
    set(&mut base, 2, 5, GREY);
    set(&mut base, 7, 12, GREY);
    fill_row(&mut base, 19, Some(4));
    for kind in [PieceKind::I, PieceKind::O, PieceKind::T, PieceKind::S, PieceKind::Z, PieceKind::J, PieceKind::L] {
        for rot in 0..4u8 {
            for x in -5..13 {
                for y in -5..23 {
                    let mut f = field_with(kind, rot, x, y);
                    f.game_field = base.game_field.clone();
                    let expected = piece_cells(&f).iter().any(|&(cx, cy)| {
                        cx < 0 || cx >= 10 || cy < 0 || cy >= 20
                            || get(&f, cx as usize, cy as usize) != TetrisCell::Empty
                    });
                    assert_eq!(f.check_collisions(), expected, "{:?} {} {} {}", kind, rot, x, y);
                }
            }
        }
    }
}

#[test]
fn rejected_move_and_turn_are_reverted() {
    // I at rotation 0 stands in column x + 1; at x = -1 it touches the wall
    let mut f = field_with(PieceKind::I, 0, -1, 5);
    f.apply_action(action(TetraminoMove::Left, false, false, false));
    assert_eq!((f.x_pos, f.y_pos, f.rot), (-1, 5, 0));
    // turning to the flat rotation at the wall would leave the field
    f.apply_action(action(TetraminoMove::Stay, true, false, false));
    assert_eq!((f.x_pos, f.y_pos, f.rot), (-1, 5, 0));
    // an accepted move right, then the turn is tried on its own
    f.apply_action(action(TetraminoMove::Right, true, false, false));
    assert_eq!((f.x_pos, f.rot), (0, 1));
    // a settled cell blocks a move
    let mut g = field_with(PieceKind::O, 0, 4, 4);
    set(&mut g, 6, 5, GREY);
    g.apply_action(action(TetraminoMove::Right, false, false, false));
    assert_eq!(g.x_pos, 4);
    g.apply_action(action(TetraminoMove::Left, false, false, false));
    assert_eq!(g.x_pos, 3);
}

#[test]
fn rotation_wraps_after_three() {
    let mut f = field_with(PieceKind::T, 3, 4, 4);
    f.apply_action(action(TetraminoMove::Stay, true, false, false));
    assert_eq!(f.rot, 0);
}

#[test]
fn hard_drop_lands_where_single_steps_stop() {
    for kind in [PieceKind::I, PieceKind::O, PieceKind::T, PieceKind::S] {
        let mut base = field_with(kind, 1, 3, 0);
        set(&mut base, 4, 15, GREY);
        set(&mut base, 3, 17, GREY);
        let mut dropped = TetrisField::new(TetraminoBitmap::of(kind));
        dropped.game_field = base.game_field.clone();
        dropped.rot = 1;
        assert!(dropped.v_step(true));
        let mut stepped = TetrisField::new(TetraminoBitmap::of(kind));
        stepped.game_field = base.game_field.clone();
        stepped.rot = 1;
        let mut n = 0;
        while !stepped.v_step(false) {
            n += 1;
        }
        assert_eq!(stepped.y_pos, dropped.y_pos);
        assert_eq!(n, dropped.y_pos);
        assert!(stepped.v_step(false));
        assert_eq!(stepped.y_pos, dropped.y_pos);
    }
}

#[test]
fn single_step_moves_one_row() {
    let mut f = field_with(PieceKind::O, 0, 4, 0);
    assert!(!f.v_step(false));
    assert_eq!(f.y_pos, 1);
    let mut g = field_with(PieceKind::O, 0, 4, 18);
    assert!(g.v_step(false));
    assert_eq!(g.y_pos, 18);
}

#[test]
fn score_for_each_count() {
    assert_eq!(line_score(0), 0);
    assert_eq!(line_score(1), 100);
    assert_eq!(line_score(2), 300);
    assert_eq!(line_score(3), 700);
    assert_eq!(line_score(4), 1500);
}

#[test]
fn lock_scores_cleared_rows() {
    let deltas = [0u64, 100, 300, 700, 1500];
    for count in 0..5usize {
        let mut f = field_with(PieceKind::O, 0, 4, 10);
        f.score = 40;
        for r in 0..count {
            fill_row(&mut f, 19 - r, None);
        }
        fill_row(&mut f, 19 - count, Some(0));
        let over = f.lock_piece(TetraminoBitmap::of(PieceKind::T));
        assert!(!over);
        assert_eq!(f.score, 40 + deltas[count]);
    }
}

#[test]
fn paint_then_erase_restores_field() {
    for (x, y) in [(3, 4), (-2, 0), (8, 18), (-1, -2), (7, 19)] {
        let mut f = field_with(PieceKind::L, 2, x, y);
        fill_row(&mut f, 10, Some(2));
        set(&mut f, 9, 0, GREY);
        let before = f.game_field.clone();
        f.paint_piece();
        f.erase_piece();
        assert_eq!(f.game_field, before);
    }
}

#[test]
fn paint_writes_only_in_field_cells() {
    let mut f = field_with(PieceKind::I, 1, 8, 3);
    f.paint_piece();
    let c = TetrisCell::Brick(20, 162, 236);
    assert_eq!(get(&f, 8, 4), c);
    assert_eq!(get(&f, 9, 4), c);
    assert_eq!(f.game_field.iter().filter(|x| **x != TetrisCell::Empty).count(), 2);
}

#[test]
fn i_piece_turned_once_fits_at_spawn() {
    let f = field_with(PieceKind::I, 1, 3, 0);
    assert!(!f.check_collisions());
}

#[test]
fn single_gap_row_cleared_by_lock() {
    let mut f = field_with(PieceKind::I, 0, 4, 19);
    for x in [0, 2, 3, 8] {
        set(&mut f, x, 18, TetrisCell::Brick(1, 2, x as u8));
    }
    fill_row(&mut f, 19, Some(5));
    let row18: Vec<TetrisCell> = (0..10).map(|x| get(&f, x, 18)).collect();
    let row17: Vec<TetrisCell> = (0..10).map(|x| get(&f, x, 17)).collect();
    // an I piece standing upright at anchor (4, 19) covers (5, 19) only
    f.paint_piece();
    assert_eq!(get(&f, 5, 19), TetrisCell::Brick(20, 162, 236));
    let mut copy = TetrisField::new(TetraminoBitmap::of(PieceKind::I));
    copy.game_field = f.game_field.clone();
    assert_eq!(copy.refresh_field(), 1);
    let over = f.lock_piece(TetraminoBitmap::of(PieceKind::T));
    assert!(!over);
    assert_eq!(f.score, 100);
    let new19: Vec<TetrisCell> = (0..10).map(|x| get(&f, x, 19)).collect();
    let new18: Vec<TetrisCell> = (0..10).map(|x| get(&f, x, 18)).collect();
    assert_eq!(new19, row18);
    assert_eq!(new18, row17);
}

#[test]
fn top_row_kept_after_full_board_clear() {
    let mut f = field_with(PieceKind::I, 1, 3, -1);
    for y in 1..20 {
        fill_row(&mut f, y, None);
    }
    for x in 0..10 {
        if !(3..7).contains(&x) {
            set(&mut f, x, 0, TetrisCell::Brick(50, 50, x as u8));
        }
    }
    f.paint_piece();
    let row0: Vec<TetrisCell> = (0..10).map(|x| get(&f, x, 0)).collect();
    assert!(row0.iter().all(|c| *c != TetrisCell::Empty));
    let over = f.lock_piece(TetraminoBitmap::of(PieceKind::O));
    let after0: Vec<TetrisCell> = (0..10).map(|x| get(&f, x, 0)).collect();
    assert_eq!(after0, row0);
    for y in 1..20 {
        let row: Vec<TetrisCell> = (0..10).map(|x| get(&f, x, y)).collect();
        assert_eq!(row, row0);
    }
    assert!(over);
}

#[test]
fn spawn_on_filled_top_is_game_over() {
    let mut f = field_with(PieceKind::O, 0, 0, 10);
    for y in 0..2 {
        for x in 3..6 {
            set(&mut f, x, y, GREY);
        }
    }
    let over = f.lock_piece(TetraminoBitmap::of(PieceKind::T));
    assert!(over);
    assert_eq!((f.x_pos, f.y_pos, f.rot), (3, 0, 0));
    assert!(f.check_collisions());
}

#[test]
fn last_horizontal_event_wins() {
    let a = fold_events(&vec![InputEvent::Left, InputEvent::Rotate, InputEvent::Right]);
    assert_eq!(a, action(TetraminoMove::Right, true, false, false));
    let b = fold_events(&vec![InputEvent::Right, InputEvent::Drop, InputEvent::Left, InputEvent::Quit]);
    assert_eq!(b, action(TetraminoMove::Left, false, true, true));
    assert_eq!(fold_events(&vec![]), action(TetraminoMove::Stay, false, false, false));
}

#[test]
fn sub_frame_outcomes() {
    let mut f = field_with(PieceKind::T, 0, 4, 4);
    assert_eq!(f.sub_frame(action(TetraminoMove::Right, true, true, true)), SubFrame::Quit);
    assert_eq!((f.x_pos, f.rot), (4, 0));
    assert_eq!(f.sub_frame(action(TetraminoMove::Right, false, true, false)), SubFrame::Drop);
    assert_eq!(f.x_pos, 5);
    assert_eq!(f.sub_frame(action(TetraminoMove::Stay, false, false, false)), SubFrame::Continue { redraw: false });
    assert_eq!(f.sub_frame(action(TetraminoMove::Stay, true, false, false)), SubFrame::Continue { redraw: true });
    assert_eq!(f.rot, 1);
}

#[test]
fn vertical_step_paints_resting_piece() {
    let mut f = field_with(PieceKind::O, 0, 0, 0);
    assert!(f.vertical_step(true));
    assert_eq!(f.y_pos, 18);
    let c = TetrisCell::Brick(254, 199, 18);
    assert_eq!(get(&f, 0, 19), c);
    assert_eq!(get(&f, 1, 18), c);
    assert_eq!(f.game_field.iter().filter(|x| **x != TetrisCell::Empty).count(), 4);
}

fn filled_top(rows_full: &[usize]) -> TetrisField {
    let mut f = field_with(PieceKind::O, 0, 0, 10);
    for y in 0..2 {
        for x in 3..6 {
            set(&mut f, x, y, GREY);
        }
    }
    for &y in rows_full {
        fill_row(&mut f, y, None);
    }
    f
}

#[test]
fn filled_top_ends_game_for_every_kind() {
    for kind in [PieceKind::I, PieceKind::L, PieceKind::J, PieceKind::O, PieceKind::S, PieceKind::T, PieceKind::Z] {
        let mut f = filled_top(&[1, 7]);
        let over = f.lock_piece(TetraminoBitmap::of(kind));
        assert!(over, "{:?}", kind);
        assert_eq!(f.score, 300);
        for x in 3..6 {
            assert_ne!(get(&f, x, 0), TetrisCell::Empty);
            assert_ne!(get(&f, x, 1), TetrisCell::Empty);
        }
    }
}

#[test]
fn lock_and_draw_spawns_a_catalog_piece() {
    let mut rng = rand::thread_rng();
    let mut f = filled_top(&[19]);
    assert!(f.lock_and_draw(&mut rng));
    assert_eq!(f.score, 100);
    assert_eq!((f.x_pos, f.y_pos, f.rot), (3, 0, 0));
    let mut g = field_with(PieceKind::T, 0, 0, 10);
    fill_row(&mut g, 19, None);
    assert!(!g.lock_and_draw(&mut rng));
    assert_eq!(g.score, 100);
    assert!(g.game_field.iter().all(|c| *c == TetrisCell::Empty));
}
