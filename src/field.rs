//! The play field: a 10 x 20 grid of settled cells and the active piece, with
//! collision testing, stamping, descent, line clearing and scoring.
use crate::round::{move_delta, TetraminoAction, TetraminoMove};
use crate::shapes::{color_of, dimension_of, get_random, kind_at, KIND_COUNT, lemma_probe_cell, occupied, probe_cell, PieceKind, TetraminoBitmap};
use rand::rngs::ThreadRng;
use vstd::prelude::*;

verus! {

pub const FIELD_WIDTH: usize = 10;

pub const FIELD_HEIGHT: usize = 20;

pub const FIELD_CELLS: usize = 200;

/// Column of the anchor of a freshly spawned piece: half the width, less two.
pub const SPAWN_X: i32 = 3;

/// A cell of the field: empty, or filled with the color of the piece that
/// settled there.
#[derive(Clone, Copy, Debug, PartialEq, Eq, Structural)]
pub enum TetrisCell {
    Empty,
    Brick(u8, u8, u8),
}

impl TetrisCell {
    pub fn from_color(rgb_color: (u8, u8, u8)) -> (r: TetrisCell)
        ensures
            r == TetrisCell::Brick(rgb_color.0, rgb_color.1, rgb_color.2),
    {
        TetrisCell::Brick(rgb_color.0, rgb_color.1, rgb_color.2)
    }
}

pub open spec fn in_field(x: int, y: int) -> bool {
    0 <= x < FIELD_WIDTH && 0 <= y < FIELD_HEIGHT
}

/// Position of cell (x, y) in the row-major cell sequence.
pub open spec fn cell_index(x: int, y: int) -> int {
    y * FIELD_WIDTH + x
}

/// A cell that a piece cannot occupy: outside the field, or not empty.
pub open spec fn blocked(cells: Seq<TetrisCell>, x: int, y: int) -> bool {
    !in_field(x, y) || cells[cell_index(x, y)] != TetrisCell::Empty
}

/// Whether field cell (x, y) is one of the cells of a piece of `kind` at
/// rotation `rot` anchored at (ax, ay).
pub open spec fn covers(kind: PieceKind, rot: int, ax: int, ay: int, x: int, y: int) -> bool {
    &&& 0 <= x - ax < dimension_of(kind, rot).0
    &&& 0 <= y - ay < dimension_of(kind, rot).1
    &&& occupied(kind, rot, x - ax, y - ay)
}

/// Whether some occupied cell of the piece lies outside the field or on a
/// non-empty cell.
pub open spec fn collides_at(cells: Seq<TetrisCell>, kind: PieceKind, rot: int, ax: int, ay: int) -> bool {
    exists|dx: int, dy: int|
        0 <= dx < dimension_of(kind, rot).0 && 0 <= dy < dimension_of(kind, rot).1
            && #[trigger] occupied(kind, rot, dx, dy) && blocked(cells, ax + dx, ay + dy)
}

/// The cells after writing `fill` into every in-field cell of the piece.
pub open spec fn stamped(
    cells: Seq<TetrisCell>,
    kind: PieceKind,
    rot: int,
    ax: int,
    ay: int,
    fill: TetrisCell,
) -> Seq<TetrisCell> {
    Seq::new(
        cells.len(),
        |i: int|
            if covers(kind, rot, ax, ay, i % FIELD_WIDTH as int, i / FIELD_WIDTH as int) {
                fill
            } else {
                cells[i]
            },
    )
}

/// `stamped`, done for the rows of the bounding box above `ny` and the first
/// `nx` columns of row `ny`.
spec fn stamped_upto(
    cells: Seq<TetrisCell>,
    kind: PieceKind,
    rot: int,
    ax: int,
    ay: int,
    fill: TetrisCell,
    ny: int,
    nx: int,
) -> Seq<TetrisCell> {
    Seq::new(
        cells.len(),
        |i: int|
            if covers(kind, rot, ax, ay, i % FIELD_WIDTH as int, i / FIELD_WIDTH as int) && (i
                / FIELD_WIDTH as int - ay < ny || (i / FIELD_WIDTH as int - ay == ny && i
                % FIELD_WIDTH as int - ax < nx)) {
                fill
            } else {
                cells[i]
            },
    )
}

/// Column of the anchor after trying a horizontal move: the move is kept
/// unless the piece would collide there.
pub open spec fn moved_x(
    cells: Seq<TetrisCell>,
    kind: PieceKind,
    rot: int,
    ax: int,
    ay: int,
    m: TetraminoMove,
) -> int {
    if collides_at(cells, kind, rot, ax + move_delta(m), ay) {
        ax
    } else {
        ax + move_delta(m)
    }
}

/// Rotation after trying a quarter turn (when `turn` is set): the turn is
/// kept unless the piece would collide in the new rotation.
pub open spec fn turned_rot(
    cells: Seq<TetrisCell>,
    kind: PieceKind,
    rot: int,
    ax: int,
    ay: int,
    turn: bool,
) -> int {
    if !turn {
        rot
    } else if collides_at(cells, kind, (rot + 1) % 4, ax, ay) {
        rot
    } else {
        (rot + 1) % 4
    }
}

/// Row of the anchor after one gravity step: one row down unless the piece
/// would collide there.
pub open spec fn step_row(cells: Seq<TetrisCell>, kind: PieceKind, rot: int, ax: int, ay: int) -> int {
    if collides_at(cells, kind, rot, ax, ay + 1) {
        ay
    } else {
        ay + 1
    }
}

/// Row where the piece comes to rest when it keeps falling one row at a time
/// until the next row collides.
pub open spec fn drop_row(cells: Seq<TetrisCell>, kind: PieceKind, rot: int, ax: int, ay: int) -> int
    decreases FIELD_HEIGHT - ay,
{
    if ay >= FIELD_HEIGHT || collides_at(cells, kind, rot, ax, ay + 1) {
        ay
    } else {
        drop_row(cells, kind, rot, ax, ay + 1)
    }
}

/// The anchor row after `n` gravity steps.
pub open spec fn steps_row(
    cells: Seq<TetrisCell>,
    kind: PieceKind,
    rot: int,
    ax: int,
    ay: int,
    n: nat,
) -> int
    decreases n,
{
    if n == 0 {
        ay
    } else {
        steps_row(cells, kind, rot, ax, step_row(cells, kind, rot, ax, ay), (n - 1) as nat)
    }
}

/// Whether every cell of row `y` is filled.
pub open spec fn row_full(cells: Seq<TetrisCell>, y: int) -> bool {
    forall|x: int| 0 <= x < FIELD_WIDTH ==> #[trigger] cells[cell_index(x, y)] != TetrisCell::Empty
}

/// The cells after moving rows 0 .. row - 1 down by one onto rows
/// 1 .. row; row 0 keeps its content.
pub open spec fn shift_down(cells: Seq<TetrisCell>, row: int) -> Seq<TetrisCell> {
    Seq::new(
        cells.len(),
        |i: int|
            if FIELD_WIDTH <= i < (row + 1) * FIELD_WIDTH {
                cells[i - FIELD_WIDTH]
            } else {
                cells[i]
            },
    )
}

/// One top-down pass from row `row`: each row found full, in the cells as
/// they stand when the pass reaches it, has the rows above it shifted onto
/// it. Gives the cells after the pass and the number of full rows found.
pub open spec fn clear_scan(cells: Seq<TetrisCell>, row: int) -> (Seq<TetrisCell>, nat)
    decreases FIELD_HEIGHT - row,
{
    if row >= FIELD_HEIGHT {
        (cells, 0)
    } else if row_full(cells, row) {
        let (c, n) = clear_scan(shift_down(cells, row), row + 1);
        (c, n + 1)
    } else {
        clear_scan(cells, row + 1)
    }
}

/// Score for the number of rows cleared by one lock.
pub open spec fn line_points(count: int) -> u64 {
    if count == 1 {
        100
    } else if count == 2 {
        300
    } else if count == 3 {
        700
    } else if count == 4 {
        1500
    } else {
        0
    }
}

/// Score for the number of rows cleared by one lock.
pub fn line_score(count: u8) -> (r: u64)
    ensures
        r == line_points(count as int),
{
    match count {
        1 => 100,
        2 => 300,
        3 => 700,
        4 => 1500,
        _ => 0,
    }
}

/// A piece that does not collide stands within two cells of the field.
proof fn lemma_free_position_bounds(cells: Seq<TetrisCell>, kind: PieceKind, rot: int, ax: int, ay: int)
    requires
        0 <= rot < 4,
        !collides_at(cells, kind, rot, ax, ay),
    ensures
        -2 <= ax <= 8,
        -2 <= ay <= 18,
{
    lemma_probe_cell(kind, rot);
    let (px, py) = probe_cell(kind, rot);
    assert(!blocked(cells, ax + px, ay + py));
}

/// A hard drop lands where repeated gravity steps do: after as many single
/// steps as the drop fell, the piece stands on the drop's row, and a further
/// step leaves it there.
pub proof fn lemma_hard_drop_matches_steps(
    cells: Seq<TetrisCell>,
    kind: PieceKind,
    rot: int,
    ax: int,
    ay: int,
)
    requires
        0 <= rot < 4,
    ensures
        drop_row(cells, kind, rot, ax, ay) >= ay,
        steps_row(
            cells,
            kind,
            rot,
            ax,
            ay,
            (drop_row(cells, kind, rot, ax, ay) - ay) as nat,
        ) == drop_row(cells, kind, rot, ax, ay),
        step_row(cells, kind, rot, ax, drop_row(cells, kind, rot, ax, ay)) == drop_row(
            cells,
            kind,
            rot,
            ax,
            ay,
        ),
    decreases FIELD_HEIGHT - ay,
{
    if !collides_at(cells, kind, rot, ax, ay + 1) {
        lemma_free_position_bounds(cells, kind, rot, ax, ay + 1);
        lemma_hard_drop_matches_steps(cells, kind, rot, ax, ay + 1);
        let n = (drop_row(cells, kind, rot, ax, ay) - ay) as nat;
        assert(n > 0);
        assert(steps_row(cells, kind, rot, ax, ay, n) == steps_row(
            cells,
            kind,
            rot,
            ax,
            ay + 1,
            (n - 1) as nat,
        ));
    }
}

/// Painting a piece and then erasing it gives back the cells as they were,
/// wherever the piece stands, provided the cells it paints were empty.
pub proof fn lemma_paint_erase_round_trip(
    cells: Seq<TetrisCell>,
    kind: PieceKind,
    rot: int,
    ax: int,
    ay: int,
    color: TetrisCell,
)
    requires
        forall|i: int|
            0 <= i < cells.len() && covers(kind, rot, ax, ay, i % FIELD_WIDTH as int, i / FIELD_WIDTH as int)
                ==> #[trigger] cells[i] == TetrisCell::Empty,
    ensures
        stamped(stamped(cells, kind, rot, ax, ay, color), kind, rot, ax, ay, TetrisCell::Empty)
            == cells,
{
    assert(stamped(stamped(cells, kind, rot, ax, ay, color), kind, rot, ax, ay, TetrisCell::Empty)
        =~= cells);
}

/// Clearing never empties a cell of rows 0 and 1: row 0 is never shifted, and
/// row 1 only ever receives row 0.
proof fn lemma_scan_keeps_top(cells: Seq<TetrisCell>, row: int, x: int)
    requires
        cells.len() == FIELD_CELLS,
        0 <= row,
        0 <= x < FIELD_WIDTH,
        cells[cell_index(x, 0)] != TetrisCell::Empty,
        cells[cell_index(x, 1)] != TetrisCell::Empty,
    ensures
        clear_scan(cells, row).0.len() == FIELD_CELLS,
        clear_scan(cells, row).0[cell_index(x, 0)] != TetrisCell::Empty,
        clear_scan(cells, row).0[cell_index(x, 1)] != TetrisCell::Empty,
    decreases FIELD_HEIGHT - row,
{
    if row < FIELD_HEIGHT {
        if row_full(cells, row) {
            let c = shift_down(cells, row);
            assert(c[cell_index(x, 0)] == cells[cell_index(x, 0)]);
            assert(c[cell_index(x, 1)] != TetrisCell::Empty);
            lemma_scan_keeps_top(c, row + 1, x);
        } else {
            lemma_scan_keeps_top(cells, row + 1, x);
        }
    }
}

/// A field whose rows 0 and 1 are filled in columns 3 to 5 still has them
/// filled after its full rows are cleared, so the next piece, of any kind,
/// collides where it spawns and the game is over.
pub proof fn lemma_filled_top_ends_game(cells: Seq<TetrisCell>, kind: PieceKind)
    requires
        cells.len() == FIELD_CELLS,
        forall|x: int, y: int|
            3 <= x <= 5 && 0 <= y <= 1 ==> #[trigger] cells[cell_index(x, y)] != TetrisCell::Empty,
    ensures
        collides_at(clear_scan(cells, 0).0, kind, 0, SPAWN_X as int, 0),
{
    assert(cells[cell_index(3, 0)] != TetrisCell::Empty && cells[cell_index(3, 1)] != TetrisCell::Empty);
    assert(cells[cell_index(4, 0)] != TetrisCell::Empty && cells[cell_index(4, 1)] != TetrisCell::Empty);
    lemma_scan_keeps_top(cells, 0, 3);
    lemma_scan_keeps_top(cells, 0, 4);
    let c = clear_scan(cells, 0).0;
    match kind {
        PieceKind::O | PieceKind::Z => {
            assert(occupied(kind, 0, 0, 0) && blocked(c, 3, 0));
        },
        PieceKind::S => {
            assert(occupied(kind, 0, 1, 1) && blocked(c, 4, 1));
        },
        _ => {
            assert(occupied(kind, 0, 1, 0) && blocked(c, 4, 0));
        },
    }
}

/// A pass that meets no full row from `row` on leaves the cells as they are.
proof fn lemma_scan_none_full(cells: Seq<TetrisCell>, row: int)
    requires
        forall|y: int| row <= y < FIELD_HEIGHT ==> !#[trigger] row_full(cells, y),
    ensures
        clear_scan(cells, row) == (cells, 0nat),
    decreases FIELD_HEIGHT - row,
{
    if row < FIELD_HEIGHT {
        assert(!row_full(cells, row));
        lemma_scan_none_full(cells, row + 1);
    }
}

/// Rows that are not full are passed over.
proof fn lemma_scan_skip(cells: Seq<TetrisCell>, from: int, to: int)
    requires
        0 <= from <= to <= FIELD_HEIGHT,
        forall|y: int| from <= y < to ==> !#[trigger] row_full(cells, y),
    ensures
        clear_scan(cells, from) == clear_scan(cells, to),
    decreases to - from,
{
    if from < to {
        assert(!row_full(cells, from));
        lemma_scan_skip(cells, from + 1, to);
    }
}

/// When exactly one row is full, the pass clears that row alone: the rows
/// above it move down by one, row 0 keeps its content, and the count is one.
pub proof fn lemma_single_full_row(cells: Seq<TetrisCell>, r: int)
    requires
        cells.len() == FIELD_CELLS,
        0 <= r < FIELD_HEIGHT,
        row_full(cells, r),
        forall|y: int| 0 <= y < FIELD_HEIGHT && y != r ==> !#[trigger] row_full(cells, y),
    ensures
        clear_scan(cells, 0) == (shift_down(cells, r), 1nat),
        line_points(clear_scan(cells, 0).1 as int) == 100,
{
    lemma_scan_skip(cells, 0, r);
    let c = shift_down(cells, r);
    assert forall|y: int| r + 1 <= y < FIELD_HEIGHT implies !#[trigger] row_full(c, y) by {
        assert(!row_full(cells, y));
        let x = choose|x: int| 0 <= x < FIELD_WIDTH && cells[cell_index(x, y)] == TetrisCell::Empty;
        assert(c[cell_index(x, y)] == cells[cell_index(x, y)]);
    }
    lemma_scan_none_full(c, r + 1);
}

/// The field grid and the active piece.
pub struct TetrisField {
    /// Settled cells, row-major, row 0 at the top.
    pub game_field: Vec<TetrisCell>,
    pub x_pos: i32,
    pub y_pos: i32,
    /// Rotation index, 0..3.
    pub rot: u8,
    pub curr_tetr: TetraminoBitmap,
    pub score: u64,
}

impl TetrisField {
    /// The grid has its fixed size, the rotation is an index, and the anchor
    /// stays near the field.
    pub open spec fn wf(&self) -> bool {
        &&& self.game_field@.len() == FIELD_CELLS
        &&& self.rot < 4
        &&& -100 <= self.x_pos <= 100
        &&& -100 <= self.y_pos <= 100
    }

    /// `wf`, allowing the anchor one step further out while a move is probed.
    pub open spec fn probe_wf(&self) -> bool {
        &&& self.game_field@.len() == FIELD_CELLS
        &&& self.rot < 4
        &&& -101 <= self.x_pos <= 101
        &&& -101 <= self.y_pos <= 101
    }

    pub open spec fn collides(&self) -> bool {
        collides_at(
            self.game_field@,
            self.curr_tetr.kind,
            self.rot as int,
            self.x_pos as int,
            self.y_pos as int,
        )
    }

    /// Whether the active piece collides with the field's edges or with a
    /// settled cell.
    pub fn check_collisions(&self) -> (r: bool)
        requires
            self.probe_wf(),
        ensures
            r == self.collides(),
    {
        let ghost kind = self.curr_tetr.kind;
        let ghost rot = self.rot as int;
        let ghost cells = self.game_field@;
        let (w, h) = self.curr_tetr.get_dimension(self.rot);
        let mut y: u8 = 0;
        while y < h
            invariant
                self.probe_wf(),
                kind == self.curr_tetr.kind,
                rot == self.rot,
                cells == self.game_field@,
                (w, h) == dimension_of(kind, rot),
                y <= h,
                forall|dx: int, dy: int|
                    0 <= dx < w && 0 <= dy < y && #[trigger] occupied(kind, rot, dx, dy) ==> !blocked(
                        cells,
                        self.x_pos + dx,
                        self.y_pos + dy,
                    ),
            decreases h - y,
        {
            let mut x: u8 = 0;
            while x < w
                invariant
                    self.probe_wf(),
                    kind == self.curr_tetr.kind,
                    rot == self.rot,
                    cells == self.game_field@,
                    (w, h) == dimension_of(kind, rot),
                    y < h,
                    x <= w,
                    forall|dx: int, dy: int|
                        0 <= dx < w && 0 <= dy < h && (dy < y || (dy == y && dx < x))
                            && #[trigger] occupied(kind, rot, dx, dy) ==> !blocked(
                            cells,
                            self.x_pos + dx,
                            self.y_pos + dy,
                        ),
                decreases w - x,
            {
                let y_gpos: i32 = y as i32 + self.y_pos;
                let x_gpos: i32 = x as i32 + self.x_pos;
                if !self.curr_tetr.is_empty_cell(x, y, self.rot) {
                    if x_gpos >= FIELD_WIDTH as i32 || y_gpos >= FIELD_HEIGHT as i32 || x_gpos < 0
                        || y_gpos < 0 {
                        assert(blocked(cells, self.x_pos + x, self.y_pos + y));
                        return true;
                    }
                    let idx: usize = y_gpos as usize * FIELD_WIDTH + x_gpos as usize;
                    if self.game_field[idx] != TetrisCell::Empty {
                        assert(blocked(cells, self.x_pos + x, self.y_pos + y));
                        return true;
                    }
                }
                x += 1;
            }
            y += 1;
        }
        false
    }

    /// Writes `fill_value` into every in-field cell of the active piece; cells
    /// of the piece outside the field are skipped.
    pub fn inject_tetr(&mut self, fill_value: TetrisCell)
        requires
            old(self).wf(),
        ensures
            final(self).game_field@ == stamped(
                old(self).game_field@,
                old(self).curr_tetr.kind,
                old(self).rot as int,
                old(self).x_pos as int,
                old(self).y_pos as int,
                fill_value,
            ),
            final(self).x_pos == old(self).x_pos,
            final(self).y_pos == old(self).y_pos,
            final(self).rot == old(self).rot,
            final(self).curr_tetr == old(self).curr_tetr,
            final(self).score == old(self).score,
    {
        let ghost kind = self.curr_tetr.kind;
        let ghost rot = self.rot as int;
        let ghost cells = self.game_field@;
        let ghost ax = self.x_pos as int;
        let ghost ay = self.y_pos as int;
        let (w, h) = self.curr_tetr.get_dimension(self.rot);
        let mut y: u8 = 0;
        while y < h
            invariant
                self.wf(),
                kind == self.curr_tetr.kind,
                rot == self.rot,
                ax == self.x_pos,
                ay == self.y_pos,
                cells.len() == FIELD_CELLS,
                (w, h) == dimension_of(kind, rot),
                y <= h,
                self.game_field@ == stamped_upto(cells, kind, rot, ax, ay, fill_value, y as int, 0),
                self.score == old(self).score,
                self.curr_tetr == old(self).curr_tetr,
            decreases h - y,
        {
            let mut x: u8 = 0;
            while x < w
                invariant
                    self.wf(),
                    kind == self.curr_tetr.kind,
                    rot == self.rot,
                    ax == self.x_pos,
                    ay == self.y_pos,
                    cells.len() == FIELD_CELLS,
                    (w, h) == dimension_of(kind, rot),
                    y < h,
                    x <= w,
                    self.game_field@ == stamped_upto(cells, kind, rot, ax, ay, fill_value, y as int, x as int),
                    self.score == old(self).score,
                    self.curr_tetr == old(self).curr_tetr,
                decreases w - x,
            {
                let y_gpos: i32 = y as i32 + self.y_pos;
                let x_gpos: i32 = x as i32 + self.x_pos;
                let ghost before = self.game_field@;
                if x_gpos < FIELD_WIDTH as i32 && y_gpos < FIELD_HEIGHT as i32 && x_gpos >= 0
                    && y_gpos >= 0 && !self.curr_tetr.is_empty_cell(x, y, self.rot) {
                    let idx: usize = y_gpos as usize * FIELD_WIDTH + x_gpos as usize;
                    self.game_field.set(idx, fill_value);
                    assert(self.game_field@ =~= stamped_upto(
                        cells, kind, rot, ax, ay, fill_value, y as int, x + 1,
                    ));
                } else {
                    assert(before =~= stamped_upto(
                        cells, kind, rot, ax, ay, fill_value, y as int, x + 1,
                    ));
                }
                x += 1;
            }
            assert(self.game_field@ =~= stamped_upto(
                cells, kind, rot, ax, ay, fill_value, y + 1, 0,
            ));
            y += 1;
        }
        assert(self.game_field@ =~= stamped(cells, kind, rot, ax, ay, fill_value));
    }
    /// Tries the action's horizontal move, then its rotation; each is undone
    /// if the piece then collides.
    pub fn apply_action(&mut self, action: TetraminoAction)
        requires
            old(self).wf(),
        ensures
            final(self).wf(),
            final(self).x_pos == moved_x(
                old(self).game_field@,
                old(self).curr_tetr.kind,
                old(self).rot as int,
                old(self).x_pos as int,
                old(self).y_pos as int,
                action.tetr_move,
            ),
            final(self).rot == turned_rot(
                old(self).game_field@,
                old(self).curr_tetr.kind,
                old(self).rot as int,
                final(self).x_pos as int,
                old(self).y_pos as int,
                action.tetr_switch_rot,
            ),
            final(self).game_field@ == old(self).game_field@,
            final(self).y_pos == old(self).y_pos,
            final(self).curr_tetr == old(self).curr_tetr,
            final(self).score == old(self).score,
    {
        let x_delta: i32 = match action.tetr_move {
            TetraminoMove::Right => 1,
            TetraminoMove::Left => -1,
            TetraminoMove::Stay => 0,
        };
        self.x_pos = self.x_pos + x_delta;
        if self.check_collisions() {
            self.x_pos = self.x_pos - x_delta;
        } else {
            proof {
                lemma_free_position_bounds(
                    self.game_field@,
                    self.curr_tetr.kind,
                    self.rot as int,
                    self.x_pos as int,
                    self.y_pos as int,
                );
            }
        }
        if action.tetr_switch_rot {
            self.rot = (self.rot + 1) % 4;
            if self.check_collisions() {
                self.rot = (self.rot + 3) % 4;
            }
        }
    }

    /// Moves the piece down one row, or back where it was if it collides
    /// there. With `force_down` the step repeats until the piece collides.
    /// Returns whether the piece has come to rest.
    pub fn v_step(&mut self, force_down: bool) -> (locked: bool)
        requires
            old(self).wf(),
        ensures
            final(self).wf(),
            !force_down ==> locked == collides_at(
                old(self).game_field@,
                old(self).curr_tetr.kind,
                old(self).rot as int,
                old(self).x_pos as int,
                old(self).y_pos + 1,
            ),
            !force_down ==> final(self).y_pos == step_row(
                old(self).game_field@,
                old(self).curr_tetr.kind,
                old(self).rot as int,
                old(self).x_pos as int,
                old(self).y_pos as int,
            ),
            force_down ==> locked,
            force_down ==> final(self).y_pos == drop_row(
                old(self).game_field@,
                old(self).curr_tetr.kind,
                old(self).rot as int,
                old(self).x_pos as int,
                old(self).y_pos as int,
            ),
            final(self).game_field@ == old(self).game_field@,
            final(self).x_pos == old(self).x_pos,
            final(self).rot == old(self).rot,
            final(self).curr_tetr == old(self).curr_tetr,
            final(self).score == old(self).score,
    {
        let ghost cells = self.game_field@;
        let ghost kind = self.curr_tetr.kind;
        let ghost rot = self.rot as int;
        let ghost ax = self.x_pos as int;
        loop
            invariant
                self.wf(),
                cells == self.game_field@,
                cells == old(self).game_field@,
                kind == self.curr_tetr.kind,
                kind == old(self).curr_tetr.kind,
                rot == self.rot,
                rot == old(self).rot,
                ax == self.x_pos,
                ax == old(self).x_pos,
                self.curr_tetr == old(self).curr_tetr,
                self.score == old(self).score,
                !force_down ==> self.y_pos == old(self).y_pos,
                force_down ==> drop_row(cells, kind, rot, ax, self.y_pos as int) == drop_row(
                    cells,
                    kind,
                    rot,
                    ax,
                    old(self).y_pos as int,
                ),
            decreases 100 - self.y_pos,
        {
            self.y_pos += 1;
            let is_collide = self.check_collisions();
            if is_collide {
                self.y_pos -= 1;
                return true;
            }
            proof {
                lemma_free_position_bounds(cells, kind, rot, ax, self.y_pos as int);
            }
            if !force_down {
                return false;
            }
        }
    }

    /// Whether row `row` is full.
    fn row_is_full(&self, row: usize) -> (r: bool)
        requires
            self.wf(),
            row < FIELD_HEIGHT,
        ensures
            r == row_full(self.game_field@, row as int),
    {
        let mut x: usize = 0;
        while x < FIELD_WIDTH
            invariant
                self.wf(),
                row < FIELD_HEIGHT,
                x <= FIELD_WIDTH,
                forall|c: int|
                    0 <= c < x ==> #[trigger] self.game_field@[cell_index(c, row as int)]
                        != TetrisCell::Empty,
            decreases FIELD_WIDTH - x,
        {
            if self.game_field[row * FIELD_WIDTH + x] == TetrisCell::Empty {
                assert(self.game_field@[cell_index(x as int, row as int)] == TetrisCell::Empty);
                return false;
            }
            x += 1;
        }
        true
    }

    /// Shifts rows 0 .. line_ind - 1 down by one onto rows 1 .. line_ind.
    fn clear_line(&mut self, line_ind: usize)
        requires
            old(self).wf(),
            line_ind < FIELD_HEIGHT,
        ensures
            final(self).game_field@ == shift_down(old(self).game_field@, line_ind as int),
            final(self).x_pos == old(self).x_pos,
            final(self).y_pos == old(self).y_pos,
            final(self).rot == old(self).rot,
            final(self).curr_tetr == old(self).curr_tetr,
            final(self).score == old(self).score,
    {
        let ghost cells = self.game_field@;
        let mut k: usize = line_ind;
        while k > 0
            invariant
                self.wf(),
                cells.len() == FIELD_CELLS,
                k <= line_ind < FIELD_HEIGHT,
                forall|i: int|
                    0 <= i < FIELD_CELLS ==> #[trigger] self.game_field@[i] == if (k + 1) * FIELD_WIDTH
                        <= i < (line_ind + 1) * FIELD_WIDTH {
                        cells[i - FIELD_WIDTH]
                    } else {
                        cells[i]
                    },
                self.x_pos == old(self).x_pos,
                self.y_pos == old(self).y_pos,
                self.rot == old(self).rot,
                self.curr_tetr == old(self).curr_tetr,
                self.score == old(self).score,
            decreases k,
        {
            let mut x: usize = 0;
            while x < FIELD_WIDTH
                invariant
                    self.wf(),
                    cells.len() == FIELD_CELLS,
                    0 < k <= line_ind < FIELD_HEIGHT,
                    x <= FIELD_WIDTH,
                    forall|i: int|
                        0 <= i < FIELD_CELLS ==> #[trigger] self.game_field@[i] == if (k + 1)
                            * FIELD_WIDTH <= i < (line_ind + 1) * FIELD_WIDTH || k * FIELD_WIDTH <= i
                            < k * FIELD_WIDTH + x {
                            cells[i - FIELD_WIDTH]
                        } else {
                            cells[i]
                        },
                    self.x_pos == old(self).x_pos,
                    self.y_pos == old(self).y_pos,
                    self.rot == old(self).rot,
                    self.curr_tetr == old(self).curr_tetr,
                    self.score == old(self).score,
                decreases FIELD_WIDTH - x,
            {
                let v = self.game_field[(k - 1) * FIELD_WIDTH + x];
                self.game_field.set(k * FIELD_WIDTH + x, v);
                x += 1;
            }
            k -= 1;
        }
        assert(self.game_field@ =~= shift_down(cells, line_ind as int));
    }

    /// Clears full rows in one top-down pass and returns how many were full.
    pub fn refresh_field(&mut self) -> (cnt: u8)
        requires
            old(self).wf(),
        ensures
            final(self).wf(),
            final(self).game_field@ == clear_scan(old(self).game_field@, 0).0,
            cnt == clear_scan(old(self).game_field@, 0).1,
            final(self).x_pos == old(self).x_pos,
            final(self).y_pos == old(self).y_pos,
            final(self).rot == old(self).rot,
            final(self).curr_tetr == old(self).curr_tetr,
            final(self).score == old(self).score,
    {
        let ghost cells = self.game_field@;
        let mut cnt: u8 = 0;
        let mut i: usize = 0;
        while i < FIELD_HEIGHT
            invariant
                self.wf(),
                i <= FIELD_HEIGHT,
                cnt <= i,
                clear_scan(self.game_field@, i as int).0 == clear_scan(cells, 0).0,
                cnt + clear_scan(self.game_field@, i as int).1 == clear_scan(cells, 0).1,
                self.x_pos == old(self).x_pos,
                self.y_pos == old(self).y_pos,
                self.rot == old(self).rot,
                self.curr_tetr == old(self).curr_tetr,
                self.score == old(self).score,
            decreases FIELD_HEIGHT - i,
        {
            if self.row_is_full(i) {
                self.clear_line(i);
                cnt += 1;
            }
            i += 1;
        }
        cnt
    }
    /// An empty field with `first` at the spawn column, top row, rotation 1.
    pub fn new(first: TetraminoBitmap) -> (r: TetrisField)
        ensures
            r.wf(),
            r.game_field@ == Seq::new(FIELD_CELLS as nat, |i: int| TetrisCell::Empty),
            r.x_pos == SPAWN_X,
            r.y_pos == 0,
            r.rot == 1,
            r.curr_tetr == first,
            r.score == 0,
    {
        let mut game_field: Vec<TetrisCell> = Vec::new();
        let mut i: usize = 0;
        while i < FIELD_CELLS
            invariant
                i <= FIELD_CELLS,
                game_field@ == Seq::new(i as nat, |j: int| TetrisCell::Empty),
            decreases FIELD_CELLS - i,
        {
            game_field.push(TetrisCell::Empty);
            i += 1;
            assert(game_field@ =~= Seq::new(i as nat, |j: int| TetrisCell::Empty));
        }
        TetrisField { game_field, x_pos: SPAWN_X, y_pos: 0, rot: 1, curr_tetr: first, score: 0 }
    }

    /// Paints the active piece into the field in its color.
    pub fn paint_piece(&mut self)
        requires
            old(self).wf(),
        ensures
            final(self).game_field@ == stamped(
                old(self).game_field@,
                old(self).curr_tetr.kind,
                old(self).rot as int,
                old(self).x_pos as int,
                old(self).y_pos as int,
                TetrisCell::Brick(
                    color_of(old(self).curr_tetr.kind).0,
                    color_of(old(self).curr_tetr.kind).1,
                    color_of(old(self).curr_tetr.kind).2,
                ),
            ),
            final(self).x_pos == old(self).x_pos,
            final(self).y_pos == old(self).y_pos,
            final(self).rot == old(self).rot,
            final(self).curr_tetr == old(self).curr_tetr,
            final(self).score == old(self).score,
    {
        let color = TetrisCell::from_color(self.curr_tetr.get_color());
        self.inject_tetr(color);
    }

    /// Erases the active piece's cells from the field.
    pub fn erase_piece(&mut self)
        requires
            old(self).wf(),
        ensures
            final(self).game_field@ == stamped(
                old(self).game_field@,
                old(self).curr_tetr.kind,
                old(self).rot as int,
                old(self).x_pos as int,
                old(self).y_pos as int,
                TetrisCell::Empty,
            ),
            final(self).x_pos == old(self).x_pos,
            final(self).y_pos == old(self).y_pos,
            final(self).rot == old(self).rot,
            final(self).curr_tetr == old(self).curr_tetr,
            final(self).score == old(self).score,
    {
        self.inject_tetr(TetrisCell::Empty);
    }

    /// After the resting piece has been painted: clears full rows, adds their
    /// score, and spawns `next` at the spawn column, top row, rotation 0.
    /// Returns whether the new piece collides, which ends the game.
    pub fn lock_piece(&mut self, next: TetraminoBitmap) -> (game_over: bool)
        requires
            old(self).wf(),
            old(self).score <= u64::MAX - 1500,
        ensures
            final(self).wf(),
            final(self).game_field@ == clear_scan(old(self).game_field@, 0).0,
            final(self).score == old(self).score + line_points(
                clear_scan(old(self).game_field@, 0).1 as int,
            ),
            final(self).curr_tetr == next,
            final(self).x_pos == SPAWN_X,
            final(self).y_pos == 0,
            final(self).rot == 0,
            game_over == final(self).collides(),
    {
        let cnt = self.refresh_field();
        self.score = self.score + line_score(cnt);
        self.curr_tetr = next;
        self.x_pos = SPAWN_X;
        self.y_pos = 0;
        self.rot = 0;
        self.check_collisions()
    }
    /// The vertical step that ends a tick: a gravity step, or a hard drop
    /// with `force_down`, after which the piece is painted where it stands.
    /// Returns whether the piece has come to rest.
    pub fn vertical_step(&mut self, force_down: bool) -> (locked: bool)
        requires
            old(self).wf(),
        ensures
            final(self).wf(),
            locked == (force_down || collides_at(
                old(self).game_field@,
                old(self).curr_tetr.kind,
                old(self).rot as int,
                old(self).x_pos as int,
                old(self).y_pos + 1,
            )),
            final(self).y_pos == if force_down {
                drop_row(
                    old(self).game_field@,
                    old(self).curr_tetr.kind,
                    old(self).rot as int,
                    old(self).x_pos as int,
                    old(self).y_pos as int,
                )
            } else {
                step_row(
                    old(self).game_field@,
                    old(self).curr_tetr.kind,
                    old(self).rot as int,
                    old(self).x_pos as int,
                    old(self).y_pos as int,
                )
            },
            final(self).game_field@ == stamped(
                old(self).game_field@,
                old(self).curr_tetr.kind,
                old(self).rot as int,
                old(self).x_pos as int,
                final(self).y_pos as int,
                TetrisCell::Brick(
                    color_of(old(self).curr_tetr.kind).0,
                    color_of(old(self).curr_tetr.kind).1,
                    color_of(old(self).curr_tetr.kind).2,
                ),
            ),
            final(self).x_pos == old(self).x_pos,
            final(self).rot == old(self).rot,
            final(self).curr_tetr == old(self).curr_tetr,
            final(self).score == old(self).score,
    {
        let locked = self.v_step(force_down);
        self.paint_piece();
        locked
    }
    /// Locks the resting piece as `lock_piece` does, with the next piece
    /// drawn from the catalog with `rng`. Returns whether the game is over.
    pub fn lock_and_draw(&mut self, rng: &mut ThreadRng) -> (game_over: bool)
        requires
            old(self).wf(),
            old(self).score <= u64::MAX - 1500,
        ensures
            final(self).wf(),
            final(self).game_field@ == clear_scan(old(self).game_field@, 0).0,
            final(self).score == old(self).score + line_points(
                clear_scan(old(self).game_field@, 0).1 as int,
            ),
            exists|i: int| 0 <= i < KIND_COUNT && final(self).curr_tetr.kind == kind_at(i),
            final(self).x_pos == SPAWN_X,
            final(self).y_pos == 0,
            final(self).rot == 0,
            game_over == final(self).collides(),
    {
        let next = get_random(rng);
        self.lock_piece(next)
    }
}

} // verus!
