//! The catalog of the seven tetromino kinds: their hand-authored rotation
//! bitmaps, colors and bounding boxes.
use rand::rngs::ThreadRng;
use rand::Rng;
use vstd::prelude::*;

verus! {

#[verifier::external_type_specification]
#[verifier::external_body]
pub struct ExThreadRng(ThreadRng);

/// The seven piece kinds, in catalog order.
#[derive(Clone, Copy, Debug, PartialEq, Eq, Structural)]
pub enum PieceKind {
    I,
    L,
    J,
    O,
    S,
    T,
    Z,
}

/// Number of piece kinds in the catalog.
pub const KIND_COUNT: usize = 7;

/// The kind at position `i` of the catalog.
pub open spec fn kind_at(i: int) -> PieceKind {
    if i == 0 {
        PieceKind::I
    } else if i == 1 {
        PieceKind::L
    } else if i == 2 {
        PieceKind::J
    } else if i == 3 {
        PieceKind::O
    } else if i == 4 {
        PieceKind::S
    } else if i == 5 {
        PieceKind::T
    } else {
        PieceKind::Z
    }
}

/// Side of the square bounding box of a kind in its canonical orientation.
pub open spec fn side_of(kind: PieceKind) -> u8 {
    match kind {
        PieceKind::I => 4,
        _ => 3,
    }
}

/// Canonical (width, height) of a kind.
pub open spec fn canonical_dims(kind: PieceKind) -> (u8, u8) {
    (side_of(kind), side_of(kind))
}

/// Bounding box (width, height) of a kind at a rotation index (0..3): the
/// canonical box for rotations 0 and 2, the box turned a quarter for 1 and 3.
pub open spec fn dimension_of(kind: PieceKind, rot: int) -> (u8, u8) {
    let (w, h) = canonical_dims(kind);
    if rot == 0 || rot == 2 {
        (w, h)
    } else {
        (h, w)
    }
}

pub open spec fn color_of(kind: PieceKind) -> (u8, u8, u8) {
    match kind {
        PieceKind::I => (20, 162, 236),
        PieceKind::L => (62, 68, 206),
        PieceKind::J => (255, 0, 255),
        PieceKind::O => (254, 199, 18),
        PieceKind::S => (36, 176, 77),
        PieceKind::T => (162, 71, 164),
        PieceKind::Z => (238, 32, 36),
    }
}

/// The four rows of the bitmap of a kind at a rotation (0..3); rows below the
/// bounding box are zero. Bit 0 of a row is its rightmost column.
pub open spec fn rows_of(kind: PieceKind, rot: int) -> (u8, u8, u8, u8) {
    match kind {
        PieceKind::I => if rot == 0 {
            (0b0100, 0b0100, 0b0100, 0b0100)
        } else if rot == 1 {
            (0b0000, 0b1111, 0b0000, 0b0000)
        } else if rot == 2 {
            (0b0010, 0b0010, 0b0010, 0b0010)
        } else {
            (0b0000, 0b0000, 0b1111, 0b0000)
        },
        PieceKind::L => if rot == 0 {
            (0b010, 0b010, 0b011, 0)
        } else if rot == 1 {
            (0b000, 0b111, 0b100, 0)
        } else if rot == 2 {
            (0b110, 0b010, 0b010, 0)
        } else {
            (0b001, 0b111, 0b000, 0)
        },
        PieceKind::J => if rot == 0 {
            (0b010, 0b010, 0b110, 0)
        } else if rot == 1 {
            (0b100, 0b111, 0b000, 0)
        } else if rot == 2 {
            (0b011, 0b010, 0b010, 0)
        } else {
            (0b000, 0b111, 0b001, 0)
        },
        PieceKind::O => (0b110, 0b110, 0b000, 0),
        PieceKind::S => if rot == 0 || rot == 2 {
            (0b000, 0b011, 0b110, 0)
        } else {
            (0b010, 0b011, 0b001, 0)
        },
        PieceKind::T => if rot == 0 {
            (0b010, 0b111, 0b000, 0)
        } else if rot == 1 {
            (0b010, 0b011, 0b010, 0)
        } else if rot == 2 {
            (0b000, 0b111, 0b010, 0)
        } else {
            (0b010, 0b110, 0b010, 0)
        },
        PieceKind::Z => if rot == 0 || rot == 2 {
            (0b110, 0b011, 0b000, 0)
        } else {
            (0b001, 0b011, 0b010, 0)
        },
    }
}

pub open spec fn row_of(kind: PieceKind, rot: int, y: int) -> u8 {
    let rows = rows_of(kind, rot);
    if y == 0 {
        rows.0
    } else if y == 1 {
        rows.1
    } else if y == 2 {
        rows.2
    } else {
        rows.3
    }
}

/// Bit `s` (0..3) of `row`.
pub open spec fn bit_at(row: u8, s: int) -> bool {
    if s == 0 {
        row % 2 == 1
    } else if s == 1 {
        (row / 2) % 2 == 1
    } else if s == 2 {
        (row / 4) % 2 == 1
    } else {
        (row / 8) % 2 == 1
    }
}

/// Whether cell (x, y) of the bounding box of a kind at a rotation is part of
/// the piece: bit (width - 1 - x) of row y.
pub open spec fn occupied(kind: PieceKind, rot: int, x: int, y: int) -> bool {
    bit_at(row_of(kind, rot, y), dimension_of(kind, rot).0 - 1 - x)
}

/// A cell that every shape occupies, used to bound where a piece can stand.
pub open spec fn probe_cell(kind: PieceKind, rot: int) -> (int, int) {
    if kind == PieceKind::I && rot == 2 {
        (2, 1)
    } else if kind == PieceKind::I && rot == 3 {
        (1, 2)
    } else {
        (1, 1)
    }
}

/// Every rotation of every kind occupies its probe cell, which lies inside
/// the bounding box and within two cells of its origin.
pub proof fn lemma_probe_cell(kind: PieceKind, rot: int)
    requires
        0 <= rot < 4,
    ensures
        ({
            let (px, py) = probe_cell(kind, rot);
            &&& 1 <= px <= 2
            &&& 1 <= py <= 2
            &&& px < dimension_of(kind, rot).0
            &&& py < dimension_of(kind, rot).1
            &&& occupied(kind, rot, px, py)
        }),
{
}

/// Rotations 0 and 2 share a bounding box, as do 1 and 3, and the two boxes
/// are each other's transpose; the O kind has one bitmap for all four
/// rotations.
pub proof fn lemma_rotation_dimensions(kind: PieceKind)
    ensures
        dimension_of(kind, 0) == dimension_of(kind, 2),
        dimension_of(kind, 1) == dimension_of(kind, 3),
        dimension_of(kind, 1) == (dimension_of(kind, 0).1, dimension_of(kind, 0).0),
        forall|rot: int| 0 <= rot < 4 ==> #[trigger] rows_of(PieceKind::O, rot) == rows_of(PieceKind::O, 0),
{
}

fn bit_set(row: u8, s: u8) -> (r: bool)
    requires
        s < 4,
    ensures
        r == bit_at(row, s as int),
{
    let r = row & (1u8 << s) != 0;
    proof {
        if s == 0 {
            assert((row & (1u8 << 0u8) != 0) == (row % 2 == 1)) by (bit_vector);
        } else if s == 1 {
            assert((row & (1u8 << 1u8) != 0) == ((row / 2) % 2 == 1)) by (bit_vector);
        } else if s == 2 {
            assert((row & (1u8 << 2u8) != 0) == ((row / 4) % 2 == 1)) by (bit_vector);
        } else {
            assert((row & (1u8 << 3u8) != 0) == ((row / 8) % 2 == 1)) by (bit_vector);
        }
    }
    r
}

/// The bitmap table, indexed by kind and rotation.
fn shape_rows(kind: PieceKind, rot: u8) -> (r: (u8, u8, u8, u8))
    requires
        rot < 4,
    ensures
        r == rows_of(kind, rot as int),
{
    match kind {
        PieceKind::I => if rot == 0 {
            (0b0100, 0b0100, 0b0100, 0b0100)
        } else if rot == 1 {
            (0b0000, 0b1111, 0b0000, 0b0000)
        } else if rot == 2 {
            (0b0010, 0b0010, 0b0010, 0b0010)
        } else {
            (0b0000, 0b0000, 0b1111, 0b0000)
        },
        PieceKind::L => if rot == 0 {
            (0b010, 0b010, 0b011, 0)
        } else if rot == 1 {
            (0b000, 0b111, 0b100, 0)
        } else if rot == 2 {
            (0b110, 0b010, 0b010, 0)
        } else {
            (0b001, 0b111, 0b000, 0)
        },
        PieceKind::J => if rot == 0 {
            (0b010, 0b010, 0b110, 0)
        } else if rot == 1 {
            (0b100, 0b111, 0b000, 0)
        } else if rot == 2 {
            (0b011, 0b010, 0b010, 0)
        } else {
            (0b000, 0b111, 0b001, 0)
        },
        PieceKind::O => (0b110, 0b110, 0b000, 0),
        PieceKind::S => if rot == 0 || rot == 2 {
            (0b000, 0b011, 0b110, 0)
        } else {
            (0b010, 0b011, 0b001, 0)
        },
        PieceKind::T => if rot == 0 {
            (0b010, 0b111, 0b000, 0)
        } else if rot == 1 {
            (0b010, 0b011, 0b010, 0)
        } else if rot == 2 {
            (0b000, 0b111, 0b010, 0)
        } else {
            (0b010, 0b110, 0b010, 0)
        },
        PieceKind::Z => if rot == 0 || rot == 2 {
            (0b110, 0b011, 0b000, 0)
        } else {
            (0b001, 0b011, 0b010, 0)
        },
    }
}

/// One piece kind of the catalog, with its bitmaps, color and bounding box.
#[derive(Clone, Copy, Debug, PartialEq, Eq, Structural)]
pub struct TetraminoBitmap {
    pub kind: PieceKind,
}

impl TetraminoBitmap {
    pub fn of(kind: PieceKind) -> (r: TetraminoBitmap)
        ensures
            r.kind == kind,
    {
        TetraminoBitmap { kind }
    }

    pub fn get_color(&self) -> (r: (u8, u8, u8))
        ensures
            r == color_of(self.kind),
    {
        match self.kind {
            PieceKind::I => (20, 162, 236),
            PieceKind::L => (62, 68, 206),
            PieceKind::J => (255, 0, 255),
            PieceKind::O => (254, 199, 18),
            PieceKind::S => (36, 176, 77),
            PieceKind::T => (162, 71, 164),
            PieceKind::Z => (238, 32, 36),
        }
    }

    /// (width, height) of the bounding box at rotation `rot`.
    pub fn get_dimension(&self, rot: u8) -> (r: (u8, u8))
        requires
            rot < 4,
        ensures
            r == dimension_of(self.kind, rot as int),
    {
        let side: u8 = match self.kind {
            PieceKind::I => 4,
            _ => 3,
        };
        let (w, h) = (side, side);
        if rot == 0 || rot == 2 {
            (w, h)
        } else {
            (h, w)
        }
    }

    /// Whether cell (x, y) of the bounding box at rotation `rot` is left empty
    /// by the piece.
    pub fn is_empty_cell(&self, x: u8, y: u8, rot: u8) -> (r: bool)
        requires
            rot < 4,
            x < dimension_of(self.kind, rot as int).0,
            y < dimension_of(self.kind, rot as int).1,
        ensures
            r == !occupied(self.kind, rot as int, x as int, y as int),
    {
        let (w, _) = self.get_dimension(rot);
        let rows = shape_rows(self.kind, rot);
        let row = if y == 0 {
            rows.0
        } else if y == 1 {
            rows.1
        } else if y == 2 {
            rows.2
        } else {
            rows.3
        };
        !bit_set(row, w - x - 1)
    }
}

/// The kind at position `i` of the catalog.
pub fn kind_from_index(i: usize) -> (r: PieceKind)
    requires
        i < KIND_COUNT,
    ensures
        r == kind_at(i as int),
{
    if i == 0 {
        PieceKind::I
    } else if i == 1 {
        PieceKind::L
    } else if i == 2 {
        PieceKind::J
    } else if i == 3 {
        PieceKind::O
    } else if i == 4 {
        PieceKind::S
    } else if i == 5 {
        PieceKind::T
    } else {
        PieceKind::Z
    }
}

/// Relies on rand::Rng::gen_range: a value drawn from the half-open range
/// `0..n`, which must not be empty.
#[verifier::external_body]
fn draw_below(rng: &mut ThreadRng, n: usize) -> (r: usize)
    requires
        n > 0,
    ensures
        r < n,
{
    rng.gen_range(0..n)
}

/// A piece of a kind drawn uniformly from the catalog with `rng`.
pub fn get_random(rng: &mut ThreadRng) -> (r: TetraminoBitmap)
    ensures
        exists|i: int| 0 <= i < KIND_COUNT && r.kind == kind_at(i),
{
    let i = draw_below(rng, KIND_COUNT);
    TetraminoBitmap::of(kind_from_index(i))
}

} // verus!
