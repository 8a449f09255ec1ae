//! Tetromino pieces: shape and orientation identity, and the occupancy
//! table that assigns every (shape, orientation) pair its four cells.
//!
//! A piece's layout is encoded as a 16-bit mask over a 4x4 bounding box:
//! bit `4 * row + col` is set exactly when the box cell at (row, col) is
//! part of the piece, rows counted downward and columns rightward from the
//! box's top-left corner.

use vstd::prelude::*;

verus! {

/// Lifecycle notices of a game session.
#[derive(Clone, Copy, Debug, PartialEq, Eq, Structural)]
pub enum GameStatus {
    StartNewGame,
    StartNewTetromino,
}

/// The seven tetromino shapes.
#[derive(Clone, Copy, Debug, PartialEq, Eq, Structural)]
pub enum Shape {
    I,
    J,
    L,
    O,
    S,
    T,
    Z,
}

/// The four rotational states of a piece, a cyclic group under rotation.
#[derive(Clone, Copy, Debug, PartialEq, Eq, Structural)]
pub enum Orientation {
    Up,
    Right,
    Down,
    Left,
}

/// The orientation one right (clockwise) rotation ahead of `o`.
pub open spec fn rot_right(o: Orientation) -> Orientation {
    match o {
        Orientation::Up => Orientation::Right,
        Orientation::Right => Orientation::Down,
        Orientation::Down => Orientation::Left,
        Orientation::Left => Orientation::Up,
    }
}

/// The orientation one left (counter-clockwise) rotation ahead of `o`;
/// the inverse of `rot_right`.
pub open spec fn rot_left(o: Orientation) -> Orientation {
    match o {
        Orientation::Up => Orientation::Left,
        Orientation::Right => Orientation::Up,
        Orientation::Down => Orientation::Right,
        Orientation::Left => Orientation::Down,
    }
}

/// True when bit `k` of `m` is set.
pub open spec fn nth_bit(m: u32, k: u32) -> bool {
    (m >> k) & 1u32 == 1u32
}

/// True when the box cell at (`r`, `c`) is occupied under mask `m`.
pub open spec fn occ(m: u32, r: int, c: int) -> bool {
    0 <= r < 4 && 0 <= c < 4 && nth_bit(m, (4 * r + c) as u32)
}

/// The occupancy mask of each (shape, orientation) pair.  The table is an
/// exact design contract; `Shape::O` repeats the same layout in all four
/// orientations because it is rotationally symmetric.
pub open spec fn piece_mask(s: Shape, o: Orientation) -> u32 {
    match (s, o) {
        (Shape::I, Orientation::Up) => 0x00F0,
        (Shape::I, Orientation::Right) => 0x4444,
        (Shape::I, Orientation::Down) => 0x0F00,
        (Shape::I, Orientation::Left) => 0x2222,
        (Shape::J, Orientation::Up) => 0x0071,
        (Shape::J, Orientation::Right) => 0x0226,
        (Shape::J, Orientation::Down) => 0x0470,
        (Shape::J, Orientation::Left) => 0x0322,
        (Shape::L, Orientation::Up) => 0x0074,
        (Shape::L, Orientation::Right) => 0x0622,
        (Shape::L, Orientation::Down) => 0x0170,
        (Shape::L, Orientation::Left) => 0x0223,
        (Shape::O, _) => 0x0066,
        (Shape::S, Orientation::Up) => 0x0036,
        (Shape::S, Orientation::Right) => 0x0462,
        (Shape::S, Orientation::Down) => 0x0360,
        (Shape::S, Orientation::Left) => 0x0231,
        (Shape::T, Orientation::Up) => 0x0072,
        (Shape::T, Orientation::Right) => 0x0262,
        (Shape::T, Orientation::Down) => 0x0270,
        (Shape::T, Orientation::Left) => 0x0232,
        (Shape::Z, Orientation::Up) => 0x0063,
        (Shape::Z, Orientation::Right) => 0x0264,
        (Shape::Z, Orientation::Down) => 0x0630,
        (Shape::Z, Orientation::Left) => 0x0132,
    }
}

/// How many of the bits below `n` are set in `m`.
pub open spec fn mask_count(m: u32, n: nat) -> int
    decreases n,
{
    if n == 0 {
        0
    } else {
        mask_count(m, (n - 1) as nat) + if nth_bit(m, (n - 1) as u32) {
            1int
        } else {
            0int
        }
    }
}

/// A falling piece: immutable shape identity, mutable orientation, and the
/// cached occupancy mask for the current (shape, orientation) pair.
///
/// The cache starts out empty; `update` fills it from the table.
#[derive(Clone, Copy, PartialEq, Eq, Structural)]
pub struct Tetromino {
    pub shape: Shape,
    pub orientation: Orientation,
    pub cells: u32,
}

impl Tetromino {
    /// A new piece of the given shape and orientation, with an empty
    /// occupancy cache.
    pub fn new(shape: Shape, orientation: Orientation) -> (t: Tetromino)
        ensures
            t.shape == shape,
            t.orientation == orientation,
            t.cells == 0u32,
    {
        Tetromino { shape, orientation, cells: 0 }
    }

    /// The piece's shape.
    pub fn shape(&self) -> (s: Shape)
        ensures
            s == self.shape,
    {
        self.shape
    }

    /// The piece's current orientation.
    pub fn orientation(&self) -> (o: Orientation)
        ensures
            o == self.orientation,
    {
        self.orientation
    }

    /// Advance the orientation one step clockwise.  No legality check is
    /// performed here: which placements are legal is the board's business.
    pub fn rotate_right(&mut self)
        ensures
            final(self).orientation == rot_right(old(self).orientation),
            final(self).shape == old(self).shape,
            final(self).cells == old(self).cells,
    {
        self.orientation = match self.orientation {
            Orientation::Up => Orientation::Right,
            Orientation::Right => Orientation::Down,
            Orientation::Down => Orientation::Left,
            Orientation::Left => Orientation::Up,
        }
    }

    /// Advance the orientation one step counter-clockwise.
    pub fn rotate_left(&mut self)
        ensures
            final(self).orientation == rot_left(old(self).orientation),
            final(self).shape == old(self).shape,
            final(self).cells == old(self).cells,
    {
        self.orientation = match self.orientation {
            Orientation::Up => Orientation::Left,
            Orientation::Right => Orientation::Up,
            Orientation::Down => Orientation::Right,
            Orientation::Left => Orientation::Down,
        }
    }

    /// Recompute the cached occupancy mask from the table, so that it
    /// matches the current (shape, orientation) pair.
    pub fn update(&mut self)
        ensures
            final(self).shape == old(self).shape,
            final(self).orientation == old(self).orientation,
            final(self).cells == piece_mask(final(self).shape, final(self).orientation),
    {
        self.cells = match (self.shape, self.orientation) {
            (Shape::I, Orientation::Up) => 0x00F0,
            (Shape::I, Orientation::Right) => 0x4444,
            (Shape::I, Orientation::Down) => 0x0F00,
            (Shape::I, Orientation::Left) => 0x2222,
            (Shape::J, Orientation::Up) => 0x0071,
            (Shape::J, Orientation::Right) => 0x0226,
            (Shape::J, Orientation::Down) => 0x0470,
            (Shape::J, Orientation::Left) => 0x0322,
            (Shape::L, Orientation::Up) => 0x0074,
            (Shape::L, Orientation::Right) => 0x0622,
            (Shape::L, Orientation::Down) => 0x0170,
            (Shape::L, Orientation::Left) => 0x0223,
            (Shape::O, _) => 0x0066,
            (Shape::S, Orientation::Up) => 0x0036,
            (Shape::S, Orientation::Right) => 0x0462,
            (Shape::S, Orientation::Down) => 0x0360,
            (Shape::S, Orientation::Left) => 0x0231,
            (Shape::T, Orientation::Up) => 0x0072,
            (Shape::T, Orientation::Right) => 0x0262,
            (Shape::T, Orientation::Down) => 0x0270,
            (Shape::T, Orientation::Left) => 0x0232,
            (Shape::Z, Orientation::Up) => 0x0063,
            (Shape::Z, Orientation::Right) => 0x0264,
            (Shape::Z, Orientation::Down) => 0x0630,
            (Shape::Z, Orientation::Left) => 0x0132,
        };
    }

    /// The cached occupancy mask.
    pub fn cells(&self) -> (m: u32)
        ensures
            m == self.cells,
    {
        self.cells
    }
}

/// Applying `rotate_right` four times returns a piece to its original
/// orientation, and a left rotation undoes a right rotation in either
/// order: the four orientations form a 4-cycle under rotation.
pub proof fn lemma_rotation_cycle(o: Orientation)
    ensures
        rot_right(rot_right(rot_right(rot_right(o)))) == o,
        rot_left(rot_right(o)) == o,
        rot_right(rot_left(o)) == o,
{
}

/// `Shape::O` occupies the same cells in every orientation.
pub proof fn lemma_o_orientation_invariant(o1: Orientation, o2: Orientation)
    ensures
        piece_mask(Shape::O, o1) == piece_mask(Shape::O, o2),
{
}

/// Every (shape, orientation) pair occupies exactly four distinct cells of
/// the 4x4 box: its occupancy mask has exactly four set bits, and at least
/// one box cell is occupied.
pub proof fn lemma_piece_mask_cells(s: Shape, o: Orientation)
    ensures
        mask_count(piece_mask(s, o), 16) == 4,
        exists|r: int, c: int| occ(piece_mask(s, o), r, c),
{
    reveal_with_fuel(mask_count, 17);
    match (s, o) {
        (Shape::I, Orientation::Up) => {
            assert(forall|k: u32|
                ((0x00F0u32 >> k) & 1u32 == 1u32) <==> (k == 4 || k == 5 || k == 6 || k == 7)) by (bit_vector);
            assert(occ(piece_mask(s, o), 1, 0));
        }
        (Shape::I, Orientation::Right) => {
            assert(forall|k: u32|
                ((0x4444u32 >> k) & 1u32 == 1u32) <==> (k == 2 || k == 6 || k == 10 || k == 14)) by (bit_vector);
            assert(occ(piece_mask(s, o), 0, 2));
        }
        (Shape::I, Orientation::Down) => {
            assert(forall|k: u32|
                ((0x0F00u32 >> k) & 1u32 == 1u32) <==> (k == 8 || k == 9 || k == 10 || k == 11)) by (bit_vector);
            assert(occ(piece_mask(s, o), 2, 0));
        }
        (Shape::I, Orientation::Left) => {
            assert(forall|k: u32|
                ((0x2222u32 >> k) & 1u32 == 1u32) <==> (k == 1 || k == 5 || k == 9 || k == 13)) by (bit_vector);
            assert(occ(piece_mask(s, o), 0, 1));
        }
        (Shape::J, Orientation::Up) => {
            assert(forall|k: u32|
                ((0x0071u32 >> k) & 1u32 == 1u32) <==> (k == 0 || k == 4 || k == 5 || k == 6)) by (bit_vector);
            assert(occ(piece_mask(s, o), 0, 0));
        }
        (Shape::J, Orientation::Right) => {
            assert(forall|k: u32|
                ((0x0226u32 >> k) & 1u32 == 1u32) <==> (k == 1 || k == 2 || k == 5 || k == 9)) by (bit_vector);
            assert(occ(piece_mask(s, o), 0, 1));
        }
        (Shape::J, Orientation::Down) => {
            assert(forall|k: u32|
                ((0x0470u32 >> k) & 1u32 == 1u32) <==> (k == 4 || k == 5 || k == 6 || k == 10)) by (bit_vector);
            assert(occ(piece_mask(s, o), 1, 0));
        }
        (Shape::J, Orientation::Left) => {
            assert(forall|k: u32|
                ((0x0322u32 >> k) & 1u32 == 1u32) <==> (k == 1 || k == 5 || k == 8 || k == 9)) by (bit_vector);
            assert(occ(piece_mask(s, o), 0, 1));
        }
        (Shape::L, Orientation::Up) => {
            assert(forall|k: u32|
                ((0x0074u32 >> k) & 1u32 == 1u32) <==> (k == 2 || k == 4 || k == 5 || k == 6)) by (bit_vector);
            assert(occ(piece_mask(s, o), 0, 2));
        }
        (Shape::L, Orientation::Right) => {
            assert(forall|k: u32|
                ((0x0622u32 >> k) & 1u32 == 1u32) <==> (k == 1 || k == 5 || k == 9 || k == 10)) by (bit_vector);
            assert(occ(piece_mask(s, o), 0, 1));
        }
        (Shape::L, Orientation::Down) => {
            assert(forall|k: u32|
                ((0x0170u32 >> k) & 1u32 == 1u32) <==> (k == 4 || k == 5 || k == 6 || k == 8)) by (bit_vector);
            assert(occ(piece_mask(s, o), 1, 0));
        }
        (Shape::L, Orientation::Left) => {
            assert(forall|k: u32|
                ((0x0223u32 >> k) & 1u32 == 1u32) <==> (k == 0 || k == 1 || k == 5 || k == 9)) by (bit_vector);
            assert(occ(piece_mask(s, o), 0, 0));
        }
        (Shape::O, Orientation::Up) => {
            assert(forall|k: u32|
                ((0x0066u32 >> k) & 1u32 == 1u32) <==> (k == 1 || k == 2 || k == 5 || k == 6)) by (bit_vector);
            assert(occ(piece_mask(s, o), 0, 1));
        }
        (Shape::O, Orientation::Right) => {
            assert(forall|k: u32|
                ((0x0066u32 >> k) & 1u32 == 1u32) <==> (k == 1 || k == 2 || k == 5 || k == 6)) by (bit_vector);
            assert(occ(piece_mask(s, o), 0, 1));
        }
        (Shape::O, Orientation::Down) => {
            assert(forall|k: u32|
                ((0x0066u32 >> k) & 1u32 == 1u32) <==> (k == 1 || k == 2 || k == 5 || k == 6)) by (bit_vector);
            assert(occ(piece_mask(s, o), 0, 1));
        }
        (Shape::O, Orientation::Left) => {
            assert(forall|k: u32|
                ((0x0066u32 >> k) & 1u32 == 1u32) <==> (k == 1 || k == 2 || k == 5 || k == 6)) by (bit_vector);
            assert(occ(piece_mask(s, o), 0, 1));
        }
        (Shape::S, Orientation::Up) => {
            assert(forall|k: u32|
                ((0x0036u32 >> k) & 1u32 == 1u32) <==> (k == 1 || k == 2 || k == 4 || k == 5)) by (bit_vector);
            assert(occ(piece_mask(s, o), 0, 1));
        }
        (Shape::S, Orientation::Right) => {
            assert(forall|k: u32|
                ((0x0462u32 >> k) & 1u32 == 1u32) <==> (k == 1 || k == 5 || k == 6 || k == 10)) by (bit_vector);
            assert(occ(piece_mask(s, o), 0, 1));
        }
        (Shape::S, Orientation::Down) => {
            assert(forall|k: u32|
                ((0x0360u32 >> k) & 1u32 == 1u32) <==> (k == 5 || k == 6 || k == 8 || k == 9)) by (bit_vector);
            assert(occ(piece_mask(s, o), 1, 1));
        }
        (Shape::S, Orientation::Left) => {
            assert(forall|k: u32|
                ((0x0231u32 >> k) & 1u32 == 1u32) <==> (k == 0 || k == 4 || k == 5 || k == 9)) by (bit_vector);
            assert(occ(piece_mask(s, o), 0, 0));
        }
        (Shape::T, Orientation::Up) => {
            assert(forall|k: u32|
                ((0x0072u32 >> k) & 1u32 == 1u32) <==> (k == 1 || k == 4 || k == 5 || k == 6)) by (bit_vector);
            assert(occ(piece_mask(s, o), 0, 1));
        }
        (Shape::T, Orientation::Right) => {
            assert(forall|k: u32|
                ((0x0262u32 >> k) & 1u32 == 1u32) <==> (k == 1 || k == 5 || k == 6 || k == 9)) by (bit_vector);
            assert(occ(piece_mask(s, o), 0, 1));
        }
        (Shape::T, Orientation::Down) => {
            assert(forall|k: u32|
                ((0x0270u32 >> k) & 1u32 == 1u32) <==> (k == 4 || k == 5 || k == 6 || k == 9)) by (bit_vector);
            assert(occ(piece_mask(s, o), 1, 0));
        }
        (Shape::T, Orientation::Left) => {
            assert(forall|k: u32|
                ((0x0232u32 >> k) & 1u32 == 1u32) <==> (k == 1 || k == 4 || k == 5 || k == 9)) by (bit_vector);
            assert(occ(piece_mask(s, o), 0, 1));
        }
        (Shape::Z, Orientation::Up) => {
            assert(forall|k: u32|
                ((0x0063u32 >> k) & 1u32 == 1u32) <==> (k == 0 || k == 1 || k == 5 || k == 6)) by (bit_vector);
            assert(occ(piece_mask(s, o), 0, 0));
        }
        (Shape::Z, Orientation::Right) => {
            assert(forall|k: u32|
                ((0x0264u32 >> k) & 1u32 == 1u32) <==> (k == 2 || k == 5 || k == 6 || k == 9)) by (bit_vector);
            assert(occ(piece_mask(s, o), 0, 2));
        }
        (Shape::Z, Orientation::Down) => {
            assert(forall|k: u32|
                ((0x0630u32 >> k) & 1u32 == 1u32) <==> (k == 4 || k == 5 || k == 9 || k == 10)) by (bit_vector);
            assert(occ(piece_mask(s, o), 1, 0));
        }
        (Shape::Z, Orientation::Left) => {
            assert(forall|k: u32|
                ((0x0132u32 >> k) & 1u32 == 1u32) <==> (k == 1 || k == 4 || k == 5 || k == 8)) by (bit_vector);
            assert(occ(piece_mask(s, o), 0, 1));
        }
    }
}

} // verus!
