//! The play field: a settled-cell grid, the active tetromino and its
//! position, and the movement operations that validate every lateral
//! shift and every downward drop before committing it.
//!
//! Cells are indexed row-major: cell `row * width + col`, origin at the
//! top-left corner.  The active piece's 4x4 bounding box sits at
//! horizontal offset `shift` and vertical offset `drop`, both measured in
//! cells from that origin; `shift` may be negative while every occupied
//! cell of the box still lies inside the field.

use vstd::pervasive::VecAdditionalExecFns;
use vstd::prelude::*;

use crate::piece::{occ, piece_mask, rot_left, rot_right, Orientation, Shape, Tetromino};
use crate::piece::{lemma_piece_mask_cells, mask_count};
use crate::input::{action_for_key, key_action, Action};

verus! {

/// A single absolute cell of a candidate placement is legal: its column
/// and row lie inside the field, its row-major index lies inside the
/// grid, and the grid holds no settled cell there.
pub open spec fn cell_ok(
    width: int,
    height: int,
    settled: Seq<Option<Shape>>,
    col: int,
    row: int,
) -> bool {
    &&& 0 <= col < width
    &&& row < height
    &&& 0 <= row * width + col < width * height
    &&& settled[row * width + col] is None
}

/// A candidate placement of a piece with occupancy mask `mask`, bounding
/// box at offsets (`shift`, `drop`), is legal: every occupied cell of the
/// box maps to a legal absolute cell.
pub open spec fn placement_ok(
    width: int,
    height: int,
    settled: Seq<Option<Shape>>,
    mask: u32,
    shift: int,
    drop: int,
) -> bool {
    forall|r: int, c: int| #[trigger]
        occ(mask, r, c) ==> cell_ok(width, height, settled, shift + c, drop + r)
}

/// The occupied box cells at positions below `n` (position `4 * r + c`)
/// all map to legal absolute cells: the prefix of the placement check
/// that a partial scan of the box has established.
spec fn cells_ok_upto(
    width: int,
    height: int,
    settled: Seq<Option<Shape>>,
    mask: u32,
    shift: int,
    drop: int,
    n: int,
) -> bool {
    forall|r: int, c: int| #[trigger]
        occ(mask, r, c) && 4 * r + c < n ==> cell_ok(width, height, settled, shift + c, drop + r)
}

/// Scan position of the box cell that the absolute cell `p` of a
/// placement at offsets (`shift`, `drop`) stands for.
pub open spec fn cell_key(p: (i32, i32), shift: int, drop: int) -> int {
    4 * (p.0 - drop) + (p.1 - shift)
}

/// The box cell that the absolute cell `p` of a placement at offsets
/// (`shift`, `drop`) stands for is occupied under `mask`.
pub open spec fn abs_cell_occ(mask: u32, p: (i32, i32), shift: int, drop: int) -> bool {
    occ(mask, p.0 - drop, p.1 - shift)
}

/// The play field, the active piece, and its position.
pub struct World {
    /// Width of the field, in columns.
    pub width: u32,
    /// Height of the field, in rows.
    pub height: u32,
    /// The currently falling tetromino.
    pub tetromino: Tetromino,
    /// Horizontal offset of the piece's bounding box from the left edge.
    pub shift: i32,
    /// Vertical offset of the piece's bounding box from the top edge.
    pub drop: i32,
    /// The settled cells left behind by earlier pieces, row-major; each
    /// entry records which shape occupies the cell, or `None`.
    pub settled: Vec<Option<Shape>>,
}

impl World {
    /// Well-formedness: the dimensions are large enough for the spawn
    /// rule and small enough for index arithmetic, the grid has one entry
    /// per cell, the piece's cached mask matches the table, and the
    /// position offsets lie in the range every committed placement keeps
    /// them in.
    pub open spec fn wf(self) -> bool {
        &&& 4 <= self.width
        &&& 1 <= self.height
        &&& self.width <= 0x1000_0000
        &&& self.height <= 0x1000_0000
        &&& self.width as int * self.height as int <= 0x1000_0000
        &&& self.settled@.len() == self.width as int * self.height as int
        &&& self.tetromino.cells == piece_mask(self.tetromino.shape, self.tetromino.orientation)
        &&& -3 <= self.shift as int
        &&& (self.shift as int) < self.width as int
        &&& 0 <= self.drop as int
        &&& (self.drop as int) < self.height as int
    }

    /// The active piece's placement at offsets (`shift`, `drop`) is legal
    /// on this field.
    pub open spec fn fits(self, shift: int, drop: int) -> bool {
        placement_ok(
            self.width as int,
            self.height as int,
            self.settled@,
            self.tetromino.cells,
            shift,
            drop,
        )
    }

    /// A lateral move to horizontal offset `shift` was attempted: it was
    /// committed exactly when the new placement is legal, and nothing
    /// else changed.
    pub open spec fn lateral_move(pre: World, post: World, shift: int) -> bool {
        &&& post.shift as int == if pre.fits(shift, pre.drop as int) {
            shift
        } else {
            pre.shift as int
        }
        &&& post.drop == pre.drop
        &&& post.width == pre.width
        &&& post.height == pre.height
        &&& post.tetromino == pre.tetromino
        &&& post.settled@ == pre.settled@
    }

    /// A soft drop was attempted: the piece moved down one row exactly
    /// when the new placement is legal, and nothing else changed.
    pub open spec fn drop_move(pre: World, post: World) -> bool {
        &&& post.drop as int == if pre.fits(pre.shift as int, pre.drop as int + 1) {
            pre.drop as int + 1
        } else {
            pre.drop as int
        }
        &&& post.shift == pre.shift
        &&& post.width == pre.width
        &&& post.height == pre.height
        &&& post.tetromino == pre.tetromino
        &&& post.settled@ == pre.settled@
    }

    /// The piece was rotated to orientation `o` and its cached mask
    /// recomputed; rotation is never validated, so it always succeeds,
    /// and nothing else changed.
    pub open spec fn rotation_move(pre: World, post: World, o: Orientation) -> bool {
        &&& post.tetromino.shape == pre.tetromino.shape
        &&& post.tetromino.orientation == o
        &&& post.tetromino.cells == piece_mask(pre.tetromino.shape, o)
        &&& post.shift == pre.shift
        &&& post.drop == pre.drop
        &&& post.width == pre.width
        &&& post.height == pre.height
        &&& post.settled@ == pre.settled@
    }

    /// A new game field: an empty settled grid of `width * height` cells
    /// and a piece of the given shape and orientation at the spawn
    /// position, horizontally centred on the top row.
    pub fn new(width: u32, height: u32, shape: Shape, orientation: Orientation) -> (w: World)
        requires
            4 <= width,
            1 <= height,
            width as int * height as int <= 0x1000_0000,
        ensures
            w.wf(),
            w.width == width,
            w.height == height,
            w.tetromino.shape == shape,
            w.tetromino.orientation == orientation,
            w.shift as int == width as int / 2 - 2,
            w.drop == 0i32,
            w.settled@.len() == width as int * height as int,
            forall|i: int| 0 <= i < w.settled@.len() ==> w.settled@[i] is None,
    {
        proof {
            assert(width as int <= width as int * height as int && height as int <= width as int
                * height as int) by (nonlinear_arith)
                requires
                    1 <= width as int,
                    1 <= height as int,
            ;
        }
        let total = width * height;
        let mut settled: Vec<Option<Shape>> = Vec::new();
        let mut i: u32 = 0;
        while i < total
            invariant
                i <= total,
                settled@.len() == i as int,
                forall|j: int| 0 <= j < i as int ==> settled@[j] is None,
            decreases total - i,
        {
            settled.push(None);
            i = i + 1;
        }
        let mut tetromino = Tetromino::new(shape, orientation);
        tetromino.update();
        let shift = (width / 2 - 2) as i32;
        World { width, height, tetromino, shift, drop: 0, settled }
    }

    /// Width of the field.
    pub fn width(&self) -> (w: u32)
        ensures
            w == self.width,
    {
        self.width
    }

    /// Height of the field.
    pub fn height(&self) -> (h: u32)
        ensures
            h == self.height,
    {
        self.height
    }

    /// Whether the active piece's current placement is illegal.  Queried
    /// right after `new` (or after a collaborator seeds the settled grid)
    /// this is the distinguishable "spawn blocked" condition.
    pub fn spawn_blocked(&self) -> (b: bool)
        requires
            self.wf(),
        ensures
            b == !self.fits(self.shift as int, self.drop as int),
    {
        !self.check_tetromino(self.shift, self.drop)
    }

    /// Apply the action that the input table maps a raw key identifier
    /// to: lateral shifts, rotations and the soft drop.  Reserved and
    /// unrecognized keys are ignored.
    pub fn keystroke(&mut self, key: &str)
        requires
            old(self).wf(),
        ensures
            final(self).wf(),
            match key_action(key@) {
                Some(Action::ShiftLeft) => World::lateral_move(
                    *old(self),
                    *final(self),
                    old(self).shift as int - 1,
                ),
                Some(Action::ShiftRight) => World::lateral_move(
                    *old(self),
                    *final(self),
                    old(self).shift as int + 1,
                ),
                Some(Action::RotateRight) => World::rotation_move(
                    *old(self),
                    *final(self),
                    rot_right(old(self).tetromino.orientation),
                ),
                Some(Action::RotateLeft) => World::rotation_move(
                    *old(self),
                    *final(self),
                    rot_left(old(self).tetromino.orientation),
                ),
                Some(Action::SoftDrop) => World::drop_move(*old(self), *final(self)),
                _ => *final(self) == *old(self),
            },
    {
        match action_for_key(key) {
            Some(Action::ShiftLeft) => self.shift_left(),
            Some(Action::ShiftRight) => self.shift_right(),
            Some(Action::RotateRight) => self.rotate_right(),
            Some(Action::RotateLeft) => self.rotate_left(),
            Some(Action::SoftDrop) => {
                self.soft_drop();
            },
            _ => {},
        }
    }

    /// Recompute the active piece's cached occupancy mask.  Every mutating
    /// operation already leaves the cache consistent, so on a well-formed
    /// field this changes nothing.
    pub fn update_tetromino_cells(&mut self)
        requires
            old(self).wf(),
        ensures
            final(self).wf(),
            *final(self) == *old(self),
    {
        self.tetromino.update();
    }

    /// The active piece's occupancy mask.
    pub fn tetromino_cells(&self) -> (m: u32)
        ensures
            m == self.tetromino.cells,
    {
        self.tetromino.cells()
    }

    /// One periodic tick: the piece soft-drops one row if the placement
    /// below is legal.
    pub fn update(&mut self)
        requires
            old(self).wf(),
        ensures
            final(self).wf(),
            World::drop_move(*old(self), *final(self)),
    {
        self.soft_drop();
        self.update_tetromino_cells();
    }

    /// Attempt to move the active piece one column to the left; an
    /// illegal move is a silent no-op.
    pub fn shift_left(&mut self)
        requires
            old(self).wf(),
        ensures
            final(self).wf(),
            World::lateral_move(*old(self), *final(self), old(self).shift as int - 1),
    {
        if self.check_tetromino(self.shift - 1, self.drop) {
            proof {
                lemma_piece_mask_cells(self.tetromino.shape, self.tetromino.orientation);
            }
            self.shift = self.shift - 1;
        }
    }

    /// Attempt to move the active piece one column to the right; an
    /// illegal move is a silent no-op.
    pub fn shift_right(&mut self)
        requires
            old(self).wf(),
        ensures
            final(self).wf(),
            World::lateral_move(*old(self), *final(self), old(self).shift as int + 1),
    {
        if self.check_tetromino(self.shift + 1, self.drop) {
            proof {
                lemma_piece_mask_cells(self.tetromino.shape, self.tetromino.orientation);
            }
            self.shift = self.shift + 1;
        }
    }

    /// Rotate the active piece one step counter-clockwise.  Rotation is
    /// never validated against bounds or settled cells: the engine has no
    /// wall-kick system, by design.
    pub fn rotate_left(&mut self)
        requires
            old(self).wf(),
        ensures
            final(self).wf(),
            World::rotation_move(
                *old(self),
                *final(self),
                rot_left(old(self).tetromino.orientation),
            ),
    {
        self.tetromino.rotate_left();
        self.tetromino.update();
    }

    /// Rotate the active piece one step clockwise; like `rotate_left`,
    /// never validated.
    pub fn rotate_right(&mut self)
        requires
            old(self).wf(),
        ensures
            final(self).wf(),
            World::rotation_move(
                *old(self),
                *final(self),
                rot_right(old(self).tetromino.orientation),
            ),
    {
        self.tetromino.rotate_right();
        self.tetromino.update();
    }

    /// Attempt to move the active piece one row down.  Returns whether
    /// the piece moved: a failed drop is the caller's signal that the
    /// piece has landed and is ready to be locked into the grid.
    pub fn soft_drop(&mut self) -> (moved: bool)
        requires
            old(self).wf(),
        ensures
            final(self).wf(),
            World::drop_move(*old(self), *final(self)),
            moved == old(self).fits(old(self).shift as int, old(self).drop as int + 1),
    {
        if self.check_tetromino(self.shift, self.drop + 1) {
            proof {
                lemma_piece_mask_cells(self.tetromino.shape, self.tetromino.orientation);
            }
            self.drop = self.drop + 1;
            true
        } else {
            false
        }
    }

    /// Horizontal offset of the active piece's bounding box.
    pub fn tetromino_shift(&self) -> (s: i32)
        ensures
            s == self.shift,
    {
        self.shift
    }

    /// Vertical offset of the active piece's bounding box.
    pub fn tetromino_drop(&self) -> (d: i32)
        ensures
            d == self.drop,
    {
        self.drop
    }

    /// Read-only access to the settled grid, one entry per cell in
    /// row-major order, for the renderer to colour.
    pub fn old_cells(&self) -> (cells: &Vec<Option<Shape>>)
        ensures
            cells@ == self.settled@,
    {
        &self.settled
    }

    /// The active piece's shape.
    pub fn tetromino_shape(&self) -> (s: Shape)
        ensures
            s == self.tetromino.shape,
    {
        self.tetromino.shape()
    }

    /// The active piece's orientation.
    pub fn tetromino_orientation(&self) -> (o: Orientation)
        ensures
            o == self.tetromino.orientation,
    {
        self.tetromino.orientation()
    }

    /// Replace the settled-grid entry at `index` (row-major).  External
    /// collaborators mutate the grid between core calls: the line-locking
    /// step fills cells, line clearing empties them.
    pub fn set_settled_cell(&mut self, index: usize, cell: Option<Shape>)
        requires
            old(self).wf(),
            index < old(self).settled@.len(),
        ensures
            final(self).wf(),
            final(self).settled@ == old(self).settled@.update(index as int, cell),
            final(self).width == old(self).width,
            final(self).height == old(self).height,
            final(self).tetromino == old(self).tetromino,
            final(self).shift == old(self).shift,
            final(self).drop == old(self).drop,
    {
        self.settled.set(index, cell);
    }

    /// The absolute (row, column) coordinates of the active piece's four
    /// occupied cells, recomputed on demand from the occupancy mask:
    /// exactly four pairwise-distinct cells, one for each occupied cell
    /// of the piece's bounding box.
    #[verifier::loop_isolation(false)]
    pub fn occupied_cells(&self) -> (out: Vec<(i32, i32)>)
        requires
            self.wf(),
        ensures
            out@.len() == 4,
            forall|i: int| 0 <= i < out@.len() ==> abs_cell_occ(
                self.tetromino.cells,
                #[trigger] out@[i],
                self.shift as int,
                self.drop as int,
            ),
            forall|r: int, c: int| #[trigger] occ(self.tetromino.cells, r, c)
                ==> exists|i: int|
                    0 <= i < out@.len() && out@[i].0 as int == self.drop as int + r
                        && out@[i].1 as int == self.shift as int + c,
            forall|i: int, j: int| 0 <= i < j < out@.len() ==> out@[i] != out@[j],
    {
        let cells = self.tetromino.cells;
        let drop = self.drop;
        let shift = self.shift;
        let mut out: Vec<(i32, i32)> = Vec::new();
        let mut mask: u32 = 1;
        proof {
            assert(1u32 << 0u32 == 1u32) by (bit_vector);
        }
        for row in 0..4i32
            invariant
                mask == 1u32 << ((4 * row) as u32),
                out@.len() == mask_count(cells, (4 * row) as nat),
                forall|i: int| 0 <= i < out@.len() ==> abs_cell_occ(
                    cells,
                    #[trigger] out@[i],
                    shift as int,
                    drop as int,
                ),
                forall|i: int| 0 <= i < out@.len() ==> cell_key(
                    #[trigger] out@[i],
                    shift as int,
                    drop as int,
                ) < 4 * row,
                forall|i: int, j: int| 0 <= i < j < out@.len() ==> cell_key(
                    #[trigger] out@[i],
                    shift as int,
                    drop as int,
                ) < cell_key(#[trigger] out@[j], shift as int, drop as int),
                forall|r: int, c: int| #[trigger] occ(cells, r, c) && 4 * r + c < 4 * row
                    ==> exists|i: int|
                        0 <= i < out@.len() && out@[i].0 as int == drop as int + r
                            && out@[i].1 as int == shift as int + c,
        {
            for col in 0..4i32
                invariant
                    mask == 1u32 << ((4 * row + col) as u32),
                    out@.len() == mask_count(cells, (4 * row + col) as nat),
                    forall|i: int| 0 <= i < out@.len() ==> abs_cell_occ(
                        cells,
                        #[trigger] out@[i],
                        shift as int,
                        drop as int,
                    ),
                    forall|i: int| 0 <= i < out@.len() ==> cell_key(
                        #[trigger] out@[i],
                        shift as int,
                        drop as int,
                    ) < 4 * row + col,
                    forall|i: int, j: int| 0 <= i < j < out@.len() ==> cell_key(
                        #[trigger] out@[i],
                        shift as int,
                        drop as int,
                    ) < cell_key(#[trigger] out@[j], shift as int, drop as int),
                    forall|r: int, c: int| #[trigger] occ(cells, r, c) && 4 * r + c < 4 * row + col
                        ==> exists|i: int|
                            0 <= i < out@.len() && out@[i].0 as int == drop as int + r
                                && out@[i].1 as int == shift as int + c,
            {
                proof {
                    lemma_single_bit_test(cells, (4 * row + col) as u32);
                }
                let ghost pre = out@;
                if (mask & cells) == mask {
                    proof {
                        assert(occ(cells, row as int, col as int));
                    }
                    out.push((drop + row, shift + col));
                    proof {
                        assert(out@[pre.len() as int].0 == drop + row && out@[pre.len() as int].1
                            == shift + col);
                    }
                }
                proof {
                    lemma_shl_step((4 * row + col) as u32);
                    assert forall|i: int| 0 <= i < out@.len() implies abs_cell_occ(
                        cells,
                        #[trigger] out@[i],
                        shift as int,
                        drop as int,
                    ) && cell_key(out@[i], shift as int, drop as int) < 4 * row + col + 1 by {
                        if i < pre.len() {
                            assert(out@[i] == pre[i]);
                            assert(abs_cell_occ(cells, pre[i], shift as int, drop as int));
                            assert(cell_key(pre[i], shift as int, drop as int) < 4 * row + col);
                        } else {
                            assert(out@[i].0 == drop + row && out@[i].1 == shift + col);
                        }
                    }
                    assert forall|i: int, j: int| 0 <= i < j < out@.len() implies cell_key(
                        #[trigger] out@[i],
                        shift as int,
                        drop as int,
                    ) < cell_key(#[trigger] out@[j], shift as int, drop as int) by {
                        if j < pre.len() {
                            assert(out@[i] == pre[i] && out@[j] == pre[j]);
                        } else {
                            assert(out@[i] == pre[i]);
                            assert(out@[j].0 == drop + row && out@[j].1 == shift + col);
                            assert(cell_key(pre[i], shift as int, drop as int) < 4 * row + col);
                        }
                    }
                    assert forall|r: int, c: int| #[trigger]
                        occ(cells, r, c) && 4 * r + c < 4 * row + col + 1 implies exists|i: int|
                        0 <= i < out@.len() && out@[i].0 as int == drop as int + r && out@[i].1
                            as int == shift as int + c by {
                        if 4 * r + c == 4 * row + col {
                            assert(r == row as int && c == col as int);
                            assert(out@[out@.len() - 1].0 as int == drop as int + r
                                && out@[out@.len() - 1].1 as int == shift as int + c);
                        } else {
                            let i = choose|i: int|
                                0 <= i < pre.len() && pre[i].0 as int == drop as int + r && pre[i].1
                                    as int == shift as int + c;
                            assert(out@[i] == pre[i]);
                        }
                    }
                }
                mask = mask << 1;
            }
        }
        proof {
            lemma_piece_mask_cells(self.tetromino.shape, self.tetromino.orientation);
            assert(out@.len() == mask_count(cells, 16));
            assert forall|i: int, j: int| 0 <= i < j < out@.len() implies out@[i] != out@[j] by {
                assert(cell_key(out@[i], shift as int, drop as int) < cell_key(
                    out@[j],
                    shift as int,
                    drop as int,
                ));
            }
        }
        out
    }

    /// The movement validation routine: whether the active piece, with
    /// its bounding box moved to offsets (`shift`, `drop`), would lie
    /// fully inside the field and overlap no settled cell.  Applied
    /// identically to every directional movement before it is committed.
    #[verifier::loop_isolation(false)]
    fn check_tetromino(&self, shift: i32, drop: i32) -> (ok: bool)
        requires
            1 <= self.width,
            1 <= self.height,
            self.width <= 0x1000_0000,
            self.height <= 0x1000_0000,
            self.width as int * self.height as int <= 0x1000_0000,
            self.settled@.len() == self.width as int * self.height as int,
            -4 <= shift as int <= self.width as int,
            0 <= drop as int <= self.height as int,
        ensures
            ok == self.fits(shift as int, drop as int),
    {
        let w = self.width as i32;
        let h = self.height as i32;
        let total = (self.width * self.height) as i32;
        let cells = self.tetromino.cells;
        let mut mask: u32 = 1;
        proof {
            assert(1u32 << 0u32 == 1u32) by (bit_vector);
        }
        for row in 0..4i32
            invariant
                mask == 1u32 << ((4 * row) as u32),
                cells_ok_upto(
                    self.width as int,
                    self.height as int,
                    self.settled@,
                    cells,
                    shift as int,
                    drop as int,
                    4 * row,
                ),
        {
            proof {
                assert(h <= w * h && w <= w * h && 0 <= (drop + row) * w && (drop + row) * w
                    <= w * h + 3 * w) by (nonlinear_arith)
                    requires
                        1 <= w,
                        1 <= h,
                        0 <= drop,
                        drop <= h,
                        0 <= row <= 3,
                ;
            }
            let index = (drop + row) * w + shift;
            for col in 0..4i32
                invariant
                    mask == 1u32 << ((4 * row + col) as u32),
                    cells_ok_upto(
                        self.width as int,
                        self.height as int,
                        self.settled@,
                        cells,
                        shift as int,
                        drop as int,
                        4 * row + col,
                    ),
            {
                proof {
                    lemma_single_bit_test(cells, (4 * row + col) as u32);
                }
                if (mask & cells) == mask {
                    if shift + col < 0 || shift + col >= w || drop + row >= h {
                        proof {
                            assert(occ(cells, row as int, col as int));
                            assert(!cell_ok(
                                self.width as int,
                                self.height as int,
                                self.settled@,
                                shift as int + col as int,
                                drop as int + row as int,
                            ));
                        }
                        return false;
                    }
                    if index + col >= total {
                        proof {
                            assert((drop + row) * w + shift + col < h * w) by (nonlinear_arith)
                                requires
                                    0 <= drop + row < h,
                                    0 <= shift + col < w,
                                    1 <= w,
                            ;
                            assert(h * w == w * h) by (nonlinear_arith);
                        }
                        return false;
                    }
                    match self.settled[(index + col) as usize] {
                        Some(_) => {
                            proof {
                                assert(occ(cells, row as int, col as int));
                                assert(!cell_ok(
                                    self.width as int,
                                    self.height as int,
                                    self.settled@,
                                    shift as int + col as int,
                                    drop as int + row as int,
                                ));
                            }
                            return false;
                        },
                        None => {},
                    }
                }
                proof {
                    lemma_shl_step((4 * row + col) as u32);
                    assert forall|r: int, c: int| #[trigger]
                        occ(cells, r, c) && 4 * r + c < 4 * row + col + 1 implies cell_ok(
                        self.width as int,
                        self.height as int,
                        self.settled@,
                        shift as int + c,
                        drop as int + r,
                    ) by {
                        if 4 * r + c == 4 * row + col {
                            assert(r == row as int && c == col as int);
                        }
                    }
                }
                mask = mask << 1;
            }
        }
        proof {
            assert forall|r: int, c: int| #[trigger] occ(cells, r, c) implies cell_ok(
                self.width as int,
                self.height as int,
                self.settled@,
                shift as int + c,
                drop as int + r,
            ) by {
                assert(4 * r + c < 16);
            }
        }
        true
    }
}

/// Testing a one-bit mask `1 << k` against `m` with bitwise-AND reads
/// exactly bit `k` of `m`.
proof fn lemma_single_bit_test(m: u32, k: u32)
    by (bit_vector)
    requires
        k < 16,
    ensures
        (((1u32 << k) & m) == 1u32 << k) <==> ((m >> k) & 1u32 == 1u32),
{
}

/// Shifting a one-bit mask left by one moves it to the next bit.
proof fn lemma_shl_step(k: u32)
    by (bit_vector)
    requires
        k < 16,
    ensures
        (1u32 << k) << 1 == 1u32 << ((k + 1) as u32),
{
}

/// Movement validation never permits a committed position that leaves the
/// field or overlaps a settled cell: whenever an attempted shift or drop
/// changed the piece's position, every occupied cell of the new placement
/// has a column inside [0, width), a row above the floor, and an empty
/// settled-grid entry under it.
pub proof fn lemma_committed_move_safe(pre: World, post: World, shift: int)
    requires
        World::lateral_move(pre, post, shift) || World::drop_move(pre, post),
        post.shift != pre.shift || post.drop != pre.drop,
    ensures
        forall|r: int, c: int| #[trigger] occ(post.tetromino.cells, r, c) ==> {
            &&& 0 <= post.shift as int + c < post.width as int
            &&& post.drop as int + r < post.height as int
            &&& post.settled@[(post.drop as int + r) * post.width as int + (post.shift as int
                + c)] is None
        },
{
    if World::lateral_move(pre, post, shift) && post.shift != pre.shift {
        assert(pre.fits(shift, pre.drop as int));
        assert(post.shift as int == shift);
    } else {
        assert(World::drop_move(pre, post) && post.drop != pre.drop);
        assert(pre.fits(pre.shift as int, pre.drop as int + 1));
    }
    assert(placement_ok(
        post.width as int,
        post.height as int,
        post.settled@,
        post.tetromino.cells,
        post.shift as int,
        post.drop as int,
    ));
}

/// A validated placement keeps every occupied cell's column inside
/// [0, width) and its row above the floor: movement validation never
/// permits a committed position with a cell outside the field.
pub proof fn lemma_validated_placement_in_bounds(
    width: int,
    height: int,
    settled: Seq<Option<Shape>>,
    mask: u32,
    shift: int,
    drop: int,
)
    requires
        placement_ok(width, height, settled, mask, shift, drop),
    ensures
        forall|r: int, c: int| #[trigger]
            occ(mask, r, c) ==> 0 <= shift + c < width && drop + r < height,
{
}

/// A validated placement overlaps no settled cell: the grid entry under
/// every occupied cell is empty.
pub proof fn lemma_validated_placement_no_overlap(
    width: int,
    height: int,
    settled: Seq<Option<Shape>>,
    mask: u32,
    shift: int,
    drop: int,
)
    requires
        placement_ok(width, height, settled, mask, shift, drop),
    ensures
        forall|r: int, c: int| #[trigger]
            occ(mask, r, c) ==> settled[(drop + r) * width + (shift + c)] is None,
{
}

} // verus!
