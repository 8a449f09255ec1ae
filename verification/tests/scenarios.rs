use tetris_core::{Orientation, Shape, World};

#[test]
fn repeated_shift_left_stabilizes_at_the_left_wall() {
    // Width 10, O piece at the default spawn column: the piece's
    // leftmost cells sit in column width / 2 - 1 = 4.  Shifting left
    // again and again walks them to column 0 and no further.
    let mut w = World::new(10, 20, Shape::O, Orientation::Up);
    assert_eq!(w.tetromino_shift(), 3);
    let mut moves = 0;
    loop {
        let before = w.tetromino_shift();
        w.shift_left();
        if w.tetromino_shift() == before {
            break;
        }
        moves += 1;
        assert!(moves <= 10, "shift_left never stabilized");
    }
    // The O piece occupies box columns 1 and 2, so its leftmost cell is
    // at column 0 exactly when the box offset is -1.
    assert_eq!(moves, 4);
    assert_eq!(w.tetromino_shift(), -1);
    let mut cells = w.occupied_cells();
    cells.sort();
    assert_eq!(cells, vec![(0, 0), (0, 1), (1, 0), (1, 1)]);
    // Still stable on a further attempt.
    w.shift_left();
    assert_eq!(w.tetromino_shift(), -1);
}

#[test]
fn soft_drop_blocked_by_a_cell_directly_below_the_spawn() {
    let mut w = World::new(10, 20, Shape::O, Orientation::Up);
    // The spawned piece occupies rows 0-1, columns 4-5; row 2, column 4
    // is directly below it.
    w.set_settled_cell(2 * 10 + 4, Some(Shape::S));
    assert!(!w.soft_drop());
    assert_eq!(w.tetromino_drop(), 0);
    assert_eq!(w.tetromino_shift(), 3);
}

#[test]
fn rotated_i_piece_forms_a_vertical_line_through_the_pivot_column() {
    let mut w = World::new(10, 20, Shape::I, Orientation::Up);
    let mut before = w.occupied_cells();
    before.sort();
    assert_eq!(before, vec![(1, 3), (1, 4), (1, 5), (1, 6)]);
    w.rotate_right();
    let mut after = w.occupied_cells();
    after.sort();
    // A vertical line through column 5, the pivot column of the
    // horizontal layout.
    assert_eq!(after, vec![(0, 5), (1, 5), (2, 5), (3, 5)]);
}

#[test]
fn soft_drop_stops_at_the_bottom_row_and_stays_on_grid() {
    let mut w = World::new(10, 20, Shape::O, Orientation::Up);
    let mut drops = 0;
    while w.soft_drop() {
        drops += 1;
        assert!(drops <= 20, "soft_drop never stabilized");
    }
    // The O piece's lowest cells sit in box row 1: the bottom-most legal
    // box offset is height - 2 = 18.
    assert_eq!(drops, 18);
    assert_eq!(w.tetromino_drop(), 18);
    // One more attempt is a no-op and the piece stays inside the grid.
    assert!(!w.soft_drop());
    assert_eq!(w.tetromino_drop(), 18);
    for &(row, col) in w.occupied_cells().iter() {
        assert!((0..10).contains(&col));
        assert!((0..20).contains(&row));
    }
}

#[test]
fn committed_moves_never_leave_the_field_or_overlap() {
    // Drive a piece through a mix of moves over a partly seeded grid and
    // check after every step that its cells are in bounds and disjoint
    // from the settled cells.
    let mut w = World::new(8, 12, Shape::S, Orientation::Up);
    w.set_settled_cell(5 * 8 + 2, Some(Shape::L));
    w.set_settled_cell(7 * 8 + 3, Some(Shape::J));
    w.set_settled_cell(11 * 8 + 6, Some(Shape::Z));
    let script = [0, 1, 2, 0, 0, 2, 2, 2, 1, 0, 2, 0, 0, 0, 2, 2, 1, 2, 2, 2, 2, 2];
    for &step in script.iter() {
        match step {
            0 => w.shift_left(),
            1 => w.shift_right(),
            _ => {
                w.soft_drop();
            }
        }
        for &(row, col) in w.occupied_cells().iter() {
            assert!(col >= 0 && col < 8);
            assert!(row < 12);
            if row >= 0 {
                let idx = (row * 8 + col) as usize;
                assert_eq!(w.old_cells()[idx], None);
            }
        }
    }
}
