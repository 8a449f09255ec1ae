use tetris_core::{Orientation, Shape, Tetromino};

fn mask_of(shape: Shape, orientation: Orientation) -> u32 {
    let mut t = Tetromino::new(shape, orientation);
    t.update();
    t.cells()
}

#[test]
fn new_piece_has_empty_cache() {
    let t = Tetromino::new(Shape::T, Orientation::Down);
    assert_eq!(t.cells(), 0);
    assert_eq!(t.shape(), Shape::T);
    assert_eq!(t.orientation(), Orientation::Down);
}

#[test]
fn mask_table_i_piece() {
    assert_eq!(mask_of(Shape::I, Orientation::Up), 0x00F0);
    assert_eq!(mask_of(Shape::I, Orientation::Right), 0x4444);
    assert_eq!(mask_of(Shape::I, Orientation::Down), 0x0F00);
    assert_eq!(mask_of(Shape::I, Orientation::Left), 0x2222);
}

#[test]
fn mask_table_j_l_pieces() {
    assert_eq!(mask_of(Shape::J, Orientation::Up), 0x0071);
    assert_eq!(mask_of(Shape::J, Orientation::Right), 0x0226);
    assert_eq!(mask_of(Shape::J, Orientation::Down), 0x0470);
    assert_eq!(mask_of(Shape::J, Orientation::Left), 0x0322);
    assert_eq!(mask_of(Shape::L, Orientation::Up), 0x0074);
    assert_eq!(mask_of(Shape::L, Orientation::Right), 0x0622);
    assert_eq!(mask_of(Shape::L, Orientation::Down), 0x0170);
    assert_eq!(mask_of(Shape::L, Orientation::Left), 0x0223);
}

#[test]
fn mask_table_s_t_z_pieces() {
    assert_eq!(mask_of(Shape::S, Orientation::Up), 0x0036);
    assert_eq!(mask_of(Shape::S, Orientation::Right), 0x0462);
    assert_eq!(mask_of(Shape::S, Orientation::Down), 0x0360);
    assert_eq!(mask_of(Shape::S, Orientation::Left), 0x0231);
    assert_eq!(mask_of(Shape::T, Orientation::Up), 0x0072);
    assert_eq!(mask_of(Shape::T, Orientation::Right), 0x0262);
    assert_eq!(mask_of(Shape::T, Orientation::Down), 0x0270);
    assert_eq!(mask_of(Shape::T, Orientation::Left), 0x0232);
    assert_eq!(mask_of(Shape::Z, Orientation::Up), 0x0063);
    assert_eq!(mask_of(Shape::Z, Orientation::Right), 0x0264);
    assert_eq!(mask_of(Shape::Z, Orientation::Down), 0x0630);
    assert_eq!(mask_of(Shape::Z, Orientation::Left), 0x0132);
}

#[test]
fn every_mask_has_four_distinct_cells() {
    let shapes = [Shape::I, Shape::J, Shape::L, Shape::O, Shape::S, Shape::T, Shape::Z];
    let orientations =
        [Orientation::Up, Orientation::Right, Orientation::Down, Orientation::Left];
    for &s in shapes.iter() {
        for &o in orientations.iter() {
            let m = mask_of(s, o);
            assert_eq!(m.count_ones(), 4, "{:?} {:?}", s, o);
            assert!(m < 0x10000, "{:?} {:?}", s, o);
        }
    }
}

#[test]
fn o_piece_identical_in_all_orientations() {
    let up = mask_of(Shape::O, Orientation::Up);
    assert_eq!(mask_of(Shape::O, Orientation::Right), up);
    assert_eq!(mask_of(Shape::O, Orientation::Down), up);
    assert_eq!(mask_of(Shape::O, Orientation::Left), up);
}

#[test]
fn rotate_right_is_a_four_cycle() {
    let orientations =
        [Orientation::Up, Orientation::Right, Orientation::Down, Orientation::Left];
    for &o in orientations.iter() {
        let mut t = Tetromino::new(Shape::J, o);
        t.rotate_right();
        t.rotate_right();
        t.rotate_right();
        t.rotate_right();
        assert_eq!(t.orientation(), o);
        assert_eq!(t.shape(), Shape::J);
    }
}

#[test]
fn rotate_left_undoes_rotate_right() {
    let orientations =
        [Orientation::Up, Orientation::Right, Orientation::Down, Orientation::Left];
    for &o in orientations.iter() {
        let mut t = Tetromino::new(Shape::S, o);
        t.rotate_right();
        t.rotate_left();
        assert_eq!(t.orientation(), o);
        let mut u = Tetromino::new(Shape::S, o);
        u.rotate_left();
        u.rotate_right();
        assert_eq!(u.orientation(), o);
    }
}

#[test]
fn rotate_right_steps_through_the_cycle() {
    let mut t = Tetromino::new(Shape::L, Orientation::Up);
    t.rotate_right();
    assert_eq!(t.orientation(), Orientation::Right);
    t.rotate_right();
    assert_eq!(t.orientation(), Orientation::Down);
    t.rotate_right();
    assert_eq!(t.orientation(), Orientation::Left);
    t.rotate_right();
    assert_eq!(t.orientation(), Orientation::Up);
}

#[test]
fn rotation_does_not_touch_the_cached_mask() {
    let mut t = Tetromino::new(Shape::T, Orientation::Up);
    t.update();
    let before = t.cells();
    t.rotate_right();
    assert_eq!(t.cells(), before);
    t.update();
    assert_eq!(t.cells(), 0x0262);
}
