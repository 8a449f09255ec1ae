use tetris_core::input::{action_for_key, str_eq};
use tetris_core::{Action, Orientation, Shape, World};

#[test]
fn str_eq_compares_character_sequences() {
    assert!(str_eq("ArrowLeft", "ArrowLeft"));
    assert!(!str_eq("ArrowLeft", "ArrowRight"));
    assert!(!str_eq("Arrow", "ArrowLeft"));
    assert!(!str_eq("ArrowLeft", "Arrow"));
    assert!(str_eq("", ""));
    assert!(!str_eq("", "x"));
}

#[test]
fn key_table_maps_every_bound_key() {
    assert_eq!(action_for_key("ArrowLeft"), Some(Action::ShiftLeft));
    assert_eq!(action_for_key("Numpad4"), Some(Action::ShiftLeft));
    assert_eq!(action_for_key("ArrowRight"), Some(Action::ShiftRight));
    assert_eq!(action_for_key("Numpad6"), Some(Action::ShiftRight));
    assert_eq!(action_for_key("ArrowUp"), Some(Action::RotateRight));
    assert_eq!(action_for_key("KeyX"), Some(Action::RotateRight));
    assert_eq!(action_for_key("Numpad1"), Some(Action::RotateRight));
    assert_eq!(action_for_key("Numpad5"), Some(Action::RotateRight));
    assert_eq!(action_for_key("Numpad9"), Some(Action::RotateRight));
    assert_eq!(action_for_key("ControlLeft"), Some(Action::RotateLeft));
    assert_eq!(action_for_key("ControlRight"), Some(Action::RotateLeft));
    assert_eq!(action_for_key("KeyZ"), Some(Action::RotateLeft));
    assert_eq!(action_for_key("Numpad3"), Some(Action::RotateLeft));
    assert_eq!(action_for_key("Numpad7"), Some(Action::RotateLeft));
    assert_eq!(action_for_key("ArrowDown"), Some(Action::SoftDrop));
    assert_eq!(action_for_key("Numpad2"), Some(Action::SoftDrop));
}

#[test]
fn key_table_ignores_unbound_keys() {
    assert_eq!(action_for_key("Space"), None);
    assert_eq!(action_for_key("Escape"), None);
    assert_eq!(action_for_key("KeyA"), None);
    assert_eq!(action_for_key(""), None);
}

#[test]
fn keystroke_drives_the_world() {
    let mut w = World::new(10, 20, Shape::T, Orientation::Up);
    w.keystroke("ArrowLeft");
    assert_eq!(w.tetromino_shift(), 2);
    w.keystroke("ArrowRight");
    w.keystroke("Numpad6");
    assert_eq!(w.tetromino_shift(), 4);
    w.keystroke("ArrowDown");
    assert_eq!(w.tetromino_drop(), 1);
    w.keystroke("KeyX");
    assert_eq!(w.tetromino_orientation(), Orientation::Right);
    w.keystroke("KeyZ");
    assert_eq!(w.tetromino_orientation(), Orientation::Up);
}

#[test]
fn keystroke_ignores_unbound_keys() {
    let mut w = World::new(10, 20, Shape::T, Orientation::Up);
    w.keystroke("Space");
    w.keystroke("Escape");
    w.keystroke("nonsense");
    assert_eq!(w.tetromino_shift(), 3);
    assert_eq!(w.tetromino_drop(), 0);
    assert_eq!(w.tetromino_orientation(), Orientation::Up);
}
