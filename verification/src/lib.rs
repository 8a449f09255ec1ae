//! Simulation core of a falling-block puzzle game.
//!
//! The library tracks a rectangular play field, a currently falling
//! tetromino, and the cells left behind by earlier pieces.  Every lateral
//! shift and every downward drop of the active piece is validated against
//! the field's boundaries and the settled cells before it is committed;
//! rotation follows the orientation cycle without a legality check, which
//! is a deliberate scope limit of the engine (no wall-kick system).

pub mod board;
pub mod input;
pub mod piece;

pub use board::World;
pub use input::Action;
pub use piece::{GameStatus, Orientation, Shape, Tetromino};
