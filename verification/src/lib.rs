//! Movement and self-collision model of a grid snake.
//!
//! The snake is a chain of grid cells, head first, that advances one cell
//! per tick in its current heading, can grow by taking back the cell it
//! vacated last, and can tell whether a cell lies on its body.

pub mod direction;
pub mod laws;
pub mod snake;
pub mod state;

pub use crate::direction::Direction;
pub use crate::snake::Snake;
pub use crate::state::SnakeState;
