//! A turn-based hide-and-seek game on a small forest grid: an older brother
//! fires explosions at random cells, hoping to hit his hidden little brother
//! three times before his supply of explosions runs out.
pub mod coord;
pub mod game;

pub use coord::{Coord, CELL_COUNT, GRID_SIZE};
pub use game::{Cell, GameState, GameView, Outcome, MAX_EXPLOSIONS, MAX_HITS, SISTER_PENALTY};
