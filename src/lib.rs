//! The simulation core of a grid-based snake game: movement, growth,
//! collisions, food placement, the tick clock and the session state machine.

pub mod geometry;
pub mod snake;
pub mod food;
pub mod clock;
pub mod session;
