//! A grid-based snake game engine: the body of the snake, the rules of a
//! round and the state machine that drives them.
//!
//! The engine draws nothing and reads no device. A driver feeds it key
//! presses and elapsed time, and renders what the accessors report.

pub mod clock;
pub mod direction;
pub mod game;
pub mod keys;
mod random;
pub mod snake;
