//! A grid snake game: the snake's body and movement, collisions, food and
//! the game-over / restart cycle, as a state machine driven by key presses
//! and elapsed-time ticks.

pub mod snake;
pub mod game;
