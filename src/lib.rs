pub mod board;
pub mod commitment;
pub mod game;
pub mod pending;
pub mod turn_based;
pub mod laws;
