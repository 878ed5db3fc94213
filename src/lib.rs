//! A two-player Rock-Paper-Scissors wager played by commit and reveal.
//!
//! The core is a total, deterministic transition function over game states;
//! around it sit the commitment encoding and the plan of escrow transfers
//! that each accepted transition calls for.

pub mod choice;
pub mod commitment;
pub mod game;
pub mod machine;
pub mod laws;
pub mod settlement;
