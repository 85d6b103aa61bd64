//! Battleship: the rules of a two-player naval game, with their proofs.
//!
//! `game` holds the boards, ships and shot resolution; the other modules hold
//! the decisions that the terminal front end makes around them.

pub mod game;
pub mod model;
pub mod laws;
pub mod keys;
pub mod protocol;
pub mod tally;
pub mod text;
pub mod session;
pub mod ui;
pub mod random;
pub mod placement;
pub mod audio;
pub mod menu;
