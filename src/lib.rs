//! A two-player chess rules engine: board state, pseudo-legal move
//! generation per piece, move validation and move application, with
//! castling rights read from the move history.

pub mod assets;
pub mod board;
pub mod coords;
pub mod moves;
pub mod pieces;
pub mod theorems;
mod text;
