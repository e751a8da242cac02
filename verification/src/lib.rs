//! The rules engine of a falling-block puzzle game: integer lattice
//! geometry with four discrete rotations, the seven tetromino shapes
//! with their SRS wall-kick tables, a bounds-checked board with
//! collision testing and full-row compaction, a bag-fair piece
//! supply, and the command state distilled from key events.  Every
//! function carries a contract; rendering, timing and the frame loop
//! live outside the crate.

pub mod block;
pub mod board;
pub mod error;
pub mod input;
pub mod point;
pub mod supply;
pub mod tetriscolor;
pub mod tetronimo;
pub mod transform;
