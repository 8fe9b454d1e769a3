//! Rules engine for a two-player four-in-a-row game on a gravity-fed grid.
//!
//! Tokens are dropped into columns, stack bottom-up, and the first player to
//! align four equal tokens vertically, horizontally or diagonally wins. Every
//! operation carries a machine-checked contract over a mathematical model of
//! the board.

pub mod game;
