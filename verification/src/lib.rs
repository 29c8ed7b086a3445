//! A verified engine for two-player, turn-based tic-tac-toe on a 3x3 grid:
//! board state with an occupied-cell counter, move validation, win and draw
//! detection, and turn alternation.

pub mod board;
pub mod game;
pub mod player;
