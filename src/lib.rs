//! A two-player game of noughts and crosses on a three-by-three board:
//! board state and moves, win and draw detection, rendering, and the
//! decisions of one turn of the game loop.

pub mod board;
pub mod rules;
pub mod render;
pub mod game;
