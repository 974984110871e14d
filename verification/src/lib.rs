//! Note-taking grid for 9x9 number puzzles: cell annotations, key handling,
//! grid geometry and the drawing plan of one frame.

pub mod cell;
pub mod frame;
pub mod geometry;
pub mod help;
pub mod input;
pub mod laws;
pub mod layout;
pub mod marks;
pub mod puzzle;
pub mod render;
pub mod session;
