//! Decision logic of a small screen-masking overlay: how command-line
//! arguments are read, how mouse gestures move or resize the window, and what
//! each frame consists of.

pub mod cli;
pub mod geometry;
pub mod interaction;
pub mod render_state;
