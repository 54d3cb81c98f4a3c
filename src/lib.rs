//! Bring-up core of a board-support package for a handheld display board:
//! the pin assignment, the ordering of the bring-up steps, and the state the
//! board is left in, each stated and proved.
pub mod error;
pub mod pins;
pub mod board;
pub mod pwm;
pub mod once;
pub mod sequence;
