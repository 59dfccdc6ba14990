//! Core logic of a small button-grid calculator: the numeric display
//! register, the grid-placement rule for the digit buttons, and the
//! reading of a rendered display text back into an operand.
//!
//! Everything here is plain state and arithmetic; the windowing and
//! event wiring around it live outside this crate.

pub mod accumulator;
pub mod display;
pub mod grid;
