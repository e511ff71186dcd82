//! Spatial addressing, cell payloads and thermal arithmetic for a simulation
//! that runs on an unbounded grid of cells.
//!
//! Every executable function carries a contract over the mathematical model
//! of its arguments, and the laws that relate the functions to each other
//! are stated as proof functions beside them.

pub mod entity;
pub mod grid;
pub mod heat;
