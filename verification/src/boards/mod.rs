//! Boards.
pub mod model;
