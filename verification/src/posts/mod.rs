//! Posts and threads.
pub mod model;
