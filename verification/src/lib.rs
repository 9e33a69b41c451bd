//! Verified core of an anonymous imageboard backend: reply-reference
//! parsing, credential and bearer-token checks, and the rules that shape
//! posts, threads and boards before they reach the database.

pub mod chars;
pub mod numbers;
pub mod utils;
pub mod middlewares;
pub mod admin;
pub mod boards;
pub mod posts;
