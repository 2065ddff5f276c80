//! Label resolution and diff-target addressing for a Git front-end.

pub mod cli;
pub mod display;
pub mod error;
pub mod label;
pub mod repo;
pub mod store;
pub mod target;
