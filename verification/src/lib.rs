//! A last-in-first-out stack built from a chain of tiles, each of which owns
//! the tile below it.
//!
//! `stack` holds the container and its operations; `model` holds the
//! mathematical stack that the contracts speak of and the laws that follow
//! from them.

pub mod model;
pub mod stack;

pub use stack::{Stack, Tile};
