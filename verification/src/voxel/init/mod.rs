//! Procedural fills of a grid.

pub mod pyramid;
