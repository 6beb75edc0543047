//! The dense voxel grid and its cells.

pub mod grid;
pub mod init;
pub mod voxel;
