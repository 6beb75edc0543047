//! Readers of volumetric dataset formats.

pub mod dat;
pub mod netcdf;
