//! Voxel scene data model, spherical capture sweep and frame readback layout.

pub mod camera_controller;
pub mod camera_sphere_controller;
pub mod compare;
pub mod decimal;
pub mod index3;
pub mod loaders;
pub mod screenshot;
pub mod sphere_screenshot_manager;
pub mod state;
pub mod voxel;
