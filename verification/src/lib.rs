//! Core of a real-time rendering stack: a free-roaming camera with lazy
//! view-projection recomputation, a mesh/model data pipeline with midpoint
//! subdivision and vertex deduplication, and a path-keyed texture cache.
//!
//! All scalar quantities (angles in degrees, world coordinates, seconds) are
//! fixed-point numbers: an `i64` holding the value scaled by `2^16`.

pub mod camera;
pub mod fixed;
pub mod fps_camera;
pub mod free_camera_ex3;
pub mod linalg;
pub mod mesh;
pub mod model;
pub mod trig;
pub mod viewproj;

pub use fixed::FX;
