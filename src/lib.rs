//! A bouncing-disk simulation: a fixed population of disks moving inside a
//! rectangular viewport and reflecting off its four edges, together with the
//! per-frame vertex data that a point-sprite renderer draws from.
//!
//! Positions and velocities are integers in sub-pixel units
//! (`SUBPIXELS_PER_PIXEL` of them per pixel), so that every step of the
//! simulation is exact.
pub mod colors;
pub mod disk;
pub mod disk_set;
pub mod greeting;
pub mod screen;
