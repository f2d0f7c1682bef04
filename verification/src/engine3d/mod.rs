//! The 3D engine's geometry front end: fixed-point math, its registers and
//! the geometry command FIFO.
pub mod fixed;
pub mod registers;
pub mod geometry;
pub mod engine;
pub mod commands;
pub mod lighting;
pub mod vertex;
pub mod clip;
pub mod exec;
pub mod render;
