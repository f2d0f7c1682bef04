//! The 2D graphics engines: their registers and the drawing of a line
//! from backgrounds, objects, windows and color effects.
pub mod registers;
pub mod engine;
pub mod layers;
pub mod objects;
pub mod compose;
pub mod line;
