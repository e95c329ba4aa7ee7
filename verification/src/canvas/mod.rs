//! Placed elements and the instructions that paint them.

pub mod element;
pub mod renderer;
