//! The components that can be placed on the canvas.

pub mod and_gate;
pub mod logic_gate;
pub mod pin;
