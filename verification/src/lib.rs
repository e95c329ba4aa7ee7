//! Grid canvas engine for composing logic-gate diagrams.
//!
//! Components are picked from a palette and stamped onto a grid. The engine
//! in [`workspace::workarea`] owns the diagram, follows the pointer, decides
//! which pins are wired together, and lays out each frame as a list of
//! drawing instructions for a host to carry out. Nothing in this crate draws
//! or listens by itself: a host feeds it pointer pixels and clicks, and paints
//! what it is told to paint.
//!
//! All lengths are fixed-point numbers, `i64` counts of hundredths of a
//! logical unit (see [`grid`]); the vertical axis grows downwards.

pub mod application;
pub mod canvas;
pub mod component_list;
pub mod components;
pub mod connection_point;
pub mod grid;
pub mod keyboard_input_handler;
pub mod main_header;
pub mod redstone_component;
pub mod text;
pub mod toolbar;
pub mod workspace;
