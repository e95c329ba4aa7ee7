//! The drawing area of the editor.

pub mod workarea;
