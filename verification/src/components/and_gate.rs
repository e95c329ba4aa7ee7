//! The artwork of a plain AND gate as one constant image.

use vstd::prelude::*;

verus! {

/// The vector image of an AND gate with plain inputs, on one line.
pub const AND_GATE_SVG: &'static str =
    "<svg width=\"125\" height=\"100\" xmlns=\"http://www.w3.org/2000/svg\"><path style=\"fill: none; stroke: rgb(0, 0, 0); stroke-width: 2px;\" d=\"M0,25 H25 V1 H100 V50 H125 H100 V99 H25 V75 H0 H25 V25\"></path><text x=\"75\" y=\"25\" style=\"font-family: Arial; font-size: 20px;\">&amp;</text></svg>";

/// Wrapper for the vector image of an AND gate.
pub struct AndGate;

impl AndGate {
    pub fn new() -> (gate: AndGate)
        ensures
            gate == AndGate,
    {
        AndGate
    }

    pub fn get_svg_string(&self) -> (svg: &'static str)
        ensures
            svg@ == AND_GATE_SVG@,
    {
        AND_GATE_SVG
    }
}

} // verus!
