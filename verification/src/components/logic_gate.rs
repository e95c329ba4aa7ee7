//! Two-input logic gates and their artwork.

use vstd::prelude::*;

use crate::canvas::element::{CanvasElement, ElementModel, IntoCanvasElement};
use crate::canvas::renderer::{CanvasContextRenderer, DrawCommand, DrawModel};
use crate::connection_point::{ConnectionPoint, PointModel};
use crate::grid::UNIT;
use crate::redstone_component::{Component, ComponentType, RedstoneComponent};
use crate::text::{decimal, to_decimal};

verus! {

/// Markup up to the outline's first input stub.
pub const SVG_HEAD: &'static str =
    "\n            <svg width=\"125\" height=\"100\" xmlns=\"http://www.w3.org/2000/svg\">\n                <path style=\"fill: none; stroke: rgb(0, 0, 0); stroke-width: 2px;\" d=\"M0,25 ";

/// Outline between the first input stub and the output stub.
pub const SVG_UPPER_EDGE: &'static str = " V1 H100 V50 ";

/// Outline between the output stub and the second input stub.
pub const SVG_LOWER_EDGE: &'static str = " V99 H25 V75 ";

/// End of the outline and start of the label.
pub const SVG_LABEL_OPEN: &'static str = " V25\"></path>\n                <text x=\"";

/// Label attributes that follow its horizontal position.
pub const SVG_LABEL_STYLE: &'static str =
    "\" y=\"25\" style=\"font-family: Arial; font-size: 20px;\">";

/// Markup after the label text.
pub const SVG_TAIL: &'static str = "</text>\n            </svg>";

/// Width of a gate's bounding box, in fixed-point steps.
pub const GATE_WIDTH: i64 = 125 * UNIT;

/// Height of a gate's bounding box, in fixed-point steps.
pub const GATE_HEIGHT: i64 = 100 * UNIT;

#[derive(Debug, Clone, Copy, PartialEq, Eq, Hash, Structural)]
pub enum LogicGateType {
    And,
    Or,
    Xor,
    Nand,
    Nor,
}

impl LogicGateType {
    /// The label drawn inside a gate of this kind, escaped for markup.
    pub open spec fn label(self) -> Seq<char> {
        match self {
            LogicGateType::And | LogicGateType::Nand => "&amp;"@,
            LogicGateType::Or | LogicGateType::Nor => "&gt;=1"@,
            LogicGateType::Xor => "=1"@,
        }
    }

    /// Horizontal position of the label inside the outline.
    pub open spec fn label_x(self) -> int {
        match self {
            LogicGateType::And | LogicGateType::Nand => 75,
            LogicGateType::Or | LogicGateType::Nor => 55,
            LogicGateType::Xor => 65,
        }
    }

    /// Outline of the upper input stub: a plain stub, or one with an inversion
    /// bubble.
    pub open spec fn upper_input_path(inverted: bool) -> Seq<char> {
        if inverted {
            "H15 A5,5,0,0,0,25,25 A5,5,0,0,0,15,25 M25,25"@
        } else {
            "H25"@
        }
    }

    /// Outline of the lower input stub.
    pub open spec fn lower_input_path(inverted: bool) -> Seq<char> {
        if inverted {
            "A5,5,0,0,0,15,75 H0 M15,75 A5,5,0,0,0,25,75"@
        } else {
            "H0 H25"@
        }
    }

    /// Outline of the output stub; the negating gates carry a bubble.
    pub open spec fn output_path(self) -> Seq<char> {
        match self {
            LogicGateType::And | LogicGateType::Or | LogicGateType::Xor => "H125 H100"@,
            LogicGateType::Nand | LogicGateType::Nor =>
                "A5,5,0,0,0,110,50 A5,5,0,0,0,100,50 M110,50 H125 M100,50"@,
        }
    }

    /// The complete vector image of a gate of this kind.
    pub open spec fn markup(self, inputs_inverted: (bool, bool)) -> Seq<char> {
        SVG_HEAD@ + Self::upper_input_path(inputs_inverted.0) + SVG_UPPER_EDGE@
            + self.output_path() + SVG_LOWER_EDGE@ + Self::lower_input_path(inputs_inverted.1)
            + SVG_LABEL_OPEN@ + decimal(self.label_x() as nat) + SVG_LABEL_STYLE@ + self.label()
            + SVG_TAIL@
    }

    /// The display name of this kind of gate.
    pub open spec fn name(self) -> Seq<char> {
        match self {
            LogicGateType::And => "And Gate"@,
            LogicGateType::Or => "Or Gate"@,
            LogicGateType::Xor => "Xor Gate"@,
            LogicGateType::Nand => "Nand Gate"@,
            LogicGateType::Nor => "Nor Gate"@,
        }
    }

    pub fn get_svg_string(&self, inputs_inverted: (bool, bool)) -> (svg: String)
        ensures
            svg@ == self.markup(inputs_inverted),
    {
        let (text, text_x) = self.get_svg_text();
        let (input_path1, input_path2) = self.get_input_svg_path(inputs_inverted);
        let output_path = self.get_output_svg_path();
        let x = to_decimal(text_x as u32);
        let mut svg = String::from_str(SVG_HEAD);
        svg.append(input_path1);
        svg.append(SVG_UPPER_EDGE);
        svg.append(output_path);
        svg.append(SVG_LOWER_EDGE);
        svg.append(input_path2);
        svg.append(SVG_LABEL_OPEN);
        svg.append(x.as_str());
        svg.append(SVG_LABEL_STYLE);
        svg.append(text);
        svg.append(SVG_TAIL);
        svg
    }

    pub fn get_svg_text(&self) -> (label: (&'static str, i32))
        ensures
            label.0@ == self.label(),
            label.1 == self.label_x(),
    {
        match self {
            LogicGateType::And | LogicGateType::Nand => ("&amp;", 75),
            LogicGateType::Or | LogicGateType::Nor => ("&gt;=1", 55),
            LogicGateType::Xor => ("=1", 65),
        }
    }

    pub fn get_input_svg_path(&self, inputs_inverted: (bool, bool)) -> (paths: (
        &'static str,
        &'static str,
    ))
        ensures
            paths.0@ == Self::upper_input_path(inputs_inverted.0),
            paths.1@ == Self::lower_input_path(inputs_inverted.1),
    {
        let input1 = if !inputs_inverted.0 {
            "H25"
        } else {
            "H15 A5,5,0,0,0,25,25 A5,5,0,0,0,15,25 M25,25"
        };
        let input2 = if !inputs_inverted.1 {
            "H0 H25"
        } else {
            "A5,5,0,0,0,15,75 H0 M15,75 A5,5,0,0,0,25,75"
        };
        (input1, input2)
    }

    pub fn get_output_svg_path(&self) -> (path: &'static str)
        ensures
            path@ == self.output_path(),
    {
        match self {
            LogicGateType::And | LogicGateType::Or | LogicGateType::Xor => "H125 H100",
            LogicGateType::Nand | LogicGateType::Nor =>
                "A5,5,0,0,0,110,50 A5,5,0,0,0,100,50 M110,50 H125 M100,50",
        }
    }

    /// The display name of this kind of gate, such as `And Gate`.
    pub fn to_string(&self) -> (name: String)
        ensures
            name@ == self.name(),
    {
        match self {
            LogicGateType::And => String::from_str("And Gate"),
            LogicGateType::Or => String::from_str("Or Gate"),
            LogicGateType::Xor => String::from_str("Xor Gate"),
            LogicGateType::Nand => String::from_str("Nand Gate"),
            LogicGateType::Nor => String::from_str("Nor Gate"),
        }
    }
}

/// The pins of every gate, relative to its top-left corner: two inputs on the
/// left edge and one output on the right edge.
pub open spec fn gate_points() -> Seq<PointModel> {
    seq![
        PointModel { x: 0, y: 25 * UNIT, up: true, right: false, down: false, left: true },
        PointModel { x: 0, y: 75 * UNIT, up: false, right: false, down: true, left: true },
        PointModel { x: 125 * UNIT, y: 50 * UNIT, up: true, right: true, down: true, left: false },
    ]
}

/// A simple gate with two inputs and one output.
#[derive(Debug, Clone, Copy, PartialEq, Eq, Hash)]
pub struct LogicGate {
    pub gate_type: LogicGateType,
    /// Whether the upper and the lower input carry an inversion bubble.
    pub inputs_inverted: (bool, bool),
}

impl LogicGate {
    pub fn new(gate_type: LogicGateType) -> (gate: Self)
        ensures
            gate == (LogicGate { gate_type, inputs_inverted: (false, false) }),
    {
        Self::new_with_inverted_inputs(gate_type, (false, false))
    }

    pub fn new_with_inverted_inputs(gate_type: LogicGateType, inputs_inverted: (bool, bool)) -> (gate:
        Self)
        ensures
            gate == (LogicGate { gate_type, inputs_inverted }),
    {
        Self { gate_type, inputs_inverted }
    }

    /// The vector image that shows this gate.
    pub fn get_svg_string(&self) -> (svg: String)
        ensures
            svg@ == self.gate_type.markup(self.inputs_inverted),
    {
        self.gate_type.get_svg_string(self.inputs_inverted)
    }
}

impl RedstoneComponent for LogicGate {
    open spec fn connection_points(&self) -> Seq<PointModel> {
        gate_points()
    }

    open spec fn component_type(&self) -> ComponentType {
        ComponentType::LogicGate(self.gate_type)
    }

    open spec fn title(&self) -> Seq<char> {
        self.gate_type.name()
    }

    fn get_connection_points(&self) -> (points: Vec<ConnectionPoint>) {
        let mut points: Vec<ConnectionPoint> = Vec::new();
        points.push(ConnectionPoint::new(0, 25 * UNIT, [true, false, false, true]));
        points.push(ConnectionPoint::new(0, 75 * UNIT, [false, false, true, true]));
        points.push(ConnectionPoint::new(125 * UNIT, 50 * UNIT, [true, true, true, false]));
        points
    }

    fn get_component_type(&self) -> (kind: ComponentType) {
        ComponentType::LogicGate(self.gate_type)
    }

    fn get_component_list_item_title(&self) -> (title: String) {
        self.gate_type.to_string()
    }
}

impl CanvasContextRenderer for LogicGate {
    open spec fn paintable_at(&self, x: int, y: int) -> bool {
        true
    }

    open spec fn painted_at(&self, x: int, y: int) -> DrawModel {
        DrawModel::Image { component: Component::LogicGate(*self), x, y }
    }

    fn render_at_position(&self, position: (i64, i64)) -> (command: DrawCommand) {
        DrawCommand::Image { component: Component::LogicGate(*self), x: position.0, y: position.1 }
    }
}

impl IntoCanvasElement for LogicGate {
    open spec fn canvas_element(self, x: int, y: int) -> ElementModel {
        ElementModel {
            component: Component::LogicGate(self),
            x,
            y,
            width: GATE_WIDTH as int,
            height: GATE_HEIGHT as int,
            connection_points: gate_points(),
        }
    }

    fn into_canvas_element(self, position: (i64, i64)) -> (element: CanvasElement) {
        let connection_points = self.get_connection_points();
        CanvasElement::new(
            Component::LogicGate(self),
            position,
            GATE_HEIGHT,
            GATE_WIDTH,
            connection_points,
        )
    }
}

} // verus!
