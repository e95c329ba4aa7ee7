//! The terminal pin: a single connector that feeds a signal into the diagram.

use vstd::prelude::*;

use crate::canvas::element::{CanvasElement, ElementModel, IntoCanvasElement};
use crate::canvas::renderer::{CanvasContextRenderer, DrawCommand, DrawModel};
use crate::connection_point::{ConnectionPoint, PointModel};
use crate::grid::UNIT;
use crate::redstone_component::{Component, ComponentType, RedstoneComponent};

verus! {

/// The complete vector image of a terminal pin.
pub const PIN_SVG: &'static str =
    "\n        <svg width=\"25\" height=\"50\" xmlns=\"http://www.w3.org/2000/svg\">\n            <path style=\"fill: black; stroke: rgb(0, 0, 0); stroke-width: 2px;\" d=\"M1,25 A5,5,0,0,0,11,25 A5,5,0,0,0,0,25 H25\"></path>\n        </svg>\n        ";

/// Width of a terminal pin's bounding box, in fixed-point steps.
pub const PIN_WIDTH: i64 = 25 * UNIT;

/// Height of a terminal pin's bounding box, in fixed-point steps.
pub const PIN_HEIGHT: i64 = 50 * UNIT;

/// How far above its placement a terminal pin's artwork starts, so that the
/// connector, which sits halfway down the image, lands on the placement's row.
pub const PIN_RISE: i64 = 25 * UNIT;

/// The single pin of a terminal, relative to its placement: on the right edge,
/// leaving rightwards only.
pub open spec fn pin_points() -> Seq<PointModel> {
    seq![PointModel { x: 25 * UNIT, y: 0, up: false, right: true, down: false, left: false }]
}

#[derive(Debug, Clone, Copy, PartialEq, Eq, Hash, Structural)]
pub struct Pin {}

impl Pin {
    pub fn new() -> (pin: Self)
        ensures
            pin == (Pin {  }),
    {
        Self {  }
    }

    pub fn get_svg_string() -> (svg: String)
        ensures
            svg@ == PIN_SVG@,
    {
        String::from_str(PIN_SVG)
    }
}

impl RedstoneComponent for Pin {
    open spec fn connection_points(&self) -> Seq<PointModel> {
        pin_points()
    }

    open spec fn component_type(&self) -> ComponentType {
        ComponentType::Pin
    }

    open spec fn title(&self) -> Seq<char> {
        "Pin"@
    }

    fn get_component_type(&self) -> (kind: ComponentType) {
        ComponentType::Pin
    }

    fn get_component_list_item_title(&self) -> (title: String) {
        String::from_str("Pin")
    }

    fn get_connection_points(&self) -> (points: Vec<ConnectionPoint>) {
        let mut points: Vec<ConnectionPoint> = Vec::new();
        points.push(ConnectionPoint::new(25 * UNIT, 0, [false, true, false, false]));
        points
    }
}

impl CanvasContextRenderer for Pin {
    open spec fn paintable_at(&self, x: int, y: int) -> bool {
        y - PIN_RISE >= i64::MIN
    }

    open spec fn painted_at(&self, x: int, y: int) -> DrawModel {
        DrawModel::Image { component: Component::Pin(*self), x, y: y - PIN_RISE }
    }

    fn render_at_position(&self, position: (i64, i64)) -> (command: DrawCommand) {
        DrawCommand::Image { component: Component::Pin(*self), x: position.0, y: position.1 - PIN_RISE }
    }
}

impl IntoCanvasElement for Pin {
    open spec fn canvas_element(self, x: int, y: int) -> ElementModel {
        ElementModel {
            component: Component::Pin(self),
            x,
            y,
            width: PIN_WIDTH as int,
            height: PIN_HEIGHT as int,
            connection_points: pin_points(),
        }
    }

    fn into_canvas_element(self, position: (i64, i64)) -> (element: CanvasElement) {
        let connection_points = self.get_connection_points();
        CanvasElement::new(Component::Pin(self), position, PIN_HEIGHT, PIN_WIDTH, connection_points)
    }
}

} // verus!
