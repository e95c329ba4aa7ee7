//! The kinds of component that the palette offers.

use vstd::prelude::*;

use crate::canvas::element::{CanvasElement, ElementModel, IntoCanvasElement};
use crate::canvas::renderer::{CanvasContextRenderer, DrawCommand, DrawModel};
use crate::components::logic_gate::{LogicGate, LogicGateType};
use crate::components::pin::Pin;
use crate::connection_point::{ConnectionPoint, PointModel};

verus! {

/// What every placeable component can tell about itself.
pub trait RedstoneComponent: IntoCanvasElement {
    /// The component's pins, relative to its placement.
    spec fn connection_points(&self) -> Seq<PointModel>;

    /// The palette entry that this component comes from.
    spec fn component_type(&self) -> ComponentType;

    /// The name under which the palette lists the component.
    spec fn title(&self) -> Seq<char>;

    fn get_connection_points(&self) -> (points: Vec<ConnectionPoint>)
        ensures
            points.deep_view() == self.connection_points(),
    ;

    fn get_component_type(&self) -> (kind: ComponentType)
        ensures
            kind == self.component_type(),
    ;

    fn get_component_list_item_title(&self) -> (title: String)
        ensures
            title@ == self.title(),
    ;
}

/// An entry of the palette.
#[derive(Debug, Clone, Copy, PartialEq, Eq, Hash, Structural)]
pub enum ComponentType {
    LogicGate(LogicGateType),
    Pin,
}

/// A component of one of the known kinds.
#[derive(Debug, Clone, Copy, PartialEq, Eq, Hash)]
pub enum Component {
    LogicGate(LogicGate),
    Pin(Pin),
}

impl ComponentType {
    /// The component that a palette entry stands for: a gate of the given kind
    /// with plain inputs, or a terminal pin.
    pub open spec fn component(self) -> Component {
        match self {
            ComponentType::LogicGate(gate_type) => Component::LogicGate(
                LogicGate { gate_type, inputs_inverted: (false, false) },
            ),
            ComponentType::Pin => Component::Pin(Pin {  }),
        }
    }

    pub fn try_as_component(&self) -> (component: Component)
        ensures
            component == self.component(),
    {
        match self {
            ComponentType::LogicGate(gate_type) => Component::LogicGate(LogicGate::new(*gate_type)),
            ComponentType::Pin => Component::Pin(Pin::new()),
        }
    }
}

impl RedstoneComponent for Component {
    open spec fn connection_points(&self) -> Seq<PointModel> {
        match self {
            Component::LogicGate(gate) => gate.connection_points(),
            Component::Pin(pin) => pin.connection_points(),
        }
    }

    open spec fn component_type(&self) -> ComponentType {
        match self {
            Component::LogicGate(gate) => gate.component_type(),
            Component::Pin(pin) => pin.component_type(),
        }
    }

    open spec fn title(&self) -> Seq<char> {
        match self {
            Component::LogicGate(gate) => gate.title(),
            Component::Pin(pin) => pin.title(),
        }
    }

    fn get_connection_points(&self) -> (points: Vec<ConnectionPoint>) {
        match self {
            Component::LogicGate(gate) => gate.get_connection_points(),
            Component::Pin(pin) => pin.get_connection_points(),
        }
    }

    fn get_component_type(&self) -> (kind: ComponentType) {
        match self {
            Component::LogicGate(gate) => gate.get_component_type(),
            Component::Pin(pin) => pin.get_component_type(),
        }
    }

    fn get_component_list_item_title(&self) -> (title: String) {
        match self {
            Component::LogicGate(gate) => gate.get_component_list_item_title(),
            Component::Pin(pin) => pin.get_component_list_item_title(),
        }
    }
}

impl CanvasContextRenderer for Component {
    open spec fn paintable_at(&self, x: int, y: int) -> bool {
        match self {
            Component::LogicGate(gate) => gate.paintable_at(x, y),
            Component::Pin(pin) => pin.paintable_at(x, y),
        }
    }

    open spec fn painted_at(&self, x: int, y: int) -> DrawModel {
        match self {
            Component::LogicGate(gate) => gate.painted_at(x, y),
            Component::Pin(pin) => pin.painted_at(x, y),
        }
    }

    fn render_at_position(&self, position: (i64, i64)) -> (command: DrawCommand) {
        match self {
            Component::LogicGate(gate) => gate.render_at_position(position),
            Component::Pin(pin) => pin.render_at_position(position),
        }
    }
}

impl IntoCanvasElement for Component {
    open spec fn canvas_element(self, x: int, y: int) -> ElementModel {
        match self {
            Component::LogicGate(gate) => gate.canvas_element(x, y),
            Component::Pin(pin) => pin.canvas_element(x, y),
        }
    }

    fn into_canvas_element(self, position: (i64, i64)) -> (element: CanvasElement) {
        match self {
            Component::LogicGate(gate) => gate.into_canvas_element(position),
            Component::Pin(pin) => pin.into_canvas_element(position),
        }
    }
}

} // verus!
