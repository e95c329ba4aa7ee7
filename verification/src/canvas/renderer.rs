//! Drawing instructions for the host surface, and the redraw loop's steps.

use vstd::prelude::*;

use crate::redstone_component::Component;

verus! {

/// What one drawing instruction means, with exact coordinates.
pub enum DrawModel {
    /// Wipe the whole surface.
    Clear,
    /// Paint a component's artwork with its top-left corner at `(x, y)`.
    Image { component: Component, x: int, y: int },
    /// Stroke a straight wire from `(x1, y1)` to `(x2, y2)`.
    Line { x1: int, y1: int, x2: int, y2: int },
}

/// One instruction to the host surface, in fixed-point coordinates.
#[derive(Debug, Clone, Copy, PartialEq, Eq)]
pub enum DrawCommand {
    Clear,
    Image { component: Component, x: i64, y: i64 },
    Line { x1: i64, y1: i64, x2: i64, y2: i64 },
}

impl View for DrawCommand {
    type V = DrawModel;

    open spec fn view(&self) -> DrawModel {
        match *self {
            DrawCommand::Clear => DrawModel::Clear,
            DrawCommand::Image { component, x, y } => DrawModel::Image {
                component,
                x: x as int,
                y: y as int,
            },
            DrawCommand::Line { x1, y1, x2, y2 } => DrawModel::Line {
                x1: x1 as int,
                y1: y1 as int,
                x2: x2 as int,
                y2: y2 as int,
            },
        }
    }
}

impl DeepView for DrawCommand {
    type V = DrawModel;

    open spec fn deep_view(&self) -> DrawModel {
        self@
    }
}

/// Anything that can paint itself at a position of the surface.
pub trait CanvasContextRenderer {
    /// Whether the artwork's corner stays representable when the delegate is
    /// painted at `(x, y)`.
    spec fn paintable_at(&self, x: int, y: int) -> bool;

    /// The instruction that paints the delegate at `(x, y)`.
    spec fn painted_at(&self, x: int, y: int) -> DrawModel;

    fn render_at_position(&self, position: (i64, i64)) -> (command: DrawCommand)
        requires
            self.paintable_at(position.0 as int, position.1 as int),
        ensures
            command@ == self.painted_at(position.0 as int, position.1 as int),
    ;
}

/// The messages that drive the redraw loop.
#[derive(Debug, Clone, Copy, PartialEq, Eq, Structural)]
pub enum CanvasMsg {
    /// The canvas has been mounted.
    Init,
    /// A frame is due.
    Render,
}

/// What the host does in answer to a message of the redraw loop.
#[derive(Debug, Clone, Copy, PartialEq, Eq, Structural)]
pub enum CanvasAction {
    /// Send `CanvasMsg::Render` to start the loop.
    StartLoop,
    /// Book the next animation frame, then paint the current one.
    ScheduleAndPaint,
}

impl CanvasMsg {
    /// The step of the redraw loop that a message calls for. Mounting starts
    /// the loop; every frame books its successor before it paints, so the loop
    /// never ends by itself.
    pub fn action(&self) -> (action: CanvasAction)
        ensures
            action == match *self {
                CanvasMsg::Init => CanvasAction::StartLoop,
                CanvasMsg::Render => CanvasAction::ScheduleAndPaint,
            },
    {
        match self {
            CanvasMsg::Init => CanvasAction::StartLoop,
            CanvasMsg::Render => CanvasAction::ScheduleAndPaint,
        }
    }
}

} // verus!
