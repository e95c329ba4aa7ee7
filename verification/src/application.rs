//! The application's commands and the state they act on.

use vstd::prelude::*;

use crate::canvas::element::{CanvasElement, ElementModel};

verus! {

/// Why a part of the user interface calls back into the application.
pub enum CallbackReason {
    /// The palette picked another tool, or none.
    ToolChanged(Option<CanvasElement>),
}

/// A copy of a tool, or of none.
fn clone_tool(tool: &Option<CanvasElement>) -> (copy: Option<CanvasElement>)
    ensures
        copy.deep_view() == tool.deep_view(),
{
    match tool {
        Some(element) => Some(element.clone()),
        None => None,
    }
}

impl Clone for CallbackReason {
    fn clone(&self) -> (copy: Self)
        ensures
            copy matches CallbackReason::ToolChanged(tool) && self
                matches CallbackReason::ToolChanged(own) && tool.deep_view() == own.deep_view(),
    {
        match self {
            CallbackReason::ToolChanged(tool) => CallbackReason::ToolChanged(clone_tool(tool)),
        }
    }
}

/// Everything that a menu entry or a keyboard shortcut can ask for.
#[derive(Debug, Clone, Copy, PartialEq, Eq, Structural)]
pub enum Command {
    // File
    New,
    Open,
    Save,
    _SaveAs,
    _Import,
    _Export,
    Print,
    Close,
    Exit,
    // Edit
    Undo,
    Redo,
    Copy,
    Cut,
    Paste,
    Delete,
    // View
    ZoomIn,
    ZoomOut,
    FitWindow,
    ToggleGrid,
    // Tools
    ExitCurrentTool,
    RotateLeft,
    RotateRight,
    MirrorVertical,
    MirrorHorizontal,
    MakeConnections,
    PlaceText,
    // Simulation
    _StartSimulation,
    _RunSimulaiton,
    _StopSimulation,
    _StepSimulaiton,
    _RestartSimulation,
    _PauseAtChangeSimulation,
}

pub enum ApplicationMsg {
    Callback(CallbackReason),
    Command(Command),
}

/// The tool that a message leaves active, given the tool that was active
/// before: a tool change installs the new tool, leaving the current tool drops
/// it, and no other command touches it.
pub open spec fn tool_after(tool: Option<ElementModel>, msg: ApplicationMsg) -> Option<
    ElementModel,
> {
    match msg {
        ApplicationMsg::Callback(CallbackReason::ToolChanged(new_tool)) => new_tool.deep_view(),
        ApplicationMsg::Command(Command::ExitCurrentTool) => None,
        ApplicationMsg::Command(_) => tool,
    }
}

pub struct ApplicationState {
    /// The prototype that a click stamps onto the canvas, if any.
    pub tool_active: Option<CanvasElement>,
}

impl Clone for ApplicationState {
    fn clone(&self) -> (copy: Self)
        ensures
            copy.tool_active.deep_view() == self.tool_active.deep_view(),
    {
        Self { tool_active: clone_tool(&self.tool_active) }
    }
}

impl Default for ApplicationState {
    fn default() -> (state: Self)
        ensures
            state.tool_active is None,
    {
        Self { tool_active: None }
    }
}

pub struct Application {
    application_state: ApplicationState,
}

impl Application {
    /// The tool that is active now.
    pub closed spec fn tool(&self) -> Option<ElementModel> {
        self.application_state.tool_active.deep_view()
    }

    /// An application with no active tool.
    pub fn create() -> (application: Self)
        ensures
            application.tool() is None,
    {
        Self { application_state: ApplicationState::default() }
    }

    /// Applies a message to the state. The result says whether the view has to
    /// be built anew, which no message asks for: the canvas repaints itself.
    pub fn update(&mut self, msg: ApplicationMsg) -> (redraw: bool)
        ensures
            final(self).tool() == tool_after(old(self).tool(), msg),
            !redraw,
    {
        match msg {
            ApplicationMsg::Callback(reason) => match reason {
                CallbackReason::ToolChanged(tool) => {
                    self.application_state.tool_active = tool;
                },
            },
            ApplicationMsg::Command(cmd) => {
                match cmd {
                    Command::ExitCurrentTool => {
                        self.application_state.tool_active = None;
                    },
                    _ => {},
                }
            },
        }
        false
    }

    pub fn get_application_state(&self) -> (state: &ApplicationState)
        ensures
            state.tool_active.deep_view() == self.tool(),
    {
        &self.application_state
    }
}

} // verus!
