//! The palette: the components on offer, and what picking one does.

use vstd::prelude::*;

use crate::application::CallbackReason;
use crate::canvas::element::IntoCanvasElement;
use crate::components::logic_gate::LogicGateType;
use crate::redstone_component::{ComponentType, RedstoneComponent};

verus! {

pub enum ComponentListMsg {
    ComponentClicked(ComponentType),
}

/// The entries of the palette, in the order in which it shows them.
pub open spec fn palette() -> Seq<ComponentType> {
    seq![
        ComponentType::LogicGate(LogicGateType::And),
        ComponentType::LogicGate(LogicGateType::Or),
        ComponentType::LogicGate(LogicGateType::Xor),
        ComponentType::LogicGate(LogicGateType::Nand),
        ComponentType::LogicGate(LogicGateType::Nor),
        ComponentType::Pin,
    ]
}

pub struct ComponentList {}

impl ComponentList {
    pub fn create() -> (list: Self)
        ensures
            list == (ComponentList {  }),
    {
        Self {  }
    }

    /// The entries of the palette.
    pub fn entries(&self) -> (entries: Vec<ComponentType>)
        ensures
            entries@ == palette(),
    {
        let mut entries: Vec<ComponentType> = Vec::new();
        entries.push(ComponentType::LogicGate(LogicGateType::And));
        entries.push(ComponentType::LogicGate(LogicGateType::Or));
        entries.push(ComponentType::LogicGate(LogicGateType::Xor));
        entries.push(ComponentType::LogicGate(LogicGateType::Nand));
        entries.push(ComponentType::LogicGate(LogicGateType::Nor));
        entries.push(ComponentType::Pin);
        entries
    }

    /// What the palette reports when an entry is picked: the tool changes to
    /// a prototype of the picked component, standing at the origin. Such a
    /// prototype fits the grid, so it can be placed anywhere.
    pub fn update(&self, msg: ComponentListMsg) -> (reason: CallbackReason)
        ensures
            reason matches CallbackReason::ToolChanged(Some(tool)) && msg
                matches ComponentListMsg::ComponentClicked(component_type) && tool@
                == component_type.component().canvas_element(0, 0) && tool@.fits_grid(),
    {
        match msg {
            ComponentListMsg::ComponentClicked(component_type) => {
                let tool = component_type.try_as_component().into_canvas_element((0, 0));
                CallbackReason::ToolChanged(Some(tool))
            },
        }
    }
}

pub struct ComponentListItem;

impl ComponentListItem {
    /// The caption of a palette entry: the title given to it, or, where that
    /// is empty, the title of its component.
    pub fn title(title: &str, component_type: ComponentType) -> (caption: String)
        ensures
            caption@ == if title@.len() == 0 {
                component_type.component().title()
            } else {
                title@
            },
    {
        if title.unicode_len() == 0 {
            component_type.try_as_component().get_component_list_item_title()
        } else {
            String::from_str(title)
        }
    }
}

} // verus!
