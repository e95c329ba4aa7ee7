use logic_canvas::application::{Application, ApplicationMsg, CallbackReason, Command};
use logic_canvas::canvas::element::IntoCanvasElement;
use logic_canvas::component_list::{ComponentList, ComponentListItem, ComponentListMsg};
use logic_canvas::components::logic_gate::LogicGateType;
use logic_canvas::components::pin::Pin;
use logic_canvas::keyboard_input_handler::{shortcuts, KeyboardInputHandler, KeyboardShortcut};
use logic_canvas::main_header::{
    HeaderOption, HeaderOptionType, MainHeader, MainHeaderMsg, MenuOptionStyle,
};
use logic_canvas::redstone_component::ComponentType;
use logic_canvas::toolbar::Toolbar;

#[test]
fn an_application_starts_without_a_tool() {
    let application = Application::create();
    assert!(application.get_application_state().tool_active.is_none());
}

#[test]
fn a_tool_change_installs_the_tool() {
    let mut application = Application::create();
    let tool = Pin::new().into_canvas_element((0, 0));
    let redraw = application.update(ApplicationMsg::Callback(CallbackReason::ToolChanged(Some(tool))));
    assert!(!redraw);
    let active = application.get_application_state().tool_active.as_ref();
    assert_eq!(active.map(|t| t.get_height()), Some(5_000));
    let redraw = application.update(ApplicationMsg::Callback(CallbackReason::ToolChanged(None)));
    assert!(!redraw);
    assert!(application.get_application_state().tool_active.is_none());
}

#[test]
fn only_leaving_the_tool_drops_it() {
    let mut application = Application::create();
    let tool = Pin::new().into_canvas_element((0, 0));
    application.update(ApplicationMsg::Callback(CallbackReason::ToolChanged(Some(tool))));
    for cmd in [Command::Save, Command::Undo, Command::Delete, Command::RotateLeft, Command::Exit] {
        assert!(!application.update(ApplicationMsg::Command(cmd)));
        assert!(application.get_application_state().tool_active.is_some());
    }
    assert!(!application.update(ApplicationMsg::Command(Command::ExitCurrentTool)));
    assert!(application.get_application_state().tool_active.is_none());
    assert!(!application.update(ApplicationMsg::Command(Command::ExitCurrentTool)));
    assert!(application.get_application_state().tool_active.is_none());
}

#[test]
fn header_captions() {
    assert_eq!(HeaderOptionType::File.to_string(), "File");
    assert_eq!(HeaderOptionType::Edit.to_string(), "Edit");
    assert_eq!(HeaderOptionType::View.to_string(), "View");
    assert_eq!(HeaderOptionType::Tools.to_string(), "Tools");
    assert_eq!(HeaderOptionType::Options.to_string(), "Options");
    assert_eq!(HeaderOptionType::Help.to_string(), "Help");
}

#[test]
fn a_click_opens_a_menu_and_a_second_click_closes_it() {
    let mut header = MainHeader::create();
    assert_eq!(header.get_header_active(), None);
    assert!(header.update(MainHeaderMsg::Clicked(HeaderOptionType::Edit)));
    assert_eq!(header.get_header_active(), Some(HeaderOptionType::Edit));
    assert!(header.is_header_active(HeaderOptionType::Edit));
    assert!(!header.is_header_active(HeaderOptionType::File));
    assert!(header.update(MainHeaderMsg::Clicked(HeaderOptionType::Edit)));
    assert_eq!(header.get_header_active(), None);
    assert!(!header.is_header_active(HeaderOptionType::Edit));
}

#[test]
fn a_click_on_another_entry_switches_menus() {
    let mut header = MainHeader::create();
    header.update(MainHeaderMsg::Clicked(HeaderOptionType::File));
    assert!(header.update(MainHeaderMsg::Clicked(HeaderOptionType::Tools)));
    assert_eq!(header.get_header_active(), Some(HeaderOptionType::Tools));
}

#[test]
fn hovering_moves_an_open_menu_but_opens_none() {
    let mut header = MainHeader::create();
    assert!(!header.update(MainHeaderMsg::Hovered(HeaderOptionType::View)));
    assert_eq!(header.get_header_active(), None);
    header.update(MainHeaderMsg::Clicked(HeaderOptionType::File));
    assert!(header.update(MainHeaderMsg::Hovered(HeaderOptionType::View)));
    assert_eq!(header.get_header_active(), Some(HeaderOptionType::View));
    assert!(header.update(MainHeaderMsg::Hovered(HeaderOptionType::View)));
    assert_eq!(header.get_header_active(), Some(HeaderOptionType::View));
}

#[test]
fn a_click_outside_closes_the_menu() {
    let mut header = MainHeader::create();
    assert!(header.update(MainHeaderMsg::Closed));
    assert_eq!(header.get_header_active(), None);
    header.update(MainHeaderMsg::Clicked(HeaderOptionType::Help));
    assert!(header.update(MainHeaderMsg::Closed));
    assert_eq!(header.get_header_active(), None);
}

#[test]
fn a_shortcut_keeps_what_it_was_made_of() {
    let s = KeyboardShortcut::new(true, false, true, "F", Command::FitWindow);
    assert!(s.ctrl && !s.alt && s.shift);
    assert_eq!(s.key, "F");
    assert_eq!(s.cmd, Command::FitWindow);
}

#[test]
fn the_shortcut_table() {
    let table = shortcuts();
    assert_eq!(table.len(), 23);
    assert_eq!(table[0], KeyboardShortcut::new(true, false, false, "S", Command::Save));
    assert_eq!(table[5], KeyboardShortcut::new(false, true, false, "F4", Command::Exit));
    assert_eq!(table[11], KeyboardShortcut::new(false, false, false, "DELETE", Command::Delete));
    assert_eq!(table[22], KeyboardShortcut::new(true, false, false, "T", Command::PlaceText));
}

#[test]
fn shortcuts_are_found_by_modifiers_and_key() {
    let find = KeyboardInputHandler::find_shortcut;
    assert_eq!(find(true, false, false, "S"), Some(Command::Save));
    assert_eq!(find(true, false, false, "N"), Some(Command::New));
    assert_eq!(find(true, false, false, "O"), Some(Command::Open));
    assert_eq!(find(true, false, false, "P"), Some(Command::Print));
    assert_eq!(find(true, false, false, "W"), Some(Command::Close));
    assert_eq!(find(false, true, false, "F4"), Some(Command::Exit));
    assert_eq!(find(true, false, false, "Z"), Some(Command::Undo));
    assert_eq!(find(true, false, false, "Y"), Some(Command::Redo));
    assert_eq!(find(true, false, false, "C"), Some(Command::Copy));
    assert_eq!(find(true, false, false, "V"), Some(Command::Paste));
    assert_eq!(find(true, false, false, "X"), Some(Command::Cut));
    assert_eq!(find(false, false, false, "DELETE"), Some(Command::Delete));
    assert_eq!(find(true, false, false, "+"), Some(Command::ZoomIn));
    assert_eq!(find(true, false, false, "-"), Some(Command::ZoomOut));
    assert_eq!(find(true, false, true, "F"), Some(Command::FitWindow));
    assert_eq!(find(true, false, true, "G"), Some(Command::ToggleGrid));
    assert_eq!(find(false, false, false, "ESCAPE"), Some(Command::ExitCurrentTool));
    assert_eq!(find(false, false, false, "R"), Some(Command::RotateLeft));
    assert_eq!(find(false, false, true, "R"), Some(Command::RotateRight));
    assert_eq!(find(true, false, false, "M"), Some(Command::MirrorVertical));
    assert_eq!(find(true, false, true, "M"), Some(Command::MirrorHorizontal));
    assert_eq!(find(false, false, true, "C"), Some(Command::MakeConnections));
    assert_eq!(find(true, false, false, "T"), Some(Command::PlaceText));
}

#[test]
fn other_key_presses_are_no_shortcuts() {
    let find = KeyboardInputHandler::find_shortcut;
    assert_eq!(find(false, false, false, "S"), None);
    assert_eq!(find(true, true, false, "S"), None);
    assert_eq!(find(true, false, true, "S"), None);
    assert_eq!(find(true, false, false, "s"), None);
    assert_eq!(find(true, false, false, ""), None);
    assert_eq!(find(true, false, false, "SS"), None);
    assert_eq!(find(false, false, false, "F4"), None);
    assert_eq!(find(true, false, false, "Q"), None);
}

#[test]
fn a_pressed_key_is_looked_up_in_upper_case() {
    assert_eq!(KeyboardInputHandler::keydown(true, false, false, "s"), Some(Command::Save));
    assert_eq!(KeyboardInputHandler::keydown(true, false, false, "S"), Some(Command::Save));
    assert_eq!(KeyboardInputHandler::keydown(false, false, false, "Escape"), Some(Command::ExitCurrentTool));
    assert_eq!(KeyboardInputHandler::keydown(false, false, false, "Delete"), Some(Command::Delete));
    assert_eq!(KeyboardInputHandler::keydown(false, true, false, "f4"), Some(Command::Exit));
    assert_eq!(KeyboardInputHandler::keydown(false, false, true, "r"), Some(Command::RotateRight));
    assert_eq!(KeyboardInputHandler::keydown(false, false, false, "q"), None);
    assert_eq!(KeyboardInputHandler::keydown(false, false, false, "s"), None);
}

#[test]
fn the_palette_lists_five_gates_and_the_terminal() {
    assert_eq!(
        ComponentList::create().entries(),
        vec![
            ComponentType::LogicGate(LogicGateType::And),
            ComponentType::LogicGate(LogicGateType::Or),
            ComponentType::LogicGate(LogicGateType::Xor),
            ComponentType::LogicGate(LogicGateType::Nand),
            ComponentType::LogicGate(LogicGateType::Nor),
            ComponentType::Pin,
        ]
    );
}

#[test]
fn picking_a_palette_entry_changes_the_tool() {
    let list = ComponentList::create();
    let picked = ComponentType::LogicGate(LogicGateType::Nand);
    match list.update(ComponentListMsg::ComponentClicked(picked)) {
        CallbackReason::ToolChanged(Some(tool)) => {
            assert_eq!(tool.get_position(), (0, 0));
            assert_eq!(tool.get_width(), 12_500);
            assert_eq!(tool.get_height(), 10_000);
            assert_eq!(tool.get_connection_points().len(), 3);
            assert!(tool.fits_grid());
        },
        CallbackReason::ToolChanged(None) => panic!("no tool"),
    }
    match list.update(ComponentListMsg::ComponentClicked(ComponentType::Pin)) {
        CallbackReason::ToolChanged(Some(tool)) => {
            assert_eq!(tool.get_position(), (0, 0));
            assert_eq!(tool.get_width(), 2_500);
            assert_eq!(tool.get_height(), 5_000);
            assert_eq!(tool.get_connection_points().len(), 1);
        },
        CallbackReason::ToolChanged(None) => panic!("no tool"),
    }
}

#[test]
fn palette_captions() {
    let gate = ComponentType::LogicGate(LogicGateType::Or);
    assert_eq!(ComponentListItem::title("", gate), "Or Gate");
    assert_eq!(ComponentListItem::title("", ComponentType::Pin), "Pin");
    assert_eq!(ComponentListItem::title("Input", ComponentType::Pin), "Input");
    assert_eq!(ComponentListItem::title(" ", gate), " ");
}

#[test]
fn the_entry_of_the_open_menu_is_the_active_one() {
    assert!(HeaderOption::is_active(HeaderOptionType::Edit, Some(HeaderOptionType::Edit)));
    assert!(!HeaderOption::is_active(HeaderOptionType::Edit, Some(HeaderOptionType::File)));
    assert!(!HeaderOption::is_active(HeaderOptionType::Edit, None));
}

#[test]
fn the_look_of_a_menu_bar_entry() {
    let look = |disabled: bool, active: bool| {
        let s = HeaderOption::style(disabled, active);
        [s.cursor, s.background, s.color, s.background_hover, s.color_hover]
    };
    assert_eq!(look(false, false), ["pointer", "inherit", "inherit", "#f5f5f5", "#7988ff"]);
    assert_eq!(look(false, true), ["pointer", "#f5f5f5", "#7988ff", "#f5f5f5", "#7988ff"]);
    assert_eq!(look(true, false), ["default", "inherit", "gray", "inherit", "gray"]);
    assert_eq!(look(true, true), ["default", "#f5f5f5", "gray", "inherit", "gray"]);
}

#[test]
fn the_look_of_a_menu_line() {
    let look = |disabled: bool, has_shortcut: bool| {
        let s = MenuOptionStyle::new(disabled, has_shortcut);
        [s.cursor_hover, s.background_hover, s.grid_template, s.txt_color]
    };
    assert_eq!(look(false, false), ["pointer", "dodgerblue", "1fr", "inherit"]);
    assert_eq!(look(false, true), ["pointer", "dodgerblue", "2fr 1fr", "inherit"]);
    assert_eq!(look(true, false), ["default", "inherit", "1fr", "gray"]);
    assert_eq!(look(true, true), ["default", "inherit", "2fr 1fr", "gray"]);
}

#[test]
fn a_tool_is_switched_off_unless_it_is_active_and_does_something() {
    assert!(!Toolbar::is_deactivated(true, true));
    assert!(Toolbar::is_deactivated(true, false));
    assert!(Toolbar::is_deactivated(false, true));
    assert!(Toolbar::is_deactivated(false, false));
}
