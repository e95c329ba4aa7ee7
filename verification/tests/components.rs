use logic_canvas::canvas::element::{CanvasElement, IntoCanvasElement};
use logic_canvas::canvas::renderer::{CanvasAction, CanvasContextRenderer, CanvasMsg, DrawCommand};
use logic_canvas::components::and_gate::AndGate;
use logic_canvas::components::logic_gate::{LogicGate, LogicGateType};
use logic_canvas::components::pin::Pin;
use logic_canvas::connection_point::ConnectionPoint;
use logic_canvas::redstone_component::{Component, ComponentType, RedstoneComponent};
use logic_canvas::text::to_decimal;

#[test]
fn decimal_numerals() {
    assert_eq!(to_decimal(0), "0");
    assert_eq!(to_decimal(7), "7");
    assert_eq!(to_decimal(10), "10");
    assert_eq!(to_decimal(75), "75");
    assert_eq!(to_decimal(1_002_003), "1002003");
    assert_eq!(to_decimal(u32::MAX), "4294967295");
}

#[test]
fn gate_labels() {
    assert_eq!(LogicGateType::And.get_svg_text(), ("&amp;", 75));
    assert_eq!(LogicGateType::Nand.get_svg_text(), ("&amp;", 75));
    assert_eq!(LogicGateType::Or.get_svg_text(), ("&gt;=1", 55));
    assert_eq!(LogicGateType::Nor.get_svg_text(), ("&gt;=1", 55));
    assert_eq!(LogicGateType::Xor.get_svg_text(), ("=1", 65));
}

#[test]
fn gate_input_paths() {
    let plain = ("H25", "H0 H25");
    let bubble = (
        "H15 A5,5,0,0,0,25,25 A5,5,0,0,0,15,25 M25,25",
        "A5,5,0,0,0,15,75 H0 M15,75 A5,5,0,0,0,25,75",
    );
    assert_eq!(LogicGateType::And.get_input_svg_path((false, false)), plain);
    assert_eq!(LogicGateType::Or.get_input_svg_path((true, true)), bubble);
    assert_eq!(LogicGateType::Xor.get_input_svg_path((true, false)), (bubble.0, plain.1));
    assert_eq!(LogicGateType::Nor.get_input_svg_path((false, true)), (plain.0, bubble.1));
}

#[test]
fn gate_output_paths() {
    let bubble = "A5,5,0,0,0,110,50 A5,5,0,0,0,100,50 M110,50 H125 M100,50";
    assert_eq!(LogicGateType::And.get_output_svg_path(), "H125 H100");
    assert_eq!(LogicGateType::Or.get_output_svg_path(), "H125 H100");
    assert_eq!(LogicGateType::Xor.get_output_svg_path(), "H125 H100");
    assert_eq!(LogicGateType::Nand.get_output_svg_path(), bubble);
    assert_eq!(LogicGateType::Nor.get_output_svg_path(), bubble);
}

#[test]
fn plain_and_gate_image() {
    let expected = "\n            <svg width=\"125\" height=\"100\" xmlns=\"http://www.w3.org/2000/svg\">\n                <path style=\"fill: none; stroke: rgb(0, 0, 0); stroke-width: 2px;\" d=\"M0,25 H25 V1 H100 V50 H125 H100 V99 H25 V75 H0 H25 V25\"></path>\n                <text x=\"75\" y=\"25\" style=\"font-family: Arial; font-size: 20px;\">&amp;</text>\n            </svg>";
    assert_eq!(LogicGateType::And.get_svg_string((false, false)), expected);
    assert_eq!(LogicGate::new(LogicGateType::And).get_svg_string(), expected);
}

#[test]
fn nor_gate_image_with_inverted_inputs() {
    let expected = "\n            <svg width=\"125\" height=\"100\" xmlns=\"http://www.w3.org/2000/svg\">\n                <path style=\"fill: none; stroke: rgb(0, 0, 0); stroke-width: 2px;\" d=\"M0,25 H15 A5,5,0,0,0,25,25 A5,5,0,0,0,15,25 M25,25 V1 H100 V50 A5,5,0,0,0,110,50 A5,5,0,0,0,100,50 M110,50 H125 M100,50 V99 H25 V75 A5,5,0,0,0,15,75 H0 M15,75 A5,5,0,0,0,25,75 V25\"></path>\n                <text x=\"55\" y=\"25\" style=\"font-family: Arial; font-size: 20px;\">&gt;=1</text>\n            </svg>";
    assert_eq!(LogicGateType::Nor.get_svg_string((true, true)), expected);
    let gate = LogicGate::new_with_inverted_inputs(LogicGateType::Nor, (true, true));
    assert_eq!(gate.get_svg_string(), expected);
}

#[test]
fn xor_gate_image_with_one_inverted_input() {
    let svg = LogicGateType::Xor.get_svg_string((false, true));
    assert!(svg.contains("d=\"M0,25 H25 V1 H100 V50 H125 H100 V99 H25 V75 A5,5,0,0,0,15,75 H0 M15,75 A5,5,0,0,0,25,75 V25\""));
    assert!(svg.contains("<text x=\"65\" y=\"25\" style=\"font-family: Arial; font-size: 20px;\">=1</text>"));
}

#[test]
fn and_gate_wrapper_image() {
    let expected = "<svg width=\"125\" height=\"100\" xmlns=\"http://www.w3.org/2000/svg\"><path style=\"fill: none; stroke: rgb(0, 0, 0); stroke-width: 2px;\" d=\"M0,25 H25 V1 H100 V50 H125 H100 V99 H25 V75 H0 H25 V25\"></path><text x=\"75\" y=\"25\" style=\"font-family: Arial; font-size: 20px;\">&amp;</text></svg>";
    assert_eq!(AndGate::new().get_svg_string(), expected);
}

#[test]
fn pin_image() {
    let expected = "\n        <svg width=\"25\" height=\"50\" xmlns=\"http://www.w3.org/2000/svg\">\n            <path style=\"fill: black; stroke: rgb(0, 0, 0); stroke-width: 2px;\" d=\"M1,25 A5,5,0,0,0,11,25 A5,5,0,0,0,0,25 H25\"></path>\n        </svg>\n        ";
    assert_eq!(Pin::get_svg_string(), expected);
}

#[test]
fn gate_names() {
    assert_eq!(LogicGateType::And.to_string(), "And Gate");
    assert_eq!(LogicGateType::Or.to_string(), "Or Gate");
    assert_eq!(LogicGateType::Xor.to_string(), "Xor Gate");
    assert_eq!(LogicGateType::Nand.to_string(), "Nand Gate");
    assert_eq!(LogicGateType::Nor.to_string(), "Nor Gate");
}

#[test]
fn a_new_gate_has_plain_inputs() {
    let gate = LogicGate::new(LogicGateType::Nand);
    assert_eq!(gate.gate_type, LogicGateType::Nand);
    assert_eq!(gate.inputs_inverted, (false, false));
    let gate = LogicGate::new_with_inverted_inputs(LogicGateType::Xor, (true, false));
    assert_eq!(gate.gate_type, LogicGateType::Xor);
    assert_eq!(gate.inputs_inverted, (true, false));
}

#[test]
fn gate_pins() {
    let pins = LogicGate::new(LogicGateType::Or).get_connection_points();
    assert_eq!(pins.len(), 3);
    assert!(pins[0] == ConnectionPoint::new(0, 2_500, [true, false, false, true]));
    assert!(pins[1] == ConnectionPoint::new(0, 7_500, [false, false, true, true]));
    assert!(pins[2] == ConnectionPoint::new(12_500, 5_000, [true, true, true, false]));
}

#[test]
fn terminal_pins() {
    let pins = Pin::new().get_connection_points();
    assert_eq!(pins.len(), 1);
    assert!(pins[0] == ConnectionPoint::new(2_500, 0, [false, true, false, false]));
}

#[test]
fn component_titles_and_types() {
    let gate = LogicGate::new(LogicGateType::Xor);
    assert_eq!(gate.get_component_list_item_title(), "Xor Gate");
    assert_eq!(gate.get_component_type(), ComponentType::LogicGate(LogicGateType::Xor));
    assert_eq!(Pin::new().get_component_list_item_title(), "Pin");
    assert_eq!(Pin::new().get_component_type(), ComponentType::Pin);
    let component = Component::LogicGate(gate);
    assert_eq!(component.get_component_list_item_title(), "Xor Gate");
    assert_eq!(component.get_component_type(), ComponentType::LogicGate(LogicGateType::Xor));
    assert_eq!(component.get_connection_points().len(), 3);
    assert_eq!(Component::Pin(Pin::new()).get_connection_points().len(), 1);
}

#[test]
fn palette_entries_become_components() {
    assert_eq!(
        ComponentType::LogicGate(LogicGateType::Nor).try_as_component(),
        Component::LogicGate(LogicGate::new(LogicGateType::Nor))
    );
    assert_eq!(ComponentType::Pin.try_as_component(), Component::Pin(Pin::new()));
}

#[test]
fn a_gate_becomes_an_element_of_its_size() {
    let element = LogicGate::new(LogicGateType::And).into_canvas_element((5_000, 7_500));
    assert_eq!(element.get_position(), (5_000, 7_500));
    assert_eq!(element.get_width(), 12_500);
    assert_eq!(element.get_height(), 10_000);
    assert_eq!(element.get_connection_points().len(), 3);
    assert!(element.get_connection_points()[2] == ConnectionPoint::new(12_500, 5_000, [true, true, true, false]));
}

#[test]
fn a_terminal_becomes_an_element_of_its_size() {
    let element = Pin::new().into_canvas_element((0, 0));
    assert_eq!(element.get_position(), (0, 0));
    assert_eq!(element.get_width(), 2_500);
    assert_eq!(element.get_height(), 5_000);
    assert_eq!(element.get_connection_points().len(), 1);
    let element = Component::Pin(Pin::new()).into_canvas_element((2_500, 5_000));
    assert_eq!(element.get_position(), (2_500, 5_000));
    assert_eq!(element.get_width(), 2_500);
}

#[test]
fn a_gate_is_painted_at_its_position() {
    let gate = LogicGate::new(LogicGateType::And);
    assert_eq!(
        gate.render_at_position((10_000, 20_000)),
        DrawCommand::Image { component: Component::LogicGate(gate), x: 10_000, y: 20_000 }
    );
}

#[test]
fn a_terminal_is_painted_half_its_height_above_its_position() {
    let pin = Pin::new();
    assert_eq!(
        pin.render_at_position((10_000, 20_000)),
        DrawCommand::Image { component: Component::Pin(pin), x: 10_000, y: 17_500 }
    );
    assert_eq!(
        Component::Pin(pin).render_at_position((0, i64::MIN + 2_500)),
        DrawCommand::Image { component: Component::Pin(pin), x: 0, y: i64::MIN }
    );
}

#[test]
fn an_element_keeps_what_it_was_made_of() {
    let pins = vec![
        ConnectionPoint::new(0, 0, [true, false, false, false]),
        ConnectionPoint::new(100, 200, [false, true, false, false]),
    ];
    let component = Component::Pin(Pin::new());
    let element = CanvasElement::new(component, (300, 400), 50, 60, pins);
    assert_eq!(element.get_position(), (300, 400));
    assert_eq!(element.get_height(), 50);
    assert_eq!(element.get_width(), 60);
    assert_eq!(element.get_connection_points().len(), 2);
    assert!(element.get_connection_points()[1] == ConnectionPoint::new(100, 200, [false, true, false, false]));
    assert_eq!(element.render(), DrawCommand::Image { component, x: 300, y: 400 - 2_500 });
    assert_eq!(
        element.render_at_position((0, 0)),
        DrawCommand::Image { component, x: 0, y: -2_500 }
    );
}

#[test]
fn moving_an_element_makes_a_new_one() {
    let element = LogicGate::new(LogicGateType::Nand).into_canvas_element((0, 0));
    let moved = element.at_position((7_500, 2_500));
    assert_eq!(moved.get_position(), (7_500, 2_500));
    assert_eq!(moved.get_width(), element.get_width());
    assert_eq!(moved.get_height(), element.get_height());
    assert_eq!(moved.get_connection_points().len(), 3);
    for i in 0..3 {
        assert!(moved.get_connection_points()[i] == element.get_connection_points()[i]);
    }
    assert_eq!(
        moved.render(),
        DrawCommand::Image {
            component: Component::LogicGate(LogicGate::new(LogicGateType::Nand)),
            x: 7_500,
            y: 2_500
        }
    );
    // the element itself stays where it was
    assert_eq!(element.get_position(), (0, 0));
}

#[test]
fn absolute_pins_are_the_pins_moved_by_the_position() {
    let element = LogicGate::new(LogicGateType::And).into_canvas_element((10_000, 20_000));
    let pins = element.get_absolute_connection_points();
    assert_eq!(pins.len(), 3);
    assert!(pins[0] == ConnectionPoint::new(10_000, 22_500, [true, false, false, true]));
    assert!(pins[1] == ConnectionPoint::new(10_000, 27_500, [false, false, true, true]));
    assert!(pins[2] == ConnectionPoint::new(22_500, 25_000, [true, true, true, false]));
}

#[test]
fn no_two_elements_are_equal() {
    let element = Pin::new().into_canvas_element((0, 0));
    let copy = element.clone();
    assert!(element != copy);
    assert!(!(element == element.at_position((0, 0))));
    assert_eq!(copy.get_position(), element.get_position());
    assert_eq!(copy.get_connection_points().len(), 1);
}

#[test]
fn elements_with_far_away_pins_do_not_fit_the_grid() {
    let component = Component::Pin(Pin::new());
    let near = CanvasElement::new(
        component,
        (0, 0),
        0,
        0,
        vec![ConnectionPoint::new(i64::MAX - 429_496_730_000, i64::MIN + 429_496_730_000, [false; 4])],
    );
    assert!(near.fits_grid());
    let far_right = CanvasElement::new(
        component,
        (0, 0),
        0,
        0,
        vec![
            ConnectionPoint::new(0, 0, [false; 4]),
            ConnectionPoint::new(i64::MAX - 429_496_729_999, 0, [false; 4]),
        ],
    );
    assert!(!far_right.fits_grid());
    let far_up = CanvasElement::new(
        component,
        (0, 0),
        0,
        0,
        vec![ConnectionPoint::new(0, i64::MIN + 429_496_729_999, [false; 4])],
    );
    assert!(!far_up.fits_grid());
    assert!(CanvasElement::new(component, (0, 0), 0, 0, vec![]).fits_grid());
    assert!(LogicGate::new(LogicGateType::And).into_canvas_element((0, 0)).fits_grid());
}

#[test]
fn the_redraw_loop_starts_on_mount_and_keeps_itself_going() {
    assert_eq!(CanvasMsg::Init.action(), CanvasAction::StartLoop);
    assert_eq!(CanvasMsg::Render.action(), CanvasAction::ScheduleAndPaint);
}
