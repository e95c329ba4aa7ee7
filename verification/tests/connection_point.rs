use logic_canvas::connection_point::ConnectionPoint;

#[test]
fn a_pin_reports_what_it_was_made_of() {
    let p = ConnectionPoint::new(12_500, 5_000, [true, false, true, false]);
    assert_eq!(p.get_position_x(), 12_500);
    assert_eq!(p.get_position_y(), 5_000);
    assert!(p.get_direction_y_neg());
    assert!(!p.get_direction_x_pos());
    assert!(p.get_direction_y_pos());
    assert!(!p.get_direction_x_neg());
}

#[test]
fn each_direction_has_its_own_flag() {
    let up = ConnectionPoint::new(0, 0, [true, false, false, false]);
    let right = ConnectionPoint::new(0, 0, [false, true, false, false]);
    let down = ConnectionPoint::new(0, 0, [false, false, true, false]);
    let left = ConnectionPoint::new(0, 0, [false, false, false, true]);
    assert!(up.get_direction_y_neg() && !up.get_direction_x_pos());
    assert!(right.get_direction_x_pos() && !right.get_direction_y_pos());
    assert!(down.get_direction_y_pos() && !down.get_direction_x_neg());
    assert!(left.get_direction_x_neg() && !left.get_direction_y_neg());
}

#[test]
fn translation_shifts_the_position_and_keeps_the_directions() {
    let p = ConnectionPoint::new(2_500, -7_500, [false, true, true, false]);
    let q = p.get_absolute_at_position((10_000, 30_000));
    assert_eq!(q.get_position_x(), 12_500);
    assert_eq!(q.get_position_y(), 22_500);
    assert_eq!(q.get_direction_y_neg(), p.get_direction_y_neg());
    assert_eq!(q.get_direction_x_pos(), p.get_direction_x_pos());
    assert_eq!(q.get_direction_y_pos(), p.get_direction_y_pos());
    assert_eq!(q.get_direction_x_neg(), p.get_direction_x_neg());
    // the pin itself is left as it was
    assert_eq!(p.get_position_x(), 2_500);
    assert_eq!(p.get_position_y(), -7_500);
}

#[test]
fn translation_by_nothing_gives_an_equal_pin() {
    let p = ConnectionPoint::new(1, 2, [true, true, false, false]);
    assert!(p.get_absolute_at_position((0, 0)) == p);
}

#[test]
fn translation_reaches_the_ends_of_the_range() {
    let p = ConnectionPoint::new(i64::MAX - 5, i64::MIN + 5, [false; 4]);
    let q = p.get_absolute_at_position((5, -5));
    assert_eq!(q.get_position_x(), i64::MAX);
    assert_eq!(q.get_position_y(), i64::MIN);
}

#[test]
fn pins_are_equal_when_position_and_directions_are() {
    let p = ConnectionPoint::new(100, 200, [true, false, false, true]);
    assert!(p == ConnectionPoint::new(100, 200, [true, false, false, true]));
    assert!(p != ConnectionPoint::new(101, 200, [true, false, false, true]));
    assert!(p != ConnectionPoint::new(100, 201, [true, false, false, true]));
    assert!(p != ConnectionPoint::new(100, 200, [false, false, false, true]));
    assert!(p != ConnectionPoint::new(100, 200, [true, true, false, true]));
    assert!(p != ConnectionPoint::new(100, 200, [true, false, true, true]));
    assert!(p != ConnectionPoint::new(100, 200, [true, false, false, false]));
}
