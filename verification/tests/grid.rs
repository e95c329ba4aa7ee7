use logic_canvas::grid::{round_to_unit, snap_to_grid, GRID_STEP, ORIGIN_X, ORIGIN_Y, UNIT};

#[test]
fn pointer_pixel_snaps_to_nearest_grid_line() {
    assert_eq!(snap_to_grid(262, ORIGIN_X), 25 * UNIT);
    assert_eq!(snap_to_grid(122, ORIGIN_Y), 25 * UNIT);
}

#[test]
fn snapping_rounds_half_cells_to_the_nearer_line() {
    assert_eq!(snap_to_grid(12, 0), 0);
    assert_eq!(snap_to_grid(13, 0), GRID_STEP);
    assert_eq!(snap_to_grid(-12, 0), 0);
    assert_eq!(snap_to_grid(-13, 0), -GRID_STEP);
    assert_eq!(snap_to_grid(37, 0), GRID_STEP);
    assert_eq!(snap_to_grid(38, 0), 2 * GRID_STEP);
}

#[test]
fn snapping_survives_the_extremes_of_pointer_input() {
    assert_eq!(snap_to_grid(i32::MAX, i32::MIN), 429_496_730_000);
    assert_eq!(snap_to_grid(i32::MIN, i32::MAX), -429_496_730_000);
}

#[test]
fn rounding_to_units_sends_ties_away_from_zero() {
    assert_eq!(round_to_unit(0), 0);
    assert_eq!(round_to_unit(49), 0);
    assert_eq!(round_to_unit(50), 1);
    assert_eq!(round_to_unit(149), 1);
    assert_eq!(round_to_unit(150), 2);
    assert_eq!(round_to_unit(-49), 0);
    assert_eq!(round_to_unit(-50), -1);
    assert_eq!(round_to_unit(-150), -2);
    assert_eq!(round_to_unit(i64::MAX), 92_233_720_368_547_758);
    assert_eq!(round_to_unit(i64::MIN), -92_233_720_368_547_758);
}
