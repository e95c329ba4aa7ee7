//! Pins: the points of a component where a wire may end.

use vstd::prelude::*;
use vstd::std_specs::cmp::PartialEqSpecImpl;

verus! {

/// What a pin is, mathematically: a position and, for each of the four
/// cardinal directions, whether a wire may leave the pin that way.
///
/// The vertical axis grows downwards, as on a drawing surface: `up` is the
/// direction of decreasing `y`.
pub struct PointModel {
    pub x: int,
    pub y: int,
    pub up: bool,
    pub right: bool,
    pub down: bool,
    pub left: bool,
}

impl PointModel {
    /// The same pin shifted by `(dx, dy)`, its directions unchanged.
    pub open spec fn translate(self, dx: int, dy: int) -> PointModel {
        PointModel { x: self.x + dx, y: self.y + dy, ..self }
    }

    /// Whether both coordinates fit the machine representation.
    pub open spec fn representable(self) -> bool {
        &&& i64::MIN <= self.x <= i64::MAX
        &&& i64::MIN <= self.y <= i64::MAX
    }
}

/// Translation invariance: a pin shifted by `(dx, dy)` stands at its old
/// position plus `(dx, dy)` and keeps its four directions, whatever the pin
/// and the shift; a shift by nothing, or there and back, gives the pin itself.
pub proof fn lemma_translation_invariance(p: PointModel, dx: int, dy: int)
    ensures
        p.translate(dx, dy).x == p.x + dx,
        p.translate(dx, dy).y == p.y + dy,
        p.translate(dx, dy).up == p.up,
        p.translate(dx, dy).right == p.right,
        p.translate(dx, dy).down == p.down,
        p.translate(dx, dy).left == p.left,
        p.translate(0, 0) == p,
        p.translate(dx, dy).translate(-dx, -dy) == p,
{
}

/// One pin of a component.
///
/// The position is relative to the origin of the owning element until the pin
/// is moved into absolute space with [`ConnectionPoint::get_absolute_at_position`].
/// The directions are given in the order up, right, down, left.
#[derive(Debug, Clone, Copy)]
pub struct ConnectionPoint {
    x: i64,
    y: i64,
    directions: [bool; 4],
}

impl View for ConnectionPoint {
    type V = PointModel;

    closed spec fn view(&self) -> PointModel {
        PointModel {
            x: self.x as int,
            y: self.y as int,
            up: self.directions[0],
            right: self.directions[1],
            down: self.directions[2],
            left: self.directions[3],
        }
    }
}

impl DeepView for ConnectionPoint {
    type V = PointModel;

    open spec fn deep_view(&self) -> PointModel {
        self@
    }
}

impl PartialEq for ConnectionPoint {
    fn eq(&self, other: &Self) -> (r: bool) {
        self.x == other.x && self.y == other.y && self.directions[0] == other.directions[0]
            && self.directions[1] == other.directions[1] && self.directions[2]
            == other.directions[2] && self.directions[3] == other.directions[3]
    }
}

impl PartialEqSpecImpl for ConnectionPoint {
    open spec fn obeys_eq_spec() -> bool {
        true
    }

    open spec fn eq_spec(&self, other: &Self) -> bool {
        self@ == other@
    }
}

impl ConnectionPoint {
    /// A pin at `(x, y)` with exits `directions` = `[up, right, down, left]`.
    pub fn new(x: i64, y: i64, directions: [bool; 4]) -> (p: Self)
        ensures
            p@ == (PointModel {
                x: x as int,
                y: y as int,
                up: directions[0],
                right: directions[1],
                down: directions[2],
                left: directions[3],
            }),
    {
        Self { x, y, directions }
    }

    pub fn get_position_x(&self) -> (x: i64)
        ensures
            x == self@.x,
    {
        self.x
    }

    pub fn get_position_y(&self) -> (y: i64)
        ensures
            y == self@.y,
    {
        self.y
    }

    /// Whether a wire may leave towards increasing `x` (rightwards).
    pub fn get_direction_x_pos(&self) -> (b: bool)
        ensures
            b == self@.right,
    {
        self.directions[1]
    }

    /// Whether a wire may leave towards decreasing `x` (leftwards).
    pub fn get_direction_x_neg(&self) -> (b: bool)
        ensures
            b == self@.left,
    {
        self.directions[3]
    }

    /// Whether a wire may leave towards increasing `y` (downwards).
    pub fn get_direction_y_pos(&self) -> (b: bool)
        ensures
            b == self@.down,
    {
        self.directions[2]
    }

    /// Whether a wire may leave towards decreasing `y` (upwards).
    pub fn get_direction_y_neg(&self) -> (b: bool)
        ensures
            b == self@.up,
    {
        self.directions[0]
    }

    /// The pin in absolute space, for an element placed at `position`.
    pub fn get_absolute_at_position(&self, position: (i64, i64)) -> (p: Self)
        requires
            self@.translate(position.0 as int, position.1 as int).representable(),
        ensures
            p@ == self@.translate(position.0 as int, position.1 as int),
    {
        Self { x: self.x + position.0, y: self.y + position.1, directions: self.directions }
    }
}

} // verus!
