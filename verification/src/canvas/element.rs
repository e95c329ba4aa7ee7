//! Components placed on the canvas.

use vstd::prelude::*;
use vstd::std_specs::cmp::PartialEqSpecImpl;

use crate::canvas::renderer::{CanvasContextRenderer, DrawCommand};
use crate::connection_point::{ConnectionPoint, PointModel};
use crate::grid::GRID_REACH;
use crate::redstone_component::Component;

verus! {

/// What a placed element is, mathematically: a component, the top-left corner
/// and size of its bounding box, and its pins relative to that corner.
pub struct ElementModel {
    pub component: Component,
    pub x: int,
    pub y: int,
    pub width: int,
    pub height: int,
    pub connection_points: Seq<PointModel>,
}

/// Whether a pin stays representable wherever on the grid its element goes.
pub open spec fn point_fits_grid(p: PointModel) -> bool {
    &&& i64::MIN + GRID_REACH <= p.x <= i64::MAX - GRID_REACH
    &&& i64::MIN + GRID_REACH <= p.y <= i64::MAX - GRID_REACH
}

impl ElementModel {
    /// The same element moved to `(x, y)`.
    pub open spec fn at(self, x: int, y: int) -> ElementModel {
        ElementModel { x, y, ..self }
    }

    /// The element's pins in absolute space.
    pub open spec fn absolute_points(self) -> Seq<PointModel> {
        self.connection_points.map_values(|p: PointModel| p.translate(self.x, self.y))
    }

    /// Whether every pin is representable in absolute space.
    pub open spec fn representable(self) -> bool {
        forall|i: int|
            0 <= i < self.connection_points.len() ==> (#[trigger] self.connection_points[i]).translate(
                self.x,
                self.y,
            ).representable()
    }

    /// Whether the element can be placed on any grid position that pointer
    /// input reaches.
    pub open spec fn fits_grid(self) -> bool {
        forall|i: int| 0 <= i < self.connection_points.len() ==> point_fits_grid(#[trigger] self.connection_points[i])
    }
}

/// An instance of a component on the canvas.
///
/// An element is never changed after it was made; moving it means making
/// another one with [`CanvasElement::at_position`].
#[derive(Debug)]
pub struct CanvasElement {
    element: Component,
    position: (i64, i64),
    height: i64,
    width: i64,
    connection_points: Vec<ConnectionPoint>,
}

impl View for CanvasElement {
    type V = ElementModel;

    closed spec fn view(&self) -> ElementModel {
        ElementModel {
            component: self.element,
            x: self.position.0 as int,
            y: self.position.1 as int,
            width: self.width as int,
            height: self.height as int,
            connection_points: self.connection_points.deep_view(),
        }
    }
}

impl DeepView for CanvasElement {
    type V = ElementModel;

    open spec fn deep_view(&self) -> ElementModel {
        self@
    }
}

/// What turns itself into an element at a given position.
pub trait IntoCanvasElement: Sized {
    /// The element that the value becomes at `(x, y)`.
    spec fn canvas_element(self, x: int, y: int) -> ElementModel;

    fn into_canvas_element(self, position: (i64, i64)) -> (element: CanvasElement)
        ensures
            element@ == self.canvas_element(position.0 as int, position.1 as int),
    ;
}

impl Clone for CanvasElement {
    fn clone(&self) -> (e: Self)
        ensures
            e@ == self@,
    {
        self.at_position(self.position)
    }
}

/// No two elements are equal: what an element shows is opaque, so each
/// placement is an individual.
impl PartialEq for CanvasElement {
    fn eq(&self, _other: &Self) -> (r: bool) {
        false
    }
}

impl PartialEqSpecImpl for CanvasElement {
    open spec fn obeys_eq_spec() -> bool {
        true
    }

    open spec fn eq_spec(&self, _other: &Self) -> bool {
        false
    }
}

impl CanvasElement {
    pub fn new(
        element: Component,
        position: (i64, i64),
        height: i64,
        width: i64,
        connection_points: Vec<ConnectionPoint>,
    ) -> (e: Self)
        ensures
            e@ == (ElementModel {
                component: element,
                x: position.0 as int,
                y: position.1 as int,
                width: width as int,
                height: height as int,
                connection_points: connection_points.deep_view(),
            }),
    {
        Self { element, position, height, width, connection_points }
    }

    /// The instruction that paints the element where it stands.
    pub fn render(&self) -> (command: DrawCommand)
        requires
            self@.component.paintable_at(self@.x, self@.y),
        ensures
            command@ == self@.component.painted_at(self@.x, self@.y),
    {
        self.render_at_position(self.position)
    }

    /// The instruction that paints the element's component at `position`.
    pub fn render_at_position(&self, position: (i64, i64)) -> (command: DrawCommand)
        requires
            self@.component.paintable_at(position.0 as int, position.1 as int),
        ensures
            command@ == self@.component.painted_at(position.0 as int, position.1 as int),
    {
        self.element.render_at_position(position)
    }

    pub fn get_position(&self) -> (position: (i64, i64))
        ensures
            position.0 == self@.x,
            position.1 == self@.y,
    {
        self.position
    }

    pub fn get_height(&self) -> (height: i64)
        ensures
            height == self@.height,
    {
        self.height
    }

    pub fn get_width(&self) -> (width: i64)
        ensures
            width == self@.width,
    {
        self.width
    }

    /// A new element with the same component, size and pins at `position`.
    pub fn at_position(&self, position: (i64, i64)) -> (e: Self)
        ensures
            e@ == self@.at(position.0 as int, position.1 as int),
    {
        let mut connection_points: Vec<ConnectionPoint> = Vec::new();
        let mut i: usize = 0;
        while i < self.connection_points.len()
            invariant
                i <= self.connection_points.len(),
                connection_points@ == self.connection_points@.take(i as int),
            decreases self.connection_points.len() - i,
        {
            connection_points.push(self.connection_points[i]);
            i += 1;
        }
        assert(connection_points.deep_view() =~= self.connection_points.deep_view());
        Self {
            element: self.element,
            position,
            width: self.width,
            height: self.height,
            connection_points,
        }
    }

    /// The pins, relative to the element's position.
    pub fn get_connection_points(&self) -> (points: &Vec<ConnectionPoint>)
        ensures
            points.deep_view() == self@.connection_points,
    {
        &self.connection_points
    }

    /// The pins in absolute space: each one moved by the element's position.
    pub fn get_absolute_connection_points(&self) -> (points: Vec<ConnectionPoint>)
        requires
            self@.representable(),
        ensures
            points.deep_view() == self@.absolute_points(),
    {
        let mut points: Vec<ConnectionPoint> = Vec::new();
        let mut i: usize = 0;
        while i < self.connection_points.len()
            invariant
                i <= self.connection_points.len(),
                self@.representable(),
                points.deep_view() == self@.absolute_points().take(i as int),
            decreases self.connection_points.len() - i,
        {
            assert(self@.connection_points[i as int] == self.connection_points[i as int]@);
            let point = self.connection_points[i].get_absolute_at_position(self.position);
            points.push(point);
            i += 1;
            assert(self@.absolute_points().take(i as int) =~= self@.absolute_points().take(i - 1).push(
                self@.absolute_points()[i - 1],
            ));
        }
        points
    }

    /// Whether the element can be placed on any grid position that pointer
    /// input reaches, without a pin leaving the representable range.
    pub fn fits_grid(&self) -> (fits: bool)
        ensures
            fits == self@.fits_grid(),
    {
        let mut i: usize = 0;
        while i < self.connection_points.len()
            invariant
                i <= self.connection_points.len(),
                forall|j: int| 0 <= j < i ==> point_fits_grid(#[trigger] self@.connection_points[j]),
            decreases self.connection_points.len() - i,
        {
            let x = self.connection_points[i].get_position_x();
            let y = self.connection_points[i].get_position_y();
            if x < i64::MIN + GRID_REACH || x > i64::MAX - GRID_REACH || y < i64::MIN + GRID_REACH
                || y > i64::MAX - GRID_REACH {
                assert(!point_fits_grid(self@.connection_points[i as int]));
                return false;
            }
            i += 1;
        }
        true
    }
}

} // verus!
