//! The canvas engine: it owns the placed elements, follows the pointer on the
//! grid, stamps the active tool on a click, decides which pins are wired
//! together, and lays out every frame as a list of drawing instructions.

use vstd::prelude::*;

use crate::application::ApplicationState;
use crate::canvas::element::{CanvasElement, ElementModel};
use crate::canvas::renderer::{CanvasContextRenderer, DrawCommand, DrawModel};
use crate::connection_point::{ConnectionPoint, PointModel};
use crate::grid::{grid_line, on_grid, round_to_unit, snap_to_grid, whole_units, ORIGIN_X, ORIGIN_Y};

verus! {

/// Tolerance of the obstruction test, in fixed-point steps: a wire that runs
/// no farther than this outside a box still counts as running through it.
pub const ERROR_ROOM: i64 = 1;

/// Whether two coordinates fall on the same whole logical unit.
pub open spec fn aligned(a: int, b: int) -> bool {
    whole_units(a) == whole_units(b)
}

/// Whether two pins share a column and face each other along it: the lower one
/// lets a wire leave upwards and the upper one downwards.
pub open spec fn faces_vertically(a: PointModel, b: PointModel) -> bool {
    &&& aligned(a.x, b.x)
    &&& (a.y > b.y && a.up && b.down) || (a.y < b.y && a.down && b.up)
}

/// Whether two pins share a row and face each other along it: the right one
/// lets a wire leave leftwards and the left one rightwards.
pub open spec fn faces_horizontally(a: PointModel, b: PointModel) -> bool {
    &&& aligned(a.y, b.y)
    &&& (a.x > b.x && a.left && b.right) || (a.x < b.x && a.right && b.left)
}

/// Whether a coordinate lies within a side of a box that starts at `start` and
/// is `length` long, widened by the tolerance at both ends.
pub open spec fn within(v: int, start: int, length: int) -> bool {
    start - ERROR_ROOM <= v <= start + length + ERROR_ROOM
}

/// Whether the straight wire between two pins crosses an element's bounding
/// box.
///
/// The wire crosses sideways if one end lies left of the box and the other
/// right of it while the row of its left end runs through the box's height;
/// and it crosses lengthways if one end lies above the box and the other
/// below it while the column of its upper end runs through the box's width.
/// A wire that ends inside the box, or on one of its edges, does not cross it.
pub open spec fn crosses(a: PointModel, b: PointModel, e: ElementModel) -> bool {
    ||| a.x < e.x && b.x > e.x + e.width && within(a.y, e.y, e.height)
    ||| b.x < e.x && a.x > e.x + e.width && within(b.y, e.y, e.height)
    ||| a.y < e.y && b.y > e.y + e.height && within(a.x, e.x, e.width)
    ||| b.y < e.y && a.y > e.y + e.height && within(b.x, e.x, e.width)
}

/// Whether some element of the diagram is in the way of the wire between two
/// pins.
pub open spec fn obstructed(a: PointModel, b: PointModel, elements: Seq<ElementModel>) -> bool {
    exists|i: int| 0 <= i < elements.len() && crosses(a, b, #[trigger] elements[i])
}

/// Whether two pins, both in absolute space, are wired together: they are not
/// one and the same pin, they face each other along a shared row or column,
/// and no element of the diagram is in the way.
pub open spec fn connects(a: PointModel, b: PointModel, elements: Seq<ElementModel>) -> bool {
    &&& a != b
    &&& faces_vertically(a, b) || faces_horizontally(a, b)
    &&& !obstructed(a, b, elements)
}

/// The pins of all elements in absolute space, element by element.
pub open spec fn placed_points(elements: Seq<ElementModel>) -> Seq<PointModel> {
    elements.map_values(|e: ElementModel| e.absolute_points()).flatten()
}

/// The instruction that strokes the wire from `a` to `b`.
pub open spec fn wire(a: PointModel, b: PointModel) -> DrawModel {
    DrawModel::Line { x1: a.x, y1: a.y, x2: b.x, y2: b.y }
}

/// The wires from one pin to each of the targets that it connects to, in the
/// order of the targets.
pub open spec fn wires_from(a: PointModel, targets: Seq<PointModel>, elements: Seq<ElementModel>) -> Seq<
    DrawModel,
> {
    targets.filter(|b: PointModel| connects(a, b, elements)).map_values(|b: PointModel| wire(a, b))
}

/// The wires from each source to the targets, source by source.
pub open spec fn wires_between(
    sources: Seq<PointModel>,
    targets: Seq<PointModel>,
    elements: Seq<ElementModel>,
) -> Seq<DrawModel> {
    sources.map_values(|a: PointModel| wires_from(a, targets, elements)).flatten()
}

/// One wire for every unordered pair of pins that connect: each pin in turn is
/// wired to the pins that come after it.
pub open spec fn wires_among(points: Seq<PointModel>, elements: Seq<ElementModel>) -> Seq<DrawModel> {
    Seq::new(points.len(), |i: int| wires_from(points[i], points.skip(i + 1), elements)).flatten()
}

/// The instructions that paint each element where it stands.
pub open spec fn images(elements: Seq<ElementModel>) -> Seq<DrawModel> {
    elements.map_values(|e: ElementModel| e.component.painted_at(e.x, e.y))
}

/// What the engine is, mathematically.
pub struct WorkareaModel {
    /// The diagram: the placed elements in the order of their placement.
    pub elements: Seq<ElementModel>,
    /// The prototype that a click stamps down, if a tool is active.
    pub tool: Option<ElementModel>,
    /// The pointer's position, snapped to the grid.
    pub grid_position: (int, int),
    /// Size of the canvas in pixels.
    pub width: int,
    pub height: int,
    /// Whether the pointer listeners have been attached.
    pub initialized: bool,
}

impl WorkareaModel {
    /// The invariant of the engine: the pointer and every placed element sit
    /// on the grid, and neither a placed element nor the tool has a pin that
    /// could leave the representable range.
    pub open spec fn wf(self) -> bool {
        &&& on_grid(self.grid_position.0)
        &&& on_grid(self.grid_position.1)
        &&& self.tool matches Some(tool) ==> tool.fits_grid()
        &&& forall|i: int|
            0 <= i < self.elements.len() ==> {
                &&& (#[trigger] self.elements[i]).fits_grid()
                &&& on_grid(self.elements[i].x)
                &&& on_grid(self.elements[i].y)
            }
    }

    /// The active tool at the pointer's grid position.
    pub open spec fn preview(self) -> Option<ElementModel> {
        match self.tool {
            Some(tool) => Some(tool.at(self.grid_position.0, self.grid_position.1)),
            None => None,
        }
    }

    /// The state after the pointer moved to the pixel `(client_x, client_y)`
    /// of the viewport.
    pub open spec fn pointed_at(self, client_x: int, client_y: int) -> WorkareaModel {
        WorkareaModel {
            grid_position: (
                grid_line(client_x - ORIGIN_X),
                grid_line(client_y - ORIGIN_Y),
            ),
            ..self
        }
    }

    /// The state after a click: with a tool active, the preview joins the
    /// diagram as its last element; without one nothing changes.
    pub open spec fn clicked(self) -> WorkareaModel {
        match self.preview() {
            Some(element) => WorkareaModel { elements: self.elements.push(element), ..self },
            None => self,
        }
    }

    /// The state after a frame was painted: the listeners are attached, and
    /// nothing else has changed.
    pub open spec fn rendered(self) -> WorkareaModel {
        WorkareaModel { initialized: true, ..self }
    }

    /// The state after `frames` frames were painted in a row.
    pub open spec fn rendered_times(self, frames: nat) -> WorkareaModel
        decreases frames,
    {
        if frames == 0 {
            self
        } else {
            self.rendered().rendered_times((frames - 1) as nat)
        }
    }

    /// The preview of the active tool and the wires that it would form with
    /// the pins of the diagram; nothing without a tool.
    pub open spec fn tool_frame(self) -> Seq<DrawModel> {
        match self.preview() {
            Some(element) => seq![element.component.painted_at(element.x, element.y)]
                + wires_between(
                element.absolute_points(),
                placed_points(self.elements),
                self.elements,
            ),
            None => Seq::empty(),
        }
    }

    /// The wires between the pins of the diagram.
    pub open spec fn connection_frame(self) -> Seq<DrawModel> {
        wires_among(placed_points(self.elements), self.elements)
    }

    /// One whole frame: the surface is wiped, then come the tool's preview
    /// with its wires, the placed elements, and the wires between them.
    pub open spec fn frame(self) -> Seq<DrawModel> {
        seq![DrawModel::Clear] + self.tool_frame() + images(self.elements)
            + self.connection_frame()
    }
}

/// Validity does not depend on the order in which the two pins are given.
pub proof fn lemma_connects_symmetric(a: PointModel, b: PointModel, elements: Seq<ElementModel>)
    ensures
        connects(a, b, elements) == connects(b, a, elements),
{
    assert forall|i: int| 0 <= i < elements.len() implies crosses(a, b, #[trigger] elements[i])
        == crosses(b, a, elements[i]) by {}
    if obstructed(a, b, elements) {
        let i = choose|i: int| 0 <= i < elements.len() && crosses(a, b, #[trigger] elements[i]);
    }
    if obstructed(b, a, elements) {
        let i = choose|i: int| 0 <= i < elements.len() && crosses(b, a, #[trigger] elements[i]);
    }
}

/// A pin never connects to a pin with the same position and directions.
pub proof fn lemma_connects_irreflexive(a: PointModel, elements: Seq<ElementModel>)
    ensures
        !connects(a, a, elements),
{
}

/// Two pins at one and the same place never connect, whatever their
/// directions: a wire has a length.
pub proof fn lemma_coincident_points_apart(a: PointModel, b: PointModel, elements: Seq<ElementModel>)
    requires
        a.x == b.x,
        a.y == b.y,
    ensures
        !connects(a, b, elements),
{
}

/// Painting frames changes nothing but the one-way initialization flag: after
/// any number of frames the diagram, the tool, the pointer's grid position
/// and the canvas size are what they were.
pub proof fn lemma_rendering_keeps_state(w: WorkareaModel, frames: nat)
    ensures
        w.rendered_times(frames).elements == w.elements,
        w.rendered_times(frames).tool == w.tool,
        w.rendered_times(frames).grid_position == w.grid_position,
        w.rendered_times(frames).width == w.width,
        w.rendered_times(frames).height == w.height,
        frames > 0 ==> w.rendered_times(frames).initialized,
        w.wf() ==> w.rendered_times(frames).wf(),
        w.rendered_times(frames).frame() == w.frame(),
    decreases frames,
{
    if frames > 0 {
        lemma_rendering_keeps_state(w.rendered(), (frames - 1) as nat);
    }
}

/// Every click with a tool active appends exactly one element, a copy of the
/// tool at the pointer's grid position, whatever the diagram already holds
/// there: two clicks at one place give two elements. A click without a tool
/// changes nothing.
pub proof fn lemma_clicks_append(w: WorkareaModel)
    requires
        w.wf(),
    ensures
        w.clicked().wf(),
        w.tool is None ==> w.clicked() == w,
        w.tool is Some ==> w.clicked().elements.len() == w.elements.len() + 1,
        w.tool is Some ==> w.clicked().elements.last() == w.preview().unwrap(),
        w.tool is Some ==> w.clicked().clicked().elements == w.elements.push(
            w.preview().unwrap(),
        ).push(w.preview().unwrap()),
        w.clicked().tool == w.tool,
        w.clicked().grid_position == w.grid_position,
{
}

/// The pins of a diagram with one more element are the pins of the diagram
/// followed by the pins of that element.
pub proof fn lemma_placed_points_push(elements: Seq<ElementModel>, element: ElementModel)
    ensures
        placed_points(elements.push(element)) == placed_points(elements) + element.absolute_points(),
{
    let pins_of = |e: ElementModel| e.absolute_points();
    assert(elements.push(element).map_values(pins_of) =~= elements.map_values(pins_of).push(
        element.absolute_points(),
    ));
    elements.map_values(pins_of).lemma_flatten_push(element.absolute_points());
}

/// With one more target, a pin's wires are its wires so far, followed by the
/// wire to the new target if the two connect.
proof fn lemma_wires_from_push(
    a: PointModel,
    targets: Seq<PointModel>,
    b: PointModel,
    elements: Seq<ElementModel>,
)
    ensures
        wires_from(a, targets.push(b), elements) == if connects(a, b, elements) {
            wires_from(a, targets, elements).push(wire(a, b))
        } else {
            wires_from(a, targets, elements)
        },
{
    let connecting = |b: PointModel| connects(a, b, elements);
    targets.lemma_filter_push(b, connecting);
}

/// With one more source, the wires to the targets are the wires so far,
/// followed by those of the new source.
proof fn lemma_wires_between_push(
    sources: Seq<PointModel>,
    a: PointModel,
    targets: Seq<PointModel>,
    elements: Seq<ElementModel>,
)
    ensures
        wires_between(sources.push(a), targets, elements) == wires_between(
            sources,
            targets,
            elements,
        ) + wires_from(a, targets, elements),
{
    let wires_of = |a: PointModel| wires_from(a, targets, elements);
    assert(sources.push(a).map_values(wires_of) =~= sources.map_values(wires_of).push(
        wires_from(a, targets, elements),
    ));
    sources.map_values(wires_of).lemma_flatten_push(wires_from(a, targets, elements));
}

/// The wires of each pin to the pins after it, for the first `n` pins.
spec fn wires_among_first(points: Seq<PointModel>, elements: Seq<ElementModel>, n: int) -> Seq<
    DrawModel,
> {
    Seq::new(points.len(), |i: int| wires_from(points[i], points.skip(i + 1), elements)).take(
        n,
    ).flatten()
}

proof fn lemma_wires_among_step(points: Seq<PointModel>, elements: Seq<ElementModel>, n: int)
    requires
        0 <= n < points.len(),
    ensures
        wires_among_first(points, elements, n + 1) == wires_among_first(points, elements, n)
            + wires_from(points[n], points.skip(n + 1), elements),
{
    let all = Seq::new(points.len(), |i: int| wires_from(points[i], points.skip(i + 1), elements));
    assert(all.take(n + 1) =~= all.take(n).push(all[n]));
    all.take(n).lemma_flatten_push(all[n]);
}

proof fn lemma_wires_among_ends(points: Seq<PointModel>, elements: Seq<ElementModel>)
    ensures
        wires_among_first(points, elements, 0) == Seq::<DrawModel>::empty(),
        wires_among_first(points, elements, points.len() as int) == wires_among(points, elements),
{
    let all = Seq::new(points.len(), |i: int| wires_from(points[i], points.skip(i + 1), elements));
    assert(all.take(points.len() as int) =~= all);
}

/// An element that fits the grid and stands on it has representable pins, and
/// its component can be painted where it stands.
pub proof fn lemma_on_grid_representable(e: ElementModel)
    requires
        e.fits_grid(),
        on_grid(e.x),
        on_grid(e.y),
    ensures
        e.representable(),
        e.component.paintable_at(e.x, e.y),
{
}

/// Appends a copy of `tail` to `out`.
fn append<T: Copy>(out: &mut Vec<T>, tail: &Vec<T>)
    ensures
        final(out)@ == old(out)@ + tail@,
{
    let ghost base = out@;
    let mut i: usize = 0;
    while i < tail.len()
        invariant
            i <= tail.len(),
            out@ == base + tail@.take(i as int),
        decreases tail.len() - i,
    {
        out.push(tail[i]);
        i += 1;
    }
}

/// The engine.
pub struct Workarea {
    grid_position: (i64, i64),
    width: i32,
    height: i32,
    initialized: bool,
    canvas_elements: Vec<CanvasElement>,
    connection_points: Vec<ConnectionPoint>,
    application_state: ApplicationState,
}

/// One frame, as the host has to carry it out.
pub struct Frame {
    /// Whether the host must attach the pointer listeners first: true for the
    /// first frame only.
    pub attach_listeners: bool,
    /// The drawing instructions, in order.
    pub commands: Vec<DrawCommand>,
}

impl View for Workarea {
    type V = WorkareaModel;

    closed spec fn view(&self) -> WorkareaModel {
        WorkareaModel {
            elements: self.canvas_elements.deep_view(),
            tool: self.application_state.tool_active.deep_view(),
            grid_position: (self.grid_position.0 as int, self.grid_position.1 as int),
            width: self.width as int,
            height: self.height as int,
            initialized: self.initialized,
        }
    }
}

impl Workarea {
    /// Whether the stored absolute pins are those of the placed elements.
    pub closed spec fn points_in_step(&self) -> bool {
        self.connection_points.deep_view() == placed_points(self.canvas_elements.deep_view())
    }

    /// Whether the engine is in a valid state.
    pub open spec fn wf(&self) -> bool {
        &&& self@.wf()
        &&& self.points_in_step()
    }

    /// An engine with an empty diagram, the pointer at the canvas origin, and
    /// the tool of `application_state`.
    pub fn new(application_state: ApplicationState, width: i32, height: i32) -> (workarea: Self)
        requires
            application_state.tool_active matches Some(tool) ==> tool@.fits_grid(),
        ensures
            workarea.wf(),
            workarea@ == (WorkareaModel {
                elements: Seq::empty(),
                tool: application_state.tool_active.deep_view(),
                grid_position: (0, 0),
                width: width as int,
                height: height as int,
                initialized: false,
            }),
    {
        let workarea = Self {
            grid_position: (0, 0),
            width,
            height,
            initialized: false,
            canvas_elements: Vec::new(),
            connection_points: Vec::new(),
            application_state,
        };
        assert(workarea.canvas_elements.deep_view() =~= Seq::empty());
        assert(workarea.connection_points.deep_view() =~= Seq::empty());
        workarea
    }

    /// Width of the canvas for a viewport `inner_width` pixels wide: what is
    /// left beside the palette.
    pub fn get_width(inner_width: i32) -> (width: i32)
        requires
            inner_width - ORIGIN_X >= i32::MIN,
        ensures
            width == inner_width - ORIGIN_X,
    {
        inner_width - ORIGIN_X
    }

    /// Height of the canvas for a viewport `inner_height` pixels high: what
    /// is left below the header.
    pub fn get_height(inner_height: i32) -> (height: i32)
        requires
            inner_height - ORIGIN_Y >= i32::MIN,
        ensures
            height == inner_height - ORIGIN_Y,
    {
        inner_height - ORIGIN_Y
    }

    /// Marks the pointer listeners as attached.
    pub fn init(&mut self)
        requires
            old(self).wf(),
        ensures
            final(self).wf(),
            final(self)@ == old(self)@.rendered(),
    {
        self.initialized = true;
    }

    pub fn is_initialized(&self) -> (initialized: bool)
        ensures
            initialized == self@.initialized,
    {
        self.initialized
    }

    /// The pointer's position, snapped to the grid.
    pub fn get_grid_position(&self) -> (position: (i64, i64))
        ensures
            position.0 == self@.grid_position.0,
            position.1 == self@.grid_position.1,
    {
        self.grid_position
    }

    /// Size of the canvas in pixels, width first.
    pub fn get_size(&self) -> (size: (i32, i32))
        ensures
            size.0 == self@.width,
            size.1 == self@.height,
    {
        (self.width, self.height)
    }

    /// The diagram.
    pub fn get_canvas_elements(&self) -> (elements: &Vec<CanvasElement>)
        ensures
            elements.deep_view() == self@.elements,
    {
        &self.canvas_elements
    }

    /// The pins of the diagram in absolute space.
    pub fn get_connection_points(&self) -> (points: &Vec<ConnectionPoint>)
        requires
            self.wf(),
        ensures
            points.deep_view() == placed_points(self@.elements),
    {
        &self.connection_points
    }

    /// The active tool.
    pub fn get_active_tool(&self) -> (tool: &Option<CanvasElement>)
        ensures
            tool.deep_view() == self@.tool,
    {
        &self.application_state.tool_active
    }

    /// Replaces the active tool; `None` leaves nothing to place.
    pub fn set_active_tool(&mut self, tool: Option<CanvasElement>)
        requires
            old(self).wf(),
            tool matches Some(t) ==> t@.fits_grid(),
        ensures
            final(self).wf(),
            final(self)@ == (WorkareaModel { tool: tool.deep_view(), ..old(self)@ }),
    {
        self.application_state.tool_active = tool;
    }

    /// Follows the pointer: the pixel `(client_x, client_y)` of the viewport
    /// is taken relative to the canvas origin and snapped to the grid. The
    /// diagram is left alone, and no frame is painted.
    pub fn pointer_move(&mut self, client_x: i32, client_y: i32)
        requires
            old(self).wf(),
        ensures
            final(self).wf(),
            final(self)@ == old(self)@.pointed_at(client_x as int, client_y as int),
    {
        let x = snap_to_grid(client_x, ORIGIN_X);
        let y = snap_to_grid(client_y, ORIGIN_Y);
        self.grid_position = (x, y);
    }

    /// Commits the active tool: a copy of it at the pointer's grid position
    /// becomes the last element of the diagram. Without a tool a click does
    /// nothing.
    pub fn click(&mut self)
        requires
            old(self).wf(),
        ensures
            final(self).wf(),
            final(self)@ == old(self)@.clicked(),
            final(self)@.elements.len() == old(self)@.elements.len() + (if old(self)@.tool
                is Some {
                1int
            } else {
                0int
            }),
    {
        let position = self.grid_position;
        let placed = match &self.application_state.tool_active {
            Some(tool) => Some(tool.at_position(position)),
            None => None,
        };
        if let Some(element) = placed {
            proof {
                lemma_on_grid_representable(element@);
                lemma_placed_points_push(self.canvas_elements.deep_view(), element@);
            }
            let points = element.get_absolute_connection_points();
            let ghost old_elements = self.canvas_elements.deep_view();
            let ghost element_model = element@;
            self.canvas_elements.push(element);
            assert(self.canvas_elements.deep_view() =~= old_elements.push(element_model));
            let ghost old_points = self.connection_points.deep_view();
            append(&mut self.connection_points, &points);
            assert(self.connection_points.deep_view() =~= old_points + points.deep_view());
        }
    }

    /// Whether the straight wire between two pins crosses an element's
    /// bounding box: see [`crosses`].
    pub fn check_if_crosses(
        cp1: &ConnectionPoint,
        cp2: &ConnectionPoint,
        canvas_element: &CanvasElement,
    ) -> (crossing: bool)
        ensures
            crossing == crosses(cp1@, cp2@, canvas_element@),
    {
        let x1 = cp1.get_position_x() as i128;
        let y1 = cp1.get_position_y() as i128;
        let x2 = cp2.get_position_x() as i128;
        let y2 = cp2.get_position_y() as i128;
        let position = canvas_element.get_position();
        let x3 = position.0 as i128;
        let y3 = position.1 as i128;
        let h3 = canvas_element.get_height() as i128;
        let w3 = canvas_element.get_width() as i128;
        let room = ERROR_ROOM as i128;
        x1 < x3 && x2 > x3 + w3 && y1 >= (y3 - room) && y1 <= (y3 + h3 + room) || x2 < x3 && x1
            > x3 + w3 && y2 >= (y3 - room) && y2 <= (y3 + h3 + room) || y1 < y3 && y2 > y3 + h3
            && x1 >= (x3 - room) && x1 <= (x3 + w3 + room) || y2 < y3 && y1 > y3 + h3 && x2 >= (x3
            - room) && x2 <= (x3 + w3 + room)
    }

    /// Whether two pins, both in absolute space, are wired together in this
    /// diagram: see [`connects`].
    pub fn check_connection_points(&self, cp1: &ConnectionPoint, cp2: &ConnectionPoint) -> (valid:
        bool)
        ensures
            valid == connects(cp1@, cp2@, self@.elements),
    {
        if cp1 == cp2 {
            return false;
        }
        let x1 = cp1.get_position_x();
        let y1 = cp1.get_position_y();
        let x2 = cp2.get_position_x();
        let y2 = cp2.get_position_y();
        let vertical = round_to_unit(x1) == round_to_unit(x2) && (y1 > y2
            && cp1.get_direction_y_neg() && cp2.get_direction_y_pos() || y1 < y2
            && cp1.get_direction_y_pos() && cp2.get_direction_y_neg());
        let horizontal = round_to_unit(y1) == round_to_unit(y2) && (x1 > x2
            && cp1.get_direction_x_neg() && cp2.get_direction_x_pos() || x1 < x2
            && cp1.get_direction_x_pos() && cp2.get_direction_x_neg());
        if !(vertical || horizontal) {
            return false;
        }
        let mut i: usize = 0;
        while i < self.canvas_elements.len()
            invariant
                i <= self.canvas_elements.len(),
                forall|j: int| 0 <= j < i ==> !crosses(cp1@, cp2@, #[trigger] self@.elements[j]),
            decreases self.canvas_elements.len() - i,
        {
            assert(self@.elements[i as int] == self.canvas_elements[i as int]@);
            if Self::check_if_crosses(cp1, cp2, &self.canvas_elements[i]) {
                return false;
            }
            i += 1;
        }
        true
    }

    /// Appends to `out` the wires from one pin to each of `targets[start..]`
    /// that it connects to.
    fn push_wires(
        &self,
        from: &ConnectionPoint,
        targets: &Vec<ConnectionPoint>,
        start: usize,
        out: &mut Vec<DrawCommand>,
    )
        requires
            start <= targets.len(),
        ensures
            final(out).deep_view() == old(out).deep_view() + wires_from(
                from@,
                targets.deep_view().skip(start as int),
                self@.elements,
            ),
    {
        let ghost base = out.deep_view();
        let ghost pins = targets.deep_view().skip(start as int);
        proof {
            assert(wires_from(from@, pins.take(0), self@.elements) =~= Seq::<DrawModel>::empty())
                by {
                reveal(Seq::filter);
            }
        }
        let mut j: usize = start;
        while j < targets.len()
            invariant
                start <= j <= targets.len(),
                pins == targets.deep_view().skip(start as int),
                out.deep_view() == base + wires_from(
                    from@,
                    pins.take(j - start),
                    self@.elements,
                ),
            decreases targets.len() - j,
        {
            let to = &targets[j];
            let ghost before = out.deep_view();
            proof {
                assert(pins.take(j - start + 1) =~= pins.take(j - start).push(to@));
                lemma_wires_from_push(from@, pins.take(j - start), to@, self@.elements);
            }
            if self.check_connection_points(from, to) {
                out.push(
                    DrawCommand::Line {
                        x1: from.get_position_x(),
                        y1: from.get_position_y(),
                        x2: to.get_position_x(),
                        y2: to.get_position_y(),
                    },
                );
                assert(out.deep_view() =~= before.push(wire(from@, to@)));
            }
            j += 1;
        }
        assert(pins.take(j - start) =~= pins);
    }

    /// The instructions that show the active tool: its preview at the
    /// pointer's grid position, then a wire from each of its pins to every
    /// pin of the diagram that it would connect to. Nothing without a tool.
    pub fn render_selected_tool(&self) -> (commands: Vec<DrawCommand>)
        requires
            self.wf(),
        ensures
            commands.deep_view() == self@.tool_frame(),
    {
        let mut commands: Vec<DrawCommand> = Vec::new();
        match &self.application_state.tool_active {
            Some(tool) => {
                let preview = tool.at_position(self.grid_position);
                proof {
                    lemma_on_grid_representable(preview@);
                }
                commands.push(preview.render());
                let sources = preview.get_absolute_connection_points();
                let ghost head = commands.deep_view();
                let mut i: usize = 0;
                while i < sources.len()
                    invariant
                        i <= sources.len(),
                        commands.deep_view() == head + wires_between(
                            sources.deep_view().take(i as int),
                            self.connection_points.deep_view(),
                            self@.elements,
                        ),
                    decreases sources.len() - i,
                {
                    self.push_wires(&sources[i], &self.connection_points, 0, &mut commands);
                    i += 1;
                    proof {
                        let pins = sources.deep_view();
                        assert(self.connection_points.deep_view().skip(0)
                            =~= self.connection_points.deep_view());
                        assert(pins.take(i as int) =~= pins.take(i - 1).push(sources[i - 1]@));
                        lemma_wires_between_push(
                            pins.take(i - 1),
                            sources[i - 1]@,
                            self.connection_points.deep_view(),
                            self@.elements,
                        );
                    }
                }
                assert(sources.deep_view().take(sources.len() as int) =~= sources.deep_view());
            },
            None => {},
        }
        commands
    }

    /// The instructions that stroke the wires of the diagram: one for every
    /// unordered pair of its pins that connect.
    pub fn render_connections(&self) -> (commands: Vec<DrawCommand>)
        requires
            self.wf(),
        ensures
            commands.deep_view() == self@.connection_frame(),
    {
        let mut commands: Vec<DrawCommand> = Vec::new();
        let ghost pins = self.connection_points.deep_view();
        proof {
            lemma_wires_among_ends(pins, self@.elements);
        }
        let mut i: usize = 0;
        while i < self.connection_points.len()
            invariant
                i <= self.connection_points.len(),
                pins == self.connection_points.deep_view(),
                commands.deep_view() == wires_among_first(pins, self@.elements, i as int),
            decreases self.connection_points.len() - i,
        {
            self.push_wires(&self.connection_points[i], &self.connection_points, i + 1, &mut commands);
            proof {
                lemma_wires_among_step(pins, self@.elements, i as int);
            }
            i += 1;
        }
        commands
    }

    /// Lays out one frame and marks the engine as initialized. The diagram,
    /// the tool and the pointer's position stay as they are.
    pub fn render(&mut self) -> (frame: Frame)
        requires
            old(self).wf(),
        ensures
            final(self).wf(),
            final(self)@ == old(self)@.rendered(),
            frame.attach_listeners == !old(self)@.initialized,
            frame.commands.deep_view() == old(self)@.frame(),
    {
        let attach_listeners = !self.initialized;
        if attach_listeners {
            self.init();
        }
        let mut commands: Vec<DrawCommand> = Vec::new();
        commands.push(DrawCommand::Clear);
        let tool_commands = self.render_selected_tool();
        append(&mut commands, &tool_commands);
        let mut i: usize = 0;
        let ghost head = commands.deep_view();
        while i < self.canvas_elements.len()
            invariant
                i <= self.canvas_elements.len(),
                self.wf(),
                commands.deep_view() == head + images(self@.elements).take(i as int),
            decreases self.canvas_elements.len() - i,
        {
            let ghost before = commands.deep_view();
            proof {
                lemma_on_grid_representable(self@.elements[i as int]);
            }
            let command = self.canvas_elements[i].render();
            commands.push(command);
            i += 1;
            assert(commands.deep_view() =~= before.push(command@));
        }
        let wire_commands = self.render_connections();
        let ghost painted = commands.deep_view();
        append(&mut commands, &wire_commands);
        assert(commands.deep_view() =~= painted + wire_commands.deep_view());
        Frame { attach_listeners, commands }
    }
}

} // verus!
