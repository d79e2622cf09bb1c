//! Axis-aligned rectangles and the collision rule between two of them.

use vstd::prelude::*;
use crate::game::units::{abs, EXTENT_LIMIT, OFFSET_LIMIT};

verus! {

/// What a `Shape` is, over unbounded integers: the value that contracts speak of.
pub struct ShapeModel {
    pub start: (int, int),
    pub offset: (int, int),
    pub velocity: (int, int),
    pub half_width: int,
    pub half_height: int,
}

impl ShapeModel {
    /// Half-extents are strictly positive, and every component is small enough
    /// that no sum of a few of them leaves the range of `i64`.
    pub open spec fn wf(self) -> bool {
        &&& 0 < self.half_width <= EXTENT_LIMIT
        &&& 0 < self.half_height <= EXTENT_LIMIT
        &&& abs(self.start.0) <= EXTENT_LIMIT
        &&& abs(self.start.1) <= EXTENT_LIMIT
        &&& abs(self.velocity.0) <= EXTENT_LIMIT
        &&& abs(self.velocity.1) <= EXTENT_LIMIT
        &&& abs(self.offset.0) <= OFFSET_LIMIT
        &&& abs(self.offset.1) <= OFFSET_LIMIT
    }

    pub open spec fn center_x(self) -> int {
        self.start.0 + self.offset.0
    }

    pub open spec fn center_y(self) -> int {
        self.start.1 + self.offset.1
    }

    pub open spec fn left_edge(self) -> int {
        self.center_x() - self.half_width
    }

    pub open spec fn right_edge(self) -> int {
        self.center_x() + self.half_width
    }

    pub open spec fn top_edge(self) -> int {
        self.center_y() + self.half_height
    }

    pub open spec fn bottom_edge(self) -> int {
        self.center_y() - self.half_height
    }

    /// `other` is this shape moved or sped up: rest position and extents agree.
    pub open spec fn same_body(self, other: ShapeModel) -> bool {
        &&& self.start == other.start
        &&& self.half_width == other.half_width
        &&& self.half_height == other.half_height
    }

    /// The same shape, displaced so that its centre lies at `x`.
    pub open spec fn with_center_x(self, x: int) -> ShapeModel {
        ShapeModel { offset: (x - self.start.0, self.offset.1), ..self }
    }

    /// The same shape with another horizontal speed.
    pub open spec fn with_velocity_x(self, v: int) -> ShapeModel {
        ShapeModel { velocity: (v, self.velocity.1), ..self }
    }

    /// The corners of the shape at rest, as `x, y` pairs in the order top right,
    /// bottom right, top left, bottom left.
    pub open spec fn rest_vertices(self) -> Seq<int> {
        seq![
            self.start.0 + self.half_width,
            self.start.1 + self.half_height,
            self.start.0 + self.half_width,
            self.start.1 - self.half_height,
            self.start.0 - self.half_width,
            self.start.1 + self.half_height,
            self.start.0 - self.half_width,
            self.start.1 - self.half_height,
        ]
    }
}

/// A rectangle with a rest position, a displacement from it and a velocity,
/// all in ticks.
#[derive(Clone, Copy, Debug, PartialEq, Eq)]
pub struct Shape {
    pub start_location: (i64, i64),
    pub offset: (i64, i64),
    pub velocity: (i64, i64),
    pub half_width: i64,
    pub half_height: i64,
}

impl View for Shape {
    type V = ShapeModel;

    open spec fn view(&self) -> ShapeModel {
        ShapeModel {
            start: (self.start_location.0 as int, self.start_location.1 as int),
            offset: (self.offset.0 as int, self.offset.1 as int),
            velocity: (self.velocity.0 as int, self.velocity.1 as int),
            half_width: self.half_width as int,
            half_height: self.half_height as int,
        }
    }
}

/// A shape at rest at `(start_x, start_y)`.
pub fn bind_shape(start_x: i64, start_y: i64, half_width: i64, half_height: i64) -> (shape: Shape)
    requires
        0 < half_width <= EXTENT_LIMIT,
        0 < half_height <= EXTENT_LIMIT,
        abs(start_x as int) <= EXTENT_LIMIT,
        abs(start_y as int) <= EXTENT_LIMIT,
    ensures
        shape.wf(),
        shape@ == (ShapeModel {
            start: (start_x as int, start_y as int),
            offset: (0, 0),
            velocity: (0, 0),
            half_width: half_width as int,
            half_height: half_height as int,
        }),
{
    Shape {
        start_location: (start_x, start_y),
        offset: (0, 0),
        velocity: (0, 0),
        half_width,
        half_height,
    }
}

/// Whether `x` lies within `limit` of zero.
fn within(x: i64, limit: i64) -> (b: bool)
    requires
        0 <= limit,
    ensures
        b == (abs(x as int) <= limit),
{
    -limit <= x && x <= limit
}

impl Shape {
    pub open spec fn wf(&self) -> bool {
        self@.wf()
    }

    /// Decides `wf`.
    pub fn is_wf(&self) -> (b: bool)
        ensures
            b == self.wf(),
    {
        0 < self.half_width && self.half_width <= EXTENT_LIMIT && 0 < self.half_height
            && self.half_height <= EXTENT_LIMIT && within(self.start_location.0, EXTENT_LIMIT)
            && within(self.start_location.1, EXTENT_LIMIT) && within(self.velocity.0, EXTENT_LIMIT)
            && within(self.velocity.1, EXTENT_LIMIT) && within(self.offset.0, OFFSET_LIMIT)
            && within(self.offset.1, OFFSET_LIMIT)
    }

    pub fn center_x(&self) -> (x: i64)
        requires
            self.wf(),
        ensures
            x == self@.center_x(),
    {
        self.start_location.0 + self.offset.0
    }

    pub fn center_y(&self) -> (y: i64)
        requires
            self.wf(),
        ensures
            y == self@.center_y(),
    {
        self.start_location.1 + self.offset.1
    }

    pub fn left_edge(&self) -> (x: i64)
        requires
            self.wf(),
        ensures
            x == self@.left_edge(),
    {
        self.center_x() - self.half_width
    }

    pub fn right_edge(&self) -> (x: i64)
        requires
            self.wf(),
        ensures
            x == self@.right_edge(),
    {
        self.center_x() + self.half_width
    }

    pub fn top_edge(&self) -> (y: i64)
        requires
            self.wf(),
        ensures
            y == self@.top_edge(),
    {
        self.center_y() + self.half_height
    }

    pub fn bottom_edge(&self) -> (y: i64)
        requires
            self.wf(),
        ensures
            y == self@.bottom_edge(),
    {
        self.center_y() - self.half_height
    }

    /// Displaces the shape so that its centre lies at `x`.
    pub fn set_center_x(&mut self, x: i64)
        requires
            old(self).wf(),
            abs(x - old(self)@.start.0) <= OFFSET_LIMIT,
        ensures
            final(self)@ == old(self)@.with_center_x(x as int),
            final(self)@.center_x() == x,
            final(self).wf(),
    {
        self.offset.0 = x - self.start_location.0;
    }

    /// The corners of the shape at rest, as `x, y` pairs in the order top right,
    /// bottom right, top left, bottom left: the geometry a renderer is bound to
    /// once, before any offset is applied.
    pub fn vertices(&self) -> (v: [i64; 8])
        requires
            self.wf(),
        ensures
            v@.len() == 8,
            forall|i: int| 0 <= i < 8 ==> #[trigger] v@[i] == self@.rest_vertices()[i],
    {
        let (x, y) = self.start_location;
        [
            x + self.half_width,
            y + self.half_height,
            x + self.half_width,
            y - self.half_height,
            x - self.half_width,
            y + self.half_height,
            x - self.half_width,
            y - self.half_height,
        ]
    }
}

/// The two triangles that make up a shape, as indices into its corners in the
/// order of `vertices`: both hold the top right and the bottom left corner.
pub fn quad_indices() -> (indices: [u32; 6])
    ensures
        indices@ =~= seq![0u32, 1u32, 3u32, 0u32, 2u32, 3u32],
{
    [0, 1, 3, 0, 2, 3]
}

/// The side on which two shapes touch, seen from the first of them.
#[derive(Clone, Copy, Debug, PartialEq, Eq, Structural)]
pub enum Collision {
    Apart,
    Left,
    Right,
    Top,
    Bottom,
}

/// How far `a` and `b` penetrate each other horizontally; negative when a gap
/// separates them.
pub open spec fn overlap_x(a: ShapeModel, b: ShapeModel) -> int {
    a.half_width + b.half_width - abs(a.center_x() - b.center_x())
}

/// How far `a` and `b` penetrate each other vertically; negative when a gap
/// separates them.
pub open spec fn overlap_y(a: ShapeModel, b: ShapeModel) -> int {
    a.half_height + b.half_height - abs(a.center_y() - b.center_y())
}

/// Whether `a` and `b` share at least one point.
pub open spec fn touching(a: ShapeModel, b: ShapeModel) -> bool {
    overlap_x(a, b) >= 0 && overlap_y(a, b) >= 0
}

/// The collision of `a` with `b`: none when they are apart, otherwise the side
/// along the axis of least penetration, the vertical axis on a tie.
pub open spec fn collision_of(a: ShapeModel, b: ShapeModel) -> Collision {
    if !touching(a, b) {
        Collision::Apart
    } else if overlap_x(a, b) < overlap_y(a, b) {
        if a.center_x() > b.center_x() {
            Collision::Left
        } else {
            Collision::Right
        }
    } else {
        if a.center_y() > b.center_y() {
            Collision::Bottom
        } else {
            Collision::Top
        }
    }
}

/// Classifies the contact between two shapes.
pub fn in_collision(shape1: &Shape, shape2: &Shape) -> (c: Collision)
    requires
        shape1.wf(),
        shape2.wf(),
    ensures
        c == collision_of(shape1@, shape2@),
{
    let dx: i64 = shape1.center_x() - shape2.center_x();
    let dy: i64 = shape1.center_y() - shape2.center_y();
    let abs_dx: i64 = if dx < 0 { -dx } else { dx };
    let abs_dy: i64 = if dy < 0 { -dy } else { dy };
    let overlap_x: i64 = (shape1.half_width + shape2.half_width) - abs_dx;
    let overlap_y: i64 = (shape1.half_height + shape2.half_height) - abs_dy;

    if overlap_x < 0 || overlap_y < 0 {
        return Collision::Apart;
    }
    if overlap_x < overlap_y {
        if dx > 0 {
            Collision::Left
        } else {
            Collision::Right
        }
    } else {
        if dy > 0 {
            Collision::Bottom
        } else {
            Collision::Top
        }
    }
}

/// Opposite edges of a shape lie one full extent apart, wherever the shape is.
pub proof fn lemma_edges_span_extent(s: ShapeModel)
    ensures
        s.right_edge() - s.left_edge() == 2 * s.half_width,
        s.top_edge() - s.bottom_edge() == 2 * s.half_height,
{
}

/// Two shapes are reported apart exactly when a gap separates them along one
/// of the axes.
pub proof fn lemma_apart_iff_gap(a: ShapeModel, b: ShapeModel)
    ensures
        collision_of(a, b) == Collision::Apart <==> {
            ||| a.right_edge() < b.left_edge()
            ||| b.right_edge() < a.left_edge()
            ||| a.top_edge() < b.bottom_edge()
            ||| b.top_edge() < a.bottom_edge()
        },
{
}

/// Whether two shapes are apart does not depend on the order in which they
/// are given.
pub proof fn lemma_apart_symmetric(a: ShapeModel, b: ShapeModel)
    ensures
        collision_of(a, b) == Collision::Apart <==> collision_of(b, a) == Collision::Apart,
{
}

/// Swapping two shapes whose centres differ along the axis of contact swaps
/// the side reported.
pub proof fn lemma_sides_mirror(a: ShapeModel, b: ShapeModel)
    ensures
        collision_of(a, b) == Collision::Left ==> collision_of(b, a) == Collision::Right,
        collision_of(a, b) == Collision::Bottom ==> collision_of(b, a) == Collision::Top,
        collision_of(a, b) == Collision::Right && a.center_x() != b.center_x() ==> collision_of(b, a)
            == Collision::Left,
        collision_of(a, b) == Collision::Top && a.center_y() != b.center_y() ==> collision_of(b, a)
            == Collision::Bottom,
{
}

} // verus!
