//! Rectangular bounds around a position, and the test whether a point lies
//! within them.

use vstd::prelude::*;

verus! {

/// A position in the world, in whole world units.
#[derive(Debug, Clone, Copy, PartialEq, Eq)]
pub struct Point {
    pub x: i64,
    pub y: i64,
}

impl Point {
    pub fn new(x: i64, y: i64) -> (point: Self)
        ensures
            point.x == x,
            point.y == y,
    {
        Self { x, y }
    }
}

/// Rectangular collision bounds. The rectangle has no position of its own:
/// it is centred on the position of the entity that carries it.
#[derive(Debug, Clone, Copy, PartialEq, Eq)]
pub struct RectCollision {
    width: u64,
    height: u64,
}

impl RectCollision {
    /// Both sides of the rectangle are positive.
    #[verifier::type_invariant]
    pub closed spec fn positive(self) -> bool {
        self.width > 0 && self.height > 0
    }

    /// The length of the horizontal sides.
    pub closed spec fn spec_width(&self) -> u64 {
        self.width
    }

    /// The length of the vertical sides.
    pub closed spec fn spec_height(&self) -> u64 {
        self.height
    }

    /// The rectangle of the given sides.
    pub closed spec fn sized(width: u64, height: u64) -> RectCollision {
        RectCollision { width, height }
    }

    /// Whether `point` lies in the rectangle when it is centred on `center`,
    /// the boundary included:
    /// `center.x - width / 2 <= point.x <= center.x + width / 2`, and the
    /// same vertically. Both sides are doubled, so that half of an odd side
    /// is exact.
    pub open spec fn contains(self, center: Point, point: Point) -> bool {
        &&& 2 * center.x - self.width() <= 2 * point.x <= 2 * center.x + self.width()
        &&& 2 * center.y - self.height() <= 2 * point.y <= 2 * center.y + self.height()
    }

    /// Whether `point` lies on the edge of the rectangle when it is centred
    /// on `center`.
    pub open spec fn on_edge(self, center: Point, point: Point) -> bool {
        &&& self.contains(center, point)
        &&& {
            ||| 2 * point.x == 2 * center.x - self.width()
            ||| 2 * point.x == 2 * center.x + self.width()
            ||| 2 * point.y == 2 * center.y - self.height()
            ||| 2 * point.y == 2 * center.y + self.height()
        }
    }

    /// A rectangle of the given sides.
    pub fn new(width: u64, height: u64) -> (rect: Self)
        requires
            width > 0,
            height > 0,
        ensures
            rect == RectCollision::sized(width, height),
            rect.width() == width,
            rect.height() == height,
    {
        Self { width, height }
    }

    #[verifier::when_used_as_spec(spec_width)]
    pub fn width(&self) -> (width: u64)
        ensures
            width == self.width(),
            width > 0,
    {
        proof {
            use_type_invariant(self);
        }
        self.width
    }

    #[verifier::when_used_as_spec(spec_height)]
    pub fn height(&self) -> (height: u64)
        ensures
            height == self.height(),
            height > 0,
    {
        proof {
            use_type_invariant(self);
        }
        self.height
    }

    /// Tests whether `point` lies within the rectangle centred on `self_pos`.
    pub fn meets_point(&self, self_pos: Point, point: Point) -> (hit: bool)
        ensures
            hit == self.contains(self_pos, point),
    {
        let dx: i128 = 2 * (point.x as i128 - self_pos.x as i128);
        let dy: i128 = 2 * (point.y as i128 - self_pos.y as i128);
        let width: i128 = self.width as i128;
        let height: i128 = self.height as i128;

        -width <= dx && dx <= width && -height <= dy && dy <= height
    }
}

/// A rectangle is known by its sides.
pub proof fn lemma_sized(width: u64, height: u64)
    ensures
        RectCollision::sized(width, height).width() == width,
        RectCollision::sized(width, height).height() == height,
{
}

/// A rectangle contains the point it is centred on.
pub proof fn lemma_center_is_inside(rect: RectCollision, center: Point)
    ensures
        rect.contains(center, center),
{
}

/// The boundary belongs to the rectangle and nothing beyond it does: a point
/// is inside exactly when it is no further from the centre than half the
/// width horizontally and half the height vertically.
pub proof fn lemma_boundary_is_inclusive(rect: RectCollision, center: Point, point: Point)
    ensures
        rect.contains(center, point) <==> {
            &&& -rect.width() <= 2 * (point.x - center.x) <= rect.width()
            &&& -rect.height() <= 2 * (point.y - center.y) <= rect.height()
        },
        2 * (point.x - center.x) == rect.width() && point.y == center.y ==> rect.contains(
            center,
            point,
        ),
        2 * (point.x - center.x) > rect.width() ==> !rect.contains(center, point),
{
}

/// Moving the rectangle and the point by the same offset does not change
/// whether the point is inside.
pub proof fn lemma_contains_ignores_offset(
    rect: RectCollision,
    center: Point,
    point: Point,
    moved_center: Point,
    moved_point: Point,
)
    requires
        moved_center.x - center.x == moved_point.x - point.x,
        moved_center.y - center.y == moved_point.y - point.y,
    ensures
        rect.contains(moved_center, moved_point) == rect.contains(center, point),
{
}

} // verus!
