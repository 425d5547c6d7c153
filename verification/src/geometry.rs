//! Integer points and axis-aligned rectangles.

use vstd::prelude::*;

verus! {

/// A point of the integer plane, also used as a displacement or an extent.
#[derive(Clone, Copy, Debug, PartialEq, Eq, Structural)]
pub struct Point {
    pub x: i32,
    pub y: i32,
}

impl Point {
    /// Whether the component-wise sum of `self` and `rhs` has both
    /// components in the range of `i32`.
    pub open spec fn sum_in_range(self, rhs: Point) -> bool {
        &&& i32::MIN <= self.x + rhs.x <= i32::MAX
        &&& i32::MIN <= self.y + rhs.y <= i32::MAX
    }

    /// Whether the component-wise difference of `self` and `rhs` has both
    /// components in the range of `i32`.
    pub open spec fn difference_in_range(self, rhs: Point) -> bool {
        &&& i32::MIN <= self.x - rhs.x <= i32::MAX
        &&& i32::MIN <= self.y - rhs.y <= i32::MAX
    }

    pub fn new(x: i32, y: i32) -> (p: Point)
        ensures
            p == (Point { x, y }),
    {
        Point { x, y }
    }

    /// The origin.
    pub fn zeros() -> (p: Point)
        ensures
            p == (Point { x: 0, y: 0 }),
    {
        Point { x: 0, y: 0 }
    }
}

impl core::ops::Add for Point {
    type Output = Point;

    /// Component-wise sum.
    fn add(self, rhs: Point) -> (sum: Point) {
        Point { x: self.x + rhs.x, y: self.y + rhs.y }
    }
}

impl vstd::std_specs::ops::AddSpecImpl for Point {
    open spec fn obeys_add_spec() -> bool {
        true
    }

    open spec fn add_req(self, rhs: Point) -> bool {
        self.sum_in_range(rhs)
    }

    open spec fn add_spec(self, rhs: Point) -> Point {
        Point { x: (self.x + rhs.x) as i32, y: (self.y + rhs.y) as i32 }
    }
}

impl core::ops::Sub for Point {
    type Output = Point;

    /// Component-wise difference.
    fn sub(self, rhs: Point) -> (difference: Point) {
        Point { x: self.x - rhs.x, y: self.y - rhs.y }
    }
}

impl vstd::std_specs::ops::SubSpecImpl for Point {
    open spec fn obeys_sub_spec() -> bool {
        true
    }

    open spec fn sub_req(self, rhs: Point) -> bool {
        self.difference_in_range(rhs)
    }

    open spec fn sub_spec(self, rhs: Point) -> Point {
        Point { x: (self.x - rhs.x) as i32, y: (self.y - rhs.y) as i32 }
    }
}

/// An axis-aligned rectangle, given by a corner and an extent.
///
/// The extent may be zero or negative in either direction: the rectangle then
/// reaches from `position` towards smaller coordinates.
#[derive(Clone, Copy, Debug, PartialEq, Eq, Structural)]
pub struct Rect {
    pub position: Point,
    pub size: Point,
}

impl Rect {
    /// The x coordinate of the corner opposite `position`.
    pub open spec fn max_x(self) -> int {
        self.position.x + self.size.x
    }

    /// The y coordinate of the corner opposite `position`.
    pub open spec fn max_y(self) -> int {
        self.position.y + self.size.y
    }

    /// Whether the corner opposite `position` has both coordinates in the
    /// range of `i32`.
    pub open spec fn spec_max_in_range(&self) -> bool {
        &&& i32::MIN <= self.max_x() <= i32::MAX
        &&& i32::MIN <= self.max_y() <= i32::MAX
    }

    /// Whether `point` lies between the two corners, both bounds included,
    /// whichever corner is the smaller one in each direction.
    pub open spec fn spec_contains(self, point: Point) -> bool {
        &&& vstd::math::min(self.position.x as int, self.max_x()) <= point.x
        &&& point.x <= vstd::math::max(self.position.x as int, self.max_x())
        &&& vstd::math::min(self.position.y as int, self.max_y()) <= point.y
        &&& point.y <= vstd::math::max(self.position.y as int, self.max_y())
    }

    /// Whether `self` can be inset by `amount` without leaving the range of
    /// `i32`: the moved corner and the reduced extent both fit.
    pub open spec fn spec_can_shrink(&self, amount: Point) -> bool {
        &&& self.position.sum_in_range(amount)
        &&& i32::MIN <= self.size.x - 2 * amount.x <= i32::MAX
        &&& i32::MIN <= self.size.y - 2 * amount.y <= i32::MAX
    }

    /// `self` inset by `amount` on every side.
    pub open spec fn spec_shrink(self, amount: Point) -> Rect {
        Rect {
            position: Point {
                x: (self.position.x + amount.x) as i32,
                y: (self.position.y + amount.y) as i32,
            },
            size: Point {
                x: (self.size.x - 2 * amount.x) as i32,
                y: (self.size.y - 2 * amount.y) as i32,
            },
        }
    }

    pub fn new(position: Point, size: Point) -> (rect: Rect)
        ensures
            rect == (Rect { position, size }),
    {
        Rect { position, size }
    }

    /// Whether [`Rect::max`] can be taken: whether the corner opposite
    /// `position` has both coordinates in the range of `i32`.
    #[verifier::when_used_as_spec(spec_max_in_range)]
    pub fn max_in_range(&self) -> (fits: bool)
        ensures
            fits == self.spec_max_in_range(),
    {
        let far_x: i64 = self.position.x as i64 + self.size.x as i64;
        let far_y: i64 = self.position.y as i64 + self.size.y as i64;
        i32::MIN as i64 <= far_x && far_x <= i32::MAX as i64 && i32::MIN as i64 <= far_y && far_y
            <= i32::MAX as i64
    }

    /// Whether [`Rect::shrink`] can be taken with `amount`: whether the moved
    /// corner and the reduced extent both fit the range of `i32`.
    #[verifier::when_used_as_spec(spec_can_shrink)]
    pub fn can_shrink(&self, amount: Point) -> (fits: bool)
        ensures
            fits == self.spec_can_shrink(amount),
    {
        let near_x: i64 = self.position.x as i64 + amount.x as i64;
        let near_y: i64 = self.position.y as i64 + amount.y as i64;
        let width: i64 = self.size.x as i64 - 2 * (amount.x as i64);
        let height: i64 = self.size.y as i64 - 2 * (amount.y as i64);
        let low: i64 = i32::MIN as i64;
        let high: i64 = i32::MAX as i64;
        low <= near_x && near_x <= high && low <= near_y && near_y <= high && low <= width
            && width <= high && low <= height && height <= high
    }

    /// The corner opposite `position`.
    pub fn max(&self) -> (corner: Point)
        requires
            self.max_in_range(),
        ensures
            corner.x == self.max_x(),
            corner.y == self.max_y(),
    {
        self.position + self.size
    }

    /// Whether `point` lies in the rectangle, its edges included.
    ///
    /// A rectangle of zero extent contains its corner and nothing else. With a
    /// negative extent the two corners change roles, so the answer never
    /// depends on the sign of `size`.
    pub fn contains(&self, point: Point) -> (inside: bool)
        ensures
            inside == self.spec_contains(point),
    {
        let near_x: i64 = self.position.x as i64;
        let far_x: i64 = near_x + self.size.x as i64;
        let near_y: i64 = self.position.y as i64;
        let far_y: i64 = near_y + self.size.y as i64;
        let x: i64 = point.x as i64;
        let y: i64 = point.y as i64;
        let in_x = if near_x <= far_x {
            near_x <= x && x <= far_x
        } else {
            far_x <= x && x <= near_x
        };
        let in_y = if near_y <= far_y {
            near_y <= y && y <= far_y
        } else {
            far_y <= y && y <= near_y
        };
        in_x && in_y
    }

    /// The rectangle inset by `amount` on every side: `position` moves inwards
    /// by `amount` and so does the opposite corner, so the extent loses
    /// `amount` twice.
    pub fn shrink(&self, amount: Point) -> (inner: Rect)
        requires
            self.can_shrink(amount),
        ensures
            inner == self.spec_shrink(amount),
            inner.position.x == self.position.x + amount.x,
            inner.position.y == self.position.y + amount.y,
            inner.max_x() == self.max_x() - amount.x,
            inner.max_y() == self.max_y() - amount.y,
    {
        Rect { position: self.position + amount, size: self.size - amount - amount }
    }

    pub fn width(&self) -> (w: i32)
        ensures
            w == self.size.x,
    {
        self.size.x
    }

    pub fn height(&self) -> (h: i32)
        ensures
            h == self.size.y,
    {
        self.size.y
    }
}

} // verus!
