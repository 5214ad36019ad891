//! Points, sizes, rectangles and vectors, generic over their coordinate type.
use vstd::prelude::*;
use vstd::std_specs::convert::FromSpecImpl;
use vstd::std_specs::ops::{AddSpec, SubSpec};

verus! {

/// A position in a two-dimensional coordinate space.
#[derive(Clone, Copy, PartialEq, Eq, Debug)]
pub struct Point<T> {
    pub x: T,
    pub y: T,
}

/// An extent: a width and a height.
#[derive(Clone, Copy, PartialEq, Eq, Debug)]
pub struct Size<T> {
    pub width: T,
    pub height: T,
}

/// An axis-aligned rectangle given by its four edges.
#[derive(Clone, Copy, PartialEq, Eq, Debug)]
pub struct Rect<T> {
    pub left: T,
    pub top: T,
    pub right: T,
    pub bottom: T,
}

/// A displacement in a two-dimensional coordinate space.
#[derive(Clone, Copy, PartialEq, Eq, Debug)]
pub struct Vector<T> {
    pub x: T,
    pub y: T,
}

impl<T> Point<T> {
    pub fn new(x: T, y: T) -> (r: Self)
        ensures
            r.x == x,
            r.y == y,
    {
        Point { x, y }
    }

    /// The displacement from the origin to this point.
    pub fn as_vector(self) -> (r: Vector<T>)
        ensures
            r.x == self.x,
            r.y == self.y,
    {
        Vector { x: self.x, y: self.y }
    }
}

impl<T> From<(T, T)> for Point<T> {
    fn from(value: (T, T)) -> (r: Self) {
        Point { x: value.0, y: value.1 }
    }
}

impl<T> FromSpecImpl<(T, T)> for Point<T> {
    open spec fn obeys_from_spec() -> bool {
        true
    }

    open spec fn from_spec(v: (T, T)) -> Self {
        Point { x: v.0, y: v.1 }
    }
}

impl<T> Size<T> {
    pub fn new(width: T, height: T) -> (r: Self)
        ensures
            r.width == width,
            r.height == height,
    {
        Size { width, height }
    }
}

impl<T> From<(T, T)> for Size<T> {
    fn from(value: (T, T)) -> (r: Self) {
        Size { width: value.0, height: value.1 }
    }
}

impl<T> FromSpecImpl<(T, T)> for Size<T> {
    open spec fn obeys_from_spec() -> bool {
        true
    }

    open spec fn from_spec(v: (T, T)) -> Self {
        Size { width: v.0, height: v.1 }
    }
}

impl<T> Rect<T> {
    pub fn new(left: T, top: T, right: T, bottom: T) -> (r: Self)
        ensures
            r.left == left,
            r.top == top,
            r.right == right,
            r.bottom == bottom,
    {
        Rect { left, top, right, bottom }
    }

    /// The rectangle whose left-top corner is `lt` and right-bottom corner is `rb`.
    pub fn from_points(lt: Point<T>, rb: Point<T>) -> (r: Self)
        ensures
            r.left == lt.x,
            r.top == lt.y,
            r.right == rb.x,
            r.bottom == rb.y,
    {
        Rect { left: lt.x, top: lt.y, right: rb.x, bottom: rb.y }
    }

    /// The rectangle with left-top corner `lt` that extends by `size`.
    ///
    /// The far edges are `lt.x + size.width` and `lt.y + size.height`, computed
    /// with `T`'s own addition, which must be defined on these operands.
    pub fn from_point_size(lt: Point<T>, size: Size<T>) -> (r: Self) where
        T: core::ops::Add<Output = T> + Copy,

        requires
            lt.x.add_req(size.width),
            lt.y.add_req(size.height),
        ensures
            r.left == lt.x,
            r.top == lt.y,
            T::obeys_add_spec() ==> r.right == lt.x.add_spec(size.width),
            T::obeys_add_spec() ==> r.bottom == lt.y.add_spec(size.height),
    {
        Rect { left: lt.x, top: lt.y, right: lt.x + size.width, bottom: lt.y + size.height }
    }

    pub fn left_top(self) -> (r: Point<T>)
        ensures
            r.x == self.left,
            r.y == self.top,
    {
        Point::new(self.left, self.top)
    }

    pub fn right_bottom(self) -> (r: Point<T>)
        ensures
            r.x == self.right,
            r.y == self.bottom,
    {
        Point::new(self.right, self.bottom)
    }

    /// The width `right - left` and height `bottom - top`, computed with
    /// `T`'s own subtraction, which must be defined on these operands.
    pub fn size(self) -> (r: Size<T>) where
        T: core::ops::Sub<Output = T>,

        requires
            self.right.sub_req(self.left),
            self.bottom.sub_req(self.top),
        ensures
            T::obeys_sub_spec() ==> r.width == self.right.sub_spec(self.left),
            T::obeys_sub_spec() ==> r.height == self.bottom.sub_spec(self.top),
    {
        Size::new(self.right - self.left, self.bottom - self.top)
    }
}

impl<T> From<(T, T, T, T)> for Rect<T> {
    fn from(value: (T, T, T, T)) -> (r: Self) {
        Rect { left: value.0, top: value.1, right: value.2, bottom: value.3 }
    }
}

impl<T> FromSpecImpl<(T, T, T, T)> for Rect<T> {
    open spec fn obeys_from_spec() -> bool {
        true
    }

    open spec fn from_spec(v: (T, T, T, T)) -> Self {
        Rect { left: v.0, top: v.1, right: v.2, bottom: v.3 }
    }
}

impl<T> Vector<T> {
    pub fn new(x: T, y: T) -> (r: Self)
        ensures
            r.x == x,
            r.y == y,
    {
        Vector { x, y }
    }

    /// The point reached from the origin by this displacement.
    pub fn as_point(self) -> (r: Point<T>)
        ensures
            r.x == self.x,
            r.y == self.y,
    {
        Point::new(self.x, self.y)
    }
}

impl<T> From<(T, T)> for Vector<T> {
    fn from(value: (T, T)) -> (r: Self) {
        Vector { x: value.0, y: value.1 }
    }
}

impl<T> FromSpecImpl<(T, T)> for Vector<T> {
    open spec fn obeys_from_spec() -> bool {
        true
    }

    open spec fn from_spec(v: (T, T)) -> Self {
        Vector { x: v.0, y: v.1 }
    }
}

/// On pixel coordinates, measuring the rectangle that `Rect::from_point_size`
/// builds from a corner and a size gives back that size, whenever the far edges
/// fit in `u32`.
pub proof fn lemma_point_size_round_trip(lt: Point<u32>, size: Size<u32>)
    requires
        lt.x + size.width <= u32::MAX,
        lt.y + size.height <= u32::MAX,
    ensures
        lt.x.add_req(size.width),
        lt.y.add_req(size.height),
        lt.x.add_spec(size.width).sub_req(lt.x),
        lt.y.add_spec(size.height).sub_req(lt.y),
        lt.x.add_spec(size.width).sub_spec(lt.x) == size.width,
        lt.y.add_spec(size.height).sub_spec(lt.y) == size.height,
{
}

} // verus!
