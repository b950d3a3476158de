use vstd::prelude::*;

verus! {

/// True when `v` can be held in an `i64` coordinate.
pub open spec fn fits_i64(v: int) -> bool {
    i64::MIN <= v <= i64::MAX
}

/// Half of `d`, rounded toward zero.
pub open spec fn half(d: int) -> int {
    if d >= 0 {
        d / 2
    } else {
        -((-d) / 2)
    }
}

/// `v` held to the range of an `i64`.
pub open spec fn clamp64(v: int) -> int {
    if v < i64::MIN {
        i64::MIN as int
    } else if v > i64::MAX {
        i64::MAX as int
    } else {
        v
    }
}

/// `v` held to the range of an `i64`.
pub fn clamp_i64(v: i128) -> (r: i64)
    ensures
        r == clamp64(v as int),
{
    if v < i64::MIN as i128 {
        i64::MIN
    } else if v > i64::MAX as i128 {
        i64::MAX
    } else {
        v as i64
    }
}

/// A point or an extent in whole pixels.
#[derive(Clone, Copy, Debug, PartialEq, Eq, Structural)]
pub struct Vector {
    pub x: i64,
    pub y: i64,
}

impl Vector {
    pub fn new(x: i64, y: i64) -> (r: Vector)
        ensures
            r.x == x,
            r.y == y,
    {
        Vector { x, y }
    }

    /// Sum of two vectors.
    pub fn plus(self, o: Vector) -> (r: Vector)
        requires
            fits_i64(self.x + o.x),
            fits_i64(self.y + o.y),
        ensures
            r.x == self.x + o.x,
            r.y == self.y + o.y,
    {
        Vector { x: self.x + o.x, y: self.y + o.y }
    }
}

/// An axis-aligned rectangle: its top-left corner and its size.
#[derive(Clone, Copy, Debug, PartialEq, Eq, Structural)]
pub struct Rectangle {
    pub pos: Vector,
    pub size: Vector,
}

impl Rectangle {
    pub open spec fn spec_at(x: i64, y: i64, width: i64, height: i64) -> Rectangle {
        Rectangle { pos: Vector { x, y }, size: Vector { x: width, y: height } }
    }

    pub open spec fn spec_sized(width: i64, height: i64) -> Rectangle {
        Rectangle::spec_at(0, 0, width, height)
    }

    pub fn new(x: i64, y: i64, width: i64, height: i64) -> (r: Rectangle)
        ensures
            r.pos.x == x,
            r.pos.y == y,
            r.size.x == width,
            r.size.y == height,
    {
        Rectangle { pos: Vector { x, y }, size: Vector { x: width, y: height } }
    }

    /// A rectangle of the given size at the origin.
    pub fn new_sized(width: i64, height: i64) -> (r: Rectangle)
        ensures
            r.pos.x == 0,
            r.pos.y == 0,
            r.size.x == width,
            r.size.y == height,
    {
        Rectangle::new(0, 0, width, height)
    }

    pub fn x(&self) -> (r: i64)
        ensures
            r == self.pos.x,
    {
        self.pos.x
    }

    pub fn y(&self) -> (r: i64)
        ensures
            r == self.pos.y,
    {
        self.pos.y
    }

    pub fn width(&self) -> (r: i64)
        ensures
            r == self.size.x,
    {
        self.size.x
    }

    pub fn height(&self) -> (r: i64)
        ensures
            r == self.size.y,
    {
        self.size.y
    }

    /// Whether `pt` lies inside the rectangle (left and top edges included).
    pub open spec fn spec_contains(&self, pt: Vector) -> bool {
        self.pos.x <= pt.x < self.pos.x + self.size.x && self.pos.y <= pt.y < self.pos.y
            + self.size.y
    }

    pub fn contains(&self, pt: Vector) -> (r: bool)
        ensures
            r == self.spec_contains(pt),
    {
        let px = pt.x as i128;
        let py = pt.y as i128;
        let x0 = self.pos.x as i128;
        let y0 = self.pos.y as i128;
        x0 <= px && px < x0 + self.size.x as i128 && y0 <= py && py < y0 + self.size.y as i128
    }
}

/// Half of `d` rounded toward zero, for any `i64` difference held as `i128`.
pub(crate) fn half_of(d: i128) -> (r: i128)
    requires
        -0x1_0000_0000_0000_0000 <= d <= 0x1_0000_0000_0000_0000,
    ensures
        r == half(d as int),
{
    if d >= 0 {
        d / 2
    } else {
        -((-d) / 2)
    }
}

/// Where `inner` goes when centered in `outer`, shifted by `offset`.
pub open spec fn centered(outer: Rectangle, inner: Rectangle, offset: Vector) -> (int, int) {
    (
        half(outer.size.x - inner.size.x) + offset.x,
        half(outer.size.y - inner.size.y) + offset.y,
    )
}

/// Placement helpers for frames.
pub struct LayoutHelper {}

impl LayoutHelper {
    /// Center the inner frame in the outer frame's extent, shifted by `offset`; the
    /// inner frame keeps its size. The outer frame's own position is not added: pass
    /// it as `offset` to center inside it in screen coordinates.
    pub fn center_frame(outer: &Rectangle, inner: &Rectangle, offset: Vector) -> (r: Rectangle)
        requires
            fits_i64(centered(*outer, *inner, offset).0),
            fits_i64(centered(*outer, *inner, offset).1),
        ensures
            r.pos.x == centered(*outer, *inner, offset).0,
            r.pos.y == centered(*outer, *inner, offset).1,
            r.size == inner.size,
    {
        let dx = half_of(outer.size.x as i128 - inner.size.x as i128);
        let dy = half_of(outer.size.y as i128 - inner.size.y as i128);
        let x = dx + offset.x as i128;
        let y = dy + offset.y as i128;
        Rectangle { pos: Vector { x: x as i64, y: y as i64 }, size: inner.size }
    }
}

} // verus!
