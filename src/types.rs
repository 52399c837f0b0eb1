use vstd::prelude::*;

verus! {

/// A point on the drawing surface, in whole surface units.
#[derive(Clone, Copy, Debug, PartialEq, Eq, Structural)]
pub struct Point {
    pub x: i32,
    pub y: i32,
}

impl Point {
    pub fn new(x: i32, y: i32) -> (r: Point)
        ensures
            r.x == x,
            r.y == y,
    {
        Point { x, y }
    }
}

/// An axis-aligned rectangle: top-left corner, bottom-right corner, center
/// and size.
#[derive(Clone, Copy, Debug, PartialEq, Eq, Structural)]
pub struct Area {
    pub x1: i32,
    pub y1: i32,
    pub x2: i32,
    pub y2: i32,
    pub cx: i32,
    pub cy: i32,
    pub w: i32,
    pub h: i32,
}

/// Whether a rectangle at `(x, y)` of size `w` x `h` can be represented.
pub open spec fn area_fits(x: int, y: int, w: int, h: int) -> bool {
    &&& 0 <= w
    &&& 0 <= h
    &&& x + w <= i32::MAX
    &&& y + h <= i32::MAX
}

/// The rectangle at `(x, y)` of size `w` x `h`, with its far corner and
/// center derived.
pub open spec fn area_spec(x: int, y: int, w: int, h: int) -> Area {
    Area {
        x1: x as i32,
        y1: y as i32,
        x2: (x + w) as i32,
        y2: (y + h) as i32,
        cx: (x + w / 2) as i32,
        cy: (y + h / 2) as i32,
        w: w as i32,
        h: h as i32,
    }
}

impl Area {
    /// The derived fields agree with the corner and the size.
    pub open spec fn wf(&self) -> bool {
        &&& 0 <= self.w
        &&& 0 <= self.h
        &&& self.x2 == self.x1 + self.w
        &&& self.y2 == self.y1 + self.h
        &&& self.cx == self.x1 + self.w / 2
        &&& self.cy == self.y1 + self.h / 2
    }

    pub open spec fn contains(&self, p: Point) -> bool {
        self.x1 <= p.x <= self.x2 && self.y1 <= p.y <= self.y2
    }

    pub fn new(x: i32, y: i32, w: i32, h: i32) -> (r: Area)
        requires
            area_fits(x as int, y as int, w as int, h as int),
        ensures
            r == area_spec(x as int, y as int, w as int, h as int),
            r.wf(),
            r.x1 == x,
            r.y1 == y,
            r.w == w,
            r.h == h,
            r.x2 == x + w,
            r.y2 == y + h,
            r.cx == x + w / 2,
            r.cy == y + h / 2,
    {
        let x2 = x + w;
        let y2 = y + h;
        let cx = x + w / 2;
        let cy = y + h / 2;
        Area { x1: x, y1: y, x2, y2, cx, cy, w, h }
    }

    /// Inclusive containment test.
    pub fn in_bounds(&self, point: &Point) -> (r: bool)
        ensures
            r == self.contains(*point),
    {
        point.x >= self.x1 && point.x <= self.x2 && point.y >= self.y1 && point.y <= self.y2
    }

    pub fn center(&self) -> (r: Point)
        ensures
            r.x == self.cx,
            r.y == self.cy,
    {
        Point { x: self.cx, y: self.cy }
    }
}

} // verus!
