//! Geometry value types.
//!
//! Surface and design sizes are measured in whole pixels (`Size`).  Derived
//! quantities — scale factors, canvas sizes, positions and viewports — are
//! exact rationals (`RatSize`, `Vector`, `Rect`).

use vstd::prelude::*;
use crate::rational::{Rat, frac_add, frac_le};

verus! {

/// A size in whole pixels, used for the measured surface and for design
/// sizes carried by a resolution policy.
#[derive(Clone, Copy, Debug, PartialEq, Eq, Structural)]
pub struct Size {
    pub width: u32,
    pub height: u32,
}

impl Size {
    /// Both axes are strictly positive.
    pub open spec fn positive(self) -> bool {
        self.width > 0 && self.height > 0
    }

    pub fn new(width: u32, height: u32) -> (s: Size)
        ensures
            s.width == width,
            s.height == height,
    {
        Size { width, height }
    }
}

/// A size with exact rational axes.
#[derive(Clone, Copy, Debug, PartialEq, Eq, Structural)]
pub struct RatSize {
    pub width: Rat,
    pub height: Rat,
}

impl RatSize {
    pub open spec fn wf(self) -> bool {
        self.width.wf() && self.height.wf()
    }

    pub fn new(width: Rat, height: Rat) -> (s: RatSize)
        ensures
            s.width == width,
            s.height == height,
    {
        RatSize { width, height }
    }

    /// The rational size equal to a whole-pixel size.
    pub fn of_size(size: Size) -> (s: RatSize)
        ensures
            s.width@ == (size.width as int, 1int),
            s.height@ == (size.height as int, 1int),
            s.wf(),
    {
        RatSize { width: Rat::of_int(size.width as i128), height: Rat::of_int(size.height as i128) }
    }
}

/// A point or per-axis factor with exact rational components; used for
/// positions, origins and scale factors.
#[derive(Clone, Copy, Debug, PartialEq, Eq, Structural)]
pub struct Vector {
    pub x: Rat,
    pub y: Rat,
}

impl Vector {
    pub open spec fn wf(self) -> bool {
        self.x.wf() && self.y.wf()
    }

    pub fn new(x: Rat, y: Rat) -> (v: Vector)
        ensures
            v.x == x,
            v.y == y,
    {
        Vector { x, y }
    }

    /// The origin.
    pub fn zero() -> (v: Vector)
        ensures
            v.x@ == (0int, 1int),
            v.y@ == (0int, 1int),
            v.wf(),
    {
        Vector { x: Rat::of_int(0), y: Rat::of_int(0) }
    }
}

/// An axis-aligned rectangle with exact rational position and size; used
/// for viewports and texture regions.
#[derive(Clone, Copy, Debug, PartialEq, Eq, Structural)]
pub struct Rect {
    pub x: Rat,
    pub y: Rat,
    pub width: Rat,
    pub height: Rat,
}

impl Rect {
    pub open spec fn wf(self) -> bool {
        self.x.wf() && self.y.wf() && self.width.wf() && self.height.wf()
    }

    pub fn new(x: Rat, y: Rat, width: Rat, height: Rat) -> (r: Rect)
        ensures
            r.x == x,
            r.y == y,
            r.width == width,
            r.height == height,
    {
        Rect { x, y, width, height }
    }

    /// The rectangle covering a whole-pixel size, anchored at the origin.
    pub fn of_size(size: Size) -> (r: Rect)
        ensures
            r.x@ == (0int, 1int),
            r.y@ == (0int, 1int),
            r.width@ == (size.width as int, 1int),
            r.height@ == (size.height as int, 1int),
            r.wf(),
    {
        Rect {
            x: Rat::of_int(0),
            y: Rat::of_int(0),
            width: Rat::of_int(size.width as i128),
            height: Rat::of_int(size.height as i128),
        }
    }

    pub fn position(self) -> (p: Vector)
        ensures
            p.x == self.x,
            p.y == self.y,
    {
        Vector { x: self.x, y: self.y }
    }

    pub fn size(self) -> (s: RatSize)
        ensures
            s.width == self.width,
            s.height == self.height,
    {
        RatSize { width: self.width, height: self.height }
    }
}

/// `inner` lies inside `outer`: each edge of `inner` is on or within the
/// corresponding edge of `outer`.
pub open spec fn rect_within(inner: Rect, outer: Rect) -> bool {
    &&& frac_le(outer.x@, inner.x@)
    &&& frac_le(outer.y@, inner.y@)
    &&& frac_le(frac_add(inner.x@, inner.width@), frac_add(outer.x@, outer.width@))
    &&& frac_le(frac_add(inner.y@, inner.height@), frac_add(outer.y@, outer.height@))
}

} // verus!
