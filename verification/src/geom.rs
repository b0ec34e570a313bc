//! Integer coordinate types for the node-local coordinate space.
//!
//! Points, sizes, offsets and rectangles are plain integer records; all
//! well-formed coordinates fit comfortably inside `i64`, so every geometric
//! computation in the core is exact and free of overflow.

use vstd::prelude::*;

verus! {

/// Bound on well-formed coordinates and extents.
pub const COORD_LIMIT: i64 = 2147483648;

/// `v` clamped into the well-formed extent range `[0, COORD_LIMIT]`.
pub open spec fn spec_cap(v: int) -> i64 {
    if v > COORD_LIMIT {
        COORD_LIMIT
    } else if v < 0 {
        0
    } else {
        v as i64
    }
}

pub fn cap(v: i64) -> (r: i64)
    ensures
        r == spec_cap(v as int),
{
    if v > COORD_LIMIT {
        COORD_LIMIT
    } else if v < 0 {
        0
    } else {
        v
    }
}

/// A position in a node-local coordinate space.
#[derive(Clone, Copy, Debug, PartialEq, Eq, Structural)]
pub struct LocalPoint {
    pub x: i64,
    pub y: i64,
}

/// An extent; well-formed sizes are non-negative.
#[derive(Clone, Copy, Debug, PartialEq, Eq, Structural)]
pub struct LocalSize {
    pub width: i64,
    pub height: i64,
}

/// A translation, e.g. a gesture delta or a composition offset.
#[derive(Clone, Copy, Debug, PartialEq, Eq, Structural)]
pub struct LocalOffset {
    pub x: i64,
    pub y: i64,
}

/// An axis-aligned rectangle: an origin and an extent.
#[derive(Clone, Copy, Debug, PartialEq, Eq, Structural)]
pub struct LocalRect {
    pub origin: LocalPoint,
    pub size: LocalSize,
}

impl LocalPoint {
    pub open spec fn wf(self) -> bool {
        -COORD_LIMIT <= self.x <= COORD_LIMIT && -COORD_LIMIT <= self.y <= COORD_LIMIT
    }

    pub fn zero() -> (r: LocalPoint)
        ensures
            r == (LocalPoint { x: 0, y: 0 }),
    {
        LocalPoint { x: 0, y: 0 }
    }

    /// The translation that carries `other` onto `self`.
    pub fn offset_from(&self, other: &LocalPoint) -> (r: LocalOffset)
        requires
            self.wf(),
            other.wf(),
        ensures
            r.x == self.x - other.x,
            r.y == self.y - other.y,
            r.wf(),
    {
        LocalOffset { x: self.x - other.x, y: self.y - other.y }
    }
}

impl LocalSize {
    pub open spec fn wf(self) -> bool {
        0 <= self.width <= COORD_LIMIT && 0 <= self.height <= COORD_LIMIT
    }

    pub fn zero() -> (r: LocalSize)
        ensures
            r == (LocalSize { width: 0, height: 0 }),
    {
        LocalSize { width: 0, height: 0 }
    }

    pub fn new(width: i64, height: i64) -> (r: LocalSize)
        ensures
            r == (LocalSize { width, height }),
    {
        LocalSize { width, height }
    }
}

impl LocalOffset {
    pub open spec fn wf(self) -> bool {
        -2 * COORD_LIMIT <= self.x <= 2 * COORD_LIMIT && -2 * COORD_LIMIT <= self.y <= 2
            * COORD_LIMIT
    }

    pub fn zero() -> (r: LocalOffset)
        ensures
            r == (LocalOffset { x: 0, y: 0 }),
    {
        LocalOffset { x: 0, y: 0 }
    }
}

impl LocalRect {
    pub open spec fn wf(self) -> bool {
        self.origin.wf() && self.size.wf()
    }

    /// Whether `p` falls inside the rectangle (inclusive lower edge,
    /// exclusive upper edge).
    pub open spec fn spec_contains(self, p: LocalPoint) -> bool {
        &&& self.origin.x <= p.x < self.origin.x + self.size.width
        &&& self.origin.y <= p.y < self.origin.y + self.size.height
    }

    pub fn zero() -> (r: LocalRect)
        ensures
            r == (LocalRect {
                origin: LocalPoint { x: 0, y: 0 },
                size: LocalSize { width: 0, height: 0 },
            }),
    {
        LocalRect { origin: LocalPoint { x: 0, y: 0 }, size: LocalSize { width: 0, height: 0 } }
    }

    pub fn new(origin: LocalPoint, size: LocalSize) -> (r: LocalRect)
        ensures
            r == (LocalRect { origin, size }),
    {
        LocalRect { origin, size }
    }

    pub fn contains(&self, p: &LocalPoint) -> (r: bool)
        requires
            self.wf(),
            p.wf(),
        ensures
            r == self.spec_contains(*p),
    {
        self.origin.x <= p.x && p.x < self.origin.x + self.size.width && self.origin.y <= p.y
            && p.y < self.origin.y + self.size.height
    }

    /// The centre of the rectangle, rounded toward the origin.
    pub open spec fn spec_center(self) -> LocalPoint {
        LocalPoint {
            x: (self.origin.x + self.size.width / 2) as i64,
            y: (self.origin.y + self.size.height / 2) as i64,
        }
    }

    pub fn center(&self) -> (r: LocalPoint)
        requires
            self.wf(),
        ensures
            r == self.spec_center(),
            r.x == self.origin.x + self.size.width / 2,
            r.y == self.origin.y + self.size.height / 2,
    {
        LocalPoint {
            x: self.origin.x + self.size.width / 2,
            y: self.origin.y + self.size.height / 2,
        }
    }
}

} // verus!
