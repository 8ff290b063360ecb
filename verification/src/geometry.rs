//! Plain integer vectors and axis-aligned boxes, in milli-units.

use crate::num::clamp_spec;
use vstd::prelude::*;

verus! {

/// The largest coordinate magnitude an axis-aligned box may carry. Boxes are
/// derived values (redraw regions), so their range is wider than the range of
/// input coordinates.
pub const AABB_LIMIT: i64 = 1_000_000_000_000_000;

/// A two-dimensional vector or point, in thousandths of a document unit.
#[derive(Clone, Copy, Debug, PartialEq, Eq, Structural)]
pub struct Vec2 {
    pub x: i64,
    pub y: i64,
}

impl Vec2 {
    /// Both components lie within `[-limit, limit]`.
    pub open spec fn in_range(self, limit: i64) -> bool {
        -limit <= self.x <= limit && -limit <= self.y <= limit
    }

    /// Component-wise clamp into `[-limit, limit]`.
    pub fn clamped(self, limit: i64) -> (r: Vec2)
        requires
            limit >= 0,
        ensures
            r.x == clamp_spec(self.x as int, -limit as int, limit as int),
            r.y == clamp_spec(self.y as int, -limit as int, limit as int),
            r.in_range(limit),
    {
        Vec2 {
            x: crate::num::clamp_i64(self.x, -limit, limit),
            y: crate::num::clamp_i64(self.y, -limit, limit),
        }
    }
}

/// An axis-aligned bounding box given by its two extreme corners.
#[derive(Clone, Copy, Debug, PartialEq, Eq, Structural)]
pub struct Aabb {
    pub mins: Vec2,
    pub maxs: Vec2,
}

impl Aabb {
    /// The corners are ordered and lie within the box coordinate range.
    pub open spec fn wf(self) -> bool {
        &&& self.mins.x <= self.maxs.x
        &&& self.mins.y <= self.maxs.y
        &&& self.mins.in_range(AABB_LIMIT)
        &&& self.maxs.in_range(AABB_LIMIT)
    }

    /// The box spanned by two arbitrary corners, normalized per axis.
    pub open spec fn new_positive_spec(a: Vec2, b: Vec2) -> Aabb {
        Aabb {
            mins: Vec2 {
                x: if a.x <= b.x {
                    a.x
                } else {
                    b.x
                },
                y: if a.y <= b.y {
                    a.y
                } else {
                    b.y
                },
            },
            maxs: Vec2 {
                x: if a.x <= b.x {
                    b.x
                } else {
                    a.x
                },
                y: if a.y <= b.y {
                    b.y
                } else {
                    a.y
                },
            },
        }
    }

    /// The smallest box containing both arguments.
    pub open spec fn merged_spec(self, other: Aabb) -> Aabb {
        Aabb {
            mins: Vec2 {
                x: if self.mins.x <= other.mins.x {
                    self.mins.x
                } else {
                    other.mins.x
                },
                y: if self.mins.y <= other.mins.y {
                    self.mins.y
                } else {
                    other.mins.y
                },
            },
            maxs: Vec2 {
                x: if self.maxs.x >= other.maxs.x {
                    self.maxs.x
                } else {
                    other.maxs.x
                },
                y: if self.maxs.y >= other.maxs.y {
                    self.maxs.y
                } else {
                    other.maxs.y
                },
            },
        }
    }

    /// The box grown by `margin` on every side, clamped to the coordinate
    /// range.
    pub open spec fn extend_by_spec(self, margin: i64) -> Aabb {
        Aabb {
            mins: Vec2 {
                x: crate::num::clamp_spec(
                    self.mins.x - margin,
                    -AABB_LIMIT as int,
                    AABB_LIMIT as int,
                ) as i64,
                y: crate::num::clamp_spec(
                    self.mins.y - margin,
                    -AABB_LIMIT as int,
                    AABB_LIMIT as int,
                ) as i64,
            },
            maxs: Vec2 {
                x: crate::num::clamp_spec(
                    self.maxs.x + margin,
                    -AABB_LIMIT as int,
                    AABB_LIMIT as int,
                ) as i64,
                y: crate::num::clamp_spec(
                    self.maxs.y + margin,
                    -AABB_LIMIT as int,
                    AABB_LIMIT as int,
                ) as i64,
            },
        }
    }

    /// The box spanned by two arbitrary corners, normalized so that `mins`
    /// really is the smaller corner on each axis.
    pub fn new_positive(a: Vec2, b: Vec2) -> (r: Aabb)
        requires
            a.in_range(AABB_LIMIT),
            b.in_range(AABB_LIMIT),
        ensures
            r.wf(),
            r == Aabb::new_positive_spec(a, b),
    {
        Aabb {
            mins: Vec2 {
                x: if a.x <= b.x { a.x } else { b.x },
                y: if a.y <= b.y { a.y } else { b.y },
            },
            maxs: Vec2 {
                x: if a.x <= b.x { b.x } else { a.x },
                y: if a.y <= b.y { b.y } else { a.y },
            },
        }
    }

    /// The box around a single point.
    pub fn from_point(p: Vec2) -> (r: Aabb)
        requires
            p.in_range(AABB_LIMIT),
        ensures
            r.wf(),
            r.mins == p,
            r.maxs == p,
    {
        Aabb { mins: p, maxs: p }
    }

    /// The smallest box containing both `self` and `other`.
    pub fn merged(self, other: Aabb) -> (r: Aabb)
        requires
            self.wf(),
            other.wf(),
        ensures
            r.wf(),
            r == self.merged_spec(other),
    {
        Aabb {
            mins: Vec2 {
                x: if self.mins.x <= other.mins.x { self.mins.x } else { other.mins.x },
                y: if self.mins.y <= other.mins.y { self.mins.y } else { other.mins.y },
            },
            maxs: Vec2 {
                x: if self.maxs.x >= other.maxs.x { self.maxs.x } else { other.maxs.x },
                y: if self.maxs.y >= other.maxs.y { self.maxs.y } else { other.maxs.y },
            },
        }
    }

    /// The box grown by `margin` on every side. The result is clamped to the
    /// box coordinate range, so a well-formed box stays well-formed.
    pub fn extend_by(self, margin: i64) -> (r: Aabb)
        requires
            self.wf(),
            0 <= margin <= AABB_LIMIT,
        ensures
            r.wf(),
            r == self.extend_by_spec(margin),
    {
        Aabb {
            mins: Vec2 {
                x: crate::num::clamp_i64(self.mins.x - margin, -AABB_LIMIT, AABB_LIMIT),
                y: crate::num::clamp_i64(self.mins.y - margin, -AABB_LIMIT, AABB_LIMIT),
            },
            maxs: Vec2 {
                x: crate::num::clamp_i64(self.maxs.x + margin, -AABB_LIMIT, AABB_LIMIT),
                y: crate::num::clamp_i64(self.maxs.y + margin, -AABB_LIMIT, AABB_LIMIT),
            },
        }
    }
}

} // verus!
