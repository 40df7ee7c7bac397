//! Planar vectors, bounding-box extents, camera bounds, and the
//! axis-aligned overlap test that combat and culling are built on.

use vstd::prelude::*;

use crate::units::{COORD_LIMIT, EXTENT_LIMIT, WIDE_LIMIT};

verus! {

/// A planar vector; the unit depends on use (position or velocity units).
#[derive(Clone, Copy, PartialEq, Eq, Structural, Debug)]
pub struct Vec2 {
    pub x: i64,
    pub y: i64,
}

/// Half-extents of an entity's axis-aligned bounding box, in position units.
#[derive(Clone, Copy, PartialEq, Eq, Structural, Debug)]
pub struct Extent {
    pub hx: i64,
    pub hy: i64,
}

/// The camera bounds rectangle, in world position units.
#[derive(Clone, Copy, PartialEq, Eq, Structural, Debug)]
pub struct Bounds {
    pub left: i64,
    pub bottom: i64,
    pub right: i64,
    pub top: i64,
}

impl Vec2 {
    /// The vector is small enough for a tick's sums not to overflow.
    pub open spec fn in_range(self) -> bool {
        &&& -COORD_LIMIT <= self.x <= COORD_LIMIT
        &&& -COORD_LIMIT <= self.y <= COORD_LIMIT
    }

    /// A looser bound met by every intermediate position of a tick (after
    /// integration, before the resolver clamps), still far from overflow.
    pub open spec fn in_wide_range(self) -> bool {
        &&& -WIDE_LIMIT <= self.x <= WIDE_LIMIT
        &&& -WIDE_LIMIT <= self.y <= WIDE_LIMIT
    }
}

impl Extent {
    pub open spec fn wf(self) -> bool {
        &&& 1 <= self.hx <= EXTENT_LIMIT
        &&& 1 <= self.hy <= EXTENT_LIMIT
    }
}

impl Bounds {
    pub open spec fn wf(self) -> bool {
        &&& -COORD_LIMIT <= self.left < self.right <= COORD_LIMIT
        &&& -COORD_LIMIT <= self.bottom < self.top <= COORD_LIMIT
    }

    /// A box of half-extents `ext` fits between the walls on both axes.
    pub open spec fn admits(self, ext: Extent) -> bool {
        &&& 2 * ext.hx <= self.right - self.left
        &&& 2 * ext.hy <= self.top - self.bottom
    }
}

/// Two axis-aligned boxes overlap: their centers are strictly closer than
/// the sum of their half-extents on both axes.
pub open spec fn overlaps(pa: Vec2, ea: Extent, pb: Vec2, eb: Extent) -> bool {
    &&& abs_val(pa.x - pb.x) < ea.hx + eb.hx
    &&& abs_val(pa.y - pb.y) < ea.hy + eb.hy
}

/// Absolute value of a mathematical integer.
pub open spec fn abs_val(v: int) -> int {
    if v < 0 {
        -v
    } else {
        v
    }
}

/// A box lies entirely outside the bounds: no overlap on either axis.
pub open spec fn fully_outside(p: Vec2, e: Extent, b: Bounds) -> bool {
    ||| p.x + e.hx < b.left
    ||| p.y + e.hy < b.bottom
    ||| p.x - e.hx > b.right
    ||| p.y - e.hy > b.top
}

/// The axis-aligned box overlap test of the combat resolver.
pub fn aabb_overlap(pa: Vec2, ea: Extent, pb: Vec2, eb: Extent) -> (r: bool)
    requires
        pa.in_wide_range(),
        pb.in_wide_range(),
        ea.wf(),
        eb.wf(),
    ensures
        r == overlaps(pa, ea, pb, eb),
{
    let dx: i64 = if pa.x >= pb.x {
        pa.x - pb.x
    } else {
        pb.x - pa.x
    };
    let dy: i64 = if pa.y >= pb.y {
        pa.y - pb.y
    } else {
        pb.y - pa.y
    };
    dx < ea.hx + eb.hx && dy < ea.hy + eb.hy
}

/// The off-screen test of the culler: true when the whole box is outside.
pub fn box_fully_outside(p: Vec2, e: Extent, b: Bounds) -> (r: bool)
    requires
        p.in_wide_range(),
        e.wf(),
        b.wf(),
    ensures
        r == fully_outside(p, e, b),
{
    p.x + e.hx < b.left || p.y + e.hy < b.bottom || p.x - e.hx > b.right || p.y - e.hy > b.top
}

} // verus!
