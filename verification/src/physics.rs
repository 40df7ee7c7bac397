//! The physics integrator, the boundary resolver and the free-fall law.
//!
//! Velocities are in 1/60 px/s and positions in 1/3600 px, so over the
//! fixed 1/60 s tick both integration sub-steps are exact integer sums.

use vstd::prelude::*;

use crate::geom::{Bounds, Extent, Vec2};
use crate::units::{ACCEL_LIMIT, COORD_LIMIT, WIDE_LIMIT};

verus! {

/// Which arena edge the entity currently touches, one flag per edge.
/// The two flags of an axis are never both set.
#[derive(Clone, Copy, PartialEq, Eq, Structural, Debug)]
pub struct Contacts {
    pub left: bool,
    pub bottom: bool,
    pub right: bool,
    pub top: bool,
}

/// First integration sub-step: `velocity += acceleration * DT`.  With the
/// crate's units the per-tick velocity change is the acceleration itself.
pub fn apply_acceleration(vel: &mut Vec2, acc: Vec2)
    requires
        old(vel).in_range(),
        -ACCEL_LIMIT <= acc.x <= ACCEL_LIMIT,
        -ACCEL_LIMIT <= acc.y <= ACCEL_LIMIT,
    ensures
        final(vel).x == old(vel).x + acc.x,
        final(vel).y == old(vel).y + acc.y,
{
    vel.x = vel.x + acc.x;
    vel.y = vel.y + acc.y;
}

/// Second integration sub-step: `position += velocity * DT`.  With the
/// crate's units the per-tick displacement is the velocity itself.
pub fn apply_velocity(pos: &mut Vec2, vel: Vec2)
    requires
        old(pos).in_range(),
        -2 * COORD_LIMIT <= vel.x <= 2 * COORD_LIMIT,
        -2 * COORD_LIMIT <= vel.y <= 2 * COORD_LIMIT,
    ensures
        final(pos).x == old(pos).x + vel.x,
        final(pos).y == old(pos).y + vel.y,
{
    pos.x = pos.x + vel.x;
    pos.y = pos.y + vel.y;
}

/// Where a coordinate ends up after the boundary resolver clamps one axis:
/// snapped to the low wall, snapped to the high wall, or left alone.
pub open spec fn clamped_coord(p: int, half: int, lo: int, hi: int) -> int {
    if p - half < lo {
        lo + half
    } else if p + half > hi {
        hi - half
    } else {
        p
    }
}

/// The box pokes past the low wall of the axis.
pub open spec fn hits_low(p: int, half: int, lo: int, hi: int) -> bool {
    p - half < lo
}

/// The box pokes past the high wall of the axis (and not the low one, which
/// is resolved first).
pub open spec fn hits_high(p: int, half: int, lo: int, hi: int) -> bool {
    !(p - half < lo) && p + half > hi
}

/// The boundary resolver for one arena-bound entity.  On each axis
/// independently: if an edge of the box is outside the bounds, snap the box
/// so the edge touches the wall, zero that velocity component and raise the
/// wall's contact flag; otherwise clear both flags of the axis.
///
/// When the box fits between the walls, the resulting box lies entirely
/// inside the bounds — the boundary-confinement guarantee of the resolver.
pub fn resolve_bounds(
    pos: &mut Vec2,
    vel: &mut Vec2,
    contacts: &mut Contacts,
    ext: Extent,
    b: Bounds,
)
    requires
        old(pos).in_wide_range(),
        ext.wf(),
        b.wf(),
    ensures
        final(pos).x == clamped_coord(old(pos).x as int, ext.hx as int, b.left as int, b.right as int),
        final(pos).y == clamped_coord(
            old(pos).y as int,
            ext.hy as int,
            b.bottom as int,
            b.top as int,
        ),
        final(vel).x == if hits_low(old(pos).x as int, ext.hx as int, b.left as int, b.right as int)
            || hits_high(old(pos).x as int, ext.hx as int, b.left as int, b.right as int) {
            0int
        } else {
            old(vel).x as int
        },
        final(vel).y == if hits_low(
            old(pos).y as int,
            ext.hy as int,
            b.bottom as int,
            b.top as int,
        ) || hits_high(old(pos).y as int, ext.hy as int, b.bottom as int, b.top as int) {
            0int
        } else {
            old(vel).y as int
        },
        final(contacts).left == hits_low(
            old(pos).x as int,
            ext.hx as int,
            b.left as int,
            b.right as int,
        ),
        final(contacts).right == hits_high(
            old(pos).x as int,
            ext.hx as int,
            b.left as int,
            b.right as int,
        ),
        final(contacts).bottom == hits_low(
            old(pos).y as int,
            ext.hy as int,
            b.bottom as int,
            b.top as int,
        ),
        final(contacts).top == hits_high(
            old(pos).y as int,
            ext.hy as int,
            b.bottom as int,
            b.top as int,
        ),
        !(final(contacts).left && final(contacts).right),
        !(final(contacts).bottom && final(contacts).top),
        b.admits(ext) ==> b.left <= final(pos).x - ext.hx && final(pos).x + ext.hx <= b.right,
        b.admits(ext) ==> b.bottom <= final(pos).y - ext.hy && final(pos).y + ext.hy <= b.top,
        final(pos).in_wide_range(),
{
    if pos.x - ext.hx < b.left {
        pos.x = b.left + ext.hx;
        vel.x = 0;
        contacts.left = true;
        contacts.right = false;
    } else if pos.x + ext.hx > b.right {
        pos.x = b.right - ext.hx;
        vel.x = 0;
        contacts.left = false;
        contacts.right = true;
    } else {
        contacts.left = false;
        contacts.right = false;
    }
    if pos.y - ext.hy < b.bottom {
        pos.y = b.bottom + ext.hy;
        vel.y = 0;
        contacts.bottom = true;
        contacts.top = false;
    } else if pos.y + ext.hy > b.top {
        pos.y = b.top - ext.hy;
        vel.y = 0;
        contacts.bottom = false;
        contacts.top = true;
    } else {
        contacts.bottom = false;
        contacts.top = false;
    }
}

/// Velocity of a body after `i` ticks of constant acceleration `a`:
/// `v_i = v_0 + i * a * DT`, in velocity units.
pub open spec fn fall_velocity(v0: int, a: int, i: nat) -> int {
    v0 + i * a
}

/// Position after `n` ticks, each tick first applying the acceleration and
/// then moving by the new velocity: the running sum `sum v_i * DT`.
pub open spec fn fall_position(p0: int, v0: int, a: int, n: nat) -> int
    decreases n,
{
    if n == 0 {
        p0
    } else {
        fall_position(p0, v0, a, (n - 1) as nat) + fall_velocity(v0, a, n)
    }
}

/// The free-fall law: after any number of fixed ticks the simulated
/// position equals the closed form of the sum `sum (v_0 + i*a*DT) * DT`,
/// stated multiplied by two to stay in the integers.
pub proof fn lemma_fall_position_closed_form(p0: int, v0: int, a: int, n: nat)
    ensures
        2 * fall_position(p0, v0, a, n) == 2 * p0 + 2 * n * v0 + n * (n + 1) * a,
    decreases n,
{
    if n == 0 {
        assert(2 * n * v0 == 0 && n * (n + 1) * a == 0) by (nonlinear_arith)
            requires
                n == 0,
        {}
    } else {
        lemma_fall_position_closed_form(p0, v0, a, (n - 1) as nat);
        assert(2 * fall_position(p0, v0, a, n) == 2 * p0 + 2 * n * v0 + n * (n + 1) * a) by (nonlinear_arith)
            requires
                2 * fall_position(p0, v0, a, (n - 1) as nat) == 2 * p0 + 2 * (n - 1) * v0 + (n - 1)
                    * n * a,
                fall_position(p0, v0, a, n) == fall_position(p0, v0, a, (n - 1) as nat) + v0 + n
                    * a,
                n >= 1,
        {}
    }
}

/// Runs the two integration sub-steps for `n` ticks on a single axis — a
/// free-falling body — and is proved to land exactly on `fall_position`.
pub fn free_fall(p0: i64, v0: i64, a: i64, n: u32) -> (p: i64)
    requires
        -COORD_LIMIT <= p0 <= COORD_LIMIT,
        -0x4000_0000 <= v0 <= 0x4000_0000,
        -0x10_0000 <= a <= 0x10_0000,
        n <= 0x10_0000,
    ensures
        p == fall_position(p0 as int, v0 as int, a as int, n as nat),
{
    let mut p: i64 = p0;
    let mut v: i64 = v0;
    let mut i: u32 = 0;
    while i < n
        invariant
            0 <= i <= n,
            -COORD_LIMIT <= p0 <= COORD_LIMIT,
            -0x4000_0000 <= v0 <= 0x4000_0000,
            -0x10_0000 <= a <= 0x10_0000,
            n <= 0x10_0000,
            v == fall_velocity(v0 as int, a as int, i as nat),
            p == fall_position(p0 as int, v0 as int, a as int, i as nat),
            -0x104_0000_0000 <= v <= 0x104_0000_0000,
            -COORD_LIMIT - i * 0x104_0000_0000 <= p <= COORD_LIMIT + i * 0x104_0000_0000,
        decreases n - i,
    {
        v = v + a;
        i = i + 1;
        proof {
            assert(v == fall_velocity(v0 as int, a as int, i as nat)) by (nonlinear_arith)
                requires
                    v == fall_velocity(v0 as int, a as int, (i - 1) as nat) + a,
                    i >= 1,
            {}
            assert(-0x100_0000_0000 <= i * a <= 0x100_0000_0000) by (nonlinear_arith)
                requires
                    0 <= i <= 0x10_0000,
                    -0x10_0000 <= a <= 0x10_0000,
            {}
        }
        p = p + v;
    }
    p
}

} // verus!
