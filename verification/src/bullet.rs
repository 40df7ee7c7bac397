//! Bullets: transient projectiles tagged with the faction that fired them.

use vstd::prelude::*;

use crate::geom::{Extent, Vec2};

verus! {

/// Who fired a bullet; it determines the valid collision targets.
#[derive(Clone, Copy, PartialEq, Eq, Structural, Debug)]
pub enum Faction {
    PlayerSide,
    EnemySide,
}

/// A projectile: no health, culled when it fully leaves the camera bounds.
#[derive(Clone, Copy, PartialEq, Eq, Structural, Debug)]
pub struct Bullet {
    pub pos: Vec2,
    pub ext: Extent,
    pub vel: Vec2,
    pub faction: Faction,
    pub flipped: bool,
}

impl Bullet {
    pub open spec fn wf(self) -> bool {
        self.ext.wf()
    }
}

/// A bullet after the integrator: moved by its velocity, nothing else.
pub open spec fn integrated_bullet(b: Bullet) -> Bullet {
    Bullet { pos: Vec2 { x: (b.pos.x + b.vel.x) as i64, y: (b.pos.y + b.vel.y) as i64 }, ..b }
}

/// A bullet after the facing stage: enemy bullets derive their flip from
/// the sign of their velocity; player bullets are not flip-tagged.
pub open spec fn faced_bullet(b: Bullet) -> Bullet {
    if b.faction is EnemySide {
        Bullet { flipped: crate::anim::flip_after(b.flipped, b.vel.x as int), ..b }
    } else {
        b
    }
}

/// All bullets after the integrator.
pub open spec fn integrated_bullets_all(bs: Seq<Bullet>) -> Seq<Bullet> {
    bs.map_values(|b: Bullet| integrated_bullet(b))
}

/// All bullets after the facing stage.
pub open spec fn faced_bullets_all(bs: Seq<Bullet>) -> Seq<Bullet> {
    bs.map_values(|b: Bullet| faced_bullet(b))
}

} // verus!
