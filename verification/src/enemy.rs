//! Enemies: the three archetypes, the fade-in activator that promotes a
//! spawned enemy to a live one, and the per-kind behavior evaluators.

use vstd::prelude::*;

use crate::anim::{AnimationSet, Clip};
use crate::bullet::{Bullet, Faction};
use crate::geom::{Bounds, Extent, Vec2};
use crate::physics::Contacts;
use crate::units::{
    ACCEL_LIMIT, ALPHA_OPAQUE, COORD_LIMIT, DEFAULT_FRAME_TIME, ENEMY_BULLET_HALF_H,
    ENEMY_BULLET_HALF_W, ENEMY_HALF, GRAVITY, JUMPER_FADE, JUMPER_FALL_FRAMES, JUMPER_HALF_HEIGHT,
    JUMPER_HEALTH, JUMPER_IMPULSE, JUMPER_JUMP_CLIP, JUMPER_JUMP_FRAMES, JUMPER_JUMP_FRAME_TIME,
    JUMPER_SPEED, SHOOTER_BULLET_SPEED, SHOOTER_FADE, SHOOTER_FIRE_PERIOD, SHOOTER_HEALTH,
    SHOOTER_SPEED, TIME_LIMIT, WALKER_ACCEL, WALKER_FADE, WALKER_HEALTH,
};

verus! {

/// The closed set of enemy archetypes, with their per-kind data.
#[derive(Clone, Copy, Debug)]
pub enum EnemyKind {
    Walker { accel: i64 },
    Shooter { speed: i64, bullet_speed: i64, fire_elapsed: i64, fire_period: i64 },
    Jumper { impulse: i64, speed: i64 },
}

/// An enemy is either still fading in (visible, not interactive) or live,
/// in which case it carries its physics state.  The promotion from fading
/// to live attaches the whole physics bundle in one step.
#[derive(Clone, Copy, Debug)]
pub enum EnemyPhase {
    Fading { elapsed: i64, duration: i64 },
    Live { vel: Vec2, acc: Vec2, contacts: Contacts },
}

/// One enemy entity.
#[derive(Debug)]
pub struct Enemy {
    pub pos: Vec2,
    pub ext: Extent,
    pub health: u32,
    pub kind: EnemyKind,
    pub phase: EnemyPhase,
    pub anim: Option<AnimationSet>,
    pub flipped: bool,
    /// Opacity in thousandths; fading enemies ramp it from 0 to 1000.
    pub alpha_milli: i64,
    /// The (clip, frame) pair currently shown, for animated enemies.
    pub tex: (usize, usize),
}

/// Validity of the per-kind data.
pub open spec fn kind_wf(k: EnemyKind) -> bool {
    match k {
        EnemyKind::Walker { accel } => 1 <= accel <= ACCEL_LIMIT,
        EnemyKind::Shooter { speed, bullet_speed, fire_elapsed, fire_period } => {
            &&& 1 <= speed <= COORD_LIMIT
            &&& 1 <= bullet_speed <= COORD_LIMIT
            &&& 1 <= fire_period <= TIME_LIMIT
            &&& 0 <= fire_elapsed < fire_period
        },
        EnemyKind::Jumper { impulse, speed } => {
            &&& 1 <= impulse <= COORD_LIMIT
            &&& 1 <= speed <= COORD_LIMIT
        },
    }
}

impl Enemy {
    pub open spec fn wf(self) -> bool {
        &&& self.ext.wf()
        &&& self.health >= 1
        &&& kind_wf(self.kind)
        &&& (self.phase matches EnemyPhase::Fading { elapsed, duration } ==> {
            &&& 1 <= duration <= TIME_LIMIT
            &&& 0 <= elapsed < duration
        })
        &&& (self.anim matches Some(a) ==> a.wf())
        &&& (self.kind is Jumper ==> (self.anim matches Some(a) && a.clips.len() >= 2))
        &&& 0 <= self.alpha_milli <= ALPHA_OPAQUE
    }

    /// The enemy is live and can take part in collisions.
    pub open spec fn live(self) -> bool {
        self.phase is Live
    }
}

/// The mathematical view of an enemy: the animation set replaced by its
/// sequence view, everything else verbatim.
pub struct EnemyView {
    pub pos: Vec2,
    pub ext: Extent,
    pub health: u32,
    pub kind: EnemyKind,
    pub phase: EnemyPhase,
    pub anim: Option<crate::anim::AnimView>,
    pub flipped: bool,
    pub alpha_milli: i64,
    pub tex: (usize, usize),
}

impl View for Enemy {
    type V = EnemyView;

    open spec fn view(&self) -> EnemyView {
        EnemyView {
            pos: self.pos,
            ext: self.ext,
            health: self.health,
            kind: self.kind,
            phase: self.phase,
            anim: match self.anim {
                Some(a) => Some(a@),
                None => None,
            },
            flipped: self.flipped,
            alpha_milli: self.alpha_milli,
            tex: self.tex,
        }
    }
}

/// The views of a whole enemy roster.
pub open spec fn enemy_views(es: Seq<Enemy>) -> Seq<EnemyView> {
    es.map_values(|e: Enemy| e@)
}

/// An enemy after the fade-in activator: the timer advances and the
/// opacity tracks it; on completion the enemy is promoted to live with
/// the physics bundle attached; a live enemy is unchanged.
pub open spec fn faded_enemy(e: EnemyView, dt: int) -> EnemyView {
    match e.phase {
        EnemyPhase::Fading { elapsed, duration } => {
            if elapsed + dt >= duration {
                EnemyView {
                    phase: EnemyPhase::Live {
                        vel: Vec2 { x: 0, y: 0 },
                        acc: Vec2 { x: 0, y: GRAVITY },
                        contacts: Contacts { left: false, bottom: false, right: false, top: false },
                    },
                    alpha_milli: ALPHA_OPAQUE,
                    ..e
                }
            } else {
                EnemyView {
                    phase: EnemyPhase::Fading { elapsed: (elapsed + dt) as i64, duration },
                    alpha_milli: (ALPHA_OPAQUE * (elapsed + dt) / (duration as int)) as i64,
                    ..e
                }
            }
        },
        EnemyPhase::Live { .. } => e,
    }
}

/// A walker after its behavior evaluator.
pub open spec fn walker_behaved(e: EnemyView, px: int) -> EnemyView {
    match e.phase {
        EnemyPhase::Live { vel, acc, contacts } => EnemyView {
            phase: EnemyPhase::Live {
                vel,
                acc: Vec2 {
                    x: (sign_unit(px - e.pos.x) * e.kind->Walker_accel) as i64,
                    y: acc.y,
                },
                contacts,
            },
            ..e
        },
        EnemyPhase::Fading { .. } => e,
    }
}

/// A shooter after its behavior evaluator (its shots are `shooter_shots`).
pub open spec fn shooter_behaved(e: EnemyView, px: int, dt: int) -> EnemyView {
    match e.phase {
        EnemyPhase::Live { vel, acc, contacts } => EnemyView {
            phase: EnemyPhase::Live {
                vel: Vec2 {
                    x: (sign_unit(px - e.pos.x) * e.kind->Shooter_speed) as i64,
                    y: vel.y,
                },
                acc,
                contacts,
            },
            kind: EnemyKind::Shooter {
                speed: e.kind->Shooter_speed,
                bullet_speed: e.kind->Shooter_bullet_speed,
                fire_elapsed: ((e.kind->Shooter_fire_elapsed + dt) % (
                e.kind->Shooter_fire_period as int)) as i64,
                fire_period: e.kind->Shooter_fire_period,
            },
            ..e
        },
        EnemyPhase::Fading { .. } => e,
    }
}

/// The bullets a shooter fires during one update: one per elapsed fire
/// period, all toward the player.
pub open spec fn shooter_shots(e: EnemyView, px: int, dt: int) -> Seq<Bullet> {
    if e.phase is Live && e.kind is Shooter {
        Seq::new(
            ((e.kind->Shooter_fire_elapsed + dt) / (e.kind->Shooter_fire_period as int)) as nat,
            |i: int| shooter_bullet(e.pos, sign_unit(px - e.pos.x), e.kind->Shooter_bullet_speed as int),
        )
    } else {
        Seq::empty()
    }
}

/// The jumper's animation set restarted on its jump clip.
pub open spec fn jump_reset_anim(a: crate::anim::AnimView) -> crate::anim::AnimView {
    crate::anim::AnimView {
        clips: a.clips.update(
            JUMPER_JUMP_CLIP as int,
            Clip { frame: 0, elapsed: 0, ..a.clips[JUMPER_JUMP_CLIP as int] },
        ),
        current: JUMPER_JUMP_CLIP as int,
    }
}

/// A jumper after its behavior evaluator: centerward drift when idle, the
/// upward impulse and the jump clip restart on ground contact.
pub open spec fn jumper_behaved(e: EnemyView, b: Bounds) -> EnemyView {
    match e.phase {
        EnemyPhase::Live { vel, acc, contacts } => {
            let vx = if vel.x == 0 {
                if e.pos.x - b.left < b.right - e.pos.x {
                    e.kind->Jumper_speed as int
                } else {
                    -(e.kind->Jumper_speed as int)
                }
            } else {
                vel.x as int
            };
            let vy = if contacts.bottom {
                e.kind->Jumper_impulse as int
            } else {
                vel.y as int
            };
            EnemyView {
                phase: EnemyPhase::Live {
                    vel: Vec2 { x: vx as i64, y: vy as i64 },
                    acc,
                    contacts,
                },
                anim: if contacts.bottom {
                    match e.anim {
                        Some(a) => Some(jump_reset_anim(a)),
                        None => None,
                    }
                } else {
                    e.anim
                },
                ..e
            }
        },
        EnemyPhase::Fading { .. } => e,
    }
}

/// One enemy after the whole behavior stage: the per-kind evaluator runs
/// only on live enemies, and the two player-seeking kinds degrade to a
/// no-op when no player exists.
pub open spec fn behaved_enemy(e: EnemyView, px: Option<i64>, b: Bounds, dt: int) -> EnemyView {
    if e.phase is Live {
        match e.kind {
            EnemyKind::Walker { .. } => match px {
                Some(x) => walker_behaved(e, x as int),
                None => e,
            },
            EnemyKind::Shooter { .. } => match px {
                Some(x) => shooter_behaved(e, x as int, dt),
                None => e,
            },
            EnemyKind::Jumper { .. } => jumper_behaved(e, b),
        }
    } else {
        e
    }
}

/// The bullets one enemy fires during the behavior stage: nothing without
/// a player, nothing from a fading enemy, and only shooters shoot.
pub open spec fn behavior_shots(e: EnemyView, px: Option<i64>, dt: int) -> Seq<Bullet> {
    match px {
        Some(x) => if e.phase is Live {
            shooter_shots(e, x as int, dt)
        } else {
            Seq::empty()
        },
        None => Seq::empty(),
    }
}

/// An enemy after the integrator.
pub open spec fn integrated_enemy_view(e: EnemyView) -> EnemyView {
    match e.phase {
        EnemyPhase::Live { vel, acc, contacts } => {
            let v = Vec2 { x: (vel.x + acc.x) as i64, y: (vel.y + acc.y) as i64 };
            EnemyView {
                pos: Vec2 { x: (e.pos.x + v.x) as i64, y: (e.pos.y + v.y) as i64 },
                phase: EnemyPhase::Live { vel: v, acc, contacts },
                ..e
            }
        },
        EnemyPhase::Fading { .. } => e,
    }
}

/// An enemy after the boundary resolver.
pub open spec fn resolved_enemy_view(e: EnemyView, b: Bounds) -> EnemyView {
    match e.phase {
        EnemyPhase::Live { vel, acc, contacts } => {
            let hlx = crate::physics::hits_low(e.pos.x as int, e.ext.hx as int, b.left as int, b.right as int);
            let hhx = crate::physics::hits_high(e.pos.x as int, e.ext.hx as int, b.left as int, b.right as int);
            let hly = crate::physics::hits_low(e.pos.y as int, e.ext.hy as int, b.bottom as int, b.top as int);
            let hhy = crate::physics::hits_high(e.pos.y as int, e.ext.hy as int, b.bottom as int, b.top as int);
            EnemyView {
                pos: Vec2 {
                    x: crate::physics::clamped_coord(e.pos.x as int, e.ext.hx as int, b.left as int, b.right as int) as i64,
                    y: crate::physics::clamped_coord(e.pos.y as int, e.ext.hy as int, b.bottom as int, b.top as int) as i64,
                },
                phase: EnemyPhase::Live {
                    vel: Vec2 {
                        x: if hlx || hhx { 0 } else { vel.x },
                        y: if hly || hhy { 0 } else { vel.y },
                    },
                    acc,
                    contacts: Contacts { left: hlx, bottom: hly, right: hhx, top: hhy },
                },
                ..e
            }
        },
        EnemyPhase::Fading { .. } => e,
    }
}

/// An enemy after the animation stage.
pub open spec fn animated_enemy_view(e: EnemyView, dt: int) -> EnemyView {
    match e.anim {
        Some(a) => EnemyView {
            anim: Some(crate::anim::anim_after(a, dt)),
            tex: match crate::anim::tex_after(a, dt, false) {
                Some(t) => t,
                None => e.tex,
            },
            ..e
        },
        None => e,
    }
}

/// An enemy after the facing stage: live enemies derive their flip from
/// the sign of their horizontal velocity.
pub open spec fn faced_enemy(e: EnemyView) -> EnemyView {
    match e.phase {
        EnemyPhase::Live { vel, .. } => EnemyView {
            flipped: crate::anim::flip_after(e.flipped, vel.x as int),
            ..e
        },
        EnemyPhase::Fading { .. } => e,
    }
}

/// The whole roster after the fade-in stage.
pub open spec fn faded_all(es: Seq<EnemyView>, dt: int) -> Seq<EnemyView> {
    es.map_values(|e: EnemyView| faded_enemy(e, dt))
}

/// The whole roster after the behavior stage.
pub open spec fn behaved_all(es: Seq<EnemyView>, px: Option<i64>, b: Bounds, dt: int) -> Seq<
    EnemyView,
> {
    es.map_values(|e: EnemyView| behaved_enemy(e, px, b, dt))
}

/// Every bullet the behavior stage fires, in roster order.
pub open spec fn all_behavior_shots(es: Seq<EnemyView>, px: Option<i64>, dt: int) -> Seq<Bullet>
    decreases es.len(),
{
    if es.len() == 0 {
        Seq::empty()
    } else {
        all_behavior_shots(es.drop_last(), px, dt) + behavior_shots(es.last(), px, dt)
    }
}

/// The whole roster after the integrator.
pub open spec fn integrated_all(es: Seq<EnemyView>) -> Seq<EnemyView> {
    es.map_values(|e: EnemyView| integrated_enemy_view(e))
}

/// The whole roster after the boundary resolver.
pub open spec fn resolved_all(es: Seq<EnemyView>, b: Bounds) -> Seq<EnemyView> {
    es.map_values(|e: EnemyView| resolved_enemy_view(e, b))
}

/// The whole roster after the animation stage.
pub open spec fn animated_all(es: Seq<EnemyView>, dt: int) -> Seq<EnemyView> {
    es.map_values(|e: EnemyView| animated_enemy_view(e, dt))
}

/// The whole roster after the facing stage.
pub open spec fn faced_all(es: Seq<EnemyView>) -> Seq<EnemyView> {
    es.map_values(|e: EnemyView| faced_enemy(e))
}

/// A newly spawned walker, invisible and fading in at `(x, y)`.
pub fn make_walker(x: i64, y: i64) -> (e: Enemy)
    ensures
        e.wf(),
        !e.live(),
        e.pos == (Vec2 { x, y }),
        e.ext == (Extent { hx: ENEMY_HALF, hy: ENEMY_HALF }),
        e.health == WALKER_HEALTH,
        e.kind == (EnemyKind::Walker { accel: WALKER_ACCEL }),
        e.phase == (EnemyPhase::Fading { elapsed: 0, duration: WALKER_FADE }),
        e.alpha_milli == 0,
{
    Enemy {
        pos: Vec2 { x, y },
        ext: Extent { hx: ENEMY_HALF, hy: ENEMY_HALF },
        health: WALKER_HEALTH,
        kind: EnemyKind::Walker { accel: WALKER_ACCEL },
        phase: EnemyPhase::Fading { elapsed: 0, duration: WALKER_FADE },
        anim: None,
        flipped: false,
        alpha_milli: 0,
        tex: (0, 0),
    }
}

/// A newly spawned shooter, invisible and fading in at `(x, y)`.
pub fn make_shooter(x: i64, y: i64) -> (e: Enemy)
    ensures
        e.wf(),
        !e.live(),
        e.pos == (Vec2 { x, y }),
        e.ext == (Extent { hx: ENEMY_HALF, hy: ENEMY_HALF }),
        e.health == SHOOTER_HEALTH,
        e.kind == (EnemyKind::Shooter {
            speed: SHOOTER_SPEED,
            bullet_speed: SHOOTER_BULLET_SPEED,
            fire_elapsed: 0,
            fire_period: SHOOTER_FIRE_PERIOD,
        }),
        e.phase == (EnemyPhase::Fading { elapsed: 0, duration: SHOOTER_FADE }),
        e.alpha_milli == 0,
{
    Enemy {
        pos: Vec2 { x, y },
        ext: Extent { hx: ENEMY_HALF, hy: ENEMY_HALF },
        health: SHOOTER_HEALTH,
        kind: EnemyKind::Shooter {
            speed: SHOOTER_SPEED,
            bullet_speed: SHOOTER_BULLET_SPEED,
            fire_elapsed: 0,
            fire_period: SHOOTER_FIRE_PERIOD,
        },
        phase: EnemyPhase::Fading { elapsed: 0, duration: SHOOTER_FADE },
        anim: None,
        flipped: false,
        alpha_milli: 0,
        tex: (0, 0),
    }
}

/// A newly spawned jumper, invisible and fading in at `(x, y)`, with its
/// falling and jumping clips.
pub fn make_jumper(x: i64, y: i64) -> (e: Enemy)
    ensures
        e.wf(),
        !e.live(),
        e.pos == (Vec2 { x, y }),
        e.ext == (Extent { hx: ENEMY_HALF, hy: JUMPER_HALF_HEIGHT }),
        e.health == JUMPER_HEALTH,
        e.kind == (EnemyKind::Jumper { impulse: JUMPER_IMPULSE, speed: JUMPER_SPEED }),
        e.phase == (EnemyPhase::Fading { elapsed: 0, duration: JUMPER_FADE }),
        e.alpha_milli == 0,
{
    let mut clips: Vec<Clip> = Vec::new();
    clips.push(Clip::new(JUMPER_FALL_FRAMES, DEFAULT_FRAME_TIME, None));
    clips.push(Clip::new(JUMPER_JUMP_FRAMES, JUMPER_JUMP_FRAME_TIME, Some(0)));
    Enemy {
        pos: Vec2 { x, y },
        ext: Extent { hx: ENEMY_HALF, hy: JUMPER_HALF_HEIGHT },
        health: JUMPER_HEALTH,
        kind: EnemyKind::Jumper { impulse: JUMPER_IMPULSE, speed: JUMPER_SPEED },
        phase: EnemyPhase::Fading { elapsed: 0, duration: JUMPER_FADE },
        anim: Some(AnimationSet { clips, current: 0 }),
        flipped: false,
        alpha_milli: 0,
        tex: (0, 0),
    }
}

/// The fade-in activator for one enemy.  While fading, the timer advances
/// and the opacity tracks `elapsed / duration`; when the timer completes,
/// the enemy becomes fully opaque and is promoted to live, atomically
/// gaining zero velocity, gravity, and cleared contact flags.  A live
/// enemy is left untouched.
pub fn fade_in(e: &mut Enemy, dt: i64)
    requires
        old(e).wf(),
        0 <= dt <= TIME_LIMIT,
    ensures
        final(e).wf(),
        final(e)@ == faded_enemy(old(e)@, dt as int),
        old(e).phase is Live ==> *final(e) == *old(e),
        (old(e).phase matches EnemyPhase::Fading { elapsed, duration } ==> {
            if elapsed + dt >= duration {
                &&& final(e).phase == (EnemyPhase::Live {
                    vel: Vec2 { x: 0, y: 0 },
                    acc: Vec2 { x: 0, y: GRAVITY },
                    contacts: Contacts { left: false, bottom: false, right: false, top: false },
                })
                &&& final(e).alpha_milli == ALPHA_OPAQUE
            } else {
                &&& final(e).phase == (EnemyPhase::Fading { elapsed: (elapsed + dt) as i64, duration })
                &&& final(e).alpha_milli == ALPHA_OPAQUE * (elapsed + dt) / (duration as int)
                &&& final(e).alpha_milli < ALPHA_OPAQUE
            }
        }),
        final(e).pos == old(e).pos,
        final(e).ext == old(e).ext,
        final(e).health == old(e).health,
        final(e).kind == old(e).kind,
        final(e).anim == old(e).anim,
        final(e).flipped == old(e).flipped,
        final(e).tex == old(e).tex,
        old(e).live() == final(e).live() || (!old(e).live() && final(e).live()),
{
    match e.phase {
        EnemyPhase::Fading { elapsed, duration } => {
            let now: i64 = elapsed + dt;
            if now >= duration {
                e.alpha_milli = ALPHA_OPAQUE;
                e.phase = EnemyPhase::Live {
                    vel: Vec2 { x: 0, y: 0 },
                    acc: Vec2 { x: 0, y: GRAVITY },
                    contacts: Contacts { left: false, bottom: false, right: false, top: false },
                };
            } else {
                e.alpha_milli = ALPHA_OPAQUE * now / duration;
                e.phase = EnemyPhase::Fading { elapsed: now, duration };
                proof {
                    assert(ALPHA_OPAQUE * now / (duration as int) < ALPHA_OPAQUE) by (nonlinear_arith)
                        requires
                            0 <= now < duration,
                    {}
                    assert(ALPHA_OPAQUE * now / (duration as int) >= 0) by (nonlinear_arith)
                        requires
                            0 <= now,
                            duration >= 1,
                    {}
                }
            }
        },
        EnemyPhase::Live { .. } => {},
    }
}

/// The sign convention of the behavior evaluators: the positive direction
/// wins ties, so an enemy exactly level with the player pushes rightward.
pub open spec fn sign_unit(d: int) -> int {
    if d < 0 {
        -1
    } else {
        1
    }
}

/// The walker chases the player: its horizontal acceleration is set to its
/// accel magnitude, signed toward the player.
pub fn walker_update(e: &mut Enemy, player_x: i64)
    requires
        old(e).wf(),
        old(e).kind is Walker,
        old(e).phase is Live,
        old(e).pos.in_range(),
        -COORD_LIMIT <= player_x <= COORD_LIMIT,
    ensures
        final(e).wf(),
        final(e)@ == walker_behaved(old(e)@, player_x as int),
        (final(e).phase matches EnemyPhase::Live { vel, acc, contacts } ==> {
            &&& old(e).phase matches EnemyPhase::Live { vel: v0, acc: a0, contacts: c0 }
            &&& vel == v0
            &&& contacts == c0
            &&& acc.y == a0.y
            &&& acc.x == sign_unit(player_x - old(e).pos.x) * old(e).kind->Walker_accel
            &&& -ACCEL_LIMIT <= acc.x <= ACCEL_LIMIT
        }),
        final(e).phase is Live,
        final(e).pos == old(e).pos,
        final(e).health == old(e).health,
        final(e).kind == old(e).kind,
        final(e).ext == old(e).ext,
        final(e).anim == old(e).anim,
        final(e).flipped == old(e).flipped,
        final(e).alpha_milli == old(e).alpha_milli,
        final(e).tex == old(e).tex,
{
    let accel: i64 = match e.kind {
        EnemyKind::Walker { accel } => accel,
        _ => 0,
    };
    match e.phase {
        EnemyPhase::Live { vel, acc, contacts } => {
            let ax: i64 = if player_x - e.pos.x < 0 {
                -accel
            } else {
                accel
            };
            e.phase = EnemyPhase::Live { vel, acc: Vec2 { x: ax, y: acc.y }, contacts };
        },
        EnemyPhase::Fading { .. } => {},
    }
}

/// The bullet a shooter fires: it starts at the shooter's position and
/// flies horizontally toward the player at the shooter's bullet speed.
pub open spec fn shooter_bullet(pos: Vec2, dir: int, bullet_speed: int) -> Bullet {
    Bullet {
        pos,
        ext: Extent { hx: ENEMY_BULLET_HALF_W, hy: ENEMY_BULLET_HALF_H },
        vel: Vec2 { x: (dir * bullet_speed) as i64, y: 0 },
        faction: Faction::EnemySide,
        flipped: false,
    }
}

/// The shooter walks toward the player at a fixed speed (set directly on
/// the velocity, not via acceleration) and fires one bullet per elapsed
/// fire period, robust to large `dt` by draining the accumulator in a
/// loop.
pub fn shooter_update(e: &mut Enemy, player_x: i64, dt: i64, out: &mut Vec<Bullet>)
    requires
        old(e).wf(),
        old(e).kind is Shooter,
        old(e).phase is Live,
        old(e).pos.in_range(),
        (old(e).phase matches EnemyPhase::Live { vel, .. } ==> vel.in_range()),
        -COORD_LIMIT <= player_x <= COORD_LIMIT,
        0 <= dt <= TIME_LIMIT,
    ensures
        final(e).wf(),
        final(e)@ == shooter_behaved(old(e)@, player_x as int, dt as int),
        final(out)@ == old(out)@ + shooter_shots(old(e)@, player_x as int, dt as int),
        final(e).phase is Live,
        (final(e).phase matches EnemyPhase::Live { vel, acc, contacts } ==> {
            &&& old(e).phase matches EnemyPhase::Live { vel: v0, acc: a0, contacts: c0 }
            &&& acc == a0
            &&& contacts == c0
            &&& vel.y == v0.y
            &&& vel.x == sign_unit(player_x - old(e).pos.x) * old(e).kind->Shooter_speed
            &&& vel.in_range()
        }),
        final(e).kind == (EnemyKind::Shooter {
            speed: old(e).kind->Shooter_speed,
            bullet_speed: old(e).kind->Shooter_bullet_speed,
            fire_elapsed: ((old(e).kind->Shooter_fire_elapsed + dt) % (old(
                e,
            ).kind->Shooter_fire_period as int)) as i64,
            fire_period: old(e).kind->Shooter_fire_period,
        }),
        final(out)@ == old(out)@ + Seq::new(
            ((old(e).kind->Shooter_fire_elapsed + dt) / (old(e).kind->Shooter_fire_period as int)) as nat,
            |i: int|
                shooter_bullet(
                    old(e).pos,
                    sign_unit(player_x - old(e).pos.x),
                    old(e).kind->Shooter_bullet_speed as int,
                ),
        ),
        final(e).pos == old(e).pos,
        final(e).health == old(e).health,
        final(e).ext == old(e).ext,
        final(e).anim == old(e).anim,
        final(e).flipped == old(e).flipped,
        final(e).alpha_milli == old(e).alpha_milli,
        final(e).tex == old(e).tex,
        forall|k: int|
            old(out)@.len() <= k < final(out)@.len() ==> (#[trigger] final(out)@[k]).wf()
                && final(out)@[k].pos.in_range() && final(out)@[k].vel.in_range(),
{
    let (speed, bullet_speed, fire_elapsed, fire_period): (i64, i64, i64, i64) = match e.kind {
        EnemyKind::Shooter { speed, bullet_speed, fire_elapsed, fire_period } => (
            speed,
            bullet_speed,
            fire_elapsed,
            fire_period,
        ),
        _ => (0, 0, 0, 1),
    };
    let dir_negative: bool = player_x - e.pos.x < 0;
    let vx: i64 = if dir_negative {
        -speed
    } else {
        speed
    };
    match e.phase {
        EnemyPhase::Live { vel, acc, contacts } => {
            e.phase = EnemyPhase::Live { vel: Vec2 { x: vx, y: vel.y }, acc, contacts };
        },
        EnemyPhase::Fading { .. } => {},
    }
    let total: u64 = (fire_elapsed as u64) + (dt as u64);
    let shots: u64 = total / (fire_period as u64);
    let rem: i64 = (total % (fire_period as u64)) as i64;
    e.kind = EnemyKind::Shooter { speed, bullet_speed, fire_elapsed: rem, fire_period };
    let bvx: i64 = if dir_negative {
        -bullet_speed
    } else {
        bullet_speed
    };
    let b: Bullet = Bullet {
        pos: e.pos,
        ext: Extent { hx: ENEMY_BULLET_HALF_W, hy: ENEMY_BULLET_HALF_H },
        vel: Vec2 { x: bvx, y: 0 },
        faction: Faction::EnemySide,
        flipped: false,
    };
    let ghost fired = Seq::new(
        shots as nat,
        |i: int|
            shooter_bullet(
                e.pos,
                sign_unit(player_x - e.pos.x as int),
                bullet_speed as int,
            ),
    );
    let mut i: u64 = 0;
    while i < shots
        invariant
            0 <= i <= shots,
            out@ == old(out)@ + fired.subrange(0, i as int),
            fired == Seq::new(
                shots as nat,
                |j: int| b,
            ),
            b == shooter_bullet(e.pos, sign_unit(player_x - e.pos.x as int), bullet_speed as int),
        decreases shots - i,
    {
        out.push(b);
        i = i + 1;
        proof {
            assert(out@ =~= old(out)@ + fired.subrange(0, i as int));
        }
    }
    proof {
        assert(fired.subrange(0, shots as int) =~= fired);
    }
}

/// The jumper drifts toward the screen center when it has no horizontal
/// motion, and on ground contact launches upward and restarts its jump
/// clip at frame 0.  The impulse fires whenever the bottom contact flag
/// is set; since the jump lifts the body off the floor before the next
/// boundary resolution, this coincides with the flag's rising edge.
pub fn jumper_update(e: &mut Enemy, b: Bounds)
    requires
        old(e).wf(),
        old(e).kind is Jumper,
        old(e).phase is Live,
        old(e).pos.in_range(),
        (old(e).phase matches EnemyPhase::Live { vel, .. } ==> vel.in_range()),
        b.wf(),
    ensures
        final(e).wf(),
        final(e)@ == jumper_behaved(old(e)@, b),
        final(e).phase is Live,
        (final(e).phase matches EnemyPhase::Live { vel, acc, contacts } ==> {
            &&& old(e).phase matches EnemyPhase::Live { vel: v0, acc: a0, contacts: c0 }
            &&& acc == a0
            &&& contacts == c0
            &&& vel.x == (if v0.x == 0 {
                if old(e).pos.x - b.left < b.right - old(e).pos.x {
                    old(e).kind->Jumper_speed as int
                } else {
                    -old(e).kind->Jumper_speed as int
                }
            } else {
                v0.x as int
            })
            &&& vel.y == (if c0.bottom {
                old(e).kind->Jumper_impulse as int
            } else {
                v0.y as int
            })
            &&& vel.in_range()
        }),
        (old(e).phase matches EnemyPhase::Live { contacts: c0, .. } && c0.bottom ==> {
            &&& final(e).anim matches Some(a)
            &&& old(e).anim matches Some(a0)
            &&& a@ == jump_reset_anim(a0@)
        }),
        (old(e).phase matches EnemyPhase::Live { contacts: c0, .. } && !c0.bottom
            ==> final(e).anim == old(e).anim),
        final(e).pos == old(e).pos,
        final(e).health == old(e).health,
        final(e).kind == old(e).kind,
        final(e).ext == old(e).ext,
        final(e).flipped == old(e).flipped,
        final(e).alpha_milli == old(e).alpha_milli,
        final(e).tex == old(e).tex,
{
    let (impulse, speed): (i64, i64) = match e.kind {
        EnemyKind::Jumper { impulse, speed } => (impulse, speed),
        _ => (0, 0),
    };
    match e.phase {
        EnemyPhase::Live { vel, acc, contacts } => {
            let vx: i64 = if vel.x == 0 {
                if e.pos.x - b.left < b.right - e.pos.x {
                    speed
                } else {
                    -speed
                }
            } else {
                vel.x
            };
            let vy: i64 = if contacts.bottom {
                impulse
            } else {
                vel.y
            };
            e.phase = EnemyPhase::Live { vel: Vec2 { x: vx, y: vy }, acc, contacts };
            if contacts.bottom {
                match &mut e.anim {
                    Some(a) => {
                        let jc: Clip = a.clips[JUMPER_JUMP_CLIP];
                        a.clips[JUMPER_JUMP_CLIP] = Clip { frame: 0, elapsed: 0, ..jc };
                        a.current = JUMPER_JUMP_CLIP;
                    },
                    None => {},
                }
            }
        },
        EnemyPhase::Fading { .. } => {},
    }
}

/// The integrator's two sub-steps for one live enemy: the velocity gains
/// the acceleration, then the position gains the new velocity.  A fading
/// enemy has no physics yet and is left untouched.
pub fn enemy_integrate(e: &mut Enemy)
    requires
        old(e).wf(),
        old(e).pos.in_range(),
        (old(e).phase matches EnemyPhase::Live { vel, acc, .. } ==> {
            &&& vel.in_range()
            &&& -ACCEL_LIMIT <= acc.x <= ACCEL_LIMIT
            &&& -ACCEL_LIMIT <= acc.y <= ACCEL_LIMIT
        }),
    ensures
        final(e).wf(),
        final(e)@ == integrated_enemy_view(old(e)@),
        old(e).phase is Fading ==> *final(e) == *old(e),
        (old(e).phase matches EnemyPhase::Live { vel: v0, acc: a0, contacts: c0 } ==> {
            &&& final(e).phase matches EnemyPhase::Live { vel, acc, contacts }
            &&& acc == a0
            &&& contacts == c0
            &&& vel.x == v0.x + a0.x
            &&& vel.y == v0.y + a0.y
            &&& final(e).pos.x == old(e).pos.x + v0.x + a0.x
            &&& final(e).pos.y == old(e).pos.y + v0.y + a0.y
        }),
        final(e).pos.in_wide_range(),
        final(e).ext == old(e).ext,
        final(e).health == old(e).health,
        final(e).kind == old(e).kind,
        final(e).anim == old(e).anim,
        final(e).flipped == old(e).flipped,
        final(e).alpha_milli == old(e).alpha_milli,
        final(e).tex == old(e).tex,
{
    match e.phase {
        EnemyPhase::Live { vel, acc, contacts } => {
            let mut v: Vec2 = vel;
            crate::physics::apply_acceleration(&mut v, acc);
            let mut pos: Vec2 = e.pos;
            crate::physics::apply_velocity(&mut pos, v);
            e.pos = pos;
            e.phase = EnemyPhase::Live { vel: v, acc, contacts };
        },
        EnemyPhase::Fading { .. } => {},
    }
}

/// The boundary resolver for one live enemy: its box is clamped into the
/// camera bounds and its contact flags updated, exactly as
/// `crate::physics::resolve_bounds` specifies.  A fading enemy is left
/// untouched.
pub fn enemy_resolve(e: &mut Enemy, b: Bounds)
    requires
        old(e).wf(),
        old(e).pos.in_wide_range(),
        b.wf(),
    ensures
        final(e).wf(),
        final(e)@ == resolved_enemy_view(old(e)@, b),
        old(e).phase is Fading ==> *final(e) == *old(e),
        (old(e).phase matches EnemyPhase::Live { vel: v0, acc: a0, contacts: c0 } ==> {
            &&& final(e).phase matches EnemyPhase::Live { vel, acc, contacts }
            &&& acc == a0
            &&& final(e).pos.x == crate::physics::clamped_coord(
                old(e).pos.x as int,
                old(e).ext.hx as int,
                b.left as int,
                b.right as int,
            )
            &&& final(e).pos.y == crate::physics::clamped_coord(
                old(e).pos.y as int,
                old(e).ext.hy as int,
                b.bottom as int,
                b.top as int,
            )
            &&& (vel.x == v0.x || vel.x == 0)
            &&& (vel.y == v0.y || vel.y == 0)
            &&& contacts.bottom == crate::physics::hits_low(
                old(e).pos.y as int,
                old(e).ext.hy as int,
                b.bottom as int,
                b.top as int,
            )
            &&& !(contacts.left && contacts.right)
            &&& !(contacts.bottom && contacts.top)
            &&& (b.admits(old(e).ext) ==> b.left <= final(e).pos.x - old(e).ext.hx
                && final(e).pos.x + old(e).ext.hx <= b.right
                && b.bottom <= final(e).pos.y - old(e).ext.hy
                && final(e).pos.y + old(e).ext.hy <= b.top)
        }),
        final(e).pos.in_wide_range(),
        final(e).ext == old(e).ext,
        final(e).health == old(e).health,
        final(e).kind == old(e).kind,
        final(e).anim == old(e).anim,
        final(e).flipped == old(e).flipped,
        final(e).alpha_milli == old(e).alpha_milli,
        final(e).tex == old(e).tex,
{
    match e.phase {
        EnemyPhase::Live { vel, acc, contacts } => {
            let mut pos: Vec2 = e.pos;
            let mut v: Vec2 = vel;
            let mut c: Contacts = contacts;
            crate::physics::resolve_bounds(&mut pos, &mut v, &mut c, e.ext, b);
            e.pos = pos;
            e.phase = EnemyPhase::Live { vel: v, acc, contacts: c };
        },
        EnemyPhase::Fading { .. } => {},
    }
}

/// The animation stage for one enemy: an animated enemy advances its
/// active clip by `dt` and, when the visible texture changes, records the
/// new (clip, frame) pair; an enemy without animations is left untouched.
pub fn enemy_animate(e: &mut Enemy, dt: i64)
    requires
        old(e).wf(),
        0 <= dt <= TIME_LIMIT,
    ensures
        final(e).wf(),
        final(e)@ == animated_enemy_view(old(e)@, dt as int),
        old(e).anim is None ==> *final(e) == *old(e),
        (old(e).anim matches Some(a0) ==> {
            &&& final(e).anim matches Some(a)
            &&& a@ == crate::anim::anim_after(a0@, dt as int)
            &&& final(e).tex == (match crate::anim::tex_after(a0@, dt as int, false) {
                Some(t) => t,
                None => old(e).tex,
            })
        }),
        final(e).pos == old(e).pos,
        final(e).ext == old(e).ext,
        final(e).health == old(e).health,
        final(e).kind == old(e).kind,
        final(e).phase == old(e).phase,
        final(e).flipped == old(e).flipped,
        final(e).alpha_milli == old(e).alpha_milli,
{
    match &mut e.anim {
        Some(a) => {
            let tex = crate::anim::advance(a, dt, false);
            match tex {
                Some(t) => {
                    e.tex = t;
                },
                None => {},
            }
        },
        None => {},
    }
}

} // verus!
