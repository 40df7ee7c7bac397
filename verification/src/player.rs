//! The player: movement and variable-height jumping from sampled key
//! state, aiming and shooting, and the damage / invincibility state
//! machine with its re-entrancy lock.

use vstd::prelude::*;

use crate::anim::{AnimationSet, Clip};
use crate::bullet::{Bullet, Faction};
use crate::geom::{Bounds, Extent, Vec2};
use crate::physics::Contacts;
use crate::units::{
    ACCEL_LIMIT, ALPHA_OPAQUE, COORD_LIMIT, DEFAULT_FRAME_TIME, GRAVITY, PLAYER_BULLET_HALF,
    PLAYER_BULLET_SPEED, PLAYER_BULLET_SPEED_DIAGONAL, PLAYER_FLASH_PERIOD, PLAYER_HALF,
    PLAYER_HEALTH_MAX, PLAYER_INVINCIBILITY, PLAYER_JUMP_SPEED, PLAYER_MOVE_CLIP,
    PLAYER_MOVE_FRAMES, PLAYER_MOVE_FRAME_TIME, PLAYER_SPEED, PLAYER_STAND_CLIP,
    PLAYER_STAND_FRAMES, PLAYER_START_X, PLAYER_START_Y, TIME_LIMIT,
};

verus! {

/// The key state sampled once at tick start: four directions, the held
/// jump key, and the rising edge of the fire key.
#[derive(Clone, Copy, PartialEq, Eq, Structural, Debug)]
pub struct InputState {
    pub left: bool,
    pub down: bool,
    pub right: bool,
    pub up: bool,
    pub jump: bool,
    pub fire: bool,
}

impl InputState {
    /// No key active.
    pub fn idle() -> (i: InputState)
        ensures
            i == (InputState {
                left: false,
                down: false,
                right: false,
                up: false,
                jump: false,
                fire: false,
            }),
    {
        InputState { left: false, down: false, right: false, up: false, jump: false, fire: false }
    }
}

/// The player entity and its whole state machine.
#[derive(Debug)]
pub struct Player {
    pub pos: Vec2,
    pub ext: Extent,
    pub vel: Vec2,
    pub acc: Vec2,
    pub contacts: Contacts,
    pub health: u32,
    /// Damage waiting to be applied; combat sets it, the state machine
    /// consumes or discards it.
    pub pending_damage: u32,
    pub inv_elapsed: i64,
    pub inv_duration: i64,
    pub speed: i64,
    /// Aim direction, each component in {-1, 0, 1}, never both zero.
    pub aim_x: i64,
    pub aim_y: i64,
    /// Last nonzero horizontal direction, -1 or 1.
    pub facing: i64,
    pub flipped: bool,
    pub alpha_milli: i64,
    pub anim: AnimationSet,
    /// The (clip, frame) pair currently shown.
    pub tex: (usize, usize),
}

impl Player {
    pub open spec fn wf(self) -> bool {
        &&& self.ext.wf()
        &&& self.health <= PLAYER_HEALTH_MAX
        &&& self.pending_damage <= 1
        &&& 1 <= self.inv_duration <= TIME_LIMIT
        &&& 0 <= self.inv_elapsed <= 2 * TIME_LIMIT
        &&& 1 <= self.speed <= COORD_LIMIT
        &&& (self.aim_x == -1 || self.aim_x == 0 || self.aim_x == 1)
        &&& (self.aim_y == -1 || self.aim_y == 0 || self.aim_y == 1)
        &&& !(self.aim_x == 0 && self.aim_y == 0)
        &&& (self.facing == -1 || self.facing == 1)
        &&& self.anim.wf()
        &&& self.anim.clips.len() >= 2
        &&& 0 <= self.alpha_milli <= ALPHA_OPAQUE
    }

    /// The player is still within the invincibility window opened by the
    /// last damage application: no new damage may land.
    pub open spec fn invincible(self) -> bool {
        self.inv_elapsed < self.inv_duration
    }

    /// A freshly spawned player: full health, standing on the floor,
    /// aiming right, invincibility already expired.
    pub fn new_run() -> (p: Player)
        ensures
            p.wf(),
            initial_player(p),
    {
        let mut clips: Vec<Clip> = Vec::new();
        clips.push(Clip::new(PLAYER_STAND_FRAMES, DEFAULT_FRAME_TIME, None));
        clips.push(Clip::new(PLAYER_MOVE_FRAMES, PLAYER_MOVE_FRAME_TIME, None));
        proof {
            assert(clips@ =~= seq![
                Clip {
                    frames: PLAYER_STAND_FRAMES,
                    frame_time: DEFAULT_FRAME_TIME,
                    next: None,
                    frame: 0,
                    elapsed: 0,
                },
                Clip {
                    frames: PLAYER_MOVE_FRAMES,
                    frame_time: PLAYER_MOVE_FRAME_TIME,
                    next: None,
                    frame: 0,
                    elapsed: 0,
                },
            ]);
        }
        Player {
            pos: Vec2 { x: PLAYER_START_X, y: PLAYER_START_Y },
            ext: Extent { hx: PLAYER_HALF, hy: PLAYER_HALF },
            vel: Vec2 { x: 0, y: 0 },
            acc: Vec2 { x: 0, y: GRAVITY },
            contacts: Contacts { left: false, bottom: false, right: false, top: false },
            health: PLAYER_HEALTH_MAX,
            pending_damage: 0,
            inv_elapsed: PLAYER_INVINCIBILITY,
            inv_duration: PLAYER_INVINCIBILITY,
            speed: PLAYER_SPEED,
            aim_x: 1,
            aim_y: 0,
            facing: 1,
            flipped: false,
            alpha_milli: ALPHA_OPAQUE,
            anim: AnimationSet { clips, current: PLAYER_STAND_CLIP },
            tex: (PLAYER_STAND_CLIP, 0),
        }
    }
}

/// The whole starting state of a run's player: at (960, 64) px with full
/// health, no pending damage, run speed 768 px/s, aiming and facing right,
/// gravity attached, at rest, fully opaque, all contact flags clear, the
/// invincibility window (3 s) already expired so damage can apply at once,
/// and the standing / moving clips fresh with the standing one active.
pub open spec fn initial_player(p: Player) -> bool {
    &&& p.pos == (Vec2 { x: PLAYER_START_X, y: PLAYER_START_Y })
    &&& p.ext == (Extent { hx: PLAYER_HALF, hy: PLAYER_HALF })
    &&& p.vel == (Vec2 { x: 0, y: 0 })
    &&& p.acc == (Vec2 { x: 0, y: GRAVITY })
    &&& p.contacts == (Contacts { left: false, bottom: false, right: false, top: false })
    &&& p.health == PLAYER_HEALTH_MAX
    &&& p.pending_damage == 0
    &&& p.inv_elapsed == PLAYER_INVINCIBILITY
    &&& p.inv_duration == PLAYER_INVINCIBILITY
    &&& !p.invincible()
    &&& p.speed == PLAYER_SPEED
    &&& p.aim_x == 1
    &&& p.aim_y == 0
    &&& p.facing == 1
    &&& !p.flipped
    &&& p.alpha_milli == ALPHA_OPAQUE
    &&& p.anim@ == (crate::anim::AnimView {
        clips: seq![
            Clip {
                frames: PLAYER_STAND_FRAMES,
                frame_time: DEFAULT_FRAME_TIME,
                next: None,
                frame: 0,
                elapsed: 0,
            },
            Clip {
                frames: PLAYER_MOVE_FRAMES,
                frame_time: PLAYER_MOVE_FRAME_TIME,
                next: None,
                frame: 0,
                elapsed: 0,
            },
        ],
        current: PLAYER_STAND_CLIP as int,
    })
    &&& p.tex == (PLAYER_STAND_CLIP, 0usize)
}

/// The horizontal component of the 8-directional input, in {-1, 0, 1}.
pub open spec fn dir_x_of(i: InputState) -> int {
    (if i.right {
        1int
    } else {
        0int
    }) - (if i.left {
        1int
    } else {
        0int
    })
}

/// The vertical component of the 8-directional input, in {-1, 0, 1}.
pub open spec fn dir_y_of(i: InputState) -> int {
    (if i.up {
        1int
    } else {
        0int
    }) - (if i.down {
        1int
    } else {
        0int
    })
}

/// Movement command interpretation: horizontal velocity follows the input
/// direction at run speed; the aim vector tracks the input when any
/// direction is held and otherwise falls back to the last horizontal
/// facing; jumping is allowed only with ground contact, and releasing the
/// jump key while airborne and still ascending cuts the jump short.
pub fn movement(p: &mut Player, input: InputState)
    requires
        old(p).wf(),
    ensures
        final(p).wf(),
        *final(p) == moved_player(*old(p), input),
        final(p).vel.x == dir_x_of(input) * old(p).speed,
        -COORD_LIMIT <= final(p).vel.x <= COORD_LIMIT,
        final(p).aim_x == (if dir_x_of(input) != 0 || dir_y_of(input) != 0 {
            dir_x_of(input)
        } else {
            old(p).facing as int
        }),
        final(p).aim_y == dir_y_of(input),
        final(p).facing == (if dir_x_of(input) != 0 {
            dir_x_of(input)
        } else {
            old(p).facing as int
        }),
        final(p).vel.y == (if input.jump && old(p).contacts.bottom {
            PLAYER_JUMP_SPEED as int
        } else if !input.jump && !old(p).contacts.bottom && old(p).vel.y > 0 {
            0int
        } else {
            old(p).vel.y as int
        }),
        final(p).pos == old(p).pos,
        final(p).acc == old(p).acc,
        final(p).contacts == old(p).contacts,
        final(p).health == old(p).health,
        final(p).pending_damage == old(p).pending_damage,
        final(p).inv_elapsed == old(p).inv_elapsed,
        final(p).inv_duration == old(p).inv_duration,
        final(p).anim == old(p).anim,
        final(p).alpha_milli == old(p).alpha_milli,
        final(p).tex == old(p).tex,
{
    let dx: i64 = (if input.right {
        1i64
    } else {
        0i64
    }) - (if input.left {
        1i64
    } else {
        0i64
    });
    let dy: i64 = (if input.up {
        1i64
    } else {
        0i64
    }) - (if input.down {
        1i64
    } else {
        0i64
    });
    p.vel.x = if dx == 1 {
        p.speed
    } else if dx == -1 {
        -p.speed
    } else {
        0
    };
    if dx != 0 || dy != 0 {
        p.aim_x = dx;
    } else {
        p.aim_x = p.facing;
    }
    if dx != 0 {
        p.facing = dx;
    }
    p.aim_y = dy;
    proof {
        let d = dir_x_of(input);
        let s = old(p).speed as int;
        assert((d == 1 ==> d * s == s) && (d == -1 ==> d * s == -s) && (d == 0 ==> d * s == 0))
            by (nonlinear_arith)
        {}
    }
    if input.jump && p.contacts.bottom {
        p.vel.y = PLAYER_JUMP_SPEED;
    } else if !input.jump && !p.contacts.bottom && p.vel.y > 0 {
        p.vel.y = 0;
    }
}

/// The clip the player should show: moving whenever there is horizontal
/// velocity, standing otherwise.  Returns true when the active clip was
/// switched, so the caller can force a texture refresh.
pub fn select_clip(p: &mut Player) -> (switched: bool)
    requires
        old(p).wf(),
    ensures
        final(p).wf(),
        final(p).anim.current == (if old(p).vel.x == 0 {
            PLAYER_STAND_CLIP as int
        } else {
            PLAYER_MOVE_CLIP as int
        }),
        switched == (final(p).anim.current != old(p).anim.current),
        final(p).anim.clips == old(p).anim.clips,
        *final(p) == (Player { anim: final(p).anim, ..*old(p) }),
{
    if p.vel.x == 0 && p.anim.current != PLAYER_STAND_CLIP {
        p.anim.current = PLAYER_STAND_CLIP;
        true
    } else if p.vel.x != 0 && p.anim.current != PLAYER_MOVE_CLIP {
        p.anim.current = PLAYER_MOVE_CLIP;
        true
    } else {
        false
    }
}

/// The velocity of a player bullet fired along aim `(ax, ay)`: full speed
/// on an axis-aligned aim, the diagonal per-component speed otherwise.
pub open spec fn aim_bullet_vel(ax: int, ay: int) -> Vec2 {
    if ax != 0 && ay != 0 {
        Vec2 {
            x: (ax * PLAYER_BULLET_SPEED_DIAGONAL) as i64,
            y: (ay * PLAYER_BULLET_SPEED_DIAGONAL) as i64,
        }
    } else {
        Vec2 { x: (ax * PLAYER_BULLET_SPEED) as i64, y: (ay * PLAYER_BULLET_SPEED) as i64 }
    }
}

/// On the rising edge of the fire key, a player bullet leaves from the
/// player's position along the aim vector; a zero aim vector would have no
/// direction and is suppressed rather than normalized.
pub fn shoot(p: &Player, fire: bool) -> (b: Option<Bullet>)
    requires
        p.wf(),
    ensures
        b == shot_of(*p, fire),
        (b matches Some(bl) ==> bl.wf() && bl.pos == p.pos && bl.vel.in_range()),
        b == (if fire && !(p.aim_x == 0 && p.aim_y == 0) {
            Some(
                Bullet {
                    pos: p.pos,
                    ext: Extent { hx: PLAYER_BULLET_HALF, hy: PLAYER_BULLET_HALF },
                    vel: aim_bullet_vel(p.aim_x as int, p.aim_y as int),
                    faction: Faction::PlayerSide,
                    flipped: false,
                },
            )
        } else {
            None::<Bullet>
        }),
{
    if fire && !(p.aim_x == 0 && p.aim_y == 0) {
        let vel: Vec2 = if p.aim_x != 0 && p.aim_y != 0 {
            Vec2 {
                x: p.aim_x * PLAYER_BULLET_SPEED_DIAGONAL,
                y: p.aim_y * PLAYER_BULLET_SPEED_DIAGONAL,
            }
        } else {
            Vec2 { x: p.aim_x * PLAYER_BULLET_SPEED, y: p.aim_y * PLAYER_BULLET_SPEED }
        };
        Some(
            Bullet {
                pos: p.pos,
                ext: Extent { hx: PLAYER_BULLET_HALF, hy: PLAYER_BULLET_HALF },
                vel,
                faction: Faction::PlayerSide,
                flipped: false,
            },
        )
    } else {
        None
    }
}

/// The damage-application step of the player state machine, as a value.
/// Pending damage lands only when the invincibility timer has fully
/// elapsed; it then either wounds (restarting the timer at 0) or kills.
pub open spec fn damage_applied(p: Player) -> Player {
    if p.pending_damage > 0 && p.inv_elapsed >= p.inv_duration {
        if p.health > p.pending_damage {
            Player { health: (p.health - p.pending_damage) as u32, inv_elapsed: 0, ..p }
        } else {
            Player { health: 0, ..p }
        }
    } else {
        p
    }
}

/// Whether the damage-application step kills the player.
pub open spec fn damage_kills(p: Player) -> bool {
    p.pending_damage > 0 && p.inv_elapsed >= p.inv_duration && p.health <= p.pending_damage
}

/// Applies pending damage, gated by the invincibility window.  Returns
/// true exactly when the player dies of it; the caller despawns the player
/// and requests the game-over transition.  While `invincible()`, health
/// never changes here — the re-entrancy lock on damage.
pub fn apply_damage(p: &mut Player) -> (dead: bool)
    requires
        old(p).wf(),
    ensures
        final(p).wf(),
        *final(p) == damage_applied(*old(p)),
        dead == damage_kills(*old(p)),
        old(p).invincible() ==> final(p).health == old(p).health && !dead,
{
    if p.pending_damage > 0 && p.inv_elapsed >= p.inv_duration {
        if p.health > p.pending_damage {
            p.health = p.health - p.pending_damage;
            p.inv_elapsed = 0;
            false
        } else {
            p.health = 0;
            true
        }
    } else {
        false
    }
}

/// The opacity of the invincibility flash: a triangle wave of period
/// `PLAYER_FLASH_PERIOD` ramping 1 -> 0 -> 1 in thousandths, fully
/// transparent exactly at the half-period.
pub open spec fn flash_alpha(now: int) -> int {
    let m = (now % (PLAYER_FLASH_PERIOD as int)) * ALPHA_OPAQUE / (PLAYER_FLASH_PERIOD as int);
    if m < 500 {
        ALPHA_OPAQUE - 2 * m
    } else {
        2 * m - ALPHA_OPAQUE
    }
}

/// The invincibility-timer step of the player state machine, as a value.
/// While running, the timer advances and modulates the opacity; on expiry
/// the pending damage accumulated during the window is discarded and the
/// opacity snaps back to fully opaque.
pub open spec fn inv_ticked(p: Player, dt: int) -> Player {
    if p.inv_elapsed < p.inv_duration {
        if p.inv_elapsed + dt >= p.inv_duration {
            Player {
                inv_elapsed: (p.inv_elapsed + dt) as i64,
                pending_damage: 0,
                alpha_milli: ALPHA_OPAQUE,
                ..p
            }
        } else {
            Player {
                inv_elapsed: (p.inv_elapsed + dt) as i64,
                alpha_milli: flash_alpha(p.inv_elapsed + dt) as i64,
                ..p
            }
        }
    } else {
        p
    }
}

/// Advances the invincibility timer by `dt`.
pub fn invincibility_tick(p: &mut Player, dt: i64)
    requires
        old(p).wf(),
        0 <= dt <= TIME_LIMIT,
    ensures
        final(p).wf(),
        *final(p) == inv_ticked(*old(p), dt as int),
{
    if p.inv_elapsed < p.inv_duration {
        let now: i64 = p.inv_elapsed + dt;
        if now >= p.inv_duration {
            p.inv_elapsed = now;
            p.pending_damage = 0;
            p.alpha_milli = ALPHA_OPAQUE;
        } else {
            p.inv_elapsed = now;
            let m: i64 = now % PLAYER_FLASH_PERIOD * ALPHA_OPAQUE / PLAYER_FLASH_PERIOD;
            proof {
                assert(0 <= ((now as int) % (PLAYER_FLASH_PERIOD as int)) * ALPHA_OPAQUE / (
                PLAYER_FLASH_PERIOD as int) < ALPHA_OPAQUE) by (nonlinear_arith)
                    requires
                        0 <= (now as int) % (PLAYER_FLASH_PERIOD as int) < PLAYER_FLASH_PERIOD,
                {}
            }
            p.alpha_milli = if m < 500 {
                ALPHA_OPAQUE - 2 * m
            } else {
                2 * m - ALPHA_OPAQUE
            };
        }
    }
}

/// Overwrites the pending damage, as the combat resolver does on a hit.
pub open spec fn with_pending(p: Player, pend: u32) -> Player {
    Player { pending_damage: pend, ..p }
}

/// One whole tick seen by the damage machinery: combat may set pending
/// damage, the state machine tries to apply it, then the timer advances.
pub open spec fn window_step(p: Player, pend: u32, dt: int) -> Player {
    inv_ticked(damage_applied(with_pending(p, pend)), dt)
}

/// The state after the first `n` such ticks.
pub open spec fn window_steps(p: Player, pends: Seq<u32>, dts: Seq<int>, n: nat) -> Player
    decreases n,
{
    if n == 0 {
        p
    } else {
        window_step(
            window_steps(p, pends, dts, (n - 1) as nat),
            pends[n - 1],
            dts[n - 1],
        )
    }
}

/// Sum of the first `n` time deltas.
pub open spec fn time_sum(dts: Seq<int>, n: nat) -> int
    decreases n,
{
    if n == 0 {
        0
    } else {
        time_sum(dts, (n - 1) as nat) + dts[n - 1]
    }
}

/// The re-entrancy lock on damage: from a state inside the invincibility
/// window, no sequence of overlapping hits — in one tick or across
/// consecutive ticks — changes the player's health while the total elapsed
/// time stays short of the window's duration.
pub proof fn lemma_no_second_damage_in_window(p: Player, pends: Seq<u32>, dts: Seq<int>, n: nat)
    requires
        p.invincible(),
        n <= dts.len(),
        n <= pends.len(),
        forall|i: int| 0 <= i < n ==> 0 <= #[trigger] dts[i],
        p.inv_elapsed + time_sum(dts, n) < p.inv_duration,
    ensures
        window_steps(p, pends, dts, n).health == p.health,
        window_steps(p, pends, dts, n).invincible(),
        window_steps(p, pends, dts, n).inv_elapsed == p.inv_elapsed + time_sum(dts, n),
        window_steps(p, pends, dts, n).inv_duration == p.inv_duration,
    decreases n,
{
    if n == 0 {
    } else {
        lemma_time_sum_monotonic(dts, (n - 1) as nat);
        lemma_no_second_damage_in_window(p, pends, dts, (n - 1) as nat);
    }
}

/// Time deltas are non-negative, so partial sums only grow.
pub proof fn lemma_time_sum_monotonic(dts: Seq<int>, n: nat)
    requires
        n < dts.len(),
        forall|i: int| 0 <= i <= n ==> 0 <= #[trigger] dts[i],
    ensures
        time_sum(dts, n) <= time_sum(dts, (n + 1) as nat),
        time_sum(dts, n) >= 0,
    decreases n,
{
    if n > 0 {
        lemma_time_sum_monotonic(dts, (n - 1) as nat);
    }
}

/// The player after movement-command interpretation, as a value.
pub open spec fn moved_player(p: Player, input: InputState) -> Player {
    Player {
        vel: Vec2 {
            x: (dir_x_of(input) * p.speed) as i64,
            y: if input.jump && p.contacts.bottom {
                PLAYER_JUMP_SPEED
            } else if !input.jump && !p.contacts.bottom && p.vel.y > 0 {
                0
            } else {
                p.vel.y
            },
        },
        aim_x: if dir_x_of(input) != 0 || dir_y_of(input) != 0 {
            dir_x_of(input) as i64
        } else {
            p.facing
        },
        aim_y: dir_y_of(input) as i64,
        facing: if dir_x_of(input) != 0 {
            dir_x_of(input) as i64
        } else {
            p.facing
        },
        ..p
    }
}

/// The bullet a shot produces, as a value: fired only on the fire edge
/// and only with a nonzero aim vector.
pub open spec fn shot_of(p: Player, fire: bool) -> Option<Bullet> {
    if fire && !(p.aim_x == 0 && p.aim_y == 0) {
        Some(
            Bullet {
                pos: p.pos,
                ext: Extent { hx: PLAYER_BULLET_HALF, hy: PLAYER_BULLET_HALF },
                vel: aim_bullet_vel(p.aim_x as int, p.aim_y as int),
                faction: Faction::PlayerSide,
                flipped: false,
            },
        )
    } else {
        None
    }
}

/// The player after the integrator, as a value.
pub open spec fn integrated_player(p: Player) -> Player {
    let v = Vec2 { x: (p.vel.x + p.acc.x) as i64, y: (p.vel.y + p.acc.y) as i64 };
    Player { vel: v, pos: Vec2 { x: (p.pos.x + v.x) as i64, y: (p.pos.y + v.y) as i64 }, ..p }
}

/// The player after the boundary resolver, as a value.
pub open spec fn resolved_player(p: Player, b: Bounds) -> Player {
    let hlx = crate::physics::hits_low(p.pos.x as int, p.ext.hx as int, b.left as int, b.right as int);
    let hhx = crate::physics::hits_high(p.pos.x as int, p.ext.hx as int, b.left as int, b.right as int);
    let hly = crate::physics::hits_low(p.pos.y as int, p.ext.hy as int, b.bottom as int, b.top as int);
    let hhy = crate::physics::hits_high(p.pos.y as int, p.ext.hy as int, b.bottom as int, b.top as int);
    Player {
        pos: Vec2 {
            x: crate::physics::clamped_coord(p.pos.x as int, p.ext.hx as int, b.left as int, b.right as int) as i64,
            y: crate::physics::clamped_coord(p.pos.y as int, p.ext.hy as int, b.bottom as int, b.top as int) as i64,
        },
        vel: Vec2 {
            x: if hlx || hhx { 0 } else { p.vel.x },
            y: if hly || hhy { 0 } else { p.vel.y },
        },
        contacts: Contacts { left: hlx, bottom: hly, right: hhx, top: hhy },
        ..p
    }
}

/// The clip the selector picks from the player's horizontal velocity.
pub open spec fn selected_clip(p: Player) -> int {
    if p.vel.x == 0 {
        PLAYER_STAND_CLIP as int
    } else {
        PLAYER_MOVE_CLIP as int
    }
}

/// The player's animation view after the animation stage.
pub open spec fn player_anim_after(p: Player, dt: int) -> crate::anim::AnimView {
    crate::anim::anim_after(
        crate::anim::AnimView { clips: p.anim.clips@, current: selected_clip(p) },
        dt,
    )
}

/// The (clip, frame) pair the player shows after the animation stage.
pub open spec fn player_tex_after(p: Player, dt: int) -> (usize, usize) {
    let s1 = crate::anim::AnimView { clips: p.anim.clips@, current: selected_clip(p) };
    match crate::anim::tex_after(s1, dt, selected_clip(p) != p.anim.current) {
        Some(t) => t,
        None => p.tex,
    }
}

/// The integrator's two sub-steps for the player.
pub fn player_integrate(p: &mut Player)
    requires
        old(p).wf(),
        old(p).pos.in_range(),
        old(p).vel.in_range(),
        -ACCEL_LIMIT <= old(p).acc.x <= ACCEL_LIMIT,
        -ACCEL_LIMIT <= old(p).acc.y <= ACCEL_LIMIT,
    ensures
        final(p).wf(),
        *final(p) == integrated_player(*old(p)),
        final(p).vel.x == old(p).vel.x + old(p).acc.x,
        final(p).vel.y == old(p).vel.y + old(p).acc.y,
        final(p).pos.x == old(p).pos.x + old(p).vel.x + old(p).acc.x,
        final(p).pos.y == old(p).pos.y + old(p).vel.y + old(p).acc.y,
        final(p).pos.in_wide_range(),
        *final(p) == (Player { pos: final(p).pos, vel: final(p).vel, ..*old(p) }),
{
    let mut v: Vec2 = p.vel;
    crate::physics::apply_acceleration(&mut v, p.acc);
    p.vel = v;
    let mut pos: Vec2 = p.pos;
    crate::physics::apply_velocity(&mut pos, v);
    p.pos = pos;
}

/// The boundary resolver for the player, exactly as
/// `crate::physics::resolve_bounds` specifies.
pub fn player_resolve(p: &mut Player, b: Bounds)
    requires
        old(p).wf(),
        old(p).pos.in_wide_range(),
        b.wf(),
    ensures
        final(p).wf(),
        *final(p) == resolved_player(*old(p), b),
        final(p).pos.x == crate::physics::clamped_coord(
            old(p).pos.x as int,
            old(p).ext.hx as int,
            b.left as int,
            b.right as int,
        ),
        final(p).pos.y == crate::physics::clamped_coord(
            old(p).pos.y as int,
            old(p).ext.hy as int,
            b.bottom as int,
            b.top as int,
        ),
        (final(p).vel.x == old(p).vel.x || final(p).vel.x == 0),
        (final(p).vel.y == old(p).vel.y || final(p).vel.y == 0),
        final(p).contacts.bottom == crate::physics::hits_low(
            old(p).pos.y as int,
            old(p).ext.hy as int,
            b.bottom as int,
            b.top as int,
        ),
        b.admits(old(p).ext) ==> b.left <= final(p).pos.x - old(p).ext.hx
            && final(p).pos.x + old(p).ext.hx <= b.right
            && b.bottom <= final(p).pos.y - old(p).ext.hy
            && final(p).pos.y + old(p).ext.hy <= b.top,
        final(p).pos.in_wide_range(),
        *final(p) == (Player {
            pos: final(p).pos,
            vel: final(p).vel,
            contacts: final(p).contacts,
            ..*old(p)
        }),
{
    let mut pos: Vec2 = p.pos;
    let mut v: Vec2 = p.vel;
    let mut c: Contacts = p.contacts;
    crate::physics::resolve_bounds(&mut pos, &mut v, &mut c, p.ext, b);
    p.pos = pos;
    p.vel = v;
    p.contacts = c;
}

/// The animation stage for the player: the clip selector picks standing
/// or moving from the horizontal velocity, the frame machine advances by
/// `dt` (with a forced refresh when the clip was switched), and the
/// visible (clip, frame) pair is recorded when it changes.
pub fn animate(p: &mut Player, dt: i64)
    requires
        old(p).wf(),
        0 <= dt <= TIME_LIMIT,
    ensures
        final(p).wf(),
        ({
            let sel = if old(p).vel.x == 0 {
                PLAYER_STAND_CLIP as int
            } else {
                PLAYER_MOVE_CLIP as int
            };
            let switched = sel != old(p).anim.current;
            let s1 = crate::anim::AnimView { clips: old(p).anim.clips@, current: sel };
            &&& final(p).anim@ == crate::anim::anim_after(s1, dt as int)
            &&& final(p).tex == player_tex_after(*old(p), dt as int)
        }),
        *final(p) == (Player { anim: final(p).anim, tex: final(p).tex, ..*old(p) }),
{
    let switched: bool = select_clip(p);
    let tex = crate::anim::advance(&mut p.anim, dt, switched);
    match tex {
        Some(t) => {
            p.tex = t;
        },
        None => {},
    }
}

} // verus!
