//! The spawn director: a difficulty ramp that spawns a weighted-random
//! enemy archetype each time its accumulator passes the current interval,
//! then multiplies the interval by the decay ratio, never dropping below
//! the configured floor.

use vstd::prelude::*;

use rand::Rng;

use crate::enemy::{make_jumper, make_shooter, make_walker, Enemy, EnemyKind, EnemyPhase};
use crate::geom::{Bounds, Extent};
use crate::units::{
    ENEMY_HALF, JUMPER_FADE, JUMPER_HALF_HEIGHT, JUMPER_HEALTH, JUMPER_IMPULSE, JUMPER_SPEED,
    SHOOTER_BULLET_SPEED, SHOOTER_FADE, SHOOTER_FIRE_PERIOD, SHOOTER_HEALTH, SHOOTER_SPEED,
    SPAWN_DECAY_DEN, SPAWN_DECAY_NUM, SPAWN_INTERVAL_FLOOR, SPAWN_INTERVAL_START, TIME_LIMIT,
    WALKER_ACCEL, WALKER_FADE, WALKER_HEALTH,
};

verus! {

/// The spawn director's state: an elapsed-time accumulator and the current
/// interval, which decays toward (and never below) a fixed floor.
#[derive(Clone, Copy, PartialEq, Eq, Structural, Debug)]
pub struct SpawnDirector {
    pub elapsed: i64,
    pub interval: i64,
    pub floor: i64,
}

impl SpawnDirector {
    pub open spec fn wf(self) -> bool {
        &&& 1 <= self.floor <= self.interval <= TIME_LIMIT
        &&& 0 <= self.elapsed < self.interval
    }

    /// The director at the start of a run: 7.5 s between spawns, decaying
    /// by 2.5% per spawn toward a 0.5 s floor.
    pub fn new_run() -> (d: SpawnDirector)
        ensures
            d == (SpawnDirector {
                elapsed: 0,
                interval: SPAWN_INTERVAL_START,
                floor: SPAWN_INTERVAL_FLOOR,
            }),
            d.wf(),
    {
        SpawnDirector { elapsed: 0, interval: SPAWN_INTERVAL_START, floor: SPAWN_INTERVAL_FLOOR }
    }
}

/// The interval after one spawn: multiplied by the decay ratio and clamped
/// to the floor from below.
pub open spec fn decayed_interval(interval: int, floor: int) -> int {
    let shrunk = interval * (SPAWN_DECAY_NUM as int) / (SPAWN_DECAY_DEN as int);
    if shrunk >= floor {
        shrunk
    } else {
        floor
    }
}

/// The decayed interval stays between the floor and the old interval, and
/// strictly shrinks while it is above the floor.  This is the shape of the
/// difficulty ramp: non-increasing, bounded below by the floor.
pub proof fn lemma_decay_bounds(interval: int, floor: int)
    requires
        1 <= floor <= interval,
    ensures
        floor <= decayed_interval(interval, floor) <= interval,
        interval > floor ==> decayed_interval(interval, floor) < interval,
{
    assert(interval * (SPAWN_DECAY_NUM as int) / (SPAWN_DECAY_DEN as int) < interval) by (nonlinear_arith)
        requires
            interval >= 1,
    {}
    assert(interval * (SPAWN_DECAY_NUM as int) / (SPAWN_DECAY_DEN as int) >= 0) by (nonlinear_arith)
        requires
            interval >= 1,
    {}
}

/// The floor is a fixed point: once the interval has reached it, further
/// spawns leave it unchanged.
pub proof fn lemma_floor_is_fixed_point(floor: int)
    requires
        1 <= floor,
    ensures
        decayed_interval(floor, floor) == floor,
{
    lemma_decay_bounds(floor, floor);
}

/// The interval after `k` spawns.
pub open spec fn interval_after(k: nat, interval: int, floor: int) -> int
    decreases k,
{
    if k == 0 {
        interval
    } else {
        decayed_interval(interval_after((k - 1) as nat, interval, floor), floor)
    }
}

/// The spawn-interval sequence is non-increasing, never below the floor,
/// and reaches the floor exactly after at most `interval - floor` spawns,
/// staying there for good: it converges to, and never drops below, the
/// configured floor.
pub proof fn lemma_interval_converges_to_floor(k: nat, interval: int, floor: int)
    requires
        1 <= floor <= interval,
    ensures
        floor <= interval_after(k, interval, floor) <= interval,
        k >= interval - floor ==> interval_after(k, interval, floor) == floor,
        interval_after((k + 1) as nat, interval, floor) <= interval_after(k, interval, floor),
    decreases k,
{
    if k == 0 {
        lemma_decay_bounds(interval, floor);
    } else {
        lemma_interval_converges_to_floor((k - 1) as nat, interval, floor);
        let prev = interval_after((k - 1) as nat, interval, floor);
        lemma_decay_bounds(prev, floor);
        lemma_decay_bounds(interval_after(k, interval, floor), floor);
        if k >= interval - floor {
            if prev > floor {
                // while above the floor the interval shrinks by at least one
                // per spawn, so after `interval - floor` spawns it is there
                lemma_interval_strictly_descends((k - 1) as nat, interval, floor);
            } else {
                lemma_floor_is_fixed_point(floor);
            }
        }
    }
}

/// While the interval has not reached the floor it loses at least one time
/// unit per spawn, which bounds how long the ramp can stay above the floor.
pub proof fn lemma_interval_strictly_descends(k: nat, interval: int, floor: int)
    requires
        1 <= floor <= interval,
    ensures
        interval_after(k, interval, floor) <= interval - k || interval_after(k, interval, floor)
            == floor,
    decreases k,
{
    if k == 0 {
    } else {
        lemma_interval_strictly_descends((k - 1) as nat, interval, floor);
        lemma_interval_converges_to_floor((k - 1) as nat, interval, floor);
        let prev = interval_after((k - 1) as nat, interval, floor);
        lemma_decay_bounds(prev, floor);
        if prev == floor {
            lemma_floor_is_fixed_point(floor);
        }
    }
}

/// The deterministic part of one director update: the accumulator gains
/// `dt`, then each time it covers the current interval one enemy is
/// spawned, the interval is subtracted and then decays.  Returns the
/// elapsed and interval left, and how many enemies were spawned.
pub open spec fn director_after(elapsed: int, interval: int, floor: int) -> (int, int, nat)
    decreases elapsed,
{
    if 1 <= floor <= interval && elapsed >= interval {
        let r = director_after(elapsed - interval, decayed_interval(interval, floor), floor);
        (r.0, r.1, (r.2 + 1) as nat)
    } else {
        (elapsed, interval, 0nat)
    }
}

/// A random number drawn uniformly from the inclusive range `[lo, hi]`.
///
/// Relies on `rand::Rng::gen_range` of the process-wide `thread_rng`,
/// which panics only on an empty range and otherwise returns a value of
/// the range.
#[verifier::external_body]
fn random_in_range(lo: i64, hi: i64) -> (r: i64)
    requires
        lo <= hi,
    ensures
        lo <= r <= hi,
{
    rand::thread_rng().gen_range(lo..=hi)
}

/// A freshly spawned walker: the common, weak chaser.
pub open spec fn walker_spawn(e: Enemy) -> bool {
    &&& e.kind == (EnemyKind::Walker { accel: WALKER_ACCEL })
    &&& e.health == WALKER_HEALTH
    &&& e.phase == (EnemyPhase::Fading { elapsed: 0, duration: WALKER_FADE })
    &&& e.ext == (Extent { hx: ENEMY_HALF, hy: ENEMY_HALF })
}

/// A freshly spawned shooter: tougher, walks and fires every two seconds.
pub open spec fn shooter_spawn(e: Enemy) -> bool {
    &&& e.kind == (EnemyKind::Shooter {
        speed: SHOOTER_SPEED,
        bullet_speed: SHOOTER_BULLET_SPEED,
        fire_elapsed: 0,
        fire_period: SHOOTER_FIRE_PERIOD,
    })
    &&& e.health == SHOOTER_HEALTH
    &&& e.phase == (EnemyPhase::Fading { elapsed: 0, duration: SHOOTER_FADE })
    &&& e.ext == (Extent { hx: ENEMY_HALF, hy: ENEMY_HALF })
}

/// A freshly spawned jumper: the rare, toughest kind, tall and bouncing.
pub open spec fn jumper_spawn(e: Enemy) -> bool {
    &&& e.kind == (EnemyKind::Jumper { impulse: JUMPER_IMPULSE, speed: JUMPER_SPEED })
    &&& e.health == JUMPER_HEALTH
    &&& e.phase == (EnemyPhase::Fading { elapsed: 0, duration: JUMPER_FADE })
    &&& e.ext == (Extent { hx: ENEMY_HALF, hy: JUMPER_HALF_HEIGHT })
}

/// The archetype weights: rolls 1..=15 give a walker, 16..=19 a shooter
/// and 20 a jumper, each with its full per-kind stats; the closed sum has
/// no other archetype.
pub fn spawn_for_roll(roll: i64, x: i64, y: i64) -> (e: Enemy)
    requires
        1 <= roll <= 20,
    ensures
        e.wf(),
        !e.live(),
        e.pos.x == x,
        e.pos.y == y,
        1 <= roll <= 15 ==> walker_spawn(e),
        16 <= roll <= 19 ==> shooter_spawn(e),
        roll == 20 ==> jumper_spawn(e),
        e.alpha_milli == 0,
        e.phase matches EnemyPhase::Fading { elapsed, .. } && elapsed == 0,
{
    if roll <= 15 {
        make_walker(x, y)
    } else if roll <= 19 {
        make_shooter(x, y)
    } else {
        make_jumper(x, y)
    }
}

/// A freshly spawned enemy is acceptable: fading in from zero opacity,
/// one of the three archetypes with its exact per-kind stats, and placed
/// so that the camera bounds inset by its own half-extents contain it
/// entirely.
pub open spec fn valid_spawn(e: Enemy, b: Bounds) -> bool {
    &&& e.wf()
    &&& !e.live()
    &&& (walker_spawn(e) || shooter_spawn(e) || jumper_spawn(e))
    &&& e.alpha_milli == 0
    &&& b.left + e.ext.hx <= e.pos.x <= b.right - e.ext.hx
    &&& b.bottom + e.ext.hy <= e.pos.y <= b.top - e.ext.hy
}

/// The camera bounds leave room to place any archetype fully on screen.
pub open spec fn spawn_area_ok(b: Bounds) -> bool {
    &&& b.wf()
    &&& b.right - b.left >= 2 * ENEMY_HALF
    &&& b.top - b.bottom >= 2 * JUMPER_HALF_HEIGHT
}

/// One update of the spawn director.  The accumulator and interval evolve
/// exactly as `director_after` says — in particular several enemies spawn
/// in one update after a long hitch — and every spawned enemy is appended
/// to `out` as a fading-in archetype placed fully inside the bounds.
pub fn run_director(d: &mut SpawnDirector, dt: i64, b: Bounds, out: &mut Vec<Enemy>)
    requires
        old(d).wf(),
        0 <= dt <= TIME_LIMIT,
        spawn_area_ok(b),
    ensures
        final(d).wf(),
        final(d).floor == old(d).floor,
        ({
            let r = director_after(old(d).elapsed + dt, old(d).interval as int, old(d).floor as int);
            &&& final(d).elapsed == r.0
            &&& final(d).interval == r.1
            &&& final(out)@.len() == old(out)@.len() + r.2
        }),
        final(out)@.subrange(0, old(out)@.len() as int) == old(out)@,
        forall|i: int|
            old(out)@.len() <= i < final(out)@.len() ==> valid_spawn(#[trigger] final(out)@[i], b),
{
    let ghost orig_out = out@;
    d.elapsed = d.elapsed + dt;
    while d.elapsed >= d.interval
        invariant
            1 <= d.floor <= d.interval <= TIME_LIMIT,
            0 <= d.elapsed,
            d.floor == old(d).floor,
            spawn_area_ok(b),
            ({
                let r = director_after(
                    old(d).elapsed + dt,
                    old(d).interval as int,
                    old(d).floor as int,
                );
                let r2 = director_after(d.elapsed as int, d.interval as int, d.floor as int);
                &&& r.0 == r2.0
                &&& r.1 == r2.1
                &&& r.2 == r2.2 + out@.len() - orig_out.len()
            }),
            out@.subrange(0, orig_out.len() as int) == orig_out,
            out@.len() >= orig_out.len(),
            forall|i: int|
                orig_out.len() <= i < out@.len() ==> valid_spawn(#[trigger] out@[i], b),
        decreases d.elapsed,
    {
        let roll: i64 = random_in_range(1, 20);
        let (hx, hy): (i64, i64) = if roll == 20 {
            (ENEMY_HALF, JUMPER_HALF_HEIGHT)
        } else {
            (ENEMY_HALF, ENEMY_HALF)
        };
        let x: i64 = random_in_range(b.left + hx, b.right - hx);
        let y: i64 = random_in_range(b.bottom + hy, b.top - hy);
        let e: Enemy = spawn_for_roll(roll, x, y);
        out.push(e);
        d.elapsed = d.elapsed - d.interval;
        let shrunk: i64 = d.interval * SPAWN_DECAY_NUM / SPAWN_DECAY_DEN;
        proof {
            lemma_decay_bounds(d.interval as int, d.floor as int);
        }
        d.interval = if shrunk >= d.floor {
            shrunk
        } else {
            d.floor
        };
        proof {
            assert(out@.subrange(0, orig_out.len() as int) =~= orig_out);
        }
    }
}

} // verus!
