//! The whole simulation state and the fixed-timestep tick that runs the
//! stages in their mandated order: spawn director, fade-in activator,
//! enemy behaviors, physics integration, boundary resolution and
//! off-screen culling, combat resolution, the player state machine, the
//! animation machine, and facing.  Entity creation requested by a stage
//! is buffered and applied at the tick boundary.
//!
//! `tick_rel` writes the whole tick down as one relation between the old
//! and the new world, built from the per-stage transforms; `tick` is
//! proved to satisfy it.

use vstd::prelude::*;

use crate::bullet::{
    faced_bullet, faced_bullets_all, integrated_bullet, integrated_bullets_all, Bullet, Faction,
};
use crate::combat::{
    bullet_marked, bullets_missing_player, contact_marked, remove_dead, resolve_enemy_bullets,
    resolve_enemy_contacts, resolve_player_bullets, sweep, SweepState,
};
use crate::enemy::{
    all_behavior_shots, animated_all, animated_enemy_view, behaved_all, behaved_enemy, behavior_shots,
    enemy_animate, enemy_integrate, enemy_resolve, enemy_views, faced_all, faced_enemy, fade_in,
    faded_all, faded_enemy, integrated_all, integrated_enemy_view, jumper_update, resolved_all,
    resolved_enemy_view, shooter_update, walker_update, Enemy, EnemyKind, EnemyPhase, EnemyView,
};
use crate::geom::{box_fully_outside, fully_outside, Bounds, Vec2};
use crate::player::{
    animate, apply_damage, damage_applied, damage_kills, integrated_player, inv_ticked,
    invincibility_tick, moved_player, movement, player_anim_after, player_tex_after, resolved_player,
    shoot, shot_of, InputState, Player,
};
use crate::spawn::{director_after, run_director, spawn_area_ok, valid_spawn, SpawnDirector};
use crate::units::{ACCEL_LIMIT, COORD_LIMIT, TIME_LIMIT};

verus! {

/// The full state of one run.
#[derive(Debug)]
pub struct World {
    pub spawn: SpawnDirector,
    pub score: u32,
    pub player: Option<Player>,
    pub enemies: Vec<Enemy>,
    pub bullets: Vec<Bullet>,
}

/// What a tick reports to the host: whether the player died this tick,
/// which requests the transition to the game-over screen.
#[derive(Clone, Copy, PartialEq, Eq, Structural, Debug)]
pub struct TickOutput {
    pub player_died: bool,
}

/// The magnitude bounds an enemy meets between ticks.
pub open spec fn enemy_calm(e: Enemy) -> bool {
    &&& e.pos.in_range()
    &&& (e.phase matches EnemyPhase::Live { vel, acc, .. } ==> {
        &&& vel.in_range()
        &&& -ACCEL_LIMIT <= acc.x <= ACCEL_LIMIT
        &&& -ACCEL_LIMIT <= acc.y <= ACCEL_LIMIT
    })
}

/// The looser bounds an enemy meets mid-tick, once integrated.
pub open spec fn enemy_roomy(e: Enemy) -> bool {
    &&& e.pos.in_wide_range()
    &&& (e.phase matches EnemyPhase::Live { vel, acc, .. } ==> {
        &&& -2 * COORD_LIMIT <= vel.x <= 2 * COORD_LIMIT
        &&& -2 * COORD_LIMIT <= vel.y <= 2 * COORD_LIMIT
        &&& -ACCEL_LIMIT <= acc.x <= ACCEL_LIMIT
        &&& -ACCEL_LIMIT <= acc.y <= ACCEL_LIMIT
    })
}

/// The magnitude bounds a bullet meets between ticks.
pub open spec fn bullet_calm(b: Bullet) -> bool {
    &&& b.pos.in_range()
    &&& b.vel.in_range()
}

/// The magnitude bounds the player meets between ticks.
pub open spec fn player_calm(p: Player) -> bool {
    &&& p.pos.in_range()
    &&& p.vel.in_range()
    &&& -ACCEL_LIMIT <= p.acc.x <= ACCEL_LIMIT
    &&& -ACCEL_LIMIT <= p.acc.y <= ACCEL_LIMIT
}

/// The bullets that survive the off-screen culler: those whose box still
/// overlaps the camera bounds, in their original order.
pub open spec fn surviving_bullets(bs: Seq<Bullet>, b: Bounds) -> Seq<Bullet>
    decreases bs.len(),
{
    if bs.len() == 0 {
        Seq::empty()
    } else {
        let rest = surviving_bullets(bs.drop_last(), b);
        if fully_outside(bs.last().pos, bs.last().ext, b) {
            rest
        } else {
            rest.push(bs.last())
        }
    }
}

/// The off-screen culler: removes every bullet whose bounding box lies
/// entirely outside the camera bounds, and nothing else.
pub fn cull_bullets(bullets: &mut Vec<Bullet>, b: Bounds)
    requires
        b.wf(),
        forall|i: int| 0 <= i < old(bullets)@.len() ==> (#[trigger] old(bullets)@[i]).wf(),
        forall|i: int|
            0 <= i < old(bullets)@.len() ==> (#[trigger] old(bullets)@[i]).pos.in_wide_range(),
    ensures
        final(bullets)@ == surviving_bullets(old(bullets)@, b),
        final(bullets)@.len() <= old(bullets)@.len(),
        forall|i: int|
            0 <= i < final(bullets)@.len() ==> (#[trigger] final(bullets)@[i]).wf()
                && final(bullets)@[i].pos.in_wide_range(),
        forall|i: int|
            0 <= i < final(bullets)@.len() ==> !fully_outside(
                (#[trigger] final(bullets)@[i]).pos,
                final(bullets)@[i].ext,
                b,
            ),
{
    let ghost all = bullets@;
    let mut kept: Vec<Bullet> = Vec::new();
    let mut i: usize = 0;
    proof {
        assert(all.take(0) =~= Seq::<Bullet>::empty());
    }
    while i < bullets.len()
        invariant
            0 <= i <= bullets@.len(),
            bullets@ == all,
            b.wf(),
            forall|k: int| 0 <= k < all.len() ==> (#[trigger] all[k]).wf(),
            forall|k: int| 0 <= k < all.len() ==> (#[trigger] all[k]).pos.in_wide_range(),
            kept@ == surviving_bullets(all.take(i as int), b),
            kept@.len() <= i,
            forall|k: int|
                0 <= k < kept@.len() ==> (#[trigger] kept@[k]).wf() && kept@[k].pos.in_wide_range(),
            forall|k: int|
                0 <= k < kept@.len() ==> !fully_outside((#[trigger] kept@[k]).pos, kept@[k].ext, b),
        decreases bullets@.len() - i,
    {
        let bl: Bullet = bullets[i];
        proof {
            assert(all.take(i + 1).drop_last() =~= all.take(i as int));
            assert(all.take(i + 1).last() == all[i as int]);
        }
        if !box_fully_outside(bl.pos, bl.ext, b) {
            kept.push(bl);
        }
        i = i + 1;
    }
    proof {
        assert(all.take(all.len() as int) =~= all);
    }
    *bullets = kept;
}

/// The fade-in stage over the whole roster.
fn stage_fade(enemies: &mut Vec<Enemy>, dt: i64)
    requires
        0 <= dt <= TIME_LIMIT,
        forall|k: int|
            0 <= k < old(enemies)@.len() ==> (#[trigger] old(enemies)@[k]).wf() && enemy_calm(
                old(enemies)@[k],
            ),
    ensures
        final(enemies)@.len() == old(enemies)@.len(),
        enemy_views(final(enemies)@) == faded_all(enemy_views(old(enemies)@), dt as int),
        forall|k: int|
            0 <= k < final(enemies)@.len() ==> (#[trigger] final(enemies)@[k]).wf() && enemy_calm(
                final(enemies)@[k],
            ),
{
    let ghost orig = enemies@;
    let mut i: usize = 0;
    while i < enemies.len()
        invariant
            0 <= i <= enemies@.len(),
            0 <= dt <= TIME_LIMIT,
            enemies@.len() == orig.len(),
            forall|k: int| 0 <= k < i ==> (#[trigger] enemies@[k])@ == faded_enemy(orig[k]@, dt as int),
            forall|k: int| i <= k < enemies@.len() ==> (#[trigger] enemies@[k]) == orig[k],
            forall|k: int|
                0 <= k < enemies@.len() ==> (#[trigger] enemies@[k]).wf() && enemy_calm(
                    enemies@[k],
                ),
        decreases enemies@.len() - i,
    {
        fade_in(&mut enemies[i], dt);
        i = i + 1;
    }
    proof {
        assert(enemy_views(final(enemies)@) =~= faded_all(enemy_views(orig), dt as int));
    }
}

/// The behavior stage over the whole roster: live enemies run their
/// per-kind evaluator, shooters append their shots to `fired`, and with
/// no player the player-seeking kinds do nothing and nothing is fired.
fn stage_behaviors(enemies: &mut Vec<Enemy>, px: Option<i64>, b: Bounds, dt: i64, fired: &mut Vec<
    Bullet,
>)
    requires
        0 <= dt <= TIME_LIMIT,
        b.wf(),
        (px matches Some(x) ==> -COORD_LIMIT <= x <= COORD_LIMIT),
        forall|k: int|
            0 <= k < old(enemies)@.len() ==> (#[trigger] old(enemies)@[k]).wf() && enemy_calm(
                old(enemies)@[k],
            ),
    ensures
        final(enemies)@.len() == old(enemies)@.len(),
        enemy_views(final(enemies)@) == behaved_all(enemy_views(old(enemies)@), px, b, dt as int),
        final(fired)@ == old(fired)@ + all_behavior_shots(
            enemy_views(old(enemies)@),
            px,
            dt as int,
        ),
        forall|k: int|
            0 <= k < final(enemies)@.len() ==> (#[trigger] final(enemies)@[k]).wf() && enemy_calm(
                final(enemies)@[k],
            ),
        forall|k: int|
            old(fired)@.len() <= k < final(fired)@.len() ==> (#[trigger] final(fired)@[k]).wf()
                && bullet_calm(final(fired)@[k]),
{
    let ghost orig = enemies@;
    let ghost orig_fired = fired@;
    let mut i: usize = 0;
    proof {
        assert(enemy_views(orig).take(0) =~= Seq::<EnemyView>::empty());
        assert(fired@ =~= orig_fired + all_behavior_shots(
            enemy_views(orig).take(0),
            px,
            dt as int,
        ));
    }
    while i < enemies.len()
        invariant
            0 <= i <= enemies@.len(),
            0 <= dt <= TIME_LIMIT,
            b.wf(),
            (px matches Some(x) ==> -COORD_LIMIT <= x <= COORD_LIMIT),
            enemies@.len() == orig.len(),
            forall|k: int|
                0 <= k < i ==> (#[trigger] enemies@[k])@ == behaved_enemy(
                    orig[k]@,
                    px,
                    b,
                    dt as int,
                ),
            forall|k: int| i <= k < enemies@.len() ==> (#[trigger] enemies@[k]) == orig[k],
            fired@ == orig_fired + all_behavior_shots(
                enemy_views(orig).take(i as int),
                px,
                dt as int,
            ),
            forall|k: int|
                0 <= k < enemies@.len() ==> (#[trigger] enemies@[k]).wf() && enemy_calm(
                    enemies@[k],
                ),
            forall|k: int|
                orig_fired.len() <= k < fired@.len() ==> (#[trigger] fired@[k]).wf() && bullet_calm(
                    fired@[k],
                ),
        decreases enemies@.len() - i,
    {
        proof {
            assert(enemy_views(orig).take(i + 1).drop_last() =~= enemy_views(orig).take(i as int));
            assert(enemy_views(orig).take(i + 1).last() == orig[i as int]@);
        }
        let ghost fired_pre = fired@;
        let is_live: bool = match enemies[i].phase {
            EnemyPhase::Live { .. } => true,
            EnemyPhase::Fading { .. } => false,
        };
        if is_live {
            match enemies[i].kind {
                EnemyKind::Walker { .. } => {
                    match px {
                        Some(x) => {
                            walker_update(&mut enemies[i], x);
                        },
                        None => {},
                    }
                },
                EnemyKind::Shooter { .. } => {
                    match px {
                        Some(x) => {
                            shooter_update(&mut enemies[i], x, dt, fired);
                        },
                        None => {},
                    }
                },
                EnemyKind::Jumper { .. } => {
                    jumper_update(&mut enemies[i], b);
                },
            }
        }
        proof {
            assert(enemies@[i as int]@ == behaved_enemy(orig[i as int]@, px, b, dt as int));
            assert(fired@ =~= fired_pre + behavior_shots(orig[i as int]@, px, dt as int));
            assert(fired@ =~= orig_fired + all_behavior_shots(
                enemy_views(orig).take(i + 1),
                px,
                dt as int,
            ));
        }
        i = i + 1;
    }
    proof {
        assert(enemy_views(orig).take(orig.len() as int) =~= enemy_views(orig));
        assert(enemy_views(final(enemies)@) =~= behaved_all(enemy_views(orig), px, b, dt as int));
    }
}

/// The integrator over the whole roster.
fn stage_integrate_enemies(enemies: &mut Vec<Enemy>)
    requires
        forall|k: int|
            0 <= k < old(enemies)@.len() ==> (#[trigger] old(enemies)@[k]).wf() && enemy_calm(
                old(enemies)@[k],
            ),
    ensures
        final(enemies)@.len() == old(enemies)@.len(),
        enemy_views(final(enemies)@) == integrated_all(enemy_views(old(enemies)@)),
        forall|k: int|
            0 <= k < final(enemies)@.len() ==> (#[trigger] final(enemies)@[k]).wf() && enemy_roomy(
                final(enemies)@[k],
            ),
{
    let ghost orig = enemies@;
    let mut i: usize = 0;
    while i < enemies.len()
        invariant
            0 <= i <= enemies@.len(),
            enemies@.len() == orig.len(),
            forall|k: int|
                0 <= k < i ==> (#[trigger] enemies@[k])@ == integrated_enemy_view(orig[k]@),
            forall|k: int| i <= k < enemies@.len() ==> (#[trigger] enemies@[k]) == orig[k],
            forall|k: int|
                0 <= k < i ==> (#[trigger] enemies@[k]).wf() && enemy_roomy(enemies@[k]),
            forall|k: int|
                i <= k < enemies@.len() ==> (#[trigger] enemies@[k]).wf() && enemy_calm(
                    enemies@[k],
                ),
        decreases enemies@.len() - i,
    {
        enemy_integrate(&mut enemies[i]);
        i = i + 1;
    }
    proof {
        assert(enemy_views(final(enemies)@) =~= integrated_all(enemy_views(orig)));
    }
}

/// The integrator over all bullets.
fn stage_integrate_bullets(bullets: &mut Vec<Bullet>)
    requires
        forall|k: int|
            0 <= k < old(bullets)@.len() ==> (#[trigger] old(bullets)@[k]).wf() && bullet_calm(
                old(bullets)@[k],
            ),
    ensures
        final(bullets)@ == integrated_bullets_all(old(bullets)@),
        final(bullets)@.len() == old(bullets)@.len(),
        forall|k: int|
            0 <= k < final(bullets)@.len() ==> (#[trigger] final(bullets)@[k]).wf()
                && final(bullets)@[k].pos.in_wide_range() && final(bullets)@[k].vel.in_range(),
{
    let ghost orig = bullets@;
    let mut i: usize = 0;
    while i < bullets.len()
        invariant
            0 <= i <= bullets@.len(),
            bullets@.len() == orig.len(),
            forall|k: int| 0 <= k < i ==> (#[trigger] bullets@[k]) == integrated_bullet(orig[k]),
            forall|k: int| i <= k < bullets@.len() ==> (#[trigger] bullets@[k]) == orig[k],
            forall|k: int|
                0 <= k < i ==> (#[trigger] bullets@[k]).wf() && bullets@[k].pos.in_wide_range()
                    && bullets@[k].vel.in_range(),
            forall|k: int|
                i <= k < bullets@.len() ==> (#[trigger] bullets@[k]).wf() && bullet_calm(
                    bullets@[k],
                ),
        decreases bullets@.len() - i,
    {
        let bl: Bullet = bullets[i];
        bullets[i] = Bullet { pos: Vec2 { x: bl.pos.x + bl.vel.x, y: bl.pos.y + bl.vel.y }, ..bl };
        i = i + 1;
    }
    proof {
        assert(final(bullets)@ =~= integrated_bullets_all(orig));
    }
}

/// The boundary resolver over the whole roster.
fn stage_resolve_enemies(enemies: &mut Vec<Enemy>, b: Bounds)
    requires
        b.wf(),
        forall|k: int|
            0 <= k < old(enemies)@.len() ==> (#[trigger] old(enemies)@[k]).wf() && enemy_roomy(
                old(enemies)@[k],
            ),
    ensures
        final(enemies)@.len() == old(enemies)@.len(),
        enemy_views(final(enemies)@) == resolved_all(enemy_views(old(enemies)@), b),
        forall|k: int|
            0 <= k < final(enemies)@.len() ==> (#[trigger] final(enemies)@[k]).wf() && enemy_roomy(
                final(enemies)@[k],
            ),
{
    let ghost orig = enemies@;
    let mut i: usize = 0;
    while i < enemies.len()
        invariant
            0 <= i <= enemies@.len(),
            b.wf(),
            enemies@.len() == orig.len(),
            forall|k: int|
                0 <= k < i ==> (#[trigger] enemies@[k])@ == resolved_enemy_view(orig[k]@, b),
            forall|k: int| i <= k < enemies@.len() ==> (#[trigger] enemies@[k]) == orig[k],
            forall|k: int|
                0 <= k < enemies@.len() ==> (#[trigger] enemies@[k]).wf() && enemy_roomy(
                    enemies@[k],
                ),
        decreases enemies@.len() - i,
    {
        enemy_resolve(&mut enemies[i], b);
        i = i + 1;
    }
    proof {
        assert(enemy_views(final(enemies)@) =~= resolved_all(enemy_views(orig), b));
    }
}

/// The animation stage over the whole roster.
fn stage_animate_enemies(enemies: &mut Vec<Enemy>, dt: i64)
    requires
        0 <= dt <= TIME_LIMIT,
        forall|k: int| 0 <= k < old(enemies)@.len() ==> (#[trigger] old(enemies)@[k]).wf(),
    ensures
        final(enemies)@.len() == old(enemies)@.len(),
        enemy_views(final(enemies)@) == animated_all(enemy_views(old(enemies)@), dt as int),
        forall|k: int| 0 <= k < final(enemies)@.len() ==> (#[trigger] final(enemies)@[k]).wf(),
{
    let ghost orig = enemies@;
    let mut i: usize = 0;
    while i < enemies.len()
        invariant
            0 <= i <= enemies@.len(),
            0 <= dt <= TIME_LIMIT,
            enemies@.len() == orig.len(),
            forall|k: int|
                0 <= k < i ==> (#[trigger] enemies@[k])@ == animated_enemy_view(
                    orig[k]@,
                    dt as int,
                ),
            forall|k: int| i <= k < enemies@.len() ==> (#[trigger] enemies@[k]) == orig[k],
            forall|k: int| 0 <= k < enemies@.len() ==> (#[trigger] enemies@[k]).wf(),
        decreases enemies@.len() - i,
    {
        enemy_animate(&mut enemies[i], dt);
        i = i + 1;
    }
    proof {
        assert(enemy_views(final(enemies)@) =~= animated_all(enemy_views(orig), dt as int));
    }
}

/// The facing stage over the whole roster.
fn stage_face_enemies(enemies: &mut Vec<Enemy>)
    requires
        forall|k: int| 0 <= k < old(enemies)@.len() ==> (#[trigger] old(enemies)@[k]).wf(),
    ensures
        final(enemies)@.len() == old(enemies)@.len(),
        enemy_views(final(enemies)@) == faced_all(enemy_views(old(enemies)@)),
        forall|k: int| 0 <= k < final(enemies)@.len() ==> (#[trigger] final(enemies)@[k]).wf(),
{
    let ghost orig = enemies@;
    let mut i: usize = 0;
    while i < enemies.len()
        invariant
            0 <= i <= enemies@.len(),
            enemies@.len() == orig.len(),
            forall|k: int| 0 <= k < i ==> (#[trigger] enemies@[k])@ == faced_enemy(orig[k]@),
            forall|k: int| i <= k < enemies@.len() ==> (#[trigger] enemies@[k]) == orig[k],
            forall|k: int| 0 <= k < enemies@.len() ==> (#[trigger] enemies@[k]).wf(),
        decreases enemies@.len() - i,
    {
        let em = &mut enemies[i];
        let vx: Option<i64> = match em.phase {
            EnemyPhase::Live { vel, .. } => Some(vel.x),
            EnemyPhase::Fading { .. } => None,
        };
        match vx {
            Some(v) => {
                crate::anim::update_flip(&mut em.flipped, v);
            },
            None => {},
        }
        proof {
            assert(enemies@[i as int]@ == faced_enemy(orig[i as int]@));
        }
        i = i + 1;
    }
    proof {
        assert(enemy_views(final(enemies)@) =~= faced_all(enemy_views(orig)));
    }
}

/// The facing stage over all bullets: only enemy bullets are flip-tagged.
fn stage_face_bullets(bullets: &mut Vec<Bullet>)
    requires
        forall|k: int| 0 <= k < old(bullets)@.len() ==> (#[trigger] old(bullets)@[k]).wf(),
    ensures
        final(bullets)@ == faced_bullets_all(old(bullets)@),
        forall|k: int| 0 <= k < final(bullets)@.len() ==> (#[trigger] final(bullets)@[k]).wf(),
{
    let ghost orig = bullets@;
    let mut i: usize = 0;
    while i < bullets.len()
        invariant
            0 <= i <= bullets@.len(),
            bullets@.len() == orig.len(),
            forall|k: int| 0 <= k < i ==> (#[trigger] bullets@[k]) == faced_bullet(orig[k]),
            forall|k: int| i <= k < bullets@.len() ==> (#[trigger] bullets@[k]) == orig[k],
            forall|k: int| 0 <= k < bullets@.len() ==> (#[trigger] bullets@[k]).wf(),
        decreases bullets@.len() - i,
    {
        let bm = &mut bullets[i];
        let is_enemy_bullet: bool = match bm.faction {
            Faction::EnemySide => true,
            Faction::PlayerSide => false,
        };
        if is_enemy_bullet {
            let vx: i64 = bm.vel.x;
            crate::anim::update_flip(&mut bm.flipped, vx);
        }
        proof {
            assert(bullets@[i as int] == faced_bullet(orig[i as int]));
        }
        i = i + 1;
    }
    proof {
        assert(final(bullets)@ =~= faced_bullets_all(orig));
    }
}

/// Everything one tick does, as a relation between the old world, the new
/// world and the tick's report.  The stage transforms are composed in the
/// mandated order: fade-in, behaviors, integration, boundary resolution,
/// culling, the two player-contact sweeps and the scoring bullet sweep,
/// the player state machine, animation and facing; the director's spawns
/// and the tick's shots join the world at the boundary.  With no player,
/// behaviors degrade to a no-op, nothing is fired and nobody dies.
pub open spec fn tick_rel(
    pre: World,
    post: World,
    out: TickOutput,
    dt: int,
    input: InputState,
    b: Bounds,
) -> bool {
    let es0 = enemy_views(pre.enemies@);
    let px = match pre.player {
        Some(p) => Some(p.pos.x),
        None => None,
    };
    let es1 = faded_all(es0, dt);
    let es2 = behaved_all(es1, px, b, dt);
    let shots = all_behavior_shots(es1, px, dt);
    let es3 = integrated_all(es2);
    let bs1 = integrated_bullets_all(pre.bullets@);
    let es4 = resolved_all(es3, b);
    let bs2 = surviving_bullets(bs1, b);
    let nspawn = director_after(
        pre.spawn.elapsed + dt,
        pre.spawn.interval as int,
        pre.spawn.floor as int,
    ).2;
    match pre.player {
        None => {
            let fin = sweep(
                SweepState { enemies: es4, score: pre.score as int, kept: Seq::empty() },
                bs2,
                bs2.len(),
            );
            let es5 = faced_all(animated_all(remove_dead(fin.enemies), dt));
            &&& post.player is None
            &&& !out.player_died
            &&& post.score == fin.score
            &&& post.bullets@ == faced_bullets_all(fin.kept) + shots
            &&& post.enemies@.len() == es5.len() + nspawn
            &&& enemy_views(post.enemies@).take(es5.len() as int) == es5
            &&& (forall|i: int|
                es5.len() <= i < post.enemies@.len() ==> valid_spawn(
                    #[trigger] post.enemies@[i],
                    b,
                ))
        },
        Some(p0) => {
            let p1 = integrated_player(p0);
            let p2 = resolved_player(p1, b);
            let p3 = contact_marked(p2, es4);
            let p4 = bullet_marked(p3, bs2);
            let bs3 = bullets_missing_player(bs2, p3);
            let fin = sweep(
                SweepState { enemies: es4, score: pre.score as int, kept: Seq::empty() },
                bs3,
                bs3.len(),
            );
            let es5 = faced_all(animated_all(remove_dead(fin.enemies), dt));
            let p5 = moved_player(p4, input);
            let shot = shot_of(p5, input.fire);
            let died = damage_kills(p5);
            let p7 = inv_ticked(damage_applied(p5), dt);
            let shot_seq = match shot {
                Some(bl) => seq![bl],
                None => Seq::<Bullet>::empty(),
            };
            &&& out.player_died == died
            &&& post.score == fin.score
            &&& post.bullets@ == faced_bullets_all(fin.kept) + shots + shot_seq
            &&& post.enemies@.len() == es5.len() + nspawn
            &&& enemy_views(post.enemies@).take(es5.len() as int) == es5
            &&& (forall|i: int|
                es5.len() <= i < post.enemies@.len() ==> valid_spawn(
                    #[trigger] post.enemies@[i],
                    b,
                ))
            &&& (died ==> post.player is None)
            &&& (!died ==> (post.player matches Some(q) && {
                &&& q == (Player {
                    anim: q.anim,
                    tex: q.tex,
                    flipped: crate::anim::flip_after(p7.flipped, p7.vel.x as int),
                    ..p7
                })
                &&& q.anim@ == player_anim_after(p7, dt)
                &&& q.tex == player_tex_after(p7, dt)
            }))
        },
    }
}

impl World {
    /// Structural validity of the whole world.
    pub open spec fn wf(self) -> bool {
        &&& self.spawn.wf()
        &&& (self.player matches Some(p) ==> p.wf())
        &&& forall|i: int| 0 <= i < self.enemies@.len() ==> (#[trigger] self.enemies@[i]).wf()
        &&& forall|i: int| 0 <= i < self.bullets@.len() ==> (#[trigger] self.bullets@[i]).wf()
    }

    /// Magnitude bounds on every entity, assumed at tick entry so that no
    /// sum of the tick can overflow.
    pub open spec fn calm(self) -> bool {
        &&& (self.player matches Some(p) ==> player_calm(p))
        &&& forall|i: int| 0 <= i < self.enemies@.len() ==> enemy_calm(#[trigger] self.enemies@[i])
        &&& forall|i: int| 0 <= i < self.bullets@.len() ==> bullet_calm(#[trigger] self.bullets@[i])
    }

    /// A fresh run: the spawn director at its starting interval, zero
    /// score, a full-health player, and no enemies or bullets.  Starting a
    /// new run after a game over tears the previous run down entirely.
    pub fn new_run() -> (w: World)
        ensures
            w.wf(),
            w.calm(),
            w.score == 0,
            (w.player matches Some(p) && crate::player::initial_player(p)),
            w.enemies@.len() == 0,
            w.bullets@.len() == 0,
            w.spawn == (SpawnDirector {
                elapsed: 0,
                interval: crate::units::SPAWN_INTERVAL_START,
                floor: crate::units::SPAWN_INTERVAL_FLOOR,
            }),
    {
        World {
            spawn: SpawnDirector::new_run(),
            score: 0,
            player: Some(Player::new_run()),
            enemies: Vec::new(),
            bullets: Vec::new(),
        }
    }

    /// One fixed simulation tick: exactly the stage composition that
    /// `tick_rel` writes down, on top of which the spawn director evolves
    /// by the `director_after` recurrence, the score never decreases,
    /// health never increases, the player dies at most once, and while
    /// inside the invincibility window their health cannot change.
    ///
    /// The tick is verified under the `calm` magnitude bounds, which the
    /// host re-checks before each call.
    #[verifier::rlimit(100)]
    pub fn tick(&mut self, dt: i64, input: InputState, b: Bounds) -> (out: TickOutput)
        requires
            old(self).wf(),
            old(self).calm(),
            0 <= dt <= TIME_LIMIT,
            spawn_area_ok(b),
            (old(self).player matches Some(p) ==> b.admits(p.ext)),
            old(self).score + old(self).enemies@.len() <= u32::MAX,
        ensures
            final(self).wf(),
            tick_rel(*old(self), *final(self), out, dt as int, input, b),
            final(self).spawn.floor == old(self).spawn.floor,
            ({
                let r = director_after(
                    old(self).spawn.elapsed + dt,
                    old(self).spawn.interval as int,
                    old(self).spawn.floor as int,
                );
                final(self).spawn.elapsed == r.0 && final(self).spawn.interval == r.1
            }),
            final(self).score >= old(self).score,
            old(self).player is None ==> final(self).player is None && !out.player_died,
            out.player_died ==> old(self).player is Some && final(self).player is None,
            (!out.player_died && old(self).player is Some) ==> final(self).player is Some,
            (old(self).player matches Some(p) ==> (p.invincible() ==> !out.player_died
                && (final(self).player matches Some(q) && q.health == p.health))),
            (out.player_died ==> (old(self).player matches Some(p) && !p.invincible()
                && p.health <= 1)),
            ((old(self).enemies@.len() == 0 && old(self).bullets@.len() == 0 && (old(
                self,
            ).player matches Some(p) && p.pending_damage == 0)) ==> !out.player_died),
            (old(self).player matches Some(p) ==> (final(self).player matches Some(q)
                ==> q.health <= p.health)),
    {
        // 1. spawn director: spawned enemies are buffered for the boundary
        let mut spawned: Vec<Enemy> = Vec::new();
        run_director(&mut self.spawn, dt, b, &mut spawned);
        // 2. fade-in activator
        stage_fade(&mut self.enemies, dt);
        // 3. behavior evaluators, before integration; shots are buffered
        let px: Option<i64> = match &self.player {
            Some(p) => Some(p.pos.x),
            None => None,
        };
        let mut fired: Vec<Bullet> = Vec::new();
        stage_behaviors(&mut self.enemies, px, b, dt, &mut fired);
        let ghost shots = all_behavior_shots(
            faded_all(enemy_views(old(self).enemies@), dt as int),
            px,
            dt as int,
        );
        proof {
            assert(fired@ =~= shots);
        }
        // 4. physics integration: player, live enemies, bullets
        match &mut self.player {
            Some(p) => {
                crate::player::player_integrate(p);
            },
            None => {},
        }
        stage_integrate_enemies(&mut self.enemies);
        stage_integrate_bullets(&mut self.bullets);
        // 5. boundary resolution for arena-bound entities
        match &mut self.player {
            Some(p) => {
                crate::player::player_resolve(p, b);
            },
            None => {},
        }
        stage_resolve_enemies(&mut self.enemies, b);
        // 6. off-screen culling of bullets
        cull_bullets(&mut self.bullets, b);
        // 7. combat resolution: both player-contact sweeps, then the
        //    player-bullet sweep with scoring and despawns
        match &mut self.player {
            Some(p) => {
                resolve_enemy_contacts(p, &self.enemies);
                resolve_enemy_bullets(p, &mut self.bullets);
            },
            None => {},
        }
        resolve_player_bullets(&mut self.bullets, &mut self.enemies, &mut self.score);
        // 8. the player state machine
        let mut died: bool = false;
        let ghost mut shot_seq: Seq<Bullet> = Seq::empty();
        match &mut self.player {
            Some(p) => {
                movement(p, input);
                let shot: Option<Bullet> = shoot(p, input.fire);
                match shot {
                    Some(bl) => {
                        fired.push(bl);
                        proof {
                            shot_seq = seq![bl];
                        }
                    },
                    None => {},
                }
                died = apply_damage(p);
                if !died {
                    invincibility_tick(p, dt);
                    // 9. the player's animation
                    animate(p, dt);
                    // 10. the player's facing
                    let vx: i64 = p.vel.x;
                    crate::anim::update_flip(&mut p.flipped, vx);
                }
            },
            None => {},
        }
        if died {
            self.player = None;
        }
        // 9. animation of animated enemies
        stage_animate_enemies(&mut self.enemies, dt);
        // 10. facing of live enemies and enemy bullets
        stage_face_enemies(&mut self.enemies);
        stage_face_bullets(&mut self.bullets);
        // tick boundary: the buffered spawns and shots join the world
        let ghost pre_append_enemies = self.enemies@;
        let ghost pre_append_bullets = self.bullets@;
        let ghost fired_final = fired@;
        self.enemies.append(&mut spawned);
        self.bullets.append(&mut fired);
        proof {
            assert(enemy_views(final(self).enemies@).take(pre_append_enemies.len() as int)
                =~= enemy_views(pre_append_enemies));
            if old(self).player is Some {
                assert(fired_final =~= shots + shot_seq);
                assert(final(self).bullets@ =~= (pre_append_bullets + shots) + shot_seq);
            } else {
                assert(fired_final =~= shots);
                assert(final(self).bullets@ =~= pre_append_bullets + shots);
            }
        }
        TickOutput { player_died: died }
    }
}

} // verus!
