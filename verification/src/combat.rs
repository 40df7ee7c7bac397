//! The combat resolver: player bullets against enemies (with scoring),
//! and live enemies / enemy bullets against the player (feeding the
//! pending-damage accumulator that the player state machine consumes).
//!
//! The sweeps are specified over enemy views (`EnemyView`), so the whole
//! stage is a mathematical fold that `World::tick` can compose.  Despawns
//! are deferred, so one player bullet damages every live enemy it
//! overlaps that tick; an enemy already at zero health absorbs nothing
//! more, which is what keeps the score at one point per kill.

use vstd::prelude::*;

use crate::bullet::{Bullet, Faction};
use crate::enemy::{enemy_views, Enemy, EnemyView};
use crate::geom::{aabb_overlap, overlaps};
use crate::player::Player;

verus! {

/// An enemy a bullet can hit: live (fading-in enemies are excluded) and
/// not already dead from an earlier hit this tick.
pub open spec fn hittable(e: EnemyView) -> bool {
    e.phase is Live && e.health >= 1
}

/// A player bullet hits this enemy.
pub open spec fn bullet_hits(b: Bullet, e: EnemyView) -> bool {
    hittable(e) && overlaps(b.pos, b.ext, e.pos, e.ext)
}

/// An enemy after one hit: one health point fewer, nothing else changed.
pub open spec fn hit_enemy(e: EnemyView) -> EnemyView {
    EnemyView { health: (e.health - 1) as u32, ..e }
}

/// The roster after one bullet's pass: every enemy the bullet hits loses
/// one health point, the others are untouched.
pub open spec fn damage_all(es: Seq<EnemyView>, b: Bullet) -> Seq<EnemyView> {
    es.map_values(
        |e: EnemyView|
            if bullet_hits(b, e) {
                hit_enemy(e)
            } else {
                e
            },
    )
}

/// How many enemies one bullet's pass takes from one health to zero.
pub open spec fn kills_of(es: Seq<EnemyView>, b: Bullet) -> int
    decreases es.len(),
{
    if es.len() == 0 {
        0
    } else {
        kills_of(es.drop_last(), b) + (if bullet_hits(b, es.last()) && es.last().health == 1 {
            1int
        } else {
            0int
        })
    }
}

/// The bullet hits at least one enemy, and is consumed by the hit.
pub open spec fn any_hit(es: Seq<EnemyView>, b: Bullet) -> bool {
    exists|i: int| 0 <= i < es.len() && bullet_hits(b, #[trigger] es[i])
}

/// One bullet of the sweep: a player bullet damages every live enemy it
/// overlaps (despawns are deferred, so all overlapping pairs interact)
/// and is consumed when it hit at least one; scoring happens exactly when
/// an enemy's health goes from 1 to 0.  Enemy bullets and missing bullets
/// survive the sweep.
pub open spec fn bullet_step(st: SweepState, b: Bullet) -> SweepState {
    if b.faction is PlayerSide {
        SweepState {
            enemies: damage_all(st.enemies, b),
            score: st.score + kills_of(st.enemies, b),
            kept: if any_hit(st.enemies, b) {
                st.kept
            } else {
                st.kept.push(b)
            },
        }
    } else {
        SweepState { kept: st.kept.push(b), ..st }
    }
}

/// The rolling state of the bullet sweep.
pub struct SweepState {
    pub enemies: Seq<EnemyView>,
    pub score: int,
    pub kept: Seq<Bullet>,
}

/// The sweep state after the first `n` bullets.
pub open spec fn sweep(st: SweepState, bs: Seq<Bullet>, n: nat) -> SweepState
    decreases n,
{
    if n == 0 {
        st
    } else {
        bullet_step(sweep(st, bs, (n - 1) as nat), bs[n - 1])
    }
}

/// The enemies with zero health are removed once the sweep is over; the
/// survivors keep their order.
pub open spec fn remove_dead(es: Seq<EnemyView>) -> Seq<EnemyView>
    decreases es.len(),
{
    if es.len() == 0 {
        Seq::empty()
    } else {
        let rest = remove_dead(es.drop_last());
        if es.last().health >= 1 {
            rest.push(es.last())
        } else {
            rest
        }
    }
}

/// How many enemies of the sequence are dead (health zero).
pub open spec fn dead_count(es: Seq<EnemyView>) -> int
    decreases es.len(),
{
    if es.len() == 0 {
        0
    } else {
        dead_count(es.drop_last()) + (if es.last().health == 0 {
            1int
        } else {
            0int
        })
    }
}

/// The dead count is between zero and the roster size.
pub proof fn lemma_dead_count_bounds(es: Seq<EnemyView>)
    ensures
        0 <= dead_count(es) <= es.len(),
    decreases es.len(),
{
    if es.len() > 0 {
        lemma_dead_count_bounds(es.drop_last());
    }
}

/// Updating one enemy changes the dead count by exactly the change at
/// that position.
pub proof fn lemma_dead_count_update(es: Seq<EnemyView>, j: int, e: EnemyView)
    requires
        0 <= j < es.len(),
    ensures
        dead_count(es.update(j, e)) == dead_count(es) + (if e.health == 0 {
            1int
        } else {
            0int
        }) - (if es[j].health == 0 {
            1int
        } else {
            0int
        }),
    decreases es.len(),
{
    let up = es.update(j, e);
    if j == es.len() - 1 {
        assert(up.drop_last() =~= es.drop_last());
    } else {
        lemma_dead_count_update(es.drop_last(), j, e);
        assert(up.drop_last() =~= es.drop_last().update(j, e));
        assert(up.last() == es.last());
    }
}

/// One bullet's pass raises the dead count by exactly its kills, and a
/// bullet can kill no more enemies than it hits.
pub proof fn lemma_damage_all_dead_count(es: Seq<EnemyView>, b: Bullet)
    ensures
        damage_all(es, b).len() == es.len(),
        dead_count(damage_all(es, b)) == dead_count(es) + kills_of(es, b),
        0 <= kills_of(es, b) <= es.len(),
    decreases es.len(),
{
    if es.len() > 0 {
        lemma_damage_all_dead_count(es.drop_last(), b);
        assert(damage_all(es, b).drop_last() =~= damage_all(es.drop_last(), b));
        assert(damage_all(es, b).last() == (if bullet_hits(b, es.last()) {
            hit_enemy(es.last())
        } else {
            es.last()
        }));
    }
}

/// The scoring law of the combat resolver: across any sequence of
/// bullet-enemy overlaps, the score grows by exactly the number of enemies
/// whose health went from 1 to 0 — one point per kill, nothing for a hit
/// that leaves health positive, and no double counting of a dead enemy —
/// so over the whole sweep it grows by at most the roster size.
pub proof fn lemma_score_counts_kills(st: SweepState, bs: Seq<Bullet>, n: nat)
    requires
        n <= bs.len(),
    ensures
        sweep(st, bs, n).score - st.score == dead_count(sweep(st, bs, n).enemies) - dead_count(
            st.enemies,
        ),
        sweep(st, bs, n).enemies.len() == st.enemies.len(),
        st.score <= sweep(st, bs, n).score <= st.score + st.enemies.len(),
    decreases n,
{
    lemma_dead_count_bounds(st.enemies);
    lemma_dead_count_bounds(sweep(st, bs, n).enemies);
    if n > 0 {
        lemma_score_counts_kills(st, bs, (n - 1) as nat);
        let prev = sweep(st, bs, (n - 1) as nat);
        let b = bs[n - 1];
        if b.faction is PlayerSide {
            lemma_damage_all_dead_count(prev.enemies, b);
        }
    }
}

/// Runs the player-bullet sweep over the enemies, then removes the dead:
/// exactly the fold of `bullet_step` over the bullets in order, followed
/// by `remove_dead`.  The score grows by one per enemy killed.
pub fn resolve_player_bullets(bullets: &mut Vec<Bullet>, enemies: &mut Vec<Enemy>, score: &mut u32)
    requires
        forall|i: int| 0 <= i < old(enemies)@.len() ==> (#[trigger] old(enemies)@[i]).wf(),
        forall|i: int|
            0 <= i < old(enemies)@.len() ==> (#[trigger] old(enemies)@[i]).pos.in_wide_range(),
        forall|i: int| 0 <= i < old(bullets)@.len() ==> (#[trigger] old(bullets)@[i]).wf(),
        forall|i: int|
            0 <= i < old(bullets)@.len() ==> (#[trigger] old(bullets)@[i]).pos.in_wide_range(),
        *old(score) + old(enemies)@.len() <= u32::MAX,
    ensures
        ({
            let fin = sweep(
                SweepState {
                    enemies: enemy_views(old(enemies)@),
                    score: *old(score) as int,
                    kept: Seq::empty(),
                },
                old(bullets)@,
                old(bullets)@.len() as nat,
            );
            &&& enemy_views(final(enemies)@) == remove_dead(fin.enemies)
            &&& final(bullets)@ == fin.kept
            &&& *final(score) == fin.score
        }),
        *final(score) >= *old(score),
        forall|i: int| 0 <= i < final(enemies)@.len() ==> (#[trigger] final(enemies)@[i]).wf(),
        forall|i: int|
            0 <= i < final(bullets)@.len() ==> (#[trigger] final(bullets)@[i]).wf() && (
            #[trigger] final(bullets)@[i]).pos.in_wide_range(),
{
    let ghost init = SweepState {
        enemies: enemy_views(old(enemies)@),
        score: *old(score) as int,
        kept: Seq::empty(),
    };
    let ghost all_bullets = bullets@;
    let mut kept: Vec<Bullet> = Vec::new();
    let mut i: usize = 0;
    proof {
        assert(kept@ =~= sweep(init, all_bullets, 0).kept);
        assert(enemy_views(enemies@) =~= sweep(init, all_bullets, 0).enemies);
    }
    while i < bullets.len()
        invariant
            0 <= i <= bullets@.len(),
            bullets@ == all_bullets,
            init.enemies.len() == enemies@.len(),
            init == (SweepState {
                enemies: enemy_views(old(enemies)@),
                score: *old(score) as int,
                kept: Seq::empty(),
            }),
            *old(score) + init.enemies.len() <= u32::MAX,
            enemy_views(enemies@) == sweep(init, all_bullets, i as nat).enemies,
            *score == sweep(init, all_bullets, i as nat).score,
            kept@ == sweep(init, all_bullets, i as nat).kept,
            *old(score) <= *score,
            forall|k: int|
                0 <= k < enemies@.len() ==> (#[trigger] enemies@[k]).wf() || enemies@[k].health
                    == 0,
            forall|k: int|
                0 <= k < enemies@.len() ==> (#[trigger] enemies@[k]).pos.in_wide_range()
                    && enemies@[k].ext.wf(),
            forall|k: int| 0 <= k < all_bullets.len() ==> (#[trigger] all_bullets[k]).wf(),
            forall|k: int|
                0 <= k < all_bullets.len() ==> (#[trigger] all_bullets[k]).pos.in_wide_range(),
            forall|k: int|
                0 <= k < kept@.len() ==> (#[trigger] kept@[k]).wf() && kept@[k].pos.in_wide_range(),
        decreases bullets@.len() - i,
    {
        proof {
            lemma_score_counts_kills(init, all_bullets, i as nat);
            lemma_dead_count_bounds(init.enemies);
        }
        let b: Bullet = bullets[i];
        let is_player_bullet: bool = match b.faction {
            Faction::PlayerSide => true,
            Faction::EnemySide => false,
        };
        if is_player_bullet {
            let ghost es_b = enemy_views(enemies@);
            let ghost sc_b = *score;
            let mut any: bool = false;
            let mut j: usize = 0;
            proof {
                assert(es_b.take(0) =~= Seq::<EnemyView>::empty());
            }
            while j < enemies.len()
                invariant
                    0 <= j <= enemies@.len(),
                    enemies@.len() == es_b.len(),
                    es_b.len() == init.enemies.len(),
                    *old(score) + init.enemies.len() <= u32::MAX,
                    sc_b - *old(score) == dead_count(es_b) - dead_count(init.enemies),
                    0 <= dead_count(init.enemies),
                    b.wf(),
                    b.pos.in_wide_range(),
                    forall|k: int|
                        0 <= k < j ==> (#[trigger] enemies@[k])@ == (if bullet_hits(b, es_b[k]) {
                            hit_enemy(es_b[k])
                        } else {
                            es_b[k]
                        }),
                    forall|k: int| j <= k < enemies@.len() ==> (#[trigger] enemies@[k])@ == es_b[k],
                    *score == sc_b + kills_of(es_b.take(j as int), b),
                    any == (exists|k: int| 0 <= k < j && bullet_hits(b, #[trigger] es_b[k])),
                    *score - *old(score) == dead_count(enemy_views(enemies@)) - dead_count(
                        init.enemies,
                    ),
                    forall|k: int|
                        0 <= k < enemies@.len() ==> (#[trigger] enemies@[k]).wf()
                            || enemies@[k].health == 0,
                    forall|k: int|
                        0 <= k < enemies@.len() ==> (#[trigger] enemies@[k]).pos.in_wide_range()
                            && enemies@[k].ext.wf(),
                decreases enemies@.len() - j,
            {
                proof {
                    assert(es_b.take(j + 1).drop_last() =~= es_b.take(j as int));
                    assert(es_b.take(j + 1).last() == es_b[j as int]);
                }
                let live: bool = match enemies[j].phase {
                    crate::enemy::EnemyPhase::Live { .. } => true,
                    crate::enemy::EnemyPhase::Fading { .. } => false,
                };
                if live && enemies[j].health >= 1 && aabb_overlap(
                    b.pos,
                    b.ext,
                    enemies[j].pos,
                    enemies[j].ext,
                ) {
                    proof {
                        assert(bullet_hits(b, es_b[j as int]));
                    }
                    let hp: u32 = enemies[j].health;
                    let ghost pre_views = enemy_views(enemies@);
                    let em = &mut enemies[j];
                    em.health = hp - 1;
                    proof {
                        assert(enemy_views(enemies@) =~= pre_views.update(
                            j as int,
                            hit_enemy(es_b[j as int]),
                        ));
                        lemma_dead_count_update(pre_views, j as int, hit_enemy(es_b[j as int]));
                        lemma_dead_count_bounds(enemy_views(enemies@));
                    }
                    if hp == 1 {
                        *score = *score + 1;
                    }
                    any = true;
                } else {
                    proof {
                        assert(!bullet_hits(b, es_b[j as int]));
                    }
                }
                j = j + 1;
            }
            proof {
                assert(es_b.take(es_b.len() as int) =~= es_b);
                lemma_damage_all_dead_count(es_b, b);
                assert(enemy_views(enemies@) =~= damage_all(es_b, b));
                assert(enemy_views(enemies@) == sweep(init, all_bullets, (i + 1) as nat).enemies);
                assert(*score == sweep(init, all_bullets, (i + 1) as nat).score);
            }
            if !any {
                kept.push(b);
            }
        } else {
            kept.push(b);
        }
        i = i + 1;
    }
    *bullets = kept;
    // second pass: drop the enemies killed by the sweep, keeping order
    let ghost after_c = enemies@;
    let ghost after_v = enemy_views(after_c);
    let mut stack: Vec<Enemy> = Vec::new();
    proof {
        assert(after_c.take(after_c.len() as int) =~= after_c);
        assert(enemy_views(after_c.take(after_c.len() as int)) =~= after_v);
        assert(remove_dead(after_v) =~= remove_dead(
            enemy_views(after_c.take(after_c.len() as int)),
        ) + enemy_views(stack@).reverse());
    }
    while enemies.len() > 0
        invariant
            enemies@.len() <= after_c.len(),
            enemies@ == after_c.take(enemies@.len() as int),
            remove_dead(after_v) =~= remove_dead(enemy_views(enemies@)) + enemy_views(
                stack@,
            ).reverse(),
            forall|k: int|
                0 <= k < after_c.len() ==> (#[trigger] after_c[k]).wf() || after_c[k].health == 0,
            forall|k: int| 0 <= k < stack@.len() ==> (#[trigger] stack@[k]).wf(),
        decreases enemies@.len(),
    {
        let ghost pre = enemies@;
        let e: Enemy = match enemies.pop() {
            Some(e) => e,
            None => {
                proof {
                    assert(false);
                }
                unreached()
            },
        };
        proof {
            assert(e == pre[pre.len() - 1]);
            assert(pre[pre.len() - 1] == after_c.take(pre.len() as int)[pre.len() - 1]);
            assert(after_c.take(pre.len() as int)[pre.len() - 1] == after_c[pre.len() - 1]);
            assert(pre.drop_last() == enemies@);
            assert(enemies@ =~= after_c.take(enemies@.len() as int));
            assert(enemy_views(pre).drop_last() =~= enemy_views(enemies@));
            assert(enemy_views(pre).last() == e@);
        }
        if e.health >= 1 {
            stack.push(e);
            proof {
                assert(enemy_views(stack@).reverse() =~= seq![e@] + enemy_views(
                    stack@,
                ).reverse().drop_first());
                assert(remove_dead(after_v) =~= remove_dead(enemy_views(enemies@)) + enemy_views(
                    stack@,
                ).reverse());
            }
        } else {
            proof {
                assert(remove_dead(after_v) =~= remove_dead(enemy_views(enemies@)) + enemy_views(
                    stack@,
                ).reverse());
            }
        }
    }
    proof {
        assert(enemy_views(enemies@) =~= Seq::<EnemyView>::empty());
        assert(remove_dead(enemy_views(enemies@)) =~= Seq::<EnemyView>::empty());
        assert(enemy_views(enemies@) + enemy_views(stack@).reverse() =~= remove_dead(after_v));
    }
    while stack.len() > 0
        invariant
            enemy_views(enemies@) + enemy_views(stack@).reverse() =~= remove_dead(after_v),
            forall|k: int| 0 <= k < stack@.len() ==> (#[trigger] stack@[k]).wf(),
            forall|k: int| 0 <= k < enemies@.len() ==> (#[trigger] enemies@[k]).wf(),
        decreases stack@.len(),
    {
        let ghost pre_stack = stack@;
        let e: Enemy = match stack.pop() {
            Some(e) => e,
            None => {
                proof {
                    assert(false);
                }
                unreached()
            },
        };
        enemies.push(e);
        proof {
            assert(enemy_views(pre_stack).drop_last() =~= enemy_views(stack@));
            assert(enemy_views(pre_stack).last() == e@);
            assert(enemy_views(enemies@) + enemy_views(stack@).reverse() =~= remove_dead(after_v));
        }
    }
    proof {
        assert(enemy_views(final(enemies)@) =~= remove_dead(after_v));
    }
}

/// A live enemy overlaps the player.
pub open spec fn enemy_touches_player(e: EnemyView, p: Player) -> bool {
    e.phase is Live && overlaps(p.pos, p.ext, e.pos, e.ext)
}

/// Some live enemy overlaps the player.
pub open spec fn any_enemy_touches(es: Seq<EnemyView>, p: Player) -> bool {
    exists|i: int| 0 <= i < es.len() && enemy_touches_player(#[trigger] es[i], p)
}

/// The player after the enemy-contact sweep: one pending damage point,
/// idempotently, exactly when some live enemy overlaps.
pub open spec fn contact_marked(p: Player, es: Seq<EnemyView>) -> Player {
    if any_enemy_touches(es, p) {
        Player { pending_damage: 1, ..p }
    } else {
        p
    }
}

/// The enemy-contact sweep: overlapping the player marks one pending
/// damage point, idempotently — repeated overlaps in one tick do not
/// stack.  Fading-in enemies cannot hurt the player.
pub fn resolve_enemy_contacts(p: &mut Player, enemies: &Vec<Enemy>)
    requires
        old(p).wf(),
        old(p).pos.in_wide_range(),
        forall|i: int| 0 <= i < enemies@.len() ==> (#[trigger] enemies@[i]).wf(),
        forall|i: int| 0 <= i < enemies@.len() ==> (#[trigger] enemies@[i]).pos.in_wide_range(),
    ensures
        final(p).wf(),
        *final(p) == contact_marked(*old(p), enemy_views(enemies@)),
        final(p).pending_damage == (if any_enemy_touches(enemy_views(enemies@), *old(p)) {
            1u32
        } else {
            old(p).pending_damage
        }),
        final(p).health == old(p).health,
        final(p).inv_elapsed == old(p).inv_elapsed,
        final(p).inv_duration == old(p).inv_duration,
{
    let mut i: usize = 0;
    let mut touched: bool = false;
    while i < enemies.len()
        invariant
            0 <= i <= enemies@.len(),
            forall|k: int| 0 <= k < enemies@.len() ==> (#[trigger] enemies@[k]).pos.in_wide_range(),
            forall|k: int| 0 <= k < enemies@.len() ==> (#[trigger] enemies@[k]).ext.wf(),
            p.pos.in_wide_range(),
            p.ext.wf(),
            *p == *old(p),
            touched == (exists|k: int|
                0 <= k < i && enemy_touches_player(#[trigger] enemy_views(enemies@)[k], *p)),
        decreases enemies@.len() - i,
    {
        let live: bool = match enemies[i].phase {
            crate::enemy::EnemyPhase::Live { .. } => true,
            crate::enemy::EnemyPhase::Fading { .. } => false,
        };
        if live && aabb_overlap(p.pos, p.ext, enemies[i].pos, enemies[i].ext) {
            proof {
                assert(enemy_touches_player(enemy_views(enemies@)[i as int], *p));
            }
            touched = true;
        }
        i = i + 1;
    }
    if touched {
        p.pending_damage = 1;
    }
}

/// An enemy bullet overlaps the player.
pub open spec fn enemy_bullet_hits_player(b: Bullet, p: Player) -> bool {
    b.faction is EnemySide && overlaps(p.pos, p.ext, b.pos, b.ext)
}

/// Some enemy bullet overlaps the player.
pub open spec fn any_bullet_hits_player(bs: Seq<Bullet>, p: Player) -> bool {
    exists|i: int| 0 <= i < bs.len() && enemy_bullet_hits_player(#[trigger] bs[i], p)
}

/// The player after the bullet-contact sweep: one pending damage point,
/// idempotently, exactly when some enemy bullet overlaps.
pub open spec fn bullet_marked(p: Player, bs: Seq<Bullet>) -> Player {
    if any_bullet_hits_player(bs, p) {
        Player { pending_damage: 1, ..p }
    } else {
        p
    }
}

/// The bullets left after the enemy bullets that hit the player are
/// consumed; everything else survives in order.
pub open spec fn bullets_missing_player(bs: Seq<Bullet>, p: Player) -> Seq<Bullet>
    decreases bs.len(),
{
    if bs.len() == 0 {
        Seq::empty()
    } else {
        let rest = bullets_missing_player(bs.drop_last(), p);
        if enemy_bullet_hits_player(bs.last(), p) {
            rest
        } else {
            rest.push(bs.last())
        }
    }
}

/// The bullet-contact sweep: enemy bullets overlapping the player mark one
/// pending damage point (idempotently) and are consumed by the hit.
pub fn resolve_enemy_bullets(p: &mut Player, bullets: &mut Vec<Bullet>)
    requires
        old(p).wf(),
        old(p).pos.in_wide_range(),
        forall|i: int| 0 <= i < old(bullets)@.len() ==> (#[trigger] old(bullets)@[i]).wf(),
        forall|i: int|
            0 <= i < old(bullets)@.len() ==> (#[trigger] old(bullets)@[i]).pos.in_wide_range(),
    ensures
        final(p).wf(),
        *final(p) == bullet_marked(*old(p), old(bullets)@),
        final(bullets)@ == bullets_missing_player(old(bullets)@, *old(p)),
        final(p).pending_damage == (if any_bullet_hits_player(old(bullets)@, *old(p)) {
            1u32
        } else {
            old(p).pending_damage
        }),
        final(p).health == old(p).health,
        final(p).inv_elapsed == old(p).inv_elapsed,
        final(p).inv_duration == old(p).inv_duration,
        final(bullets)@.len() <= old(bullets)@.len(),
        forall|i: int|
            0 <= i < final(bullets)@.len() ==> (#[trigger] final(bullets)@[i]).wf() && (
            #[trigger] final(bullets)@[i]).pos.in_wide_range(),
{
    let ghost all = bullets@;
    let mut kept: Vec<Bullet> = Vec::new();
    let mut hit: bool = false;
    let mut i: usize = 0;
    proof {
        assert(all.take(0) =~= Seq::<Bullet>::empty());
        assert(kept@ =~= bullets_missing_player(all.take(0), *p));
    }
    while i < bullets.len()
        invariant
            0 <= i <= bullets@.len(),
            bullets@ == all,
            p.pos.in_wide_range(),
            p.ext.wf(),
            *p == *old(p),
            forall|k: int| 0 <= k < all.len() ==> (#[trigger] all[k]).wf(),
            forall|k: int| 0 <= k < all.len() ==> (#[trigger] all[k]).pos.in_wide_range(),
            kept@ == bullets_missing_player(all.take(i as int), *p),
            kept@.len() <= i,
            forall|k: int|
                0 <= k < kept@.len() ==> (#[trigger] kept@[k]).wf() && kept@[k].pos.in_wide_range(),
            hit == (exists|k: int| 0 <= k < i && enemy_bullet_hits_player(#[trigger] all[k], *p)),
        decreases bullets@.len() - i,
    {
        let b: Bullet = bullets[i];
        let is_enemy_bullet: bool = match b.faction {
            Faction::EnemySide => true,
            Faction::PlayerSide => false,
        };
        let overlapping: bool = aabb_overlap(p.pos, p.ext, b.pos, b.ext);
        proof {
            assert(all.take(i + 1).drop_last() =~= all.take(i as int));
            assert(all.take(i + 1).last() == all[i as int]);
        }
        if is_enemy_bullet && overlapping {
            hit = true;
        } else {
            kept.push(b);
        }
        i = i + 1;
    }
    proof {
        assert(all.take(all.len() as int) =~= all);
    }
    *bullets = kept;
    if hit {
        p.pending_damage = 1;
    }
}

} // verus!
