//! The enemy behavior evaluators, the off-screen culler, and whole ticks
//! of the world.

use unfaireum::bullet::{Bullet, Faction};
use unfaireum::enemy::{
    enemy_animate, jumper_update, make_jumper, shooter_update, walker_update, Enemy, EnemyKind,
    EnemyPhase,
};
use unfaireum::geom::{Bounds, Extent, Vec2};
use unfaireum::physics::Contacts;
use unfaireum::player::InputState;
use unfaireum::units::POS_UNITS_PER_PIXEL;
use unfaireum::world::{cull_bullets, World};

fn px(v: i64) -> i64 {
    v * POS_UNITS_PER_PIXEL
}

fn arena() -> Bounds {
    Bounds { left: 0, bottom: 0, right: px(1920), top: px(1080) }
}

fn live(kind: EnemyKind, x_px: i64, anim: bool) -> Enemy {
    let mut e = if anim {
        make_jumper(px(x_px), px(300))
    } else {
        Enemy {
            pos: Vec2 { x: px(x_px), y: px(300) },
            ext: Extent { hx: px(64), hy: px(64) },
            health: 1,
            kind,
            phase: EnemyPhase::Fading { elapsed: 0, duration: 1 },
            anim: None,
            flipped: false,
            alpha_milli: 0,
            tex: (0, 0),
        }
    };
    e.kind = kind;
    e.phase = EnemyPhase::Live {
        vel: Vec2 { x: 0, y: 0 },
        acc: Vec2 { x: 0, y: -4096 },
        contacts: Contacts { left: false, bottom: false, right: false, top: false },
    };
    e.alpha_milli = 1000;
    e
}

#[test]
fn walker_accelerates_toward_the_player() {
    let mut e = live(EnemyKind::Walker { accel: 768 }, 1000, false);
    walker_update(&mut e, px(100));
    match e.phase {
        EnemyPhase::Live { acc, .. } => assert_eq!(acc.x, -768),
        _ => panic!(),
    }
    walker_update(&mut e, px(1800));
    match e.phase {
        EnemyPhase::Live { acc, .. } => assert_eq!(acc.x, 768),
        _ => panic!(),
    }
}

#[test]
fn shooter_walks_and_fires_once_per_period() {
    let kind = EnemyKind::Shooter {
        speed: 15360,
        bullet_speed: 30720,
        fire_elapsed: 0,
        fire_period: 7200,
    };
    let mut e = live(kind, 1000, false);
    let mut out: Vec<Bullet> = Vec::new();
    // half a period: walks toward the player, no shot yet
    shooter_update(&mut e, px(100), 3600, &mut out);
    match e.phase {
        EnemyPhase::Live { vel, .. } => assert_eq!(vel.x, -15360),
        _ => panic!(),
    }
    assert_eq!(out.len(), 0);
    // two and a half more periods at once: three shots, hitch-robust
    shooter_update(&mut e, px(100), 2 * 7200 + 3600 + 1800, &mut out);
    assert_eq!(out.len(), 3);
    match e.kind {
        EnemyKind::Shooter { fire_elapsed, .. } => assert_eq!(fire_elapsed, 1800),
        _ => panic!(),
    }
    for b in out.iter() {
        assert!(matches!(b.faction, Faction::EnemySide));
        assert_eq!(b.vel.x, -30720, "bullets fly toward the player");
        assert_eq!(b.pos, e.pos);
    }
}

#[test]
fn jumper_picks_the_centerward_direction_and_jumps_on_contact() {
    let mut e = live(EnemyKind::Jumper { impulse: 153600, speed: 30720 }, 200, true);
    jumper_update(&mut e, arena());
    match e.phase {
        EnemyPhase::Live { vel, .. } => {
            assert_eq!(vel.x, 30720, "near the left wall it drifts right");
            assert_eq!(vel.y, 0, "no jump without ground contact");
        },
        _ => panic!(),
    }
    // grounded: it launches and restarts its jump clip at frame 0
    e.phase = EnemyPhase::Live {
        vel: Vec2 { x: -5, y: 0 },
        acc: Vec2 { x: 0, y: -4096 },
        contacts: Contacts { left: false, bottom: true, right: false, top: false },
    };
    jumper_update(&mut e, arena());
    match e.phase {
        EnemyPhase::Live { vel, .. } => {
            assert_eq!(vel.y, 153600);
            assert_eq!(vel.x, -5, "nonzero drift is kept");
        },
        _ => panic!(),
    }
    let a = e.anim.as_ref().unwrap();
    assert_eq!(a.current, 1);
    assert_eq!(a.clips[1].frame, 0);
}

#[test]
fn jump_clip_plays_through_and_chains_back_to_falling() {
    let mut e = live(EnemyKind::Jumper { impulse: 153600, speed: 30720 }, 960, true);
    // ground contact starts the jump clip
    e.phase = EnemyPhase::Live {
        vel: Vec2 { x: 30720, y: 0 },
        acc: Vec2 { x: 0, y: -4096 },
        contacts: Contacts { left: false, bottom: true, right: false, top: false },
    };
    jumper_update(&mut e, arena());
    assert_eq!(e.anim.as_ref().unwrap().current, 1);
    // three frames of 360 play out, then the clip chains back to falling
    enemy_animate(&mut e, 360);
    assert_eq!(e.tex, (1, 1));
    enemy_animate(&mut e, 360);
    assert_eq!(e.tex, (1, 2));
    enemy_animate(&mut e, 360);
    assert_eq!(e.tex, (0, 0));
    assert_eq!(e.anim.as_ref().unwrap().current, 0);
}

#[test]
fn bullet_is_culled_on_the_first_tick_with_no_overlap() {
    // a 16 px wide bullet at x = 100 px moving left at 50 px/s with the
    // camera's left wall at 0: its right edge crosses the wall and the
    // culler removes it the first tick no overlap remains
    let mut b = Bullet {
        pos: Vec2 { x: px(100), y: px(500) },
        ext: Extent { hx: px(8), hy: px(8) },
        vel: Vec2 { x: -50 * 60, y: 0 },
        faction: Faction::PlayerSide,
        flipped: false,
    };
    let mut ticks = 0;
    let mut bullets = Vec::new();
    loop {
        b.pos.x += b.vel.x;
        ticks += 1;
        bullets.clear();
        bullets.push(b);
        cull_bullets(&mut bullets, arena());
        if bullets.is_empty() {
            break;
        }
        assert!(b.pos.x + px(8) >= 0, "culled late: still overlapping");
        assert!(ticks < 10000);
    }
    assert!(b.pos.x + px(8) < 0, "culled only once fully outside");
    // 100 px at 50 px/s and a 60 Hz tick: gone within 130 ticks, not before
    assert_eq!(ticks, 130);
}

#[test]
fn tick_runs_a_full_frame_and_gravity_pulls_the_player() {
    let mut w = World::new_run();
    let p0 = match &w.player {
        Some(p) => p.pos,
        None => panic!(),
    };
    let out = w.tick(60, InputState::idle(), arena());
    assert!(!out.player_died);
    let p = w.player.as_ref().unwrap();
    // the boundary resolver kept the falling player on the floor
    assert_eq!(p.pos.y, px(64));
    assert_eq!(p.pos.x, p0.x);
    assert!(p.contacts.bottom);
    assert_eq!(w.score, 0);
}

#[test]
fn tick_spawns_the_first_enemy_when_the_interval_elapses() {
    let mut w = World::new_run();
    let mut ticks = 0;
    while w.enemies.is_empty() {
        w.tick(60, InputState::idle(), arena());
        ticks += 1;
        assert!(ticks <= 450, "no spawn after the whole starting interval");
    }
    // 7.5 s at 60 ticks per second
    assert_eq!(ticks, 450);
    assert_eq!(w.spawn.interval, 26325);
    assert!(matches!(w.enemies[0].phase, EnemyPhase::Fading { .. }));
}

#[test]
fn tick_fires_a_bullet_on_the_fire_edge() {
    let mut w = World::new_run();
    let fire = InputState { fire: true, ..InputState::idle() };
    w.tick(60, fire, arena());
    assert_eq!(w.bullets.len(), 1);
    assert!(matches!(w.bullets[0].faction, Faction::PlayerSide));
    // the next tick without the edge fires nothing more, and the bullet flies
    let before = w.bullets[0].pos.x;
    w.tick(60, InputState::idle(), arena());
    assert_eq!(w.bullets.len(), 1);
    assert_eq!(w.bullets[0].pos.x, before + 92160);
}

#[test]
fn tick_reports_death_exactly_once_and_removes_the_player() {
    let mut w = World::new_run();
    {
        let p = w.player.as_mut().unwrap();
        p.health = 1;
    }
    // drop a live enemy on the player
    let enemy = {
        let p = w.player.as_ref().unwrap();
        Enemy {
            pos: p.pos,
            ext: Extent { hx: px(64), hy: px(64) },
            health: 3,
            kind: EnemyKind::Walker { accel: 768 },
            phase: EnemyPhase::Live {
                vel: Vec2 { x: 0, y: 0 },
                acc: Vec2 { x: 0, y: -4096 },
                contacts: Contacts { left: false, bottom: false, right: false, top: false },
            },
            anim: None,
            flipped: false,
            alpha_milli: 1000,
            tex: (0, 0),
        }
    };
    w.enemies.push(enemy);
    let out = w.tick(60, InputState::idle(), arena());
    assert!(out.player_died);
    assert!(w.player.is_none());
    let out = w.tick(60, InputState::idle(), arena());
    assert!(!out.player_died, "death fires exactly once");
    assert!(w.player.is_none());
}

#[test]
fn tick_keeps_health_inside_the_invincibility_window() {
    let mut w = World::new_run();
    let enemy_at = {
        let p = w.player.as_ref().unwrap();
        p.pos
    };
    w.enemies.push(Enemy {
        pos: enemy_at,
        ext: Extent { hx: px(64), hy: px(64) },
        health: 3,
        kind: EnemyKind::Walker { accel: 768 },
        phase: EnemyPhase::Live {
            vel: Vec2 { x: 0, y: 0 },
            acc: Vec2 { x: 0, y: 0 },
            contacts: Contacts { left: false, bottom: false, right: false, top: false },
        },
        anim: None,
        flipped: false,
        alpha_milli: 1000,
        tex: (0, 0),
    });
    w.tick(60, InputState::idle(), arena());
    assert_eq!(w.player.as_ref().unwrap().health, 2);
    // many further overlapping ticks inside the 3 s window change nothing
    for _ in 0..100 {
        w.tick(60, InputState::idle(), arena());
        assert_eq!(w.player.as_ref().unwrap().health, 2);
    }
}
