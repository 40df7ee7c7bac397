//! Combat resolution and the player state machine: scoring per kill,
//! fading-in enemies excluded from collisions, the pending-damage lock,
//! the invincibility window, shooting, and the fade-in activator.

use unfaireum::bullet::{Bullet, Faction};
use unfaireum::combat::{
    resolve_enemy_bullets, resolve_enemy_contacts, resolve_player_bullets,
};
use unfaireum::enemy::{fade_in, Enemy, EnemyKind, EnemyPhase};
use unfaireum::geom::{Extent, Vec2};
use unfaireum::physics::Contacts;
use unfaireum::player::{
    apply_damage, invincibility_tick, movement, shoot, InputState, Player,
};
use unfaireum::units::POS_UNITS_PER_PIXEL;

fn px(v: i64) -> i64 {
    v * POS_UNITS_PER_PIXEL
}

fn live_enemy(x_px: i64, health: u32) -> Enemy {
    Enemy {
        pos: Vec2 { x: px(x_px), y: px(64) },
        ext: Extent { hx: px(64), hy: px(64) },
        health,
        kind: EnemyKind::Walker { accel: 768 },
        phase: EnemyPhase::Live {
            vel: Vec2 { x: 0, y: 0 },
            acc: Vec2 { x: 0, y: -4096 },
            contacts: Contacts { left: false, bottom: false, right: false, top: false },
        },
        anim: None,
        flipped: false,
        alpha_milli: 1000,
        tex: (0, 0),
    }
}

fn fading_enemy(x_px: i64) -> Enemy {
    let mut e = live_enemy(x_px, 1);
    e.phase = EnemyPhase::Fading { elapsed: 0, duration: 3600 };
    e.alpha_milli = 0;
    e
}

fn player_bullet(x_px: i64, y_px: i64) -> Bullet {
    Bullet {
        pos: Vec2 { x: px(x_px), y: px(y_px) },
        ext: Extent { hx: px(16), hy: px(16) },
        vel: Vec2 { x: 92160, y: 0 },
        faction: Faction::PlayerSide,
        flipped: false,
    }
}

#[test]
fn kill_scores_exactly_one_point() {
    let mut bullets = vec![player_bullet(100, 64)];
    let mut enemies = vec![live_enemy(100, 1)];
    let mut score: u32 = 0;
    resolve_player_bullets(&mut bullets, &mut enemies, &mut score);
    assert_eq!(score, 1);
    assert_eq!(enemies.len(), 0, "the killed enemy despawns");
    assert_eq!(bullets.len(), 0, "the bullet is consumed by the hit");
}

#[test]
fn wounding_hit_scores_nothing() {
    let mut bullets = vec![player_bullet(100, 64)];
    let mut enemies = vec![live_enemy(100, 2)];
    let mut score: u32 = 0;
    resolve_player_bullets(&mut bullets, &mut enemies, &mut score);
    assert_eq!(score, 0);
    assert_eq!(enemies.len(), 1);
    assert_eq!(enemies[0].health, 1);
    assert_eq!(bullets.len(), 0);
}

#[test]
fn dead_enemy_is_not_hit_twice_in_one_sweep() {
    // two bullets overlap the same one-health enemy: one point, not two,
    // and the second bullet flies on
    let mut bullets = vec![player_bullet(100, 64), player_bullet(101, 64)];
    let mut enemies = vec![live_enemy(100, 1)];
    let mut score: u32 = 0;
    resolve_player_bullets(&mut bullets, &mut enemies, &mut score);
    assert_eq!(score, 1);
    assert_eq!(enemies.len(), 0);
    assert_eq!(bullets.len(), 1);
}

#[test]
fn one_bullet_damages_every_overlapping_enemy() {
    // despawns are deferred, so a bullet overlapping two live enemies
    // damages both on the same tick, then is consumed
    let mut bullets = vec![player_bullet(100, 64)];
    let mut enemies = vec![live_enemy(100, 2), live_enemy(110, 1)];
    let mut score: u32 = 0;
    resolve_player_bullets(&mut bullets, &mut enemies, &mut score);
    assert_eq!(score, 1, "only the enemy that died scores");
    assert_eq!(enemies.len(), 1, "the one-health enemy despawns");
    assert_eq!(enemies[0].health, 1, "the tough enemy is wounded too");
    assert_eq!(bullets.len(), 0, "the bullet is consumed by its hits");
}

#[test]
fn score_counts_health_one_to_zero_transitions_across_a_sequence() {
    // a mixed sweep: a tough enemy absorbs one bullet (no point), a weak
    // one dies (one point), a miss survives
    let mut bullets = vec![
        player_bullet(100, 64),
        player_bullet(300, 64),
        player_bullet(900, 64),
    ];
    let mut enemies = vec![live_enemy(100, 2), live_enemy(300, 1)];
    let mut score: u32 = 5;
    resolve_player_bullets(&mut bullets, &mut enemies, &mut score);
    assert_eq!(score, 6);
    assert_eq!(enemies.len(), 1);
    assert_eq!(enemies[0].health, 1);
    assert_eq!(bullets.len(), 1);
}

#[test]
fn fading_enemy_absorbs_no_shot_and_deals_no_damage() {
    let mut bullets = vec![player_bullet(100, 64)];
    let mut enemies = vec![fading_enemy(100)];
    let mut score: u32 = 0;
    resolve_player_bullets(&mut bullets, &mut enemies, &mut score);
    assert_eq!(score, 0);
    assert_eq!(bullets.len(), 1, "the bullet passes through a fading enemy");
    assert_eq!(enemies[0].health, 1);

    let mut p = Player::new_run();
    resolve_enemy_contacts(&mut p, &enemies);
    assert_eq!(p.pending_damage, 0, "a fading enemy cannot hurt the player");
}

#[test]
fn overlapping_enemy_marks_one_pending_damage_idempotently() {
    let mut p = Player::new_run();
    // two live enemies right on top of the player still mark only 1
    let enemies = vec![live_enemy(960, 1), live_enemy(960, 3)];
    resolve_enemy_contacts(&mut p, &enemies);
    assert_eq!(p.pending_damage, 1);
    resolve_enemy_contacts(&mut p, &enemies);
    assert_eq!(p.pending_damage, 1);
}

#[test]
fn enemy_bullet_hit_is_consumed_and_marks_damage() {
    let mut p = Player::new_run();
    let mut bullets = vec![
        Bullet {
            pos: Vec2 { x: px(960), y: px(64) },
            ext: Extent { hx: px(32), hy: px(14) },
            vel: Vec2 { x: -30720, y: 0 },
            faction: Faction::EnemySide,
            flipped: false,
        },
        player_bullet(5000, 5000),
    ];
    resolve_enemy_bullets(&mut p, &mut bullets);
    assert_eq!(p.pending_damage, 1);
    assert_eq!(bullets.len(), 1, "only the hitting enemy bullet despawns");
    assert!(matches!(bullets[0].faction, Faction::PlayerSide));
}

#[test]
fn damage_application_and_invincibility_window_scenario() {
    // player at (960, 64), health 3, invincibility expired
    let mut p = Player::new_run();
    assert_eq!(p.pos, Vec2 { x: px(960), y: px(64) });
    assert_eq!(p.health, 3);
    assert!(p.inv_elapsed >= p.inv_duration);

    // one overlap: health drops to 2 and the timer restarts at 0
    let enemies = vec![live_enemy(960, 1)];
    resolve_enemy_contacts(&mut p, &enemies);
    let dead = apply_damage(&mut p);
    assert!(!dead);
    assert_eq!(p.health, 2);
    assert_eq!(p.inv_elapsed, 0);

    // 0.1 s later (duration is 3.0 s) a second overlap does nothing
    invincibility_tick(&mut p, 360);
    resolve_enemy_contacts(&mut p, &enemies);
    let dead = apply_damage(&mut p);
    assert!(!dead);
    assert_eq!(p.health, 2, "no second damage inside the window");
}

#[test]
fn hits_inside_the_window_are_discarded_on_expiry() {
    let mut p = Player::new_run();
    let enemies = vec![live_enemy(960, 1)];
    resolve_enemy_contacts(&mut p, &enemies);
    apply_damage(&mut p);
    assert_eq!(p.health, 2);
    // a hit lands mid-window and is still pending when the timer expires
    invincibility_tick(&mut p, 1800);
    resolve_enemy_contacts(&mut p, &enemies);
    assert_eq!(p.pending_damage, 1);
    let dur = p.inv_duration;
    invincibility_tick(&mut p, dur);
    assert_eq!(p.pending_damage, 0, "expiry clears damage marked during the window");
    // the timer keeps its true value as it runs past the duration
    assert_eq!(p.inv_elapsed, 1800 + dur);
    let dead = apply_damage(&mut p);
    assert!(!dead);
    assert_eq!(p.health, 2);
}

#[test]
fn lethal_damage_kills_exactly_at_zero_margin() {
    let mut p = Player::new_run();
    p.health = 1;
    p.pending_damage = 1;
    let dead = apply_damage(&mut p);
    assert!(dead);
    assert_eq!(p.health, 0);
}

#[test]
fn invincibility_flash_ramps_and_snaps_back_to_opaque() {
    let mut p = Player::new_run();
    p.inv_elapsed = 0;
    // a quarter into the flash period: half way down the ramp
    invincibility_tick(&mut p, 225);
    assert_eq!(p.alpha_milli, 500);
    // the half-period: fully transparent, the bottom of the wave
    invincibility_tick(&mut p, 225);
    assert_eq!(p.alpha_milli, 0);
    // three quarters in: half way back up
    invincibility_tick(&mut p, 225);
    assert_eq!(p.alpha_milli, 500);
    // expiry forces full opacity
    let dur = p.inv_duration;
    invincibility_tick(&mut p, dur);
    assert_eq!(p.alpha_milli, 1000);
}

#[test]
fn movement_sets_velocity_aim_and_facing() {
    let mut p = Player::new_run();
    let left = InputState { left: true, ..InputState::idle() };
    movement(&mut p, left);
    assert_eq!(p.vel.x, -46080);
    assert_eq!((p.aim_x, p.aim_y), (-1, 0));
    assert_eq!(p.facing, -1);
    // releasing everything: aim falls back to the last facing
    movement(&mut p, InputState::idle());
    assert_eq!(p.vel.x, 0);
    assert_eq!((p.aim_x, p.aim_y), (-1, 0));
    // aiming straight up keeps the zero horizontal component
    let up = InputState { up: true, ..InputState::idle() };
    movement(&mut p, up);
    assert_eq!((p.aim_x, p.aim_y), (0, 1));
}

#[test]
fn jump_needs_ground_and_release_cuts_it_short() {
    let mut p = Player::new_run();
    let jump = InputState { jump: true, ..InputState::idle() };
    movement(&mut p, jump);
    assert_eq!(p.vel.y, 0, "no jump without ground contact");
    p.contacts.bottom = true;
    movement(&mut p, jump);
    assert_eq!(p.vel.y, 122880);
    // airborne and ascending, the key released: the jump is cut
    p.contacts.bottom = false;
    movement(&mut p, InputState::idle());
    assert_eq!(p.vel.y, 0);
}

#[test]
fn shooting_follows_the_aim_and_fires_only_on_the_edge() {
    let p = Player::new_run();
    assert!(shoot(&p, false).is_none());
    let b = shoot(&p, true).unwrap();
    assert!(matches!(b.faction, Faction::PlayerSide));
    assert_eq!(b.pos, p.pos);
    assert_eq!((b.vel.x, b.vel.y), (92160, 0));
    // a diagonal aim fires at the diagonal per-component speed
    let mut q = Player::new_run();
    let upright = InputState { up: true, right: true, ..InputState::idle() };
    movement(&mut q, upright);
    let b = shoot(&q, true).unwrap();
    assert_eq!((b.vel.x, b.vel.y), (65167, 65167));
}

#[test]
fn fade_in_ramps_opacity_and_promotes_atomically() {
    let mut e = fading_enemy(500);
    fade_in(&mut e, 900);
    assert_eq!(e.alpha_milli, 250);
    assert!(matches!(e.phase, EnemyPhase::Fading { elapsed: 900, .. }));
    fade_in(&mut e, 1800);
    assert_eq!(e.alpha_milli, 750);
    // completion: fully opaque, physics attached in one step
    fade_in(&mut e, 900);
    assert_eq!(e.alpha_milli, 1000);
    match e.phase {
        EnemyPhase::Live { vel, acc, contacts } => {
            assert_eq!((vel.x, vel.y), (0, 0));
            assert_eq!((acc.x, acc.y), (0, -4096));
            assert!(!contacts.left && !contacts.bottom && !contacts.right && !contacts.top);
        },
        EnemyPhase::Fading { .. } => panic!("enemy should be live"),
    }
}
