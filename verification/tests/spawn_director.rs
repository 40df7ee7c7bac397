//! The spawn director: the decaying interval with its floor, multiple
//! spawns under a long hitch, and the placement of spawned enemies.

use unfaireum::enemy::{Enemy, EnemyKind, EnemyPhase};
use unfaireum::geom::Bounds;
use unfaireum::spawn::{run_director, SpawnDirector};
use unfaireum::units::POS_UNITS_PER_PIXEL;

fn px(v: i64) -> i64 {
    v * POS_UNITS_PER_PIXEL
}

fn arena() -> Bounds {
    Bounds { left: 0, bottom: 0, right: px(1920), top: px(1080) }
}

#[test]
fn first_spawn_decays_interval_to_expected_value() {
    // 7.5 s interval, decay 0.975: one spawn leaves exactly 7.3125 s
    let mut d = SpawnDirector::new_run();
    assert_eq!(d.interval, 27000);
    assert_eq!(d.floor, 1800);
    let mut out: Vec<Enemy> = Vec::new();
    run_director(&mut d, 27000, arena(), &mut out);
    assert_eq!(out.len(), 1);
    assert_eq!(d.interval, 26325);
    assert_eq!(d.elapsed, 0);
}

#[test]
fn interval_is_non_increasing_and_stabilizes_at_the_floor() {
    let mut d = SpawnDirector::new_run();
    let mut out: Vec<Enemy> = Vec::new();
    let mut prev = d.interval;
    // spawn until the floor must have been reached
    for _ in 0..2000 {
        let dt = d.interval - d.elapsed;
        run_director(&mut d, dt, arena(), &mut out);
        assert!(d.interval <= prev, "interval grew");
        assert!(d.interval >= d.floor, "interval dropped below the floor");
        prev = d.interval;
    }
    assert_eq!(d.interval, 1800);
    // further spawns leave the floor untouched
    run_director(&mut d, 1800, arena(), &mut out);
    assert_eq!(d.interval, 1800);
}

#[test]
fn long_hitch_spawns_several_enemies_in_one_update() {
    let mut d = SpawnDirector::new_run();
    let mut out: Vec<Enemy> = Vec::new();
    // three full starting intervals pass at once; the interval decays
    // between spawns, so at least three enemies appear
    run_director(&mut d, 3 * 27000, arena(), &mut out);
    assert!(out.len() >= 3, "hitch spawned {} enemies", out.len());
}

#[test]
fn spawned_enemies_fade_in_fully_on_screen() {
    let mut d = SpawnDirector::new_run();
    let mut out: Vec<Enemy> = Vec::new();
    // drive enough spawns to see every archetype with high probability
    for _ in 0..200 {
        let dt = d.interval - d.elapsed;
        run_director(&mut d, dt, arena(), &mut out);
    }
    assert!(out.len() >= 200);
    let b = arena();
    for e in out.iter() {
        assert!(b.left + e.ext.hx <= e.pos.x && e.pos.x <= b.right - e.ext.hx);
        assert!(b.bottom + e.ext.hy <= e.pos.y && e.pos.y <= b.top - e.ext.hy);
        assert_eq!(e.alpha_milli, 0);
        assert!(matches!(e.phase, EnemyPhase::Fading { elapsed: 0, .. }));
        match e.kind {
            EnemyKind::Walker { accel } => {
                assert_eq!(accel, 768);
                assert_eq!(e.health, 1);
            },
            EnemyKind::Shooter { speed, bullet_speed, fire_period, .. } => {
                assert_eq!(speed, 256 * 60);
                assert_eq!(bullet_speed, 512 * 60);
                assert_eq!(fire_period, 7200);
                assert_eq!(e.health, 2);
            },
            EnemyKind::Jumper { impulse, speed } => {
                assert_eq!(impulse, 2560 * 60);
                assert_eq!(speed, 512 * 60);
                assert_eq!(e.health, 3);
            },
        }
    }
}
