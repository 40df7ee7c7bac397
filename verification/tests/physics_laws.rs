//! Physics: integration exactness, the free-fall closed form, boundary
//! clamping with edge alignment, and off-screen culling.

use unfaireum::geom::{Bounds, Extent, Vec2};
use unfaireum::physics::{
    apply_acceleration, apply_velocity, free_fall, resolve_bounds, Contacts,
};
use unfaireum::units::{GRAVITY, POS_UNITS_PER_PIXEL};

fn px(v: i64) -> i64 {
    v * POS_UNITS_PER_PIXEL
}

#[test]
fn integration_is_exact_sums() {
    let mut vel = Vec2 { x: 100, y: -200 };
    apply_acceleration(&mut vel, Vec2 { x: 3, y: GRAVITY });
    assert_eq!(vel.x, 103);
    assert_eq!(vel.y, -200 + GRAVITY);
    let mut pos = Vec2 { x: 1000, y: 2000 };
    apply_velocity(&mut pos, vel);
    assert_eq!(pos.x, 1000 + 103);
    assert_eq!(pos.y, 2000 - 200 + GRAVITY);
}

#[test]
fn free_fall_matches_closed_form_over_two_thousand_ticks() {
    // a body dropped from rest: position after n ticks is a*n*(n+1)/2
    let n: i64 = 2000;
    let a: i64 = GRAVITY;
    let p = free_fall(0, 0, a, n as u32);
    let expected = a * n * (n + 1) / 2;
    assert_eq!(p, expected);
}

#[test]
fn free_fall_matches_direct_simulation() {
    // the closed form against a direct tick-by-tick simulation
    let p0: i64 = px(540);
    let v0: i64 = 300;
    let a: i64 = GRAVITY;
    let n: u32 = 1000;
    let mut pos = Vec2 { x: 0, y: p0 };
    let mut vel = Vec2 { x: 0, y: v0 };
    for _ in 0..n {
        apply_acceleration(&mut vel, Vec2 { x: 0, y: a });
        apply_velocity(&mut pos, vel);
    }
    assert_eq!(pos.y, free_fall(p0, v0, a, n));
    let nn = n as i64;
    assert_eq!(pos.y, p0 + nn * v0 + a * nn * (nn + 1) / 2);
}

fn arena() -> Bounds {
    Bounds { left: 0, bottom: 0, right: px(1920), top: px(1080) }
}

fn resolve(pos_px: (i64, i64), half_px: (i64, i64)) -> (Vec2, Vec2, Contacts) {
    let mut pos = Vec2 { x: px(pos_px.0), y: px(pos_px.1) };
    let mut vel = Vec2 { x: 500, y: -700 };
    let mut c = Contacts { left: false, bottom: false, right: false, top: false };
    let ext = Extent { hx: px(half_px.0), hy: px(half_px.1) };
    resolve_bounds(&mut pos, &mut vel, &mut c, ext, arena());
    (pos, vel, c)
}

#[test]
fn resolver_leaves_interior_body_alone() {
    let (pos, vel, c) = resolve((960, 540), (64, 64));
    assert_eq!((pos.x, pos.y), (px(960), px(540)));
    assert_eq!((vel.x, vel.y), (500, -700));
    assert!(!c.left && !c.right && !c.bottom && !c.top);
}

#[test]
fn resolver_snaps_body_back_inside_and_zeroes_velocity() {
    // poking past the left wall and the floor at once: a corner contact
    let (pos, vel, c) = resolve((10, 20), (64, 64));
    assert_eq!(pos.x, px(64));
    assert_eq!(pos.y, px(64));
    assert_eq!((vel.x, vel.y), (0, 0));
    assert!(c.left && c.bottom && !c.right && !c.top);
}

#[test]
fn resolver_uses_own_half_width_on_the_right_wall() {
    // a wide, short body past the right wall must snap by its half-width
    let (pos, _, c) = resolve((1919, 540), (64, 32));
    assert_eq!(pos.x, px(1920 - 64));
    assert_eq!(pos.y, px(540));
    assert!(c.right && !c.left);
}

#[test]
fn resolver_treats_exact_edge_alignment_as_inside() {
    // edges exactly on the walls: no snap, no contact flags
    let (pos, vel, c) = resolve((64, 1080 - 64), (64, 64));
    assert_eq!((pos.x, pos.y), (px(64), px(1080 - 64)));
    assert_eq!((vel.x, vel.y), (500, -700));
    assert!(!c.left && !c.right && !c.bottom && !c.top);
}

#[test]
fn resolver_confines_every_size_combination() {
    let sizes = [(8, 8), (64, 64), (64, 96), (960, 540)];
    let spots = [(-500, -500), (0, 0), (960, 540), (1920, 1080), (5000, 9999)];
    for &(hx, hy) in sizes.iter() {
        for &(x, y) in spots.iter() {
            let (pos, _, _) = resolve((x, y), (hx, hy));
            assert!(pos.x - px(hx) >= 0, "left edge out for {:?}", ((hx, hy), (x, y)));
            assert!(pos.x + px(hx) <= px(1920));
            assert!(pos.y - px(hy) >= 0);
            assert!(pos.y + px(hy) <= px(1080));
        }
    }
}
