//! The animation state machine: frame bounds under every time delta,
//! looping, chaining, texture-change reporting, and the facing rule.

use unfaireum::anim::{advance, update_flip, AnimationSet, Clip};

fn looping_clip() -> AnimationSet {
    // three frames of 450 each, looping seamlessly
    AnimationSet { clips: vec![Clip::new(3, 450, None)], current: 0 }
}

#[test]
fn frame_index_stays_below_frame_count_for_all_deltas() {
    // dt from zero to ten times the frame duration
    for dt in 0..=4500 {
        let mut a = looping_clip();
        advance(&mut a, dt, false);
        let c = a.clips[a.current];
        assert!(c.frame < c.frames, "frame out of range at dt={}", dt);
        assert!(c.elapsed < c.frame_time);
    }
}

#[test]
fn frames_advance_and_wrap_seamlessly() {
    let mut a = looping_clip();
    assert_eq!(advance(&mut a, 450, false), Some((0, 1)));
    assert_eq!(advance(&mut a, 450, false), Some((0, 2)));
    // wrapping back to frame 0
    assert_eq!(advance(&mut a, 450, false), Some((0, 0)));
}

#[test]
fn large_hitch_steps_many_frames_at_once() {
    let mut a = looping_clip();
    // 10x the frame duration: 10 frames, 10 % 3 == 1
    assert_eq!(advance(&mut a, 4500, false), Some((0, 1)));
    assert_eq!(a.clips[0].elapsed, 0);
}

#[test]
fn unchanged_frame_reports_no_texture_change() {
    let mut a = looping_clip();
    assert_eq!(advance(&mut a, 10, false), None);
    assert_eq!(a.clips[0].elapsed, 10);
}

#[test]
fn refresh_forces_texture_report_even_when_frame_stalls() {
    let mut a = looping_clip();
    assert_eq!(advance(&mut a, 10, true), Some((0, 0)));
}

#[test]
fn finished_clip_chains_into_its_successor() {
    // clip 1 has 3 frames of 360 and chains into clip 0
    let mut a = AnimationSet {
        clips: vec![Clip::new(1, 3600, None), Clip::new(3, 360, Some(0))],
        current: 1,
    };
    assert_eq!(advance(&mut a, 360, false), Some((1, 1)));
    assert_eq!(advance(&mut a, 360, false), Some((1, 2)));
    // running past the last frame switches to the successor at frame 0
    assert_eq!(advance(&mut a, 360, false), Some((0, 0)));
    assert_eq!(a.current, 0);
    assert_eq!(a.clips[0].frame, 0);
    assert_eq!(a.clips[0].elapsed, 0);
}

#[test]
fn chained_clip_keeps_other_clips_cursors() {
    let mut a = AnimationSet {
        clips: vec![Clip::new(4, 100, None), Clip::new(2, 360, Some(0))],
        current: 0,
    };
    // move clip 0 to frame 2, then switch to clip 1 and let it finish
    advance(&mut a, 200, false);
    assert_eq!(a.clips[0].frame, 2);
    a.current = 1;
    advance(&mut a, 720, false);
    assert_eq!(a.current, 0);
    // the chain reset clip 0's cursor to frame 0
    assert_eq!(a.clips[0].frame, 0);
}

#[test]
fn stalled_successor_clip_reports_no_texture_change() {
    // a chained clip whose frame does not move reports no write either
    let mut a = AnimationSet {
        clips: vec![Clip::new(1, 3600, None), Clip::new(3, 360, Some(0))],
        current: 1,
    };
    assert_eq!(advance(&mut a, 100, false), None);
    assert_eq!(a.clips[1].elapsed, 100);
    assert_eq!(advance(&mut a, 100, true), Some((1, 0)));
}

#[test]
fn facing_flips_on_sign_and_holds_at_zero() {
    let mut f = false;
    update_flip(&mut f, -5);
    assert!(f);
    update_flip(&mut f, 0);
    assert!(f, "zero velocity must keep the current facing");
    update_flip(&mut f, 7);
    assert!(!f);
    update_flip(&mut f, 0);
    assert!(!f);
}
