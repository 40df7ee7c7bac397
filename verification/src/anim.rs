//! The animation state machine: per-clip frame advance, clip chaining and
//! looping, visible-texture selection, and the facing (horizontal flip)
//! rule.
//!
//! Each clip keeps its own frame counter and in-frame timer, so switching
//! the active clip never invalidates another clip's state.  After every
//! update the active clip's frame index is strictly below its frame count.

use vstd::prelude::*;

use crate::units::TIME_LIMIT;

verus! {

/// One animation clip: a non-empty sequence of `frames` textures shown
/// `frame_time` apiece, optionally chaining into clip `next` when it runs
/// past its last frame.  `frame` and `elapsed` are the clip's own cursor.
#[derive(Clone, Copy, Debug)]
pub struct Clip {
    pub frames: usize,
    pub frame_time: i64,
    pub next: Option<usize>,
    pub frame: usize,
    pub elapsed: i64,
}

/// The clips of one animated entity and the index of the active clip.
#[derive(Debug)]
pub struct AnimationSet {
    pub clips: Vec<Clip>,
    pub current: usize,
}

/// Validity of one clip within a set of `nclips` clips.
pub open spec fn clip_wf(c: Clip, nclips: int) -> bool {
    &&& 1 <= c.frames <= 0x1000_0000
    &&& 1 <= c.frame_time <= TIME_LIMIT
    &&& c.frame < c.frames
    &&& 0 <= c.elapsed < c.frame_time
    &&& (c.next matches Some(j) ==> j < nclips)
}

impl Clip {
    /// A fresh clip, cursor at frame 0.
    pub fn new(frames: usize, frame_time: i64, next: Option<usize>) -> (c: Clip)
        requires
            1 <= frames <= 0x1000_0000,
            1 <= frame_time <= TIME_LIMIT,
        ensures
            c == (Clip { frames, frame_time, next, frame: 0, elapsed: 0 }),
    {
        Clip { frames, frame_time, next, frame: 0, elapsed: 0 }
    }
}

impl AnimationSet {
    pub open spec fn wf(self) -> bool {
        &&& 1 <= self.clips.len()
        &&& self.current < self.clips.len()
        &&& forall|i: int|
            0 <= i < self.clips.len() ==> clip_wf(#[trigger] self.clips[i], self.clips.len() as int)
    }
}

/// The mathematical view of an animation set: the clip sequence and the
/// active index.
pub struct AnimView {
    pub clips: Seq<Clip>,
    pub current: int,
}

impl View for AnimationSet {
    type V = AnimView;

    open spec fn view(&self) -> AnimView {
        AnimView { clips: self.clips@, current: self.current as int }
    }
}

/// How many whole frames the active clip steps over when `dt` is added to
/// its in-frame timer.
pub open spec fn steps_of(c: Clip, dt: int) -> int {
    (c.elapsed + dt) / (c.frame_time as int)
}

/// What remains on the in-frame timer after those steps.
pub open spec fn rem_of(c: Clip, dt: int) -> int {
    (c.elapsed + dt) % (c.frame_time as int)
}

/// The frame counter before wrapping or chaining is applied.
pub open spec fn raw_frame(c: Clip, dt: int) -> int {
    c.frame + steps_of(c, dt)
}

/// The active clip has run past its last frame.
pub open spec fn clip_finished(c: Clip, dt: int) -> bool {
    raw_frame(c, dt) >= c.frames
}

/// The clip sequence after one update of set `s` by `dt`.
pub open spec fn clips_after(s: AnimView, dt: int) -> Seq<Clip> {
    let cidx = s.current;
    let c = s.clips[cidx];
    match c.next {
        Some(nxt) => {
            if clip_finished(c, dt) {
                s.clips.update(cidx, Clip { elapsed: rem_of(c, dt) as i64, ..c }).update(
                    nxt as int,
                    Clip { frame: 0, elapsed: 0, ..s.clips[nxt as int] },
                )
            } else {
                s.clips.update(
                    cidx,
                    Clip {
                        frame: raw_frame(c, dt) as usize,
                        elapsed: rem_of(c, dt) as i64,
                        ..c
                    },
                )
            }
        },
        None => s.clips.update(
            cidx,
            Clip {
                frame: (raw_frame(c, dt) % (c.frames as int)) as usize,
                elapsed: rem_of(c, dt) as i64,
                ..c
            },
        ),
    }
}

/// The active clip index after one update: the chained clip when the
/// active one finished and declares a successor, unchanged otherwise.
pub open spec fn current_after(s: AnimView, dt: int) -> int {
    let c = s.clips[s.current];
    match c.next {
        Some(nxt) => if clip_finished(c, dt) {
            nxt as int
        } else {
            s.current
        },
        None => s.current,
    }
}

/// The whole view after one update.
pub open spec fn anim_after(s: AnimView, dt: int) -> AnimView {
    AnimView { clips: clips_after(s, dt), current: current_after(s, dt) }
}

/// The texture to show after one update, as a (clip, frame) pair, or
/// `None` when the resolved (clip, frame) pair is the previous one and
/// need not be re-sent.  `refresh` forces a re-send (the active clip was
/// switched externally).
pub open spec fn tex_after(s: AnimView, dt: int, refresh: bool) -> Option<(usize, usize)> {
    let cidx = s.current;
    let c = s.clips[cidx];
    match c.next {
        Some(nxt) => {
            if clip_finished(c, dt) {
                Some((nxt, 0usize))
            } else {
                let f = raw_frame(c, dt) as usize;
                if refresh || f != c.frame {
                    Some((s.current as usize, f))
                } else {
                    None
                }
            }
        },
        None => {
            let f = (raw_frame(c, dt) % (c.frames as int)) as usize;
            if refresh || f != c.frame {
                Some((s.current as usize, f))
            } else {
                None
            }
        },
    }
}

/// One update of the animation state machine: advance the active clip's
/// timer by `dt`, step frames, then chain to the successor clip or wrap
/// around.  Returns the new visible texture, or `None` when unchanged.
pub fn advance(s: &mut AnimationSet, dt: i64, refresh: bool) -> (tex: Option<(usize, usize)>)
    requires
        old(s).wf(),
        0 <= dt <= TIME_LIMIT,
    ensures
        final(s).wf(),
        final(s)@ == anim_after(old(s)@, dt as int),
        tex == tex_after(old(s)@, dt as int, refresh),
        final(s).clips@.len() == old(s).clips@.len(),
{
    let cidx: usize = s.current;
    let c: Clip = s.clips[cidx];
    let total: u64 = (c.elapsed as u64) + (dt as u64);
    let steps: u64 = total / (c.frame_time as u64);
    let rem: i64 = (total % (c.frame_time as u64)) as i64;
    let raw: i64 = (c.frame as i64) + (steps as i64);
    assert(raw == raw_frame(c, dt as int));
    assert(rem == rem_of(c, dt as int));
    match c.next {
        Some(nxt) => {
            if raw >= c.frames as i64 {
                s.clips[cidx] = Clip { elapsed: rem, ..c };
                let nc: Clip = s.clips[nxt];
                s.clips[nxt] = Clip { frame: 0, elapsed: 0, ..nc };
                s.current = nxt;
                Some((nxt, 0))
            } else {
                s.clips[cidx] = Clip { frame: raw as usize, elapsed: rem, ..c };
                if refresh || raw as usize != c.frame {
                    Some((cidx, raw as usize))
                } else {
                    None
                }
            }
        },
        None => {
            let f: usize = (raw % (c.frames as i64)) as usize;
            s.clips[cidx] = Clip { frame: f, elapsed: rem, ..c };
            if refresh || f != c.frame {
                Some((cidx, f))
            } else {
                None
            }
        },
    }
}

/// The facing rule with hysteresis: moving left flips, moving right
/// unflips, standing still keeps the current facing.
pub open spec fn flip_after(flipped: bool, vx: int) -> bool {
    if vx < 0 {
        true
    } else if vx > 0 {
        false
    } else {
        flipped
    }
}

/// Derives the horizontal-flip flag from the sign of the velocity.
pub fn update_flip(flipped: &mut bool, vx: i64)
    ensures
        *final(flipped) == flip_after(*old(flipped), vx as int),
{
    if vx < 0 && !*flipped {
        *flipped = true;
    } else if vx > 0 && *flipped {
        *flipped = false;
    }
}

} // verus!
