//! Figurines: visual piece instances with their animation and fade state.
//! A figurine's rendered position and opacity are pure functions of its
//! stored anchors and the sampling time, so redraws need no timer thread:
//! the widget samples `pos_at` and `alpha_at` whenever it paints.
use vstd::prelude::*;

use crate::chess::{Color, Piece, Square};
use crate::geometry::{spec_square_center, square_center, Vec2};

verus! {

/// Duration of a position animation, in milliseconds.
pub const ANIM_MS: u64 = 200;

/// Duration of a fade-in or fade-out, in milliseconds.
pub const FADE_MS: u64 = 200;

/// After a drag release, reconciliation placing the released piece within
/// this window does not start a slide animation (avoids a visible flicker).
pub const DRAG_SUPPRESS_MS: u64 = 50;

/// Opacity is measured in thousandths: 1000 is fully opaque.
pub const ALPHA_FULL: u64 = 1000;

/// Opacity of the ghost left on the origin while its piece is dragged.
pub const ALPHA_GHOST: u64 = 200;

/// A visual instance of a piece, on the board (`square` is `Some`) or in a
/// pocket slot (`square` is `None`, resting at its `start` point).
#[derive(Clone, Copy, Debug)]
pub struct Figurine {
    /// Stable identity, so that reconciliation can reuse instances.
    pub id: u64,
    /// The assigned board square, or `None` for a pocket figurine.
    pub square: Option<Square>,
    pub piece: Piece,
    /// Screen point (milli-units) the position animation starts from.
    pub start: Vec2,
    /// Start time of the position (and fade-out) animation, in ms.
    pub time: u64,
    /// Creation time, anchoring the fade-in.
    pub born: u64,
    /// Time of the last drag release on this figurine.
    pub last_drag: u64,
    /// Being removed: fades out and is then purged.
    pub fading: bool,
    /// Superseded by a different piece on its square (e.g. promotion).
    pub replaced: bool,
    /// Currently the subject of a pointer drag.
    pub dragging: bool,
}

impl Figurine {
    pub open spec fn wf(self) -> bool {
        &&& 0 <= self.start.x <= 16000
        &&& 0 <= self.start.y <= 16000
        &&& match self.square {
            Some(sq) => sq.wf(),
            None => true,
        }
    }

    /// The screen point this figurine animates toward: its square's center,
    /// or its own start point for a pocket figurine.
    pub open spec fn spec_target(self, orient: Color) -> Vec2 {
        match self.square {
            Some(sq) => spec_square_center(sq, orient),
            None => self.start,
        }
    }

    /// Elapsed animation time at `now`, clamped to the animation duration.
    pub open spec fn spec_elapsed(self, now: u64) -> int {
        if now <= self.time {
            0
        } else if now - self.time >= ANIM_MS {
            ANIM_MS as int
        } else {
            now - self.time
        }
    }

    /// Rendered position at `now`: linear interpolation from `start` to the
    /// target, exactly the target once the animation duration has elapsed.
    pub open spec fn spec_pos_at(self, now: u64, orient: Color) -> Vec2 {
        let t = self.spec_elapsed(now);
        let tgt = self.spec_target(orient);
        Vec2 {
            x: ((self.start.x * (200 - t) + tgt.x * t) / 200) as i64,
            y: ((self.start.y * (200 - t) + tgt.y * t) / 200) as i64,
        }
    }

    /// Rendered opacity at `now`, in thousandths: fading figurines ramp from
    /// full down to zero, others ramp up from their creation time to full.
    pub open spec fn spec_alpha_at(self, now: u64) -> int {
        if self.fading {
            if now <= self.time {
                1000
            } else if now - self.time >= FADE_MS {
                0
            } else {
                (FADE_MS - (now - self.time)) * 1000 / (FADE_MS as int)
            }
        } else {
            if now <= self.born {
                0
            } else if now - self.born >= FADE_MS {
                1000
            } else {
                (now - self.born) * 1000 / (FADE_MS as int)
            }
        }
    }

    /// Fully settled: at its target, fully opaque, not on the way out.
    pub open spec fn at_rest(self, now: u64, orient: Color) -> bool {
        &&& self.spec_pos_at(now, orient) == self.spec_target(orient)
        &&& !self.fading
        &&& self.spec_alpha_at(now) == 1000
    }

    /// All its animations have run to completion by `now`.
    pub open spec fn settled(self, now: u64) -> bool {
        &&& now >= self.time + ANIM_MS
        &&& now >= self.born + FADE_MS
        &&& !self.fading
    }

    /// Has faded out completely and may be purged from the store.
    pub open spec fn faded_out(self, now: u64) -> bool {
        self.fading && now >= self.time + FADE_MS
    }

    /// Reconciliation placed this figurine too soon after a drag release to
    /// warrant a slide animation.
    pub open spec fn spec_suppressed(self, now: u64) -> bool {
        now < self.last_drag + DRAG_SUPPRESS_MS
    }

    /// Rendered position at `now` (see `spec_pos_at`).
    pub fn pos_at(&self, now: u64, orient: Color) -> (r: Vec2)
        requires
            self.wf(),
        ensures
            r == self.spec_pos_at(now, orient),
            0 <= r.x <= 16000 && 0 <= r.y <= 16000,
    {
        let t: u64 = if now <= self.time {
            0
        } else if now - self.time >= ANIM_MS {
            ANIM_MS
        } else {
            now - self.time
        };
        let tgt: Vec2 = match self.square {
            Some(sq) => square_center(sq, orient),
            None => self.start,
        };
        let sx: u64 = self.start.x as u64;
        let sy: u64 = self.start.y as u64;
        let tx: u64 = tgt.x as u64;
        let ty: u64 = tgt.y as u64;
        proof {
            assert(forall|a: int, b: int|
                0 <= a <= 16000 && 0 <= b <= 200 ==> #[trigger] (a * b) <= 3200000)
                by (nonlinear_arith);
            assert(forall|a: int, b: int| 0 <= a && 0 <= b ==> #[trigger] (a * b) >= 0)
                by (nonlinear_arith);
            assert(forall|a: int, b: int, t: int|
                0 <= a <= 16000 && 0 <= b <= 16000 && 0 <= t <= 200
                    ==> #[trigger] (a * (200 - t) + b * t) <= 3200000) by (nonlinear_arith);
        }
        let x: u64 = (sx * (200 - t) + tx * t) / 200;
        let y: u64 = (sy * (200 - t) + ty * t) / 200;
        Vec2 { x: x as i64, y: y as i64 }
    }

    /// Rendered opacity at `now` (see `spec_alpha_at`).
    pub fn alpha_at(&self, now: u64) -> (r: u64)
        ensures
            r == self.spec_alpha_at(now),
            r <= 1000,
    {
        if self.fading {
            if now <= self.time {
                1000
            } else if now - self.time >= FADE_MS {
                0
            } else {
                (FADE_MS - (now - self.time)) * 1000 / FADE_MS
            }
        } else {
            if now <= self.born {
                0
            } else if now - self.born >= FADE_MS {
                1000
            } else {
                (now - self.born) * 1000 / FADE_MS
            }
        }
    }

    /// A settled figurine renders at rest.
    pub proof fn lemma_settled_at_rest(self, now: u64, orient: Color)
        requires
            self.settled(now),
        ensures
            self.at_rest(now, orient),
    {
        assert(self.spec_elapsed(now) == 200);
    }
}

/// No figurine in the store is being dragged.
pub open spec fn no_dragging(figs: Seq<Figurine>) -> bool {
    forall|i: int| 0 <= i < figs.len() ==> !figs[i].dragging
}

/// At most one figurine in the store is being dragged.
pub open spec fn at_most_one_dragging(figs: Seq<Figurine>) -> bool {
    forall|i: int, j: int|
        0 <= i < figs.len() && 0 <= j < figs.len() && figs[i].dragging && figs[j].dragging
            ==> i == j
}

/// Every figurine in the store is well formed.
pub open spec fn all_wf(figs: Seq<Figurine>) -> bool {
    forall|i: int| 0 <= i < figs.len() ==> figs[i].wf()
}

} // verus!
