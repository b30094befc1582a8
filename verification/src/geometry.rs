//! Fixed-point geometry mapper. Coordinates are integers in thousandths of a
//! board unit ("milli-units"): the board spans 0..8000 in each axis, one
//! square spans 1000, and the pocket column is a band beside the board around
//! x = 9000. The surrounding application converts pixels to milli-units.
use vstd::prelude::*;

use crate::chess::{Color, Square};

verus! {

/// A point in milli-unit board coordinates. The widget works with
/// coordinates in -16000..=16000; the caller clamps pointer input to that.
#[derive(Clone, Copy, Debug, PartialEq, Eq, Structural)]
pub struct Vec2 {
    pub x: i64,
    pub y: i64,
}

impl Vec2 {
    /// Within the coordinate range the widget works with.
    pub open spec fn in_range(self) -> bool {
        -16000 <= self.x <= 16000 && -16000 <= self.y <= 16000
    }
}

/// Center of `sq` in milli-units for the given orientation. Flipping the
/// orientation mirrors both axes.
pub open spec fn spec_square_center(sq: Square, orient: Color) -> Vec2 {
    match orient {
        Color::White => Vec2 {
            x: (sq.file * 1000 + 500) as i64,
            y: ((7 - sq.rank) * 1000 + 500) as i64,
        },
        Color::Black => Vec2 {
            x: ((7 - sq.file) * 1000 + 500) as i64,
            y: (sq.rank * 1000 + 500) as i64,
        },
    }
}

/// The square under a point, if the point lies in the board region.
pub open spec fn spec_square_at(p: Vec2, orient: Color) -> Option<Square> {
    if 0 <= p.x < 8000 && 0 <= p.y < 8000 {
        let fx = p.x / 1000;
        let fy = p.y / 1000;
        match orient {
            Color::White => Some(Square { file: fx as u8, rank: (7 - fy) as u8 }),
            Color::Black => Some(Square { file: (7 - fx) as u8, rank: fy as u8 }),
        }
    } else {
        None
    }
}

/// The pocket slot index under a point, if the point lies in the pocket band.
/// Slot 0 sits at the bottom of the band, higher slots stack upward.
pub open spec fn spec_pocket_index_at(p: Vec2) -> Option<int> {
    if 8500 <= p.x < 9500 && 0 <= p.y < 8000 {
        Some((7999 - p.y) / 1000)
    } else {
        None
    }
}

/// Center of pocket slot `i`, on the pocket center line.
pub open spec fn spec_slot_center(i: int) -> Vec2 {
    Vec2 { x: 9000, y: (7500 - 1000 * i) as i64 }
}

/// Center of `sq` in milli-units for the given orientation.
pub fn square_center(sq: Square, orient: Color) -> (r: Vec2)
    requires
        sq.wf(),
    ensures
        r == spec_square_center(sq, orient),
        r.in_range(),
        0 <= r.x <= 8000 && 0 <= r.y <= 8000,
{
    match orient {
        Color::White => Vec2 {
            x: (sq.file as i64) * 1000 + 500,
            y: (7 - sq.rank as i64) * 1000 + 500,
        },
        Color::Black => Vec2 {
            x: (7 - sq.file as i64) * 1000 + 500,
            y: (sq.rank as i64) * 1000 + 500,
        },
    }
}

/// The square under a point, or `None` outside the board region.
pub fn square_at(p: Vec2, orient: Color) -> (r: Option<Square>)
    ensures
        r == spec_square_at(p, orient),
        r matches Some(sq) ==> sq.wf(),
{
    if 0 <= p.x && p.x < 8000 && 0 <= p.y && p.y < 8000 {
        let fx = (p.x as u64 / 1000) as u8;
        let fy = (p.y as u64 / 1000) as u8;
        assert(fx == p.x / 1000 && fy == p.y / 1000);
        match orient {
            Color::White => Some(Square { file: fx, rank: 7 - fy }),
            Color::Black => Some(Square { file: 7 - fx, rank: fy }),
        }
    } else {
        None
    }
}

/// The pocket slot under a point, or `None` outside the pocket band.
pub fn pocket_index_at(p: Vec2) -> (r: Option<usize>)
    ensures
        match r {
            Some(i) => spec_pocket_index_at(p) == Some(i as int) && i < 8,
            None => spec_pocket_index_at(p) is None,
        },
{
    if 8500 <= p.x && p.x < 9500 && 0 <= p.y && p.y < 8000 {
        let i = ((7999 - p.y) as u64 / 1000) as usize;
        Some(i)
    } else {
        None
    }
}

/// Center of pocket slot `i`.
pub fn slot_center(i: usize) -> (r: Vec2)
    requires
        i < 8,
    ensures
        r == spec_slot_center(i as int),
        r.in_range(),
{
    Vec2 { x: 9000, y: 7500 - 1000 * (i as i64) }
}

} // verus!
