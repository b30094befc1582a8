//! Threshold-gated drags, the events the widget emits, and the redraw and
//! draw-plan values it hands back to the toolkit edge. A pointer interaction
//! becomes a drag only once its motion exceeds a normalized distance of 0.1
//! board units or a device distance of 4 pixels, whichever comes first.
use vstd::prelude::*;

use crate::chess::{Piece, Role, Square};
use crate::geometry::Vec2;

verus! {

/// Squared normalized drag threshold: (0.1 board units)^2 in milli-units^2.
pub const NORM_THRESHOLD_SQ: i64 = 10000;

/// Squared device drag threshold: (4 pixels)^2 in (milli-unit * ppu)^2,
/// where ppu is the device scale in pixels per board unit.
pub const DEVICE_THRESHOLD_SQ: i64 = 16000000;

/// Largest supported device scale, in pixels per board unit.
pub const PPU_LIMIT: i64 = 4096;

/// Where a drag started: a board square or a pocket slot.
#[derive(Clone, Copy, Debug, PartialEq, Eq, Structural)]
pub enum DragSource {
    FromSquare(Square),
    FromPocket(usize),
}

/// Transient state of one pointer-driven interaction, alive between
/// pointer-down and pointer-up. At most one exists per input surface.
#[derive(Clone, Copy, Debug)]
pub struct Drag {
    pub source: DragSource,
    /// The piece being moved, remembered independently of the store.
    pub piece: Piece,
    /// Pointer position at pointer-down.
    pub start: Vec2,
    /// Current pointer position.
    pub pos: Vec2,
    /// Whether the motion so far has exceeded a drag threshold.
    pub threshold: bool,
}

impl Drag {
    pub open spec fn wf(self) -> bool {
        &&& self.start.in_range()
        &&& self.pos.in_range()
        &&& match self.source {
            DragSource::FromSquare(sq) => sq.wf(),
            DragSource::FromPocket(i) => i < 8,
        }
    }
}

/// Squared distance between two points, in milli-units squared.
pub open spec fn dist2(a: Vec2, b: Vec2) -> int {
    (a.x - b.x) * (a.x - b.x) + (a.y - b.y) * (a.y - b.y)
}

/// Whether motion from `start` to `pos` exceeds the normalized threshold or,
/// at device scale `ppu` (pixels per board unit), the device threshold.
pub open spec fn spec_crossed(start: Vec2, pos: Vec2, ppu: i64) -> bool {
    dist2(start, pos) >= NORM_THRESHOLD_SQ
        || dist2(start, pos) * ppu * ppu >= DEVICE_THRESHOLD_SQ
}

/// Threshold test (see `spec_crossed`).
pub fn crossed(start: Vec2, pos: Vec2, ppu: i64) -> (r: bool)
    requires
        start.in_range(),
        pos.in_range(),
        0 <= ppu <= PPU_LIMIT,
    ensures
        r == spec_crossed(start, pos, ppu),
{
    let dx: i64 = start.x - pos.x;
    let dy: i64 = start.y - pos.y;
    proof {
        assert(dx * dx <= 32000 * 32000 && dx * dx >= 0) by (nonlinear_arith)
            requires
                -32000 <= dx <= 32000,
        ;
        assert(dy * dy <= 32000 * 32000 && dy * dy >= 0) by (nonlinear_arith)
            requires
                -32000 <= dy <= 32000,
        ;
        assert(0 <= ppu * ppu <= 4096 * 4096) by (nonlinear_arith)
            requires
                0 <= ppu <= 4096,
        ;
    }
    let d2: i64 = dx * dx + dy * dy;
    let pp: i64 = ppu * ppu;
    proof {
        assert(0 <= d2 * pp <= 2048000000 * 16777216 && d2 * ppu * ppu == d2 * pp)
            by (nonlinear_arith)
            requires
                0 <= d2 <= 2048000000,
                0 <= pp <= 16777216,
                pp == ppu * ppu,
        ;
    }
    d2 >= NORM_THRESHOLD_SQ || d2 * pp >= DEVICE_THRESHOLD_SQ
}

/// A region of the surface that must be repainted.
#[derive(Clone, Copy, Debug, PartialEq, Eq, Structural)]
pub enum Region {
    /// The unit square centered on a point (the drag overlay's footprint).
    Around(Vec2),
    /// One board square.
    OfSquare(Square),
    /// One pocket slot.
    OfSlot(usize),
    /// The whole surface.
    Full,
}

/// The region a drag's origin occupies.
pub open spec fn origin_region(src: DragSource) -> Region {
    match src {
        DragSource::FromSquare(sq) => Region::OfSquare(sq),
        DragSource::FromPocket(i) => Region::OfSlot(i),
    }
}

/// An event emitted to the application on drag release. Both are advisory:
/// the consumer validates legality and calls back with the resulting
/// position; the store is never mutated speculatively.
#[derive(Clone, Copy, Debug)]
pub enum GroundMsg {
    /// A piece was dragged from one square to another, with the promotion
    /// role choice carried through when the consumer supplied one.
    UserMove(Square, Square, Option<Role>),
    /// A pocket piece was dropped onto a square.
    UserDrop(Piece, Square),
}

/// One entry of a draw plan: paint `piece` centered at `at` (milli-units)
/// with opacity `alpha` (thousandths). Entries are painted in order.
#[derive(Clone, Copy, Debug)]
pub struct DrawItem {
    pub piece: Piece,
    pub at: Vec2,
    pub alpha: u64,
}

} // verus!
