//! The pocket manager: a stack of droppable pieces beside the board, one
//! figurine per role the side to move has in hand, with the same
//! threshold-gated drag semantics as the board. Pointer handlers return the
//! regions to repaint and the event to emit; the toolkit edge performs them.
use vstd::prelude::*;

use crate::chess::{Color, Material, MaterialSide, Piece, Role, Square};
use crate::drag::{
    crossed, origin_region, spec_crossed, Drag, DragSource, DrawItem, GroundMsg, Region,
    PPU_LIMIT,
};
use crate::figurine::{
    all_wf, at_most_one_dragging, no_dragging, Figurine, ALPHA_GHOST, ALPHA_FULL,
};
use crate::geometry::{
    pocket_index_at, slot_center, spec_pocket_index_at, spec_slot_center, spec_square_at,
    square_at, Vec2,
};

verus! {

/// Mathematical model of a pocket widget: its live drag, its figurines and
/// the next free figurine identity.
pub struct PocketsV {
    pub drag: Option<Drag>,
    pub figs: Seq<Figurine>,
    pub next_id: int,
}

/// Well-formedness: figurines are well formed; with no live drag no figurine
/// is flagged as dragging, and with one at most one figurine is.
pub open spec fn v_wf(v: PocketsV) -> bool {
    &&& all_wf(v.figs)
    &&& forall|i: int| 0 <= i < v.figs.len() && v.figs[i].dragging ==> !v.figs[i].fading
    &&& match v.drag {
        None => no_dragging(v.figs),
        Some(d) => d.wf() && at_most_one_dragging(v.figs),
    }
}

/// A freshly created pocket figurine resting in slot `slot`.
pub open spec fn spec_pocket_fig(piece: Piece, slot: int, now: u64, id: u64) -> Figurine {
    Figurine {
        id,
        square: None,
        piece,
        start: spec_slot_center(slot),
        time: now,
        born: now,
        last_drag: 0,
        fading: false,
        replaced: false,
        dragging: false,
    }
}

/// Appends one pocket figurine for `role` when the side holds any; its slot
/// and identity follow from how many stand before it.
pub open spec fn pock_push(
    a: Seq<Figurine>,
    cnt: u8,
    role: Role,
    color: Color,
    now: u64,
    id0: int,
) -> Seq<Figurine> {
    if cnt > 0 {
        a.push(spec_pocket_fig(Piece { color, role }, a.len() as int, now, (id0 + a.len()) as u64))
    } else {
        a
    }
}

/// The pocket contents for one side's material: one figurine per role held,
/// in pawn, knight, bishop, rook, queen order, stacked from slot 0 upward.
/// The king is never droppable and gets no figurine.
pub open spec fn spec_pocket_figs(ms: MaterialSide, color: Color, now: u64, id0: int) -> Seq<
    Figurine,
> {
    let a0 = Seq::<Figurine>::empty();
    let a1 = pock_push(a0, ms.pawns, Role::Pawn, color, now, id0);
    let a2 = pock_push(a1, ms.knights, Role::Knight, color, now, id0);
    let a3 = pock_push(a2, ms.bishops, Role::Bishop, color, now, id0);
    let a4 = pock_push(a3, ms.rooks, Role::Rook, color, now, id0);
    pock_push(a4, ms.queens, Role::Queen, color, now, id0)
}

/// Pointer-down: with the primary button over an occupied pocket slot, and
/// no drag already live, arm a fresh drag on that slot's figurine.
/// A pointer-down while a drag is live changes nothing.
pub open spec fn spec_mouse_down(v: PocketsV, pos: Vec2, button: u8) -> PocketsV {
    if button != 1 || !(v.drag is None) {
        v
    } else {
        match spec_pocket_index_at(pos) {
            Some(i) => if 0 <= i < v.figs.len() && !v.figs[i].fading {
                let f0 = v.figs[i];
                PocketsV {
                    drag: Some(
                        Drag {
                            source: DragSource::FromPocket(i as usize),
                            piece: f0.piece,
                            start: pos,
                            pos: pos,
                            threshold: false,
                        },
                    ),
                    figs: v.figs.update(i, Figurine { dragging: true, ..f0 }),
                    next_id: v.next_id,
                }
            } else {
                v
            },
            None => v,
        }
    }
}

/// Pointer-motion: update the drag's pointer position, latch the threshold
/// once either drag threshold is exceeded, and repaint the overlay around
/// the old and new positions, plus the origin slot once past the threshold.
pub open spec fn spec_mouse_move(v: PocketsV, pos: Vec2, ppu: i64) -> (PocketsV, Seq<Region>) {
    match v.drag {
        None => (v, Seq::<Region>::empty()),
        Some(d) => {
            let th = d.threshold || spec_crossed(d.start, pos, ppu);
            let d2 = Drag { pos: pos, threshold: th, ..d };
            let regs = seq![Region::Around(d.pos), Region::Around(pos)] + if th {
                seq![origin_region(d.source)]
            } else {
                Seq::<Region>::empty()
            };
            (PocketsV { drag: Some(d2), ..v }, regs)
        }
    }
}

/// Every figurine's dragging flag cleared, stamping the release time on the
/// ones that were being dragged.
pub open spec fn spec_clear_dragging(figs: Seq<Figurine>, now: u64) -> Seq<Figurine> {
    Seq::new(
        figs.len(),
        |i: int|
            if figs[i].dragging {
                Figurine { dragging: false, last_drag: now, ..figs[i] }
            } else {
                figs[i]
            },
    )
}

/// Pointer-up: resolve the drag. Past the threshold and over a board square
/// it emits one drop event with that square; below the threshold (a click)
/// or outside the board it emits nothing. Either way the drag ends, the
/// dragged figurine is released, and the whole surface repaints.
pub open spec fn spec_mouse_up(v: PocketsV, pos: Vec2, now: u64, orient: Color) -> (
    PocketsV,
    Option<GroundMsg>,
    Seq<Region>,
) {
    match v.drag {
        None => (v, None::<GroundMsg>, Seq::<Region>::empty()),
        Some(d) => {
            let ev = if d.threshold {
                match spec_square_at(pos, orient) {
                    Some(sq) => Some(GroundMsg::UserDrop(d.piece, sq)),
                    None => None::<GroundMsg>,
                }
            } else {
                None::<GroundMsg>
            };
            (
                PocketsV { drag: None, figs: spec_clear_dragging(v.figs, now), ..v },
                ev,
                seq![Region::Full],
            )
        }
    }
}

/// Whether a figurine is painted as a ghost: it is being dragged and the
/// drag has crossed the threshold.
pub open spec fn ghosted(f: Figurine, drag: Option<Drag>) -> bool {
    f.dragging && match drag {
        Some(d) => d.threshold,
        None => false,
    }
}

/// How one figurine is painted at `now`.
pub open spec fn spec_draw_item(f: Figurine, drag: Option<Drag>, now: u64, orient: Color) -> DrawItem {
    DrawItem {
        piece: f.piece,
        at: f.spec_pos_at(now, orient),
        alpha: if ghosted(f, drag) {
            ALPHA_GHOST
        } else {
            f.spec_alpha_at(now) as u64
        },
    }
}

/// The overlay for the actively dragged piece: painted fully opaque at the
/// pointer, and only once the drag has crossed the threshold.
pub open spec fn spec_draw_drag(drag: Option<Drag>) -> Option<DrawItem> {
    match drag {
        Some(d) => if d.threshold {
            Some(DrawItem { piece: d.piece, at: d.pos, alpha: ALPHA_FULL })
        } else {
            None::<DrawItem>
        },
        None => None::<DrawItem>,
    }
}

/// The pocket widget: its figurines and its live drag, if any.
pub struct Pockets {
    drag: Option<Drag>,
    figurines: Vec<Figurine>,
    next_id: u64,
}

impl View for Pockets {
    type V = PocketsV;

    closed spec fn view(&self) -> PocketsV {
        PocketsV { drag: self.drag, figs: self.figurines@, next_id: self.next_id as int }
    }
}

impl Pockets {
    pub open spec fn wf(&self) -> bool {
        v_wf(self@)
    }

    /// An empty pocket area with no live drag.
    pub fn new() -> (r: Pockets)
        ensures
            r.wf(),
            r@.figs == Seq::<Figurine>::empty(),
            r@.drag is None,
            r@.next_id == 0,
    {
        Pockets { drag: None, figurines: Vec::new(), next_id: 0 }
    }

    /// Appends one pocket figurine in the next free slot.
    fn push_pocket_fig(&mut self, piece: Piece, now: u64)
        requires
            old(self)@.figs.len() < 8,
            old(self)@.next_id + 1 <= u64::MAX,
        ensures
            final(self)@.figs == pock_push(
                old(self)@.figs,
                1u8,
                piece.role,
                piece.color,
                now,
                old(self)@.next_id - old(self)@.figs.len(),
            ),
            final(self)@.drag == old(self)@.drag,
            final(self)@.next_id == old(self)@.next_id + 1,
    {
        let slot = self.figurines.len();
        let c = slot_center(slot);
        self.figurines.push(
            Figurine {
                id: self.next_id,
                square: None,
                piece,
                start: c,
                time: now,
                born: now,
                last_drag: 0,
                fading: false,
                replaced: false,
                dragging: false,
            },
        );
        self.next_id = self.next_id + 1;
    }

    /// Rebuilds the pocket contents for the side to move: one figurine per
    /// role held, anchored at `now` so they fade in uniformly. The live
    /// drag, if any, is left untouched; its origin figurine is rebuilt
    /// undragged, as the drag itself remembers the piece it carries.
    pub fn set_pockets(&mut self, material: &Material, turn: Color, now: u64)
        requires
            old(self).wf(),
            old(self)@.next_id + 8 <= u64::MAX,
        ensures
            final(self).wf(),
            final(self)@.figs == spec_pocket_figs(
                material.spec_side(turn),
                turn,
                now,
                old(self)@.next_id,
            ),
            final(self)@.drag == old(self)@.drag,
            final(self)@.next_id == old(self)@.next_id + final(self)@.figs.len(),
    {
        let ghost id0 = self@.next_id;
        let ms = material.side(turn);
        self.figurines = Vec::new();
        if ms.pawns > 0 {
            self.push_pocket_fig(Piece { color: turn, role: Role::Pawn }, now);
        }
        if ms.knights > 0 {
            self.push_pocket_fig(Piece { color: turn, role: Role::Knight }, now);
        }
        if ms.bishops > 0 {
            self.push_pocket_fig(Piece { color: turn, role: Role::Bishop }, now);
        }
        if ms.rooks > 0 {
            self.push_pocket_fig(Piece { color: turn, role: Role::Rook }, now);
        }
        if ms.queens > 0 {
            self.push_pocket_fig(Piece { color: turn, role: Role::Queen }, now);
        }
        proof {
            assert(self@.figs =~= spec_pocket_figs(ms, turn, now, id0));
            assert forall|i: int| 0 <= i < self@.figs.len() implies self@.figs[i].wf() by {
                assert(0 <= 7500 - 1000 * i <= 16000);
            }
        }
    }

    /// Pointer-down (see `spec_mouse_down`).
    pub fn drag_mouse_down(&mut self, pos: Vec2, button: u8)
        requires
            old(self).wf(),
            pos.in_range(),
        ensures
            final(self).wf(),
            final(self)@ == spec_mouse_down(old(self)@, pos, button),
    {
        if button != 1 {
            return ;
        }
        if self.drag.is_some() {
            return ;
        }
        match pocket_index_at(pos) {
            Some(i) => {
                if i < self.figurines.len() && !self.figurines[i].fading {
                    let f0 = self.figurines[i];
                    let mut f = f0;
                    f.dragging = true;
                    self.figurines[i] = f;
                    self.drag = Some(
                        Drag {
                            source: DragSource::FromPocket(i),
                            piece: f0.piece,
                            start: pos,
                            pos: pos,
                            threshold: false,
                        },
                    );
                }
            },
            None => {},
        }
    }

    /// Pointer-motion (see `spec_mouse_move`). Returns the regions to
    /// repaint.
    pub fn drag_mouse_move(&mut self, pos: Vec2, ppu: i64) -> (r: Vec<Region>)
        requires
            old(self).wf(),
            pos.in_range(),
            0 <= ppu <= PPU_LIMIT,
        ensures
            final(self).wf(),
            final(self)@ == spec_mouse_move(old(self)@, pos, ppu).0,
            r@ == spec_mouse_move(old(self)@, pos, ppu).1,
    {
        let mut regs: Vec<Region> = Vec::new();
        if let Some(d) = self.drag {
            regs.push(Region::Around(d.pos));
            regs.push(Region::Around(pos));
            let th = d.threshold || crossed(d.start, pos, ppu);
            if th {
                match d.source {
                    DragSource::FromSquare(sq) => regs.push(Region::OfSquare(sq)),
                    DragSource::FromPocket(i) => regs.push(Region::OfSlot(i)),
                }
            }
            self.drag = Some(
                Drag { source: d.source, piece: d.piece, start: d.start, pos: pos, threshold: th },
            );
            proof {
                assert(regs@ =~= spec_mouse_move(old(self)@, pos, ppu).1);
            }
        }
        regs
    }

    /// Pointer-up (see `spec_mouse_up`). Returns the event to emit, if any,
    /// and the regions to repaint.
    pub fn drag_mouse_up(&mut self, pos: Vec2, now: u64, orient: Color) -> (r: (
        Option<GroundMsg>,
        Vec<Region>,
    ))
        requires
            old(self).wf(),
            pos.in_range(),
        ensures
            final(self).wf(),
            final(self)@ == spec_mouse_up(old(self)@, pos, now, orient).0,
            r.0 == spec_mouse_up(old(self)@, pos, now, orient).1,
            r.1@ == spec_mouse_up(old(self)@, pos, now, orient).2,
    {
        let d = match self.drag {
            Some(d) => d,
            None => {
                return (None, Vec::new());
            },
        };
        self.drag = None;
        let n = self.figurines.len();
        let mut i: usize = 0;
        while i < n
            invariant
                n == self.figurines.len(),
                n == old(self)@.figs.len(),
                i <= n,
                self.drag is None,
                self.next_id == old(self).next_id,
                forall|k: int|
                    0 <= k < i ==> self.figurines@[k] == spec_clear_dragging(
                        old(self)@.figs,
                        now,
                    )[k],
                forall|k: int| i <= k < n ==> self.figurines@[k] == old(self)@.figs[k],
            decreases n - i,
        {
            let f = self.figurines[i];
            if f.dragging {
                let mut f2 = f;
                f2.dragging = false;
                f2.last_drag = now;
                self.figurines[i] = f2;
            }
            i = i + 1;
        }
        proof {
            assert(self.figurines@ =~= spec_clear_dragging(old(self)@.figs, now));
        }
        let ev = if d.threshold {
            match square_at(pos, orient) {
                Some(sq) => Some(GroundMsg::UserDrop(d.piece, sq)),
                None => None,
            }
        } else {
            None
        };
        let mut regs: Vec<Region> = Vec::new();
        regs.push(Region::Full);
        proof {
            assert(regs@ =~= seq![Region::Full]);
        }
        (ev, regs)
    }

    /// Index of the figurine currently being dragged, if any. The store is
    /// left unchanged; the index lets the caller address that figurine.
    pub fn dragging_mut(&mut self) -> (r: Option<usize>)
        ensures
            *final(self) == *old(self),
            match r {
                Some(i) => 0 <= i < old(self)@.figs.len() && old(self)@.figs[i as int].dragging,
                None => no_dragging(old(self)@.figs),
            },
    {
        let n = self.figurines.len();
        let mut i: usize = 0;
        while i < n
            invariant
                n == self.figurines.len(),
                i <= n,
                forall|k: int| 0 <= k < i ==> !self.figurines@[k].dragging,
            decreases n - i,
        {
            if self.figurines[i].dragging {
                return Some(i);
            }
            i = i + 1;
        }
        None
    }

    /// The draw plan for all pocket figurines at `now`: each at its animated
    /// position and opacity, the actively dragged one ghosted.
    pub fn draw(&self, now: u64, orient: Color) -> (r: Vec<DrawItem>)
        requires
            self.wf(),
        ensures
            r@.len() == self@.figs.len(),
            forall|i: int|
                0 <= i < r@.len() ==> r@[i] == spec_draw_item(self@.figs[i], self@.drag, now, orient),
    {
        let mut r: Vec<DrawItem> = Vec::new();
        let n = self.figurines.len();
        let mut i: usize = 0;
        while i < n
            invariant
                self.wf(),
                n == self.figurines.len(),
                i <= n,
                r@.len() == i,
                forall|k: int|
                    0 <= k < i ==> r@[k] == spec_draw_item(self@.figs[k], self@.drag, now, orient),
            decreases n - i,
        {
            let f = self.figurines[i];
            let ghost_it = f.dragging && match self.drag {
                Some(d) => d.threshold,
                None => false,
            };
            let alpha = if ghost_it {
                ALPHA_GHOST
            } else {
                f.alpha_at(now)
            };
            r.push(DrawItem { piece: f.piece, at: f.pos_at(now, orient), alpha });
            i = i + 1;
        }
        r
    }

    /// The overlay for the actively dragged piece (see `spec_draw_drag`).
    pub fn draw_drag(&self) -> (r: Option<DrawItem>)
        ensures
            r == spec_draw_drag(self@.drag),
    {
        match self.drag {
            Some(d) => if d.threshold {
                Some(DrawItem { piece: d.piece, at: d.pos, alpha: ALPHA_FULL })
            } else {
                None
            },
            None => None,
        }
    }

    /// How many figurines the pocket holds.
    pub fn figurine_count(&self) -> (r: usize)
        ensures
            r == self@.figs.len(),
    {
        self.figurines.len()
    }

    /// The figurine in slot `i`.
    pub fn figurine(&self, i: usize) -> (r: Figurine)
        requires
            i < self@.figs.len(),
        ensures
            r == self@.figs[i as int],
    {
        self.figurines[i]
    }

    /// The next figurine identity to be handed out.
    pub fn next_id(&self) -> (r: u64)
        ensures
            r as int == self@.next_id,
    {
        self.next_id
    }

    /// The live drag, if any.
    pub fn drag_state(&self) -> (r: Option<Drag>)
        ensures
            r == self@.drag,
    {
        self.drag
    }
}

/// Law: a pointer-down, pointer motion below both drag thresholds, and a
/// release emit no event and leave no drag live; motion past either
/// threshold released over a board square emits exactly one drop event
/// carrying the dragged piece and that square.
pub proof fn lemma_drag_threshold(
    s: PocketsV,
    i: int,
    down_pos: Vec2,
    move_pos: Vec2,
    up_pos: Vec2,
    ppu: i64,
    now: u64,
    orient: Color,
)
    requires
        v_wf(s),
        s.drag is None,
        spec_pocket_index_at(down_pos) == Some(i),
        0 <= i < s.figs.len(),
        !s.figs[i].fading,
    ensures
        ({
            let s1 = spec_mouse_down(s, down_pos, 1);
            let s2 = spec_mouse_move(s1, move_pos, ppu).0;
            let up = spec_mouse_up(s2, up_pos, now, orient);
            &&& !spec_crossed(down_pos, move_pos, ppu) ==> up.1 is None
            &&& spec_crossed(down_pos, move_pos, ppu) ==> (spec_square_at(up_pos, orient) matches
                Some(sq) ==> up.1 == Some(GroundMsg::UserDrop(s.figs[i].piece, sq)))
            &&& up.0.drag is None
        }),
{
    let s1 = spec_mouse_down(s, down_pos, 1);
    assert(s1.drag == Some(
        Drag {
            source: DragSource::FromPocket(i as usize),
            piece: s.figs[i].piece,
            start: down_pos,
            pos: down_pos,
            threshold: false,
        },
    ));
}

/// Law: at most one drag and one dragged figurine are ever live on the
/// pocket surface. A pointer-down while a drag is live changes nothing, and
/// an arming pointer-down flags exactly the chosen figurine.
pub proof fn lemma_single_active_drag(s: PocketsV, pos: Vec2, button: u8)
    requires
        v_wf(s),
        pos.in_range(),
    ensures
        s.drag is Some ==> spec_mouse_down(s, pos, button) == s,
        v_wf(spec_mouse_down(s, pos, button)),
        at_most_one_dragging(spec_mouse_down(s, pos, button).figs),
{
    let s1 = spec_mouse_down(s, pos, button);
    if button == 1 && s.drag is None {
        match spec_pocket_index_at(pos) {
            Some(i) => {
                if 0 <= i < s.figs.len() && !s.figs[i].fading {
                    assert forall|a: int, b: int|
                        0 <= a < s1.figs.len() && 0 <= b < s1.figs.len() && s1.figs[a].dragging
                            && s1.figs[b].dragging implies a == b by {
                        assert(a != i ==> s1.figs[a] == s.figs[a]);
                        assert(b != i ==> s1.figs[b] == s.figs[b]);
                    }
                    assert(all_wf(s1.figs)) by {
                        assert(forall|k: int|
                            0 <= k < s1.figs.len() && k != i ==> s1.figs[k] == s.figs[k]);
                        assert(s1.figs[i].wf());
                    }
                }
            },
            None => {},
        }
    }
    if !(s.drag is None) || button != 1 {
        assert(s1 == s);
    }
    assert(at_most_one_dragging(s1.figs)) by {
        if s1.drag is None {
            assert(no_dragging(s1.figs));
        }
    }
}

} // verus!
