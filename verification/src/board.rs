//! The board widget: its figurine store, the reconciliation engine that
//! diffs the store against a newly confirmed position, the purge of
//! fully-faded figurines, and the board drag controller.
//!
//! Reconciliation walks the occupied squares in scan order. For each it
//! reuses a figurine already standing on the square (resetting fade flags),
//! else the first unused matching figurine whose own square lost that piece
//! (retargeting it and starting a slide from its old screen position), else
//! it creates a fresh figurine in place. Old figurines left unmatched are
//! marked fading and purged once their fade has elapsed. The first-match
//! rule in scan order is the deterministic tie-break for ambiguous pairings.
use vstd::prelude::*;

use crate::chess::{lemma_sq_roundtrip, sq_of, Color, Piece, Position, Role, Square};
use crate::drag::{
    crossed, origin_region, spec_crossed, Drag, DragSource, DrawItem, GroundMsg, Region,
    PPU_LIMIT,
};
use crate::figurine::{
    all_wf, at_most_one_dragging, no_dragging, Figurine, ALPHA_GHOST, ALPHA_FULL,
    DRAG_SUPPRESS_MS, FADE_MS,
};
use crate::geometry::{spec_square_at, spec_square_center, square_at, square_center, Vec2};
use crate::pockets::{spec_clear_dragging, spec_draw_drag, spec_draw_item};

verus! {

/// The occupants of the first `n` squares of `pos`, in scan order.
pub open spec fn occ_upto(pos: Seq<Option<Piece>>, n: int) -> Seq<(Square, Piece)>
    decreases n,
{
    if n <= 0 {
        Seq::<(Square, Piece)>::empty()
    } else {
        occ_upto(pos, n - 1) + match pos[n - 1] {
            Some(p) => seq![(sq_of(n - 1), p)],
            None => Seq::<(Square, Piece)>::empty(),
        }
    }
}

/// A figurine already standing on `sq` with the right piece: the cheapest
/// reuse, no movement.
pub open spec fn stay_match(f: Figurine, sq: Square, p: Piece) -> bool {
    f.square == Some(sq) && f.piece == p
}

/// A figurine elsewhere on the board with a matching piece that is no
/// longer on its own square in the new position: it moved to `sq`.
pub open spec fn move_match(f: Figurine, sq: Square, p: Piece, pos: Seq<Option<Piece>>) -> bool {
    &&& f.piece == p
    &&& !f.fading
    &&& match f.square {
        Some(s) => s != sq && pos[s.idx()] != Some(p),
        None => false,
    }
}

/// Index of the first unused stay-match at or after `i`, or -1.
pub open spec fn find_stay_idx(
    figs: Seq<Figurine>,
    used: Seq<bool>,
    sq: Square,
    p: Piece,
    i: int,
) -> int
    decreases figs.len() - i,
{
    if i < 0 || i >= figs.len() {
        -1
    } else if !used[i] && stay_match(figs[i], sq, p) {
        i
    } else {
        find_stay_idx(figs, used, sq, p, i + 1)
    }
}

/// Index of the first unused move-match at or after `i`, or -1.
pub open spec fn find_move_idx(
    figs: Seq<Figurine>,
    used: Seq<bool>,
    sq: Square,
    p: Piece,
    pos: Seq<Option<Piece>>,
    i: int,
) -> int
    decreases figs.len() - i,
{
    if i < 0 || i >= figs.len() {
        -1
    } else if !used[i] && move_match(figs[i], sq, p, pos) {
        i
    } else {
        find_move_idx(figs, used, sq, p, pos, i + 1)
    }
}

/// A stay-reused figurine: identity and animation kept, fade flags reset.
pub open spec fn reuse_stay(f: Figurine) -> Figurine {
    Figurine { fading: false, replaced: false, ..f }
}

/// A move-reused figurine: retargeted to `sq`, sliding from its old screen
/// position starting at `now` — unless the figurine was released from a
/// drag a moment ago, in which case it is placed without a slide.
pub open spec fn reuse_move(f: Figurine, sq: Square, now: u64, orient: Color) -> Figurine {
    if f.spec_suppressed(now) {
        Figurine {
            square: Some(sq),
            start: spec_square_center(sq, orient),
            time: now,
            fading: false,
            replaced: false,
            ..f
        }
    } else {
        Figurine {
            square: Some(sq),
            start: f.spec_target(orient),
            time: now,
            fading: false,
            replaced: false,
            ..f
        }
    }
}

/// A freshly created figurine standing on `sq` with no start offset.
pub open spec fn fresh_fig(id: int, sq: Square, p: Piece, now: u64, orient: Color) -> Figurine {
    Figurine {
        id: id as u64,
        square: Some(sq),
        piece: p,
        start: spec_square_center(sq, orient),
        time: now,
        born: now,
        last_drag: 0,
        fading: false,
        replaced: false,
        dragging: false,
    }
}

/// An unmatched old figurine: marked fading in place at its square from
/// `now` on (an already-fading one keeps its anchor), and marked replaced
/// when a different piece now stands on its square.
pub open spec fn fade_fig(f: Figurine, pos: Seq<Option<Piece>>, now: u64, orient: Color) -> Figurine {
    if f.fading {
        f
    } else {
        Figurine {
            fading: true,
            replaced: match f.square {
                Some(sq) => !(pos[sq.idx()] is None),
                None => false,
            },
            time: now,
            start: f.spec_target(orient),
            ..f
        }
    }
}

/// The matching pass: walks the occupied-square list threading the set of
/// already-used old figurines and the next fresh identity. Returns the
/// figurines for those squares, the final used set and the next identity.
pub open spec fn recon(
    figs: Seq<Figurine>,
    used: Seq<bool>,
    occ: Seq<(Square, Piece)>,
    pos: Seq<Option<Piece>>,
    now: u64,
    orient: Color,
    next_id: int,
) -> (Seq<Figurine>, Seq<bool>, int)
    decreases occ.len(),
{
    if occ.len() == 0 {
        (Seq::<Figurine>::empty(), used, next_id)
    } else {
        let sq = occ[0].0;
        let p = occ[0].1;
        let tail = occ.subrange(1, occ.len() as int);
        let j = find_stay_idx(figs, used, sq, p, 0);
        if j >= 0 {
            let rest = recon(figs, used.update(j, true), tail, pos, now, orient, next_id);
            (seq![reuse_stay(figs[j])] + rest.0, rest.1, rest.2)
        } else {
            let k = find_move_idx(figs, used, sq, p, pos, 0);
            if k >= 0 {
                let rest = recon(figs, used.update(k, true), tail, pos, now, orient, next_id);
                (seq![reuse_move(figs[k], sq, now, orient)] + rest.0, rest.1, rest.2)
            } else {
                let rest = recon(figs, used, tail, pos, now, orient, next_id + 1);
                (seq![fresh_fig(next_id, sq, p, now, orient)] + rest.0, rest.1, rest.2)
            }
        }
    }
}

/// The fade pass over the first `n` old figurines: the unused ones, marked
/// fading, in their original order.
pub open spec fn fades_upto(
    figs: Seq<Figurine>,
    used: Seq<bool>,
    pos: Seq<Option<Piece>>,
    now: u64,
    orient: Color,
    n: int,
) -> Seq<Figurine>
    decreases n,
{
    if n <= 0 {
        Seq::<Figurine>::empty()
    } else {
        fades_upto(figs, used, pos, now, orient, n - 1) + if used[n - 1] {
            Seq::<Figurine>::empty()
        } else {
            seq![fade_fig(figs[n - 1], pos, now, orient)]
        }
    }
}

/// Full reconciliation of an old figurine store against a new position:
/// the matched and created figurines in square scan order, followed by the
/// unmatched old figurines marked fading. Also returns the next identity.
pub open spec fn spec_reconcile(
    figs: Seq<Figurine>,
    pos: Seq<Option<Piece>>,
    now: u64,
    orient: Color,
    next_id: int,
) -> (Seq<Figurine>, int) {
    let r = recon(
        figs,
        Seq::new(figs.len(), |i: int| false),
        occ_upto(pos, 64),
        pos,
        now,
        orient,
        next_id,
    );
    (r.0 + fades_upto(figs, r.1, pos, now, orient, figs.len() as int), r.2)
}

/// The store with every fully-faded figurine removed.
pub open spec fn spec_purge(figs: Seq<Figurine>, now: u64, n: int) -> Seq<Figurine>
    decreases n,
{
    if n <= 0 {
        Seq::<Figurine>::empty()
    } else {
        spec_purge(figs, now, n - 1) + if figs[n - 1].faded_out(now) {
            Seq::<Figurine>::empty()
        } else {
            seq![figs[n - 1]]
        }
    }
}

/// Mathematical model of the board widget.
pub struct BoardV {
    pub figs: Seq<Figurine>,
    pub drag: Option<Drag>,
    pub orient: Color,
    pub next_id: int,
    pub last_move: Option<(Square, Square)>,
}

/// Well-formedness: figurines well formed, a dragged figurine never fading,
/// no dragged figurine without a live drag, at most one with one, and a
/// board drag always starts on a square.
pub open spec fn b_wf(v: BoardV) -> bool {
    &&& all_wf(v.figs)
    &&& forall|i: int| 0 <= i < v.figs.len() && v.figs[i].dragging ==> !v.figs[i].fading
    &&& match v.drag {
        None => no_dragging(v.figs),
        Some(d) => d.wf() && (d.source is FromSquare) && at_most_one_dragging(v.figs),
    }
}

/// Index of the first unused stay-match, as the exec loop finds it.
fn find_stay(figs: &Vec<Figurine>, used: &Vec<bool>, sq: Square, p: Piece) -> (r: Option<usize>)
    requires
        used@.len() == figs@.len(),
    ensures
        match r {
            Some(j) => j < figs@.len() && find_stay_idx(figs@, used@, sq, p, 0) == j,
            None => find_stay_idx(figs@, used@, sq, p, 0) == -1,
        },
{
    let n = figs.len();
    let mut i: usize = 0;
    while i < n
        invariant
            n == figs@.len(),
            used@.len() == n,
            i <= n,
            find_stay_idx(figs@, used@, sq, p, 0) == find_stay_idx(figs@, used@, sq, p, i as int),
        decreases n - i,
    {
        let f = figs[i];
        let here = !used[i] && match f.square {
            Some(s) => s == sq && f.piece == p,
            None => false,
        };
        if here {
            return Some(i);
        }
        i = i + 1;
    }
    None
}

/// Index of the first unused move-match, as the exec loop finds it.
fn find_move(
    figs: &Vec<Figurine>,
    used: &Vec<bool>,
    sq: Square,
    p: Piece,
    pos: &Position,
) -> (r: Option<usize>)
    requires
        used@.len() == figs@.len(),
        pos.wf(),
        all_wf(figs@),
    ensures
        match r {
            Some(j) => j < figs@.len() && find_move_idx(figs@, used@, sq, p, pos@, 0) == j,
            None => find_move_idx(figs@, used@, sq, p, pos@, 0) == -1,
        },
{
    let n = figs.len();
    let mut i: usize = 0;
    while i < n
        invariant
            n == figs@.len(),
            used@.len() == n,
            pos.wf(),
            all_wf(figs@),
            i <= n,
            find_move_idx(figs@, used@, sq, p, pos@, 0) == find_move_idx(
                figs@,
                used@,
                sq,
                p,
                pos@,
                i as int,
            ),
        decreases n - i,
    {
        let f = figs[i];
        let here = !used[i] && !f.fading && f.piece == p && match f.square {
            Some(s) => s != sq && match pos.piece_at(s) {
                Some(q) => q != p,
                None => true,
            },
            None => false,
        };
        if here {
            return Some(i);
        }
        i = i + 1;
    }
    None
}

/// The occupied squares of `pos` with their pieces, in scan order.
fn occupied_list(pos: &Position) -> (r: Vec<(Square, Piece)>)
    requires
        pos.wf(),
    ensures
        r@ == occ_upto(pos@, 64),
        r@.len() <= 64,
        forall|t: int| 0 <= t < r@.len() ==> (#[trigger] r@[t]).0.wf(),
{
    let mut r: Vec<(Square, Piece)> = Vec::new();
    let mut i: usize = 0;
    while i < 64
        invariant
            pos.wf(),
            i <= 64,
            r@ == occ_upto(pos@, i as int),
            r@.len() <= i,
            forall|t: int| 0 <= t < r@.len() ==> (#[trigger] r@[t]).0.wf(),
        decreases 64 - i,
    {
        let sq = Square::from_index(i as u8);
        let ghost r0 = r@;
        match pos.piece_at(sq) {
            Some(p) => {
                r.push((sq, p));
                proof {
                    assert(r@ =~= r0 + seq![(sq_of(i as int), p)]);
                }
            },
            None => {},
        }
        proof {
            assert(r@ =~= occ_upto(pos@, i + 1 as int));
        }
        i = i + 1;
    }
    r
}

/// Every index the stay-scan can return is a real unused match.
proof fn lemma_find_stay_range(figs: Seq<Figurine>, used: Seq<bool>, sq: Square, p: Piece, i: int)
    requires
        0 <= i,
    ensures
        ({
            let j = find_stay_idx(figs, used, sq, p, i);
            j == -1 || (i <= j < figs.len() && !used[j] && stay_match(figs[j], sq, p))
        }),
    decreases figs.len() - i,
{
    if i < figs.len() {
        if !(!used[i] && stay_match(figs[i], sq, p)) {
            lemma_find_stay_range(figs, used, sq, p, i + 1);
        }
    }
}

/// Every index the move-scan can return is a real unused match.
proof fn lemma_find_move_range(
    figs: Seq<Figurine>,
    used: Seq<bool>,
    sq: Square,
    p: Piece,
    pos: Seq<Option<Piece>>,
    i: int,
)
    requires
        0 <= i,
    ensures
        ({
            let j = find_move_idx(figs, used, sq, p, pos, i);
            j == -1 || (i <= j < figs.len() && !used[j] && move_match(figs[j], sq, p, pos))
        }),
    decreases figs.len() - i,
{
    if i < figs.len() {
        if !(!used[i] && move_match(figs[i], sq, p, pos)) {
            lemma_find_move_range(figs, used, sq, p, pos, i + 1);
        }
    }
}

/// The matching pass yields well-formed figurines, drags none when none was
/// dragged, keeps the used set's length, and only grows the next identity by
/// at most one per occupied square.
proof fn lemma_recon_elems(
    figs: Seq<Figurine>,
    used: Seq<bool>,
    occ: Seq<(Square, Piece)>,
    pos: Seq<Option<Piece>>,
    now: u64,
    orient: Color,
    next_id: int,
)
    requires
        all_wf(figs),
        used.len() == figs.len(),
        forall|t: int| 0 <= t < occ.len() ==> (#[trigger] occ[t]).0.wf(),
    ensures
        ({
            let r = recon(figs, used, occ, pos, now, orient, next_id);
            &&& all_wf(r.0)
            &&& (no_dragging(figs) ==> no_dragging(r.0))
            &&& r.1.len() == used.len()
            &&& next_id <= r.2 <= next_id + occ.len()
        }),
    decreases occ.len(),
{
    if occ.len() != 0 {
        let sq = occ[0].0;
        let p = occ[0].1;
        let tail = occ.subrange(1, occ.len() as int);
        assert(forall|t: int| 0 <= t < tail.len() ==> (#[trigger] tail[t]).0.wf());
        let j = find_stay_idx(figs, used, sq, p, 0);
        let k = find_move_idx(figs, used, sq, p, pos, 0);
        lemma_find_stay_range(figs, used, sq, p, 0);
        lemma_find_move_range(figs, used, sq, p, pos, 0);
        if j >= 0 {
            lemma_recon_elems(figs, used.update(j, true), tail, pos, now, orient, next_id);
        } else if k >= 0 {
            lemma_recon_elems(figs, used.update(k, true), tail, pos, now, orient, next_id);
        } else {
            lemma_recon_elems(figs, used, tail, pos, now, orient, next_id + 1);
        }
    }
}

/// The fade pass yields well-formed figurines and drags none when none was
/// dragged.
proof fn lemma_fades_elems(
    figs: Seq<Figurine>,
    used: Seq<bool>,
    pos: Seq<Option<Piece>>,
    now: u64,
    orient: Color,
    n: int,
)
    requires
        all_wf(figs),
        n <= figs.len(),
    ensures
        ({
            let r = fades_upto(figs, used, pos, now, orient, n);
            &&& all_wf(r)
            &&& (no_dragging(figs) ==> no_dragging(r))
        }),
    decreases n,
{
    if n > 0 {
        lemma_fades_elems(figs, used, pos, now, orient, n - 1);
    }
}

/// The purge keeps only elements of the store, preserves well-formedness,
/// and cannot invent a second dragged figurine.
proof fn lemma_purge_props(figs: Seq<Figurine>, now: u64, n: int)
    requires
        0 <= n <= figs.len(),
    ensures
        ({
            let r = spec_purge(figs, now, n);
            &&& (all_wf(figs) ==> all_wf(r))
            &&& ((forall|j: int| 0 <= j < n ==> !figs[j].dragging) ==> no_dragging(r))
            &&& ((forall|j: int|
                0 <= j < figs.len() && figs[j].dragging ==> !figs[j].fading) ==> forall|i: int|
                0 <= i < r.len() && r[i].dragging ==> !r[i].fading)
            &&& (at_most_one_dragging(figs) ==> at_most_one_dragging(r))
        }),
    decreases n,
{
    if n > 0 {
        lemma_purge_props(figs, now, n - 1);
        let r0 = spec_purge(figs, now, n - 1);
        let r = spec_purge(figs, now, n);
        if !figs[n - 1].faded_out(now) {
            assert(r == r0 + seq![figs[n - 1]]);
            if at_most_one_dragging(figs) && figs[n - 1].dragging {
                assert(forall|j: int| 0 <= j < n - 1 ==> !figs[j].dragging);
                assert(no_dragging(r0));
                assert(forall|a: int| 0 <= a < r.len() - 1 ==> r[a] == r0[a] && !r[a].dragging);
            }
        }
    }
}

/// Mask with the first `k` of `n` entries set.
pub open spec fn mask_first(n: int, k: int) -> Seq<bool> {
    Seq::new(n as nat, |i: int| i < k)
}

/// The store lists exactly the occupants of `pos`, in square scan order.
pub open spec fn lists_occupants(figs: Seq<Figurine>, pos: Seq<Option<Piece>>) -> bool {
    let occ = occ_upto(pos, 64);
    &&& figs.len() == occ.len()
    &&& forall|k: int|
        0 <= k < figs.len() ==> figs[k].square == Some((#[trigger] occ[k]).0) && figs[k].piece
            == occ[k].1
}

/// When every scanned index before `k` is used and `k` is an unused match,
/// the stay-scan returns `k`.
proof fn lemma_find_stay_at(
    figs: Seq<Figurine>,
    used: Seq<bool>,
    sq: Square,
    p: Piece,
    k: int,
    i: int,
)
    requires
        0 <= i <= k < figs.len(),
        !used[k],
        stay_match(figs[k], sq, p),
        forall|m: int| i <= m < k ==> used[m],
    ensures
        find_stay_idx(figs, used, sq, p, i) == k,
    decreases k - i,
{
    if i < k {
        lemma_find_stay_at(figs, used, sq, p, k, i + 1);
    }
}

/// With every figurine before `k` already matched, the matching pass maps
/// each remaining occupant to its own figurine, unchanged.
proof fn lemma_recon_fixed_from(
    figs: Seq<Figurine>,
    pos: Seq<Option<Piece>>,
    now: u64,
    orient: Color,
    id0: int,
    k: int,
)
    requires
        lists_occupants(figs, pos),
        forall|m: int| 0 <= m < figs.len() ==> !figs[m].fading && !figs[m].replaced,
        0 <= k <= figs.len(),
    ensures
        recon(
            figs,
            mask_first(figs.len() as int, k),
            occ_upto(pos, 64).subrange(k, occ_upto(pos, 64).len() as int),
            pos,
            now,
            orient,
            id0,
        ) == (
            figs.subrange(k, figs.len() as int),
            mask_first(figs.len() as int, figs.len() as int),
            id0,
        ),
    decreases figs.len() - k,
{
    let n = figs.len() as int;
    let occ = occ_upto(pos, 64);
    let rem = occ.subrange(k, occ.len() as int);
    if k == n {
        assert(rem =~= Seq::<(Square, Piece)>::empty());
        assert(figs.subrange(k, n) =~= Seq::<Figurine>::empty());
    } else {
        let sq = occ[k].0;
        let p = occ[k].1;
        assert(rem[0] == occ[k]);
        assert(stay_match(figs[k], sq, p));
        lemma_find_stay_at(figs, mask_first(n, k), sq, p, k, 0);
        assert(mask_first(n, k).update(k, true) =~= mask_first(n, k + 1));
        assert(rem.subrange(1, rem.len() as int) =~= occ.subrange(k + 1, occ.len() as int));
        lemma_recon_fixed_from(figs, pos, now, orient, id0, k + 1);
        assert(reuse_stay(figs[k]) == figs[k]);
        assert(seq![figs[k]] + figs.subrange(k + 1, n) =~= figs.subrange(k, n));
    }
}

/// A fade pass over an all-used mask adds nothing.
proof fn lemma_fades_all_used(
    figs: Seq<Figurine>,
    used: Seq<bool>,
    pos: Seq<Option<Piece>>,
    now: u64,
    orient: Color,
    n: int,
)
    requires
        forall|m: int| 0 <= m < n ==> used[m],
    ensures
        fades_upto(figs, used, pos, now, orient, n) == Seq::<Figurine>::empty(),
    decreases n,
{
    if n > 0 {
        lemma_fades_all_used(figs, used, pos, now, orient, n - 1);
        assert(fades_upto(figs, used, pos, now, orient, n) =~= Seq::<Figurine>::empty());
    } else {
        assert(fades_upto(figs, used, pos, now, orient, n) =~= Seq::<Figurine>::empty());
    }
}

/// Law: reconciling a store that already lists exactly the occupants of the
/// position, with no fades pending, returns the store unchanged — and when
/// every figurine had settled, every figurine is still at rest (nothing
/// animates).
pub proof fn lemma_reconcile_stable(
    figs: Seq<Figurine>,
    pos: Seq<Option<Piece>>,
    now: u64,
    orient: Color,
    id0: int,
)
    requires
        lists_occupants(figs, pos),
        forall|m: int| 0 <= m < figs.len() ==> !figs[m].fading && !figs[m].replaced,
    ensures
        spec_reconcile(figs, pos, now, orient, id0).0 == figs,
        spec_reconcile(figs, pos, now, orient, id0).1 == id0,
        (forall|m: int| 0 <= m < figs.len() ==> (#[trigger] figs[m]).settled(now)) ==> forall|m: int|
            0 <= m < figs.len() ==> (#[trigger] spec_reconcile(figs, pos, now, orient, id0).0[m]).at_rest(
                now,
                orient,
            ),
{
    let n = figs.len() as int;
    let occ = occ_upto(pos, 64);
    lemma_recon_fixed_from(figs, pos, now, orient, id0, 0);
    assert(mask_first(n, 0) =~= Seq::new(figs.len(), |i: int| false));
    assert(occ.subrange(0, occ.len() as int) =~= occ);
    assert(figs.subrange(0, n) =~= figs);
    let r = recon(figs, Seq::new(figs.len(), |i: int| false), occ, pos, now, orient, id0);
    assert(r == (figs, mask_first(n, n), id0));
    lemma_fades_all_used(figs, mask_first(n, n), pos, now, orient, n);
    assert(spec_reconcile(figs, pos, now, orient, id0).0 =~= figs);
    if forall|m: int| 0 <= m < figs.len() ==> (#[trigger] figs[m]).settled(now) {
        assert forall|m: int| 0 <= m < figs.len() implies (#[trigger] spec_reconcile(
            figs,
            pos,
            now,
            orient,
            id0,
        ).0[m]).at_rest(now, orient) by {
            figs[m].lemma_settled_at_rest(now, orient);
        }
    }
}

/// A position holding one piece lists exactly that one occupant.
proof fn lemma_occ_single(pos: Seq<Option<Piece>>, b: int, p: Piece, n: int)
    requires
        0 <= b < 64,
        pos.len() == 64,
        pos[b] == Some(p),
        forall|i: int| 0 <= i < 64 && i != b ==> pos[i] is None,
        0 <= n <= 64,
    ensures
        occ_upto(pos, n) == if b < n {
            seq![(sq_of(b), p)]
        } else {
            Seq::<(Square, Piece)>::empty()
        },
    decreases n,
{
    if n > 0 {
        lemma_occ_single(pos, b, p, n - 1);
        if n - 1 == b {
            assert(occ_upto(pos, n) =~= seq![(sq_of(b), p)]);
        } else if b < n - 1 {
            assert(occ_upto(pos, n) =~= seq![(sq_of(b), p)]);
        } else {
            assert(occ_upto(pos, n) =~= Seq::<(Square, Piece)>::empty());
        }
    } else {
        assert(occ_upto(pos, 0) =~= Seq::<(Square, Piece)>::empty());
    }
}

/// Law: a single-piece move from `a` to `b` with no capture reuses the same
/// figurine identity — nothing is created or destroyed — and its animation
/// starts at `a`'s screen position and targets `b`.
pub proof fn lemma_move_reuses_identity(
    f: Figurine,
    a: Square,
    b: Square,
    p: Piece,
    pos: Seq<Option<Piece>>,
    now: u64,
    orient: Color,
    id0: int,
)
    requires
        pos.len() == 64,
        a.wf(),
        b.wf(),
        a != b,
        f.square == Some(a),
        f.piece == p,
        !f.fading,
        !f.spec_suppressed(now),
        pos[b.idx()] == Some(p),
        forall|i: int| 0 <= i < 64 && i != b.idx() ==> pos[i] is None,
    ensures
        ({
            let r = spec_reconcile(seq![f], pos, now, orient, id0).0;
            &&& r.len() == 1
            &&& r[0].id == f.id
            &&& r[0].square == Some(b)
            &&& r[0].start == spec_square_center(a, orient)
            &&& r[0].time == now
            &&& !r[0].fading
        }),
        spec_reconcile(seq![f], pos, now, orient, id0).1 == id0,
{
    lemma_sq_roundtrip(a);
    lemma_sq_roundtrip(b);
    lemma_occ_single(pos, b.idx(), p, 64);
    let occ = occ_upto(pos, 64);
    assert(occ == seq![(b, p)]);
    let figs = seq![f];
    let used0 = Seq::new(1nat, |i: int| false);
    assert(!stay_match(figs[0], b, p));
    assert(find_stay_idx(figs, used0, b, p, 1) == -1);
    assert(find_stay_idx(figs, used0, b, p, 0) == -1);
    assert(a.idx() != b.idx());
    assert(pos[a.idx()] is None);
    assert(move_match(figs[0], b, p, pos));
    assert(find_move_idx(figs, used0, b, p, pos, 0) == 0);
    let used1 = used0.update(0, true);
    let tail = occ.subrange(1, 1);
    assert(tail =~= Seq::<(Square, Piece)>::empty());
    assert(recon(figs, used1, tail, pos, now, orient, id0) == (
        Seq::<Figurine>::empty(),
        used1,
        id0,
    ));
    let moved = reuse_move(f, b, now, orient);
    assert(recon(figs, used0, occ, pos, now, orient, id0).0 =~= seq![moved]);
    assert(fades_upto(figs, used1, pos, now, orient, 0) =~= Seq::<Figurine>::empty());
    assert(fades_upto(figs, used1, pos, now, orient, 1) =~= Seq::<Figurine>::empty());
    assert(spec_reconcile(figs, pos, now, orient, id0).0 =~= seq![moved]);
    assert(moved.start == f.spec_target(orient));
    assert(f.spec_target(orient) == spec_square_center(a, orient));
}

/// Law: moving a piece onto a square held by an opposing piece marks
/// exactly one figurine — the captured one — as fading from `now`, reuses
/// the capturing figurine's identity at the destination, and the purge
/// removes exactly the captured figurine once its fade has elapsed.
pub proof fn lemma_capture_fades_one(
    f: Figurine,
    g: Figurine,
    a: Square,
    b: Square,
    p: Piece,
    pos: Seq<Option<Piece>>,
    now: u64,
    orient: Color,
    id0: int,
)
    requires
        pos.len() == 64,
        a.wf(),
        b.wf(),
        a != b,
        f.square == Some(a),
        f.piece == p,
        !f.fading,
        !f.spec_suppressed(now),
        g.square == Some(b),
        g.piece != p,
        !g.fading,
        pos[b.idx()] == Some(p),
        forall|i: int| 0 <= i < 64 && i != b.idx() ==> pos[i] is None,
    ensures
        ({
            let r = spec_reconcile(seq![f, g], pos, now, orient, id0).0;
            &&& r.len() == 2
            &&& r[0].id == f.id
            &&& r[0].square == Some(b)
            &&& r[0].start == spec_square_center(a, orient)
            &&& !r[0].fading
            &&& r[1].id == g.id
            &&& r[1].fading
            &&& r[1].time == now
            &&& forall|t: u64| now + FADE_MS <= t ==> spec_purge(r, t, 2) == seq![r[0]]
        }),
{
    lemma_sq_roundtrip(a);
    lemma_sq_roundtrip(b);
    lemma_occ_single(pos, b.idx(), p, 64);
    let occ = occ_upto(pos, 64);
    assert(occ == seq![(b, p)]);
    let figs = seq![f, g];
    let used0 = Seq::new(2nat, |i: int| false);
    assert(a.idx() != b.idx());
    assert(!stay_match(figs[0], b, p));
    assert(!stay_match(figs[1], b, p));
    assert(find_stay_idx(figs, used0, b, p, 2) == -1);
    assert(find_stay_idx(figs, used0, b, p, 1) == -1);
    assert(find_stay_idx(figs, used0, b, p, 0) == -1);
    assert(pos[a.idx()] is None);
    assert(move_match(figs[0], b, p, pos));
    assert(find_move_idx(figs, used0, b, p, pos, 0) == 0);
    let used1 = used0.update(0, true);
    let tail = occ.subrange(1, 1);
    assert(tail =~= Seq::<(Square, Piece)>::empty());
    assert(recon(figs, used1, tail, pos, now, orient, id0) == (
        Seq::<Figurine>::empty(),
        used1,
        id0,
    ));
    let moved = reuse_move(f, b, now, orient);
    assert(recon(figs, used0, occ, pos, now, orient, id0).0 =~= seq![moved]);
    let faded = fade_fig(g, pos, now, orient);
    assert(!used1[1]);
    assert(fades_upto(figs, used1, pos, now, orient, 0) =~= Seq::<Figurine>::empty());
    assert(fades_upto(figs, used1, pos, now, orient, 1) =~= Seq::<Figurine>::empty());
    assert(fades_upto(figs, used1, pos, now, orient, 2) =~= seq![faded]);
    let r = spec_reconcile(figs, pos, now, orient, id0).0;
    assert(r =~= seq![moved, faded]);
    assert(moved.start == spec_square_center(a, orient));
    assert(faded.fading && faded.time == now && faded.id == g.id);
    assert forall|t: u64| now + FADE_MS <= t implies spec_purge(r, t, 2) == seq![r[0]] by {
        assert(!r[0].faded_out(t));
        assert(r[1].faded_out(t));
        assert(spec_purge(r, t, 0) =~= Seq::<Figurine>::empty());
        assert(spec_purge(r, t, 1) =~= seq![r[0]]);
        assert(spec_purge(r, t, 2) =~= seq![r[0]]);
    }
}

/// Index of the first non-fading figurine standing on `sq`, or -1.
pub open spec fn find_at_idx(figs: Seq<Figurine>, sq: Square, i: int) -> int
    decreases figs.len() - i,
{
    if i < 0 || i >= figs.len() {
        -1
    } else if !figs[i].fading && figs[i].square == Some(sq) {
        i
    } else {
        find_at_idx(figs, sq, i + 1)
    }
}

/// Pointer-down on the board: with the primary button over a square held by
/// a non-fading figurine, and no drag already live, arm a fresh drag on it.
/// A pointer-down while a drag is live changes nothing.
pub open spec fn spec_board_mouse_down(v: BoardV, pos: Vec2, button: u8) -> BoardV {
    if button != 1 || !(v.drag is None) {
        v
    } else {
        match spec_square_at(pos, v.orient) {
            Some(sq) => {
                let j = find_at_idx(v.figs, sq, 0);
                if j >= 0 {
                    BoardV {
                        drag: Some(
                            Drag {
                                source: DragSource::FromSquare(sq),
                                piece: v.figs[j].piece,
                                start: pos,
                                pos: pos,
                                threshold: false,
                            },
                        ),
                        figs: v.figs.update(j, Figurine { dragging: true, ..v.figs[j] }),
                        ..v
                    }
                } else {
                    v
                }
            },
            None => v,
        }
    }
}

/// Pointer-motion on the board: like the pocket surface, update the drag,
/// latch the threshold, repaint around both pointer positions and the
/// origin square once past the threshold.
pub open spec fn spec_board_mouse_move(v: BoardV, pos: Vec2, ppu: i64) -> (BoardV, Seq<Region>) {
    match v.drag {
        None => (v, Seq::<Region>::empty()),
        Some(d) => {
            let th = d.threshold || spec_crossed(d.start, pos, ppu);
            let d2 = Drag { pos: pos, threshold: th, ..d };
            let regs = seq![Region::Around(d.pos), Region::Around(pos)] + if th {
                seq![origin_region(d.source)]
            } else {
                Seq::<Region>::empty()
            };
            (BoardV { drag: Some(d2), ..v }, regs)
        }
    }
}

/// The square a board drag started from. A well-formed board drag always
/// starts on a square; the pocket arm is never reached under `b_wf`.
pub open spec fn drag_origin(d: Drag) -> Square {
    match d.source {
        DragSource::FromSquare(sq) => sq,
        DragSource::FromPocket(_) => sq_of(0),
    }
}

/// Pointer-up on the board: resolve the destination to the square under the
/// release point, or fall back to the origin square when released outside
/// the board — a no-op move for the consumer to reject, never an error.
/// Past the threshold exactly one move event is emitted, carrying the
/// promotion role choice through; below it (a click) none is. The drag ends
/// either way, the figurine is released with its release time stamped, and
/// the whole surface repaints. The store itself is not moved: the move is
/// applied only when the consumer confirms the resulting position.
pub open spec fn spec_board_mouse_up(
    v: BoardV,
    pos: Vec2,
    now: u64,
    promotion: Option<Role>,
) -> (BoardV, Option<GroundMsg>, Seq<Region>) {
    match v.drag {
        None => (v, None::<GroundMsg>, Seq::<Region>::empty()),
        Some(d) => {
            let origin = drag_origin(d);
            let dest = match spec_square_at(pos, v.orient) {
                Some(sq) => sq,
                None => origin,
            };
            let ev = if d.threshold {
                Some(GroundMsg::UserMove(origin, dest, promotion))
            } else {
                None::<GroundMsg>
            };
            (
                BoardV { drag: None, figs: spec_clear_dragging(v.figs, now), ..v },
                ev,
                seq![Region::Full],
            )
        }
    }
}

/// Every index the square-scan can return is a real hit.
proof fn lemma_find_at_range(figs: Seq<Figurine>, sq: Square, i: int)
    requires
        0 <= i,
    ensures
        ({
            let j = find_at_idx(figs, sq, i);
            j == -1 || (i <= j < figs.len() && !figs[j].fading && figs[j].square == Some(sq))
        }),
    decreases figs.len() - i,
{
    if i < figs.len() {
        if !(!figs[i].fading && figs[i].square == Some(sq)) {
            lemma_find_at_range(figs, sq, i + 1);
        }
    }
}

/// Law: at most one drag and one dragged figurine are ever live on the
/// board surface. A pointer-down while a drag is live changes nothing, and
/// an arming pointer-down flags exactly the chosen figurine.
pub proof fn lemma_single_active_board_drag(v: BoardV, pos: Vec2, button: u8)
    requires
        b_wf(v),
        pos.in_range(),
    ensures
        v.drag is Some ==> spec_board_mouse_down(v, pos, button) == v,
        at_most_one_dragging(spec_board_mouse_down(v, pos, button).figs),
{
    let v1 = spec_board_mouse_down(v, pos, button);
    if button == 1 && v.drag is None {
        match spec_square_at(pos, v.orient) {
            Some(sq) => {
                let j = find_at_idx(v.figs, sq, 0);
                lemma_find_at_range(v.figs, sq, 0);
                if j >= 0 {
                    assert forall|a: int, b: int|
                        0 <= a < v1.figs.len() && 0 <= b < v1.figs.len() && v1.figs[a].dragging
                            && v1.figs[b].dragging implies a == b by {
                        assert(a != j ==> v1.figs[a] == v.figs[a]);
                        assert(b != j ==> v1.figs[b] == v.figs[b]);
                    }
                }
            },
            None => {},
        }
    }
    assert(at_most_one_dragging(v1.figs)) by {
        if v1.drag is None {
            assert(no_dragging(v1.figs));
        }
    }
}

/// The board widget: figurine store, live drag, orientation, next figurine
/// identity and the last confirmed move (kept for highlighting).
pub struct Board {
    figurines: Vec<Figurine>,
    drag: Option<Drag>,
    orientation: Color,
    next_id: u64,
    last_move: Option<(Square, Square)>,
}

impl View for Board {
    type V = BoardV;

    closed spec fn view(&self) -> BoardV {
        BoardV {
            figs: self.figurines@,
            drag: self.drag,
            orient: self.orientation,
            next_id: self.next_id as int,
            last_move: self.last_move,
        }
    }
}

impl Board {
    pub open spec fn wf(&self) -> bool {
        b_wf(self@)
    }

    /// An empty board with the given orientation and no live drag.
    pub fn new(orientation: Color) -> (r: Board)
        ensures
            r.wf(),
            r@.figs == Seq::<Figurine>::empty(),
            r@.drag is None,
            r@.orient == orientation,
            r@.next_id == 0,
            r@.last_move == Option::<(Square, Square)>::None,
    {
        Board { figurines: Vec::new(), drag: None, orientation, next_id: 0, last_move: None }
    }

    /// Toggles the orientation; the whole surface must repaint.
    pub fn flip(&mut self) -> (r: Region)
        requires
            old(self).wf(),
        ensures
            final(self).wf(),
            final(self)@.orient == old(self)@.orient.spec_other(),
            final(self)@.figs == old(self)@.figs,
            final(self)@.drag == old(self)@.drag,
            final(self)@.next_id == old(self)@.next_id,
            final(self)@.last_move == old(self)@.last_move,
            r == Region::Full,
    {
        self.orientation = self.orientation.other();
        Region::Full
    }

    /// Reconciles the store against a newly confirmed position (see
    /// `spec_reconcile`): figurines are reused where they stand, slid where
    /// their piece moved, created where a piece appeared, and marked fading
    /// where it disappeared. Never fails: an unmatched piece simply falls
    /// into the create or fade path. Positions are confirmed between drags,
    /// so no drag is live when this runs.
    pub fn set_position(&mut self, pos: &Position, last_move: Option<(Square, Square)>, now: u64)
        requires
            old(self).wf(),
            old(self)@.drag is None,
            pos.wf(),
            old(self)@.next_id + 64 <= u64::MAX,
        ensures
            final(self).wf(),
            final(self)@.figs == spec_reconcile(
                old(self)@.figs,
                pos@,
                now,
                old(self)@.orient,
                old(self)@.next_id,
            ).0,
            final(self)@.next_id == spec_reconcile(
                old(self)@.figs,
                pos@,
                now,
                old(self)@.orient,
                old(self)@.next_id,
            ).1,
            final(self)@.drag is None,
            final(self)@.orient == old(self)@.orient,
            final(self)@.last_move == last_move,
    {
        let ghost v0 = self@;
        let occ = occupied_list(pos);
        let n = self.figurines.len();
        let mut used: Vec<bool> = Vec::new();
        let mut t: usize = 0;
        while t < n
            invariant
                t <= n,
                used@.len() == t,
                forall|m: int| 0 <= m < t ==> !used@[m],
            decreases n - t,
        {
            used.push(false);
            t = t + 1;
        }
        proof {
            assert(used@ =~= Seq::new(v0.figs.len(), |i: int| false));
        }
        let ghost full = recon(v0.figs, used@, occ@, pos@, now, v0.orient, v0.next_id);
        let mut out: Vec<Figurine> = Vec::new();
        let mut k: usize = 0;
        proof {
            assert(occ@.subrange(0, occ@.len() as int) =~= occ@);
            assert(Seq::<Figurine>::empty() + full.0 =~= full.0);
        }
        while k < occ.len()
            invariant
                self.figurines@ == v0.figs,
                self.orientation == v0.orient,
                self.drag == v0.drag,
                pos.wf(),
                all_wf(v0.figs),
                used@.len() == n,
                n == v0.figs.len(),
                occ@ == occ_upto(pos@, 64),
                occ@.len() <= 64,
                forall|m: int| 0 <= m < occ@.len() ==> (#[trigger] occ@[m]).0.wf(),
                k <= occ@.len(),
                v0.next_id <= self.next_id as int <= v0.next_id + k,
                v0.next_id + 64 <= u64::MAX,
                ({
                    let rem = recon(
                        v0.figs,
                        used@,
                        occ@.subrange(k as int, occ@.len() as int),
                        pos@,
                        now,
                        v0.orient,
                        self.next_id as int,
                    );
                    full.0 == out@ + rem.0 && full.1 == rem.1 && full.2 == rem.2
                }),
            decreases occ@.len() - k,
        {
            let pair = occ[k];
            let sq = pair.0;
            let p = pair.1;
            let ghost rem_seq = occ@.subrange(k as int, occ@.len() as int);
            proof {
                assert(rem_seq.len() > 0);
                assert(rem_seq[0] == occ@[k as int]);
                assert(rem_seq.subrange(1, rem_seq.len() as int) =~= occ@.subrange(
                    k as int + 1,
                    occ@.len() as int,
                ));
            }
            let ghost used_pre = used@;
            let ghost out_pre = out@;
            let ghost id_pre = self.next_id as int;
            match find_stay(&self.figurines, &used, sq, p) {
                Some(j) => {
                    let f = self.figurines[j];
                    let mut f2 = f;
                    f2.fading = false;
                    f2.replaced = false;
                    used[j] = true;
                    out.push(f2);
                    proof {
                        assert(f2 == reuse_stay(v0.figs[j as int]));
                        assert(used@ =~= used_pre.update(j as int, true));
                        let rem_now = recon(
                            v0.figs,
                            used@,
                            occ@.subrange(k as int + 1, occ@.len() as int),
                            pos@,
                            now,
                            v0.orient,
                            self.next_id as int,
                        );
                        assert(out_pre + (seq![f2] + rem_now.0) =~= (out_pre + seq![f2])
                            + rem_now.0);
                        assert(out@ =~= out_pre + seq![f2]);
                    }
                },
                None => {
                    match find_move(&self.figurines, &used, sq, p, pos) {
                        Some(j) => {
                            let f = self.figurines[j];
                            let suppressed = now < f.last_drag || now - f.last_drag
                                < DRAG_SUPPRESS_MS;
                            let start = if suppressed {
                                square_center(sq, self.orientation)
                            } else {
                                match f.square {
                                    Some(s) => square_center(s, self.orientation),
                                    None => f.start,
                                }
                            };
                            let mut f2 = f;
                            f2.square = Some(sq);
                            f2.start = start;
                            f2.time = now;
                            f2.fading = false;
                            f2.replaced = false;
                            used[j] = true;
                            out.push(f2);
                            proof {
                                assert(f2 == reuse_move(v0.figs[j as int], sq, now, v0.orient));
                                assert(used@ =~= used_pre.update(j as int, true));
                                let rem_now = recon(
                                    v0.figs,
                                    used@,
                                    occ@.subrange(k as int + 1, occ@.len() as int),
                                    pos@,
                                    now,
                                    v0.orient,
                                    self.next_id as int,
                                );
                                assert(out_pre + (seq![f2] + rem_now.0) =~= (out_pre + seq![f2])
                                    + rem_now.0);
                                assert(out@ =~= out_pre + seq![f2]);
                            }
                        },
                        None => {
                            let c = square_center(sq, self.orientation);
                            let f2 = Figurine {
                                id: self.next_id,
                                square: Some(sq),
                                piece: p,
                                start: c,
                                time: now,
                                born: now,
                                last_drag: 0,
                                fading: false,
                                replaced: false,
                                dragging: false,
                            };
                            out.push(f2);
                            self.next_id = self.next_id + 1;
                            proof {
                                assert(f2 == fresh_fig(id_pre, sq, p, now, v0.orient));
                                let rem_now = recon(
                                    v0.figs,
                                    used@,
                                    occ@.subrange(k as int + 1, occ@.len() as int),
                                    pos@,
                                    now,
                                    v0.orient,
                                    self.next_id as int,
                                );
                                assert(out_pre + (seq![f2] + rem_now.0) =~= (out_pre + seq![f2])
                                    + rem_now.0);
                                assert(out@ =~= out_pre + seq![f2]);
                            }
                        },
                    }
                },
            }
            k = k + 1;
        }
        proof {
            assert(occ@.subrange(k as int, occ@.len() as int) =~= Seq::<(Square, Piece)>::empty());
            assert(full.0 == out@ + Seq::<Figurine>::empty());
            assert(out@ + Seq::<Figurine>::empty() =~= out@);
            assert(full.1 == used@);
            assert(full.2 == self.next_id as int);
        }
        let mut i: usize = 0;
        while i < n
            invariant
                self.figurines@ == v0.figs,
                self.orientation == v0.orient,
                self.drag == v0.drag,
                pos.wf(),
                all_wf(v0.figs),
                used@.len() == n,
                n == v0.figs.len(),
                i <= n,
                used@ == full.1,
                self.next_id as int == full.2,
                out@ == full.0 + fades_upto(v0.figs, full.1, pos@, now, v0.orient, i as int),
            decreases n - i,
        {
            let ghost out_pre = out@;
            if !used[i] {
                let f = self.figurines[i];
                if f.fading {
                    out.push(f);
                    proof {
                        assert(fade_fig(v0.figs[i as int], pos@, now, v0.orient) == f);
                    }
                } else {
                    let repl = match f.square {
                        Some(s) => pos.piece_at(s).is_some(),
                        None => false,
                    };
                    let tgt = match f.square {
                        Some(s) => square_center(s, self.orientation),
                        None => f.start,
                    };
                    let mut f2 = f;
                    f2.fading = true;
                    f2.replaced = repl;
                    f2.time = now;
                    f2.start = tgt;
                    out.push(f2);
                    proof {
                        assert(f2 == fade_fig(v0.figs[i as int], pos@, now, v0.orient));
                    }
                }
            }
            proof {
                let tail = fades_upto(v0.figs, full.1, pos@, now, v0.orient, i as int + 1);
                assert(out@ =~= full.0 + tail);
            }
            i = i + 1;
        }
        self.figurines = out;
        self.last_move = last_move;
        proof {
            lemma_recon_elems(v0.figs, Seq::new(v0.figs.len(), |m: int| false), occ@, pos@, now, v0.orient, v0.next_id);
            lemma_fades_elems(v0.figs, full.1, pos@, now, v0.orient, n as int);
            assert(no_dragging(v0.figs));
            assert(self@.figs == full.0 + fades_upto(v0.figs, full.1, pos@, now, v0.orient, n as int));
            assert forall|m: int| 0 <= m < self@.figs.len() implies (#[trigger] self@.figs[m]).wf()
                && !self@.figs[m].dragging by {
                if m < full.0.len() {
                    assert(self@.figs[m] == full.0[m]);
                } else {
                    assert(self@.figs[m] == fades_upto(v0.figs, full.1, pos@, now, v0.orient, n as int)[m - full.0.len()]);
                }
            }
        }
    }

    /// Removes every figurine whose fade-out has completed by `now`.
    pub fn purge(&mut self, now: u64)
        requires
            old(self).wf(),
        ensures
            final(self).wf(),
            final(self)@.figs == spec_purge(old(self)@.figs, now, old(self)@.figs.len() as int),
            final(self)@.drag == old(self)@.drag,
            final(self)@.orient == old(self)@.orient,
            final(self)@.next_id == old(self)@.next_id,
            final(self)@.last_move == old(self)@.last_move,
    {
        let n = self.figurines.len();
        let mut out: Vec<Figurine> = Vec::new();
        let mut i: usize = 0;
        while i < n
            invariant
                n == self.figurines@.len(),
                self.figurines@ == old(self)@.figs,
                self.drag == old(self)@.drag,
                i <= n,
                out@ == spec_purge(old(self)@.figs, now, i as int),
            decreases n - i,
        {
            let ghost out_pre = out@;
            let f = self.figurines[i];
            let gone = f.fading && now >= f.time && now - f.time >= FADE_MS;
            if !gone {
                out.push(f);
            }
            proof {
                assert(gone == f.faded_out(now));
                assert(out@ =~= spec_purge(old(self)@.figs, now, i as int + 1));
            }
            i = i + 1;
        }
        self.figurines = out;
        proof {
            lemma_purge_props(old(self)@.figs, now, n as int);
        }
    }

    /// Pointer-down (see `spec_board_mouse_down`).
    pub fn drag_mouse_down(&mut self, pos: Vec2, button: u8)
        requires
            old(self).wf(),
            pos.in_range(),
        ensures
            final(self).wf(),
            final(self)@ == spec_board_mouse_down(old(self)@, pos, button),
    {
        if button != 1 {
            return ;
        }
        if self.drag.is_some() {
            return ;
        }
        let sq = match square_at(pos, self.orientation) {
            Some(sq) => sq,
            None => {
                return ;
            },
        };
        let n = self.figurines.len();
        let mut i: usize = 0;
        while i < n
            invariant
                old(self).wf(),
                old(self)@.drag is None,
                button == 1,
                sq.wf(),
                spec_square_at(pos, old(self)@.orient) == Some(sq),
                pos.in_range(),
                *self == *old(self),
                n == self.figurines@.len(),
                i <= n,
                find_at_idx(self.figurines@, sq, 0) == find_at_idx(self.figurines@, sq, i as int),
            decreases n - i,
        {
            let f = self.figurines[i];
            let hit = !f.fading && match f.square {
                Some(s) => s == sq,
                None => false,
            };
            if hit {
                let mut f2 = f;
                f2.dragging = true;
                self.figurines[i] = f2;
                self.drag = Some(
                    Drag {
                        source: DragSource::FromSquare(sq),
                        piece: f.piece,
                        start: pos,
                        pos: pos,
                        threshold: false,
                    },
                );
                proof {
                    assert(find_at_idx(old(self)@.figs, sq, 0) == i as int);
                    assert(self@.figs =~= old(self)@.figs.update(
                        i as int,
                        Figurine { dragging: true, ..old(self)@.figs[i as int] },
                    ));
                    assert forall|a: int, b: int|
                        0 <= a < self@.figs.len() && 0 <= b < self@.figs.len()
                            && self@.figs[a].dragging && self@.figs[b].dragging implies a == b by {
                        assert(a != i as int ==> self@.figs[a] == old(self)@.figs[a]);
                        assert(b != i as int ==> self@.figs[b] == old(self)@.figs[b]);
                    }
                }
                return ;
            }
            i = i + 1;
        }
        proof {
            assert(find_at_idx(self.figurines@, sq, 0) == -1);
        }
    }

    /// Pointer-motion (see `spec_board_mouse_move`). Returns the regions to
    /// repaint.
    pub fn drag_mouse_move(&mut self, pos: Vec2, ppu: i64) -> (r: Vec<Region>)
        requires
            old(self).wf(),
            pos.in_range(),
            0 <= ppu <= PPU_LIMIT,
        ensures
            final(self).wf(),
            final(self)@ == spec_board_mouse_move(old(self)@, pos, ppu).0,
            r@ == spec_board_mouse_move(old(self)@, pos, ppu).1,
    {
        let mut regs: Vec<Region> = Vec::new();
        if let Some(d) = self.drag {
            regs.push(Region::Around(d.pos));
            regs.push(Region::Around(pos));
            let th = d.threshold || crossed(d.start, pos, ppu);
            if th {
                match d.source {
                    DragSource::FromSquare(sq) => regs.push(Region::OfSquare(sq)),
                    DragSource::FromPocket(i) => regs.push(Region::OfSlot(i)),
                }
            }
            self.drag = Some(
                Drag { source: d.source, piece: d.piece, start: d.start, pos: pos, threshold: th },
            );
            proof {
                assert(regs@ =~= spec_board_mouse_move(old(self)@, pos, ppu).1);
            }
        }
        regs
    }

    /// Pointer-up (see `spec_board_mouse_up`). Returns the event to emit,
    /// if any, and the regions to repaint.
    pub fn drag_mouse_up(&mut self, pos: Vec2, now: u64, promotion: Option<Role>) -> (r: (
        Option<GroundMsg>,
        Vec<Region>,
    ))
        requires
            old(self).wf(),
            pos.in_range(),
        ensures
            final(self).wf(),
            final(self)@ == spec_board_mouse_up(old(self)@, pos, now, promotion).0,
            r.0 == spec_board_mouse_up(old(self)@, pos, now, promotion).1,
            r.1@ == spec_board_mouse_up(old(self)@, pos, now, promotion).2,
    {
        let d = match self.drag {
            Some(d) => d,
            None => {
                return (None, Vec::new());
            },
        };
        self.drag = None;
        let n = self.figurines.len();
        let mut i: usize = 0;
        while i < n
            invariant
                n == self.figurines@.len(),
                n == old(self)@.figs.len(),
                i <= n,
                self.drag is None,
                self.next_id == old(self).next_id,
                self.orientation == old(self).orientation,
                self.last_move == old(self).last_move,
                forall|k: int|
                    0 <= k < i ==> self.figurines@[k] == spec_clear_dragging(
                        old(self)@.figs,
                        now,
                    )[k],
                forall|k: int| i <= k < n ==> self.figurines@[k] == old(self)@.figs[k],
            decreases n - i,
        {
            let f = self.figurines[i];
            if f.dragging {
                let mut f2 = f;
                f2.dragging = false;
                f2.last_drag = now;
                self.figurines[i] = f2;
            }
            i = i + 1;
        }
        proof {
            assert(self.figurines@ =~= spec_clear_dragging(old(self)@.figs, now));
        }
        let origin = match d.source {
            DragSource::FromSquare(sq) => sq,
            DragSource::FromPocket(_) => Square { file: 0, rank: 0 },
        };
        let dest = match square_at(pos, self.orientation) {
            Some(sq) => sq,
            None => origin,
        };
        let ev = if d.threshold {
            Some(GroundMsg::UserMove(origin, dest, promotion))
        } else {
            None
        };
        let mut regs: Vec<Region> = Vec::new();
        regs.push(Region::Full);
        proof {
            assert(regs@ =~= seq![Region::Full]);
        }
        (ev, regs)
    }

    /// The draw plan for all board figurines at `now` (the actively dragged
    /// one ghosted), in store order.
    pub fn draw(&self, now: u64) -> (r: Vec<DrawItem>)
        requires
            self.wf(),
        ensures
            r@.len() == self@.figs.len(),
            forall|i: int|
                0 <= i < r@.len() ==> r@[i] == spec_draw_item(
                    self@.figs[i],
                    self@.drag,
                    now,
                    self@.orient,
                ),
    {
        let mut r: Vec<DrawItem> = Vec::new();
        let n = self.figurines.len();
        let mut i: usize = 0;
        while i < n
            invariant
                self.wf(),
                n == self.figurines@.len(),
                i <= n,
                r@.len() == i,
                forall|k: int|
                    0 <= k < i ==> r@[k] == spec_draw_item(
                        self@.figs[k],
                        self@.drag,
                        now,
                        self@.orient,
                    ),
            decreases n - i,
        {
            let f = self.figurines[i];
            let ghost_it = f.dragging && match self.drag {
                Some(d) => d.threshold,
                None => false,
            };
            let alpha = if ghost_it {
                ALPHA_GHOST
            } else {
                f.alpha_at(now)
            };
            r.push(DrawItem { piece: f.piece, at: f.pos_at(now, self.orientation), alpha });
            i = i + 1;
        }
        r
    }

    /// The overlay for the actively dragged piece (see `spec_draw_drag`).
    pub fn draw_drag(&self) -> (r: Option<DrawItem>)
        ensures
            r == spec_draw_drag(self@.drag),
    {
        match self.drag {
            Some(d) => if d.threshold {
                Some(DrawItem { piece: d.piece, at: d.pos, alpha: ALPHA_FULL })
            } else {
                None
            },
            None => None,
        }
    }

    /// How many figurines the store holds.
    pub fn figurine_count(&self) -> (r: usize)
        ensures
            r == self@.figs.len(),
    {
        self.figurines.len()
    }

    /// The figurine at store index `i`.
    pub fn figurine(&self, i: usize) -> (r: Figurine)
        requires
            i < self@.figs.len(),
        ensures
            r == self@.figs[i as int],
    {
        self.figurines[i]
    }

    /// The live drag, if any.
    pub fn drag_state(&self) -> (r: Option<Drag>)
        ensures
            r == self@.drag,
    {
        self.drag
    }

    /// The current orientation.
    pub fn orientation(&self) -> (r: Color)
        ensures
            r == self@.orient,
    {
        self.orientation
    }

    /// The next figurine identity to be handed out.
    pub fn next_id(&self) -> (r: u64)
        ensures
            r as int == self@.next_id,
    {
        self.next_id
    }

    /// The last confirmed move, for highlighting.
    pub fn last_move(&self) -> (r: Option<(Square, Square)>)
        ensures
            r == self@.last_move,
    {
        self.last_move
    }
}

} // verus!
