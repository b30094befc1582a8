// Reconciliation, animation and pocket-building behaviour, driven through
// the public widget API with injected timestamps.
use chessground::board::Board;
use chessground::chess::{Color, Material, MaterialSide, Piece, Position, Role, Square};
use chessground::geometry::{square_at, square_center, Vec2};
use chessground::pockets::Pockets;

fn side(pawns: u8, knights: u8, bishops: u8, rooks: u8, queens: u8) -> MaterialSide {
    MaterialSide { pawns, knights, bishops, rooks, queens, kings: 0 }
}

fn material(white: MaterialSide, black: MaterialSide) -> Material {
    Material { white, black }
}

#[test]
fn reconcile_same_position_is_stable() {
    let mut board = Board::new(Color::White);
    let mut pos = Position::empty();
    let e2 = Square::new(4, 1);
    let g8 = Square::new(6, 7);
    pos.put(e2, Some(Piece { color: Color::White, role: Role::Pawn }));
    pos.put(g8, Some(Piece { color: Color::Black, role: Role::Knight }));
    board.set_position(&pos, None, 1000);
    assert_eq!(board.figurine_count(), 2);
    let before: Vec<_> = (0..2).map(|i| board.figurine(i)).collect();

    // Long after every animation has settled, the same position again.
    board.set_position(&pos, None, 5000);
    assert_eq!(board.figurine_count(), 2);
    for i in 0..2 {
        let f = board.figurine(i);
        assert_eq!(f.id, before[i].id);
        assert_eq!(f.square, before[i].square);
        assert!(!f.fading);
        // Nothing animates: each figurine renders exactly at its target.
        let target = square_center(f.square.unwrap(), Color::White);
        assert_eq!(f.pos_at(5000, Color::White), target);
        assert_eq!(f.alpha_at(5000), 1000);
    }
}

#[test]
fn single_move_reuses_identity() {
    let mut board = Board::new(Color::White);
    let e2 = Square::new(4, 1);
    let e4 = Square::new(4, 3);
    let pawn = Piece { color: Color::White, role: Role::Pawn };
    let mut pos = Position::empty();
    pos.put(e2, Some(pawn));
    board.set_position(&pos, None, 1000);
    assert_eq!(board.figurine_count(), 1);
    let id = board.figurine(0).id;

    let mut pos2 = Position::empty();
    pos2.put(e4, Some(pawn));
    board.set_position(&pos2, Some((e2, e4)), 2000);
    assert_eq!(board.figurine_count(), 1);
    let f = board.figurine(0);
    assert_eq!(f.id, id, "the same figurine instance moved");
    assert_eq!(f.square, Some(e4));
    assert_eq!(f.start, square_center(e2, Color::White));
    assert_eq!(f.time, 2000);
    assert!(!f.fading);
    assert_eq!(board.last_move(), Some((e2, e4)));
}

#[test]
fn move_animation_interpolates_and_clamps() {
    let mut board = Board::new(Color::White);
    let e2 = Square::new(4, 1);
    let e4 = Square::new(4, 3);
    let pawn = Piece { color: Color::White, role: Role::Pawn };
    let mut pos = Position::empty();
    pos.put(e2, Some(pawn));
    board.set_position(&pos, None, 1000);
    let mut pos2 = Position::empty();
    pos2.put(e4, Some(pawn));
    board.set_position(&pos2, None, 2000);
    let f = board.figurine(0);
    // e2 centers at (4500, 6500), e4 at (4500, 4500) for a white-up board.
    assert_eq!(f.start, Vec2 { x: 4500, y: 6500 });
    assert_eq!(f.pos_at(2000, Color::White), Vec2 { x: 4500, y: 6500 });
    // Halfway through the 200 ms animation: halfway between the centers.
    assert_eq!(f.pos_at(2100, Color::White), Vec2 { x: 4500, y: 5500 });
    // At and beyond the duration: exactly the target, no drift.
    assert_eq!(f.pos_at(2200, Color::White), Vec2 { x: 4500, y: 4500 });
    assert_eq!(f.pos_at(9999, Color::White), Vec2 { x: 4500, y: 4500 });
}

#[test]
fn capture_fades_exactly_the_captured_and_purges_it() {
    let mut board = Board::new(Color::White);
    let d4 = Square::new(3, 3);
    let f6 = Square::new(5, 5);
    let wb = Piece { color: Color::White, role: Role::Bishop };
    let bn = Piece { color: Color::Black, role: Role::Knight };
    let mut pos = Position::empty();
    pos.put(d4, Some(wb));
    pos.put(f6, Some(bn));
    board.set_position(&pos, None, 1000);
    assert_eq!(board.figurine_count(), 2);
    let bishop_id = board.figurine(0).id;
    let knight_id = board.figurine(1).id;

    // The bishop captures on f6.
    let mut pos2 = Position::empty();
    pos2.put(f6, Some(wb));
    board.set_position(&pos2, None, 2000);
    assert_eq!(board.figurine_count(), 2);
    let mover = board.figurine(0);
    let victim = board.figurine(1);
    assert_eq!(mover.id, bishop_id);
    assert_eq!(mover.square, Some(f6));
    assert!(!mover.fading);
    assert_eq!(mover.start, square_center(d4, Color::White));
    assert_eq!(victim.id, knight_id);
    assert!(victim.fading, "exactly the captured figurine fades");
    assert_eq!(victim.time, 2000);

    // Before the fade has elapsed the victim survives a purge...
    board.purge(2100);
    assert_eq!(board.figurine_count(), 2);
    // ...and is removed once it has elapsed.
    board.purge(2200);
    assert_eq!(board.figurine_count(), 1);
    assert_eq!(board.figurine(0).id, bishop_id);
}

#[test]
fn fresh_arrival_fades_in() {
    let mut board = Board::new(Color::White);
    let a1 = Square::new(0, 0);
    let mut pos = Position::empty();
    pos.put(a1, Some(Piece { color: Color::White, role: Role::Rook }));
    board.set_position(&pos, None, 1000);
    let f = board.figurine(0);
    assert!(!f.fading);
    assert_eq!(f.alpha_at(1000), 0);
    assert_eq!(f.alpha_at(1100), 500);
    assert_eq!(f.alpha_at(1200), 1000);
    // Created in place: no start offset.
    assert_eq!(f.start, square_center(a1, Color::White));
}

#[test]
fn pocket_material_maps_to_stacked_figurines() {
    let mut pockets = Pockets::new();
    let m = material(side(2, 1, 0, 0, 1), side(0, 0, 0, 0, 0));
    pockets.set_pockets(&m, Color::White, 500);
    // Three roles present: one figurine each, none for bishops or rooks.
    assert_eq!(pockets.figurine_count(), 3);
    let roles: Vec<Role> = (0..3).map(|i| pockets.figurine(i).piece.role).collect();
    assert_eq!(roles, vec![Role::Pawn, Role::Knight, Role::Queen]);
    for i in 0..3 {
        let f = pockets.figurine(i);
        assert_eq!(f.piece.color, Color::White);
        assert_eq!(f.start.x, 9000);
        assert_eq!(f.start.y, 7500 - 1000 * i as i64);
        assert_eq!(f.square, None);
        assert!(!f.fading);
        assert_eq!(f.time, 500, "all anchored at the same instant");
    }
}

#[test]
fn pocket_rebuild_uses_side_to_move() {
    let mut pockets = Pockets::new();
    let m = material(side(1, 0, 0, 0, 0), side(0, 0, 1, 1, 0));
    pockets.set_pockets(&m, Color::Black, 0);
    assert_eq!(pockets.figurine_count(), 2);
    assert_eq!(pockets.figurine(0).piece.role, Role::Bishop);
    assert_eq!(pockets.figurine(1).piece.role, Role::Rook);
    assert_eq!(pockets.figurine(0).piece.color, Color::Black);
    // Rebuilding for the other side replaces the contents.
    pockets.set_pockets(&m, Color::White, 0);
    assert_eq!(pockets.figurine_count(), 1);
    assert_eq!(pockets.figurine(0).piece.role, Role::Pawn);
}

#[test]
fn empty_material_yields_empty_pockets() {
    let mut pockets = Pockets::new();
    let m = material(side(0, 0, 0, 0, 0), side(0, 0, 0, 0, 0));
    pockets.set_pockets(&m, Color::White, 0);
    assert_eq!(pockets.figurine_count(), 0);
}

#[test]
fn flip_mirrors_geometry() {
    let e2 = Square::new(4, 1);
    let white_center = square_center(e2, Color::White);
    let black_center = square_center(e2, Color::Black);
    assert_eq!(white_center, Vec2 { x: 4500, y: 6500 });
    assert_eq!(black_center, Vec2 { x: 3500, y: 1500 });
    // A point maps back to the square it is the center of.
    assert_eq!(square_at(white_center, Color::White), Some(e2));
    assert_eq!(square_at(black_center, Color::Black), Some(e2));
    // Outside the board region nothing resolves.
    assert_eq!(square_at(Vec2 { x: 9000, y: 500 }, Color::White), None);
    assert_eq!(square_at(Vec2 { x: -1, y: 500 }, Color::White), None);

    let mut board = Board::new(Color::White);
    board.flip();
    assert_eq!(board.orientation(), Color::Black);
}

#[test]
fn promotion_replaces_the_pawn() {
    let mut board = Board::new(Color::White);
    let e7 = Square::new(4, 6);
    let e8 = Square::new(4, 7);
    let pawn = Piece { color: Color::White, role: Role::Pawn };
    let queen = Piece { color: Color::White, role: Role::Queen };
    let mut pos = Position::empty();
    pos.put(e7, Some(pawn));
    board.set_position(&pos, None, 1000);
    let pawn_id = board.figurine(0).id;

    // The pawn promotes: a queen appears on e8, the pawn vanishes.
    let mut pos2 = Position::empty();
    pos2.put(e8, Some(queen));
    board.set_position(&pos2, None, 2000);
    assert_eq!(board.figurine_count(), 2);
    let fresh = board.figurine(0);
    let old = board.figurine(1);
    assert_eq!(fresh.piece, queen);
    assert!(!fresh.fading);
    assert_ne!(fresh.id, pawn_id, "a changed piece kind is a fresh figurine");
    assert_eq!(old.id, pawn_id);
    assert!(old.fading);
    board.purge(2200);
    assert_eq!(board.figurine_count(), 1);
}
