// Drag-controller behaviour: threshold gating, destination resolution,
// out-of-bounds fallback, single-drag discipline and the draw plan.
use chessground::board::Board;
use chessground::chess::{Color, Material, MaterialSide, Piece, Position, Role, Square};
use chessground::drag::{DragSource, GroundMsg, Region};
use chessground::geometry::{square_center, Vec2};
use chessground::pockets::Pockets;

fn one_pawn_pockets() -> Pockets {
    let mut pockets = Pockets::new();
    let m = Material {
        white: MaterialSide { pawns: 1, knights: 1, bishops: 0, rooks: 0, queens: 0, kings: 0 },
        black: MaterialSide { pawns: 0, knights: 0, bishops: 0, rooks: 0, queens: 0, kings: 0 },
    };
    pockets.set_pockets(&m, Color::White, 0);
    pockets
}

fn board_with_pawn_on_e2() -> (Board, Square) {
    let mut board = Board::new(Color::White);
    let e2 = Square::new(4, 1);
    let mut pos = Position::empty();
    pos.put(e2, Some(Piece { color: Color::White, role: Role::Pawn }));
    board.set_position(&pos, None, 1000);
    (board, e2)
}

#[test]
fn tiny_motion_is_a_click_not_a_drag() {
    let mut pockets = one_pawn_pockets();
    let slot0 = Vec2 { x: 9000, y: 7500 };
    pockets.drag_mouse_down(slot0, 1);
    assert!(pockets.drag_state().is_some());
    // 50 milli-units is below 0.1 board units, and at 50 px per unit it is
    // 2.5 px, below the 4 px device threshold.
    pockets.drag_mouse_move(Vec2 { x: 9050, y: 7500 }, 50);
    let (ev, _) = pockets.drag_mouse_up(Vec2 { x: 4500, y: 4500 }, 100, Color::White);
    assert!(ev.is_none(), "a sub-threshold release emits nothing");
    assert!(pockets.drag_state().is_none());
}

#[test]
fn normalized_threshold_crossing_emits_one_drop() {
    let mut pockets = one_pawn_pockets();
    pockets.drag_mouse_down(Vec2 { x: 9000, y: 7500 }, 1);
    pockets.drag_mouse_move(Vec2 { x: 6500, y: 5500 }, 50);
    let (ev, _) = pockets.drag_mouse_up(Vec2 { x: 4500, y: 4500 }, 100, Color::White);
    match ev {
        Some(GroundMsg::UserDrop(piece, dest)) => {
            assert_eq!(piece, Piece { color: Color::White, role: Role::Pawn });
            assert_eq!(dest, Square::new(4, 3), "dropped on e4");
        },
        _ => panic!("expected exactly one drop event"),
    }
    assert!(pockets.drag_state().is_none());
}

#[test]
fn device_threshold_alone_suffices() {
    let mut pockets = one_pawn_pockets();
    pockets.drag_mouse_down(Vec2 { x: 9000, y: 7500 }, 1);
    // 60 milli-units is below the normalized threshold, but at 80 px per
    // unit it is 4.8 px, past the 4 px device threshold.
    pockets.drag_mouse_move(Vec2 { x: 9060, y: 7500 }, 80);
    assert!(pockets.drag_state().unwrap().threshold);
}

#[test]
fn pocket_release_off_board_emits_nothing() {
    let mut pockets = one_pawn_pockets();
    pockets.drag_mouse_down(Vec2 { x: 9000, y: 7500 }, 1);
    pockets.drag_mouse_move(Vec2 { x: 4500, y: 4500 }, 50);
    // Released back over the pocket band: no square, no event, no drag.
    let (ev, regions) = pockets.drag_mouse_up(Vec2 { x: 9000, y: 6500 }, 100, Color::White);
    assert!(ev.is_none());
    assert!(pockets.drag_state().is_none());
    assert_eq!(regions, vec![Region::Full]);
    // The figurine is released too.
    let mut p2 = pockets;
    assert_eq!(p2.dragging_mut(), None);
}

#[test]
fn board_release_out_of_bounds_falls_back_to_origin() {
    let (mut board, e2) = board_with_pawn_on_e2();
    let origin = square_center(e2, Color::White);
    board.drag_mouse_down(origin, 1);
    board.drag_mouse_move(Vec2 { x: -2000, y: 200 }, 50);
    let (ev, _) = board.drag_mouse_up(Vec2 { x: -2000, y: 200 }, 1500, None);
    match ev {
        Some(GroundMsg::UserMove(from, to, promo)) => {
            assert_eq!(from, e2);
            assert_eq!(to, e2, "off-board release resolves to the origin square");
            assert_eq!(promo, None);
        },
        _ => panic!("expected a (no-op) move event"),
    }
    assert!(board.drag_state().is_none(), "no dangling drag");
    // The store was not touched speculatively.
    assert_eq!(board.figurine_count(), 1);
    assert_eq!(board.figurine(0).square, Some(e2));
    assert!(!board.figurine(0).dragging);
}

#[test]
fn board_drag_carries_promotion_choice() {
    let (mut board, e2) = board_with_pawn_on_e2();
    board.drag_mouse_down(square_center(e2, Color::White), 1);
    board.drag_mouse_move(Vec2 { x: 4500, y: 500 }, 50);
    let (ev, _) = board.drag_mouse_up(Vec2 { x: 4500, y: 500 }, 1500, Some(Role::Queen));
    match ev {
        Some(GroundMsg::UserMove(from, to, promo)) => {
            assert_eq!(from, e2);
            assert_eq!(to, Square::new(4, 7));
            assert_eq!(promo, Some(Role::Queen));
        },
        _ => panic!("expected a move event"),
    }
}

#[test]
fn second_pointer_down_is_ignored_while_dragging() {
    let mut pockets = one_pawn_pockets();
    pockets.drag_mouse_down(Vec2 { x: 9000, y: 7500 }, 1);
    let d1 = pockets.drag_state().unwrap();
    assert_eq!(d1.source, DragSource::FromPocket(0));
    // A second pointer-down on the other slot changes nothing.
    pockets.drag_mouse_down(Vec2 { x: 9000, y: 6500 }, 1);
    let d2 = pockets.drag_state().unwrap();
    assert_eq!(d2.source, DragSource::FromPocket(0));
    let dragged: Vec<bool> = (0..2).map(|i| pockets.figurine(i).dragging).collect();
    assert_eq!(dragged, vec![true, false], "exactly one figurine stays dragged");
}

#[test]
fn non_primary_button_does_not_arm() {
    let mut pockets = one_pawn_pockets();
    pockets.drag_mouse_down(Vec2 { x: 9000, y: 7500 }, 3);
    assert!(pockets.drag_state().is_none());
}

#[test]
fn pointer_down_on_empty_slot_does_nothing() {
    let mut pockets = one_pawn_pockets();
    // Slot 5 is inside the pocket band but holds no figurine.
    pockets.drag_mouse_down(Vec2 { x: 9000, y: 2500 }, 1);
    assert!(pockets.drag_state().is_none());
}

#[test]
fn move_regions_include_origin_once_past_threshold() {
    let mut pockets = one_pawn_pockets();
    let slot0 = Vec2 { x: 9000, y: 7500 };
    pockets.drag_mouse_down(slot0, 1);
    let small = Vec2 { x: 9010, y: 7500 };
    let r1 = pockets.drag_mouse_move(small, 50);
    assert_eq!(r1, vec![Region::Around(slot0), Region::Around(small)]);
    let far = Vec2 { x: 5500, y: 5500 };
    let r2 = pockets.drag_mouse_move(far, 50);
    assert_eq!(r2, vec![Region::Around(small), Region::Around(far), Region::OfSlot(0)]);
}

#[test]
fn draw_plan_ghosts_only_the_dragged_piece_past_threshold() {
    let mut pockets = one_pawn_pockets();
    pockets.drag_mouse_down(Vec2 { x: 9000, y: 7500 }, 1);
    // Before the threshold: no overlay, no ghosting.
    assert!(pockets.draw_drag().is_none());
    let plan = pockets.draw(1000, Color::White);
    assert_eq!(plan.len(), 2);
    assert_eq!(plan[0].alpha, 1000);

    let far = Vec2 { x: 5500, y: 5500 };
    pockets.drag_mouse_move(far, 50);
    // Past it: the origin figurine is ghosted, the overlay rides the pointer.
    let plan = pockets.draw(1000, Color::White);
    assert_eq!(plan[0].alpha, 200);
    assert_eq!(plan[1].alpha, 1000, "the other figurine is untouched");
    let overlay = pockets.draw_drag().unwrap();
    assert_eq!(overlay.at, far);
    assert_eq!(overlay.alpha, 1000);
    assert_eq!(overlay.piece, Piece { color: Color::White, role: Role::Pawn });
}

#[test]
fn board_draw_plan_places_figurines_at_animated_positions() {
    let (board, e2) = board_with_pawn_on_e2();
    let plan = board.draw(5000);
    assert_eq!(plan.len(), 1);
    assert_eq!(plan[0].at, square_center(e2, Color::White));
    assert_eq!(plan[0].alpha, 1000);
    assert!(board.draw_drag().is_none());
}

#[test]
fn release_stamps_the_figurine_and_clears_dragging() {
    let (mut board, e2) = board_with_pawn_on_e2();
    board.drag_mouse_down(square_center(e2, Color::White), 1);
    assert!(board.figurine(0).dragging);
    let mut b = board;
    b.drag_mouse_move(Vec2 { x: 4500, y: 4500 }, 50);
    b.drag_mouse_up(Vec2 { x: 4500, y: 4500 }, 1700, None);
    let f = b.figurine(0);
    assert!(!f.dragging);
    assert_eq!(f.last_drag, 1700);
}
