//! The selection state machine, the input dispatcher, and the
//! controller with its board snapshot.

use schack::board::{get_colour, sprite_slot, tile_uses_first_colour, Colour, Move, Piece, Square};
use schack::controller::Controller;
use schack::dispatch::{dispatch_key, dispatch_pointer_up, InputAction, KeyInput, PointerButton};
use schack::selection::{transition, SelectionState};

const CELL: u32 = 90;

fn sq(rank: usize, file: usize) -> Square {
    Square { rank, file }
}

fn empty_board() -> Vec<Vec<Piece>> {
    (0..8).map(|_| vec![Piece::Empty; 8]).collect()
}

#[test]
fn get_colour_of_every_piece() {
    assert_eq!(get_colour(Piece::King(Colour::White)), Some(Colour::White));
    assert_eq!(get_colour(Piece::Queen(Colour::Black)), Some(Colour::Black));
    assert_eq!(get_colour(Piece::Rook(Colour::White)), Some(Colour::White));
    assert_eq!(get_colour(Piece::Bishop(Colour::Black)), Some(Colour::Black));
    assert_eq!(get_colour(Piece::Knight(Colour::White)), Some(Colour::White));
    assert_eq!(get_colour(Piece::Pawn(Colour::Black)), Some(Colour::Black));
    assert_eq!(get_colour(Piece::Empty), None);
}

#[test]
fn sprite_slots_are_distinct_and_cover_the_table() {
    let pieces = [
        Piece::King(Colour::Black),
        Piece::Queen(Colour::Black),
        Piece::Rook(Colour::Black),
        Piece::Bishop(Colour::Black),
        Piece::Knight(Colour::Black),
        Piece::Pawn(Colour::Black),
        Piece::King(Colour::White),
        Piece::Queen(Colour::White),
        Piece::Rook(Colour::White),
        Piece::Bishop(Colour::White),
        Piece::Knight(Colour::White),
        Piece::Pawn(Colour::White),
    ];
    let mut seen = [false; 12];
    for p in pieces {
        let slot = sprite_slot(p).unwrap();
        assert!(slot < 12);
        assert!(!seen[slot]);
        seen[slot] = true;
    }
    assert_eq!(sprite_slot(Piece::Empty), None);
}

#[test]
fn tile_colours_alternate() {
    assert!(tile_uses_first_colour(0, 0));
    assert!(!tile_uses_first_colour(0, 1));
    assert!(!tile_uses_first_colour(1, 0));
    assert!(tile_uses_first_colour(1, 1));
    assert!(tile_uses_first_colour(7, 7));
}

#[test]
fn select_own_piece_from_idle() {
    let q = vec![sq(5, 4), sq(4, 4)];
    let (st, cmd) = transition(
        SelectionState::Idle,
        sq(6, 4),
        Some(Colour::White),
        Colour::White,
        q.clone(),
    );
    assert!(cmd.is_none());
    match st {
        SelectionState::Selected { anchor, targets } => {
            assert_eq!(anchor, sq(6, 4));
            assert_eq!(targets, q);
        }
        SelectionState::Idle => panic!("click on an own piece must select it"),
    }
}

#[test]
fn deselect_is_idempotent() {
    // Select e2, then click e2 again: back to Idle, no highlights left.
    let q = vec![sq(5, 4), sq(4, 4)];
    let (st, _) = transition(
        SelectionState::Idle,
        sq(6, 4),
        Some(Colour::White),
        Colour::White,
        q,
    );
    let (st2, cmd2) = transition(st, sq(6, 4), Some(Colour::White), Colour::White, vec![]);
    assert!(matches!(st2, SelectionState::Idle));
    assert!(cmd2.is_none());
}

#[test]
fn turn_gating_ignores_opponent_piece() {
    let (st, cmd) = transition(
        SelectionState::Idle,
        sq(1, 0),
        Some(Colour::Black),
        Colour::White,
        vec![sq(2, 0)],
    );
    assert!(matches!(st, SelectionState::Idle));
    assert!(cmd.is_none());
}

#[test]
fn turn_gating_ignores_empty_square() {
    let (st, cmd) = transition(SelectionState::Idle, sq(3, 3), None, Colour::White, vec![]);
    assert!(matches!(st, SelectionState::Idle));
    assert!(cmd.is_none());
}

#[test]
fn commit_clears_selection_and_submits_once() {
    let sel = SelectionState::Selected {
        anchor: sq(6, 4),
        targets: vec![sq(5, 4), sq(4, 4)],
    };
    let (st, cmd) = transition(sel, sq(4, 4), None, Colour::White, vec![]);
    assert!(matches!(st, SelectionState::Idle));
    assert_eq!(cmd, Some(Move { from: sq(6, 4), to: sq(4, 4) }));
}

#[test]
fn click_outside_targets_on_opponent_goes_idle() {
    let sel = SelectionState::Selected {
        anchor: sq(6, 4),
        targets: vec![sq(5, 4), sq(4, 4)],
    };
    let (st, cmd) = transition(sel, sq(0, 0), Some(Colour::Black), Colour::White, vec![]);
    assert!(matches!(st, SelectionState::Idle));
    assert!(cmd.is_none());
}

#[test]
fn reselection_discards_old_highlights() {
    // From Selected{anchor=e2, targets={e3,e4}}, clicking d2 (own
    // piece) re-anchors there with the fresh engine answer only.
    let sel = SelectionState::Selected {
        anchor: sq(6, 4),
        targets: vec![sq(5, 4), sq(4, 4)],
    };
    let fresh = vec![sq(5, 3), sq(4, 3)];
    let (st, cmd) = transition(sel, sq(6, 3), Some(Colour::White), Colour::White, fresh.clone());
    assert!(cmd.is_none());
    match st {
        SelectionState::Selected { anchor, targets } => {
            assert_eq!(anchor, sq(6, 3));
            assert_eq!(targets, fresh);
        }
        SelectionState::Idle => panic!("reselection must select the new square"),
    }
}

#[test]
fn reset_clears_selection_from_any_state() {
    let mut c = Controller::new();
    c.handle_click(sq(6, 4), Some(Colour::White), Colour::White, vec![sq(5, 4)]);
    c.reset();
    assert_eq!(c.selected(), None);
    let snap = c.snapshot(empty_board());
    assert!(snap.highlighted.is_empty());
}

#[test]
fn controller_full_click_sequence() {
    let mut c = Controller::new();
    // Select e2.
    let cmd = c.handle_click(sq(6, 4), Some(Colour::White), Colour::White, vec![sq(5, 4), sq(4, 4)]);
    assert!(cmd.is_none());
    assert_eq!(c.selected(), Some(sq(6, 4)));
    // Commit e2 e4.
    let cmd = c.handle_click(sq(4, 4), None, Colour::White, vec![]);
    assert_eq!(cmd, Some(Move { from: sq(6, 4), to: sq(4, 4) }));
    assert_eq!(c.selected(), None);
}

#[test]
fn snapshot_reflects_board_and_selection() {
    let mut c = Controller::new();
    c.handle_click(sq(6, 4), Some(Colour::White), Colour::White, vec![sq(5, 4), sq(4, 4)]);
    let mut board = empty_board();
    board[6][4] = Piece::Pawn(Colour::White);
    let snap = c.snapshot(board);
    assert_eq!(snap.selected, Some(sq(6, 4)));
    assert_eq!(snap.highlighted, vec![sq(5, 4), sq(4, 4)]);
    assert_eq!(snap.piece_at(sq(6, 4)), Piece::Pawn(Colour::White));
    assert_eq!(snap.piece_at(sq(0, 0)), Piece::Empty);
}

#[test]
fn dispatch_left_click_maps_to_square() {
    let a = dispatch_pointer_up(PointerButton::Left, 4 * CELL + 7, 6 * CELL + 1, CELL, CELL);
    assert_eq!(a, InputAction::Click(sq(6, 4)));
}

#[test]
fn dispatch_ignores_other_buttons() {
    assert_eq!(dispatch_pointer_up(PointerButton::Right, 10, 10, CELL, CELL), InputAction::Ignore);
    assert_eq!(dispatch_pointer_up(PointerButton::Middle, 10, 10, CELL, CELL), InputAction::Ignore);
}

#[test]
fn dispatch_discards_clicks_off_the_board() {
    assert_eq!(
        dispatch_pointer_up(PointerButton::Left, 8 * CELL, 0, CELL, CELL),
        InputAction::Ignore
    );
}

#[test]
fn dispatch_key_bindings() {
    assert_eq!(dispatch_key(KeyInput::Escape), InputAction::Quit);
    assert_eq!(dispatch_key(KeyInput::R), InputAction::Reset);
    assert_eq!(dispatch_key(KeyInput::Other), InputAction::Ignore);
}
