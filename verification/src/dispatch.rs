//! Routing of raw input events: a pointer release becomes a click on a
//! board square (or is discarded when it lands off the board or comes
//! from the wrong button), and the two bound keys become the reset and
//! quit operations. Stateless, pure routing.

use vstd::prelude::*;
use crate::board::Square;
use crate::coords::{spec_square_from_pixel, square_from_pixel};

verus! {

/// Pointer button of a release event, as the host reports it.
#[derive(Clone, Copy, PartialEq, Eq, Structural, Debug)]
pub enum PointerButton {
    Left,
    Right,
    Middle,
    Other,
}

/// The keys the interface is bound to; every other key is `Other`.
#[derive(Clone, Copy, PartialEq, Eq, Structural, Debug)]
pub enum KeyInput {
    /// Bound to quitting the application.
    Escape,
    /// Bound to resetting the game.
    R,
    Other,
}

/// What an input event asks the controller to do.
#[derive(Clone, Copy, PartialEq, Eq, Structural, Debug)]
pub enum InputAction {
    /// Handle a click on this (validated) board square.
    Click(Square),
    /// Reset the game to the starting position.
    Reset,
    /// Leave the event loop.
    Quit,
    /// Nothing: wrong button, unbound key, or a click off the board.
    Ignore,
}

/// The action of a left pointer release at the given pixel: the click
/// on the square under it when that square is on the board, otherwise
/// nothing.
pub open spec fn spec_pointer_action(
    button: PointerButton,
    x: int,
    y: int,
    cell_w: int,
    cell_h: int,
) -> InputAction {
    if button != PointerButton::Left {
        InputAction::Ignore
    } else {
        let (rank, file) = spec_square_from_pixel(x, y, cell_w, cell_h);
        if 0 <= rank < 8 && 0 <= file < 8 {
            InputAction::Click(Square { rank: rank as usize, file: file as usize })
        } else {
            InputAction::Ignore
        }
    }
}

/// Routes a pointer-release event. Only the left button acts; a click
/// outside the board area is discarded rather than propagated.
pub fn dispatch_pointer_up(button: PointerButton, x: u32, y: u32, cell_w: u32, cell_h: u32) -> (a:
    InputAction)
    requires
        cell_w > 0,
        cell_h > 0,
    ensures
        a == spec_pointer_action(button, x as int, y as int, cell_w as int, cell_h as int),
        a matches InputAction::Click(s) ==> s.wf(),
{
    match button {
        PointerButton::Left => {
            let (rank, file) = square_from_pixel(x, y, cell_w, cell_h);
            match Square::new_checked(rank as usize, file as usize) {
                Some(s) => InputAction::Click(s),
                None => InputAction::Ignore,
            }
        },
        _ => InputAction::Ignore,
    }
}

/// Routes a key press: the quit key quits, the reset key resets, and
/// every other key does nothing.
pub fn dispatch_key(key: KeyInput) -> (a: InputAction)
    ensures
        key is Escape <==> a is Quit,
        key is R <==> a is Reset,
        key is Other <==> a is Ignore,
{
    match key {
        KeyInput::Escape => InputAction::Quit,
        KeyInput::R => InputAction::Reset,
        KeyInput::Other => InputAction::Ignore,
    }
}

} // verus!
