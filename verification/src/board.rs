//! Board-space data: squares, colours, piece identities, and the
//! read-only helpers the renderer needs (tile parity, sprite slots).

use vstd::prelude::*;

verus! {

/// One of the 64 board cells. Rank 0 is the row rendered at the top
/// (algebraic rank 8); file 0 is the leftmost column (file a).
#[derive(Clone, Copy, PartialEq, Eq, Structural, Debug)]
pub struct Square {
    pub rank: usize,
    pub file: usize,
}

impl Square {
    /// Both coordinates lie on the 8x8 board.
    pub open spec fn wf(self) -> bool {
        self.rank < 8 && self.file < 8
    }

    /// Builds a square only when both coordinates are on the board;
    /// out-of-range input is rejected, never wrapped or clamped.
    pub fn new_checked(rank: usize, file: usize) -> (r: Option<Square>)
        ensures
            rank < 8 && file < 8 <==> r is Some,
            r matches Some(s) ==> s == (Square { rank, file }) && s.wf(),
    {
        if rank < 8 && file < 8 {
            Some(Square { rank, file })
        } else {
            None
        }
    }
}

/// Side to move, as reported by the rule engine.
#[derive(Clone, Copy, PartialEq, Eq, Structural, Debug)]
pub enum Colour {
    White,
    Black,
}

/// Occupant of a board cell. Owned by the rule engine; the controller
/// reads it only to test occupancy and colour.
#[derive(Clone, Copy, PartialEq, Eq, Structural, Debug)]
pub enum Piece {
    King(Colour),
    Queen(Colour),
    Rook(Colour),
    Bishop(Colour),
    Knight(Colour),
    Pawn(Colour),
    Empty,
}

/// Colour of the piece on a cell, `None` for an empty cell.
pub open spec fn spec_colour_of(piece: Piece) -> Option<Colour> {
    match piece {
        Piece::King(c) => Some(c),
        Piece::Queen(c) => Some(c),
        Piece::Rook(c) => Some(c),
        Piece::Bishop(c) => Some(c),
        Piece::Knight(c) => Some(c),
        Piece::Pawn(c) => Some(c),
        Piece::Empty => None,
    }
}

/// Returns the colour of `piece`, or `None` when the cell is empty.
pub fn get_colour(piece: Piece) -> (c: Option<Colour>)
    ensures
        c == spec_colour_of(piece),
{
    match piece {
        Piece::King(c)
        | Piece::Queen(c)
        | Piece::Rook(c)
        | Piece::Bishop(c)
        | Piece::Knight(c)
        | Piece::Pawn(c) => Some(c),
        Piece::Empty => None,
    }
}

/// A move: an ordered pair of squares. Promotion and disambiguation
/// beyond square-to-square are not modelled.
#[derive(Clone, Copy, PartialEq, Eq, Structural, Debug)]
pub struct Move {
    pub from: Square,
    pub to: Square,
}

impl Move {
    pub open spec fn wf(self) -> bool {
        self.from.wf() && self.to.wf()
    }
}

/// True when the tile at (`row`, `col`) takes the first of the two
/// alternating board colours: tiles of even coordinate parity do.
pub fn tile_uses_first_colour(row: usize, col: usize) -> (light: bool)
    requires
        row < 8,
        col < 8,
    ensures
        light == ((row + col) % 2 == 0),
{
    (row + col) % 2 == 0
}

/// Slot of each piece identity in a 12-entry sprite table: a direct
/// keyed mapping, so the renderer never scans a list per frame.
pub open spec fn spec_sprite_slot(piece: Piece) -> Option<int> {
    match piece {
        Piece::King(Colour::Black) => Some(0int),
        Piece::Queen(Colour::Black) => Some(1int),
        Piece::Rook(Colour::Black) => Some(2int),
        Piece::Bishop(Colour::Black) => Some(3int),
        Piece::Knight(Colour::Black) => Some(4int),
        Piece::Pawn(Colour::Black) => Some(5int),
        Piece::King(Colour::White) => Some(6int),
        Piece::Queen(Colour::White) => Some(7int),
        Piece::Rook(Colour::White) => Some(8int),
        Piece::Bishop(Colour::White) => Some(9int),
        Piece::Knight(Colour::White) => Some(10int),
        Piece::Pawn(Colour::White) => Some(11int),
        Piece::Empty => None,
    }
}

/// Index of `piece`'s sprite in a 12-entry table, `None` for an empty
/// cell. Distinct identities get distinct slots, all below 12.
pub fn sprite_slot(piece: Piece) -> (r: Option<usize>)
    ensures
        r matches Some(i) ==> Some(i as int) == spec_sprite_slot(piece) && i < 12,
        r is None <==> piece is Empty,
{
    match piece {
        Piece::King(Colour::Black) => Some(0),
        Piece::Queen(Colour::Black) => Some(1),
        Piece::Rook(Colour::Black) => Some(2),
        Piece::Bishop(Colour::Black) => Some(3),
        Piece::Knight(Colour::Black) => Some(4),
        Piece::Pawn(Colour::Black) => Some(5),
        Piece::King(Colour::White) => Some(6),
        Piece::Queen(Colour::White) => Some(7),
        Piece::Rook(Colour::White) => Some(8),
        Piece::Bishop(Colour::White) => Some(9),
        Piece::Knight(Colour::White) => Some(10),
        Piece::Pawn(Colour::White) => Some(11),
        Piece::Empty => None,
    }
}

} // verus!
