//! Encoding of a move as the rule engine's textual command:
//! `"<fromFile><fromRank> <toFile><toRank>"`, where file 0..8 maps to
//! letters 'a'..'h' and rank index `r` maps to the digit `8 - r`.
//!
//! Out-of-range coordinates are a recoverable [`NotationError`], never
//! a panic: malformed input degrades to a no-op at the caller.

use vstd::prelude::*;
use crate::board::Move;

verus! {

/// Why a move could not be encoded.
#[derive(Clone, Copy, PartialEq, Eq, Structural, Debug)]
pub enum NotationError {
    /// A rank or file index lay outside `[0, 8)`.
    InvalidCoordinate,
}

/// Letter of a file index: 0 -> 'a', ..., 7 -> 'h'.
pub open spec fn spec_file_char(f: int) -> char {
    if f == 0 {
        'a'
    } else if f == 1 {
        'b'
    } else if f == 2 {
        'c'
    } else if f == 3 {
        'd'
    } else if f == 4 {
        'e'
    } else if f == 5 {
        'f'
    } else if f == 6 {
        'g'
    } else {
        'h'
    }
}

/// Digit of a rank index: `8 - r`, so rank 0 -> '8' and rank 7 -> '1'.
pub open spec fn spec_rank_char(r: int) -> char {
    if r == 0 {
        '8'
    } else if r == 1 {
        '7'
    } else if r == 2 {
        '6'
    } else if r == 3 {
        '5'
    } else if r == 4 {
        '4'
    } else if r == 5 {
        '3'
    } else if r == 6 {
        '2'
    } else {
        '1'
    }
}

/// The five characters of an encoded move: from-square token, a single
/// space, to-square token.
pub open spec fn spec_move_notation(from: (int, int), to: (int, int)) -> Seq<char> {
    seq![
        spec_file_char(from.1),
        spec_rank_char(from.0),
        ' ',
        spec_file_char(to.1),
        spec_rank_char(to.0),
    ]
}

/// Both coordinates of a raw (rank, file) pair lie on the board.
pub open spec fn spec_pair_in_range(p: (usize, usize)) -> bool {
    p.0 < 8 && p.1 < 8
}

fn file_token(f: usize) -> (r: &'static str)
    requires
        f < 8,
    ensures
        r@.len() == 1,
        r@[0] == spec_file_char(f as int),
{
    proof {
        reveal_strlit("a");
        reveal_strlit("b");
        reveal_strlit("c");
        reveal_strlit("d");
        reveal_strlit("e");
        reveal_strlit("f");
        reveal_strlit("g");
        reveal_strlit("h");
    }
    match f {
        0 => "a",
        1 => "b",
        2 => "c",
        3 => "d",
        4 => "e",
        5 => "f",
        6 => "g",
        _ => "h",
    }
}

fn rank_token(r: usize) -> (s: &'static str)
    requires
        r < 8,
    ensures
        s@.len() == 1,
        s@[0] == spec_rank_char(r as int),
{
    proof {
        reveal_strlit("8");
        reveal_strlit("7");
        reveal_strlit("6");
        reveal_strlit("5");
        reveal_strlit("4");
        reveal_strlit("3");
        reveal_strlit("2");
        reveal_strlit("1");
    }
    match r {
        0 => "8",
        1 => "7",
        2 => "6",
        3 => "5",
        4 => "4",
        5 => "3",
        6 => "2",
        _ => "1",
    }
}

/// Encodes a move between two raw (rank, file) pairs as the engine's
/// notation. Succeeds exactly when all four coordinates are in
/// `[0, 8)`; anything else is an `InvalidCoordinate` error.
pub fn move_string(from: (usize, usize), to: (usize, usize)) -> (r: Result<
    String,
    NotationError,
>)
    ensures
        r is Ok <==> spec_pair_in_range(from) && spec_pair_in_range(to),
        r matches Ok(s) ==> s@ == spec_move_notation(
            (from.0 as int, from.1 as int),
            (to.0 as int, to.1 as int),
        ),
        r matches Err(e) ==> e == NotationError::InvalidCoordinate,
{
    if !(from.0 < 8 && from.1 < 8 && to.0 < 8 && to.1 < 8) {
        return Err(NotationError::InvalidCoordinate);
    }
    proof {
        reveal_strlit(" ");
    }
    let mut s = String::new();
    s.append(file_token(from.1));
    s.append(rank_token(from.0));
    s.append(" ");
    s.append(file_token(to.1));
    s.append(rank_token(to.0));
    proof {
        assert(s@ =~= spec_move_notation(
            (from.0 as int, from.1 as int),
            (to.0 as int, to.1 as int),
        ));
    }
    Ok(s)
}

/// Encodes a well-formed move; total on its domain, so the caller gets
/// the notation itself rather than a `Result`.
pub fn encode_move(m: Move) -> (s: String)
    requires
        m.wf(),
    ensures
        s@ == spec_move_notation(
            (m.from.rank as int, m.from.file as int),
            (m.to.rank as int, m.to.file as int),
        ),
{
    let r = move_string((m.from.rank, m.from.file), (m.to.rank, m.to.file));
    match r {
        Ok(s) => s,
        Err(_) => vstd::pervasive::unreached(),
    }
}

} // verus!
