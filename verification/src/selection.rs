//! The selection state machine: the pure transition that turns a
//! clicked square, the occupancy of that square, the side to move and
//! the rule engine's legal-target answer into the next selection state
//! and at most one command for the host loop.
//!
//! The machine itself never talks to the rule engine: the host queries
//! the engine and hands the answers in as plain values, so every
//! transition is verified for every possible engine answer.

use vstd::prelude::*;
use crate::board::{Colour, Move, Square};

verus! {

/// Interaction state: either nothing is selected, or one square is
/// selected together with the legal destinations the rule engine
/// reported for it (possibly none).
pub enum SelectionState {
    Idle,
    Selected { anchor: Square, targets: Vec<Square> },
}

/// Mathematical model of [`SelectionState`]: the target list becomes a
/// sequence of squares.
pub enum SelView {
    Idle,
    Selected { anchor: Square, targets: Seq<Square> },
}

impl View for SelectionState {
    type V = SelView;

    open spec fn view(&self) -> SelView {
        match self {
            SelectionState::Idle => SelView::Idle,
            SelectionState::Selected { anchor, targets } => SelView::Selected {
                anchor: *anchor,
                targets: targets@,
            },
        }
    }
}

impl SelView {
    /// Every square the state holds lies on the board.
    pub open spec fn wf(self) -> bool {
        self matches SelView::Selected { anchor, targets } ==> anchor.wf() && (forall|i: int|
            0 <= i < targets.len() ==> (#[trigger] targets[i]).wf())
    }
}

/// What a transition asks the host loop to do besides updating the
/// selection: submit at most one encoded move to the rule engine.
pub open spec fn spec_transition(
    sel: SelView,
    click: Square,
    occupant: Option<Colour>,
    turn: Colour,
    engine_targets: Seq<Square>,
) -> (SelView, Option<Move>) {
    match sel {
        SelView::Idle => {
            if occupant == Some(turn) {
                (SelView::Selected { anchor: click, targets: engine_targets }, None)
            } else {
                (SelView::Idle, None)
            }
        },
        SelView::Selected { anchor, targets } => {
            if click == anchor {
                (SelView::Idle, None)
            } else if targets.contains(click) {
                (SelView::Idle, Some(Move { from: anchor, to: click }))
            } else if occupant == Some(turn) {
                (SelView::Selected { anchor: click, targets: engine_targets }, None)
            } else {
                (SelView::Idle, None)
            }
        },
    }
}

/// Linear scan for a square in a target list.
pub fn contains_square(v: &Vec<Square>, s: Square) -> (r: bool)
    ensures
        r == v@.contains(s),
{
    let mut i: usize = 0;
    while i < v.len()
        invariant
            i <= v@.len(),
            forall|j: int| 0 <= j < i ==> v@[j] != s,
        decreases v@.len() - i,
    {
        if v[i] == s {
            assert(v@.contains(s));
            return true;
        }
        i += 1;
    }
    false
}

/// One step of the click-handling table, given the clicked square `click`,
/// the colour occupying it (`None` when empty), the side to move, and
/// the rule engine's legal destinations for `click`. `engine_targets`
/// is consulted only when the step selects `click`; the host must have
/// queried it for `click` under the current board and turn.
pub fn transition(
    sel: SelectionState,
    click: Square,
    occupant: Option<Colour>,
    turn: Colour,
    engine_targets: Vec<Square>,
) -> (r: (SelectionState, Option<Move>))
    ensures
        (r.0@, r.1) == spec_transition(sel@, click, occupant, turn, engine_targets@),
{
    let occupies_turn = match occupant {
        Some(c) => c == turn,
        None => false,
    };
    match sel {
        SelectionState::Idle => {
            if occupies_turn {
                (SelectionState::Selected { anchor: click, targets: engine_targets }, None)
            } else {
                (SelectionState::Idle, None)
            }
        },
        SelectionState::Selected { anchor, targets } => {
            if click == anchor {
                (SelectionState::Idle, None)
            } else if contains_square(&targets, click) {
                (SelectionState::Idle, Some(Move { from: anchor, to: click }))
            } else if occupies_turn {
                (SelectionState::Selected { anchor: click, targets: engine_targets }, None)
            } else {
                (SelectionState::Idle, None)
            }
        },
    }
}

/// A transition can only land in `Selected` by selecting the clicked
/// square itself, and only when that square holds a piece of the side
/// to move; the stored targets are then exactly the engine's answer.
/// In particular the turn gate: clicking an empty square or an
/// opponent's piece never selects.
pub proof fn lemma_selection_gated(
    sel: SelView,
    click: Square,
    occupant: Option<Colour>,
    turn: Colour,
    engine_targets: Seq<Square>,
)
    ensures
        spec_transition(sel, click, occupant, turn, engine_targets).0 is Selected
            ==> occupant == Some(turn) && spec_transition(sel, click, occupant, turn, engine_targets).0
            == (SelView::Selected { anchor: click, targets: engine_targets }),
{
}

/// Turn gating from `Idle`: a click on a square that is empty or holds
/// a piece of the colour not on turn leaves the machine `Idle`, with no
/// highlights and no command.
pub proof fn lemma_turn_gating(click: Square, occupant: Option<Colour>, turn: Colour, engine_targets: Seq<Square>)
    requires
        occupant != Some(turn),
    ensures
        spec_transition(SelView::Idle, click, occupant, turn, engine_targets) == (
            SelView::Idle,
            None::<Move>,
        ),
{
}

/// Idempotent deselect: a first click that selects square `s` and a
/// second click on `s` always return the machine to `Idle`, with no
/// command issued on either step, whatever the engine answered and
/// whatever occupies `s` by the time of the second click.
pub proof fn lemma_deselect_idempotent(
    s: Square,
    turn: Colour,
    engine_targets: Seq<Square>,
    occupant2: Option<Colour>,
    turn2: Colour,
    engine_targets2: Seq<Square>,
)
    ensures
        ({
            let first = spec_transition(SelView::Idle, s, Some(turn), turn, engine_targets);
            let second = spec_transition(first.0, s, occupant2, turn2, engine_targets2);
            first.0 == (SelView::Selected { anchor: s, targets: engine_targets }) && first.1
                is None && second == (SelView::Idle, None::<Move>)
        }),
{
}

/// Committing clears the selection: from `Selected`, a click on a legal
/// target other than the anchor yields `Idle` and exactly one command,
/// the move from the anchor to that target.
pub proof fn lemma_commit_clears_selection(
    anchor: Square,
    targets: Seq<Square>,
    t: Square,
    occupant: Option<Colour>,
    turn: Colour,
    engine_targets: Seq<Square>,
)
    requires
        targets.contains(t),
        t != anchor,
    ensures
        spec_transition(SelView::Selected { anchor, targets }, t, occupant, turn, engine_targets)
            == (SelView::Idle, Some(Move { from: anchor, to: t })),
{
}

/// Reselection: from `Selected`, a click on a different square that is
/// no legal target but holds a piece of the side to move re-anchors the
/// selection there, and the old highlight set is discarded entirely in
/// favour of the engine's answer for the new square.
pub proof fn lemma_reselection(
    anchor: Square,
    targets: Seq<Square>,
    c: Square,
    turn: Colour,
    engine_targets: Seq<Square>,
)
    requires
        c != anchor,
        !targets.contains(c),
    ensures
        spec_transition(SelView::Selected { anchor, targets }, c, Some(turn), turn, engine_targets)
            == (SelView::Selected { anchor: c, targets: engine_targets }, None::<Move>),
{
}

/// A transition preserves well-formedness of the state as long as the
/// clicked square and every engine-reported target are on the board,
/// and any move it commands stays on the board too.
pub proof fn lemma_transition_wf(
    sel: SelView,
    click: Square,
    occupant: Option<Colour>,
    turn: Colour,
    engine_targets: Seq<Square>,
)
    requires
        sel.wf(),
        click.wf(),
        forall|i: int| 0 <= i < engine_targets.len() ==> (#[trigger] engine_targets[i]).wf(),
    ensures
        spec_transition(sel, click, occupant, turn, engine_targets).0.wf(),
        spec_transition(sel, click, occupant, turn, engine_targets).1 matches Some(m) ==> m.wf(),
{
    match sel {
        SelView::Selected { anchor, targets } => {
            if click != anchor && targets.contains(click) {
                let i = choose|i: int| 0 <= i < targets.len() && targets[i] == click;
                assert(targets[i].wf());
            }
        },
        SelView::Idle => {},
    }
}

} // verus!
