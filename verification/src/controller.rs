//! The controller that owns the selection state, and the read-only
//! board snapshot handed to the renderer each frame.
//!
//! The host loop queries the rule engine (occupant of the clicked
//! square, side to move, legal targets) and passes the answers here as
//! plain values; the controller answers with the next selection state
//! and at most one move to submit.

use vstd::prelude::*;
use crate::board::{Colour, Move, Piece, Square};
use crate::selection::{spec_transition, transition, SelView, SelectionState};

verus! {

/// The selected square of a selection state, if any.
pub open spec fn spec_selected_of(sel: SelView) -> Option<Square> {
    match sel {
        SelView::Idle => None,
        SelView::Selected { anchor, .. } => Some(anchor),
    }
}

/// The highlighted squares of a selection state: the stored legal
/// targets when a square is selected, nothing otherwise.
pub open spec fn spec_highlights_of(sel: SelView) -> Seq<Square> {
    match sel {
        SelView::Idle => Seq::empty(),
        SelView::Selected { targets, .. } => targets,
    }
}

/// Owns the interaction state; created `Idle`, mutated only through
/// the transition table, reset to `Idle` on commit, deselect and game
/// reset.
pub struct Controller {
    pub sel: SelectionState,
}

impl Controller {
    /// A fresh controller: nothing selected, nothing highlighted.
    pub fn new() -> (c: Controller)
        ensures
            c.sel@ is Idle,
    {
        Controller { sel: SelectionState::Idle }
    }

    /// Applies one click. `occupant` is the colour on the clicked
    /// square (`None` when empty), `turn` the side to move, and
    /// `engine_targets` the rule engine's legal destinations for the
    /// clicked square under the current position. Returns the move to
    /// submit to the engine, if this click committed one.
    pub fn handle_click(
        &mut self,
        click: Square,
        occupant: Option<Colour>,
        turn: Colour,
        engine_targets: Vec<Square>,
    ) -> (cmd: Option<Move>)
        ensures
            (final(self).sel@, cmd) == spec_transition(
                old(self).sel@,
                click,
                occupant,
                turn,
                engine_targets@,
            ),
    {
        let mut taken = SelectionState::Idle;
        std::mem::swap(&mut taken, &mut self.sel);
        let (next, cmd) = transition(taken, click, occupant, turn, engine_targets);
        self.sel = next;
        cmd
    }

    /// Clears the selection unconditionally. The host pairs this with
    /// reinitializing the rule engine to the starting position.
    pub fn reset(&mut self)
        ensures
            final(self).sel@ is Idle,
    {
        self.sel = SelectionState::Idle;
    }

    /// The currently selected square, if any; read by the renderer.
    pub fn selected(&self) -> (r: Option<Square>)
        ensures
            r == spec_selected_of(self.sel@),
    {
        match &self.sel {
            SelectionState::Idle => None,
            SelectionState::Selected { anchor, .. } => Some(*anchor),
        }
    }

    /// Builds the frame's read-only projection from the engine's board
    /// grid (as plain piece values) and the current selection.
    pub fn snapshot(&self, board: Vec<Vec<Piece>>) -> (v: BoardSnapshot)
        requires
            board@.len() == 8,
            forall|i: int| 0 <= i < 8 ==> (#[trigger] board@[i])@.len() == 8,
        ensures
            v.wf(),
            v.board == board,
            v.selected == spec_selected_of(self.sel@),
            v.highlighted@ == spec_highlights_of(self.sel@),
    {
        let selected = self.selected();
        let mut highlighted: Vec<Square> = Vec::new();
        match &self.sel {
            SelectionState::Idle => {},
            SelectionState::Selected { targets, .. } => {
                let mut i: usize = 0;
                while i < targets.len()
                    invariant
                        i <= targets@.len(),
                        highlighted@ =~= targets@.subrange(0, i as int),
                    decreases targets@.len() - i,
                {
                    highlighted.push(targets[i]);
                    i += 1;
                }
                proof {
                    assert(highlighted@ =~= targets@);
                }
            },
        }
        BoardSnapshot { board, selected, highlighted }
    }
}

/// Read-only projection consumed by the renderer each frame: the 8x8
/// piece grid from the rule engine, the selected square if any, and
/// the highlighted squares. No mutation path back into the controller.
pub struct BoardSnapshot {
    pub board: Vec<Vec<Piece>>,
    pub selected: Option<Square>,
    pub highlighted: Vec<Square>,
}

impl BoardSnapshot {
    /// The grid is 8x8.
    pub open spec fn wf(self) -> bool {
        self.board@.len() == 8 && forall|i: int|
            0 <= i < 8 ==> (#[trigger] self.board@[i])@.len() == 8
    }

    /// The piece on a square of the snapshot.
    pub fn piece_at(&self, s: Square) -> (p: Piece)
        requires
            self.wf(),
            s.wf(),
        ensures
            p == self.board@[s.rank as int]@[s.file as int],
    {
        self.board[s.rank][s.file]
    }
}

} // verus!
