//! The input side of a tick: the action record that a sub-frame's events fold
//! into, and what the round does with one.
use crate::field::{moved_x, turned_rot, TetrisField};
use vstd::prelude::*;

verus! {

/// Horizontal part of an action.
#[derive(Clone, Copy, Debug, PartialEq, Eq, Structural)]
pub enum TetraminoMove {
    Stay,
    Right,
    Left,
}

/// What the player asked for during one sub-frame. The flags are independent:
/// a move, a rotation, a drop and a quit may all be asked at once.
#[derive(Clone, Copy, Debug, PartialEq, Eq, Structural)]
pub struct TetraminoAction {
    pub tetr_move: TetraminoMove,
    pub tetr_switch_rot: bool,
    pub tetr_force_down: bool,
    pub exit: bool,
}

/// Column offset of a horizontal move.
pub open spec fn move_delta(m: TetraminoMove) -> int {
    match m {
        TetraminoMove::Stay => 0,
        TetraminoMove::Right => 1,
        TetraminoMove::Left => -1,
    }
}

/// One input event read during a sub-frame.
#[derive(Clone, Copy, Debug, PartialEq, Eq, Structural)]
pub enum InputEvent {
    Left,
    Right,
    Rotate,
    Drop,
    Quit,
}

/// The action of a sub-frame in which nothing was asked.
pub open spec fn idle_action() -> TetraminoAction {
    TetraminoAction { tetr_move: TetraminoMove::Stay, tetr_switch_rot: false, tetr_force_down: false, exit: false }
}

/// The action after one more event: a horizontal event replaces the move,
/// the others set their flag.
pub open spec fn with_event(a: TetraminoAction, e: InputEvent) -> TetraminoAction {
    match e {
        InputEvent::Left => TetraminoAction {
            tetr_move: TetraminoMove::Left,
            tetr_switch_rot: a.tetr_switch_rot,
            tetr_force_down: a.tetr_force_down,
            exit: a.exit,
        },
        InputEvent::Right => TetraminoAction {
            tetr_move: TetraminoMove::Right,
            tetr_switch_rot: a.tetr_switch_rot,
            tetr_force_down: a.tetr_force_down,
            exit: a.exit,
        },
        InputEvent::Rotate => TetraminoAction {
            tetr_move: a.tetr_move,
            tetr_switch_rot: true,
            tetr_force_down: a.tetr_force_down,
            exit: a.exit,
        },
        InputEvent::Drop => TetraminoAction {
            tetr_move: a.tetr_move,
            tetr_switch_rot: a.tetr_switch_rot,
            tetr_force_down: true,
            exit: a.exit,
        },
        InputEvent::Quit => TetraminoAction {
            tetr_move: a.tetr_move,
            tetr_switch_rot: a.tetr_switch_rot,
            tetr_force_down: a.tetr_force_down,
            exit: true,
        },
    }
}

/// The action that a batch of events folds into, in the order they came.
pub open spec fn folded(events: Seq<InputEvent>) -> TetraminoAction
    decreases events.len(),
{
    if events.len() == 0 {
        idle_action()
    } else {
        with_event(folded(events.drop_last()), events.last())
    }
}

/// Folds the events of one sub-frame into one action: the last horizontal
/// event wins; rotate, drop and quit are flags set by any event of theirs.
pub fn fold_events(events: &Vec<InputEvent>) -> (r: TetraminoAction)
    ensures
        r == folded(events@),
{
    let mut act = TetraminoAction {
        tetr_move: TetraminoMove::Stay,
        tetr_switch_rot: false,
        tetr_force_down: false,
        exit: false,
    };
    let mut i: usize = 0;
    while i < events.len()
        invariant
            i <= events@.len(),
            act == folded(events@.subrange(0, i as int)),
        decreases events@.len() - i,
    {
        match events[i] {
            InputEvent::Left => {
                act.tetr_move = TetraminoMove::Left;
            },
            InputEvent::Right => {
                act.tetr_move = TetraminoMove::Right;
            },
            InputEvent::Rotate => {
                act.tetr_switch_rot = true;
            },
            InputEvent::Drop => {
                act.tetr_force_down = true;
            },
            InputEvent::Quit => {
                act.exit = true;
            },
        }
        assert(events@.subrange(0, i + 1).drop_last() =~= events@.subrange(0, i as int));
        i += 1;
    }
    assert(events@.subrange(0, i as int) =~= events@);
    act
}

/// What a sub-frame's action leaves the tick to do.
#[derive(Clone, Copy, Debug, PartialEq, Eq, Structural)]
pub enum SubFrame {
    /// The player quit: the round ends at once, without a vertical step.
    Quit,
    /// A drop was asked: no further sub-frames this tick, and the vertical
    /// step is a hard drop.
    Drop,
    /// The tick goes on; `redraw` says whether a move or a turn was asked.
    Continue { redraw: bool },
}

impl TetrisField {
    /// Handles the action of one sub-frame, taken while the piece is erased
    /// from the field: a quit changes nothing; otherwise the move and the
    /// turn are tried, and a drop ends the sub-frames of the tick.
    pub fn sub_frame(&mut self, action: TetraminoAction) -> (r: SubFrame)
        requires
            old(self).wf(),
        ensures
            final(self).wf(),
            action.exit ==> r == SubFrame::Quit,
            action.exit ==> final(self).x_pos == old(self).x_pos && final(self).rot == old(self).rot,
            !action.exit && action.tetr_force_down ==> r == SubFrame::Drop,
            !action.exit && !action.tetr_force_down ==> r == (SubFrame::Continue {
                redraw: action.tetr_move != TetraminoMove::Stay || action.tetr_switch_rot,
            }),
            !action.exit ==> final(self).x_pos == moved_x(
                old(self).game_field@,
                old(self).curr_tetr.kind,
                old(self).rot as int,
                old(self).x_pos as int,
                old(self).y_pos as int,
                action.tetr_move,
            ),
            !action.exit ==> final(self).rot == turned_rot(
                old(self).game_field@,
                old(self).curr_tetr.kind,
                old(self).rot as int,
                final(self).x_pos as int,
                old(self).y_pos as int,
                action.tetr_switch_rot,
            ),
            final(self).game_field@ == old(self).game_field@,
            final(self).y_pos == old(self).y_pos,
            final(self).curr_tetr == old(self).curr_tetr,
            final(self).score == old(self).score,
    {
        if action.exit {
            return SubFrame::Quit;
        }
        let redraw = action.tetr_move != TetraminoMove::Stay || action.tetr_switch_rot;
        let force_down = action.tetr_force_down;
        self.apply_action(action);
        if force_down {
            SubFrame::Drop
        } else {
            SubFrame::Continue { redraw }
        }
    }
}

} // verus!
