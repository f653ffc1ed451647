//! How a cell answers the pointer: a press of the left button arms it, and a
//! release over it places fuel.

use vstd::prelude::*;
use crate::delegate::Command;
use crate::grid::GridIndex;

verus! {

/// What the pointer did over a cell.
#[derive(Clone, Copy, PartialEq, Eq, Structural, Debug)]
pub enum PointerEvent {
    /// The left button went down.
    LeftDown,
    /// The left button came up.
    LeftUp,
    /// Another button, or anything else.
    Other,
}

/// What the cell asks of its host in answer to an event.
#[derive(Clone, Copy, PartialEq, Eq, Structural, Debug)]
pub struct CellReaction {
    /// The new value of the cell's active flag, where it changes.
    pub active: Option<bool>,
    /// The command to send, if any.
    pub command: Option<Command>,
    /// Whether the cell is to be painted anew.
    pub repaint: bool,
}

/// Decides what the cell at `pos` does on `event`, given whether it is
/// active (armed by an earlier press) and hot (under the pointer).
pub fn cell_event(pos: GridIndex, event: PointerEvent, active: bool, hot: bool) -> (out:
    CellReaction)
    ensures
        event == PointerEvent::LeftDown ==> out == (CellReaction {
            active: Some(true),
            command: None,
            repaint: true,
        }),
        event == PointerEvent::LeftUp && active && hot ==> out == (CellReaction {
            active: Some(false),
            command: Some(Command::PlaceFuel(pos.row, pos.col)),
            repaint: true,
        }),
        event == PointerEvent::LeftUp && active && !hot ==> out == (CellReaction {
            active: Some(false),
            command: None,
            repaint: true,
        }),
        event == PointerEvent::Other || (event == PointerEvent::LeftUp && !active) ==> out == (
        CellReaction { active: None, command: None, repaint: false }),
{
    match event {
        PointerEvent::LeftDown => CellReaction {
            active: Some(true),
            command: None,
            repaint: true,
        },
        PointerEvent::LeftUp => {
            if active {
                let command = if hot {
                    Some(Command::PlaceFuel(pos.row, pos.col))
                } else {
                    None
                };
                CellReaction { active: Some(false), command, repaint: true }
            } else {
                CellReaction { active: None, command: None, repaint: false }
            }
        },
        PointerEvent::Other => CellReaction { active: None, command: None, repaint: false },
    }
}

} // verus!
