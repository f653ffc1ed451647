//! The commands that reach the game and the handler that carries them out.

use vstd::prelude::*;
use crate::fuel::FuelType;
use crate::grid::{GridError, GridIndex};
use crate::state::AppState;

verus! {

/// A command as the handler sees it.
#[derive(Clone, Copy, PartialEq, Eq, Structural, Debug)]
pub enum Command {
    /// The timer fired: one step of the simulation is due.
    Tick,
    /// A cell was clicked: wood is to be placed at this row and column.
    PlaceFuel(usize, usize),
    /// Any other command; the handler leaves it to others.
    Other,
}

/// Whether the handler took the command.
#[derive(Clone, Copy, PartialEq, Eq, Structural, Debug)]
pub enum Handled {
    Yes,
    No,
}

/// The handler of the game's commands.
#[derive(Clone, Copy, Debug)]
pub struct Delegate;

impl Delegate {
    /// Carries out one command on `data`. A tick runs one step of the
    /// simulation. A placement buys wood for the named cell, and is refused
    /// with `IndexOutOfRange`, the state untouched, where the grid has no
    /// such cell. Any other command is not handled and changes nothing.
    pub fn command(&mut self, cmd: &Command, data: &mut AppState) -> (out: Result<Handled, GridError>)
        requires
            old(data).wf(),
            *cmd == Command::Tick ==> old(data).can_tick(),
        ensures
            final(data).wf(),
            match *cmd {
                Command::Tick => {
                    &&& out == Ok::<Handled, GridError>(Handled::Yes)
                    &&& final(data)@ == old(data)@.tick()
                },
                Command::PlaceFuel(row, col) => {
                    let index = (GridIndex { row, col });
                    if old(data)@.grid.contains(index) {
                        &&& out == Ok::<Handled, GridError>(Handled::Yes)
                        &&& final(data)@ == old(data)@.purchase(index, FuelType::Wood)
                    } else {
                        &&& out == Err::<Handled, GridError>(GridError::IndexOutOfRange)
                        &&& final(data)@ == old(data)@
                    }
                },
                Command::Other => {
                    &&& out == Ok::<Handled, GridError>(Handled::No)
                    &&& final(data)@ == old(data)@
                },
            },
    {
        match *cmd {
            Command::Tick => {
                data.tick();
                Ok(Handled::Yes)
            },
            Command::PlaceFuel(row, col) => {
                match data.purchase(GridIndex::from((row, col)), FuelType::Wood) {
                    Ok(()) => Ok(Handled::Yes),
                    Err(e) => Err(e),
                }
            },
            Command::Other => Ok(Handled::No),
        }
    }
}

} // verus!
