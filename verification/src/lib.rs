//! A grid of fuel cells that burn down tick by tick and pay energy into a
//! balance, from which new fuel is bought.

pub mod cell;
pub mod delegate;
pub mod fuel;
pub mod grid;
pub mod laws;
pub mod state;

pub use crate::cell::{cell_event, CellReaction, PointerEvent};
pub use crate::delegate::{Command, Delegate, Handled};
pub use crate::fuel::{Fuel, FuelType};
pub use crate::grid::{Grid, GridError, GridIndex, GridView};
pub use crate::state::{AppState, StateView};
