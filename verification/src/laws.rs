//! What holds of every tick and of every purchase.

use vstd::prelude::*;
use crate::fuel::{Fuel, FuelType};
use crate::grid::{
    lemma_offset_in_range, lemma_offset_injective, lemma_total_energy_empty,
    lemma_total_energy_update, GridIndex, GridView,
};
use crate::state::StateView;

verus! {

/// A tick changes neither the size of the grid nor the rate, and never
/// lowers the balance.
pub proof fn lemma_tick_keeps_shape(s: StateView)
    requires
        s.wf(),
    ensures
        s.tick().wf(),
        s.tick().grid.width == s.grid.width,
        s.tick().grid.height == s.grid.height,
        s.tick().ticks == s.ticks,
        s.tick().balance >= s.balance,
{
}

/// What a tick does to one cell depends on that cell alone: the cell at
/// `index` afterwards is the cell before, decayed at the state's rate.
pub proof fn lemma_tick_cell(s: StateView, index: GridIndex)
    requires
        s.wf(),
        s.grid.contains(index),
    ensures
        s.tick().grid.cell(index) == s.grid.cell(index).decayed(s.ticks),
{
    lemma_offset_in_range(
        s.grid.width as int,
        s.grid.height as int,
        index.row as int,
        index.col as int,
    );
}

/// What one cell adds to the balance in a tick: the tick pays as much more
/// than it would with that cell emptied as the cell's own energy.
pub proof fn lemma_tick_share(s: StateView, index: GridIndex)
    requires
        s.wf(),
        s.grid.contains(index),
    ensures
        s.tick().balance == (StateView { grid: s.grid.cleared(index), ..s }).tick().balance
            + s.grid.cell(index).spec_energy(),
{
    lemma_offset_in_range(
        s.grid.width as int,
        s.grid.height as int,
        index.row as int,
        index.col as int,
    );
    lemma_total_energy_update(
        s.grid.cells,
        s.grid.offset(index),
        Fuel { of: FuelType::Empty, hp: 0 },
    );
}

/// A tick leaves an empty cell as it is, and the cell adds nothing to the
/// balance.
pub proof fn lemma_tick_skips_empty_cell(s: StateView, index: GridIndex)
    requires
        s.wf(),
        s.grid.contains(index),
        s.grid.cell(index).of == FuelType::Empty,
    ensures
        s.tick().grid.cell(index) == s.grid.cell(index),
        s.grid.cell(index).spec_energy() == 0,
        s.tick().balance == (StateView { grid: s.grid.cleared(index), ..s }).tick().balance,
{
    lemma_tick_cell(s, index);
    lemma_tick_share(s, index);
}

/// On a grid with no fuel at all a tick changes nothing.
pub proof fn lemma_tick_of_empty_grid(s: StateView)
    requires
        s.wf(),
        forall|i: int| 0 <= i < s.grid.cells.len() ==> s.grid.cells[i].of == FuelType::Empty,
    ensures
        s.tick() == s,
{
    lemma_total_energy_empty(s.grid.cells);
    assert(s.tick().grid.cells =~= s.grid.cells);
}

/// A tick takes the rate off the durability of a cell that holds fuel with
/// more durability than the rate, keeps its kind, and the cell adds the
/// energy of its kind to the balance.
pub proof fn lemma_tick_burns_cell(s: StateView, index: GridIndex)
    requires
        s.wf(),
        s.grid.contains(index),
        s.grid.cell(index).of != FuelType::Empty,
        s.grid.cell(index).hp > s.ticks,
    ensures
        s.tick().grid.cell(index).hp == s.grid.cell(index).hp - s.ticks,
        s.tick().grid.cell(index).of == s.grid.cell(index).of,
        s.tick().balance == (StateView { grid: s.grid.cleared(index), ..s }).tick().balance
            + s.grid.cell(index).of.spec_generated_energy(),
{
    lemma_tick_cell(s, index);
    lemma_tick_share(s, index);
}

/// A tick empties a cell that holds fuel with some durability, but no more
/// than the rate; the cell still adds the energy of its kind to the balance
/// on that tick.
pub proof fn lemma_tick_exhausts_cell(s: StateView, index: GridIndex)
    requires
        s.wf(),
        s.grid.contains(index),
        s.grid.cell(index).of != FuelType::Empty,
        0 < s.grid.cell(index).hp <= s.ticks,
    ensures
        s.tick().grid.cell(index) == (Fuel { of: FuelType::Empty, hp: 0 }),
        s.tick().balance == (StateView { grid: s.grid.cleared(index), ..s }).tick().balance
            + s.grid.cell(index).of.spec_generated_energy(),
{
    lemma_tick_cell(s, index);
    lemma_tick_share(s, index);
}

/// Where every cell keeps the data model's invariant before a tick, every
/// cell keeps it afterwards. Whatever the cells held, no cell holds fuel
/// without durability after a tick.
pub proof fn lemma_tick_keeps_settled(s: StateView)
    requires
        s.wf(),
    ensures
        (forall|i: int| 0 <= i < s.grid.cells.len() ==> s.grid.cells[i].settled()) ==> (forall|
            i: int,
        |
            0 <= i < s.tick().grid.cells.len() ==> s.tick().grid.cells[i].settled()),
        forall|i: int|
            0 <= i < s.tick().grid.cells.len() && s.tick().grid.cells[i].of != FuelType::Empty
                ==> s.tick().grid.cells[i].hp > 0,
{
    assert forall|i: int| 0 <= i < s.grid.cells.len() implies (s.grid.cells[i].settled()
        ==> s.tick().grid.cells[i].settled()) && (s.tick().grid.cells[i].of != FuelType::Empty
        ==> s.tick().grid.cells[i].hp > 0) by {
        s.grid.cells[i].lemma_decayed_settled(s.ticks);
    }
}

/// A purchase that the balance pays for takes the price off the balance and
/// puts a fresh unit of the kind into the cell, whatever the cell held.
/// Every other cell, the size of the grid and the rate stay as they were.
pub proof fn lemma_purchase_paid(s: StateView, index: GridIndex, kind: FuelType)
    requires
        s.wf(),
        s.grid.contains(index),
        s.balance >= kind.spec_price(),
    ensures
        s.purchase(index, kind).wf(),
        s.purchase(index, kind).balance == s.balance - kind.spec_price(),
        s.purchase(index, kind).grid.cell(index) == (Fuel { of: kind, hp: kind.spec_max_hp() }),
        forall|other: GridIndex|
            s.grid.contains(other) && other != index ==> s.purchase(index, kind).grid.cell(other)
                == s.grid.cell(other),
        s.purchase(index, kind).grid.width == s.grid.width,
        s.purchase(index, kind).grid.height == s.grid.height,
        s.purchase(index, kind).ticks == s.ticks,
{
    lemma_offset_in_range(
        s.grid.width as int,
        s.grid.height as int,
        index.row as int,
        index.col as int,
    );
    assert forall|other: GridIndex| s.grid.contains(other) && other != index implies s.purchase(
        index,
        kind,
    ).grid.cell(other) == s.grid.cell(other) by {
        lemma_offset_in_range(
            s.grid.width as int,
            s.grid.height as int,
            other.row as int,
            other.col as int,
        );
        if s.grid.offset(other) == s.grid.offset(index) {
            lemma_offset_injective(s.grid, other, index);
        }
    }
}

/// A purchase that the balance does not pay for changes nothing.
pub proof fn lemma_purchase_refused(s: StateView, index: GridIndex, kind: FuelType)
    requires
        s.balance < kind.spec_price(),
    ensures
        s.purchase(index, kind) == s,
{
}

/// The cell that a purchase fills keeps the data model's invariant, whatever
/// the kind bought.
pub proof fn lemma_purchase_settled(kind: FuelType)
    ensures
        (Fuel { of: kind, hp: kind.spec_max_hp() }).settled(),
{
}

} // verus!
