//! The state of the game and the two operations that change it: the tick
//! and the purchase.

use vstd::prelude::*;
use crate::fuel::{Fuel, FuelType};
use crate::grid::{Grid, GridError, GridIndex, GridView};

verus! {

/// The state as a mathematical value. The balance is unbounded here.
pub struct StateView {
    pub grid: GridView,
    pub balance: nat,
    pub ticks: u32,
}

impl StateView {
    pub open spec fn wf(self) -> bool {
        self.grid.wf()
    }

    /// The state after one tick: every cell decayed at the rate `ticks`, and
    /// the energy of the cells that burned added to the balance.
    pub open spec fn tick(self) -> StateView {
        StateView {
            grid: self.grid.decayed(self.ticks),
            balance: self.balance + self.grid.energy(),
            ticks: self.ticks,
        }
    }

    /// Whether the balance pays for a unit of `kind`.
    pub open spec fn affords(self, kind: FuelType) -> bool {
        self.balance >= kind.spec_price()
    }

    /// The state after an attempt to buy a unit of `kind` for the cell at
    /// `index`: where the balance pays for it, the price is taken and a
    /// fresh unit replaces what the cell held; otherwise nothing changes.
    pub open spec fn purchase(self, index: GridIndex, kind: FuelType) -> StateView
        recommends
            self.wf(),
            self.grid.contains(index),
    {
        if self.affords(kind) {
            StateView {
                grid: self.grid.put(index, Fuel { of: kind, hp: kind.spec_max_hp() }),
                balance: (self.balance - kind.spec_price()) as nat,
                ticks: self.ticks,
            }
        } else {
            self
        }
    }
}

/// The whole state of the game.
#[derive(Debug)]
pub struct AppState {
    pub grid: Grid,
    pub balance: u64,
    /// Ticks per second; also the durability that a burning cell loses in
    /// one tick.
    pub ticks: u32,
}

impl View for AppState {
    type V = StateView;

    open spec fn view(&self) -> StateView {
        StateView { grid: self.grid@, balance: self.balance as nat, ticks: self.ticks }
    }
}

impl Clone for AppState {
    fn clone(&self) -> (state: AppState)
        ensures
            state@ == self@,
    {
        AppState { grid: self.grid.clone(), balance: self.balance, ticks: self.ticks }
    }
}

impl AppState {
    pub open spec fn wf(&self) -> bool {
        self@.wf()
    }

    /// Whether the balance after one tick still fits its type.
    pub open spec fn spec_can_tick(&self) -> bool {
        self.balance + self.grid@.energy() <= u64::MAX
    }

    #[verifier::when_used_as_spec(spec_can_tick)]
    pub fn can_tick(&self) -> (fits: bool)
        ensures
            fits == self.spec_can_tick(),
    {
        self.grid.energy() <= (u64::MAX - self.balance) as u128
    }

    /// One step of the simulation.
    pub fn tick(&mut self)
        requires
            old(self).can_tick(),
        ensures
            final(self)@ == old(self)@.tick(),
    {
        let gained: u128 = self.grid.tick(self.ticks);
        self.balance = self.balance + gained as u64;
    }

    /// Buys a unit of `kind` for the cell at `index`. A balance that does not
    /// pay for it leaves the state as it is, and so does an `index` outside
    /// the grid, which is reported as `IndexOutOfRange`.
    pub fn purchase(&mut self, index: GridIndex, kind: FuelType) -> (out: Result<(), GridError>)
        requires
            old(self).wf(),
        ensures
            final(self).wf(),
            old(self)@.grid.contains(index) ==> out == Ok::<(), GridError>(()) && final(self)@
                == old(self)@.purchase(index, kind),
            !old(self)@.grid.contains(index) ==> out == Err::<(), GridError>(
                GridError::IndexOutOfRange,
            ) && final(self)@ == old(self)@,
    {
        if index.row >= self.grid.height() || index.col >= self.grid.width() {
            return Err(GridError::IndexOutOfRange);
        }
        let price: u64 = kind.get_price();
        if self.balance >= price {
            let placed = self.grid.set(index, Fuel::new(kind, kind.max_hp()));
            self.balance = self.balance - price;
            placed
        } else {
            Ok(())
        }
    }

    /// The time between two ticks, in milliseconds, rounded down. At a rate
    /// of zero no tick is due: the time is the longest there is.
    pub fn timer_millis(&self) -> (millis: u64)
        ensures
            self.ticks > 0 ==> millis == 1000int / (self.ticks as int),
            self.ticks == 0 ==> millis == u64::MAX,
    {
        if self.ticks == 0 {
            u64::MAX
        } else {
            1000 / (self.ticks as u64)
        }
    }
}

} // verus!
