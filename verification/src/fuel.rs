//! The kinds of fuel and a single unit of it.

use vstd::prelude::*;

verus! {

/// What a cell holds: nothing, or a kind of fuel.
#[derive(Clone, Copy, PartialEq, Eq, Structural, Debug)]
pub enum FuelType {
    Empty,
    Wood,
}

impl FuelType {
    /// The durability of a fresh unit of this kind.
    pub open spec fn spec_max_hp(&self) -> u32 {
        match self {
            FuelType::Empty => 0,
            FuelType::Wood => 100,
        }
    }

    /// The energy that a burning unit of this kind pays per tick.
    pub open spec fn spec_generated_energy(&self) -> u64 {
        match self {
            FuelType::Empty => 0,
            FuelType::Wood => 10,
        }
    }

    /// What a unit of this kind costs.
    pub open spec fn spec_price(&self) -> u64 {
        match self {
            FuelType::Empty => 0,
            FuelType::Wood => 80,
        }
    }

    #[verifier::when_used_as_spec(spec_max_hp)]
    pub fn max_hp(&self) -> (hp: u32)
        ensures
            hp == self.spec_max_hp(),
    {
        match self {
            FuelType::Empty => 0,
            FuelType::Wood => 100,
        }
    }

    #[verifier::when_used_as_spec(spec_generated_energy)]
    pub fn generated_energy(&self) -> (energy: u64)
        ensures
            energy == self.spec_generated_energy(),
    {
        match self {
            FuelType::Empty => 0,
            FuelType::Wood => 10,
        }
    }

    #[verifier::when_used_as_spec(spec_price)]
    pub fn get_price(&self) -> (price: u64)
        ensures
            price == self.spec_price(),
    {
        match self {
            FuelType::Empty => 0,
            FuelType::Wood => 80,
        }
    }
}

/// One unit of fuel: its kind and the durability it has left.
#[derive(Clone, Copy, PartialEq, Eq, Structural, Debug)]
pub struct Fuel {
    pub of: FuelType,
    pub hp: u32,
}

impl Fuel {
    /// A cell burns, and pays energy, while it holds a kind of fuel with
    /// durability left.
    pub open spec fn burning(self) -> bool {
        self.of != FuelType::Empty && self.hp > 0
    }

    /// The energy this cell pays in one tick: that of its kind while it
    /// burns, nothing otherwise.
    pub open spec fn spec_energy(&self) -> u64 {
        if self.burning() {
            self.of.spec_generated_energy()
        } else {
            0
        }
    }

    /// The cell after one tick at the given rate: an empty cell stays as it
    /// is, fuel loses `rate` durability, and fuel that reaches zero leaves
    /// the cell empty.
    pub open spec fn decayed(self, rate: u32) -> Fuel {
        if self.of == FuelType::Empty {
            self
        } else if self.hp > rate {
            Fuel { of: self.of, hp: (self.hp - rate) as u32 }
        } else {
            Fuel { of: FuelType::Empty, hp: 0 }
        }
    }

    /// The data model's invariant: durability within the kind's maximum, and
    /// no kind without durability.
    pub open spec fn settled(self) -> bool {
        &&& self.hp <= self.of.spec_max_hp()
        &&& self.hp == 0 ==> self.of == FuelType::Empty
    }

    pub fn new(of: FuelType, hp: u32) -> (fuel: Fuel)
        ensures
            fuel == (Fuel { of, hp }),
    {
        Fuel { of, hp }
    }

    #[verifier::when_used_as_spec(spec_energy)]
    pub fn energy(&self) -> (energy: u64)
        ensures
            energy == self.spec_energy(),
    {
        if self.of != FuelType::Empty && self.hp > 0 {
            self.of.generated_energy()
        } else {
            0
        }
    }

    /// Burns the cell for one tick. Returns the cell as it is afterwards and
    /// the energy it paid.
    pub fn tick(self, rate: u32) -> (out: (Fuel, u64))
        ensures
            out.0 == self.decayed(rate),
            out.1 == self.spec_energy(),
    {
        let mut cell = self;
        let mut gained: u64 = 0;
        if cell.of != FuelType::Empty {
            if cell.hp > 0 {
                cell.hp = if cell.hp > rate { cell.hp - rate } else { 0 };
                gained = cell.of.generated_energy();
            }
            if cell.hp == 0 {
                cell.of = FuelType::Empty;
            }
        }
        (cell, gained)
    }

    /// A tick keeps the data model's invariant, and leaves no fuel without
    /// durability behind, whatever the cell held.
    pub proof fn lemma_decayed_settled(self, rate: u32)
        ensures
            self.settled() ==> self.decayed(rate).settled(),
            self.decayed(rate).of != FuelType::Empty ==> self.decayed(rate).hp > 0,
            self.decayed(rate).hp <= self.hp,
    {
    }
}

impl Default for Fuel {
    fn default() -> (fuel: Fuel)
        ensures
            fuel == (Fuel { of: FuelType::Empty, hp: 0 }),
    {
        Fuel { of: FuelType::Empty, hp: 0 }
    }
}

} // verus!
