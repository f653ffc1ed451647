//! The grid: a dense, row-major array of cells with a fixed width and height.

use vstd::prelude::*;
use crate::fuel::{Fuel, FuelType};

verus! {

/// The place of a cell: its row and its column, both counted from zero.
#[derive(Clone, Copy, PartialEq, Eq, Structural, Debug)]
pub struct GridIndex {
    pub row: usize,
    pub col: usize,
}

impl From<(usize, usize)> for GridIndex {
    fn from(index: (usize, usize)) -> (out: GridIndex) {
        GridIndex { row: index.0, col: index.1 }
    }
}

impl vstd::std_specs::convert::FromSpecImpl<(usize, usize)> for GridIndex {
    open spec fn obeys_from_spec() -> bool {
        true
    }

    open spec fn from_spec(index: (usize, usize)) -> GridIndex {
        GridIndex { row: index.0, col: index.1 }
    }
}

/// Why the grid refused a request.
#[derive(Clone, Copy, PartialEq, Eq, Structural, Debug)]
pub enum GridError {
    /// The row or the column lies outside the grid.
    IndexOutOfRange,
}

/// The sum of the energy that the cells of `cells` pay in one tick.
pub open spec fn total_energy(cells: Seq<Fuel>) -> nat
    decreases cells.len(),
{
    if cells.len() == 0 {
        0
    } else {
        total_energy(cells.drop_last()) + cells.last().spec_energy() as nat
    }
}

/// The grid as a mathematical value: its cells in row-major order and its
/// two dimensions.
pub struct GridView {
    pub cells: Seq<Fuel>,
    pub width: nat,
    pub height: nat,
}

impl GridView {
    /// There is one cell for each pair of a row and a column.
    pub open spec fn wf(self) -> bool {
        self.cells.len() == self.width * self.height
    }

    /// Whether `index` names a cell of the grid.
    pub open spec fn contains(self, index: GridIndex) -> bool {
        index.row < self.height && index.col < self.width
    }

    /// Where the cell at `index` stands in `cells`.
    pub open spec fn offset(self, index: GridIndex) -> int {
        self.width * index.row + index.col
    }

    /// The cell at `index`.
    pub open spec fn cell(self, index: GridIndex) -> Fuel
        recommends
            self.wf(),
            self.contains(index),
    {
        self.cells[self.offset(index)]
    }

    /// The grid with `fuel` at `index` and every other cell as it was.
    pub open spec fn put(self, index: GridIndex, fuel: Fuel) -> GridView
        recommends
            self.wf(),
            self.contains(index),
    {
        GridView { cells: self.cells.update(self.offset(index), fuel), ..self }
    }

    /// The grid with the cell at `index` emptied.
    pub open spec fn cleared(self, index: GridIndex) -> GridView {
        self.put(index, Fuel { of: FuelType::Empty, hp: 0 })
    }

    /// The grid after one tick at the given rate: each cell decayed by itself.
    pub open spec fn decayed(self, rate: u32) -> GridView {
        GridView {
            cells: Seq::new(self.cells.len(), |i: int| self.cells[i].decayed(rate)),
            ..self
        }
    }

    /// The energy that the whole grid pays in one tick.
    pub open spec fn energy(self) -> nat {
        total_energy(self.cells)
    }
}

/// A cell's place in the row-major array lies inside the array.
pub proof fn lemma_offset_in_range(width: int, height: int, row: int, col: int)
    requires
        0 <= row < height,
        0 <= col < width,
    ensures
        0 <= width * row <= width * row + col < width * height,
{
    assert(0 <= width * row && width * row + width <= width * height) by (nonlinear_arith)
        requires
            0 <= row,
            row + 1 <= height,
            0 < width,
    ;
}

/// Two places of one grid that stand at the same offset are the same place.
pub proof fn lemma_offset_injective(view: GridView, a: GridIndex, b: GridIndex)
    requires
        view.contains(a),
        view.contains(b),
        view.offset(a) == view.offset(b),
    ensures
        a == b,
{
    let w = view.width as int;
    let (ar, ac, br, bc) = (a.row as int, a.col as int, b.row as int, b.col as int);
    assert(ar == br) by (nonlinear_arith)
        requires
            w * ar + ac == w * br + bc,
            0 <= ac < w,
            0 <= bc < w,
            0 <= ar,
            0 <= br,
    {
        if ar < br {
            assert(w * (ar + 1) <= w * br);
        } else if br < ar {
            assert(w * (br + 1) <= w * ar);
        }
    }
    assert(w * ar == w * br);
}

/// The energy of the first `i + 1` cells is that of the first `i` and of
/// the cell that follows them.
pub proof fn lemma_total_energy_step(cells: Seq<Fuel>, i: int)
    requires
        0 <= i < cells.len(),
    ensures
        total_energy(cells.take(i + 1)) == total_energy(cells.take(i)) + cells[i].spec_energy(),
{
    assert(cells.take(i + 1).drop_last() =~= cells.take(i));
}

/// Replacing one cell changes the grid's energy by the difference between
/// what the new cell pays and what the old one paid.
pub proof fn lemma_total_energy_update(cells: Seq<Fuel>, i: int, fuel: Fuel)
    requires
        0 <= i < cells.len(),
    ensures
        total_energy(cells.update(i, fuel)) + cells[i].spec_energy() == total_energy(cells)
            + fuel.spec_energy(),
    decreases cells.len(),
{
    let after = cells.update(i, fuel);
    if i == cells.len() - 1 {
        assert(after.drop_last() =~= cells.drop_last());
    } else {
        assert(after.drop_last() =~= cells.drop_last().update(i, fuel));
        lemma_total_energy_update(cells.drop_last(), i, fuel);
    }
}

/// Cells that hold no fuel pay nothing.
pub proof fn lemma_total_energy_empty(cells: Seq<Fuel>)
    requires
        forall|i: int| 0 <= i < cells.len() ==> cells[i].of == FuelType::Empty,
    ensures
        total_energy(cells) == 0,
    decreases cells.len(),
{
    if cells.len() > 0 {
        lemma_total_energy_empty(cells.drop_last());
    }
}

/// A row-major grid of fuel cells. Its size is fixed when it is made.
#[derive(Debug)]
pub struct Grid {
    inner: Vec<Fuel>,
    width: usize,
    height: usize,
}

impl View for Grid {
    type V = GridView;

    closed spec fn view(&self) -> GridView {
        GridView { cells: self.inner@, width: self.width as nat, height: self.height as nat }
    }
}

impl Clone for Grid {
    fn clone(&self) -> (grid: Grid)
        ensures
            grid@ == self@,
    {
        let n: usize = self.inner.len();
        let mut inner: Vec<Fuel> = Vec::new();
        let mut i: usize = 0;
        while i < n
            invariant
                i <= n,
                n == self.inner@.len(),
                inner@ == self.inner@.take(i as int),
            decreases n - i,
        {
            inner.push(self.inner[i]);
            assert(inner@ =~= self.inner@.take(i + 1));
            i += 1;
        }
        assert(self.inner@.take(n as int) =~= self.inner@);
        Grid { inner, width: self.width, height: self.height }
    }
}

impl Grid {
    /// The grid holds one cell for each pair of a row and a column.
    pub open spec fn wf(&self) -> bool {
        self@.wf()
    }

    /// A grid of `width` columns and `height` rows in which every cell is
    /// empty.
    pub fn new(width: usize, height: usize) -> (grid: Grid)
        requires
            width * height <= usize::MAX,
        ensures
            grid.wf(),
            grid@.width == width,
            grid@.height == height,
            grid@.cells == Seq::new(
                (width * height) as nat,
                |i: int| Fuel { of: FuelType::Empty, hp: 0 },
            ),
    {
        let n: usize = width * height;
        let mut inner: Vec<Fuel> = Vec::new();
        let mut i: usize = 0;
        while i < n
            invariant
                i <= n,
                inner@.len() == i,
                forall|j: int| 0 <= j < i ==> inner@[j] == (Fuel { of: FuelType::Empty, hp: 0 }),
            decreases n - i,
        {
            inner.push(Fuel::default());
            i += 1;
        }
        let grid = Grid { inner, width, height };
        assert(grid@.cells =~= Seq::new(
            (width * height) as nat,
            |i: int| Fuel { of: FuelType::Empty, hp: 0 },
        ));
        grid
    }

    /// The number of rows.
    pub fn height(&self) -> (height: usize)
        ensures
            height == self@.height,
    {
        self.height
    }

    /// The number of columns.
    pub fn width(&self) -> (width: usize)
        ensures
            width == self@.width,
    {
        self.width
    }

    /// The cell at `index`, or `IndexOutOfRange` where the grid has no such
    /// cell.
    pub fn get(&self, index: GridIndex) -> (out: Result<Fuel, GridError>)
        requires
            self.wf(),
        ensures
            self@.contains(index) ==> out == Ok::<Fuel, GridError>(self@.cell(index)),
            !self@.contains(index) ==> out == Err::<Fuel, GridError>(GridError::IndexOutOfRange),
    {
        if index.row >= self.height || index.col >= self.width {
            return Err(GridError::IndexOutOfRange);
        }
        proof {
            lemma_offset_in_range(
                self.width as int,
                self.height as int,
                index.row as int,
                index.col as int,
            );
            assert(self.inner@.len() == self.inner.len());
        }
        Ok(self.inner[self.width * index.row + index.col])
    }

    /// Puts `fuel` at `index`, whatever the cell held. Where the grid has no
    /// such cell, it stays as it is and the call returns `IndexOutOfRange`.
    pub fn set(&mut self, index: GridIndex, fuel: Fuel) -> (out: Result<(), GridError>)
        requires
            old(self).wf(),
        ensures
            final(self).wf(),
            old(self)@.contains(index) ==> out == Ok::<(), GridError>(()) && final(self)@ == old(self)@.put(index, fuel),
            !old(self)@.contains(index) ==> out == Err::<(), GridError>(
                GridError::IndexOutOfRange,
            ) && final(self)@ == old(self)@,
    {
        if index.row >= self.height || index.col >= self.width {
            return Err(GridError::IndexOutOfRange);
        }
        proof {
            lemma_offset_in_range(
                self.width as int,
                self.height as int,
                index.row as int,
                index.col as int,
            );
            assert(self.inner@.len() == self.inner.len());
        }
        let at: usize = self.width * index.row + index.col;
        self.inner.set(at, fuel);
        Ok(())
    }

    /// The energy that the grid pays in one tick.
    pub fn energy(&self) -> (gained: u128)
        ensures
            gained == self@.energy(),
    {
        let n: usize = self.inner.len();
        let mut gained: u128 = 0;
        let mut i: usize = 0;
        while i < n
            invariant
                i <= n,
                n == self.inner@.len(),
                gained == total_energy(self.inner@.take(i as int)),
                gained <= 10 * i,
            decreases n - i,
        {
            proof {
                lemma_total_energy_step(self.inner@, i as int);
            }
            let paid: u64 = self.inner[i].energy();
            gained += paid as u128;
            i += 1;
        }
        assert(self.inner@.take(n as int) =~= self.inner@);
        gained
    }

    /// Burns every cell for one tick at the given rate and returns the
    /// energy that the cells paid.
    pub fn tick(&mut self, rate: u32) -> (gained: u128)
        ensures
            final(self)@ == old(self)@.decayed(rate),
            gained == old(self)@.energy(),
    {
        let ghost before = self.inner@;
        let n: usize = self.inner.len();
        let mut gained: u128 = 0;
        let mut i: usize = 0;
        while i < n
            invariant
                i <= n,
                n == before.len(),
                self.inner@.len() == n,
                self.width == old(self).width,
                self.height == old(self).height,
                forall|j: int| 0 <= j < i ==> self.inner@[j] == before[j].decayed(rate),
                forall|j: int| i <= j < n ==> self.inner@[j] == before[j],
                gained == total_energy(before.take(i as int)),
                gained <= 10 * i,
            decreases n - i,
        {
            proof {
                lemma_total_energy_step(before, i as int);
            }
            let (cell, paid) = self.inner[i].tick(rate);
            self.inner.set(i, cell);
            gained += paid as u128;
            i += 1;
        }
        assert(before.take(n as int) =~= before);
        assert(self.inner@ =~= Seq::new(before.len(), |i: int| before[i].decayed(rate)));
        gained
    }
}

} // verus!
