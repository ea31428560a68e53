//! The shared pheromone grid: one trail marker per integer field
//! coordinate. The simulation writes marks into it after each agent's
//! step; agents only read it while sensing. Cells are addressed as
//! `location[y][x]`, row-major, and coordinates handed to `update` are
//! fixed-point positions in thousandths of a cell.

use vstd::prelude::*;

use crate::ant::Ant;
use crate::SetupError;
use crate::MILLIS_PER_CELL;

verus! {

/// The marker a single grid cell holds. A cell holds exactly one of
/// these at a time; writing overwrites whatever was there.
#[derive(Clone, Copy, Debug, PartialEq, Eq, Structural)]
pub enum PheromoneTypes {
    /// No trail has been laid here.
    Empty,
    /// A trail laid by an agent that carries food.
    ToFood,
    /// A trail laid by an agent that carries nothing.
    ToHome,
}

/// The dense grid of per-cell markers, sized to the field.
#[derive(Debug)]
pub struct Pheromones {
    /// Rows of cells: `location[y][x]` is the cell at column `x`, row `y`.
    pub location: Vec<Vec<PheromoneTypes>>,
}

impl Pheromones {
    /// The grid as a sequence of rows of markers.
    pub open spec fn grid(self) -> Seq<Seq<PheromoneTypes>> {
        rows_view(self.location@)
    }

    /// Number of rows.
    pub open spec fn height(self) -> int {
        grid_height(self.grid())
    }

    /// Number of columns.
    pub open spec fn width(self) -> int {
        grid_width(self.grid())
    }

    /// A well-formed grid is rectangular with at least one cell, and its
    /// dimensions came from `u32` values.
    pub open spec fn wf(self) -> bool {
        &&& 0 < self.height() <= u32::MAX
        &&& 0 < self.width() <= u32::MAX
        &&& forall|y: int|
            0 <= y < self.height() ==> #[trigger] self.grid()[y].len() == self.width()
    }

    /// The marker held at integer cell coordinates.
    pub open spec fn cell(self, x: int, y: int) -> PheromoneTypes
        recommends
            self.in_bounds(x, y),
    {
        self.grid()[y][x]
    }

    /// Whether integer cell coordinates fall inside the grid.
    pub open spec fn in_bounds(self, x: int, y: int) -> bool {
        0 <= x < self.width() && 0 <= y < self.height()
    }

    /// What a lookup at integer cell coordinates yields: no signal when
    /// the coordinates are outside the grid or the cell is empty,
    /// otherwise the marker.
    pub open spec fn sense_spec(self, x: int, y: int) -> Option<PheromoneTypes> {
        if !self.in_bounds(x, y) {
            Option::None
        } else if self.cell(x, y) == PheromoneTypes::Empty {
            Option::None
        } else {
            Option::Some(self.cell(x, y))
        }
    }

    /// Allocates a grid of `size.0` columns by `size.1` rows, every cell
    /// empty. Fails exactly when either dimension is zero.
    pub fn new(size: (u32, u32)) -> (r: Result<Pheromones, SetupError>)
        ensures
            r is Ok <==> size.0 > 0 && size.1 > 0,
            r matches Ok(p) ==> {
                &&& p.wf()
                &&& p.width() == size.0
                &&& p.height() == size.1
                &&& forall|x: int, y: int|
                    p.in_bounds(x, y) ==> p.cell(x, y) == PheromoneTypes::Empty
            },
            r is Err ==> r == Result::<Pheromones, SetupError>::Err(SetupError::ZeroGridDimension),
    {
        if size.0 == 0 || size.1 == 0 {
            return Err(SetupError::ZeroGridDimension);
        }
        let width = size.0 as usize;
        let height = size.1 as usize;
        let mut location: Vec<Vec<PheromoneTypes>> = Vec::new();
        let mut y: usize = 0;
        while y < height
            invariant
                y <= height,
                location@.len() == y,
                forall|r: int| 0 <= r < y ==> #[trigger] location@[r]@.len() == width,
                forall|r: int, c: int|
                    0 <= r < y && 0 <= c < width ==> location@[r]@[c] == PheromoneTypes::Empty,
            decreases height - y,
        {
            let mut row: Vec<PheromoneTypes> = Vec::new();
            let mut x: usize = 0;
            while x < width
                invariant
                    x <= width,
                    row@.len() == x,
                    forall|c: int| 0 <= c < x ==> row@[c] == PheromoneTypes::Empty,
                decreases width - x,
            {
                row.push(PheromoneTypes::Empty);
                x += 1;
            }
            location.push(row);
            y += 1;
        }
        Ok(Pheromones { location })
    }

    /// Overwrites the cell at in-bounds integer coordinates with a trail
    /// marker; every other cell keeps its marker.
    pub fn mark(&mut self, x: usize, y: usize, kind: PheromoneTypes)
        requires
            old(self).wf(),
            old(self).in_bounds(x as int, y as int),
            kind != PheromoneTypes::Empty,
        ensures
            final(self).wf(),
            final(self).grid() == write_cell(old(self).grid(), x as int, y as int, kind),
            final(self).width() == old(self).width(),
            final(self).height() == old(self).height(),
            final(self).cell(x as int, y as int) == kind,
            forall|i: int, j: int|
                old(self).in_bounds(i, j) && !(i == x && j == y)
                    ==> final(self).cell(i, j) == old(self).cell(i, j),
    {
        proof {
            assert(self.location@.len() == self.grid().len());
            assert(self.location@[y as int]@ == self.grid()[y as int]);
        }
        self.location[y][x] = kind;
        proof {
            assert(final(self).grid() =~= write_cell(old(self).grid(), x as int, y as int, kind));
        }
    }

    /// Read-only lookup: no signal outside the grid or at an empty cell,
    /// otherwise the cell's marker. Never fails, whatever the coordinates.
    pub fn sense(&self, x: i64, y: i64) -> (r: Option<PheromoneTypes>)
        requires
            self.wf(),
        ensures
            r == self.sense_spec(x as int, y as int),
            !self.in_bounds(x as int, y as int) ==> r is None,
    {
        if x < 0 || y < 0 {
            return Option::None;
        }
        let height = self.location.len();
        let width = self.location[0].len();
        if x >= width as i64 || y >= height as i64 {
            return Option::None;
        }
        match self.location[y as usize][x as usize] {
            PheromoneTypes::Empty => Option::None,
            PheromoneTypes::ToFood => Option::Some(PheromoneTypes::ToFood),
            PheromoneTypes::ToHome => Option::Some(PheromoneTypes::ToHome),
        }
    }

    /// Lays an agent's trail mark: the agent's fixed-point position is
    /// truncated to a cell and clamped to the grid, and the cell receives
    /// `ToFood` when the agent carries food, `ToHome` otherwise.
    pub fn update(&mut self, ant: &Ant)
        requires
            old(self).wf(),
        ensures
            final(self).wf(),
            final(self).width() == old(self).width(),
            final(self).height() == old(self).height(),
            final(self).grid() == write_cell(
                old(self).grid(),
                cell_index(ant.x as int, old(self).width()),
                cell_index(ant.y as int, old(self).height()),
                trail_kind(ant.carrying),
            ),
    {
        let width = self.location[0].len();
        let height = self.location.len();
        let cx = clamp_to_cell(ant.x, width);
        let cy = clamp_to_cell(ant.y, height);
        let kind = if ant.carrying {
            PheromoneTypes::ToFood
        } else {
            PheromoneTypes::ToHome
        };
        self.mark(cx, cy, kind);
    }
}

/// A sequence of rows of cells, each row seen as a sequence.
pub open spec fn rows_view(location: Seq<Vec<PheromoneTypes>>) -> Seq<Seq<PheromoneTypes>> {
    location.map(|i: int, row: Vec<PheromoneTypes>| row@)
}

/// Number of rows of a grid of cells.
pub open spec fn grid_height(g: Seq<Seq<PheromoneTypes>>) -> int {
    g.len() as int
}

/// Number of columns of a grid of cells, read off the first row.
pub open spec fn grid_width(g: Seq<Seq<PheromoneTypes>>) -> int {
    if g.len() == 0 {
        0
    } else {
        g[0].len() as int
    }
}

/// The grid with one cell overwritten.
pub open spec fn write_cell(
    g: Seq<Seq<PheromoneTypes>>,
    x: int,
    y: int,
    kind: PheromoneTypes,
) -> Seq<Seq<PheromoneTypes>> {
    g.update(y, g[y].update(x, kind))
}

/// The cell a fixed-point coordinate falls in, truncated toward zero and
/// clamped into `[0, dim - 1]` so a mark can never leave the grid.
pub open spec fn cell_index(p: int, dim: int) -> int
    recommends
        0 < dim,
{
    if p < 0 {
        0
    } else if p / (MILLIS_PER_CELL as int) >= dim {
        dim - 1
    } else {
        p / (MILLIS_PER_CELL as int)
    }
}

/// The marker an agent lays: `ToFood` when it carries food, else `ToHome`.
pub open spec fn trail_kind(carrying: bool) -> PheromoneTypes {
    if carrying {
        PheromoneTypes::ToFood
    } else {
        PheromoneTypes::ToHome
    }
}

/// A clamped cell index always lands inside its grid dimension.
pub proof fn lemma_cell_index_in_range(p: int, dim: int)
    requires
        0 < dim,
    ensures
        0 <= cell_index(p, dim) < dim,
{
}

/// Marking a cell and then sensing the same cell yields that mark back:
/// the round trip through the grid loses nothing, whichever trail kind
/// was written.
pub proof fn lemma_mark_then_sense(
    before: Pheromones,
    after: Pheromones,
    x: int,
    y: int,
    kind: PheromoneTypes,
)
    requires
        before.wf(),
        before.in_bounds(x, y),
        kind != PheromoneTypes::Empty,
        after.grid() == write_cell(before.grid(), x, y, kind),
    ensures
        after.sense_spec(x, y) == Option::Some(kind),
{
    assert(after.grid().len() == before.grid().len());
    assert(after.grid()[0].len() == before.grid()[0].len());
    assert(after.cell(x, y) == kind);
}

/// Truncates a fixed-point coordinate to its cell and clamps it into the
/// grid dimension.
fn clamp_to_cell(p: i64, dim: usize) -> (c: usize)
    requires
        0 < dim <= u32::MAX,
    ensures
        c == cell_index(p as int, dim as int),
{
    if p < 0 {
        0
    } else {
        let q = (p as u64) / (MILLIS_PER_CELL as u64);
        if q >= dim as u64 {
            dim - 1
        } else {
            q as usize
        }
    }
}

} // verus!
