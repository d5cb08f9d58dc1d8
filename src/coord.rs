use vstd::prelude::*;

verus! {

/// Width and height of the square forest.
pub const GRID_SIZE: u8 = 5;

/// A cell of the forest, `x` being the column and `y` the row.
#[derive(Clone, Copy, Debug, PartialEq, Eq, Structural)]
pub struct Coord {
    pub x: u8,
    pub y: u8,
}

impl Coord {
    /// The cell lies on the forest grid.
    pub open spec fn in_grid(self) -> bool {
        self.x < GRID_SIZE && self.y < GRID_SIZE
    }

    /// Position of the cell when the grid is read row by row.
    pub open spec fn index(self) -> int {
        self.y * GRID_SIZE + self.x
    }

    pub fn new(x: u8, y: u8) -> (r: Coord)
        ensures
            r.x == x,
            r.y == y,
    {
        Coord { x, y }
    }

    /// A cell drawn at random with `x < max_x` and `y < max_y`.
    pub fn get_rand_coord(max_x: u8, max_y: u8) -> (r: Coord)
        requires
            max_x > 0,
            max_y > 0,
        ensures
            r.x < max_x,
            r.y < max_y,
    {
        let x = random_below(max_x);
        let y = random_below(max_y);
        Coord::new(x, y)
    }
}

/// Number of cells in the forest.
pub const CELL_COUNT: u8 = 25;

/// The cell at position `i` when the grid is read row by row.
pub open spec fn coord_at(i: int) -> Coord {
    Coord { x: (i % (GRID_SIZE as int)) as u8, y: (i / (GRID_SIZE as int)) as u8 }
}

/// The position, among the cells that differ from `avoid`, numbered `k`.
pub open spec fn other_index(avoid: Coord, k: int) -> int {
    if k < avoid.index() {
        k
    } else {
        k + 1
    }
}

impl Coord {
    /// The cell at position `i` when the grid is read row by row.
    pub fn from_index(i: u8) -> (r: Coord)
        requires
            i < CELL_COUNT,
        ensures
            r == coord_at(i as int),
            r.in_grid(),
            r.index() == i,
    {
        Coord { x: i % GRID_SIZE, y: i / GRID_SIZE }
    }

    /// The cell numbered `k` among the `CELL_COUNT - 1` cells other than
    /// `avoid`, counted row by row. Drawing `k` uniformly gives a cell drawn
    /// uniformly among all cells but `avoid`.
    pub fn other_than(avoid: Coord, k: u8) -> (r: Coord)
        requires
            avoid.in_grid(),
            k < CELL_COUNT - 1,
        ensures
            r == coord_at(other_index(avoid, k as int)),
            r.in_grid(),
            r != avoid,
    {
        let avoid_index = avoid.y * GRID_SIZE + avoid.x;
        let i = if k < avoid_index {
            k
        } else {
            k + 1
        };
        Coord::from_index(i)
    }
}

/// Relies on rand's `thread_rng().gen_range(0..bound)`: a value drawn from
/// the half-open range `[0, bound)`, which panics only when the range is empty.
#[verifier::external_body]
pub(crate) fn random_below(bound: u8) -> (r: u8)
    requires
        bound > 0,
    ensures
        r < bound,
{
    rand::Rng::gen_range(&mut rand::thread_rng(), 0..bound)
}

} // verus!
