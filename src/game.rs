use vstd::prelude::*;

use crate::coord::{random_below, Coord, CELL_COUNT, GRID_SIZE};

verus! {

/// Explosions the older brother may fire in one game.
pub const MAX_EXPLOSIONS: u8 = 36;

/// Hits on the little brother that win the game.
pub const MAX_HITS: u8 = 3;

/// Explosions lost, beyond the one fired, when the sister is hit.
pub const SISTER_PENALTY: u8 = 3;

/// The state of one game: what is left to fire, what has been hit, and where
/// the two hidden children stand.
pub struct GameState {
    explosions_left: u8,
    little_brother_hits: u8,
    little_brother_location: Coord,
    sister_location: Coord,
    brother_hit: bool,
    sister_hit: bool,
}

/// What a cell of the forest shows.
#[derive(Clone, Copy, Debug, PartialEq, Eq, Structural)]
pub enum Cell {
    Tree,
    LittleBrother,
    Sister,
    /// A child that the last explosion hit.
    Blast,
}

/// Who has won, once the game is over.
#[derive(Clone, Copy, Debug, PartialEq, Eq, Structural)]
pub enum Outcome {
    /// The little brother was hit `MAX_HITS` times.
    YouWon,
    /// The older brother ran out of explosions.
    BrotherWon,
    NotYetOver,
}

/// The mathematical model of a `GameState`.
pub struct GameView {
    pub explosions_left: int,
    pub hits: int,
    pub brother: Coord,
    pub sister: Coord,
    /// The last explosion hit the little brother.
    pub brother_hit: bool,
    /// The last explosion hit the sister.
    pub sister_hit: bool,
}

/// `a - b`, or zero where that would be negative.
pub open spec fn floor_sub(a: int, b: int) -> int {
    if a < b {
        0
    } else {
        a - b
    }
}

impl GameView {
    pub open spec fn wf(self) -> bool {
        &&& self.brother.in_grid()
        &&& self.sister.in_grid()
        &&& 0 <= self.hits <= MAX_HITS
        &&& 0 <= self.explosions_left <= MAX_EXPLOSIONS
    }

    /// A fresh game with the children at the given cells.
    pub open spec fn initial(brother: Coord, sister: Coord) -> GameView {
        GameView {
            explosions_left: MAX_EXPLOSIONS as int,
            hits: 0,
            brother,
            sister,
            brother_hit: false,
            sister_hit: false,
        }
    }

    /// The game has ended: the brother was hit often enough, or nothing is
    /// left to fire.
    pub open spec fn is_over(self) -> bool {
        self.explosions_left == 0 || self.hits == MAX_HITS
    }

    pub open spec fn outcome(self) -> Outcome {
        if self.hits == MAX_HITS {
            Outcome::YouWon
        } else if self.explosions_left == 0 {
            Outcome::BrotherWon
        } else {
            Outcome::NotYetOver
        }
    }

    /// What the cell `c` shows. The little brother is drawn over the sister.
    pub open spec fn cell_at(self, c: Coord) -> Cell {
        if c == self.brother {
            if self.brother_hit {
                Cell::Blast
            } else {
                Cell::LittleBrother
            }
        } else if c == self.sister {
            if self.sister_hit {
                Cell::Blast
            } else {
                Cell::Sister
            }
        } else {
            Cell::Tree
        }
    }

    /// The state after an explosion at `at`. The little brother is checked
    /// first, so a cell that holds both children counts as a hit on him.
    /// Hitting the sister costs `SISTER_PENALTY` explosions, floored at zero;
    /// every explosion then costs one more, again floored at zero.
    pub open spec fn after_explosion(self, at: Coord) -> GameView {
        if at == self.brother {
            GameView {
                explosions_left: floor_sub(self.explosions_left, 1),
                hits: self.hits + 1,
                brother_hit: true,
                sister_hit: false,
                ..self
            }
        } else if at == self.sister {
            GameView {
                explosions_left: floor_sub(
                    floor_sub(self.explosions_left, SISTER_PENALTY as int),
                    1,
                ),
                brother_hit: false,
                sister_hit: true,
                ..self
            }
        } else {
            GameView {
                explosions_left: floor_sub(self.explosions_left, 1),
                brother_hit: false,
                sister_hit: false,
                ..self
            }
        }
    }
}

impl View for GameState {
    type V = GameView;

    closed spec fn view(&self) -> GameView {
        GameView {
            explosions_left: self.explosions_left as int,
            hits: self.little_brother_hits as int,
            brother: self.little_brother_location,
            sister: self.sister_location,
            brother_hit: self.brother_hit,
            sister_hit: self.sister_hit,
        }
    }
}

impl GameState {
    pub open spec fn wf(&self) -> bool {
        self@.wf()
    }

    /// A fresh game with the little brother at `brother` and the sister at
    /// `sister`, provided both lie on the grid and they differ.
    pub fn with_locations(brother: Coord, sister: Coord) -> (r: Option<GameState>)
        ensures
            r is Some <==> (brother.in_grid() && sister.in_grid() && brother != sister),
            r matches Some(g) ==> g.wf() && g@ == GameView::initial(brother, sister),
    {
        if brother.x < GRID_SIZE && brother.y < GRID_SIZE && sister.x < GRID_SIZE && sister.y
            < GRID_SIZE && brother != sister {
            Some(
                GameState {
                    explosions_left: MAX_EXPLOSIONS,
                    little_brother_hits: 0,
                    little_brother_location: brother,
                    sister_location: sister,
                    brother_hit: false,
                    sister_hit: false,
                },
            )
        } else {
            None
        }
    }

    /// A fresh game: the little brother hides at a cell drawn at random from
    /// the whole grid, the sister at one drawn at random from the others.
    pub fn new() -> (r: GameState)
        ensures
            r.wf(),
            r@ == GameView::initial(r@.brother, r@.sister),
            r@.brother != r@.sister,
    {
        let brother = Coord::get_rand_coord(GRID_SIZE, GRID_SIZE);
        let k = random_below(CELL_COUNT - 1);
        let sister = Coord::other_than(brother, k);
        GameState::with_locations(brother, sister).unwrap()
    }

    /// Moves the little brother to a cell drawn at random from the whole
    /// grid, which may be the one he left or the sister's.
    pub fn move_little_brother(&mut self)
        requires
            old(self).wf(),
        ensures
            final(self).wf(),
            final(self)@ == (GameView { brother: final(self)@.brother, ..old(self)@ }),
    {
        self.little_brother_location = Coord::get_rand_coord(GRID_SIZE, GRID_SIZE);
    }

    pub fn is_game_over(&self) -> (r: bool)
        ensures
            r == self@.is_over(),
    {
        self.explosions_left == 0 || self.little_brother_hits == MAX_HITS
    }

    /// Who has won so far.
    pub fn winner(&self) -> (r: Outcome)
        ensures
            r == self@.outcome(),
    {
        if self.little_brother_hits == MAX_HITS {
            Outcome::YouWon
        } else if self.explosions_left == 0 {
            Outcome::BrotherWon
        } else {
            Outcome::NotYetOver
        }
    }

    pub fn explosions_left(&self) -> (r: u8)
        ensures
            r == self@.explosions_left,
    {
        self.explosions_left
    }

    pub fn little_brother_hits(&self) -> (r: u8)
        ensures
            r == self@.hits,
    {
        self.little_brother_hits
    }

    pub fn little_brother_location(&self) -> (r: Coord)
        ensures
            r == self@.brother,
    {
        self.little_brother_location
    }

    pub fn sister_location(&self) -> (r: Coord)
        ensures
            r == self@.sister,
    {
        self.sister_location
    }

    /// The last explosion hit the little brother.
    pub fn brother_hit(&self) -> (r: bool)
        ensures
            r == self@.brother_hit,
    {
        self.brother_hit
    }

    /// The last explosion hit the sister.
    pub fn sister_hit(&self) -> (r: bool)
        ensures
            r == self@.sister_hit,
    {
        self.sister_hit
    }

    /// What the cell `c` shows.
    pub fn cell(&self, c: Coord) -> (r: Cell)
        ensures
            r == self@.cell_at(c),
    {
        if c == self.little_brother_location {
            if self.brother_hit {
                Cell::Blast
            } else {
                Cell::LittleBrother
            }
        } else if c == self.sister_location {
            if self.sister_hit {
                Cell::Blast
            } else {
                Cell::Sister
            }
        } else {
            Cell::Tree
        }
    }

    /// The forest as rows from top to bottom, each row's cells from left to
    /// right: `r[y][x]` shows the cell `(x, y)`.
    pub fn forest(&self) -> (r: Vec<Vec<Cell>>)
        ensures
            r@.len() == GRID_SIZE,
            forall|y: int|
                #![trigger r@[y]]
                0 <= y < GRID_SIZE ==> r@[y]@.len() == GRID_SIZE,
            forall|x: int, y: int|
                #![trigger r@[y]@[x]]
                0 <= x < GRID_SIZE && 0 <= y < GRID_SIZE ==> r@[y]@[x] == self@.cell_at(
                    Coord { x: x as u8, y: y as u8 },
                ),
    {
        let mut rows: Vec<Vec<Cell>> = Vec::new();
        let mut y: u8 = 0;
        while y < GRID_SIZE
            invariant
                y <= GRID_SIZE,
                rows@.len() == y,
                forall|j: int| #![trigger rows@[j]] 0 <= j < y ==> rows@[j]@.len() == GRID_SIZE,
                forall|i: int, j: int|
                    #![trigger rows@[j]@[i]]
                    0 <= i < GRID_SIZE && 0 <= j < y ==> rows@[j]@[i] == self@.cell_at(
                        Coord { x: i as u8, y: j as u8 },
                    ),
            decreases GRID_SIZE - y,
        {
            let mut row: Vec<Cell> = Vec::new();
            let mut x: u8 = 0;
            while x < GRID_SIZE
                invariant
                    x <= GRID_SIZE,
                    y < GRID_SIZE,
                    row@.len() == x,
                    forall|i: int|
                        #![trigger row@[i]]
                        0 <= i < x ==> row@[i] == self@.cell_at(Coord { x: i as u8, y }),
                decreases GRID_SIZE - x,
            {
                row.push(self.cell(Coord::new(x, y)));
                x = x + 1;
            }
            rows.push(row);
            y = y + 1;
        }
        rows
    }

    /// Sets off an explosion at `at`, as `GameView::after_explosion` says,
    /// and reports whether it hit the little brother, who must then move.
    pub fn explode_at(&mut self, at: Coord) -> (r: bool)
        requires
            old(self).wf(),
            old(self)@.hits < MAX_HITS,
        ensures
            final(self).wf(),
            final(self)@ == old(self)@.after_explosion(at),
            r == (at == old(self)@.brother),
    {
        self.brother_hit = false;
        self.sister_hit = false;
        let mut successful_hit = false;
        if at == self.little_brother_location {
            self.little_brother_hits = self.little_brother_hits + 1;
            successful_hit = true;
            self.brother_hit = true;
        } else if at == self.sister_location {
            if self.explosions_left < SISTER_PENALTY {
                self.explosions_left = 0;
            } else {
                self.explosions_left = self.explosions_left - SISTER_PENALTY;
            }
            self.sister_hit = true;
        }
        if self.explosions_left > 0 {
            self.explosions_left = self.explosions_left - 1;
        }
        successful_hit
    }

    /// Sets off an explosion at a cell drawn at random from the whole grid,
    /// and reports whether it hit the little brother, who must then move.
    pub fn fire_random_explosion(&mut self) -> (r: bool)
        requires
            old(self).wf(),
            old(self)@.hits < MAX_HITS,
        ensures
            final(self).wf(),
            exists|at: Coord|
                #![trigger old(self)@.after_explosion(at)]
                {
                    &&& at.in_grid()
                    &&& final(self)@ == old(self)@.after_explosion(at)
                    &&& r == (at == old(self)@.brother)
                },
    {
        let at = Coord::get_rand_coord(GRID_SIZE, GRID_SIZE);
        self.explode_at(at)
    }
}

/// An explosion never leaves a negative number of explosions, and never
/// gives any back.
pub proof fn lemma_explosions_never_negative(v: GameView, at: Coord)
    requires
        v.wf(),
    ensures
        0 <= v.after_explosion(at).explosions_left <= v.explosions_left,
{
}

/// Hitting the sister (and not the little brother) costs the penalty plus the
/// explosion itself where enough are left, and empties the supply otherwise.
pub proof fn lemma_sister_hit_cost(v: GameView, at: Coord)
    requires
        v.wf(),
        at == v.sister,
        at != v.brother,
    ensures
        v.explosions_left > SISTER_PENALTY ==> v.after_explosion(at).explosions_left
            == v.explosions_left - SISTER_PENALTY - 1,
        v.explosions_left <= SISTER_PENALTY ==> v.after_explosion(at).explosions_left == 0,
{
}

/// Three explosions in a row on the little brother, wherever he moves in
/// between, win the game however many explosions are left.
pub proof fn lemma_three_hits_win(v: GameView, second: Coord, third: Coord)
    requires
        v.wf(),
        v.hits == 0,
    ensures
        ({
            let v1 = v.after_explosion(v.brother);
            let v2 = GameView { brother: second, ..v1 }.after_explosion(second);
            let v3 = GameView { brother: third, ..v2 }.after_explosion(third);
            &&& v3.hits == MAX_HITS
            &&& v3.is_over()
            &&& v3.outcome() == Outcome::YouWon
        }),
{
}

} // verus!
