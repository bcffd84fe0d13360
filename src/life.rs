use vstd::prelude::*;

use crate::InvalidViewport;

verus! {

/// Whether cell `(r, c)` exists in `g` and is alive. Cells outside the grid count as dead.
pub open spec fn live(g: Seq<Seq<bool>>, r: int, c: int) -> bool {
    0 <= r < g.len() && 0 <= c < g[r].len() && g[r][c]
}

pub open spec fn as_count(b: bool) -> int {
    if b { 1 } else { 0 }
}

/// Number of alive cells among the up to eight grid cells around `(r, c)`.
pub open spec fn live_neighbors(g: Seq<Seq<bool>>, r: int, c: int) -> int {
    as_count(live(g, r - 1, c - 1)) + as_count(live(g, r - 1, c)) + as_count(live(g, r - 1, c + 1))
        + as_count(live(g, r, c - 1)) + as_count(live(g, r, c + 1))
        + as_count(live(g, r + 1, c - 1)) + as_count(live(g, r + 1, c)) + as_count(live(g, r + 1, c + 1))
}

/// Conway's rule: the next state of a cell from its state and its number of alive neighbors.
pub open spec fn next_state(alive: bool, n: int) -> bool {
    if alive {
        n == 2 || n == 3
    } else {
        n == 3
    }
}

/// The generation that follows `g`, every cell computed from `g` alone.
pub open spec fn next_generation(g: Seq<Seq<bool>>) -> Seq<Seq<bool>> {
    Seq::new(
        g.len(),
        |r: int| Seq::new(g[r].len(), |c: int| next_state(g[r][c], live_neighbors(g, r, c))),
    )
}

/// `g` has `rows` rows of `cols` cells each.
pub open spec fn is_rect(g: Seq<Seq<bool>>, rows: int, cols: int) -> bool {
    g.len() == rows && forall|r: int| 0 <= r < rows ==> #[trigger] g[r].len() == cols
}

/// A grid of `rows` rows of `cols` dead cells.
pub open spec fn dead_grid(rows: int, cols: int) -> Seq<Seq<bool>> {
    Seq::new(rows as nat, |r: int| Seq::new(cols as nat, |c: int| false))
}

pub open spec fn grid_view(g: Vec<Vec<bool>>) -> Seq<Seq<bool>> {
    g@.map_values(|row: Vec<bool>| row@)
}

/// The grid of `rows` rows of `cols` cells in which cell `(r, c)` is alive exactly when `f(r, c)`.
pub open spec fn grid_of(rows: int, cols: int, f: spec_fn(int, int) -> bool) -> Seq<Seq<bool>> {
    Seq::new(rows as nat, |r: int| Seq::new(cols as nat, |c: int| f(r, c)))
}

/// Alive cells of a 2 by 2 block whose lowest corner is `(r0, c0)`.
pub open spec fn block(r0: int, c0: int) -> spec_fn(int, int) -> bool {
    |r: int, c: int| r0 <= r <= r0 + 1 && c0 <= c <= c0 + 1
}

/// Alive cells of a line of three cells centered on `(r0, c0)`, along a row.
pub open spec fn row_line(r0: int, c0: int) -> spec_fn(int, int) -> bool {
    |r: int, c: int| r == r0 && c0 - 1 <= c <= c0 + 1
}

/// Alive cells of a line of three cells centered on `(r0, c0)`, along a column.
pub open spec fn column_line(r0: int, c0: int) -> spec_fn(int, int) -> bool {
    |r: int, c: int| c == c0 && r0 - 1 <= r <= r0 + 1
}

/// The rule table: a cell with fewer than two alive neighbors dies, an alive one with two or
/// three stays alive, an alive one with four or more dies, a dead one with exactly three is born.
pub proof fn lemma_rule_table(alive: bool, n: int)
    ensures
        n <= 1 ==> !next_state(alive, n),
        alive && 2 <= n <= 3 ==> next_state(alive, n),
        alive && n >= 4 ==> !next_state(alive, n),
        !alive && n == 3 ==> next_state(alive, n),
        !alive && n != 3 ==> !next_state(alive, n),
{
}

/// An alive cell with no alive neighbor is dead in the next generation.
pub proof fn lemma_isolated_cell_dies(g: Seq<Seq<bool>>, r: int, c: int)
    requires
        0 <= r < g.len(),
        0 <= c < g[r].len(),
        live_neighbors(g, r, c) == 0,
    ensures
        !next_generation(g)[r][c],
{
}

proof fn lemma_live_grid_of(rows: int, cols: int, f: spec_fn(int, int) -> bool, r: int, c: int)
    requires
        0 <= rows,
        0 <= cols,
    ensures
        live(grid_of(rows, cols, f), r, c) == (0 <= r < rows && 0 <= c < cols && f(r, c)),
{
}

/// The generation after `grid_of(rows, cols, f)` is `grid_of(rows, cols, h)` when every cell of
/// the grid follows `h` from `f`, and `f` holds of no cell outside the grid.
proof fn lemma_next_grid_of(
    rows: int,
    cols: int,
    f: spec_fn(int, int) -> bool,
    h: spec_fn(int, int) -> bool,
)
    requires
        0 <= rows,
        0 <= cols,
        forall|r: int, c: int| #[trigger] f(r, c) ==> 0 <= r < rows && 0 <= c < cols,
        forall|r: int, c: int|
            0 <= r < rows && 0 <= c < cols ==> #[trigger] h(r, c) == next_state(
                f(r, c),
                as_count(f(r - 1, c - 1)) + as_count(f(r - 1, c)) + as_count(f(r - 1, c + 1))
                    + as_count(f(r, c - 1)) + as_count(f(r, c + 1))
                    + as_count(f(r + 1, c - 1)) + as_count(f(r + 1, c))
                    + as_count(f(r + 1, c + 1)),
            ),
    ensures
        next_generation(grid_of(rows, cols, f)) == grid_of(rows, cols, h),
{
    let g = grid_of(rows, cols, f);
    assert forall|r: int, c: int| 0 <= r < rows && 0 <= c < cols implies next_generation(g)[r][c]
        == grid_of(rows, cols, h)[r][c] by {
        assert forall|x: int, y: int| live(g, x, y) == f(x, y) by {
            lemma_live_grid_of(rows, cols, f, x, y);
        }
        assert(live_neighbors(g, r, c) == as_count(f(r - 1, c - 1)) + as_count(f(r - 1, c))
            + as_count(f(r - 1, c + 1)) + as_count(f(r, c - 1)) + as_count(f(r, c + 1))
            + as_count(f(r + 1, c - 1)) + as_count(f(r + 1, c)) + as_count(f(r + 1, c + 1)));
    }
    assert forall|r: int| 0 <= r < rows implies next_generation(g)[r] =~= grid_of(rows, cols, h)[r] by {
    }
    assert(next_generation(g) =~= grid_of(rows, cols, h));
}

/// A 2 by 2 block alone on the board is a still life: stepping leaves it unchanged, so
/// stepping again does too.
pub proof fn lemma_block_is_still(rows: int, cols: int, r0: int, c0: int)
    requires
        0 <= r0,
        r0 + 1 < rows,
        0 <= c0,
        c0 + 1 < cols,
    ensures
        next_generation(grid_of(rows, cols, block(r0, c0))) == grid_of(rows, cols, block(r0, c0)),
        next_generation(next_generation(grid_of(rows, cols, block(r0, c0)))) == grid_of(
            rows,
            cols,
            block(r0, c0),
        ),
{
    lemma_next_grid_of(rows, cols, block(r0, c0), block(r0, c0));
}

/// A blinker away from the edges of the board oscillates with period two: a line of three
/// cells along a row turns into a line along a column, and back.
pub proof fn lemma_blinker_oscillates(rows: int, cols: int, r0: int, c0: int)
    requires
        1 <= r0,
        r0 + 1 < rows,
        1 <= c0,
        c0 + 1 < cols,
    ensures
        next_generation(grid_of(rows, cols, row_line(r0, c0))) == grid_of(
            rows,
            cols,
            column_line(r0, c0),
        ),
        next_generation(grid_of(rows, cols, column_line(r0, c0))) == grid_of(
            rows,
            cols,
            row_line(r0, c0),
        ),
        next_generation(next_generation(grid_of(rows, cols, row_line(r0, c0)))) == grid_of(
            rows,
            cols,
            row_line(r0, c0),
        ),
{
    lemma_next_grid_of(rows, cols, row_line(r0, c0), column_line(r0, c0));
    lemma_next_grid_of(rows, cols, column_line(r0, c0), row_line(r0, c0));
}

/// Largest number of rows or columns a board may have.
pub const MAX_SIDE: usize = 65535;

/// Applies Conway's rule to one cell.
pub fn next_cell_state(alive: bool, n: u8) -> (r: bool)
    ensures
        r == next_state(alive, n as int),
{
    if alive {
        n == 2 || n == 3
    } else {
        n == 3
    }
}

/// `rows` rows of `cols` dead cells.
fn dead_cells(cols: usize, rows: usize) -> (g: Vec<Vec<bool>>)
    ensures
        grid_view(g) == dead_grid(rows as int, cols as int),
{
    let mut g: Vec<Vec<bool>> = Vec::new();
    let mut y: usize = 0;
    while y < rows
        invariant
            y <= rows,
            g@.len() == y,
            forall|i: int| 0 <= i < y ==> (#[trigger] g@[i])@ == Seq::new(cols as nat, |c: int| false),
        decreases rows - y,
    {
        let row: Vec<bool> = vec![false; cols];
        assert(row@ =~= Seq::new(cols as nat, |c: int| false));
        g.push(row);
        y = y + 1;
    }
    assert(grid_view(g) =~= dead_grid(rows as int, cols as int));
    g
}

/// The cells of a Game of Life board, and the two generations before the current one.
pub struct Population {
    pub current_generation: Vec<Vec<bool>>,
    pub dying_generation: Vec<Vec<bool>>,
    pub ghost_generation: Vec<Vec<bool>>,
    pub cols: usize,
    pub rows: usize,
}

impl Population {
    pub open spec fn grid(&self) -> Seq<Seq<bool>> {
        grid_view(self.current_generation)
    }

    pub open spec fn dying(&self) -> Seq<Seq<bool>> {
        grid_view(self.dying_generation)
    }

    pub open spec fn ghost(&self) -> Seq<Seq<bool>> {
        grid_view(self.ghost_generation)
    }

    pub open spec fn wf(&self) -> bool {
        &&& 1 <= self.rows <= MAX_SIDE
        &&& 1 <= self.cols <= MAX_SIDE
        &&& is_rect(self.grid(), self.rows as int, self.cols as int)
        &&& is_rect(self.dying(), self.rows as int, self.cols as int)
        &&& is_rect(self.ghost(), self.rows as int, self.cols as int)
    }

    /// Whether the cell at row `r`, column `c` is alive; coordinates off the grid are dead.
    pub fn is_alive(&self, r: i64, c: i64) -> (b: bool)
        requires
            self.wf(),
        ensures
            b == live(self.grid(), r as int, c as int),
    {
        if 0 <= r && r < self.rows as i64 && 0 <= c && c < self.cols as i64 {
            let row = &self.current_generation[r as usize];
            assert(row@ == self.grid()[r as int]);
            row[c as usize]
        } else {
            false
        }
    }

    /// A board of `cols` columns and `rows` rows, all cells dead, with no history.
    pub fn new(c: usize, r: usize) -> (p: Population)
        requires
            1 <= r <= MAX_SIDE,
            1 <= c <= MAX_SIDE,
        ensures
            p.wf(),
            p.rows == r,
            p.cols == c,
            p.grid() == dead_grid(r as int, c as int),
            p.dying() == dead_grid(r as int, c as int),
            p.ghost() == dead_grid(r as int, c as int),
    {
        Population {
            current_generation: dead_cells(c, r),
            dying_generation: dead_cells(c, r),
            ghost_generation: dead_cells(c, r),
            cols: c,
            rows: r,
        }
    }

    /// Advances the board by one generation: every cell follows Conway's rule, computed from
    /// the current generation alone, which then becomes the dying generation, while the
    /// previous dying generation becomes the ghost one.
    pub fn get_next_gen(&mut self)
        requires
            old(self).wf(),
        ensures
            final(self).wf(),
            final(self).rows == old(self).rows,
            final(self).cols == old(self).cols,
            final(self).grid() == next_generation(old(self).grid()),
            final(self).dying() == old(self).grid(),
            final(self).ghost() == old(self).dying(),
    {
        let ghost g = self.grid();
        let mut next_gen: Vec<Vec<bool>> = Vec::new();
        let mut y: usize = 0;
        while y < self.rows
            invariant
                self.wf(),
                g == self.grid(),
                y <= self.rows,
                next_gen@.len() == y,
                forall|i: int| 0 <= i < y ==> (#[trigger] next_gen@[i])@ == next_generation(g)[i],
            decreases self.rows - y,
        {
            let mut row: Vec<bool> = Vec::new();
            let mut x: usize = 0;
            while x < self.cols
                invariant
                    self.wf(),
                    g == self.grid(),
                    y < self.rows,
                    x <= self.cols,
                    row@.len() == x,
                    forall|j: int|
                        0 <= j < x ==> #[trigger] row@[j] == next_state(
                            g[y as int][j],
                            live_neighbors(g, y as int, j),
                        ),
                decreases self.cols - x,
            {
                assert(self.current_generation[y as int]@ == g[y as int]);
                let alive = self.current_generation[y][x];
                let n = self.count_live_neighbors(y, x);
                row.push(next_cell_state(alive, n));
                x = x + 1;
            }
            assert(row@ =~= next_generation(g)[y as int]);
            next_gen.push(row);
            y = y + 1;
        }
        assert(grid_view(next_gen) =~= next_generation(g));
        std::mem::swap(&mut self.current_generation, &mut next_gen);
        std::mem::swap(&mut self.dying_generation, &mut next_gen);
        self.ghost_generation = next_gen;
    }

    /// Flips the cell at row `r`, column `c`.
    pub fn switch(&mut self, r: usize, c: usize)
        requires
            old(self).wf(),
            r < old(self).rows,
            c < old(self).cols,
        ensures
            final(self).wf(),
            final(self).rows == old(self).rows,
            final(self).cols == old(self).cols,
            final(self).grid() == old(self).grid().update(
                r as int,
                old(self).grid()[r as int].update(c as int, !old(self).grid()[r as int][c as int]),
            ),
            final(self).dying() == old(self).dying(),
            final(self).ghost() == old(self).ghost(),
    {
        let mut row = self.current_generation[r].clone();
        assert(row@ =~= old(self).grid()[r as int]);
        let v = row[c];
        row.set(c, !v);
        self.current_generation.set(r, row);
        assert(self.grid() =~= old(self).grid().update(
            r as int,
            old(self).grid()[r as int].update(c as int, !old(self).grid()[r as int][c as int]),
        ));
    }

    /// Kills every cell and forgets the history.
    pub fn kill_all(&mut self)
        requires
            old(self).wf(),
        ensures
            final(self).wf(),
            final(self).rows == old(self).rows,
            final(self).cols == old(self).cols,
            final(self).grid() == dead_grid(old(self).rows as int, old(self).cols as int),
            final(self).dying() == dead_grid(old(self).rows as int, old(self).cols as int),
            final(self).ghost() == dead_grid(old(self).rows as int, old(self).cols as int),
    {
        self.current_generation = dead_cells(self.cols, self.rows);
        self.dying_generation = dead_cells(self.cols, self.rows);
        self.ghost_generation = dead_cells(self.cols, self.rows);
    }

    /// Number of alive cells around row `r`, column `c`.
    pub fn count_live_neighbors(&self, r: usize, c: usize) -> (n: u8)
        requires
            self.wf(),
            r < self.rows,
            c < self.cols,
        ensures
            n == live_neighbors(self.grid(), r as int, c as int),
    {
        let ri = r as i64;
        let ci = c as i64;
        let mut n: u8 = 0;
        if self.is_alive(ri - 1, ci - 1) { n = n + 1; }
        if self.is_alive(ri - 1, ci) { n = n + 1; }
        if self.is_alive(ri - 1, ci + 1) { n = n + 1; }
        if self.is_alive(ri, ci - 1) { n = n + 1; }
        if self.is_alive(ri, ci + 1) { n = n + 1; }
        if self.is_alive(ri + 1, ci - 1) { n = n + 1; }
        if self.is_alive(ri + 1, ci) { n = n + 1; }
        if self.is_alive(ri + 1, ci + 1) { n = n + 1; }
        n
    }
}

/// Shortest tick interval, in milliseconds.
pub const MIN_INTERVAL: u64 = 50;

/// Longest tick interval, in milliseconds.
pub const MAX_INTERVAL: u64 = 1000;

/// Step by which the tick interval changes, in milliseconds.
pub const INTERVAL_STEP: u64 = 50;

/// Tick interval of a new game, in milliseconds.
pub const START_INTERVAL: u64 = 400;

/// The cell that manual editing acts on.
#[derive(Debug, Clone, Copy, PartialEq, Eq, Structural)]
pub struct Cursor {
    pub row: usize,
    pub col: usize,
}

/// What a key asks of a game of life.
#[derive(Debug, Clone, Copy, PartialEq, Eq, Structural)]
pub enum LifeKey {
    Quit,
    TogglePause,
    ToggleHistory,
    SingleStep,
    Clear,
    ToggleCell,
    Left,
    Right,
    Up,
    Down,
    LongerInterval,
    ShorterInterval,
}

/// A game of life: the board, a cursor on it, a pause gate and a timer.
pub struct Game {
    pub population: Population,
    /// Simulated time, in milliseconds, since the board was last cleared.
    pub running_time: u64,
    pub paused: bool,
    pub show_history: bool,
    pub cursor: Cursor,
    /// Milliseconds between two generations.
    pub frame_rate: u64,
}

/// `v` held within `[lo, hi]`.
pub open spec fn clamp(v: int, lo: int, hi: int) -> int {
    if v < lo {
        lo
    } else if v > hi {
        hi
    } else {
        v
    }
}

impl Game {
    pub open spec fn wf(&self) -> bool {
        &&& self.population.wf()
        &&& self.cursor.row < self.population.rows
        &&& self.cursor.col < self.population.cols
        &&& MIN_INTERVAL <= self.frame_rate <= MAX_INTERVAL
        &&& self.frame_rate % INTERVAL_STEP == 0
    }

    /// A paused game on a dead board of `c` columns and `r` rows, the cursor at its center;
    /// an empty viewport is refused.
    pub fn new(c: u16, r: u16) -> (res: Result<Game, InvalidViewport>)
        ensures
            res is Err <==> (c == 0 || r == 0),
            res matches Ok(g) ==> {
                &&& g.wf()
                &&& g.population.rows == r
                &&& g.population.cols == c
                &&& g.population.grid() == dead_grid(r as int, c as int)
                &&& g.population.dying() == dead_grid(r as int, c as int)
                &&& g.population.ghost() == dead_grid(r as int, c as int)
                &&& g.cursor == (Cursor { row: (r / 2) as usize, col: (c / 2) as usize })
                &&& g.running_time == 0
                &&& g.paused
                &&& !g.show_history
                &&& g.frame_rate == START_INTERVAL
            },
    {
        if c == 0 || r == 0 {
            return Err(InvalidViewport);
        }
        let cols = c as usize;
        let rows = r as usize;
        Ok(Game {
            population: Population::new(cols, rows),
            running_time: 0,
            paused: true,
            show_history: false,
            cursor: Cursor { row: rows / 2, col: cols / 2 },
            frame_rate: START_INTERVAL,
        })
    }

    /// Flips the cell under the cursor; the history is left as it is.
    pub fn toggle_cursor_cell(&mut self)
        requires
            old(self).wf(),
        ensures
            final(self).wf(),
            final(self).population.rows == old(self).population.rows,
            final(self).population.cols == old(self).population.cols,
            final(self).population.grid() == old(self).population.grid().update(
                old(self).cursor.row as int,
                old(self).population.grid()[old(self).cursor.row as int].update(
                    old(self).cursor.col as int,
                    !old(self).population.grid()[old(self).cursor.row as int][old(
                        self,
                    ).cursor.col as int],
                ),
            ),
            final(self).population.dying() == old(self).population.dying(),
            final(self).population.ghost() == old(self).population.ghost(),
            final(self).cursor == old(self).cursor,
            final(self).paused == old(self).paused,
            final(self).show_history == old(self).show_history,
            final(self).running_time == old(self).running_time,
            final(self).frame_rate == old(self).frame_rate,
    {
        let row = self.cursor.row;
        let col = self.cursor.col;
        self.population.switch(row, col);
    }

    /// Moves the cursor by `dx` columns and `dy` rows, held on the board.
    pub fn move_cursor(&mut self, dx: i32, dy: i32)
        requires
            old(self).wf(),
        ensures
            final(self).wf(),
            final(self).cursor.col == clamp(
                old(self).cursor.col + dx,
                0,
                old(self).population.cols - 1,
            ),
            final(self).cursor.row == clamp(
                old(self).cursor.row + dy,
                0,
                old(self).population.rows - 1,
            ),
            final(self).population == old(self).population,
            final(self).paused == old(self).paused,
            final(self).show_history == old(self).show_history,
            final(self).running_time == old(self).running_time,
            final(self).frame_rate == old(self).frame_rate,
    {
        self.cursor.col = clamp_index(self.cursor.col as i64 + dx as i64, self.population.cols);
        self.cursor.row = clamp_index(self.cursor.row as i64 + dy as i64, self.population.rows);
    }

    /// Kills every cell, forgets the history, pauses the game and resets the timer.
    pub fn clear(&mut self)
        requires
            old(self).wf(),
        ensures
            final(self).wf(),
            final(self).population.rows == old(self).population.rows,
            final(self).population.cols == old(self).population.cols,
            final(self).population.grid() == dead_grid(
                old(self).population.rows as int,
                old(self).population.cols as int,
            ),
            final(self).population.dying() == dead_grid(
                old(self).population.rows as int,
                old(self).population.cols as int,
            ),
            final(self).population.ghost() == dead_grid(
                old(self).population.rows as int,
                old(self).population.cols as int,
            ),
            final(self).paused,
            final(self).running_time == 0,
            final(self).cursor == old(self).cursor,
            final(self).show_history == old(self).show_history,
            final(self).frame_rate == old(self).frame_rate,
    {
        self.population.kill_all();
        self.paused = true;
        self.running_time = 0;
    }

    /// Advances the board by one generation while the game is paused; does nothing otherwise.
    pub fn single_step(&mut self)
        requires
            old(self).wf(),
        ensures
            final(self).wf(),
            old(self).paused ==> stepped(old(self).population, final(self).population),
            !old(self).paused ==> final(self).population == old(self).population,
            final(self).paused == old(self).paused,
            final(self).cursor == old(self).cursor,
            final(self).show_history == old(self).show_history,
            final(self).running_time == old(self).running_time,
            final(self).frame_rate == old(self).frame_rate,
    {
        if self.paused {
            self.population.get_next_gen();
        }
    }

    /// Lengthens the tick interval by one step, up to the longest.
    pub fn longer_interval(&mut self)
        requires
            old(self).wf(),
        ensures
            final(self).wf(),
            final(self).frame_rate == if old(self).frame_rate < MAX_INTERVAL {
                old(self).frame_rate + INTERVAL_STEP
            } else {
                old(self).frame_rate as int
            },
            final(self).population == old(self).population,
            final(self).cursor == old(self).cursor,
            final(self).paused == old(self).paused,
            final(self).show_history == old(self).show_history,
            final(self).running_time == old(self).running_time,
    {
        if self.frame_rate < MAX_INTERVAL {
            self.frame_rate = self.frame_rate + INTERVAL_STEP;
        }
    }

    /// Shortens the tick interval by one step, down to the shortest.
    pub fn shorter_interval(&mut self)
        requires
            old(self).wf(),
        ensures
            final(self).wf(),
            final(self).frame_rate == if old(self).frame_rate > MIN_INTERVAL {
                old(self).frame_rate - INTERVAL_STEP
            } else {
                old(self).frame_rate as int
            },
            final(self).population == old(self).population,
            final(self).cursor == old(self).cursor,
            final(self).paused == old(self).paused,
            final(self).show_history == old(self).show_history,
            final(self).running_time == old(self).running_time,
    {
        if self.frame_rate > MIN_INTERVAL {
            self.frame_rate = self.frame_rate - INTERVAL_STEP;
        }
    }

    /// Applies a key to the game; returns whether the key asks to leave it. Arrows move the
    /// cursor by one cell, up being towards higher rows.
    pub fn handle_key(&mut self, key: LifeKey) -> (quit: bool)
        requires
            old(self).wf(),
        ensures
            final(self).wf(),
            quit <==> key == LifeKey::Quit,
            key == LifeKey::Quit ==> *final(self) == *old(self),
            key == LifeKey::TogglePause ==> *final(self) == (Game {
                paused: !old(self).paused,
                ..*old(self)
            }),
            key == LifeKey::ToggleHistory ==> *final(self) == (Game {
                show_history: !old(self).show_history,
                ..*old(self)
            }),
            key == LifeKey::SingleStep && old(self).paused ==> stepped(
                old(self).population,
                final(self).population,
            ) && *final(self) == (Game { population: final(self).population, ..*old(self) }),
            key == LifeKey::SingleStep && !old(self).paused ==> *final(self) == *old(self),
            key == LifeKey::Clear ==> final(self).population.grid() == dead_grid(
                old(self).population.rows as int,
                old(self).population.cols as int,
            ) && final(self).population.dying() == dead_grid(
                old(self).population.rows as int,
                old(self).population.cols as int,
            ) && final(self).population.ghost() == dead_grid(
                old(self).population.rows as int,
                old(self).population.cols as int,
            ) && final(self).population.rows == old(self).population.rows
                && final(self).population.cols == old(self).population.cols && final(self).paused
                && final(self).running_time == 0 && final(self).cursor == old(self).cursor
                && final(self).show_history == old(self).show_history && final(self).frame_rate
                == old(self).frame_rate,
            key == LifeKey::ToggleCell ==> final(self).population.grid() == old(
                self,
            ).population.grid().update(
                old(self).cursor.row as int,
                old(self).population.grid()[old(self).cursor.row as int].update(
                    old(self).cursor.col as int,
                    !old(self).population.grid()[old(self).cursor.row as int][old(
                        self,
                    ).cursor.col as int],
                ),
            ) && final(self).population.dying() == old(self).population.dying()
                && final(self).population.ghost() == old(self).population.ghost()
                && final(self).population.rows == old(self).population.rows
                && final(self).population.cols == old(self).population.cols
                && final(self).cursor == old(self).cursor && final(self).paused == old(self).paused
                && final(self).running_time == old(self).running_time && final(self).show_history
                == old(self).show_history && final(self).frame_rate == old(self).frame_rate,
            key == LifeKey::Left ==> *final(self) == (Game {
                cursor: Cursor {
                    col: clamp(old(self).cursor.col - 1, 0, old(self).population.cols - 1) as usize,
                    ..old(self).cursor
                },
                ..*old(self)
            }),
            key == LifeKey::Right ==> *final(self) == (Game {
                cursor: Cursor {
                    col: clamp(old(self).cursor.col + 1, 0, old(self).population.cols - 1) as usize,
                    ..old(self).cursor
                },
                ..*old(self)
            }),
            key == LifeKey::Up ==> *final(self) == (Game {
                cursor: Cursor {
                    row: clamp(old(self).cursor.row + 1, 0, old(self).population.rows - 1) as usize,
                    ..old(self).cursor
                },
                ..*old(self)
            }),
            key == LifeKey::Down ==> *final(self) == (Game {
                cursor: Cursor {
                    row: clamp(old(self).cursor.row - 1, 0, old(self).population.rows - 1) as usize,
                    ..old(self).cursor
                },
                ..*old(self)
            }),
            key == LifeKey::LongerInterval ==> *final(self) == (Game {
                frame_rate: if old(self).frame_rate < MAX_INTERVAL {
                    (old(self).frame_rate + INTERVAL_STEP) as u64
                } else {
                    old(self).frame_rate
                },
                ..*old(self)
            }),
            key == LifeKey::ShorterInterval ==> *final(self) == (Game {
                frame_rate: if old(self).frame_rate > MIN_INTERVAL {
                    (old(self).frame_rate - INTERVAL_STEP) as u64
                } else {
                    old(self).frame_rate
                },
                ..*old(self)
            }),
    {
        match key {
            LifeKey::Quit => {
                return true;
            },
            LifeKey::TogglePause => {
                self.paused = !self.paused;
            },
            LifeKey::ToggleHistory => {
                self.show_history = !self.show_history;
            },
            LifeKey::SingleStep => self.single_step(),
            LifeKey::Clear => self.clear(),
            LifeKey::ToggleCell => self.toggle_cursor_cell(),
            LifeKey::Left => self.move_cursor(-1, 0),
            LifeKey::Right => self.move_cursor(1, 0),
            LifeKey::Up => self.move_cursor(0, 1),
            LifeKey::Down => self.move_cursor(0, -1),
            LifeKey::LongerInterval => self.longer_interval(),
            LifeKey::ShorterInterval => self.shorter_interval(),
        }
        false
    }

    /// What happens when a tick falls due: a running game advances by one generation and its
    /// timer by one tick interval, saturating; a paused one stays as it is.
    pub fn tick(&mut self)
        requires
            old(self).wf(),
        ensures
            final(self).wf(),
            !old(self).paused ==> stepped(old(self).population, final(self).population),
            !old(self).paused ==> final(self).running_time == if old(self).running_time
                + old(self).frame_rate > u64::MAX {
                u64::MAX as int
            } else {
                old(self).running_time + old(self).frame_rate
            },
            old(self).paused ==> final(self).population == old(self).population,
            old(self).paused ==> final(self).running_time == old(self).running_time,
            final(self).paused == old(self).paused,
            final(self).cursor == old(self).cursor,
            final(self).show_history == old(self).show_history,
            final(self).frame_rate == old(self).frame_rate,
    {
        if !self.paused {
            self.population.get_next_gen();
            self.running_time = self.running_time.saturating_add(self.frame_rate);
        }
    }
}

/// `after` is `before` advanced by one generation.
pub open spec fn stepped(before: Population, after: Population) -> bool {
    &&& after.wf()
    &&& after.rows == before.rows
    &&& after.cols == before.cols
    &&& after.grid() == next_generation(before.grid())
    &&& after.dying() == before.grid()
    &&& after.ghost() == before.dying()
}

/// `v` held within `[0, n)`.
fn clamp_index(v: i64, n: usize) -> (r: usize)
    requires
        1 <= n <= MAX_SIDE,
    ensures
        r == clamp(v as int, 0, n - 1),
{
    if v < 0 {
        0
    } else if v >= n as i64 {
        n - 1
    } else {
        v as usize
    }
}

} // verus!
