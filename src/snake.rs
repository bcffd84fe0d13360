use vstd::prelude::*;

use crate::InvalidViewport;
use rand::Rng;

verus! {

/// Largest number of rows or columns a board may have.
pub const MAX_SIDE: i64 = 65535;

/// Random draws for a free cell before the free cells are listed and one of them drawn.
pub const MAX_DRAWS: u32 = 64;

/// Where the snake is heading; `Idle` before the first move.
#[derive(Debug, Clone, Copy, PartialEq, Eq, Structural)]
pub enum Direction {
    Left,
    Right,
    Up,
    Down,
    Idle,
}

/// The offset that one move in direction `d` adds to the head; up is towards higher `y`.
pub open spec fn delta(d: Direction) -> (int, int) {
    match d {
        Direction::Left => (-1, 0),
        Direction::Right => (1, 0),
        Direction::Up => (0, 1),
        Direction::Down => (0, -1),
        Direction::Idle => (0, 0),
    }
}

/// `a` and `b` point in opposite directions.
pub open spec fn opposite(a: Direction, b: Direction) -> bool {
    ||| (a == Direction::Left && b == Direction::Right)
    ||| (a == Direction::Right && b == Direction::Left)
    ||| (a == Direction::Up && b == Direction::Down)
    ||| (a == Direction::Down && b == Direction::Up)
}

/// `p` lies on a board of `cols` columns and `rows` rows.
pub open spec fn in_bounds(p: (i64, i64), cols: i64, rows: i64) -> bool {
    0 <= p.0 < cols && 0 <= p.1 < rows
}

/// Every cell of the board is in `body`.
pub open spec fn covers(body: Seq<(i64, i64)>, cols: i64, rows: i64) -> bool {
    forall|p: (i64, i64)| in_bounds(p, cols, rows) ==> #[trigger] body.contains(p)
}

/// A snake on a board, with the food it is after.
pub struct Snake {
    /// The cells of the snake, tail first, head last.
    pub body: Vec<(i64, i64)>,
    pub direction: Direction,
    pub dead: bool,
    pub food: (i64, i64),
    pub cols: i64,
    pub rows: i64,
}

impl Snake {
    pub open spec fn head(&self) -> (i64, i64) {
        self.body@.last()
    }

    /// The board is sized, and the body is a non-empty run of distinct cells of it.
    pub open spec fn body_wf(&self) -> bool {
        &&& 1 <= self.cols <= MAX_SIDE
        &&& 1 <= self.rows <= MAX_SIDE
        &&& self.body@.len() >= 1
        &&& self.body@.no_duplicates()
        &&& forall|i: int|
            0 <= i < self.body@.len() ==> in_bounds(#[trigger] self.body@[i], self.cols, self.rows)
    }

    /// The food lies on the board, off the body unless the body fills the board.
    pub open spec fn food_wf(&self) -> bool {
        &&& in_bounds(self.food, self.cols, self.rows)
        &&& (!self.body@.contains(self.food) || covers(self.body@, self.cols, self.rows))
    }

    pub open spec fn wf(&self) -> bool {
        self.body_wf() && self.food_wf()
    }

    /// The cell the head moves to next.
    pub open spec fn next_head(&self) -> (int, int) {
        (self.head().0 + delta(self.direction).0, self.head().1 + delta(self.direction).1)
    }

    /// A one-cell snake at the center of a board of `c` columns and `r` rows, idle and alive,
    /// with its food drawn on a free cell; an empty viewport is refused.
    pub fn new(c: u16, r: u16) -> (res: Result<Snake, InvalidViewport>)
        ensures
            res is Err <==> (c == 0 || r == 0),
            res matches Ok(s) ==> {
                &&& s.wf()
                &&& s.cols == c
                &&& s.rows == r
                &&& s.body@ == seq![((c / 2) as i64, (r / 2) as i64)]
                &&& s.direction == Direction::Idle
                &&& !s.dead
            },
    {
        if c == 0 || r == 0 {
            return Err(InvalidViewport);
        }
        let cols = c as i64;
        let rows = r as i64;
        let center = (cols / 2, rows / 2);
        let mut s = Snake {
            body: vec![center],
            direction: Direction::Idle,
            dead: false,
            food: center,
            cols,
            rows,
        };
        s.summon_apple();
        Ok(s)
    }

    /// Starts over: a one-cell snake at the center of the board, idle and alive, with its food
    /// drawn anew.
    pub fn reset(&mut self)
        requires
            old(self).wf(),
        ensures
            final(self).wf(),
            final(self).cols == old(self).cols,
            final(self).rows == old(self).rows,
            final(self).body@ == seq![((old(self).cols / 2) as i64, (old(self).rows / 2) as i64)],
            final(self).direction == Direction::Idle,
            !final(self).dead,
    {
        self.body = vec![(self.cols / 2, self.rows / 2)];
        self.direction = Direction::Idle;
        self.dead = false;
        self.summon_apple();
    }

    /// Turns the snake towards `d`, unless `d` is the reverse of its current direction.
    pub fn go(&mut self, d: Direction)
        requires
            old(self).wf(),
        ensures
            final(self).wf(),
            opposite(old(self).direction, d) ==> *final(self) == *old(self),
            !opposite(old(self).direction, d) ==> *final(self) == (Snake {
                direction: d,
                ..*old(self)
            }),
    {
        let reverse = match (self.direction, d) {
            (Direction::Left, Direction::Right) => true,
            (Direction::Right, Direction::Left) => true,
            (Direction::Up, Direction::Down) => true,
            (Direction::Down, Direction::Up) => true,
            _ => false,
        };
        if !reverse {
            self.direction = d;
        }
    }

    /// One movement step. A dead or idle snake stays as it is. Otherwise the head moves one
    /// cell in the current direction: onto the body or off the board the snake dies, its body
    /// left as it was and its direction idle; onto the food it grows by that cell and the food
    /// is drawn anew; elsewhere the tail cell leaves as the new head cell comes.
    pub fn update(&mut self)
        requires
            old(self).wf(),
        ensures
            final(self).wf(),
            old(self).dead || old(self).direction == Direction::Idle ==> *final(self) == *old(self),
            !old(self).dead && old(self).direction != Direction::Idle && old(self).blocked()
                ==> *final(self) == (Snake {
                dead: true,
                direction: Direction::Idle,
                ..*old(self)
            }),
            !old(self).dead && old(self).direction != Direction::Idle && !old(self).blocked()
                && old(self).next_cell() == old(self).food ==> *final(self) == (Snake {
                body: final(self).body,
                food: final(self).food,
                ..*old(self)
            }) && final(self).body@ == old(self).body@.push(old(self).next_cell())
                && final(self).body@.len() == old(self).body@.len() + 1 && (!covers(
                final(self).body@,
                final(self).cols,
                final(self).rows,
            ) ==> !final(self).body@.contains(final(self).food)),
            !old(self).dead && old(self).direction != Direction::Idle && !old(self).blocked()
                && old(self).next_cell() != old(self).food ==> *final(self) == (Snake {
                body: final(self).body,
                ..*old(self)
            }) && final(self).body@ == old(self).body@.drop_first().push(old(self).next_cell()),
    {
        if self.dead {
            return;
        }
        let head = self.body[self.body.len() - 1];
        let (x, y) = head;
        assert(self.body@.contains(head));
        let (nx, ny) = match self.direction {
            Direction::Left => (x - 1, y),
            Direction::Right => (x + 1, y),
            Direction::Up => (x, y + 1),
            Direction::Down => (x, y - 1),
            Direction::Idle => {
                return;
            },
        };
        let cand = (nx, ny);
        if !(0 <= nx && nx < self.cols && 0 <= ny && ny < self.rows) || self.occupies(cand) {
            self.dead = true;
            self.direction = Direction::Idle;
            return;
        }
        let ghost before = self.body@;
        if nx == self.food.0 && ny == self.food.1 {
            self.body.push(cand);
            assert forall|i: int, j: int|
                0 <= i < self.body@.len() && 0 <= j < self.body@.len() && i != j implies self.body@[i]
                != self.body@[j] by {
                if i == before.len() as int {
                    assert(before.contains(self.body@[j]));
                } else if j == before.len() as int {
                    assert(before.contains(self.body@[i]));
                }
            }
            self.summon_apple();
        } else {
            self.body.remove(0);
            self.body.push(cand);
            assert(self.body@ =~= before.drop_first().push(cand));
            assert forall|i: int, j: int|
                0 <= i < self.body@.len() && 0 <= j < self.body@.len() && i != j implies self.body@[i]
                != self.body@[j] by {
                if i == self.body@.len() - 1 {
                    assert(before.contains(self.body@[j]));
                } else if j == self.body@.len() - 1 {
                    assert(before.contains(self.body@[i]));
                } else {
                    assert(self.body@[i] == before[i + 1]);
                    assert(self.body@[j] == before[j + 1]);
                }
            }
            assert forall|i: int| 0 <= i < self.body@.len() implies in_bounds(
                #[trigger] self.body@[i],
                self.cols,
                self.rows,
            ) by {
                if i < self.body@.len() - 1 {
                    assert(self.body@[i] == before[i + 1]);
                }
            }
            assert(!covers(before, self.cols, self.rows));
            proof {
                if self.body@.contains(self.food) {
                    let i = choose|i: int| 0 <= i < self.body@.len() && self.body@[i] == self.food;
                    assert(before[i + 1] == self.food);
                    assert(before.contains(self.food));
                }
            }
        }
    }

    /// Whether the next move would put the head on the body or off the board.
    pub open spec fn blocked(&self) -> bool {
        !(0 <= self.next_head().0 < self.cols && 0 <= self.next_head().1 < self.rows)
            || self.body@.contains(self.next_cell())
    }

    /// The cell the head moves to next, when it lies on the board.
    pub open spec fn next_cell(&self) -> (i64, i64) {
        (self.next_head().0 as i64, self.next_head().1 as i64)
    }

    /// The cells of the board that the body leaves free, row by row.
    pub fn free_cells(&self) -> (r: Vec<(i64, i64)>)
        requires
            self.body_wf(),
        ensures
            forall|p: (i64, i64)|
                #[trigger] r@.contains(p) <==> in_bounds(p, self.cols, self.rows)
                    && !self.body@.contains(p),
    {
        let mut r: Vec<(i64, i64)> = Vec::new();
        let mut y: i64 = 0;
        while y < self.rows
            invariant
                self.body_wf(),
                0 <= y <= self.rows,
                forall|p: (i64, i64)|
                    #[trigger] r@.contains(p) <==> in_bounds(p, self.cols, self.rows)
                        && !self.body@.contains(p) && p.1 < y,
            decreases self.rows - y,
        {
            let mut x: i64 = 0;
            while x < self.cols
                invariant
                    self.body_wf(),
                    0 <= y < self.rows,
                    0 <= x <= self.cols,
                    forall|p: (i64, i64)|
                        #[trigger] r@.contains(p) <==> in_bounds(p, self.cols, self.rows)
                            && !self.body@.contains(p) && (p.1 < y || (p.1 == y && p.0 < x)),
                decreases self.cols - x,
            {
                if !self.occupies((x, y)) {
                    let ghost before = r@;
                    r.push((x, y));
                    assert forall|p: (i64, i64)| #[trigger] r@.contains(p) <==> (before.contains(p)
                        || p == (x, y)) by {
                        if p == (x, y) {
                            assert(r@[before.len() as int] == p);
                        }
                        if before.contains(p) {
                            let i = choose|i: int| 0 <= i < before.len() && before[i] == p;
                            assert(r@[i] == p);
                        }
                        if r@.contains(p) && p != (x, y) {
                            let i = choose|i: int| 0 <= i < r@.len() && r@[i] == p;
                            assert(before[i] == p);
                        }
                    }
                }
                x = x + 1;
            }
            y = y + 1;
        }
        r
    }

    /// Puts the food on `p` if `p` is a free cell of the board; returns whether it did.
    pub fn try_place_food(&mut self, p: (i64, i64)) -> (placed: bool)
        requires
            old(self).body_wf(),
        ensures
            placed == (in_bounds(p, old(self).cols, old(self).rows) && !old(self).body@.contains(p)),
            placed ==> *final(self) == (Snake { food: p, ..*old(self) }),
            !placed ==> *final(self) == *old(self),
    {
        if 0 <= p.0 && p.0 < self.cols && 0 <= p.1 && p.1 < self.rows && !self.occupies(p) {
            self.food = p;
            true
        } else {
            false
        }
    }

    /// Draws the food at random among the free cells of the board: cells drawn uniformly from
    /// the whole board until one is free, and after `MAX_DRAWS` failures one drawn uniformly
    /// from the list of free cells. Where the body fills the board the food goes under the head.
    pub fn summon_apple(&mut self)
        requires
            old(self).body_wf(),
        ensures
            final(self).wf(),
            *final(self) == (Snake { food: final(self).food, ..*old(self) }),
    {
        let mut draws: u32 = 0;
        while draws < MAX_DRAWS
            invariant
                self.body_wf(),
                *self == (Snake { food: self.food, ..*old(self) }),
            decreases MAX_DRAWS - draws,
        {
            let x = random_below(self.cols as u64) as i64;
            let y = random_below(self.rows as u64) as i64;
            if self.try_place_food((x, y)) {
                return;
            }
            draws = draws + 1;
        }
        let free = self.free_cells();
        if free.len() > 0 {
            let k = random_below(free.len() as u64) as usize;
            self.food = free[k];
            assert(free@.contains(free@[k as int]));
        } else {
            self.food = self.body[self.body.len() - 1];
            assert forall|p: (i64, i64)| in_bounds(p, self.cols, self.rows) implies #[trigger] self.body@.contains(p) by {
                assert(!free@.contains(p));
            }
            assert(self.body@.contains(self.body@[self.body@.len() - 1]));
        }
    }

    /// Whether `p` is a cell of the body.
    pub fn occupies(&self, p: (i64, i64)) -> (b: bool)
        ensures
            b == self.body@.contains(p),
    {
        let mut i: usize = 0;
        while i < self.body.len()
            invariant
                i <= self.body@.len(),
                forall|j: int| 0 <= j < i ==> self.body@[j] != p,
            decreases self.body@.len() - i,
        {
            let q = self.body[i];
            if q.0 == p.0 && q.1 == p.1 {
                return true;
            }
            i = i + 1;
        }
        false
    }
}

/// What a key asks of a game of snake.
#[derive(Debug, Clone, Copy, PartialEq, Eq, Structural)]
pub enum SnakeKey {
    Quit,
    Reset,
    Left,
    Right,
    Up,
    Down,
}

impl Snake {
    /// Applies a key to the game; returns whether the key asks to leave it.
    pub fn handle_key(&mut self, key: SnakeKey) -> (quit: bool)
        requires
            old(self).wf(),
        ensures
            final(self).wf(),
            quit <==> key == SnakeKey::Quit,
            key == SnakeKey::Quit ==> *final(self) == *old(self),
            key == SnakeKey::Reset ==> final(self).body@ == seq![
                ((old(self).cols / 2) as i64, (old(self).rows / 2) as i64),
            ] && final(self).direction == Direction::Idle && !final(self).dead && final(self).cols
                == old(self).cols && final(self).rows == old(self).rows,
            key == SnakeKey::Left ==> final(self).direction == if opposite(
                old(self).direction,
                Direction::Left,
            ) {
                old(self).direction
            } else {
                Direction::Left
            } && *final(self) == (Snake { direction: final(self).direction, ..*old(self) }),
            key == SnakeKey::Right ==> final(self).direction == if opposite(
                old(self).direction,
                Direction::Right,
            ) {
                old(self).direction
            } else {
                Direction::Right
            } && *final(self) == (Snake { direction: final(self).direction, ..*old(self) }),
            key == SnakeKey::Up ==> final(self).direction == if opposite(
                old(self).direction,
                Direction::Up,
            ) {
                old(self).direction
            } else {
                Direction::Up
            } && *final(self) == (Snake { direction: final(self).direction, ..*old(self) }),
            key == SnakeKey::Down ==> final(self).direction == if opposite(
                old(self).direction,
                Direction::Down,
            ) {
                old(self).direction
            } else {
                Direction::Down
            } && *final(self) == (Snake { direction: final(self).direction, ..*old(self) }),
    {
        match key {
            SnakeKey::Quit => {
                return true;
            },
            SnakeKey::Reset => self.reset(),
            SnakeKey::Left => self.go(Direction::Left),
            SnakeKey::Right => self.go(Direction::Right),
            SnakeKey::Up => self.go(Direction::Up),
            SnakeKey::Down => self.go(Direction::Down),
        }
        false
    }
}

/// Relies on rand's `Rng::gen_range` over `0..n`, with the thread's generator: a value in
/// `[0, n)`. It panics on an empty range, which `requires` leaves out.
#[verifier::external_body]
fn random_below(n: u64) -> (r: u64)
    requires
        n > 0,
    ensures
        r < n,
{
    rand::thread_rng().gen_range(0..n)
}

} // verus!
