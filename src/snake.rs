use vstd::prelude::*;

verus! {

/// One of the four headings on the grid.
#[derive(Clone, Copy, Debug, PartialEq, Eq, Structural)]
pub enum Direction {
    Up,
    Down,
    Left,
    Right,
}

/// The heading that points the other way.
pub open spec fn opposite_of(d: Direction) -> Direction {
    match d {
        Direction::Up => Direction::Down,
        Direction::Down => Direction::Up,
        Direction::Left => Direction::Right,
        Direction::Right => Direction::Left,
    }
}

/// Turning around twice gives back the heading one started with.
pub proof fn lemma_opposite_involutive(d: Direction)
    ensures
        opposite_of(opposite_of(d)) == d,
        opposite_of(d) != d,
{
}

impl Direction {
    /// The reverse heading: Up and Down swap, Left and Right swap.
    pub fn opposite(&self) -> (r: Direction)
        ensures
            r == opposite_of(*self),
    {
        match *self {
            Direction::Up => Direction::Down,
            Direction::Down => Direction::Up,
            Direction::Left => Direction::Right,
            Direction::Right => Direction::Left,
        }
    }
}


/// Horizontal offset of one step in direction `d` (x grows to the right).
pub open spec fn dx(d: Direction) -> int {
    match d {
        Direction::Left => -1,
        Direction::Right => 1,
        _ => 0,
    }
}

/// Vertical offset of one step in direction `d` (y grows downwards).
pub open spec fn dy(d: Direction) -> int {
    match d {
        Direction::Up => -1,
        Direction::Down => 1,
        _ => 0,
    }
}

/// A cell's coordinates as mathematical integers.
pub open spec fn pos(c: (i32, i32)) -> (int, int) {
    (c.0 as int, c.1 as int)
}

/// Whether both coordinates of `c` can be held in an `i32`.
pub open spec fn fits(c: (int, int)) -> bool {
    i32::MIN <= c.0 <= i32::MAX && i32::MIN <= c.1 <= i32::MAX
}

/// The cell with the coordinates `c`, for `c` that fits.
pub open spec fn cell(c: (int, int)) -> (i32, i32) {
    (c.0 as i32, c.1 as i32)
}

/// What a snake is: its cells head first, its heading, and the cell that
/// the last move vacated.
pub struct SnakeModel {
    pub body: Seq<(i32, i32)>,
    pub heading: Direction,
    pub last_removed: Option<(i32, i32)>,
}

impl SnakeModel {
    /// A three-cell snake lying to the right of `(x, y)`, heading Right.
    pub open spec fn initial(x: i32, y: i32) -> SnakeModel {
        SnakeModel {
            body: seq![((x + 2) as i32, y), ((x + 1) as i32, y), (x, y)],
            heading: Direction::Right,
            last_removed: None,
        }
    }

    pub open spec fn wf(self) -> bool {
        self.body.len() >= 1
    }

    pub open spec fn head(self) -> (i32, i32) {
        self.body[0]
    }

    pub open spec fn tail(self) -> (i32, i32) {
        self.body.last()
    }

    /// The heading a move takes: the one asked for, else the current one.
    pub open spec fn heading_for(self, dir: Option<Direction>) -> Direction {
        match dir {
            Some(d) => d,
            None => self.heading,
        }
    }

    /// Where the head goes on a move in the heading `heading_for(dir)`.
    pub open spec fn next_cell(self, dir: Option<Direction>) -> (int, int) {
        let d = self.heading_for(dir);
        (self.head().0 + dx(d), self.head().1 + dy(d))
    }

    /// Whether `c` is one of the cells of the body other than the last.
    pub open spec fn overlaps(self, c: (int, int)) -> bool {
        exists|i: int| 0 <= i < self.body.len() - 1 && #[trigger] pos(self.body[i]) == c
    }

    /// The snake after a move: a new head in front, the last cell dropped
    /// and remembered.
    pub open spec fn moved(self, dir: Option<Direction>) -> SnakeModel {
        SnakeModel {
            body: seq![cell(self.next_cell(dir))] + self.body.drop_last(),
            heading: self.heading_for(dir),
            last_removed: Some(self.tail()),
        }
    }

    /// The snake with the vacated cell put back at its end.
    pub open spec fn grown(self) -> SnakeModel {
        SnakeModel {
            body: self.body.push(self.last_removed.unwrap()),
            ..self
        }
    }
}

/// The first move of a new snake, in its own heading, puts the head one
/// cell further right and keeps three cells.
pub proof fn lemma_first_move(x: i32, y: i32)
    requires
        x + 3 <= i32::MAX,
    ensures
        SnakeModel::initial(x, y).moved(None).head() == ((x + 3) as i32, y),
        SnakeModel::initial(x, y).moved(None).body
            == seq![((x + 3) as i32, y), ((x + 2) as i32, y), ((x + 1) as i32, y)],
        SnakeModel::initial(x, y).moved(None).body.len() == 3,
{
    let m = SnakeModel::initial(x, y).moved(None);
    assert(m.body =~= seq![((x + 3) as i32, y), ((x + 2) as i32, y), ((x + 1) as i32, y)]);
}

/// Growing after a move adds exactly one cell, a copy of the cell that the
/// move vacated, at the end.
pub proof fn lemma_grow_after_move(s: SnakeModel, dir: Option<Direction>)
    requires
        s.wf(),
    ensures
        s.moved(dir).grown().body.len() == s.body.len() + 1,
        s.moved(dir).grown().body.last() == s.tail(),
        s.moved(dir).grown().body.drop_last() == s.moved(dir).body,
{
    let m = s.moved(dir);
    assert(m.grown().body.drop_last() =~= m.body);
}

/// On a body without repeated cells, the last cell does not count as an
/// overlap, and every other cell does.
pub proof fn lemma_overlap_excludes_tail(s: SnakeModel)
    requires
        s.wf(),
        s.body.no_duplicates(),
    ensures
        !s.overlaps(pos(s.tail())),
        forall|i: int| 0 <= i < s.body.len() - 1 ==> s.overlaps(#[trigger] pos(s.body[i])),
{
    assert forall|i: int| 0 <= i < s.body.len() - 1 implies s.overlaps(#[trigger] pos(s.body[i])) by {
    }
    if s.overlaps(pos(s.tail())) {
        let i = choose|i: int| 0 <= i < s.body.len() - 1 && #[trigger] pos(s.body[i]) == pos(s.tail());
        assert(s.body[i] == s.body[s.body.len() - 1]);
    }
}

/// A snake on the grid. Its body is never empty.
pub struct Snake {
    direction: Direction,
    body: Vec<(i32, i32)>,
    tail: Option<(i32, i32)>,
}

impl View for Snake {
    type V = SnakeModel;

    closed spec fn view(&self) -> SnakeModel {
        SnakeModel { body: self.body@, heading: self.direction, last_removed: self.tail }
    }
}

impl Snake {
    /// A snake of three cells, head at `(x + 2, y)` and tail at `(x, y)`,
    /// heading Right.
    pub fn new(x: i32, y: i32) -> (r: Snake)
        requires
            x + 2 <= i32::MAX,
        ensures
            r@ == SnakeModel::initial(x, y),
            r@.wf(),
    {
        let mut body: Vec<(i32, i32)> = Vec::new();
        body.push((x + 2, y));
        body.push((x + 1, y));
        body.push((x, y));
        let r = Snake { direction: Direction::Right, body, tail: None };
        assert(r@.body =~= SnakeModel::initial(x, y).body);
        r
    }

    /// The cells to paint for the snake, head first.
    pub fn draw(&self) -> (r: Vec<(i32, i32)>)
        ensures
            r@ == self@.body,
    {
        let mut r: Vec<(i32, i32)> = Vec::new();
        let mut i: usize = 0;
        while i < self.body.len()
            invariant
                i <= self.body.len(),
                r@ == self.body@.take(i as int),
            decreases self.body.len() - i,
        {
            r.push(self.body[i]);
            i += 1;
            assert(r@ =~= self.body@.take(i as int));
        }
        assert(self.body@.take(i as int) =~= self.body@);
        r
    }

    /// The cell of the head.
    pub fn head_position(&self) -> (r: (i32, i32))
        requires
            self@.wf(),
        ensures
            r == self@.head(),
    {
        self.body[0]
    }

    /// Moves the snake one cell: takes `dir` as its heading when given, puts
    /// the next cell in front, and drops and remembers the last cell.
    pub fn move_forward(&mut self, dir: Option<Direction>)
        requires
            old(self)@.wf(),
            fits(old(self)@.next_cell(dir)),
        ensures
            final(self)@ == old(self)@.moved(dir),
            final(self)@.wf(),
            final(self)@.body.len() == old(self)@.body.len(),
    {
        let (nx, ny) = self.next_head(dir);
        match dir {
            Some(d) => self.direction = d,
            None => (),
        }
        self.body.insert(0, (nx, ny));
        let removed = self.body.pop();
        self.tail = removed;
        assert(self@.body =~= old(self)@.moved(dir).body);
    }

    /// The current heading.
    pub fn head_direction(&self) -> (r: Direction)
        ensures
            r == self@.heading,
    {
        self.direction
    }

    /// The cell the head would move to in heading `dir`, or in the current
    /// heading when `dir` is `None`.
    pub fn next_head(&self, dir: Option<Direction>) -> (r: (i32, i32))
        requires
            self@.wf(),
            fits(self@.next_cell(dir)),
        ensures
            pos(r) == self@.next_cell(dir),
    {
        let (head_x, head_y) = self.head_position();
        let moving_dir = match dir {
            Some(d) => d,
            None => self.direction,
        };
        match moving_dir {
            Direction::Up => (head_x, head_y - 1),
            Direction::Down => (head_x, head_y + 1),
            Direction::Left => (head_x - 1, head_y),
            Direction::Right => (head_x + 1, head_y),
        }
    }

    /// Grows the snake by putting the cell vacated by the last move back at
    /// its end.
    pub fn restore_tail(&mut self)
        requires
            old(self)@.last_removed is Some,
        ensures
            final(self)@ == old(self)@.grown(),
            final(self)@.wf(),
    {
        let block = self.tail.unwrap();
        self.body.push(block);
    }

    /// Whether `(x, y)` is a cell of the body other than the last one, which
    /// the next move vacates.
    pub fn overlap_tail(&self, x: i32, y: i32) -> (r: bool)
        ensures
            r == self@.overlaps((x as int, y as int)),
    {
        let n = self.body.len();
        if n == 0 {
            return false;
        }
        let mut i: usize = 0;
        while i < n - 1
            invariant
                n == self.body.len(),
                n >= 1,
                i <= n - 1,
                forall|j: int| 0 <= j < i ==> pos(#[trigger] self.body@[j]) != (x as int, y as int),
            decreases n - 1 - i,
        {
            let (bx, by) = self.body[i];
            if bx == x && by == y {
                assert(pos(self@.body[i as int]) == (x as int, y as int));
                return true;
            }
            i += 1;
        }
        false
    }
}

} // verus!
