use rand::Rng;
use vstd::prelude::*;

use crate::snake::{cell, opposite_of, pos, Direction, Snake, SnakeModel};

verus! {

/// Time between two automatic moves, in microseconds.
pub const MOVING_PERIOD: u64 = 100_000;

/// Time spent over before the game starts again, in microseconds.
pub const RESTART_TIME: u64 = 1_000_000;

/// Random cells tried when placing food before giving up.
pub const FOOD_ATTEMPTS: u64 = 1000;

/// Column of a new snake's tail cell.
pub const START_X: i32 = 2;

/// Row of a new snake.
pub const START_Y: i32 = 2;

/// Column of the food of a new game.
pub const FOOD_X: i32 = 6;

/// Row of the food of a new game.
pub const FOOD_Y: i32 = 4;

/// A key press as the game sees it.
#[derive(Clone, Copy, Debug, PartialEq, Eq, Structural)]
pub enum Key {
    Up,
    Down,
    Left,
    Right,
    Other,
}

/// The heading a key asks for; other keys ask for none.
pub open spec fn key_direction(k: Key) -> Option<Direction> {
    match k {
        Key::Up => Some(Direction::Up),
        Key::Down => Some(Direction::Down),
        Key::Left => Some(Direction::Left),
        Key::Right => Some(Direction::Right),
        Key::Other => None,
    }
}

/// Why a tick could not be carried out.
#[derive(Clone, Copy, Debug, PartialEq, Eq, Structural)]
pub enum GameError {
    /// No free interior cell was found for the food.
    NoRoomForFood,
}

/// An axis-aligned block of cells.
#[derive(Clone, Copy, Debug, PartialEq, Eq, Structural)]
pub struct Rect {
    pub x: i32,
    pub y: i32,
    pub width: i32,
    pub height: i32,
}

/// What a renderer paints: the snake's cells, the food, the four borders,
/// and whether the game-over overlay is shown.
pub struct Scene {
    pub snake: Vec<(i32, i32)>,
    pub food: Option<(i32, i32)>,
    pub borders: Vec<Rect>,
    pub game_over: bool,
}

/// `a + b`, held at `u64::MAX`.
pub open spec fn saturating_sum(a: u64, b: u64) -> u64 {
    if a + b > u64::MAX {
        u64::MAX
    } else {
        (a + b) as u64
    }
}

/// What a game is, as plain values.
pub struct GameModel {
    pub snake: SnakeModel,
    pub food: Option<(i32, i32)>,
    pub width: i32,
    pub height: i32,
    pub game_over: bool,
    pub waiting: u64,
}

impl GameModel {
    /// A fresh game on a `width` by `height` grid.
    pub open spec fn initial(width: i32, height: i32) -> GameModel {
        GameModel {
            snake: SnakeModel::initial(START_X, START_Y),
            food: Some((FOOD_X, FOOD_Y)),
            width,
            height,
            game_over: false,
            waiting: 0,
        }
    }

    /// The snake is not empty and its head can take a step in any heading.
    pub open spec fn wf(self) -> bool {
        &&& self.snake.wf()
        &&& i32::MIN < self.snake.head().0 < i32::MAX
        &&& i32::MIN < self.snake.head().1 < i32::MAX
        &&& self.width >= 2
        &&& self.height >= 2
    }

    /// Whether `c` lies inside the border.
    pub open spec fn inside(self, c: (int, int)) -> bool {
        1 <= c.0 <= self.width - 2 && 1 <= c.1 <= self.height - 2
    }

    /// Whether the snake survives a move in heading `dir`.
    pub open spec fn alive_after(self, dir: Option<Direction>) -> bool {
        let next = self.snake.next_cell(dir);
        !self.snake.overlaps(next) && self.inside(next)
    }

    /// The game after the snake eats the food if its head is on it.
    pub open spec fn eaten(self) -> GameModel {
        if self.food == Some(self.snake.head()) {
            GameModel { snake: self.snake.grown(), food: None, ..self }
        } else {
            self
        }
    }

    /// The game after one move attempt in heading `dir`: the snake moves
    /// and may eat, or the game is over. Either way the timer restarts.
    pub open spec fn stepped(self, dir: Option<Direction>) -> GameModel {
        if self.alive_after(dir) {
            let moved = GameModel { snake: self.snake.moved(dir), ..self }.eaten();
            GameModel { waiting: 0, ..moved }
        } else {
            GameModel { game_over: true, waiting: 0, ..self }
        }
    }

    /// The game after key `k`: ignored while over, for other keys, and for
    /// the reverse of the current heading; else a move in its heading.
    pub open spec fn after_key(self, k: Key) -> GameModel {
        match key_direction(k) {
            None => self,
            Some(d) => if self.game_over || d == opposite_of(self.snake.heading) {
                self
            } else {
                self.stepped(Some(d))
            },
        }
    }

    /// The game with `delta` more time waited.
    pub open spec fn waited(self, delta: u64) -> GameModel {
        GameModel { waiting: saturating_sum(self.waiting, delta), ..self }
    }

    /// A game that is over starts again once it has waited long enough.
    pub open spec fn restart_due(self) -> GameModel {
        if self.waiting > RESTART_TIME {
            GameModel::initial(self.width, self.height)
        } else {
            self
        }
    }

    /// A running game moves once it has waited a moving period.
    pub open spec fn move_due(self) -> GameModel {
        if self.waiting > MOVING_PERIOD {
            self.stepped(None)
        } else {
            self
        }
    }

    /// Whether food may be put at `c`: inside the border, and not on the
    /// snake but for its last cell.
    pub open spec fn food_spot_ok(self, c: (i32, i32)) -> bool {
        self.inside(pos(c)) && !self.snake.overlaps(pos(c))
    }

    pub open spec fn with_food(self, c: (i32, i32)) -> GameModel {
        GameModel { food: Some(c), ..self }
    }

    /// The four border blocks: top, bottom, left and right.
    pub open spec fn borders(self) -> Seq<Rect> {
        seq![
            Rect { x: 0, y: 0, width: self.width, height: 1 },
            Rect { x: 0, y: (self.height - 1) as i32, width: self.width, height: 1 },
            Rect { x: 0, y: 0, width: 1, height: self.height },
            Rect { x: (self.width - 1) as i32, y: 0, width: 1, height: self.height },
        ]
    }
}

/// A move whose next head is on or beyond the border ends the game, as
/// does one onto the body but for its last cell; a move that ends the game
/// leaves the snake where it was.
pub proof fn lemma_collision_ends_game(g: GameModel, dir: Option<Direction>)
    requires
        g.wf(),
    ensures
        !g.inside(g.snake.next_cell(dir)) ==> g.stepped(dir).game_over,
        g.snake.overlaps(g.snake.next_cell(dir)) ==> g.stepped(dir).game_over,
        !g.game_over ==> (g.stepped(dir).game_over <==> !g.alive_after(dir)),
        !g.alive_after(dir) ==> g.stepped(dir).snake == g.snake,
        g.stepped(dir).waiting == 0,
{
}

/// A move onto the food makes the snake one cell longer and leaves no food.
pub proof fn lemma_eating_grows(g: GameModel, dir: Option<Direction>)
    requires
        g.wf(),
        g.alive_after(dir),
        g.food == Some(cell(g.snake.next_cell(dir))),
    ensures
        g.stepped(dir).snake.body.len() == g.snake.body.len() + 1,
        g.stepped(dir).food is None,
        g.stepped(dir).snake.head() == cell(g.snake.next_cell(dir)),
        g.stepped(dir).game_over == g.game_over,
        g.stepped(dir).waiting == 0,
{
}

/// A game that is over stays over while the time waited is at most
/// `RESTART_TIME`, and is a fresh game on the same grid once it is more.
pub proof fn lemma_restart_timing(g: GameModel, delta: u64)
    requires
        g.wf(),
        g.game_over,
    ensures
        g.waited(delta).waiting <= RESTART_TIME ==> g.waited(delta).restart_due() == g.waited(delta)
            && g.waited(delta).restart_due().game_over,
        g.waited(delta).waiting > RESTART_TIME ==> g.waited(delta).restart_due()
            == GameModel::initial(g.width, g.height),
{
}

/// Every transition keeps a well-formed game well-formed.
pub proof fn lemma_steps_keep_wf(g: GameModel, dir: Option<Direction>, k: Key, delta: u64)
    requires
        g.wf(),
    ensures
        g.stepped(dir).wf(),
        g.after_key(k).wf(),
        g.waited(delta).restart_due().wf(),
        g.waited(delta).move_due().wf(),
{
}

/// Relies on rand's `thread_rng().gen_range(lo, hi)`: a value drawn from
/// `lo..hi`; it panics when that range is empty.
#[verifier::external_body]
fn random_in(lo: i32, hi: i32) -> (r: i32)
    requires
        lo < hi,
    ensures
        lo <= r < hi,
{
    rand::thread_rng().gen_range(lo, hi)
}

/// A game: one snake, at most one food, a grid with a border, and a timer.
pub struct Game {
    snake: Snake,
    food: Option<(i32, i32)>,
    width: i32,
    height: i32,
    game_over: bool,
    waiting_time: u64,
}

impl View for Game {
    type V = GameModel;

    closed spec fn view(&self) -> GameModel {
        GameModel {
            snake: self.snake@,
            food: self.food,
            width: self.width,
            height: self.height,
            game_over: self.game_over,
            waiting: self.waiting_time,
        }
    }
}

impl Game {
    /// A fresh game on a `width` by `height` grid.
    pub fn new(width: i32, height: i32) -> (r: Game)
        requires
            width >= 2,
            height >= 2,
        ensures
            r@ == GameModel::initial(width, height),
            r@.wf(),
    {
        Game {
            snake: Snake::new(START_X, START_Y),
            food: Some((FOOD_X, FOOD_Y)),
            width,
            height,
            game_over: false,
            waiting_time: 0,
        }
    }

    /// The snake.
    pub fn snake(&self) -> (r: &Snake)
        ensures
            r@ == self@.snake,
    {
        &self.snake
    }

    /// The food cell, if there is food.
    pub fn food(&self) -> (r: Option<(i32, i32)>)
        ensures
            r == self@.food,
    {
        self.food
    }

    /// Whether the game is over.
    pub fn is_game_over(&self) -> (r: bool)
        ensures
            r == self@.game_over,
    {
        self.game_over
    }

    /// The grid's width and height.
    pub fn size(&self) -> (r: (i32, i32))
        ensures
            r == (self@.width, self@.height),
    {
        (self.width, self.height)
    }

    /// Handles a key press: an arrow key other than the reverse of the
    /// current heading moves the snake at once in its heading.
    pub fn key_pressed(&mut self, key: Key)
        requires
            old(self)@.wf(),
        ensures
            final(self)@ == old(self)@.after_key(key),
            final(self)@.wf(),
    {
        if self.game_over {
            return;
        }
        let dir = match key {
            Key::Up => Some(Direction::Up),
            Key::Down => Some(Direction::Down),
            Key::Left => Some(Direction::Left),
            Key::Right => Some(Direction::Right),
            Key::Other => None,
        };
        match dir {
            None => {},
            Some(d) => {
                if d == self.snake.head_direction().opposite() {
                    return;
                }
                self.update_snake(dir);
            },
        }
    }

    /// What to paint for the current state.
    pub fn draw(&self) -> (r: Scene)
        requires
            self@.wf(),
        ensures
            r.snake@ == self@.snake.body,
            r.food == self@.food,
            r.borders@ == self@.borders(),
            r.game_over == self@.game_over,
    {
        let mut borders: Vec<Rect> = Vec::new();
        borders.push(Rect { x: 0, y: 0, width: self.width, height: 1 });
        borders.push(Rect { x: 0, y: self.height - 1, width: self.width, height: 1 });
        borders.push(Rect { x: 0, y: 0, width: 1, height: self.height });
        borders.push(Rect { x: self.width - 1, y: 0, width: 1, height: self.height });
        assert(borders@ =~= self@.borders());
        Scene { snake: self.snake.draw(), food: self.food, borders, game_over: self.game_over }
    }

    /// Lets `delta_micros` microseconds pass. A game that is over starts
    /// again once more than `RESTART_TIME` has passed since it ended. A
    /// running game first places food if it has none, then moves once more
    /// than `MOVING_PERIOD` has passed since the last move.
    pub fn update(&mut self, delta_micros: u64) -> (r: Result<(), GameError>)
        requires
            old(self)@.wf(),
        ensures
            final(self)@.wf(),
            old(self)@.game_over ==> r is Ok && final(self)@ == old(self)@.waited(
                delta_micros,
            ).restart_due(),
            !old(self)@.game_over && old(self)@.food is Some ==> r is Ok && final(self)@ == old(
                self,
            )@.waited(delta_micros).move_due(),
            !old(self)@.game_over && old(self)@.food is None && r is Ok ==> exists|c: (i32, i32)|
                #[trigger] old(self)@.food_spot_ok(c) && final(self)@ == old(self)@.waited(
                    delta_micros,
                ).with_food(c).move_due(),
            r is Err ==> r == Err::<(), GameError>(GameError::NoRoomForFood) && !old(self)@.game_over
                && old(self)@.food is None && final(self)@ == old(self)@.waited(delta_micros),
            !old(self)@.game_over && old(self)@.food is None && !(exists|c: (i32, i32)|
                #[trigger] old(self)@.food_spot_ok(c)) ==> r is Err,
    {
        self.waiting_time = if self.waiting_time > u64::MAX - delta_micros {
            u64::MAX
        } else {
            self.waiting_time + delta_micros
        };
        if self.game_over {
            if self.waiting_time > RESTART_TIME {
                self.restart();
            }
            return Ok(());
        }
        if self.food.is_none() {
            match self.add_food().0 {
                Some(c) => {
                    assert(old(self)@.food_spot_ok(c));
                },
                None => {
                    return Err(GameError::NoRoomForFood);
                },
            }
        }
        if self.waiting_time > MOVING_PERIOD {
            self.update_snake(None);
        }
        Ok(())
    }

    /// Eats the food if the head lies on it: the food goes and the snake
    /// grows by one cell.
    fn check_eating(&mut self)
        requires
            old(self)@.wf(),
            old(self)@.snake.last_removed is Some,
        ensures
            final(self)@ == old(self)@.eaten(),
    {
        let (head_x, head_y) = self.snake.head_position();
        match self.food {
            Some((fx, fy)) => {
                if fx == head_x && fy == head_y {
                    self.food = None;
                    self.snake.restore_tail();
                }
            },
            None => {},
        }
    }

    /// Whether the snake survives a move in heading `dir`.
    fn check_if_snake_alive(&self, dir: Option<Direction>) -> (r: bool)
        requires
            self@.wf(),
        ensures
            r == self@.alive_after(dir),
    {
        let (next_x, next_y) = self.snake.next_head(dir);
        if self.snake.overlap_tail(next_x, next_y) {
            return false;
        }
        self.is_inside(next_x, next_y)
    }

    /// Whether `(x, y)` lies inside the border.
    fn is_inside(&self, x: i32, y: i32) -> (r: bool)
        ensures
            r == self@.inside((x as int, y as int)),
    {
        x > 0 && y > 0 && (x as i64) < (self.width as i64) - 1 && (y as i64) < (self.height as i64)
            - 1
    }

    /// Puts the food at `(x, y)` if that cell is inside the border and off
    /// the snake but for its last cell; reports whether it did.
    pub fn place_food(&mut self, x: i32, y: i32) -> (r: bool)
        requires
            old(self)@.wf(),
        ensures
            r == old(self)@.food_spot_ok((x, y)),
            r ==> final(self)@ == old(self)@.with_food((x, y)),
            !r ==> final(self)@ == old(self)@,
            final(self)@.wf(),
    {
        if self.is_inside(x, y) && !self.snake.overlap_tail(x, y) {
            self.food = Some((x, y));
            true
        } else {
            false
        }
    }

    /// Places the food on a random free interior cell, trying at most
    /// `FOOD_ATTEMPTS` cells; returns the cell, or `None` if all were taken,
    /// together with the cells drawn, in order.
    fn add_food(&mut self) -> (r: (Option<(i32, i32)>, Ghost<Seq<(i32, i32)>>))
        requires
            old(self)@.wf(),
        ensures
            final(self)@.wf(),
            r.1@.len() <= FOOD_ATTEMPTS,
            forall|i: int| 0 <= i < r.1@.len() ==> old(self)@.inside(pos(#[trigger] r.1@[i])),
            forall|i: int|
                0 <= i < r.1@.len() - 1 ==> !old(self)@.food_spot_ok(#[trigger] r.1@[i]),
            match r.0 {
                Some(c) => {
                    &&& r.1@.len() >= 1
                    &&& c == r.1@.last()
                    &&& old(self)@.food_spot_ok(c)
                    &&& final(self)@ == old(self)@.with_food(c)
                },
                None => {
                    &&& final(self)@ == old(self)@
                    &&& forall|i: int|
                        0 <= i < r.1@.len() ==> !old(self)@.food_spot_ok(#[trigger] r.1@[i])
                    &&& old(self)@.width >= 3 && old(self)@.height >= 3 ==> r.1@.len()
                        == FOOD_ATTEMPTS
                    &&& old(self)@.width < 3 || old(self)@.height < 3 ==> r.1@.len() == 0
                },
            },
    {
        let ghost mut draws: Seq<(i32, i32)> = Seq::empty();
        if self.width < 3 || self.height < 3 {
            return (None, Ghost(draws));
        }
        let mut attempts: u64 = 0;
        while attempts < FOOD_ATTEMPTS
            invariant
                self@ == old(self)@,
                self@.wf(),
                self.width >= 3,
                self.height >= 3,
                attempts <= FOOD_ATTEMPTS,
                draws.len() == attempts,
                forall|i: int| 0 <= i < draws.len() ==> old(self)@.inside(pos(#[trigger] draws[i])),
                forall|i: int| 0 <= i < draws.len() ==> !old(self)@.food_spot_ok(#[trigger] draws[i]),
            decreases FOOD_ATTEMPTS - attempts,
        {
            let x = random_in(1, self.width - 1);
            let y = random_in(1, self.height - 1);
            proof {
                draws = draws.push((x, y));
            }
            if self.place_food(x, y) {
                return (Some((x, y)), Ghost(draws));
            }
            attempts += 1;
        }
        (None, Ghost(draws))
    }

    /// One move attempt in heading `dir`, then the timer restarts.
    pub fn update_snake(&mut self, dir: Option<Direction>)
        requires
            old(self)@.wf(),
        ensures
            final(self)@ == old(self)@.stepped(dir),
            final(self)@.wf(),
    {
        if self.check_if_snake_alive(dir) {
            self.snake.move_forward(dir);
            self.check_eating();
        } else {
            self.game_over = true;
        }
        self.waiting_time = 0;
    }

    /// Starts a fresh game on the same grid.
    fn restart(&mut self)
        requires
            old(self)@.wf(),
        ensures
            final(self)@ == GameModel::initial(old(self)@.width, old(self)@.height),
            final(self)@.wf(),
    {
        self.snake = Snake::new(START_X, START_Y);
        self.waiting_time = 0;
        self.food = Some((FOOD_X, FOOD_Y));
        self.game_over = false;
    }
}

} // verus!
