//! The game state and the decisions of one step: pacing, turning, collision
//! checks, movement, eating, scoring and difficulty.
use vstd::prelude::*;
use nanorand::{Rng, WyRand};
use crate::board::{in_board, lemma_distinct_cells_fit};
use crate::geometry::{lemma_step_moves, Command, Direction, Point};
use crate::snake::{advanced_body, straight_body, Snake};

verus! {

/// Slowest step, in milliseconds, at speed level zero.
pub const MAX_INTERVAL: u16 = 700;
/// Fastest step, in milliseconds, at the top speed level.
pub const MIN_INTERVAL: u16 = 200;
/// The top speed level.
pub const MAX_SPEED: u16 = 20;
/// Length of the snake when a game starts.
pub const INITIAL_LENGTH: u16 = 3;
/// Random draws for a food cell before the free cells are searched in order.
pub const FOOD_DRAWS: u16 = 64;

/// The step interval, in milliseconds, at a speed level.
pub open spec fn interval_ms(speed: int) -> int {
    MIN_INTERVAL + ((MAX_INTERVAL - MIN_INTERVAL) / MAX_SPEED as int) * (MAX_SPEED - speed)
}

/// How many points of score raise the speed by one level.
pub open spec fn points_per_level(width: int, height: int) -> int {
    (width * height) / (MAX_SPEED as int)
}

/// Whether the head stands on the board's edge in the direction of travel.
pub open spec fn wall_ahead(head: Point, direction: Direction, width: int, height: int) -> bool {
    match direction {
        Direction::Up => head.y == 0,
        Direction::Right => head.x == width - 1,
        Direction::Down => head.y == height - 1,
        Direction::Left => head.x == 0,
    }
}

/// Whether `next` is a cell of the body that stays in place during the move:
/// any cell but the head, and but the tail unless the snake is digesting.
pub open spec fn bites(cells: Seq<Point>, next: Point, digesting: bool) -> bool {
    exists|i: int|
        1 <= i < (if digesting { cells.len() as int } else { cells.len() - 1 })
            && #[trigger] cells[i] == next
}

/// The rule for turning: a turn is taken unless it keeps or reverses the
/// heading that the step started with.
pub open spec fn turn_accepted(step_direction: Direction, towards: Direction) -> bool {
    towards != step_direction && towards != step_direction.opposite_spec()
}

/// The speed level after the score has reached `score`.
pub open spec fn next_speed(speed: int, score: int, width: int, height: int) -> int {
    if score % points_per_level(width, height) == 0 && speed < MAX_SPEED {
        speed + 1
    } else {
        speed
    }
}

/// Every cell of the body is on the board and no two coincide.
pub open spec fn body_fits(cells: Seq<Point>, width: int, height: int) -> bool {
    &&& cells.no_duplicates()
    &&& forall|i: int| 0 <= i < cells.len() ==> in_board(#[trigger] cells[i], width, height)
}

/// `p` is a board cell that the snake leaves free.
pub open spec fn free_cell(p: Point, cells: Seq<Point>, width: int, height: int) -> bool {
    in_board(p, width, height) && !cells.contains(p)
}

/// The step interval, in milliseconds, at a speed level.
pub fn interval_for_speed(speed: u16) -> (r: u64)
    requires
        speed <= MAX_SPEED,
    ensures
        r == interval_ms(speed as int),
{
    let steps = MAX_SPEED - speed;
    let per_level: u16 = (MAX_INTERVAL - MIN_INTERVAL) / MAX_SPEED;
    assert(per_level == 25);
    (MIN_INTERVAL + per_level * steps) as u64
}

/// The speed level once the score has reached `score`: one level up at
/// each multiple of the board area over the top speed, up to the top speed.
pub fn speed_after(speed: u16, score: u16, width: u16, height: u16) -> (r: u16)
    requires
        speed <= MAX_SPEED,
        width * height >= MAX_SPEED,
    ensures
        r == next_speed(speed as int, score as int, width as int, height as int),
        r <= MAX_SPEED,
{
    proof {
        let (w, h) = (width as int, height as int);
        assert(w * h <= 0xffff * 0xffff) by (nonlinear_arith)
            requires
                0 <= w <= 0xffff,
                0 <= h <= 0xffff,
        ;
    }
    let area: u32 = width as u32 * height as u32;
    let per_level: u32 = area / (MAX_SPEED as u32);
    assert(area >= 20);
    assert(per_level >= 1);
    if (score as u32) % per_level == 0 && speed < MAX_SPEED {
        speed + 1
    } else {
        speed
    }
}

/// The step interval shortens as the speed level rises.
pub proof fn lemma_interval_decreasing(slower: int, faster: int)
    requires
        0 <= slower < faster <= MAX_SPEED,
    ensures
        interval_ms(slower) > interval_ms(faster),
        interval_ms(0) == MAX_INTERVAL,
        interval_ms(MAX_SPEED as int) == MIN_INTERVAL,
{
    assert((MAX_INTERVAL - MIN_INTERVAL) / MAX_SPEED as int == 25);
}

/// A wall is ahead exactly when the head stands on the board and one step
/// in the heading would leave it: a head on the right edge moving right
/// hits the wall, and a head off every edge hits none, whatever the heading.
pub proof fn lemma_wall_ahead_at_edges(head: Point, direction: Direction, width: int, height: int)
    requires
        in_board(head, width, height),
        width <= u16::MAX,
        height <= u16::MAX,
    ensures
        wall_ahead(head, direction, width, height) <==> !(head.can_transform(direction, 1)
            && in_board(head.moved(direction, 1), width, height)),
        head.x == width - 1 ==> wall_ahead(head, Direction::Right, width, height),
        0 < head.x < width - 1 && 0 < head.y < height - 1 ==> !wall_ahead(head, direction, width, height),
{
}

/// On a straight snake of at least four cells, a move that reverses the
/// heading lands on a cell that stays in place, while a move ahead into the
/// cell in front bites nothing.
pub proof fn lemma_straight_snake_bites(start: Point, direction: Direction, length: nat, digesting: bool)
    requires
        length >= 4,
        start.can_transform(direction.opposite_spec(), length - 1),
    ensures
        bites(straight_body(start, direction, length), start.moved(direction.opposite_spec(), 1), digesting),
        start.can_transform(direction, 1) ==> !bites(
            straight_body(start, direction, length),
            start.moved(direction, 1),
            digesting,
        ),
{
    let cells = straight_body(start, direction, length);
    assert(cells[1] == start.moved(direction.opposite_spec(), 1));
    if start.can_transform(direction, 1) {
        let next = start.moved(direction, 1);
        assert forall|i: int| 1 <= i < cells.len() implies #[trigger] cells[i] != next by {
            assert(cells[i] == start.moved(direction.opposite_spec(), i));
        }
    }
}

/// A turn that keeps or reverses the step's heading is never taken.
pub proof fn lemma_reversal_refused(step_direction: Direction)
    ensures
        !turn_accepted(step_direction, step_direction.opposite_spec()),
        !turn_accepted(step_direction, step_direction),
{
}

/// What became of a game step.
#[derive(Debug, Clone, Copy, PartialEq, Eq, Structural)]
pub enum StepOutcome {
    /// The snake moved one cell.
    Moved,
    /// The snake moved onto the food and ate it.
    Ate,
    /// The move would hit a wall or the body: the game is over.
    Collided,
}

/// Relies on nanorand's `WyRand::new`, seeded from the system's entropy,
/// and `Rng::generate_range` over `0..bound`, which returns a number of that
/// range: at least zero and below `bound`.
#[verifier::external_body]
fn random_below(bound: u16) -> (r: u16)
    requires
        bound > 0,
    ensures
        r < bound,
{
    WyRand::new().generate_range(0..bound)
}

#[derive(Debug)]
pub struct Game {
    width: u16,
    height: u16,
    food: Option<Point>,
    snake: Snake,
    speed: u16,
    score: u16,
}

impl Game {
    pub closed spec fn width_spec(&self) -> int {
        self.width as int
    }

    pub closed spec fn height_spec(&self) -> int {
        self.height as int
    }

    pub closed spec fn food_spec(&self) -> Option<Point> {
        self.food
    }

    pub closed spec fn snake_spec(&self) -> Snake {
        self.snake
    }

    pub closed spec fn speed_spec(&self) -> int {
        self.speed as int
    }

    pub closed spec fn score_spec(&self) -> int {
        self.score as int
    }

    pub open spec fn cells(&self) -> Seq<Point> {
        self.snake_spec().cells()
    }

    pub open spec fn heading(&self) -> Direction {
        self.snake_spec().heading()
    }

    pub open spec fn digesting(&self) -> bool {
        self.snake_spec().is_digesting()
    }

    /// The board dimensions the game accepts: room for the starting snake
    /// in the middle, and a board area that fits the 16-bit arithmetic.
    pub open spec fn valid_board(width: int, height: int) -> bool {
        &&& width >= 5
        &&& height >= 5
        &&& width * height <= u16::MAX
    }

    /// The invariant of a game: the body lies on the board without overlap,
    /// the food is on a free cell, the speed stays in range, and the score
    /// counts the segments grown since the start.
    pub open spec fn wf(&self) -> bool {
        &&& self.wf_body()
        &&& self.food_ok()
    }

    /// The invariant but for the food.
    pub open spec fn wf_body(&self) -> bool {
        &&& Self::valid_board(self.width_spec(), self.height_spec())
        &&& self.snake_spec().wf()
        &&& body_fits(self.cells(), self.width_spec(), self.height_spec())
        &&& 0 <= self.speed_spec() <= MAX_SPEED
        &&& self.cells().len() + (if self.digesting() { 1int } else { 0int })
            == INITIAL_LENGTH + self.score_spec()
    }

    /// The food, if any, lies on a free cell.
    pub open spec fn food_ok(&self) -> bool {
        self.food_spec() matches Some(p) ==> free_cell(p, self.cells(), self.width_spec(), self.height_spec())
    }

    /// Every cell of the board is taken by the snake.
    pub open spec fn board_full(&self) -> bool {
        forall|p: Point| in_board(p, self.width_spec(), self.height_spec()) ==> #[trigger] self.cells().contains(p)
    }

    /// Everything a game holds, in one value.
    pub open spec fn state(&self) -> (int, int, Option<Point>, Seq<Point>, Direction, bool, int, int) {
        (
            self.width_spec(),
            self.height_spec(),
            self.food_spec(),
            self.cells(),
            self.heading(),
            self.digesting(),
            self.speed_spec(),
            self.score_spec(),
        )
    }

    /// A game on a `width` by `height` board, with the snake of three cells
    /// centred and lying straight behind its head with respect to `direction`.
    pub fn with_direction(width: u16, height: u16, direction: Direction) -> (r: Game)
        requires
            Self::valid_board(width as int, height as int),
        ensures
            r.wf(),
            r.width_spec() == width,
            r.height_spec() == height,
            r.cells() == straight_body(Point { x: width / 2, y: height / 2 }, direction, 3),
            r.heading() == direction,
            !r.digesting(),
            r.food_spec() is None,
            r.speed_spec() == 0,
            r.score_spec() == 0,
    {
        let start = Point::new(width / 2, height / 2);
        let snake = Snake::new(start, INITIAL_LENGTH, direction);
        let ghost cells = snake.cells();
        assert forall|i: int| 0 <= i < cells.len() implies in_board(#[trigger] cells[i], width as int, height as int) by {
            assert(cells[i] == start.moved(direction.opposite_spec(), i));
        }
        assert forall|i: int, j: int| 0 <= i < cells.len() && 0 <= j < cells.len() && i != j
            implies cells[i] != cells[j] by {
            assert(cells[i] == start.moved(direction.opposite_spec(), i));
            assert(cells[j] == start.moved(direction.opposite_spec(), j));
        }
        Game { width, height, food: None, snake, speed: 0, score: 0 }
    }

    /// A new game with a heading drawn at random.
    pub fn new(width: u16, height: u16) -> (r: Game)
        requires
            Self::valid_board(width as int, height as int),
        ensures
            r.wf(),
            r.width_spec() == width,
            r.height_spec() == height,
            r.cells() == straight_body(Point { x: width / 2, y: height / 2 }, r.heading(), 3),
            !r.digesting(),
            r.food_spec() is None,
            r.speed_spec() == 0,
            r.score_spec() == 0,
    {
        let direction = match random_below(4) {
            0 => Direction::Up,
            1 => Direction::Right,
            2 => Direction::Down,
            _ => Direction::Left,
        };
        Self::with_direction(width, height, direction)
    }

    pub fn width(&self) -> (r: u16)
        ensures
            r == self.width_spec(),
    {
        self.width
    }

    pub fn height(&self) -> (r: u16)
        ensures
            r == self.height_spec(),
    {
        self.height
    }

    pub fn food(&self) -> (r: Option<Point>)
        ensures
            r == self.food_spec(),
    {
        self.food
    }

    pub fn snake(&self) -> (r: &Snake)
        ensures
            *r == self.snake_spec(),
    {
        &self.snake
    }

    pub fn speed(&self) -> (r: u16)
        ensures
            r == self.speed_spec(),
    {
        self.speed
    }

    pub fn score(&self) -> (r: u16)
        ensures
            r == self.score_spec(),
    {
        self.score
    }

    /// The time budget of one step at the current speed, in milliseconds.
    pub fn calculate_interval(&self) -> (r: u64)
        requires
            self.wf(),
        ensures
            r == interval_ms(self.speed_spec()),
    {
        interval_for_speed(self.speed)
    }

    /// Whether the move in the current heading would leave the board.
    pub fn has_collided_with_wall(&self) -> (r: bool)
        requires
            self.wf(),
        ensures
            r == wall_ahead(self.cells()[0], self.heading(), self.width_spec(), self.height_spec()),
    {
        let head_point = self.snake.get_head_point();
        match self.snake.get_direction() {
            Direction::Up => head_point.y == 0,
            Direction::Right => head_point.x == self.width - 1,
            Direction::Down => head_point.y == self.height - 1,
            Direction::Left => head_point.x == 0,
        }
    }

    /// Whether the move in the current heading would land on a cell of the
    /// body that stays in place.
    pub fn has_bitten_itself(&self) -> (r: bool)
        requires
            self.wf(),
            !wall_ahead(self.cells()[0], self.heading(), self.width_spec(), self.height_spec()),
        ensures
            r == bites(self.cells(), self.cells()[0].moved(self.heading(), 1), self.digesting()),
    {
        let next_head_point = self.snake.get_head_point().transform(self.snake.get_direction(), 1);
        let body = self.snake.get_body_points();
        let end: usize = if self.snake.is_growing() {
            body.len()
        } else {
            body.len() - 1
        };
        let mut i: usize = 1;
        while i < end
            invariant
                1 <= i,
                end <= body@.len(),
                end == (if self.digesting() { body@.len() as int } else { body@.len() - 1 }),
                body@ == self.cells(),
                next_head_point == self.cells()[0].moved(self.heading(), 1),
                forall|j: int| 1 <= j < i ==> body@[j] != next_head_point,
            decreases end - i,
        {
            if body[i] == next_head_point {
                assert(self.cells()[i as int] == next_head_point);
                return true;
            }
            i = i + 1;
        }
        false
    }

    /// Applies one command received while polling during a step that
    /// started with heading `step_direction`. Returns whether the command
    /// ends the game. A turn is taken at once, for the coming move, unless
    /// it keeps or reverses `step_direction`.
    pub fn handle_command(&mut self, step_direction: Direction, command: Command) -> (quit: bool)
        requires
            old(self).wf(),
        ensures
            final(self).wf(),
            quit == (command is Quit),
            final(self).heading() == (match command {
                Command::Turn(towards) => if turn_accepted(step_direction, towards) {
                    towards
                } else {
                    old(self).heading()
                },
                Command::Quit => old(self).heading(),
            }),
            final(self).width_spec() == old(self).width_spec(),
            final(self).height_spec() == old(self).height_spec(),
            final(self).food_spec() == old(self).food_spec(),
            final(self).cells() == old(self).cells(),
            final(self).digesting() == old(self).digesting(),
            final(self).speed_spec() == old(self).speed_spec(),
            final(self).score_spec() == old(self).score_spec(),
    {
        match command {
            Command::Quit => true,
            Command::Turn(towards) => {
                if step_direction != towards && step_direction.opposite() != towards {
                    self.snake.set_direction(towards);
                }
                false
            },
        }
    }

    /// The first free cell of the board in row-major order, or `None` when
    /// the snake covers the whole board.
    pub fn first_free_cell(&self) -> (r: Option<Point>)
        requires
            self.wf_body(),
        ensures
            r matches Some(p) ==> free_cell(p, self.cells(), self.width_spec(), self.height_spec()),
            r is None <==> self.board_full(),
    {
        let mut y: u16 = 0;
        while y < self.height
            invariant
                self.wf_body(),
                y <= self.height,
                forall|q: Point| #![trigger self.cells().contains(q)]
                    in_board(q, self.width_spec(), self.height_spec()) && q.y < y
                        ==> self.cells().contains(q),
            decreases self.height - y,
        {
            let mut x: u16 = 0;
            while x < self.width
                invariant
                    self.wf_body(),
                    y < self.height,
                    x <= self.width,
                    forall|q: Point| #![trigger self.cells().contains(q)]
                        in_board(q, self.width_spec(), self.height_spec())
                            && (q.y < y || (q.y == y && q.x < x)) ==> self.cells().contains(q),
                decreases self.width - x,
            {
                let p = Point::new(x, y);
                if !self.snake.contains_point(&p) {
                    return Some(p);
                }
                x = x + 1;
            }
            y = y + 1;
        }
        None
    }

    /// Puts the food on a free cell drawn at random, drawing again while
    /// the draw lands on the snake; after a bounded number of draws the
    /// first free cell is taken. No food is placed only when the board is
    /// full.
    pub fn place_food(&mut self)
        requires
            old(self).wf_body(),
        ensures
            final(self).wf(),
            final(self).food_spec() matches Some(p) ==> free_cell(
                p,
                final(self).cells(),
                final(self).width_spec(),
                final(self).height_spec(),
            ),
            final(self).food_spec() is None <==> final(self).board_full(),
            final(self).width_spec() == old(self).width_spec(),
            final(self).height_spec() == old(self).height_spec(),
            final(self).cells() == old(self).cells(),
            final(self).heading() == old(self).heading(),
            final(self).digesting() == old(self).digesting(),
            final(self).speed_spec() == old(self).speed_spec(),
            final(self).score_spec() == old(self).score_spec(),
    {
        let mut draws: u16 = 0;
        while draws < FOOD_DRAWS
            invariant
                self.wf_body(),
                self.width_spec() == old(self).width_spec(),
                self.height_spec() == old(self).height_spec(),
                self.snake_spec() == old(self).snake_spec(),
                self.speed_spec() == old(self).speed_spec(),
                self.score_spec() == old(self).score_spec(),
            decreases FOOD_DRAWS - draws,
        {
            let x = random_below(self.width);
            let y = random_below(self.height);
            let point = Point::new(x, y);
            if !self.snake.contains_point(&point) {
                self.food = Some(point);
                return;
            }
            draws = draws + 1;
        }
        self.food = self.first_free_cell();
    }

    /// Puts the food on `point` if that cell is on the board and free.
    /// Returns whether it did.
    pub fn set_food(&mut self, point: Point) -> (placed: bool)
        requires
            old(self).wf(),
        ensures
            final(self).wf(),
            placed == free_cell(point, old(self).cells(), old(self).width_spec(), old(self).height_spec()),
            final(self).food_spec() == (if placed { Some(point) } else { old(self).food_spec() }),
            final(self).width_spec() == old(self).width_spec(),
            final(self).height_spec() == old(self).height_spec(),
            final(self).cells() == old(self).cells(),
            final(self).heading() == old(self).heading(),
            final(self).digesting() == old(self).digesting(),
            final(self).speed_spec() == old(self).speed_spec(),
            final(self).score_spec() == old(self).score_spec(),
    {
        if point.x < self.width && point.y < self.height && !self.snake.contains_point(&point) {
            self.food = Some(point);
            true
        } else {
            false
        }
    }

    /// The collision check of a step, on the current head and the heading
    /// as it stands after this step's input.
    pub open spec fn collision_ahead(&self) -> bool {
        wall_ahead(self.cells()[0], self.heading(), self.width_spec(), self.height_spec())
            || bites(self.cells(), self.cells()[0].moved(self.heading(), 1), self.digesting())
    }

    /// One step once the interval has run out. A move into a wall or into
    /// the body ends the game and changes nothing. Otherwise the snake moves
    /// one cell; if its new head is on the food it eats: it will grow by one
    /// cell, the score rises by one, the speed level may rise, and the food
    /// goes to a free cell.
    pub fn advance(&mut self) -> (r: StepOutcome)
        requires
            old(self).wf(),
        ensures
            final(self).wf(),
            old(self).collision_ahead() ==> r == StepOutcome::Collided && final(self).state() == old(self).state(),
            !old(self).collision_ahead() ==> {
                let next = old(self).cells()[0].moved(old(self).heading(), 1);
                let ate = old(self).food_spec() == Some(next);
                &&& r == (if ate { StepOutcome::Ate } else { StepOutcome::Moved })
                &&& final(self).cells() == advanced_body(old(self).cells(), next, old(self).digesting())
                &&& final(self).heading() == old(self).heading()
                &&& final(self).width_spec() == old(self).width_spec()
                &&& final(self).height_spec() == old(self).height_spec()
                &&& final(self).digesting() == ate
                &&& final(self).score_spec() == old(self).score_spec() + (if ate { 1int } else { 0int })
                &&& final(self).speed_spec() == (if ate {
                    next_speed(old(self).speed_spec(), old(self).score_spec() + 1, old(self).width_spec(), old(self).height_spec())
                } else {
                    old(self).speed_spec()
                })
                &&& (ate ==> (final(self).food_spec() is None <==> final(self).board_full()))
                &&& (!ate ==> final(self).food_spec() == old(self).food_spec())
            },
    {
        if self.has_collided_with_wall() || self.has_bitten_itself() {
            return StepOutcome::Collided;
        }
        let ghost old_cells = self.cells();
        let ghost next = old_cells[0].moved(self.heading(), 1);
        proof {
            lemma_step_moves(old_cells[0], self.heading());
        }
        self.snake.slither();
        proof {
            let cells = self.cells();
            let w = self.width_spec();
            let h = self.height_spec();
            assert(cells[0] == next);
            assert forall|i: int| 1 <= i < cells.len() implies cells[i] == old_cells[i - 1] by {}
            assert forall|i: int| 0 <= i < cells.len() implies in_board(#[trigger] cells[i], w, h) by {
                if i > 0 {
                    assert(cells[i] == old_cells[i - 1]);
                }
            }
            assert forall|i: int, j: int| 0 <= i < cells.len() && 0 <= j < cells.len() && i != j
                implies cells[i] != cells[j] by {
                if i > 0 && j > 0 {
                    assert(cells[i] == old_cells[i - 1]);
                    assert(cells[j] == old_cells[j - 1]);
                } else if i == 0 {
                    assert(cells[j] == old_cells[j - 1]);
                    assert(old_cells[0] != next);
                } else {
                    assert(cells[i] == old_cells[i - 1]);
                    assert(old_cells[0] != next);
                }
            }
            assert(cells.no_duplicates());
            lemma_distinct_cells_fit(cells, w, h);
            assert(w * h <= u16::MAX);
            if let Some(f) = self.food {
                if f != next {
                    assert forall|i: int| 0 <= i < cells.len() implies cells[i] != f by {
                        if i > 0 {
                            assert(cells[i] == old_cells[i - 1]);
                            assert(old_cells.contains(old_cells[i - 1]));
                        }
                    }
                }
            }
        }
        let head = self.snake.get_head_point();
        if self.food == Some(head) {
            self.snake.grow();
            self.score = self.score + 1;
            proof {
                let (w, h) = (self.width as int, self.height as int);
                assert(w * h >= 25) by (nonlinear_arith)
                    requires
                        w >= 5,
                        h >= 5,
                ;
            }
            self.speed = speed_after(self.speed, self.score, self.width, self.height);
            self.place_food();
            StepOutcome::Ate
        } else {
            StepOutcome::Moved
        }
    }
}

} // verus!
