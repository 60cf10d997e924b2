//! Grid points with unsigned coordinates, the four headings, and the
//! bounds-checked one-step move between cells.
use vstd::prelude::*;

verus! {

/// A heading on the grid. Up decreases `y`; Right increases `x`.
#[derive(Debug, Clone, Copy, PartialEq, Eq, Structural)]
pub enum Direction {
    Up,
    Right,
    Down,
    Left,
}

/// What the input source may deliver to the game loop.
#[derive(Debug, Clone, Copy, PartialEq, Eq, Structural)]
pub enum Command {
    Quit,
    Turn(Direction),
}

impl Direction {
    /// The heading turned by half a revolution.
    pub open spec fn opposite_spec(self) -> Direction {
        match self {
            Direction::Up => Direction::Down,
            Direction::Right => Direction::Left,
            Direction::Down => Direction::Up,
            Direction::Left => Direction::Right,
        }
    }

    pub fn opposite(&self) -> (r: Direction)
        ensures
            r == self.opposite_spec(),
    {
        match self {
            Direction::Up => Direction::Down,
            Direction::Right => Direction::Left,
            Direction::Down => Direction::Up,
            Direction::Left => Direction::Right,
        }
    }
}

/// Turning round twice gives the heading back, and no heading is its own
/// opposite.
pub proof fn lemma_opposite_involutive(d: Direction)
    ensures
        d.opposite_spec().opposite_spec() == d,
        d.opposite_spec() != d,
{
}

/// A cell of the grid.
#[derive(Debug, Clone, Copy, PartialEq, Eq, Structural)]
pub struct Point {
    pub x: u16,
    pub y: u16,
}

/// `value + by` when it is a valid coordinate.
pub open spec fn shifted_fits(value: u16, by: int) -> bool {
    0 <= value + by <= u16::MAX
}

impl Point {
    /// The coordinates of the cell `times` steps away in `direction`, as
    /// integers that may fall outside the grid.
    pub open spec fn target_x(self, direction: Direction, times: int) -> int {
        match direction {
            Direction::Right => self.x + times,
            Direction::Left => self.x - times,
            _ => self.x as int,
        }
    }

    pub open spec fn target_y(self, direction: Direction, times: int) -> int {
        match direction {
            Direction::Down => self.y + times,
            Direction::Up => self.y - times,
            _ => self.y as int,
        }
    }

    /// Moving `times` steps in `direction` keeps both coordinates in range.
    pub open spec fn can_transform(self, direction: Direction, times: int) -> bool {
        &&& 0 <= self.target_x(direction, times) <= u16::MAX
        &&& 0 <= self.target_y(direction, times) <= u16::MAX
    }

    /// The cell `times` steps away in `direction`.
    pub open spec fn moved(self, direction: Direction, times: int) -> Point {
        Point {
            x: self.target_x(direction, times) as u16,
            y: self.target_y(direction, times) as u16,
        }
    }

    pub fn new(x: u16, y: u16) -> (r: Point)
        ensures
            r.x == x,
            r.y == y,
    {
        Point { x, y }
    }

    /// The cell `times` steps away in `direction`. Moving past coordinate
    /// zero is a boundary fault: callers establish beforehand that the step
    /// stays on the grid.
    pub fn transform(&self, direction: Direction, times: u16) -> (r: Point)
        requires
            self.can_transform(direction, times as int),
        ensures
            r == self.moved(direction, times as int),
    {
        let t: i32 = times as i32;
        let transformation: (i32, i32) = match direction {
            Direction::Up => (0, -t),
            Direction::Right => (t, 0),
            Direction::Down => (0, t),
            Direction::Left => (-t, 0),
        };
        Point::new(
            Self::transform_value(self.x, transformation.0),
            Self::transform_value(self.y, transformation.1),
        )
    }

    /// The fault-checked form of `transform`: `None` exactly where the move
    /// would leave the range of coordinates.
    pub fn checked_transform(&self, direction: Direction, times: u16) -> (r: Option<Point>)
        ensures
            r == (if self.can_transform(direction, times as int) {
                Some(self.moved(direction, times as int))
            } else {
                None
            }),
    {
        let t: i32 = times as i32;
        let dx: i32 = match direction {
            Direction::Right => t,
            Direction::Left => -t,
            _ => 0,
        };
        let dy: i32 = match direction {
            Direction::Down => t,
            Direction::Up => -t,
            _ => 0,
        };
        let nx: i32 = self.x as i32 + dx;
        let ny: i32 = self.y as i32 + dy;
        if 0 <= nx && nx <= 0xffff && 0 <= ny && ny <= 0xffff {
            Some(Point::new(nx as u16, ny as u16))
        } else {
            None
        }
    }

    /// One coordinate shifted by a signed offset.
    pub fn transform_value(value: u16, by: i32) -> (r: u16)
        requires
            shifted_fits(value, by as int),
        ensures
            r == value + by,
    {
        (value as i32 + by) as u16
    }
}

/// A move that stays in range stays in range when shortened.
pub proof fn lemma_shorter_move_fits(p: Point, d: Direction, i: int, n: int)
    requires
        0 <= i <= n,
        p.can_transform(d, n),
    ensures
        p.can_transform(d, i),
{
}

/// One step always changes the cell.
pub proof fn lemma_step_moves(p: Point, d: Direction)
    requires
        p.can_transform(d, 1),
    ensures
        p.moved(d, 1) != p,
{
}

} // verus!
