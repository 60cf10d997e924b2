//! The snake: its cells head first, its heading, and whether it is digesting.
use vstd::prelude::*;
use crate::geometry::{lemma_shorter_move_fits, Direction, Point};

verus! {

/// The body laid out from `start` backwards against `direction`:
/// cell `i` lies `i` steps behind the head.
pub open spec fn straight_body(start: Point, direction: Direction, length: nat) -> Seq<Point> {
    Seq::new(length, |i: int| start.moved(direction.opposite_spec(), i))
}

/// The body after one move: the new head in front, and the tail dropped
/// unless the snake is digesting.
pub open spec fn advanced_body(body: Seq<Point>, next: Point, digesting: bool) -> Seq<Point> {
    if digesting {
        seq![next] + body
    } else {
        seq![next] + body.drop_last()
    }
}

#[derive(Debug)]
pub struct Snake {
    body: Vec<Point>,
    direction: Direction,
    digesting: bool,
}

impl Snake {
    /// The cells of the snake, head first.
    pub closed spec fn cells(&self) -> Seq<Point> {
        self.body@
    }

    /// The current heading.
    pub closed spec fn heading(&self) -> Direction {
        self.direction
    }

    /// Whether the next move keeps the tail.
    pub closed spec fn is_digesting(&self) -> bool {
        self.digesting
    }

    /// A snake always has a head.
    pub open spec fn wf(&self) -> bool {
        self.cells().len() >= 1
    }

    pub open spec fn head(&self) -> Point {
        self.cells()[0]
    }

    /// A snake of `length` cells, head at `start`, lying straight behind the
    /// head with respect to `direction`.
    pub fn new(start: Point, length: u16, direction: Direction) -> (r: Snake)
        requires
            length >= 1,
            start.can_transform(direction.opposite_spec(), length - 1),
        ensures
            r.wf(),
            r.cells() == straight_body(start, direction, length as nat),
            r.heading() == direction,
            !r.is_digesting(),
    {
        let back = direction.opposite();
        let mut body: Vec<Point> = Vec::new();
        let mut i: u16 = 0;
        while i < length
            invariant
                i <= length,
                back == direction.opposite_spec(),
                start.can_transform(back, length - 1),
                body@ == straight_body(start, direction, i as nat),
            decreases length - i,
        {
            proof {
                lemma_shorter_move_fits(start, back, i as int, length - 1);
            }
            body.push(start.transform(back, i));
            i = i + 1;
            assert(body@ =~= straight_body(start, direction, i as nat));
        }
        Snake { body, direction, digesting: false }
    }

    pub fn get_head_point(&self) -> (r: Point)
        requires
            self.wf(),
        ensures
            r == self.head(),
    {
        self.body[0]
    }

    pub fn get_body_points(&self) -> (r: &Vec<Point>)
        ensures
            r@ == self.cells(),
    {
        &self.body
    }

    pub fn get_direction(&self) -> (r: Direction)
        ensures
            r == self.heading(),
    {
        self.direction
    }

    pub fn is_growing(&self) -> (r: bool)
        ensures
            r == self.is_digesting(),
    {
        self.digesting
    }

    pub fn len(&self) -> (r: usize)
        ensures
            r == self.cells().len(),
    {
        self.body.len()
    }

    /// Stores the heading for the next move.
    pub fn set_direction(&mut self, direction: Direction)
        ensures
            final(self).heading() == direction,
            final(self).cells() == old(self).cells(),
            final(self).is_digesting() == old(self).is_digesting(),
    {
        self.direction = direction;
    }

    /// Makes the next move keep the tail, growing the snake by one cell.
    pub fn grow(&mut self)
        ensures
            final(self).is_digesting(),
            final(self).cells() == old(self).cells(),
            final(self).heading() == old(self).heading(),
    {
        self.digesting = true;
    }

    /// One move in the current heading: the new head goes in front, and the
    /// tail goes unless the snake was digesting, which ends the digestion.
    pub fn slither(&mut self)
        requires
            old(self).wf(),
            old(self).head().can_transform(old(self).heading(), 1),
        ensures
            final(self).wf(),
            final(self).cells() == advanced_body(
                old(self).cells(),
                old(self).head().moved(old(self).heading(), 1),
                old(self).is_digesting(),
            ),
            final(self).heading() == old(self).heading(),
            !final(self).is_digesting(),
    {
        let next = self.body[0].transform(self.direction, 1);
        if self.digesting {
            self.digesting = false;
        } else {
            self.body.pop();
        }
        self.body.insert(0, next);
        assert(self.body@ =~= advanced_body(old(self).body@, next, old(self).digesting));
    }

    /// Whether `point` is one of the snake's cells.
    pub fn contains_point(&self, point: &Point) -> (r: bool)
        ensures
            r == self.cells().contains(*point),
    {
        let mut i: usize = 0;
        while i < self.body.len()
            invariant
                i <= self.body@.len(),
                forall|j: int| 0 <= j < i ==> self.body@[j] != *point,
            decreases self.body@.len() - i,
        {
            if self.body[i] == *point {
                return true;
            }
            i = i + 1;
        }
        false
    }
}

} // verus!
