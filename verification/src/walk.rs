//! The square-spiral walk: a cursor, a turn cycle, and the per-step rule.

use vstd::prelude::*;
use crate::primes::is_prime_spec;
use crate::primes::is_prime;

verus! {

/// Side length of the square playing field, in grid cells.  The walk starts
/// at its centre; callers that draw the dots scale this field to a window.
pub const WALL: i32 = 100;

/// A cell of the grid.
#[derive(Clone, Copy, Debug, PartialEq, Eq, Structural)]
pub struct Position {
    pub x: i32,
    pub y: i32,
}

/// The direction the cursor currently moves in.
#[derive(Clone, Copy, Debug, PartialEq, Eq, Structural)]
pub enum Direction {
    Left,
    Right,
    Up,
    Down,
}

impl Direction {
    /// The successor in the fixed turn cycle: right, up, left, down.
    pub open spec fn next_spec(self) -> Direction {
        match self {
            Direction::Right => Direction::Up,
            Direction::Down => Direction::Right,
            Direction::Left => Direction::Down,
            Direction::Up => Direction::Left,
        }
    }

    /// Horizontal displacement of one step in this direction.
    pub open spec fn dx(self) -> int {
        match self {
            Direction::Right => 1,
            Direction::Left => -1,
            Direction::Up => 0,
            Direction::Down => 0,
        }
    }

    /// Vertical displacement of one step in this direction.
    pub open spec fn dy(self) -> int {
        match self {
            Direction::Up => 1,
            Direction::Down => -1,
            Direction::Right => 0,
            Direction::Left => 0,
        }
    }

    /// Turns once in the fixed cycle.
    pub fn next(&self) -> (r: Direction)
        ensures
            r == self.next_spec(),
    {
        match self {
            Direction::Right => Direction::Up,
            Direction::Down => Direction::Right,
            Direction::Left => Direction::Down,
            Direction::Up => Direction::Left,
        }
    }
}

impl Default for Direction {
    /// The walk begins facing right.
    fn default() -> (r: Direction)
        ensures
            r == Direction::Right,
    {
        Direction::Right
    }
}

/// Four turns bring a direction back to itself.
pub proof fn lemma_turn_cycle_closes(d: Direction)
    ensures
        d.next_spec().next_spec().next_spec().next_spec() == d,
{
}

/// The whole state of the walk: the integer about to be tested, the cell the
/// next dot would land on, and the counters that drive the turn cycle.
pub struct SpiralWalk {
    /// The integer the next step tests.
    pub num_counter: i64,
    /// The cell the next dot is placed at.
    pub next_coord: Position,
    /// How many straight steps are taken before the next turn.
    pub count_until_turn: i64,
    /// Straight steps taken since the last turn.
    pub face_progress_counter: i64,
    /// Where the cursor currently heads.
    pub current_direction: Direction,
    /// Turns taken since the side length last grew.
    pub turns_done: i64,
}

impl SpiralWalk {
    /// The counter ranges that every reachable state keeps: the side length
    /// grows before a third turn is recorded, and progress along a side never
    /// passes the side's length.
    pub open spec fn wf(self) -> bool {
        &&& 0 <= self.turns_done <= 1
        &&& 0 <= self.face_progress_counter <= self.count_until_turn
    }

    /// Whether the next step finishes its side and turns after moving.
    pub open spec fn turns_now(self) -> bool {
        self.face_progress_counter >= self.count_until_turn
    }

    /// The walk as it stands before the first step: at the centre of the
    /// field, facing right, about to test the integer 1.
    pub fn new() -> (w: SpiralWalk)
        ensures
            w.num_counter == 1,
            w.next_coord.x == WALL / 2,
            w.next_coord.y == WALL / 2,
            w.count_until_turn == 0,
            w.face_progress_counter == 0,
            w.current_direction == Direction::Right,
            w.turns_done == 0,
            w.wf(),
    {
        SpiralWalk {
            num_counter: 1,
            next_coord: Position { x: WALL / 2, y: WALL / 2 },
            count_until_turn: 0,
            face_progress_counter: 0,
            current_direction: Direction::Right,
            turns_done: 0,
        }
    }

    /// One frame of the walk.
    ///
    /// Tests the current integer and, when it is prime, reports the cell a
    /// dot belongs on; moves the cursor one cell in the current direction;
    /// then, if that move finished the side, turns, growing the side length
    /// after every second turn; and moves on to the next integer.  From the
    /// start state this walks straight runs of 1, 1, 2, 2, 3, 3, ... cells.
    pub fn step(&mut self) -> (dot: Option<Position>)
        requires
            old(self).wf(),
            old(self).num_counter < i64::MAX,
            old(self).count_until_turn < i64::MAX,
            i32::MIN < old(self).next_coord.x < i32::MAX,
            i32::MIN < old(self).next_coord.y < i32::MAX,
        ensures
            final(self).wf(),
            is_prime_spec(old(self).num_counter as int) ==> dot == Some(old(self).next_coord),
            !is_prime_spec(old(self).num_counter as int) ==> dot is None,
            final(self).num_counter == old(self).num_counter + 1,
            final(self).next_coord.x == old(self).next_coord.x
                + old(self).current_direction.dx(),
            final(self).next_coord.y == old(self).next_coord.y
                + old(self).current_direction.dy(),
            old(self).turns_now() ==> final(self).current_direction
                == old(self).current_direction.next_spec(),
            old(self).turns_now() ==> final(self).face_progress_counter == 0,
            !old(self).turns_now() ==> final(self).current_direction
                == old(self).current_direction,
            !old(self).turns_now() ==> final(self).face_progress_counter
                == old(self).face_progress_counter + 1,
            old(self).turns_now() && old(self).turns_done == 1 ==> final(self).count_until_turn
                == old(self).count_until_turn + 1 && final(self).turns_done == 0,
            old(self).turns_now() && old(self).turns_done == 0 ==> final(self).count_until_turn
                == old(self).count_until_turn && final(self).turns_done == 1,
            !old(self).turns_now() ==> final(self).count_until_turn
                == old(self).count_until_turn && final(self).turns_done == old(self).turns_done,
    {
        let dot: Option<Position> = if is_prime(self.num_counter) {
            Some(self.next_coord)
        } else {
            None
        };

        match self.current_direction {
            Direction::Up => {
                self.next_coord.y = self.next_coord.y + 1;
            }
            Direction::Right => {
                self.next_coord.x = self.next_coord.x + 1;
            }
            Direction::Down => {
                self.next_coord.y = self.next_coord.y - 1;
            }
            Direction::Left => {
                self.next_coord.x = self.next_coord.x - 1;
            }
        }

        if self.face_progress_counter >= self.count_until_turn {
            self.current_direction = self.current_direction.next();
            self.face_progress_counter = 0;
            self.turns_done = self.turns_done + 1;
        } else {
            self.face_progress_counter = self.face_progress_counter + 1;
        }

        if self.turns_done >= 2 {
            self.count_until_turn = self.count_until_turn + 1;
            self.turns_done = 0;
        }

        self.num_counter = self.num_counter + 1;

        dot
    }
}

} // verus!
