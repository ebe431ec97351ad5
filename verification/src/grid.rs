//! Grid coordinates and headings.

use vstd::prelude::*;

verus! {

/// Width of the arena in cells; positions inside the arena have `x` in
/// `[0, ARENA_WIDTH)`.
pub const ARENA_WIDTH: i32 = 10;

/// Height of the arena in cells; positions inside the arena have `y` in
/// `[0, ARENA_HEIGHT)`.
pub const ARENA_HEIGHT: i32 = 10;

/// One discrete grid cell. Equality is field-by-field.
#[derive(Clone, Copy, PartialEq, Eq, Structural, Debug)]
pub struct Position {
    pub x: i32,
    pub y: i32,
}

/// A 4-way heading.
#[derive(Clone, Copy, PartialEq, Eq, Structural, Debug)]
pub enum Direction {
    Up,
    Down,
    Left,
    Right,
}

impl Direction {
    /// The reversed heading.
    pub open spec fn opposite_spec(self) -> Direction {
        match self {
            Direction::Up => Direction::Down,
            Direction::Down => Direction::Up,
            Direction::Left => Direction::Right,
            Direction::Right => Direction::Left,
        }
    }

    /// The reversed heading; used by the input filter to reject a request
    /// to reverse onto the snake's own body.
    #[verifier::when_used_as_spec(opposite_spec)]
    pub fn opposite(self) -> (r: Direction)
        ensures
            r == self.opposite_spec(),
    {
        match self {
            Direction::Up => Direction::Down,
            Direction::Down => Direction::Up,
            Direction::Left => Direction::Right,
            Direction::Right => Direction::Left,
        }
    }
}

/// Reversing a heading twice yields the heading itself.
pub proof fn lemma_opposite_involution(d: Direction)
    ensures
        d.opposite().opposite() == d,
{
}

/// No heading is its own reverse, so the anti-reversal filter never
/// rejects a request to keep the current heading.
pub proof fn lemma_opposite_irreflexive(d: Direction)
    ensures
        d.opposite() != d,
{
}

impl Position {
    /// Whether displacing this cell one step in direction `d` stays within
    /// the machine range of the coordinates. The simulation itself never
    /// clamps or wraps at the arena border.
    pub open spec fn can_step(self, d: Direction) -> bool {
        match d {
            Direction::Up => self.y < i32::MAX,
            Direction::Down => self.y > i32::MIN,
            Direction::Left => self.x > i32::MIN,
            Direction::Right => self.x < i32::MAX,
        }
    }

    /// The cell one step away in direction `d`: up raises `y`, down lowers
    /// `y`, left lowers `x`, right raises `x`.
    pub open spec fn stepped(self, d: Direction) -> Position
        recommends
            self.can_step(d),
    {
        match d {
            Direction::Up => Position { x: self.x, y: (self.y + 1) as i32 },
            Direction::Down => Position { x: self.x, y: (self.y - 1) as i32 },
            Direction::Left => Position { x: (self.x - 1) as i32, y: self.y },
            Direction::Right => Position { x: (self.x + 1) as i32, y: self.y },
        }
    }

    /// Displace this cell one step in direction `d`.
    pub fn step(self, d: Direction) -> (r: Position)
        requires
            self.can_step(d),
        ensures
            r == self.stepped(d),
    {
        match d {
            Direction::Up => Position { x: self.x, y: self.y + 1 },
            Direction::Down => Position { x: self.x, y: self.y - 1 },
            Direction::Left => Position { x: self.x - 1, y: self.y },
            Direction::Right => Position { x: self.x + 1, y: self.y },
        }
    }
}

} // verus!
