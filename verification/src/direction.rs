//! Compass directions and grid positions.

use vstd::prelude::*;

verus! {

/// One of the four compass directions a passage can point in.
#[derive(Clone, Copy, PartialEq, Eq, Structural, Debug)]
pub enum Direction {
    North,
    East,
    South,
    West,
}

/// A grid cell, identified by its exact integer coordinates.
#[derive(Clone, Copy, PartialEq, Eq, Structural, Debug)]
pub struct Position {
    pub x: i32,
    pub y: i32,
}

impl Direction {
    /// The unit displacement of one step in this direction.
    pub open spec fn spec_displacement(self) -> (int, int) {
        match self {
            Direction::North => (0int, 1int),
            Direction::East => (1int, 0int),
            Direction::South => (0int, -1int),
            Direction::West => (-1int, 0int),
        }
    }

    /// The opposite compass direction.
    pub open spec fn spec_reverse(self) -> Direction {
        match self {
            Direction::North => Direction::South,
            Direction::East => Direction::West,
            Direction::South => Direction::North,
            Direction::West => Direction::East,
        }
    }

    /// The x coordinate one step away, as an unbounded integer.
    pub open spec fn target_x(self, position: Position) -> int {
        position.x + self.spec_displacement().0
    }

    /// The y coordinate one step away, as an unbounded integer.
    pub open spec fn target_y(self, position: Position) -> int {
        position.y + self.spec_displacement().1
    }

    /// Whether one step in this direction stays within the machine range.
    pub open spec fn fits(self, position: Position) -> bool {
        &&& i32::MIN <= self.target_x(position) <= i32::MAX
        &&& i32::MIN <= self.target_y(position) <= i32::MAX
    }

    /// The cell one step away; faithful to the arithmetic when `fits` holds.
    pub open spec fn spec_go(self, position: Position) -> Position {
        Position { x: self.target_x(position) as i32, y: self.target_y(position) as i32 }
    }

    /// The lowercase compass name of this direction.
    pub open spec fn spec_describe(self) -> Seq<char> {
        match self {
            Direction::North => "north"@,
            Direction::East => "east"@,
            Direction::South => "south"@,
            Direction::West => "west"@,
        }
    }

    /// The lowercase compass name, for narration.
    pub fn describe(&self) -> (r: String)
        ensures
            r@ == self.spec_describe(),
    {
        match self {
            Direction::North => "north".to_string(),
            Direction::East => "east".to_string(),
            Direction::South => "south".to_string(),
            Direction::West => "west".to_string(),
        }
    }

    /// The unit displacement vector of this direction.
    pub fn displacement(&self) -> (r: (i32, i32))
        ensures
            r.0 as int == self.spec_displacement().0,
            r.1 as int == self.spec_displacement().1,
    {
        match self {
            Direction::North => (0, 1),
            Direction::East => (1, 0),
            Direction::South => (0, -1),
            Direction::West => (-1, 0),
        }
    }

    /// Adds this direction's displacement to a position.
    pub fn go(&self, position: Position) -> (r: Position)
        requires
            self.fits(position),
        ensures
            r == self.spec_go(position),
    {
        let d = self.displacement();
        Position { x: position.x + d.0, y: position.y + d.1 }
    }

    /// The opposite compass direction.
    pub fn reverse(&self) -> (r: Direction)
        ensures
            r == self.spec_reverse(),
    {
        match self {
            Direction::North => Direction::South,
            Direction::East => Direction::West,
            Direction::South => Direction::North,
            Direction::West => Direction::East,
        }
    }
}

/// Reversing a direction twice yields the direction itself.
pub proof fn lemma_reverse_involution(d: Direction)
    ensures
        d.spec_reverse().spec_reverse() == d,
{
}

/// A step that stays in range is undone by a step in the reverse
/// direction: the reverse step also stays in range and lands back on the
/// starting position.
pub proof fn lemma_go_reverse_inverse(d: Direction, p: Position)
    requires
        d.fits(p),
    ensures
        d.spec_reverse().fits(d.spec_go(p)),
        d.spec_reverse().spec_go(d.spec_go(p)) == p,
{
}

} // verus!
