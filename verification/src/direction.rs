//! The four directions on the board.

use vstd::prelude::*;

verus! {

/// A direction, in the cyclic order LEFT, UP, RIGHT, DOWN.
#[allow(non_camel_case_types)]
#[derive(Debug, Copy, Clone, PartialEq, Eq, Structural)]
pub enum Direction {
    LEFT,
    UP,
    RIGHT,
    DOWN,
}

/// The four directions, each at the index of its code.
pub const DIRECTIONS: [Direction; 4] = [
    Direction::LEFT,
    Direction::UP,
    Direction::RIGHT,
    Direction::DOWN,
];

impl Direction {
    /// The number that stands for the direction: LEFT 0, UP 1, RIGHT 2,
    /// DOWN 3.
    pub open spec fn code(self) -> int {
        match self {
            Direction::LEFT => 0,
            Direction::UP => 1,
            Direction::RIGHT => 2,
            Direction::DOWN => 3,
        }
    }

    /// By how much a field index changes with one step in the direction.
    pub open spec fn offset(self) -> int {
        match self {
            Direction::LEFT => 1,
            Direction::UP => 21,
            Direction::RIGHT => -1,
            Direction::DOWN => -21,
        }
    }

    /// The direction's name in capitals.
    pub open spec fn name(self) -> Seq<char> {
        match self {
            Direction::LEFT => "LEFT"@,
            Direction::UP => "UP"@,
            Direction::RIGHT => "RIGHT"@,
            Direction::DOWN => "DOWN"@,
        }
    }

    /// The direction with code `n`.
    pub open spec fn spec_from_u16(n: u16) -> Direction {
        if n == 0 {
            Direction::LEFT
        } else if n == 1 {
            Direction::UP
        } else if n == 2 {
            Direction::RIGHT
        } else {
            Direction::DOWN
        }
    }

    /// The next direction in the cyclic order.
    pub open spec fn spec_clockwise(&self) -> Direction {
        match *self {
            Direction::LEFT => Direction::UP,
            Direction::UP => Direction::RIGHT,
            Direction::RIGHT => Direction::DOWN,
            Direction::DOWN => Direction::LEFT,
        }
    }

    /// The previous direction in the cyclic order.
    pub open spec fn spec_anticlockwise(&self) -> Direction {
        match *self {
            Direction::LEFT => Direction::DOWN,
            Direction::UP => Direction::LEFT,
            Direction::RIGHT => Direction::UP,
            Direction::DOWN => Direction::RIGHT,
        }
    }

    /// The opposite direction.
    pub open spec fn spec_mirror(&self) -> Direction {
        match *self {
            Direction::LEFT => Direction::RIGHT,
            Direction::RIGHT => Direction::LEFT,
            Direction::UP => Direction::DOWN,
            Direction::DOWN => Direction::UP,
        }
    }

    /// The direction's name: "LEFT", "UP", "RIGHT" or "DOWN".
    pub fn to_string(&self) -> (s: String)
        ensures
            s@ == self.name(),
    {
        match self {
            Direction::LEFT => "LEFT".to_string(),
            Direction::UP => "UP".to_string(),
            Direction::RIGHT => "RIGHT".to_string(),
            Direction::DOWN => "DOWN".to_string(),
        }
    }

    /// The direction with code `n`. Only 0, 1, 2 and 3 are codes.
    #[verifier::when_used_as_spec(spec_from_u16)]
    pub fn from_u16(n: u16) -> (d: Direction)
        requires
            n < 4,
        ensures
            d.code() == n,
            d == Direction::spec_from_u16(n),
    {
        if n == 0 {
            Direction::LEFT
        } else if n == 1 {
            Direction::UP
        } else if n == 2 {
            Direction::RIGHT
        } else {
            Direction::DOWN
        }
    }

    /// The next direction in the cyclic order LEFT, UP, RIGHT, DOWN, LEFT.
    #[verifier::when_used_as_spec(spec_clockwise)]
    pub fn clockwise(&self) -> (d: Direction)
        ensures
            d == self.spec_clockwise(),
            d.code() == (self.code() + 1) % 4,
    {
        match self {
            Direction::LEFT => Direction::UP,
            Direction::UP => Direction::RIGHT,
            Direction::RIGHT => Direction::DOWN,
            Direction::DOWN => Direction::LEFT,
        }
    }

    /// The previous direction in the cyclic order LEFT, UP, RIGHT, DOWN,
    /// LEFT.
    #[verifier::when_used_as_spec(spec_anticlockwise)]
    pub fn anticlockwise(&self) -> (d: Direction)
        ensures
            d == self.spec_anticlockwise(),
            d.code() == (self.code() + 3) % 4,
    {
        match self {
            Direction::LEFT => Direction::DOWN,
            Direction::UP => Direction::LEFT,
            Direction::RIGHT => Direction::UP,
            Direction::DOWN => Direction::RIGHT,
        }
    }

    /// The opposite direction: LEFT for RIGHT, UP for DOWN, and back.
    #[verifier::when_used_as_spec(spec_mirror)]
    pub fn mirror(&self) -> (d: Direction)
        ensures
            d == self.spec_mirror(),
            d.code() == (self.code() + 2) % 4,
            d.offset() == -self.offset(),
    {
        match self {
            Direction::LEFT => Direction::RIGHT,
            Direction::RIGHT => Direction::LEFT,
            Direction::UP => Direction::DOWN,
            Direction::DOWN => Direction::UP,
        }
    }

    /// A direction is known by its code, and the code is its place in
    /// the table of directions.
    pub proof fn law_code(self, other: Direction)
        ensures
            0 <= self.code() < 4,
            self.code() == other.code() <==> self == other,
            Direction::from_u16(self.code() as u16) == self,
            DIRECTIONS[self.code()] == self,
    {
    }

    /// Four turns clockwise lead back to where they began.
    pub proof fn law_clockwise_cycle(self)
        ensures
            self.clockwise().clockwise().clockwise().clockwise() == self,
            self.clockwise() != self,
            self.clockwise().clockwise() != self,
            self.clockwise().clockwise().clockwise() != self,
    {
    }

    /// Four turns anticlockwise lead back to where they began.
    pub proof fn law_anticlockwise_cycle(self)
        ensures
            self.anticlockwise().anticlockwise().anticlockwise().anticlockwise() == self,
            self.anticlockwise() != self,
            self.anticlockwise().anticlockwise() != self,
            self.anticlockwise().anticlockwise().anticlockwise() != self,
    {
    }

    /// A turn one way undoes a turn the other way, and two turns either
    /// way give the opposite direction.
    pub proof fn law_turns(self)
        ensures
            self.clockwise().anticlockwise() == self,
            self.anticlockwise().clockwise() == self,
            self.clockwise().clockwise() == self.mirror(),
            self.anticlockwise().anticlockwise() == self.mirror(),
            self.mirror().mirror() == self,
    {
    }
}

} // verus!
