use vstd::prelude::*;

verus! {

/// How far the robot may go from the origin along either axis.
pub const FIELD_LIMIT: i32 = 100000;

/// Whether a coordinate lies within `[-FIELD_LIMIT, FIELD_LIMIT]`.
pub open spec fn in_field(v: int) -> bool {
    -FIELD_LIMIT <= v <= FIELD_LIMIT
}

/// One cell of the grid.
#[derive(PartialEq, Eq, Structural, Debug, Hash, Clone, Copy)]
pub struct Position {
    pub x: i32,
    pub y: i32,
}

/// The four directions the robot can move in.
#[derive(PartialEq, Eq, Structural, Debug, Clone, Copy)]
pub enum Direction {
    North,
    East,
    South,
    West,
}

impl Direction {
    /// The unit displacement of one step in this direction.
    pub open spec fn offset(self) -> Position {
        match self {
            Direction::North => Position { x: 0i32, y: 1i32 },
            Direction::East => Position { x: 1i32, y: 0i32 },
            Direction::West => Position { x: -1i32, y: 0i32 },
            Direction::South => Position { x: 0i32, y: -1i32 },
        }
    }
}

impl Position {
    /// Whether either coordinate lies outside the field.
    pub open spec fn is_out_of_bounds(self) -> bool {
        !(in_field(self.x as int) && in_field(self.y as int))
    }

    /// The cell after one unit step towards `d`: the neighbouring cell when
    /// it lies within the field, else this cell itself.
    pub open spec fn shifted(self, d: Direction) -> Position {
        let nx = self.x + d.offset().x;
        let ny = self.y + d.offset().y;
        if in_field(nx) && in_field(ny) {
            Position { x: nx as i32, y: ny as i32 }
        } else {
            self
        }
    }

    /// Takes one unit step towards `direction`; a step that would leave the
    /// field is discarded and the robot stays where it is.
    pub fn shift(self, direction: &Direction) -> (r: Position)
        ensures
            r == self.shifted(*direction),
    {
        let movement = Position::from(direction);
        if self.x.checked_add(movement.x).is_some() && self.y.checked_add(movement.y).is_some() {
            let destination = self + movement;
            if !destination.out_of_bounds() {
                return destination;
            }
        }
        self
    }

    /// Whether either coordinate lies outside the field.
    pub fn out_of_bounds(&self) -> (r: bool)
        ensures
            r == self.is_out_of_bounds(),
    {
        self.x > FIELD_LIMIT || self.x < -FIELD_LIMIT || self.y > FIELD_LIMIT || self.y
            < -FIELD_LIMIT
    }
}

impl core::ops::Add for Position {
    type Output = Position;

    /// The vector sum of two positions.
    fn add(self, position: Position) -> (r: Position) {
        Position { x: self.x + position.x, y: self.y + position.y }
    }
}

impl vstd::std_specs::ops::AddSpecImpl for Position {
    open spec fn obeys_add_spec() -> bool {
        true
    }

    open spec fn add_req(self, rhs: Position) -> bool {
        i32::MIN <= self.x + rhs.x <= i32::MAX && i32::MIN <= self.y + rhs.y <= i32::MAX
    }

    open spec fn add_spec(self, rhs: Position) -> Position {
        Position { x: (self.x + rhs.x) as i32, y: (self.y + rhs.y) as i32 }
    }
}

impl<'a> From<&'a Direction> for Position {
    /// The unit displacement of one step in direction `d`.
    fn from(d: &'a Direction) -> (r: Position) {
        match d {
            Direction::North => Position { x: 0, y: 1 },
            Direction::East => Position { x: 1, y: 0 },
            Direction::West => Position { x: -1, y: 0 },
            Direction::South => Position { x: 0, y: -1 },
        }
    }
}

impl<'a> vstd::std_specs::convert::FromSpecImpl<&'a Direction> for Position {
    open spec fn obeys_from_spec() -> bool {
        true
    }

    open spec fn from_spec(d: &'a Direction) -> Position {
        d.offset()
    }
}

/// An instruction to the robot: take `steps` unit steps towards `direction`.
#[derive(PartialEq, Eq, Structural, Debug, Clone, Copy)]
pub struct Command {
    pub direction: Direction,
    pub steps: i32,
}

impl Command {
    /// How many unit steps the command makes; a negative count makes none.
    pub open spec fn step_count(self) -> nat {
        if self.steps > 0 {
            self.steps as nat
        } else {
            0
        }
    }
}

} // verus!
