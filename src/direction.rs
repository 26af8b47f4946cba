use vstd::prelude::*;

verus! {

/// Integer 2D vector, used for positions, sizes and offsets.
#[derive(Clone, Copy, Debug, PartialEq, Eq, Structural)]
pub struct IVec2 {
    pub x: i64,
    pub y: i64,
}

impl IVec2 {
    pub fn new(x: i64, y: i64) -> (r: IVec2)
        ensures
            r.x == x,
            r.y == y,
    {
        IVec2 { x, y }
    }
}

/// A compass facing.
#[derive(Clone, Copy, Debug, PartialEq, Eq, Structural)]
pub enum Direction {
    Up,
    Down,
    Left,
    Right,
}

/// The unit vector that a facing points along (y grows upward).
pub open spec fn unit_of(d: Direction) -> (int, int) {
    match d {
        Direction::Up => (0, 1),
        Direction::Down => (0, -1),
        Direction::Left => (-1, 0),
        Direction::Right => (1, 0),
    }
}

impl Direction {
    /// The unit vector of this facing.
    pub fn unit_vector(self) -> (r: IVec2)
        ensures
            (r.x as int, r.y as int) == unit_of(self),
    {
        match self {
            Direction::Up => IVec2 { x: 0, y: 1 },
            Direction::Down => IVec2 { x: 0, y: -1 },
            Direction::Left => IVec2 { x: -1, y: 0 },
            Direction::Right => IVec2 { x: 1, y: 0 },
        }
    }
}

/// The facing of a moving object this tick and the tick before.
#[derive(Clone, Copy, Debug, PartialEq, Eq, Structural)]
pub struct ObjectDirection {
    pub current_direction: Direction,
    pub previous_direction: Direction,
}

impl ObjectDirection {
    /// An object that faces `current` and has not turned.
    pub fn new(current: Direction) -> (r: ObjectDirection)
        ensures
            r.current_direction == current,
            r.previous_direction == current,
    {
        ObjectDirection { current_direction: current, previous_direction: current }
    }
}

} // verus!
