//! The four cardinal headings of an instruction pointer.
use vstd::prelude::*;

verus! {

/// A heading on the plane; `Down` grows `y`, `Right` grows `x`.
#[derive(Clone, Copy, Debug, PartialEq, Eq, Structural)]
pub enum Direction {
    Right,
    Left,
    Up,
    Down,
}

/// The horizontal component of the unit vector of `d`.
pub open spec fn spec_dx(d: Direction) -> int {
    match d {
        Direction::Right => 1,
        Direction::Left => -1,
        Direction::Up => 0,
        Direction::Down => 0,
    }
}

/// The vertical component of the unit vector of `d`.
pub open spec fn spec_dy(d: Direction) -> int {
    match d {
        Direction::Right => 0,
        Direction::Left => 0,
        Direction::Up => -1,
        Direction::Down => 1,
    }
}

/// The heading whose unit vector is `(dx, dy)`, if that is a cardinal unit vector.
pub open spec fn spec_from_dx_dy(dx: int, dy: int) -> Option<Direction> {
    if dx == 1 && dy == 0 {
        Some(Direction::Right)
    } else if dx == -1 && dy == 0 {
        Some(Direction::Left)
    } else if dx == 0 && dy == 1 {
        Some(Direction::Down)
    } else if dx == 0 && dy == -1 {
        Some(Direction::Up)
    } else {
        None
    }
}

impl Direction {
    /// The horizontal step taken when moving in this direction.
    pub fn dx(&self) -> (r: isize)
        ensures
            r == spec_dx(*self),
    {
        match self {
            Direction::Right => 1,
            Direction::Left => -1,
            Direction::Up => 0,
            Direction::Down => 0,
        }
    }

    /// The vertical step taken when moving in this direction.
    pub fn dy(&self) -> (r: isize)
        ensures
            r == spec_dy(*self),
    {
        match self {
            Direction::Right => 0,
            Direction::Left => 0,
            Direction::Up => -1,
            Direction::Down => 1,
        }
    }

    /// The inverse of `(dx, dy)` on the four unit vectors; `None` elsewhere.
    pub fn from_dx_dy(dx: isize, dy: isize) -> (r: Option<Direction>)
        ensures
            r == spec_from_dx_dy(dx as int, dy as int),
            r matches Some(d) ==> spec_dx(d) == dx && spec_dy(d) == dy,
    {
        match (dx, dy) {
            (1, 0) => Some(Direction::Right),
            (-1, 0) => Some(Direction::Left),
            (0, 1) => Some(Direction::Down),
            (0, -1) => Some(Direction::Up),
            _ => None,
        }
    }
}

} // verus!
