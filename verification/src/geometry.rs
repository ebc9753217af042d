//! Coordinates, cardinal directions, and Manhattan distance.

use vstd::prelude::*;
use vstd::math;

verus! {

/// A cell address on the grid: `x` grows rightward, `y` grows upward.
#[derive(Clone, Copy, Debug, Hash, PartialEq, Eq, Structural)]
pub struct Coord {
    pub x: i32,
    pub y: i32,
}

/// One of the four cardinal moves.
#[derive(Clone, Copy, Debug, Hash, PartialEq, Eq, Structural)]
pub enum Dir {
    UP,
    DOWN,
    LEFT,
    RIGHT,
}

impl Dir {
    /// Horizontal displacement of one step in this direction.
    pub open spec fn dx(self) -> int {
        match self {
            Dir::LEFT => -1,
            Dir::RIGHT => 1,
            _ => 0,
        }
    }

    /// Vertical displacement of one step in this direction.
    pub open spec fn dy(self) -> int {
        match self {
            Dir::DOWN => -1,
            Dir::UP => 1,
            _ => 0,
        }
    }

    pub open spec fn spec_opposite(self) -> Dir {
        match self {
            Dir::UP => Dir::DOWN,
            Dir::DOWN => Dir::UP,
            Dir::LEFT => Dir::RIGHT,
            Dir::RIGHT => Dir::LEFT,
        }
    }

    /// The direction that undoes one step in this direction.
    pub fn opposite(self) -> (r: Dir)
        ensures
            r == self.spec_opposite(),
    {
        match self {
            Dir::UP => Dir::DOWN,
            Dir::DOWN => Dir::UP,
            Dir::LEFT => Dir::RIGHT,
            Dir::RIGHT => Dir::LEFT,
        }
    }
}

/// Manhattan distance between two cells: the sum of the absolute coordinate
/// differences. The grid has no diagonal moves, so this is the kernel's only
/// distance metric.
pub open spec fn spec_distance(c1: Coord, c2: Coord) -> int {
    (math::abs(c1.x - c2.x) + math::abs(c1.y - c2.y)) as int
}

impl Coord {
    /// The neighbouring cell one step in direction `d`.
    pub fn go(&self, d: Dir) -> (r: Coord)
        requires
            i32::MIN <= self.x + d.dx() <= i32::MAX,
            i32::MIN <= self.y + d.dy() <= i32::MAX,
        ensures
            r.x == self.x + d.dx(),
            r.y == self.y + d.dy(),
    {
        match d {
            Dir::UP => Coord { x: self.x, y: self.y + 1 },
            Dir::DOWN => Coord { x: self.x, y: self.y - 1 },
            Dir::LEFT => Coord { x: self.x - 1, y: self.y },
            Dir::RIGHT => Coord { x: self.x + 1, y: self.y },
        }
    }
}

/// Manhattan distance, executable form.
pub fn get_distance(c1: &Coord, c2: &Coord) -> (r: i32)
    requires
        spec_distance(*c1, *c2) <= i32::MAX,
    ensures
        r == spec_distance(*c1, *c2),
{
    let dx = if c1.x >= c2.x { c1.x - c2.x } else { c2.x - c1.x };
    let dy = if c1.y >= c2.y { c1.y - c2.y } else { c2.y - c1.y };
    dx + dy
}

} // verus!
