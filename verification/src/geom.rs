//! Plain integer geometry for the game canvas: positions and the bounded
//! playground rectangle that every prototype draws inside.

use vstd::prelude::*;

verus! {

/// Largest magnitude a playground edge may have. Keeping every edge within
/// this bound keeps all of the tick arithmetic far away from `i64` overflow.
pub const COORD_LIMIT: i64 = 0x1000_0000_0000;

/// A point in game coordinates.
#[derive(Clone, Copy, PartialEq, Eq, Structural, Debug)]
pub struct Pos {
    pub x: i64,
    pub y: i64,
}

/// The bordered region the game is played in, as its four edges.
#[derive(Clone, Copy, PartialEq, Eq, Structural, Debug)]
pub struct Playground {
    pub left: i64,
    pub bottom: i64,
    pub right: i64,
    pub top: i64,
}

impl Playground {
    /// A well-formed playground has its edges ordered and within the
    /// coordinate limit.
    pub open spec fn wf(self) -> bool {
        &&& -COORD_LIMIT <= self.left <= self.right <= COORD_LIMIT
        &&& -COORD_LIMIT <= self.bottom <= self.top <= COORD_LIMIT
    }

    pub open spec fn spec_width(self) -> int {
        self.right - self.left
    }

    pub open spec fn spec_height(self) -> int {
        self.top - self.bottom
    }

    pub fn new(left: i64, bottom: i64, right: i64, top: i64) -> (r: Playground)
        requires
            -COORD_LIMIT <= left <= right <= COORD_LIMIT,
            -COORD_LIMIT <= bottom <= top <= COORD_LIMIT,
        ensures
            r == (Playground { left, bottom, right, top }),
            r.wf(),
    {
        Playground { left, bottom, right, top }
    }

    pub fn width(&self) -> (r: i64)
        requires
            self.wf(),
        ensures
            r == self.spec_width(),
    {
        self.right - self.left
    }

    pub fn height(&self) -> (r: i64)
        requires
            self.wf(),
        ensures
            r == self.spec_height(),
    {
        self.top - self.bottom
    }
}

} // verus!
