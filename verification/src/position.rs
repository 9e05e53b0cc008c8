use vstd::prelude::*;

verus! {

/// Where a layer goes along one axis of its parent.
#[derive(Clone, Copy, Debug, PartialEq, Eq, Structural)]
pub enum Position {
    /// An offset from the parent's origin; it may be negative.
    Coord(i32),
    /// Half of the space that the parent leaves free.
    Center,
}

/// `n / 2` rounded toward zero: `half(-3) == -1`, where `-3 / 2` in a
/// contract is `-2`.
pub open spec fn half(n: int) -> int {
    if n >= 0 {
        n / 2
    } else {
        -((-n) / 2)
    }
}

impl Position {
    /// The coordinate that this position stands for when `size` is free.
    pub open spec fn resolve(self, size: int) -> int {
        match self {
            Position::Coord(x) => x as int,
            Position::Center => half(size),
        }
    }

    /// The offset itself for `Coord`, half of `size` rounded toward zero for
    /// `Center`.
    pub fn to_coord(&self, size: i32) -> (coord: i32)
        ensures
            coord == self.resolve(size as int),
    {
        match self {
            Position::Coord(x) => *x,
            Position::Center => size / 2,
        }
    }
}

} // verus!
