use vstd::prelude::*;

verus! {

/// A two-dimensional point or vector with integer components.
#[derive(Clone, Copy, Debug, PartialEq, Eq, Structural)]
pub struct Vec2 {
    pub x: i64,
    pub y: i64,
}

/// Absolute value, as a mathematical integer.
pub open spec fn abs_i(v: int) -> int {
    if v < 0 {
        -v
    } else {
        v
    }
}

/// Absolute value of an `i64`.
pub fn abs64(v: i64) -> (r: i64)
    requires
        v > i64::MIN,
    ensures
        r == abs_i(v as int),
{
    if v < 0 {
        -v
    } else {
        v
    }
}

} // verus!
