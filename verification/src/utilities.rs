use vstd::prelude::*;

verus! {

use crate::vec2::Vec2;

/// What `clamp` leaves behind: values below `low` are raised to `low`,
/// values above `high` are lowered to `high`, anything else is kept.
/// When `low > high` the first test wins, so a value below `low` lands
/// on `low` and every other value lands on `high`.
pub open spec fn clamped(v: int, low: int, high: int) -> int {
    if v < low {
        low
    } else if v > high {
        high
    } else {
        v
    }
}

/// Clamp `value` into `[low, high]`.
pub fn clamp(value: &mut i64, low: i64, high: i64)
    ensures
        *final(value) == clamped(*old(value) as int, low as int, high as int),
{
    if *value < low {
        *value = low;
    } else if *value > high {
        *value = high;
    }
}

/// Relies on rand::random::<bool>: a uniformly distributed boolean, drawn
/// fresh from the thread-local generator on every call.
#[verifier::external_body]
fn random_bool() -> bool {
    rand::random::<bool>()
}

/// Apply a sign choice to each axis of a pair of magnitudes: `positive`
/// keeps the magnitude, `!positive` negates it.
pub fn signed_vec(x: i64, y: i64, x_positive: bool, y_positive: bool) -> (r: Vec2)
    requires
        x > i64::MIN,
        y > i64::MIN,
    ensures
        r.x == (if x_positive { x as int } else { -(x as int) }),
        r.y == (if y_positive { y as int } else { -(y as int) }),
{
    Vec2 {
        x: if x_positive { x } else { -x },
        y: if y_positive { y } else { -y },
    }
}

/// Overwrite `vec` with `(±x, ±y)`: each sign is chosen by its own
/// independent 50/50 random draw, never by a shared one.
pub fn randomize_vec(vec: &mut Vec2, x: i64, y: i64)
    requires
        x > i64::MIN,
        y > i64::MIN,
    ensures
        final(vec).x == x || final(vec).x == -(x as int),
        final(vec).y == y || final(vec).y == -(y as int),
{
    let x_positive = random_bool();
    let y_positive = random_bool();
    *vec = signed_vec(x, y, x_positive, y_positive);
}

} // verus!
