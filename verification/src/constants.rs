use vstd::prelude::*;

verus! {

/// Horizontal gap between a racket's inner face and its field edge.
pub const RACKET_PADDING: i64 = 20;
/// Full height of a racket.
pub const RACKET_HEIGHT: i64 = 100;
/// Full width of a racket.
pub const RACKET_WIDTH: i64 = 20;
/// Half the racket height; rackets are anchored at their center.
pub const RACKET_HEIGHT_HALF: i64 = 50;
/// Half the racket width.
pub const RACKET_WIDTH_HALF: i64 = 10;
/// Side length of the ball's bounding square.
pub const BALL_SIZE: i64 = 30;
/// Half the ball size; the ball is anchored at its center.
pub const BALL_SIZE_HALF: i64 = 15;
/// Vertical racket speed, in units per second.
pub const PLAYER_SPEED: i64 = 500;
/// Magnitude of each axis of the ball's velocity after a serve, in units
/// per second.
pub const BALL_SPEED: i64 = 150;

/// Milliseconds in a second; velocities are per-second, elapsed time is
/// in milliseconds.
pub const MILLIS_PER_SECOND: i64 = 1000;

/// Largest magnitude a coordinate held in the simulation state may have.
pub const COORD_LIMIT: i64 = 1_000_000_000;
/// Largest magnitude a velocity component may have, in units per second.
pub const VEL_LIMIT: i64 = 1_000_000;
/// Largest elapsed time accepted for one frame, in milliseconds.
pub const DT_LIMIT: i64 = 1_000_000;
/// Largest screen dimension accepted, in units.
pub const SCREEN_LIMIT: i64 = 1_000_000;

} // verus!
