//! A two-player Pong simulation core: paddles moved by held keys, a ball
//! that bounces between walls and paddles, and a running score.
//!
//! Coordinates, velocities and screen dimensions are integer units; elapsed
//! time is supplied in milliseconds. The per-frame update is a total function
//! over that state; windowing, input polling and rendering live outside this
//! library and hand it plain values.

pub mod constants;
pub mod game;
pub mod utilities;
pub mod vec2;
