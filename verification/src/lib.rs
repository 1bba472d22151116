//! Motion and collision rules for two small arcade games, a brick breaker and
//! a Pong, on exact integer arithmetic.
//!
//! Lengths are counted in millionths of a logical screen unit, time in
//! microseconds, and speeds in logical units per second, so that a speed
//! multiplied by an elapsed time is a length with no rounding.

pub mod vector;
pub mod brick_breaker;
pub mod pong;
