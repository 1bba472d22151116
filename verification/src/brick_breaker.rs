//! The brick breaker: one ball, one paddle along the bottom edge, and a wall
//! of bricks that the ball removes one by one.

pub mod components;
pub mod systems;
pub mod lemmas;
