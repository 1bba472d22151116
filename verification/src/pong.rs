//! Pong: one ball between the player's paddle at the left and the
//! opponent's paddle at the right, under a scoreboard.

pub mod components;
pub mod systems;
pub mod lemmas;
