//! What Pong is made of.

use vstd::prelude::*;
use crate::vector::Vector;
use crate::vector::MAX_COORD;
use crate::vector::MAX_ELAPSED;
use crate::vector::MAX_SPEED;
use crate::vector::MAX_START;

verus! {

/// Width of the screen; x runs from minus half of it to plus half of it.
pub const SCREEN_WIDTH: i64 = 1_280_000_000;

/// Height of the screen; y runs from minus half of it to plus half of it.
pub const SCREEN_HEIGHT: i64 = 720_000_000;

pub const PADDLE_WIDTH: i64 = 15_000_000;

pub const PADDLE_HEIGHT: i64 = 100_000_000;

/// Distance of a paddle's centre from its edge of the screen.
pub const PADDLE_PAD: i64 = 17_500_000;

pub const BALL_RADIUS: i64 = 8_000_000;

/// Speed of the ball, in logical units per second.
pub const BALL_SPEED: i64 = 400;

/// Speed of the driven paddle, in logical units per second.
pub const PADDLE_SPEED: i64 = 200;

/// Height of the strip along the top edge that the scoreboard takes up.
pub const SCOREBOARD_HEIGHT: i64 = 36_000_000;

/// Speed along each axis, in logical units per second.
#[derive(Clone, Copy, Debug, PartialEq, Eq, Structural)]
pub struct Velocity(pub Vector);

/// The ball: a circle of radius `BALL_RADIUS` around `position`.
#[derive(Clone, Copy, Debug, PartialEq, Eq, Structural)]
pub struct Ball {
    pub position: Vector,
    pub velocity: Velocity,
}

/// The paddle that the keys drive: a box of `PADDLE_WIDTH` by
/// `PADDLE_HEIGHT` centred on `position`.
#[derive(Clone, Copy, Debug, PartialEq, Eq, Structural)]
pub struct PlayerPaddle {
    pub position: Vector,
    pub velocity: Velocity,
}

/// The paddle that follows the ball by itself.
#[derive(Clone, Copy, Debug, PartialEq, Eq, Structural)]
pub struct OpponentPaddle {
    pub position: Vector,
}

/// How many points each side has won.
#[derive(Clone, Copy, Debug, PartialEq, Eq, Structural)]
pub struct Score {
    pub player: u32,
    pub opponent: u32,
}

/// The side that wins a point.
#[derive(Clone, Copy, Debug, PartialEq, Eq, Structural)]
pub enum Scorer {
    Opponent,
    Player,
}

/// Raised when the ball has reached the left or the right edge.
#[derive(Clone, Copy, Debug, PartialEq, Eq, Structural)]
pub struct Scored(pub Scorer);

/// The label that shows the player's points.
#[derive(Clone, Debug, PartialEq, Eq)]
pub struct PlayerScoreboard {
    pub text: String,
}

/// The label that shows the opponent's points.
#[derive(Clone, Debug, PartialEq, Eq)]
pub struct OpponentScoreboard {
    pub text: String,
}

/// The keys of Pong, as they stand in one frame.
#[derive(Clone, Copy, Debug, PartialEq, Eq, Structural)]
pub struct Keys {
    /// The key that drives the paddle upwards is held.
    pub up: bool,
    /// The key that drives the paddle downwards is held.
    pub down: bool,
}

/// Everything that Pong keeps from frame to frame.
#[derive(Clone, Debug, PartialEq, Eq)]
pub struct World {
    pub ball: Ball,
    pub player: PlayerPaddle,
    pub opponent: OpponentPaddle,
    pub score: Score,
    pub player_scoreboard: PlayerScoreboard,
    pub opponent_scoreboard: OpponentScoreboard,
}

impl Default for Score {
    fn default() -> (score: Score)
        ensures
            score.player == 0,
            score.opponent == 0,
    {
        Score { player: 0, opponent: 0 }
    }
}

impl Velocity {
    /// Both components are speeds that a body can have.
    pub open spec fn wf(self) -> bool {
        self.0.is_velocity()
    }
}

impl Ball {
    pub open spec fn wf(self) -> bool {
        self.position.is_position() && self.velocity.wf()
    }

    /// The ball after it flew on for `elapsed` microseconds.
    pub open spec fn moved(self, elapsed: u64) -> Ball {
        Ball {
            position: self.position.advanced(self.velocity.0, elapsed),
            velocity: self.velocity,
        }
    }
}

impl PlayerPaddle {
    pub open spec fn wf(self) -> bool {
        self.position.is_position() && self.velocity.wf()
    }

    /// The paddle after it slid on for `elapsed` microseconds.
    pub open spec fn moved(self, elapsed: u64) -> PlayerPaddle {
        PlayerPaddle {
            position: self.position.advanced(self.velocity.0, elapsed),
            velocity: self.velocity,
        }
    }
}

impl OpponentPaddle {
    pub open spec fn wf(self) -> bool {
        self.position.is_position()
    }
}

impl World {
    /// What holds of the game between two frames: every body is at a
    /// position, the ball at one from which it can move on, both paddles
    /// stand between the left and the right edge of the screen, and the
    /// driven paddle does not move sideways.
    pub open spec fn wf(self) -> bool {
        &&& self.ball.wf()
        &&& self.ball.position.is_start()
        &&& self.player.wf()
        &&& self.opponent.wf()
        &&& -SCREEN_WIDTH / 2 <= self.player.position.x <= SCREEN_WIDTH / 2
        &&& -SCREEN_WIDTH / 2 <= self.opponent.position.x <= SCREEN_WIDTH / 2
        &&& self.player.velocity.0.x == 0
    }
}

impl World {
    /// A frame of `elapsed` microseconds can be played: the time is no longer
    /// than a step may span, and the player's paddle stands where it can
    /// move on.
    pub open spec fn can_play(self, elapsed: u64) -> bool {
        &&& elapsed <= MAX_ELAPSED
        &&& self.player.position.is_start()
    }

    /// Tells whether the game is as it must be between two frames.
    pub fn is_wf(&self) -> (ok: bool)
        ensures
            ok == self.wf(),
    {
        self.ball.position.is_bounded_by(MAX_START) && self.ball.velocity.0.is_bounded_by(MAX_SPEED)
            && self.player.position.is_bounded_by(MAX_COORD)
            && self.player.velocity.0.is_bounded_by(MAX_SPEED)
            && self.opponent.position.is_bounded_by(MAX_COORD) && -SCREEN_WIDTH / 2
            <= self.player.position.x && self.player.position.x <= SCREEN_WIDTH / 2
            && -SCREEN_WIDTH / 2 <= self.opponent.position.x && self.opponent.position.x
            <= SCREEN_WIDTH / 2 && self.player.velocity.0.x == 0
    }

    /// Tells whether a frame of `elapsed` microseconds can be played.
    pub fn is_playable(&self, elapsed: u64) -> (ok: bool)
        ensures
            ok == self.can_play(elapsed),
    {
        elapsed <= MAX_ELAPSED && self.player.position.is_bounded_by(MAX_START)
    }
}

} // verus!
