//! What the brick breaker is made of.

use vstd::prelude::*;
use crate::vector::Vector;
use crate::vector::MAX_COORD;
use crate::vector::MAX_SPEED;

verus! {

/// Width of the screen; x runs from minus half of it to plus half of it.
pub const SCREEN_WIDTH: i64 = 1_280_000_000;

/// Height of the screen; y runs from minus half of it to plus half of it.
pub const SCREEN_HEIGHT: i64 = 720_000_000;

pub const PADDLE_WIDTH: i64 = 100_000_000;

pub const PADDLE_HEIGHT: i64 = 10_000_000;

/// Distance of the paddle's centre from the bottom edge.
pub const PADDLE_PAD: i64 = 30_000_000;

/// Speed of a driven paddle, in logical units per second.
pub const PADDLE_SPEED: i64 = 500;

pub const BALL_RADIUS: i64 = 8_000_000;

/// Speed of the launched ball, in logical units per second.
pub const BALL_SPEED: i64 = 400;

pub const BRICK_WIDTH: i64 = 100_000_000;

pub const BRICK_HEIGHT: i64 = 30_000_000;

/// Room left free of bricks at the left and at the right edge.
pub const BRICK_PAD_LR: i64 = 30_000_000;

/// Room left free of bricks below the top edge.
pub const BRICK_PAD_TOP: i64 = 50_000_000;

/// Room left free of bricks above the bottom edge.
pub const BRICK_PAD_BOTTOM: i64 = 300_000_000;

/// Gap around each brick.
pub const BRICK_SPACE: i64 = 1_000_000;

/// Number of rows of bricks: as many as fit between the top and the bottom
/// room with a gap above and below each.
pub const BRICK_ROWS: i64 = 11;

/// Number of the last column of bricks, the first being column 0: as many
/// bricks as fit between the side rooms with a gap at either side of each.
pub const BRICK_LAST_COLUMN: i64 = 11;

/// Speed along each axis, in logical units per second.
#[derive(Clone, Copy, Debug, PartialEq, Eq, Structural)]
pub struct Velocity(pub Vector);

/// The ball: a circle of radius `BALL_RADIUS` around `position`.
#[derive(Clone, Copy, Debug, PartialEq, Eq, Structural)]
pub struct Ball {
    pub position: Vector,
    pub velocity: Velocity,
}

/// The paddle: a box of `PADDLE_WIDTH` by `PADDLE_HEIGHT` centred on `position`.
#[derive(Clone, Copy, Debug, PartialEq, Eq, Structural)]
pub struct Paddle {
    pub position: Vector,
    pub velocity: Velocity,
}

/// A brick: a box of `BRICK_WIDTH` by `BRICK_HEIGHT` centred on `position`.
#[derive(Clone, Copy, Debug, PartialEq, Eq, Structural)]
pub struct Brick {
    pub position: Vector,
}

/// The circle that stands for a round body in collision tests.
#[derive(Clone, Copy, Debug, PartialEq, Eq, Structural)]
pub struct BoundingCircle {
    pub center: Vector,
    pub radius: i64,
}

/// The axis-aligned box that the ball can strike: it reaches `half_size.x` to
/// either side of `center` and `half_size.y` above and below it.
#[derive(Clone, Copy, Debug, PartialEq, Eq, Structural)]
pub struct Collider {
    pub center: Vector,
    pub half_size: Vector,
}

/// The keys of the brick breaker, as they stand in one frame.
#[derive(Clone, Copy, Debug, PartialEq, Eq, Structural)]
pub struct Keys {
    /// The key that drives the paddle to the left is held.
    pub left: bool,
    /// The key that drives the paddle to the right is held; it has the say
    /// while both are held.
    pub right: bool,
    /// The key that launches the ball went down in this frame.
    pub launch: bool,
}

/// Everything that the brick breaker keeps from frame to frame.
#[derive(Clone, Debug, PartialEq, Eq)]
pub struct World {
    pub ball: Ball,
    pub paddle: Paddle,
    pub bricks: Vec<Brick>,
    pub state: GameState,
}

/// Raised once for each box that the ball struck.
#[derive(Clone, Copy, Debug, Default, PartialEq, Eq, Structural)]
pub struct CollisionEvent;

/// The side of a box that the ball struck.
#[derive(Clone, Copy, Debug, PartialEq, Eq, Structural)]
pub enum Collision {
    Left,
    Right,
    Top,
    Bottom,
}

/// Whether the ball still rests on the paddle or is in play.
#[derive(Clone, Copy, Debug, PartialEq, Eq, Hash, Structural)]
pub enum GameState {
    Start,
    InGame,
}

impl Default for GameState {
    fn default() -> (state: GameState)
        ensures
            state == GameState::Start,
    {
        GameState::Start
    }
}

impl Velocity {
    /// Both components are speeds that a body can have.
    pub open spec fn wf(self) -> bool {
        self.0.is_velocity()
    }
}

impl Ball {
    pub open spec fn wf(self) -> bool {
        self.position.is_position() && self.velocity.wf()
    }

    /// The centre of the ball lies on the screen.
    pub open spec fn on_screen(self) -> bool {
        &&& -SCREEN_WIDTH / 2 <= self.position.x <= SCREEN_WIDTH / 2
        &&& -SCREEN_HEIGHT / 2 <= self.position.y <= SCREEN_HEIGHT / 2
    }

    /// The whole ball lies between the edges of the screen; it may touch
    /// them.
    pub open spec fn inside_screen(self) -> bool {
        &&& -SCREEN_WIDTH / 2 <= self.position.x - BALL_RADIUS
        &&& self.position.x + BALL_RADIUS <= SCREEN_WIDTH / 2
        &&& -SCREEN_HEIGHT / 2 <= self.position.y - BALL_RADIUS
        &&& self.position.y + BALL_RADIUS <= SCREEN_HEIGHT / 2
    }

    /// The ball after it flew on for `elapsed` microseconds.
    pub open spec fn moved(self, elapsed: u64) -> Ball {
        Ball {
            position: self.position.advanced(self.velocity.0, elapsed),
            velocity: self.velocity,
        }
    }

    /// The circle that the ball fills.
    pub open spec fn circle(self) -> BoundingCircle {
        BoundingCircle { center: self.position, radius: BALL_RADIUS }
    }
}

impl Paddle {
    pub open spec fn wf(self) -> bool {
        self.position.is_position() && self.velocity.wf()
    }

    /// The centre of the paddle lies on the screen.
    pub open spec fn on_screen(self) -> bool {
        &&& -SCREEN_WIDTH / 2 <= self.position.x <= SCREEN_WIDTH / 2
        &&& -SCREEN_HEIGHT / 2 <= self.position.y <= SCREEN_HEIGHT / 2
    }

    /// The paddle after it slid on for `elapsed` microseconds.
    pub open spec fn moved(self, elapsed: u64) -> Paddle {
        Paddle {
            position: self.position.advanced(self.velocity.0, elapsed),
            velocity: self.velocity,
        }
    }

    /// The box that the paddle fills.
    pub open spec fn collider(self) -> Collider {
        Collider {
            center: self.position,
            half_size: Vector { x: (PADDLE_WIDTH / 2) as i64, y: (PADDLE_HEIGHT / 2) as i64 },
        }
    }
}

impl Brick {
    pub open spec fn wf(self) -> bool {
        self.position.is_position()
    }

    /// The box that the brick fills.
    pub open spec fn collider(self) -> Collider {
        Collider {
            center: self.position,
            half_size: Vector { x: (BRICK_WIDTH / 2) as i64, y: (BRICK_HEIGHT / 2) as i64 },
        }
    }
}

/// The rows and columns of bricks are as many as fit on the screen: the
/// height between the top and the bottom room holds `BRICK_ROWS` bricks with
/// their gaps and not one more, and the width between the side rooms holds
/// `BRICK_LAST_COLUMN` of them and not one more.
pub proof fn lemma_bricks_fit()
    ensures
        BRICK_ROWS * (BRICK_HEIGHT + BRICK_SPACE * 2) <= SCREEN_HEIGHT - BRICK_PAD_TOP
            - BRICK_PAD_BOTTOM < (BRICK_ROWS + 1) * (BRICK_HEIGHT + BRICK_SPACE * 2),
        BRICK_LAST_COLUMN * (BRICK_WIDTH + BRICK_SPACE * 2) <= SCREEN_WIDTH - BRICK_PAD_LR * 2 < (
        BRICK_LAST_COLUMN + 1) * (BRICK_WIDTH + BRICK_SPACE * 2),
{
}

impl World {
    /// What holds of the game between two frames: every body is at a
    /// position, the centres of the ball and of the paddle lie on the screen,
    /// and the paddle does not move up or down.
    pub open spec fn wf(self) -> bool {
        &&& self.ball.wf()
        &&& self.paddle.wf()
        &&& forall|i: int| 0 <= i < self.bricks@.len() ==> (#[trigger] self.bricks@[i]).wf()
        &&& self.ball.on_screen()
        &&& self.paddle.on_screen()
        &&& self.paddle.velocity.0.y == 0
    }

    /// Tells whether the game is as it must be between two frames.
    pub fn is_wf(&self) -> (ok: bool)
        ensures
            ok == self.wf(),
    {
        let bodies = self.ball.position.is_bounded_by(MAX_COORD)
            && self.ball.velocity.0.is_bounded_by(MAX_SPEED)
            && self.paddle.position.is_bounded_by(MAX_COORD)
            && self.paddle.velocity.0.is_bounded_by(MAX_SPEED);
        if !bodies {
            return false;
        }
        let ball = self.ball.position;
        let paddle = self.paddle.position;
        let on_screen = -SCREEN_WIDTH / 2 <= ball.x && ball.x <= SCREEN_WIDTH / 2 && -SCREEN_HEIGHT
            / 2 <= ball.y && ball.y <= SCREEN_HEIGHT / 2 && -SCREEN_WIDTH / 2 <= paddle.x
            && paddle.x <= SCREEN_WIDTH / 2 && -SCREEN_HEIGHT / 2 <= paddle.y && paddle.y
            <= SCREEN_HEIGHT / 2;
        if !on_screen || self.paddle.velocity.0.y != 0 {
            return false;
        }
        let mut i: usize = 0;
        while i < self.bricks.len()
            invariant
                i <= self.bricks.len(),
                forall|k: int| 0 <= k < i ==> (#[trigger] self.bricks@[k]).wf(),
            decreases self.bricks.len() - i,
        {
            if !self.bricks[i].position.is_bounded_by(MAX_COORD) {
                return false;
            }
            i += 1;
        }
        true
    }
}

impl BoundingCircle {
    /// The centre is a position and the radius is a length.
    pub open spec fn wf(self) -> bool {
        self.center.is_position() && 0 <= self.radius <= MAX_COORD
    }

    pub fn new(center: Vector, radius: i64) -> (circle: BoundingCircle)
        ensures
            circle.center == center,
            circle.radius == radius,
    {
        BoundingCircle { center, radius }
    }
}

impl Collider {
    /// The centre is a position and both half extents are lengths.
    pub open spec fn wf(self) -> bool {
        &&& self.center.is_position()
        &&& 0 <= self.half_size.x <= MAX_COORD
        &&& 0 <= self.half_size.y <= MAX_COORD
    }

    pub fn new(center: Vector, half_size: Vector) -> (collider: Collider)
        ensures
            collider.center == center,
            collider.half_size == half_size,
    {
        Collider { center, half_size }
    }
}

} // verus!
