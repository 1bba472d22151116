//! The rules of the brick breaker, one function for each stage of a frame.

use vstd::prelude::*;
use crate::vector::Vector;
use crate::brick_breaker::components::BoundingCircle;
use crate::brick_breaker::components::Collider;
use crate::brick_breaker::components::Collision;
use crate::brick_breaker::components::CollisionEvent;
use crate::brick_breaker::components::Ball;
use crate::brick_breaker::components::Brick;
use crate::brick_breaker::components::Paddle;
use crate::brick_breaker::components::Velocity;
use crate::brick_breaker::components::GameState;
use crate::brick_breaker::components::Keys;
use crate::brick_breaker::components::World;
use crate::brick_breaker::components::BALL_RADIUS;
use crate::brick_breaker::components::BALL_SPEED;
use crate::brick_breaker::components::BRICK_LAST_COLUMN;
use crate::brick_breaker::components::BRICK_PAD_BOTTOM;
use crate::brick_breaker::components::BRICK_ROWS;
use crate::brick_breaker::components::BRICK_SPACE;
use crate::brick_breaker::components::PADDLE_PAD;
use crate::brick_breaker::components::PADDLE_SPEED;
use crate::brick_breaker::components::BRICK_HEIGHT;
use crate::brick_breaker::components::BRICK_WIDTH;
use crate::brick_breaker::components::PADDLE_HEIGHT;
use crate::brick_breaker::components::PADDLE_WIDTH;
use crate::brick_breaker::components::SCREEN_HEIGHT;
use crate::brick_breaker::components::SCREEN_WIDTH;
use crate::vector::is_scaled_component;
use crate::vector::lemma_scaled_is_unique;
use crate::vector::lemma_step_stays_in_range;
use crate::vector::MAX_ELAPSED;
use crate::vector::UNIT;

verus! {

/// `value` held between `low` and `high`.
pub open spec fn clamped(value: int, low: int, high: int) -> int {
    if value < low {
        low
    } else if value > high {
        high
    } else {
        value
    }
}

/// The point of the box nearest to `point`: `point` itself where it lies
/// inside, else the point of the border straight across from it.
pub open spec fn closest_point(bounding_box: Collider, point: Vector) -> (int, int) {
    (
        clamped(
            point.x as int,
            bounding_box.center.x - bounding_box.half_size.x,
            bounding_box.center.x + bounding_box.half_size.x,
        ),
        clamped(
            point.y as int,
            bounding_box.center.y - bounding_box.half_size.y,
            bounding_box.center.y + bounding_box.half_size.y,
        ),
    )
}

/// From the nearest point of the box to the centre of the ball.
pub open spec fn offset(ball: BoundingCircle, bounding_box: Collider) -> (int, int) {
    let (x, y) = closest_point(bounding_box, ball.center);
    (ball.center.x - x, ball.center.y - y)
}

/// The circle and the box share a point: the nearest point of the box is no
/// further from the centre than the radius.
pub open spec fn intersects(ball: BoundingCircle, bounding_box: Collider) -> bool {
    let (dx, dy) = offset(ball, bounding_box);
    dx * dx + dy * dy <= ball.radius * ball.radius
}

pub open spec fn magnitude(value: int) -> int {
    if value < 0 {
        -value
    } else {
        value
    }
}

/// The side that the offset points away from: left or right where the offset
/// is longer along x than along y, else top or bottom.
pub open spec fn struck_side(dx: int, dy: int) -> Collision {
    if magnitude(dx) > magnitude(dy) {
        if dx < 0 {
            Collision::Left
        } else {
            Collision::Right
        }
    } else if dy > 0 {
        Collision::Top
    } else {
        Collision::Bottom
    }
}

/// The side of the box that the ball strikes, if it touches the box at all.
pub open spec fn collision_of(ball: BoundingCircle, bounding_box: Collider) -> Option<Collision> {
    if intersects(ball, bounding_box) {
        let (dx, dy) = offset(ball, bounding_box);
        Some(struck_side(dx, dy))
    } else {
        None
    }
}

fn clamp(value: i64, low: i64, high: i64) -> (r: i64)
    ensures
        r == clamped(value as int, low as int, high as int),
{
    if value < low {
        low
    } else if value > high {
        high
    } else {
        value
    }
}

fn abs(value: i64) -> (r: i64)
    requires
        value > i64::MIN,
    ensures
        r == magnitude(value as int),
{
    if value < 0 {
        -value
    } else {
        value
    }
}

/// Tells whether the ball touches the box and, if so, which side it strikes.
pub fn ball_collision(ball: BoundingCircle, bounding_box: Collider) -> (side: Option<Collision>)
    requires
        ball.wf(),
        bounding_box.wf(),
    ensures
        side == collision_of(ball, bounding_box),
{
    let closest_x = clamp(
        ball.center.x,
        bounding_box.center.x - bounding_box.half_size.x,
        bounding_box.center.x + bounding_box.half_size.x,
    );
    let closest_y = clamp(
        ball.center.y,
        bounding_box.center.y - bounding_box.half_size.y,
        bounding_box.center.y + bounding_box.half_size.y,
    );
    let dx: i64 = ball.center.x - closest_x;
    let dy: i64 = ball.center.y - closest_y;
    let wide_dx: i128 = dx as i128;
    let wide_dy: i128 = dy as i128;
    let wide_radius: i128 = ball.radius as i128;
    assert(wide_dx * wide_dx + wide_dy * wide_dy <= 0x7fff_ffff_ffff_ffff_ffff_ffff_ffff_ffff
        && wide_dx * wide_dx >= 0 && wide_dy * wide_dy >= 0 && wide_radius * wide_radius
        <= 0x7fff_ffff_ffff_ffff_ffff_ffff_ffff_ffff) by (nonlinear_arith)
        requires
            -6_000_000_000_000_000_000 <= wide_dx <= 6_000_000_000_000_000_000,
            -6_000_000_000_000_000_000 <= wide_dy <= 6_000_000_000_000_000_000,
            0 <= wide_radius <= 2_000_000_000_000_000_000,
    ;
    if wide_dx * wide_dx + wide_dy * wide_dy > wide_radius * wide_radius {
        return None;
    }
    let side = if abs(dx) > abs(dy) {
        if dx < 0 {
            Collision::Left
        } else {
            Collision::Right
        }
    } else if dy > 0 {
        Collision::Top
    } else {
        Collision::Bottom
    };
    Some(side)
}

/// The paddle held on the screen: where its left edge has passed the left
/// edge of the screen it stops and its centre is put one unit inside that
/// edge, and likewise at the right; elsewhere it is left as it is.
pub open spec fn paddle_clamped(paddle: Paddle) -> Paddle {
    if paddle.position.x - PADDLE_WIDTH / 2 < -SCREEN_WIDTH / 2 {
        Paddle {
            position: Vector { x: (-SCREEN_WIDTH / 2 + UNIT) as i64, y: paddle.position.y },
            velocity: Velocity(Vector { x: 0, y: paddle.velocity.0.y }),
        }
    } else if paddle.position.x + PADDLE_WIDTH / 2 > SCREEN_WIDTH / 2 {
        Paddle {
            position: Vector { x: (SCREEN_WIDTH / 2 - UNIT) as i64, y: paddle.position.y },
            velocity: Velocity(Vector { x: 0, y: paddle.velocity.0.y }),
        }
    } else {
        paddle
    }
}

/// The velocity of the ball after it struck `side`: the component that
/// pointed into the box is reversed, and nothing else changes.
pub open spec fn reflected(velocity: Velocity, side: Option<Collision>) -> Velocity {
    let v = velocity.0;
    match side {
        Some(Collision::Left) if v.x > 0 => Velocity(Vector { x: (-v.x) as i64, y: v.y }),
        Some(Collision::Right) if v.x < 0 => Velocity(Vector { x: (-v.x) as i64, y: v.y }),
        Some(Collision::Top) if v.y < 0 => Velocity(Vector { x: v.x, y: (-v.y) as i64 }),
        Some(Collision::Bottom) if v.y > 0 => Velocity(Vector { x: v.x, y: (-v.y) as i64 }),
        _ => velocity,
    }
}

/// Whether the ball touches the brick.
pub open spec fn strikes(ball: Ball, brick: Brick) -> bool {
    collision_of(ball.circle(), brick.collider()).is_some()
}

/// The velocity of the ball after it has met each of `bricks` in turn.
pub open spec fn reflected_by_bricks(ball: Ball, bricks: Seq<Brick>) -> Velocity
    decreases bricks.len(),
{
    if bricks.len() == 0 {
        ball.velocity
    } else {
        reflected(
            reflected_by_bricks(ball, bricks.drop_last()),
            collision_of(ball.circle(), bricks.last().collider()),
        )
    }
}

/// Position and speed along one axis after the ball met the edges of the
/// screen, which lie `half_extent` to either side of the origin: where the
/// ball has passed an edge it is put back one unit inside it with its speed
/// reversed.
pub open spec fn bounced_along(position: int, speed: int, half_extent: int) -> (int, int) {
    if position - BALL_RADIUS < -half_extent {
        (-half_extent + BALL_RADIUS + UNIT, -speed)
    } else if position + BALL_RADIUS > half_extent {
        (half_extent - BALL_RADIUS - UNIT, -speed)
    } else {
        (position, speed)
    }
}

/// The ball after it met the four edges of the screen.
pub open spec fn bounced(ball: Ball) -> Ball {
    let (x, vx) = bounced_along(ball.position.x as int, ball.velocity.0.x as int, SCREEN_WIDTH / 2);
    let (y, vy) = bounced_along(
        ball.position.y as int,
        ball.velocity.0.y as int,
        SCREEN_HEIGHT / 2,
    );
    Ball {
        position: Vector { x: x as i64, y: y as i64 },
        velocity: Velocity(Vector { x: vx as i64, y: vy as i64 }),
    }
}

/// Holds the paddle on the screen.
pub fn clamp_paddle(paddle: &mut Paddle)
    requires
        old(paddle).wf(),
    ensures
        *final(paddle) == paddle_clamped(*old(paddle)),
        final(paddle).wf(),
{
    if paddle.position.x - PADDLE_WIDTH / 2 < -SCREEN_WIDTH / 2 {
        paddle.velocity.0.x = 0;
        paddle.position.x = -SCREEN_WIDTH / 2 + UNIT;
    } else if paddle.position.x + PADDLE_WIDTH / 2 > SCREEN_WIDTH / 2 {
        paddle.velocity.0.x = 0;
        paddle.position.x = SCREEN_WIDTH / 2 - UNIT;
    }
}

/// Turns the ball away from the side it struck.
pub fn reflect(velocity: Velocity, side: Option<Collision>) -> (r: Velocity)
    requires
        velocity.wf(),
    ensures
        r == reflected(velocity, side),
        r.wf(),
{
    let mut reflect_x = false;
    let mut reflect_y = false;
    match side {
        Some(Collision::Left) => reflect_x = velocity.0.x > 0,
        Some(Collision::Right) => reflect_x = velocity.0.x < 0,
        Some(Collision::Top) => reflect_y = velocity.0.y < 0,
        Some(Collision::Bottom) => reflect_y = velocity.0.y > 0,
        None => {},
    }
    let mut r = velocity;
    if reflect_x {
        r.0.x = -r.0.x;
    }
    if reflect_y {
        r.0.y = -r.0.y;
    }
    r
}

/// Sends the ball back from the edges of the screen.
pub fn bounce_off_edges(ball: &mut Ball)
    requires
        old(ball).wf(),
    ensures
        *final(ball) == bounced(*old(ball)),
        final(ball).wf(),
{
    if ball.position.y - BALL_RADIUS < -SCREEN_HEIGHT / 2 {
        ball.velocity.0.y = -ball.velocity.0.y;
        ball.position.y = -SCREEN_HEIGHT / 2 + BALL_RADIUS + UNIT;
    }
    if ball.position.y + BALL_RADIUS > SCREEN_HEIGHT / 2 {
        ball.velocity.0.y = -ball.velocity.0.y;
        ball.position.y = SCREEN_HEIGHT / 2 - BALL_RADIUS - UNIT;
    }
    if ball.position.x - BALL_RADIUS < -SCREEN_WIDTH / 2 {
        ball.velocity.0.x = -ball.velocity.0.x;
        ball.position.x = -SCREEN_WIDTH / 2 + BALL_RADIUS + UNIT;
    }
    if ball.position.x + BALL_RADIUS > SCREEN_WIDTH / 2 {
        ball.velocity.0.x = -ball.velocity.0.x;
        ball.position.x = SCREEN_WIDTH / 2 - BALL_RADIUS - UNIT;
    }
}

/// Every brick is a brick at a position.
pub open spec fn bricks_wf(bricks: Seq<Brick>) -> bool {
    forall|i: int| 0 <= i < bricks.len() ==> (#[trigger] bricks[i]).wf()
}

/// The bricks that the ball does not touch, in their order.
pub open spec fn bricks_left(ball: Ball, bricks: Seq<Brick>) -> Seq<Brick> {
    bricks.filter(|brick: Brick| !strikes(ball, brick))
}

/// The number of bricks that the ball touches.
pub open spec fn bricks_struck(ball: Ball, bricks: Seq<Brick>) -> nat {
    bricks.filter(|brick: Brick| strikes(ball, brick)).len()
}

/// The velocity of the ball after it has met the paddle, held on the screen,
/// and then each brick in turn.
pub open spec fn reflected_by_all(ball: Ball, paddle: Paddle, bricks: Seq<Brick>) -> Velocity {
    let met_paddle = Ball {
        position: ball.position,
        velocity: reflected(
            ball.velocity,
            collision_of(ball.circle(), paddle_clamped(paddle).collider()),
        ),
    };
    reflected_by_bricks(met_paddle, bricks)
}

/// The number of boxes that the ball touches: the paddle, held on the
/// screen, and the bricks.
pub open spec fn boxes_struck(ball: Ball, paddle: Paddle, bricks: Seq<Brick>) -> nat {
    let paddle_struck: nat = if collision_of(
        ball.circle(),
        paddle_clamped(paddle).collider(),
    ).is_some() {
        1
    } else {
        0
    };
    paddle_struck + bricks_struck(ball, bricks)
}

proof fn lemma_take_next(ball: Ball, bricks: Seq<Brick>, i: int)
    requires
        0 <= i < bricks.len(),
    ensures
        bricks_left(ball, bricks.take(i + 1)) == if strikes(ball, bricks[i]) {
            bricks_left(ball, bricks.take(i))
        } else {
            bricks_left(ball, bricks.take(i)).push(bricks[i])
        },
        bricks_struck(ball, bricks.take(i + 1)) == bricks_struck(ball, bricks.take(i)) + if strikes(
            ball,
            bricks[i],
        ) {
            1nat
        } else {
            0nat
        },
        reflected_by_bricks(ball, bricks.take(i + 1)) == reflected(
            reflected_by_bricks(ball, bricks.take(i)),
            collision_of(ball.circle(), bricks[i].collider()),
        ),
{
    reveal(Seq::filter);
    let next = bricks.take(i + 1);
    assert(next.drop_last() == bricks.take(i));
    assert(next.last() == bricks[i]);
}

/// Resolves what the ball and the paddle ran into during this frame.
///
/// The paddle is held on the screen. The ball then meets the paddle and each
/// brick in turn and is turned away from every box it touches; every brick it
/// touches is removed, the others keep their order. At last the ball is sent
/// back from the edges of the screen. One event is returned for each box
/// that the ball touched.
pub fn check_collisions(ball: &mut Ball, paddle: &mut Paddle, bricks: &mut Vec<Brick>) -> (events:
    Vec<CollisionEvent>)
    requires
        old(ball).wf(),
        old(paddle).wf(),
        bricks_wf(old(bricks)@),
    ensures
        *final(paddle) == paddle_clamped(*old(paddle)),
        final(bricks)@ == bricks_left(*old(ball), old(bricks)@),
        *final(ball) == bounced(
            Ball {
                position: old(ball).position,
                velocity: reflected_by_all(*old(ball), *old(paddle), old(bricks)@),
            },
        ),
        events@.len() == boxes_struck(*old(ball), *old(paddle), old(bricks)@),
        final(ball).wf(),
        final(paddle).wf(),
        bricks_wf(final(bricks)@),
{
    let ghost ball_before = *ball;
    let ghost bricks_before = bricks@;
    let mut events: Vec<CollisionEvent> = Vec::new();
    let circle = BoundingCircle::new(ball.position, BALL_RADIUS);

    clamp_paddle(paddle);
    let paddle_box = Collider::new(
        paddle.position,
        Vector::new(PADDLE_WIDTH / 2, PADDLE_HEIGHT / 2),
    );
    let collision = ball_collision(circle, paddle_box);
    if collision.is_some() {
        events.push(CollisionEvent);
    }
    ball.velocity = reflect(ball.velocity, collision);
    let ghost met_paddle = *ball;
    let ghost paddle_hits = events@.len();

    let mut left: Vec<Brick> = Vec::new();
    let mut i: usize = 0;
    proof {
        reveal(Seq::filter);
        assert(bricks_before.take(0) =~= Seq::<Brick>::empty());
    }
    while i < bricks.len()
        invariant
            i <= bricks.len(),
            bricks@ == bricks_before,
            bricks_wf(bricks_before),
            bricks_wf(left@),
            ball_before.wf(),
            circle == ball_before.circle(),
            ball.position == ball_before.position,
            met_paddle.position == ball_before.position,
            ball.velocity.wf(),
            ball.velocity == reflected_by_bricks(met_paddle, bricks_before.take(i as int)),
            left@ == bricks_left(ball_before, bricks_before.take(i as int)),
            events@.len() == paddle_hits + bricks_struck(ball_before, bricks_before.take(i as int)),
        decreases bricks.len() - i,
    {
        let brick = bricks[i];
        let brick_box = Collider::new(
            brick.position,
            Vector::new(BRICK_WIDTH / 2, BRICK_HEIGHT / 2),
        );
        proof {
            lemma_take_next(ball_before, bricks_before, i as int);
            lemma_take_next(met_paddle, bricks_before, i as int);
        }
        let collision = ball_collision(circle, brick_box);
        if collision.is_some() {
            events.push(CollisionEvent);
        } else {
            left.push(brick);
        }
        ball.velocity = reflect(ball.velocity, collision);
        i += 1;
    }
    proof {
        assert(bricks_before.take(bricks_before.len() as int) =~= bricks_before);
    }
    *bricks = left;
    bounce_off_edges(ball);
    events
}

/// The brick that row `row`, counted from the lowest, holds in column
/// `column`, counted from the left. The columns stand a brick and one gap
/// apart, the rows a brick and two gaps, and the wall is laid out from the
/// left by what the columns that fit leave over, halved.
pub open spec fn brick_at(row: int, column: int) -> Brick {
    let left_over = SCREEN_WIDTH - BRICK_LAST_COLUMN * (BRICK_WIDTH + BRICK_SPACE * 2);
    let start_x = -SCREEN_WIDTH / 2 + left_over / 2;
    let start_y = -SCREEN_HEIGHT / 2 + BRICK_PAD_BOTTOM + BRICK_HEIGHT / 2;
    Brick {
        position: Vector {
            x: (start_x + column * (BRICK_WIDTH + BRICK_SPACE)) as i64,
            y: (start_y + row * (BRICK_HEIGHT + BRICK_SPACE * 2)) as i64,
        },
    }
}

/// The paddle as a game begins: at rest, in the middle, `PADDLE_PAD` above
/// the bottom edge.
pub open spec fn initial_paddle() -> Paddle {
    Paddle {
        position: Vector { x: 0, y: (-SCREEN_HEIGHT / 2 + PADDLE_PAD) as i64 },
        velocity: Velocity(Vector { x: 0, y: 0 }),
    }
}

/// The ball as a game begins: at rest above the middle of the paddle.
pub open spec fn initial_ball() -> Ball {
    Ball {
        position: Vector {
            x: 0,
            y: (-SCREEN_HEIGHT / 2 + PADDLE_PAD + PADDLE_HEIGHT + BALL_RADIUS / 2) as i64,
        },
        velocity: Velocity(Vector { x: 0, y: 0 }),
    }
}

/// The place in the wall of the brick of row `row` and column `column`.
pub open spec fn brick_index(row: int, column: int) -> int {
    row * (BRICK_LAST_COLUMN + 1) + column
}

proof fn lemma_layout(row: int, column: int)
    requires
        0 <= row <= BRICK_ROWS,
        0 <= column <= BRICK_LAST_COLUMN + 1,
    ensures
        brick_index(row, column) == row * 12 + column,
        column * (BRICK_WIDTH + BRICK_SPACE) == column * 101_000_000,
        row * (BRICK_HEIGHT + BRICK_SPACE * 2) == row * 32_000_000,
        BRICK_LAST_COLUMN * (BRICK_WIDTH + BRICK_SPACE * 2) == 1_122_000_000,
{
    assert(row * (BRICK_LAST_COLUMN + 1) == row * 12) by (nonlinear_arith)
        requires
            BRICK_LAST_COLUMN + 1 == 12,
    ;
    assert(column * (BRICK_WIDTH + BRICK_SPACE) == column * 101_000_000) by (nonlinear_arith)
        requires
            BRICK_WIDTH + BRICK_SPACE == 101_000_000,
    ;
    assert(row * (BRICK_HEIGHT + BRICK_SPACE * 2) == row * 32_000_000) by (nonlinear_arith)
        requires
            BRICK_HEIGHT + BRICK_SPACE * 2 == 32_000_000,
    ;
    assert(BRICK_LAST_COLUMN * (BRICK_WIDTH + BRICK_SPACE * 2) == 1_122_000_000)
        by (nonlinear_arith)
        requires
            BRICK_LAST_COLUMN == 11,
            BRICK_WIDTH + BRICK_SPACE * 2 == 102_000_000,
    ;
}

/// Lays out a new game: the paddle, the ball on it, and the wall of bricks
/// row by row from the lowest, each row from the left.
pub fn setup() -> (world: World)
    ensures
        world.state == GameState::Start,
        world.paddle == initial_paddle(),
        world.ball == initial_ball(),
        world.bricks@.len() == BRICK_ROWS * (BRICK_LAST_COLUMN + 1),
        forall|row: int, column: int|
            0 <= row < BRICK_ROWS && 0 <= column <= BRICK_LAST_COLUMN ==> world.bricks@[brick_index(
                row,
                column,
            )] == #[trigger] brick_at(row, column),
        world.wf(),
{
    let paddle = Paddle {
        position: Vector::new(0, -SCREEN_HEIGHT / 2 + PADDLE_PAD),
        velocity: Velocity(Vector::zero()),
    };
    let ball = Ball {
        position: Vector::new(0, -SCREEN_HEIGHT / 2 + PADDLE_PAD + PADDLE_HEIGHT + BALL_RADIUS / 2),
        velocity: Velocity(Vector::zero()),
    };
    proof {
        lemma_layout(0, 0);
    }
    let left_over: i64 = SCREEN_WIDTH - BRICK_LAST_COLUMN * (BRICK_WIDTH + BRICK_SPACE * 2);
    let start_x: i64 = -SCREEN_WIDTH / 2 + left_over / 2;
    let start_y: i64 = -SCREEN_HEIGHT / 2 + BRICK_PAD_BOTTOM + BRICK_HEIGHT / 2;

    let mut bricks: Vec<Brick> = Vec::new();
    let mut row: i64 = 0;
    while row < BRICK_ROWS
        invariant
            0 <= row <= BRICK_ROWS,
            left_over == SCREEN_WIDTH - BRICK_LAST_COLUMN * (BRICK_WIDTH + BRICK_SPACE * 2),
            left_over == 158_000_000,
            start_x == -SCREEN_WIDTH / 2 + left_over / 2,
            start_y == -SCREEN_HEIGHT / 2 + BRICK_PAD_BOTTOM + BRICK_HEIGHT / 2,
            bricks@.len() == brick_index(row as int, 0),
            bricks_wf(bricks@),
            forall|r: int, c: int|
                0 <= r < row && 0 <= c <= BRICK_LAST_COLUMN ==> bricks@[brick_index(r, c)]
                    == #[trigger] brick_at(r, c),
        decreases BRICK_ROWS - row,
    {
        let mut column: i64 = 0;
        while column <= BRICK_LAST_COLUMN
            invariant
                0 <= row < BRICK_ROWS,
                0 <= column <= BRICK_LAST_COLUMN + 1,
                left_over == SCREEN_WIDTH - BRICK_LAST_COLUMN * (BRICK_WIDTH + BRICK_SPACE * 2),
                left_over == 158_000_000,
                start_x == -SCREEN_WIDTH / 2 + left_over / 2,
                start_y == -SCREEN_HEIGHT / 2 + BRICK_PAD_BOTTOM + BRICK_HEIGHT / 2,
                bricks@.len() == brick_index(row as int, column as int),
                bricks_wf(bricks@),
                forall|r: int, c: int|
                    (0 <= r < row && 0 <= c <= BRICK_LAST_COLUMN) || (r == row && 0 <= c < column)
                        ==> bricks@[brick_index(r, c)] == #[trigger] brick_at(r, c),
            decreases BRICK_LAST_COLUMN + 1 - column,
        {
            proof {
                lemma_layout(row as int, column as int);
                lemma_layout(row as int, column + 1);
                assert forall|r: int, c: int|
                    (0 <= r < row && 0 <= c <= BRICK_LAST_COLUMN) || (r == row && 0 <= c < column)
                    implies brick_index(r, c) < #[trigger] brick_index(row as int, column as int) by {
                    lemma_layout(r, c);
                }
            }
            let x: i64 = start_x + column * (BRICK_WIDTH + BRICK_SPACE);
            let y: i64 = start_y + row * (BRICK_HEIGHT + BRICK_SPACE * 2);
            bricks.push(Brick { position: Vector::new(x, y) });
            column += 1;
        }
        proof {
            lemma_layout(row as int, column as int);
            lemma_layout(row + 1, 0);
        }
        row += 1;
    }
    proof {
        lemma_layout(row as int, 0);
        assert(BRICK_ROWS * (BRICK_LAST_COLUMN + 1) == 132) by (nonlinear_arith)
            requires
                BRICK_ROWS == 11,
                BRICK_LAST_COLUMN == 11,
        ;
    }
    World { ball, paddle, bricks, state: GameState::Start }
}

/// The speed that the keys ask of the paddle: to the right while the right
/// key is held, else to the left while the left key is held, else none.
pub open spec fn paddle_speed(keys: Keys) -> int {
    if keys.right {
        PADDLE_SPEED as int
    } else if keys.left {
        -PADDLE_SPEED
    } else {
        0
    }
}

/// Whether the ball is launched in this frame: it still rests on the paddle
/// and the launch key went down.
pub open spec fn launches(state: GameState, keys: Keys) -> bool {
    state == GameState::Start && keys.launch
}

/// The velocity of the ball as it leaves the paddle: up and to the right at
/// equal speed along both axes, of length `BALL_SPEED` as nearly as whole
/// speeds allow.
pub open spec fn launch_velocity() -> Velocity {
    Velocity(Vector { x: 282, y: 282 })
}

/// The launch velocity is the diagonal brought to the length `BALL_SPEED`.
pub proof fn lemma_launch_velocity()
    ensures
        (Vector { x: BALL_SPEED, y: BALL_SPEED }).scaled(BALL_SPEED as int) == launch_velocity().0,
{
    let s = BALL_SPEED as int;
    assert(is_scaled_component(282, s, s, s)) by (nonlinear_arith)
        requires
            s == 400,
    ;
    lemma_scaled_is_unique(launch_velocity().0, Vector { x: BALL_SPEED, y: BALL_SPEED }, s);
}

/// The paddle driven by the keys: they set its speed along x.
pub open spec fn driven(paddle: Paddle, keys: Keys) -> Paddle {
    Paddle {
        position: paddle.position,
        velocity: Velocity(Vector { x: paddle_speed(keys) as i64, y: paddle.velocity.0.y }),
    }
}

/// The ball after the keys were read: launched, or as it was.
pub open spec fn released(ball: Ball, state: GameState, keys: Keys) -> Ball {
    if launches(state, keys) {
        Ball { position: ball.position, velocity: launch_velocity() }
    } else {
        ball
    }
}

/// The state after the keys were read: in play once the ball is launched.
pub open spec fn state_after(state: GameState, keys: Keys) -> GameState {
    if launches(state, keys) {
        GameState::InGame
    } else {
        state
    }
}

/// Reads the keys: drives the paddle and, while the ball rests on it,
/// launches the ball when asked to.
pub fn player_input(keys: Keys, paddle: &mut Paddle, ball: &mut Ball, state: &mut GameState)
    ensures
        *final(paddle) == driven(*old(paddle), keys),
        *final(ball) == released(*old(ball), *old(state), keys),
        *final(state) == state_after(*old(state), keys),
{
    if keys.right {
        paddle.velocity.0.x = PADDLE_SPEED;
    } else if keys.left {
        paddle.velocity.0.x = -PADDLE_SPEED;
    } else {
        paddle.velocity.0.x = 0;
    }
    if *state == GameState::Start {
        if keys.launch {
            let diagonal = Vector::new(BALL_SPEED, BALL_SPEED);
            ball.velocity = Velocity(diagonal.scaled_to(BALL_SPEED));
            proof {
                lemma_launch_velocity();
            }
            *state = GameState::InGame;
        }
    }
}

/// Moves the ball and the paddle, each at its velocity, for `elapsed`
/// microseconds.
pub fn update_position(elapsed: u64, ball: &mut Ball, paddle: &mut Paddle)
    requires
        old(ball).position.can_move_by(old(ball).velocity.0, elapsed),
        old(paddle).position.can_move_by(old(paddle).velocity.0, elapsed),
    ensures
        *final(ball) == old(ball).moved(elapsed),
        *final(paddle) == old(paddle).moved(elapsed),
        (final(ball).position.x as int, final(ball).position.y as int) == old(
            ball,
        ).position.moved_by(old(ball).velocity.0, elapsed),
        (final(paddle).position.x as int, final(paddle).position.y as int) == old(
            paddle,
        ).position.moved_by(old(paddle).velocity.0, elapsed),
        final(ball).position.is_position(),
        final(paddle).position.is_position(),
{
    ball.position = ball.position.advance(ball.velocity.0, elapsed);
    paddle.position = paddle.position.advance(paddle.velocity.0, elapsed);
}

/// The ball carried along by the paddle: straight above or below it.
pub open spec fn following(ball: Ball, paddle: Paddle) -> Ball {
    Ball {
        position: Vector { x: paddle.position.x, y: ball.position.y },
        velocity: ball.velocity,
    }
}

/// Keeps the ball that rests on the paddle above the paddle.
pub fn ball_follow(ball: &mut Ball, paddle: &Paddle)
    ensures
        *final(ball) == following(*old(ball), *paddle),
{
    ball.position.x = paddle.position.x;
}

/// The paddle at the end of a frame: driven by the keys, moved, and held on
/// the screen.
pub open spec fn paddle_after(paddle: Paddle, keys: Keys, elapsed: u64) -> Paddle {
    paddle_clamped(driven(paddle, keys).moved(elapsed))
}

/// The ball as it meets the boxes in a frame: launched if the keys ask for
/// it, and moved.
pub open spec fn ball_in_flight(ball: Ball, state: GameState, keys: Keys, elapsed: u64) -> Ball {
    released(ball, state, keys).moved(elapsed)
}

/// The ball at the end of a frame: turned away from the boxes it met, sent
/// back from the edges of the screen and, while it still rests on the paddle,
/// carried along by the paddle.
pub open spec fn ball_after(
    ball: Ball,
    paddle: Paddle,
    bricks: Seq<Brick>,
    state: GameState,
    keys: Keys,
    elapsed: u64,
) -> Ball {
    let flying = ball_in_flight(ball, state, keys, elapsed);
    let turned = bounced(
        Ball {
            position: flying.position,
            velocity: reflected_by_all(flying, driven(paddle, keys).moved(elapsed), bricks),
        },
    );
    if state_after(state, keys) == GameState::Start {
        following(turned, paddle_after(paddle, keys, elapsed))
    } else {
        turned
    }
}

/// Plays one frame of `elapsed` microseconds: reads the keys, moves the ball
/// and the paddle, resolves what they ran into, and keeps a ball that still
/// rests on the paddle above it. One event is returned for each box that the
/// ball touched.
pub fn update(world: &mut World, keys: Keys, elapsed: u64) -> (events: Vec<CollisionEvent>)
    requires
        old(world).wf(),
        elapsed <= MAX_ELAPSED,
    ensures
        final(world).state == state_after(old(world).state, keys),
        final(world).paddle == paddle_after(old(world).paddle, keys, elapsed),
        final(world).bricks@ == bricks_left(
            ball_in_flight(old(world).ball, old(world).state, keys, elapsed),
            old(world).bricks@,
        ),
        final(world).ball == ball_after(
            old(world).ball,
            old(world).paddle,
            old(world).bricks@,
            old(world).state,
            keys,
            elapsed,
        ),
        events@.len() == boxes_struck(
            ball_in_flight(old(world).ball, old(world).state, keys, elapsed),
            driven(old(world).paddle, keys).moved(elapsed),
            old(world).bricks@,
        ),
        final(world).wf(),
{
    player_input(keys, &mut world.paddle, &mut world.ball, &mut world.state);
    proof {
        lemma_step_stays_in_range(world.ball.position, world.ball.velocity.0, elapsed);
        lemma_step_stays_in_range(world.paddle.position, world.paddle.velocity.0, elapsed);
    }
    update_position(elapsed, &mut world.ball, &mut world.paddle);
    let events = check_collisions(&mut world.ball, &mut world.paddle, &mut world.bricks);
    if world.state == GameState::Start {
        ball_follow(&mut world.ball, &world.paddle);
    }
    events
}

} // verus!
