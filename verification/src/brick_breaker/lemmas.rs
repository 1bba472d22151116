//! What follows from the rules of the brick breaker.

use vstd::prelude::*;
use crate::brick_breaker::components::Ball;
use crate::brick_breaker::components::Brick;
use crate::brick_breaker::components::Collision;
use crate::brick_breaker::components::GameState;
use crate::brick_breaker::components::Keys;
use crate::brick_breaker::components::Paddle;
use crate::brick_breaker::components::Velocity;
use crate::brick_breaker::components::BALL_RADIUS;
use crate::brick_breaker::components::PADDLE_WIDTH;
use crate::brick_breaker::components::SCREEN_HEIGHT;
use crate::brick_breaker::components::SCREEN_WIDTH;
use crate::brick_breaker::systems::bounced;
use crate::brick_breaker::systems::bricks_left;
use crate::brick_breaker::systems::bricks_struck;
use crate::brick_breaker::systems::paddle_clamped;
use crate::brick_breaker::systems::reflected;
use crate::brick_breaker::systems::released;
use crate::brick_breaker::systems::state_after;
use crate::brick_breaker::systems::strikes;
use crate::vector::UNIT;

verus! {

/// A ball that has passed an edge of the screen leaves it with its speed
/// across that edge reversed, and a ball that has passed none keeps its speed;
/// either way the whole ball then lies between the edges, touching them at
/// most.
pub proof fn lemma_bounce_reverses_and_contains(ball: Ball)
    requires
        ball.wf(),
    ensures
        ball.position.x - BALL_RADIUS < -SCREEN_WIDTH / 2 || ball.position.x + BALL_RADIUS
            > SCREEN_WIDTH / 2 ==> bounced(ball).velocity.0.x == -ball.velocity.0.x,
        -SCREEN_WIDTH / 2 <= ball.position.x - BALL_RADIUS && ball.position.x + BALL_RADIUS
            <= SCREEN_WIDTH / 2 ==> bounced(ball).velocity.0.x == ball.velocity.0.x && bounced(
            ball,
        ).position.x == ball.position.x,
        ball.position.y - BALL_RADIUS < -SCREEN_HEIGHT / 2 || ball.position.y + BALL_RADIUS
            > SCREEN_HEIGHT / 2 ==> bounced(ball).velocity.0.y == -ball.velocity.0.y,
        -SCREEN_HEIGHT / 2 <= ball.position.y - BALL_RADIUS && ball.position.y + BALL_RADIUS
            <= SCREEN_HEIGHT / 2 ==> bounced(ball).velocity.0.y == ball.velocity.0.y && bounced(
            ball,
        ).position.y == ball.position.y,
        bounced(ball).inside_screen(),
        bounced(ball).wf(),
{
}

/// A paddle whose edge has passed the left or the right edge of the screen
/// is stopped along x, whatever speed it had, and its centre then stands one
/// unit inside the edge it had passed; a paddle that lies between the edges
/// is left as it is. Either way the centre then lies strictly between the
/// two edges, and nothing changes along y.
pub proof fn lemma_clamp_stops_and_contains(paddle: Paddle)
    requires
        paddle.wf(),
    ensures
        paddle.position.x - PADDLE_WIDTH / 2 < -SCREEN_WIDTH / 2 ==> paddle_clamped(
            paddle,
        ).velocity.0.x == 0 && paddle_clamped(paddle).position.x == -SCREEN_WIDTH / 2 + UNIT,
        -SCREEN_WIDTH / 2 <= paddle.position.x - PADDLE_WIDTH / 2 && paddle.position.x
            + PADDLE_WIDTH / 2 > SCREEN_WIDTH / 2 ==> paddle_clamped(paddle).velocity.0.x == 0
            && paddle_clamped(paddle).position.x == SCREEN_WIDTH / 2 - UNIT,
        -SCREEN_WIDTH / 2 <= paddle.position.x - PADDLE_WIDTH / 2 && paddle.position.x
            + PADDLE_WIDTH / 2 <= SCREEN_WIDTH / 2 ==> paddle_clamped(paddle) == paddle,
        -SCREEN_WIDTH / 2 < paddle_clamped(paddle).position.x < SCREEN_WIDTH / 2,
        paddle_clamped(paddle).position.y == paddle.position.y,
        paddle_clamped(paddle).velocity.0.y == paddle.velocity.0.y,
{
}

/// Striking the same side twice turns the ball no further than striking it
/// once: a speed that already points away from the box is not reversed again.
pub proof fn lemma_reflection_is_idempotent(velocity: Velocity, side: Option<Collision>)
    requires
        velocity.wf(),
    ensures
        reflected(reflected(velocity, side), side) == reflected(velocity, side),
{
}

/// After the ball struck a side, its speed does not point into the box: not
/// to the right at a left side, not to the left at a right side, not down at
/// a top, not up at a bottom. The speed along the other axis is as it was,
/// and the speed along the axis struck is as it was or reversed.
pub proof fn lemma_reflection_points_away(velocity: Velocity, side: Collision)
    requires
        velocity.wf(),
    ensures
        side == Collision::Left ==> reflected(velocity, Some(side)).0.x <= 0,
        side == Collision::Right ==> reflected(velocity, Some(side)).0.x >= 0,
        side == Collision::Top ==> reflected(velocity, Some(side)).0.y >= 0,
        side == Collision::Bottom ==> reflected(velocity, Some(side)).0.y <= 0,
        side == Collision::Left || side == Collision::Right ==> reflected(
            velocity,
            Some(side),
        ).0.y == velocity.0.y,
        side == Collision::Top || side == Collision::Bottom ==> reflected(
            velocity,
            Some(side),
        ).0.x == velocity.0.x,
        reflected(velocity, Some(side)).0.x == velocity.0.x || reflected(velocity, Some(side)).0.x
            == -velocity.0.x,
        reflected(velocity, Some(side)).0.y == velocity.0.y || reflected(velocity, Some(side)).0.y
            == -velocity.0.y,
{
}

/// A game that is in play stays in play whatever the keys do, and its ball is
/// not launched again; a game at its start stays there until the launch key
/// goes down.
pub proof fn lemma_play_begins_once(ball: Ball, state: GameState, keys: Keys)
    ensures
        state == GameState::InGame ==> state_after(state, keys) == GameState::InGame && released(
            ball,
            state,
            keys,
        ) == ball,
        state == GameState::Start && !keys.launch ==> state_after(state, keys) == GameState::Start
            && released(ball, state, keys) == ball,
        state == GameState::Start && keys.launch ==> state_after(state, keys) == GameState::InGame,
{
}

/// The bricks that are left are the bricks that the ball did not touch: none
/// that it touched stays, none that it missed goes, none comes that was not
/// there, and the wall shrinks by one for each brick touched.
pub proof fn lemma_struck_bricks_are_removed(ball: Ball, bricks: Seq<Brick>)
    ensures
        forall|brick: Brick| #[trigger]
            bricks_left(ball, bricks).contains(brick) <==> bricks.contains(brick) && !strikes(
                ball,
                brick,
            ),
        bricks_left(ball, bricks).len() + bricks_struck(ball, bricks) == bricks.len(),
    decreases bricks.len(),
{
    reveal(Seq::filter);
    let missed = |brick: Brick| !strikes(ball, brick);
    let touched = |brick: Brick| strikes(ball, brick);
    if bricks.len() > 0 {
        let before = bricks.drop_last();
        let last = bricks.last();
        lemma_struck_bricks_are_removed(ball, before);
        assert forall|brick: Brick| #[trigger]
            bricks_left(ball, bricks).contains(brick) <==> bricks.contains(brick) && !strikes(
                ball,
                brick,
            ) by {
            if bricks_left(ball, bricks).contains(brick) {
                let i = choose|i: int|
                    0 <= i < bricks_left(ball, bricks).len() && bricks_left(ball, bricks)[i]
                        == brick;
                if i < bricks_left(ball, before).len() {
                    assert(bricks_left(ball, before)[i] == brick);
                    assert(bricks_left(ball, before).contains(brick));
                    let j = choose|j: int| 0 <= j < before.len() && before[j] == brick;
                    assert(bricks[j] == brick);
                } else {
                    assert(brick == last);
                    assert(bricks[bricks.len() - 1] == brick);
                }
            }
            if bricks.contains(brick) && !strikes(ball, brick) {
                let j = choose|j: int| 0 <= j < bricks.len() && bricks[j] == brick;
                if j < before.len() {
                    assert(before[j] == brick);
                    assert(before.contains(brick));
                    assert(bricks_left(ball, before).contains(brick));
                    let i = choose|i: int|
                        0 <= i < bricks_left(ball, before).len() && bricks_left(ball, before)[i]
                            == brick;
                    assert(bricks_left(ball, bricks)[i] == brick);
                } else {
                    assert(brick == last);
                    assert(bricks_left(ball, bricks) == bricks_left(ball, before).push(last));
                    assert(bricks_left(ball, bricks)[bricks_left(ball, before).len() as int]
                        == brick);
                }
            }
        }
    }
}

/// A brick that the ball touched does not come back, wherever the ball goes
/// next.
pub proof fn lemma_removed_bricks_stay_removed(
    ball: Ball,
    later_ball: Ball,
    bricks: Seq<Brick>,
    brick: Brick,
)
    requires
        strikes(ball, brick),
    ensures
        !bricks_left(later_ball, bricks_left(ball, bricks)).contains(brick),
{
    lemma_struck_bricks_are_removed(ball, bricks);
    lemma_struck_bricks_are_removed(later_ball, bricks_left(ball, bricks));
}

} // verus!
