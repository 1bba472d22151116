//! What follows from the rules of Pong.

use vstd::prelude::*;
use crate::vector::length_squared;
use crate::vector::lemma_scaled_exists;
use crate::vector::lemma_scaled_is_unique;
use crate::vector::lemma_scaled_length;
use crate::vector::Vector;
use crate::pong::components::Ball;
use crate::pong::components::Keys;
use crate::pong::components::OpponentPaddle;
use crate::pong::components::PlayerPaddle;
use crate::pong::components::Score;
use crate::pong::components::Scorer;
use crate::pong::components::Velocity;
use crate::pong::components::BALL_RADIUS;
use crate::pong::components::BALL_SPEED;
use crate::pong::components::PADDLE_HEIGHT;
use crate::pong::components::SCOREBOARD_HEIGHT;
use crate::pong::components::SCREEN_HEIGHT;
use crate::pong::components::SCREEN_WIDTH;
use crate::pong::systems::ball_after;
use crate::pong::systems::ball_in_flight;
use crate::pong::systems::bounced;
use crate::pong::systems::decimal;
use crate::pong::systems::frame_score;
use crate::pong::systems::frame_scorer;
use crate::pong::systems::label_text;
use crate::pong::systems::normalized;
use crate::pong::systems::opponent_clamped;
use crate::pong::systems::player_clamped;
use crate::pong::systems::reaches_limit;
use crate::pong::systems::score_after;
use crate::pong::systems::served;

verus! {

/// A ball that has reached the bottom edge or the scoreboard leaves it with
/// its speed along y reversed and then lies strictly between the two; a ball
/// that has reached neither keeps its height and its speed along y.
pub proof fn lemma_bounce_reverses_and_contains(
    ball: Ball,
    player: PlayerPaddle,
    opponent: OpponentPaddle,
)
    requires
        ball.wf(),
    ensures
        ball.position.y - BALL_RADIUS <= -SCREEN_HEIGHT / 2 || ball.position.y + BALL_RADIUS
            >= SCREEN_HEIGHT / 2 - SCOREBOARD_HEIGHT ==> bounced(ball, player, opponent).velocity.0.y
            == -ball.velocity.0.y,
        -SCREEN_HEIGHT / 2 < ball.position.y - BALL_RADIUS && ball.position.y + BALL_RADIUS
            < SCREEN_HEIGHT / 2 - SCOREBOARD_HEIGHT ==> bounced(ball, player, opponent).velocity.0.y
            == ball.velocity.0.y && bounced(ball, player, opponent).position.y == ball.position.y,
        -SCREEN_HEIGHT / 2 < bounced(ball, player, opponent).position.y - BALL_RADIUS,
        bounced(ball, player, opponent).position.y + BALL_RADIUS < SCREEN_HEIGHT / 2
            - SCOREBOARD_HEIGHT,
{
}

/// A paddle that is held lies on the field, between the bottom edge and the
/// scoreboard; the player's paddle is stopped where it has reached either,
/// whatever speed it had, and is left as it is where it has reached neither.
pub proof fn lemma_clamp_stops_and_contains(player: PlayerPaddle, opponent: OpponentPaddle)
    requires
        player.wf(),
        opponent.wf(),
    ensures
        -SCREEN_HEIGHT / 2 <= player_clamped(player).position.y - PADDLE_HEIGHT / 2,
        player_clamped(player).position.y + PADDLE_HEIGHT / 2 <= SCREEN_HEIGHT / 2
            - SCOREBOARD_HEIGHT,
        -SCREEN_HEIGHT / 2 <= opponent_clamped(opponent).position.y - PADDLE_HEIGHT / 2,
        opponent_clamped(opponent).position.y + PADDLE_HEIGHT / 2 <= SCREEN_HEIGHT / 2
            - SCOREBOARD_HEIGHT,
        reaches_limit(player.position.y as int) ==> player_clamped(player).velocity.0.y == 0,
        !reaches_limit(player.position.y as int) ==> player_clamped(player) == player,
        player_clamped(player).position.x == player.position.x,
        player_clamped(player).velocity.0.x == player.velocity.0.x,
        opponent_clamped(opponent).position.x == opponent.position.x,
{
}

/// A ball that moves is brought to a speed that is at most the speed of the
/// game and would be more if each component lay one further from zero; no
/// component changes its sign. A ball of exactly that speed, and a ball at
/// rest, are left as they are, and the ball stays where it is.
pub proof fn lemma_normalized_speed(ball: Ball)
    ensures
        normalized(ball).position == ball.position,
        ball.velocity.0.has_length(BALL_SPEED as int) ==> normalized(ball) == ball,
        ball.velocity.0.x == 0 && ball.velocity.0.y == 0 ==> normalized(ball) == ball,
        ball.velocity.0.x != 0 || ball.velocity.0.y != 0 ==> {
            let v = normalized(ball).velocity.0;
            &&& length_squared(v.x as int, v.y as int) <= BALL_SPEED * BALL_SPEED
            &&& BALL_SPEED * BALL_SPEED < length_squared(
                (if v.x < 0 {
                    -v.x
                } else {
                    v.x as int
                }) + 1,
                (if v.y < 0 {
                    -v.y
                } else {
                    v.y as int
                }) + 1,
            )
            &&& ball.velocity.0.x >= 0 ==> v.x >= 0
            &&& ball.velocity.0.x <= 0 ==> v.x <= 0
            &&& ball.velocity.0.y >= 0 ==> v.y >= 0
            &&& ball.velocity.0.y <= 0 ==> v.y <= 0
        },
{
    let direction = ball.velocity.0;
    if direction.x == 0 && direction.y == 0 {
        lemma_scaled_is_unique(direction, direction, BALL_SPEED as int);
    } else if !direction.has_length(BALL_SPEED as int) {
        let chosen = direction.scaled(BALL_SPEED as int);
        assert(exists|r: Vector| r.is_scaled_from(direction, BALL_SPEED as int)) by {
            lemma_scaled_exists(direction, BALL_SPEED as int);
        }
        lemma_scaled_length(chosen, direction, BALL_SPEED as int);
    } else {
        let a: int = if direction.x < 0 {
            -direction.x
        } else {
            direction.x as int
        };
        let b: int = if direction.y < 0 {
            -direction.y
        } else {
            direction.y as int
        };
        assert(length_squared(direction.x as int, direction.y as int) < length_squared(a + 1, b + 1))
            by (nonlinear_arith)
            requires
                a == direction.x || a == -direction.x,
                b == direction.y || b == -direction.y,
                a >= 0,
                b >= 0,
        ;
    }
}

/// A ball that reaches the left edge wins the opponent a point and the
/// player none, whatever the keys and the paddles do, and is served from the
/// middle of the screen, down and to the right. The opponent then has
/// exactly one point more, unless the counter was full.
pub proof fn lemma_left_edge_scores_for_opponent(
    ball: Ball,
    player: PlayerPaddle,
    opponent: OpponentPaddle,
    score: Score,
    keys: Keys,
    elapsed: u64,
)
    requires
        ball_in_flight(ball, elapsed).position.x - BALL_RADIUS <= -SCREEN_WIDTH / 2,
    ensures
        frame_scorer(ball, elapsed) == Some(Scorer::Opponent),
        score.opponent < u32::MAX ==> frame_score(score, ball, elapsed).opponent == score.opponent
            + 1,
        score.opponent == u32::MAX ==> frame_score(score, ball, elapsed).opponent == u32::MAX,
        frame_score(score, ball, elapsed).player == score.player,
        ball_after(ball, player, opponent, keys, elapsed) == (Ball {
            position: Vector { x: 0, y: 0 },
            velocity: Velocity(Vector { x: 400, y: -400i64 }),
        }),
{
}

/// A ball that reaches the right edge, and not the left, wins the player a
/// point and the opponent none, whatever the keys and the paddles do, and is
/// served from the middle of the screen, up and to the left. The player then
/// has exactly one point more, unless the counter was full.
pub proof fn lemma_right_edge_scores_for_player(
    ball: Ball,
    player: PlayerPaddle,
    opponent: OpponentPaddle,
    score: Score,
    keys: Keys,
    elapsed: u64,
)
    requires
        ball_in_flight(ball, elapsed).position.x - BALL_RADIUS > -SCREEN_WIDTH / 2,
        ball_in_flight(ball, elapsed).position.x + BALL_RADIUS >= SCREEN_WIDTH / 2,
    ensures
        frame_scorer(ball, elapsed) == Some(Scorer::Player),
        score.player < u32::MAX ==> frame_score(score, ball, elapsed).player == score.player + 1,
        score.player == u32::MAX ==> frame_score(score, ball, elapsed).player == u32::MAX,
        frame_score(score, ball, elapsed).opponent == score.opponent,
        ball_after(ball, player, opponent, keys, elapsed) == (Ball {
            position: Vector { x: 0, y: 0 },
            velocity: Velocity(Vector { x: -400i64, y: 400 }),
        }),
{
}

/// A point serves the ball from the middle of the screen whatever the ball
/// did before and whatever the score was: down and to the right after a
/// point for the opponent, up and to the left after a point for the player.
/// It counts for the side that won it, by exactly one unless that side's
/// counter was full, and leaves the other side's points as they were.
pub proof fn lemma_point_serves_and_counts(score: Score, scorer: Scorer)
    ensures
        served(Scorer::Opponent) == (Ball {
            position: Vector { x: 0, y: 0 },
            velocity: Velocity(Vector { x: 400, y: -400i64 }),
        }),
        served(Scorer::Player) == (Ball {
            position: Vector { x: 0, y: 0 },
            velocity: Velocity(Vector { x: -400i64, y: 400 }),
        }),
        scorer == Scorer::Opponent ==> score_after(score, scorer).player == score.player,
        scorer == Scorer::Player ==> score_after(score, scorer).opponent == score.opponent,
        scorer == Scorer::Opponent && score.opponent < u32::MAX ==> score_after(
            score,
            scorer,
        ).opponent == score.opponent + 1,
        scorer == Scorer::Player && score.player < u32::MAX ==> score_after(score, scorer).player
            == score.player + 1,
{
}

/// While the ball stays between the left and the right edge, nobody wins a
/// point.
pub proof fn lemma_no_edge_no_point(ball: Ball, score: Score, elapsed: u64)
    requires
        -SCREEN_WIDTH / 2 < ball_in_flight(ball, elapsed).position.x - BALL_RADIUS,
        ball_in_flight(ball, elapsed).position.x + BALL_RADIUS < SCREEN_WIDTH / 2,
    ensures
        frame_scorer(ball, elapsed).is_none(),
        frame_score(score, ball, elapsed) == score,
{
}

/// The scoreboards of a new game read "Player: 0" and "Opponent: 0".
pub proof fn lemma_first_labels()
    ensures
        label_text("Player: "@, 0) == "Player: 0"@,
        label_text("Opponent: "@, 0) == "Opponent: 0"@,
{
    reveal_strlit("Player: ");
    reveal_strlit("Player: 0");
    reveal_strlit("Opponent: ");
    reveal_strlit("Opponent: 0");
    assert(decimal(0) =~= seq!['0']);
    assert(label_text("Player: "@, 0) =~= "Player: 0"@);
    assert(label_text("Opponent: "@, 0) =~= "Opponent: 0"@);
}

} // verus!
