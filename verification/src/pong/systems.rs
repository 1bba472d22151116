//! The rules of Pong, one function for each stage of a frame.

use vstd::prelude::*;
use crate::vector::Vector;
use crate::vector::lemma_step_stays_in_range;
use crate::vector::UNIT;
use crate::pong::components::World;
use crate::pong::components::PADDLE_PAD;
use crate::pong::components::Ball;
use crate::pong::components::Keys;
use crate::pong::components::OpponentPaddle;
use crate::pong::components::OpponentScoreboard;
use crate::pong::components::PlayerScoreboard;
use crate::pong::components::PlayerPaddle;
use crate::pong::components::Score;
use crate::pong::components::Scored;
use crate::pong::components::Scorer;
use crate::pong::components::Velocity;
use crate::pong::components::BALL_RADIUS;
use crate::pong::components::BALL_SPEED;
use crate::pong::components::PADDLE_HEIGHT;
use crate::pong::components::PADDLE_SPEED;
use crate::pong::components::PADDLE_WIDTH;
use crate::pong::components::SCOREBOARD_HEIGHT;
use crate::pong::components::SCREEN_HEIGHT;
use crate::pong::components::SCREEN_WIDTH;

verus! {

/// Moves the ball and the driven paddle, each at its velocity, for `elapsed`
/// microseconds.
pub fn update_position(elapsed: u64, ball: &mut Ball, player: &mut PlayerPaddle)
    requires
        old(ball).position.can_move_by(old(ball).velocity.0, elapsed),
        old(player).position.can_move_by(old(player).velocity.0, elapsed),
    ensures
        *final(ball) == old(ball).moved(elapsed),
        *final(player) == old(player).moved(elapsed),
        (final(ball).position.x as int, final(ball).position.y as int) == old(
            ball,
        ).position.moved_by(old(ball).velocity.0, elapsed),
        (final(player).position.x as int, final(player).position.y as int) == old(
            player,
        ).position.moved_by(old(player).velocity.0, elapsed),
        final(ball).position.is_position(),
        final(player).position.is_position(),
{
    ball.position = ball.position.advance(ball.velocity.0, elapsed);
    player.position = player.position.advance(player.velocity.0, elapsed);
}

/// The ball at the speed of the game: a ball of that speed is left as it is,
/// any other keeps its direction and is brought to that speed.
pub open spec fn normalized(ball: Ball) -> Ball {
    if ball.velocity.0.has_length(BALL_SPEED as int) {
        ball
    } else {
        Ball {
            position: ball.position,
            velocity: Velocity(ball.velocity.0.scaled(BALL_SPEED as int)),
        }
    }
}

/// Brings the ball to the speed of the game.
pub fn normalize_ball_speed(ball: &mut Ball)
    requires
        old(ball).velocity.wf(),
    ensures
        *final(ball) == normalized(*old(ball)),
        final(ball).velocity.wf(),
{
    if !ball.velocity.0.is_of_length(BALL_SPEED) {
        ball.velocity = Velocity(ball.velocity.0.scaled_to(BALL_SPEED));
    }
}

/// The speed that the keys ask of the paddle: upwards while the up key is
/// held, else downwards while the down key is held, else none.
pub open spec fn paddle_speed(keys: Keys) -> int {
    if keys.up {
        PADDLE_SPEED as int
    } else if keys.down {
        -PADDLE_SPEED
    } else {
        0
    }
}

/// The paddle driven by the keys: they set its speed along y.
pub open spec fn driven(player: PlayerPaddle, keys: Keys) -> PlayerPaddle {
    PlayerPaddle {
        position: player.position,
        velocity: Velocity(Vector { x: player.velocity.0.x, y: paddle_speed(keys) as i64 }),
    }
}

/// Reads the keys and drives the player's paddle.
pub fn player_movement(keys: Keys, player: &mut PlayerPaddle)
    ensures
        *final(player) == driven(*old(player), keys),
{
    if keys.up {
        player.velocity.0.y = PADDLE_SPEED;
    } else if keys.down {
        player.velocity.0.y = -PADDLE_SPEED;
    } else {
        player.velocity.0.y = 0;
    }
}

/// The opponent's paddle level with the ball.
pub open spec fn tracking(opponent: OpponentPaddle, ball: Ball) -> OpponentPaddle {
    OpponentPaddle { position: Vector { x: opponent.position.x, y: ball.position.y } }
}

/// Puts the opponent's paddle level with the ball.
pub fn opponent_movement(ball: &Ball, opponent: &mut OpponentPaddle)
    ensures
        *final(opponent) == tracking(*old(opponent), *ball),
{
    opponent.position.y = ball.position.y;
}

/// The side that wins the point, if the ball has reached a scoring edge:
/// the opponent at the left edge, the player at the right edge.
pub open spec fn scorer_of(ball: Ball) -> Option<Scorer> {
    if ball.position.x - BALL_RADIUS <= -SCREEN_WIDTH / 2 {
        Some(Scorer::Opponent)
    } else if ball.position.x + BALL_RADIUS >= SCREEN_WIDTH / 2 {
        Some(Scorer::Player)
    } else {
        None
    }
}

/// Whether the ball has reached the right side of the player's paddle at the
/// height of the paddle.
pub open spec fn meets_player(ball: Ball, player: PlayerPaddle) -> bool {
    &&& ball.position.x - BALL_RADIUS <= player.position.x + PADDLE_WIDTH / 2
    &&& ball.position.y - BALL_RADIUS <= player.position.y + PADDLE_HEIGHT / 2
    &&& ball.position.y + BALL_RADIUS >= player.position.y - PADDLE_HEIGHT / 2
}

/// Whether the ball has reached the left side of the opponent's paddle at
/// the height of the paddle.
pub open spec fn meets_opponent(ball: Ball, opponent: OpponentPaddle) -> bool {
    &&& ball.position.x + BALL_RADIUS >= opponent.position.x - PADDLE_WIDTH / 2
    &&& ball.position.y - BALL_RADIUS <= opponent.position.y + PADDLE_HEIGHT / 2
    &&& ball.position.y + BALL_RADIUS >= opponent.position.y - PADDLE_HEIGHT / 2
}

/// Height and speed along y of the ball after it met the bottom edge of the
/// screen and the scoreboard: where it has reached one of them it is put one
/// unit inside it with its speed reversed.
pub open spec fn bounced_vertically(ball: Ball) -> (int, int) {
    if ball.position.y - BALL_RADIUS <= -SCREEN_HEIGHT / 2 {
        (-SCREEN_HEIGHT / 2 + BALL_RADIUS + UNIT, -ball.velocity.0.y)
    } else if ball.position.y + BALL_RADIUS >= SCREEN_HEIGHT / 2 - SCOREBOARD_HEIGHT {
        (SCREEN_HEIGHT / 2 - BALL_RADIUS - UNIT - SCOREBOARD_HEIGHT, -ball.velocity.0.y)
    } else {
        (ball.position.y as int, ball.velocity.0.y as int)
    }
}

/// Place and speed along x of the ball after it met the paddles: where it
/// has reached a paddle it is put one unit in front of it with its speed
/// reversed. The player's paddle is looked at first.
pub open spec fn bounced_sideways(ball: Ball, player: PlayerPaddle, opponent: OpponentPaddle) -> (
    int,
    int,
) {
    if meets_player(ball, player) {
        (player.position.x + PADDLE_WIDTH / 2 + BALL_RADIUS + UNIT, -ball.velocity.0.x)
    } else if meets_opponent(ball, opponent) {
        (opponent.position.x - PADDLE_WIDTH / 2 - BALL_RADIUS - UNIT, -ball.velocity.0.x)
    } else {
        (ball.position.x as int, ball.velocity.0.x as int)
    }
}

/// The ball after it met the edges and the paddles; both are judged by where
/// the ball stood before either moved it.
pub open spec fn bounced(ball: Ball, player: PlayerPaddle, opponent: OpponentPaddle) -> Ball {
    let (x, vx) = bounced_sideways(ball, player, opponent);
    let (y, vy) = bounced_vertically(ball);
    Ball {
        position: Vector { x: x as i64, y: y as i64 },
        velocity: Velocity(Vector { x: vx as i64, y: vy as i64 }),
    }
}

/// Whether a paddle at height `y` has reached the scoreboard with its upper
/// edge or the bottom edge of the screen with its lower edge.
pub open spec fn reaches_limit(y: int) -> bool {
    y + PADDLE_HEIGHT / 2 >= SCREEN_HEIGHT / 2 - SCOREBOARD_HEIGHT || y - PADDLE_HEIGHT / 2
        <= -SCREEN_HEIGHT / 2
}

/// The height at which a paddle is held on the field: under the scoreboard
/// where its upper edge has reached it, on the bottom edge where its lower
/// edge has reached that, else where it is.
pub open spec fn held_height(y: int) -> int {
    if y + PADDLE_HEIGHT / 2 >= SCREEN_HEIGHT / 2 - SCOREBOARD_HEIGHT {
        SCREEN_HEIGHT / 2 - PADDLE_HEIGHT / 2 - SCOREBOARD_HEIGHT
    } else if y - PADDLE_HEIGHT / 2 <= -SCREEN_HEIGHT / 2 {
        -SCREEN_HEIGHT / 2 + PADDLE_HEIGHT / 2
    } else {
        y
    }
}

/// The player's paddle held on the field; a paddle that is held stops.
pub open spec fn player_clamped(player: PlayerPaddle) -> PlayerPaddle {
    if !reaches_limit(player.position.y as int) {
        player
    } else {
        PlayerPaddle {
            position: Vector {
                x: player.position.x,
                y: held_height(player.position.y as int) as i64,
            },
            velocity: Velocity(Vector { x: player.velocity.0.x, y: 0 }),
        }
    }
}

/// The opponent's paddle held on the field.
pub open spec fn opponent_clamped(opponent: OpponentPaddle) -> OpponentPaddle {
    OpponentPaddle {
        position: Vector {
            x: opponent.position.x,
            y: held_height(opponent.position.y as int) as i64,
        },
    }
}

/// Resolves what the ball and the paddles ran into during this frame.
///
/// Where the ball has reached the left or the right edge, the point is
/// reported and nothing is changed. Otherwise the ball is sent back from the
/// bottom edge, the scoreboard and the paddles, and both paddles are held on
/// the field.
pub fn check_collisions(
    ball: &mut Ball,
    player: &mut PlayerPaddle,
    opponent: &mut OpponentPaddle,
) -> (event: Option<Scored>)
    requires
        old(ball).wf(),
        old(player).wf(),
        old(opponent).wf(),
    ensures
        event == match scorer_of(*old(ball)) {
            Some(scorer) => Some(Scored(scorer)),
            None => None,
        },
        event.is_some() ==> *final(ball) == *old(ball) && *final(player) == *old(player)
            && *final(opponent) == *old(opponent),
        event.is_none() ==> *final(ball) == bounced(*old(ball), *old(player), *old(opponent))
            && *final(player) == player_clamped(*old(player)) && *final(opponent)
            == opponent_clamped(*old(opponent)),
        final(ball).velocity.wf(),
        final(player).wf(),
        final(opponent).wf(),
{
    let ball_x = ball.position.x;
    let ball_y = ball.position.y;
    let player_x = player.position.x;
    let player_y = player.position.y;
    let opponent_x = opponent.position.x;
    let opponent_y = opponent.position.y;

    if ball_x - BALL_RADIUS <= -SCREEN_WIDTH / 2 {
        return Some(Scored(Scorer::Opponent));
    } else if ball_x + BALL_RADIUS >= SCREEN_WIDTH / 2 {
        return Some(Scored(Scorer::Player));
    }
    if ball_y - BALL_RADIUS <= -SCREEN_HEIGHT / 2 {
        ball.velocity.0.y = -ball.velocity.0.y;
        ball.position.y = -SCREEN_HEIGHT / 2 + BALL_RADIUS + UNIT;
    } else if ball_y + BALL_RADIUS >= SCREEN_HEIGHT / 2 - SCOREBOARD_HEIGHT {
        ball.velocity.0.y = -ball.velocity.0.y;
        ball.position.y = SCREEN_HEIGHT / 2 - BALL_RADIUS - UNIT - SCOREBOARD_HEIGHT;
    }
    if ball_x - BALL_RADIUS <= player_x + PADDLE_WIDTH / 2 && ball_y - BALL_RADIUS <= player_y
        + PADDLE_HEIGHT / 2 && ball_y + BALL_RADIUS >= player_y - PADDLE_HEIGHT / 2 {
        ball.velocity.0.x = -ball.velocity.0.x;
        ball.position.x = player_x + PADDLE_WIDTH / 2 + BALL_RADIUS + UNIT;
    } else if ball_x + BALL_RADIUS >= opponent_x - PADDLE_WIDTH / 2 && ball_y - BALL_RADIUS
        <= opponent_y + PADDLE_HEIGHT / 2 && ball_y + BALL_RADIUS >= opponent_y - PADDLE_HEIGHT
        / 2 {
        ball.velocity.0.x = -ball.velocity.0.x;
        ball.position.x = opponent_x - PADDLE_WIDTH / 2 - BALL_RADIUS - UNIT;
    }
    if player_y + PADDLE_HEIGHT / 2 >= SCREEN_HEIGHT / 2 - SCOREBOARD_HEIGHT {
        player.velocity.0.y = 0;
        player.position.y = SCREEN_HEIGHT / 2 - PADDLE_HEIGHT / 2 - SCOREBOARD_HEIGHT;
    } else if player_y - PADDLE_HEIGHT / 2 <= -SCREEN_HEIGHT / 2 {
        player.velocity.0.y = 0;
        player.position.y = -SCREEN_HEIGHT / 2 + PADDLE_HEIGHT / 2;
    }
    if opponent_y + PADDLE_HEIGHT / 2 >= SCREEN_HEIGHT / 2 - SCOREBOARD_HEIGHT {
        opponent.position.y = SCREEN_HEIGHT / 2 - PADDLE_HEIGHT / 2 - SCOREBOARD_HEIGHT;
    } else if opponent_y - PADDLE_HEIGHT / 2 <= -SCREEN_HEIGHT / 2 {
        opponent.position.y = -SCREEN_HEIGHT / 2 + PADDLE_HEIGHT / 2;
    }
    None
}

/// The ball as it is served after a point: from the middle of the screen,
/// towards the side that won the point, up and to the left after a point for
/// the player, down and to the right after a point for the opponent.
pub open spec fn served(scorer: Scorer) -> Ball {
    match scorer {
        Scorer::Player => Ball {
            position: Vector { x: 0, y: 0 },
            velocity: Velocity(Vector { x: (-BALL_SPEED) as i64, y: BALL_SPEED }),
        },
        Scorer::Opponent => Ball {
            position: Vector { x: 0, y: 0 },
            velocity: Velocity(Vector { x: BALL_SPEED, y: (-BALL_SPEED) as i64 }),
        },
    }
}

/// A counter of points after one more point: one higher, but for a counter
/// that is full, which stays as it is.
pub open spec fn counted(points: u32) -> u32 {
    if points < u32::MAX {
        (points + 1) as u32
    } else {
        points
    }
}

/// The score after `scorer` won a point: that side's points are counted up,
/// the other side's are as they were.
pub open spec fn score_after(score: Score, scorer: Scorer) -> Score {
    match scorer {
        Scorer::Player => Score { player: counted(score.player), opponent: score.opponent },
        Scorer::Opponent => Score { player: score.player, opponent: counted(score.opponent) },
    }
}

fn count(points: u32) -> (r: u32)
    ensures
        r == counted(points),
{
    if points < u32::MAX {
        points + 1
    } else {
        points
    }
}

/// Reacts to a point: counts it and serves the ball anew, whatever the ball
/// did before. Without a point nothing changes.
pub fn check_score_event(ball: &mut Ball, score: &mut Score, event: Option<Scored>)
    ensures
        event.is_none() ==> *final(ball) == *old(ball) && *final(score) == *old(score),
        event.is_some() ==> *final(ball) == served(event.unwrap().0) && *final(score)
            == score_after(*old(score), event.unwrap().0),
{
    match event {
        Some(Scored(Scorer::Player)) => {
            score.player = count(score.player);
            ball.position = Vector::zero();
            ball.velocity = Velocity(Vector::new(-BALL_SPEED, BALL_SPEED));
        },
        Some(Scored(Scorer::Opponent)) => {
            score.opponent = count(score.opponent);
            ball.position = Vector::zero();
            ball.velocity = Velocity(Vector::new(BALL_SPEED, -BALL_SPEED));
        },
        None => {},
    }
}

/// The character that stands for a single digit.
pub open spec fn digit(value: nat) -> char {
    (value + 48) as char
}

/// The digits of `value` in base ten, the highest first, with no leading
/// zero but for zero itself.
pub open spec fn decimal(value: nat) -> Seq<char>
    decreases value,
{
    if value < 10 {
        seq![digit(value)]
    } else {
        decimal(value / 10).push(digit(value % 10))
    }
}

/// What a scoreboard shows: the name of the side, then its points.
pub open spec fn label_text(name: Seq<char>, points: u32) -> Seq<char> {
    name + decimal(points as nat)
}

/// Writes a label with `format!`, which renders a string as it is and an
/// unsigned integer as its decimal digits: the text is `name` followed by
/// the digits of `points`.
#[verifier::external_body]
fn label(name: &str, points: u32) -> (text: String)
    ensures
        text@ == label_text(name@, points),
{
    format!("{}{}", name, points)
}

/// Makes the two scoreboards, each showing no points.
pub fn create_scoreboard() -> (boards: (PlayerScoreboard, OpponentScoreboard))
    ensures
        boards.0.text@ == label_text("Player: "@, 0),
        boards.1.text@ == label_text("Opponent: "@, 0),
{
    (
        PlayerScoreboard { text: label("Player: ", 0) },
        OpponentScoreboard { text: label("Opponent: ", 0) },
    )
}

/// Shows the score on the scoreboards if it has changed; else they are left
/// as they are.
pub fn update_scoreboard(
    score: &Score,
    changed: bool,
    player_scoreboard: &mut PlayerScoreboard,
    opponent_scoreboard: &mut OpponentScoreboard,
)
    ensures
        changed ==> final(player_scoreboard).text@ == label_text("Player: "@, score.player)
            && final(opponent_scoreboard).text@ == label_text("Opponent: "@, score.opponent),
        !changed ==> *final(player_scoreboard) == *old(player_scoreboard),
        !changed ==> *final(opponent_scoreboard) == *old(opponent_scoreboard),
{
    if changed {
        player_scoreboard.text = label("Player: ", score.player);
        opponent_scoreboard.text = label("Opponent: ", score.opponent);
    }
}

/// The ball as a game begins: level with the paddles, bound up and to the
/// left.
pub open spec fn initial_ball() -> Ball {
    Ball {
        position: Vector { x: 0, y: (-SCOREBOARD_HEIGHT) as i64 },
        velocity: Velocity(Vector { x: (-BALL_SPEED) as i64, y: BALL_SPEED }),
    }
}

/// The player's paddle as a game begins: at rest, `PADDLE_PAD` from the left
/// edge.
pub open spec fn initial_player() -> PlayerPaddle {
    PlayerPaddle {
        position: Vector {
            x: (-SCREEN_WIDTH / 2 + PADDLE_PAD) as i64,
            y: (-SCOREBOARD_HEIGHT) as i64,
        },
        velocity: Velocity(Vector { x: 0, y: 0 }),
    }
}

/// The opponent's paddle as a game begins: `PADDLE_PAD` from the right edge.
pub open spec fn initial_opponent() -> OpponentPaddle {
    OpponentPaddle {
        position: Vector {
            x: (SCREEN_WIDTH / 2 - PADDLE_PAD) as i64,
            y: (-SCOREBOARD_HEIGHT) as i64,
        },
    }
}

/// Lays out a new game: the ball, the two paddles, no points on either side
/// and scoreboards that say so.
pub fn setup() -> (world: World)
    ensures
        world.ball == initial_ball(),
        world.player == initial_player(),
        world.opponent == initial_opponent(),
        world.score == (Score { player: 0, opponent: 0 }),
        world.player_scoreboard.text@ == label_text("Player: "@, 0),
        world.opponent_scoreboard.text@ == label_text("Opponent: "@, 0),
        world.wf(),
{
    let (player_scoreboard, opponent_scoreboard) = create_scoreboard();
    World {
        ball: Ball {
            position: Vector::new(0, -SCOREBOARD_HEIGHT),
            velocity: Velocity(Vector::new(-BALL_SPEED, BALL_SPEED)),
        },
        player: PlayerPaddle {
            position: Vector::new(-SCREEN_WIDTH / 2 + PADDLE_PAD, -SCOREBOARD_HEIGHT),
            velocity: Velocity(Vector::zero()),
        },
        opponent: OpponentPaddle {
            position: Vector::new(SCREEN_WIDTH / 2 - PADDLE_PAD, -SCOREBOARD_HEIGHT),
        },
        score: Score { player: 0, opponent: 0 },
        player_scoreboard,
        opponent_scoreboard,
    }
}

/// The ball as it meets the edges and the paddles in a frame: at the speed
/// of the game, and moved.
pub open spec fn ball_in_flight(ball: Ball, elapsed: u64) -> Ball {
    normalized(ball).moved(elapsed)
}

/// The player's paddle as the ball meets it in a frame: driven by the keys,
/// and moved.
pub open spec fn player_in_motion(player: PlayerPaddle, keys: Keys, elapsed: u64) -> PlayerPaddle {
    driven(player, keys).moved(elapsed)
}

/// The side that wins a point in the frame, if any does.
pub open spec fn frame_scorer(ball: Ball, elapsed: u64) -> Option<Scorer> {
    scorer_of(ball_in_flight(ball, elapsed))
}

/// The ball at the end of a frame: served anew where a point was won, else
/// sent back from what it met.
pub open spec fn ball_after(
    ball: Ball,
    player: PlayerPaddle,
    opponent: OpponentPaddle,
    keys: Keys,
    elapsed: u64,
) -> Ball {
    let flying = ball_in_flight(ball, elapsed);
    match scorer_of(flying) {
        Some(scorer) => served(scorer),
        None => bounced(flying, player_in_motion(player, keys, elapsed), tracking(opponent, flying)),
    }
}

/// The player's paddle at the end of a frame: driven and moved, and held on
/// the field unless a point was won.
pub open spec fn player_after(ball: Ball, player: PlayerPaddle, keys: Keys, elapsed: u64)
    -> PlayerPaddle {
    if frame_scorer(ball, elapsed).is_some() {
        player_in_motion(player, keys, elapsed)
    } else {
        player_clamped(player_in_motion(player, keys, elapsed))
    }
}

/// The opponent's paddle at the end of a frame: level with the ball, and
/// held on the field unless a point was won.
pub open spec fn opponent_after(ball: Ball, opponent: OpponentPaddle, elapsed: u64)
    -> OpponentPaddle {
    let flying = ball_in_flight(ball, elapsed);
    if scorer_of(flying).is_some() {
        tracking(opponent, flying)
    } else {
        opponent_clamped(tracking(opponent, flying))
    }
}

/// The score at the end of a frame.
pub open spec fn frame_score(score: Score, ball: Ball, elapsed: u64) -> Score {
    match frame_scorer(ball, elapsed) {
        Some(scorer) => score_after(score, scorer),
        None => score,
    }
}

/// Plays one frame of `elapsed` microseconds: reads the keys, brings the
/// ball to speed, moves the ball and the player's paddle, puts the
/// opponent's paddle level with the ball, resolves what they ran into,
/// counts a point and serves anew where one was won, and shows a changed
/// score. The point won in this frame is returned.
pub fn update(world: &mut World, keys: Keys, elapsed: u64) -> (event: Option<Scored>)
    requires
        old(world).wf(),
        old(world).can_play(elapsed),
    ensures
        event == match frame_scorer(old(world).ball, elapsed) {
            Some(scorer) => Some(Scored(scorer)),
            None => None,
        },
        final(world).ball == ball_after(
            old(world).ball,
            old(world).player,
            old(world).opponent,
            keys,
            elapsed,
        ),
        final(world).player == player_after(old(world).ball, old(world).player, keys, elapsed),
        final(world).opponent == opponent_after(old(world).ball, old(world).opponent, elapsed),
        final(world).score == frame_score(old(world).score, old(world).ball, elapsed),
        event.is_some() ==> final(world).player_scoreboard.text@ == label_text(
            "Player: "@,
            final(world).score.player,
        ) && final(world).opponent_scoreboard.text@ == label_text(
            "Opponent: "@,
            final(world).score.opponent,
        ),
        event.is_none() ==> final(world).player_scoreboard == old(world).player_scoreboard
            && final(world).opponent_scoreboard == old(world).opponent_scoreboard,
        final(world).wf(),
{
    player_movement(keys, &mut world.player);
    normalize_ball_speed(&mut world.ball);
    proof {
        lemma_step_stays_in_range(world.ball.position, world.ball.velocity.0, elapsed);
        lemma_step_stays_in_range(world.player.position, world.player.velocity.0, elapsed);
    }
    update_position(elapsed, &mut world.ball, &mut world.player);
    opponent_movement(&world.ball, &mut world.opponent);
    let event = check_collisions(&mut world.ball, &mut world.player, &mut world.opponent);
    check_score_event(&mut world.ball, &mut world.score, event);
    update_scoreboard(
        &world.score,
        event.is_some(),
        &mut world.player_scoreboard,
        &mut world.opponent_scoreboard,
    );
    event
}

} // verus!
