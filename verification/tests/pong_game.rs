use paddle_games::pong::components::Ball;
use paddle_games::pong::components::Keys;
use paddle_games::pong::components::OpponentPaddle;
use paddle_games::pong::components::OpponentScoreboard;
use paddle_games::pong::components::PlayerPaddle;
use paddle_games::pong::components::PlayerScoreboard;
use paddle_games::pong::components::Score;
use paddle_games::pong::components::Scored;
use paddle_games::pong::components::Scorer;
use paddle_games::pong::components::Velocity;
use paddle_games::pong::components::World;
use paddle_games::pong::systems::check_collisions;
use paddle_games::pong::systems::check_score_event;
use paddle_games::pong::systems::create_scoreboard;
use paddle_games::pong::systems::normalize_ball_speed;
use paddle_games::pong::systems::opponent_movement;
use paddle_games::pong::systems::player_movement;
use paddle_games::pong::systems::setup;
use paddle_games::pong::systems::update;
use paddle_games::pong::systems::update_position;
use paddle_games::pong::systems::update_scoreboard;
use paddle_games::vector::Vector;
use paddle_games::vector::UNIT;

const NO_KEYS: Keys = Keys { up: false, down: false };

fn at(x: i64, y: i64) -> Vector {
    Vector::new(x * UNIT, y * UNIT)
}

fn rest() -> Velocity {
    Velocity(Vector::new(0, 0))
}

fn ball(x: i64, y: i64, vx: i64, vy: i64) -> Ball {
    Ball { position: at(x, y), velocity: Velocity(Vector::new(vx, vy)) }
}

fn player(y: i64, vy: i64) -> PlayerPaddle {
    PlayerPaddle {
        position: Vector::new(-622_500_000, y * UNIT),
        velocity: Velocity(Vector::new(0, vy)),
    }
}

fn opponent(y: i64) -> OpponentPaddle {
    OpponentPaddle { position: Vector::new(622_500_000, y * UNIT) }
}

#[test]
fn score_starts_at_nil_nil() {
    assert_eq!(Score::default(), Score { player: 0, opponent: 0 });
}

#[test]
fn setup_places_ball_and_paddles() {
    let world = setup();
    assert_eq!(world.ball, ball(0, -36, -400, 400));
    assert_eq!(world.player, player(-36, 0));
    assert_eq!(world.opponent, opponent(-36));
    assert_eq!(world.score, Score { player: 0, opponent: 0 });
    assert_eq!(world.player_scoreboard.text, "Player: 0");
    assert_eq!(world.opponent_scoreboard.text, "Opponent: 0");
}

#[test]
fn new_scoreboards_show_no_points() {
    let (player_board, opponent_board) = create_scoreboard();
    assert_eq!(player_board, PlayerScoreboard { text: "Player: 0".to_string() });
    assert_eq!(opponent_board, OpponentScoreboard { text: "Opponent: 0".to_string() });
}

#[test]
fn up_key_drives_the_paddle_up() {
    let mut p = player(0, 0);
    player_movement(Keys { up: true, down: false }, &mut p);
    assert_eq!(p, player(0, 200));
}

#[test]
fn down_key_drives_the_paddle_down() {
    let mut p = player(0, 0);
    player_movement(Keys { up: false, down: true }, &mut p);
    assert_eq!(p, player(0, -200));
}

#[test]
fn up_key_wins_over_down_key() {
    let mut p = player(0, -200);
    player_movement(Keys { up: true, down: true }, &mut p);
    assert_eq!(p, player(0, 200));
}

#[test]
fn no_key_stops_the_player() {
    let mut p = player(0, 200);
    player_movement(NO_KEYS, &mut p);
    assert_eq!(p, player(0, 0));
}

#[test]
fn ball_at_speed_is_left_alone() {
    let mut b = ball(1, 2, 240, -320);
    normalize_ball_speed(&mut b);
    assert_eq!(b, ball(1, 2, 240, -320));
}

#[test]
fn served_ball_is_brought_to_speed() {
    let mut b = ball(0, 0, -400, 400);
    normalize_ball_speed(&mut b);
    assert_eq!(b, ball(0, 0, -282, 282));
    normalize_ball_speed(&mut b);
    assert_eq!(b, ball(0, 0, -282, 282));
}

#[test]
fn slow_ball_is_sped_up_along_its_way() {
    let mut b = ball(5, 5, 3, 4);
    normalize_ball_speed(&mut b);
    assert_eq!(b, ball(5, 5, 240, 320));
}

#[test]
fn resting_ball_stays_at_rest() {
    let mut b = ball(5, 5, 0, 0);
    normalize_ball_speed(&mut b);
    assert_eq!(b, ball(5, 5, 0, 0));
}

#[test]
fn ball_and_player_move_by_velocity_times_time() {
    let mut b = ball(640, 0, 400, 0);
    let mut p = player(10, -200);
    update_position(10_000, &mut b, &mut p);
    assert_eq!(b, ball(644, 0, 400, 0));
    assert_eq!(p, player(8, -200));
}

#[test]
fn opponent_stands_level_with_the_ball() {
    let mut o = opponent(-36);
    opponent_movement(&ball(100, 217, 1, 1), &mut o);
    assert_eq!(o, opponent(217));
}

#[test]
fn left_edge_reports_a_point_for_the_opponent() {
    let mut b = ball(-632, 500, -282, 282);
    let mut p = player(400, 200);
    let mut o = opponent(-400);
    let event = check_collisions(&mut b, &mut p, &mut o);
    assert_eq!(event, Some(Scored(Scorer::Opponent)));
    assert_eq!(b, ball(-632, 500, -282, 282));
    assert_eq!(p, player(400, 200));
    assert_eq!(o, opponent(-400));
}

#[test]
fn right_edge_reports_a_point_for_the_player() {
    let mut b = ball(632, 0, 282, 282);
    let mut p = player(0, 0);
    let mut o = opponent(0);
    let event = check_collisions(&mut b, &mut p, &mut o);
    assert_eq!(event, Some(Scored(Scorer::Player)));
    assert_eq!(b, ball(632, 0, 282, 282));
}

#[test]
fn one_step_inside_the_edges_is_no_point() {
    let mut b = Ball {
        position: Vector::new(-632 * UNIT + 1, 0),
        velocity: Velocity(Vector::new(-282, 282)),
    };
    let event = check_collisions(&mut b, &mut player(200, 0), &mut opponent(200));
    assert_eq!(event, None);
    let mut b = Ball {
        position: Vector::new(632 * UNIT - 1, 0),
        velocity: Velocity(Vector::new(282, 282)),
    };
    let event = check_collisions(&mut b, &mut player(200, 0), &mut opponent(200));
    assert_eq!(event, None);
}

#[test]
fn ball_bounces_off_the_bottom_edge() {
    let mut b = ball(0, -352, 282, -282);
    let event = check_collisions(&mut b, &mut player(0, 0), &mut opponent(0));
    assert_eq!(event, None);
    assert_eq!(b, ball(0, -351, 282, 282));
}

#[test]
fn ball_bounces_off_the_scoreboard() {
    let mut b = ball(0, 316, 282, 282);
    let event = check_collisions(&mut b, &mut player(0, 0), &mut opponent(0));
    assert_eq!(event, None);
    assert_eq!(b, ball(0, 315, 282, -282));
}

#[test]
fn ball_in_the_field_flies_on() {
    let mut b = ball(0, 315, 282, 282);
    let event = check_collisions(&mut b, &mut player(0, 0), &mut opponent(0));
    assert_eq!(event, None);
    assert_eq!(b, ball(0, 315, 282, 282));
}

#[test]
fn ball_bounces_off_the_player() {
    let mut b = ball(-610, 20, -282, 282);
    let mut p = player(0, 0);
    let event = check_collisions(&mut b, &mut p, &mut opponent(0));
    assert_eq!(event, None);
    assert_eq!(b.position, Vector::new(-606_000_000, 20 * UNIT));
    assert_eq!(b.velocity, Velocity(Vector::new(282, 282)));
    assert_eq!(p, player(0, 0));
}

#[test]
fn ball_bounces_off_the_opponent() {
    let mut b = ball(610, -20, 282, 282);
    let mut o = opponent(0);
    let event = check_collisions(&mut b, &mut player(0, 0), &mut o);
    assert_eq!(event, None);
    assert_eq!(b.position, Vector::new(606_000_000, -20 * UNIT));
    assert_eq!(b.velocity, Velocity(Vector::new(-282, 282)));
    assert_eq!(o, opponent(0));
}

#[test]
fn ball_passes_above_and_below_a_paddle() {
    let mut b = ball(-610, 59, -282, 282);
    check_collisions(&mut b, &mut player(0, 0), &mut opponent(0));
    assert_eq!(b, ball(-610, 59, -282, 282));
    let mut b = ball(-610, -59, -282, 282);
    check_collisions(&mut b, &mut player(0, 0), &mut opponent(0));
    assert_eq!(b, ball(-610, -59, -282, 282));
    let mut b = ball(-610, 58, -282, 282);
    check_collisions(&mut b, &mut player(0, 0), &mut opponent(0));
    assert_eq!(b.velocity, Velocity(Vector::new(282, 282)));
}

#[test]
fn paddle_bounce_goes_by_the_height_before_the_edge_bounce() {
    let mut b = ball(-610, -353, -282, -282);
    let mut p = player(-310, 0);
    let event = check_collisions(&mut b, &mut p, &mut opponent(0));
    assert_eq!(event, None);
    assert_eq!(b.position, Vector::new(-606_000_000, -351 * UNIT));
    assert_eq!(b.velocity, Velocity(Vector::new(282, 282)));
}

#[test]
fn player_is_held_under_the_scoreboard_and_stopped() {
    let mut p = player(300, 200);
    check_collisions(&mut ball(0, 0, 282, 282), &mut p, &mut opponent(0));
    assert_eq!(p, player(274, 0));
    let mut p = player(274, 200);
    check_collisions(&mut ball(0, 0, 282, 282), &mut p, &mut opponent(0));
    assert_eq!(p, player(274, 0));
}

#[test]
fn player_is_held_on_the_bottom_edge_and_stopped() {
    let mut p = player(-400, -200);
    check_collisions(&mut ball(0, 0, 282, 282), &mut p, &mut opponent(0));
    assert_eq!(p, player(-310, 0));
}

#[test]
fn player_in_the_field_is_left_alone() {
    let mut p = player(273, 200);
    check_collisions(&mut ball(0, 0, 282, 282), &mut p, &mut opponent(0));
    assert_eq!(p, player(273, 200));
    let mut p = player(-309, -200);
    check_collisions(&mut ball(0, 0, 282, 282), &mut p, &mut opponent(0));
    assert_eq!(p, player(-309, -200));
}

#[test]
fn opponent_is_held_on_the_field() {
    let mut o = opponent(350);
    check_collisions(&mut ball(0, 0, 282, 282), &mut player(0, 0), &mut o);
    assert_eq!(o, opponent(274));
    let mut o = opponent(-350);
    check_collisions(&mut ball(0, 0, 282, 282), &mut player(0, 0), &mut o);
    assert_eq!(o, opponent(-310));
    let mut o = opponent(100);
    check_collisions(&mut ball(0, 0, 282, 282), &mut player(0, 0), &mut o);
    assert_eq!(o, opponent(100));
}

#[test]
fn point_for_the_player_is_counted_and_served() {
    let mut b = ball(644, 0, 400, 0);
    let mut score = Score { player: 2, opponent: 5 };
    check_score_event(&mut b, &mut score, Some(Scored(Scorer::Player)));
    assert_eq!(score, Score { player: 3, opponent: 5 });
    assert_eq!(b, ball(0, 0, -400, 400));
}

#[test]
fn point_for_the_opponent_is_counted_and_served() {
    let mut b = ball(-644, 10, -400, 0);
    let mut score = Score { player: 2, opponent: 5 };
    check_score_event(&mut b, &mut score, Some(Scored(Scorer::Opponent)));
    assert_eq!(score, Score { player: 2, opponent: 6 });
    assert_eq!(b, ball(0, 0, 400, -400));
}

#[test]
fn no_point_changes_nothing() {
    let mut b = ball(7, 8, 282, 282);
    let mut score = Score { player: 2, opponent: 5 };
    check_score_event(&mut b, &mut score, None);
    assert_eq!(score, Score { player: 2, opponent: 5 });
    assert_eq!(b, ball(7, 8, 282, 282));
}

#[test]
fn the_last_point_that_fits_is_counted() {
    let mut b = ball(0, 0, 0, 0);
    let mut score = Score { player: u32::MAX - 1, opponent: u32::MAX };
    check_score_event(&mut b, &mut score, Some(Scored(Scorer::Player)));
    assert_eq!(score, Score { player: u32::MAX, opponent: u32::MAX });
}

#[test]
fn changed_score_is_shown() {
    let (mut player_board, mut opponent_board) = create_scoreboard();
    let score = Score { player: 12, opponent: 4_294_967_295 };
    update_scoreboard(&score, true, &mut player_board, &mut opponent_board);
    assert_eq!(player_board.text, "Player: 12");
    assert_eq!(opponent_board.text, "Opponent: 4294967295");
}

#[test]
fn unchanged_score_is_not_shown() {
    let (mut player_board, mut opponent_board) = create_scoreboard();
    let score = Score { player: 12, opponent: 7 };
    update_scoreboard(&score, false, &mut player_board, &mut opponent_board);
    assert_eq!(player_board.text, "Player: 0");
    assert_eq!(opponent_board.text, "Opponent: 0");
}

#[test]
fn labels_show_round_numbers_in_full() {
    let (mut player_board, mut opponent_board) = create_scoreboard();
    let score = Score { player: 10, opponent: 1_000 };
    update_scoreboard(&score, true, &mut player_board, &mut opponent_board);
    assert_eq!(player_board.text, "Player: 10");
    assert_eq!(opponent_board.text, "Opponent: 1000");
}

#[test]
fn ball_past_the_right_edge_scores_for_the_player() {
    let mut world = setup();
    world.ball = ball(640, 0, 400, 0);
    let event = update(&mut world, NO_KEYS, 10_000);
    assert_eq!(event, Some(Scored(Scorer::Player)));
    assert_eq!(world.ball, ball(0, 0, -400, 400));
    assert_eq!(world.score, Score { player: 1, opponent: 0 });
    assert_eq!(world.player_scoreboard.text, "Player: 1");
    assert_eq!(world.opponent_scoreboard.text, "Opponent: 0");
}

#[test]
fn ball_past_the_left_edge_scores_for_the_opponent() {
    let mut world = setup();
    world.ball = ball(-630, 100, -400, 0);
    world.score = Score { player: 3, opponent: 9 };
    let event = update(&mut world, NO_KEYS, 10_000);
    assert_eq!(event, Some(Scored(Scorer::Opponent)));
    assert_eq!(world.ball, ball(0, 0, 400, -400));
    assert_eq!(world.score, Score { player: 3, opponent: 10 });
    assert_eq!(world.player_scoreboard.text, "Player: 3");
    assert_eq!(world.opponent_scoreboard.text, "Opponent: 10");
}

#[test]
fn a_point_skips_the_holding_of_the_paddles() {
    let mut world = setup();
    world.ball = ball(630, 330, 400, 0);
    world.player = player(274, 0);
    let event = update(&mut world, Keys { up: true, down: false }, 10_000);
    assert_eq!(event, Some(Scored(Scorer::Player)));
    assert_eq!(world.player, player(276, 200));
    assert_eq!(world.opponent, opponent(330));
}

#[test]
fn a_frame_without_a_point_plays_on() {
    let mut world = setup();
    let event = update(&mut world, Keys { up: false, down: true }, 10_000);
    assert_eq!(event, None);
    assert_eq!(world.ball.velocity, Velocity(Vector::new(-282, 282)));
    assert_eq!(world.ball.position, Vector::new(-2_820_000, -36 * UNIT + 2_820_000));
    assert_eq!(world.player, player(-38, -200));
    assert_eq!(world.opponent.position, Vector::new(622_500_000, -36 * UNIT + 2_820_000));
    assert_eq!(world.score, Score { player: 0, opponent: 0 });
    assert_eq!(world.player_scoreboard.text, "Player: 0");
    assert_eq!(world.opponent_scoreboard.text, "Opponent: 0");
}

#[test]
fn a_served_ball_is_brought_to_speed_in_the_next_frame() {
    let mut world = setup();
    world.ball = ball(640, 0, 400, 0);
    update(&mut world, NO_KEYS, 10_000);
    assert_eq!(world.ball, ball(0, 0, -400, 400));
    let event = update(&mut world, NO_KEYS, 10_000);
    assert_eq!(event, None);
    assert_eq!(world.ball.velocity, Velocity(Vector::new(-282, 282)));
    assert_eq!(world.ball.position, Vector::new(-2_820_000, 2_820_000));
    assert_eq!(world.score, Score { player: 1, opponent: 0 });
}

#[test]
fn world_can_be_built_by_hand() {
    let (player_scoreboard, opponent_scoreboard) = create_scoreboard();
    let mut world = World {
        ball: ball(0, 0, 0, -400),
        player: player(0, 0),
        opponent: opponent(0),
        score: Score::default(),
        player_scoreboard,
        opponent_scoreboard,
    };
    let event = update(&mut world, NO_KEYS, 1_000_000);
    assert_eq!(event, None);
    assert_eq!(world.ball, ball(0, -351, 0, 400));
    assert_eq!(world.opponent, opponent(-310));
    assert_eq!(world.player, player(0, 0));
    assert_eq!(rest(), Velocity(Vector::new(0, 0)));
}

#[test]
fn a_new_game_is_well_formed_and_playable() {
    let world = setup();
    assert!(world.is_wf());
    assert!(world.is_playable(16_667));
    assert!(world.is_playable(1_000_000_000));
    assert!(!world.is_playable(1_000_000_001));
}

#[test]
fn a_full_counter_stays_full_and_the_ball_is_served() {
    let mut b = ball(-644, 10, -400, 0);
    let mut score = Score { player: 7, opponent: u32::MAX };
    check_score_event(&mut b, &mut score, Some(Scored(Scorer::Opponent)));
    assert_eq!(score, Score { player: 7, opponent: u32::MAX });
    assert_eq!(b, ball(0, 0, 400, -400));
    let mut b = ball(644, 10, 400, 0);
    let mut score = Score { player: u32::MAX, opponent: 7 };
    check_score_event(&mut b, &mut score, Some(Scored(Scorer::Player)));
    assert_eq!(score, Score { player: u32::MAX, opponent: 7 });
    assert_eq!(b, ball(0, 0, -400, 400));
}

#[test]
fn a_full_score_plays_on() {
    let mut world = setup();
    world.score = Score { player: u32::MAX, opponent: u32::MAX };
    assert!(world.is_playable(16_667));
    world.ball = ball(640, 0, 400, 0);
    let event = update(&mut world, NO_KEYS, 10_000);
    assert_eq!(event, Some(Scored(Scorer::Player)));
    assert_eq!(world.score, Score { player: u32::MAX, opponent: u32::MAX });
    assert_eq!(world.ball, ball(0, 0, -400, 400));
    assert_eq!(world.player_scoreboard.text, "Player: 4294967295");
    assert_eq!(world.opponent_scoreboard.text, "Opponent: 4294967295");
}

#[test]
fn the_serve_does_not_go_by_the_ball() {
    for (x, y, vx, vy) in [(0, 0, 0, 0), (-700, 300, -282, 282), (12, -350, 400, 0)] {
        let mut b = ball(x, y, vx, vy);
        let mut score = Score { player: 1, opponent: 2 };
        check_score_event(&mut b, &mut score, Some(Scored(Scorer::Opponent)));
        assert_eq!(b, ball(0, 0, 400, -400));
        assert_eq!(score, Score { player: 1, opponent: 3 });
    }
}

#[test]
fn a_paddle_far_away_cannot_play_on() {
    let mut world = setup();
    world.player.position.y = 1_000_000_000_000_000_001;
    assert!(world.is_wf());
    assert!(!world.is_playable(16_667));
    world.player.position.y = -1_000_000_000_000_000_000;
    assert!(world.is_playable(16_667));
}

#[test]
fn paddles_off_the_screen_are_not_well_formed() {
    let mut world = setup();
    world.player.position.x = -640 * UNIT - 1;
    assert!(!world.is_wf());
    let mut world = setup();
    world.opponent.position.x = 640 * UNIT + 1;
    assert!(!world.is_wf());
    let mut world = setup();
    world.player.velocity = Velocity(Vector::new(1, 0));
    assert!(!world.is_wf());
    let mut world = setup();
    world.ball.position.x = 1_000_000_000_000_000_001;
    assert!(!world.is_wf());
}

#[test]
fn a_game_stays_well_formed_and_keeps_count() {
    let mut world = setup();
    let mut points = 0;
    for frame in 0..5_000 {
        assert!(world.is_wf());
        assert!(world.is_playable(16_667));
        let keys = Keys { up: frame % 200 < 100, down: frame % 200 >= 100 };
        if update(&mut world, keys, 16_667).is_some() {
            points += 1;
        }
        assert_eq!(world.score.player + world.score.opponent, points);
    }
    assert_eq!(world.player_scoreboard.text, format!("Player: {}", world.score.player));
    assert_eq!(world.opponent_scoreboard.text, format!("Opponent: {}", world.score.opponent));
}
