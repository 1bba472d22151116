use paddle_games::brick_breaker::components::Ball;
use paddle_games::brick_breaker::components::BoundingCircle;
use paddle_games::brick_breaker::components::Brick;
use paddle_games::brick_breaker::components::Collider;
use paddle_games::brick_breaker::components::Collision;
use paddle_games::brick_breaker::components::Paddle;
use paddle_games::brick_breaker::components::Velocity;
use paddle_games::brick_breaker::systems::ball_collision;
use paddle_games::brick_breaker::systems::bounce_off_edges;
use paddle_games::brick_breaker::systems::check_collisions;
use paddle_games::brick_breaker::systems::clamp_paddle;
use paddle_games::brick_breaker::systems::reflect;
use paddle_games::vector::Vector;
use paddle_games::vector::UNIT;

fn at(x: i64, y: i64) -> Vector {
    Vector::new(x * UNIT, y * UNIT)
}

fn circle(x: i64, y: i64) -> BoundingCircle {
    BoundingCircle::new(at(x, y), 8 * UNIT)
}

fn brick_box(x: i64, y: i64) -> Collider {
    Collider::new(at(x, y), at(50, 15))
}

fn ball(x: i64, y: i64, vx: i64, vy: i64) -> Ball {
    Ball { position: at(x, y), velocity: Velocity(Vector::new(vx, vy)) }
}

fn paddle(x: i64, vx: i64) -> Paddle {
    Paddle { position: at(x, -330), velocity: Velocity(Vector::new(vx, 0)) }
}

#[test]
fn a_far_ball_strikes_nothing() {
    assert_eq!(ball_collision(circle(0, 100), brick_box(0, 0)), None);
    assert_eq!(ball_collision(circle(200, 0), brick_box(0, 0)), None);
}

#[test]
fn a_ball_that_just_touches_strikes() {
    assert_eq!(ball_collision(circle(0, 23), brick_box(0, 0)), Some(Collision::Top));
    assert_eq!(ball_collision(circle(58, 0), brick_box(0, 0)), Some(Collision::Right));
}

#[test]
fn a_ball_one_step_off_does_not_touch() {
    let above = BoundingCircle::new(Vector::new(0, 23 * UNIT + 1), 8 * UNIT);
    assert_eq!(ball_collision(above, brick_box(0, 0)), None);
    let beside = BoundingCircle::new(Vector::new(-58 * UNIT - 1, 0), 8 * UNIT);
    assert_eq!(ball_collision(beside, brick_box(0, 0)), None);
}

#[test]
fn each_side_is_told() {
    assert_eq!(ball_collision(circle(-55, 0), brick_box(0, 0)), Some(Collision::Left));
    assert_eq!(ball_collision(circle(55, 0), brick_box(0, 0)), Some(Collision::Right));
    assert_eq!(ball_collision(circle(0, 20), brick_box(0, 0)), Some(Collision::Top));
    assert_eq!(ball_collision(circle(0, -20), brick_box(0, 0)), Some(Collision::Bottom));
}

#[test]
fn a_corner_goes_by_the_longer_offset() {
    assert_eq!(ball_collision(circle(55, 18), brick_box(0, 0)), Some(Collision::Right));
    assert_eq!(ball_collision(circle(53, 20), brick_box(0, 0)), Some(Collision::Top));
    assert_eq!(ball_collision(circle(-53, -20), brick_box(0, 0)), Some(Collision::Bottom));
    assert_eq!(ball_collision(circle(54, 19), brick_box(0, 0)), Some(Collision::Top));
    assert_eq!(ball_collision(circle(54, -19), brick_box(0, 0)), Some(Collision::Bottom));
}

#[test]
fn a_corner_out_of_reach_is_missed() {
    assert_eq!(ball_collision(circle(56, 21), brick_box(0, 0)), None);
    assert_eq!(ball_collision(circle(57, 20), brick_box(0, 0)), None);
}

#[test]
fn a_ball_inside_the_box_strikes_the_bottom() {
    assert_eq!(ball_collision(circle(0, 0), brick_box(0, 0)), Some(Collision::Bottom));
    assert_eq!(ball_collision(circle(10, 5), brick_box(0, 0)), Some(Collision::Bottom));
}

#[test]
fn reflection_is_one_sided() {
    let v = |x: i64, y: i64| Velocity(Vector::new(x, y));
    assert_eq!(reflect(v(100, 50), Some(Collision::Left)), v(-100, 50));
    assert_eq!(reflect(v(-100, 50), Some(Collision::Left)), v(-100, 50));
    assert_eq!(reflect(v(-100, 50), Some(Collision::Right)), v(100, 50));
    assert_eq!(reflect(v(100, 50), Some(Collision::Right)), v(100, 50));
    assert_eq!(reflect(v(100, -50), Some(Collision::Top)), v(100, 50));
    assert_eq!(reflect(v(100, 50), Some(Collision::Top)), v(100, 50));
    assert_eq!(reflect(v(100, 50), Some(Collision::Bottom)), v(100, -50));
    assert_eq!(reflect(v(100, -50), Some(Collision::Bottom)), v(100, -50));
    assert_eq!(reflect(v(100, -50), None), v(100, -50));
    assert_eq!(reflect(v(0, 0), Some(Collision::Left)), v(0, 0));
}

#[test]
fn reflecting_twice_is_reflecting_once() {
    let sides = [
        Some(Collision::Left),
        Some(Collision::Right),
        Some(Collision::Top),
        Some(Collision::Bottom),
        None,
    ];
    for side in sides {
        for vx in [-200, 0, 200] {
            for vy in [-300, 0, 300] {
                let once = reflect(Velocity(Vector::new(vx, vy)), side);
                assert_eq!(reflect(once, side), once);
            }
        }
    }
}

#[test]
fn paddle_past_the_left_edge_is_put_back_and_stopped() {
    let mut p = paddle(-600, -500);
    clamp_paddle(&mut p);
    assert_eq!(p.position, at(-639, -330));
    assert_eq!(p.velocity, Velocity(Vector::new(0, 0)));
}

#[test]
fn paddle_driven_to_minus_650_is_put_back_and_stopped() {
    let mut p = paddle(-650, -500);
    clamp_paddle(&mut p);
    assert_eq!(p.position.x, -639 * UNIT);
    assert_eq!(p.position.y, -330 * UNIT);
    assert_eq!(p.velocity.0.x, 0);
    let mut q = paddle(-650, 500);
    clamp_paddle(&mut q);
    assert_eq!(q.position.x, -639 * UNIT);
    assert_eq!(q.velocity.0.x, 0);
}

#[test]
fn paddle_past_the_right_edge_is_put_back_and_stopped() {
    let mut p = paddle(600, 500);
    clamp_paddle(&mut p);
    assert_eq!(p.position, at(639, -330));
    assert_eq!(p.velocity, Velocity(Vector::new(0, 0)));
}

#[test]
fn paddle_on_the_screen_is_left_alone() {
    for x in [-590, -100, 0, 590] {
        let mut p = paddle(x, 500);
        clamp_paddle(&mut p);
        assert_eq!(p, paddle(x, 500));
    }
}

#[test]
fn paddle_is_clamped_only_once_past_the_edge() {
    let mut p = Paddle {
        position: Vector::new(-590 * UNIT - 1, -330 * UNIT),
        velocity: Velocity(Vector::new(-500, 0)),
    };
    clamp_paddle(&mut p);
    assert_eq!(p.position.x, -639 * UNIT);
    assert_eq!(p.velocity.0.x, 0);
    let mut p = Paddle {
        position: Vector::new(590 * UNIT + 1, -330 * UNIT),
        velocity: Velocity(Vector::new(500, 0)),
    };
    clamp_paddle(&mut p);
    assert_eq!(p.position.x, 639 * UNIT);
    assert_eq!(p.velocity.0.x, 0);
}

#[test]
fn paddle_put_back_is_held_where_it_is_put() {
    let mut p = paddle(-639, 500);
    clamp_paddle(&mut p);
    assert_eq!(p, paddle(-639, 0));
    let mut p = paddle(639, -500);
    clamp_paddle(&mut p);
    assert_eq!(p, paddle(639, 0));
}

#[test]
fn paddle_keeps_its_height_and_its_speed_along_y() {
    let mut p = Paddle { position: at(-700, 12), velocity: Velocity(Vector::new(-500, 7)) };
    clamp_paddle(&mut p);
    assert_eq!(p, Paddle { position: at(-639, 12), velocity: Velocity(Vector::new(0, 7)) });
}

#[test]
fn ball_bounces_off_each_edge() {
    let mut b = ball(0, -355, 10, -20);
    bounce_off_edges(&mut b);
    assert_eq!(b, ball(0, -351, 10, 20));
    let mut b = ball(0, 355, 10, 20);
    bounce_off_edges(&mut b);
    assert_eq!(b, ball(0, 351, 10, -20));
    let mut b = ball(-635, 0, -10, 20);
    bounce_off_edges(&mut b);
    assert_eq!(b, ball(-631, 0, 10, 20));
    let mut b = ball(635, 0, 10, 20);
    bounce_off_edges(&mut b);
    assert_eq!(b, ball(631, 0, -10, 20));
}

#[test]
fn ball_bounces_off_a_corner_along_both_axes() {
    let mut b = ball(700, -400, 30, -40);
    bounce_off_edges(&mut b);
    assert_eq!(b, ball(631, -351, -30, 40));
}

#[test]
fn ball_that_touches_an_edge_is_not_turned() {
    let mut b = ball(632, 352, 10, 20);
    bounce_off_edges(&mut b);
    assert_eq!(b, ball(632, 352, 10, 20));
    let mut b = ball(-632, -352, -10, -20);
    bounce_off_edges(&mut b);
    assert_eq!(b, ball(-632, -352, -10, -20));
}

#[test]
fn edge_bounce_turns_a_ball_that_comes_back_too() {
    let mut b = ball(0, 400, 10, -20);
    bounce_off_edges(&mut b);
    assert_eq!(b, ball(0, 351, 10, 20));
}

#[test]
fn struck_brick_is_removed_and_ball_turned() {
    let mut b = ball(0, -20, 100, 200);
    let mut p = paddle(0, 0);
    let mut bricks = vec![
        Brick { position: at(-200, 0) },
        Brick { position: at(0, 0) },
        Brick { position: at(200, 0) },
    ];
    let events = check_collisions(&mut b, &mut p, &mut bricks);
    assert_eq!(events.len(), 1);
    assert_eq!(bricks, vec![Brick { position: at(-200, 0) }, Brick { position: at(200, 0) }]);
    assert_eq!(b, ball(0, -20, 100, -200));
    assert_eq!(p, paddle(0, 0));
}

#[test]
fn struck_brick_does_not_come_back() {
    let mut b = ball(0, -20, 100, 200);
    let mut p = paddle(0, 0);
    let mut bricks = vec![Brick { position: at(0, 0) }, Brick { position: at(200, 0) }];
    let first = check_collisions(&mut b, &mut p, &mut bricks);
    assert_eq!(first.len(), 1);
    assert_eq!(bricks, vec![Brick { position: at(200, 0) }]);
    let second = check_collisions(&mut b, &mut p, &mut bricks);
    assert_eq!(second.len(), 0);
    assert_eq!(bricks, vec![Brick { position: at(200, 0) }]);
    assert_eq!(b, ball(0, -20, 100, -200));
}

#[test]
fn two_bricks_struck_at_once_both_go() {
    let mut b = ball(0, 0, 100, 200);
    let mut p = paddle(0, 0);
    let mut bricks = vec![
        Brick { position: at(-55, 0) },
        Brick { position: at(300, 100) },
        Brick { position: at(55, 0) },
    ];
    let events = check_collisions(&mut b, &mut p, &mut bricks);
    assert_eq!(events.len(), 2);
    assert_eq!(bricks, vec![Brick { position: at(300, 100) }]);
    assert_eq!(b, ball(0, 0, -100, 200));
}

#[test]
fn the_later_brick_has_the_last_word() {
    let mut b = ball(0, 0, -100, 200);
    let mut p = paddle(0, 0);
    let mut bricks = vec![Brick { position: at(55, 0) }, Brick { position: at(-55, 0) }];
    let events = check_collisions(&mut b, &mut p, &mut bricks);
    assert_eq!(events.len(), 2);
    assert!(bricks.is_empty());
    assert_eq!(b.velocity, Velocity(Vector::new(100, 200)));
}

#[test]
fn ball_is_turned_by_the_paddle_which_stays() {
    let mut b = ball(10, -320, 100, -200);
    let mut p = paddle(0, 500);
    let mut bricks: Vec<Brick> = Vec::new();
    let events = check_collisions(&mut b, &mut p, &mut bricks);
    assert_eq!(events.len(), 1);
    assert_eq!(b, ball(10, -320, 100, 200));
    assert_eq!(p, paddle(0, 500));
}

#[test]
fn paddle_is_clamped_before_the_ball_meets_it() {
    let mut b = ball(-600, -320, 100, -200);
    let mut p = paddle(-700, -500);
    let mut bricks: Vec<Brick> = Vec::new();
    let events = check_collisions(&mut b, &mut p, &mut bricks);
    assert_eq!(p, paddle(-639, 0));
    assert_eq!(events.len(), 1);
    assert_eq!(b, ball(-600, -320, 100, 200));
}

#[test]
fn nothing_struck_changes_nothing() {
    let mut b = ball(0, 0, 100, 200);
    let mut p = paddle(0, 500);
    let mut bricks = vec![Brick { position: at(0, 100) }];
    let events = check_collisions(&mut b, &mut p, &mut bricks);
    assert!(events.is_empty());
    assert_eq!(b, ball(0, 0, 100, 200));
    assert_eq!(p, paddle(0, 500));
    assert_eq!(bricks, vec![Brick { position: at(0, 100) }]);
}

#[test]
fn edges_are_met_after_the_boxes() {
    let mut b = ball(636, 0, 100, 200);
    let mut p = paddle(0, 0);
    let mut bricks = vec![Brick { position: at(690, 0) }];
    let events = check_collisions(&mut b, &mut p, &mut bricks);
    assert_eq!(events.len(), 1);
    assert!(bricks.is_empty());
    assert_eq!(b, ball(631, 0, 100, 200));
}
