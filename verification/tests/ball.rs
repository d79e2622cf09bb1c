use pong::game::ball::{bind_ball, Ball, Edge};
use pong::game::shape::{bind_shape, in_collision, Collision, Shape};
use pong::game::units::{OFFSET_LIMIT, UNIT};

fn left_paddle() -> Shape {
    bind_shape(-9000, 0, 400, 2500)
}

fn right_paddle() -> Shape {
    bind_shape(9000, 0, 400, 2500)
}

fn ball_with(offset: (i64, i64), velocity: (i64, i64)) -> Ball {
    let mut ball = bind_ball();
    ball.shape.offset = offset;
    ball.shape.velocity = velocity;
    assert!(ball.is_wf());
    ball
}

#[test]
fn bound_ball_is_served_from_the_centre() {
    let ball = bind_ball();
    assert_eq!(ball.shape.start_location, (0, 0));
    assert_eq!(ball.shape.offset, (0, 0));
    assert_eq!(ball.shape.velocity, (-75, 50));
    assert_eq!(ball.shape.half_width, 200);
    assert_eq!(ball.shape.half_height, 200);
    assert!(ball.is_wf());
}

#[test]
fn ball_in_free_flight_advances_by_its_velocity() {
    let mut ball = bind_ball();
    let edge = ball.update(&left_paddle(), &right_paddle());
    assert_eq!(edge, Edge::Within);
    assert_eq!(ball.shape.offset, (-75, 50));
    assert_eq!(ball.shape.velocity, (-75, 50));
    let edge = ball.update(&left_paddle(), &right_paddle());
    assert_eq!(edge, Edge::Within);
    assert_eq!(ball.shape.offset, (-150, 100));
}

#[test]
fn move_x_reports_the_wall_and_leaves_the_ball_beyond_it() {
    let mut ball = ball_with((-9790, 0), (-75, 50));
    assert_eq!(ball.move_x(), Edge::Left);
    assert_eq!(ball.shape.offset, (-9865, 0));

    let mut ball = ball_with((9790, 0), (75, 50));
    assert_eq!(ball.move_x(), Edge::Right);
    assert_eq!(ball.shape.offset, (9865, 0));

    // An edge exactly on the wall has not passed it.
    let mut ball = ball_with((-9725, 0), (-75, 50));
    assert_eq!(ball.move_x(), Edge::Within);
    assert_eq!(ball.shape.left_edge(), -UNIT);
    let mut ball = ball_with((9725, 0), (75, 50));
    assert_eq!(ball.move_x(), Edge::Within);
    assert_eq!(ball.shape.right_edge(), UNIT);
}

#[test]
fn ball_wider_than_the_arena_scores_for_the_enemy_first() {
    let mut ball = Ball { shape: bind_shape(0, 0, 10_500, 200) };
    ball.shape.velocity = (75, 50);
    assert!(ball.is_wf());
    assert_eq!(ball.move_x(), Edge::Left);
}

#[test]
fn move_y_turns_the_ball_round_beyond_a_wall() {
    let mut ball = ball_with((0, 9990), (-75, 50));
    ball.move_y();
    assert_eq!(ball.shape.offset, (0, 10_040));
    assert_eq!(ball.shape.velocity, (-75, -50));
    ball.move_y();
    assert_eq!(ball.shape.offset, (0, 9990));
    assert_eq!(ball.shape.velocity, (-75, -50));

    let mut ball = ball_with((0, -9990), (-75, -50));
    ball.move_y();
    assert_eq!(ball.shape.offset, (0, -10_040));
    assert_eq!(ball.shape.velocity, (-75, 50));
}

#[test]
fn ball_exactly_on_a_wall_keeps_its_direction() {
    let mut ball = ball_with((0, 9950), (-75, 50));
    ball.move_y();
    assert_eq!(ball.shape.offset, (0, 10_000));
    assert_eq!(ball.shape.velocity, (-75, 50));
    ball.move_y();
    assert_eq!(ball.shape.offset, (0, 10_050));
    assert_eq!(ball.shape.velocity, (-75, -50));
}

#[test]
fn ball_past_the_left_wall_is_served_again() {
    let mut ball = ball_with((-10_100, 0), (-75, 0));
    let edge = ball.update(&left_paddle(), &right_paddle());
    assert_eq!(edge, Edge::Left);
    assert_eq!(ball.shape.offset, (0, 0));
    assert_eq!(ball.shape.velocity, (-75, 0));
}

#[test]
fn served_ball_still_takes_its_vertical_step() {
    let mut ball = ball_with((-10_100, 0), (-75, 50));
    let edge = ball.update(&left_paddle(), &right_paddle());
    assert_eq!(edge, Edge::Left);
    assert_eq!(ball.shape.offset, (0, 50));
    assert_eq!(ball.shape.velocity, (-75, 50));
}

#[test]
fn ball_past_the_right_wall_is_served_again() {
    let mut ball = ball_with((9800, 3000), (75, -50));
    let edge = ball.update(&left_paddle(), &right_paddle());
    assert_eq!(edge, Edge::Right);
    assert_eq!(ball.shape.offset, (0, -50));
    assert_eq!(ball.shape.velocity, (75, -50));
}

#[test]
fn ball_bounces_off_the_player() {
    let player = left_paddle();
    let mut ball = ball_with((-8380, 1000), (-75, 50));
    let edge = ball.update(&player, &right_paddle());
    assert_eq!(edge, Edge::Within);
    assert_eq!(ball.shape.left_edge(), player.right_edge());
    assert_eq!(ball.shape.center_x(), -8400);
    assert_eq!(ball.shape.offset, (-8400, 1050));
    assert_eq!(ball.shape.velocity, (75, 50));
    assert!(ball.shape.velocity.0 > 0);
}

#[test]
fn ball_moving_away_from_the_player_keeps_going() {
    let player = left_paddle();
    let mut ball = ball_with((-8700, 1000), (75, 50));
    ball.update(&player, &right_paddle());
    assert_eq!(ball.shape.left_edge(), player.right_edge());
    assert_eq!(ball.shape.velocity, (75, 50));
}

#[test]
fn ball_bounces_off_the_enemy() {
    let enemy = right_paddle();
    let mut ball = ball_with((8380, -1000), (75, -50));
    let edge = ball.update(&left_paddle(), &enemy);
    assert_eq!(edge, Edge::Within);
    assert_eq!(ball.shape.right_edge(), enemy.left_edge());
    assert_eq!(ball.shape.center_x(), 8400);
    assert_eq!(ball.shape.offset, (8400, -1050));
    assert_eq!(ball.shape.velocity, (-75, -50));
    assert!(ball.shape.velocity.0 < 0);
}

#[test]
fn ball_that_touches_a_paddle_from_above_is_put_beside_it() {
    let player = left_paddle();
    // Over the paddle's top edge, overlapping it by a little.
    let mut ball = ball_with((-9000, 2740), (-75, -50));
    assert_eq!(in_collision(&ball.shape, &player), Collision::Apart);
    ball.update(&player, &right_paddle());
    assert_eq!(ball.shape.offset, (-8400, 2690));
    assert_eq!(ball.shape.left_edge(), player.right_edge());
    assert_eq!(ball.shape.velocity, (75, -50));
}

#[test]
fn ball_without_horizontal_speed_is_put_against_the_paddle_and_stays() {
    let player = left_paddle();
    let mut ball = ball_with((-8500, 0), (0, 50));
    ball.update(&player, &right_paddle());
    assert_eq!(ball.shape.left_edge(), player.right_edge());
    assert_eq!(ball.shape.velocity, (0, 50));
}

#[test]
fn ball_between_touching_paddles_ends_on_the_enemy() {
    let player = bind_shape(-300, 0, 400, 2500);
    let enemy = bind_shape(500, 0, 400, 2500);
    let mut ball = ball_with((0, 0), (-75, 50));
    ball.update(&player, &enemy);
    // Put against the player at x = 300, where it touches the enemy.
    assert_eq!(ball.shape.right_edge(), enemy.left_edge());
    assert_eq!(ball.shape.center_x(), -100);
    assert_eq!(ball.shape.velocity, (-75, 50));
}

#[test]
fn ball_misses_a_paddle_that_is_not_in_its_way() {
    let player = left_paddle();
    let enemy = right_paddle();
    let mut ball = bind_ball();
    let mut frames = 0;
    let mut edge = Edge::Within;
    while edge == Edge::Within {
        edge = ball.update(&player, &enemy);
        frames += 1;
        assert!(ball.shape.velocity.0 < 0);
        assert!(frames < 1000);
    }
    assert_eq!(edge, Edge::Left);
    assert_eq!(frames, 131);
    assert_eq!(ball.shape.offset, (0, 50));
    assert_eq!(ball.shape.velocity, (-75, 50));
}

#[test]
fn served_ball_reaches_the_paddle_and_turns() {
    let mut player = left_paddle();
    player.offset = (0, 5000);
    let enemy = right_paddle();
    let mut ball = bind_ball();
    let mut frames = 0;
    while ball.shape.velocity.0 < 0 {
        assert!(ball.shape.left_edge() > player.right_edge());
        let edge = ball.update(&player, &enemy);
        assert_eq!(edge, Edge::Within);
        frames += 1;
        assert!(frames < 1000);
    }
    assert_eq!(frames, 112);
    assert_eq!(ball.shape.velocity, (75, 50));
    assert_eq!(ball.shape.left_edge(), player.right_edge());
    assert_eq!(ball.shape.offset, (-8400, 5600));
    // The next frame carries it away from the paddle.
    ball.update(&player, &enemy);
    assert_eq!(ball.shape.offset, (-8325, 5650));
    assert_eq!(ball.shape.velocity, (75, 50));
}

#[test]
fn ball_stays_well_formed_over_many_frames() {
    let mut player = left_paddle();
    player.offset = (0, 3000);
    let mut enemy = right_paddle();
    enemy.offset = (0, -3000);
    let mut ball = bind_ball();
    let mut scores = 0;
    let mut turns = 0;
    for _ in 0..100_000 {
        let before = ball.shape.velocity.0;
        if ball.update(&player, &enemy) != Edge::Within {
            scores += 1;
        }
        if ball.shape.velocity.0 != before {
            turns += 1;
        }
        assert!(ball.is_wf());
        assert_eq!(ball.shape.velocity.0.abs(), 75);
        assert_eq!(ball.shape.velocity.1.abs(), 50);
        assert!(ball.shape.offset.1.abs() <= UNIT + 50);
        assert!(ball.shape.offset.0.abs() <= UNIT);
    }
    assert!(scores > 0);
    assert!(turns > 0);
}

#[test]
fn ball_far_outside_the_arena_never_overflows() {
    let mut ball = bind_ball();
    ball.shape.offset = (OFFSET_LIMIT, OFFSET_LIMIT - 50);
    assert!(ball.is_wf());
    let player = left_paddle();
    let enemy = right_paddle();
    let edge = ball.update(&player, &enemy);
    assert_eq!(edge, Edge::Right);
    assert_eq!(ball.shape.offset, (0, 50));
    assert!(ball.is_wf());

    let mut ball = bind_ball();
    ball.shape.offset = (0, OFFSET_LIMIT);
    assert!(ball.is_wf() == false);
    ball.shape.velocity = (-75, -50);
    assert!(ball.is_wf());
    for _ in 0..10 {
        ball.move_y();
        assert!(ball.is_wf());
    }
    assert_eq!(ball.shape.offset.1, OFFSET_LIMIT);
}
