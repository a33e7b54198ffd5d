//! Frame-update scenarios: serve, paddle motion, wall/paddle/brick bounces,
//! life loss and game over.

use bricks::Config;
use bricks::Entity;
use bricks::GameState;
use bricks::Input;
use bricks::StateMachine;
use bricks::Vec2;

fn test_config() -> Config {
    Config {
        screen_w: 640,
        screen_h: 480,
        paddle_w: 64,
        paddle_h: 16,
        ball_w: 16,
        ball_h: 16,
        brick_w: 64,
        brick_h: 32,
        brick_rows: 3,
        brick_cols: 9,
        bricks_padding_x: 25,
        bricks_padding_y: 25,
        paddle_speed: 8,
        ball_speed: 5,
        paddle_spin: 4,
        spin_enabled: false,
        initial_lives: 3,
    }
}

fn body(x: i64, y: i64, w: i64, h: i64) -> Entity {
    Entity {
        position: Vec2 { x, y },
        velocity: Vec2 { x: 0, y: 0 },
        width: w,
        height: h,
    }
}

fn moving_body(x: i64, y: i64, vx: i64, vy: i64, w: i64, h: i64) -> Entity {
    Entity {
        position: Vec2 { x, y },
        velocity: Vec2 { x: vx, y: vy },
        width: w,
        height: h,
    }
}

fn session(ball: Entity, paddle: Entity, bricks: Vec<Entity>, state: StateMachine, lives: i32) -> GameState {
    GameState {
        config: test_config(),
        state,
        paddle,
        ball,
        bricks,
        lives,
    }
}

fn no_input() -> Input {
    Input {
        left: false,
        right: false,
        launch: false,
    }
}

fn input(left: bool, right: bool, launch: bool) -> Input {
    Input {
        left,
        right,
        launch,
    }
}

#[test]
fn fresh_session_layout() {
    let g = GameState::new(test_config());
    assert_eq!(g.state, StateMachine::BallInPaddle);
    assert_eq!(g.lives, 3);
    assert_eq!(g.paddle.position, Vec2 { x: 288, y: 448 });
    assert_eq!(g.paddle.velocity, Vec2 { x: 0, y: 0 });
    assert_eq!(g.ball.position, Vec2 { x: 320, y: 432 });
    assert_eq!(g.ball.velocity, Vec2 { x: 5, y: -5 });
    assert_eq!(g.bricks.len(), 27);
    assert_eq!(g.bricks[0].position, Vec2 { x: 25, y: 25 });
    assert_eq!(g.bricks[1].position, Vec2 { x: 89, y: 25 });
    assert_eq!(g.bricks[9].position, Vec2 { x: 25, y: 57 });
    assert_eq!(g.bricks[26].position, Vec2 { x: 25 + 8 * 64, y: 25 + 2 * 32 });
    assert!(g.bricks.iter().all(|b| b.width == 64 && b.height == 32));
    assert!(g.is_well_formed());
}

#[test]
fn serve_starts_the_ball() {
    let mut g = GameState::new(test_config());
    g.update(input(false, false, true));
    assert_eq!(g.state, StateMachine::BallMoving);
    // The serve takes effect immediately: the ball integrates this frame.
    assert_eq!(g.ball.position, Vec2 { x: 325, y: 427 });
    assert_eq!(g.ball.velocity, Vec2 { x: 5, y: -5 });
}

#[test]
fn launch_is_ignored_while_moving() {
    let mut g = GameState::new(test_config());
    g.update(input(false, false, true));
    let state = g.state;
    g.update(input(false, false, true));
    assert_eq!(g.state, state);
}

#[test]
fn paddle_bounce_seats_and_reflects() {
    // Ball at (100,100) with velocity (5,-5), paddle box (80,110,64,16):
    // after one frame the ball sits at paddle top minus its height and its
    // vertical velocity has flipped sign.
    let ball = moving_body(100, 100, 5, -5, 16, 16);
    let paddle = body(80, 110, 64, 16);
    let mut g = session(ball, paddle, Vec::new(), StateMachine::BallMoving, 3);
    g.update(no_input());
    assert_eq!(g.ball.position.y, 110 - 16);
    assert_eq!(g.ball.velocity.y, 5);
    assert_eq!(g.ball.position.x, 105);
    assert_eq!(g.ball.velocity.x, 5);
}

#[test]
fn paddle_bounce_with_spin_tilts_vx() {
    let ball = moving_body(140, 438, 0, 5, 16, 16);
    let paddle = body(100, 448, 64, 16);
    let mut g = session(ball, paddle, Vec::new(), StateMachine::BallMoving, 3);
    g.config.spin_enabled = true;
    g.update(no_input());
    // Hit offset: ball center 148 vs paddle center 132; spin 4 over paddle
    // width 64 gives a tilt of (4 * 32) / 128 = 1.
    assert_eq!(g.ball.velocity.x, 1);
    assert_eq!(g.ball.velocity.y, -5);
    assert_eq!(g.ball.position.y, 448 - 16);
}

#[test]
fn wall_bounce_right_flips_vx() {
    let ball = moving_body(630, 200, 5, -3, 16, 16);
    let paddle = body(288, 448, 64, 16);
    let mut g = session(ball, paddle, Vec::new(), StateMachine::BallMoving, 3);
    g.update(no_input());
    assert_eq!(g.ball.position, Vec2 { x: 635, y: 197 });
    assert_eq!(g.ball.velocity, Vec2 { x: -5, y: -3 });
}

#[test]
fn wall_bounce_left_flips_vx() {
    let ball = moving_body(2, 200, -5, 3, 16, 16);
    let paddle = body(288, 448, 64, 16);
    let mut g = session(ball, paddle, Vec::new(), StateMachine::BallMoving, 3);
    g.update(no_input());
    assert_eq!(g.ball.position, Vec2 { x: -3, y: 203 });
    assert_eq!(g.ball.velocity, Vec2 { x: 5, y: 3 });
}

#[test]
fn wall_bounce_top_flips_vy() {
    let ball = moving_body(200, 3, 3, -5, 16, 16);
    let paddle = body(288, 448, 64, 16);
    let mut g = session(ball, paddle, Vec::new(), StateMachine::BallMoving, 3);
    g.update(no_input());
    assert_eq!(g.ball.position, Vec2 { x: 203, y: -2 });
    assert_eq!(g.ball.velocity, Vec2 { x: 3, y: 5 });
}

#[test]
fn paddle_clamps_at_left_edge() {
    let ball = moving_body(200, 200, 5, 5, 16, 16);
    let paddle = body(4, 448, 64, 16);
    let mut g = session(ball, paddle, Vec::new(), StateMachine::BallMoving, 3);
    g.update(input(true, false, false));
    assert_eq!(g.paddle.position.x, 0);
}

#[test]
fn paddle_clamps_at_right_edge() {
    let ball = moving_body(200, 200, 5, 5, 16, 16);
    let paddle = body(572, 448, 64, 16);
    let mut g = session(ball, paddle, Vec::new(), StateMachine::BallMoving, 3);
    g.update(input(false, true, false));
    assert_eq!(g.paddle.position.x, 640 - 64);
}

#[test]
fn waiting_ball_rides_paddle_left() {
    let ball = body(320, 432, 16, 16);
    let paddle = body(288, 448, 64, 16);
    let mut g = session(ball, paddle, Vec::new(), StateMachine::BallInPaddle, 3);
    g.update(input(true, false, false));
    assert_eq!(g.paddle.position.x, 280);
    assert_eq!(g.ball.position.x, 312);
    assert_eq!(g.ball.position.y, 432);
}

#[test]
fn waiting_ball_rides_paddle_right() {
    let ball = body(320, 432, 16, 16);
    let paddle = body(288, 448, 64, 16);
    let mut g = session(ball, paddle, Vec::new(), StateMachine::BallInPaddle, 3);
    g.update(input(false, true, false));
    assert_eq!(g.paddle.position.x, 296);
    assert_eq!(g.ball.position.x, 328);
}

#[test]
fn opposed_moves_cancel_and_keep_offset() {
    let ball = body(320, 432, 16, 16);
    let paddle = body(288, 448, 64, 16);
    let mut g = session(ball, paddle, Vec::new(), StateMachine::BallInPaddle, 3);
    g.update(input(true, true, false));
    assert_eq!(g.paddle.position.x, 288);
    assert_eq!(g.ball.position.x, 320);
}

#[test]
fn moving_ball_does_not_follow_paddle() {
    let ball = moving_body(200, 200, 5, 5, 16, 16);
    let paddle = body(288, 448, 64, 16);
    let mut g = session(ball, paddle, Vec::new(), StateMachine::BallMoving, 3);
    g.update(input(true, false, false));
    assert_eq!(g.paddle.position.x, 280);
    assert_eq!(g.ball.position, Vec2 { x: 205, y: 205 });
}

#[test]
fn life_lost_resets_ball_on_paddle() {
    // Three lives and the ball reaching the bottom of the screen: one life
    // is spent, the ball returns to the paddle with its launch velocity.
    let ball = moving_body(100, 475, 0, 5, 16, 16);
    let paddle = body(288, 448, 64, 16);
    let mut g = session(ball, paddle, Vec::new(), StateMachine::BallMoving, 3);
    g.update(no_input());
    assert_eq!(g.lives, 2);
    assert_eq!(g.state, StateMachine::BallInPaddle);
    assert_eq!(g.ball.position, Vec2 { x: 288 + 32, y: 448 - 16 });
    assert_eq!(g.ball.velocity, Vec2 { x: 5, y: -5 });
}

#[test]
fn last_life_ends_the_game() {
    let ball = moving_body(100, 475, 0, 5, 16, 16);
    let paddle = body(288, 448, 64, 16);
    let mut g = session(ball, paddle, Vec::new(), StateMachine::BallMoving, 1);
    g.update(no_input());
    assert_eq!(g.lives, 0);
    assert_eq!(g.state, StateMachine::GameOver);
}

#[test]
fn game_over_is_terminal() {
    let ball = moving_body(100, 500, 0, 5, 16, 16);
    let paddle = body(288, 448, 64, 16);
    let mut g = session(ball, paddle, vec![body(100, 490, 64, 32)], StateMachine::GameOver, 0);
    g.update(input(true, true, true));
    // Nothing moves, nothing is removed, and the lives never drop below zero.
    assert_eq!(g.lives, 0);
    assert_eq!(g.state, StateMachine::GameOver);
    assert_eq!(g.ball.position, Vec2 { x: 100, y: 500 });
    assert_eq!(g.paddle.position.x, 288);
    assert_eq!(g.bricks.len(), 1);
}

#[test]
fn brick_hit_from_below_reflects_and_removes() {
    // Ball center directly below the brick's center: the struck face is the
    // brick's bottom, the vertical velocity flips, the brick is removed.
    let ball = moving_body(124, 121, 0, -5, 16, 16);
    let paddle = body(288, 448, 64, 16);
    let brick = body(100, 100, 64, 32);
    let mut g = session(ball, paddle, vec![brick], StateMachine::BallMoving, 3);
    g.update(no_input());
    assert_eq!(g.bricks.len(), 0);
    assert_eq!(g.ball.velocity, Vec2 { x: 0, y: 5 });
    assert_eq!(g.ball.position.y, 100 + 32);
}

#[test]
fn brick_hit_from_the_right_reflects_vx() {
    let ball = moving_body(165, 108, -5, 0, 16, 16);
    let paddle = body(288, 448, 64, 16);
    let brick = body(100, 100, 64, 32);
    let mut g = session(ball, paddle, vec![brick], StateMachine::BallMoving, 3);
    g.update(no_input());
    assert_eq!(g.bricks.len(), 0);
    assert_eq!(g.ball.velocity, Vec2 { x: 5, y: 0 });
    assert_eq!(g.ball.position.x, 100 + 64);
}

#[test]
fn first_brick_in_insertion_order_is_resolved() {
    let ball = moving_body(100, 105, 0, -5, 16, 16);
    let paddle = body(288, 448, 64, 16);
    let first = body(90, 90, 64, 32);
    let second = body(95, 95, 64, 32);
    let mut g = session(ball, paddle, vec![first, second], StateMachine::BallMoving, 3);
    g.update(no_input());
    // Only the first overlapping brick goes; the second survives the frame.
    assert_eq!(g.bricks.len(), 1);
    assert_eq!(g.bricks[0].position, Vec2 { x: 95, y: 95 });
}

#[test]
fn frame_without_collision_keeps_every_brick() {
    let ball = moving_body(300, 300, 5, 5, 16, 16);
    let paddle = body(288, 448, 64, 16);
    let mut g = session(ball, paddle, vec![body(25, 25, 64, 32), body(89, 25, 64, 32)], StateMachine::BallMoving, 3);
    g.update(no_input());
    assert_eq!(g.bricks.len(), 2);
    assert_eq!(g.lives, 3);
}

#[test]
fn session_check_accepts_fresh_and_rejects_broken() {
    let g = GameState::new(test_config());
    assert!(g.is_well_formed());
    let mut broken = GameState::new(test_config());
    broken.lives = -1;
    assert!(!broken.is_well_formed());
    let mut waiting_without_lives = GameState::new(test_config());
    waiting_without_lives.lives = 0;
    assert!(!waiting_without_lives.is_well_formed());
    let mut flat_ball = GameState::new(test_config());
    flat_ball.ball.width = 0;
    assert!(!flat_ball.is_well_formed());
}
