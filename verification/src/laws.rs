//! Engine-wide laws, proved once and for all over the frame transition.
//!
//! Each law is a public proof function: its parameters are the session and
//! the frame input it speaks about, its premises are only what the law
//! itself assumes, and its conclusion is stated over the same spec functions
//! that the executable engine is verified against.

use vstd::prelude::*;

use crate::collision::abs_int;
use crate::game::GameModel;
use crate::game::Input;
use crate::game::StateMachine;
use crate::game::after_brick;
use crate::game::after_moves;
use crate::game::after_paddle_bounce;
use crate::game::after_walls;
use crate::game::brick_resolved_in;
use crate::game::first_brick_hit;
use crate::game::lemma_first_hit_range;
use crate::game::life_lost_in;
use crate::game::pre_collision;
use crate::game::update_spec;

verus! {

/// Law: a wall bounce only reflects. When the ball touches the left or right
/// screen edge the wall step flips the sign of its horizontal velocity and
/// keeps the magnitude; likewise for the vertical velocity on the top edge;
/// and the wall step never moves the ball.
pub proof fn lemma_wall_bounce_reflects(g: GameModel)
    ensures
        (g.ball.x <= 0 || g.ball.x + g.ball.w >= g.config.screen_w) ==> after_walls(g).ball.vx
            == -g.ball.vx,
        !(g.ball.x <= 0 || g.ball.x + g.ball.w >= g.config.screen_w) ==> after_walls(g).ball.vx
            == g.ball.vx,
        g.ball.y <= 0 ==> after_walls(g).ball.vy == -g.ball.vy,
        g.ball.y > 0 ==> after_walls(g).ball.vy == g.ball.vy,
        abs_int(after_walls(g).ball.vx) == abs_int(g.ball.vx),
        abs_int(after_walls(g).ball.vy) == abs_int(g.ball.vy),
        after_walls(g).ball.x == g.ball.x,
        after_walls(g).ball.y == g.ball.y,
{
}

/// Law: a brick bounce only reflects. Whatever brick impact a frame
/// resolves, the response flips the sign of one velocity component and keeps
/// both magnitudes.
pub proof fn lemma_brick_bounce_reflects(g: GameModel, hit: Option<int>)
    ensures
        abs_int(after_brick(g, hit).ball.vx) == abs_int(g.ball.vx),
        abs_int(after_brick(g, hit).ball.vy) == abs_int(g.ball.vy),
{
}

/// Law: without spin, a paddle bounce only reflects: the horizontal velocity
/// is untouched and the vertical velocity keeps its magnitude.
pub proof fn lemma_paddle_bounce_reflects(g: GameModel, hit: bool)
    requires
        !g.config.spin_enabled,
    ensures
        after_paddle_bounce(g, hit).ball.vx == g.ball.vx,
        abs_int(after_paddle_bounce(g, hit).ball.vy) == abs_int(g.ball.vy),
{
}

/// Law: the game-over state is terminal: a frame changes nothing at all.
pub proof fn lemma_game_over_terminal(g: GameModel, input: Input)
    requires
        g.state == StateMachine::GameOver,
    ensures
        update_spec(g, input) == g,
{
}

/// Law: paddle moves stay clamped. Starting from an on-screen paddle, any
/// combination of Left and Right inputs, at any nonnegative per-frame speed,
/// leaves the paddle's x within [0, screen width - paddle width].
pub proof fn lemma_paddle_move_clamped(g: GameModel, input: Input)
    requires
        0 <= g.paddle.x <= g.config.screen_w - g.paddle.w,
        g.config.paddle_speed >= 0,
        g.paddle.w <= g.config.screen_w,
    ensures
        0 <= after_moves(g, input).paddle.x <= g.config.screen_w - g.paddle.w,
        after_moves(g, input).paddle.w == g.paddle.w,
{
}

/// Law: brick removal is monotonic. A frame that resolves a brick collision
/// removes exactly one brick from the live set; any other frame leaves the
/// live set untouched; no frame ever adds a brick.
pub proof fn lemma_brick_count(g: GameModel, input: Input)
    ensures
        brick_resolved_in(g, input) ==> update_spec(g, input).bricks.len() == g.bricks.len() - 1,
        !brick_resolved_in(g, input) ==> update_spec(g, input).bricks == g.bricks,
{
    if g.state != StateMachine::GameOver {
        let g3 = pre_collision(g, input);
        lemma_first_hit_range(g3.bricks, g3.ball, 0);
    }
}

/// Law: lives only fall, one at a time, and never below zero. A frame in
/// which the ball falls past the bottom of the screen costs exactly one
/// life; any other frame leaves the count unchanged; and starting from any
/// well-formed session the game is over after the frame exactly when the
/// count has reached zero.
pub proof fn lemma_lives(g: GameModel, input: Input)
    requires
        g.wf(),
    ensures
        life_lost_in(g, input) ==> update_spec(g, input).lives == g.lives - 1,
        !life_lost_in(g, input) ==> update_spec(g, input).lives == g.lives,
        update_spec(g, input).lives >= 0,
        g.state != StateMachine::GameOver ==> (update_spec(g, input).state == StateMachine::GameOver
            <==> update_spec(g, input).lives == 0),
{
}

/// Law: the waiting ball rides the paddle. While the ball rests on the
/// paddle, any combination of move inputs displaces the ball horizontally by
/// exactly the paddle's displacement (the offset between them is preserved)
/// and does not move it vertically.
pub proof fn lemma_ball_rides_paddle(g: GameModel, input: Input)
    requires
        g.state == StateMachine::BallInPaddle,
    ensures
        after_moves(g, input).ball.x - after_moves(g, input).paddle.x == g.ball.x - g.paddle.x,
        after_moves(g, input).ball.x - g.ball.x == after_moves(g, input).paddle.x - g.paddle.x,
        after_moves(g, input).ball.y == g.ball.y,
{
}

} // verus!
