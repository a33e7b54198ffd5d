//! The engine proper: configuration, the game state machine, and the
//! per-frame update.
//!
//! Each frame the driver hands the engine one [`Input`] (the move and launch
//! intents). The update then runs a fixed pipeline: serve, paddle movement,
//! ball integration, collision detection, paddle / wall / bottom / brick
//! responses. The whole pipeline is stated as a spec-level transition
//! function [`update_spec`] over the ghost [`GameModel`], and the executable
//! [`GameState::update`] is proved to compute exactly that transition.

use vstd::arithmetic::div_mod::lemma_fundamental_div_mod_converse;
use vstd::prelude::*;

use crate::collision::Face;
use crate::collision::classify_impact_face;
use crate::collision::impact_face;
use crate::geometry::Entity;
use crate::geometry::EntityModel;
use crate::geometry::MAX_COORD;
use crate::geometry::MAX_EXTENT;
use crate::geometry::Vec2;
use crate::geometry::overlaps;

verus! {

/// Gap in pixels between the bottom of the paddle and the bottom edge of the
/// screen in a fresh session.
pub const PADDLE_MARGIN: i64 = 16;

/// Largest initial lives count the engine admits.
pub const MAX_LIVES: i32 = 1_000_000;

/// Largest brick grid dimension (rows or columns) the engine admits.
pub const MAX_GRID: u32 = 1_000;

/// Largest ball position magnitude any phase of one frame step can produce
/// from a well-formed state.
pub const MID_COORD: i64 = 40_000_000;

/// Largest velocity magnitude any phase of one frame step can produce: the
/// spin tilt is bounded by the spin strength times the center distance.
pub const VEL_SLACK: i64 = 0x8_0000_0000_0000;

/// The discrete game state.
#[derive(Clone, Copy, PartialEq, Eq, Structural, Debug)]
pub enum StateMachine {
    /// The ball rests on the paddle, awaiting the serve.
    BallInPaddle,
    /// The ball is in flight; integration and all collision rules apply.
    BallMoving,
    /// Terminal: no further paddle or ball updates.
    GameOver,
}

/// The input intent for one frame, as the host's input collaborator read it.
#[derive(Clone, Copy, PartialEq, Eq, Structural, Debug)]
pub struct Input {
    pub left: bool,
    pub right: bool,
    pub launch: bool,
}

/// Engine configuration, supplied once at initialization by the host.
#[derive(Clone, Copy, PartialEq, Eq, Structural, Debug)]
pub struct Config {
    /// Screen extent in pixels.
    pub screen_w: i64,
    pub screen_h: i64,
    /// Paddle extent in pixels.
    pub paddle_w: i64,
    pub paddle_h: i64,
    /// Ball extent in pixels.
    pub ball_w: i64,
    pub ball_h: i64,
    /// Extent of one brick in pixels.
    pub brick_w: i64,
    pub brick_h: i64,
    /// Brick grid layout: rows x columns, offset from the screen corner.
    pub brick_rows: u32,
    pub brick_cols: u32,
    pub bricks_padding_x: i64,
    pub bricks_padding_y: i64,
    /// Pixels the paddle moves per frame of held input.
    pub paddle_speed: i64,
    /// Fixed magnitude of each ball velocity component.
    pub ball_speed: i64,
    /// Strength of the optional paddle spin.
    pub paddle_spin: i64,
    /// Whether a paddle bounce tilts the horizontal velocity by the hit
    /// offset (a designed but normally disabled behavior).
    pub spin_enabled: bool,
    /// Lives at the start of a session.
    pub initial_lives: i32,
}

/// Mathematical view of the configuration.
pub struct ConfigModel {
    pub screen_w: int,
    pub screen_h: int,
    pub paddle_w: int,
    pub paddle_h: int,
    pub ball_w: int,
    pub ball_h: int,
    pub brick_w: int,
    pub brick_h: int,
    pub brick_rows: int,
    pub brick_cols: int,
    pub bricks_padding_x: int,
    pub bricks_padding_y: int,
    pub paddle_speed: int,
    pub ball_speed: int,
    pub paddle_spin: int,
    pub spin_enabled: bool,
    pub initial_lives: int,
}

impl View for Config {
    type V = ConfigModel;

    open spec fn view(&self) -> ConfigModel {
        ConfigModel {
            screen_w: self.screen_w as int,
            screen_h: self.screen_h as int,
            paddle_w: self.paddle_w as int,
            paddle_h: self.paddle_h as int,
            ball_w: self.ball_w as int,
            ball_h: self.ball_h as int,
            brick_w: self.brick_w as int,
            brick_h: self.brick_h as int,
            brick_rows: self.brick_rows as int,
            brick_cols: self.brick_cols as int,
            bricks_padding_x: self.bricks_padding_x as int,
            bricks_padding_y: self.bricks_padding_y as int,
            paddle_speed: self.paddle_speed as int,
            ball_speed: self.ball_speed as int,
            paddle_spin: self.paddle_spin as int,
            spin_enabled: self.spin_enabled,
            initial_lives: self.initial_lives as int,
        }
    }
}

impl ConfigModel {
    /// A well-formed configuration: positive extents that fit the screen and
    /// the coordinate range, a nonempty brick grid, nonnegative speeds with
    /// a nonzero ball speed, and at least one life.
    pub open spec fn wf(self) -> bool {
        &&& 0 < self.screen_w <= MAX_COORD
        &&& 0 < self.screen_h <= MAX_COORD
        &&& 0 < self.paddle_w <= MAX_EXTENT
        &&& 0 < self.paddle_h <= MAX_EXTENT
        &&& 0 < self.ball_w <= MAX_EXTENT
        &&& 0 < self.ball_h <= MAX_EXTENT
        &&& 0 < self.brick_w <= MAX_EXTENT
        &&& 0 < self.brick_h <= MAX_EXTENT
        &&& self.paddle_w <= self.screen_w
        &&& 1 <= self.brick_rows <= MAX_GRID
        &&& 1 <= self.brick_cols <= MAX_GRID
        &&& 0 <= self.bricks_padding_x
        &&& 0 <= self.bricks_padding_y
        &&& self.bricks_padding_x + self.brick_cols * self.brick_w <= MAX_COORD
        &&& self.bricks_padding_y + self.brick_rows * self.brick_h <= MAX_COORD
        &&& 0 <= self.paddle_speed <= MAX_EXTENT
        &&& 0 < self.ball_speed <= MAX_EXTENT
        &&& 0 <= self.paddle_spin <= MAX_EXTENT
        &&& 1 <= self.initial_lives <= MAX_LIVES
    }
}

impl Config {
    /// Runtime check of [`ConfigModel::wf`], for hosts that assemble a
    /// configuration from untrusted sources.
    pub fn is_well_formed(&self) -> (r: bool)
        ensures
            r == self@.wf(),
    {
        let ranges = 0 < self.screen_w && self.screen_w <= MAX_COORD && 0 < self.screen_h
            && self.screen_h <= MAX_COORD && 0 < self.paddle_w && self.paddle_w <= MAX_EXTENT && 0
            < self.paddle_h && self.paddle_h <= MAX_EXTENT && 0 < self.ball_w && self.ball_w
            <= MAX_EXTENT && 0 < self.ball_h && self.ball_h <= MAX_EXTENT && 0 < self.brick_w
            && self.brick_w <= MAX_EXTENT && 0 < self.brick_h && self.brick_h <= MAX_EXTENT
            && self.paddle_w <= self.screen_w && 1 <= self.brick_rows && self.brick_rows <= MAX_GRID
            && 1 <= self.brick_cols && self.brick_cols <= MAX_GRID && 0 <= self.bricks_padding_x
            && self.bricks_padding_x <= MAX_COORD && 0 <= self.bricks_padding_y
            && self.bricks_padding_y <= MAX_COORD && 0 <= self.paddle_speed && self.paddle_speed
            <= MAX_EXTENT && 0 < self.ball_speed && self.ball_speed <= MAX_EXTENT && 0
            <= self.paddle_spin && self.paddle_spin <= MAX_EXTENT && 1 <= self.initial_lives
            && self.initial_lives <= MAX_LIVES;
        if !ranges {
            proof {
                assert(self@.bricks_padding_x > MAX_COORD ==> !self@.wf()) by {
                    if self@.wf() {
                        assert(self@.brick_cols * self@.brick_w > 0) by (nonlinear_arith)
                            requires
                                self@.brick_cols > 0,
                                self@.brick_w > 0,
                        ;
                    }
                }
                assert(self@.bricks_padding_y > MAX_COORD ==> !self@.wf()) by {
                    if self@.wf() {
                        assert(self@.brick_rows * self@.brick_h > 0) by (nonlinear_arith)
                            requires
                                self@.brick_rows > 0,
                                self@.brick_h > 0,
                        ;
                    }
                }
            }
            return false;
        }
        proof {
            assert(0 <= self@.brick_cols * self@.brick_w <= 1_000_000_000) by (nonlinear_arith)
                requires
                    0 <= self@.brick_cols <= 1_000,
                    0 <= self@.brick_w <= 1_000_000,
            ;
            assert(0 <= self@.brick_rows * self@.brick_h <= 1_000_000_000) by (nonlinear_arith)
                requires
                    0 <= self@.brick_rows <= 1_000,
                    0 <= self@.brick_h <= 1_000_000,
            ;
        }
        self.bricks_padding_x + (self.brick_cols as i64) * self.brick_w <= MAX_COORD
            && self.bricks_padding_y + (self.brick_rows as i64) * self.brick_h <= MAX_COORD
    }
}

/// Mathematical view of a whole session: configuration, discrete state,
/// paddle, ball, live bricks (in insertion order) and remaining lives.
#[verifier::ext_equal]
pub struct GameModel {
    pub config: ConfigModel,
    pub state: StateMachine,
    pub paddle: EntityModel,
    pub ball: EntityModel,
    pub bricks: Seq<EntityModel>,
    pub lives: int,
}

impl GameModel {
    /// A well-formed session: well-formed configuration and bodies, lives in
    /// range, and at least one life unless the game is over.
    pub open spec fn wf(self) -> bool {
        &&& self.config.wf()
        &&& self.paddle.wf()
        &&& self.ball.wf()
        &&& forall|i: int| 0 <= i < self.bricks.len() ==> (#[trigger] self.bricks[i]).wf()
        &&& 0 <= self.lives <= MAX_LIVES
        &&& (self.state != StateMachine::GameOver ==> self.lives >= 1)
    }
}

/// Smaller of two integers.
pub open spec fn min_int(a: int, b: int) -> int {
    if a < b {
        a
    } else {
        b
    }
}

/// Larger of two integers.
pub open spec fn max_int(a: int, b: int) -> int {
    if a > b {
        a
    } else {
        b
    }
}

/// Division that truncates toward zero, as machine signed division does.
pub open spec fn div_trunc(a: int, b: int) -> int {
    if a >= 0 {
        a / b
    } else {
        -((-a) / b)
    }
}

/// Serve: a launch input while the ball rests on the paddle starts it
/// moving; in any other state the launch input is ignored.
pub open spec fn after_serve(g: GameModel, input: Input) -> GameModel {
    if input.launch && g.state == StateMachine::BallInPaddle {
        GameModel { state: StateMachine::BallMoving, ..g }
    } else {
        g
    }
}

/// Paddle x after a move left by `speed`, clamped at the left screen edge.
pub open spec fn left_move_x(x: int, speed: int) -> int {
    max_int(0, x - speed)
}

/// Paddle x after a move right by `speed`, clamped at `limit`, the largest x
/// that keeps the paddle on screen.
pub open spec fn right_move_x(x: int, speed: int, limit: int) -> int {
    min_int(x + speed, limit)
}

/// Paddle movement: Left and Right are honored while the ball rests on the
/// paddle or is in flight, and ignored once the game is over. While the ball
/// rests on the paddle it rides along: after each move its x is recomputed
/// from the offset to the paddle measured before any move of this frame.
pub open spec fn after_moves(g: GameModel, input: Input) -> GameModel {
    let offset = g.ball.x - g.paddle.x;
    let riding = g.state == StateMachine::BallInPaddle;
    let can_move = riding || g.state == StateMachine::BallMoving;
    let g1 = if input.left && can_move {
        let px = left_move_x(g.paddle.x, g.config.paddle_speed);
        GameModel {
            paddle: g.paddle.with_x(px),
            ball: if riding {
                g.ball.with_x(px + offset)
            } else {
                g.ball
            },
            ..g
        }
    } else {
        g
    };
    if input.right && can_move {
        let px = right_move_x(
            g1.paddle.x,
            g.config.paddle_speed,
            g.config.screen_w - g1.paddle.w,
        );
        GameModel {
            paddle: g1.paddle.with_x(px),
            ball: if riding {
                g1.ball.with_x(px + offset)
            } else {
                g1.ball
            },
            ..g1
        }
    } else {
        g1
    }
}

/// Ball integration: while in flight the ball advances by its velocity once
/// per frame; in every other state it stays put.
pub open spec fn after_integration(g: GameModel) -> GameModel {
    if g.state == StateMachine::BallMoving {
        GameModel { ball: g.ball.with_pos(g.ball.x + g.ball.vx, g.ball.y + g.ball.vy), ..g }
    } else {
        g
    }
}

/// The session as it stands when collisions are detected: after serve,
/// paddle movement and ball integration, before any collision response.
pub open spec fn pre_collision(g: GameModel, input: Input) -> GameModel {
    after_integration(after_moves(after_serve(g, input), input))
}

/// Index of the first brick at or past position `i` (in insertion order)
/// whose bounding box overlaps the ball's, if any.
pub open spec fn first_hit_from(bricks: Seq<EntityModel>, ball: EntityModel, i: int) -> Option<int>
    decreases bricks.len() - i,
{
    if i < 0 || i >= bricks.len() {
        None
    } else if overlaps(ball, bricks[i]) {
        Some(i)
    } else {
        first_hit_from(bricks, ball, i + 1)
    }
}

/// Index of the first brick the ball overlaps, if any. At most this one
/// brick is resolved per frame, even if several overlap.
pub open spec fn first_brick_hit(g: GameModel) -> Option<int> {
    first_hit_from(g.bricks, g.ball, 0)
}

/// The horizontal velocity tilt a spinning paddle bounce imparts:
/// proportional to how far the ball's center sits from the paddle's center,
/// truncated toward zero as the machine division does.
pub open spec fn spin_delta(g: GameModel) -> int {
    div_trunc(g.config.paddle_spin * (g.ball.center2_x() - g.paddle.center2_x()), 2 * g.paddle.w)
}

/// Paddle bounce: a ball overlapping the paddle is seated flush on top of it
/// and its vertical velocity is reflected; with spin enabled the hit offset
/// also tilts the horizontal velocity.
pub open spec fn after_paddle_bounce(g: GameModel, hit: bool) -> GameModel {
    if hit {
        let vx = if g.config.spin_enabled {
            g.ball.vx + spin_delta(g)
        } else {
            g.ball.vx
        };
        GameModel { ball: g.ball.with_y(g.paddle.y - g.ball.h).with_vel(vx, -g.ball.vy), ..g }
    } else {
        g
    }
}

/// Wall bounce: the horizontal velocity reflects off the left and right
/// screen edges (boundary touch included), the vertical velocity off the top
/// edge; the position is not adjusted. The bottom edge is not a wall: it is
/// the life-loss boundary.
pub open spec fn after_walls(g: GameModel) -> GameModel {
    let g1 = if g.ball.x <= 0 || g.ball.x + g.ball.w >= g.config.screen_w {
        GameModel { ball: g.ball.with_vx(-g.ball.vx), ..g }
    } else {
        g
    };
    if g1.ball.y <= 0 {
        GameModel { ball: g1.ball.with_vy(-g1.ball.vy), ..g1 }
    } else {
        g1
    }
}

/// The session as it stands when the bottom boundary is checked: after the
/// paddle and wall responses.
pub open spec fn pre_bottom(g: GameModel, input: Input) -> GameModel {
    let g3 = pre_collision(g, input);
    after_walls(after_paddle_bounce(g3, overlaps(g3.ball, g3.paddle)))
}

/// Life loss: when the ball's top passes the bottom of the screen a life is
/// spent. With lives remaining the ball returns to the paddle (its left edge
/// at the paddle's center, resting on top) with its launch velocity
/// restored; with none remaining the game is over.
pub open spec fn after_bottom(g: GameModel) -> GameModel {
    if g.ball.y >= g.config.screen_h {
        if g.lives - 1 > 0 {
            GameModel {
                state: StateMachine::BallInPaddle,
                ball: g.ball.with_pos(g.paddle.x + g.paddle.w / 2, g.paddle.y - g.ball.h).with_vel(
                    g.config.ball_speed,
                    -g.config.ball_speed,
                ),
                lives: g.lives - 1,
                ..g
            }
        } else {
            GameModel { state: StateMachine::GameOver, lives: g.lives - 1, ..g }
        }
    } else {
        g
    }
}

/// Brick impact response: the struck face of brick `i` is classified from
/// the center-to-center vector, the matching velocity component reflects,
/// the ball is seated flush against the struck face, and the brick leaves
/// the live set (the last brick is swapped into its place).
pub open spec fn after_brick(g: GameModel, hit: Option<int>) -> GameModel {
    if hit matches Some(i) && 0 <= hit.unwrap() < g.bricks.len() {
        let i = hit.unwrap();
        let b = g.bricks[i];
        let bricks = g.bricks.update(i, g.bricks.last()).drop_last();
        let face = impact_face(
            b.center2_x() - g.ball.center2_x(),
            b.center2_y() - g.ball.center2_y(),
        );
        match face {
            Face::Bottom => GameModel {
                ball: g.ball.with_y(b.y + b.h).with_vy(-g.ball.vy),
                bricks,
                ..g
            },
            Face::Top => GameModel {
                ball: g.ball.with_y(b.y - g.ball.h).with_vy(-g.ball.vy),
                bricks,
                ..g
            },
            Face::Right => GameModel {
                ball: g.ball.with_x(b.x + b.w).with_vx(-g.ball.vx),
                bricks,
                ..g
            },
            Face::Left => GameModel {
                ball: g.ball.with_x(b.x - g.ball.w).with_vx(-g.ball.vx),
                bricks,
                ..g
            },
        }
    } else {
        g
    }
}

/// One frame of the engine: serve, paddle movement, ball integration,
/// collision detection (against the just-integrated ball), then the paddle,
/// wall, bottom and brick responses, in that order. The game-over state is
/// terminal: the frame changes nothing.
pub open spec fn update_spec(g: GameModel, input: Input) -> GameModel {
    if g.state == StateMachine::GameOver {
        g
    } else {
        let g3 = pre_collision(g, input);
        let paddle_hit = overlaps(g3.ball, g3.paddle);
        let brick_hit = first_brick_hit(g3);
        let g4 = after_paddle_bounce(g3, paddle_hit);
        let g5 = after_walls(g4);
        let g6 = after_bottom(g5);
        after_brick(g6, brick_hit)
    }
}

/// True iff this frame resolves a brick collision.
pub open spec fn brick_resolved_in(g: GameModel, input: Input) -> bool {
    g.state != StateMachine::GameOver && first_brick_hit(pre_collision(g, input)) is Some
}

/// True iff this frame the ball falls past the bottom of the screen.
pub open spec fn life_lost_in(g: GameModel, input: Input) -> bool {
    g.state != StateMachine::GameOver && pre_bottom(g, input).ball.y >= g.config.screen_h
}

/// The paddle of a fresh session: horizontally centered, a fixed margin
/// above the bottom edge, static.
pub open spec fn initial_paddle(c: ConfigModel) -> EntityModel {
    EntityModel {
        x: (c.screen_w - c.paddle_w) / 2,
        y: c.screen_h - c.paddle_h - PADDLE_MARGIN,
        vx: 0,
        vy: 0,
        w: c.paddle_w,
        h: c.paddle_h,
    }
}

/// The ball of a fresh session: its left edge at the paddle's center,
/// resting on top of the paddle, carrying the launch velocity.
pub open spec fn initial_ball(c: ConfigModel) -> EntityModel {
    let p = initial_paddle(c);
    EntityModel {
        x: p.x + c.paddle_w / 2,
        y: p.y - c.ball_h,
        vx: c.ball_speed,
        vy: -c.ball_speed,
        w: c.ball_w,
        h: c.ball_h,
    }
}

/// The static brick of grid row `j`, column `i`.
pub open spec fn brick_at(c: ConfigModel, j: int, i: int) -> EntityModel {
    EntityModel {
        x: c.bricks_padding_x + i * c.brick_w,
        y: c.bricks_padding_y + j * c.brick_h,
        vx: 0,
        vy: 0,
        w: c.brick_w,
        h: c.brick_h,
    }
}

/// The full brick grid; insertion order is row-major.
pub open spec fn brick_grid(c: ConfigModel) -> Seq<EntityModel> {
    Seq::new(
        (c.brick_rows * c.brick_cols) as nat,
        |k: int| brick_at(c, k / c.brick_cols, k % c.brick_cols),
    )
}

/// The fresh session for configuration `c`: ball on the paddle, full grid,
/// full lives.
pub open spec fn initial_state(c: ConfigModel) -> GameModel {
    GameModel {
        config: c,
        state: StateMachine::BallInPaddle,
        paddle: initial_paddle(c),
        ball: initial_ball(c),
        bricks: brick_grid(c),
        lives: c.initial_lives,
    }
}

/// A brick of a well-formed grid is a well-formed body.
pub proof fn lemma_brick_at_wf(c: ConfigModel, j: int, i: int)
    requires
        c.wf(),
        0 <= j < c.brick_rows,
        0 <= i < c.brick_cols,
    ensures
        brick_at(c, j, i).wf(),
{
    assert(0 <= i * c.brick_w && i * c.brick_w + c.brick_w <= c.brick_cols * c.brick_w)
        by (nonlinear_arith)
        requires
            0 <= i < c.brick_cols,
            c.brick_w > 0,
    ;
    assert(0 <= j * c.brick_h && j * c.brick_h + c.brick_h <= c.brick_rows * c.brick_h)
        by (nonlinear_arith)
        requires
            0 <= j < c.brick_rows,
            c.brick_h > 0,
    ;
}

/// A scan that found no overlap between `a` and `b` may as well have started
/// at `b`.
pub proof fn lemma_first_hit_skip(bricks: Seq<EntityModel>, ball: EntityModel, a: int, b: int)
    requires
        0 <= a <= b <= bricks.len(),
        forall|k: int| a <= k < b ==> !overlaps(ball, #[trigger] bricks[k]),
    ensures
        first_hit_from(bricks, ball, a) == first_hit_from(bricks, ball, b),
    decreases b - a,
{
    if a < b {
        lemma_first_hit_skip(bricks, ball, a + 1, b);
    }
}

/// A successful scan returns an in-range index of an overlapping brick.
pub proof fn lemma_first_hit_range(bricks: Seq<EntityModel>, ball: EntityModel, a: int)
    requires
        0 <= a,
    ensures
        first_hit_from(bricks, ball, a) matches Some(i) ==> a <= i < bricks.len() && overlaps(
            ball,
            bricks[i],
        ),
    decreases bricks.len() - a,
{
    if a < bricks.len() && !overlaps(ball, bricks[a]) {
        lemma_first_hit_range(bricks, ball, a + 1);
    }
}

/// Half of a nonnegative amount, rounded down.
fn half(a: i64) -> (r: i64)
    requires
        a >= 0,
    ensures
        r == a as int / 2,
{
    ((a as u64) / 2) as i64
}

/// Signed division truncating toward zero, as the spin formula calls for,
/// computed through unsigned division.
fn div_trunc_i64(num: i64, den: i64) -> (r: i64)
    requires
        0 < den,
        -0x4000_0000_0000_0000 <= num <= 0x4000_0000_0000_0000,
    ensures
        r == div_trunc(num as int, den as int),
        num >= 0 ==> 0 <= r <= num,
        num < 0 ==> num <= r <= 0,
{
    if num >= 0 {
        let q = (num as u64) / (den as u64);
        proof {
            assert(num as u64 as int / (den as u64 as int) <= num) by (nonlinear_arith)
                requires
                    0 <= num as u64 as int <= num,
                    den as u64 as int >= 1,
            ;
        }
        q as i64
    } else {
        let q = ((-num) as u64) / (den as u64);
        proof {
            assert((-num) as u64 as int / (den as u64 as int) <= -num) by (nonlinear_arith)
                requires
                    0 <= (-num) as u64 as int <= -num,
                    den as u64 as int >= 1,
            ;
        }
        -(q as i64)
    }
}

/// One whole game session: the state machine, the paddle, the ball, the live
/// bricks in insertion order, and the remaining lives, together with the
/// configuration it was created from.
pub struct GameState {
    pub config: Config,
    pub state: StateMachine,
    pub paddle: Entity,
    pub ball: Entity,
    pub bricks: Vec<Entity>,
    pub lives: i32,
}

impl View for GameState {
    type V = GameModel;

    open spec fn view(&self) -> GameModel {
        GameModel {
            config: self.config@,
            state: self.state,
            paddle: self.paddle@,
            ball: self.ball@,
            bricks: self.bricks@.map_values(|e: Entity| e@),
            lives: self.lives as int,
        }
    }
}

impl GameState {
    /// A fresh session: paddle centered at the bottom of the screen, ball
    /// resting on the paddle, the brick grid laid out row-major, and the
    /// configured number of lives.
    pub fn new(config: Config) -> (g: GameState)
        requires
            config@.wf(),
        ensures
            g@ == initial_state(config@),
            g@.wf(),
    {
        let paddle_x = half(config.screen_w - config.paddle_w);
        let paddle_y = config.screen_h - config.paddle_h - PADDLE_MARGIN;
        let paddle = Entity::new(Vec2::new(paddle_x, paddle_y), config.paddle_w, config.paddle_h);
        let ball = Entity::with_velocity(
            Vec2::new(paddle_x + half(config.paddle_w), paddle_y - config.ball_h),
            Vec2::new(config.ball_speed, -config.ball_speed),
            config.ball_w,
            config.ball_h,
        );
        proof {
            assert((config@.screen_w - config@.paddle_w) / 2 <= MAX_COORD && (config@.screen_w
                - config@.paddle_w) / 2 + config@.paddle_w / 2 <= MAX_COORD) by (nonlinear_arith)
                requires
                    0 <= config@.screen_w - config@.paddle_w,
                    config@.screen_w <= MAX_COORD,
                    0 < config@.paddle_w <= config@.screen_w,
            ;
        }
        let mut bricks: Vec<Entity> = Vec::new();
        let mut j: u32 = 0;
        while j < config.brick_rows
            invariant
                config@.wf(),
                j <= config@.brick_rows,
                bricks@.len() == j * config@.brick_cols,
                forall|k: int|
                    0 <= k < bricks@.len() ==> (#[trigger] bricks@[k])@ == brick_at(
                        config@,
                        k / config@.brick_cols,
                        k % config@.brick_cols,
                    ),
                forall|k: int| 0 <= k < bricks@.len() ==> (#[trigger] bricks@[k])@.wf(),
            decreases config@.brick_rows - j,
        {
            let mut i: u32 = 0;
            proof {
                assert((j + 1) * config@.brick_cols == j * config@.brick_cols
                    + config@.brick_cols) by (nonlinear_arith);
                assert(j * config@.brick_cols >= 0) by (nonlinear_arith)
                    requires
                        j >= 0 && config@.brick_cols >= 0,
                ;
            }
            while i < config.brick_cols
                invariant
                    config@.wf(),
                    j < config@.brick_rows,
                    i <= config@.brick_cols,
                    bricks@.len() == j * config@.brick_cols + i,
                    forall|k: int|
                        0 <= k < bricks@.len() ==> (#[trigger] bricks@[k])@ == brick_at(
                            config@,
                            k / config@.brick_cols,
                            k % config@.brick_cols,
                        ),
                    forall|k: int| 0 <= k < bricks@.len() ==> (#[trigger] bricks@[k])@.wf(),
                decreases config@.brick_cols - i,
            {
                proof {
                    lemma_brick_at_wf(config@, j as int, i as int);
                    lemma_fundamental_div_mod_converse(
                        j as int * config@.brick_cols + i as int,
                        config@.brick_cols,
                        j as int,
                        i as int,
                    );
                }
                let x = config.bricks_padding_x + (i as i64) * config.brick_w;
                let y = config.bricks_padding_y + (j as i64) * config.brick_h;
                bricks.push(Entity::new(Vec2::new(x, y), config.brick_w, config.brick_h));
                i += 1;
            }
            j += 1;
        }
        let g = GameState {
            config,
            state: StateMachine::BallInPaddle,
            paddle,
            ball,
            bricks,
            lives: config.initial_lives,
        };
        proof {
            assert(g@.bricks =~= brick_grid(config@));
            assert(g@ =~= initial_state(config@));
        }
        g
    }

    /// Serve, paddle movement and ball integration: the input phase of one
    /// frame, taking the session from its frame-start state to the state in
    /// which collisions are detected.
    fn apply_input(&mut self, input: Input)
        requires
            old(self)@.wf(),
            old(self)@.state != StateMachine::GameOver,
        ensures
            final(self)@ == pre_collision(old(self)@, input),
            final(self)@.config == old(self)@.config,
            final(self)@.bricks == old(self)@.bricks,
            final(self)@.lives == old(self)@.lives,
            final(self)@.state != StateMachine::GameOver,
            -2 * MAX_COORD <= final(self)@.paddle.x <= 2 * MAX_COORD,
            final(self)@.paddle.y == old(self)@.paddle.y,
            final(self)@.paddle.w == old(self)@.paddle.w,
            final(self)@.paddle.h == old(self)@.paddle.h,
            -MID_COORD <= final(self)@.ball.x <= MID_COORD,
            -MID_COORD <= final(self)@.ball.y <= MID_COORD,
            final(self)@.ball.w == old(self)@.ball.w,
            final(self)@.ball.h == old(self)@.ball.h,
            final(self)@.ball.vx == old(self)@.ball.vx,
            final(self)@.ball.vy == old(self)@.ball.vy,
    {
        let ghost g0 = self@;
        // Serve: a launch while the ball rests on the paddle starts it moving.
        if input.launch && self.state == StateMachine::BallInPaddle {
            self.state = StateMachine::BallMoving;
        }
        let ghost g1 = after_serve(g0, input);
        proof {
            assert(self@ =~= g1);
        }
        // Paddle movement; the waiting ball rides along, keeping the offset
        // it had before any move of this frame.
        let ball_offset = self.ball.position.x - self.paddle.position.x;
        let riding = self.state == StateMachine::BallInPaddle;
        let can_move = riding || self.state == StateMachine::BallMoving;
        if input.left && can_move {
            let moved = self.paddle.position.x - self.config.paddle_speed;
            self.paddle.position.x = if moved > 0 {
                moved
            } else {
                0
            };
            if riding {
                self.ball.position.x = self.paddle.position.x + ball_offset;
            }
        }
        if input.right && can_move {
            let moved = self.paddle.position.x + self.config.paddle_speed;
            let limit = self.config.screen_w - self.paddle.width;
            self.paddle.position.x = if moved < limit {
                moved
            } else {
                limit
            };
            if riding {
                self.ball.position.x = self.paddle.position.x + ball_offset;
            }
        }
        let ghost g2 = after_moves(g1, input);
        proof {
            assert(self@ =~= g2);
        }
        // Ball integration.
        if self.state == StateMachine::BallMoving {
            self.ball.position.x = self.ball.position.x + self.ball.velocity.x;
            self.ball.position.y = self.ball.position.y + self.ball.velocity.y;
        }
        proof {
            assert(self@ =~= after_integration(g2));
        }
    }

    /// Index of the first brick (in insertion order) the ball overlaps, if
    /// any, scanning the live set against the ball as it stands now.
    fn find_brick_hit(&self) -> (r: Option<usize>)
        requires
            self@.ball.arith_safe(),
            forall|k: int| 0 <= k < self@.bricks.len() ==> (#[trigger] self@.bricks[k]).wf(),
        ensures
            match r {
                Some(u) => first_brick_hit(self@) == Some(u as int),
                None => first_brick_hit(self@) is None,
            },
    {
        let ghost g = self@;
        let ball_bounds = self.ball.bounds();
        let mut hit_index: Option<usize> = None;
        let mut idx: usize = 0;
        loop
            invariant_except_break
                hit_index is None,
                forall|k: int| 0 <= k < idx ==> !overlaps(g.ball, #[trigger] g.bricks[k]),
            invariant
                self@ == g,
                g.ball.arith_safe(),
                forall|k: int| 0 <= k < g.bricks.len() ==> (#[trigger] g.bricks[k]).wf(),
                ball_bounds@ == g.ball.rect(),
                idx <= g.bricks.len(),
                hit_index matches Some(u) ==> 0 <= u < g.bricks.len() && overlaps(
                    g.ball,
                    g.bricks[u as int],
                ) && forall|k: int| 0 <= k < u ==> !overlaps(g.ball, #[trigger] g.bricks[k]),
            ensures
                hit_index is None ==> forall|k: int|
                    0 <= k < g.bricks.len() ==> !overlaps(g.ball, #[trigger] g.bricks[k]),
            decreases g.bricks.len() - idx,
        {
            if idx >= self.bricks.len() {
                break;
            }
            proof {
                assert(g.bricks[idx as int] == self.bricks@[idx as int]@);
            }
            if ball_bounds.intersects(&self.bricks[idx].bounds()) {
                hit_index = Some(idx);
                break;
            }
            idx += 1;
        }
        proof {
            match hit_index {
                None => {
                    lemma_first_hit_skip(g.bricks, g.ball, 0, g.bricks.len() as int);
                },
                Some(u) => {
                    lemma_first_hit_skip(g.bricks, g.ball, 0, u as int);
                },
            }
        }
        hit_index
    }

    /// The paddle-bounce response: seat the ball on top of the paddle and
    /// reflect it upward; with spin enabled, tilt the horizontal velocity by
    /// the hit offset first.
    fn apply_paddle_bounce(&mut self, hit: bool)
        requires
            -2 * MAX_COORD <= old(self)@.paddle.x <= 2 * MAX_COORD,
            -MAX_COORD <= old(self)@.paddle.y <= MAX_COORD,
            0 < old(self)@.paddle.w <= MAX_EXTENT,
            0 < old(self)@.paddle.h <= MAX_EXTENT,
            -MID_COORD <= old(self)@.ball.x <= MID_COORD,
            -MID_COORD <= old(self)@.ball.y <= MID_COORD,
            0 < old(self)@.ball.w <= MAX_EXTENT,
            0 < old(self)@.ball.h <= MAX_EXTENT,
            -MAX_EXTENT <= old(self)@.ball.vx <= MAX_EXTENT,
            -MAX_EXTENT <= old(self)@.ball.vy <= MAX_EXTENT,
            0 <= old(self)@.config.paddle_spin <= MAX_EXTENT,
        ensures
            final(self)@ == after_paddle_bounce(old(self)@, hit),
            final(self)@.ball.x == old(self)@.ball.x,
            -MID_COORD <= final(self)@.ball.y <= MID_COORD,
            final(self)@.ball.w == old(self)@.ball.w,
            final(self)@.ball.h == old(self)@.ball.h,
            -VEL_SLACK <= final(self)@.ball.vx <= VEL_SLACK,
            -MAX_EXTENT <= final(self)@.ball.vy <= MAX_EXTENT,
            final(self)@.paddle == old(self)@.paddle,
            final(self)@.config == old(self)@.config,
            final(self)@.bricks == old(self)@.bricks,
            final(self)@.lives == old(self)@.lives,
            final(self)@.state == old(self)@.state,
    {
        let ghost g = self@;
        if hit {
            if self.config.spin_enabled {
                let diff = (2 * self.ball.position.x + self.ball.width) - (2
                    * self.paddle.position.x + self.paddle.width);
                proof {
                    assert(-0x4000_0000_0000_0000 <= g.config.paddle_spin * (diff as int)
                        <= 0x4000_0000_0000_0000 && g.config.paddle_spin * (diff as int)
                        <= MAX_EXTENT * (200_000_000 as int) && g.config.paddle_spin * (diff as int)
                        >= MAX_EXTENT * (-200_000_000 as int)) by (nonlinear_arith)
                        requires
                            0 <= g.config.paddle_spin <= MAX_EXTENT,
                            -200_000_000 <= diff as int <= 200_000_000,
                    ;
                }
                let num = self.config.paddle_spin * diff;
                let delta = div_trunc_i64(num, 2 * self.paddle.width);
                self.ball.velocity.x = self.ball.velocity.x + delta;
                proof {
                    assert(self@.ball.vx == g.ball.vx + spin_delta(g));
                }
            }
            self.ball.position.y = self.paddle.position.y - self.ball.height;
            self.ball.velocity.y = -self.ball.velocity.y;
        }
        proof {
            assert(self@ =~= after_paddle_bounce(g, hit));
        }
    }

    /// The wall-bounce response: reflect the horizontal velocity off the
    /// left and right screen edges and the vertical velocity off the top.
    fn apply_walls(&mut self)
        requires
            old(self)@.config.wf(),
            -MID_COORD <= old(self)@.ball.x <= MID_COORD,
            0 < old(self)@.ball.w <= MAX_EXTENT,
            -VEL_SLACK <= old(self)@.ball.vx <= VEL_SLACK,
            -MAX_EXTENT <= old(self)@.ball.vy <= MAX_EXTENT,
        ensures
            final(self)@ == after_walls(old(self)@),
            final(self)@.ball.x == old(self)@.ball.x,
            final(self)@.ball.y == old(self)@.ball.y,
            final(self)@.ball.w == old(self)@.ball.w,
            final(self)@.ball.h == old(self)@.ball.h,
            -VEL_SLACK <= final(self)@.ball.vx <= VEL_SLACK,
            -MAX_EXTENT <= final(self)@.ball.vy <= MAX_EXTENT,
            final(self)@.paddle == old(self)@.paddle,
            final(self)@.config == old(self)@.config,
            final(self)@.bricks == old(self)@.bricks,
            final(self)@.lives == old(self)@.lives,
            final(self)@.state == old(self)@.state,
    {
        let ghost g = self@;
        if self.ball.position.x <= 0 || self.ball.position.x + self.ball.width
            >= self.config.screen_w {
            self.ball.velocity.x = -self.ball.velocity.x;
        }
        if self.ball.position.y <= 0 {
            self.ball.velocity.y = -self.ball.velocity.y;
        }
        proof {
            assert(self@ =~= after_walls(g));
        }
    }

    /// The bottom-boundary response: when the ball has fallen past the
    /// bottom of the screen, spend a life and either put the ball back on
    /// the paddle or end the game.
    fn apply_bottom(&mut self)
        requires
            old(self)@.config.wf(),
            -2 * MAX_COORD <= old(self)@.paddle.x <= 2 * MAX_COORD,
            -MAX_COORD <= old(self)@.paddle.y <= MAX_COORD,
            0 < old(self)@.paddle.w <= MAX_EXTENT,
            -MID_COORD <= old(self)@.ball.y <= MID_COORD,
            0 < old(self)@.ball.h <= MAX_EXTENT,
            0 <= old(self)@.lives <= MAX_LIVES,
        ensures
            final(self)@ == after_bottom(old(self)@),
            -MID_COORD <= final(self)@.ball.x <= MID_COORD || final(self)@.ball.x == old(
                self,
            )@.ball.x,
            -MID_COORD <= final(self)@.ball.y <= MID_COORD,
            final(self)@.ball.w == old(self)@.ball.w,
            final(self)@.ball.h == old(self)@.ball.h,
            final(self)@.paddle == old(self)@.paddle,
            final(self)@.config == old(self)@.config,
            final(self)@.bricks == old(self)@.bricks,
    {
        let ghost g = self@;
        if self.ball.position.y >= self.config.screen_h {
            self.lives = self.lives - 1;
            if self.lives > 0 {
                self.state = StateMachine::BallInPaddle;
                self.ball.position = Vec2::new(
                    self.paddle.position.x + half(self.paddle.width),
                    self.paddle.position.y - self.ball.height,
                );
                self.ball.velocity = Vec2::new(self.config.ball_speed, -self.config.ball_speed);
            } else {
                self.state = StateMachine::GameOver;
            }
        }
        proof {
            assert(self@ =~= after_bottom(g));
        }
    }

    /// The brick-impact response: classify the struck face of brick `i` from
    /// the centers, reflect the matching velocity component, seat the ball
    /// flush against that face, and retire the brick (the last brick is
    /// swapped into its place).
    fn apply_brick(&mut self, i: usize)
        requires
            i < old(self)@.bricks.len(),
            forall|k: int| 0 <= k < old(self)@.bricks.len() ==> (#[trigger] old(
                self,
            )@.bricks[k]).wf(),
            -MID_COORD <= old(self)@.ball.x <= MID_COORD,
            -MID_COORD <= old(self)@.ball.y <= MID_COORD,
            0 < old(self)@.ball.w <= MAX_EXTENT,
            0 < old(self)@.ball.h <= MAX_EXTENT,
            -VEL_SLACK <= old(self)@.ball.vx <= VEL_SLACK,
            -MAX_EXTENT <= old(self)@.ball.vy <= MAX_EXTENT,
        ensures
            final(self)@ == after_brick(old(self)@, Some(i as int)),
    {
        let ghost g = self@;
        proof {
            assert(g.bricks[i as int] == self.bricks@[i as int]@);
        }
        let brick = self.bricks[i];
        let face = classify_impact_face(&self.ball, &brick);
        match face {
            Face::Bottom => {
                self.ball.velocity.y = -self.ball.velocity.y;
                self.ball.position.y = brick.position.y + brick.height;
            },
            Face::Top => {
                self.ball.velocity.y = -self.ball.velocity.y;
                self.ball.position.y = brick.position.y - self.ball.height;
            },
            Face::Right => {
                self.ball.velocity.x = -self.ball.velocity.x;
                self.ball.position.x = brick.position.x + brick.width;
            },
            Face::Left => {
                self.ball.velocity.x = -self.ball.velocity.x;
                self.ball.position.x = brick.position.x - self.ball.width;
            },
        }
        self.bricks.swap_remove(i);
        proof {
            assert(self@.bricks =~= g.bricks.update(i as int, g.bricks.last()).drop_last());
            assert(self@ =~= after_brick(g, Some(i as int)));
        }
    }

    /// One frame of the simulation, computing exactly the transition
    /// [`update_spec`]: serve and paddle input, ball integration, collision
    /// detection against the just-integrated ball, then the paddle, wall,
    /// bottom and brick responses, in the fixed order the spec states.
    /// The game-over state is terminal: the frame changes nothing.
    pub fn update(&mut self, input: Input)
        requires
            old(self)@.wf(),
        ensures
            final(self)@ == update_spec(old(self)@, input),
    {
        let ghost g0 = self@;
        if self.state == StateMachine::GameOver {
            return;
        }
        self.apply_input(input);
        let ghost g3 = self@;
        // Collision detection, against the just-integrated ball.
        let paddle_hit = self.ball.bounds().intersects(&self.paddle.bounds());
        proof {
            assert(paddle_hit == overlaps(g3.ball, g3.paddle));
        }
        let hit_index = self.find_brick_hit();
        self.apply_paddle_bounce(paddle_hit);
        self.apply_walls();
        self.apply_bottom();
        if let Some(i) = hit_index {
            proof {
                lemma_first_hit_range(g3.bricks, g3.ball, 0);
            }
            self.apply_brick(i);
        }
        proof {
            assert(self@ == update_spec(g0, input));
        }
    }
}

impl GameState {
    /// Runtime check of the session invariant [`GameModel::wf`], for
    /// unverified hosts that drive the engine frame by frame.
    pub fn is_well_formed(&self) -> (r: bool)
        ensures
            r == self@.wf(),
    {
        if !(self.config.is_well_formed() && self.paddle.is_well_formed()
            && self.ball.is_well_formed() && 0 <= self.lives && self.lives <= MAX_LIVES && (
        self.state == StateMachine::GameOver || self.lives >= 1)) {
            return false;
        }
        let mut k: usize = 0;
        while k < self.bricks.len()
            invariant
                k <= self.bricks@.len(),
                forall|j: int| 0 <= j < k ==> (#[trigger] self@.bricks[j]).wf(),
            decreases self.bricks@.len() - k,
        {
            proof {
                assert(self@.bricks[k as int] == self.bricks@[k as int]@);
            }
            if !self.bricks[k].is_well_formed() {
                return false;
            }
            k += 1;
        }
        true
    }
}

} // verus!
