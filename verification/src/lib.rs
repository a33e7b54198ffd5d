//! A verified Breakout-style arcade engine: axis-aligned collision detection,
//! directional impact classification, paddle and ball motion, and the
//! serve / play / game-over state machine, all proved against a mathematical
//! model of each frame step.
//!
//! The engine is a library-style simulation: a host loop supplies one
//! [`Input`] per frame and renders the resulting state. Rendering, input
//! polling and asset loading stay outside; the engine owns every rule of the
//! game.

mod collision;
mod game;
mod geometry;
mod laws;

pub use collision::Face;
pub use collision::abs_int;
pub use collision::classify_impact_face;
pub use collision::impact_face;
pub use game::Config;
pub use game::ConfigModel;
pub use game::GameModel;
pub use game::GameState;
pub use game::Input;
pub use game::MAX_GRID;
pub use game::MAX_LIVES;
pub use game::PADDLE_MARGIN;
pub use game::StateMachine;
pub use game::after_bottom;
pub use game::after_brick;
pub use game::after_integration;
pub use game::after_moves;
pub use game::after_paddle_bounce;
pub use game::after_serve;
pub use game::after_walls;
pub use game::brick_at;
pub use game::brick_grid;
pub use game::brick_resolved_in;
pub use game::div_trunc;
pub use game::first_brick_hit;
pub use game::first_hit_from;
pub use game::initial_ball;
pub use game::initial_paddle;
pub use game::initial_state;
pub use game::left_move_x;
pub use game::life_lost_in;
pub use game::max_int;
pub use game::min_int;
pub use game::pre_bottom;
pub use game::pre_collision;
pub use game::right_move_x;
pub use game::spin_delta;
pub use game::update_spec;
pub use geometry::Entity;
pub use geometry::EntityModel;
pub use geometry::MAX_COORD;
pub use geometry::MAX_EXTENT;
pub use geometry::Rect;
pub use geometry::RectModel;
pub use geometry::Vec2;
pub use geometry::overlaps;
pub use geometry::rect_overlap;
pub use laws::lemma_ball_rides_paddle;
pub use laws::lemma_brick_bounce_reflects;
pub use laws::lemma_brick_count;
pub use laws::lemma_game_over_terminal;
pub use laws::lemma_lives;
pub use laws::lemma_paddle_bounce_reflects;
pub use laws::lemma_paddle_move_clamped;
pub use laws::lemma_wall_bounce_reflects;
