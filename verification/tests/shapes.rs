//! Unit tests for the geometry primitives and the impact-face classifier.

use bricks::Config;
use bricks::Entity;
use bricks::Face;
use bricks::Rect;
use bricks::Vec2;
use bricks::classify_impact_face;

fn body_at(x: i64, y: i64, w: i64, h: i64) -> Entity {
    Entity::new(Vec2::new(x, y), w, h)
}

#[test]
fn entity_constructors_set_fields() {
    let e = Entity::new(Vec2::new(10, 20), 7, 9);
    assert_eq!(e.position, Vec2 { x: 10, y: 20 });
    assert_eq!(e.velocity, Vec2 { x: 0, y: 0 });
    assert_eq!(e.width(), 7);
    assert_eq!(e.height(), 9);
    let m = Entity::with_velocity(Vec2::new(1, 2), Vec2::new(-3, 4), 5, 6);
    assert_eq!(m.velocity, Vec2 { x: -3, y: 4 });
}

#[test]
fn bounds_and_center() {
    let e = Entity::new(Vec2::new(10, 20), 7, 9);
    let b = e.bounds();
    assert_eq!((b.x, b.y, b.width, b.height), (10, 20, 7, 9));
    let c = e.center();
    assert_eq!(c, Vec2 { x: 13, y: 24 });
}

#[test]
fn rects_overlap_only_with_positive_area() {
    let a = Rect::new(0, 0, 10, 10);
    assert!(a.intersects(&Rect::new(5, 5, 10, 10)));
    assert!(a.intersects(&Rect::new(2, 2, 3, 3)));
    // Touching along an edge or at a corner is not a collision.
    assert!(!a.intersects(&Rect::new(10, 0, 10, 10)));
    assert!(!a.intersects(&Rect::new(0, 10, 10, 10)));
    assert!(!a.intersects(&Rect::new(10, 10, 10, 10)));
    assert!(!a.intersects(&Rect::new(30, 0, 10, 10)));
}

#[test]
fn face_is_bottom_when_ball_sits_below() {
    let ball = body_at(124, 116, 16, 16);
    let brick = body_at(100, 100, 64, 32);
    assert_eq!(classify_impact_face(&ball, &brick), Face::Bottom);
}

#[test]
fn face_is_top_when_ball_sits_above() {
    let ball = body_at(124, 80, 16, 16);
    let brick = body_at(100, 100, 64, 32);
    assert_eq!(classify_impact_face(&ball, &brick), Face::Top);
}

#[test]
fn face_is_right_when_ball_sits_right() {
    let ball = body_at(160, 108, 16, 16);
    let brick = body_at(100, 100, 64, 32);
    assert_eq!(classify_impact_face(&ball, &brick), Face::Right);
}

#[test]
fn face_is_left_when_ball_sits_left() {
    let ball = body_at(90, 108, 16, 16);
    let brick = body_at(100, 100, 64, 32);
    assert_eq!(classify_impact_face(&ball, &brick), Face::Left);
}

#[test]
fn diagonal_tie_resolves_to_horizontal_faces() {
    // Center-to-center vector (10, 10): the horizontal classification wins.
    let ball = body_at(0, 0, 10, 10);
    let target = body_at(10, 10, 10, 10);
    assert_eq!(classify_impact_face(&ball, &target), Face::Left);
    let target_back = body_at(-10, -10, 10, 10);
    assert_eq!(classify_impact_face(&ball, &target_back), Face::Right);
}

#[test]
fn coinciding_centers_fall_back_to_bottom() {
    let ball = body_at(5, 5, 10, 10);
    let target = body_at(0, 0, 20, 20);
    assert_eq!(classify_impact_face(&ball, &target), Face::Bottom);
}

#[test]
fn odd_extents_classify_exactly() {
    // Centers at (7.5, 7.5) and (7.5, 2.5): a pure vertical offset, with the
    // ball below the target, even though neither center is a whole pixel.
    let ball = body_at(0, 0, 15, 15);
    let target = body_at(5, -5, 5, 15);
    assert_eq!(classify_impact_face(&ball, &target), Face::Bottom);
}

#[test]
fn config_check_rejects_malformed_values() {
    let good = Config {
        screen_w: 640,
        screen_h: 480,
        paddle_w: 64,
        paddle_h: 16,
        ball_w: 16,
        ball_h: 16,
        brick_w: 64,
        brick_h: 32,
        brick_rows: 3,
        brick_cols: 9,
        bricks_padding_x: 25,
        bricks_padding_y: 25,
        paddle_speed: 8,
        ball_speed: 5,
        paddle_spin: 4,
        spin_enabled: false,
        initial_lives: 3,
    };
    assert!(good.is_well_formed());
    let mut zero_extent = good;
    zero_extent.ball_w = 0;
    assert!(!zero_extent.is_well_formed());
    let mut empty_grid = good;
    empty_grid.brick_rows = 0;
    assert!(!empty_grid.is_well_formed());
    let mut no_lives = good;
    no_lives.initial_lives = 0;
    assert!(!no_lives.is_well_formed());
    let mut wide_paddle = good;
    wide_paddle.paddle_w = 700;
    assert!(!wide_paddle.is_well_formed());
    let mut still_ball = good;
    still_ball.ball_speed = 0;
    assert!(!still_ball.is_well_formed());
    let mut grid_off_range = good;
    grid_off_range.bricks_padding_x = 10_000_000;
    assert!(!grid_off_range.is_well_formed());
}
