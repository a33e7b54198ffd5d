//! Directional impact classification.
//!
//! When the ball strikes a brick, the engine must decide which face of the
//! brick was hit so that the right velocity component is reflected. The
//! classifier compares the vector from the ball's center to the target's
//! center against the four axis directions and picks the dominant axis: the
//! struck face is the one whose outward normal points back from the target
//! toward the ball. On an exact diagonal the horizontal faces win, and the
//! degenerate case of coinciding centers falls back to `Bottom`.

use vstd::prelude::*;

use crate::geometry::Entity;
use crate::geometry::EntityModel;

verus! {

/// Which face of a target rectangle the ball struck.
#[derive(Clone, Copy, PartialEq, Eq, Structural, Debug)]
pub enum Face {
    Bottom,
    Top,
    Left,
    Right,
}

/// The magnitude of an integer.
pub open spec fn abs_int(a: int) -> int {
    if a < 0 {
        -a
    } else {
        a
    }
}

/// The face struck, classified from the vector (dx, dy) that points from the
/// ball's center to the target's center (screen coordinates: y grows
/// downward). The dominant axis of the vector names the face: a mostly
/// upward vector (dy < 0) means the ball sits below the target and struck
/// its bottom face, a mostly leftward vector (dx < 0) means the ball sits to
/// the target's right and struck its right face, and so on. An exact
/// diagonal resolves to the horizontal faces, and the zero vector
/// (coinciding centers) falls back to `Bottom`.
pub open spec fn impact_face(dx: int, dy: int) -> Face {
    if dx == 0 && dy == 0 {
        Face::Bottom
    } else if abs_int(dy) > abs_int(dx) {
        if dy < 0 {
            Face::Bottom
        } else {
            Face::Top
        }
    } else {
        if dx < 0 {
            Face::Right
        } else {
            Face::Left
        }
    }
}

/// Classify which face of `target` the moving `ball` struck.
///
/// The comparison runs in doubled coordinates, so centers of odd extents are
/// handled exactly, without rounding.
pub fn classify_impact_face(ball: &Entity, target: &Entity) -> (f: Face)
    requires
        ball@.arith_safe(),
        target@.arith_safe(),
    ensures
        f == impact_face(
            target@.center2_x() - ball@.center2_x(),
            target@.center2_y() - ball@.center2_y(),
        ),
{
    let dx = (2 * target.position.x + target.width) - (2 * ball.position.x + ball.width);
    let dy = (2 * target.position.y + target.height) - (2 * ball.position.y + ball.height);
    let adx = if dx < 0 { -dx } else { dx };
    let ady = if dy < 0 { -dy } else { dy };
    if dx == 0 && dy == 0 {
        Face::Bottom
    } else if ady > adx {
        if dy < 0 {
            Face::Bottom
        } else {
            Face::Top
        }
    } else {
        if dx < 0 {
            Face::Right
        } else {
            Face::Left
        }
    }
}

} // verus!
