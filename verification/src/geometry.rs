//! Rectangular bodies and their mathematical views.
//!
//! Every simulated object (paddle, ball, brick) is an [`Entity`]: an
//! axis-aligned rectangle with a top-left position, an extent that is fixed
//! when the entity is created, and a velocity (zero for static bodies).
//! Positions and extents are whole pixels. Contracts are stated over ghost
//! models whose fields are unbounded integers.

use vstd::prelude::*;

verus! {

/// Largest extent (width, height) or speed the engine admits.
pub const MAX_EXTENT: i64 = 1_000_000;

/// Largest coordinate magnitude the engine admits.
pub const MAX_COORD: i64 = 10_000_000;

/// Loose coordinate bound: roomy enough for every intermediate position one
/// frame step can produce from in-range state, yet small enough that the
/// collision arithmetic cannot overflow a machine integer.
pub const COORD_SLACK: i64 = 100_000_000;

/// A two-dimensional vector of whole pixels: a position or a velocity.
#[derive(Clone, Copy, PartialEq, Eq, Structural, Debug)]
pub struct Vec2 {
    pub x: i64,
    pub y: i64,
}

impl Vec2 {
    /// The vector (x, y).
    pub fn new(x: i64, y: i64) -> (v: Vec2)
        ensures
            v.x == x,
            v.y == y,
    {
        Vec2 { x, y }
    }

    /// The zero vector, the velocity of every static body.
    pub fn zero() -> (v: Vec2)
        ensures
            v.x == 0,
            v.y == 0,
    {
        Vec2 { x: 0, y: 0 }
    }
}

/// Mathematical view of an axis-aligned rectangle: top-left corner and extent.
pub struct RectModel {
    pub x: int,
    pub y: int,
    pub w: int,
    pub h: int,
}

impl RectModel {
    /// Loose bounds under which the overlap arithmetic cannot overflow.
    pub open spec fn arith_safe(self) -> bool {
        &&& -COORD_SLACK <= self.x <= COORD_SLACK
        &&& -COORD_SLACK <= self.y <= COORD_SLACK
        &&& 0 <= self.w <= COORD_SLACK
        &&& 0 <= self.h <= COORD_SLACK
    }
}

/// True iff the two rectangles overlap with positive area on both axes;
/// rectangles that merely touch along an edge do not overlap.
pub open spec fn rect_overlap(a: RectModel, b: RectModel) -> bool {
    &&& a.x < b.x + b.w
    &&& a.x + a.w > b.x
    &&& a.y < b.y + b.h
    &&& a.y + a.h > b.y
}

/// An axis-aligned bounding box in whole pixels.
#[derive(Clone, Copy, PartialEq, Eq, Structural, Debug)]
pub struct Rect {
    pub x: i64,
    pub y: i64,
    pub width: i64,
    pub height: i64,
}

impl View for Rect {
    type V = RectModel;

    open spec fn view(&self) -> RectModel {
        RectModel { x: self.x as int, y: self.y as int, w: self.width as int, h: self.height as int }
    }
}

impl Rect {
    /// The rectangle with the given corner and extent.
    pub fn new(x: i64, y: i64, width: i64, height: i64) -> (r: Rect)
        ensures
            r@ == (RectModel { x: x as int, y: y as int, w: width as int, h: height as int }),
    {
        Rect { x, y, width, height }
    }

    /// Standard AABB overlap test: true iff the projections of the two
    /// rectangles overlap on both axes. Boundary touches are not collisions.
    pub fn intersects(&self, other: &Rect) -> (r: bool)
        requires
            self@.arith_safe(),
            other@.arith_safe(),
        ensures
            r == rect_overlap(self@, other@),
    {
        self.x < other.x + other.width && self.x + self.width > other.x
            && self.y < other.y + other.height && self.y + self.height > other.y
    }
}

/// Mathematical view of an entity: position, velocity and extent as
/// unbounded integers.
#[verifier::ext_equal]
pub struct EntityModel {
    pub x: int,
    pub y: int,
    pub vx: int,
    pub vy: int,
    pub w: int,
    pub h: int,
}

impl EntityModel {
    /// The entity's bounding box.
    pub open spec fn rect(self) -> RectModel {
        RectModel { x: self.x, y: self.y, w: self.w, h: self.h }
    }

    /// Twice the x coordinate of the entity's center. Working in doubled
    /// coordinates keeps the center of an odd extent exact.
    pub open spec fn center2_x(self) -> int {
        2 * self.x + self.w
    }

    /// Twice the y coordinate of the entity's center.
    pub open spec fn center2_y(self) -> int {
        2 * self.y + self.h
    }

    /// Coordinates, velocity and extent small enough that every sum the
    /// engine forms fits comfortably in a machine integer.
    pub open spec fn in_range(self) -> bool {
        &&& -MAX_COORD <= self.x <= MAX_COORD
        &&& -MAX_COORD <= self.y <= MAX_COORD
        &&& -MAX_EXTENT <= self.vx <= MAX_EXTENT
        &&& -MAX_EXTENT <= self.vy <= MAX_EXTENT
        &&& 0 <= self.w <= MAX_EXTENT
        &&& 0 <= self.h <= MAX_EXTENT
    }

    /// A well-formed body: in range, with strictly positive extent.
    pub open spec fn wf(self) -> bool {
        &&& self.in_range()
        &&& self.w > 0
        &&& self.h > 0
    }

    /// Loose bounds under which the collision arithmetic cannot overflow.
    pub open spec fn arith_safe(self) -> bool {
        self.rect().arith_safe()
    }

    /// The same body moved to horizontal position `x`.
    pub open spec fn with_x(self, x: int) -> EntityModel {
        EntityModel { x, ..self }
    }

    /// The same body moved to vertical position `y`.
    pub open spec fn with_y(self, y: int) -> EntityModel {
        EntityModel { y, ..self }
    }

    /// The same body moved to position (x, y).
    pub open spec fn with_pos(self, x: int, y: int) -> EntityModel {
        EntityModel { x, y, ..self }
    }

    /// The same body with horizontal velocity `vx`.
    pub open spec fn with_vx(self, vx: int) -> EntityModel {
        EntityModel { vx, ..self }
    }

    /// The same body with vertical velocity `vy`.
    pub open spec fn with_vy(self, vy: int) -> EntityModel {
        EntityModel { vy, ..self }
    }

    /// The same body with velocity (vx, vy).
    pub open spec fn with_vel(self, vx: int, vy: int) -> EntityModel {
        EntityModel { vx, vy, ..self }
    }
}

/// True iff the bounding boxes of the two entities overlap.
pub open spec fn overlaps(a: EntityModel, b: EntityModel) -> bool {
    rect_overlap(a.rect(), b.rect())
}

/// A rectangular simulated body: the paddle, the ball, or one brick.
///
/// The extent is fixed for the lifetime of the entity and strictly positive;
/// static bodies carry a zero velocity.
#[derive(Clone, Copy, PartialEq, Eq, Structural, Debug)]
pub struct Entity {
    pub position: Vec2,
    pub velocity: Vec2,
    pub width: i64,
    pub height: i64,
}

impl View for Entity {
    type V = EntityModel;

    open spec fn view(&self) -> EntityModel {
        EntityModel {
            x: self.position.x as int,
            y: self.position.y as int,
            vx: self.velocity.x as int,
            vy: self.velocity.y as int,
            w: self.width as int,
            h: self.height as int,
        }
    }
}

impl Entity {
    /// A static body (zero velocity) with the given position and extent.
    pub fn new(position: Vec2, width: i64, height: i64) -> (e: Entity)
        requires
            width > 0,
            height > 0,
        ensures
            e@ == (EntityModel {
                x: position.x as int,
                y: position.y as int,
                vx: 0,
                vy: 0,
                w: width as int,
                h: height as int,
            }),
    {
        Entity::with_velocity(position, Vec2::zero(), width, height)
    }

    /// A body with the given position, velocity and extent.
    pub fn with_velocity(position: Vec2, velocity: Vec2, width: i64, height: i64) -> (e: Entity)
        requires
            width > 0,
            height > 0,
        ensures
            e@ == (EntityModel {
                x: position.x as int,
                y: position.y as int,
                vx: velocity.x as int,
                vy: velocity.y as int,
                w: width as int,
                h: height as int,
            }),
    {
        Entity { position, velocity, width, height }
    }

    /// The body's width.
    pub fn width(&self) -> (w: i64)
        ensures
            w == self@.w,
    {
        self.width
    }

    /// The body's height.
    pub fn height(&self) -> (h: i64)
        ensures
            h == self@.h,
    {
        self.height
    }

    /// The body's bounding box.
    pub fn bounds(&self) -> (r: Rect)
        ensures
            r@ == self@.rect(),
    {
        Rect { x: self.position.x, y: self.position.y, width: self.width, height: self.height }
    }

    /// Runtime check of [`EntityModel::wf`]: in range, positive extent.
    pub fn is_well_formed(&self) -> (r: bool)
        ensures
            r == self@.wf(),
    {
        -MAX_COORD <= self.position.x && self.position.x <= MAX_COORD && -MAX_COORD
            <= self.position.y && self.position.y <= MAX_COORD && -MAX_EXTENT <= self.velocity.x
            && self.velocity.x <= MAX_EXTENT && -MAX_EXTENT <= self.velocity.y && self.velocity.y
            <= MAX_EXTENT && 0 < self.width && self.width <= MAX_EXTENT && 0 < self.height
            && self.height <= MAX_EXTENT
    }

    /// The body's center, rounded down to whole pixels.
    pub fn center(&self) -> (c: Vec2)
        requires
            self@.arith_safe(),
        ensures
            c.x == self@.x + self@.w / 2,
            c.y == self@.y + self@.h / 2,
    {
        Vec2 {
            x: self.position.x + ((self.width as u64 / 2) as i64),
            y: self.position.y + ((self.height as u64 / 2) as i64),
        }
    }
}

} // verus!
