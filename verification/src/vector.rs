//! Plane vectors in fixed point, unit vectors, the viewport and the rule by
//! which a coordinate that leaves the viewport comes back.

use crate::fixed::{quotient, UNIT};
use vstd::prelude::*;

verus! {

/// The model of a vector: a pair of mathematical integers.
pub struct Vector {
    pub x: int,
    pub y: int,
}

impl Vector {
    pub open spec fn plus(self, other: Vector) -> Vector {
        Vector { x: self.x + other.x, y: self.y + other.y }
    }

    pub open spec fn minus(self, other: Vector) -> Vector {
        Vector { x: self.x - other.x, y: self.y - other.y }
    }

    /// The vector stretched by the whole factor `k`.
    pub open spec fn times(self, k: int) -> Vector {
        Vector { x: self.x * k, y: self.y * k }
    }

    /// The vector stretched by `num / den`, each component rounded toward
    /// zero.
    pub open spec fn scaled(self, num: int, den: int) -> Vector {
        Vector { x: quotient(self.x * num, den), y: quotient(self.y * num, den) }
    }

    /// The vector turned by a quarter turn, from the x-axis toward the
    /// y-axis.
    pub open spec fn perpendicular(self) -> Vector {
        Vector { x: -self.y, y: self.x }
    }

    pub open spec fn dot(self, other: Vector) -> int {
        self.x * other.x + self.y * other.y
    }

    /// The square of the vector's length.
    pub open spec fn norm_squared(self) -> int {
        self.x * self.x + self.y * self.y
    }
}

/// A vector of the plane, in fixed point.
#[derive(Clone, Copy, Debug, PartialEq, Eq, Structural)]
pub struct Vec2 {
    pub x: i64,
    pub y: i64,
}

impl View for Vec2 {
    type V = Vector;

    open spec fn view(&self) -> Vector {
        Vector { x: self.x as int, y: self.y as int }
    }
}

impl Vec2 {
    pub fn new(x: i64, y: i64) -> (v: Vec2)
        ensures
            v == (Vec2 { x, y }),
    {
        Vec2 { x, y }
    }
}

/// `v` has length one, as far as rounding to fixed point lets it: the square
/// of its length differs from `UNIT * UNIT` by at most `2 * UNIT`.
pub open spec fn is_unit(v: Vector) -> bool {
    UNIT * UNIT - 2 * UNIT <= v.norm_squared() <= UNIT * UNIT + 2 * UNIT
}

/// A vector of a unit's length stays within the unit on each axis.
pub proof fn lemma_unit_components(v: Vector)
    requires
        v.norm_squared() <= UNIT * UNIT + 2 * UNIT,
    ensures
        -UNIT <= v.x <= UNIT,
        -UNIT <= v.y <= UNIT,
{
    let x = v.x;
    let y = v.y;
    assert(-1_000_000 <= x <= 1_000_000 && -1_000_000 <= y <= 1_000_000) by (nonlinear_arith)
        requires
            x * x + y * y <= 1_000_000 * 1_000_000 + 2 * 1_000_000,
    ;
}

/// A direction: the unit vector `(cos a, sin a)` of some angle `a`, in fixed
/// point.
#[derive(Clone, Copy, Debug)]
pub struct Direction {
    x: i64,
    y: i64,
}

impl View for Direction {
    type V = Vector;

    closed spec fn view(&self) -> Vector {
        Vector { x: self.x as int, y: self.y as int }
    }
}

impl Direction {
    #[verifier::type_invariant]
    pub open spec fn wf(self) -> bool {
        is_unit(self@)
    }

    /// The direction with the components `x` and `y`, if they make a unit
    /// vector.
    pub fn new(x: i64, y: i64) -> (d: Option<Direction>)
        ensures
            d is Some <==> is_unit(Vector { x: x as int, y: y as int }),
            d matches Some(dir) ==> dir@ == (Vector { x: x as int, y: y as int }) && dir.wf(),
    {
        if x < -UNIT || x > UNIT || y < -UNIT || y > UNIT {
            proof {
                if is_unit(Vector { x: x as int, y: y as int }) {
                    lemma_unit_components(Vector { x: x as int, y: y as int });
                }
            }
            return None;
        }
        assert(0 <= x * x <= 1_000_000 * 1_000_000 && 0 <= y * y <= 1_000_000 * 1_000_000)
            by (nonlinear_arith)
            requires
                -1_000_000 <= x <= 1_000_000,
                -1_000_000 <= y <= 1_000_000,
        ;
        let n: i64 = x * x + y * y;
        if UNIT * UNIT - 2 * UNIT <= n && n <= UNIT * UNIT + 2 * UNIT {
            Some(Direction { x, y })
        } else {
            None
        }
    }

    pub fn x(&self) -> (x: i64)
        ensures
            x == self@.x,
            -UNIT <= x <= UNIT,
    {
        proof {
            use_type_invariant(self);
            lemma_unit_components(self@);
        }
        self.x
    }

    pub fn y(&self) -> (y: i64)
        ensures
            y == self@.y,
            -UNIT <= y <= UNIT,
    {
        proof {
            use_type_invariant(self);
            lemma_unit_components(self@);
        }
        self.y
    }
}

/// The vectors of the directions in `headings`.
pub open spec fn heading_views(headings: Seq<Direction>) -> Seq<Vector> {
    headings.map_values(|d: Direction| d@)
}

/// The model of a viewport: its width and height.
pub struct Extent {
    pub width: int,
    pub height: int,
}

impl Extent {
    /// What holds of every viewport: each side lies between [`MIN_SIDE`]
    /// and [`MAX_SIDE`].
    pub open spec fn wf(self) -> bool {
        &&& MIN_SIDE <= self.width <= MAX_SIDE
        &&& MIN_SIDE <= self.height <= MAX_SIDE
    }
}

/// The smallest side a viewport may have: as far as a new asteroid may lie
/// from the side that it starts near.
pub const MIN_SIDE: i64 = 60_000_000;

/// The largest side a viewport may have: a million world units.
pub const MAX_SIDE: i64 = 1_000_000_000_000;

/// No ship and no asteroid of the largest size is ever further right or
/// further down than this: one unit beyond the largest viewport.
pub const POSITION_LIMIT: i64 = 1_000_001_000_000;

/// The rectangle `[0, width] x [0, height]` in which the game is played.
#[derive(Clone, Copy, Debug)]
pub struct Viewport {
    width: i64,
    height: i64,
}

impl View for Viewport {
    type V = Extent;

    closed spec fn view(&self) -> Extent {
        Extent { width: self.width as int, height: self.height as int }
    }
}

impl Viewport {
    #[verifier::type_invariant]
    pub open spec fn wf(self) -> bool {
        self@.wf()
    }

    /// The viewport of the given size, if each side lies between
    /// [`MIN_SIDE`] and [`MAX_SIDE`].
    pub fn new(width: i64, height: i64) -> (v: Option<Viewport>)
        ensures
            v is Some <==> MIN_SIDE <= width <= MAX_SIDE && MIN_SIDE <= height <= MAX_SIDE,
            v matches Some(view) ==> view@ == (Extent {
                width: width as int,
                height: height as int,
            }) && view.wf(),
    {
        if MIN_SIDE <= width && width <= MAX_SIDE && MIN_SIDE <= height && height <= MAX_SIDE {
            Some(Viewport { width, height })
        } else {
            None
        }
    }

    pub fn width(&self) -> (w: i64)
        ensures
            w == self@.width,
            MIN_SIDE <= w <= MAX_SIDE,
    {
        proof {
            use_type_invariant(self);
        }
        self.width
    }

    pub fn height(&self) -> (h: i64)
        ensures
            h == self@.height,
            MIN_SIDE <= h <= MAX_SIDE,
    {
        proof {
            use_type_invariant(self);
        }
        self.height
    }
}

/// `pos` lies in the viewport.
pub open spec fn inside(pos: Vector, viewport: Extent) -> bool {
    0 <= pos.x <= viewport.width && 0 <= pos.y <= viewport.height
}

/// Where a coordinate that has left `[0, max]` comes back: below zero it
/// becomes `max - coord`, above `max` it becomes `coord - max`.
pub open spec fn wrapped(coord: int, max: int) -> int {
    if coord < 0 {
        max - coord
    } else if coord > max {
        coord - max
    } else {
        coord
    }
}

/// A position with each coordinate wrapped into the viewport.
pub open spec fn wrapped_position(pos: Vector, viewport: Extent) -> Vector {
    Vector { x: wrapped(pos.x, viewport.width), y: wrapped(pos.y, viewport.height) }
}

/// Wraps one coordinate: see [`wrapped`].
pub fn bound_to(coord: i64, max: i64) -> (r: i64)
    requires
        i64::MIN <= wrapped(coord as int, max as int) <= i64::MAX,
    ensures
        r == wrapped(coord as int, max as int),
{
    if coord < 0 {
        max - coord
    } else if coord > max {
        coord - max
    } else {
        coord
    }
}

/// Wraps both coordinates of a position into the viewport.
pub fn bound_pos(pos: Vec2, viewport: &Viewport) -> (r: Vec2)
    requires
        wrapped(pos.x as int, viewport@.width) <= i64::MAX,
        wrapped(pos.y as int, viewport@.height) <= i64::MAX,
    ensures
        r@ == wrapped_position(pos@, viewport@),
{
    let w: i64 = viewport.width();
    let h: i64 = viewport.height();
    Vec2 { x: bound_to(pos.x, w), y: bound_to(pos.y, h) }
}

/// A coordinate at most `step` outside `[0, max]` comes back into
/// `[0, max + step]`; one inside stays as it is.
pub proof fn lemma_wrapped_range(coord: int, max: int, step: int)
    requires
        0 <= step <= max,
        -step <= coord <= max + step,
    ensures
        0 <= wrapped(coord, max) <= max + step,
        0 <= coord <= max ==> wrapped(coord, max) == coord,
{
}

} // verus!
