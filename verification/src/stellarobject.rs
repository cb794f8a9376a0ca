//! What every moving object of the game can do, and when two of them
//! collide.

use crate::vector::{Vec2, Vector};
use vstd::prelude::*;

verus! {

/// A moving object of the game: it has a position and a radius, and moves
/// once per frame.
pub trait StellarObject {
    /// What the object has to be told of the current frame to move.
    type Frame;

    /// Where the object's centre is.
    fn position(&self) -> Vec2;

    /// Moves the object by one frame.
    fn update_position(&mut self, frame: &Self::Frame);

    /// The radius of the circle the object fills.
    fn radius(&self) -> i64;
}

/// Two circles collide when their centres are closer to each other than the
/// sum of their radii.
pub open spec fn overlap(pa: Vector, ra: int, pb: Vector, rb: int) -> bool {
    ra + rb > 0 && pa.minus(pb).norm_squared() < (ra + rb) * (ra + rb)
}

/// Which of two circles is named first makes no difference to whether they
/// collide.
pub proof fn lemma_collision_symmetric(pa: Vector, ra: int, pb: Vector, rb: int)
    ensures
        overlap(pa, ra, pb, rb) == overlap(pb, rb, pa, ra),
{
    let dx = pa.x - pb.x;
    let dy = pa.y - pb.y;
    assert((-dx) * (-dx) == dx * dx && (-dy) * (-dy) == dy * dy) by (nonlinear_arith);
    assert(pb.minus(pa).x == -dx && pb.minus(pa).y == -dy);
    assert(pa.minus(pb).norm_squared() == pb.minus(pa).norm_squared());
    assert(ra + rb == rb + ra);
}

/// Circles that collide are less than the sum of their radii apart on each
/// axis.
pub proof fn lemma_collision_is_near(pa: Vector, ra: int, pb: Vector, rb: int)
    requires
        overlap(pa, ra, pb, rb),
    ensures
        -(ra + rb) < pa.x - pb.x < ra + rb,
        -(ra + rb) < pa.y - pb.y < ra + rb,
{
    let dx = pa.x - pb.x;
    let dy = pa.y - pb.y;
    let s = ra + rb;
    assert(-s < dx < s && -s < dy < s) by (nonlinear_arith)
        requires
            s > 0,
            dx * dx + dy * dy < s * s,
    ;
}

/// Whether the circle of radius `ra` around `pa` and the circle of radius
/// `rb` around `pb` collide. Every value of the arguments is handled.
pub fn circles_overlap(pa: Vec2, ra: i64, pb: Vec2, rb: i64) -> (hit: bool)
    ensures
        hit == overlap(pa@, ra as int, pb@, rb as int),
{
    let sum: i128 = ra as i128 + rb as i128;
    if sum <= 0 {
        return false;
    }
    let dx: i128 = pa.x as i128 - pb.x as i128;
    let dy: i128 = pa.y as i128 - pb.y as i128;
    let adx: i128 = if dx < 0 { -dx } else { dx };
    let ady: i128 = if dy < 0 { -dy } else { dy };
    if adx >= sum || ady >= sum {
        proof {
            if overlap(pa@, ra as int, pb@, rb as int) {
                lemma_collision_is_near(pa@, ra as int, pb@, rb as int);
            }
        }
        return false;
    }
    let s: u128 = sum as u128;
    let a: u128 = adx as u128;
    let b: u128 = ady as u128;
    assert(a * a == dx * dx && b * b == dy * dy) by (nonlinear_arith)
        requires
            a == dx || a == -dx,
            b == dy || b == -dy,
    ;
    assert(a * a < s * s && b * b < s * s && s * s <= 0xffff_ffff_ffff_ffff_ffff_ffff_ffff_ffff)
        by (nonlinear_arith)
        requires
            0 <= a < s,
            0 <= b < s,
            s <= 0xffff_ffff_ffff_ffff,
    ;
    a * a < s * s - b * b
}

/// `position` and `radius` are values that the object's own accessors may
/// report.
pub open spec fn may_report<A: StellarObject>(object: &A, position: Vec2, radius: i64) -> bool {
    call_ensures(A::position, (object,), position) && call_ensures(A::radius, (object,), radius)
}

/// The collision test that every [`StellarObject`] has. It is the same for
/// all of them, and goes by their positions and radii alone.
pub trait Collide: StellarObject + Sized {
    /// Whether this object collides with the other, by what their accessors
    /// report: see [`overlap`].
    fn check_collision<O: StellarObject>(&self, other: &O) -> (hit: bool)
        ensures
            exists|pa: Vec2, ra: i64, pb: Vec2, rb: i64|
                #![trigger may_report(self, pa, ra), may_report(other, pb, rb)]
                may_report(self, pa, ra) && may_report(other, pb, rb) && hit == overlap(
                    pa@,
                    ra as int,
                    pb@,
                    rb as int,
                ),
    ;
}

impl<T: StellarObject> Collide for T {
    fn check_collision<O: StellarObject>(&self, other: &O) -> (hit: bool) {
        let pa: Vec2 = self.position();
        let pb: Vec2 = other.position();
        let ra: i64 = self.radius();
        let rb: i64 = other.radius();
        let hit: bool = circles_overlap(pa, ra, pb, rb);
        assert(may_report(self, pa, ra) && may_report(other, pb, rb));
        hit
    }
}

} // verus!
