//! Missiles: fired along the ship's heading, they fly straight on and are
//! lost once they have left the viewport.

use crate::stellarobject::StellarObject;
use crate::vector::{
    is_unit, lemma_unit_components, Direction, Extent, Vec2, Vector, Viewport, MAX_SIDE,
};
use vstd::prelude::*;

verus! {

/// The radius of a missile.
pub const MISSILE_RADIUS: i64 = 3_000_000;

/// How many units a missile flies per frame.
pub const MISSILE_SPEED: i64 = 5;

/// `c`, or the end of the range of coordinates that `c` lies beyond.
pub open spec fn saturated(c: int) -> int {
    if c < i64::MIN {
        i64::MIN as int
    } else if c > i64::MAX {
        i64::MAX as int
    } else {
        c
    }
}

/// The model of a missile.
pub struct MissileView {
    pub position: Vector,
    pub velocity: Vector,
    pub radius: int,
}

impl MissileView {
    /// The direction in which the missile flies: a fifth of its velocity.
    pub open spec fn heading(self) -> Vector {
        Vector {
            x: self.velocity.x / (MISSILE_SPEED as int),
            y: self.velocity.y / (MISSILE_SPEED as int),
        }
    }

    /// What holds of every missile: it has the radius of a missile, and its
    /// velocity is five times a unit vector.
    pub open spec fn wf(self) -> bool {
        &&& self.radius == MISSILE_RADIUS
        &&& is_unit(self.heading())
        &&& self.velocity == self.heading().times(MISSILE_SPEED as int)
        &&& i64::MIN <= self.position.x <= i64::MAX
        &&& i64::MIN <= self.position.y <= i64::MAX
    }

    /// The missile one frame later: it has moved by its velocity. A missile
    /// never comes back into the viewport; one that reaches the end of the
    /// range of coordinates stays there.
    pub open spec fn moved(self) -> MissileView {
        MissileView {
            position: Vector {
                x: saturated(self.position.x + self.velocity.x),
                y: saturated(self.position.y + self.velocity.y),
            },
            ..self
        }
    }

    /// Whether the missile has left the viewport.
    pub open spec fn is_out_of_bounds(self, viewport: Extent) -> bool {
        self.position.x < 0 || self.position.x > viewport.width || self.position.y < 0
            || self.position.y > viewport.height
    }
}

/// A missile.
#[derive(Clone, Copy, Debug)]
pub struct Missile {
    position: Vec2,
    velocity: Vec2,
    radius: i64,
}

impl View for Missile {
    type V = MissileView;

    closed spec fn view(&self) -> MissileView {
        MissileView {
            position: self.position@,
            velocity: self.velocity@,
            radius: self.radius as int,
        }
    }
}

/// The models of the missiles in `missiles`.
pub open spec fn missile_views(missiles: Seq<Missile>) -> Seq<MissileView> {
    missiles.map_values(|m: Missile| m@)
}

/// The sum of a coordinate and a step, kept within the range of
/// coordinates.
fn saturating_step(coord: i64, step: i64) -> (r: i64)
    ensures
        r == saturated(coord + step),
{
    match coord.checked_add(step) {
        Some(sum) => sum,
        None => if step > 0 {
            i64::MAX
        } else {
            i64::MIN
        },
    }
}

impl Missile {
    #[verifier::type_invariant]
    pub open spec fn wf(self) -> bool {
        self@.wf()
    }

    /// The missile fired at `position` along `heading`: it flies five units
    /// per frame.
    pub fn new(position: Vec2, heading: Direction) -> (missile: Missile)
        ensures
            missile@ == (MissileView {
                position: position@,
                velocity: heading@.times(MISSILE_SPEED as int),
                radius: MISSILE_RADIUS as int,
            }),
            missile.wf(),
    {
        let hx: i64 = heading.x();
        let hy: i64 = heading.y();
        assert(-5_000_000 <= hx * MISSILE_SPEED <= 5_000_000 && -5_000_000 <= hy * MISSILE_SPEED
            <= 5_000_000) by (nonlinear_arith)
            requires
                -1_000_000 <= hx <= 1_000_000,
                -1_000_000 <= hy <= 1_000_000,
                MISSILE_SPEED == 5,
        ;
        let velocity = Vec2 { x: hx * MISSILE_SPEED, y: hy * MISSILE_SPEED };
        proof {
            use_type_invariant(heading);
            assert(velocity@ == heading@.times(MISSILE_SPEED as int));
            assert((hx * 5) / 5 == hx && (hy * 5) / 5 == hy);
        }
        Missile { position, velocity, radius: MISSILE_RADIUS }
    }

    /// Whether the missile has left the viewport.
    pub fn is_out_of_bounds(&self, viewport: &Viewport) -> (out: bool)
        ensures
            out == self@.is_out_of_bounds(viewport@),
    {
        self.position.x < 0 || self.position.x > viewport.width() || self.position.y < 0
            || self.position.y > viewport.height()
    }

    /// How far the missile flies per frame.
    pub fn velocity(&self) -> (velocity: Vec2)
        ensures
            velocity@ == self@.velocity,
    {
        self.velocity
    }
}

impl StellarObject for Missile {
    type Frame = ();

    fn position(&self) -> (position: Vec2)
        ensures
            position@ == self@.position,
    {
        self.position
    }

    /// Moves the missile by its velocity: see [`MissileView::moved`].
    fn update_position(&mut self, frame: &())
        ensures
            final(self)@ == old(self)@.moved(),
    {
        proof {
            use_type_invariant(&*self);
        }
        self.position = Vec2 {
            x: saturating_step(self.position.x, self.velocity.x),
            y: saturating_step(self.position.y, self.velocity.y),
        };
    }

    fn radius(&self) -> (radius: i64)
        ensures
            radius == self@.radius,
    {
        self.radius
    }
}

/// A missile that is in a viewport moves by exactly its velocity.
pub proof fn lemma_missile_in_view_moves_freely(missile: MissileView, viewport: Extent)
    requires
        missile.wf(),
        0 <= viewport.width <= MAX_SIDE,
        0 <= viewport.height <= MAX_SIDE,
        !missile.is_out_of_bounds(viewport),
    ensures
        missile.moved().position == missile.position.plus(missile.velocity),
{
    lemma_unit_components(missile.heading());
}

} // verus!
