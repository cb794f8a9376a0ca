//! The ship: it turns, thrusts, coasts and fires, and it has a shield.

use crate::fixed::{
    floor_sqrt, is_floor_sqrt, isqrt, lemma_floor_sqrt_exists, lemma_quotient_bounds, mul_div,
    quotient, UNIT,
};
use crate::missile::{Missile, MissileView, MISSILE_RADIUS, MISSILE_SPEED};
use crate::stellarobject::StellarObject;
use crate::vector::{
    bound_pos, inside, lemma_unit_components, wrapped_position, Direction, Extent, Vec2, Vector,
    Viewport, POSITION_LIMIT,
};
use vstd::prelude::*;

verus! {

/// The radius of the ship.
pub const SHIP_RADIUS: i64 = 30_000_000;

/// By how much one frame of turning changes the ship's angle, in
/// microradians.
pub const TURN_STEP: i64 = 15_000;

/// The thrust of the engine running forward, in millionths of a unit per
/// frame and frame.
pub const THRUST_FORWARD: i64 = 5_000;

/// The thrust of the engine running backward.
pub const THRUST_REVERSE: i64 = -2_500;

/// The angle of a new ship, in microradians: a quarter turn back from the
/// x-axis, which on the screen is straight up.
pub const START_ANGLE: i64 = -1_570_796;

/// What is left of the ship's speed after a frame, in thousandths.
pub const FRICTION: i64 = 999;

/// How many hits the shield of a new ship takes.
pub const START_SHIELD: u32 = 2;

/// For how many milliseconds after a hit nothing can harm the ship.
pub const INVINCIBILITY: u64 = 1_000;

/// The speed `v`, cut down to one unit per frame if it is greater: the
/// vector keeps its direction and gets the length of a unit.
pub open spec fn capped(v: Vector) -> Vector {
    if v.norm_squared() > UNIT * UNIT {
        v.scaled(UNIT as int, floor_sqrt(v.norm_squared()))
    } else {
        v
    }
}

/// The speed `v` after a frame's friction.
pub open spec fn damped(v: Vector) -> Vector {
    v.scaled(FRICTION as int, 1000)
}

/// The model of a ship.
pub struct SpaceshipView {
    pub position: Vector,
    pub speed: Vector,
    /// Where the ship points, in microradians.
    pub angle: int,
    pub thrust: int,
    pub radius: int,
    /// How many more hits the shield takes.
    pub shield: int,
    pub invincible: bool,
    /// When the ship last became invincible, in milliseconds.
    pub invincible_since: int,
}

impl SpaceshipView {
    /// What holds of every ship: it has the radius of a ship, its thrust is
    /// one that the engine can give, it is no faster than one unit per
    /// frame, and it is in or just beyond the largest viewport.
    pub open spec fn wf(self) -> bool {
        &&& self.radius == SHIP_RADIUS
        &&& THRUST_REVERSE <= self.thrust <= THRUST_FORWARD
        &&& self.speed.norm_squared() <= UNIT * UNIT
        &&& 0 <= self.position.x <= POSITION_LIMIT
        &&& 0 <= self.position.y <= POSITION_LIMIT
        &&& i64::MIN <= self.angle <= i64::MAX
        &&& 0 <= self.shield <= u32::MAX
        &&& 0 <= self.invincible_since <= u64::MAX
    }

    /// The speed of the ship after one frame, when it points along
    /// `heading`: the thrust along the heading is added, the sum is cut down
    /// to one unit per frame, and friction takes its part.
    pub open spec fn next_speed(self, heading: Vector) -> Vector {
        damped(capped(self.speed.plus(heading.scaled(self.thrust, UNIT as int))))
    }

    /// The ship one frame later, when it points along `heading`: it has its
    /// new speed, has moved by it, and has come back into the viewport where
    /// it had left it.
    pub open spec fn moved(self, viewport: Extent, heading: Vector) -> SpaceshipView {
        let speed = self.next_speed(heading);
        SpaceshipView {
            speed,
            position: wrapped_position(self.position.plus(speed), viewport),
            ..self
        }
    }

    /// Where a missile leaves the ship that points along `heading`: at the
    /// tip of its nose, one radius from its centre.
    pub open spec fn muzzle(self, heading: Vector) -> Vector {
        self.position.plus(heading.scaled(self.radius, UNIT as int))
    }

    /// The missile that the ship fires when it points along `heading`: it
    /// leaves at the muzzle and flies along the heading.
    pub open spec fn missile(self, heading: Vector) -> MissileView {
        MissileView {
            position: self.muzzle(heading),
            velocity: heading.times(MISSILE_SPEED as int),
            radius: MISSILE_RADIUS as int,
        }
    }

    /// Whether the time in which nothing can harm the ship is over at `now`.
    pub open spec fn invincibility_over(self, now: int) -> bool {
        self.invincible && now - self.invincible_since >= INVINCIBILITY
    }

    /// The ship at the time `now`: its invincibility has ended if its time
    /// is over.
    pub open spec fn at(self, now: int) -> SpaceshipView {
        SpaceshipView { invincible: self.invincible && !self.invincibility_over(now), ..self }
    }

    /// The ship after an asteroid has hit it at `now`: if the shield still
    /// takes a hit, it takes this one, and nothing can harm the ship for a
    /// while; else the ship is as it was, and lost.
    pub open spec fn hit(self, now: int) -> SpaceshipView {
        if self.shield > 0 {
            SpaceshipView {
                shield: self.shield - 1,
                invincible: true,
                invincible_since: now,
                ..self
            }
        } else {
            self
        }
    }
}

/// What the ship has to be told of the current frame to move: the viewport,
/// and the unit vector of its own angle.
#[derive(Clone, Copy, Debug)]
pub struct Helm {
    pub viewport: Viewport,
    pub heading: Direction,
}

/// The ship.
#[derive(Clone, Copy, Debug)]
pub struct Spaceship {
    position: Vec2,
    speed: Vec2,
    angle: i64,
    thrust: i64,
    radius: i64,
    shield: u32,
    invincible: bool,
    invincible_since: u64,
}

impl View for Spaceship {
    type V = SpaceshipView;

    closed spec fn view(&self) -> SpaceshipView {
        SpaceshipView {
            position: self.position@,
            speed: self.speed@,
            angle: self.angle as int,
            thrust: self.thrust as int,
            radius: self.radius as int,
            shield: self.shield as int,
            invincible: self.invincible,
            invincible_since: self.invincible_since as int,
        }
    }
}

impl Spaceship {
    #[verifier::type_invariant]
    pub open spec fn wf(self) -> bool {
        self@.wf()
    }

    /// The model of a new ship: at rest in the middle of the viewport and
    /// pointing up, with a full shield.
    pub open spec fn new_view(viewport: Extent) -> SpaceshipView {
        SpaceshipView {
            position: Vector { x: viewport.width / 2, y: viewport.height / 2 },
            speed: Vector { x: 0, y: 0 },
            angle: START_ANGLE as int,
            thrust: 0,
            radius: SHIP_RADIUS as int,
            shield: START_SHIELD as int,
            invincible: false,
            invincible_since: 0,
        }
    }

    /// A new ship: see [`Spaceship::new_view`].
    pub fn new(viewport: &Viewport) -> (ship: Spaceship)
        ensures
            ship@ == Self::new_view(viewport@),
            ship.wf(),
    {
        Spaceship {
            position: Vec2 { x: viewport.width() / 2, y: viewport.height() / 2 },
            speed: Vec2 { x: 0, y: 0 },
            angle: START_ANGLE,
            thrust: 0,
            radius: SHIP_RADIUS,
            shield: START_SHIELD,
            invincible: false,
            invincible_since: 0,
        }
    }

    /// Where the ship points, in microradians.
    pub fn angle(&self) -> (angle: i64)
        ensures
            angle == self@.angle,
    {
        self.angle
    }

    /// How fast the ship flies, per frame.
    pub fn speed(&self) -> (speed: Vec2)
        ensures
            speed@ == self@.speed,
    {
        self.speed
    }

    /// The thrust that the engine gives.
    pub fn thrust(&self) -> (thrust: i64)
        ensures
            thrust == self@.thrust,
    {
        self.thrust
    }

    /// How many more hits the shield takes.
    pub fn shield(&self) -> (shield: u32)
        ensures
            shield == self@.shield,
    {
        self.shield
    }

    /// Whether nothing can harm the ship at present.
    pub fn invincible(&self) -> (invincible: bool)
        ensures
            invincible == self@.invincible,
    {
        self.invincible
    }

    /// Sets the thrust of the engine. It is not added to the thrust that the
    /// engine gave before.
    pub fn apply_thrust(&mut self, amount: i64)
        requires
            THRUST_REVERSE <= amount <= THRUST_FORWARD,
        ensures
            final(self)@ == (SpaceshipView { thrust: amount as int, ..old(self)@ }),
    {
        proof {
            use_type_invariant(&*self);
        }
        self.thrust = amount;
    }

    /// Turns the ship by one step to the right.
    pub fn turn_right(&mut self)
        requires
            old(self)@.angle + TURN_STEP <= i64::MAX,
        ensures
            final(self)@ == (SpaceshipView { angle: old(self)@.angle + TURN_STEP, ..old(self)@ }),
    {
        proof {
            use_type_invariant(&*self);
        }
        self.angle = self.angle + TURN_STEP;
    }

    /// Turns the ship by one step to the left.
    pub fn turn_left(&mut self)
        requires
            old(self)@.angle - TURN_STEP >= i64::MIN,
        ensures
            final(self)@ == (SpaceshipView { angle: old(self)@.angle - TURN_STEP, ..old(self)@ }),
    {
        proof {
            use_type_invariant(&*self);
        }
        self.angle = self.angle - TURN_STEP;
    }

    /// The missile that the ship fires when it points along `heading`: see
    /// [`SpaceshipView::missile`].
    pub fn fire(&self, heading: Direction) -> (missile: Missile)
        ensures
            missile@ == self@.missile(heading@),
    {
        proof {
            use_type_invariant(self);
        }
        let hx: i64 = heading.x();
        let hy: i64 = heading.y();
        let radius: i64 = self.radius;
        assert(-30_000_000_000_000 <= hx * radius <= 30_000_000_000_000 && -30_000_000_000_000
            <= hy * radius <= 30_000_000_000_000) by (nonlinear_arith)
            requires
                -1_000_000 <= hx <= 1_000_000,
                -1_000_000 <= hy <= 1_000_000,
                radius == 30_000_000,
        ;
        proof {
            lemma_quotient_bounds(hx * self.radius, UNIT as int);
            lemma_quotient_bounds(hy * self.radius, UNIT as int);
        }
        let nose = Vec2 {
            x: self.position.x + mul_div(hx, radius, UNIT),
            y: self.position.y + mul_div(hy, radius, UNIT),
        };
        Missile::new(nose, heading)
    }

    /// Ends the time in which nothing can harm the ship, if it is over at
    /// `now`, a time in milliseconds: it lasts one second from the hit.
    pub fn expire_invincibility(&mut self, now: u64)
        ensures
            final(self)@ == old(self)@.at(now as int),
    {
        proof {
            use_type_invariant(&*self);
        }
        if self.invincible && now >= self.invincible_since && now - self.invincible_since
            >= INVINCIBILITY {
            self.invincible = false;
        }
    }

    /// Takes the hit of an asteroid at `now`, a time in milliseconds: see
    /// [`SpaceshipView::hit`]. Tells whether the shield took it.
    pub fn hit(&mut self, now: u64) -> (shielded: bool)
        ensures
            shielded == (old(self)@.shield > 0),
            final(self)@ == old(self)@.hit(now as int),
    {
        proof {
            use_type_invariant(&*self);
        }
        if self.shield > 0 {
            *self = Spaceship {
                shield: self.shield - 1,
                invincible: true,
                invincible_since: now,
                ..*self
            };
            true
        } else {
            false
        }
    }
}

impl StellarObject for Spaceship {
    type Frame = Helm;

    fn position(&self) -> (position: Vec2)
        ensures
            position@ == self@.position,
    {
        self.position
    }

    /// Moves the ship by one frame: see [`SpaceshipView::moved`].
    fn update_position(&mut self, frame: &Helm)
        ensures
            final(self)@ == old(self)@.moved(frame.viewport@, frame.heading@),
    {
        proof {
            use_type_invariant(&*self);
            lemma_unit_components(self@.speed);
        }
        let hx: i64 = frame.heading.x();
        let hy: i64 = frame.heading.y();
        let thrust: i64 = self.thrust;
        assert(-5_000_000_000 <= hx * thrust <= 5_000_000_000 && -5_000_000_000 <= hy * thrust
            <= 5_000_000_000) by (nonlinear_arith)
            requires
                -1_000_000 <= hx <= 1_000_000,
                -1_000_000 <= hy <= 1_000_000,
                -2_500 <= thrust <= 5_000,
        ;
        proof {
            lemma_quotient_bounds(hx * thrust, UNIT as int);
            lemma_quotient_bounds(hy * thrust, UNIT as int);
        }
        let vx: i64 = self.speed.x + mul_div(hx, thrust, UNIT);
        let vy: i64 = self.speed.y + mul_div(hy, thrust, UNIT);
        assert(0 <= vx * vx <= 1_005_000 * 1_005_000 && 0 <= vy * vy <= 1_005_000 * 1_005_000)
            by (nonlinear_arith)
            requires
                -1_005_000 <= vx <= 1_005_000,
                -1_005_000 <= vy <= 1_005_000,
        ;
        let square: i64 = vx * vx + vy * vy;
        let mut cx: i64 = vx;
        let mut cy: i64 = vy;
        if square > UNIT * UNIT {
            let root: u64 = isqrt(square as u64);
            assert(1_000_000 <= root <= 2_000_000) by (nonlinear_arith)
                requires
                    root * root <= square,
                    square < (root + 1) * (root + 1),
                    1_000_000 * 1_000_000 < square <= 2 * 1_005_000 * 1_005_000,
            ;
            let length: i64 = root as i64;
            assert(-1_005_000 * 1_000_000 <= vx * 1_000_000 <= 1_005_000 * 1_000_000);
            cx = mul_div(vx, UNIT, length);
            cy = mul_div(vy, UNIT, length);
            proof {
                lemma_quotient_bounds(vx * UNIT, length as int);
                lemma_quotient_bounds(vy * UNIT, length as int);
                lemma_stretch_to_unit(vx as int, cx as int, length as int);
                lemma_stretch_to_unit(vy as int, cy as int, length as int);
            }
        }
        proof {
            let sum = self@.speed.plus(frame.heading@.scaled(self@.thrust, UNIT as int));
            assert(sum == (Vector { x: vx as int, y: vy as int }));
            assert(capped(sum) == (Vector { x: cx as int, y: cy as int }));
            lemma_next_speed_is_capped(sum);
            assert(-1_005_000 <= cx <= 1_005_000 && -1_005_000 <= cy <= 1_005_000);
            lemma_quotient_bounds(cx * FRICTION, 1000);
            lemma_quotient_bounds(cy * FRICTION, 1000);
        }
        let speed = Vec2 { x: mul_div(cx, FRICTION, 1000), y: mul_div(cy, FRICTION, 1000) };
        proof {
            lemma_unit_components(speed@);
            use_type_invariant(&frame.viewport);
        }
        let moved = Vec2 { x: self.position.x + speed.x, y: self.position.y + speed.y };
        let position = bound_pos(moved, &frame.viewport);
        *self = Spaceship { position, speed, ..*self };
    }

    fn radius(&self) -> (radius: i64)
        ensures
            radius == self@.radius,
    {
        self.radius
    }
}

/// A component `x` cut down to `q`, by `UNIT / length` with `length` a unit
/// or more, has kept its sign and is no greater than it was.
proof fn lemma_stretch_to_unit(x: int, q: int, length: int)
    requires
        length >= UNIT,
        x >= 0 ==> 0 <= q && length * q <= x * UNIT,
        x <= 0 ==> q <= 0 && x * UNIT <= length * q,
    ensures
        x >= 0 ==> 0 <= q <= x,
        x <= 0 ==> x <= q <= 0,
{
    assert(x >= 0 ==> q <= x) by (nonlinear_arith)
        requires
            length >= 1_000_000,
            x >= 0 ==> 0 <= q && length * q <= x * 1_000_000,
    ;
    assert(x <= 0 ==> x <= q) by (nonlinear_arith)
        requires
            length >= 1_000_000,
            x <= 0 ==> q <= 0 && x * 1_000_000 <= length * q,
    ;
}

/// Squaring keeps the order of two products of numbers from zero on.
proof fn lemma_component_product(k: int, p: int, c: int, u: int)
    requires
        0 <= k * p <= c * u,
        0 <= k,
        0 <= p,
        0 <= c,
        0 <= u,
    ensures
        (k * k) * (p * p) <= (c * c) * (u * u),
{
    let a = k * p;
    let b = c * u;
    assert(a * a <= b * b) by (nonlinear_arith)
        requires
            0 <= a <= b,
    ;
    assert(a * a == (k * k) * (p * p)) by (nonlinear_arith)
        requires
            a == k * p,
    ;
    assert(b * b == (c * c) * (u * u)) by (nonlinear_arith)
        requires
            b == c * u,
    ;
}

/// What capping and friction leave of one component of a speed of the
/// given length: at most `999 * UNIT` parts in `1000 * length` of it.
proof fn lemma_component_shrinks(x: int, length: int)
    requires
        length >= UNIT,
    ensures
        ({
            let after = quotient(quotient(x * UNIT, length) * FRICTION, 1000);
            &&& (1000 * length) * (1000 * length) * (after * after) <= (999 * UNIT) * (999 * UNIT)
                * (x * x)
        }),
{
    let mid = quotient(x * UNIT, length);
    let after = quotient(mid * FRICTION, 1000);
    lemma_quotient_bounds(x * UNIT, length);
    lemma_quotient_bounds(mid * FRICTION, 1000);
    let ax = if x >= 0 { x } else { -x };
    let amid = if mid >= 0 { mid } else { -mid };
    let aafter = if after >= 0 { after } else { -after };
    assert(x >= 0 ==> x * UNIT >= 0) by (nonlinear_arith);
    assert(x <= 0 ==> x * UNIT <= 0) by (nonlinear_arith);
    assert(length * amid <= ax * UNIT) by (nonlinear_arith)
        requires
            length > 0,
            x >= 0 ==> (0 <= mid && length * mid <= x * UNIT && amid == mid && ax == x),
            x < 0 ==> (mid <= 0 && x * UNIT <= length * mid && amid == -mid && ax == -x),
    ;
    assert(1000 * aafter <= 999 * amid);
    assert((1000 * length) * aafter <= (999 * UNIT) * ax) by (nonlinear_arith)
        requires
            length > 0,
            0 <= aafter,
            0 <= amid,
            1000 * aafter <= 999 * amid,
            length * amid <= ax * UNIT,
    ;
    assert(0 <= (1000 * length) * aafter) by (nonlinear_arith)
        requires
            length > 0,
            0 <= aafter,
    ;
    lemma_component_product(1000 * length, aafter, 999 * UNIT, ax);
    assert(aafter * aafter == after * after) by (nonlinear_arith)
        requires
            aafter == after || aafter == -after,
    ;
    assert(ax * ax == x * x) by (nonlinear_arith)
        requires
            ax == x || ax == -x,
    ;
}

/// After a frame the ship is no faster than one unit per frame, whatever
/// speed the thrust had brought it to.
pub proof fn lemma_next_speed_is_capped(v: Vector)
    ensures
        damped(capped(v)).norm_squared() <= UNIT * UNIT,
{
    let square = v.norm_squared();
    if square > UNIT * UNIT {
        assert(square >= 0) by (nonlinear_arith)
            requires
                square == v.x * v.x + v.y * v.y,
        ;
        lemma_floor_sqrt_exists(square);
        let length = floor_sqrt(square);
        assert(is_floor_sqrt(square, length));
        assert(length >= UNIT) by (nonlinear_arith)
            requires
                0 <= length,
                square < (length + 1) * (length + 1),
                square > 1_000_000 * 1_000_000,
        ;
        lemma_component_shrinks(v.x, length);
        lemma_component_shrinks(v.y, length);
        let after = damped(capped(v));
        let k = 1000 * length;
        let c = 999 * UNIT;
        let total = after.norm_squared();
        assert((k * k) * total <= (c * c) * square) by (nonlinear_arith)
            requires
                (k * k) * (after.x * after.x) <= (c * c) * (v.x * v.x),
                (k * k) * (after.y * after.y) <= (c * c) * (v.y * v.y),
                total == after.x * after.x + after.y * after.y,
                square == v.x * v.x + v.y * v.y,
        ;
        assert((c * c) * square < (k * k) * (1_000_000 * 1_000_000)) by (nonlinear_arith)
            requires
                square < (length + 1) * (length + 1),
                length >= 1_000_000,
                k == 1000 * length,
                c == 999 * 1_000_000,
        ;
        assert(total <= 1_000_000 * 1_000_000) by (nonlinear_arith)
            requires
                (k * k) * total < (k * k) * (1_000_000 * 1_000_000),
                k > 0,
        ;
    } else {
        lemma_damped_stays_short(v);
    }
}

/// Friction makes no vector longer.
proof fn lemma_damped_stays_short(v: Vector)
    ensures
        damped(v).norm_squared() <= v.norm_squared(),
{
    lemma_damped_component(v.x);
    lemma_damped_component(v.y);
}

proof fn lemma_damped_component(a: int)
    ensures
        quotient(a * FRICTION, 1000) * quotient(a * FRICTION, 1000) <= a * a,
{
    let q = quotient(a * FRICTION, 1000);
    lemma_quotient_bounds(a * FRICTION, 1000);
    if a >= 0 {
        assert(0 <= q <= a);
        assert(q * q <= a * a) by (nonlinear_arith)
            requires
                0 <= q <= a,
        ;
    } else {
        assert(a <= q <= 0);
        assert(q * q <= a * a) by (nonlinear_arith)
            requires
                a <= q <= 0,
        ;
    }
}

/// A frame's move keeps a ship a ship, wherever it points; and a ship that
/// is in the viewport is afterwards in the viewport still, or less than a
/// unit beyond its right or its lower side.
pub proof fn lemma_moved_stays(ship: SpaceshipView, viewport: Extent, heading: Vector)
    requires
        ship.wf(),
        viewport.wf(),
    ensures
        ship.moved(viewport, heading).wf(),
        inside(ship.position, viewport) ==> inside(
            ship.moved(viewport, heading).position,
            Extent { width: viewport.width + UNIT, height: viewport.height + UNIT },
        ),
{
    lemma_next_speed_is_capped(ship.speed.plus(heading.scaled(ship.thrust, UNIT as int)));
    lemma_unit_components(ship.next_speed(heading));
}

} // verus!
