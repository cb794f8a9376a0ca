//! Asteroids: how they are made, how they drift and how they break in two.

use crate::fixed::{
    floor_sqrt, is_floor_sqrt, isqrt, lemma_floor_sqrt_exists, lemma_quotient_bounds, mul_div,
    quotient, UNIT,
};
use crate::random::gen_range;
use crate::stellarobject::StellarObject;
use crate::vector::{
    bound_pos, inside, is_unit, lemma_unit_components, wrapped_position, Direction, Extent, Vec2,
    Vector, Viewport, POSITION_LIMIT,
};
use vstd::prelude::*;

verus! {

/// The radius of the largest asteroid. The others have half and a quarter of
/// it.
pub const ASTEROID_TAILLE: i64 = 60_000_000;

/// A full turn, in microradians.
pub const FULL_TURN: i64 = 6_283_185;

/// By how much the square of a piece's speed may fall short of the square of
/// the speed of the asteroid it comes from, for rounding.
pub const SPLIT_LOSS: i64 = 8_000_000;

/// `radius` is one of the three sizes an asteroid can have.
pub open spec fn is_tier(radius: int) -> bool {
    radius == ASTEROID_TAILLE || radius == ASTEROID_TAILLE / 2 || radius == ASTEROID_TAILLE / 4
}

/// The radius that the draw `pick` stands for: 1 a quarter, 2 a half,
/// anything else the full size.
pub open spec fn tier(pick: int) -> int {
    if pick == 1 {
        ASTEROID_TAILLE / 4
    } else if pick == 2 {
        ASTEROID_TAILLE / 2
    } else {
        ASTEROID_TAILLE as int
    }
}

/// Where an asteroid is put that is to start near the side `nearside` of the
/// viewport, `nearpos` away from it: 1 is the top, 2 the right, 3 the bottom
/// and 4 the left side. Along the side it starts at `free.x` or `free.y`.
pub open spec fn edge_position(viewport: Extent, nearside: int, nearpos: int, free: Vector)
    -> Vector {
    Vector {
        x: if nearside == 2 {
            viewport.width - nearpos
        } else if nearside == 4 {
            nearpos
        } else {
            free.x
        },
        y: if nearside == 1 {
            nearpos
        } else if nearside == 3 {
            viewport.height - nearpos
        } else {
            free.y
        },
    }
}

/// `pos` is a place where a new asteroid may start: between half the largest
/// radius and the whole of it from one of the four sides of the viewport,
/// and anywhere along that side.
pub open spec fn is_edge_position(pos: Vector, viewport: Extent) -> bool {
    exists|nearside: int, nearpos: int, free: Vector|
        #![trigger edge_position(viewport, nearside, nearpos, free)]
        1 <= nearside <= 4 && ASTEROID_TAILLE / 2 <= nearpos <= ASTEROID_TAILLE && inside(
            free,
            viewport,
        ) && pos == edge_position(viewport, nearside, nearpos, free)
}

/// The model of an asteroid.
pub struct AsteroidView {
    pub radius: int,
    pub position: Vector,
    pub speed: Vector,
}

impl AsteroidView {
    /// How far outside `[0, POSITION_LIMIT]` a coordinate of this asteroid
    /// may lie: pieces are set off from the centre of the rock they come
    /// from.
    pub open spec fn slack(self) -> int {
        ASTEROID_TAILLE - self.radius
    }

    /// How many times over an asteroid of this size may be a piece of
    /// another: not at all if it is of the largest size, twice if it is of
    /// the smallest.
    pub open spec fn generations(self) -> int {
        if self.radius == ASTEROID_TAILLE {
            0
        } else if self.radius == ASTEROID_TAILLE / 2 {
            1
        } else {
            2
        }
    }

    /// What holds of every asteroid: its radius is one of the three sizes;
    /// it flies at one unit per frame, as far as rounding lets it, where
    /// each split that it may have come out of has rounded once more; and it
    /// is in or near the largest viewport.
    pub open spec fn wf(self) -> bool {
        &&& is_tier(self.radius)
        &&& UNIT * UNIT - 2 * UNIT - SPLIT_LOSS * self.generations() <= self.speed.norm_squared()
            <= UNIT * UNIT + 2 * UNIT
        &&& -self.slack() <= self.position.x <= POSITION_LIMIT + self.slack()
        &&& -self.slack() <= self.position.y <= POSITION_LIMIT + self.slack()
    }

    /// Whether the asteroid breaks in two when it is destroyed: all but the
    /// smallest do.
    pub open spec fn splits(self) -> bool {
        self.radius > ASTEROID_TAILLE / 4
    }

    /// The pieces the asteroid breaks into: none if it is of the smallest
    /// size, else two of half the radius, set off from its centre by half
    /// their radius to the right and to the left. The first flies along
    /// `heading`, the second a quarter turn from it, both as fast as the
    /// asteroid did.
    pub open spec fn split(self, heading: Vector) -> Seq<AsteroidView> {
        if self.splits() {
            let radius = self.radius / 2;
            let pace = floor_sqrt(self.speed.norm_squared());
            seq![
                AsteroidView {
                    radius,
                    position: Vector { x: self.position.x + radius / 2, y: self.position.y },
                    speed: heading.scaled(pace, UNIT as int),
                },
                AsteroidView {
                    radius,
                    position: Vector { x: self.position.x - radius / 2, y: self.position.y },
                    speed: heading.perpendicular().scaled(pace, UNIT as int),
                },
            ]
        } else {
            Seq::empty()
        }
    }

    /// The asteroid one frame later: it has moved by its speed and come back
    /// into the viewport where it had left it.
    pub open spec fn moved(self, viewport: Extent) -> AsteroidView {
        AsteroidView {
            position: wrapped_position(self.position.plus(self.speed), viewport),
            ..self
        }
    }
}

/// An asteroid.
#[derive(Clone, Copy, Debug)]
pub struct Asteroid {
    radius: i64,
    position: Vec2,
    speed: Vec2,
}

impl View for Asteroid {
    type V = AsteroidView;

    closed spec fn view(&self) -> AsteroidView {
        AsteroidView {
            radius: self.radius as int,
            position: self.position@,
            speed: self.speed@,
        }
    }
}

/// The models of the asteroids in `asteroids`.
pub open spec fn asteroid_views(asteroids: Seq<Asteroid>) -> Seq<AsteroidView> {
    asteroids.map_values(|a: Asteroid| a@)
}

impl Asteroid {
    #[verifier::type_invariant]
    pub open spec fn wf(self) -> bool {
        self@.wf()
    }

    /// The radius for the draw `pick`: see [`tier`].
    pub fn tier_radius(pick: i64) -> (radius: i64)
        ensures
            radius == tier(pick as int),
            is_tier(radius as int),
    {
        if pick == 1 {
            ASTEROID_TAILLE / 2 / 2
        } else if pick == 2 {
            ASTEROID_TAILLE / 2
        } else {
            ASTEROID_TAILLE
        }
    }

    /// Draws the radius of a new asteroid: each of the three sizes is as
    /// likely as the others.
    pub fn new_alea_radius() -> (radius: i64)
        ensures
            is_tier(radius as int),
    {
        let mut rng = rand::thread_rng();
        let num: i64 = gen_range(&mut rng, 1, 3);
        Self::tier_radius(num)
    }

    /// The starting position for the given draws: see [`edge_position`].
    pub fn edge_pos(viewport: &Viewport, nearside: i64, nearpos: i64, free: Vec2) -> (pos: Vec2)
        requires
            ASTEROID_TAILLE / 2 <= nearpos <= ASTEROID_TAILLE,
        ensures
            pos@ == edge_position(viewport@, nearside as int, nearpos as int, free@),
            inside(free@, viewport@) ==> inside(pos@, viewport@),
    {
        let width: i64 = viewport.width();
        let height: i64 = viewport.height();
        let xpos: i64 = if nearside == 2 {
            width - nearpos
        } else if nearside == 4 {
            nearpos
        } else {
            free.x
        };
        let ypos: i64 = if nearside == 1 {
            nearpos
        } else if nearside == 3 {
            height - nearpos
        } else {
            free.y
        };
        Vec2 { x: xpos, y: ypos }
    }

    /// Draws the starting position of a new asteroid: near one of the four
    /// sides of the viewport, each as likely as the others, between half the
    /// largest radius and the whole of it away from that side, and anywhere
    /// along it.
    pub fn new_alea_pos(viewport: &Viewport) -> (pos: Vec2)
        ensures
            inside(pos@, viewport@),
            is_edge_position(pos@, viewport@),
    {
        let mut rng = rand::thread_rng();
        let nearpos: i64 = gen_range(&mut rng, ASTEROID_TAILLE / 2, ASTEROID_TAILLE);
        let nearside: i64 = gen_range(&mut rng, 1, 4);
        let free_x: i64 = gen_range(&mut rng, 0, viewport.width());
        let free_y: i64 = gen_range(&mut rng, 0, viewport.height());
        let free = Vec2 { x: free_x, y: free_y };
        let pos: Vec2 = Self::edge_pos(viewport, nearside, nearpos, free);
        assert(pos@ == edge_position(viewport@, nearside as int, nearpos as int, free@));
        pos
    }

    /// Draws the angle along which a new asteroid is to fly, in
    /// microradians: any angle of the full turn, both ends included.
    pub fn new_alea_angle() -> (angle: i64)
        ensures
            0 <= angle <= FULL_TURN,
    {
        let mut rng = rand::thread_rng();
        gen_range(&mut rng, 0, FULL_TURN)
    }

    /// Draws the angle along which the first piece of a broken asteroid is
    /// to fly, in microradians: any angle short of the full turn.
    pub fn new_alea_split_angle() -> (angle: i64)
        ensures
            0 <= angle < FULL_TURN,
    {
        let mut rng = rand::thread_rng();
        gen_range(&mut rng, 0, FULL_TURN - 1)
    }

    /// The asteroid of the given radius at the given position that flies
    /// along `heading` at one unit per frame, if the radius is one of the
    /// three sizes and the position is in or near the largest viewport.
    pub fn place(radius: i64, position: Vec2, heading: Direction) -> (placed: Option<Asteroid>)
        ensures
            placed is Some <==> (AsteroidView {
                radius: radius as int,
                position: position@,
                speed: heading@,
            }).wf(),
            placed matches Some(asteroid) ==> asteroid@ == (AsteroidView {
                radius: radius as int,
                position: position@,
                speed: heading@,
            }) && asteroid.wf(),
    {
        proof {
            use_type_invariant(heading);
        }
        if radius != ASTEROID_TAILLE && radius != ASTEROID_TAILLE / 2 && radius != ASTEROID_TAILLE
            / 2 / 2 {
            return None;
        }
        let slack: i64 = ASTEROID_TAILLE - radius;
        if position.x < -slack || position.x > POSITION_LIMIT + slack || position.y < -slack
            || position.y > POSITION_LIMIT + slack {
            return None;
        }
        Some(Asteroid { radius, position, speed: Vec2 { x: heading.x(), y: heading.y() } })
    }

    /// A new asteroid of a random size at a random place near the edge of
    /// the viewport, flying along `heading` at one unit per frame.
    pub fn new(viewport: &Viewport, heading: Direction) -> (asteroid: Asteroid)
        ensures
            asteroid.wf(),
            is_tier(asteroid@.radius),
            inside(asteroid@.position, viewport@),
            is_edge_position(asteroid@.position, viewport@),
            asteroid@.speed == heading@,
    {
        proof {
            use_type_invariant(heading);
            use_type_invariant(viewport);
        }
        let radius: i64 = Self::new_alea_radius();
        let position: Vec2 = Self::new_alea_pos(viewport);
        Asteroid { radius, position, speed: Vec2 { x: heading.x(), y: heading.y() } }
    }

    /// As many new asteroids as there are headings, the `i`-th flying along
    /// the `i`-th heading: see [`Asteroid::new`].
    pub fn generate_asteroid(viewport: &Viewport, headings: &Vec<Direction>) -> (asteroids: Vec<
        Asteroid,
    >)
        ensures
            asteroids.len() == headings.len(),
            forall|i: int|
                0 <= i < asteroids.len() ==> {
                    &&& (#[trigger] asteroids[i]).wf()
                    &&& inside(asteroids[i]@.position, viewport@)
                    &&& is_edge_position(asteroids[i]@.position, viewport@)
                    &&& asteroids[i]@.speed == headings[i]@
                },
    {
        let mut asteroids: Vec<Asteroid> = Vec::new();
        let mut i: usize = 0;
        while i < headings.len()
            invariant
                i <= headings.len(),
                asteroids.len() == i,
                forall|k: int|
                    0 <= k < i ==> {
                        &&& (#[trigger] asteroids[k]).wf()
                        &&& inside(asteroids[k]@.position, viewport@)
                        &&& is_edge_position(asteroids[k]@.position, viewport@)
                        &&& asteroids[k]@.speed == headings[k]@
                    },
            decreases headings.len() - i,
        {
            let asteroid = Self::new(viewport, headings[i]);
            asteroids.push(asteroid);
            i = i + 1;
        }
        asteroids
    }

    /// How fast the asteroid flies, per frame.
    pub fn speed(&self) -> (speed: Vec2)
        ensures
            speed@ == self@.speed,
    {
        self.speed
    }

    /// Breaks the asteroid: see [`AsteroidView::split`]. `heading` is the
    /// direction in which the first piece flies.
    pub fn split(&self, heading: Direction) -> (pieces: Vec<Asteroid>)
        ensures
            asteroid_views(pieces@) == self@.split(heading@),
            forall|i: int| 0 <= i < pieces.len() ==> (#[trigger] pieces[i]).wf(),
    {
        proof {
            use_type_invariant(self);
            use_type_invariant(heading);
            lemma_unit_components(self@.speed);
            lemma_unit_components(heading@);
        }
        let mut pieces: Vec<Asteroid> = Vec::new();
        if self.radius > ASTEROID_TAILLE / 2 / 2 {
            let radius: i64 = self.radius / 2;
            let vx: i64 = self.speed.x;
            let vy: i64 = self.speed.y;
            assert(0 <= vx * vx <= 1_000_000 * 1_000_000 && 0 <= vy * vy <= 1_000_000 * 1_000_000)
                by (nonlinear_arith)
                requires
                    -1_000_000 <= vx <= 1_000_000,
                    -1_000_000 <= vy <= 1_000_000,
            ;
            let square: i64 = vx * vx + vy * vy;
            let root: u64 = isqrt(square as u64);
            proof {
                lemma_piece_speeds(heading@, square as int);
            }
            let pace: i64 = root as i64;
            let hx: i64 = heading.x();
            let hy: i64 = heading.y();
            assert(-1_000_000 * 1_000_000 <= hx * pace <= 1_000_000 * 1_000_000 && -1_000_000
                * 1_000_000 <= hy * pace <= 1_000_000 * 1_000_000) by (nonlinear_arith)
                requires
                    -1_000_000 <= hx <= 1_000_000,
                    -1_000_000 <= hy <= 1_000_000,
                    0 <= pace <= 1_000_000,
            ;
            assert((-hy) * pace == -(hy * pace)) by (nonlinear_arith);
            let first = Vec2 { x: mul_div(hx, pace, UNIT), y: mul_div(hy, pace, UNIT) };
            let second = Vec2 { x: mul_div(-hy, pace, UNIT), y: mul_div(hx, pace, UNIT) };
            proof {
                assert(first@ == heading@.scaled(pace as int, UNIT as int));
                assert(second@ == heading@.perpendicular().scaled(pace as int, UNIT as int));
            }
            let right = Asteroid {
                radius,
                position: Vec2 { x: self.position.x + radius / 2, y: self.position.y },
                speed: first,
            };
            let left = Asteroid {
                radius,
                position: Vec2 { x: self.position.x - radius / 2, y: self.position.y },
                speed: second,
            };
            pieces.push(right);
            pieces.push(left);
            assert(asteroid_views(pieces@) =~= self@.split(heading@));
        } else {
            assert(asteroid_views(pieces@) =~= self@.split(heading@));
        }
        pieces
    }
}

impl StellarObject for Asteroid {
    type Frame = Viewport;

    fn position(&self) -> (position: Vec2)
        ensures
            position@ == self@.position,
    {
        self.position
    }

    /// Moves the asteroid by its speed, and back into the viewport where it
    /// has left it.
    fn update_position(&mut self, frame: &Viewport)
        ensures
            final(self)@ == old(self)@.moved(frame@),
    {
        proof {
            use_type_invariant(&*self);
            use_type_invariant(frame);
            lemma_unit_components(self@.speed);
        }
        let moved = Vec2 { x: self.position.x + self.speed.x, y: self.position.y + self.speed.y };
        self.position = bound_pos(moved, frame);
    }

    fn radius(&self) -> (radius: i64)
        ensures
            radius == self@.radius,
    {
        self.radius
    }
}

/// One component of a vector stretched by `pace / UNIT`: it is no greater
/// than it was, and as great as the stretch allows, short of the one
/// millionth that rounding may take.
proof fn lemma_stretched_component(a: int, pace: int)
    requires
        0 <= pace <= UNIT,
        -UNIT <= a <= UNIT,
    ensures
        ({
            let q = quotient(a * pace, UNIT as int);
            &&& q * q <= a * a
            &&& (UNIT * UNIT) * (q * q) >= (pace * pace) * (a * a) - 2 * (UNIT * UNIT) * pace
        }),
{
    let unit = UNIT as int;
    let q = quotient(a * pace, unit);
    lemma_quotient_bounds(a * pace, unit);
    let size = if a >= 0 { a } else { -a };
    let part = if q >= 0 { q } else { -q };
    let stretch = size * pace;
    assert(a >= 0 ==> 0 <= a * pace <= a * unit) by (nonlinear_arith)
        requires
            0 <= pace <= unit,
    ;
    assert(a <= 0 ==> a * unit <= a * pace <= 0) by (nonlinear_arith)
        requires
            0 <= pace <= unit,
    ;
    assert((-a) * pace == -(a * pace)) by (nonlinear_arith);
    assert(0 <= part <= size);
    assert(unit * part <= stretch < unit * part + unit);
    assert(part * part <= size * size) by (nonlinear_arith)
        requires
            0 <= part <= size,
    ;
    assert(part * part == q * q && size * size == a * a) by (nonlinear_arith)
        requires
            part == q || part == -q,
            size == a || size == -a,
    ;
    let reach = unit * part;
    assert(reach * reach >= stretch * stretch - 2 * unit * stretch) by (nonlinear_arith)
        requires
            0 <= reach <= stretch < reach + unit,
            0 < unit,
    ;
    assert(stretch <= unit * pace) by (nonlinear_arith)
        requires
            0 <= size <= unit,
            0 <= pace,
            stretch == size * pace,
    ;
    assert(2 * unit * stretch <= 2 * (unit * unit) * pace) by (nonlinear_arith)
        requires
            stretch <= unit * pace,
            0 < unit,
    ;
    assert(reach * reach == (unit * unit) * (part * part)) by (nonlinear_arith)
        requires
            reach == unit * part,
    ;
    assert(stretch * stretch == (pace * pace) * (size * size)) by (nonlinear_arith)
        requires
            stretch == size * pace,
    ;
}

/// The speeds of the two pieces of an asteroid whose speed squares to
/// `square`, when the first piece flies along `heading`: they are at right
/// angles to each other and equally great, no greater than a unit vector
/// is, and their square falls short of `square` by [`SPLIT_LOSS`] at most.
pub proof fn lemma_piece_speeds(heading: Vector, square: int)
    requires
        is_unit(heading),
        UNIT * UNIT - 2 * UNIT - SPLIT_LOSS <= square <= UNIT * UNIT + 2 * UNIT,
    ensures
        ({
            let pace = floor_sqrt(square);
            let first = heading.scaled(pace, UNIT as int);
            let second = heading.perpendicular().scaled(pace, UNIT as int);
            &&& is_floor_sqrt(square, pace)
            &&& 0 <= pace <= UNIT
            &&& second == first.perpendicular()
            &&& first.dot(second) == 0
            &&& first.norm_squared() == second.norm_squared()
            &&& square - SPLIT_LOSS <= first.norm_squared() <= UNIT * UNIT + 2 * UNIT
        }),
{
    let unit = UNIT as int;
    lemma_floor_sqrt_exists(square);
    let pace = floor_sqrt(square);
    assert(pace <= unit && pace * pace >= square - 2 * unit) by (nonlinear_arith)
        requires
            0 <= pace,
            pace * pace <= square,
            square < (pace + 1) * (pace + 1),
            square <= unit * unit + 2 * unit,
            unit == 1_000_000,
    ;
    lemma_unit_components(heading);
    let first = heading.scaled(pace, unit);
    let second = heading.perpendicular().scaled(pace, unit);
    lemma_quotient_bounds(heading.y * pace, unit);
    assert((-heading.y) * pace == -(heading.y * pace)) by (nonlinear_arith);
    assert(second == first.perpendicular());
    assert(first.x * (-first.y) + first.y * first.x == 0) by (nonlinear_arith);
    assert((-first.y) * (-first.y) == first.y * first.y) by (nonlinear_arith);
    lemma_stretched_component(heading.x, pace);
    lemma_stretched_component(heading.y, pace);
    let length = heading.norm_squared();
    let total = first.norm_squared();
    assert(total <= length);
    let cube = unit * unit * unit;
    assert((unit * unit) * total >= (pace * pace) * length - 4 * (unit * unit) * pace)
        by (nonlinear_arith)
        requires
            (unit * unit) * (first.x * first.x) >= (pace * pace) * (heading.x * heading.x) - 2
                * (unit * unit) * pace,
            (unit * unit) * (first.y * first.y) >= (pace * pace) * (heading.y * heading.y) - 2
                * (unit * unit) * pace,
            total == first.x * first.x + first.y * first.y,
            length == heading.x * heading.x + heading.y * heading.y,
    ;
    let floor = square - 2 * unit;
    assert((pace * pace) * length >= floor * (unit * unit - 2 * unit)) by (nonlinear_arith)
        requires
            pace * pace >= floor,
            floor >= 0,
            length >= unit * unit - 2 * unit,
            unit * unit - 2 * unit >= 0,
    ;
    assert(floor * (unit * unit - 2 * unit) >= square * (unit * unit) - 4 * cube)
        by (nonlinear_arith)
        requires
            floor == square - 2 * unit,
            square <= unit * unit + 2 * unit,
            cube == unit * unit * unit,
            unit == 1_000_000,
    ;
    assert(4 * (unit * unit) * pace <= 4 * cube) by (nonlinear_arith)
        requires
            0 <= pace <= unit,
            cube == unit * unit * unit,
            0 < unit,
    ;
    assert(total >= square - 8 * unit) by (nonlinear_arith)
        requires
            (unit * unit) * total >= square * (unit * unit) - 8 * cube,
            cube == unit * unit * unit,
            0 < unit,
    ;
}

/// An asteroid breaks into two pieces, or into none if it is of the smallest
/// size.
pub proof fn lemma_split_count(asteroid: AsteroidView, heading: Vector)
    ensures
        asteroid.split(heading).len() == if asteroid.radius > ASTEROID_TAILLE / 4 {
            2int
        } else {
            0int
        },
{
}

/// The pieces of an asteroid are asteroids of half its radius, set off from
/// its centre by half their radius to either side; they fly at right angles
/// to each other and equally fast: as fast as the asteroid did, as far as
/// rounding lets them.
pub proof fn lemma_split_pieces(asteroid: AsteroidView, heading: Vector)
    requires
        asteroid.wf(),
        asteroid.splits(),
        is_unit(heading),
    ensures
        ({
            let pieces = asteroid.split(heading);
            &&& pieces[0].wf() && pieces[1].wf()
            &&& pieces[0].radius == asteroid.radius / 2 && pieces[1].radius == asteroid.radius / 2
            &&& pieces[0].position == asteroid.position.plus(
                Vector { x: pieces[0].radius / 2, y: 0 },
            )
            &&& pieces[1].position == asteroid.position.minus(
                Vector { x: pieces[1].radius / 2, y: 0 },
            )
            &&& pieces[0].speed.dot(pieces[1].speed) == 0
            &&& pieces[0].speed.norm_squared() == pieces[1].speed.norm_squared()
            &&& asteroid.speed.norm_squared() - SPLIT_LOSS <= pieces[0].speed.norm_squared()
                <= UNIT * UNIT + 2 * UNIT
        }),
{
    lemma_piece_speeds(heading, asteroid.speed.norm_squared());
}

/// No asteroid breaks more than twice over: the pieces of the pieces of any
/// asteroid are of the smallest size, and break into nothing.
pub proof fn lemma_split_ends(
    asteroid: AsteroidView,
    first: Vector,
    second: Vector,
    third: Vector,
    i: int,
    j: int,
)
    requires
        asteroid.wf(),
        0 <= i < asteroid.split(first).len(),
        0 <= j < asteroid.split(first)[i].split(second).len(),
    ensures
        asteroid.split(first)[i].split(second)[j].radius == ASTEROID_TAILLE / 4,
        asteroid.split(first)[i].split(second)[j].split(third).len() == 0,
{
}

/// A frame's move keeps an asteroid an asteroid; and one that is in the
/// viewport is afterwards in the viewport still, or less than a unit beyond
/// its right or its lower side.
pub proof fn lemma_moved_stays(asteroid: AsteroidView, viewport: Extent)
    requires
        asteroid.wf(),
        viewport.wf(),
    ensures
        asteroid.moved(viewport).wf(),
        inside(asteroid.position, viewport) ==> inside(
            asteroid.moved(viewport).position,
            Extent { width: viewport.width + UNIT, height: viewport.height + UNIT },
        ),
{
    lemma_unit_components(asteroid.speed);
}

} // verus!
