//! The collisions of a frame: which asteroids the ship and the missiles
//! destroy, what is left of them, and what that does to the score.

use crate::asteroid::{asteroid_views, Asteroid, AsteroidView};
use crate::missile::{missile_views, Missile, MissileView};
use crate::spaceship::{Spaceship, SpaceshipView};
use crate::stellarobject::{lemma_collision_symmetric, may_report, overlap, Collide};
use crate::vector::{heading_views, Direction, Extent, Vec2, Vector, Viewport};
use vstd::prelude::*;

verus! {

/// What an asteroid destroyed by a missile adds to the score.
pub const REWARD: i32 = 5;

/// What a collision of the unprotected ship with asteroids takes from the
/// score, however many asteroids hit it in the frame.
pub const PENALTY: i32 = 10;

/// Whether the asteroid collides with the circle of radius `radius` around
/// `centre`.
pub open spec fn touches(asteroid: AsteroidView, centre: Vector, radius: int) -> bool {
    overlap(asteroid.position, asteroid.radius, centre, radius)
}

/// The asteroids that collide with the circle, in their order.
pub open spec fn rammed(asteroids: Seq<AsteroidView>, centre: Vector, radius: int) -> Seq<
    AsteroidView,
> {
    asteroids.filter(|a: AsteroidView| touches(a, centre, radius))
}

/// The asteroids that do not collide with the circle, in their order.
pub open spec fn spared(asteroids: Seq<AsteroidView>, centre: Vector, radius: int) -> Seq<
    AsteroidView,
> {
    asteroids.filter(|a: AsteroidView| !touches(a, centre, radius))
}

/// `index` is the place of the first asteroid that the missile collides
/// with, or the number of asteroids if it collides with none.
pub open spec fn is_first_struck(asteroids: Seq<AsteroidView>, missile: MissileView, index: int)
    -> bool {
    &&& 0 <= index <= asteroids.len()
    &&& forall|k: int|
        0 <= k < index ==> !touches(#[trigger] asteroids[k], missile.position, missile.radius)
    &&& index < asteroids.len() ==> touches(asteroids[index], missile.position, missile.radius)
}

/// The place of the first asteroid that the missile collides with, or the
/// number of asteroids if it collides with none.
pub open spec fn first_struck(asteroids: Seq<AsteroidView>, missile: MissileView) -> int {
    choose|index: int| is_first_struck(asteroids, missile, index)
}

/// What the missiles have done to the asteroids.
pub struct Volley {
    /// The asteroids that are left.
    pub asteroids: Seq<AsteroidView>,
    /// The missiles that fly on.
    pub missiles: Seq<MissileView>,
    /// The asteroids that were destroyed, in the order in which they were.
    pub wrecks: Seq<AsteroidView>,
}

/// The missiles are taken one after the other. Each destroys the first
/// asteroid it collides with among those that are left, and is spent. One
/// that collides with none flies on if it is in the viewport, and is lost if
/// it is not.
pub open spec fn volley(missiles: Seq<MissileView>, asteroids: Seq<AsteroidView>, viewport: Extent)
    -> Volley
    decreases missiles.len(),
{
    if missiles.len() == 0 {
        Volley { asteroids, missiles: Seq::empty(), wrecks: Seq::empty() }
    } else {
        let before = volley(missiles.drop_last(), asteroids, viewport);
        let missile = missiles.last();
        let struck = first_struck(before.asteroids, missile);
        if struck < before.asteroids.len() {
            Volley {
                asteroids: before.asteroids.remove(struck),
                missiles: before.missiles,
                wrecks: before.wrecks.push(before.asteroids[struck]),
            }
        } else if missile.is_out_of_bounds(viewport) {
            before
        } else {
            Volley { missiles: before.missiles.push(missile), ..before }
        }
    }
}

/// The pieces of the destroyed asteroids, in the order in which these were
/// destroyed: the first piece of the `k`-th flies along the `k`-th heading.
pub open spec fn debris(wrecks: Seq<AsteroidView>, headings: Seq<Vector>) -> Seq<AsteroidView>
    decreases wrecks.len(),
{
    if wrecks.len() == 0 {
        Seq::empty()
    } else {
        debris(wrecks.drop_last(), headings) + wrecks.last().split(headings[wrecks.len() - 1])
    }
}

/// How a frame's collisions end.
pub struct Outcome {
    pub asteroids: Seq<AsteroidView>,
    pub missiles: Seq<MissileView>,
    pub score: int,
    /// Whether the ship was hit while nothing protected it.
    pub ship_hit: bool,
}

/// The collisions of one frame.
///
/// First every asteroid that collides with the ship is destroyed. If there
/// is one and the ship is not invincible, the ship is hit and the score pays
/// the penalty, once. Then the missiles are taken against the asteroids that
/// are left (see [`volley`]), and each asteroid that a missile destroys adds
/// the reward to the score. At the end the pieces of all destroyed asteroids
/// join those that are left (see [`debris`]).
pub open spec fn resolved(
    ship: SpaceshipView,
    asteroids: Seq<AsteroidView>,
    missiles: Seq<MissileView>,
    score: int,
    viewport: Extent,
    headings: Seq<Vector>,
) -> Outcome {
    let crashed = rammed(asteroids, ship.position, ship.radius);
    let shots = volley(missiles, spared(asteroids, ship.position, ship.radius), viewport);
    let ship_hit = crashed.len() > 0 && !ship.invincible;
    Outcome {
        asteroids: shots.asteroids + debris(crashed + shots.wrecks, headings),
        missiles: shots.missiles,
        score: score - (if ship_hit {
            PENALTY as int
        } else {
            0
        }) + REWARD * shots.wrecks.len(),
        ship_hit,
    }
}

/// Two places cannot both be that of the first asteroid struck.
pub proof fn lemma_first_struck_unique(
    asteroids: Seq<AsteroidView>,
    missile: MissileView,
    index: int,
)
    requires
        is_first_struck(asteroids, missile, index),
    ensures
        first_struck(asteroids, missile) == index,
{
    let other = first_struck(asteroids, missile);
    assert(is_first_struck(asteroids, missile, other));
    if other < index {
        assert(!touches(asteroids[other], missile.position, missile.radius));
    } else if index < other {
        assert(!touches(asteroids[index], missile.position, missile.radius));
    }
}

proof fn lemma_rammed_push(
    asteroids: Seq<AsteroidView>,
    next: AsteroidView,
    centre: Vector,
    radius: int,
)
    ensures
        rammed(asteroids.push(next), centre, radius) == if touches(next, centre, radius) {
            rammed(asteroids, centre, radius).push(next)
        } else {
            rammed(asteroids, centre, radius)
        },
        spared(asteroids.push(next), centre, radius) == if touches(next, centre, radius) {
            spared(asteroids, centre, radius)
        } else {
            spared(asteroids, centre, radius).push(next)
        },
{
    reveal(Seq::filter);
    assert(asteroids.push(next).drop_last() == asteroids);
}

proof fn lemma_rammed_none(centre: Vector, radius: int)
    ensures
        rammed(Seq::empty(), centre, radius) == Seq::<AsteroidView>::empty(),
        spared(Seq::empty(), centre, radius) == Seq::<AsteroidView>::empty(),
{
    reveal(Seq::filter);
}

/// Every asteroid is either left or destroyed by the missiles, and no
/// missile both flies on and destroys an asteroid, nor destroys two.
pub proof fn lemma_volley_counts(
    missiles: Seq<MissileView>,
    asteroids: Seq<AsteroidView>,
    viewport: Extent,
)
    ensures
        volley(missiles, asteroids, viewport).asteroids.len() + volley(
            missiles,
            asteroids,
            viewport,
        ).wrecks.len() == asteroids.len(),
        volley(missiles, asteroids, viewport).missiles.len() + volley(
            missiles,
            asteroids,
            viewport,
        ).wrecks.len() <= missiles.len(),
    decreases missiles.len(),
{
    if missiles.len() > 0 {
        lemma_volley_counts(missiles.drop_last(), asteroids, viewport);
        let before = volley(missiles.drop_last(), asteroids, viewport);
        lemma_first_struck_exists(before.asteroids, missiles.last());
        let struck = first_struck(before.asteroids, missiles.last());
        if struck < before.asteroids.len() {
            before.asteroids.remove_ensures(struck);
        }
    }
}

/// There is a first asteroid that the missile collides with, or none at
/// all.
pub proof fn lemma_first_struck_exists(asteroids: Seq<AsteroidView>, missile: MissileView)
    ensures
        is_first_struck(asteroids, missile, first_struck(asteroids, missile)),
{
    lemma_first_struck_from(asteroids, missile, 0);
}

proof fn lemma_first_struck_from(asteroids: Seq<AsteroidView>, missile: MissileView, from: int)
    requires
        0 <= from <= asteroids.len(),
        forall|k: int|
            0 <= k < from ==> !touches(#[trigger] asteroids[k], missile.position, missile.radius),
    ensures
        is_first_struck(asteroids, missile, first_struck(asteroids, missile)),
    decreases asteroids.len() - from,
{
    if from == asteroids.len() || touches(asteroids[from], missile.position, missile.radius) {
        assert(is_first_struck(asteroids, missile, from));
    } else {
        lemma_first_struck_from(asteroids, missile, from + 1);
    }
}

/// Every missile that flies on after the collisions is one of the missiles
/// there were, and is in the viewport: a missile that has left the viewport
/// is lost, whether or not it collides with an asteroid.
pub proof fn lemma_volley_culls(
    missiles: Seq<MissileView>,
    asteroids: Seq<AsteroidView>,
    viewport: Extent,
    i: int,
)
    requires
        0 <= i < volley(missiles, asteroids, viewport).missiles.len(),
    ensures
        !volley(missiles, asteroids, viewport).missiles[i].is_out_of_bounds(viewport),
        missiles.contains(volley(missiles, asteroids, viewport).missiles[i]),
    decreases missiles.len(),
{
    if missiles.len() > 0 {
        let before = volley(missiles.drop_last(), asteroids, viewport);
        if i < before.missiles.len() {
            lemma_volley_culls(missiles.drop_last(), asteroids, viewport, i);
            let found = before.missiles[i];
            let earlier = missiles.drop_last();
            let at = choose|k: int| 0 <= k < earlier.len() && earlier[k] == found;
            assert(missiles[at] == found);
        } else {
            assert(missiles[missiles.len() - 1] == missiles.last());
        }
    }
}

/// Each destroyed asteroid leaves two pieces, or none if it was of the
/// smallest size.
pub proof fn lemma_debris_count(wrecks: Seq<AsteroidView>, headings: Seq<Vector>)
    ensures
        debris(wrecks, headings).len() == 2 * wrecks.filter(
            |a: AsteroidView| a.splits(),
        ).len(),
    decreases wrecks.len(),
{
    reveal(Seq::filter);
    if wrecks.len() > 0 {
        lemma_debris_count(wrecks.drop_last(), headings);
    }
}

/// The score of a frame: each asteroid that a missile destroys adds the
/// reward, and no missile destroys more than one; a collision of the ship
/// takes the penalty once, however many asteroids ram the ship, and only if
/// the ship is not invincible.
pub proof fn lemma_score(
    ship: SpaceshipView,
    asteroids: Seq<AsteroidView>,
    missiles: Seq<MissileView>,
    score: int,
    viewport: Extent,
    headings: Seq<Vector>,
)
    ensures
        ({
            let end = resolved(ship, asteroids, missiles, score, viewport, headings);
            let shots = volley(missiles, spared(asteroids, ship.position, ship.radius), viewport);
            &&& end.score == score + REWARD * shots.wrecks.len() - if end.ship_hit {
                PENALTY as int
            } else {
                0
            }
            &&& shots.wrecks.len() <= missiles.len()
            &&& end.ship_hit == (!ship.invincible && exists|i: int|
                0 <= i < asteroids.len() && touches(
                    #[trigger] asteroids[i],
                    ship.position,
                    ship.radius,
                ))
        }),
{
    let crashed = rammed(asteroids, ship.position, ship.radius);
    lemma_volley_counts(missiles, spared(asteroids, ship.position, ship.radius), viewport);
    lemma_rammed_some(asteroids, ship.position, ship.radius);
}

/// An invincible ship pays nothing: the asteroids that ram it are destroyed
/// and break up as they would otherwise, and the missiles do what they would
/// otherwise, but the ship is not hit and the score keeps the penalty.
pub proof fn lemma_invincible_ship_pays_nothing(
    ship: SpaceshipView,
    asteroids: Seq<AsteroidView>,
    missiles: Seq<MissileView>,
    score: int,
    viewport: Extent,
    headings: Seq<Vector>,
)
    requires
        ship.invincible,
    ensures
        ({
            let end = resolved(ship, asteroids, missiles, score, viewport, headings);
            let bare = resolved(
                SpaceshipView { invincible: false, ..ship },
                asteroids,
                missiles,
                score,
                viewport,
                headings,
            );
            &&& !end.ship_hit
            &&& end.asteroids == bare.asteroids
            &&& end.missiles == bare.missiles
            &&& end.score == bare.score + if bare.ship_hit {
                PENALTY as int
            } else {
                0
            }
        }),
{
}

/// Some asteroid is rammed exactly when one of the asteroids collides with
/// the circle; and none of the spared ones does.
pub proof fn lemma_rammed_some(asteroids: Seq<AsteroidView>, centre: Vector, radius: int)
    ensures
        rammed(asteroids, centre, radius).len() > 0 <==> exists|i: int|
            0 <= i < asteroids.len() && touches(#[trigger] asteroids[i], centre, radius),
        forall|i: int|
            0 <= i < spared(asteroids, centre, radius).len() ==> !touches(
                #[trigger] spared(asteroids, centre, radius)[i],
                centre,
                radius,
            ),
        rammed(asteroids, centre, radius).len() + spared(asteroids, centre, radius).len()
            == asteroids.len(),
    decreases asteroids.len(),
{
    if asteroids.len() == 0 {
        lemma_rammed_none(centre, radius);
        assert(asteroids == Seq::<AsteroidView>::empty());
    } else {
        let rest = asteroids.drop_last();
        let last = asteroids.last();
        lemma_rammed_some(rest, centre, radius);
        lemma_rammed_push(rest, last, centre, radius);
        assert(rest.push(last) == asteroids);
        if exists|i: int| 0 <= i < rest.len() && touches(#[trigger] rest[i], centre, radius) {
            let i = choose|i: int|
                0 <= i < rest.len() && touches(#[trigger] rest[i], centre, radius);
            assert(asteroids[i] == rest[i]);
        }
        if touches(last, centre, radius) {
            assert(asteroids[asteroids.len() - 1] == last);
        }
        if exists|i: int|
            0 <= i < asteroids.len() && touches(#[trigger] asteroids[i], centre, radius) {
            let i = choose|i: int|
                0 <= i < asteroids.len() && touches(#[trigger] asteroids[i], centre, radius);
            if i < rest.len() {
                assert(rest[i] == asteroids[i]);
            }
        }
    }
}

/// Whether the asteroid collides with the ship.
fn rams(asteroid: &Asteroid, spaceship: &Spaceship) -> (hit: bool)
    ensures
        hit == touches(asteroid@, spaceship@.position, spaceship@.radius),
{
    let hit: bool = asteroid.check_collision(spaceship);
    proof {
        let (pa, ra, pb, rb) = choose|pa: Vec2, ra: i64, pb: Vec2, rb: i64|
            #![trigger may_report(asteroid, pa, ra), may_report(spaceship, pb, rb)]
            may_report(asteroid, pa, ra) && may_report(spaceship, pb, rb) && hit == overlap(
                pa@,
                ra as int,
                pb@,
                rb as int,
            );
        assert(may_report(asteroid, pa, ra) && may_report(spaceship, pb, rb));
    }
    hit
}

/// Whether the missile collides with the asteroid.
fn strikes(missile: &Missile, asteroid: &Asteroid) -> (hit: bool)
    ensures
        hit == touches(asteroid@, missile@.position, missile@.radius),
{
    let hit: bool = missile.check_collision(asteroid);
    proof {
        let (pa, ra, pb, rb) = choose|pa: Vec2, ra: i64, pb: Vec2, rb: i64|
            #![trigger may_report(missile, pa, ra), may_report(asteroid, pb, rb)]
            may_report(missile, pa, ra) && may_report(asteroid, pb, rb) && hit == overlap(
                pa@,
                ra as int,
                pb@,
                rb as int,
            );
        assert(may_report(missile, pa, ra) && may_report(asteroid, pb, rb));
        lemma_collision_symmetric(pa@, ra as int, pb@, rb as int);
    }
    hit
}

/// Resolves the collisions of one frame: see [`resolved`].
///
/// `headings` holds the directions in which the pieces of destroyed
/// asteroids fly off, one for each asteroid that may be destroyed. Tells
/// whether the ship was hit while nothing protected it.
pub fn check_collision_game(
    spaceship: &Spaceship,
    asteroids: &mut Vec<Asteroid>,
    missiles: &mut Vec<Missile>,
    score: &mut i32,
    viewport: &Viewport,
    headings: &Vec<Direction>,
) -> (ship_hit: bool)
    requires
        old(asteroids).len() <= headings.len(),
        i32::MIN <= *old(score) - PENALTY,
        *old(score) + REWARD * old(missiles).len() <= i32::MAX,
    ensures
        ({
            let end = resolved(
                spaceship@,
                asteroid_views(old(asteroids)@),
                missile_views(old(missiles)@),
                *old(score) as int,
                viewport@,
                heading_views(headings@),
            );
            &&& asteroid_views(final(asteroids)@) == end.asteroids
            &&& missile_views(final(missiles)@) == end.missiles
            &&& *final(score) == end.score
            &&& ship_hit == end.ship_hit
        }),
        forall|i: int|
            0 <= i < final(missiles).len() ==> !(#[trigger] final(missiles)[i])@.is_out_of_bounds(
                viewport@,
            ),
{
    let ghost rocks = asteroid_views(asteroids@);
    let ghost shots = missile_views(missiles@);
    let ghost centre = spaceship@.position;
    let ghost radius = spaceship@.radius;
    let ghost start = *score as int;

    let mut kept: Vec<Asteroid> = Vec::new();
    let mut wrecks: Vec<Asteroid> = Vec::new();
    let mut i: usize = 0;
    proof {
        lemma_rammed_none(centre, radius);
        assert(rocks.take(0) == Seq::<AsteroidView>::empty());
        assert(asteroid_views(kept@) == Seq::<AsteroidView>::empty());
        assert(asteroid_views(wrecks@) == Seq::<AsteroidView>::empty());
    }
    while i < asteroids.len()
        invariant
            i <= asteroids.len(),
            rocks == asteroid_views(asteroids@),
            centre == spaceship@.position,
            radius == spaceship@.radius,
            asteroid_views(kept@) == spared(rocks.take(i as int), centre, radius),
            asteroid_views(wrecks@) == rammed(rocks.take(i as int), centre, radius),
            kept.len() + wrecks.len() == i,
        decreases asteroids.len() - i,
    {
        let asteroid: Asteroid = asteroids[i];
        proof {
            assert(rocks.take(i + 1) == rocks.take(i as int).push(asteroid@));
            lemma_rammed_push(rocks.take(i as int), asteroid@, centre, radius);
        }
        let ghost earlier_kept = kept@;
        let ghost earlier_wrecks = wrecks@;
        if rams(&asteroid, spaceship) {
            wrecks.push(asteroid);
            assert(asteroid_views(wrecks@) == asteroid_views(earlier_wrecks).push(asteroid@));
        } else {
            kept.push(asteroid);
            assert(asteroid_views(kept@) == asteroid_views(earlier_kept).push(asteroid@));
        }
        i = i + 1;
    }
    assert(rocks.take(asteroids.len() as int) == rocks);
    let ghost crashed = rammed(rocks, centre, radius);
    let ship_hit: bool = wrecks.len() > 0 && !spaceship.invincible();
    if ship_hit {
        *score = *score - PENALTY;
    }
    let ghost paid = *score as int;

    let mut flying: Vec<Missile> = Vec::new();
    let mut n: usize = 0;
    assert(shots.take(0) == Seq::<MissileView>::empty());
    assert(missile_views(flying@) == Seq::<MissileView>::empty());
    assert(asteroid_views(wrecks@) == crashed + Seq::<AsteroidView>::empty());
    while n < missiles.len()
        invariant
            n <= missiles.len(),
            shots == missile_views(missiles@),
            ({
                let done = volley(shots.take(n as int), spared(rocks, centre, radius), viewport@);
                &&& asteroid_views(kept@) == done.asteroids
                &&& missile_views(flying@) == done.missiles
                &&& asteroid_views(wrecks@) == crashed + done.wrecks
                &&& *score == paid + REWARD * done.wrecks.len()
                &&& done.wrecks.len() <= n
            }),
            kept.len() + wrecks.len() == rocks.len(),
            start - PENALTY <= paid <= start,
            i32::MIN <= start - PENALTY,
            start + REWARD * missiles.len() <= i32::MAX,
        decreases missiles.len() - n,
    {
        let missile: Missile = missiles[n];
        let ghost before = volley(shots.take(n as int), spared(rocks, centre, radius), viewport@);
        proof {
            assert(shots.take(n + 1).drop_last() == shots.take(n as int));
            assert(shots.take(n + 1).last() == missile@);
        }
        let mut j: usize = 0;
        while j < kept.len() && !strikes(&missile, &kept[j])
            invariant
                j <= kept.len(),
                forall|k: int|
                    0 <= k < j ==> !touches(
                        #[trigger] asteroid_views(kept@)[k],
                        missile@.position,
                        missile@.radius,
                    ),
            decreases kept.len() - j,
        {
            j = j + 1;
        }
        proof {
            assert(j < kept.len() ==> asteroid_views(kept@)[j as int] == kept[j as int]@);
            lemma_first_struck_unique(asteroid_views(kept@), missile@, j as int);
        }
        if j < kept.len() {
            let ghost earlier_wrecks = wrecks@;
            let wreck: Asteroid = kept.remove(j);
            wrecks.push(wreck);
            *score = *score + REWARD;
            proof {
                assert(asteroid_views(kept@) == before.asteroids.remove(j as int));
                assert(asteroid_views(wrecks@) == asteroid_views(earlier_wrecks).push(wreck@));
                assert((crashed + before.wrecks).push(wreck@) == crashed + before.wrecks.push(
                    wreck@,
                ));
            }
        } else if !missile.is_out_of_bounds(viewport) {
            flying.push(missile);
            assert(missile_views(flying@) == before.missiles.push(missile@));
        }
        n = n + 1;
    }
    assert(shots.take(missiles.len() as int) == shots);
    let ghost done = volley(shots, spared(rocks, centre, radius), viewport@);
    let ghost all = crashed + done.wrecks;
    let ghost ways = heading_views(headings@);

    let mut k: usize = 0;
    assert(all.take(0) == Seq::<AsteroidView>::empty());
    assert(asteroid_views(kept@) == done.asteroids + debris(all.take(0), ways));
    while k < wrecks.len()
        invariant
            k <= wrecks.len(),
            wrecks.len() <= headings.len(),
            all == asteroid_views(wrecks@),
            ways == heading_views(headings@),
            asteroid_views(kept@) == done.asteroids + debris(all.take(k as int), ways),
        decreases wrecks.len() - k,
    {
        let mut pieces: Vec<Asteroid> = wrecks[k].split(headings[k]);
        proof {
            assert(all.take(k + 1).drop_last() == all.take(k as int));
            assert(all.take(k + 1).last() == wrecks[k as int]@);
            assert(ways[k as int] == headings[k as int]@);
            assert(asteroid_views(pieces@) == wrecks[k as int]@.split(headings[k as int]@));
        }
        let ghost earlier = kept@;
        kept.append(&mut pieces);
        proof {
            assert(asteroid_views(kept@) == asteroid_views(earlier) + wrecks[k as int]@.split(
                headings[k as int]@,
            ));
        }
        k = k + 1;
    }
    assert(all.take(wrecks.len() as int) == all);
    proof {
        assert forall|i: int| 0 <= i < flying.len() implies !(#[trigger] flying[i])@
            .is_out_of_bounds(viewport@) by {
            lemma_volley_culls(shots, spared(rocks, centre, radius), viewport@, i);
            assert(missile_views(flying@)[i] == flying[i]@);
        }
    }
    *asteroids = kept;
    *missiles = flying;
    ship_hit
}

} // verus!
