//! The game: its screens, its matches, and the frame that a match is played
//! by.

use crate::asteroid::{asteroid_views, is_edge_position, is_tier, Asteroid, AsteroidView};
use crate::collision::{
    check_collision_game, lemma_rammed_some, resolved, spared, volley, PENALTY, REWARD,
};
use crate::input::{angle_after, can_steer, handle_input, steerable, steered, Input};
use crate::missile::{missile_views, Missile, MissileView};
use crate::spaceship::{Helm, Spaceship, SpaceshipView};
use crate::stellarobject::StellarObject;
use crate::vector::{heading_views, inside, Direction, Extent, Vector, Viewport};
use vstd::prelude::*;

verus! {

/// Moves everything on by one frame: each asteroid, the ship and each
/// missile, by its own rule.
pub fn update_model(
    asteroids: &mut Vec<Asteroid>,
    spaceship: &mut Spaceship,
    missiles: &mut Vec<Missile>,
    helm: &Helm,
)
    ensures
        asteroid_views(final(asteroids)@) == asteroid_views(old(asteroids)@).map_values(
            |a: AsteroidView| a.moved(helm.viewport@),
        ),
        final(spaceship)@ == old(spaceship)@.moved(helm.viewport@, helm.heading@),
        missile_views(final(missiles)@) == missile_views(old(missiles)@).map_values(
            |m: MissileView| m.moved(),
        ),
{
    let ghost rocks = asteroid_views(asteroids@);
    let mut i: usize = 0;
    while i < asteroids.len()
        invariant
            i <= asteroids.len(),
            asteroids.len() == rocks.len(),
            forall|k: int|
                0 <= k < i ==> (#[trigger] asteroids[k])@ == rocks[k].moved(helm.viewport@),
            forall|k: int| i <= k < asteroids.len() ==> (#[trigger] asteroids[k])@ == rocks[k],
        decreases asteroids.len() - i,
    {
        let mut asteroid: Asteroid = asteroids[i];
        asteroid.update_position(&helm.viewport);
        asteroids.set(i, asteroid);
        i = i + 1;
    }
    assert(asteroid_views(asteroids@) == rocks.map_values(
        |a: AsteroidView| a.moved(helm.viewport@),
    ));

    spaceship.update_position(helm);

    let ghost shots = missile_views(missiles@);
    let mut n: usize = 0;
    while n < missiles.len()
        invariant
            n <= missiles.len(),
            missiles.len() == shots.len(),
            forall|k: int| 0 <= k < n ==> (#[trigger] missiles[k])@ == shots[k].moved(),
            forall|k: int| n <= k < missiles.len() ==> (#[trigger] missiles[k])@ == shots[k],
        decreases missiles.len() - n,
    {
        let mut missile: Missile = missiles[n];
        missile.update_position(&());
        missiles.set(n, missile);
        n = n + 1;
    }
    assert(missile_views(missiles@) == shots.map_values(|m: MissileView| m.moved()));
}

/// How many asteroids the first match starts with.
pub const FIRST_WAVE: usize = 10;

/// By how many asteroids each match starts with more than the one before.
pub const WAVE_STEP: usize = 5;

/// What the player sees.
#[derive(Clone, Copy, Debug, PartialEq, Eq, Structural)]
pub enum Screen {
    /// The title, before the first match.
    Start,
    /// A match.
    Playing,
    /// The end of a match.
    GameOver,
}

/// The model of a game.
pub struct GameView {
    pub screen: Screen,
    pub spaceship: SpaceshipView,
    pub asteroids: Seq<AsteroidView>,
    pub missiles: Seq<MissileView>,
    pub score: int,
    /// How many asteroids the current match started with.
    pub wave: int,
}

impl GameView {
    /// The numbers of the game have room for one more frame: the score for
    /// a penalty and for a reward per missile, the ship's angle for the
    /// turns that `input` asks for, and there is a heading for each asteroid
    /// that may be destroyed. Nothing is asked outside a match.
    pub open spec fn can_play(self, input: Input, headings: int) -> bool {
        self.screen == Screen::Playing ==> {
            &&& self.asteroids.len() <= headings
            &&& i32::MIN <= self.score - PENALTY
            &&& self.score + REWARD * self.missiles.len() <= i32::MAX
            &&& can_steer(self.spaceship, input)
        }
    }

    /// The game one frame later. Outside a match nothing happens. In a
    /// match:
    ///
    /// 1. the ship's invincibility ends if its time is over;
    /// 2. the collisions are resolved (see [`resolved`]), and a ship that is
    ///    hit takes the hit (see [`SpaceshipView::hit`]);
    /// 3. the input is handled (see [`steered`]), and a missile is fired if
    ///    the player asks for one;
    /// 4. unless the player leaves, everything moves on.
    ///
    /// The match is over after this frame if it began without asteroids, or
    /// if the ship was hit with no shield left.
    pub open spec fn frame(
        self,
        input: Input,
        now: int,
        viewport: Extent,
        heading: Vector,
        headings: Seq<Vector>,
    ) -> GameView {
        if self.screen != Screen::Playing {
            self
        } else {
            let ship = self.spaceship.at(now);
            let end = resolved(ship, self.asteroids, self.missiles, self.score, viewport, headings);
            let lost = end.ship_hit && ship.shield == 0;
            let struck = if end.ship_hit {
                ship.hit(now)
            } else {
                ship
            };
            let screen = if self.asteroids.len() == 0 || lost {
                Screen::GameOver
            } else {
                Screen::Playing
            };
            let steered = steered(struck, input);
            if input.escape {
                GameView {
                    screen,
                    spaceship: steered,
                    asteroids: end.asteroids,
                    missiles: end.missiles,
                    score: end.score,
                    ..self
                }
            } else {
                let missiles = if input.fire {
                    end.missiles.push(steered.missile(heading))
                } else {
                    end.missiles
                };
                GameView {
                    screen,
                    spaceship: steered.moved(viewport, heading),
                    asteroids: end.asteroids.map_values(|a: AsteroidView| a.moved(viewport)),
                    missiles: missiles.map_values(|m: MissileView| m.moved()),
                    score: end.score,
                    ..self
                }
            }
        }
    }
}

/// What a frame of play does to the shield and the score. A ship that is
/// hit was not invincible. If its shield still takes a hit, it takes this
/// one, the ship is invincible from now on, and the match goes on; if not,
/// the match is over. A ship that is not hit keeps its shield. The score
/// pays the penalty if and only if the ship is hit, and gains the reward for
/// each asteroid that a missile destroys.
pub proof fn lemma_frame_hit(
    game: GameView,
    input: Input,
    now: int,
    viewport: Extent,
    heading: Vector,
    headings: Seq<Vector>,
)
    requires
        game.screen == Screen::Playing,
    ensures
        ({
            let ship = game.spaceship.at(now);
            let end = resolved(ship, game.asteroids, game.missiles, game.score, viewport, headings);
            let shots = volley(
                game.missiles,
                spared(game.asteroids, ship.position, ship.radius),
                viewport,
            );
            let after = game.frame(input, now, viewport, heading, headings);
            &&& end.ship_hit ==> !ship.invincible
            &&& end.ship_hit && ship.shield > 0 ==> {
                &&& after.spaceship.shield == ship.shield - 1
                &&& after.spaceship.invincible
                &&& after.spaceship.invincible_since == now
                &&& after.screen == Screen::Playing
            }
            &&& end.ship_hit && ship.shield == 0 ==> {
                &&& after.spaceship.shield == 0
                &&& after.screen == Screen::GameOver
            }
            &&& !end.ship_hit ==> {
                &&& after.spaceship.shield == ship.shield
                &&& after.spaceship.invincible == ship.invincible
            }
            &&& after.score == game.score + REWARD * shots.wrecks.len() - if end.ship_hit {
                PENALTY as int
            } else {
                0
            }
        }),
{
    let ship = game.spaceship.at(now);
    lemma_rammed_some(game.asteroids, ship.position, ship.radius);
}

/// A game: the ship, the asteroids, the missiles and the score, and the
/// screen that the player is on.
pub struct Game {
    screen: Screen,
    spaceship: Spaceship,
    asteroids: Vec<Asteroid>,
    missiles: Vec<Missile>,
    score: i32,
    nbr_asteroids: usize,
}

impl View for Game {
    type V = GameView;

    closed spec fn view(&self) -> GameView {
        GameView {
            screen: self.screen,
            spaceship: self.spaceship@,
            asteroids: asteroid_views(self.asteroids@),
            missiles: missile_views(self.missiles@),
            score: self.score as int,
            wave: self.nbr_asteroids as int,
        }
    }
}

/// What holds of the asteroids that a match starts with: there is one for
/// each heading, of one of the three sizes; it flies along its heading, and
/// it lies in the viewport, near one of its sides.
pub open spec fn is_wave(asteroids: Seq<AsteroidView>, viewport: Extent, headings: Seq<Vector>)
    -> bool {
    &&& asteroids.len() == headings.len()
    &&& forall|i: int|
        0 <= i < asteroids.len() ==> {
            &&& is_tier((#[trigger] asteroids[i]).radius)
            &&& inside(asteroids[i].position, viewport)
            &&& is_edge_position(asteroids[i].position, viewport)
            &&& asteroids[i].speed == headings[i]
        }
}

impl Game {
    /// A game on the start screen with the given asteroids for its first
    /// match: a new ship in the middle of the viewport, no missile and no
    /// score.
    pub fn with_asteroids(viewport: &Viewport, asteroids: Vec<Asteroid>) -> (game: Game)
        ensures
            game@ == (GameView {
                screen: Screen::Start,
                spaceship: Spaceship::new_view(viewport@),
                asteroids: asteroid_views(asteroids@),
                missiles: Seq::empty(),
                score: 0,
                wave: asteroids.len() as int,
            }),
    {
        let missiles: Vec<Missile> = Vec::new();
        assert(missile_views(missiles@) == Seq::<MissileView>::empty());
        let nbr_asteroids: usize = asteroids.len();
        Game {
            screen: Screen::Start,
            spaceship: Spaceship::new(viewport),
            asteroids,
            missiles,
            score: 0,
            nbr_asteroids,
        }
    }

    /// A new game, on the start screen: a new ship in the middle of the
    /// viewport, no missile, no score, and the asteroids of the first match,
    /// one for each of the [`FIRST_WAVE`] headings.
    pub fn new(viewport: &Viewport, headings: &Vec<Direction>) -> (game: Game)
        requires
            headings.len() == FIRST_WAVE,
        ensures
            game@.screen == Screen::Start,
            game@.spaceship == Spaceship::new_view(viewport@),
            is_wave(game@.asteroids, viewport@, heading_views(headings@)),
            game@.missiles == Seq::<MissileView>::empty(),
            game@.score == 0,
            game@.wave == FIRST_WAVE,
    {
        let asteroids: Vec<Asteroid> = Asteroid::generate_asteroid(viewport, headings);
        Self::with_asteroids(viewport, asteroids)
    }

    /// Begins the first match, from the start screen. On another screen
    /// nothing happens.
    pub fn play(&mut self)
        ensures
            final(self)@ == (GameView {
                screen: if old(self)@.screen == Screen::Start {
                    Screen::Playing
                } else {
                    old(self)@.screen
                },
                ..old(self)@
            }),
    {
        if self.screen == Screen::Start {
            self.screen = Screen::Playing;
        }
    }

    /// Begins the next match, from the end of one: a new ship, no missile,
    /// no score, and [`WAVE_STEP`] asteroids more than the match before
    /// started with, one for each heading. On another screen nothing
    /// happens.
    pub fn replay(&mut self, viewport: &Viewport, headings: &Vec<Direction>)
        requires
            old(self)@.screen == Screen::GameOver ==> headings.len() == old(self)@.wave + WAVE_STEP,
        ensures
            old(self)@.screen != Screen::GameOver ==> final(self)@ == old(self)@,
            old(self)@.screen == Screen::GameOver ==> {
                &&& final(self)@.screen == Screen::Playing
                &&& final(self)@.spaceship == Spaceship::new_view(viewport@)
                &&& is_wave(final(self)@.asteroids, viewport@, heading_views(headings@))
                &&& final(self)@.missiles == Seq::<MissileView>::empty()
                &&& final(self)@.score == 0
                &&& final(self)@.wave == old(self)@.wave + WAVE_STEP
            },
    {
        if self.screen == Screen::GameOver {
            let asteroids: Vec<Asteroid> = Asteroid::generate_asteroid(viewport, headings);
            let missiles: Vec<Missile> = Vec::new();
            assert(missile_views(missiles@) == Seq::<MissileView>::empty());
            *self = Game {
                screen: Screen::Playing,
                spaceship: Spaceship::new(viewport),
                asteroids,
                missiles,
                score: 0,
                nbr_asteroids: self.nbr_asteroids + WAVE_STEP,
            };
        }
    }

    /// Plays one frame: see [`GameView::frame`].
    ///
    /// `now` is the time in milliseconds. `helm` holds the viewport and the
    /// unit vector of the angle that [`Game::angle_after`] gives for this
    /// input; `headings` holds the directions in which the pieces of
    /// destroyed asteroids fly off, one for each asteroid of the game. Tells
    /// whether the player leaves the game.
    pub fn frame(
        &mut self,
        input: &Input,
        now: u64,
        helm: &Helm,
        headings: &Vec<Direction>,
    ) -> (quit: bool)
        requires
            old(self)@.can_play(*input, headings.len() as int),
        ensures
            final(self)@ == old(self)@.frame(
                *input,
                now as int,
                helm.viewport@,
                helm.heading@,
                heading_views(headings@),
            ),
            quit == (old(self)@.screen == Screen::Playing && input.escape),
    {
        if self.screen != Screen::Playing {
            return false;
        }
        let ghost before = self@;
        let ghost ways = heading_views(headings@);
        let cleared: bool = self.asteroids.len() == 0;
        self.spaceship.expire_invincibility(now);
        let ghost ship = self.spaceship@;
        proof {
            use_type_invariant(&self.spaceship);
        }
        assert(ship == before.spaceship.at(now as int));
        let ghost end = resolved(
            ship,
            before.asteroids,
            before.missiles,
            before.score,
            helm.viewport@,
            ways,
        );
        let ship_hit: bool = check_collision_game(
            &self.spaceship,
            &mut self.asteroids,
            &mut self.missiles,
            &mut self.score,
            &helm.viewport,
            headings,
        );
        let mut lost: bool = false;
        if ship_hit {
            lost = !self.spaceship.hit(now);
        }
        if cleared || lost {
            self.screen = Screen::GameOver;
        }
        assert(asteroid_views(self.asteroids@) == end.asteroids);
        assert(missile_views(self.missiles@) == end.missiles);
        assert(self.score == end.score);
        assert(lost == (end.ship_hit && ship.shield == 0));
        assert(self.spaceship@ == if end.ship_hit {
            ship.hit(now as int)
        } else {
            ship
        });
        let quit: bool = handle_input(&mut self.spaceship, &mut self.missiles, input, helm.heading);
        if !quit {
            update_model(&mut self.asteroids, &mut self.spaceship, &mut self.missiles, helm);
        }
        assert(self@ == before.frame(
            *input,
            now as int,
            helm.viewport@,
            helm.heading@,
            ways,
        ));
        quit
    }

    /// Whether the numbers of the game have room for one more frame with
    /// this input and this many headings: see [`GameView::can_play`].
    pub fn playable(&self, input: &Input, headings: usize) -> (playable: bool)
        ensures
            playable == self@.can_play(*input, headings as int),
    {
        if self.screen != Screen::Playing {
            return true;
        }
        let shots: usize = self.missiles.len();
        let score: i64 = self.score as i64;
        proof {
            assert(self@.asteroids.len() == self.asteroids.len());
            assert(self@.missiles.len() == shots);
            assert(REWARD * self@.missiles.len() == 5 * shots) by (nonlinear_arith)
                requires
                    REWARD == 5,
                    self@.missiles.len() == shots,
            ;
        }
        let counted: bool = self.asteroids.len() <= headings;
        let paid: bool = score - (PENALTY as i64) >= i32::MIN as i64;
        let earned: bool = shots <= 1_000_000_000 && score + 5 * (shots as i64) <= i32::MAX as i64;
        counted && paid && earned && steerable(&self.spaceship, input)
    }

    /// Where the ship will point once `input` is handled, in microradians:
    /// see [`angle_after`].
    pub fn angle_after(&self, input: &Input) -> (angle: i64)
        requires
            can_steer(self@.spaceship, *input),
        ensures
            angle == steered(self@.spaceship, *input).angle,
    {
        angle_after(&self.spaceship, input)
    }

    /// The screen that the player is on.
    pub fn screen(&self) -> (screen: Screen)
        ensures
            screen == self@.screen,
    {
        self.screen
    }

    /// The ship.
    pub fn spaceship(&self) -> (spaceship: &Spaceship)
        ensures
            spaceship@ == self@.spaceship,
    {
        &self.spaceship
    }

    /// The asteroids.
    pub fn asteroids(&self) -> (asteroids: &Vec<Asteroid>)
        ensures
            asteroid_views(asteroids@) == self@.asteroids,
    {
        &self.asteroids
    }

    /// The missiles.
    pub fn missiles(&self) -> (missiles: &Vec<Missile>)
        ensures
            missile_views(missiles@) == self@.missiles,
    {
        &self.missiles
    }

    /// The score.
    pub fn score(&self) -> (score: i32)
        ensures
            score == self@.score,
    {
        self.score
    }

    /// How many asteroids the current match started with.
    pub fn wave(&self) -> (wave: usize)
        ensures
            wave == self@.wave,
    {
        self.nbr_asteroids
    }
}

} // verus!
