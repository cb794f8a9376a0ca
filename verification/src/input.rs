//! What the player asks for in a frame, and what that does to the ship.

use crate::missile::{missile_views, Missile};
use crate::spaceship::{Spaceship, SpaceshipView, THRUST_FORWARD, THRUST_REVERSE, TURN_STEP};
use crate::vector::Direction;
use vstd::prelude::*;

verus! {

/// What the player asks for in a frame.
#[derive(Clone, Copy, Debug)]
pub struct Input {
    /// Leave the game.
    pub escape: bool,
    /// Turn right.
    pub right: bool,
    /// Turn left.
    pub left: bool,
    /// Run the engine forward.
    pub up: bool,
    /// Run the engine backward.
    pub down: bool,
    /// Fire a missile.
    pub fire: bool,
}

/// The ship's angle after a frame of turning as `input` asks.
pub open spec fn turned(angle: int, input: Input) -> int {
    angle + (if input.right {
        TURN_STEP as int
    } else {
        0
    }) - (if input.left {
        TURN_STEP as int
    } else {
        0
    })
}

/// The thrust that `input` asks for: forward wins over backward, and
/// without either the engine is off.
pub open spec fn asked_thrust(input: Input) -> int {
    if input.up {
        THRUST_FORWARD as int
    } else if input.down {
        THRUST_REVERSE as int
    } else {
        0
    }
}

/// The ship after the input of a frame: when the player leaves, nothing
/// happens to it; else it has turned and its engine is set.
pub open spec fn steered(ship: SpaceshipView, input: Input) -> SpaceshipView {
    if input.escape {
        ship
    } else {
        SpaceshipView { angle: turned(ship.angle, input), thrust: asked_thrust(input), ..ship }
    }
}

/// The ship's angle has room for the turn that `input` asks for: the angle
/// that the ship is to have lies in the range of angles.
pub open spec fn can_steer(ship: SpaceshipView, input: Input) -> bool {
    i64::MIN <= steered(ship, input).angle <= i64::MAX
}

/// Whether the ship's angle has room for the turns that `input` asks for.
/// Only after some hundred million million frames of turning one way has it
/// none.
pub fn steerable(spaceship: &Spaceship, input: &Input) -> (steerable: bool)
    ensures
        steerable == can_steer(spaceship@, *input),
{
    proof {
        use_type_invariant(spaceship);
    }
    let angle: i64 = spaceship.angle();
    if input.escape || input.right == input.left {
        true
    } else if input.right {
        angle <= i64::MAX - TURN_STEP
    } else {
        angle >= i64::MIN + TURN_STEP
    }
}

/// Where the ship will point once `input` is handled, in microradians. The
/// unit vector of this angle is the heading that [`handle_input`] and
/// [`update_model`] ask for.
pub fn angle_after(spaceship: &Spaceship, input: &Input) -> (angle: i64)
    requires
        can_steer(spaceship@, *input),
    ensures
        angle == steered(spaceship@, *input).angle,
{
    let mut angle: i64 = spaceship.angle();
    if !input.escape {
        if input.right && input.left {
        } else if input.right {
            angle = angle + TURN_STEP;
        } else if input.left {
            angle = angle - TURN_STEP;
        }
    }
    angle
}

/// Handles the input of a frame: see [`steered`]. If the player fires and
/// does not leave, the ship fires a missile along `heading`, which is to be
/// the unit vector of the angle that the ship has after turning. Tells
/// whether the player leaves.
pub fn handle_input(
    spaceship: &mut Spaceship,
    missiles: &mut Vec<Missile>,
    input: &Input,
    heading: Direction,
) -> (quit: bool)
    requires
        can_steer(old(spaceship)@, *input),
    ensures
        quit == input.escape,
        final(spaceship)@ == steered(old(spaceship)@, *input),
        missile_views(final(missiles)@) == if !input.escape && input.fire {
            missile_views(old(missiles)@).push(final(spaceship)@.missile(heading@))
        } else {
            missile_views(old(missiles)@)
        },
{
    if input.escape {
        return true;
    }
    if input.right && input.left {
    } else if input.right {
        spaceship.turn_right();
    } else if input.left {
        spaceship.turn_left();
    }
    if input.up {
        spaceship.apply_thrust(THRUST_FORWARD);
    } else if input.down {
        spaceship.apply_thrust(THRUST_REVERSE);
    } else {
        spaceship.apply_thrust(0);
    }
    if input.fire {
        let ghost earlier = missiles@;
        let missile: Missile = spaceship.fire(heading);
        missiles.push(missile);
        assert(missile_views(missiles@) == missile_views(earlier).push(missile@));
    }
    false
}

} // verus!
