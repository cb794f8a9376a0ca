//! The simulation core of an asteroids arcade game, verified with Verus.
//!
//! A ship flies about a viewport, fires missiles at asteroids and loses a
//! charge of its shield when one rams it; a destroyed asteroid breaks into
//! two smaller ones until the pieces are of the smallest size. The library
//! holds the rules of that game and nothing else: it draws nothing and reads
//! no device.
//!
//! # Numbers
//!
//! Everything is computed on integers. A length, a coordinate or a speed is
//! a whole number of millionths of a world unit (see [`fixed::UNIT`]), an
//! angle a whole number of microradians, a time a whole number of
//! milliseconds. Where a product is divided, the quotient is rounded toward
//! zero. The contracts say what is computed to the last digit.
//!
//! The library does no trigonometry. Where the rules speak of the unit vector
//! `(cos a, sin a)` of an angle, a function takes that vector as a
//! [`vector::Direction`] from its caller, and tells beforehand which angle it
//! is to belong to.
//!
//! # A frame
//!
//! Whoever embeds the library runs the loop. In each frame of a match it
//! polls the player's [`input::Input`], asks [`game::Game::angle_after`]
//! where the ship will point, draws a heading for each asteroid that may
//! break (see [`asteroid::Asteroid::new_alea_split_angle`]), and hands all
//! that to [`game::Game::frame`] together with the viewport and the time.
//! Then it renders the state that the game has.

pub mod asteroid;
pub mod collision;
pub mod fixed;
pub mod game;
pub mod input;
pub mod missile;
pub mod random;
pub mod spaceship;
pub mod stellarobject;
pub mod vector;
