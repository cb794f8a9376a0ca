use asteroids::fixed::UNIT;
use asteroids::spaceship::{
    Helm, Spaceship, INVINCIBILITY, SHIP_RADIUS, START_ANGLE, START_SHIELD, THRUST_FORWARD,
    THRUST_REVERSE, TURN_STEP,
};
use asteroids::stellarobject::StellarObject;
use asteroids::vector::{Direction, Vec2, Viewport};

fn dir(x: i64, y: i64) -> Direction {
    Direction::new(x, y).unwrap()
}

fn view() -> Viewport {
    Viewport::new(800 * UNIT, 600 * UNIT).unwrap()
}

fn wrap(c: f64, max: f64) -> f64 {
    if c < 0.0 {
        max - c
    } else if c > max {
        c - max
    } else {
        c
    }
}

fn helm(x: i64, y: i64) -> Helm {
    Helm { viewport: view(), heading: dir(x, y) }
}

#[test]
fn the_constants_of_the_ship() {
    assert_eq!(SHIP_RADIUS, 30 * UNIT);
    assert_eq!(TURN_STEP, 15_000);
    assert_eq!(THRUST_FORWARD, 5_000);
    assert_eq!(THRUST_REVERSE, -2_500);
    assert_eq!(START_ANGLE, -1_570_796);
    assert_eq!(START_SHIELD, 2);
    assert_eq!(INVINCIBILITY, 1_000);
}

#[test]
fn a_new_ship_rests_in_the_middle_and_points_up() {
    let s = Spaceship::new(&view());
    assert_eq!(s.position(), Vec2::new(400 * UNIT, 300 * UNIT));
    assert_eq!(s.speed(), Vec2::new(0, 0));
    assert_eq!(s.angle(), -1_570_796);
    assert_eq!(s.thrust(), 0);
    assert_eq!(s.radius(), 30 * UNIT);
    assert_eq!(s.shield(), 2);
    assert!(!s.invincible());
    let odd = Spaceship::new(&Viewport::new(60 * UNIT + 1, 60 * UNIT + 3).unwrap());
    assert_eq!(odd.position(), Vec2::new(30 * UNIT, 30 * UNIT + 1));
}

#[test]
fn turning_changes_the_angle_by_one_step() {
    let mut s = Spaceship::new(&view());
    s.turn_right();
    assert_eq!(s.angle(), -1_555_796);
    s.turn_right();
    assert_eq!(s.angle(), -1_540_796);
    s.turn_left();
    s.turn_left();
    s.turn_left();
    assert_eq!(s.angle(), -1_585_796);
    assert_eq!(s.position(), Vec2::new(400 * UNIT, 300 * UNIT));
}

#[test]
fn thrust_is_set_and_not_added() {
    let mut s = Spaceship::new(&view());
    s.apply_thrust(5_000);
    s.apply_thrust(5_000);
    assert_eq!(s.thrust(), 5_000);
    s.apply_thrust(-2_500);
    assert_eq!(s.thrust(), -2_500);
    s.apply_thrust(0);
    assert_eq!(s.thrust(), 0);
}

#[test]
fn a_ship_at_rest_without_thrust_stays() {
    let mut s = Spaceship::new(&view());
    s.update_position(&helm(0, -UNIT));
    assert_eq!(s.position(), Vec2::new(400 * UNIT, 300 * UNIT));
    assert_eq!(s.speed(), Vec2::new(0, 0));
}

#[test]
fn thrust_speeds_the_ship_up_and_friction_takes_a_thousandth() {
    let mut s = Spaceship::new(&view());
    s.apply_thrust(THRUST_FORWARD);
    let up = helm(0, -UNIT);
    s.update_position(&up);
    assert_eq!(s.speed(), Vec2::new(0, -4_995));
    assert_eq!(s.position(), Vec2::new(400_000_000, 299_995_005));
    s.update_position(&up);
    assert_eq!(s.speed(), Vec2::new(0, -9_985));
    assert_eq!(s.position(), Vec2::new(400_000_000, 299_985_020));
    s.update_position(&up);
    assert_eq!(s.speed(), Vec2::new(0, -14_970));
    assert_eq!(s.position(), Vec2::new(400_000_000, 299_970_050));
}

#[test]
fn the_speed_is_capped_at_one_unit_before_friction() {
    let mut s = Spaceship::new(&view());
    s.apply_thrust(THRUST_FORWARD);
    let up = helm(0, -UNIT);
    for _ in 0..1000 {
        s.update_position(&up);
        let v = s.speed();
        assert!(v.x * v.x + v.y * v.y <= UNIT * UNIT);
    }
    assert_eq!(s.speed(), Vec2::new(0, -999_000));
    assert_eq!(s.position(), Vec2::new(400_000_000, 9_407_655));
}

#[test]
fn the_ship_flies_askew_brakes_and_coasts() {
    let mut s = Spaceship::new(&view());
    let askew = helm(600_000, 800_000);
    s.apply_thrust(THRUST_FORWARD);
    for _ in 0..300 {
        s.update_position(&askew);
    }
    assert_eq!(s.speed(), Vec2::new(599_399, 799_200));
    assert_eq!(s.position(), Vec2::new(515_749_644, 454_336_924));
    s.apply_thrust(THRUST_REVERSE);
    s.update_position(&askew);
    assert_eq!(s.speed(), Vec2::new(597_301, 796_402));
    assert_eq!(s.position(), Vec2::new(516_346_945, 455_133_326));
    s.update_position(&askew);
    s.update_position(&askew);
    assert_eq!(s.speed(), Vec2::new(593_111, 790_815));
    assert_eq!(s.position(), Vec2::new(517_535_261, 456_717_748));
    s.apply_thrust(0);
    s.update_position(&askew);
    assert_eq!(s.speed(), Vec2::new(592_517, 790_024));
    s.update_position(&askew);
    assert_eq!(s.speed(), Vec2::new(591_924, 789_233));
    assert_eq!(s.position(), Vec2::new(518_719_702, 458_297_005));
}

#[test]
fn the_ship_comes_back_where_it_leaves_the_viewport() {
    let small = Viewport::new(60 * UNIT, 60 * UNIT).unwrap();
    let mut s = Spaceship::new(&small);
    s.apply_thrust(THRUST_FORWARD);
    let up = Helm { viewport: small, heading: dir(0, -UNIT) };
    let mut wrapped = false;
    let mut last = s.position().y;
    for _ in 0..2000 {
        s.update_position(&up);
        let y = s.position().y;
        assert!(0 <= y && y <= 61 * UNIT);
        if y > last {
            // it left at the top: below zero the coordinate becomes max - coord
            assert_eq!(y, 60 * UNIT - (last + s.speed().y));
            wrapped = true;
        }
        last = y;
    }
    assert!(wrapped);
}

#[test]
fn the_ship_fires_from_the_tip_of_its_nose() {
    let s = Spaceship::new(&view());
    let m = s.fire(dir(0, -UNIT));
    assert_eq!(m.position(), Vec2::new(400 * UNIT, 270 * UNIT));
    assert_eq!(m.velocity(), Vec2::new(0, -5 * UNIT));
    assert_eq!(m.radius(), 3 * UNIT);
    let m = s.fire(dir(600_000, 800_000));
    assert_eq!(m.position(), Vec2::new(418 * UNIT, 324 * UNIT));
    assert_eq!(m.velocity(), Vec2::new(3 * UNIT, 4 * UNIT));
    let m = s.fire(dir(-707_107, 707_107));
    assert_eq!(m.position(), Vec2::new(400 * UNIT - 21_213_210, 300 * UNIT + 21_213_210));
}

#[test]
fn the_shield_takes_two_hits() {
    let mut s = Spaceship::new(&view());
    assert!(s.hit(5_000));
    assert_eq!(s.shield(), 1);
    assert!(s.invincible());
    assert!(s.hit(5_100));
    assert_eq!(s.shield(), 0);
    assert!(s.invincible());
    assert!(!s.hit(5_200));
    assert_eq!(s.shield(), 0);
}

#[test]
fn invincibility_lasts_one_second() {
    let mut s = Spaceship::new(&view());
    s.expire_invincibility(10_000);
    assert!(!s.invincible());
    s.hit(5_000);
    s.expire_invincibility(5_000);
    assert!(s.invincible());
    s.expire_invincibility(5_999);
    assert!(s.invincible());
    // a clock that runs backward ends nothing
    s.expire_invincibility(0);
    assert!(s.invincible());
    s.expire_invincibility(6_000);
    assert!(!s.invincible());
    assert_eq!(s.shield(), 1);
    s.hit(u64::MAX);
    s.expire_invincibility(u64::MAX);
    assert!(s.invincible());
}

#[test]
fn the_ship_follows_the_rule_on_real_numbers_closely() {
    // the same flight on floating-point numbers: thrust along the heading,
    // the cap at one unit per frame, friction, the move and the way back
    // into the viewport
    let v = view();
    let mut ship = Spaceship::new(&v);
    let (mut px, mut py, mut vx, mut vy) = (400.0_f64, 300.0_f64, 0.0_f64, 0.0_f64);
    for frame in 0..600 {
        if frame < 150 {
            ship.turn_right();
        }
        let thrust = if frame < 400 { THRUST_FORWARD } else { THRUST_REVERSE };
        ship.apply_thrust(thrust);
        let angle = ship.angle() as f64 / UNIT as f64;
        let heading = dir(
            (angle.cos() * UNIT as f64).round() as i64,
            (angle.sin() * UNIT as f64).round() as i64,
        );
        ship.update_position(&Helm { viewport: v, heading });

        vx += thrust as f64 / UNIT as f64 * angle.cos();
        vy += thrust as f64 / UNIT as f64 * angle.sin();
        let length = vx.hypot(vy);
        if length > 1.0 {
            vx /= length;
            vy /= length;
        }
        vx *= 0.999;
        vy *= 0.999;
        px = wrap(px + vx, 800.0);
        py = wrap(py + vy, 600.0);

        let at = ship.position();
        assert!((at.x as f64 / UNIT as f64 - px).abs() < 0.1);
        assert!((at.y as f64 / UNIT as f64 - py).abs() < 0.1);
        let speed = ship.speed();
        assert!((speed.x as f64 / UNIT as f64 - vx).abs() < 0.001);
        assert!((speed.y as f64 / UNIT as f64 - vy).abs() < 0.001);
    }
}
