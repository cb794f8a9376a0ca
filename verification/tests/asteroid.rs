use asteroids::asteroid::{Asteroid, ASTEROID_TAILLE, FULL_TURN};
use asteroids::fixed::UNIT;
use asteroids::stellarobject::StellarObject;
use asteroids::vector::{Direction, Vec2, Viewport, POSITION_LIMIT};

fn dir(x: i64, y: i64) -> Direction {
    Direction::new(x, y).unwrap()
}

fn view() -> Viewport {
    Viewport::new(800 * UNIT, 600 * UNIT).unwrap()
}

fn rock(radius: i64, x: i64, y: i64, heading: Direction) -> Asteroid {
    Asteroid::place(radius, Vec2::new(x, y), heading).unwrap()
}

#[test]
fn the_three_sizes() {
    assert_eq!(ASTEROID_TAILLE, 60 * UNIT);
    assert_eq!(Asteroid::tier_radius(1), 15 * UNIT);
    assert_eq!(Asteroid::tier_radius(2), 30 * UNIT);
    assert_eq!(Asteroid::tier_radius(3), 60 * UNIT);
    assert_eq!(Asteroid::tier_radius(0), 60 * UNIT);
    assert_eq!(Asteroid::tier_radius(-7), 60 * UNIT);
}

#[test]
fn edge_positions_by_side() {
    let v = view();
    let free = Vec2::new(123 * UNIT, 456 * UNIT);
    let near = 40 * UNIT;
    assert_eq!(Asteroid::edge_pos(&v, 1, near, free), Vec2::new(123 * UNIT, 40 * UNIT));
    assert_eq!(Asteroid::edge_pos(&v, 2, near, free), Vec2::new(760 * UNIT, 456 * UNIT));
    assert_eq!(Asteroid::edge_pos(&v, 3, near, free), Vec2::new(123 * UNIT, 560 * UNIT));
    assert_eq!(Asteroid::edge_pos(&v, 4, near, free), Vec2::new(40 * UNIT, 456 * UNIT));
    // any other side leaves both coordinates free
    assert_eq!(Asteroid::edge_pos(&v, 9, near, free), free);
}

#[test]
fn place_takes_the_three_sizes_only() {
    let d = dir(UNIT, 0);
    let p = Vec2::new(100 * UNIT, 100 * UNIT);
    assert!(Asteroid::place(15 * UNIT, p, d).is_some());
    assert!(Asteroid::place(30 * UNIT, p, d).is_some());
    assert!(Asteroid::place(60 * UNIT, p, d).is_some());
    assert!(Asteroid::place(UNIT, p, d).is_none());
    assert!(Asteroid::place(0, p, d).is_none());
    assert!(Asteroid::place(-15 * UNIT, p, d).is_none());
    assert!(Asteroid::place(45 * UNIT, p, d).is_none());
    assert!(Asteroid::place(120 * UNIT, p, d).is_none());
}

#[test]
fn place_keeps_what_it_is_given() {
    let a = rock(30 * UNIT, 12 * UNIT, 34 * UNIT, dir(600_000, -800_000));
    assert_eq!(a.radius(), 30 * UNIT);
    assert_eq!(a.position(), Vec2::new(12 * UNIT, 34 * UNIT));
    assert_eq!(a.speed(), Vec2::new(600_000, -800_000));
}

#[test]
fn place_wants_the_position_in_or_near_the_largest_viewport() {
    let d = dir(UNIT, 0);
    // the largest size has no slack at all
    assert!(Asteroid::place(60 * UNIT, Vec2::new(0, 0), d).is_some());
    assert!(Asteroid::place(60 * UNIT, Vec2::new(-1, 0), d).is_none());
    assert!(Asteroid::place(60 * UNIT, Vec2::new(POSITION_LIMIT, POSITION_LIMIT), d).is_some());
    assert!(Asteroid::place(60 * UNIT, Vec2::new(POSITION_LIMIT + 1, 0), d).is_none());
    assert!(Asteroid::place(60 * UNIT, Vec2::new(0, POSITION_LIMIT + 1), d).is_none());
    // the smaller ones may lie as far out as pieces are set off
    assert!(Asteroid::place(30 * UNIT, Vec2::new(-30 * UNIT, 0), d).is_some());
    assert!(Asteroid::place(30 * UNIT, Vec2::new(-30 * UNIT - 1, 0), d).is_none());
    assert!(Asteroid::place(15 * UNIT, Vec2::new(0, -45 * UNIT), d).is_some());
    assert!(Asteroid::place(15 * UNIT, Vec2::new(0, -45 * UNIT - 1), d).is_none());
    assert!(Asteroid::place(15 * UNIT, Vec2::new(POSITION_LIMIT + 45 * UNIT, 0), d).is_some());
    assert!(Asteroid::place(15 * UNIT, Vec2::new(POSITION_LIMIT + 45 * UNIT + 1, 0), d).is_none());
    assert!(Asteroid::place(15 * UNIT, Vec2::new(i64::MIN, i64::MAX), d).is_none());
}

#[test]
fn splitting_ends_after_two_generations() {
    let heading = dir(0, UNIT);
    let big = rock(60 * UNIT, 400 * UNIT, 300 * UNIT, dir(UNIT, 0));
    let halves = big.split(heading);
    assert_eq!(halves.len(), 2);
    for half in &halves {
        assert_eq!(half.radius(), 30 * UNIT);
        let quarters = half.split(heading);
        assert_eq!(quarters.len(), 2);
        for quarter in &quarters {
            assert_eq!(quarter.radius(), 15 * UNIT);
            assert!(quarter.split(heading).is_empty());
        }
    }
}

#[test]
fn split_gives_two_pieces_or_none() {
    let d = dir(UNIT, 0);
    assert_eq!(rock(60 * UNIT, 400 * UNIT, 300 * UNIT, d).split(d).len(), 2);
    assert_eq!(rock(30 * UNIT, 400 * UNIT, 300 * UNIT, d).split(d).len(), 2);
    assert_eq!(rock(15 * UNIT, 400 * UNIT, 300 * UNIT, d).split(d).len(), 0);
}

#[test]
fn split_sets_the_pieces_off_to_either_side() {
    let big = rock(60 * UNIT, 400 * UNIT, 300 * UNIT, dir(UNIT, 0));
    let halves = big.split(dir(0, UNIT));
    assert_eq!(halves[0].position(), Vec2::new(415 * UNIT, 300 * UNIT));
    assert_eq!(halves[1].position(), Vec2::new(385 * UNIT, 300 * UNIT));
    let quarters = halves[0].split(dir(0, UNIT));
    assert_eq!(quarters[0].position(), Vec2::new(422_500_000, 300 * UNIT));
    assert_eq!(quarters[1].position(), Vec2::new(407_500_000, 300 * UNIT));
}

#[test]
fn split_sends_the_pieces_off_at_right_angles() {
    let big = rock(60 * UNIT, 400 * UNIT, 300 * UNIT, dir(UNIT, 0));
    let halves = big.split(dir(0, UNIT));
    assert_eq!(halves[0].speed(), Vec2::new(0, UNIT));
    assert_eq!(halves[1].speed(), Vec2::new(-UNIT, 0));

    let halves = big.split(dir(600_000, 800_000));
    assert_eq!(halves[0].speed(), Vec2::new(600_000, 800_000));
    assert_eq!(halves[1].speed(), Vec2::new(-800_000, 600_000));
    let a = halves[0].speed();
    let b = halves[1].speed();
    assert_eq!(a.x * b.x + a.y * b.y, 0);
    assert_eq!(a.x * a.x + a.y * a.y, b.x * b.x + b.y * b.y);
}

#[test]
fn split_gives_the_pieces_the_speed_of_the_rock() {
    // this rock is a little slower than one unit per frame: its speed squares
    // to 999_998_400_001, whose root is 999_999 and a bit
    let slow = rock(60 * UNIT, 400 * UNIT, 300 * UNIT, dir(-600_000, -799_999));
    let halves = slow.split(dir(600_000, 800_000));
    assert_eq!(halves[0].speed(), Vec2::new(599_999, 799_999));
    assert_eq!(halves[1].speed(), Vec2::new(-799_999, 599_999));
    // the root of 2 * 707_107^2 is a million and a bit
    let fast = rock(30 * UNIT, 400 * UNIT, 300 * UNIT, dir(707_107, 707_107));
    let quarters = fast.split(dir(0, -UNIT));
    assert_eq!(quarters[0].speed(), Vec2::new(0, -UNIT));
    assert_eq!(quarters[1].speed(), Vec2::new(UNIT, 0));
}

#[test]
fn an_asteroid_drifts_by_its_speed() {
    let v = view();
    let mut a = rock(30 * UNIT, 400 * UNIT, 300 * UNIT, dir(600_000, -800_000));
    a.update_position(&v);
    assert_eq!(a.position(), Vec2::new(400_600_000, 299_200_000));
    a.update_position(&v);
    assert_eq!(a.position(), Vec2::new(401_200_000, 298_400_000));
    assert_eq!(a.radius(), 30 * UNIT);
    assert_eq!(a.speed(), Vec2::new(600_000, -800_000));
}

#[test]
fn an_asteroid_that_leaves_on_the_left_comes_back_beyond_the_right() {
    let v = view();
    let mut a = rock(15 * UNIT, 0, 300 * UNIT, dir(-UNIT, 0));
    a.update_position(&v);
    // below zero the coordinate becomes max - coord
    assert_eq!(a.position(), Vec2::new(801 * UNIT, 300 * UNIT));
    a.update_position(&v);
    assert_eq!(a.position(), Vec2::new(800 * UNIT, 300 * UNIT));
    a.update_position(&v);
    assert_eq!(a.position(), Vec2::new(799 * UNIT, 300 * UNIT));
}

#[test]
fn an_asteroid_that_leaves_at_the_bottom_comes_back_at_the_top() {
    let v = view();
    let mut a = rock(15 * UNIT, 400 * UNIT, 600 * UNIT, dir(0, UNIT));
    a.update_position(&v);
    assert_eq!(a.position(), Vec2::new(400 * UNIT, UNIT));
}

#[test]
fn drawn_radii_are_of_the_three_sizes_and_all_of_them_come() {
    let mut seen = [false; 3];
    for _ in 0..2000 {
        let r = Asteroid::new_alea_radius();
        if r == 15 * UNIT {
            seen[0] = true;
        } else if r == 30 * UNIT {
            seen[1] = true;
        } else if r == 60 * UNIT {
            seen[2] = true;
        } else {
            panic!("a radius of no size: {}", r);
        }
    }
    assert_eq!(seen, [true, true, true]);
}

#[test]
fn drawn_positions_lie_near_a_side_of_the_viewport() {
    let v = view();
    let (w, h) = (v.width(), v.height());
    let mut sides = [false; 4];
    for _ in 0..2000 {
        let p = Asteroid::new_alea_pos(&v);
        assert!(0 <= p.x && p.x <= w && 0 <= p.y && p.y <= h);
        let band = |c: i64| 30 * UNIT <= c && c <= 60 * UNIT;
        let near = [band(p.y), band(w - p.x), band(h - p.y), band(p.x)];
        assert!(near.iter().any(|&b| b));
        for i in 0..4 {
            sides[i] = sides[i] || near[i];
        }
    }
    assert_eq!(sides, [true, true, true, true]);
}

#[test]
fn drawn_angles_lie_in_the_full_turn_and_differ() {
    assert_eq!(FULL_TURN, 6_283_185);
    let first = Asteroid::new_alea_angle();
    let mut differs = false;
    for _ in 0..200 {
        let a = Asteroid::new_alea_angle();
        assert!(0 <= a && a <= FULL_TURN);
        differs = differs || a != first;
        let s = Asteroid::new_alea_split_angle();
        assert!(0 <= s && s < FULL_TURN);
    }
    assert!(differs);
}

#[test]
fn a_new_asteroid_flies_along_its_heading_from_the_edge() {
    let v = view();
    for _ in 0..200 {
        let a = Asteroid::new(&v, dir(600_000, 800_000));
        assert_eq!(a.speed(), Vec2::new(600_000, 800_000));
        let r = a.radius();
        assert!(r == 15 * UNIT || r == 30 * UNIT || r == 60 * UNIT);
        let p = a.position();
        assert!(0 <= p.x && p.x <= v.width() && 0 <= p.y && p.y <= v.height());
    }
}

#[test]
fn generate_asteroid_makes_one_asteroid_for_each_heading() {
    let v = view();
    let headings = vec![dir(UNIT, 0), dir(0, UNIT), dir(-UNIT, 0), dir(600_000, 800_000)];
    let rocks = Asteroid::generate_asteroid(&v, &headings);
    assert_eq!(rocks.len(), 4);
    for (rock, heading) in rocks.iter().zip(headings.iter()) {
        assert_eq!(rock.speed(), Vec2::new(heading.x(), heading.y()));
    }
    assert!(Asteroid::generate_asteroid(&v, &Vec::new()).is_empty());
}

fn toward(centiradians: i64) -> Direction {
    let angle = centiradians as f64 / 100.0;
    dir((angle.cos() * UNIT as f64).round() as i64, (angle.sin() * UNIT as f64).round() as i64)
}

fn square(v: Vec2) -> i64 {
    v.x * v.x + v.y * v.y
}

#[test]
fn pieces_fly_at_unit_speed_and_at_right_angles_whatever_the_headings() {
    let mut turn = 0;
    while turn < 629 {
        let parent = rock(60 * UNIT, 400 * UNIT, 300 * UNIT, toward(turn));
        let halves = parent.split(toward((turn * 7 + 13) % 629));
        let quarters = halves[1].split(toward((turn * 11 + 5) % 629));
        for pair in [&halves, &quarters] {
            let (a, b) = (pair[0].speed(), pair[1].speed());
            assert_eq!(a.x * b.x + a.y * b.y, 0);
            assert_eq!(square(a), square(b));
            assert_eq!((b.x, b.y), (-a.y, a.x));
        }
        // each split rounds once more: the square of the speed stays within
        // two millionths of a unit above, and two and eight per split below
        let whole = UNIT * UNIT;
        assert!((square(parent.speed()) - whole).abs() <= 2 * UNIT);
        assert!(square(halves[0].speed()) <= whole + 2 * UNIT);
        assert!(square(halves[0].speed()) >= square(parent.speed()) - 8 * UNIT);
        assert!(square(quarters[0].speed()) <= whole + 2 * UNIT);
        assert!(square(quarters[0].speed()) >= square(halves[1].speed()) - 8 * UNIT);
        assert!(square(quarters[0].speed()) >= whole - 18 * UNIT);
        turn += 1;
    }
}
