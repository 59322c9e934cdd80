use pong::ball::{reset_ball, respawn, Rolls, BALL_HORIZONTAL_SPEED};
use pong::fixed::{Fixed, ONE};
use pong::model::model;
use pong::vect::Vect;

fn rolls(x_direction: i16, y_direction: i16, y_scalar: u32) -> Rolls {
    Rolls { x_direction, y_direction, y_scalar }
}

#[test]
fn horizontal_speed_is_three_pixels() {
    assert_eq!(BALL_HORIZONTAL_SPEED, 3 * ONE);
}

#[test]
fn fresh_ball_is_at_the_centre() {
    assert_eq!(respawn(rolls(0, 0, 0)).0, Vect::from_ints(0, 0));
    assert_eq!(respawn(rolls(1, 1, u32::MAX)).0, Vect::from_ints(0, 0));
    assert_eq!(respawn(rolls(-7, 12, 123_456_789)).0, Vect::from_ints(0, 0));
}

#[test]
fn even_rolls_point_right_and_up() {
    let (_, v) = respawn(rolls(0, 0, 0x8000_0000));
    assert_eq!(v.0.raw(), 3 * ONE);
    assert_eq!(v.1.raw(), 3 * ONE / 2);
    let (_, v) = respawn(rolls(-2, i16::MIN, 0x4000_0000));
    assert_eq!(v.0.raw(), 3 * ONE);
    assert_eq!(v.1.raw(), 3 * ONE / 4);
}

#[test]
fn odd_rolls_point_left_and_down() {
    let (_, v) = respawn(rolls(1, 1, 0x8000_0000));
    assert_eq!(v.0.raw(), -3 * ONE);
    assert_eq!(v.1.raw(), -3 * ONE / 2);
    let (_, v) = respawn(rolls(-1, i16::MAX, 0x4000_0000));
    assert_eq!(v.0.raw(), -3 * ONE);
    assert_eq!(v.1.raw(), -3 * ONE / 4);
}

#[test]
fn directions_are_rolled_separately() {
    let (_, v) = respawn(rolls(3, 2, 0x8000_0000));
    assert_eq!(v, Vect(Fixed::from_raw(-3 * ONE), Fixed::from_raw(3 * ONE / 2)));
    let (_, v) = respawn(rolls(2, 3, 0x8000_0000));
    assert_eq!(v, Vect(Fixed::from_raw(3 * ONE), Fixed::from_raw(-3 * ONE / 2)));
}

#[test]
fn vertical_speed_uses_the_upper_24_bits() {
    assert_eq!(respawn(rolls(0, 0, 0)).1 .1.raw(), 0);
    assert_eq!(respawn(rolls(0, 0, 255)).1 .1.raw(), 0);
    assert_eq!(respawn(rolls(0, 0, 256)).1 .1.raw(), 3);
    assert_eq!(respawn(rolls(0, 1, 256)).1 .1.raw(), -3);
    assert_eq!(respawn(rolls(0, 0, 0x0001_0000)).1 .1.raw(), 3 * 256);
}

#[test]
fn vertical_speed_stays_below_horizontal_speed() {
    let (_, v) = respawn(rolls(0, 0, u32::MAX));
    assert_eq!(v.1.raw(), 3 * (ONE - 1));
    assert!(v.1.raw() < BALL_HORIZONTAL_SPEED);
    let (_, v) = respawn(rolls(0, 1, u32::MAX));
    assert_eq!(v.1.raw(), -3 * (ONE - 1));
    assert!(v.1.raw() > -BALL_HORIZONTAL_SPEED);
}

#[test]
fn vertical_speed_is_the_fraction_of_horizontal_speed() {
    let samples: [u32; 6] = [0, 1 << 8, 0x1234_5678, 0x8000_0000, 0xdead_beef, u32::MAX];
    for bits in samples {
        let fraction = (bits >> 8) as f64 / 16_777_216.0;
        let expected = 3.0 * fraction;
        let (_, v) = respawn(rolls(0, 0, bits));
        assert_eq!(v.1.raw() as f64 / ONE as f64, expected);
        assert!((0.0..1.0).contains(&fraction));
    }
}

#[test]
fn generator_gives_a_ball_at_the_centre_with_bounded_speed() {
    let mut rng = rand::thread_rng();
    for _ in 0..1000 {
        let (pos, v) = reset_ball(&mut rng);
        assert_eq!(pos, Vect::from_ints(0, 0));
        assert_eq!(v.0.raw().abs(), BALL_HORIZONTAL_SPEED);
        assert!(v.1.raw().abs() < BALL_HORIZONTAL_SPEED);
        assert_eq!(v.1.raw() % 3, 0);
    }
}

#[test]
fn generator_gives_every_direction() {
    let mut rng = rand::thread_rng();
    let (mut left, mut right, mut up, mut down) = (false, false, false, false);
    for _ in 0..1000 {
        let (_, v) = reset_ball(&mut rng);
        left |= v.0.raw() < 0;
        right |= v.0.raw() > 0;
        up |= v.1.raw() > 0;
        down |= v.1.raw() < 0;
    }
    assert!(left && right && up && down);
}

#[test]
fn generator_gives_different_speeds() {
    let mut rng = rand::thread_rng();
    let (_, first) = reset_ball(&mut rng);
    let mut differs = false;
    for _ in 0..1000 {
        let (_, v) = reset_ball(&mut rng);
        differs |= v.1 != first.1;
    }
    assert!(differs);
}

#[test]
fn new_game_starts_at_rest_with_a_fresh_ball() {
    let m = model();
    assert_eq!(m.p1_score, 0);
    assert_eq!(m.p2_score, 0);
    assert_eq!(m.p1_pos, Vect::from_ints(-400, 0));
    assert_eq!(m.p2_pos, Vect::from_ints(400, 0));
    assert_eq!(m.p1_v, Vect::from_ints(0, 0));
    assert_eq!(m.p2_v, Vect::from_ints(0, 0));
    assert!(!m.up_pressed && !m.down_pressed && !m.w_pressed && !m.s_pressed);
    assert_eq!(m.ball_pos, Vect::from_ints(0, 0));
    assert_eq!(m.ball_v.0.raw().abs(), BALL_HORIZONTAL_SPEED);
    assert!(m.ball_v.1.raw().abs() < BALL_HORIZONTAL_SPEED);
}
