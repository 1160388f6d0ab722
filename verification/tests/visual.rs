use flow_field::grid::Position;
use flow_field::visual::{
    blue, circle, green, radius, red, square, Circle, BLUE_CEILING, RADIUS_FACTOR, RED_FLOOR, UNIT,
};

fn as_number(v: i64) -> f64 {
    v as f64 / UNIT as f64
}

#[test]
fn colour_of_one_half() {
    let s = UNIT / 2;
    assert_eq!(square(s), 250_000);
    assert_eq!(red(s), 750_000);
    assert_eq!(green(s), 250_000);
    assert_eq!(blue(s), 250_000);
    assert_eq!(as_number(red(s)), 0.75);
    assert_eq!(as_number(green(s)), 0.25);
    assert_eq!(as_number(blue(s)), 0.25);
}

#[test]
fn colour_of_zero_is_pure_red() {
    assert_eq!((red(0), green(0), blue(0)), (UNIT, 0, 0));
}

#[test]
fn colour_of_one() {
    assert_eq!(square(UNIT), UNIT as i128);
    assert_eq!((red(UNIT), green(UNIT), blue(UNIT)), (RED_FLOOR, UNIT, BLUE_CEILING));
}

#[test]
fn colour_follows_the_square_not_the_value() {
    let s = 900_000;
    assert_eq!(square(s), 810_000);
    assert_eq!(red(s), 600_000);
    assert_eq!(green(s), 810_000);
    assert_eq!(blue(s), 600_000);
    let s = 100_000;
    assert_eq!(square(s), 10_000);
    assert_eq!(red(s), 990_000);
    assert_eq!(green(s), 10_000);
    assert_eq!(blue(s), 10_000);
}

#[test]
fn square_rounds_down() {
    assert_eq!(square(1), 0);
    assert_eq!(square(999), 0);
    assert_eq!(square(1_000), 1);
    assert_eq!(square(1_999), 3);
    assert_eq!(square(-1_999), 3);
}

#[test]
fn red_meets_its_floor_where_the_square_passes_four_tenths() {
    assert_eq!(red(632_455), 600_001);
    assert_eq!(red(632_456), 600_000);
    assert_eq!(red(700_000), 600_000);
}

#[test]
fn blue_meets_its_ceiling_where_the_square_passes_six_tenths() {
    assert_eq!(blue(774_596), 599_998);
    assert_eq!(blue(774_597), 600_000);
    assert_eq!(green(774_597), 600_000);
    assert_eq!(blue(800_000), 600_000);
    assert_eq!(green(800_000), 640_000);
}

#[test]
fn channels_are_clamped_one_by_one() {
    let s = 2 * UNIT;
    assert_eq!(square(s), 4 * UNIT as i128);
    assert_eq!(red(s), RED_FLOOR);
    assert_eq!(green(s), UNIT);
    assert_eq!(blue(s), BLUE_CEILING);
}

#[test]
fn colour_of_a_negative_magnitude_is_that_of_its_size() {
    for s in [1, 250_000, 500_000, 1_000_000, 3_000_000] {
        assert_eq!(red(-s), red(s));
        assert_eq!(green(-s), green(s));
        assert_eq!(blue(-s), blue(s));
    }
}

#[test]
fn colour_of_the_extremes_is_held_to_the_bounds() {
    for s in [i64::MAX, i64::MIN, i64::MIN + 1] {
        assert_eq!(red(s), RED_FLOOR);
        assert_eq!(green(s), UNIT);
        assert_eq!(blue(s), BLUE_CEILING);
    }
    assert_eq!(square(i64::MIN), (1i128 << 126) / 1_000_000);
}

#[test]
fn channels_stay_in_their_ranges() {
    let mut s: i64 = -3_000_000;
    while s <= 3_000_000 {
        assert!(RED_FLOOR <= red(s) && red(s) <= UNIT);
        assert!(0 <= green(s) && green(s) <= UNIT);
        assert!(0 <= blue(s) && blue(s) <= BLUE_CEILING);
        s += 12_345;
    }
}

#[test]
fn radius_is_eight_times_the_size() {
    assert_eq!(RADIUS_FACTOR, 8);
    assert_eq!(radius(0), 0);
    assert_eq!(radius(1), 8);
    assert_eq!(radius(UNIT / 2), 4 * UNIT);
    assert_eq!(radius(UNIT), 8 * UNIT);
    assert_eq!(as_number(radius(UNIT / 4)), 2.0);
}

#[test]
fn radius_of_a_negative_magnitude_is_not_negative() {
    assert_eq!(radius(-1), 8);
    assert_eq!(radius(-UNIT), 8 * UNIT);
    assert_eq!(radius(-750_000), 6_000_000);
}

#[test]
fn radius_is_held_to_64_bits() {
    assert_eq!(radius(i64::MAX / 8), i64::MAX - 7);
    assert_eq!(radius(i64::MAX / 8 + 1), i64::MAX);
    assert_eq!(radius(i64::MAX), i64::MAX);
    assert_eq!(radius(i64::MIN), i64::MAX);
    assert_eq!(radius(-(i64::MAX / 8)), i64::MAX - 7);
}

#[test]
fn radius_grows_with_the_size() {
    let sizes = [0, 1, 2, 999, UNIT, 5 * UNIT, i64::MAX / 8, i64::MAX / 2, i64::MAX];
    for pair in sizes.windows(2) {
        assert!(radius(pair[0]) <= radius(pair[1]));
        assert!(radius(-pair[0]) <= radius(-pair[1]));
    }
}

#[test]
fn circle_sits_on_its_point() {
    let c = circle(Position { x: -26, y: 39 }, UNIT / 2);
    assert_eq!(
        c,
        Circle { x: -26, y: 39, radius: 4_000_000, red: 750_000, green: 250_000, blue: 250_000 }
    );
}

#[test]
fn circle_of_zero_is_a_red_dot_of_no_size() {
    let c = circle(Position { x: 0, y: 0 }, 0);
    assert_eq!(c, Circle { x: 0, y: 0, radius: 0, red: UNIT, green: 0, blue: 0 });
}
