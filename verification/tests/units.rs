use hover_arena::shared::units::{
    clamp, integer_root, minus, negate, plus, times, Vec3, MICRO,
};

#[test]
fn times_multiplies_whole_numbers() {
    assert_eq!(times(3 * MICRO, 4 * MICRO), 12 * MICRO);
    assert_eq!(times(-3 * MICRO, 4 * MICRO), -12 * MICRO);
}

#[test]
fn times_rounds_toward_zero() {
    // 0.000001 * 0.5 is below one step and vanishes, whatever its sign.
    assert_eq!(times(1, 500_000), 0);
    assert_eq!(times(-1, 500_000), 0);
    assert_eq!(times(3, 500_000), 1);
    assert_eq!(times(-3, 500_000), -1);
}

#[test]
fn times_saturates() {
    assert_eq!(times(i64::MAX, 2 * MICRO), i64::MAX);
    assert_eq!(times(i64::MIN, 2 * MICRO), i64::MIN);
    assert_eq!(times(i64::MIN, -2 * MICRO), i64::MAX);
}

#[test]
fn plus_and_minus_saturate() {
    assert_eq!(plus(i64::MAX, 1), i64::MAX);
    assert_eq!(plus(i64::MIN, -1), i64::MIN);
    assert_eq!(minus(i64::MIN, 1), i64::MIN);
    assert_eq!(minus(5, 7), -2);
    assert_eq!(plus(5, 7), 12);
}

#[test]
fn negate_saturates_only_at_the_smallest() {
    assert_eq!(negate(i64::MIN), i64::MAX);
    assert_eq!(negate(7), -7);
    assert_eq!(negate(-7), 7);
}

#[test]
fn clamp_holds_within_bounds() {
    assert_eq!(clamp(5, 0, 3), 3);
    assert_eq!(clamp(-5, 0, 3), 0);
    assert_eq!(clamp(2, 0, 3), 2);
}

#[test]
fn integer_root_is_the_floor_of_the_square_root() {
    assert_eq!(integer_root(0), 0);
    assert_eq!(integer_root(1), 1);
    assert_eq!(integer_root(15), 3);
    assert_eq!(integer_root(16), 4);
    assert_eq!(integer_root(17), 4);
    assert_eq!(integer_root(u128::MAX), u64::MAX);
}

#[test]
fn vectors_add_scale_and_negate() {
    let a = Vec3::new(1 * MICRO, 2 * MICRO, 3 * MICRO);
    let b = Vec3::new(10, 20, 30);
    assert_eq!(a.plus(b), Vec3::new(1_000_010, 2_000_020, 3_000_030));
    assert_eq!(a.minus(b), Vec3::new(999_990, 1_999_980, 2_999_970));
    assert_eq!(a.scale(2 * MICRO), Vec3::new(2 * MICRO, 4 * MICRO, 6 * MICRO));
    assert_eq!(a.negate(), Vec3::new(-MICRO, -2 * MICRO, -3 * MICRO));
    assert!(Vec3::zeros().is_zero());
    assert!(!a.is_zero());
}

#[test]
fn normalize_brings_a_vector_to_length_one() {
    let v = Vec3::new(3 * MICRO, 0, 4 * MICRO);
    assert_eq!(v.magnitude_squared(), 25_000_000_000_000);
    assert_eq!(v.normalize(), Vec3::new(600_000, 0, 800_000));
    let w = Vec3::new(0, -7, 0);
    assert_eq!(w.normalize(), Vec3::new(0, -MICRO, 0));
}

#[test]
fn normalize_leaves_the_zero_vector() {
    assert_eq!(Vec3::zeros().normalize(), Vec3::zeros());
}

#[test]
fn normalize_copes_with_the_largest_components() {
    let v = Vec3::new(i64::MIN, i64::MIN, i64::MIN);
    let n = v.normalize();
    // 1 / sqrt(3) is 0.577350..., rounded toward zero.
    assert_eq!(n, Vec3::new(-577_350, -577_350, -577_350));
}
