//! Exact-value tests for the fixed-point geometry the controller is built
//! on, including the extremes of the accepted coordinate range.

use destination_steering::target::Target;
use destination_steering::target::TranslationEffect;
use destination_steering::vec3::{cross, diff, distance_squared, Vec3I, COORD_LIMIT};

fn v(x: i64, y: i64, z: i64) -> Vec3I {
    Vec3I { x, y, z }
}

#[test]
fn diff_is_componentwise() {
    assert_eq!(diff(v(5, 7, -9), v(1, -2, 3)), v(4, 9, -12));
    assert_eq!(diff(v(0, 0, 0), v(0, 0, 0)), v(0, 0, 0));
    assert_eq!(
        diff(v(COORD_LIMIT, COORD_LIMIT, COORD_LIMIT), v(-COORD_LIMIT, -COORD_LIMIT, -COORD_LIMIT)),
        v(2 * COORD_LIMIT, 2 * COORD_LIMIT, 2 * COORD_LIMIT)
    );
}

#[test]
fn distance_squared_is_exact() {
    assert_eq!(distance_squared(v(0, 0, 0), v(3, 4, 0)), 25);
    assert_eq!(distance_squared(v(1, 2, 3), v(1, 2, 3)), 0);
    assert_eq!(distance_squared(v(0, 0, 0), v(5000, 500, 0)), 25_250_000);
    // The largest value the accepted range can produce: 3 * (2^31)^2.
    assert_eq!(
        distance_squared(
            v(COORD_LIMIT, COORD_LIMIT, COORD_LIMIT),
            v(-COORD_LIMIT, -COORD_LIMIT, -COORD_LIMIT)
        ),
        13_835_058_055_282_163_712u64
    );
}

#[test]
fn cross_product_is_exact() {
    // Unit-axis identities, at scale 1000.
    assert_eq!(cross(v(1000, 0, 0), v(0, 1000, 0)), v(0, 0, 1_000_000));
    assert_eq!(cross(v(0, 1000, 0), v(1000, 0, 0)), v(0, 0, -1_000_000));
    // Parallel vectors have no rotation axis.
    assert_eq!(cross(v(1000, 0, 0), v(2000, 0, 0)), v(0, 0, 0));
    // A general pair.
    assert_eq!(cross(v(1, 2, 3), v(4, 5, 6)), v(-3, 6, -3));
}

#[test]
fn controller_accepts_extreme_coordinates() {
    let a = v(-COORD_LIMIT, -COORD_LIMIT, -COORD_LIMIT);
    let b = v(COORD_LIMIT, COORD_LIMIT, COORD_LIMIT);
    let mut t = Target::new(a, b);
    let e = t.get_translation_effect(a, 6000);
    assert_eq!(
        e,
        TranslationEffect::LinearVelocity(
            v(2 * COORD_LIMIT, 2 * COORD_LIMIT, 2 * COORD_LIMIT),
            6000
        )
    );

    // At the largest possible speed, one tick's travel spans the whole
    // space: 14400 * dist^2 <= speed^2 holds, compared exactly in u128.
    let mut t = Target::new(a, b);
    let e = t.get_translation_effect(a, i64::MAX);
    assert_eq!(e, TranslationEffect::FinalTranslationFix(b));
}
