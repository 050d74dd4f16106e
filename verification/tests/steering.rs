//! Behavioral tests for the steering controller, on concrete fixed-point
//! values (scale 1000: a coordinate of 5000 is 5.0 world units).

use destination_steering::destination::{
    move_to_destination, Destination, DestinationSpeed, DEFAULT_ROTATION_SPEED_VALUE,
    DEFAULT_SPEED_VALUE,
};
use destination_steering::target::{RotationEffect, Target, TranslationEffect};
use destination_steering::vec3::Vec3I;

fn v(x: i64, y: i64, z: i64) -> Vec3I {
    Vec3I { x, y, z }
}

#[test]
fn zero_length_destination_is_reached() {
    for p in [v(0, 0, 0), v(5000, 500, 0), v(-123, 456, -789)] {
        let d = Destination::new(p, p);
        assert!(matches!(d, Destination::Reached));
    }
}

#[test]
fn nonzero_destination_is_active() {
    let d = Destination::new(v(0, 0, 0), v(1, 0, 0));
    assert!(matches!(d, Destination::Target(_)));
}

#[test]
fn concrete_scenario_linear_velocity() {
    // Origin (0,0,0), target (5, 0.5, 0), linear speed 6.0: threshold 0.05,
    // starting remaining distance ~5.025. Until within 0.05 of the target,
    // every tick commands the segment direction at speed 6.0.
    let origin = v(0, 0, 0);
    let target_p = v(5000, 500, 0);
    let mut t = Target::new(origin, target_p);

    let e = t.get_translation_effect(origin, 6000);
    assert_eq!(e, TranslationEffect::LinearVelocity(v(5000, 500, 0), 6000));

    // Part-way along the segment: still the same command.
    let e = t.get_translation_effect(v(2500, 250, 0), 6000);
    assert_eq!(e, TranslationEffect::LinearVelocity(v(5000, 500, 0), 6000));

    // Within 0.05 of the target (remaining^2 = 25^2 + 2^2 = 629 <= 2500):
    // the exact snap onto the target, then done forever.
    let e = t.get_translation_effect(v(4975, 498, 0), 6000);
    assert_eq!(e, TranslationEffect::FinalTranslationFix(target_p));
    let e = t.get_translation_effect(v(4975, 498, 0), 6000);
    assert_eq!(e, TranslationEffect::DestinationReached);
}

#[test]
fn linear_threshold_boundary_is_exact() {
    // Speed 6.0 -> threshold 0.05 exactly: remaining 0.050 arrives,
    // remaining 0.051 does not.
    let target_p = v(1000, 0, 0);
    let mut t = Target::new(v(0, 0, 0), target_p);
    let e = t.get_translation_effect(v(950, 0, 0), 6000);
    assert_eq!(e, TranslationEffect::FinalTranslationFix(target_p));

    let mut t = Target::new(v(0, 0, 0), target_p);
    let e = t.get_translation_effect(v(949, 0, 0), 6000);
    assert_eq!(e, TranslationEffect::LinearVelocity(v(1000, 0, 0), 6000));
}

#[test]
fn overshoot_terminates_pursuit() {
    // The entity shoots past the target: the moment the measured remaining
    // distance grows, the controller snaps it onto the target instead of
    // chasing on.
    let target_p = v(1000, 0, 0);
    let mut t = Target::new(v(0, 0, 0), target_p);

    let e = t.get_translation_effect(v(0, 0, 0), 6000);
    assert_eq!(e, TranslationEffect::LinearVelocity(v(1000, 0, 0), 6000));

    // Past the target, but closer than the last measurement: keep going.
    let e = t.get_translation_effect(v(1100, 0, 0), 6000);
    assert_eq!(e, TranslationEffect::LinearVelocity(v(1000, 0, 0), 6000));

    // Farther than the last measurement: overshoot detected.
    let e = t.get_translation_effect(v(1200, 0, 0), 6000);
    assert_eq!(e, TranslationEffect::FinalTranslationFix(target_p));
    let e = t.get_translation_effect(v(1300, 0, 0), 6000);
    assert_eq!(e, TranslationEffect::DestinationReached);
}

#[test]
fn monotonic_convergence_within_bounded_ticks() {
    // Following the commanded velocity exactly (0.05 units per tick at
    // speed 6.0) from 6.0 units away reaches the target in 120 ticks and
    // never commands a velocity again after the final fix.
    let target_p = v(6000, 0, 0);
    let mut t = Target::new(v(0, 0, 0), target_p);
    let mut x: i64 = 0;
    let mut velocity_ticks: u32 = 0;
    loop {
        match t.get_translation_effect(v(x, 0, 0), 6000) {
            TranslationEffect::LinearVelocity(direction, speed) => {
                assert_eq!(direction, v(6000, 0, 0));
                assert_eq!(speed, 6000);
                x += 50;
                velocity_ticks += 1;
                assert!(velocity_ticks <= 120, "did not converge within the tick budget");
            }
            TranslationEffect::FinalTranslationFix(p) => {
                assert_eq!(p, target_p);
                break;
            }
            TranslationEffect::DestinationReached => {
                panic!("reported done before any final fix");
            }
        }
    }
    assert_eq!(velocity_ticks, 119);
    // Never oscillates back, wherever the entity is afterwards.
    for x in [6000, 0, 9000] {
        let e = t.get_translation_effect(v(x, 0, 0), 6000);
        assert_eq!(e, TranslationEffect::DestinationReached);
    }
}

#[test]
fn rotation_commands_cross_product_axis() {
    // Facing +Z, goal direction +X: the shortest-arc axis is their cross
    // product (0,0,1000) x (1000,0,0) = (0, 1000000, 0), scaled by the
    // host to unit length times the angular speed.
    let mut t = Target::new(v(0, 0, 0), v(1000, 0, 0));
    let e = t.get_rotation_effect(v(0, 0, 1000), 1571, 18000);
    assert_eq!(
        e,
        RotationEffect::AngularVelocity(v(0, 1_000_000, 0), 18000)
    );
}

#[test]
fn rotation_threshold_boundary_is_exact() {
    // Angular speed 18.0 -> threshold 0.3 rad exactly.
    let mut t = Target::new(v(0, 0, 0), v(1000, 0, 0));
    let e = t.get_rotation_effect(v(0, 0, 1000), 301, 18000);
    assert!(matches!(e, RotationEffect::AngularVelocity(_, _)));
    let e = t.get_rotation_effect(v(0, 0, 1000), 300, 18000);
    assert_eq!(e, RotationEffect::FinalRotationFix(v(1000, 0, 0)));
}

#[test]
fn rotation_done_is_idempotent() {
    // Once RotationDone is returned, every later call returns RotationDone,
    // whatever the transform, angle or speed.
    let mut t = Target::new(v(0, 0, 0), v(1000, 0, 0));
    let e = t.get_rotation_effect(v(0, 0, 1000), 100, 18000);
    assert_eq!(e, RotationEffect::FinalRotationFix(v(1000, 0, 0)));
    let e = t.get_rotation_effect(v(0, 0, 1000), 100, 18000);
    assert_eq!(e, RotationEffect::RotationDone);
    let e = t.get_rotation_effect(v(0, 1000, 0), 3141, 1);
    assert_eq!(e, RotationEffect::RotationDone);
    let e = t.get_rotation_effect(v(-1000, 0, 0), 0, 18000);
    assert_eq!(e, RotationEffect::RotationDone);
}

#[test]
fn set_translation_done_short_circuits() {
    let mut t = Target::new(v(0, 0, 0), v(1000, 0, 0));
    t.set_translation_done();
    let e = t.get_translation_effect(v(0, 0, 0), 6000);
    assert_eq!(e, TranslationEffect::DestinationReached);
}

#[test]
fn independent_completion_retires_only_when_both_done() {
    // Translation completes on the first tick; the destination must stay
    // active until rotation also completes, and retire one tick after both
    // report completion markers.
    let target_p = v(1000, 0, 0);
    let mut d = Destination::new(v(0, 0, 0), target_p);
    let speed = DestinationSpeed { translation: 6000, rotation: 18000 };
    let at_target = v(1000, 0, 0);
    let forward = v(0, 0, 1000);

    // Tick 1: snap onto the target, still turning.
    let effects = move_to_destination(&mut d, at_target, forward, 1571, Some(&speed));
    assert_eq!(
        effects,
        Some((
            RotationEffect::AngularVelocity(v(0, 1_000_000, 0), 18000),
            TranslationEffect::FinalTranslationFix(target_p),
        ))
    );
    assert!(matches!(d, Destination::Target(_)));

    // Tick 2: translation already done, still turning.
    let effects = move_to_destination(&mut d, at_target, forward, 900, Some(&speed));
    assert_eq!(
        effects,
        Some((
            RotationEffect::AngularVelocity(v(0, 1_000_000, 0), 18000),
            TranslationEffect::DestinationReached,
        ))
    );
    assert!(matches!(d, Destination::Target(_)));

    // Tick 3: facing converges, exact correction; not retired yet.
    let effects = move_to_destination(&mut d, at_target, forward, 299, Some(&speed));
    assert_eq!(
        effects,
        Some((
            RotationEffect::FinalRotationFix(target_p),
            TranslationEffect::DestinationReached,
        ))
    );
    assert!(matches!(d, Destination::Target(_)));

    // Tick 4: both report completion; the destination retires.
    let effects = move_to_destination(&mut d, at_target, forward, 299, Some(&speed));
    assert_eq!(
        effects,
        Some((RotationEffect::RotationDone, TranslationEffect::DestinationReached))
    );
    assert!(matches!(d, Destination::Reached));

    // Tick 5: nothing left to do.
    let effects = move_to_destination(&mut d, at_target, forward, 299, Some(&speed));
    assert_eq!(effects, None);
}

#[test]
fn default_speed_is_used_when_unconfigured() {
    assert_eq!(DEFAULT_SPEED_VALUE, 6000);
    assert_eq!(DEFAULT_ROTATION_SPEED_VALUE, 18000);
    assert_eq!(
        DestinationSpeed::default(),
        DestinationSpeed { translation: 6000, rotation: 18000 }
    );

    // A tick without a configured speed behaves as one with the defaults.
    let mut d = Destination::new(v(0, 0, 0), v(5000, 500, 0));
    let effects = move_to_destination(&mut d, v(0, 0, 0), v(0, 0, 1000), 1571, None);
    let mut d2 = Destination::new(v(0, 0, 0), v(5000, 500, 0));
    let configured = DestinationSpeed::default();
    let effects2 =
        move_to_destination(&mut d2, v(0, 0, 0), v(0, 0, 1000), 1571, Some(&configured));
    assert_eq!(effects, effects2);
    assert_eq!(
        effects,
        Some((
            RotationEffect::AngularVelocity(v(-500_000, 5_000_000, 0), 18000),
            TranslationEffect::LinearVelocity(v(5000, 500, 0), 6000),
        ))
    );
}

#[test]
fn pause_and_resume_are_advisory() {
    let mut d = Destination::new(v(0, 0, 0), v(1000, 0, 0));
    assert!(!d.is_paused());
    d.pause();
    assert!(d.is_paused());

    // The controller keeps steering while paused; the host decides whether
    // to apply the commands.
    let speed = DestinationSpeed { translation: 6000, rotation: 18000 };
    let effects = move_to_destination(&mut d, v(0, 0, 0), v(0, 0, 1000), 1571, Some(&speed));
    assert!(effects.is_some());
    assert!(d.is_paused());

    d.resume();
    assert!(!d.is_paused());

    // Pausing a reached destination is a no-op.
    let mut r = Destination::new(v(1, 2, 3), v(1, 2, 3));
    r.pause();
    assert!(!r.is_paused());
}
