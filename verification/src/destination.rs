//! The externally visible handle for one movement goal: either an active
//! [`Target`] or `Reached`, plus the per-tick driver that queries both
//! effects and retires the goal once both report completion.

use vstd::prelude::*;
use crate::target::{
    spec_new_target, spec_rotation_effect, spec_rotation_next, spec_translation_effect,
    spec_translation_next, RotationEffect, Target, TargetStatus, TargetView, TranslationEffect,
};
use crate::vec3::Vec3I;

verus! {

/// Subunits per world unit (and per radian, for angles): every coordinate,
/// speed and angle handed to the controller is a count of these.
pub const FIXED_POINT_SCALE: i64 = 1000;

/// Default linear speed: 6 world units per second.
pub const DEFAULT_SPEED_VALUE: i64 = 6 * FIXED_POINT_SCALE;

/// Default angular speed: 18 radians per second.
pub const DEFAULT_ROTATION_SPEED_VALUE: i64 = 18 * FIXED_POINT_SCALE;

/// Marker for the steering controller as a whole; a host engine registers
/// its per-tick driver (built around [`move_to_destination`]) under it.
pub struct DestinationPlugin;

/// Per-entity speed configuration, in fixed point.
#[derive(Clone, Copy, PartialEq, Eq, Structural, Debug)]
pub struct DestinationSpeed {
    /// Linear speed, in subunits per second; positive.
    pub translation: i64,
    /// Angular speed, in fixed-point radians per second; positive.
    pub rotation: i64,
}

/// The speeds an entity moves at when no override is configured.
pub open spec fn default_destination_speed() -> DestinationSpeed {
    DestinationSpeed { translation: DEFAULT_SPEED_VALUE, rotation: DEFAULT_ROTATION_SPEED_VALUE }
}

impl DestinationSpeed {
    /// Both speeds positive, as every query requires.
    pub open spec fn wf(self) -> bool {
        1 <= self.translation && 1 <= self.rotation
    }
}

impl Default for DestinationSpeed {
    fn default() -> (s: Self)
        ensures
            s == default_destination_speed(),
    {
        DestinationSpeed {
            translation: DEFAULT_SPEED_VALUE,
            rotation: DEFAULT_ROTATION_SPEED_VALUE,
        }
    }
}

/// Everything a movement-enabled entity carries: its goal and its speed
/// configuration.
pub struct DestinationBundle {
    pub destination: Destination,
    pub speed: DestinationSpeed,
}

/// An entity's movement goal: an active target, or none.
pub enum Destination {
    Target(Target),
    Reached,
}

/// The mathematical state of a [`Destination`].
pub enum DestinationView {
    Target(TargetView),
    Reached,
}

impl View for Destination {
    type V = DestinationView;

    closed spec fn view(&self) -> DestinationView {
        match self {
            Destination::Target(t) => DestinationView::Target(t@),
            Destination::Reached => DestinationView::Reached,
        }
    }
}

impl DestinationView {
    pub open spec fn wf(self) -> bool {
        match self {
            DestinationView::Target(t) => t.wf(),
            DestinationView::Reached => true,
        }
    }
}

/// The destination a (from, to) pair constructs: a zero-length goal resolves
/// directly to `Reached`, anything else to a fresh active target.
pub open spec fn spec_new_destination(from: Vec3I, target: Vec3I) -> DestinationView {
    if from == target {
        DestinationView::Reached
    } else {
        DestinationView::Target(spec_new_target(from, target))
    }
}

/// A paused (or resumed) destination: the advisory flag forwarded to the
/// active target, if any.
pub open spec fn spec_with_status(d: DestinationView, status: TargetStatus) -> DestinationView {
    match d {
        DestinationView::Target(t) => DestinationView::Target(TargetView { status, ..t }),
        DestinationView::Reached => DestinationView::Reached,
    }
}

impl Destination {
    /// Constructs the goal of moving from `from` to `target`.
    ///
    /// A zero-length segment has no direction, so `from == target` yields
    /// `Reached` directly, never a degenerate target.
    pub fn new(from: Vec3I, target: Vec3I) -> (d: Destination)
        requires
            from.in_bounds(),
            target.in_bounds(),
        ensures
            d@ == spec_new_destination(from, target),
            d@.wf(),
    {
        if from == target {
            Destination::Reached
        } else {
            Destination::Target(Target::new(from, target))
        }
    }

    /// Advises the host to stop applying this goal's commands.
    pub fn pause(&mut self)
        ensures
            final(self)@ == spec_with_status(old(self)@, TargetStatus::Paused),
    {
        if let Destination::Target(target) = self {
            target.pause();
        }
    }

    /// Reverts [`Destination::pause`].
    pub fn resume(&mut self)
        ensures
            final(self)@ == spec_with_status(old(self)@, TargetStatus::OnGoing),
    {
        if let Destination::Target(target) = self {
            target.resume();
        }
    }

    pub fn is_paused(&self) -> (r: bool)
        ensures
            r == (self@ matches DestinationView::Target(t) && t.status is Paused),
    {
        match self {
            Destination::Target(target) => target.is_paused(),
            Destination::Reached => false,
        }
    }

    /// The active goal's segment direction, if there is one; the host
    /// measures the entity's facing angle against it.
    pub fn direction(&self) -> (r: Option<Vec3I>)
        ensures
            match self@ {
                DestinationView::Target(t) => r == Some(t.direction),
                DestinationView::Reached => r == None::<Vec3I>,
            },
    {
        match self {
            Destination::Target(target) => Some(target.direction()),
            Destination::Reached => None,
        }
    }
}

/// The pair of commands one tick answers: none when the goal is already
/// retired, else the rotation and translation effects of the active target.
pub open spec fn spec_tick_effects(
    d: DestinationView,
    position: Vec3I,
    forward: Vec3I,
    facing_angle: i64,
    speed: DestinationSpeed,
) -> Option<(RotationEffect, TranslationEffect)> {
    match d {
        DestinationView::Reached => None,
        DestinationView::Target(t) => Some(
            (
                spec_rotation_effect(t, forward, facing_angle, speed.rotation),
                spec_translation_effect(t, position, speed.translation),
            ),
        ),
    }
}

/// The goal state after one tick: the target steps through both queries, and
/// the destination retires exactly on a tick whose two effects are the two
/// completion markers, that is when both completions were already latched.
pub open spec fn spec_tick_next(
    d: DestinationView,
    position: Vec3I,
    facing_angle: i64,
    speed: DestinationSpeed,
) -> DestinationView {
    match d {
        DestinationView::Reached => DestinationView::Reached,
        DestinationView::Target(t) => {
            if t.rotation_done && t.translation_done {
                DestinationView::Reached
            } else {
                DestinationView::Target(
                    spec_translation_next(
                        spec_rotation_next(t, facing_angle, speed.rotation),
                        position,
                        speed.translation,
                    ),
                )
            }
        },
    }
}

/// The configured speeds, or the defaults where none are.
pub open spec fn spec_effective_speed(speed: Option<&DestinationSpeed>) -> DestinationSpeed {
    match speed {
        Some(s) => *s,
        None => default_destination_speed(),
    }
}

/// Drives one entity for one tick: queries the active target for both
/// effects (for the host to apply), and replaces the destination with
/// `Reached` on the tick where both queries report completion.
pub fn move_to_destination(
    destination: &mut Destination,
    position: Vec3I,
    forward: Vec3I,
    facing_angle: i64,
    speed: Option<&DestinationSpeed>,
) -> (effects: Option<(RotationEffect, TranslationEffect)>)
    requires
        old(destination)@.wf(),
        position.in_bounds(),
        forward.in_bounds(),
        0 <= facing_angle,
        speed matches Some(s) ==> s.wf(),
    ensures
        effects == spec_tick_effects(
            old(destination)@,
            position,
            forward,
            facing_angle,
            spec_effective_speed(speed),
        ),
        final(destination)@ == spec_tick_next(
            old(destination)@,
            position,
            facing_angle,
            spec_effective_speed(speed),
        ),
        final(destination)@.wf(),
{
    let speed_values: DestinationSpeed = match speed {
        Some(s) => *s,
        None => DestinationSpeed::default(),
    };
    match destination {
        Destination::Reached => None,
        Destination::Target(target) => {
            let rotation_effect = target.get_rotation_effect(
                forward,
                facing_angle,
                speed_values.rotation,
            );
            let translation_effect = target.get_translation_effect(
                position,
                speed_values.translation,
            );
            let both_done = match (&rotation_effect, &translation_effect) {
                (RotationEffect::RotationDone, TranslationEffect::DestinationReached) => true,
                _ => false,
            };
            if both_done {
                *destination = Destination::Reached;
            }
            Some((rotation_effect, translation_effect))
        },
    }
}

} // verus!
