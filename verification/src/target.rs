//! An in-flight movement goal: a destination point, the direction toward it,
//! and the per-tick progress state that decides rotation and translation
//! commands.

use vstd::prelude::*;
use crate::vec3::{cross, diff, dist_sq, distance_squared, spec_cross, spec_diff, Vec3I};

verus! {

/// The remaining distance that counts as arrival is the distance coverable in
/// one tick at the commanded linear speed: `speed / LINEAR_THRESHOLD_DIVISOR`.
pub const LINEAR_THRESHOLD_DIVISOR: u64 = 120;

/// The residual facing angle that counts as aligned is the angle coverable in
/// one tick at the commanded angular speed: `speed / ANGULAR_THRESHOLD_DIVISOR`.
pub const ANGULAR_THRESHOLD_DIVISOR: u64 = 60;

/// Advisory run state of a goal; the controller keeps steering either way,
/// and the host is expected to skip applying commands while paused.
#[derive(Clone, Copy, PartialEq, Eq, Structural, Debug)]
pub enum TargetStatus {
    OnGoing,
    Paused,
}

/// The mathematical state of a [`Target`], which every contract speaks of.
pub struct TargetView {
    /// The destination point; immutable after construction.
    pub target: Vec3I,
    /// The segment vector from the construction origin to `target`; never
    /// zero, immutable after construction. Its normalization is the unit
    /// direction of travel.
    pub direction: Vec3I,
    /// The squared straight-line distance to `target` as measured on the
    /// previous translation query (at construction: from the origin).
    pub last_remaining_sq: u64,
    /// True once the facing has converged to `direction`.
    pub rotation_done: bool,
    /// True once the position has converged to `target`, or overshoot was
    /// detected.
    pub translation_done: bool,
    /// Advisory run state.
    pub status: TargetStatus,
}

impl TargetView {
    pub open spec fn wf(self) -> bool {
        &&& self.target.in_bounds()
        &&& self.direction.in_segment_bounds()
        &&& !self.direction.is_zero()
    }
}

/// One directed movement goal with its progress state.
pub struct Target {
    target: Vec3I,
    direction: Vec3I,
    last_remaining_sq: u64,
    rotation_done: bool,
    translation_done: bool,
    status: TargetStatus,
}

impl View for Target {
    type V = TargetView;

    closed spec fn view(&self) -> TargetView {
        TargetView {
            target: self.target,
            direction: self.direction,
            last_remaining_sq: self.last_remaining_sq,
            rotation_done: self.rotation_done,
            translation_done: self.translation_done,
            status: self.status,
        }
    }
}

/// The per-tick rotation command.
#[derive(Clone, Copy, PartialEq, Eq, Structural, Debug)]
pub enum RotationEffect {
    /// Rotate at the given speed about the given (unnormalized) axis: the
    /// angular velocity to integrate for one tick is
    /// `speed * axis / |axis|`, with the axis the shortest-arc rotation
    /// axis from the current facing toward the goal direction.
    AngularVelocity(Vec3I, i64),
    /// One-shot exact correction: overwrite the orientation so that the
    /// entity faces exactly along the given segment vector (world Y up).
    FinalRotationFix(Vec3I),
    /// Facing has already converged; nothing to do.
    RotationDone,
}

/// The per-tick translation command.
#[derive(Clone, Copy, PartialEq, Eq, Structural, Debug)]
pub enum TranslationEffect {
    /// Move at the given speed along the given (unnormalized) direction: the
    /// linear velocity to integrate for one tick is
    /// `speed * direction / |direction|`.
    LinearVelocity(Vec3I, i64),
    /// One-shot exact correction: snap the position onto the given point.
    FinalTranslationFix(Vec3I),
    /// The position has already converged; nothing to do.
    DestinationReached,
}

/// The state a fresh goal from `origin` to `target` starts in.
pub open spec fn spec_new_target(origin: Vec3I, target: Vec3I) -> TargetView {
    TargetView {
        target,
        direction: spec_diff(target, origin),
        last_remaining_sq: dist_sq(origin, target) as u64,
        rotation_done: false,
        translation_done: false,
        status: TargetStatus::OnGoing,
    }
}

/// Whether a residual facing angle is coverable in one tick at the given
/// angular speed: `facing_angle <= rotation_speed / 60`, exactly.
pub open spec fn angular_threshold_ok(facing_angle: i64, rotation_speed: i64) -> bool {
    ANGULAR_THRESHOLD_DIVISOR * facing_angle <= rotation_speed
}

/// Whether a remaining squared distance is within the distance coverable in
/// one tick at the given linear speed: `remaining <= speed / 120`, exactly,
/// compared in squared form.
pub open spec fn linear_threshold_ok(remaining_sq: int, speed: i64) -> bool {
    LINEAR_THRESHOLD_DIVISOR * LINEAR_THRESHOLD_DIVISOR * remaining_sq <= speed * speed
}

/// The rotation command a goal in state `t` answers, given the entity's
/// current facing and the measured angle between that facing and the goal
/// direction.
pub open spec fn spec_rotation_effect(
    t: TargetView,
    forward: Vec3I,
    facing_angle: i64,
    rotation_speed: i64,
) -> RotationEffect {
    if t.rotation_done {
        RotationEffect::RotationDone
    } else if angular_threshold_ok(facing_angle, rotation_speed) {
        RotationEffect::FinalRotationFix(t.direction)
    } else {
        RotationEffect::AngularVelocity(spec_cross(forward, t.direction), rotation_speed)
    }
}

/// The goal state after a rotation query.
pub open spec fn spec_rotation_next(
    t: TargetView,
    facing_angle: i64,
    rotation_speed: i64,
) -> TargetView {
    if !t.rotation_done && angular_threshold_ok(facing_angle, rotation_speed) {
        TargetView { rotation_done: true, ..t }
    } else {
        t
    }
}

/// Arrival test: within one tick's travel of the target, or farther away
/// than on the previous query (the entity overshot or is diverging).
pub open spec fn spec_translation_arrived(t: TargetView, position: Vec3I, speed: i64) -> bool {
    ||| linear_threshold_ok(dist_sq(position, t.target), speed)
    ||| dist_sq(position, t.target) > t.last_remaining_sq
}

/// The translation command a goal in state `t` answers at the given position.
pub open spec fn spec_translation_effect(
    t: TargetView,
    position: Vec3I,
    speed: i64,
) -> TranslationEffect {
    if t.translation_done {
        TranslationEffect::DestinationReached
    } else if spec_translation_arrived(t, position, speed) {
        TranslationEffect::FinalTranslationFix(t.target)
    } else {
        TranslationEffect::LinearVelocity(t.direction, speed)
    }
}

/// The goal state after a translation query: the remembered remaining
/// distance is refreshed, and completion latches.
pub open spec fn spec_translation_next(t: TargetView, position: Vec3I, speed: i64) -> TargetView {
    if t.translation_done {
        t
    } else {
        TargetView {
            last_remaining_sq: dist_sq(position, t.target) as u64,
            translation_done: spec_translation_arrived(t, position, speed),
            ..t
        }
    }
}

proof fn lemma_speed_square_bound(s: int)
    requires
        1 <= s <= 0x7fff_ffff_ffff_ffff,
    ensures
        0 <= s * s <= 0x4000_0000_0000_0000_0000_0000_0000_0000,
{
    assert(0 <= s * s <= 0x4000_0000_0000_0000_0000_0000_0000_0000) by (nonlinear_arith)
        requires
            1 <= s <= 0x7fff_ffff_ffff_ffff,
    ;
}

impl Target {
    /// Constructs a goal directed from `origin` to `target`.
    ///
    /// A zero-length goal has no direction, so `origin == target` is left
    /// out; callers that cannot rule it out construct through
    /// [`crate::destination::Destination::new`], which resolves that case to
    /// an already-reached destination.
    pub fn new(origin: Vec3I, target: Vec3I) -> (t: Target)
        requires
            origin.in_bounds(),
            target.in_bounds(),
            origin != target,
        ensures
            t@ == spec_new_target(origin, target),
            t@.wf(),
    {
        let direction = diff(target, origin);
        let remaining_sq = distance_squared(origin, target);
        Target {
            target,
            direction,
            last_remaining_sq: remaining_sq,
            rotation_done: false,
            translation_done: false,
            status: TargetStatus::OnGoing,
        }
    }

    /// Marks translation as complete, as if the position had converged.
    pub fn set_translation_done(&mut self)
        ensures
            final(self)@ == (TargetView { translation_done: true, ..old(self)@ }),
    {
        self.translation_done = true;
    }

    /// Advises the host to stop applying this goal's commands.
    pub fn pause(&mut self)
        ensures
            final(self)@ == (TargetView { status: TargetStatus::Paused, ..old(self)@ }),
    {
        self.status = TargetStatus::Paused;
    }

    /// Reverts [`Target::pause`].
    pub fn resume(&mut self)
        ensures
            final(self)@ == (TargetView { status: TargetStatus::OnGoing, ..old(self)@ }),
    {
        self.status = TargetStatus::OnGoing;
    }

    /// The destination point this goal drives toward.
    pub fn target_point(&self) -> (r: Vec3I)
        ensures
            r == self@.target,
    {
        self.target
    }

    /// The segment vector from the construction origin to the target; the
    /// host measures the entity's facing angle against it.
    pub fn direction(&self) -> (r: Vec3I)
        ensures
            r == self@.direction,
    {
        self.direction
    }

    pub fn is_paused(&self) -> (r: bool)
        ensures
            r == (self@.status is Paused),
    {
        match self.status {
            TargetStatus::Paused => true,
            TargetStatus::OnGoing => false,
        }
    }

    /// The rotation command for this tick. `facing_angle` is the host's
    /// measurement of the (non-negative) angle between `forward` and the
    /// goal direction, in the same fixed-point scale as `rotation_speed`.
    pub fn get_rotation_effect(
        &mut self,
        forward: Vec3I,
        facing_angle: i64,
        rotation_speed: i64,
    ) -> (effect: RotationEffect)
        requires
            old(self)@.wf(),
            forward.in_bounds(),
            0 <= facing_angle,
            1 <= rotation_speed,
        ensures
            effect == spec_rotation_effect(old(self)@, forward, facing_angle, rotation_speed),
            final(self)@ == spec_rotation_next(old(self)@, facing_angle, rotation_speed),
    {
        if self.rotation_done {
            return RotationEffect::RotationDone;
        }
        if self.is_in_facing_threshold(facing_angle, rotation_speed) {
            self.rotation_done = true;
            return RotationEffect::FinalRotationFix(self.direction);
        }
        RotationEffect::AngularVelocity(self.get_needed_angular_velocity(forward), rotation_speed)
    }

    /// The translation command for this tick, at the entity's current
    /// position.
    pub fn get_translation_effect(&mut self, position: Vec3I, speed: i64) -> (effect:
        TranslationEffect)
        requires
            old(self)@.wf(),
            position.in_bounds(),
            1 <= speed,
        ensures
            effect == spec_translation_effect(old(self)@, position, speed),
            final(self)@ == spec_translation_next(old(self)@, position, speed),
    {
        if self.translation_done {
            return TranslationEffect::DestinationReached;
        }
        if self.has_reached_destination(position, speed) {
            self.translation_done = true;
            return TranslationEffect::FinalTranslationFix(self.target);
        }
        TranslationEffect::LinearVelocity(self.direction, speed)
    }

    /// Arrival test; refreshes the remembered remaining distance as a side
    /// effect, so the next query can detect overshoot.
    fn has_reached_destination(&mut self, position: Vec3I, speed: i64) -> (r: bool)
        requires
            old(self)@.wf(),
            position.in_bounds(),
            1 <= speed,
        ensures
            r == spec_translation_arrived(old(self)@, position, speed),
            final(self)@ == (TargetView {
                last_remaining_sq: dist_sq(position, old(self)@.target) as u64,
                ..old(self)@
            }),
    {
        let remaining_sq: u64 = distance_squared(position, self.target);
        let last_remaining_sq = self.last_remaining_sq;
        self.last_remaining_sq = remaining_sq;

        proof {
            lemma_speed_square_bound(speed as int);
        }
        let has_reached_destination = 14400u128 * (remaining_sq as u128)
            <= (speed as u128) * (speed as u128);
        let has_gone_past_destination = remaining_sq > last_remaining_sq;

        has_reached_destination || has_gone_past_destination
    }

    fn is_in_facing_threshold(&self, facing_angle: i64, rotation_speed: i64) -> (r: bool)
        requires
            0 <= facing_angle,
        ensures
            r == angular_threshold_ok(facing_angle, rotation_speed),
    {
        60i128 * (facing_angle as i128) <= rotation_speed as i128
    }

    /// The shortest-arc rotation axis from the current facing toward the
    /// goal direction, unnormalized; scaling to unit length is left to the
    /// host, which owns the floating-point representation.
    fn get_needed_angular_velocity(&self, forward: Vec3I) -> (axis: Vec3I)
        requires
            self@.wf(),
            forward.in_bounds(),
        ensures
            axis == spec_cross(forward, self@.direction),
    {
        cross(forward, self.direction)
    }
}

} // verus!
