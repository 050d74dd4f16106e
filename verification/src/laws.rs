//! The controller's general laws, proved over the same state model that the
//! executable functions' contracts speak of: completion latches and is
//! idempotent, overshoot terminates pursuit, an approaching entity arrives
//! within a bounded number of ticks, and a destination retires exactly when
//! both completions have latched.

use vstd::prelude::*;
use crate::destination::{spec_new_destination, spec_tick_next, DestinationSpeed, DestinationView};
use crate::target::{
    spec_rotation_effect, spec_rotation_next, spec_translation_effect, spec_translation_next,
    RotationEffect, TargetView, TranslationEffect,
};
use crate::vec3::{dist_sq, lemma_dist_sq_nonneg, Vec3I};

verus! {

/// The goal state after answering one translation query per tick, each tick
/// a (position, speed) pair, oldest first.
pub open spec fn run_translation(t: TargetView, ticks: Seq<(Vec3I, i64)>) -> TargetView
    decreases ticks.len(),
{
    if ticks.len() == 0 {
        t
    } else {
        spec_translation_next(run_translation(t, ticks.drop_last()), ticks.last().0, ticks.last().1)
    }
}

/// The goal state after answering one rotation query per tick, each tick a
/// (forward, facing_angle, rotation_speed) triple, oldest first.
pub open spec fn run_rotation(t: TargetView, ticks: Seq<(Vec3I, i64, i64)>) -> TargetView
    decreases ticks.len(),
{
    if ticks.len() == 0 {
        t
    } else {
        spec_rotation_next(run_rotation(t, ticks.drop_last()), ticks.last().1, ticks.last().2)
    }
}

proof fn lemma_run_translation_fixed(t: TargetView, ticks: Seq<(Vec3I, i64)>)
    requires
        t.translation_done,
    ensures
        run_translation(t, ticks) == t,
    decreases ticks.len(),
{
    if ticks.len() > 0 {
        lemma_run_translation_fixed(t, ticks.drop_last());
    }
}

proof fn lemma_run_rotation_fixed(t: TargetView, ticks: Seq<(Vec3I, i64, i64)>)
    requires
        t.rotation_done,
    ensures
        run_rotation(t, ticks) == t,
    decreases ticks.len(),
{
    if ticks.len() > 0 {
        lemma_run_rotation_fixed(t, ticks.drop_last());
    }
}

proof fn lemma_run_translation_step(t: TargetView, ticks: Seq<(Vec3I, i64)>, k: int)
    requires
        0 <= k < ticks.len(),
    ensures
        run_translation(t, ticks.take(k + 1)) == spec_translation_next(
            run_translation(t, ticks.take(k)),
            ticks[k].0,
            ticks[k].1,
        ),
{
    assert(ticks.take(k + 1).drop_last() =~= ticks.take(k));
    assert(ticks.take(k + 1).last() == ticks[k]);
}

/// Once translation has completed, it stays completed: every later
/// translation query answers `DestinationReached` and leaves the goal
/// unchanged, whatever positions and speeds the queries carry.
pub proof fn lemma_translation_done_is_permanent(t: TargetView, ticks: Seq<(Vec3I, i64)>)
    requires
        t.translation_done,
    ensures
        run_translation(t, ticks) == t,
        forall|k: int|
            0 <= k < ticks.len() ==> #[trigger] spec_translation_effect(
                run_translation(t, ticks.take(k)),
                ticks[k].0,
                ticks[k].1,
            ) == TranslationEffect::DestinationReached,
{
    lemma_run_translation_fixed(t, ticks);
    assert forall|k: int| 0 <= k < ticks.len() implies #[trigger] spec_translation_effect(
        run_translation(t, ticks.take(k)),
        ticks[k].0,
        ticks[k].1,
    ) == TranslationEffect::DestinationReached by {
        lemma_run_translation_fixed(t, ticks.take(k));
    }
}

/// Once a rotation query has answered `RotationDone`, every later rotation
/// query answers `RotationDone` and leaves the goal unchanged, regardless of
/// how the entity's transform changes in between.
pub proof fn lemma_rotation_done_is_permanent(t: TargetView, ticks: Seq<(Vec3I, i64, i64)>)
    requires
        t.rotation_done,
    ensures
        run_rotation(t, ticks) == t,
        forall|k: int|
            0 <= k < ticks.len() ==> #[trigger] spec_rotation_effect(
                run_rotation(t, ticks.take(k)),
                ticks[k].0,
                ticks[k].1,
                ticks[k].2,
            ) == RotationEffect::RotationDone,
{
    lemma_run_rotation_fixed(t, ticks);
    assert forall|k: int| 0 <= k < ticks.len() implies #[trigger] spec_rotation_effect(
        run_rotation(t, ticks.take(k)),
        ticks[k].0,
        ticks[k].1,
        ticks[k].2,
    ) == RotationEffect::RotationDone by {
        lemma_run_rotation_fixed(t, ticks.take(k));
    }
}

/// A translation query that does not command a velocity — it answers
/// `FinalTranslationFix` or `DestinationReached` — never commands one again:
/// pursuit cannot resume after the snap onto the target.
pub proof fn lemma_arrival_is_final(
    t: TargetView,
    position: Vec3I,
    speed: i64,
    ticks: Seq<(Vec3I, i64)>,
)
    requires
        !(spec_translation_effect(t, position, speed) is LinearVelocity),
    ensures
        spec_translation_next(t, position, speed).translation_done,
        forall|k: int|
            0 <= k < ticks.len() ==> #[trigger] spec_translation_effect(
                run_translation(spec_translation_next(t, position, speed), ticks.take(k)),
                ticks[k].0,
                ticks[k].1,
            ) == TranslationEffect::DestinationReached,
{
    lemma_translation_done_is_permanent(spec_translation_next(t, position, speed), ticks);
}

/// Overshoot terminates pursuit: a goal whose translation is still pending,
/// queried from a position farther from the target than the previous query
/// measured, answers the exact snap onto the target and latches completion —
/// whatever the commanded speed.
pub proof fn lemma_overshoot_terminates(t: TargetView, position: Vec3I, speed: i64)
    requires
        !t.translation_done,
        dist_sq(position, t.target) > t.last_remaining_sq,
    ensures
        spec_translation_effect(t, position, speed) == TranslationEffect::FinalTranslationFix(
            t.target,
        ),
        spec_translation_next(t, position, speed).translation_done,
{
}

/// Progress premise of the convergence law, for tick `j`: as long as the
/// controller still commanded a velocity after tick `j`, the position
/// sampled at tick `j + 1` is at least one tick's travel closer to the
/// target, stated in exact squared form
/// (`remaining' <= remaining - speed / 120`, squared and scaled by 120^2).
pub open spec fn tick_progress_ok(
    t: TargetView,
    ticks: Seq<(Vec3I, i64)>,
    s: i64,
    j: int,
) -> bool {
    !run_translation(t, ticks.take(j + 1)).translation_done ==> 14400 * dist_sq(
        ticks[j + 1].0,
        t.target,
    ) + s * s <= 14400 * dist_sq(ticks[j].0, t.target)
}

proof fn lemma_progress_bound(t: TargetView, ticks: Seq<(Vec3I, i64)>, s: i64, k: int)
    requires
        s >= 1,
        !t.translation_done,
        forall|j: int| 0 <= j < ticks.len() - 1 ==> #[trigger] tick_progress_ok(t, ticks, s, j),
        0 <= k < ticks.len(),
        !run_translation(t, ticks.take(k)).translation_done,
    ensures
        14400 * dist_sq(ticks[k].0, t.target) + k * (s * s) <= 14400 * dist_sq(
            ticks[0].0,
            t.target,
        ),
    decreases k,
{
    if k == 0 {
        assert(0 * (s * s) == 0) by (nonlinear_arith);
    } else {
        lemma_run_translation_step(t, ticks, k - 1);
        assert(!run_translation(t, ticks.take(k - 1)).translation_done);
        lemma_progress_bound(t, ticks, s, k - 1);
        assert(tick_progress_ok(t, ticks, s, k - 1));
        assert(k * (s * s) == (k - 1) * (s * s) + s * s) by (nonlinear_arith);
    }
}

/// Monotonic convergence: against a stationary target, at a constant
/// positive speed, an entity that keeps closing in by at least one tick's
/// travel per tick (in the exact squared sense of [`tick_progress_ok`]) is
/// reported arrived within a bounded number of ticks — as soon as the tick
/// count outweighs the initial squared distance, `n * s^2 > 14400 * d0^2`.
pub proof fn lemma_monotonic_convergence(t: TargetView, ticks: Seq<(Vec3I, i64)>, s: i64)
    requires
        s >= 1,
        ticks.len() >= 1,
        forall|j: int| 0 <= j < ticks.len() ==> (#[trigger] ticks[j]).1 == s,
        forall|j: int| 0 <= j < ticks.len() - 1 ==> #[trigger] tick_progress_ok(t, ticks, s, j),
        (ticks.len() - 1) * (s * s) > 14400 * dist_sq(ticks[0].0, t.target),
    ensures
        run_translation(t, ticks).translation_done,
{
    if t.translation_done {
        lemma_run_translation_fixed(t, ticks);
    } else if !run_translation(t, ticks).translation_done {
        let n = ticks.len() - 1;
        assert(ticks.take(n + 1) =~= ticks);
        lemma_run_translation_step(t, ticks, n);
        assert(!run_translation(t, ticks.take(n)).translation_done);
        lemma_progress_bound(t, ticks, s, n);
        lemma_dist_sq_nonneg(ticks[n].0, t.target);
        assert(false);
    }
}

proof fn lemma_run_translation_preserves_goal(t: TargetView, ticks: Seq<(Vec3I, i64)>)
    ensures
        run_translation(t, ticks).target == t.target,
        run_translation(t, ticks).direction == t.direction,
    decreases ticks.len(),
{
    if ticks.len() > 0 {
        lemma_run_translation_preserves_goal(t, ticks.drop_last());
    }
}

/// Travel premise of the proportional convergence law, for tick `j`: as
/// long as the controller still commanded a velocity after tick `j`, the
/// certified remaining distance shrinks by at least one tick's travel,
/// `rem[j + 1] <= rem[j] - s` (both sides scaled by 120, like `rem`).
pub open spec fn tick_travel_ok(
    t: TargetView,
    ticks: Seq<(Vec3I, i64)>,
    s: i64,
    rem: Seq<int>,
    j: int,
) -> bool {
    !run_translation(t, ticks.take(j + 1)).translation_done ==> rem[j + 1] <= rem[j] - s
}

proof fn lemma_travel_bound(
    t: TargetView,
    ticks: Seq<(Vec3I, i64)>,
    s: i64,
    rem: Seq<int>,
    k: int,
)
    requires
        s >= 1,
        rem.len() == ticks.len(),
        forall|j: int| 0 <= j < ticks.len() - 1 ==> #[trigger] tick_travel_ok(t, ticks, s, rem, j),
        0 <= k < ticks.len(),
        !run_translation(t, ticks.take(k)).translation_done,
    ensures
        rem[k] + k * s <= rem[0],
    decreases k,
{
    if k == 0 {
        assert(0 * s == 0) by (nonlinear_arith);
    } else {
        lemma_run_translation_step(t, ticks, k - 1);
        assert(!run_translation(t, ticks.take(k - 1)).translation_done);
        lemma_travel_bound(t, ticks, s, rem, k - 1);
        assert(tick_travel_ok(t, ticks, s, rem, k - 1));
        assert(k * s == (k - 1) * s + s) by (nonlinear_arith);
    }
}

/// Convergence within a tick count proportional to distance over speed:
/// against a stationary target at constant positive speed, an entity whose
/// remaining distance the host certifies through an integer witness —
/// `rem[j]` at least 120 times the remaining distance at tick `j`, losing
/// at least one tick's travel per tick while a velocity is still commanded
/// — is reported arrived as soon as the tick count outweighs the initial
/// witness, `n * s > rem[0]` (about `120 * d0 / s` ticks).
pub proof fn lemma_convergence_within_proportional_ticks(
    t: TargetView,
    ticks: Seq<(Vec3I, i64)>,
    s: i64,
    rem: Seq<int>,
)
    requires
        s >= 1,
        ticks.len() >= 1,
        rem.len() == ticks.len(),
        forall|j: int| 0 <= j < ticks.len() ==> (#[trigger] ticks[j]).1 == s,
        forall|j: int| 0 <= j < ticks.len() ==> 0 <= #[trigger] rem[j],
        forall|j: int|
            0 <= j < ticks.len() ==> 14400 * dist_sq(ticks[j].0, t.target) <= #[trigger] rem[j]
                * rem[j],
        forall|j: int| 0 <= j < ticks.len() - 1 ==> #[trigger] tick_travel_ok(t, ticks, s, rem, j),
        ticks.len() * s > rem[0],
    ensures
        run_translation(t, ticks).translation_done,
{
    if t.translation_done {
        lemma_run_translation_fixed(t, ticks);
    } else if !run_translation(t, ticks).translation_done {
        let n = ticks.len() - 1;
        assert(ticks.take(n + 1) =~= ticks);
        lemma_run_translation_step(t, ticks, n);
        assert(!run_translation(t, ticks.take(n)).translation_done);
        lemma_travel_bound(t, ticks, s, rem, n);
        assert((n + 1) * s == n * s + s) by (nonlinear_arith);
        // The witness has shrunk below one tick's travel, so the arrival
        // threshold held on the last tick and completion latched.
        assert(rem[n] <= s - 1);
        assert(rem[n] * rem[n] < s * s) by (nonlinear_arith)
            requires
                0 <= rem[n] <= s - 1,
                s >= 1,
        ;
        lemma_run_translation_preserves_goal(t, ticks.take(n));
        assert(false);
    }
}

/// A destination retires to `Reached` exactly on a tick that finds both
/// completions already latched: rotation and translation complete
/// independently, and neither alone retires the goal.
pub proof fn lemma_reached_needs_both_completions(
    d: DestinationView,
    position: Vec3I,
    facing_angle: i64,
    speed: DestinationSpeed,
)
    ensures
        spec_tick_next(d, position, facing_angle, speed) is Reached <==> (d is Reached || (
        d matches DestinationView::Target(t) && t.rotation_done && t.translation_done)),
{
}

/// A zero-length goal resolves to `Reached` at construction, for every
/// point: no degenerate target is ever created.
pub proof fn lemma_zero_length_goal_is_reached(p: Vec3I)
    ensures
        spec_new_destination(p, p) == DestinationView::Reached,
{
}

} // verus!
