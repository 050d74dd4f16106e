//! A per-entity move-to-target steering controller.
//!
//! Given an entity's current position and facing, and a target point in 3D
//! space, the controller produces, once per simulation tick, the linear and
//! angular commands that drive the entity toward the target, and detects when
//! the target has been reached both positionally and rotationally.
//!
//! All coordinates, speeds and angles are fixed-point integers: a component
//! counts `FIXED_POINT_SCALE`-ths of a world unit (or of a radian, for
//! angles). The completion tests are exact in this model: the per-tick
//! tolerance comparison `remaining <= speed / 120` is carried out as
//! `14400 * remaining_squared <= speed * speed`, with no rounding at all.
//! The host application converts between its own (typically floating-point)
//! world representation and these fixed-point values, and integrates the
//! returned velocity commands at the tick cadence the thresholds are
//! calibrated for.

pub mod destination;
pub mod laws;
pub mod target;
pub mod vec3;
