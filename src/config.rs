use vstd::prelude::*;

verus! {

/// Uniform scale applied to every spatial constant.
pub const PIXEL_RATIO: i64 = 4;

/// Upward speed set by a flap, in world units per second.
pub const FLAP_FORCE: i64 = 500;

/// Downward acceleration, in world units per second squared.
pub const GRAVITY: i64 = 2000;

/// Velocity (units per second) that corresponds to one degree of rotation.
pub const VELOCITY_TO_ROTATION_RATIO: i64 = 10;

/// One less than the number of obstacle pairs in a field.
pub const OBSTACLE_AMOUNT: i64 = 40;

/// Unscaled width of one obstacle, in world units.
pub const OBSTACLE_WIDTH: i64 = 32;

/// Unscaled height of one obstacle, in world units.
pub const OBSTACLE_HEIGHT: i64 = 144;

/// Largest unscaled vertical offset of a pair, in world units.
pub const OBSTACLE_VERTICAL_OFFSET: i64 = 30;

/// Unscaled clear space added on each side of a pair's centre line.
pub const OBSTACLE_GAP_SIZE: i64 = 15;

/// Unscaled horizontal distance between neighbouring pairs.
pub const OBSTACLE_SPACING: i64 = 60;

/// Scroll speed of the field, in world units per second.
pub const SCROLL_SPEED: i64 = 150;

/// Micro-units in one world unit.
pub const LENGTH_SCALE: i64 = 1_000_000;

/// Velocity in micro-units per millisecond that equals one unit per second.
pub const VELOCITY_SCALE: i64 = 1000;

/// Millidegrees in one degree.
pub const ROTATION_SCALE: i64 = 1000;

/// Largest rotation of the flyer, in millidegrees: 90 degrees.
pub const MAX_ROTATION: i64 = 90_000;

/// Velocity set by a flap, in micro-units per millisecond:
/// `FLAP_FORCE * VELOCITY_SCALE`.
pub const FLAP_VELOCITY: i64 = 500_000;

/// Gravity in micro-units per millisecond squared.
///
/// One unit per second squared is exactly one micro-unit per millisecond
/// squared, so the number is the same as `GRAVITY`.
pub const GRAVITY_ACCEL: i64 = GRAVITY;

/// Scroll speed in micro-units per millisecond: `SCROLL_SPEED * VELOCITY_SCALE`.
pub const SCROLL_VELOCITY: i64 = 150_000;

/// Number of obstacle pairs in a field: `OBSTACLE_AMOUNT + 1`.
pub const PAIR_COUNT: i64 = 41;

/// Number of obstacles in a field: two for each pair.
pub const OBSTACLE_COUNT: i64 = 82;

/// Scaled distance between neighbouring pairs, in micro-units:
/// `OBSTACLE_SPACING * PIXEL_RATIO * LENGTH_SCALE`.
pub const SPACING_SCALED: i64 = 240_000_000;

/// Scaled length of a whole field, `PAIR_COUNT * SPACING_SCALED`: the
/// distance a recycled obstacle jumps forward.
pub const FIELD_LENGTH: i64 = 9_840_000_000;

/// Scaled half width of an obstacle, in micro-units:
/// `OBSTACLE_WIDTH * PIXEL_RATIO * LENGTH_SCALE / 2`.
pub const HALF_OBSTACLE_WIDTH: i64 = 64_000_000;

/// Scaled half height of an obstacle, in micro-units:
/// `OBSTACLE_HEIGHT * PIXEL_RATIO * LENGTH_SCALE / 2`.
pub const HALF_OBSTACLE_HEIGHT: i64 = 288_000_000;

/// Distance from a pair's centre line to the centre of each of its obstacles:
/// `(OBSTACLE_HEIGHT / 2 + OBSTACLE_GAP_SIZE) * PIXEL_RATIO * LENGTH_SCALE`.
pub const CENTERED_GAP_POSITION: i64 = 348_000_000;

/// Largest scaled vertical offset of a pair, in micro-units:
/// `OBSTACLE_VERTICAL_OFFSET * PIXEL_RATIO * LENGTH_SCALE`.
pub const MAX_OFFSET: i64 = 120_000_000;

/// A vertical offset that a pair may be placed with.
pub open spec fn valid_offset(o: int) -> bool {
    -MAX_OFFSET <= o <= MAX_OFFSET
}

} // verus!
