use vstd::prelude::*;

use crate::config::{
    FLAP_VELOCITY, GRAVITY_ACCEL, MAX_ROTATION, ROTATION_SCALE, VELOCITY_SCALE,
    VELOCITY_TO_ROTATION_RATIO,
};

verus! {

/// Division rounded toward zero.
pub open spec fn trunc_div(a: int, b: int) -> int {
    if a >= 0 {
        a / b
    } else {
        -((-a) / b)
    }
}

pub open spec fn clamp(a: int, lo: int, hi: int) -> int {
    if a < lo {
        lo
    } else if a > hi {
        hi
    } else {
        a
    }
}

/// Rotation implied by a velocity before clamping, in millidegrees.
pub open spec fn raw_rotation(velocity: int) -> int {
    trunc_div(velocity * ROTATION_SCALE, VELOCITY_SCALE * VELOCITY_TO_ROTATION_RATIO)
}

/// Displayed rotation for a velocity: the raw rotation clamped to a quarter turn.
pub open spec fn rotation_of(velocity: int) -> int {
    clamp(raw_rotation(velocity), -MAX_ROTATION, MAX_ROTATION as int)
}

/// Velocity after one step of `dt` milliseconds.
pub open spec fn velocity_after(velocity: int, dt: int, flap: bool) -> int {
    (if flap {
        FLAP_VELOCITY as int
    } else {
        velocity
    }) - GRAVITY_ACCEL * dt
}

pub open spec fn fits_i64(v: int) -> bool {
    i64::MIN <= v <= i64::MAX
}

/// The single player-controlled actor.
#[derive(Clone, Copy, Debug, PartialEq, Eq, Structural)]
pub struct Flyer {
    /// Horizontal position; it never changes.
    pub x: i64,
    /// Vertical position, positive upward.
    pub y: i64,
    /// Vertical velocity, positive upward.
    pub velocity: i64,
}

/// Rotation shown for a velocity, in millidegrees.
pub fn rotation_for_velocity(velocity: i64) -> (r: i64)
    ensures
        r == rotation_of(velocity as int),
        -MAX_ROTATION <= r <= MAX_ROTATION,
        -MAX_ROTATION < raw_rotation(velocity as int) < MAX_ROTATION ==> r == raw_rotation(
            velocity as int,
        ),
{
    let scaled: i128 = velocity as i128 * ROTATION_SCALE as i128;
    let divisor: i128 = (VELOCITY_SCALE * VELOCITY_TO_ROTATION_RATIO) as i128;
    let raw: i128 = if scaled >= 0 {
        scaled / divisor
    } else {
        -((-scaled) / divisor)
    };
    if raw < -(MAX_ROTATION as i128) {
        -MAX_ROTATION
    } else if raw > MAX_ROTATION as i128 {
        MAX_ROTATION
    } else {
        raw as i64
    }
}

impl Flyer {
    /// A flyer at the origin, at rest.
    pub open spec fn is_reset(self) -> bool {
        self.x == 0 && self.y == 0 && self.velocity == 0
    }

    /// Whether one step of `dt` milliseconds keeps every value within `i64`.
    pub open spec fn step_fits(self, dt: int, flap: bool) -> bool {
        let v = velocity_after(self.velocity as int, dt, flap);
        fits_i64(v) && fits_i64(self.y + v * dt)
    }

    pub fn new() -> (r: Flyer)
        ensures
            r.is_reset(),
    {
        Flyer { x: 0, y: 0, velocity: 0 }
    }

    /// Puts the flyer back at the origin, at rest.
    pub fn reset(&mut self)
        ensures
            final(self).is_reset(),
    {
        self.x = 0;
        self.y = 0;
        self.velocity = 0;
    }

    /// Rotation shown for the current velocity, in millidegrees.
    pub fn rotation(&self) -> (r: i64)
        ensures
            r == rotation_of(self.velocity as int),
    {
        rotation_for_velocity(self.velocity)
    }

    /// Advances the flyer by `dt` milliseconds: a flap replaces the velocity
    /// with the flap velocity, gravity then pulls it down, and the position
    /// moves by the new velocity.
    pub fn step(&mut self, dt: u32, flap: bool)
        requires
            old(self).step_fits(dt as int, flap),
        ensures
            final(self).velocity == velocity_after(old(self).velocity as int, dt as int, flap),
            final(self).y == old(self).y + final(self).velocity * dt,
            final(self).x == old(self).x,
    {
        let base: i128 = if flap {
            FLAP_VELOCITY as i128
        } else {
            self.velocity as i128
        };
        let v: i128 = base - GRAVITY_ACCEL as i128 * dt as i128;
        let y: i128 = self.y as i128 + v * dt as i128;
        self.velocity = v as i64;
        self.y = y as i64;
    }
}

} // verus!
