use birdy::config::{FLAP_VELOCITY, GRAVITY_ACCEL, MAX_ROTATION};
use birdy::flyer::{rotation_for_velocity, Flyer};

#[test]
fn gravity_without_flap_subtracts_exactly() {
    let mut f = Flyer { x: 0, y: 1_000, velocity: 7_000 };
    f.step(16, false);
    assert_eq!(f.velocity, 7_000 - GRAVITY_ACCEL * 16);
    assert_eq!(f.velocity, -25_000);
    assert_eq!(f.y, 1_000 + -25_000 * 16);
    assert_eq!(f.x, 0);
}

#[test]
fn first_step_from_rest() {
    let mut f = Flyer::new();
    f.step(16, false);
    assert_eq!(f.velocity, -32_000);
    assert_eq!(f.y, -512_000);
}

#[test]
fn flap_overwrites_velocity() {
    let mut f = Flyer { x: 0, y: 0, velocity: 1_000_000 };
    f.step(16, true);
    assert_eq!(f.velocity, FLAP_VELOCITY - GRAVITY_ACCEL * 16);
    assert_eq!(f.velocity, 468_000);
    assert_eq!(f.y, 468_000 * 16);
}

#[test]
fn flap_from_falling_does_not_add() {
    let mut f = Flyer { x: 0, y: 0, velocity: -900_000 };
    f.step(10, true);
    assert_eq!(f.velocity, 480_000);
}

#[test]
fn zero_dt_changes_nothing() {
    let mut f = Flyer { x: 0, y: 42, velocity: -3 };
    f.step(0, false);
    assert_eq!(f, Flyer { x: 0, y: 42, velocity: -3 });
}

#[test]
fn rotation_follows_velocity_inside_range() {
    assert_eq!(rotation_for_velocity(0), 0);
    assert_eq!(rotation_for_velocity(500_000), 50_000);
    assert_eq!(rotation_for_velocity(-320_000), -32_000);
    assert_eq!(rotation_for_velocity(-15), -1);
    assert_eq!(rotation_for_velocity(15), 1);
}

#[test]
fn rotation_is_clamped() {
    assert_eq!(rotation_for_velocity(900_000), MAX_ROTATION);
    assert_eq!(rotation_for_velocity(1_000_000), 90_000);
    assert_eq!(rotation_for_velocity(-2_000_000), -90_000);
    assert_eq!(rotation_for_velocity(i64::MAX), 90_000);
    assert_eq!(rotation_for_velocity(i64::MIN), -90_000);
}

#[test]
fn rotation_method_uses_velocity() {
    let f = Flyer { x: 0, y: 0, velocity: -32_000 };
    assert_eq!(f.rotation(), -3_200);
}

#[test]
fn reset_returns_to_origin() {
    let mut f = Flyer { x: 5, y: -300, velocity: 77 };
    f.reset();
    assert_eq!(f, Flyer { x: 0, y: 0, velocity: 0 });
    assert_eq!(f.rotation(), 0);
}
