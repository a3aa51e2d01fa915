//! Wheel speed to ground speed.

use sdv_twin::vehicle_physics::kinematics::{calculate_speed_from_rpm, rounded_kph_from_rpm};

fn kph(rpm: u16) -> f64 {
    calculate_speed_from_rpm(rpm) as f64 / 1000.0
}

#[test]
fn zero_rpm_is_zero_kph() {
    assert_eq!(kph(0), 0.0);
}

#[test]
fn known_rpm_maps_to_expected_kph() {
    assert!((kph(1000) - 114.0).abs() < f64::EPSILON);
}

#[test]
fn speed_is_monotonic_in_rpm() {
    assert!(kph(1500) > kph(500));
    assert!(kph(3000) > kph(1500));
}

#[test]
fn high_rpm_is_not_capped_at_255_kph() {
    assert!((kph(3000) - 342.0).abs() < f64::EPSILON);
}

#[test]
fn rounding_agrees_with_floating_point_everywhere() {
    let mut rpm: u16 = 0;
    loop {
        let expected = (f64::from(rpm) * 0.114).round() as u16;
        assert_eq!(rounded_kph_from_rpm(rpm), expected, "rpm {rpm}");
        if rpm == u16::MAX {
            break;
        }
        rpm += 1;
    }
}
