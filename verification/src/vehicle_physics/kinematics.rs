//! Wheel speed to ground speed, the kinematic expectation of the twin.
use vstd::prelude::*;

verus! {

/// Metres driven per hour for each revolution per minute, with a tyre radius of about 0.303 m:
/// `(2 * pi * radius * 60)`.
pub const METRES_PER_HOUR_PER_RPM: u32 = 114;

/// Ground speed of a wheel in metres per hour, under perfect traction and without a cap.
pub fn calculate_speed_from_rpm(rpm: u16) -> (metres_per_hour: u32)
    ensures
        metres_per_hour == rpm * METRES_PER_HOUR_PER_RPM,
{
    rpm as u32 * METRES_PER_HOUR_PER_RPM
}

/// Ground speed of a wheel in km/h, rounded to the nearest whole number.
pub open spec fn kph_of_rpm(rpm: u16) -> nat {
    ((rpm * METRES_PER_HOUR_PER_RPM + 500) / 1000) as nat
}

/// Ground speed of a wheel in km/h, rounded to the nearest whole number.
pub fn rounded_kph_from_rpm(rpm: u16) -> (kph: u16)
    ensures
        kph == kph_of_rpm(rpm),
{
    ((calculate_speed_from_rpm(rpm) + 500) / 1000) as u16
}

/// A faster wheel never means a slower car, before rounding strictly so.
pub proof fn speed_is_monotonic(slow: u16, fast: u16)
    requires
        slow < fast,
    ensures
        slow * METRES_PER_HOUR_PER_RPM < fast * METRES_PER_HOUR_PER_RPM,
        kph_of_rpm(slow) <= kph_of_rpm(fast),
{
}

/// Rounding moves a speed by half a kilometre per hour at most.
pub proof fn rounding_is_to_nearest(rpm: u16)
    ensures
        -500 <= kph_of_rpm(rpm) * 1000 - rpm * METRES_PER_HOUR_PER_RPM <= 500,
{
}

} // verus!
