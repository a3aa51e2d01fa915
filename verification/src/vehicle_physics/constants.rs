//! Calibration of the car and the predicates that read it.
use vstd::prelude::*;

verus! {

/// Engine speed at rest.
pub const RPM_IDLE: u16 = 800;

/// The car counts as driving above this engine speed.
pub const RPM_DRIVING_THRESHOLD: u16 = 1000;

/// Above this engine speed, at an excessive road speed, operation is extreme.
pub const RPM_EXTREME_OPERATION_THRESHOLD: u16 = 5500;

/// End of the tachometer's safe range.
pub const RPM_REDLINE_THRESHOLD: u16 = 7000;

/// Shortest stay in the extreme-operation warning.
pub const RPM_STRESS_DURATION_THRESHOLD_SECS: u64 = 5;

/// Road speed above which the car is warned.
pub const SPEED_EXTREME_OPERATION_THRESHOLD_KPH: u16 = 160;

/// At or below this ambient light the front headlamp is requested on.
pub const LUX_ON_THRESHOLD: u16 = 840;

/// At or above this ambient light the front headlamp is requested off.
pub const LUX_OFF_THRESHOLD: u16 = 860;

/// How long an ON request may stay unanswered by the headlamp actuator.
pub const FRONT_HEADLAMP_ON_ACK_WAIT_MILLIS: u64 = 500;

/// How long an OFF request may stay unanswered by the headlamp actuator.
pub const FRONT_HEADLAMP_OFF_ACK_WAIT_MILLIS: u64 = 500;

pub const SPEED_THRESHOLD_WARNING_MESSAGE: &'static str =
    "Speed threshold exceeded: above 160 km/h.";

pub const EXTREME_OPERATION_WARNING_MESSAGE: &'static str =
    "Extreme operation: above 160 km/h with engine speed above 5500 RPM.";

pub open spec fn over_speed(speed_kph: u16) -> bool {
    speed_kph > SPEED_EXTREME_OPERATION_THRESHOLD_KPH
}

pub open spec fn extreme(rpm: u16, speed_kph: u16) -> bool {
    over_speed(speed_kph) && rpm > RPM_EXTREME_OPERATION_THRESHOLD
}

/// Road speed above the limit.
pub fn speed_threshold_exceeded(speed_kph: u16) -> (r: bool)
    ensures
        r == over_speed(speed_kph),
{
    speed_kph > SPEED_EXTREME_OPERATION_THRESHOLD_KPH
}

/// Road speed above the limit together with an engine speed above its limit.
pub fn extreme_operation_active(rpm: u16, speed_kph: u16) -> (r: bool)
    ensures
        r == extreme(rpm, speed_kph),
{
    speed_kph > SPEED_EXTREME_OPERATION_THRESHOLD_KPH && rpm > RPM_EXTREME_OPERATION_THRESHOLD
}

/// Either of the two signals that put a driving car under warning.
pub fn operational_warning_active(rpm: u16, speed_kph: u16) -> (r: bool)
    ensures
        r == (over_speed(speed_kph) || extreme(rpm, speed_kph)),
{
    speed_threshold_exceeded(speed_kph) || extreme_operation_active(rpm, speed_kph)
}

/// A driving car is warned exactly when its road speed is above the limit: a high engine speed
/// alone never is the cause.
pub proof fn speed_alone_decides_the_warning(rpm: u16, speed_kph: u16)
    ensures
        (over_speed(speed_kph) || extreme(rpm, speed_kph)) <==> over_speed(speed_kph),
{
}

} // verus!
