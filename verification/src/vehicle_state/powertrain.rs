//! Powertrain assembly: wheel speeds and the ground speed derived from them.
use vstd::prelude::*;

use crate::vehicle_physics::{constants, kinematics};

verus! {

#[derive(Clone, Copy, Debug, PartialEq, Eq, Structural)]
pub struct WheelRpm {
    pub front_left: u16,
    pub front_right: u16,
    pub rear_left: u16,
    pub rear_right: u16,
}

impl WheelRpm {
    pub open spec fn all(rpm: u16) -> WheelRpm {
        WheelRpm { front_left: rpm, front_right: rpm, rear_left: rpm, rear_right: rpm }
    }

    /// The same speed on all four wheels.
    pub fn uniform(rpm: u16) -> (wheels: WheelRpm)
        ensures
            wheels == WheelRpm::all(rpm),
    {
        WheelRpm { front_left: rpm, front_right: rpm, rear_left: rpm, rear_right: rpm }
    }
}

#[derive(Clone, Copy, Debug, PartialEq, Eq, Structural)]
pub struct PowertrainContext {
    pub wheel_rpm: WheelRpm,
    /// Ground speed derived from the wheels, in km/h.
    pub speed_kph: u16,
}

impl Default for PowertrainContext {
    fn default() -> (ctx: Self)
        ensures
            ctx == (PowertrainContext { wheel_rpm: WheelRpm::all(0), speed_kph: 0 }),
    {
        PowertrainContext { wheel_rpm: WheelRpm::uniform(0), speed_kph: 0 }
    }
}

impl PowertrainContext {
    pub open spec fn rpm(self) -> u16 {
        self.wheel_rpm.front_left
    }

    pub open spec fn stationary(self) -> bool {
        self.speed_kph == 0
    }

    pub open spec fn warning_active(self) -> bool {
        constants::over_speed(self.speed_kph) || constants::extreme(self.rpm(), self.speed_kph)
    }

    /// The context after a reading of `rpm` on all wheels, with the speed derived from it.
    pub open spec fn at_rpm(rpm: u16) -> PowertrainContext {
        PowertrainContext { wheel_rpm: WheelRpm::all(rpm), speed_kph: kinematics::kph_of_rpm(rpm) as u16 }
    }

    /// The context at a forced standstill: the wheel readings stay, the speed is zero.
    pub open spec fn at_standstill(self) -> PowertrainContext {
        PowertrainContext { speed_kph: 0, ..self }
    }

    /// The wheel that stands for the car.
    pub fn primary_rpm(&self) -> (rpm: u16)
        ensures
            rpm == self.rpm(),
    {
        self.wheel_rpm.front_left
    }

    /// Stores a reading for all wheels.
    pub fn apply_rpm(&mut self, rpm: u16)
        ensures
            *final(self) == (PowertrainContext { wheel_rpm: WheelRpm::all(rpm), ..*old(self) }),
    {
        self.wheel_rpm = WheelRpm::uniform(rpm);
    }

    /// Derives the ground speed from the primary wheel.
    pub fn refresh_speed(&mut self)
        ensures
            *final(self) == (PowertrainContext {
                speed_kph: kinematics::kph_of_rpm(old(self).rpm()) as u16,
                ..*old(self)
            }),
    {
        self.speed_kph = kinematics::rounded_kph_from_rpm(self.primary_rpm());
    }

    /// Forces the ground speed to zero.
    pub fn freeze_standstill(&mut self)
        ensures
            *final(self) == old(self).at_standstill(),
    {
        self.speed_kph = 0;
    }

    pub fn is_stationary(&self) -> (r: bool)
        ensures
            r == self.stationary(),
    {
        self.speed_kph == 0
    }

    /// Whether the speed or the engine calls for the extreme-operation warning.
    pub fn is_operational_warning_active(&self) -> (r: bool)
        ensures
            r == self.warning_active(),
    {
        constants::operational_warning_active(self.primary_rpm(), self.speed_kph)
    }
}

} // verus!
