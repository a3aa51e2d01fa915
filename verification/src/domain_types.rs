//! Vocabulary of the physical side and the coarse state that is published about the car.
use vstd::prelude::*;

use crate::signals::VssSignal;
pub use crate::vehicle_physics::constants::{
    RPM_EXTREME_OPERATION_THRESHOLD, RPM_IDLE, RPM_REDLINE_THRESHOLD,
    RPM_STRESS_DURATION_THRESHOLD_SECS, SPEED_EXTREME_OPERATION_THRESHOLD_KPH,
};

verus! {

/// The platform's own identifier for speed.
pub const ID_SPEED: u32 = 0x123;

/// The platform's own identifier for engine speed.
pub const ID_RPM: u32 = 0x124;

/// The car's state as the outside world is told it.
#[derive(Clone, Copy, Debug, PartialEq, Eq, Structural)]
pub enum VehicleState {
    Off,
    /// Assemblies are starting up; the car is not yet idle.
    PreparingToStart,
    Idle,
    Driving,
    ExtremeOperationWarning,
    Critical,
    /// Assemblies are shutting down; the car is not yet off.
    PreparingToStop,
}

impl Default for VehicleState {
    fn default() -> (state: Self)
        ensures
            state == VehicleState::Off,
    {
        VehicleState::Off
    }
}

impl VehicleState {
    pub open spec fn label(self) -> Seq<char> {
        match self {
            VehicleState::Off => "Off"@,
            VehicleState::PreparingToStart => "PreparingToStart"@,
            VehicleState::Idle => "Idle"@,
            VehicleState::Driving => "Driving"@,
            VehicleState::ExtremeOperationWarning => "ExtremeOperationWarning"@,
            VehicleState::Critical => "Critical"@,
            VehicleState::PreparingToStop => "PreparingToStop"@,
        }
    }

    /// The name of the state.
    pub fn name(&self) -> (name: &'static str)
        ensures
            name@ == self.label(),
    {
        match self {
            VehicleState::Off => "Off",
            VehicleState::PreparingToStart => "PreparingToStart",
            VehicleState::Idle => "Idle",
            VehicleState::Driving => "Driving",
            VehicleState::ExtremeOperationWarning => "ExtremeOperationWarning",
            VehicleState::Critical => "Critical",
            VehicleState::PreparingToStop => "PreparingToStop",
        }
    }
}

/// What the gateway observes.
#[derive(Clone, Copy, Debug, PartialEq, Eq, Structural)]
pub enum VehicleEvent {
    /// Data received from the ingress bus.
    TelemetryUpdate(VssSignal),
    /// A system-generated heartbeat.
    TimerTick,
    /// Emergency stop or system reset.
    SystemReset,
}

/// Physical-side vocabulary that projection consumes.
#[derive(Clone, Copy, Debug, PartialEq, Eq, Structural)]
pub enum PhysicalCarVocabulary {
    /// Data received from the ingress bus.
    TelemetryUpdate(VssSignal),
    /// A system-generated heartbeat.
    TimerTick,
    /// Emergency stop or system reset.
    SystemReset,
    /// The actuator completed the command; `on_command` tells the ON path from the OFF path.
    FrontHeadlampCommandConfirmed { on_command: bool },
    /// The actuator rejected the command.
    FrontHeadlampCommandRejected { on_command: bool },
}

} // verus!
