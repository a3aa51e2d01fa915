//! What the twin makes of the physical world.
use vstd::prelude::*;

use super::projection::{ProjectionError, Projector};
use crate::digital_twin::vocabulary::DigitalTwinCarVocabulary;
use crate::domain_types::PhysicalCarVocabulary;
use crate::fsm::machineries::FsmEvent;
use crate::signals::VssSignal;
use crate::text;
use crate::vehicle_state::front_headlamp::{
    FrontHeadlampIncompleteCause, FrontHeadlampSwitchDirection,
};

verus! {

pub const SPEED_NOT_WIRED: &'static str =
    "observed VehicleSpeed not wired yet; twin derives speed from EngineRpm";

#[derive(Clone, Copy, Debug, Default)]
pub struct PhysicalToDigitalProjector;

/// The direction of a command.
pub open spec fn direction_of(on_command: bool) -> FrontHeadlampSwitchDirection {
    if on_command {
        FrontHeadlampSwitchDirection::On
    } else {
        FrontHeadlampSwitchDirection::Off
    }
}

/// The event that a physical fact stands for; an observed speed stands for none.
pub open spec fn event_of(physical: PhysicalCarVocabulary) -> Option<FsmEvent> {
    match physical {
        PhysicalCarVocabulary::TelemetryUpdate(VssSignal::VehicleSpeed(_)) => None,
        PhysicalCarVocabulary::TelemetryUpdate(VssSignal::EngineRpm(rpm)) => Some(
            FsmEvent::UpdateRpm(rpm),
        ),
        PhysicalCarVocabulary::TelemetryUpdate(VssSignal::AmbientLux(lux)) => Some(
            FsmEvent::UpdateAmbientLux(lux),
        ),
        PhysicalCarVocabulary::TelemetryUpdate(VssSignal::RainDetected(rain)) => Some(
            if rain {
                FsmEvent::RainsStarted
            } else {
                FsmEvent::RainsStopped
            },
        ),
        PhysicalCarVocabulary::TimerTick => Some(FsmEvent::TimerTick),
        PhysicalCarVocabulary::SystemReset => Some(FsmEvent::PowerOff),
        PhysicalCarVocabulary::FrontHeadlampCommandConfirmed { on_command } => Some(
            if on_command {
                FsmEvent::FrontHeadlampOnAck
            } else {
                FsmEvent::FrontHeadlampOffAck
            },
        ),
        PhysicalCarVocabulary::FrontHeadlampCommandRejected { on_command } => Some(
            FsmEvent::FrontHeadlampActuationIncomplete {
                direction: direction_of(on_command),
                cause: FrontHeadlampIncompleteCause::NegativeAck,
            },
        ),
    }
}

impl Projector<PhysicalCarVocabulary, DigitalTwinCarVocabulary> for PhysicalToDigitalProjector {
    fn project(&self, input: PhysicalCarVocabulary) -> (output: Result<
        DigitalTwinCarVocabulary,
        ProjectionError,
    >)
        ensures
            match event_of(input) {
                Some(event) => output == Ok::<DigitalTwinCarVocabulary, ProjectionError>(
                    DigitalTwinCarVocabulary::Fsm(event),
                ),
                None => output matches Err(ProjectionError::InvalidPayload(why)) && why@
                    == SPEED_NOT_WIRED@,
            },
    {
        let event = match input {
            PhysicalCarVocabulary::TelemetryUpdate(signal) => match signal {
                VssSignal::VehicleSpeed(_) => {
                    return Err(ProjectionError::InvalidPayload(SPEED_NOT_WIRED));
                },
                VssSignal::EngineRpm(rpm) => FsmEvent::UpdateRpm(rpm),
                VssSignal::AmbientLux(lux) => FsmEvent::UpdateAmbientLux(lux),
                VssSignal::RainDetected(rain) => {
                    if rain {
                        FsmEvent::RainsStarted
                    } else {
                        FsmEvent::RainsStopped
                    }
                },
            },
            PhysicalCarVocabulary::TimerTick => FsmEvent::TimerTick,
            PhysicalCarVocabulary::SystemReset => FsmEvent::PowerOff,
            PhysicalCarVocabulary::FrontHeadlampCommandConfirmed { on_command } => {
                if on_command {
                    FsmEvent::FrontHeadlampOnAck
                } else {
                    FsmEvent::FrontHeadlampOffAck
                }
            },
            PhysicalCarVocabulary::FrontHeadlampCommandRejected { on_command } => {
                FsmEvent::FrontHeadlampActuationIncomplete {
                    direction: if on_command {
                        FrontHeadlampSwitchDirection::On
                    } else {
                        FrontHeadlampSwitchDirection::Off
                    },
                    cause: FrontHeadlampIncompleteCause::NegativeAck,
                }
            },
        };
        Ok(DigitalTwinCarVocabulary::Fsm(event))
    }
}

/// The reason for a refusal is plain text.
pub proof fn the_refusal_is_plain()
    ensures
        text::is_plain(SPEED_NOT_WIRED@),
{
    reveal_strlit("observed VehicleSpeed not wired yet; twin derives speed from EngineRpm");
}

} // verus!
