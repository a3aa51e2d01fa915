//! The doorway to the brain: what outside requests become on their way to its mailbox.
use vstd::prelude::*;

use crate::digital_twin::vocabulary::DigitalTwinCarVocabulary;
use crate::domain_types::PhysicalCarVocabulary;
use crate::fsm::machineries::FsmEvent;
use crate::text;
use crate::twin_runtime::connectors::physical_to_digital;
use crate::twin_runtime::connectors::physical_to_digital::PhysicalToDigitalProjector;
use crate::twin_runtime::connectors::projection::{ProjectionError, Projector};

verus! {

/// Why a request did not get through.
#[derive(Debug, PartialEq, Eq)]
pub enum VehicleControllerError {
    Projection(String),
    Messaging(String),
    Timeout,
    ReplyDropped,
}

/// The text of a projection that was refused for a plain reason.
pub open spec fn refusal_text(why: Seq<char>) -> Seq<char> {
    "InvalidPayload(\""@ + why + "\")"@
}

fn refusal(error: ProjectionError) -> (e: VehicleControllerError)
    requires
        error matches ProjectionError::InvalidPayload(why) && text::is_plain(why@),
    ensures
        e matches VehicleControllerError::Projection(text) && (error matches
            ProjectionError::InvalidPayload(why) && text@ == refusal_text(why@)),
{
    match error {
        ProjectionError::InvalidPayload(why) => {
            let mut text = String::new();
            text.append("InvalidPayload(\"");
            text.append(why);
            text.append("\")");
            assert(text@ =~= refusal_text(why@));
            VehicleControllerError::Projection(text)
        },
    }
}

/// The request to power the car on.
pub fn power_on_message() -> (message: DigitalTwinCarVocabulary)
    ensures
        message == DigitalTwinCarVocabulary::Fsm(FsmEvent::PowerOn),
{
    DigitalTwinCarVocabulary::from(FsmEvent::PowerOn)
}

/// The request to power the car off. It is delivered in every mode; the mode decides on it.
pub fn power_off_message() -> (message: DigitalTwinCarVocabulary)
    ensures
        message == DigitalTwinCarVocabulary::Fsm(FsmEvent::PowerOff),
{
    DigitalTwinCarVocabulary::from(FsmEvent::PowerOff)
}

/// The message of a physical fact: its projection, or why it has none.
pub fn physical_message(event: PhysicalCarVocabulary) -> (message: Result<
    DigitalTwinCarVocabulary,
    VehicleControllerError,
>)
    ensures
        match physical_to_digital::event_of(event) {
            Some(fsm) => message == Ok::<DigitalTwinCarVocabulary, VehicleControllerError>(
                DigitalTwinCarVocabulary::Fsm(fsm),
            ),
            None => message matches Err(VehicleControllerError::Projection(text)) && text@
                == refusal_text(physical_to_digital::SPEED_NOT_WIRED@),
        },
{
    let projector = PhysicalToDigitalProjector;
    match projector.project(event) {
        Ok(message) => Ok(message),
        Err(error) => {
            proof {
                physical_to_digital::the_refusal_is_plain();
            }
            Err(refusal(error))
        },
    }
}

} // verus!
