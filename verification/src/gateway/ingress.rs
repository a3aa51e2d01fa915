//! What the gateway makes of what it reads off the bus.
use vstd::prelude::*;

use crate::can_frame::{FrameId, FrameView, WireFrame};
use crate::domain_types::{PhysicalCarVocabulary, VehicleEvent};
use crate::front_headlamp_log;
use crate::front_headlamp_log::{
    ACK_OFF, ACK_ON, MSG_ACK_OFF, MSG_ACK_ON, MSG_NACK_OFF, MSG_NACK_ON, NACK_OFF, NACK_ON,
};
use crate::signals::VssSignal;
use crate::text;
use crate::vehicle_device_bus::devices::front_headlamp::can;
use crate::vehicle_device_bus::devices::front_headlamp::can::decode_payload_from_can_frame;
use crate::vehicle_device_bus::devices::front_headlamp::codec::FrontHeadlampPayload;
use crate::vehicle_device_bus::devices::front_headlamp::policy;
use crate::vehicle_device_bus::devices::front_headlamp::policy::{
    FrontHeadlampPolicy, FrontHeadlampPolicyDecision,
};

verus! {

/// The physical fact of an observed event.
pub open spec fn physical_of(event: VehicleEvent) -> PhysicalCarVocabulary {
    match event {
        VehicleEvent::TelemetryUpdate(signal) => PhysicalCarVocabulary::TelemetryUpdate(signal),
        VehicleEvent::TimerTick => PhysicalCarVocabulary::TimerTick,
        VehicleEvent::SystemReset => PhysicalCarVocabulary::SystemReset,
    }
}

/// Maps an observed event to the physical vocabulary.
pub fn vehicle_event_to_physical_vocabulary(ev: VehicleEvent) -> (physical: PhysicalCarVocabulary)
    ensures
        physical == physical_of(ev),
{
    match ev {
        VehicleEvent::TelemetryUpdate(signal) => PhysicalCarVocabulary::TelemetryUpdate(signal),
        VehicleEvent::TimerTick => PhysicalCarVocabulary::TimerTick,
        VehicleEvent::SystemReset => PhysicalCarVocabulary::SystemReset,
    }
}

/// Where a frame goes.
#[derive(Clone, Copy, Debug, PartialEq, Eq)]
pub enum FrameRoute {
    /// Telemetry for the twin.
    Physical(PhysicalCarVocabulary),
    /// An actuator's answer for the twin.
    ActuationResponse { physical: PhysicalCarVocabulary, session: u16, sequence: u32 },
    /// An observed speed, which nothing consumes.
    ObservedSpeed,
    /// A headlamp frame that is not let through, and why.
    Ignored { reason: &'static str, session: u16, sequence: u32 },
    /// A frame of no concern.
    Foreign,
}

/// The telemetry route of a frame that carries a signal.
pub open spec fn telemetry_route(signal: VssSignal) -> FrameRoute {
    match signal {
        VssSignal::VehicleSpeed(_) => FrameRoute::ObservedSpeed,
        _ => FrameRoute::Physical(PhysicalCarVocabulary::TelemetryUpdate(signal)),
    }
}

/// Decides where a frame goes: telemetry first, then answers of the headlamp as the policy lets
/// them through; anything else is of no concern. Only a headlamp frame concerns the policy.
pub fn route_frame(frame: &WireFrame, policy: &mut FrontHeadlampPolicy) -> (route: FrameRoute)
    ensures
        match (VssSignal::decoded(frame@), can::headlamp_payload(frame@)) {
            (Some(signal), _) => route == telemetry_route(signal) && final(policy).awaited() == old(
                policy,
            ).awaited(),
            (None, None) => route == FrameRoute::Foreign && final(policy).awaited() == old(
                policy,
            ).awaited(),
            (None, Some(payload)) => if old(policy).awaited() is Some && policy::answers(
                payload,
                old(policy).awaited()->0,
            ) {
                &&& route == FrameRoute::ActuationResponse {
                    physical: payload.physical()->0,
                    session: payload.session_id,
                    sequence: payload.sequence_no,
                }
                &&& final(policy).awaited() is None
            } else {
                &&& route matches FrameRoute::Ignored { reason, session, sequence }
                &&& reason@ == ignore_reason(payload, old(policy).awaited() is Some)
                &&& session == payload.session_id
                &&& sequence == payload.sequence_no
                &&& final(policy).awaited() == old(policy).awaited()
            },
        },
        // Exactly the frames of an observed speed are dropped, and every other reading goes to the
        // twin as it was read.
        route == FrameRoute::ObservedSpeed <==> frame@.id == FrameId::Standard(0x101)
            && frame@.data.len() >= 2,
        frame@.id == FrameId::Standard(0x102) && frame@.data.len() >= 2 ==> (route matches
            FrameRoute::Physical(PhysicalCarVocabulary::TelemetryUpdate(VssSignal::EngineRpm(n)))
            && n == 256 * frame@.data[0] + frame@.data[1]),
        frame@.id == FrameId::Standard(0x103) && frame@.data.len() >= 2 ==> (route matches
            FrameRoute::Physical(PhysicalCarVocabulary::TelemetryUpdate(VssSignal::AmbientLux(n)))
            && n == 256 * frame@.data[0] + frame@.data[1]),
        frame@.id == FrameId::Standard(0x104) && frame@.data.len() >= 2 ==> (route matches
            FrameRoute::Physical(
            PhysicalCarVocabulary::TelemetryUpdate(VssSignal::RainDetected(rain)),
        ) && (rain <==> frame@.data[0] != 0)),
        // An answer goes to the twin under the numbers of the awaited command and in its direction.
        route matches FrameRoute::ActuationResponse { physical, session, sequence } ==> {
            &&& frame@.id == FrameId::Standard(0x204)
            &&& old(policy).awaited() matches Some(wire)
            &&& wire.session_id == session
            &&& wire.sequence_no == sequence
            &&& physical == if frame@.data[0] < 0xC0 {
                PhysicalCarVocabulary::FrontHeadlampCommandConfirmed { on_command: wire.on_command }
            } else {
                PhysicalCarVocabulary::FrontHeadlampCommandRejected { on_command: wire.on_command }
            }
        },
{
    if let Some(signal) = VssSignal::from_can_frame(frame) {
        return match signal {
            VssSignal::VehicleSpeed(_) => FrameRoute::ObservedSpeed,
            _ => FrameRoute::Physical(
                vehicle_event_to_physical_vocabulary(VehicleEvent::TelemetryUpdate(signal)),
            ),
        };
    }
    match decode_payload_from_can_frame(frame) {
        Some(payload) => match policy.on_response(payload) {
            FrontHeadlampPolicyDecision::Accept { physical, session, sequence } => {
                FrameRoute::ActuationResponse { physical, session, sequence }
            },
            FrontHeadlampPolicyDecision::Ignore(reason) => FrameRoute::Ignored {
                reason,
                session: payload.session_id,
                sequence: payload.sequence_no,
            },
        },
        None => FrameRoute::Foreign,
    }
}

/// Why a headlamp frame that answers nothing is ignored.
pub open spec fn ignore_reason(payload: FrontHeadlampPayload, awaited: bool) -> Seq<char> {
    if payload.physical() is None {
        policy::NOT_AN_ANSWER@
    } else if awaited {
        policy::CORRELATION_MISMATCH@
    } else {
        policy::NO_PENDING_COMMAND@
    }
}

/// What is shown of an answer, by its direction and outcome.
pub open spec fn answer_text(physical: PhysicalCarVocabulary) -> Option<Seq<char>> {
    match physical {
        PhysicalCarVocabulary::FrontHeadlampCommandConfirmed { on_command } => Some(
            if on_command {
                front_headlamp_log::log_line(ACK_ON@, MSG_ACK_ON@)
            } else {
                front_headlamp_log::log_line(ACK_OFF@, MSG_ACK_OFF@)
            },
        ),
        PhysicalCarVocabulary::FrontHeadlampCommandRejected { on_command } => Some(
            if on_command {
                front_headlamp_log::log_line(NACK_ON@, MSG_NACK_ON@)
            } else {
                front_headlamp_log::log_line(NACK_OFF@, MSG_NACK_OFF@)
            },
        ),
        _ => None,
    }
}

/// The log line of an answer; other facts have none.
pub open spec fn ingress_text(
    session: u16,
    sequence: u32,
    physical: PhysicalCarVocabulary,
) -> Option<Seq<char>> {
    match answer_text(physical) {
        Some(what) => Some(
            "[actuation-can-ingress session="@ + text::decimal(session as nat) + " seq="@
                + text::decimal(sequence as nat) + "]: "@ + what,
        ),
        None => None,
    }
}

/// The log line of an answer that was let through; other facts have none.
pub fn front_headlamp_ingress_line(
    session: u16,
    sequence: u32,
    physical: &PhysicalCarVocabulary,
) -> (line: Option<String>)
    ensures
        (match line {
            Some(l) => Some(l@),
            None => None,
        }) == ingress_text(session, sequence, *physical),
{
    let what = match physical {
        PhysicalCarVocabulary::FrontHeadlampCommandConfirmed { on_command } => {
            if *on_command {
                front_headlamp_log::join_log_line(ACK_ON, MSG_ACK_ON)
            } else {
                front_headlamp_log::join_log_line(ACK_OFF, MSG_ACK_OFF)
            }
        },
        PhysicalCarVocabulary::FrontHeadlampCommandRejected { on_command } => {
            if *on_command {
                front_headlamp_log::join_log_line(NACK_ON, MSG_NACK_ON)
            } else {
                front_headlamp_log::join_log_line(NACK_OFF, MSG_NACK_OFF)
            }
        },
        _ => {
            return None;
        },
    };
    let mut line = String::new();
    line.append("[actuation-can-ingress session=");
    text::append_decimal(&mut line, session as u64);
    line.append(" seq=");
    text::append_decimal(&mut line, sequence as u64);
    line.append("]: ");
    line.append(what.as_str());
    assert(line@ =~= "[actuation-can-ingress session="@ + text::decimal(session as nat) + " seq="@
        + text::decimal(sequence as nat) + "]: "@ + what@);
    Some(line)
}

/// The trace line of a headlamp frame that was not let through.
pub fn ignored_ingress_line(reason: &str, session: u16, sequence: u32) -> (line: String)
    ensures
        line@ == "[actuation-can-ingress ignored]: reason="@ + reason@ + " session="@
            + text::decimal(session as nat) + " seq="@ + text::decimal(sequence as nat),
{
    let mut line = String::new();
    line.append("[actuation-can-ingress ignored]: reason=");
    line.append(reason);
    line.append(" session=");
    text::append_decimal(&mut line, session as u64);
    line.append(" seq=");
    text::append_decimal(&mut line, sequence as u64);
    assert(line@ =~= "[actuation-can-ingress ignored]: reason="@ + reason@ + " session="@
        + text::decimal(session as nat) + " seq="@ + text::decimal(sequence as nat));
    line
}

/// Telemetry and headlamp answers never share a frame, so the order in which the two are tried
/// does not matter.
pub proof fn telemetry_and_answers_are_apart(frame: FrameView)
    ensures
        !(VssSignal::decoded(frame) is Some && can::headlamp_payload(frame) is Some),
{
}

} // verus!
