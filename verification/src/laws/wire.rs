//! What frames mean, and where they go.
use vstd::prelude::*;

use crate::can_frame;
use crate::can_frame::{CanFrameError, FrameId, FrameView};
use crate::domain_types::{PhysicalCarVocabulary, VehicleEvent, VehicleState};
use crate::fsm::machineries::{FsmEvent, FsmState};
use crate::gateway::ingress;
use crate::gateway::ingress::FrameRoute;
use crate::signals::VssSignal;
use crate::twin_runtime::connectors::physical_to_digital;
use crate::twin_runtime::controller::actuation_contract::{CommandView, CorrelationView};
use crate::vehicle_device_bus::devices::front_headlamp::can;
use crate::vehicle_device_bus::devices::front_headlamp::can::{Purpose, WireCommand};
use crate::vehicle_device_bus::devices::front_headlamp::codec::FrontHeadlampPayload;
use crate::vehicle_device_bus::devices::front_headlamp::policy;
use crate::vehicle_device_bus::devices::wiper::can as wiper_can;
use crate::vehicle_device_bus::devices::wiper::codec::WiperCommandPayload;
use crate::vehicle_state::front_headlamp::{
    FrontHeadlampIncompleteCause, FrontHeadlampSwitchDirection,
};

verus! {

/// A frame carries telemetry exactly when it is a standard frame of an identifier from 0x101 to
/// 0x104 with two bytes of payload or more. The identifier tells the signal, and the first two
/// bytes its value, high byte first; rain is present where the first byte is not zero.
pub proof fn telemetry_is_told_by_identifier(frame: FrameView)
    ensures
        ({
            let signal = VssSignal::decoded(frame);
            let value = 256 * frame.data[0] + frame.data[1];
            &&& signal is Some <==> (frame.id matches FrameId::Standard(id) && 0x101 <= id <= 0x104)
                && frame.data.len() >= 2
            &&& signal is Some && frame.id == FrameId::Standard(0x101) ==> (signal->0 matches
                VssSignal::VehicleSpeed(n) && n == value)
            &&& signal is Some && frame.id == FrameId::Standard(0x102) ==> (signal->0 matches
                VssSignal::EngineRpm(n) && n == value)
            &&& signal is Some && frame.id == FrameId::Standard(0x103) ==> (signal->0 matches
                VssSignal::AmbientLux(n) && n == value)
            &&& signal is Some && frame.id == FrameId::Standard(0x104) ==> (signal->0 matches
                VssSignal::RainDetected(rain) && (rain <==> frame.data[0] >= 1))
        }),
{
}

/// The frame of a signal is a standard frame of two bytes under the identifier of the signal; a
/// number goes high byte first, and rain is a one.
pub proof fn signals_have_their_frames(signal: VssSignal)
    ensures
        ({
            let frame = signal.encoded();
            &&& frame.data.len() == 2
            &&& frame.id == FrameId::Standard(
                match signal {
                    VssSignal::VehicleSpeed(_) => 0x101,
                    VssSignal::EngineRpm(_) => 0x102,
                    VssSignal::AmbientLux(_) => 0x103,
                    VssSignal::RainDetected(_) => 0x104,
                },
            )
            &&& 256 * frame.data[0] + frame.data[1] == match signal {
                VssSignal::VehicleSpeed(n) => n as int,
                VssSignal::EngineRpm(n) => n as int,
                VssSignal::AmbientLux(n) => n as int,
                VssSignal::RainDetected(rain) => if rain {
                    256
                } else {
                    0
                },
            }
        }),
{
}

/// Telemetry goes to the twin as it was read, whatever the signal, with the one exception of an
/// observed speed, which nothing consumes: exactly a vehicle speed is routed as such.
pub proof fn telemetry_goes_to_the_twin(signal: VssSignal)
    ensures
        ingress::telemetry_route(signal) == FrameRoute::ObservedSpeed <==> signal is VehicleSpeed,
        !(signal is VehicleSpeed) ==> ingress::telemetry_route(signal) == FrameRoute::Physical(
            PhysicalCarVocabulary::TelemetryUpdate(signal),
        ),
{
}

/// An observed event becomes the physical fact of the same name.
pub proof fn observed_events_become_facts(event: VehicleEvent)
    ensures
        ({
            let fact = ingress::physical_of(event);
            &&& event matches VehicleEvent::TelemetryUpdate(signal) ==> fact
                == PhysicalCarVocabulary::TelemetryUpdate(signal)
            &&& event is TimerTick <==> fact is TimerTick
            &&& event is SystemReset <==> fact is SystemReset
        }),
{
}

/// A reading travels from its frame to the event of the twin without loss: engine speed and light
/// carry their number, rain starts or stops, and an observed speed becomes no event.
pub proof fn readings_reach_the_twin(frame: FrameView)
    requires
        VssSignal::decoded(frame) is Some,
    ensures
        ({
            let signal = VssSignal::decoded(frame)->0;
            let event = physical_to_digital::event_of(
                PhysicalCarVocabulary::TelemetryUpdate(signal),
            );
            let value = 256 * frame.data[0] + frame.data[1];
            &&& frame.id == FrameId::Standard(0x101) <==> event is None
            &&& frame.id == FrameId::Standard(0x102) ==> (event->0 matches FsmEvent::UpdateRpm(n)
                && n == value)
            &&& frame.id == FrameId::Standard(0x103) ==> (event->0 matches
                FsmEvent::UpdateAmbientLux(n) && n == value)
            &&& frame.id == FrameId::Standard(0x104) && frame.data[0] != 0 ==> event->0
                == FsmEvent::RainsStarted
            &&& frame.id == FrameId::Standard(0x104) && frame.data[0] == 0 ==> event->0
                == FsmEvent::RainsStopped
        }),
{
    telemetry_is_told_by_identifier(frame);
}

/// A heartbeat is one for the twin, a reset switches it off, a confirmed command acknowledges its
/// direction, and a rejected one is a failure of its direction.
pub proof fn facts_become_events(on_command: bool)
    ensures
        physical_to_digital::event_of(PhysicalCarVocabulary::TimerTick) == Some(
            FsmEvent::TimerTick,
        ),
        physical_to_digital::event_of(PhysicalCarVocabulary::SystemReset) == Some(
            FsmEvent::PowerOff,
        ),
        ({
            let confirmed = physical_to_digital::event_of(
                PhysicalCarVocabulary::FrontHeadlampCommandConfirmed { on_command },
            );
            let rejected = physical_to_digital::event_of(
                PhysicalCarVocabulary::FrontHeadlampCommandRejected { on_command },
            );
            &&& on_command ==> confirmed == Some(FsmEvent::FrontHeadlampOnAck)
            &&& !on_command ==> confirmed == Some(FsmEvent::FrontHeadlampOffAck)
            &&& rejected matches Some(
                FsmEvent::FrontHeadlampActuationIncomplete { direction, cause },
            ) && cause == FrontHeadlampIncompleteCause::NegativeAck && (direction
                == FrontHeadlampSwitchDirection::On <==> on_command)
        }),
{
}

/// A headlamp payload is seven bytes: its kind, then the session and the sequence number, high
/// byte first.
pub proof fn headlamp_payloads_are_laid_out_so(payload: FrontHeadlampPayload)
    ensures
        ({
            let data = payload.bytes();
            &&& data.len() == 7
            &&& data[0] == payload.kind
            &&& 256 * data[1] + data[2] == payload.session_id
            &&& 16777216 * data[3] + 65536 * data[4] + 256 * data[5] + data[6]
                == payload.sequence_no
        }),
{
}

/// A frame carries a headlamp payload exactly when it is the standard frame 0x204 with seven bytes
/// of which the first is a kind of headlamp payload.
pub proof fn headlamp_frames_are_told_by_identifier(frame: FrameView)
    ensures
        ({
            let payload = can::headlamp_payload(frame);
            let data = frame.data;
            &&& payload is Some <==> frame.id == FrameId::Standard(0x204) && data.len() == 7 && (
            data[0] == 0x01 || data[0] == 0x02 || data[0] == 0x81 || data[0] == 0x82 || data[0]
                == 0xC1 || data[0] == 0xC2)
            &&& payload is Some ==> {
                &&& payload->0.kind == data[0]
                &&& payload->0.session_id == 256 * data[1] + data[2]
                &&& payload->0.sequence_no == 16777216 * data[3] + 65536 * data[4] + 256 * data[5]
                    + data[6]
            }
        }),
{
    if can::headlamp_payload(frame) is Some {
        let data = frame.data;
        let high = can_frame::be16(data[3], data[4]);
        let low = can_frame::be16(data[5], data[6]);
        assert(high == 256 * data[3] + data[4]);
        assert(low == 256 * data[5] + data[6]);
        assert(high * 65536 + low <= 0xffff_ffff);
    }
}

/// A payload of kind 0x81 or 0x82 confirms an ON or an OFF command, one of kind 0xC1 or 0xC2 rejects
/// it, and no other kind says anything of the world.
pub proof fn answers_are_told_by_kind(payload: FrontHeadlampPayload)
    ensures
        ({
            let fact = payload.physical();
            &&& fact is Some <==> payload.kind == 0x81 || payload.kind == 0x82 || payload.kind
                == 0xC1 || payload.kind == 0xC2
            &&& fact is Some && payload.kind <= 0x82 ==> (fact->0 matches
                PhysicalCarVocabulary::FrontHeadlampCommandConfirmed { on_command } && (on_command
                <==> payload.kind == 0x81))
            &&& fact is Some && payload.kind >= 0xC1 ==> (fact->0 matches
                PhysicalCarVocabulary::FrontHeadlampCommandRejected { on_command } && (on_command
                <==> payload.kind == 0xC1))
        }),
{
}

/// A headlamp frame speaks of its command under the command's own numbers, with the kind of what
/// it says and of the command's direction.
pub proof fn headlamp_frames_tell_their_purpose(purpose: Purpose, wire: WireCommand)
    ensures
        ({
            let frame = can::headlamp_frame(purpose, wire);
            let data = frame.data;
            &&& frame.id == FrameId::Standard(0x204)
            &&& data.len() == 7
            &&& 256 * data[1] + data[2] == wire.session_id
            &&& 16777216 * data[3] + 65536 * data[4] + 256 * data[5] + data[6] == wire.sequence_no
            &&& data[0] == match purpose {
                Purpose::Command => 0x00u8,
                Purpose::Ack => 0x80,
                Purpose::Nack => 0xC0,
            } + if wire.on_command {
                1int
            } else {
                2
            }
        }),
{
    headlamp_payloads_are_laid_out_so(can::payload_for(purpose, wire));
}

/// On the wire a headlamp command keeps its direction and the low bits of its numbers, 16 of the
/// session and 32 of the sequence. A wiper command has no such form.
pub proof fn commands_keep_their_low_bits(command: CommandView)
    ensures
        ({
            let wire = can::wire_command(command);
            &&& command matches CommandView::SwitchFrontHeadlampOn { correlation_id } ==> {
                &&& wire is Some
                &&& wire->0.on_command
                &&& wire->0.session_id == correlation_id.session_id % 0x1_0000
                &&& wire->0.sequence_no == correlation_id.sequence_no % 0x1_0000_0000
            }
            &&& command matches CommandView::SwitchFrontHeadlampOff { correlation_id } ==> {
                &&& wire is Some
                &&& !wire->0.on_command
                &&& wire->0.session_id == correlation_id.session_id % 0x1_0000
                &&& wire->0.sequence_no == correlation_id.sequence_no % 0x1_0000_0000
            }
            &&& command is StartWiper || command is StopWiper ==> wire is None
        }),
{
}

/// A headlamp command has a frame for each purpose, and a wiper command has none.
pub proof fn only_headlamp_commands_are_framed_as_such(purpose: Purpose, command: CommandView)
    ensures
        ({
            let framed = can::encoded(purpose, command);
            &&& framed is Ok <==> command is SwitchFrontHeadlampOn
                || command is SwitchFrontHeadlampOff
            &&& framed is Ok ==> framed->Ok_0 == can::headlamp_frame(
                purpose,
                can::wire_command(command)->0,
            )
        }),
{
}

/// The actuator reads a command of kind 0x01 as ON and one of kind 0x02 as OFF, under the numbers
/// of the payload; no other kind is a command.
pub proof fn the_actuator_reads_commands(payload: FrontHeadlampPayload)
    ensures
        ({
            let command = can::command_of_payload(payload);
            let numbers = CorrelationView {
                source_id: "can"@,
                session_id: payload.session_id as u64,
                sequence_no: payload.sequence_no as u64,
            };
            &&& payload.kind == 0x01 ==> command == Some(
                CommandView::SwitchFrontHeadlampOn { correlation_id: numbers },
            )
            &&& payload.kind == 0x02 ==> command == Some(
                CommandView::SwitchFrontHeadlampOff { correlation_id: numbers },
            )
            &&& payload.kind != 0x01 && payload.kind != 0x02 ==> command is None
        }),
{
}

/// A payload answers a command exactly when it confirms or rejects a command of the same direction
/// under the same session and sequence number.
pub proof fn answers_match_in_direction_and_numbers(
    payload: FrontHeadlampPayload,
    wire: WireCommand,
)
    ensures
        policy::answers(payload, wire) <==> payload.session_id == wire.session_id
            && payload.sequence_no == wire.sequence_no && if wire.on_command {
            payload.kind == 0x81 || payload.kind == 0xC1
        } else {
            payload.kind == 0x82 || payload.kind == 0xC2
        },
{
}

/// A wiper command is the standard frame 0x205 with the one byte 0x11 to start and 0x12 to stop; a
/// headlamp command has no such frame.
pub proof fn wiper_commands_have_their_frames(command: CommandView)
    ensures
        ({
            let kind = wiper_can::wiper_kind(command);
            &&& command is StartWiper ==> kind == Some(0x11u8)
            &&& command is StopWiper ==> kind == Some(0x12u8)
            &&& kind is Some <==> command is StartWiper || command is StopWiper
            &&& kind is Some ==> {
                &&& wiper_can::wiper_frame(kind->0).id == FrameId::Standard(0x205)
                &&& wiper_can::wiper_frame(kind->0).data == seq![kind->0]
            }
        }),
{
}

/// A frame carries a wiper command exactly when it is the standard frame 0x205 that begins with the
/// byte 0x11 or 0x12.
pub proof fn wiper_frames_are_told_by_identifier(frame: FrameView)
    ensures
        ({
            let payload = wiper_can::wiper_payload(frame);
            &&& payload is Some <==> frame.id == FrameId::Standard(0x205) && frame.data.len() >= 1
                && (frame.data[0] == 0x11 || frame.data[0] == 0x12)
            &&& payload is Some ==> payload->0 == (WiperCommandPayload { kind: frame.data[0] })
        }),
{
}

/// The outside world is told each mode under a name of its own; driving dangerously is critical.
pub proof fn modes_are_told_apart(a: FsmState, b: FsmState)
    ensures
        a.public_state() == b.public_state() <==> a == b || (a is ExtremeOperationWarning
            && b is ExtremeOperationWarning),
        a is Off <==> a.public_state() == VehicleState::Off,
        a is PreparingToStart <==> a.public_state() == VehicleState::PreparingToStart,
        a is Idle <==> a.public_state() == VehicleState::Idle,
        a is Driving <==> a.public_state() == VehicleState::Driving,
        a is DrivingDangerously <==> a.public_state() == VehicleState::Critical,
        a is ExtremeOperationWarning <==> a.public_state() == VehicleState::ExtremeOperationWarning,
        a is PreparingToStop <==> a.public_state() == VehicleState::PreparingToStop,
{
}

/// A frame is made of an identifier of eleven bits and a payload of up to eight bytes, as they are.
/// A larger identifier is refused as such, and then a longer payload.
pub proof fn frames_are_made_within_bounds(id: u16, data: Seq<u8>)
    ensures
        ({
            let made = can_frame::built(id, data);
            &&& id >= 0x800 ==> made == Err::<FrameView, CanFrameError>(
                CanFrameError::InvalidId(id),
            )
            &&& id < 0x800 && data.len() >= 9 ==> made == Err::<FrameView, CanFrameError>(
                CanFrameError::DataTooLong,
            )
            &&& id < 0x800 && data.len() <= 8 ==> made is Ok && made->Ok_0.id == FrameId::Standard(
                id,
            ) && made->Ok_0.data == data
        }),
{
}

/// A mode is converted to what the outside world is told of it.
pub proof fn modes_are_converted_as_told(mode: FsmState)
    ensures
        <VehicleState as vstd::std_specs::convert::FromSpec<&FsmState>>::from_spec(&mode)
            == mode.public_state(),
{
}

} // verus!
