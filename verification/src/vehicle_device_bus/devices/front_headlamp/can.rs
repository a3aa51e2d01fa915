//! Front-headlamp payloads in CAN frames, from the sender's and from the actuator's side.
use vstd::prelude::*;

use super::codec;
use super::codec::{decode_payload, encode_payload, FrontHeadlampPayload};
use crate::can_frame;
use crate::can_frame::{build_frame, CanFrameError, FrameId, FrameView, WireFrame};
use crate::domain_types::PhysicalCarVocabulary;
use crate::twin_runtime::controller::actuation_contract::{
    ActuationCommand, CommandView, CorrelationId, CorrelationView,
};
use crate::vehicle_device_bus::can::wire_kinds::{
    KIND_FRONT_HEADLAMP_ACK_OFF, KIND_FRONT_HEADLAMP_ACK_ON, KIND_FRONT_HEADLAMP_CMD_OFF,
    KIND_FRONT_HEADLAMP_CMD_ON, KIND_FRONT_HEADLAMP_NACK_OFF, KIND_FRONT_HEADLAMP_NACK_ON,
};

verus! {

pub const ID_FRONT_HEADLAMP: u16 = 0x204;

/// The source under which an actuator reads commands off the bus.
pub const WIRE_SOURCE: &'static str = "can";

/// A headlamp command on the wire: whether it is an ON command, and the low bits of its session
/// and sequence number.
#[derive(Clone, Copy, Debug, PartialEq, Eq, Structural)]
pub struct WireCommand {
    pub on_command: bool,
    pub session_id: u16,
    pub sequence_no: u32,
}

pub open spec fn wire_command_of(on_command: bool, correlation: CorrelationView) -> WireCommand {
    WireCommand {
        on_command,
        session_id: (correlation.session_id % 65536) as u16,
        sequence_no: (correlation.sequence_no % 4294967296) as u32,
    }
}

/// The wire form of a headlamp command; a wiper command has none.
pub open spec fn wire_command(command: CommandView) -> Option<WireCommand> {
    match command {
        CommandView::SwitchFrontHeadlampOn { correlation_id } => Some(
            wire_command_of(true, correlation_id),
        ),
        CommandView::SwitchFrontHeadlampOff { correlation_id } => Some(
            wire_command_of(false, correlation_id),
        ),
        _ => None,
    }
}

/// What a frame is to say about a command.
#[derive(Clone, Copy, Debug, PartialEq, Eq, Structural)]
pub enum Purpose {
    Command,
    Ack,
    Nack,
}

pub open spec fn kind_of(purpose: Purpose, on_command: bool) -> u8 {
    match (purpose, on_command) {
        (Purpose::Command, true) => KIND_FRONT_HEADLAMP_CMD_ON,
        (Purpose::Command, false) => KIND_FRONT_HEADLAMP_CMD_OFF,
        (Purpose::Ack, true) => KIND_FRONT_HEADLAMP_ACK_ON,
        (Purpose::Ack, false) => KIND_FRONT_HEADLAMP_ACK_OFF,
        (Purpose::Nack, true) => KIND_FRONT_HEADLAMP_NACK_ON,
        (Purpose::Nack, false) => KIND_FRONT_HEADLAMP_NACK_OFF,
    }
}

pub open spec fn payload_for(purpose: Purpose, wire: WireCommand) -> FrontHeadlampPayload {
    FrontHeadlampPayload {
        kind: kind_of(purpose, wire.on_command),
        session_id: wire.session_id,
        sequence_no: wire.sequence_no,
    }
}

/// The frame that says something about a command.
pub open spec fn headlamp_frame(purpose: Purpose, wire: WireCommand) -> FrameView {
    FrameView {
        id: FrameId::Standard(ID_FRONT_HEADLAMP),
        data: payload_for(purpose, wire).bytes(),
    }
}

fn low_bits(on_command: bool, correlation: &CorrelationId) -> (wire: WireCommand)
    ensures
        wire == wire_command_of(on_command, correlation@),
{
    WireCommand {
        on_command,
        session_id: (correlation.session_id % 65536) as u16,
        sequence_no: (correlation.sequence_no % 4294967296) as u32,
    }
}

/// The wire form of a headlamp command; a wiper command has none.
pub fn wire_form(cmd: &ActuationCommand) -> (wire: Option<WireCommand>)
    ensures
        wire == wire_command(cmd@),
{
    match cmd {
        ActuationCommand::SwitchFrontHeadlampOn { correlation_id } => Some(
            low_bits(true, correlation_id),
        ),
        ActuationCommand::SwitchFrontHeadlampOff { correlation_id } => Some(
            low_bits(false, correlation_id),
        ),
        _ => None,
    }
}

/// Session and sequence number of a headlamp command on the wire.
pub fn actuation_command_wire_meta(cmd: &ActuationCommand) -> (meta: Option<(u16, u32)>)
    ensures
        meta == (match wire_command(cmd@) {
            Some(wire) => Some((wire.session_id, wire.sequence_no)),
            None => None,
        }),
{
    match wire_form(cmd) {
        Some(wire) => Some((wire.session_id, wire.sequence_no)),
        None => None,
    }
}

pub open spec fn encoded(purpose: Purpose, command: CommandView) -> Result<
    FrameView,
    CanFrameError,
> {
    match wire_command(command) {
        Some(wire) => Ok(headlamp_frame(purpose, wire)),
        None => Err(CanFrameError::ForeignCommand),
    }
}

fn encode_frame(purpose: Purpose, cmd: &ActuationCommand) -> (frame: Result<
    WireFrame,
    CanFrameError,
>)
    ensures
        can_frame::frame_result(frame) == encoded(purpose, cmd@),
{
    let wire = match wire_form(cmd) {
        Some(wire) => wire,
        None => {
            return Err(CanFrameError::ForeignCommand);
        },
    };
    let kind: u8 = match (purpose, wire.on_command) {
        (Purpose::Command, true) => KIND_FRONT_HEADLAMP_CMD_ON,
        (Purpose::Command, false) => KIND_FRONT_HEADLAMP_CMD_OFF,
        (Purpose::Ack, true) => KIND_FRONT_HEADLAMP_ACK_ON,
        (Purpose::Ack, false) => KIND_FRONT_HEADLAMP_ACK_OFF,
        (Purpose::Nack, true) => KIND_FRONT_HEADLAMP_NACK_ON,
        (Purpose::Nack, false) => KIND_FRONT_HEADLAMP_NACK_OFF,
    };
    let data = encode_payload(
        FrontHeadlampPayload {
            kind,
            session_id: wire.session_id,
            sequence_no: wire.sequence_no,
        },
    );
    build_frame(ID_FRONT_HEADLAMP, &data)
}

/// The frame of a headlamp command; a command for another device is refused.
pub fn encode_command_frame(cmd: &ActuationCommand) -> (frame: Result<WireFrame, CanFrameError>)
    ensures
        can_frame::frame_result(frame) == encoded(Purpose::Command, cmd@),
{
    encode_frame(Purpose::Command, cmd)
}

/// The frame that acknowledges a headlamp command.
pub fn encode_ack_frame(cmd: &ActuationCommand) -> (frame: Result<WireFrame, CanFrameError>)
    ensures
        can_frame::frame_result(frame) == encoded(Purpose::Ack, cmd@),
{
    encode_frame(Purpose::Ack, cmd)
}

/// The frame that rejects a headlamp command.
pub fn encode_nack_frame(cmd: &ActuationCommand) -> (frame: Result<WireFrame, CanFrameError>)
    ensures
        can_frame::frame_result(frame) == encoded(Purpose::Nack, cmd@),
{
    encode_frame(Purpose::Nack, cmd)
}

/// The headlamp payload that a frame carries.
pub open spec fn headlamp_payload(frame: FrameView) -> Option<FrontHeadlampPayload> {
    if frame.id == FrameId::Standard(ID_FRONT_HEADLAMP) {
        FrontHeadlampPayload::of_bytes(frame.data)
    } else {
        None
    }
}

/// Reads a headlamp payload off a frame of the headlamp.
pub fn decode_payload_from_can_frame(frame: &WireFrame) -> (payload: Option<FrontHeadlampPayload>)
    ensures
        payload == headlamp_payload(frame@),
{
    match frame.id {
        FrameId::Standard(id) => {
            if id == ID_FRONT_HEADLAMP {
                decode_payload(frame.data.as_slice())
            } else {
                None
            }
        },
        FrameId::Extended(_) => None,
    }
}

/// The command that a command payload stands for on the actuator's side.
pub open spec fn command_of_payload(payload: FrontHeadlampPayload) -> Option<CommandView> {
    let correlation_id = CorrelationView {
        source_id: WIRE_SOURCE@,
        session_id: payload.session_id as u64,
        sequence_no: payload.sequence_no as u64,
    };
    if payload.kind == KIND_FRONT_HEADLAMP_CMD_ON {
        Some(CommandView::SwitchFrontHeadlampOn { correlation_id })
    } else if payload.kind == KIND_FRONT_HEADLAMP_CMD_OFF {
        Some(CommandView::SwitchFrontHeadlampOff { correlation_id })
    } else {
        None
    }
}

/// The command that a command payload stands for; an answer stands for none.
pub fn actuation_command_from_cmd_payload(payload: FrontHeadlampPayload) -> (command: Option<
    ActuationCommand,
>)
    ensures
        (match command {
            Some(c) => Some(c@),
            None => None,
        }) == command_of_payload(payload),
{
    let correlation_id = CorrelationId {
        source_id: WIRE_SOURCE.to_owned(),
        session_id: payload.session_id as u64,
        sequence_no: payload.sequence_no as u64,
    };
    match payload.kind {
        KIND_FRONT_HEADLAMP_CMD_ON => Some(
            ActuationCommand::SwitchFrontHeadlampOn { correlation_id },
        ),
        KIND_FRONT_HEADLAMP_CMD_OFF => Some(
            ActuationCommand::SwitchFrontHeadlampOff { correlation_id },
        ),
        _ => None,
    }
}

/// The headlamp and the wiper never read each other's frames.
pub proof fn devices_do_not_collide(frame: FrameView)
    ensures
        ID_FRONT_HEADLAMP != crate::vehicle_device_bus::devices::wiper::can::ID_WIPER,
        headlamp_payload(frame) is Some
            ==> crate::vehicle_device_bus::devices::wiper::can::wiper_payload(frame) is None,
{
}

/// What is read off a headlamp frame is what the frame was made of.
pub proof fn frames_carry_their_payload(purpose: Purpose, wire: WireCommand)
    ensures
        headlamp_payload(headlamp_frame(purpose, wire)) == Some(payload_for(purpose, wire)),
{
    codec::payloads_survive_the_wire(payload_for(purpose, wire));
}

/// A command reaches the actuator under its wire numbers: the command that the actuator reads has
/// the wire form of the command that was sent, so its answer comes back under the same numbers.
/// The command itself says nothing of the physical world; its answer confirms or rejects it.
pub proof fn commands_and_answers_correspond(wire: WireCommand)
    ensures
        ({
            let read = command_of_payload(payload_for(Purpose::Command, wire));
            &&& read is Some
            &&& wire_command(read->0) == Some(wire)
            &&& payload_for(Purpose::Command, wire).physical() is None
            &&& payload_for(Purpose::Ack, wire).physical() == Some(
                PhysicalCarVocabulary::FrontHeadlampCommandConfirmed {
                    on_command: wire.on_command,
                },
            )
            &&& payload_for(Purpose::Nack, wire).physical() == Some(
                PhysicalCarVocabulary::FrontHeadlampCommandRejected {
                    on_command: wire.on_command,
                },
            )
            &&& command_of_payload(payload_for(Purpose::Ack, wire)) is None
            &&& command_of_payload(payload_for(Purpose::Nack, wire)) is None
        }),
{
}

} // verus!
