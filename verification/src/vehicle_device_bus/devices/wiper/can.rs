//! Wiper payloads in CAN frames.
use vstd::prelude::*;

use super::codec::{decode_payload, encode_payload, WiperCommandPayload};
use crate::can_frame;
use crate::can_frame::{build_frame, CanFrameError, FrameId, FrameView, WireFrame};
use crate::twin_runtime::controller::actuation_contract::{ActuationCommand, CommandView};
use crate::vehicle_device_bus::can::wire_kinds::{KIND_WIPER_CMD_START, KIND_WIPER_CMD_STOP};

verus! {

pub const ID_WIPER: u16 = 0x205;

/// The kind of a wiper command.
pub open spec fn wiper_kind(command: CommandView) -> Option<u8> {
    match command {
        CommandView::StartWiper => Some(KIND_WIPER_CMD_START),
        CommandView::StopWiper => Some(KIND_WIPER_CMD_STOP),
        _ => None,
    }
}

/// The frame of a wiper payload.
pub open spec fn wiper_frame(kind: u8) -> FrameView {
    FrameView {
        id: FrameId::Standard(ID_WIPER),
        data: (WiperCommandPayload { kind }).bytes(),
    }
}

/// Makes the frame of a wiper command; a command for another device is refused.
pub fn encode_wiper_command_frame(cmd: &ActuationCommand) -> (frame: Result<
    WireFrame,
    CanFrameError,
>)
    ensures
        can_frame::frame_result(frame) == (match wiper_kind(cmd@) {
            Some(kind) => Ok::<FrameView, CanFrameError>(wiper_frame(kind)),
            None => Err(CanFrameError::ForeignCommand),
        }),
{
    let kind: u8 = match cmd {
        ActuationCommand::StartWiper => KIND_WIPER_CMD_START,
        ActuationCommand::StopWiper => KIND_WIPER_CMD_STOP,
        _ => {
            return Err(CanFrameError::ForeignCommand);
        },
    };
    let data = encode_payload(WiperCommandPayload { kind });
    build_frame(ID_WIPER, &data)
}

/// The wiper payload that a frame carries.
pub open spec fn wiper_payload(frame: FrameView) -> Option<WiperCommandPayload> {
    if frame.id == FrameId::Standard(ID_WIPER) {
        WiperCommandPayload::of_bytes(frame.data)
    } else {
        None
    }
}

/// Reads a wiper payload off a frame of the wiper.
pub fn decode_payload_from_can_frame(frame: &WireFrame) -> (payload: Option<WiperCommandPayload>)
    ensures
        payload == wiper_payload(frame@),
{
    match frame.id {
        FrameId::Standard(id) => {
            if id == ID_WIPER {
                decode_payload(frame.data.as_slice())
            } else {
                None
            }
        },
        FrameId::Extended(_) => None,
    }
}

/// Reading the frame of a wiper command gives the kind of the command back.
pub proof fn wiper_commands_survive_the_wire(command: CommandView)
    requires
        wiper_kind(command) is Some,
    ensures
        wiper_payload(wiper_frame(wiper_kind(command)->0)) == Some(
            WiperCommandPayload { kind: wiper_kind(command)->0 },
        ),
{
}

} // verus!
