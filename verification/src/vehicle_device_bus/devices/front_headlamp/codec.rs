//! Front-headlamp payloads: a kind, the session and the sequence number of the command.
use vstd::prelude::*;

use crate::can_frame;
use crate::domain_types::PhysicalCarVocabulary;
use crate::vehicle_device_bus::can::wire_kinds::{
    KIND_FRONT_HEADLAMP_ACK_OFF, KIND_FRONT_HEADLAMP_ACK_ON, KIND_FRONT_HEADLAMP_CMD_OFF,
    KIND_FRONT_HEADLAMP_CMD_ON, KIND_FRONT_HEADLAMP_NACK_OFF, KIND_FRONT_HEADLAMP_NACK_ON,
};

verus! {

/// Length of a front-headlamp payload.
pub const PAYLOAD_LEN: usize = 7;

#[derive(Clone, Copy, Debug, PartialEq, Eq, Structural)]
pub struct FrontHeadlampPayload {
    pub kind: u8,
    pub session_id: u16,
    pub sequence_no: u32,
}

pub open spec fn known_kind(kind: u8) -> bool {
    ||| kind == KIND_FRONT_HEADLAMP_CMD_ON
    ||| kind == KIND_FRONT_HEADLAMP_CMD_OFF
    ||| kind == KIND_FRONT_HEADLAMP_ACK_ON
    ||| kind == KIND_FRONT_HEADLAMP_ACK_OFF
    ||| kind == KIND_FRONT_HEADLAMP_NACK_ON
    ||| kind == KIND_FRONT_HEADLAMP_NACK_OFF
}

fn is_known_kind(kind: u8) -> (r: bool)
    ensures
        r == known_kind(kind),
{
    kind == KIND_FRONT_HEADLAMP_CMD_ON || kind == KIND_FRONT_HEADLAMP_CMD_OFF || kind
        == KIND_FRONT_HEADLAMP_ACK_ON || kind == KIND_FRONT_HEADLAMP_ACK_OFF || kind
        == KIND_FRONT_HEADLAMP_NACK_ON || kind == KIND_FRONT_HEADLAMP_NACK_OFF
}

/// The upper and the lower half of a number of 32 bits.
pub open spec fn upper_half(n: u32) -> u16 {
    (n / 65536) as u16
}

pub open spec fn lower_half(n: u32) -> u16 {
    (n % 65536) as u16
}

impl FrontHeadlampPayload {
    /// The bytes of the payload; numbers go high byte first.
    pub open spec fn bytes(self) -> Seq<u8> {
        let high = upper_half(self.sequence_no);
        let low = lower_half(self.sequence_no);
        seq![
            self.kind,
            can_frame::high_byte(self.session_id),
            can_frame::low_byte(self.session_id),
            can_frame::high_byte(high),
            can_frame::low_byte(high),
            can_frame::high_byte(low),
            can_frame::low_byte(low),
        ]
    }

    /// The payload of the bytes, where they are of the right length and a known kind.
    pub open spec fn of_bytes(data: Seq<u8>) -> Option<FrontHeadlampPayload> {
        if data.len() == PAYLOAD_LEN && known_kind(data[0]) {
            Some(
                FrontHeadlampPayload {
                    kind: data[0],
                    session_id: can_frame::be16(data[1], data[2]),
                    sequence_no: (can_frame::be16(data[3], data[4]) * 65536 + can_frame::be16(
                        data[5],
                        data[6],
                    )) as u32,
                },
            )
        } else {
            None
        }
    }

    /// What an actuator's answer says of the physical world; a command says nothing.
    pub open spec fn physical(self) -> Option<PhysicalCarVocabulary> {
        if self.kind == KIND_FRONT_HEADLAMP_ACK_ON {
            Some(PhysicalCarVocabulary::FrontHeadlampCommandConfirmed { on_command: true })
        } else if self.kind == KIND_FRONT_HEADLAMP_ACK_OFF {
            Some(PhysicalCarVocabulary::FrontHeadlampCommandConfirmed { on_command: false })
        } else if self.kind == KIND_FRONT_HEADLAMP_NACK_ON {
            Some(PhysicalCarVocabulary::FrontHeadlampCommandRejected { on_command: true })
        } else if self.kind == KIND_FRONT_HEADLAMP_NACK_OFF {
            Some(PhysicalCarVocabulary::FrontHeadlampCommandRejected { on_command: false })
        } else {
            None
        }
    }
}

pub fn encode_payload(payload: FrontHeadlampPayload) -> (data: [u8; 7])
    ensures
        data@ == payload.bytes(),
{
    let high: u16 = (payload.sequence_no / 65536) as u16;
    let low: u16 = (payload.sequence_no % 65536) as u16;
    let data: [u8; 7] = [
        payload.kind,
        (payload.session_id / 256) as u8,
        (payload.session_id % 256) as u8,
        (high / 256) as u8,
        (high % 256) as u8,
        (low / 256) as u8,
        (low % 256) as u8,
    ];
    assert(data@ =~= payload.bytes());
    data
}

pub fn decode_payload(data: &[u8]) -> (payload: Option<FrontHeadlampPayload>)
    ensures
        payload == FrontHeadlampPayload::of_bytes(data@),
{
    if data.len() != PAYLOAD_LEN || !is_known_kind(data[0]) {
        return None;
    }
    let high: u32 = can_frame::read_be16(data[3], data[4]) as u32;
    let low: u32 = can_frame::read_be16(data[5], data[6]) as u32;
    Some(
        FrontHeadlampPayload {
            kind: data[0],
            session_id: can_frame::read_be16(data[1], data[2]),
            sequence_no: high * 65536 + low,
        },
    )
}

/// What an actuator's answer says of the physical world; a command says nothing.
pub fn payload_to_physical(payload: FrontHeadlampPayload) -> (physical: Option<
    PhysicalCarVocabulary,
>)
    ensures
        physical == payload.physical(),
{
    match payload.kind {
        KIND_FRONT_HEADLAMP_ACK_ON => Some(
            PhysicalCarVocabulary::FrontHeadlampCommandConfirmed { on_command: true },
        ),
        KIND_FRONT_HEADLAMP_ACK_OFF => Some(
            PhysicalCarVocabulary::FrontHeadlampCommandConfirmed { on_command: false },
        ),
        KIND_FRONT_HEADLAMP_NACK_ON => Some(
            PhysicalCarVocabulary::FrontHeadlampCommandRejected { on_command: true },
        ),
        KIND_FRONT_HEADLAMP_NACK_OFF => Some(
            PhysicalCarVocabulary::FrontHeadlampCommandRejected { on_command: false },
        ),
        _ => None,
    }
}

/// Reading the bytes of a payload of a known kind gives the payload back.
pub proof fn payloads_survive_the_wire(payload: FrontHeadlampPayload)
    requires
        known_kind(payload.kind),
    ensures
        FrontHeadlampPayload::of_bytes(payload.bytes()) == Some(payload),
{
    can_frame::be16_round_trip(payload.session_id);
    can_frame::be16_round_trip(upper_half(payload.sequence_no));
    can_frame::be16_round_trip(lower_half(payload.sequence_no));
}

} // verus!
