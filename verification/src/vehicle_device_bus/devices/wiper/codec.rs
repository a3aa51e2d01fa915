//! Wiper payloads.
use vstd::prelude::*;

use crate::vehicle_device_bus::can::wire_kinds::{KIND_WIPER_CMD_START, KIND_WIPER_CMD_STOP};

verus! {

/// A wiper payload: one byte that tells the kind of command.
#[derive(Clone, Copy, Debug, PartialEq, Eq, Structural)]
pub struct WiperCommandPayload {
    pub kind: u8,
}

impl WiperCommandPayload {
    pub open spec fn known(self) -> bool {
        self.kind == KIND_WIPER_CMD_START || self.kind == KIND_WIPER_CMD_STOP
    }

    pub open spec fn bytes(self) -> Seq<u8> {
        seq![self.kind]
    }

    /// The payload of the bytes: the first byte, where it is a kind of wiper command.
    pub open spec fn of_bytes(data: Seq<u8>) -> Option<WiperCommandPayload> {
        if data.len() > 0 && (WiperCommandPayload { kind: data[0] }).known() {
            Some(WiperCommandPayload { kind: data[0] })
        } else {
            None
        }
    }
}

pub fn encode_payload(payload: WiperCommandPayload) -> (data: [u8; 1])
    ensures
        data@ == payload.bytes(),
{
    let data: [u8; 1] = [payload.kind];
    assert(data@ =~= payload.bytes());
    data
}

pub fn decode_payload(data: &[u8]) -> (payload: Option<WiperCommandPayload>)
    ensures
        payload == WiperCommandPayload::of_bytes(data@),
{
    if data.len() == 0 {
        return None;
    }
    let kind: u8 = data[0];
    if kind == KIND_WIPER_CMD_START || kind == KIND_WIPER_CMD_STOP {
        Some(WiperCommandPayload { kind })
    } else {
        None
    }
}

} // verus!
