//! The kinds of payload on the wire.
use vstd::prelude::*;

verus! {

pub const KIND_FRONT_HEADLAMP_CMD_ON: u8 = 0x01;

pub const KIND_FRONT_HEADLAMP_CMD_OFF: u8 = 0x02;

pub const KIND_FRONT_HEADLAMP_ACK_ON: u8 = 0x81;

pub const KIND_FRONT_HEADLAMP_ACK_OFF: u8 = 0x82;

pub const KIND_FRONT_HEADLAMP_NACK_ON: u8 = 0xC1;

pub const KIND_FRONT_HEADLAMP_NACK_OFF: u8 = 0xC2;

/// Wiper commands are fire-and-forget.
pub const KIND_WIPER_CMD_START: u8 = 0x11;

pub const KIND_WIPER_CMD_STOP: u8 = 0x12;

} // verus!
