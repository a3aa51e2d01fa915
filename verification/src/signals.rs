//! Telemetry signals of the car and their frames.
use vstd::prelude::*;

use crate::can_frame;
use crate::can_frame::{build_frame, CanFrameError, FrameId, FrameView, WireFrame};

verus! {

pub const ID_SPEED: u16 = 0x101;

pub const ID_RPM: u16 = 0x102;

pub const ID_AMBIENT_LUX: u16 = 0x103;

/// Rain presence, from the windshield rain sensor.
pub const ID_RAIN_DETECTED: u16 = 0x104;

/// One decoded telemetry signal.
#[derive(Clone, Copy, Debug, PartialEq, Eq, Structural)]
pub enum VssSignal {
    /// Vehicle.Speed in hundredths of a km/h. Reserved for an observed-speed source; the twin
    /// derives its speed from the engine.
    VehicleSpeed(u16),
    /// Vehicle.Powertrain.CombustionEngine.Speed in rpm.
    EngineRpm(u16),
    /// Ambient light sensor in lux.
    AmbientLux(u16),
    /// Vehicle.Body.Windshield.Front.WipingSystem.RainSensor: rain is present.
    RainDetected(bool),
}

/// A number as two payload bytes, high byte first.
pub open spec fn two_bytes(n: u16) -> Seq<u8> {
    seq![can_frame::high_byte(n), can_frame::low_byte(n)]
}

impl VssSignal {
    /// The signal that a frame carries: a standard frame of a known identifier with at least two
    /// bytes of payload.
    pub open spec fn decoded(frame: FrameView) -> Option<VssSignal> {
        match frame.id {
            FrameId::Standard(id) => if frame.data.len() < 2 {
                None
            } else {
                let raw = can_frame::be16(frame.data[0], frame.data[1]);
                if id == ID_SPEED {
                    Some(VssSignal::VehicleSpeed(raw))
                } else if id == ID_RPM {
                    Some(VssSignal::EngineRpm(raw))
                } else if id == ID_AMBIENT_LUX {
                    Some(VssSignal::AmbientLux(raw))
                } else if id == ID_RAIN_DETECTED {
                    Some(VssSignal::RainDetected(frame.data[0] != 0))
                } else {
                    None
                }
            },
            FrameId::Extended(_) => None,
        }
    }

    /// The frame of a signal.
    pub open spec fn encoded(self) -> FrameView {
        match self {
            VssSignal::VehicleSpeed(n) => FrameView {
                id: FrameId::Standard(ID_SPEED),
                data: two_bytes(n),
            },
            VssSignal::EngineRpm(n) => FrameView {
                id: FrameId::Standard(ID_RPM),
                data: two_bytes(n),
            },
            VssSignal::AmbientLux(n) => FrameView {
                id: FrameId::Standard(ID_AMBIENT_LUX),
                data: two_bytes(n),
            },
            VssSignal::RainDetected(rain) => FrameView {
                id: FrameId::Standard(ID_RAIN_DETECTED),
                data: seq![if rain { 1u8 } else { 0u8 }, 0u8],
            },
        }
    }

    /// Reads a signal off a frame.
    pub fn from_can_frame(frame: &WireFrame) -> (signal: Option<VssSignal>)
        ensures
            signal == VssSignal::decoded(frame@),
    {
        let id: u16 = match frame.id {
            FrameId::Standard(id) => id,
            FrameId::Extended(_) => {
                return None;
            },
        };
        if frame.data.len() < 2 {
            return None;
        }
        let raw: u16 = can_frame::read_be16(frame.data[0], frame.data[1]);
        if id == ID_SPEED {
            Some(VssSignal::VehicleSpeed(raw))
        } else if id == ID_RPM {
            Some(VssSignal::EngineRpm(raw))
        } else if id == ID_AMBIENT_LUX {
            Some(VssSignal::AmbientLux(raw))
        } else if id == ID_RAIN_DETECTED {
            Some(VssSignal::RainDetected(frame.data[0] != 0))
        } else {
            None
        }
    }

    /// Makes the frame of a signal. Every signal has one.
    pub fn to_can_frame(&self) -> (frame: Result<WireFrame, CanFrameError>)
        ensures
            can_frame::frame_result(frame) == Ok::<FrameView, CanFrameError>(self.encoded()),
    {
        let (id, bytes): (u16, [u8; 2]) = match self {
            VssSignal::VehicleSpeed(n) => (ID_SPEED, [(*n / 256) as u8, (*n % 256) as u8]),
            VssSignal::EngineRpm(n) => (ID_RPM, [(*n / 256) as u8, (*n % 256) as u8]),
            VssSignal::AmbientLux(n) => (ID_AMBIENT_LUX, [(*n / 256) as u8, (*n % 256) as u8]),
            VssSignal::RainDetected(rain) => (
                ID_RAIN_DETECTED,
                [
                    if *rain {
                        1u8
                    } else {
                        0u8
                    },
                    0u8,
                ],
            ),
        };
        assert(bytes@ =~= self.encoded().data);
        build_frame(id, &bytes)
    }
}

/// Reading the frame of a signal gives the signal back.
pub proof fn signals_survive_the_wire(signal: VssSignal)
    ensures
        VssSignal::decoded(signal.encoded()) == Some(signal),
{
}

} // verus!
