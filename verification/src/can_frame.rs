//! CAN frames as plain values, and their making.
use socketcan::EmbeddedFrame;
use vstd::prelude::*;

verus! {

/// The identifier of a frame.
#[derive(Clone, Copy, Debug, PartialEq, Eq, Structural)]
pub enum FrameId {
    Standard(u16),
    Extended(u32),
}

/// A frame: its identifier and its payload.
#[derive(Debug, PartialEq, Eq)]
pub struct WireFrame {
    pub id: FrameId,
    pub data: Vec<u8>,
}

#[verifier::ext_equal]
pub struct FrameView {
    pub id: FrameId,
    pub data: Seq<u8>,
}

impl View for WireFrame {
    type V = FrameView;

    open spec fn view(&self) -> FrameView {
        FrameView { id: self.id, data: self.data@ }
    }
}

#[derive(Clone, Copy, Debug, PartialEq, Eq, Structural)]
pub enum CanFrameError {
    /// The identifier does not fit into eleven bits.
    InvalidId(u16),
    /// The payload is longer than eight bytes.
    DataTooLong,
    /// The command belongs to another device.
    ForeignCommand,
}

/// The largest identifier of a standard frame.
pub const MAX_STANDARD_ID: u16 = 0x7FF;

/// The longest payload of a frame.
pub const MAX_PAYLOAD: usize = 8;

/// `socketcan::StandardId::new`: an identifier of eleven bits is taken as it is, a larger number
/// is refused.
#[verifier::external_body]
fn standard_id(raw: u16) -> (id: Option<u16>)
    ensures
        id == (if raw <= MAX_STANDARD_ID {
            Some(raw)
        } else {
            None
        }),
{
    socketcan::StandardId::new(raw).map(|id| id.as_raw())
}

/// `socketcan::CanFrame::new` for a standard identifier: a payload of up to eight bytes makes a
/// frame with that identifier and that payload, a longer one is refused.
#[verifier::external_body]
fn data_frame(raw: u16, data: &[u8]) -> (frame: Option<WireFrame>)
    requires
        raw <= MAX_STANDARD_ID,
    ensures
        frame is Some <==> data@.len() <= MAX_PAYLOAD,
        frame matches Some(f) ==> f@ == (FrameView { id: FrameId::Standard(raw), data: data@ }),
{
    let frame = socketcan::CanFrame::new(socketcan::StandardId::new(raw)?, data)?;
    let id = match frame.id() {
        socketcan::Id::Standard(id) => FrameId::Standard(id.as_raw()),
        socketcan::Id::Extended(id) => FrameId::Extended(id.as_raw()),
    };
    Some(WireFrame { id, data: frame.data().to_vec() })
}

/// What making a standard frame comes to.
pub open spec fn built(id: u16, data: Seq<u8>) -> Result<FrameView, CanFrameError> {
    if id > MAX_STANDARD_ID {
        Err(CanFrameError::InvalidId(id))
    } else if data.len() > MAX_PAYLOAD {
        Err(CanFrameError::DataTooLong)
    } else {
        Ok(FrameView { id: FrameId::Standard(id), data })
    }
}

/// The view of a frame that was made or refused.
pub open spec fn frame_result(frame: Result<WireFrame, CanFrameError>) -> Result<
    FrameView,
    CanFrameError,
> {
    match frame {
        Ok(f) => Ok(f@),
        Err(e) => Err(e),
    }
}

/// Makes a standard frame.
pub fn build_frame(id: u16, data: &[u8]) -> (frame: Result<WireFrame, CanFrameError>)
    ensures
        frame_result(frame) == built(id, data@),
{
    match standard_id(id) {
        Some(raw) => match data_frame(raw, data) {
            Some(frame) => Ok(frame),
            None => Err(CanFrameError::DataTooLong),
        },
        None => Err(CanFrameError::InvalidId(id)),
    }
}

/// The number that two bytes stand for, high byte first.
pub open spec fn be16(high: u8, low: u8) -> u16 {
    (high * 256 + low) as u16
}

/// The high byte of a number.
pub open spec fn high_byte(n: u16) -> u8 {
    (n / 256) as u8
}

/// The low byte of a number.
pub open spec fn low_byte(n: u16) -> u8 {
    (n % 256) as u8
}

pub fn read_be16(high: u8, low: u8) -> (n: u16)
    ensures
        n == be16(high, low),
        n == high * 256 + low,
{
    high as u16 * 256 + low as u16
}

/// Splitting a number into bytes and reading it back gives the number.
pub proof fn be16_round_trip(n: u16)
    ensures
        be16(high_byte(n), low_byte(n)) == n,
{
}

} // verus!
