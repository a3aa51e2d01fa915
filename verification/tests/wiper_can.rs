//! Wiper commands on the bus.

use sdv_twin::can_frame::{CanFrameError, FrameId, WireFrame};
use sdv_twin::twin_runtime::controller::actuation_contract::{ActuationCommand, CorrelationId};
use sdv_twin::vehicle_device_bus::can::wire_kinds::{KIND_WIPER_CMD_START, KIND_WIPER_CMD_STOP};
use sdv_twin::vehicle_device_bus::devices::front_headlamp::can::{
    encode_command_frame, ID_FRONT_HEADLAMP,
};
use sdv_twin::vehicle_device_bus::devices::wiper::can::{
    decode_payload_from_can_frame, encode_wiper_command_frame, ID_WIPER,
};

fn standard(frame: &WireFrame) -> u16 {
    match frame.id {
        FrameId::Standard(id) => id,
        _ => panic!("expected standard CAN id"),
    }
}

#[test]
fn given_start_wiper_command_when_encoded_then_correct_can_id() {
    let frame = encode_wiper_command_frame(&ActuationCommand::StartWiper)
        .expect("StartWiper must encode");
    assert_eq!(standard(&frame), ID_WIPER);
}

#[test]
fn given_stop_wiper_command_when_encoded_then_correct_can_id() {
    let frame = encode_wiper_command_frame(&ActuationCommand::StopWiper)
        .expect("StopWiper must encode");
    assert_eq!(standard(&frame), ID_WIPER);
}

#[test]
fn given_wiper_and_headlamp_can_ids_when_compared_then_distinct() {
    assert_ne!(ID_WIPER, ID_FRONT_HEADLAMP, "wiper CAN id must not collide with headlamp");
}

#[test]
fn given_start_wiper_frame_when_decoded_then_start_kind() {
    let frame = encode_wiper_command_frame(&ActuationCommand::StartWiper).expect("encode");
    let payload = decode_payload_from_can_frame(&frame).expect("decode");
    assert_eq!(payload.kind, KIND_WIPER_CMD_START);
}

#[test]
fn given_stop_wiper_frame_when_decoded_then_stop_kind() {
    let frame = encode_wiper_command_frame(&ActuationCommand::StopWiper).expect("encode");
    let payload = decode_payload_from_can_frame(&frame).expect("decode");
    assert_eq!(payload.kind, KIND_WIPER_CMD_STOP);
}

#[test]
fn given_headlamp_command_frame_when_decoded_as_wiper_then_none() {
    let corr = CorrelationId {
        source_id: "test".into(),
        session_id: 1,
        sequence_no: 1,
    };
    let headlamp_frame = encode_command_frame(
        &ActuationCommand::SwitchFrontHeadlampOn { correlation_id: corr }
    ).expect("encode headlamp");
    assert!(decode_payload_from_can_frame(&headlamp_frame).is_none());
}

#[test]
fn given_headlamp_command_when_wiper_encoded_then_error() {
    let corr = CorrelationId { source_id: "t".into(), session_id: 0, sequence_no: 0 };
    let result = encode_wiper_command_frame(
        &ActuationCommand::SwitchFrontHeadlampOn { correlation_id: corr }
    );
    assert!(result.is_err());
    assert_eq!(result.unwrap_err(), CanFrameError::ForeignCommand);
}

#[test]
fn given_start_wiper_command_when_encoded_then_frame_has_wiper_id_and_start_kind() {
    let frame = encode_wiper_command_frame(&ActuationCommand::StartWiper).expect("encode start");
    assert_eq!(standard(&frame), ID_WIPER);
    assert_eq!(frame.data[0], KIND_WIPER_CMD_START);
}

#[test]
fn given_stop_wiper_command_when_encoded_then_frame_has_wiper_id_and_stop_kind() {
    let frame = encode_wiper_command_frame(&ActuationCommand::StopWiper).expect("encode stop");
    assert_eq!(standard(&frame), ID_WIPER);
    assert_eq!(frame.data[0], KIND_WIPER_CMD_STOP);
}

#[test]
fn given_encoded_start_wiper_frame_when_decoded_then_start_kind_round_trips() {
    let frame = encode_wiper_command_frame(&ActuationCommand::StartWiper).expect("encode");
    let payload = decode_payload_from_can_frame(&frame).expect("decode");
    assert_eq!(payload.kind, KIND_WIPER_CMD_START);
}

#[test]
fn malformed_wiper_payloads_are_refused() {
    let empty = WireFrame { id: FrameId::Standard(ID_WIPER), data: vec![] };
    let unknown = WireFrame { id: FrameId::Standard(ID_WIPER), data: vec![0x13] };
    let extended = WireFrame { id: FrameId::Extended(0x205), data: vec![KIND_WIPER_CMD_START] };
    assert!(decode_payload_from_can_frame(&empty).is_none());
    assert!(decode_payload_from_can_frame(&unknown).is_none());
    assert!(decode_payload_from_can_frame(&extended).is_none());
}
