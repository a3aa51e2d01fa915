//! Frames, telemetry signals and headlamp payloads on the wire.

use sdv_twin::can_frame::{build_frame, CanFrameError, FrameId, WireFrame};
use sdv_twin::domain_types::PhysicalCarVocabulary;
use sdv_twin::signals::VssSignal;
use sdv_twin::twin_runtime::controller::actuation_contract::{ActuationCommand, CorrelationId};
use sdv_twin::vehicle_device_bus::devices::front_headlamp::can::{
    actuation_command_from_cmd_payload, actuation_command_wire_meta,
    decode_payload_from_can_frame, encode_ack_frame, encode_command_frame, encode_nack_frame,
};
use sdv_twin::vehicle_device_bus::devices::front_headlamp::codec::{
    decode_payload, encode_payload, payload_to_physical, FrontHeadlampPayload,
};

fn sample(on: bool) -> ActuationCommand {
    let correlation_id = CorrelationId {
        source_id: "gateway-bus-e2e".to_string(),
        session_id: 0x1234,
        sequence_no: 0x89abcdef,
    };
    if on {
        ActuationCommand::SwitchFrontHeadlampOn { correlation_id }
    } else {
        ActuationCommand::SwitchFrontHeadlampOff { correlation_id }
    }
}

#[test]
fn frames_are_made_of_identifier_and_payload() {
    let frame = build_frame(0x7FF, &[1, 2, 3, 4, 5, 6, 7, 8]).expect("frame");
    assert_eq!(frame.id, FrameId::Standard(0x7FF));
    assert_eq!(frame.data, vec![1, 2, 3, 4, 5, 6, 7, 8]);
    assert_eq!(build_frame(0, &[]).expect("frame").data, Vec::<u8>::new());
}

#[test]
fn frames_out_of_range_are_refused() {
    assert_eq!(build_frame(0x800, &[1]).unwrap_err(), CanFrameError::InvalidId(0x800));
    assert_eq!(build_frame(0x100, &[0; 9]).unwrap_err(), CanFrameError::DataTooLong);
    assert_eq!(build_frame(0xFFFF, &[0; 9]).unwrap_err(), CanFrameError::InvalidId(0xFFFF));
}

#[test]
fn signals_have_their_identifiers_and_bytes() {
    let rpm = VssSignal::EngineRpm(0x1234).to_can_frame().expect("frame");
    assert_eq!(rpm.id, FrameId::Standard(0x102));
    assert_eq!(rpm.data, vec![0x12, 0x34]);
    let rain = VssSignal::RainDetected(true).to_can_frame().expect("frame");
    assert_eq!(rain.id, FrameId::Standard(0x104));
    assert_eq!(rain.data, vec![1, 0]);
}

#[test]
fn signals_round_trip() {
    for signal in [
        VssSignal::VehicleSpeed(0),
        VssSignal::VehicleSpeed(12_345),
        VssSignal::EngineRpm(65_535),
        VssSignal::AmbientLux(256),
        VssSignal::RainDetected(true),
        VssSignal::RainDetected(false),
    ] {
        let frame = signal.to_can_frame().expect("frame");
        assert_eq!(VssSignal::from_can_frame(&frame), Some(signal));
    }
}

#[test]
fn frames_without_a_signal_decode_to_none() {
    let short = WireFrame { id: FrameId::Standard(0x102), data: vec![1] };
    let unknown = WireFrame { id: FrameId::Standard(0x105), data: vec![1, 2] };
    let extended = WireFrame { id: FrameId::Extended(0x102), data: vec![1, 2] };
    let any_rain = WireFrame { id: FrameId::Standard(0x104), data: vec![0x80, 0] };
    assert_eq!(VssSignal::from_can_frame(&short), None);
    assert_eq!(VssSignal::from_can_frame(&unknown), None);
    assert_eq!(VssSignal::from_can_frame(&extended), None);
    assert_eq!(VssSignal::from_can_frame(&any_rain), Some(VssSignal::RainDetected(true)));
}

#[test]
fn headlamp_payload_bytes_go_high_byte_first() {
    let payload = FrontHeadlampPayload { kind: 0x81, session_id: 0x1234, sequence_no: 0x89abcdef };
    let bytes = encode_payload(payload);
    assert_eq!(bytes, [0x81, 0x12, 0x34, 0x89, 0xab, 0xcd, 0xef]);
    assert_eq!(decode_payload(&bytes), Some(payload));
    assert_eq!(decode_payload(&bytes[..6]), None);
    assert_eq!(decode_payload(&[0x03, 0, 0, 0, 0, 0, 0]), None);
}

#[test]
fn commands_and_answers_keep_their_numbers_across_the_bus() {
    let cmd = sample(true);
    let sent = decode_payload_from_can_frame(&encode_command_frame(&cmd).expect("cmd"))
        .expect("payload");
    assert_eq!(
        Some((sent.session_id, sent.sequence_no)),
        actuation_command_wire_meta(&cmd)
    );
    assert!(payload_to_physical(sent).is_none());

    let read = actuation_command_from_cmd_payload(sent).expect("command");
    assert_eq!(actuation_command_wire_meta(&read), Some((0x1234, 0x89abcdef)));

    let acked = decode_payload_from_can_frame(&encode_ack_frame(&read).expect("ack"))
        .expect("payload");
    assert_eq!(
        payload_to_physical(acked),
        Some(PhysicalCarVocabulary::FrontHeadlampCommandConfirmed { on_command: true })
    );
    assert!(actuation_command_from_cmd_payload(acked).is_none());

    let nacked = decode_payload_from_can_frame(&encode_nack_frame(&sample(false)).expect("nack"))
        .expect("payload");
    assert_eq!(
        payload_to_physical(nacked),
        Some(PhysicalCarVocabulary::FrontHeadlampCommandRejected { on_command: false })
    );
}

#[test]
fn wiper_commands_have_no_headlamp_frame() {
    assert_eq!(
        encode_command_frame(&ActuationCommand::StartWiper).unwrap_err(),
        CanFrameError::ForeignCommand
    );
    assert_eq!(actuation_command_wire_meta(&ActuationCommand::StopWiper), None);
}

#[test]
fn correlations_are_cut_to_their_low_bits() {
    let cmd = ActuationCommand::SwitchFrontHeadlampOff {
        correlation_id: CorrelationId {
            source_id: "x".to_string(),
            session_id: 0xffff_0001_0002,
            sequence_no: 0x7_0000_0003,
        },
    };
    assert_eq!(actuation_command_wire_meta(&cmd), Some((2, 3)));
}
