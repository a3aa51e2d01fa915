//! What the gateway makes of events and frames.

use sdv_twin::can_frame::{FrameId, WireFrame};
use sdv_twin::domain_types::{PhysicalCarVocabulary, VehicleEvent};
use sdv_twin::gateway::ingress::{
    front_headlamp_ingress_line, ignored_ingress_line, route_frame,
    vehicle_event_to_physical_vocabulary, FrameRoute,
};
use sdv_twin::gateway::launch::GatewayLaunchConfig;
use sdv_twin::signals::VssSignal;
use sdv_twin::twin_runtime::controller::actuation_contract::{ActuationCommand, CorrelationId};
use sdv_twin::vehicle_device_bus::devices::front_headlamp::can::{
    encode_ack_frame, encode_command_frame, encode_nack_frame,
};
use sdv_twin::vehicle_device_bus::devices::front_headlamp::policy::FrontHeadlampPolicy;

#[test]
fn given_timer_tick_when_mapped_then_returns_physical_timer_tick() {
    let msg = vehicle_event_to_physical_vocabulary(VehicleEvent::TimerTick);
    match msg {
        PhysicalCarVocabulary::TimerTick => {}
        other => panic!("unexpected mapping: {other:?}"),
    }
}

#[test]
fn given_system_reset_when_mapped_then_returns_physical_reset() {
    let msg = vehicle_event_to_physical_vocabulary(VehicleEvent::SystemReset);
    match msg {
        PhysicalCarVocabulary::SystemReset => {}
        other => panic!("unexpected mapping: {other:?}"),
    }
}

#[test]
fn given_engine_rpm_signal_when_mapped_then_preserves_value() {
    let msg = vehicle_event_to_physical_vocabulary(VehicleEvent::TelemetryUpdate(
        VssSignal::EngineRpm(4567),
    ));
    match msg {
        PhysicalCarVocabulary::TelemetryUpdate(VssSignal::EngineRpm(v)) => {
            assert_eq!(v, 4567)
        }
        other => panic!("unexpected rpm mapping: {other:?}"),
    }
}

#[test]
fn given_ambient_lux_signal_when_mapped_then_preserves_value() {
    let msg = vehicle_event_to_physical_vocabulary(VehicleEvent::TelemetryUpdate(
        VssSignal::AmbientLux(33),
    ));
    match msg {
        PhysicalCarVocabulary::TelemetryUpdate(VssSignal::AmbientLux(v)) => {
            assert_eq!(v, 33)
        }
        other => panic!("unexpected ambient lux mapping: {other:?}"),
    }
}

fn command(on: bool, sequence_no: u64) -> ActuationCommand {
    let correlation_id = CorrelationId {
        source_id: "gateway".to_string(),
        session_id: 0x1_0007,
        sequence_no,
    };
    if on {
        ActuationCommand::SwitchFrontHeadlampOn { correlation_id }
    } else {
        ActuationCommand::SwitchFrontHeadlampOff { correlation_id }
    }
}

#[test]
fn telemetry_goes_to_the_twin_but_observed_speed_does_not() {
    let mut policy = FrontHeadlampPolicy::default();
    let lux = VssSignal::AmbientLux(20);
    assert_eq!(
        route_frame(&lux.to_can_frame().expect("frame"), &mut policy),
        FrameRoute::Physical(PhysicalCarVocabulary::TelemetryUpdate(lux))
    );
    assert_eq!(
        route_frame(&VssSignal::VehicleSpeed(5000).to_can_frame().expect("frame"), &mut policy),
        FrameRoute::ObservedSpeed
    );
    let foreign = WireFrame { id: FrameId::Standard(0x300), data: vec![1, 2] };
    assert_eq!(route_frame(&foreign, &mut policy), FrameRoute::Foreign);
}

#[test]
fn an_answer_is_let_through_once_and_only_for_the_awaited_command() {
    let mut policy = FrontHeadlampPolicy::default();
    let on = command(true, 5);
    let ack = encode_ack_frame(&on).expect("ack");

    assert_eq!(
        route_frame(&ack, &mut policy),
        FrameRoute::Ignored { reason: "no_pending_command", session: 7, sequence: 5 }
    );

    policy.on_command_sent(&on);
    assert_eq!(
        route_frame(&encode_command_frame(&on).expect("cmd"), &mut policy),
        FrameRoute::Ignored { reason: "not_an_answer", session: 7, sequence: 5 }
    );
    assert_eq!(
        route_frame(&encode_ack_frame(&command(true, 6)).expect("ack"), &mut policy),
        FrameRoute::Ignored { reason: "correlation_mismatch", session: 7, sequence: 6 }
    );
    assert_eq!(
        route_frame(&encode_nack_frame(&command(false, 5)).expect("nack"), &mut policy),
        FrameRoute::Ignored { reason: "correlation_mismatch", session: 7, sequence: 5 }
    );
    assert_eq!(
        route_frame(&ack, &mut policy),
        FrameRoute::ActuationResponse {
            physical: PhysicalCarVocabulary::FrontHeadlampCommandConfirmed { on_command: true },
            session: 7,
            sequence: 5,
        }
    );
    assert_eq!(
        route_frame(&ack, &mut policy),
        FrameRoute::Ignored { reason: "no_pending_command", session: 7, sequence: 5 }
    );
}

#[test]
fn a_rejection_of_the_awaited_command_is_let_through() {
    let mut policy = FrontHeadlampPolicy::default();
    let off = command(false, 9);
    policy.on_command_sent(&ActuationCommand::StartWiper);
    policy.on_command_sent(&off);
    policy.on_command_sent(&ActuationCommand::StopWiper);
    assert_eq!(
        route_frame(&encode_nack_frame(&off).expect("nack"), &mut policy),
        FrameRoute::ActuationResponse {
            physical: PhysicalCarVocabulary::FrontHeadlampCommandRejected { on_command: false },
            session: 7,
            sequence: 9,
        }
    );
}

#[test]
fn ingress_lines_name_session_sequence_and_outcome() {
    assert_eq!(
        front_headlamp_ingress_line(
            7,
            4294967295,
            &PhysicalCarVocabulary::FrontHeadlampCommandConfirmed { on_command: true }
        )
        .expect("line"),
        "[actuation-can-ingress session=7 seq=4294967295]: ✅💡 Front headlamp ON confirmed."
    );
    assert_eq!(
        front_headlamp_ingress_line(
            10,
            0,
            &PhysicalCarVocabulary::FrontHeadlampCommandRejected { on_command: false }
        )
        .expect("line"),
        "[actuation-can-ingress session=10 seq=0]: ❌🌑 Front headlamp OFF rejected (NACK)."
    );
    assert!(front_headlamp_ingress_line(1, 1, &PhysicalCarVocabulary::TimerTick).is_none());
    assert_eq!(
        ignored_ingress_line("no_pending_command", 3, 120),
        "[actuation-can-ingress ignored]: reason=no_pending_command session=3 seq=120"
    );
}

#[test]
fn launch_flags_are_read_off_the_arguments() {
    let args = vec![
        "gateway".to_string(),
        "--print-transitions".to_string(),
        "--unknown".to_string(),
        "--print-timer-tick".to_string(),
    ];
    let config = GatewayLaunchConfig::from_args("My-Opel", "vcan0", &args);
    assert_eq!(
        config,
        GatewayLaunchConfig {
            car_identity: "My-Opel",
            print_timer_tick: true,
            print_transitions: true,
            trace_actuation_ingress: false,
            can_interface: "vcan0",
        }
    );
    let bare = GatewayLaunchConfig::from_args("My-Opel", "vcan0", &Vec::new());
    assert!(!bare.print_timer_tick && !bare.print_transitions && !bare.trace_actuation_ingress);
}
