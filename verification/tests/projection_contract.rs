//! Projection from the physical to the digital vocabulary.

use sdv_twin::digital_twin::vocabulary::DigitalTwinCarVocabulary;
use sdv_twin::domain_types::PhysicalCarVocabulary;
use sdv_twin::fsm::machineries::FsmEvent;
use sdv_twin::signals::VssSignal;
use sdv_twin::twin_runtime::connectors::physical_to_digital::PhysicalToDigitalProjector;
use sdv_twin::twin_runtime::connectors::projection::{ProjectionError, Projector};
use sdv_twin::vehicle_state::front_headlamp::{
    FrontHeadlampIncompleteCause, FrontHeadlampSwitchDirection,
};

#[test]
fn given_timer_tick_when_projected_then_maps_to_fsm_timer_tick() {
    let projector = PhysicalToDigitalProjector;
    let out = projector
        .project(PhysicalCarVocabulary::TimerTick)
        .expect("projection must succeed");
    match out {
        DigitalTwinCarVocabulary::Fsm(FsmEvent::TimerTick) => {}
        other => panic!("unexpected timer tick mapping: {other:?}"),
    }
}

#[test]
fn given_system_reset_when_projected_then_maps_to_fsm_power_off() {
    let projector = PhysicalToDigitalProjector;
    let out = projector
        .project(PhysicalCarVocabulary::SystemReset)
        .expect("projection must succeed");
    match out {
        DigitalTwinCarVocabulary::Fsm(FsmEvent::PowerOff) => {}
        other => panic!("unexpected reset mapping: {other:?}"),
    }
}

#[test]
fn given_observed_speed_signal_when_projected_then_rejects_until_ecu_path_exists() {
    let projector = PhysicalToDigitalProjector;
    let err = projector
        .project(PhysicalCarVocabulary::TelemetryUpdate(VssSignal::VehicleSpeed(5000)))
        .expect_err("observed speed must not ingress as UpdateSpeed");
    assert!(matches!(err, ProjectionError::InvalidPayload(_)));
}

#[test]
fn given_rpm_signal_when_projected_then_maps_exact_rpm() {
    let projector = PhysicalToDigitalProjector;
    let out = projector
        .project(PhysicalCarVocabulary::TelemetryUpdate(VssSignal::EngineRpm(4321)))
        .expect("rpm projection must succeed");
    match out {
        DigitalTwinCarVocabulary::Fsm(FsmEvent::UpdateRpm(v)) => assert_eq!(v, 4321),
        other => panic!("unexpected rpm mapping: {other:?}"),
    }
}

#[test]
fn given_ambient_lux_signal_when_projected_then_maps_to_fsm_ambient_lux() {
    let projector = PhysicalToDigitalProjector;
    let out = projector
        .project(PhysicalCarVocabulary::TelemetryUpdate(VssSignal::AmbientLux(28)))
        .expect("ambient lux projection must succeed");
    match out {
        DigitalTwinCarVocabulary::Fsm(FsmEvent::UpdateAmbientLux(v)) => assert_eq!(v, 28),
        other => panic!("unexpected ambient lux mapping: {other:?}"),
    }
}

#[test]
fn given_front_headlamp_on_confirmed_when_projected_then_maps_to_fsm() {
    let projector = PhysicalToDigitalProjector;
    let out = projector
        .project(PhysicalCarVocabulary::FrontHeadlampCommandConfirmed { on_command: true })
        .expect("on ack projection must succeed");
    match out {
        DigitalTwinCarVocabulary::Fsm(FsmEvent::FrontHeadlampOnAck) => {}
        other => panic!("unexpected on ack mapping: {other:?}"),
    }
}

#[test]
fn given_front_headlamp_off_confirmed_when_projected_then_maps_to_fsm() {
    let projector = PhysicalToDigitalProjector;
    let out = projector
        .project(PhysicalCarVocabulary::FrontHeadlampCommandConfirmed { on_command: false })
        .expect("off ack projection must succeed");
    match out {
        DigitalTwinCarVocabulary::Fsm(FsmEvent::FrontHeadlampOffAck) => {}
        other => panic!("unexpected off ack mapping: {other:?}"),
    }
}

#[test]
fn given_front_headlamp_rejected_when_projected_then_maps_to_incomplete_with_negative_ack() {
    let projector = PhysicalToDigitalProjector;
    let out = projector
        .project(PhysicalCarVocabulary::FrontHeadlampCommandRejected { on_command: true })
        .expect("reject projection must succeed");
    match out {
        DigitalTwinCarVocabulary::Fsm(FsmEvent::FrontHeadlampActuationIncomplete {
            direction,
            cause,
        }) => {
            assert!(matches!(direction, FrontHeadlampSwitchDirection::On));
            assert!(matches!(cause, FrontHeadlampIncompleteCause::NegativeAck));
        }
        other => panic!("unexpected rejected mapping: {other:?}"),
    }
}

#[test]
fn rain_projects_to_its_two_events() {
    let projector = PhysicalToDigitalProjector;
    let started = projector
        .project(PhysicalCarVocabulary::TelemetryUpdate(VssSignal::RainDetected(true)))
        .expect("rain");
    let stopped = projector
        .project(PhysicalCarVocabulary::TelemetryUpdate(VssSignal::RainDetected(false)))
        .expect("no rain");
    assert_eq!(started, DigitalTwinCarVocabulary::Fsm(FsmEvent::RainsStarted));
    assert_eq!(stopped, DigitalTwinCarVocabulary::Fsm(FsmEvent::RainsStopped));
}

#[test]
fn rejection_of_an_off_command_keeps_its_direction() {
    let out = PhysicalToDigitalProjector
        .project(PhysicalCarVocabulary::FrontHeadlampCommandRejected { on_command: false })
        .expect("rejection");
    assert_eq!(
        out,
        DigitalTwinCarVocabulary::Fsm(FsmEvent::FrontHeadlampActuationIncomplete {
            direction: FrontHeadlampSwitchDirection::Off,
            cause: FrontHeadlampIncompleteCause::NegativeAck,
        })
    );
}
