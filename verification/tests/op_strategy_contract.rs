//! The operational state machine and the plain operating strategy side by side.

use sdv_twin::clock::Instant;
use sdv_twin::engine::op_strategy::transition_map;
use sdv_twin::fsm::machineries::{FsmAction, FsmEvent, FsmState};
use sdv_twin::fsm::transition_map::{output, transition};
use sdv_twin::vehicle_physics::constants::{
    EXTREME_OPERATION_WARNING_MESSAGE, SPEED_THRESHOLD_WARNING_MESSAGE,
};
use sdv_twin::vehicle_state::front_headlamp::LightingState;
use sdv_twin::vehicle_state::VehicleContext;

fn valid_twin_context() -> VehicleContext {
    let ctx = VehicleContext::default();
    assert_eq!(ctx.powertrain.wheel_rpm.front_left, 0);
    assert_eq!(ctx.powertrain.speed_kph, 0);
    assert_eq!(ctx.health.fuel_level, 85);
    assert_eq!(ctx.health.oil_pressure, 30);
    assert!(ctx.health.tyre_pressure_ok);
    assert_eq!(ctx.visibility.ambient_lux, 100);
    assert_eq!(ctx.headlamp.state, LightingState::Off);
    assert!(ctx.headlamp.ack_pending_since.is_none());
    ctx
}

#[test]
fn given_driving_when_high_rpm_then_shim_and_strategy_transition_match() {
    let now = Instant::from_nanos(1_000);
    let mut ctx = valid_twin_context();
    ctx.powertrain.apply_rpm(5600);
    ctx.powertrain.refresh_speed();

    let via_shim = transition(&FsmState::Driving, &FsmEvent::UpdateRpm(5600), &ctx, now);
    let via_strategy =
        transition_map::transition(&FsmState::Driving, &FsmEvent::UpdateRpm(5600), &ctx, now);

    assert_eq!(via_shim.next_state, via_strategy);
}

#[test]
fn given_driving_when_both_extreme_thresholds_exceeded_then_enters_warning() {
    let now = Instant::from_nanos(1_000);
    let mut ctx = valid_twin_context();
    ctx.powertrain.apply_rpm(5600);
    ctx.powertrain.refresh_speed();

    let via_shim = transition(&FsmState::Driving, &FsmEvent::UpdateRpm(5600), &ctx, now).next_state;
    let via_strategy =
        transition_map::transition(&FsmState::Driving, &FsmEvent::UpdateRpm(5600), &ctx, now);

    assert_eq!(via_shim, via_strategy);
    assert!(matches!(via_shim, FsmState::ExtremeOperationWarning(_)));

    let actions = output(&FsmState::Driving, &via_shim, &ctx);
    assert!(actions.contains(&FsmAction::LogWarning(
        SPEED_THRESHOLD_WARNING_MESSAGE.to_string()
    )));
    assert!(actions.contains(&FsmAction::LogWarning(
        EXTREME_OPERATION_WARNING_MESSAGE.to_string()
    )));
}

#[test]
fn given_warning_recovery_when_transition_occurs_then_shim_and_strategy_output_match() {
    let old_state = FsmState::ExtremeOperationWarning(Instant::from_nanos(1_000));
    let new_state = FsmState::Driving;
    let ctx = valid_twin_context();

    let via_shim = output(&old_state, &new_state, &ctx);
    let via_strategy = transition_map::output(&old_state, &new_state, &ctx);

    assert_eq!(via_shim, via_strategy);
}

#[test]
fn a_refused_power_off_has_a_notice() {
    use_notice(FsmState::Off, FsmEvent::PowerOff, Some("Off"));
    use_notice(FsmState::Driving, FsmEvent::PowerOff, Some("Driving"));
    use_notice(FsmState::Idle, FsmEvent::PowerOff, None);
    use_notice(FsmState::Driving, FsmEvent::PowerOn, None);
}

fn use_notice(state: FsmState, event: FsmEvent, shown: Option<&str>) {
    let expected = shown
        .map(|mode| format!("[REJECTED]: PowerOff is invalid while in state {mode}"));
    assert_eq!(
        sdv_twin::engine::op_strategy::transition_map::rejection_notice(&state, &event),
        expected
    );
}
