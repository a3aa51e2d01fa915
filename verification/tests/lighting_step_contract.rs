//! Lighting sub-state behaviour over full turns.

use sdv_twin::clock::{Duration, Instant};
use sdv_twin::fsm::machineries::{DomainAction, FsmEvent, FsmState};
use sdv_twin::twin_runtime::twin_turn::twin_turn;
use sdv_twin::vehicle_physics::constants::{LUX_OFF_THRESHOLD, LUX_ON_THRESHOLD};
use sdv_twin::vehicle_state::front_headlamp::{
    front_headlamp_ack_wait, FrontHeadlampIncompleteCause as Cause,
    FrontHeadlampSwitchDirection as Direction, LightingState,
};
use sdv_twin::vehicle_state::VehicleContext;
use sdv_twin::zones::ZoneId;

fn wait_after(since: Instant, direction: Direction) -> Instant {
    since.plus(front_headlamp_ack_wait(direction))
}

fn half_wait_after(since: Instant, direction: Direction) -> Instant {
    since.plus(Duration { nanos: front_headlamp_ack_wait(direction).nanos / 2 })
}

fn valid_twin_context() -> VehicleContext {
    VehicleContext::default()
}

fn ctx_with_headlamp_state(state: LightingState) -> VehicleContext {
    let mut ctx = valid_twin_context();
    ctx.headlamp.state = state;
    ctx
}

fn ctx_with_pending_headlamp(state: LightingState, since: Instant, ambient_lux: u16) -> VehicleContext {
    let mut ctx = valid_twin_context();
    ctx.headlamp.state = state;
    ctx.headlamp.ack_pending_since = Some(since);
    ctx.visibility.ambient_lux = ambient_lux;
    ctx
}

#[test]
fn given_lights_off_when_lux_below_on_threshold_then_requests_front_headlamp_on() {
    let current_state = FsmState::Idle;
    let current_ctx = valid_twin_context();

    // Dim side of emulator jitter band (~815) is below LUX_ON_THRESHOLD (840).
    let result = twin_turn(
        &current_state,
        &current_ctx,
        &FsmEvent::UpdateAmbientLux(830),
        Instant::from_nanos(1_000),
    );

    assert!(result
        .actions
        .contains(&DomainAction::RequestFrontHeadlampOn));
}

#[test]
fn given_on_requested_when_ack_on_then_no_duplicate_on_request_emitted() {
    let current_state = FsmState::Idle;
    let mut current_ctx = ctx_with_headlamp_state(LightingState::OnRequested);
    current_ctx.visibility.ambient_lux = 20;

    let result = twin_turn(
        &current_state,
        &current_ctx,
        &FsmEvent::FrontHeadlampOnAck,
        Instant::from_nanos(1_000),
    );

    assert!(!result
        .actions
        .contains(&DomainAction::RequestFrontHeadlampOn));
}

#[test]
fn given_lights_on_when_lux_above_off_threshold_then_requests_front_headlamp_off() {
    let current_state = FsmState::Driving;
    let mut current_ctx = ctx_with_headlamp_state(LightingState::On);
    current_ctx.visibility.ambient_lux = 50;

    let result = twin_turn(
        &current_state,
        &current_ctx,
        &FsmEvent::UpdateAmbientLux(LUX_OFF_THRESHOLD),
        Instant::from_nanos(1_000),
    );

    assert!(result
        .actions
        .contains(&DomainAction::RequestFrontHeadlampOff));
}

#[test]
fn given_lights_off_when_lux_at_on_threshold_then_requests_front_headlamp_on() {
    let result = twin_turn(
        &FsmState::Idle,
        &valid_twin_context(),
        &FsmEvent::UpdateAmbientLux(LUX_ON_THRESHOLD),
        Instant::from_nanos(1_000),
    );

    assert!(result
        .actions
        .contains(&DomainAction::RequestFrontHeadlampOn));
    assert_eq!(result.modified_ctx.headlamp.state, LightingState::OnRequested);
    assert!(result.modified_ctx.headlamp.ack_pending_since.is_some());
}

#[test]
fn given_lights_off_when_lux_in_deadband_then_does_not_request_front_headlamp_on() {
    let result = twin_turn(
        &FsmState::Idle,
        &valid_twin_context(),
        &FsmEvent::UpdateAmbientLux(LUX_ON_THRESHOLD + 10),
        Instant::from_nanos(1_000),
    );

    assert!(!result
        .actions
        .contains(&DomainAction::RequestFrontHeadlampOn));
    assert_eq!(result.modified_ctx.headlamp.state, LightingState::Off);
}

#[test]
fn given_lights_on_when_lux_at_off_threshold_then_requests_front_headlamp_off() {
    let current_ctx = ctx_with_headlamp_state(LightingState::On);
    let result = twin_turn(
        &FsmState::Driving,
        &current_ctx,
        &FsmEvent::UpdateAmbientLux(LUX_OFF_THRESHOLD),
        Instant::from_nanos(1_000),
    );

    assert!(result
        .actions
        .contains(&DomainAction::RequestFrontHeadlampOff));
    assert_eq!(result.modified_ctx.headlamp.state, LightingState::OffRequested);
    assert!(result.modified_ctx.headlamp.ack_pending_since.is_some());
}

#[test]
fn given_lights_on_when_lux_in_deadband_then_does_not_request_front_headlamp_off() {
    let current_ctx = ctx_with_headlamp_state(LightingState::On);
    let result = twin_turn(
        &FsmState::Driving,
        &current_ctx,
        &FsmEvent::UpdateAmbientLux(LUX_ON_THRESHOLD + 10),
        Instant::from_nanos(1_000),
    );

    assert!(!result
        .actions
        .contains(&DomainAction::RequestFrontHeadlampOff));
    assert_eq!(result.modified_ctx.headlamp.state, LightingState::On);
}

#[test]
fn given_lights_on_requested_when_low_lux_arrives_then_does_not_emit_duplicate_on_request() {
    let mut current_ctx = ctx_with_headlamp_state(LightingState::OnRequested);
    current_ctx.visibility.ambient_lux = 20;
    let result = twin_turn(
        &FsmState::Idle,
        &current_ctx,
        &FsmEvent::UpdateAmbientLux(20),
        Instant::from_nanos(1_000),
    );

    assert!(!result
        .actions
        .contains(&DomainAction::RequestFrontHeadlampOn));
    assert_eq!(result.modified_ctx.headlamp.state, LightingState::OnRequested);
}

#[test]
fn given_lights_off_requested_when_high_lux_arrives_then_does_not_emit_duplicate_off_request() {
    let mut current_ctx = ctx_with_headlamp_state(LightingState::OffRequested);
    current_ctx.visibility.ambient_lux = 50;
    let result = twin_turn(
        &FsmState::Driving,
        &current_ctx,
        &FsmEvent::UpdateAmbientLux(LUX_OFF_THRESHOLD),
        Instant::from_nanos(1_000),
    );

    assert!(!result
        .actions
        .contains(&DomainAction::RequestFrontHeadlampOff));
    assert_eq!(result.modified_ctx.headlamp.state, LightingState::OffRequested);
}

#[test]
fn given_on_requested_when_ack_on_then_transitions_to_on() {
    let current_ctx = ctx_with_headlamp_state(LightingState::OnRequested);
    let result = twin_turn(
        &FsmState::Driving,
        &current_ctx,
        &FsmEvent::FrontHeadlampOnAck,
        Instant::from_nanos(1_000),
    );
    assert_eq!(result.modified_ctx.headlamp.state, LightingState::On);
    assert!(result.modified_ctx.headlamp.ack_pending_since.is_none());
}

#[test]
fn given_off_requested_when_ack_off_then_transitions_to_off() {
    let current_ctx = ctx_with_headlamp_state(LightingState::OffRequested);
    let result = twin_turn(
        &FsmState::Driving,
        &current_ctx,
        &FsmEvent::FrontHeadlampOffAck,
        Instant::from_nanos(1_000),
    );
    assert_eq!(result.modified_ctx.headlamp.state, LightingState::Off);
    assert!(result.modified_ctx.headlamp.ack_pending_since.is_none());
}

/// Elapsed time is half of `FRONT_HEADLAMP_ON_ACK_WAIT`, so `>=` deadline is false — no timeout.
#[test]
fn given_on_requested_when_timer_tick_before_ack_deadline_then_stays_pending() {
    let t0 = Instant::from_nanos(1_000);
    let current_ctx = ctx_with_pending_headlamp(LightingState::OnRequested, t0, 20);
    let result = twin_turn(
        &FsmState::Idle,
        &current_ctx,
        &FsmEvent::TimerTick,
        half_wait_after(t0, Direction::On),
    );
    assert_eq!(result.modified_ctx.headlamp.state, LightingState::OnRequested);
    assert!(!result
        .actions
        .iter()
        .any(|a| matches!(a, DomainAction::LogWarning(_))));
}

/// Elapsed time is half of `FRONT_HEADLAMP_OFF_ACK_WAIT`, so `>=` deadline is false — no timeout.
#[test]
fn given_off_requested_when_timer_tick_before_ack_deadline_then_stays_pending() {
    let t0 = Instant::from_nanos(1_000);
    let current_ctx = ctx_with_pending_headlamp(LightingState::OffRequested, t0, 50);
    let result = twin_turn(
        &FsmState::Driving,
        &current_ctx,
        &FsmEvent::TimerTick,
        half_wait_after(t0, Direction::Off),
    );
    assert_eq!(result.modified_ctx.headlamp.state, LightingState::OffRequested);
    assert!(!result
        .actions
        .iter()
        .any(|a| matches!(a, DomainAction::LogWarning(_))));
}

/// `now - since == FRONT_HEADLAMP_ON_ACK_WAIT` satisfies `>=` in `step` — timeout fires.
#[test]
fn given_on_requested_when_timer_tick_at_exact_ack_wait_then_times_out_to_off() {
    let t0 = Instant::from_nanos(1_000);
    let current_ctx = ctx_with_pending_headlamp(LightingState::OnRequested, t0, 20);
    let result = twin_turn(
        &FsmState::Idle,
        &current_ctx,
        &FsmEvent::TimerTick,
        wait_after(t0, Direction::On),
    );
    assert_eq!(result.modified_ctx.headlamp.state, LightingState::Off);
    assert!(result.modified_ctx.headlamp.ack_pending_since.is_none());
    assert!(result.actions.iter().any(|a| matches!(
        a,
        DomainAction::LogWarning(msg) if msg.contains("ON request")
    )));
}

/// `now - since == FRONT_HEADLAMP_OFF_ACK_WAIT` satisfies `>=` in `step` — timeout fires.
#[test]
fn given_off_requested_when_timer_tick_at_exact_ack_wait_then_times_out_to_on() {
    let t0 = Instant::from_nanos(1_000);
    let current_ctx = ctx_with_pending_headlamp(LightingState::OffRequested, t0, 50);
    let result = twin_turn(
        &FsmState::Driving,
        &current_ctx,
        &FsmEvent::TimerTick,
        wait_after(t0, Direction::Off),
    );
    assert_eq!(result.modified_ctx.headlamp.state, LightingState::On);
    assert!(result.modified_ctx.headlamp.ack_pending_since.is_none());
    assert!(result.actions.iter().any(|a| matches!(
        a,
        DomainAction::LogWarning(msg) if msg.contains("OFF request")
    )));
}

/// After timeout clears pending, the next `TimerTick` must not emit another lighting warning.
#[test]
fn given_on_requested_second_timer_tick_after_timeout_does_not_double_warn() {
    let t0 = Instant::from_nanos(1_000);
    let ctx_pending = ctx_with_pending_headlamp(LightingState::OnRequested, t0, 20);
    let deadline = wait_after(t0, Direction::On);
    let after_timeout = twin_turn(
        &FsmState::Idle,
        &ctx_pending,
        &FsmEvent::TimerTick,
        deadline,
    );
    assert_eq!(after_timeout.modified_ctx.headlamp.state, LightingState::Off);
    assert_eq!(
        after_timeout
            .actions
            .iter()
            .filter(|a| matches!(a, DomainAction::LogWarning(_)))
            .count(),
        1
    );

    let second_tick = twin_turn(
        &FsmState::Idle,
        &after_timeout.modified_ctx,
        &FsmEvent::TimerTick,
        wait_after(deadline, Direction::On),
    );
    assert!(!second_tick
        .actions
        .iter()
        .any(|a| matches!(a, DomainAction::LogWarning(_))));
}

/// Same idempotence as [`given_on_requested_second_timer_tick_after_timeout_does_not_double_warn`] for OFF pending.
#[test]
fn given_off_requested_second_timer_tick_after_timeout_does_not_double_warn() {
    let t0 = Instant::from_nanos(1_000);
    let ctx_pending = ctx_with_pending_headlamp(LightingState::OffRequested, t0, 50);
    let deadline = wait_after(t0, Direction::Off);
    let after_timeout = twin_turn(
        &FsmState::Driving,
        &ctx_pending,
        &FsmEvent::TimerTick,
        deadline,
    );
    assert_eq!(after_timeout.modified_ctx.headlamp.state, LightingState::On);
    assert_eq!(
        after_timeout
            .actions
            .iter()
            .filter(|a| matches!(a, DomainAction::LogWarning(_)))
            .count(),
        1
    );

    let second_tick = twin_turn(
        &FsmState::Driving,
        &after_timeout.modified_ctx,
        &FsmEvent::TimerTick,
        wait_after(deadline, Direction::Off),
    );
    assert!(!second_tick
        .actions
        .iter()
        .any(|a| matches!(a, DomainAction::LogWarning(_))));
}

#[test]
fn given_on_requested_when_actuation_incomplete_timed_out_then_recover_to_off() {
    let t0 = Instant::from_nanos(1_000);
    let current_ctx = ctx_with_pending_headlamp(LightingState::OnRequested, t0, 100);
    let result = twin_turn(
        &FsmState::Idle,
        &current_ctx,
        &FsmEvent::FrontHeadlampActuationIncomplete {
            direction: Direction::On,
            cause: Cause::TimedOut,
        },
        t0,
    );
    assert_eq!(result.modified_ctx.headlamp.state, LightingState::Off);
    assert!(result.modified_ctx.headlamp.ack_pending_since.is_none());
    assert_eq!(
        result
            .actions
            .iter()
            .filter(|a| matches!(a, DomainAction::LogWarning(_)))
            .count(),
        1
    );
    assert!(result.actions.iter().any(|a| matches!(
        a,
        DomainAction::LogWarning(msg) if msg.contains("ON request")
    )));
}

#[test]
fn given_off_requested_when_actuation_incomplete_timed_out_then_recover_to_on() {
    let t0 = Instant::from_nanos(1_000);
    let current_ctx = ctx_with_pending_headlamp(LightingState::OffRequested, t0, 50);
    let result = twin_turn(
        &FsmState::Driving,
        &current_ctx,
        &FsmEvent::FrontHeadlampActuationIncomplete {
            direction: Direction::Off,
            cause: Cause::TimedOut,
        },
        t0,
    );
    assert_eq!(result.modified_ctx.headlamp.state, LightingState::On);
    assert!(result.modified_ctx.headlamp.ack_pending_since.is_none());
    assert_eq!(
        result
            .actions
            .iter()
            .filter(|a| matches!(a, DomainAction::LogWarning(_)))
            .count(),
        1
    );
    assert!(result.actions.iter().any(|a| matches!(
        a,
        DomainAction::LogWarning(msg) if msg.contains("OFF request")
    )));
}

#[test]
fn given_on_requested_when_actuation_incomplete_wrong_direction_then_no_op() {
    let t0 = Instant::from_nanos(1_000);
    let current_ctx = ctx_with_pending_headlamp(LightingState::OnRequested, t0, 20);
    let result = twin_turn(
        &FsmState::Idle,
        &current_ctx,
        &FsmEvent::FrontHeadlampActuationIncomplete {
            direction: Direction::Off,
            cause: Cause::TimedOut,
        },
        t0,
    );
    assert_eq!(result.modified_ctx.headlamp.state, LightingState::OnRequested);
    assert_eq!(result.modified_ctx.headlamp.ack_pending_since, Some(t0));
    assert!(!result
        .actions
        .iter()
        .any(|a| matches!(a, DomainAction::LogWarning(_))));
}

#[test]
fn given_off_requested_when_actuation_incomplete_wrong_direction_then_no_op() {
    let t0 = Instant::from_nanos(1_000);
    let current_ctx = ctx_with_pending_headlamp(LightingState::OffRequested, t0, 50);
    let result = twin_turn(
        &FsmState::Driving,
        &current_ctx,
        &FsmEvent::FrontHeadlampActuationIncomplete {
            direction: Direction::On,
            cause: Cause::TimedOut,
        },
        t0,
    );
    assert_eq!(result.modified_ctx.headlamp.state, LightingState::OffRequested);
    assert_eq!(result.modified_ctx.headlamp.ack_pending_since, Some(t0));
    assert!(!result
        .actions
        .iter()
        .any(|a| matches!(a, DomainAction::LogWarning(_))));
}

#[test]
fn given_lights_off_when_actuation_incomplete_on_then_no_recovery() {
    let result = twin_turn(
        &FsmState::Idle,
        &valid_twin_context(),
        &FsmEvent::FrontHeadlampActuationIncomplete {
            direction: Direction::On,
            cause: Cause::TimedOut,
        },
        Instant::from_nanos(1_000),
    );
    assert_eq!(result.modified_ctx.headlamp.state, LightingState::Off);
    assert!(!result
        .actions
        .iter()
        .any(|a| matches!(a, DomainAction::LogWarning(_))));
}


#[test]
fn given_idle_on_requested_when_power_off_then_primary_off_and_lighting_cleared() {
    let t0 = Instant::from_nanos(1_000);
    let current_ctx = ctx_with_pending_headlamp(LightingState::OnRequested, t0, 100);
    let stopping = twin_turn(&FsmState::Idle, &current_ctx, &FsmEvent::PowerOff, t0);
    assert_eq!(stopping.next_state, FsmState::PreparingToStop);
    let result = twin_turn(
        &stopping.next_state,
        &stopping.modified_ctx,
        &FsmEvent::AssemblyZoneReady(ZoneId::Headlamp),
        t0,
    );
    assert_eq!(result.next_state, FsmState::Off);
    assert_eq!(result.modified_ctx.headlamp.state, LightingState::Off);
    assert!(result.modified_ctx.headlamp.ack_pending_since.is_none());
}

#[test]
fn an_acknowledgement_shows_as_a_difference_in_its_row() {
    let t0 = Instant::from_nanos(1_000);
    let ctx = ctx_with_pending_headlamp(LightingState::OnRequested, t0, 100);
    let result = twin_turn(&FsmState::Idle, &ctx, &FsmEvent::FrontHeadlampOnAck, t0);
    let row = &result.transition_record;
    assert_eq!(row.old_state, FsmState::Idle);
    assert_eq!(row.old_ctx, ctx);
    assert_eq!(row.current_ctx, result.modified_ctx);
    assert_eq!(row.old_ctx.headlamp.state, LightingState::OnRequested);
    assert_eq!(row.current_ctx.headlamp.state, LightingState::On);
}
