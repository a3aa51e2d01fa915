//! The operating strategy of a car whose assemblies need no preparation: ignition leads straight
//! to idle and back.
//!
//! - Off, on power-on with a healthy car: idle.
//! - Idle, on power-off: off; on an engine speed above the driving threshold: driving.
//! - Driving, under warning: extreme operation; at a standstill: idle.
//! - Extreme operation, on a heartbeat after the cooldown with the hazard gone: driving or idle.
//! - Everything else: no change.
use vstd::prelude::*;

use crate::clock::Instant;
use crate::fsm::machineries;
use crate::fsm::machineries::{FsmAction, FsmActionView, FsmEvent, FsmState, Operational};
use crate::fsm::step;
use crate::fsm::transition_map as prepared;
use crate::vehicle_physics::constants::RPM_DRIVING_THRESHOLD;
use crate::vehicle_state::VehicleContext;

verus! {

/// The mode that follows `state` on `event`, in the context `ctx`.
pub open spec fn next_mode(
    state: FsmState,
    event: FsmEvent,
    ctx: VehicleContext,
    now: Instant,
) -> FsmState {
    match state {
        FsmState::Off => if event == FsmEvent::PowerOn && ctx.health.healthy() {
            FsmState::Idle
        } else {
            FsmState::Off
        },
        FsmState::Idle => match event {
            FsmEvent::PowerOff => FsmState::Off,
            FsmEvent::UpdateRpm(rpm) => if rpm > RPM_DRIVING_THRESHOLD {
                FsmState::Driving
            } else {
                FsmState::Idle
            },
            _ => FsmState::Idle,
        },
        FsmState::Driving => if event == FsmEvent::PowerOff {
            FsmState::Driving
        } else if ctx.powertrain.warning_active() {
            FsmState::ExtremeOperationWarning(now)
        } else if ctx.powertrain.stationary() {
            FsmState::Idle
        } else {
            FsmState::Driving
        },
        FsmState::ExtremeOperationWarning(began_at) => if event == FsmEvent::TimerTick
            && prepared::recovery_ready(began_at, now, ctx) {
            if ctx.powertrain.stationary() {
                FsmState::Idle
            } else {
                FsmState::Driving
            }
        } else {
            state
        },
        FsmState::PreparingToStart
        | FsmState::DrivingDangerously
        | FsmState::PreparingToStop => state,
    }
}

/// Decides the mode that follows `current_state` on `event`.
pub fn transition(
    current_state: &FsmState,
    event: &FsmEvent,
    current_ctx: &VehicleContext,
    now: Instant,
) -> (next: FsmState)
    ensures
        next == next_mode(*current_state, *event, *current_ctx, now),
{
    match current_state {
        FsmState::Off => match event {
            FsmEvent::PowerOn if current_ctx.is_healthy() => FsmState::Idle,
            _ => FsmState::Off,
        },
        FsmState::Idle => match event {
            FsmEvent::PowerOff => FsmState::Off,
            FsmEvent::UpdateRpm(rpm) if *rpm > RPM_DRIVING_THRESHOLD => FsmState::Driving,
            _ => FsmState::Idle,
        },
        FsmState::Driving => match event {
            FsmEvent::PowerOff => FsmState::Driving,
            _ if current_ctx.powertrain.is_operational_warning_active() => {
                FsmState::ExtremeOperationWarning(now)
            },
            _ if current_ctx.powertrain.is_stationary() => FsmState::Idle,
            _ => FsmState::Driving,
        },
        FsmState::ExtremeOperationWarning(began_at) => match event {
            FsmEvent::TimerTick if prepared::operational_warning_recovery_ready(
                *began_at,
                now,
                current_ctx,
            ) => {
                if current_ctx.powertrain.is_stationary() {
                    FsmState::Idle
                } else {
                    FsmState::Driving
                }
            },
            _ => *current_state,
        },
        FsmState::PreparingToStart
        | FsmState::DrivingDangerously
        | FsmState::PreparingToStop => *current_state,
    }
}

/// The notice for a power-off that the strategy turns down, for whoever shows notices.
pub fn rejection_notice(current_state: &FsmState, event: &FsmEvent) -> (notice: Option<String>)
    ensures
        (match notice {
            Some(n) => Some(n@),
            None => None,
        }) == (if *event == FsmEvent::PowerOff && rejects_power_off(*current_state) {
            Some(step::rejection_text(*current_state))
        } else {
            None
        }),
{
    if *event != FsmEvent::PowerOff {
        return None;
    }
    match current_state {
        FsmState::Off | FsmState::Driving | FsmState::ExtremeOperationWarning(_) => Some(
            step::rejection_warning(current_state),
        ),
        _ => None,
    }
}

/// The modes of the strategy in which a power-off is turned down: all but idle.
pub open spec fn rejects_power_off(state: FsmState) -> bool {
    state == FsmState::Off || state == FsmState::Driving || state is ExtremeOperationWarning
}

/// What a change from `old_mode` to `new_mode` calls for.
pub open spec fn mode_change_actions(
    old_mode: FsmState,
    new_mode: FsmState,
    ctx: VehicleContext,
) -> Seq<FsmActionView> {
    match (old_mode, new_mode) {
        (FsmState::Driving, FsmState::ExtremeOperationWarning(_)) => {
            prepared::warning_entry_actions(ctx)
        },
        (FsmState::ExtremeOperationWarning(_), FsmState::Driving) => seq![
            FsmActionView::StopBuzzer,
        ],
        (FsmState::ExtremeOperationWarning(_), FsmState::Idle) => seq![FsmActionView::StopBuzzer],
        _ => if old_mode != new_mode {
            seq![FsmActionView::PublishStateSync]
        } else {
            Seq::empty()
        },
    }
}

/// What a change from `old_state` to `new_state` calls for.
pub fn output(old_state: &FsmState, new_state: &FsmState, ctx: &VehicleContext) -> (actions: Vec<
    FsmAction,
>)
    ensures
        machineries::fsm_action_views(actions@) == mode_change_actions(
            *old_state,
            *new_state,
            *ctx,
        ),
{
    match (*old_state, *new_state) {
        (FsmState::Driving, FsmState::ExtremeOperationWarning(_)) => prepared::warning_entry(ctx),
        (FsmState::ExtremeOperationWarning(_), FsmState::Driving) => prepared::just(
            FsmAction::StopBuzzer,
        ),
        (FsmState::ExtremeOperationWarning(_), FsmState::Idle) => prepared::just(
            FsmAction::StopBuzzer,
        ),
        _ => {
            if *old_state != *new_state {
                prepared::just(FsmAction::PublishStateSync)
            } else {
                let actions: Vec<FsmAction> = Vec::new();
                assert(machineries::fsm_action_views(actions@)
                    =~= Seq::<FsmActionView>::empty());
                actions
            }
        },
    }
}

/// Between power-on and power-off the strategy is the operational state machine's own, but for
/// what the brain finds out about lighting.
pub proof fn strategies_agree_on_the_road(
    state: FsmState,
    event: FsmEvent,
    ctx: VehicleContext,
    now: Instant,
)
    requires
        state == FsmState::Idle || state == FsmState::Driving || state is ExtremeOperationWarning,
        !(state == FsmState::Driving && event == FsmEvent::Internal(Operational::LightingUnsafe)),
        !(state == FsmState::Idle && event == FsmEvent::PowerOff),
    ensures
        next_mode(state, event, ctx, now) == prepared::next_mode(state, event, ctx, now),
        mode_change_actions(state, next_mode(state, event, ctx, now), ctx)
            == prepared::mode_change_actions(state, next_mode(state, event, ctx, now), ctx),
{
}

} // verus!
