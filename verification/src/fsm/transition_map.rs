//! The table of mode changes and what each change calls for.
//!
//! - Off, on power-on with a healthy car: prepare to start.
//! - Preparing to start, on the answer of the last pending assembly: idle.
//! - Idle, on power-off: prepare to stop; on an engine speed above the driving threshold: driving.
//! - Driving, with lighting found unsafe: driving dangerously; under warning: extreme operation;
//!   at a standstill: idle.
//! - Driving dangerously, at a standstill: idle; with the lamp lit or enough light: driving.
//! - Extreme operation, on a heartbeat after the cooldown with the hazard gone: driving or idle.
//! - Preparing to stop, on the answer of the last pending assembly: off.
//! - Everything else: no change.
use vstd::prelude::*;

use super::machineries::{FsmAction, FsmActionView, FsmEvent, FsmState, Operational};
use crate::clock::{Duration, Instant};
use crate::vehicle_physics::constants;
use crate::vehicle_physics::constants::{
    extreme_operation_active, speed_threshold_exceeded, EXTREME_OPERATION_WARNING_MESSAGE,
    LUX_ON_THRESHOLD, RPM_DRIVING_THRESHOLD, RPM_STRESS_DURATION_THRESHOLD_SECS,
    SPEED_THRESHOLD_WARNING_MESSAGE,
};
use crate::vehicle_state::front_headlamp::HeadlampState;
use crate::vehicle_state::VehicleContext;
use crate::zones::ZoneId;

verus! {

/// Something noteworthy about a transition that did not happen.
#[derive(Clone, Copy, Debug, PartialEq, Eq, Structural)]
pub enum TransitionNote {
    RejectedPowerOff,
}

#[derive(Clone, Copy, Debug, PartialEq, Eq, Structural)]
pub struct TransitionResult {
    pub next_state: FsmState,
    /// Set where the outcome is not routine.
    pub note: Option<TransitionNote>,
}

/// The event is the answer of the last assembly that is still pending.
pub open spec fn completes_assemblies(event: FsmEvent, ctx: VehicleContext) -> bool {
    event matches FsmEvent::AssemblyZoneReady(zone) && ctx.pending_assemblies@.remove(zone)
        == Set::<ZoneId>::empty()
}

/// The cooldown of a warning that began at `began_at` is over and its hazard is gone.
pub open spec fn recovery_ready(began_at: Instant, now: Instant, ctx: VehicleContext) -> bool {
    now.since(began_at) >= RPM_STRESS_DURATION_THRESHOLD_SECS * 1_000_000_000
        && !ctx.powertrain.warning_active()
}

/// The mode that follows `state` on `event`, in the context `ctx`.
pub open spec fn next_mode(
    state: FsmState,
    event: FsmEvent,
    ctx: VehicleContext,
    now: Instant,
) -> FsmState {
    match state {
        FsmState::Off => if event == FsmEvent::PowerOn && ctx.health.healthy() {
            FsmState::PreparingToStart
        } else {
            FsmState::Off
        },
        FsmState::PreparingToStart => if completes_assemblies(event, ctx) {
            FsmState::Idle
        } else {
            FsmState::PreparingToStart
        },
        FsmState::Idle => match event {
            FsmEvent::PowerOff => FsmState::PreparingToStop,
            FsmEvent::UpdateRpm(rpm) => if rpm > RPM_DRIVING_THRESHOLD {
                FsmState::Driving
            } else {
                FsmState::Idle
            },
            _ => FsmState::Idle,
        },
        FsmState::Driving => if event == FsmEvent::Internal(Operational::LightingUnsafe) {
            FsmState::DrivingDangerously
        } else if event == FsmEvent::PowerOff {
            FsmState::Driving
        } else if ctx.powertrain.warning_active() {
            FsmState::ExtremeOperationWarning(now)
        } else if ctx.powertrain.stationary() {
            FsmState::Idle
        } else {
            FsmState::Driving
        },
        FsmState::DrivingDangerously => if event == FsmEvent::PowerOff {
            FsmState::DrivingDangerously
        } else if ctx.powertrain.stationary() {
            FsmState::Idle
        } else if ctx.headlamp.state == HeadlampState::On || ctx.visibility.ambient_lux
            > LUX_ON_THRESHOLD {
            FsmState::Driving
        } else {
            FsmState::DrivingDangerously
        },
        FsmState::ExtremeOperationWarning(began_at) => if event == FsmEvent::TimerTick
            && recovery_ready(began_at, now, ctx) {
            if ctx.powertrain.stationary() {
                FsmState::Idle
            } else {
                FsmState::Driving
            }
        } else {
            state
        },
        FsmState::PreparingToStop => if completes_assemblies(event, ctx) {
            FsmState::Off
        } else {
            FsmState::PreparingToStop
        },
    }
}

/// A power-off in this mode is turned down with a note; while assemblies are being prepared it
/// is passed over in silence.
pub open spec fn rejects_power_off(state: FsmState) -> bool {
    match state {
        FsmState::Off
        | FsmState::Driving
        | FsmState::DrivingDangerously
        | FsmState::ExtremeOperationWarning(_) => true,
        FsmState::Idle | FsmState::PreparingToStart | FsmState::PreparingToStop => false,
    }
}

pub open spec fn note_of(state: FsmState, event: FsmEvent) -> Option<TransitionNote> {
    if event == FsmEvent::PowerOff && rejects_power_off(state) {
        Some(TransitionNote::RejectedPowerOff)
    } else {
        None
    }
}

/// Decides the mode that follows `current_state` on `event`.
pub fn transition(
    current_state: &FsmState,
    event: &FsmEvent,
    current_ctx: &VehicleContext,
    now: Instant,
) -> (result: TransitionResult)
    ensures
        result.next_state == next_mode(*current_state, *event, *current_ctx, now),
        result.note == note_of(*current_state, *event),
{
    let note = if *event == FsmEvent::PowerOff {
        match current_state {
            FsmState::Off
            | FsmState::Driving
            | FsmState::DrivingDangerously
            | FsmState::ExtremeOperationWarning(_) => Some(TransitionNote::RejectedPowerOff),
            _ => None,
        }
    } else {
        None
    };
    let next_state = match current_state {
        FsmState::Off => match event {
            FsmEvent::PowerOn if current_ctx.is_healthy() => FsmState::PreparingToStart,
            _ => FsmState::Off,
        },
        FsmState::PreparingToStart => match event {
            FsmEvent::AssemblyZoneReady(zone_id) => {
                if current_ctx.pending_assemblies.without(*zone_id).is_empty() {
                    FsmState::Idle
                } else {
                    FsmState::PreparingToStart
                }
            },
            _ => FsmState::PreparingToStart,
        },
        FsmState::Idle => match event {
            FsmEvent::PowerOff => FsmState::PreparingToStop,
            FsmEvent::UpdateRpm(rpm) if *rpm > RPM_DRIVING_THRESHOLD => FsmState::Driving,
            _ => FsmState::Idle,
        },
        FsmState::Driving => match event {
            FsmEvent::Internal(Operational::LightingUnsafe) => FsmState::DrivingDangerously,
            FsmEvent::PowerOff => FsmState::Driving,
            _ if current_ctx.powertrain.is_operational_warning_active() => {
                FsmState::ExtremeOperationWarning(now)
            },
            _ if current_ctx.powertrain.is_stationary() => FsmState::Idle,
            _ => FsmState::Driving,
        },
        FsmState::DrivingDangerously => match event {
            FsmEvent::PowerOff => FsmState::DrivingDangerously,
            _ if current_ctx.powertrain.is_stationary() => FsmState::Idle,
            _ if current_ctx.headlamp.state == HeadlampState::On => FsmState::Driving,
            _ if current_ctx.visibility.ambient_lux > LUX_ON_THRESHOLD => FsmState::Driving,
            _ => FsmState::DrivingDangerously,
        },
        FsmState::ExtremeOperationWarning(began_at) => match event {
            FsmEvent::TimerTick if operational_warning_recovery_ready(
                *began_at,
                now,
                current_ctx,
            ) => {
                if current_ctx.powertrain.is_stationary() {
                    FsmState::Idle
                } else {
                    FsmState::Driving
                }
            },
            _ => FsmState::ExtremeOperationWarning(*began_at),
        },
        FsmState::PreparingToStop => match event {
            FsmEvent::AssemblyZoneReady(zone_id) => {
                if current_ctx.pending_assemblies.without(*zone_id).is_empty() {
                    FsmState::Off
                } else {
                    FsmState::PreparingToStop
                }
            },
            _ => FsmState::PreparingToStop,
        },
    };
    TransitionResult { next_state, note }
}

pub(crate) fn operational_warning_recovery_ready(
    began_at: Instant,
    now: Instant,
    ctx: &VehicleContext,
) -> (r: bool)
    ensures
        r == recovery_ready(began_at, now, *ctx),
{
    let warning_age = match now.checked_duration_since(began_at) {
        Some(age) => age,
        None => Duration { nanos: 0 },
    };
    warning_age.nanos >= Duration::from_secs(RPM_STRESS_DURATION_THRESHOLD_SECS).nanos
        && !ctx.powertrain.is_operational_warning_active()
}

/// What entering the extreme-operation warning calls for: the buzzer, and a warning for each
/// signal that is up.
pub open spec fn warning_entry_actions(ctx: VehicleContext) -> Seq<FsmActionView> {
    seq![FsmActionView::StartBuzzer] + (if constants::over_speed(ctx.powertrain.speed_kph) {
        seq![FsmActionView::LogWarning(SPEED_THRESHOLD_WARNING_MESSAGE@)]
    } else {
        Seq::empty()
    }) + (if constants::extreme(ctx.powertrain.rpm(), ctx.powertrain.speed_kph) {
        seq![FsmActionView::LogWarning(EXTREME_OPERATION_WARNING_MESSAGE@)]
    } else {
        Seq::empty()
    })
}

/// What a change from `old` to `new` calls for.
pub open spec fn mode_change_actions(
    old_mode: FsmState,
    new_mode: FsmState,
    ctx: VehicleContext,
) -> Seq<FsmActionView> {
    match (old_mode, new_mode) {
        (FsmState::Off, FsmState::PreparingToStart) => seq![FsmActionView::StartAssemblies],
        (FsmState::Idle, FsmState::PreparingToStop) => seq![FsmActionView::StopAssemblies],
        (FsmState::Driving, FsmState::DrivingDangerously) => seq![FsmActionView::StartBuzzer],
        (FsmState::DrivingDangerously, FsmState::Driving) => seq![FsmActionView::StopBuzzer],
        (FsmState::DrivingDangerously, FsmState::Idle) => seq![FsmActionView::StopBuzzer],
        (FsmState::Driving, FsmState::ExtremeOperationWarning(_)) => warning_entry_actions(ctx),
        (FsmState::ExtremeOperationWarning(_), FsmState::Driving) => seq![
            FsmActionView::StopBuzzer,
        ],
        (FsmState::ExtremeOperationWarning(_), FsmState::Idle) => seq![FsmActionView::StopBuzzer],
        _ => if old_mode != new_mode {
            seq![FsmActionView::PublishStateSync]
        } else {
            Seq::empty()
        },
    }
}

pub(crate) fn warning_entry(ctx: &VehicleContext) -> (actions: Vec<FsmAction>)
    ensures
        super::machineries::fsm_action_views(actions@) == warning_entry_actions(*ctx),
{
    let mut actions: Vec<FsmAction> = Vec::new();
    actions.push(FsmAction::StartBuzzer);
    if speed_threshold_exceeded(ctx.powertrain.speed_kph) {
        actions.push(FsmAction::LogWarning(SPEED_THRESHOLD_WARNING_MESSAGE.to_owned()));
    }
    if extreme_operation_active(ctx.powertrain.primary_rpm(), ctx.powertrain.speed_kph) {
        actions.push(FsmAction::LogWarning(EXTREME_OPERATION_WARNING_MESSAGE.to_owned()));
    }
    assert(super::machineries::fsm_action_views(actions@) =~= warning_entry_actions(*ctx));
    actions
}

pub(crate) fn just(action: FsmAction) -> (actions: Vec<FsmAction>)
    ensures
        super::machineries::fsm_action_views(actions@) == seq![action@],
{
    let mut actions: Vec<FsmAction> = Vec::new();
    actions.push(action);
    assert(super::machineries::fsm_action_views(actions@) =~= seq![action@]);
    actions
}

/// What a change from `old_state` to `new_state` calls for.
pub fn output(old_state: &FsmState, new_state: &FsmState, ctx: &VehicleContext) -> (actions: Vec<
    FsmAction,
>)
    ensures
        super::machineries::fsm_action_views(actions@) == mode_change_actions(
            *old_state,
            *new_state,
            *ctx,
        ),
{
    match (*old_state, *new_state) {
        (FsmState::Off, FsmState::PreparingToStart) => just(FsmAction::StartAssemblies),
        (FsmState::Idle, FsmState::PreparingToStop) => just(FsmAction::StopAssemblies),
        (FsmState::Driving, FsmState::DrivingDangerously) => just(FsmAction::StartBuzzer),
        (FsmState::DrivingDangerously, FsmState::Driving) => just(FsmAction::StopBuzzer),
        (FsmState::DrivingDangerously, FsmState::Idle) => just(FsmAction::StopBuzzer),
        (FsmState::Driving, FsmState::ExtremeOperationWarning(_)) => warning_entry(ctx),
        (FsmState::ExtremeOperationWarning(_), FsmState::Driving) => just(FsmAction::StopBuzzer),
        (FsmState::ExtremeOperationWarning(_), FsmState::Idle) => just(FsmAction::StopBuzzer),
        _ => {
            if *old_state != *new_state {
                just(FsmAction::PublishStateSync)
            } else {
                let actions: Vec<FsmAction> = Vec::new();
                assert(super::machineries::fsm_action_views(actions@)
                    =~= Seq::<FsmActionView>::empty());
                actions
            }
        },
    }
}

/// The warning is a temporal latch: it is left on a heartbeat alone, no sooner than the cooldown
/// after it began, and only once the hazard is gone. Until then its beginning is kept.
pub proof fn warning_is_a_latch(
    began_at: Instant,
    event: FsmEvent,
    ctx: VehicleContext,
    now: Instant,
)
    ensures
        ({
            let warned = FsmState::ExtremeOperationWarning(began_at);
            let next = next_mode(warned, event, ctx, now);
            &&& next != warned <==> event == FsmEvent::TimerTick && now.since(began_at)
                >= 5_000_000_000 && !constants::over_speed(ctx.powertrain.speed_kph)
            &&& next != warned ==> next == FsmState::Driving || next == FsmState::Idle
        }),
{
}

/// A hazard that the world never resolves keeps the twin warned, whatever else happens and
/// however long it takes.
pub proof fn unresolved_hazard_stays_warned(
    began_at: Instant,
    event: FsmEvent,
    ctx: VehicleContext,
    now: Instant,
)
    requires
        constants::over_speed(ctx.powertrain.speed_kph),
    ensures
        next_mode(FsmState::ExtremeOperationWarning(began_at), event, ctx, now)
            == FsmState::ExtremeOperationWarning(began_at),
{
}

/// Power-off changes the mode in idle alone; everywhere else the mode stays, and a powered car
/// that is not being started or stopped says so.
pub proof fn power_off_is_legal_in_idle_alone(state: FsmState, ctx: VehicleContext, now: Instant)
    ensures
        next_mode(state, FsmEvent::PowerOff, ctx, now) != state <==> state == FsmState::Idle,
        state == FsmState::Idle ==> next_mode(state, FsmEvent::PowerOff, ctx, now)
            == FsmState::PreparingToStop,
        note_of(state, FsmEvent::PowerOff) is Some <==> rejects_power_off(state),
{
}

/// The car reaches `Off` only by completing the stop of its assemblies.
pub proof fn off_is_reached_from_stopping_alone(
    state: FsmState,
    event: FsmEvent,
    ctx: VehicleContext,
    now: Instant,
)
    requires
        next_mode(state, event, ctx, now) == FsmState::Off,
    ensures
        state == FsmState::Off || (state == FsmState::PreparingToStop && completes_assemblies(
            event,
            ctx,
        )),
{
}

/// While assemblies are being started or stopped, nothing but the answer of an assembly moves
/// the mode.
pub proof fn preparation_ignores_the_world(
    state: FsmState,
    event: FsmEvent,
    ctx: VehicleContext,
    now: Instant,
)
    requires
        state == FsmState::PreparingToStart || state == FsmState::PreparingToStop,
        !(event is AssemblyZoneReady),
    ensures
        next_mode(state, event, ctx, now) == state,
        note_of(state, event) is None,
        mode_change_actions(state, next_mode(state, event, ctx, now), ctx).len() == 0,
{
}

/// The buzzer sounds in this mode.
pub open spec fn buzzing(mode: FsmState) -> bool {
    mode is ExtremeOperationWarning || mode == FsmState::DrivingDangerously
}

/// The buzzer follows the mode: it is started exactly on the way into a mode in which it sounds,
/// and stopped exactly on the way out.
pub proof fn buzzer_follows_the_mode(
    state: FsmState,
    event: FsmEvent,
    ctx: VehicleContext,
    now: Instant,
)
    ensures
        ({
            let next = next_mode(state, event, ctx, now);
            let actions = mode_change_actions(state, next, ctx);
            &&& actions.contains(FsmActionView::StartBuzzer) <==> !buzzing(state) && buzzing(next)
            &&& actions.contains(FsmActionView::StopBuzzer) <==> buzzing(state) && !buzzing(next)
        }),
{
    let next = next_mode(state, event, ctx, now);
    let actions = mode_change_actions(state, next, ctx);
    if actions.len() > 0 {
        assert(actions.contains(actions[0]));
    }
}

} // verus!
