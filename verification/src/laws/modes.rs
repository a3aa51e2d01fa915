//! When the operational mode changes, and where to.
use vstd::prelude::*;

use crate::clock::Instant;
use crate::engine::op_strategy::transition_map as unprepared;
use crate::fsm::machineries::{FsmEvent, FsmState, Operational};
use crate::fsm::transition_map;
use crate::vehicle_state::front_headlamp::HeadlampState;
use crate::vehicle_state::VehicleContext;
use crate::zones::ZoneId;

verus! {

/// A car that is off leaves that mode exactly when it is switched on with fuel in the tank, oil
/// under pressure and sound tyres, and then it prepares to start.
pub proof fn only_a_sound_car_starts(event: FsmEvent, ctx: VehicleContext, now: Instant)
    ensures
        ({
            let next = transition_map::next_mode(FsmState::Off, event, ctx, now);
            &&& next != FsmState::Off <==> event == FsmEvent::PowerOn && ctx.health.fuel_level >= 1
                && ctx.health.oil_pressure >= 1 && ctx.health.tyre_pressure_ok
            &&& next != FsmState::Off ==> next == FsmState::PreparingToStart
        }),
{
}

/// A preparation ends exactly with the answer of an assembly when no other assembly is pending;
/// a start then leads to idle and a stop to off.
pub proof fn a_preparation_ends_with_the_last_answer(
    starting: bool,
    event: FsmEvent,
    ctx: VehicleContext,
    now: Instant,
)
    ensures
        ({
            let preparing = if starting {
                FsmState::PreparingToStart
            } else {
                FsmState::PreparingToStop
            };
            let next = transition_map::next_mode(preparing, event, ctx, now);
            let last_answer = match event {
                FsmEvent::AssemblyZoneReady(ZoneId::Headlamp) => !ctx.pending_assemblies.wiper,
                FsmEvent::AssemblyZoneReady(ZoneId::Wiper) => !ctx.pending_assemblies.headlamp,
                _ => false,
            };
            &&& !last_answer ==> next == preparing
            &&& last_answer && starting ==> next == FsmState::Idle
            &&& last_answer && !starting ==> next == FsmState::Off
        }),
{
    if let FsmEvent::AssemblyZoneReady(zone) = event {
        let left = ctx.pending_assemblies@.remove(zone);
        assert(left.contains(ZoneId::Headlamp) <==> ctx.pending_assemblies.headlamp && zone
            != ZoneId::Headlamp);
        assert(left.contains(ZoneId::Wiper) <==> ctx.pending_assemblies.wiper && zone
            != ZoneId::Wiper);
        if !left.contains(ZoneId::Headlamp) && !left.contains(ZoneId::Wiper) {
            assert forall|z: ZoneId| !left.contains(z) by {
                match z {
                    ZoneId::Headlamp => {},
                    ZoneId::Wiper => {},
                }
            }
            assert(left =~= Set::<ZoneId>::empty());
        }
    }
}

/// An idle car pulls away exactly on an engine reading above 1000 rpm, prepares to stop exactly
/// when it is switched off, and is otherwise moved by nothing, whatever the state of its
/// assemblies. A faster reading pulls away wherever a slower one does.
pub proof fn an_idle_car_pulls_away_or_stops(
    event: FsmEvent,
    ctx: VehicleContext,
    other: VehicleContext,
    now: Instant,
    later: Instant,
)
    ensures
        ({
            let next = transition_map::next_mode(FsmState::Idle, event, ctx, now);
            &&& next == FsmState::Driving <==> (event matches FsmEvent::UpdateRpm(rpm) && rpm
                >= 1001)
            &&& next == FsmState::PreparingToStop <==> event == FsmEvent::PowerOff
            &&& next != FsmState::Driving && next != FsmState::PreparingToStop ==> next
                == FsmState::Idle
            &&& next == transition_map::next_mode(FsmState::Idle, event, other, later)
        }),
        forall|slow: u16, fast: u16|
            slow <= fast && (#[trigger] transition_map::next_mode(
                FsmState::Idle,
                FsmEvent::UpdateRpm(slow),
                ctx,
                now,
            )) == FsmState::Driving ==> (#[trigger] transition_map::next_mode(
                FsmState::Idle,
                FsmEvent::UpdateRpm(fast),
                ctx,
                now,
            )) == FsmState::Driving,
{
}

/// A driving car comes to drive dangerously exactly when its lighting is found unsafe. A request
/// to switch it off changes nothing. On every other event its speed decides: above 160 km/h it is
/// warned from now on, at a standstill it is idle, and in between it keeps driving.
pub proof fn the_speed_of_a_driving_car_decides(
    event: FsmEvent,
    ctx: VehicleContext,
    now: Instant,
)
    ensures
        ({
            let next = transition_map::next_mode(FsmState::Driving, event, ctx, now);
            let by_speed = event != FsmEvent::Internal(Operational::LightingUnsafe) && event
                != FsmEvent::PowerOff;
            &&& next == FsmState::DrivingDangerously <==> event == FsmEvent::Internal(
                Operational::LightingUnsafe,
            )
            &&& next is ExtremeOperationWarning <==> by_speed && ctx.powertrain.speed_kph >= 161
            &&& next is ExtremeOperationWarning ==> next == FsmState::ExtremeOperationWarning(now)
            &&& next == FsmState::Idle <==> by_speed && ctx.powertrain.speed_kph == 0
            &&& next == FsmState::Driving <==> event == FsmEvent::PowerOff || (by_speed && 1
                <= ctx.powertrain.speed_kph <= 160)
        }),
{
}

/// A car that drives dangerously and moves is safe again exactly when its lamp is confirmed lit or
/// the light is above 840 lux; at a standstill it is idle. A request to switch it off changes
/// nothing.
pub proof fn danger_ends_with_light_or_standstill(
    event: FsmEvent,
    ctx: VehicleContext,
    now: Instant,
)
    ensures
        ({
            let next = transition_map::next_mode(FsmState::DrivingDangerously, event, ctx, now);
            let moving = ctx.powertrain.speed_kph != 0;
            let lit = ctx.headlamp.state == HeadlampState::On || ctx.visibility.ambient_lux >= 841;
            &&& event == FsmEvent::PowerOff ==> next == FsmState::DrivingDangerously
            &&& event != FsmEvent::PowerOff && !moving ==> next == FsmState::Idle
            &&& event != FsmEvent::PowerOff && moving ==> (next == FsmState::Driving <==> lit)
            &&& event != FsmEvent::PowerOff && moving && !lit ==> next
                == FsmState::DrivingDangerously
        }),
{
}

/// A warning is left on a heartbeat alone, no sooner than five seconds after it began and at no
/// more than 160 km/h: to idle at a standstill, to driving otherwise. Until then it goes on, with
/// its beginning unchanged.
pub proof fn a_warning_is_left_on_a_late_heartbeat(
    began_at: Instant,
    event: FsmEvent,
    ctx: VehicleContext,
    now: Instant,
)
    ensures
        ({
            let warned = FsmState::ExtremeOperationWarning(began_at);
            let next = transition_map::next_mode(warned, event, ctx, now);
            let over = event == FsmEvent::TimerTick && now.nanos - began_at.nanos >= 5_000_000_000
                && ctx.powertrain.speed_kph <= 160;
            &&& !over ==> next == warned
            &&& over && ctx.powertrain.speed_kph == 0 ==> next == FsmState::Idle
            &&& over && ctx.powertrain.speed_kph != 0 ==> next == FsmState::Driving
        }),
{
}

/// A request to switch the car off is turned down with a note in every mode but idle and the two
/// preparations, and nothing else is ever noted.
pub proof fn refused_switches_are_noted(state: FsmState, event: FsmEvent)
    ensures
        transition_map::note_of(state, event) is Some <==> event == FsmEvent::PowerOff && !(state
            == FsmState::Idle || state == FsmState::PreparingToStart || state
            == FsmState::PreparingToStop),
{
}

/// Without preparation, a sound car that is switched on is idle at once, and an idle one that is
/// switched off is off at once; nothing else moves an idle car but an engine reading above 1000
/// rpm.
pub proof fn without_preparation_a_switch_acts_at_once(
    event: FsmEvent,
    ctx: VehicleContext,
    now: Instant,
)
    ensures
        ({
            let on = unprepared::next_mode(FsmState::Off, event, ctx, now);
            let off = unprepared::next_mode(FsmState::Idle, event, ctx, now);
            &&& on != FsmState::Off <==> event == FsmEvent::PowerOn && ctx.health.fuel_level >= 1
                && ctx.health.oil_pressure >= 1 && ctx.health.tyre_pressure_ok
            &&& on != FsmState::Off ==> on == FsmState::Idle
            &&& off == FsmState::Off <==> event == FsmEvent::PowerOff
            &&& off == FsmState::Driving <==> (event matches FsmEvent::UpdateRpm(rpm) && rpm
                >= 1001)
            &&& off != FsmState::Off && off != FsmState::Driving ==> off == FsmState::Idle
        }),
{
}

/// Without preparation, the speed alone decides over a driving car, and a warning is left as it is
/// with preparation. The modes that belong to preparation and to lighting are never left.
pub proof fn without_preparation_speed_decides_on_the_road(
    began_at: Instant,
    event: FsmEvent,
    ctx: VehicleContext,
    now: Instant,
)
    ensures
        ({
            let next = unprepared::next_mode(FsmState::Driving, event, ctx, now);
            let by_speed = event != FsmEvent::PowerOff;
            &&& next is ExtremeOperationWarning <==> by_speed && ctx.powertrain.speed_kph >= 161
            &&& next is ExtremeOperationWarning ==> next == FsmState::ExtremeOperationWarning(now)
            &&& next == FsmState::Idle <==> by_speed && ctx.powertrain.speed_kph == 0
            &&& next == FsmState::Driving <==> !by_speed || 1 <= ctx.powertrain.speed_kph <= 160
        }),
        ({
            let warned = FsmState::ExtremeOperationWarning(began_at);
            let next = unprepared::next_mode(warned, event, ctx, now);
            let over = event == FsmEvent::TimerTick && now.nanos - began_at.nanos >= 5_000_000_000
                && ctx.powertrain.speed_kph <= 160;
            &&& !over ==> next == warned
            &&& over && ctx.powertrain.speed_kph == 0 ==> next == FsmState::Idle
            &&& over && ctx.powertrain.speed_kph != 0 ==> next == FsmState::Driving
        }),
        unprepared::next_mode(FsmState::PreparingToStart, event, ctx, now)
            == FsmState::PreparingToStart,
        unprepared::next_mode(FsmState::PreparingToStop, event, ctx, now)
            == FsmState::PreparingToStop,
        unprepared::next_mode(FsmState::DrivingDangerously, event, ctx, now)
            == FsmState::DrivingDangerously,
{
}

} // verus!
