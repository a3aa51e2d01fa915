//! What an event makes of the assemblies, and which of them is told of it.
use vstd::prelude::*;

use crate::clock::Instant;
use crate::digital_twin::vocabulary::{ZoneMessage, ZoneReplyView};
use crate::fsm::machineries::{DomainActionView, FsmEvent, FsmState};
use crate::twin_runtime::outcome_map;
use crate::twin_runtime::zone_turn;
use crate::twin_runtime::zone_turn::ZoneOutcomeView;
use crate::vehicle_physics::kinematics;
use crate::vehicle_state::front_headlamp::{
    FrontHeadlampSwitchDirection, HeadlampMessage, HeadlampOutcomeView, HeadlampState,
};
use crate::vehicle_state::wiper::{WiperMessage, WiperOutcome, WiperState};
use crate::vehicle_state::VehicleContext;
use crate::zones::ZoneId;

verus! {

/// The zone has not answered as such.
pub open spec fn silent(zone: ZoneId, replies: Map<ZoneId, ZoneReplyView>) -> bool {
    replies.dom().contains(zone) ==> match zone {
        ZoneId::Headlamp => !(replies[zone] is Headlamp),
        ZoneId::Wiper => !(replies[zone] is Wiper),
    }
}

/// Ground speed is 0.114 km/h for each revolution per minute, rounded to the nearest whole number,
/// halves up.
pub proof fn speed_follows_the_engine(rpm: u16)
    ensures
        ({
            let kph = kinematics::kph_of_rpm(rpm);
            &&& 1000 * kph - 500 <= 114 * rpm < 1000 * kph + 500
            &&& kph <= 7471
        }),
{
}

/// An engine reading sets all four wheels, and the speed that follows from them; a car that is off
/// stands still all the same. No other event touches the powertrain.
pub proof fn engine_readings_move_the_car(
    ctx: VehicleContext,
    event: FsmEvent,
    state: FsmState,
    now: Instant,
    replies: Map<ZoneId, ZoneReplyView>,
)
    ensures
        ({
            let after = zone_turn::zone_effect(ctx, event, state, now, replies);
            let powertrain = after.ctx.powertrain;
            match event {
                FsmEvent::UpdateRpm(rpm) => {
                    &&& powertrain.wheel_rpm.front_left == rpm
                    &&& powertrain.wheel_rpm.front_right == rpm
                    &&& powertrain.wheel_rpm.rear_left == rpm
                    &&& powertrain.wheel_rpm.rear_right == rpm
                    &&& state == FsmState::Off ==> powertrain.speed_kph == 0
                    &&& state != FsmState::Off ==> 1000 * powertrain.speed_kph - 500 <= 114 * rpm
                        < 1000 * powertrain.speed_kph + 500
                    &&& after.outcomes.len() == 0
                },
                _ => powertrain == ctx.powertrain,
            }
        }),
{
    if let FsmEvent::UpdateRpm(rpm) = event {
        speed_follows_the_engine(rpm);
    }
}

/// A light reading is what the car shows of the light. No other event touches it, and no event
/// touches the car's health or its pending assemblies.
pub proof fn light_readings_are_shown(
    ctx: VehicleContext,
    event: FsmEvent,
    state: FsmState,
    now: Instant,
    replies: Map<ZoneId, ZoneReplyView>,
)
    ensures
        ({
            let after = zone_turn::zone_effect(ctx, event, state, now, replies).ctx;
            &&& after.visibility.ambient_lux == match event {
                FsmEvent::UpdateAmbientLux(lux) => lux,
                _ => ctx.visibility.ambient_lux,
            }
            &&& after.health == ctx.health
            &&& after.pending_assemblies == ctx.pending_assemblies
        }),
{
}

/// Without an answer of the wiper, it wipes after rain has started and is parked after rain has
/// stopped, whatever it did before, and exactly a change is reported. No other event changes it.
pub proof fn the_wiper_follows_the_rain(
    ctx: VehicleContext,
    event: FsmEvent,
    state: FsmState,
    now: Instant,
    replies: Map<ZoneId, ZoneReplyView>,
)
    requires
        silent(ZoneId::Wiper, replies),
    ensures
        ({
            let after = zone_turn::zone_effect(ctx, event, state, now, replies);
            let wiper = after.ctx.wiper.state;
            &&& event == FsmEvent::RainsStarted ==> wiper == WiperState::Wiping
            &&& event == FsmEvent::RainsStopped ==> wiper == WiperState::Parked
            &&& event != FsmEvent::RainsStarted && event != FsmEvent::RainsStopped ==> wiper
                == ctx.wiper.state
            &&& event == FsmEvent::RainsStarted || event == FsmEvent::RainsStopped ==> {
                &&& wiper == ctx.wiper.state ==> after.outcomes.len() == 0
                &&& wiper != ctx.wiper.state ==> after.outcomes.len() == 1 && after.outcomes[0]
                    == ZoneOutcomeView::Wiper(
                    if event == FsmEvent::RainsStarted {
                        WiperOutcome::Started
                    } else {
                        WiperOutcome::Stopped
                    },
                )
                &&& after.ctx.headlamp == ctx.headlamp
            }
        }),
{
}

/// An answer of the wiper is what the car shows of it, with what it reports, on rain and on the
/// answer to its own start or stop order. No other event heeds it.
pub proof fn the_wipers_answer_is_taken_over(
    ctx: VehicleContext,
    event: FsmEvent,
    state: FsmState,
    now: Instant,
    replies: Map<ZoneId, ZoneReplyView>,
)
    requires
        replies.dom().contains(ZoneId::Wiper),
        replies[ZoneId::Wiper] is Wiper,
    ensures
        ({
            let after = zone_turn::zone_effect(ctx, event, state, now, replies);
            let answer = replies[ZoneId::Wiper]->Wiper_0;
            if event == FsmEvent::RainsStarted || event == FsmEvent::RainsStopped || event
                == FsmEvent::AssemblyZoneReady(ZoneId::Wiper) {
                &&& after.ctx.wiper == answer.ctx
                &&& after.outcomes.len() == answer.outcomes.len()
                &&& forall|i: int|
                    0 <= i < answer.outcomes.len() ==> (#[trigger] after.outcomes[i])
                        == ZoneOutcomeView::Wiper(answer.outcomes[i])
            } else {
                after.ctx.wiper == ctx.wiper
            }
        }),
{
}

/// An answer of the headlamp is what the car shows of it, with what it reports, on light, on
/// acknowledgements and failures, on heartbeats and on the answer to its own start or stop order.
/// No other event heeds it.
pub proof fn the_headlamps_answer_is_taken_over(
    ctx: VehicleContext,
    event: FsmEvent,
    state: FsmState,
    now: Instant,
    replies: Map<ZoneId, ZoneReplyView>,
)
    requires
        replies.dom().contains(ZoneId::Headlamp),
        replies[ZoneId::Headlamp] is Headlamp,
    ensures
        ({
            let after = zone_turn::zone_effect(ctx, event, state, now, replies);
            let answer = replies[ZoneId::Headlamp]->Headlamp_0;
            if event is UpdateAmbientLux || event is FrontHeadlampOnAck
                || event is FrontHeadlampOffAck || event is FrontHeadlampActuationIncomplete
                || event is TimerTick || event == FsmEvent::AssemblyZoneReady(ZoneId::Headlamp) {
                &&& after.ctx.headlamp == answer.ctx
                &&& after.outcomes.len() == answer.outcomes.len()
                &&& forall|i: int|
                    0 <= i < answer.outcomes.len() ==> (#[trigger] after.outcomes[i])
                        == ZoneOutcomeView::Headlamp(answer.outcomes[i])
            } else {
                after.ctx.headlamp == ctx.headlamp
            }
        }),
{
}

/// Without an answer of the headlamp, light requests a switch with hysteresis as it does in the
/// zone itself.
pub proof fn without_an_answer_light_requests_a_switch(
    ctx: VehicleContext,
    lux: u16,
    state: FsmState,
    now: Instant,
    replies: Map<ZoneId, ZoneReplyView>,
)
    requires
        silent(ZoneId::Headlamp, replies),
    ensures
        ({
            let after = zone_turn::zone_effect(
                ctx,
                FsmEvent::UpdateAmbientLux(lux),
                state,
                now,
                replies,
            );
            let lamp = after.ctx.headlamp;
            let dark = ctx.headlamp.state == HeadlampState::Off || ctx.headlamp.state
                == HeadlampState::Ready;
            if dark && lux <= 840 {
                &&& lamp.state == HeadlampState::OnRequested
                &&& lamp.ack_pending_since == Some(now)
                &&& after.outcomes.len() == 1
                &&& after.outcomes[0] == ZoneOutcomeView::Headlamp(HeadlampOutcomeView::RequestOn)
            } else if ctx.headlamp.state == HeadlampState::On && lux >= 860 {
                &&& lamp.state == HeadlampState::OffRequested
                &&& lamp.ack_pending_since == Some(now)
                &&& after.outcomes.len() == 1
                &&& after.outcomes[0] == ZoneOutcomeView::Headlamp(HeadlampOutcomeView::RequestOff)
            } else {
                &&& lamp == ctx.headlamp
                &&& after.outcomes.len() == 0
            }
        }),
{
}

/// Without an answer of the headlamp, an acknowledgement settles it as commanded, a failure undoes
/// the request of its direction, a heartbeat undoes a request that has waited for half a second,
/// and no event but these and light changes it.
pub proof fn without_an_answer_requests_are_settled(
    ctx: VehicleContext,
    event: FsmEvent,
    state: FsmState,
    now: Instant,
    replies: Map<ZoneId, ZoneReplyView>,
)
    requires
        silent(ZoneId::Headlamp, replies),
        !(event is UpdateAmbientLux),
    ensures
        ({
            let after = zone_turn::zone_effect(ctx, event, state, now, replies);
            let lamp = after.ctx.headlamp;
            let late = ctx.headlamp.ack_pending_since matches Some(since) && now.nanos - since.nanos
                >= 500_000_000;
            let undoes_on = ctx.headlamp.state == HeadlampState::OnRequested && match event {
                FsmEvent::FrontHeadlampActuationIncomplete { direction, cause } => direction
                    == FrontHeadlampSwitchDirection::On,
                FsmEvent::TimerTick => late,
                _ => false,
            };
            let undoes_off = ctx.headlamp.state == HeadlampState::OffRequested && match event {
                FsmEvent::FrontHeadlampActuationIncomplete { direction, cause } => direction
                    == FrontHeadlampSwitchDirection::Off,
                FsmEvent::TimerTick => late,
                _ => false,
            };
            let settled = event is FrontHeadlampOnAck || event is FrontHeadlampOffAck || undoes_on
                || undoes_off;
            &&& settled ==> lamp.ack_pending_since is None
            &&& event is FrontHeadlampOnAck || undoes_off ==> lamp.state == HeadlampState::On
            &&& event is FrontHeadlampOffAck || undoes_on ==> lamp.state == HeadlampState::Off
            &&& !settled ==> lamp == ctx.headlamp
            &&& undoes_on || undoes_off ==> after.outcomes.len() == 1 && after.outcomes[0]
                is Headlamp && after.outcomes[0]->Headlamp_0 is LogWarning
            &&& !undoes_on && !undoes_off && !(event is RainsStarted) && !(event is RainsStopped)
                && event != FsmEvent::AssemblyZoneReady(ZoneId::Wiper) ==> after.outcomes.len()
                == 0
        }),
{
}

/// Outside preparation, the headlamp is told of light, acknowledgements and failures, and the wiper
/// of rain; no zone is told of anything else, and none of anything during preparation.
pub proof fn zones_are_told_what_concerns_them(event: FsmEvent, state: FsmState)
    ensures
        ({
            let told = zone_turn::zone_tell_in(event, state);
            let preparing = state == FsmState::PreparingToStart || state
                == FsmState::PreparingToStop;
            let lamp = event is UpdateAmbientLux || event is FrontHeadlampOnAck
                || event is FrontHeadlampOffAck || event is FrontHeadlampActuationIncomplete;
            let rain = event is RainsStarted || event is RainsStopped;
            &&& told is Some <==> !preparing && (lamp || rain)
            &&& told is Some && lamp ==> told == Some(
                (
                    ZoneId::Headlamp,
                    ZoneMessage::Headlamp(
                        match event {
                            FsmEvent::UpdateAmbientLux(lux) => HeadlampMessage::AmbientLux(lux),
                            FsmEvent::FrontHeadlampActuationIncomplete { direction, cause } => {
                                HeadlampMessage::ActuationIncomplete { direction, cause }
                            },
                            FsmEvent::FrontHeadlampOnAck => HeadlampMessage::AckOn,
                            _ => HeadlampMessage::AckOff,
                        },
                    ),
                ),
            )
            &&& told is Some && rain ==> told == Some(
                (
                    ZoneId::Wiper,
                    ZoneMessage::Wiper(
                        if event is RainsStarted {
                            WiperMessage::Start
                        } else {
                            WiperMessage::Stop
                        },
                    ),
                ),
            )
        }),
{
}

/// What the headlamp reports is acted upon, one action for each outcome in their order; what the
/// wiper reports is not.
pub proof fn only_the_headlamp_is_acted_upon(
    outcomes: Seq<ZoneOutcomeView>,
    outcome: ZoneOutcomeView,
)
    ensures
        outcome_map::actions_of(Seq::empty()).len() == 0,
        outcome_map::actions_of(outcomes.push(outcome)) == match outcome {
            ZoneOutcomeView::Headlamp(HeadlampOutcomeView::RequestOn) => outcome_map::actions_of(
                outcomes,
            ).push(DomainActionView::RequestFrontHeadlampOn),
            ZoneOutcomeView::Headlamp(HeadlampOutcomeView::RequestOff) => outcome_map::actions_of(
                outcomes,
            ).push(DomainActionView::RequestFrontHeadlampOff),
            ZoneOutcomeView::Headlamp(HeadlampOutcomeView::LogWarning(warning)) => {
                outcome_map::actions_of(outcomes).push(DomainActionView::LogWarning(warning))
            },
            ZoneOutcomeView::Wiper(_) => outcome_map::actions_of(outcomes),
        },
{
    assert(outcomes.push(outcome).drop_last() =~= outcomes);
}

} // verus!
