//! What a whole turn comes to: where it ends, and what it asks for on the way.
use vstd::prelude::*;

use super::modes;
use super::steps;
use super::zones;
use crate::clock::Instant;
use crate::digital_twin::state_laws;
use crate::digital_twin::vocabulary::ZoneReplyView;
use crate::fsm::machineries::{DomainActionView, FsmEvent, FsmState, Operational};
use crate::fsm::step;
use crate::twin_runtime::detectors;
use crate::twin_runtime::outcome_map;
use crate::twin_runtime::twin_turn;
use crate::twin_runtime::twin_turn::HopView;
use crate::twin_runtime::zone_turn;
use crate::vehicle_state::front_headlamp::HeadlampState;
use crate::vehicle_state::VehicleContext;
use crate::zones::ZoneId;

verus! {

/// The cut is one of driving at 840 lux or less without a lamp that is confirmed lit.
pub open spec fn unlit_on_the_road(mode: FsmState, ctx: VehicleContext) -> bool {
    mode == FsmState::Driving && ctx.visibility.ambient_lux <= 840 && (ctx.headlamp.state
        == HeadlampState::Off || ctx.headlamp.state == HeadlampState::Ready || ctx.headlamp.state
        == HeadlampState::OnRequested || ctx.headlamp.state == HeadlampState::OffRequested)
}

/// The brain finds lighting unsafe exactly in a car that drives at 840 lux or less without a lamp
/// that is confirmed lit; a lamp that is only requested on does not count. It finds nothing else.
pub proof fn only_a_lit_lamp_makes_driving_in_the_dark_safe(mode: FsmState, ctx: VehicleContext)
    ensures
        ({
            let found = detectors::internal_event(mode, ctx);
            &&& found is Some <==> unlit_on_the_road(mode, ctx)
            &&& found is Some ==> found->0 == FsmEvent::Internal(Operational::LightingUnsafe)
        }),
{
}

/// No turn ends with a car that drives at 840 lux or less without a lamp that is confirmed lit. A
/// turn whose first hop ends so goes on to a car that drives dangerously, with the buzzer started,
/// and any other turn ends with its first hop.
pub proof fn no_turn_leaves_a_car_driving_in_the_dark(
    mode: FsmState,
    ctx: VehicleContext,
    event: FsmEvent,
    now: Instant,
    replies: Map<ZoneId, ZoneReplyView>,
)
    ensures
        ({
            let hops = twin_turn::turn(mode, ctx, event, now, replies);
            let first = hops[0].result;
            let last = hops.last().result;
            &&& hops.len() > 0
            &&& hops[0].event == event
            &&& !(last.next_state == FsmState::Driving && last.modified_ctx.visibility.ambient_lux
                <= 840 && last.modified_ctx.headlamp.state != HeadlampState::On)
            &&& !unlit_on_the_road(first.next_state, first.modified_ctx) ==> hops.len() == 1
            &&& unlit_on_the_road(first.next_state, first.modified_ctx) ==> {
                &&& hops.len() == 2
                &&& hops[1].event == FsmEvent::Internal(Operational::LightingUnsafe)
                &&& last.next_state == FsmState::DrivingDangerously
                &&& last.modified_ctx == first.modified_ctx
                &&& last.actions.contains(DomainActionView::StartBuzzer)
                &&& last.transition_record.actions.contains(DomainActionView::StartBuzzer)
            }
        }),
{
    twin_turn::turns_quiesce(mode, ctx, event, now, replies);
    let hops = twin_turn::turn(mode, ctx, event, now, replies);
    let first = hops[0].result;
    only_a_lit_lamp_makes_driving_in_the_dark_safe(first.next_state, first.modified_ctx);
    let last = hops.last().result;
    only_a_lit_lamp_makes_driving_in_the_dark_safe(last.next_state, last.modified_ctx);
    if unlit_on_the_road(first.next_state, first.modified_ctx) {
        reveal(twin_turn::turn);
        reveal_with_fuel(twin_turn::turn_hops, 3);
        let internal = FsmEvent::Internal(Operational::LightingUnsafe);
        let second = step::step_result(first.next_state, first.modified_ctx, internal, now);
        assert(hops[1].result == second);
        steps::steps_sound_and_silence_the_buzzer(
            first.next_state,
            first.modified_ctx,
            internal,
            now,
        );
        steps::the_row_of_a_step_tells_all(first.next_state, first.modified_ctx, internal, now);
    }
}

/// A car that pulls away in the dark is dangerous until its lamp is confirmed: an engine reading
/// above 1000 rpm leads an idle car to dangerous driving exactly when it is dark and the lamp is
/// not confirmed lit, and to driving otherwise.
pub proof fn pulling_away_in_the_dark_is_dangerous(
    ctx: VehicleContext,
    rpm: u16,
    now: Instant,
    replies: Map<ZoneId, ZoneReplyView>,
)
    requires
        rpm > 1000,
    ensures
        ({
            let last = twin_turn::turn(
                FsmState::Idle,
                ctx,
                FsmEvent::UpdateRpm(rpm),
                now,
                replies,
            ).last().result;
            let dark = ctx.visibility.ambient_lux <= 840;
            let confirmed = ctx.headlamp.state == HeadlampState::On;
            &&& last.next_state == if dark && !confirmed {
                FsmState::DrivingDangerously
            } else {
                FsmState::Driving
            }
            &&& last.modified_ctx.headlamp == ctx.headlamp
            &&& last.modified_ctx.powertrain.wheel_rpm.front_left == rpm
            &&& last.modified_ctx.powertrain.speed_kph > 0
        }),
{
    let event = FsmEvent::UpdateRpm(rpm);
    no_turn_leaves_a_car_driving_in_the_dark(FsmState::Idle, ctx, event, now, replies);
    twin_turn::turns_quiesce(FsmState::Idle, ctx, event, now, replies);
    zones::engine_readings_move_the_car(ctx, event, FsmState::Idle, now, replies);
}

/// Danger ends with the acknowledgement of the lamp: a car that moves in the dark without light
/// drives safely after the turn of the acknowledgement, and the buzzer is stopped. The same holds
/// of a light reading above 840 lux.
pub proof fn an_acknowledgement_ends_the_danger(
    ctx: VehicleContext,
    lux: u16,
    now: Instant,
)
    requires
        ctx.powertrain.speed_kph != 0,
        lux > 840,
    ensures
        ({
            let lit = twin_turn::turn(
                FsmState::DrivingDangerously,
                ctx,
                FsmEvent::FrontHeadlampOnAck,
                now,
                Map::empty(),
            );
            let day = twin_turn::turn(
                FsmState::DrivingDangerously,
                ctx,
                FsmEvent::UpdateAmbientLux(lux),
                now,
                Map::empty(),
            );
            &&& lit.len() == 1
            &&& lit.last().result.next_state == FsmState::Driving
            &&& lit.last().result.modified_ctx.headlamp.state == HeadlampState::On
            &&& lit.last().result.actions.contains(DomainActionView::StopBuzzer)
            &&& day.len() == 1
            &&& day.last().result.next_state == FsmState::Driving
            &&& day.last().result.actions.contains(DomainActionView::StopBuzzer)
        }),
{
    let replies = Map::<ZoneId, ZoneReplyView>::empty();
    ending_the_danger(ctx, FsmEvent::FrontHeadlampOnAck, now, replies);
    ending_the_danger(ctx, FsmEvent::UpdateAmbientLux(lux), now, replies);
}

proof fn ending_the_danger(
    ctx: VehicleContext,
    event: FsmEvent,
    now: Instant,
    replies: Map<ZoneId, ZoneReplyView>,
)
    requires
        ctx.powertrain.speed_kph != 0,
        event == FsmEvent::FrontHeadlampOnAck || (event matches FsmEvent::UpdateAmbientLux(lux)
            && lux > 840),
        replies == Map::<ZoneId, ZoneReplyView>::empty(),
    ensures
        ({
            let hops = twin_turn::turn(FsmState::DrivingDangerously, ctx, event, now, replies);
            &&& hops.len() == 1
            &&& hops.last().result.next_state == FsmState::Driving
            &&& event == FsmEvent::FrontHeadlampOnAck
                ==> hops.last().result.modified_ctx.headlamp.state == HeadlampState::On
            &&& hops.last().result.actions.contains(DomainActionView::StopBuzzer)
        }),
{
    let mode = FsmState::DrivingDangerously;
    let zone = zone_turn::zone_effect(ctx, event, mode, now, replies);
    zones::light_readings_are_shown(ctx, event, mode, now, replies);
    zones::engine_readings_move_the_car(ctx, event, mode, now, replies);
    modes::danger_ends_with_light_or_standstill(event, zone.ctx, now);
    no_turn_leaves_a_car_driving_in_the_dark(mode, ctx, event, now, replies);
    twin_turn::turns_quiesce(mode, ctx, event, now, replies);
    steps::steps_sound_and_silence_the_buzzer(mode, zone.ctx, event, now);
    let stepped = step::step_result(mode, zone.ctx, event, now).actions;
    let all = twin_turn::turn(mode, ctx, event, now, replies).last().result.actions;
    let before = outcome_map::actions_of(zone.outcomes);
    assert(all == before + stepped);
    let i = choose|i: int| 0 <= i < stepped.len() && stepped[i] == DomainActionView::StopBuzzer;
    assert(all[before.len() + i] == DomainActionView::StopBuzzer);
}

/// The first hop of a turn on an outside event is the zones' answer followed by a step from it: the
/// mode is what the step decides on the zones' cut, the zones' actions come first, and a car that
/// ends up off stands still with its lamp dark and nothing requested.
pub proof fn zones_go_before_the_step(
    mode: FsmState,
    ctx: VehicleContext,
    event: FsmEvent,
    now: Instant,
    replies: Map<ZoneId, ZoneReplyView>,
)
    requires
        !(event is Internal),
    ensures
        ({
            let first = twin_turn::turn(mode, ctx, event, now, replies)[0].result;
            let zone = zone_turn::zone_effect(ctx, event, mode, now, replies);
            let stepped = step::step_result(mode, zone.ctx, event, now);
            let row = first.transition_record;
            &&& first.next_state == stepped.next_state
            &&& first.actions == outcome_map::actions_of(zone.outcomes) + stepped.actions
            &&& first.next_state != FsmState::Off ==> first.modified_ctx == stepped.modified_ctx
            &&& first.next_state == FsmState::Off ==> {
                &&& first.modified_ctx.powertrain.speed_kph == 0
                &&& first.modified_ctx.powertrain.wheel_rpm == zone.ctx.powertrain.wheel_rpm
                &&& first.modified_ctx.headlamp.state == HeadlampState::Off
                &&& first.modified_ctx.headlamp.ack_pending_since is None
                &&& first.modified_ctx.visibility == zone.ctx.visibility
                &&& first.modified_ctx.wiper == zone.ctx.wiper
                &&& first.modified_ctx.health == zone.ctx.health
                &&& first.modified_ctx.pending_assemblies == stepped.modified_ctx.pending_assemblies
            }
            &&& row.at == now
            &&& row.event == event
            &&& row.old_state == mode
            &&& row.next_state == first.next_state
            &&& row.old_ctx == ctx
            &&& row.current_ctx == first.modified_ctx
            &&& forall|a: DomainActionView| #[trigger]
                row.actions.contains(a) <==> first.actions.contains(a) && !(a is EnterMode) && !(
                a is StartAssemblies) && !(a is StopAssemblies)
        }),
{
    twin_turn::turns_quiesce(mode, ctx, event, now, replies);
    let first = twin_turn::turn(mode, ctx, event, now, replies)[0].result;
    steps::recorded_actions_are_the_intents(first.actions);
}

/// A fact that the brain establishes itself passes the zones by: the turn on it leaves every
/// assembly as it is, whatever the zones have answered.
pub proof fn internal_facts_pass_the_zones_by(
    mode: FsmState,
    ctx: VehicleContext,
    fact: Operational,
    now: Instant,
    replies: Map<ZoneId, ZoneReplyView>,
)
    ensures
        twin_turn::turn(mode, ctx, FsmEvent::Internal(fact), now, replies).last().result.modified_ctx
            == ctx,
{
    let event = FsmEvent::Internal(fact);
    twin_turn::turns_quiesce(mode, ctx, event, now, replies);
    steps::a_step_keeps_account_of_the_assemblies(mode, ctx, event, now);
}

/// The actions of a turn are those of its first hop followed by those of its second.
pub proof fn actions_of_a_turn_come_in_order(hops: Seq<HopView>)
    ensures
        hops.len() == 1 ==> twin_turn::merged(hops) == hops[0].result.actions,
        hops.len() == 2 ==> twin_turn::merged(hops) == hops[0].result.actions
            + hops[1].result.actions,
{
    reveal_with_fuel(twin_turn::merged, 3);
    if hops.len() == 1 {
        assert(twin_turn::merged(hops) =~= hops[0].result.actions);
    }
    if hops.len() == 2 {
        assert(hops.drop_last().drop_last() =~= Seq::empty());
        assert(twin_turn::merged(hops) =~= hops[0].result.actions + hops[1].result.actions);
    }
}

/// A cut is lawful exactly when a car that is off stands still and the engine of a driving car
/// turns above 1000 rpm.
pub proof fn the_state_laws_say_this(mode: FsmState, ctx: VehicleContext)
    ensures
        state_laws::lawful(mode, ctx) <==> (mode == FsmState::Off ==> ctx.powertrain.speed_kph == 0)
            && (mode == FsmState::Driving ==> ctx.powertrain.wheel_rpm.front_left >= 1001),
        ({
            let named = state_laws::breaches(mode, ctx, state_laws::catalog().len());
            &&& named.contains("standstill_when_off"@) <== mode == FsmState::Off
                && ctx.powertrain.speed_kph > 0
            &&& named.contains("rpm_above_threshold"@) <== mode == FsmState::Driving
                && ctx.powertrain.wheel_rpm.front_left <= 1000
            &&& named.len() <= 1
        }),
{
    let laws = state_laws::catalog();
    assert(laws[0].holds(mode, ctx) && laws[1].holds(mode, ctx) ==> state_laws::lawful(mode, ctx));
    assert(state_laws::lawful(mode, ctx) ==> laws[0].holds(mode, ctx) && laws[1].holds(mode, ctx));
    reveal_with_fuel(state_laws::breaches, 3);
    let named = state_laws::breaches(mode, ctx, laws.len());
    if named.len() > 0 {
        assert(named.contains(named[0]));
    }
}

} // verus!
