//! What a change of mode calls for, and what a step of the state machine leaves behind.
use vstd::prelude::*;

use crate::clock::Instant;
use crate::engine::op_strategy::transition_map as unprepared;
use crate::fsm::machineries::{
    ActorModeHintFromDomain, DomainActionView, FsmActionView, FsmEvent, FsmState,
};
use crate::fsm::step;
use crate::fsm::transition_map;
use crate::text;
use crate::vehicle_state::VehicleContext;
use crate::zones::ZoneId;

verus! {

/// Entering the warning from driving sounds the buzzer first. Above 160 km/h the speed is warned
/// of, and with more than 5500 rpm on top of that the engine is as well.
pub proof fn entering_the_warning_sounds_and_tells(
    began_at: Instant,
    ctx: VehicleContext,
)
    ensures
        ({
            let actions = transition_map::mode_change_actions(
                FsmState::Driving,
                FsmState::ExtremeOperationWarning(began_at),
                ctx,
            );
            let fast = FsmActionView::LogWarning("Speed threshold exceeded: above 160 km/h."@);
            let extreme = FsmActionView::LogWarning(
                "Extreme operation: above 160 km/h with engine speed above 5500 RPM."@,
            );
            let speed = ctx.powertrain.speed_kph as int;
            let rpm = ctx.powertrain.wheel_rpm.front_left as int;
            &&& speed <= 160 ==> actions == seq![FsmActionView::StartBuzzer]
            &&& speed > 160 && rpm <= 5500 ==> actions == seq![FsmActionView::StartBuzzer, fast]
            &&& speed > 160 && rpm > 5500 ==> actions == seq![
                FsmActionView::StartBuzzer,
                fast,
                extreme,
            ]
        }),
{
    let actions = transition_map::mode_change_actions(
        FsmState::Driving,
        FsmState::ExtremeOperationWarning(began_at),
        ctx,
    );
    let fast = FsmActionView::LogWarning("Speed threshold exceeded: above 160 km/h."@);
    let extreme = FsmActionView::LogWarning(
        "Extreme operation: above 160 km/h with engine speed above 5500 RPM."@,
    );
    if ctx.powertrain.speed_kph <= 160 {
        assert(actions =~= seq![FsmActionView::StartBuzzer]);
    } else if ctx.powertrain.wheel_rpm.front_left <= 5500 {
        assert(actions =~= seq![FsmActionView::StartBuzzer, fast]);
    } else {
        assert(actions =~= seq![FsmActionView::StartBuzzer, fast, extreme]);
    }
}

/// Every other change calls for exactly one thing: preparing to start and to stop for the
/// assemblies, driving dangerously for the buzzer, leaving an audible mode for the road for
/// silence, and anything else for telling the world. No change calls for nothing.
pub proof fn every_other_change_calls_for_one_thing(
    old_mode: FsmState,
    new_mode: FsmState,
    ctx: VehicleContext,
)
    requires
        !(old_mode == FsmState::Driving && new_mode is ExtremeOperationWarning),
    ensures
        ({
            let actions = transition_map::mode_change_actions(old_mode, new_mode, ctx);
            let audible = old_mode == FsmState::DrivingDangerously
                || old_mode is ExtremeOperationWarning;
            let on_the_road = new_mode == FsmState::Driving || new_mode == FsmState::Idle;
            let starts = old_mode == FsmState::Off && new_mode == FsmState::PreparingToStart;
            let stops = old_mode == FsmState::Idle && new_mode == FsmState::PreparingToStop;
            let endangers = old_mode == FsmState::Driving && new_mode
                == FsmState::DrivingDangerously;
            &&& actions.len() == 0 <==> old_mode == new_mode
            &&& actions.len() <= 1
            &&& old_mode != new_mode ==> {
                &&& actions[0] == FsmActionView::StartAssemblies <==> starts
                &&& actions[0] == FsmActionView::StopAssemblies <==> stops
                &&& actions[0] == FsmActionView::StartBuzzer <==> endangers
                &&& actions[0] == FsmActionView::StopBuzzer <==> audible && on_the_road
                &&& actions[0] == FsmActionView::PublishStateSync <==> !starts && !stops
                    && !endangers && !(audible && on_the_road)
            }
        }),
{
}

/// Without preparation, the warning calls for what it calls for with preparation, leaving it for
/// the road calls for silence, and any other change for telling the world.
pub proof fn without_preparation_changes_call_for_as_much(
    old_mode: FsmState,
    new_mode: FsmState,
    ctx: VehicleContext,
)
    ensures
        ({
            let actions = unprepared::mode_change_actions(old_mode, new_mode, ctx);
            let warns = old_mode == FsmState::Driving && new_mode is ExtremeOperationWarning;
            let calms = old_mode is ExtremeOperationWarning && (new_mode == FsmState::Driving
                || new_mode == FsmState::Idle);
            &&& warns ==> actions == transition_map::mode_change_actions(old_mode, new_mode, ctx)
            &&& !warns ==> actions.len() <= 1
            &&& actions.len() == 0 <==> old_mode == new_mode
            &&& !warns && old_mode != new_mode ==> {
                &&& actions[0] == FsmActionView::StopBuzzer <==> calms
                &&& actions[0] == FsmActionView::PublishStateSync <==> !calms
            }
        }),
{
}

/// Without preparation, a request to switch off is turned down in every mode of the strategy but
/// idle.
pub proof fn without_preparation_refused_switches(state: FsmState)
    ensures
        unprepared::rejects_power_off(state) <==> state == FsmState::Off || state
            == FsmState::Driving || state is ExtremeOperationWarning,
{
}

/// What a mode change calls for becomes the step's action of the same meaning.
pub proof fn changes_become_actions_of_the_same_meaning(warning: Seq<char>)
    ensures
        step::domain_action_of(FsmActionView::StartBuzzer) == Some(DomainActionView::StartBuzzer),
        step::domain_action_of(FsmActionView::StopBuzzer) == Some(DomainActionView::StopBuzzer),
        step::domain_action_of(FsmActionView::PublishStateSync) == Some(
            DomainActionView::PublishStateSync,
        ),
        step::domain_action_of(FsmActionView::LogWarning(warning)) == Some(
            DomainActionView::LogWarning(warning),
        ),
        step::domain_action_of(FsmActionView::StartAssemblies) == Some(
            DomainActionView::StartAssemblies,
        ),
        step::domain_action_of(FsmActionView::StopAssemblies) == Some(
            DomainActionView::StopAssemblies,
        ),
        step::domain_action_of(FsmActionView::NoAction) is None,
{
}

/// The actions of a mode change are carried over one for one, in their order.
pub proof fn changes_are_carried_over_in_order(actions: Seq<FsmActionView>)
    requires
        forall|i: int| 0 <= i < actions.len() ==> !(#[trigger] actions[i] is NoAction),
    ensures
        step::domain_actions_of(actions).len() == actions.len(),
        forall|i: int|
            0 <= i < actions.len() ==> Some(#[trigger] step::domain_actions_of(actions)[i])
                == step::domain_action_of(actions[i]),
    decreases actions.len(),
{
    if actions.len() > 0 {
        let before = actions.drop_last();
        assert forall|i: int| 0 <= i < before.len() implies !(#[trigger] before[i] is NoAction) by {
            assert(before[i] == actions[i]);
        }
        changes_are_carried_over_in_order(before);
        assert(!(actions[actions.len() - 1] is NoAction));
        let all = step::domain_actions_of(actions);
        assert forall|i: int| 0 <= i < actions.len() implies Some(#[trigger] all[i])
            == step::domain_action_of(actions[i]) by {
            if i < before.len() {
                assert(all[i] == step::domain_actions_of(before)[i]);
                assert(before[i] == actions[i]);
            }
        }
    }
}

/// The mode is one in which the buzzer is to be heard.
pub open spec fn audible(mode: FsmState) -> bool {
    mode == FsmState::DrivingDangerously || mode is ExtremeOperationWarning
}

/// A step that keeps the mode asks for nothing but a hint, and before it for the warning of a
/// request to switch off that is turned down. Rain that starts on an idle car asks for nothing at
/// all.
pub proof fn a_step_without_change_asks_for_little(
    state: FsmState,
    ctx: VehicleContext,
    event: FsmEvent,
    now: Instant,
)
    requires
        step::step_result(state, ctx, event, now).next_state == state,
    ensures
        ({
            let actions = step::step_result(state, ctx, event, now).actions;
            let hint = DomainActionView::EnterMode(
                if audible(state) {
                    ActorModeHintFromDomain::Transitioning
                } else {
                    ActorModeHintFromDomain::Normal
                },
            );
            if state == FsmState::Idle && event == FsmEvent::RainsStarted {
                actions.len() == 0
            } else if event == FsmEvent::PowerOff && state != FsmState::PreparingToStart && state
                != FsmState::PreparingToStop {
                &&& actions.len() == 2
                &&& actions[0] is LogWarning
                &&& actions[0]->LogWarning_0 == step::rejection_text(state)
                &&& actions[1] == hint
            } else {
                actions == seq![hint]
            }
        }),
{
    let actions = step::step_result(state, ctx, event, now).actions;
    assert(step::domain_actions_of(Seq::empty()) =~= Seq::empty());
    let hint = DomainActionView::EnterMode(
        if audible(state) {
            ActorModeHintFromDomain::Transitioning
        } else {
            ActorModeHintFromDomain::Normal
        },
    );
    if state == FsmState::Idle && event == FsmEvent::RainsStarted {
        assert(actions =~= Seq::empty());
    } else if event == FsmEvent::PowerOff && state != FsmState::PreparingToStart && state
        != FsmState::PreparingToStop {
        assert(actions =~= seq![
            DomainActionView::LogWarning(step::rejection_text(state)),
            hint,
        ]);
    } else {
        assert(actions =~= seq![hint]);
    }
}

/// A step that changes the mode asks for what the change calls for, in its order, and then for the
/// hint: transitioning where the buzzer is to be heard, normal anywhere else.
pub proof fn a_step_with_a_change_asks_for_it(
    state: FsmState,
    ctx: VehicleContext,
    event: FsmEvent,
    now: Instant,
)
    requires
        step::step_result(state, ctx, event, now).next_state != state,
    ensures
        ({
            let result = step::step_result(state, ctx, event, now);
            let called = transition_map::mode_change_actions(state, result.next_state, ctx);
            let hint = DomainActionView::EnterMode(
                if audible(result.next_state) {
                    ActorModeHintFromDomain::Transitioning
                } else {
                    ActorModeHintFromDomain::Normal
                },
            );
            &&& result.next_state == transition_map::next_mode(state, event, ctx, now)
            &&& result.actions.len() == called.len() + 1
            &&& result.actions.last() == hint
            &&& forall|i: int|
                0 <= i < called.len() ==> Some(#[trigger] result.actions[i])
                    == step::domain_action_of(called[i])
        }),
{
    let result = step::step_result(state, ctx, event, now);
    let called = transition_map::mode_change_actions(state, result.next_state, ctx);
    changes_are_carried_over_in_order(called);
    let carried = step::domain_actions_of(called);
    assert(result.actions.take(called.len() as int) =~= carried);
    assert forall|i: int| 0 <= i < called.len() implies Some(#[trigger] result.actions[i])
        == step::domain_action_of(called[i]) by {
        assert(result.actions[i] == carried[i]);
    }
}

/// The buzzer is started by a step exactly on the way into an audible mode, and stopped exactly on
/// the way out of one.
pub proof fn steps_sound_and_silence_the_buzzer(
    state: FsmState,
    ctx: VehicleContext,
    event: FsmEvent,
    now: Instant,
)
    ensures
        ({
            let result = step::step_result(state, ctx, event, now);
            &&& result.actions.contains(DomainActionView::StartBuzzer) <==> !audible(state)
                && audible(result.next_state)
            &&& result.actions.contains(DomainActionView::StopBuzzer) <==> audible(state)
                && !audible(result.next_state)
        }),
{
    let result = step::step_result(state, ctx, event, now);
    if result.next_state == state {
        a_step_without_change_asks_for_little(state, ctx, event, now);
    } else {
        a_step_with_a_change_asks_for_it(state, ctx, event, now);
        let called = transition_map::mode_change_actions(state, result.next_state, ctx);
        if state == FsmState::Driving && result.next_state is ExtremeOperationWarning {
            entering_the_warning_sounds_and_tells(
                result.next_state->ExtremeOperationWarning_0,
                ctx,
            );
        } else {
            every_other_change_calls_for_one_thing(state, result.next_state, ctx);
        }
        assert(called.len() > 0);
        assert(Some(result.actions[0]) == step::domain_action_of(called[0]));
        assert(result.actions.contains(result.actions[0]));
        assert forall|i: int| 1 <= i < result.actions.len() implies !(
        #[trigger] result.actions[i] is StartBuzzer) && !(result.actions[i] is StopBuzzer) by {
            if i < called.len() {
                assert(called[i] is LogWarning);
            } else {
                assert(result.actions[i] == result.actions.last());
            }
        }
    }
}

/// The warning for a request to switch off that is turned down names the mode.
pub proof fn a_refusal_names_the_mode(state: FsmState)
    ensures
        ({
            let refusal = step::rejection_text(state);
            let begins = "[REJECTED]: PowerOff is invalid while in state "@;
            &&& state == FsmState::Off ==> refusal == begins + "Off"@
            &&& state == FsmState::Driving ==> refusal == begins + "Driving"@
            &&& state == FsmState::DrivingDangerously ==> refusal == begins + "DrivingDangerously"@
            &&& state matches FsmState::ExtremeOperationWarning(began_at) ==> refusal == begins + (
            "ExtremeOperationWarning(Instant { nanos: "@ + text::decimal(began_at.nanos as nat)
                + " })"@)
        }),
{
}

/// A step changes nothing of the car but which assemblies are pending. The headlamp, and only the
/// headlamp, is pending when a start or a stop begins; otherwise an assembly that answers is no
/// longer pending, and nothing else changes.
pub proof fn a_step_keeps_account_of_the_assemblies(
    state: FsmState,
    ctx: VehicleContext,
    event: FsmEvent,
    now: Instant,
)
    ensures
        ({
            let result = step::step_result(state, ctx, event, now);
            let after = result.modified_ctx.pending_assemblies;
            let begins = (state == FsmState::Off && result.next_state == FsmState::PreparingToStart)
                || (state == FsmState::Idle && result.next_state == FsmState::PreparingToStop);
            &&& result.modified_ctx == (VehicleContext { pending_assemblies: after, ..ctx })
            &&& begins ==> after.headlamp && !after.wiper
            &&& !begins ==> (after.headlamp <==> ctx.pending_assemblies.headlamp && event
                != FsmEvent::AssemblyZoneReady(ZoneId::Headlamp))
            &&& !begins ==> (after.wiper <==> ctx.pending_assemblies.wiper && event
                != FsmEvent::AssemblyZoneReady(ZoneId::Wiper))
        }),
{
}

/// The ledger row of a step tells when, what and from which cut to which, and holds the step's
/// actions but for hints and orders to assemblies.
pub proof fn the_row_of_a_step_tells_all(
    state: FsmState,
    ctx: VehicleContext,
    event: FsmEvent,
    now: Instant,
)
    ensures
        ({
            let result = step::step_result(state, ctx, event, now);
            let row = result.transition_record;
            &&& row.at == now
            &&& row.event == event
            &&& row.old_state == state
            &&& row.next_state == result.next_state
            &&& row.old_ctx == ctx
            &&& row.current_ctx == result.modified_ctx
            &&& forall|a: DomainActionView| #[trigger]
                row.actions.contains(a) <==> result.actions.contains(a) && !(a is EnterMode) && !(
                a is StartAssemblies) && !(a is StopAssemblies)
        }),
{
    recorded_actions_are_the_intents(step::step_actions(state, ctx, event, now));
}

/// What is recorded of a run of actions is everything but hints and orders to assemblies, and no
/// action is recorded twice for once.
pub proof fn recorded_actions_are_the_intents(actions: Seq<DomainActionView>)
    ensures
        forall|a: DomainActionView| #[trigger]
            step::intents(actions).contains(a) <==> actions.contains(a) && !(a is EnterMode) && !(
            a is StartAssemblies) && !(a is StopAssemblies),
        step::intents(actions).len() <= actions.len(),
{
    step::intents_hold_intents(actions);
    let kept = step::intents(actions);
    assert forall|a: DomainActionView| #[trigger]
        kept.contains(a) <==> actions.contains(a) && !(a is EnterMode) && !(a is StartAssemblies)
            && !(a is StopAssemblies) by {
        if kept.contains(a) {
            let i = choose|i: int| 0 <= i < kept.len() && kept[i] == a;
            assert(step::is_intent(kept[i]));
        }
        if actions.contains(a) {
            let i = choose|i: int| 0 <= i < actions.len() && actions[i] == a;
            assert(actions[i] == a);
        }
    }
    actions.lemma_filter_len(|a: DomainActionView| step::is_intent(a));
}

/// Recording goes action by action, in order: one more action adds itself at the end, and a hint or
/// an order to assemblies adds nothing.
pub proof fn recording_goes_in_order(actions: Seq<DomainActionView>, next: DomainActionView)
    ensures
        step::intents(Seq::empty()).len() == 0,
        step::intents(actions.push(next)) == if next is EnterMode || next is StartAssemblies
            || next is StopAssemblies {
            step::intents(actions)
        } else {
            step::intents(actions).push(next)
        },
{
    reveal(Seq::filter);
    assert(actions.push(next).drop_last() =~= actions);
}

} // verus!
