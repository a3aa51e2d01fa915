//! One step of the operational state machine.
//!
//! A step takes the context as the zones have left it, decides the next mode and collects what
//! the change calls for. It leaves the assemblies as they are: of the context it touches only the
//! set of assemblies that still owe an answer.
use vstd::prelude::*;

use super::machineries;
use super::machineries::{
    clone_actions, ActorModeHintFromDomain, DomainAction, DomainActionView, FsmAction,
    FsmActionView, FsmEvent, FsmState,
};
use super::transition_map;
use super::transition_map::{output, transition, TransitionNote};
use crate::clock::Instant;
use crate::text;
use crate::vehicle_state::VehicleContext;
use crate::zones::{ZoneId, ZoneSet};

verus! {

/// One row of the ledger: a hop from one cut to the next, with the intents it carried.
#[derive(Debug, PartialEq)]
pub struct RawTransitionRecord {
    pub at: Instant,
    pub event: FsmEvent,
    pub old_state: FsmState,
    pub next_state: FsmState,
    pub old_ctx: VehicleContext,
    pub current_ctx: VehicleContext,
    pub actions: Vec<DomainAction>,
}

#[derive(Debug, PartialEq)]
pub struct StepResult {
    pub next_state: FsmState,
    pub modified_ctx: VehicleContext,
    pub actions: Vec<DomainAction>,
    pub transition_record: RawTransitionRecord,
}

#[verifier::ext_equal]
pub struct RecordView {
    pub at: Instant,
    pub event: FsmEvent,
    pub old_state: FsmState,
    pub next_state: FsmState,
    pub old_ctx: VehicleContext,
    pub current_ctx: VehicleContext,
    pub actions: Seq<DomainActionView>,
}

#[verifier::ext_equal]
pub struct StepView {
    pub next_state: FsmState,
    pub modified_ctx: VehicleContext,
    pub actions: Seq<DomainActionView>,
    pub transition_record: RecordView,
}

impl View for RawTransitionRecord {
    type V = RecordView;

    open spec fn view(&self) -> RecordView {
        RecordView {
            at: self.at,
            event: self.event,
            old_state: self.old_state,
            next_state: self.next_state,
            old_ctx: self.old_ctx,
            current_ctx: self.current_ctx,
            actions: machineries::action_views(self.actions@),
        }
    }
}

impl View for StepResult {
    type V = StepView;

    open spec fn view(&self) -> StepView {
        StepView {
            next_state: self.next_state,
            modified_ctx: self.modified_ctx,
            actions: machineries::action_views(self.actions@),
            transition_record: self.transition_record@,
        }
    }
}

impl Clone for RawTransitionRecord {
    fn clone(&self) -> (r: Self)
        ensures
            r@ == self@,
    {
        RawTransitionRecord {
            at: self.at,
            event: self.event,
            old_state: self.old_state,
            next_state: self.next_state,
            old_ctx: self.old_ctx,
            current_ctx: self.current_ctx,
            actions: clone_actions(&self.actions),
        }
    }
}

impl Clone for StepResult {
    fn clone(&self) -> (r: Self)
        ensures
            r@ == self@,
    {
        StepResult {
            next_state: self.next_state,
            modified_ctx: self.modified_ctx,
            actions: clone_actions(&self.actions),
            transition_record: self.transition_record.clone(),
        }
    }
}

/// The assemblies that the brain starts and stops.
pub open spec fn managed() -> ZoneSet {
    ZoneSet { headlamp: true, wiper: false }
}

/// The assemblies that the brain starts and stops.
pub fn managed_assemblies() -> (set: ZoneSet)
    ensures
        set == managed(),
        set@ == Set::<ZoneId>::empty().insert(ZoneId::Headlamp),
{
    let set = ZoneSet::only(ZoneId::Headlamp);
    proof {
        assert(managed()@ =~= Set::<ZoneId>::empty().insert(ZoneId::Headlamp));
        crate::zones::zone_set_is_its_members(set, managed());
    }
    set
}

/// The text of a mode.
pub open spec fn mode_text(state: FsmState) -> Seq<char> {
    match state {
        FsmState::Off => "Off"@,
        FsmState::PreparingToStart => "PreparingToStart"@,
        FsmState::Idle => "Idle"@,
        FsmState::Driving => "Driving"@,
        FsmState::DrivingDangerously => "DrivingDangerously"@,
        FsmState::ExtremeOperationWarning(began_at) => "ExtremeOperationWarning(Instant { nanos: "@
            + text::decimal(began_at.nanos as nat) + " })"@,
        FsmState::PreparingToStop => "PreparingToStop"@,
    }
}

/// The warning for a power-off that is turned down.
pub open spec fn rejection_text(state: FsmState) -> Seq<char> {
    "[REJECTED]: PowerOff is invalid while in state "@ + mode_text(state)
}

/// The warning for a power-off that is turned down.
pub(crate) fn rejection_warning(state: &FsmState) -> (warning: String)
    ensures
        warning@ == rejection_text(*state),
{
    let mut warning = String::new();
    warning.append("[REJECTED]: PowerOff is invalid while in state ");
    match state {
        FsmState::Off => warning.append("Off"),
        FsmState::PreparingToStart => warning.append("PreparingToStart"),
        FsmState::Idle => warning.append("Idle"),
        FsmState::Driving => warning.append("Driving"),
        FsmState::DrivingDangerously => warning.append("DrivingDangerously"),
        FsmState::ExtremeOperationWarning(began_at) => {
            warning.append("ExtremeOperationWarning(Instant { nanos: ");
            text::append_decimal(&mut warning, began_at.nanos);
            warning.append(" })");
        },
        FsmState::PreparingToStop => warning.append("PreparingToStop"),
    }
    assert(warning@ =~= rejection_text(*state));
    warning
}

/// The domain action of a mode-change action, if it has one.
pub open spec fn domain_action_of(action: FsmActionView) -> Option<DomainActionView> {
    match action {
        FsmActionView::StartBuzzer => Some(DomainActionView::StartBuzzer),
        FsmActionView::StopBuzzer => Some(DomainActionView::StopBuzzer),
        FsmActionView::PublishStateSync => Some(DomainActionView::PublishStateSync),
        FsmActionView::LogWarning(message) => Some(DomainActionView::LogWarning(message)),
        FsmActionView::StartAssemblies => Some(DomainActionView::StartAssemblies),
        FsmActionView::StopAssemblies => Some(DomainActionView::StopAssemblies),
        FsmActionView::NoAction => None,
    }
}

/// The domain actions of a run of mode-change actions, in order.
pub open spec fn domain_actions_of(actions: Seq<FsmActionView>) -> Seq<DomainActionView>
    decreases actions.len(),
{
    if actions.len() == 0 {
        Seq::empty()
    } else {
        let head = domain_actions_of(actions.drop_last());
        match domain_action_of(actions.last()) {
            Some(action) => head.push(action),
            None => head,
        }
    }
}

fn map_fsm_action(action: FsmAction) -> (mapped: Option<DomainAction>)
    ensures
        (match mapped {
            Some(m) => Some(m@),
            None => None,
        }) == domain_action_of(action@),
{
    match action {
        FsmAction::StartBuzzer => Some(DomainAction::StartBuzzer),
        FsmAction::StopBuzzer => Some(DomainAction::StopBuzzer),
        FsmAction::PublishStateSync => Some(DomainAction::PublishStateSync),
        FsmAction::LogWarning(message) => Some(DomainAction::LogWarning(message)),
        FsmAction::StartAssemblies => Some(DomainAction::StartAssemblies),
        FsmAction::StopAssemblies => Some(DomainAction::StopAssemblies),
        FsmAction::NoAction => None,
    }
}

fn map_fsm_actions(actions: Vec<FsmAction>) -> (mapped: Vec<DomainAction>)
    ensures
        machineries::action_views(mapped@) == domain_actions_of(
            machineries::fsm_action_views(actions@),
        ),
{
    let ghost given = machineries::fsm_action_views(actions@);
    let mut mapped: Vec<DomainAction> = Vec::new();
    let mut rest = actions;
    assert(machineries::action_views(mapped@) =~= domain_actions_of(given.take(0)));
    while rest.len() > 0
        invariant
            rest.len() <= given.len(),
            machineries::fsm_action_views(rest@) == given.skip(given.len() - rest.len()),
            machineries::action_views(mapped@) == domain_actions_of(
                given.take(given.len() - rest.len()),
            ),
        decreases rest.len(),
    {
        let ghost done = (given.len() - rest.len()) as int;
        let ghost shown = machineries::fsm_action_views(rest@);
        let ghost before = mapped@;
        assert(shown[0] == given[done]);
        let action = rest.remove(0);
        proof {
            assert(action@ == given[done]);
            assert forall|k: int| 0 <= k < rest.len() implies machineries::fsm_action_views(
                rest@,
            )[k] == #[trigger] given.skip(done + 1)[k] by {
                assert(machineries::fsm_action_views(rest@)[k] == shown[k + 1]);
            }
            assert(machineries::fsm_action_views(rest@) =~= given.skip(done + 1));
            assert(given.take(done + 1).drop_last() =~= given.take(done));
            assert(given.take(done + 1).last() == given[done]);
        }
        if let Some(m) = map_fsm_action(action) {
            mapped.push(m);
            assert(machineries::action_views(mapped@) =~= machineries::action_views(before).push(
                m@,
            ));
        }
    }
    assert(given.take(given.len() as int) =~= given);
    mapped
}

/// An intent, as opposed to a signal between the step and the runtime that executes it.
pub open spec fn is_intent(action: DomainActionView) -> bool {
    match action {
        DomainActionView::EnterMode(_)
        | DomainActionView::StartAssemblies
        | DomainActionView::StopAssemblies => false,
        _ => true,
    }
}

/// What the ledger keeps of a run of actions: the intents, in order.
pub open spec fn intents(actions: Seq<DomainActionView>) -> Seq<DomainActionView> {
    actions.filter(|a: DomainActionView| is_intent(a))
}

/// Copies the intents out of a run of actions.
pub fn recorded_actions(actions: &Vec<DomainAction>) -> (recorded: Vec<DomainAction>)
    ensures
        machineries::action_views(recorded@) == intents(machineries::action_views(actions@)),
{
    let ghost given = machineries::action_views(actions@);
    let mut recorded: Vec<DomainAction> = Vec::new();
    let mut i: usize = 0;
    proof {
        reveal(Seq::filter);
        assert(machineries::action_views(recorded@) =~= intents(given.take(0)));
    }
    while i < actions.len()
        invariant
            i <= actions.len(),
            given == machineries::action_views(actions@),
            machineries::action_views(recorded@) == intents(given.take(i as int)),
        decreases actions.len() - i,
    {
        let ghost before = recorded@;
        let keep = match &actions[i] {
            DomainAction::EnterMode(_) => false,
            DomainAction::StartAssemblies => false,
            DomainAction::StopAssemblies => false,
            _ => true,
        };
        if keep {
            recorded.push(actions[i].clone());
        }
        proof {
            reveal(Seq::filter);
            assert(given.take(i + 1).drop_last() =~= given.take(i as int));
            assert(given.take(i + 1).last() == actions[i as int]@);
            if keep {
                assert(machineries::action_views(recorded@) =~= machineries::action_views(
                    before,
                ).push(actions[i as int]@));
            }
        }
        i = i + 1;
    }
    assert(given.take(actions.len() as int) =~= given);
    recorded
}

/// The hint about the runtime's own mode that a step ends with. Rain that starts on an idle car
/// concerns the wiper alone and carries none.
pub open spec fn mode_hint(state: FsmState, event: FsmEvent, next: FsmState) -> Seq<
    DomainActionView,
> {
    if state == FsmState::Idle && event == FsmEvent::RainsStarted {
        Seq::empty()
    } else if next is ExtremeOperationWarning || next == FsmState::DrivingDangerously {
        seq![DomainActionView::EnterMode(ActorModeHintFromDomain::Transitioning)]
    } else {
        seq![DomainActionView::EnterMode(ActorModeHintFromDomain::Normal)]
    }
}

/// Everything a step asks for: what the change of mode calls for, the note, the hint.
pub open spec fn step_actions(
    state: FsmState,
    ctx: VehicleContext,
    event: FsmEvent,
    now: Instant,
) -> Seq<DomainActionView> {
    let next = transition_map::next_mode(state, event, ctx, now);
    domain_actions_of(transition_map::mode_change_actions(state, next, ctx)) + (
    match transition_map::note_of(state, event) {
        Some(TransitionNote::RejectedPowerOff) => seq![
            DomainActionView::LogWarning(rejection_text(state)),
        ],
        None => Seq::empty(),
    }) + mode_hint(state, event, next)
}

/// The assemblies that owe an answer after a step: all managed ones when their start or stop
/// begins, one less when one answers.
pub open spec fn pending_after(
    state: FsmState,
    pending: ZoneSet,
    event: FsmEvent,
    next: FsmState,
) -> ZoneSet {
    if (state == FsmState::Off && next == FsmState::PreparingToStart) || (state == FsmState::Idle
        && next == FsmState::PreparingToStop) {
        managed()
    } else {
        match event {
            FsmEvent::AssemblyZoneReady(zone) => pending.minus(zone),
            _ => pending,
        }
    }
}

/// The whole result of a step.
pub open spec fn step_result(
    state: FsmState,
    ctx: VehicleContext,
    event: FsmEvent,
    now: Instant,
) -> StepView {
    let next = transition_map::next_mode(state, event, ctx, now);
    let modified = VehicleContext {
        pending_assemblies: pending_after(state, ctx.pending_assemblies, event, next),
        ..ctx
    };
    let actions = step_actions(state, ctx, event, now);
    StepView {
        next_state: next,
        modified_ctx: modified,
        actions,
        transition_record: RecordView {
            at: now,
            event,
            old_state: state,
            next_state: next,
            old_ctx: ctx,
            current_ctx: modified,
            actions: intents(actions),
        },
    }
}

/// Runs the operational state machine on one event.
pub fn step(
    current_state: &FsmState,
    current_ctx: &VehicleContext,
    event: &FsmEvent,
    now: Instant,
) -> (result: StepResult)
    ensures
        result@ == step_result(*current_state, *current_ctx, *event, now),
{
    let decided = transition(current_state, event, current_ctx, now);
    let next_state = decided.next_state;
    let mut modified_ctx = *current_ctx;
    match (*current_state, next_state) {
        (FsmState::Off, FsmState::PreparingToStart)
        | (FsmState::Idle, FsmState::PreparingToStop) => {
            modified_ctx.pending_assemblies = managed_assemblies();
        },
        _ => {
            if let FsmEvent::AssemblyZoneReady(zone_id) = event {
                modified_ctx.pending_assemblies = current_ctx.pending_assemblies.without(*zone_id);
            }
        },
    }
    let mut actions = map_fsm_actions(output(current_state, &next_state, current_ctx));
    let ghost changed = machineries::action_views(actions@);
    if let Some(note) = decided.note {
        match note {
            TransitionNote::RejectedPowerOff => {
                actions.push(DomainAction::LogWarning(rejection_warning(current_state)));
            },
        }
    }
    let ghost noted = machineries::action_views(actions@);
    if !(*current_state == FsmState::Idle && *event == FsmEvent::RainsStarted) {
        let hint = match next_state {
            FsmState::ExtremeOperationWarning(_) | FsmState::DrivingDangerously => {
                ActorModeHintFromDomain::Transitioning
            },
            _ => ActorModeHintFromDomain::Normal,
        };
        actions.push(DomainAction::EnterMode(hint));
    }
    proof {
        assert(noted =~= changed + (match decided.note {
            Some(TransitionNote::RejectedPowerOff) => seq![
                DomainActionView::LogWarning(rejection_text(*current_state)),
            ],
            None => Seq::empty(),
        }));
        assert(machineries::action_views(actions@) =~= noted + mode_hint(
            *current_state,
            *event,
            next_state,
        ));
    }
    let recorded = recorded_actions(&actions);
    let result = StepResult {
        next_state,
        modified_ctx,
        actions,
        transition_record: RawTransitionRecord {
            at: now,
            event: *event,
            old_state: *current_state,
            next_state,
            old_ctx: *current_ctx,
            current_ctx: modified_ctx,
            actions: recorded,
        },
    };
    proof {
        let wanted = step_result(*current_state, *current_ctx, *event, now);
        assert(result@.modified_ctx == wanted.modified_ctx);
        assert(result@.actions == wanted.actions);
        assert(result@.transition_record.actions == wanted.transition_record.actions);
        assert(result@ == wanted);
    }
    result
}

/// A step never mutates an assembly: powertrain, health, visibility, headlamp and wiper come out
/// as they went in.
pub proof fn step_leaves_assemblies_alone(
    state: FsmState,
    ctx: VehicleContext,
    event: FsmEvent,
    now: Instant,
)
    ensures
        ({
            let after = step_result(state, ctx, event, now).modified_ctx;
            &&& after.powertrain == ctx.powertrain
            &&& after.health == ctx.health
            &&& after.visibility == ctx.visibility
            &&& after.headlamp == ctx.headlamp
            &&& after.wiper == ctx.wiper
        }),
{
}

/// The ledger row of a step holds exactly the intents of the step, in their order, and never a
/// coordination signal.
pub proof fn ledger_holds_the_intents(
    state: FsmState,
    ctx: VehicleContext,
    event: FsmEvent,
    now: Instant,
)
    ensures
        ({
            let result = step_result(state, ctx, event, now);
            &&& result.transition_record.actions == intents(result.actions)
            &&& forall|i: int|
                0 <= i < result.transition_record.actions.len() ==> is_intent(
                    #[trigger] result.transition_record.actions[i],
                )
        }),
{
    intents_hold_intents(step_actions(state, ctx, event, now));
}

/// Every element of the recorded run is an intent of the run that it was taken from.
pub proof fn intents_hold_intents(actions: Seq<DomainActionView>)
    ensures
        forall|i: int|
            0 <= i < intents(actions).len() ==> is_intent(#[trigger] intents(actions)[i])
                && actions.contains(intents(actions)[i]),
        forall|i: int|
            0 <= i < actions.len() && is_intent(#[trigger] actions[i]) ==> intents(
                actions,
            ).contains(actions[i]),
{
    let keep = |a: DomainActionView| is_intent(a);
    assert forall|i: int| 0 <= i < intents(actions).len() implies is_intent(
        #[trigger] intents(actions)[i],
    ) && actions.contains(intents(actions)[i]) by {
        actions.lemma_filter_pred(keep, i);
        actions.lemma_filter_contains_rev(keep, intents(actions)[i]);
    }
    assert forall|i: int|
        0 <= i < actions.len() && is_intent(#[trigger] actions[i]) implies intents(
        actions,
    ).contains(actions[i]) by {
        actions.lemma_filter_contains(keep, i);
    }
}

/// Starting and stopping fill the set of pending assemblies; each answer takes one zone out, and
/// the answer of the last one completes the start or the stop.
pub proof fn pending_assemblies_drain(
    state: FsmState,
    ctx: VehicleContext,
    zone: ZoneId,
    now: Instant,
)
    requires
        state == FsmState::PreparingToStart || state == FsmState::PreparingToStop,
    ensures
        ({
            let result = step_result(state, ctx, FsmEvent::AssemblyZoneReady(zone), now);
            &&& result.modified_ctx.pending_assemblies@ == ctx.pending_assemblies@.remove(zone)
            &&& result.next_state != state <==> result.modified_ctx.pending_assemblies@ == Set::<
                ZoneId,
            >::empty()
        }),
{
    let after = ctx.pending_assemblies.minus(zone);
    assert(after@ =~= ctx.pending_assemblies@.remove(zone));
}

/// A healthy car that is switched on, or an idle one that is switched off, awaits an answer from
/// each managed assembly before its mode goes on.
pub proof fn preparation_awaits_the_managed(ctx: VehicleContext, now: Instant)
    ensures
        ctx.health.healthy() ==> ({
            let started = step_result(FsmState::Off, ctx, FsmEvent::PowerOn, now);
            &&& started.next_state == FsmState::PreparingToStart
            &&& started.modified_ctx.pending_assemblies == managed()
            &&& started.actions.contains(DomainActionView::StartAssemblies)
        }),
        ({
            let stopped = step_result(FsmState::Idle, ctx, FsmEvent::PowerOff, now);
            &&& stopped.next_state == FsmState::PreparingToStop
            &&& stopped.modified_ctx.pending_assemblies == managed()
            &&& stopped.actions.contains(DomainActionView::StopAssemblies)
        }),
{
    reveal_with_fuel(domain_actions_of, 2);
    let on = transition_map::mode_change_actions(FsmState::Off, FsmState::PreparingToStart, ctx);
    assert(domain_actions_of(on) =~= seq![DomainActionView::StartAssemblies]);
    if ctx.health.healthy() {
        let started = step_result(FsmState::Off, ctx, FsmEvent::PowerOn, now);
        assert(started.actions[0] == DomainActionView::StartAssemblies);
    }
    let off = transition_map::mode_change_actions(FsmState::Idle, FsmState::PreparingToStop, ctx);
    assert(domain_actions_of(off) =~= seq![DomainActionView::StopAssemblies]);
    let stopped = step_result(FsmState::Idle, ctx, FsmEvent::PowerOff, now);
    assert(stopped.actions[0] == DomainActionView::StopAssemblies);
}

} // verus!
