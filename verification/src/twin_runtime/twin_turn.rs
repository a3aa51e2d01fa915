//! A full turn: the zones first, then the operational state machine, then whatever the new cut
//! gives rise to by itself, until nothing more follows.
use vstd::prelude::*;

use super::detectors;
use super::detectors::detect_internal_after_hop;
use super::outcome_map;
use super::outcome_map::zone_outcomes_to_domain_actions;
use super::zone_replies;
use super::zone_replies::ZoneReplies;
use super::zone_turn;
use crate::clock::Instant;
use crate::digital_twin::state_laws;
use crate::digital_twin::vocabulary::ZoneReplyView;
use crate::fsm::machineries;
use crate::fsm::machineries::{DomainAction, DomainActionView, FsmEvent, FsmState, Operational};
use crate::fsm::step as fsm_step;
use crate::fsm::step::{
    recorded_actions, step, RawTransitionRecord, RecordView, StepResult, StepView,
};
use crate::fsm::transition_map;
use crate::vehicle_physics::constants::RPM_DRIVING_THRESHOLD;
use crate::vehicle_physics::kinematics;
use crate::vehicle_state::front_headlamp::{HeadlampContext, HeadlampState};
use crate::vehicle_state::VehicleContext;
use crate::zones::ZoneId;

verus! {

pub const MAX_QUIESCENCE_HOPS: usize = 8;

/// One hop of a turn.
#[derive(Debug, PartialEq)]
pub struct HopRecord {
    pub event: FsmEvent,
    pub result: StepResult,
}

/// All hops of a turn, first to last.
#[derive(Debug, PartialEq)]
pub struct QuiescentResult {
    pub hops: Vec<HopRecord>,
}

#[verifier::ext_equal]
pub struct HopView {
    pub event: FsmEvent,
    pub result: StepView,
}

impl View for HopRecord {
    type V = HopView;

    open spec fn view(&self) -> HopView {
        HopView { event: self.event, result: self.result@ }
    }
}

impl View for QuiescentResult {
    type V = Seq<HopView>;

    open spec fn view(&self) -> Seq<HopView> {
        self.hops@.map_values(|h: HopRecord| h@)
    }
}

/// The actions of all hops, one hop after the other.
pub open spec fn merged(hops: Seq<HopView>) -> Seq<DomainActionView>
    decreases hops.len(),
{
    if hops.len() == 0 {
        Seq::empty()
    } else {
        merged(hops.drop_last()) + hops.last().result.actions
    }
}

impl QuiescentResult {
    /// The result of the last hop.
    pub fn final_step(&self) -> (result: &StepResult)
        requires
            self.hops.len() > 0,
        ensures
            result@ == self@.last().result,
            *result == self.hops@.last().result,
    {
        &self.hops[self.hops.len() - 1].result
    }

    /// The actions of all hops, in order.
    pub fn merged_actions(&self) -> (actions: Vec<DomainAction>)
        ensures
            machineries::action_views(actions@) == merged(self@),
    {
        let mut actions: Vec<DomainAction> = Vec::new();
        let mut i: usize = 0;
        assert(machineries::action_views(actions@) =~= merged(self@.take(0)));
        while i < self.hops.len()
            invariant
                i <= self.hops.len(),
                machineries::action_views(actions@) == merged(self@.take(i as int)),
            decreases self.hops.len() - i,
        {
            let ghost before = machineries::action_views(actions@);
            let mut more = machineries::clone_actions(&self.hops[i].result.actions);
            let ghost added = machineries::action_views(more@);
            actions.append(&mut more);
            proof {
                assert(machineries::action_views(actions@) =~= before + added);
                assert(self@.take(i + 1).drop_last() =~= self@.take(i as int));
                assert(self@.take(i + 1).last() == self.hops[i as int]@);
            }
            i = i + 1;
        }
        assert(self@.take(self.hops.len() as int) =~= self@);
        actions
    }
}

/// A context at rest in `Off`: no speed, no light, no wait.
pub open spec fn at_rest(ctx: VehicleContext) -> VehicleContext {
    VehicleContext {
        powertrain: ctx.powertrain.at_standstill(),
        headlamp: HeadlampContext::settled(HeadlampState::Off),
        ..ctx
    }
}

/// A hop on an event from outside: the zones answer, the state machine steps, and a car that is
/// off is put to rest. The zones' actions go before those of the step. The ledger row runs from
/// the cut before the zones answered to the cut at the end.
pub open spec fn external_hop(
    state: FsmState,
    ctx: VehicleContext,
    event: FsmEvent,
    now: Instant,
    replies: Map<ZoneId, ZoneReplyView>,
) -> StepView {
    let zone = zone_turn::zone_effect(ctx, event, state, now, replies);
    let stepped = fsm_step::step_result(state, zone.ctx, event, now);
    let modified = if stepped.next_state == FsmState::Off {
        at_rest(stepped.modified_ctx)
    } else {
        stepped.modified_ctx
    };
    let actions = outcome_map::actions_of(zone.outcomes) + stepped.actions;
    StepView {
        next_state: stepped.next_state,
        modified_ctx: modified,
        actions,
        transition_record: RecordView {
            old_ctx: ctx,
            current_ctx: modified,
            actions: fsm_step::intents(actions),
            ..stepped.transition_record
        },
    }
}

/// A hop on any event; one that the brain established itself passes the zones by.
pub open spec fn single_hop(
    state: FsmState,
    ctx: VehicleContext,
    event: FsmEvent,
    now: Instant,
    replies: Map<ZoneId, ZoneReplyView>,
) -> StepView {
    if event is Internal {
        fsm_step::step_result(state, ctx, event, now)
    } else {
        external_hop(state, ctx, event, now, replies)
    }
}

/// The hops of a turn, within a budget: the event, then each event that the new cut gives rise to.
pub open spec fn turn_hops(
    state: FsmState,
    ctx: VehicleContext,
    event: FsmEvent,
    now: Instant,
    replies: Map<ZoneId, ZoneReplyView>,
    budget: nat,
) -> Seq<HopView>
    decreases budget,
{
    if budget == 0 {
        Seq::empty()
    } else {
        let result = single_hop(state, ctx, event, now, replies);
        let first = seq![HopView { event, result }];
        match detectors::internal_event(result.next_state, result.modified_ctx) {
            Some(internal) => first + turn_hops(
                result.next_state,
                result.modified_ctx,
                internal,
                now,
                Map::empty(),
                (budget - 1) as nat,
            ),
            None => first,
        }
    }
}

/// The hops of a turn.
#[verifier::opaque]
pub open spec fn turn(
    state: FsmState,
    ctx: VehicleContext,
    event: FsmEvent,
    now: Instant,
    replies: Map<ZoneId, ZoneReplyView>,
) -> Seq<HopView> {
    turn_hops(state, ctx, event, now, replies, MAX_QUIESCENCE_HOPS as nat)
}

/// One hop on an outside event with the zones run in process.
pub fn twin_turn(
    current_state: &FsmState,
    current_ctx: &VehicleContext,
    event: &FsmEvent,
    now: Instant,
) -> (result: StepResult)
    ensures
        result@ == external_hop(*current_state, *current_ctx, *event, now, Map::empty()),
{
    apply_external_hop(current_state, current_ctx, event, now, &ZoneReplies::simulate_locally())
}

/// A turn whose zones have all answered.
#[must_use]
#[derive(Debug, PartialEq)]
pub struct ResolvedTurn {
    pub ingress: FsmEvent,
    pub now: Instant,
    pub zone_replies: ZoneReplies,
}

/// Runs a resolved turn to quiescence.
pub fn commit_resolved_turn(
    initial_state: &FsmState,
    initial_ctx: &VehicleContext,
    resolved: ResolvedTurn,
) -> (result: QuiescentResult)
    ensures
        result@ == turn(
            *initial_state,
            *initial_ctx,
            resolved.ingress,
            resolved.now,
            resolved.zone_replies@,
        ),
        result.hops.len() > 0,
{
    run_to_quiescence(
        initial_state,
        initial_ctx,
        &resolved.ingress,
        resolved.now,
        &resolved.zone_replies,
    )
}

/// Runs an event and the events that follow from it until the cut gives rise to nothing more.
pub fn run_to_quiescence(
    initial_state: &FsmState,
    initial_ctx: &VehicleContext,
    ingress: &FsmEvent,
    now: Instant,
    zone_replies: &ZoneReplies,
) -> (quiescent: QuiescentResult)
    ensures
        quiescent@ == turn(*initial_state, *initial_ctx, *ingress, now, zone_replies@),
        quiescent.hops.len() > 0,
{
    proof {
        reveal(turn);
    }
    let ghost whole = turn(*initial_state, *initial_ctx, *ingress, now, zone_replies@);
    let mut hops: Vec<HopRecord> = Vec::new();
    let result = apply_single_hop(initial_state, initial_ctx, ingress, now, zone_replies);
    let mut queue = detect_internal_after_hop(&result.next_state, &result.modified_ctx);
    let mut state = result.next_state;
    let mut ctx = result.modified_ctx;
    hops.push(HopRecord { event: *ingress, result });
    proof {
        reveal_with_fuel(turn_hops, 2);
        let done = hops@.map_values(|h: HopRecord| h@);
        assert(done =~= seq![whole[0]]);
        match queue {
            Some(event) => {},
            None => {
                assert(whole =~= done);
            },
        }
    }
    let no_replies = ZoneReplies::default();
    while queue.is_some() && hops.len() < MAX_QUIESCENCE_HOPS
        invariant
            0 < hops.len() <= MAX_QUIESCENCE_HOPS,
            no_replies@ == Map::<ZoneId, ZoneReplyView>::empty(),
            whole == hops@.map_values(|h: HopRecord| h@) + (match queue {
                Some(event) => turn_hops(
                    state,
                    ctx,
                    event,
                    now,
                    Map::empty(),
                    (MAX_QUIESCENCE_HOPS - hops.len()) as nat,
                ),
                None => Seq::empty(),
            }),
        decreases MAX_QUIESCENCE_HOPS - hops.len(),
    {
        let ghost before = hops@.map_values(|h: HopRecord| h@);
        let ghost budget = (MAX_QUIESCENCE_HOPS - hops.len()) as nat;
        let event = queue.unwrap();
        let ghost rest = turn_hops(state, ctx, event, now, Map::empty(), budget);
        let result = apply_single_hop(&state, &ctx, &event, now, &no_replies);
        let ghost shown = result@;
        queue = detect_internal_after_hop(&result.next_state, &result.modified_ctx);
        state = result.next_state;
        ctx = result.modified_ctx;
        hops.push(HopRecord { event, result });
        proof {
            let after = hops@.map_values(|h: HopRecord| h@);
            let hop = HopView { event, result: shown };
            assert(after =~= before + seq![hop]);
            match queue {
                Some(next) => {
                    let tail = turn_hops(
                        state,
                        ctx,
                        next,
                        now,
                        Map::empty(),
                        (budget - 1) as nat,
                    );
                    assert(rest == seq![hop] + tail);
                    assert(before + rest =~= after + tail);
                },
                None => {
                    assert(rest =~= seq![hop]);
                    assert(before + rest =~= after + Seq::<HopView>::empty());
                },
            }
        }
    }
    proof {
        let done = hops@.map_values(|h: HopRecord| h@);
        assert(done + Seq::<HopView>::empty() =~= done);
    }
    QuiescentResult { hops }
}

/// The event leads from a powered mode straight into `Off`, leaving aside the answers of
/// assemblies, which carry their own reset.
pub open spec fn lands_off(
    state: FsmState,
    ctx: VehicleContext,
    event: FsmEvent,
    now: Instant,
    replies: Map<ZoneId, ZoneReplyView>,
) -> bool {
    state != FsmState::Off && !(event is AssemblyZoneReady) && single_hop(
        state,
        ctx,
        event,
        now,
        replies,
    ).next_state == FsmState::Off
}

/// Whether an event would lead from a powered mode straight into `Off`.
pub fn fsm_step_lands_off(
    current_state: &FsmState,
    current_ctx: &VehicleContext,
    event: &FsmEvent,
    now: Instant,
    zone_replies: &ZoneReplies,
) -> (r: bool)
    ensures
        r == lands_off(*current_state, *current_ctx, *event, now, zone_replies@),
{
    if *current_state == FsmState::Off {
        return false;
    }
    match event {
        FsmEvent::AssemblyZoneReady(_) => false,
        FsmEvent::Internal(_) => step(current_state, current_ctx, event, now).next_state
            == FsmState::Off,
        _ => {
            let zone = zone_turn::zone_turn(current_ctx, event, current_state, now, zone_replies);
            step(current_state, &zone.ctx, event, now).next_state == FsmState::Off
        },
    }
}

fn apply_single_hop(
    current_state: &FsmState,
    current_ctx: &VehicleContext,
    event: &FsmEvent,
    now: Instant,
    zone_replies: &ZoneReplies,
) -> (result: StepResult)
    ensures
        result@ == single_hop(*current_state, *current_ctx, *event, now, zone_replies@),
{
    match event {
        FsmEvent::Internal(_) => apply_internal_hop(current_state, current_ctx, event, now),
        _ => apply_external_hop(current_state, current_ctx, event, now, zone_replies),
    }
}

fn apply_internal_hop(
    current_state: &FsmState,
    current_ctx: &VehicleContext,
    event: &FsmEvent,
    now: Instant,
) -> (result: StepResult)
    ensures
        result@ == fsm_step::step_result(*current_state, *current_ctx, *event, now),
{
    step(current_state, current_ctx, event, now)
}

fn apply_external_hop(
    current_state: &FsmState,
    current_ctx: &VehicleContext,
    event: &FsmEvent,
    now: Instant,
    zone_replies: &ZoneReplies,
) -> (result: StepResult)
    ensures
        result@ == external_hop(*current_state, *current_ctx, *event, now, zone_replies@),
{
    let zone = zone_turn::zone_turn(current_ctx, event, current_state, now, zone_replies);
    let stepped = step(current_state, &zone.ctx, event, now);
    let next_state = stepped.next_state;
    let mut modified_ctx = stepped.modified_ctx;
    if next_state == FsmState::Off {
        modified_ctx.headlamp.reset_for_ignition_off();
        modified_ctx.powertrain.freeze_standstill();
    }
    let mut actions = zone_outcomes_to_domain_actions(zone.outcomes);
    let ghost zone_actions = machineries::action_views(actions@);
    let mut step_actions = stepped.actions;
    let ghost own_actions = machineries::action_views(step_actions@);
    actions.append(&mut step_actions);
    assert(machineries::action_views(actions@) =~= zone_actions + own_actions);
    let recorded = recorded_actions(&actions);
    StepResult {
        next_state,
        modified_ctx,
        actions,
        transition_record: RawTransitionRecord {
            at: now,
            event: *event,
            old_state: *current_state,
            next_state,
            old_ctx: *current_ctx,
            current_ctx: modified_ctx,
            actions: recorded,
        },
    }
}

/// A turn takes one hop or two and ends in a cut that gives rise to nothing more, far within its
/// budget. A second hop follows exactly when the first leads into driving unlit in the dark, and
/// it leads into driving dangerously, from where the first hop ended.
pub proof fn turns_quiesce(
    state: FsmState,
    ctx: VehicleContext,
    event: FsmEvent,
    now: Instant,
    replies: Map<ZoneId, ZoneReplyView>,
)
    ensures
        ({
            let hops = turn(state, ctx, event, now, replies);
            let first = single_hop(state, ctx, event, now, replies);
            let last = hops.last().result;
            &&& 1 <= hops.len() <= 2
            &&& hops[0] == (HopView { event, result: first })
            &&& hops.len() == 2 <==> detectors::lighting_unsafe(
                first.next_state,
                first.modified_ctx,
            )
            &&& detectors::internal_event(last.next_state, last.modified_ctx) is None
            &&& hops.len() == 2 ==> {
                &&& hops[1].event == FsmEvent::Internal(Operational::LightingUnsafe)
                &&& hops[1].result.next_state == FsmState::DrivingDangerously
                &&& hops[1].result.modified_ctx == first.modified_ctx
                &&& hops[1].result.transition_record.old_state == first.next_state
                &&& hops[1].result.transition_record.old_ctx == first.modified_ctx
            }
        }),
{
    reveal(turn);
    reveal_with_fuel(turn_hops, 3);
    let first = single_hop(state, ctx, event, now, replies);
    if detectors::lighting_unsafe(first.next_state, first.modified_ctx) {
        let internal = FsmEvent::Internal(Operational::LightingUnsafe);
        let second = single_hop(first.next_state, first.modified_ctx, internal, now, Map::empty());
        assert(second.next_state == FsmState::DrivingDangerously);
        let rest = turn_hops(
            first.next_state,
            first.modified_ctx,
            internal,
            now,
            Map::empty(),
            7,
        );
        assert(rest =~= seq![HopView { event: internal, result: second }]);
        assert(turn(state, ctx, event, now, replies) =~= seq![
            HopView { event, result: first },
            HopView { event: internal, result: second },
        ]);
    }
}

/// A quiescent cut of a turn is never one of driving unlit in the dark.
pub proof fn no_turn_ends_driving_unlit(
    state: FsmState,
    ctx: VehicleContext,
    event: FsmEvent,
    now: Instant,
    replies: Map<ZoneId, ZoneReplyView>,
)
    ensures
        ({
            let last = turn(state, ctx, event, now, replies).last().result;
            !detectors::lighting_unsafe(last.next_state, last.modified_ctx)
        }),
{
    turns_quiesce(state, ctx, event, now, replies);
}

/// A car that an outside event leaves in `Off` is at rest: its speed is zero, its headlamp dark
/// and without a pending request.
pub proof fn off_is_at_rest(
    state: FsmState,
    ctx: VehicleContext,
    event: FsmEvent,
    now: Instant,
    replies: Map<ZoneId, ZoneReplyView>,
)
    ensures
        ({
            let result = external_hop(state, ctx, event, now, replies);
            result.next_state == FsmState::Off ==> {
                &&& result.modified_ctx.powertrain.speed_kph == 0
                &&& result.modified_ctx.headlamp == HeadlampContext::settled(HeadlampState::Off)
            }
        }),
{
}

/// Every turn keeps the law that a car that is off stands still.
pub proof fn turns_keep_standstill_when_off(
    state: FsmState,
    ctx: VehicleContext,
    event: FsmEvent,
    now: Instant,
    replies: Map<ZoneId, ZoneReplyView>,
)
    requires
        state_laws::StateLaw::StandstillWhenOff.holds(state, ctx),
    ensures
        ({
            let last = turn(state, ctx, event, now, replies).last().result;
            state_laws::StateLaw::StandstillWhenOff.holds(
                last.next_state,
                last.modified_ctx,
            )
        }),
{
    turns_quiesce(state, ctx, event, now, replies);
}

/// No event but an assembly's answer leads from a powered mode into `Off`, so a turn never needs
/// a reset of its own on the way down.
pub proof fn nothing_lands_off_directly(
    state: FsmState,
    ctx: VehicleContext,
    event: FsmEvent,
    now: Instant,
    replies: Map<ZoneId, ZoneReplyView>,
)
    ensures
        !lands_off(state, ctx, event, now, replies),
{
    let zone = zone_turn::zone_effect(ctx, event, state, now, replies);
    if single_hop(state, ctx, event, now, replies).next_state == FsmState::Off {
        if event is Internal {
            transition_map::off_is_reached_from_stopping_alone(state, event, ctx, now);
        } else {
            transition_map::off_is_reached_from_stopping_alone(state, event, zone.ctx, now);
        }
    }
}

/// Each hop's ledger row runs from the cut in which the hop began to the cut in which it ended,
/// and holds exactly the intents of the hop. The first row begins in the cut that the turn met,
/// each further one where the row before it ended.
pub proof fn hop_rows_mirror_hops(
    state: FsmState,
    ctx: VehicleContext,
    event: FsmEvent,
    now: Instant,
    replies: Map<ZoneId, ZoneReplyView>,
    i: int,
)
    requires
        0 <= i < turn(state, ctx, event, now, replies).len(),
    ensures
        ({
            let hop = turn(state, ctx, event, now, replies)[i];
            let row = hop.result.transition_record;
            &&& row.at == now
            &&& row.event == hop.event
            &&& row.next_state == hop.result.next_state
            &&& row.current_ctx == hop.result.modified_ctx
            &&& row.actions == fsm_step::intents(hop.result.actions)
            &&& i == 0 ==> row.old_state == state && row.old_ctx == ctx && row.event == event
            &&& i > 0 ==> {
                let before = turn(state, ctx, event, now, replies)[i - 1].result.transition_record;
                row.old_state == before.next_state && row.old_ctx == before.current_ctx
            }
        }),
{
    turns_quiesce(state, ctx, event, now, replies);
    reveal(turn);
    reveal_with_fuel(turn_hops, 3);
}

/// The engine reading of a cut fits its mode: a driving car's engine turns above the driving
/// threshold, and a warned car's does too, unless the car has come to a standstill.
pub open spec fn reading_fits(state: FsmState, ctx: VehicleContext) -> bool {
    match state {
        FsmState::Driving | FsmState::DrivingDangerously => ctx.powertrain.rpm()
            > RPM_DRIVING_THRESHOLD,
        FsmState::ExtremeOperationWarning(_) => ctx.powertrain.rpm() > RPM_DRIVING_THRESHOLD
            || ctx.powertrain.stationary(),
        _ => true,
    }
}

/// The event is an engine reading that moves the car, but not above the driving threshold.
pub open spec fn crawls(event: FsmEvent) -> bool {
    event matches FsmEvent::UpdateRpm(rpm) && rpm <= RPM_DRIVING_THRESHOLD
        && kinematics::kph_of_rpm(rpm) > 0
}

/// Every cut of a turn obeys the whole catalog of state laws, from a lawful cut on, as long as the
/// car is not read to crawl: a driving car stays driving at any speed, so a reading below the
/// driving threshold is the one thing that leads it out of the laws.
pub proof fn turns_keep_the_state_laws(
    state: FsmState,
    ctx: VehicleContext,
    event: FsmEvent,
    now: Instant,
    replies: Map<ZoneId, ZoneReplyView>,
    i: int,
)
    requires
        state_laws::lawful(state, ctx),
        reading_fits(state, ctx),
        !crawls(event),
        0 <= i < turn(state, ctx, event, now, replies).len(),
    ensures
        ({
            let cut = turn(state, ctx, event, now, replies)[i].result;
            &&& state_laws::lawful(cut.next_state, cut.modified_ctx)
            &&& reading_fits(cut.next_state, cut.modified_ctx)
        }),
{
    turns_quiesce(state, ctx, event, now, replies);
    let first = single_hop(state, ctx, event, now, replies);
    assert(state_laws::catalog()[0].holds(state, ctx));
    assert(state_laws::catalog()[1].holds(state, ctx));
    assert(state_laws::StateLaw::StandstillWhenOff.holds(first.next_state, first.modified_ctx));
    assert(reading_fits(first.next_state, first.modified_ctx));
}

/// The headlamp's answer is what the twin shows of the headlamp after the turn, in its context and
/// in its ledger row alike; a car that is off shows a headlamp at rest instead.
pub proof fn answers_become_what_the_twin_shows(
    state: FsmState,
    ctx: VehicleContext,
    event: FsmEvent,
    now: Instant,
    replies: Map<ZoneId, ZoneReplyView>,
)
    requires
        zone_turn::concerns_headlamp(event),
        zone_replies::headlamp_answer(replies) is Some,
    ensures
        ({
            let last = turn(state, ctx, event, now, replies).last().result;
            let shown = if last.next_state == FsmState::Off {
                HeadlampContext::settled(HeadlampState::Off)
            } else {
                zone_replies::headlamp_answer(replies)->0.ctx
            };
            &&& last.modified_ctx.headlamp == shown
            &&& last.transition_record.current_ctx.headlamp == shown
        }),
{
    turns_quiesce(state, ctx, event, now, replies);
    let hops = turn(state, ctx, event, now, replies);
    hop_rows_mirror_hops(state, ctx, event, now, replies, hops.len() - 1);
}

} // verus!
