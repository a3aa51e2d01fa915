//! The brain of the twin.
//!
//! The process around the brain hands it one message at a time, with a reading of the clock, and
//! carries out what the brain asks for in return, in order. Every event for the state machine
//! takes a slot in the reorder buffer at once; the buffer is drained from the front, so turns are
//! committed in the order of arrival, however late or early the zones answer.
use vstd::prelude::*;

use super::actuation_contract::ActuationCommand;
use super::actuation_manager::{
    ActuationError, ActuationManager, ActuationPlan, DefaultActuationManager, ManagerView,
};
use super::brain_laws;
use super::brain_model;
use super::brain_model::{BrainStep, BrainView, EffectView};
use crate::clock::Instant;
use crate::diagnostic;
use crate::diagnostic::{
    diag_actuation_failure, diag_front_headlamp_confirmed, diag_state_transition, diag_timer_tick, diag_warning,
    DiagnosticLevel, DiagnosticMessage,
};
use crate::digital_twin::car::{CarSnapshot, DigitalTwinCar, DigitalTwinCarError};
use crate::digital_twin::vocabulary::{
    DigitalTwinCarVocabulary, ZoneMessage, ZoneReply, ZoneReplyView, ZoneSpontaneousEvent,
};
use crate::fsm::machineries;
use crate::fsm::machineries::{DomainAction, DomainActionView, FsmEvent, FsmState};
use crate::fsm::step::managed_assemblies;
use crate::text;
use crate::transition_sink::{PublishedTransitionRecord, TransitionRecordSink};
use crate::twin_runtime::turn_barrier::{
    BarrierEntry, EntryView, PassthroughBarrier, TimeoutOutcome, TurnBarrier,
};
use crate::twin_runtime::twin_turn;
use crate::twin_runtime::twin_turn::{commit_resolved_turn, QuiescentResult, ResolvedTurn};
use crate::twin_runtime::zone_replies::ZoneReplies;
use crate::twin_runtime::zone_tell_back::{
    synthetic_unresponsive_headlamp_reply, TellBackTimer, TellBackWait,
};
use crate::twin_runtime::zone_turn::zone_message_for_event;
use crate::vehicle_state::front_headlamp::{
    FrontHeadlampSwitchDirection, HeadlampContext, HeadlampMessage, HeadlampState,
};
use crate::vehicle_state::VehicleContext;
use crate::zones::ZoneId;

verus! {

/// How the brain is run.
#[derive(Clone, Copy, Debug, PartialEq, Eq, Structural)]
pub struct VehicleControllerRuntimeOptions {
    /// Report every heartbeat.
    pub log_timer_tick: bool,
    /// Someone carries actuation commands out.
    pub commands_actuators: bool,
    /// The headlamp's context at the start, where it is not the default.
    pub initial_headlamp_ctx: Option<HeadlampContext>,
}

impl VehicleControllerRuntimeOptions {
    pub open spec fn plain() -> VehicleControllerRuntimeOptions {
        VehicleControllerRuntimeOptions {
            log_timer_tick: false,
            commands_actuators: false,
            initial_headlamp_ctx: None,
        }
    }
}

impl Default for VehicleControllerRuntimeOptions {
    fn default() -> (options: Self)
        ensures
            options == VehicleControllerRuntimeOptions::plain(),
    {
        VehicleControllerRuntimeOptions {
            log_timer_tick: false,
            commands_actuators: false,
            initial_headlamp_ctx: None,
        }
    }
}

/// What the brain is started with.
#[derive(Debug)]
pub struct VirtualCarActorArgs {
    pub identity: String,
    pub runtime_options: VehicleControllerRuntimeOptions,
}

impl From<String> for VirtualCarActorArgs {
    fn from(identity: String) -> (args: VirtualCarActorArgs) {
        VirtualCarActorArgs {
            identity,
            runtime_options: VehicleControllerRuntimeOptions::default(),
        }
    }
}

impl vstd::std_specs::convert::FromSpecImpl<String> for VirtualCarActorArgs {
    open spec fn obeys_from_spec() -> bool {
        true
    }

    open spec fn from_spec(identity: String) -> VirtualCarActorArgs {
        VirtualCarActorArgs { identity, runtime_options: VehicleControllerRuntimeOptions::plain() }
    }
}

impl VirtualCarActorArgs {
    /// The plain options under an identity.
    pub fn named(identity: &str) -> (args: VirtualCarActorArgs)
        ensures
            args.identity@ == identity@,
            args.runtime_options == VehicleControllerRuntimeOptions::plain(),
    {
        VirtualCarActorArgs::from(identity.to_owned())
    }
}

/// The actor that the brain lives in; its state is [`VirtualCarRuntimeState`].
pub struct VirtualCarActor;

impl Default for VirtualCarActor {
    fn default() -> (actor: Self)
        ensures
            actor == VirtualCarActor,
    {
        VirtualCarActor
    }
}

impl VirtualCarActor {
    /// An actor for a given ledger; the ledger is attached where the actor is run.
    pub fn with_transition_sink(_transition_sink: std::sync::Arc<dyn TransitionRecordSink>) -> (
        actor: VirtualCarActor)
        ensures
            actor == VirtualCarActor,
    {
        VirtualCarActor
    }
}

/// What the brain asks of the process around it.
#[derive(Debug)]
pub enum BrainEffect {
    /// Tell the headlamp zone.
    TellHeadlamp { turn_id: u64, tell_attempt: u32, message: HeadlampMessage, now: Instant },
    /// Start a timer that reports the zone's silence.
    ArmTellBackTimer(TellBackTimer),
    /// Stop a timer.
    AbortTellBackTimer(TellBackTimer),
    /// Put a row into the ledger.
    Publish(PublishedTransitionRecord),
    /// Show a diagnostic message.
    Diagnose(DiagnosticMessage),
    /// Command an actuator.
    Command(ActuationCommand),
    /// Answer the reader.
    ReplyStatus(CarSnapshot),
}

impl View for BrainEffect {
    type V = EffectView;

    open spec fn view(&self) -> EffectView {
        match *self {
            BrainEffect::TellHeadlamp { turn_id, tell_attempt, message, now } => {
                EffectView::TellHeadlamp { turn_id, tell_attempt, message, now }
            },
            BrainEffect::ArmTellBackTimer(timer) => EffectView::ArmTellBackTimer(timer),
            BrainEffect::AbortTellBackTimer(timer) => EffectView::AbortTellBackTimer(timer),
            BrainEffect::Publish(record) => EffectView::Publish(record@),
            BrainEffect::Diagnose(message) => EffectView::Diagnose(message@),
            BrainEffect::Command(command) => EffectView::Command(command@),
            BrainEffect::ReplyStatus(snapshot) => EffectView::ReplyStatus {
                name: snapshot.twin().name(),
                mode: snapshot.twin().mode(),
                ctx: snapshot.twin().ctx(),
                as_of_seq: snapshot.seq(),
            },
        }
    }
}

/// What a run of effects asks for.
#[verifier::opaque]
pub open spec fn effect_views(effects: Seq<BrainEffect>) -> Seq<EffectView> {
    effects.map_values(|e: BrainEffect| e@)
}

fn push_effect(effects: &mut Vec<BrainEffect>, effect: BrainEffect)
    ensures
        effect_views(final(effects)@) == effect_views(old(effects)@).push(effect@),
{
    effects.push(effect);
    proof {
        reveal(effect_views);
    }
    assert(effect_views(effects@) =~= effect_views(old(effects)@).push(effect@));
}

/// The state of the brain between messages.
#[derive(Debug)]
pub struct VirtualCarRuntimeState {
    twin_car: DigitalTwinCar,
    next_turn_id: u64,
    barrier_queue: Vec<BarrierEntry>,
    next_record_seq: u64,
    log_timer_tick: bool,
    actuation_manager: DefaultActuationManager,
}

pub open spec fn entry_views(queue: Seq<BarrierEntry>) -> Seq<EntryView> {
    queue.map_values(|e: BarrierEntry| e@)
}

impl View for VirtualCarRuntimeState {
    type V = BrainView;

    closed spec fn view(&self) -> BrainView {
        BrainView {
            name: self.twin_car.name(),
            mode: self.twin_car.mode(),
            ctx: self.twin_car.ctx(),
            next_turn_id: self.next_turn_id,
            queue: entry_views(self.barrier_queue@),
            next_record_seq: self.next_record_seq,
            log_timer_tick: self.log_timer_tick,
            manager: self.actuation_manager@,
        }
    }
}

/// `step` leads from the brain and effects before to those after.
pub open spec fn leads(
    brain_after: BrainView,
    effects_before: Seq<BrainEffect>,
    effects_after: Seq<BrainEffect>,
    step: BrainStep,
) -> bool {
    &&& brain_after == step.brain
    &&& effect_views(effects_after) == effect_views(effects_before) + step.effects
}

/// What is asked of the world for what the manager made of an action.
pub open spec fn delivered(
    name: Seq<char>,
    action: DomainActionView,
    outcome: Result<ActuationPlan, ActuationError>,
) -> Seq<EffectView> {
    match outcome {
        Ok(plan) => (match plan.diagnostic_view() {
            Some(diagnostic) => seq![EffectView::Diagnose(diagnostic)],
            None => Seq::empty(),
        }) + (match plan.command_view() {
            Some(command) => seq![EffectView::Command(command)],
            None => Seq::empty(),
        }),
        Err(error) => seq![
            EffectView::Diagnose(
                diagnostic::brain_diagnostic(
                    DiagnosticLevel::Error,
                    name,
                    diagnostic::failure_text(action.text(), error.text()),
                ),
            ),
        ],
    }
}

/// Classifies a headlamp change as the positive settlement of a request, if it is one.
pub fn front_headlamp_confirmed_direction(before: HeadlampState, after: HeadlampState) -> (
    direction: Option<FrontHeadlampSwitchDirection>)
    ensures
        direction == brain_model::confirmed(before, after),
{
    match (before, after) {
        (HeadlampState::OnRequested, HeadlampState::On) => Some(FrontHeadlampSwitchDirection::On),
        (HeadlampState::OffRequested, HeadlampState::Ready) => Some(
            FrontHeadlampSwitchDirection::Off,
        ),
        (HeadlampState::OffRequested, HeadlampState::Off) => Some(
            FrontHeadlampSwitchDirection::Off,
        ),
        _ => None,
    }
}

impl VirtualCarRuntimeState {
    /// Sets the brain up: the car is off, nothing is in flight, no row is published. A blank
    /// identity is refused.
    pub fn start(args: VirtualCarActorArgs, session_id: u64) -> (brain: Result<
        VirtualCarRuntimeState,
        DigitalTwinCarError,
    >)
        ensures
            brain is Err <==> text::is_blank(args.identity@),
            brain matches Err(e) ==> e == DigitalTwinCarError::BlankIdentity,
            brain matches Ok(b) ==> {
                &&& b@.well_formed()
                &&& b@.name == text::trimmed(args.identity@)
                &&& b@.mode == FsmState::Off
                &&& b@.ctx.headlamp == (match args.runtime_options.initial_headlamp_ctx {
                    Some(ctx) => ctx,
                    None => HeadlampContext::settled(HeadlampState::Off),
                })
                &&& b@.ctx.powertrain == (crate::vehicle_state::powertrain::PowertrainContext {
                    wheel_rpm: crate::vehicle_state::powertrain::WheelRpm::all(0),
                    speed_kph: 0,
                })
                &&& b@.ctx.health == (crate::vehicle_state::health::VehicleHealthContext {
                    fuel_level: 85,
                    oil_pressure: 30,
                    tyre_pressure_ok: true,
                })
                &&& b@.ctx.visibility.ambient_lux == 100
                &&& b@.ctx.wiper.state == crate::vehicle_state::wiper::WiperState::Parked
                &&& b@.ctx.pending_assemblies@ == Set::<ZoneId>::empty()
                &&& b@.next_turn_id == 1
                &&& b@.queue == Seq::<EntryView>::empty()
                &&& b@.next_record_seq == 1
                &&& b@.log_timer_tick == args.runtime_options.log_timer_tick
                &&& b@.manager == (ManagerView {
                    source_id: if args.runtime_options.commands_actuators {
                        Some(args.identity@)
                    } else {
                        None
                    },
                    session_id: if args.runtime_options.commands_actuators {
                        session_id
                    } else {
                        0
                    },
                    next_sequence_no: 1,
                    reports: false,
                })
            },
    {
        let actuation_manager = if args.runtime_options.commands_actuators {
            DefaultActuationManager::with_command_channel(args.identity.clone(), session_id)
        } else {
            DefaultActuationManager::default()
        };
        let mut initial_ctx = VehicleContext::default();
        if let Some(headlamp) = args.runtime_options.initial_headlamp_ctx {
            initial_ctx.headlamp = headlamp;
        }
        let twin_car = match DigitalTwinCar::new(
            args.identity.as_str(),
            FsmState::Off,
            initial_ctx,
        ) {
            Ok(car) => car,
            Err(e) => {
                return Err(e);
            },
        };
        let brain = VirtualCarRuntimeState {
            twin_car,
            next_turn_id: 1,
            barrier_queue: Vec::new(),
            next_record_seq: 1,
            log_timer_tick: args.runtime_options.log_timer_tick,
            actuation_manager,
        };
        assert(brain@.queue =~= Seq::<EntryView>::empty());
        Ok(brain)
    }

    /// The twin as it stands.
    pub fn twin_car(&self) -> (car: &DigitalTwinCar)
        ensures
            car.name() == self@.name,
            car.mode() == self@.mode,
            car.ctx() == self@.ctx,
    {
        &self.twin_car
    }

    fn alloc_turn_id(&mut self) -> (id: u64)
        ensures
            id == old(self)@.next_turn_id,
            final(self)@ == (BrainView {
                next_turn_id: brain_model::counted(old(self)@.next_turn_id),
                ..old(self)@
            }),
    {
        let id: u64 = self.next_turn_id;
        self.next_turn_id = self.next_turn_id.saturating_add(1);
        id
    }

    fn push_entry(&mut self, entry: BarrierEntry)
        ensures
            final(self)@ == (BrainView { queue: old(self)@.queue.push(entry@), ..old(self)@ }),
    {
        let ghost before = self@.queue;
        self.barrier_queue.push(entry);
        assert(self@.queue =~= before.push(entry@));
    }

    /// Tells the headlamp for a new turn and starts the timer that watches over the answer.
    fn tell_headlamp_for(
        &mut self,
        event: FsmEvent,
        zone_id: ZoneId,
        message: HeadlampMessage,
        now: Instant,
        effects: &mut Vec<BrainEffect>,
    )
        ensures
            leads(
                final(self)@,
                old(effects)@,
                final(effects)@,
                old(self)@.tell_for(event, zone_id, message, now),
            ),
    {
        let ghost step = self@.tell_for(event, zone_id, message, now);
        let ghost before = effect_views(effects@);
        let turn_id: u64 = self.alloc_turn_id();
        push_effect(effects, BrainEffect::TellHeadlamp { turn_id, tell_attempt: 0, message, now });
        let timer = TellBackTimer { zone_id, turn_id, tell_attempt: 0 };
        push_effect(effects, BrainEffect::ArmTellBackTimer(timer));
        let mut barrier = TurnBarrier::new(turn_id, event, now);
        barrier.add_pending_zone(zone_id, message, TellBackWait::new(turn_id), timer);
        self.push_entry(BarrierEntry::Waiting(barrier));
        assert(effect_views(effects@) =~= before + step.effects);
    }

    /// Gives an event its slot in the buffer.
    fn begin_fsm_turn(&mut self, event: FsmEvent, now: Instant, effects: &mut Vec<BrainEffect>)
        ensures
            leads(final(self)@, old(effects)@, final(effects)@, old(self)@.begun(event, now)),
    {
        let ghost before = effect_views(effects@);
        match zone_message_for_event(&event, self.twin_car.current_state()) {
            Some((zone_id, ZoneMessage::Headlamp(message))) => {
                self.tell_headlamp_for(event, zone_id, message, now, effects);
            },
            _ => {
                let turn_id: u64 = self.alloc_turn_id();
                let passthrough = PassthroughBarrier::new(turn_id, event, now);
                self.push_entry(BarrierEntry::Passthrough(passthrough));
                assert(effect_views(effects@) =~= before + Seq::<EffectView>::empty());
            },
        }
    }

    /// The place of a turn's slot in the buffer.
    fn find_slot(&self, turn_id: u64) -> (i: usize)
        ensures
            i == brain_model::position(self@.queue, turn_id),
            i <= self.barrier_queue.len(),
    {
        let mut i: usize = 0;
        assert(self@.queue.skip(0) =~= self@.queue);
        while i < self.barrier_queue.len() && self.barrier_queue[i].turn_id() != turn_id
            invariant
                i <= self.barrier_queue.len(),
                self.barrier_queue.len() == self@.queue.len(),
                i + brain_model::position(self@.queue.skip(i as int), turn_id)
                    == brain_model::position(self@.queue, turn_id),
            ensures
                i <= self.barrier_queue.len(),
                i == brain_model::position(self@.queue, turn_id),
            decreases self.barrier_queue.len() - i,
        {
            proof {
                let rest = self@.queue.skip(i as int);
                assert(rest[0] == self.barrier_queue[i as int]@);
                assert(rest.skip(1) =~= self@.queue.skip(i + 1));
            }
            i = i + 1;
        }
        i
    }

    /// A zone answers for a turn; a stale answer is discarded.
    fn on_zone_ready(
        &mut self,
        zone_id: ZoneId,
        turn_id: u64,
        tell_attempt: u32,
        reply: ZoneReply,
        effects: &mut Vec<BrainEffect>,
    )
        ensures
            leads(
                final(self)@,
                old(effects)@,
                final(effects)@,
                old(self)@.zone_answered(zone_id, turn_id, tell_attempt, reply@),
            ),
    {
        let ghost before = effect_views(effects@);
        let ghost queue = self@.queue;
        assert(before =~= before + Seq::<EffectView>::empty());
        let i: usize = self.find_slot(turn_id);
        if i >= self.barrier_queue.len() {
            return;
        }
        assert(queue[i as int] == self.barrier_queue[i as int]@);
        match self.barrier_queue[i].as_waiting() {
            Some(barrier) => {
                if !barrier.tell_attempt_matches(zone_id, tell_attempt) {
                    return;
                }
            },
            None => {
                return;
            },
        }
        let mut abort: Option<TellBackTimer> = None;
        if let Some(barrier) = self.barrier_queue[i].as_waiting_mut() {
            abort = barrier.act_on_zone_reply(zone_id, reply);
        }
        if let Some(timer) = abort {
            push_effect(effects, BrainEffect::AbortTellBackTimer(timer));
        }
        proof {
            let step = old(self)@.zone_answered(zone_id, turn_id, tell_attempt, reply@);
            assert(self@.queue =~= step.brain.queue);
            assert(effect_views(effects@) =~= before + step.effects);
        }
    }

    /// A zone has not answered in time; a stale timeout is discarded.
    fn on_zone_timeout(
        &mut self,
        zone_id: ZoneId,
        turn_id: u64,
        tell_attempt: u32,
        effects: &mut Vec<BrainEffect>,
    )
        requires
            old(self)@.well_formed(),
        ensures
            leads(
                final(self)@,
                old(effects)@,
                final(effects)@,
                old(self)@.zone_timed_out(zone_id, turn_id, tell_attempt),
            ),
    {
        let ghost before = effect_views(effects@);
        let ghost brain = self@;
        assert(before =~= before + Seq::<EffectView>::empty());
        let i: usize = self.find_slot(turn_id);
        if i >= self.barrier_queue.len() {
            return;
        }
        assert(brain.queue[i as int] == self.barrier_queue[i as int]@);
        let (message, arrived) = match self.barrier_queue[i].as_waiting() {
            Some(barrier) => {
                if !barrier.is_pending(zone_id) || !barrier.tell_attempt_matches(
                    zone_id,
                    tell_attempt,
                ) {
                    return;
                }
                assert(brain.queue[i as int].consistent());
                (barrier.zone_message(zone_id).unwrap(), barrier.now())
            },
            None => {
                return;
            },
        };
        let synthetic = synthetic_unresponsive_headlamp_reply(&self.twin_car.context().headlamp);
        let ghost unchanged = synthetic@;
        let mut retry: Option<u32> = None;
        if let Some(barrier) = self.barrier_queue[i].as_waiting_mut() {
            match barrier.act_on_zone_timeout(zone_id, tell_attempt) {
                TimeoutOutcome::Retry { next_attempt } => {
                    barrier.store_retry_timer(
                        zone_id,
                        TellBackTimer { zone_id, turn_id, tell_attempt: next_attempt },
                    );
                    retry = Some(next_attempt);
                },
                TimeoutOutcome::GaveUp => {
                    let _ = barrier.act_on_zone_reply(zone_id, ZoneReply::Headlamp(synthetic));
                },
            }
        }
        if let Some(next_attempt) = retry {
            push_effect(
                effects,
                BrainEffect::TellHeadlamp {
                    turn_id,
                    tell_attempt: next_attempt,
                    message,
                    now: arrived,
                },
            );
            push_effect(
                effects,
                BrainEffect::ArmTellBackTimer(
                    TellBackTimer { zone_id, turn_id, tell_attempt: next_attempt },
                ),
            );
        }
        proof {
            let step = brain.zone_timed_out(zone_id, turn_id, tell_attempt);
            assert(self@.queue =~= step.brain.queue);
            assert(effect_views(effects@) =~= before + step.effects);
        }
    }

    /// A zone reports of its own accord: the report is committed at once, past the buffer.
    fn on_zone_spontaneous(
        &mut self,
        event: ZoneSpontaneousEvent,
        now: Instant,
        effects: &mut Vec<BrainEffect>,
    )
        requires
            old(self)@.well_formed(),
        ensures
            match event {
                ZoneSpontaneousEvent::Headlamp { direction, cause, reply } => leads(
                    final(self)@,
                    old(effects)@,
                    final(effects)@,
                    old(self)@.commits(
                        FsmEvent::FrontHeadlampActuationIncomplete { direction, cause },
                        now,
                        Map::empty().insert(ZoneId::Headlamp, ZoneReplyView::Headlamp(reply@)),
                        now,
                    ),
                ),
            },
    {
        match event {
            ZoneSpontaneousEvent::Headlamp { direction, cause, reply } => {
                self.commit_turn(
                    ResolvedTurn {
                        ingress: FsmEvent::FrontHeadlampActuationIncomplete { direction, cause },
                        now,
                        zone_replies: ZoneReplies::with_reply(
                            ZoneId::Headlamp,
                            ZoneReply::Headlamp(reply),
                        ),
                    },
                    now,
                    effects,
                );
            },
        }
    }

    /// Commits complete slots from the front of the buffer.
    fn try_drain_barrier_queue(&mut self, now: Instant, effects: &mut Vec<BrainEffect>)
        requires
            old(self)@.well_formed(),
        ensures
            leads(final(self)@, old(effects)@, final(effects)@, old(self)@.drained(now)),
            final(self)@.well_formed(),
    {
        let ghost goal = self@.drained(now);
        let ghost before = effect_views(effects@);
        assert(before + goal.effects =~= effect_views(effects@) + goal.effects);
        while self.barrier_queue.len() > 0 && self.barrier_queue[0].is_complete()
            invariant
                self@.well_formed(),
                self@.queue.len() == self.barrier_queue.len(),
                self@.drained(now).brain == goal.brain,
                effect_views(effects@) + self@.drained(now).effects == before + goal.effects,
            decreases brain_model::complete_count(self@.queue),
        {
            let ghost brain = self@;
            let ghost shown = effect_views(effects@);
            assert(brain.queue[0] == self.barrier_queue[0]@);
            let entry = self.barrier_queue.remove(0);
            let ghost slot = entry@;
            proof {
                assert(self@.queue =~= brain.queue.skip(1));
                assert(self@ == brain.without_front());
                assert forall|k: int| 0 <= k < self@.queue.len() implies (
                #[trigger] self@.queue[k]).consistent() by {
                    assert(self@.queue[k] == brain.queue[k + 1]);
                }
            }
            let resolved = entry.into_resolved_turn();
            self.commit_turn(resolved, now, effects);
            proof {
                let committed = brain.without_front().commits_slot(slot, now);
                brain_laws::commits_add_no_complete_slot(brain.without_front(), slot, now);
                brain_laws::committing_keeps_well_formed(brain.without_front(), slot, now);
                let rest = committed.brain.drained(now);
                assert(shown + (committed.effects + rest.effects) =~= effect_views(effects@)
                    + rest.effects);
                assert(brain_model::complete_count(brain.queue)
                    == 1 + brain_model::complete_count(brain.queue.skip(1)));
            }
        }
        proof {
            if self@.queue.len() > 0 {
                assert(self@.queue[0] == self.barrier_queue[0]@);
            }
            assert(self@.drained(now) == BrainStep::rest(self@));
            assert(effect_views(effects@) + Seq::<EffectView>::empty() =~= effect_views(effects@));
        }
    }

    /// Runs a turn to quiescence and takes its result over.
    fn commit_turn(&mut self, resolved: ResolvedTurn, now: Instant, effects: &mut Vec<BrainEffect>)
        requires
            old(self)@.well_formed(),
        ensures
            leads(
                final(self)@,
                old(effects)@,
                final(effects)@,
                old(self)@.commits(
                    resolved.ingress,
                    resolved.now,
                    resolved.zone_replies@,
                    now,
                ),
            ),
    {
        let quiescent = commit_resolved_turn(
            self.twin_car.current_state(),
            self.twin_car.context(),
            resolved,
        );
        self.apply_committed_quiescence(quiescent, now, effects);
    }

    /// Takes the hops of a turn over: one ledger row each, the last cut, all actions, and what is
    /// to be said about the change.
    fn apply_committed_quiescence(
        &mut self,
        quiescent: QuiescentResult,
        now: Instant,
        effects: &mut Vec<BrainEffect>,
    )
        requires
            quiescent.hops.len() > 0,
            old(self)@.well_formed(),
        ensures
            leads(
                final(self)@,
                old(effects)@,
                final(effects)@,
                old(self)@.applied(quiescent@, now),
            ),
    {
        let ghost brain = self@;
        let ghost hops = quiescent@;
        let ghost before = effect_views(effects@);
        let ghost published = brain.publishes_all(hops);
        let old_state = *self.twin_car.current_state();
        let headlamp_before = self.twin_car.context().headlamp.state;
        self.emit_transition_records(&quiescent, effects);
        let final_step = quiescent.final_step();
        let next_state = final_step.next_state;
        let modified_ctx = final_step.modified_ctx;
        let headlamp_after = modified_ctx.headlamp.state;
        self.twin_car.apply_step(next_state, modified_ctx);
        let ghost moved = self@;
        proof {
            brain_laws::publishing_counts_rows(brain, hops);
            assert(moved == published.brain.at_cut(next_state, modified_ctx));
        }
        let actions = quiescent.merged_actions();
        self.execute_actions(actions, now, effects);
        let ghost acted = moved.acts_all(twin_turn::merged(hops), now);
        proof {
            brain_laws::acting_all_keeps_the_cut(moved, twin_turn::merged(hops), now);
        }
        if *self.twin_car.current_state() != old_state {
            let message = diag_state_transition(
                self.twin_car.identity(),
                self.twin_car.current_state(),
                self.twin_car.context(),
            );
            push_effect(effects, BrainEffect::Diagnose(message));
        }
        let ghost announced = acted.brain.announces(old_state);
        assert(effect_views(effects@) =~= before + published.effects + acted.effects
            + announced.effects);
        if let Some(direction) = front_headlamp_confirmed_direction(
            headlamp_before,
            headlamp_after,
        ) {
            let message = diag_front_headlamp_confirmed(self.twin_car.identity(), direction);
            push_effect(effects, BrainEffect::Diagnose(message));
        }
        proof {
            reveal(BrainView::applied);
            assert(effect_views(effects@) =~= before + brain.applied(hops, now).effects);
        }
    }

    /// Puts one ledger row out for each hop.
    fn emit_transition_records(
        &mut self,
        quiescent: &QuiescentResult,
        effects: &mut Vec<BrainEffect>,
    )
        ensures
            leads(
                final(self)@,
                old(effects)@,
                final(effects)@,
                old(self)@.publishes_all(quiescent@),
            ),
    {
        let ghost brain = self@;
        let ghost before = effect_views(effects@);
        let ghost hops = quiescent@;
        let mut i: usize = 0;
        proof {
            assert(hops.take(0) =~= Seq::empty());
            assert(before =~= before + brain.publishes_all(hops.take(0)).effects);
        }
        while i < quiescent.hops.len()
            invariant
                i <= quiescent.hops.len(),
                hops == quiescent@,
                self@ == brain.publishes_all(hops.take(i as int)).brain,
                effect_views(effects@) == before + brain.publishes_all(
                    hops.take(i as int),
                ).effects,
            decreases quiescent.hops.len() - i,
        {
            let ghost so_far = brain.publishes_all(hops.take(i as int));
            let record_seq: u64 = self.next_record_seq;
            self.next_record_seq = self.next_record_seq.saturating_add(1);
            let record = PublishedTransitionRecord {
                car_identity: self.twin_car.identity().to_owned(),
                sequence_no: record_seq,
                transition: quiescent.hops[i].result.transition_record.clone(),
            };
            push_effect(effects, BrainEffect::Publish(record));
            proof {
                assert(hops.take(i + 1).drop_last() =~= hops.take(i as int));
                assert(hops.take(i + 1).last() == quiescent.hops[i as int]@);
                let next = so_far.and_after(so_far.brain.publishes(hops[i as int]));
                assert(brain.publishes_all(hops.take(i + 1)) == next);
                assert(effect_views(effects@) =~= before + next.effects);
            }
            i = i + 1;
        }
        assert(hops.take(quiescent.hops.len() as int) =~= hops);
    }

    /// Carries actions out in order.
    fn execute_actions(
        &mut self,
        actions: Vec<DomainAction>,
        now: Instant,
        effects: &mut Vec<BrainEffect>,
    )
        requires
            !old(self)@.manager.reports,
        ensures
            leads(
                final(self)@,
                old(effects)@,
                final(effects)@,
                old(self)@.acts_all(machineries::action_views(actions@), now),
            ),
    {
        let ghost brain = self@;
        let ghost before = effect_views(effects@);
        let ghost all = machineries::action_views(actions@);
        let mut i: usize = 0;
        proof {
            assert(all.take(0) =~= Seq::empty());
            assert(before =~= before + brain.acts_all(all.take(0), now).effects);
        }
        while i < actions.len()
            invariant
                i <= actions.len(),
                all == machineries::action_views(actions@),
                self@ == brain.acts_all(all.take(i as int), now).brain,
                !self@.manager.reports,
                effect_views(effects@) == before + brain.acts_all(
                    all.take(i as int),
                    now,
                ).effects,
            decreases actions.len() - i,
        {
            let ghost so_far = brain.acts_all(all.take(i as int), now);
            self.execute_action(&actions[i], now, effects);
            proof {
                assert(all.take(i + 1).drop_last() =~= all.take(i as int));
                assert(all.take(i + 1).last() == actions[i as int]@);
                let next = so_far.and_after(so_far.brain.acts(all[i as int], now));
                assert(brain.acts_all(all.take(i + 1), now) == next);
                assert(effect_views(effects@) =~= before + next.effects);
                brain_laws::acting_keeps_the_cut(so_far.brain, all[i as int], now);
            }
            i = i + 1;
        }
        assert(all.take(actions.len() as int) =~= all);
    }

    fn execute_action(
        &mut self,
        action: &DomainAction,
        now: Instant,
        effects: &mut Vec<BrainEffect>,
    )
        requires
            !old(self)@.manager.reports,
        ensures
            leads(final(self)@, old(effects)@, final(effects)@, old(self)@.acts(action@, now)),
    {
        let ghost brain = self@;
        let ghost before = effect_views(effects@);
        match action {
            DomainAction::EnterMode(_) => {
                assert(before =~= before + Seq::<EffectView>::empty());
            },
            DomainAction::LogWarning(message) => {
                push_effect(
                    effects,
                    BrainEffect::Diagnose(
                        diag_warning(self.twin_car.identity(), message.as_str()),
                    ),
                );
            },
            DomainAction::StartAssemblies => {
                self.order_assemblies(HeadlampMessage::BecomeOn, now, effects);
            },
            DomainAction::StopAssemblies => {
                self.order_assemblies(HeadlampMessage::BecomeOff, now, effects);
            },
            _ => {
                self.actuate(action, effects);
            },
        }
        assert(effect_views(effects@) =~= before + brain.acts(action@, now).effects);
    }

    /// Hands an action to the manager and passes its command on.
    fn actuate(&mut self, action: &DomainAction, effects: &mut Vec<BrainEffect>)
        requires
            !old(self)@.manager.reports,
        ensures
            final(self)@ == (BrainView {
                manager: old(self)@.manager.after(action@),
                ..old(self)@
            }),
            effect_views(final(effects)@) == effect_views(old(effects)@) + (
            match old(self)@.manager.command_for(action@) {
                Some(command) => seq![EffectView::Command(command)],
                None => Seq::empty(),
            }),
    {
        let ghost before = effect_views(effects@);
        let ghost manager = self@.manager;
        let outcome = self.actuation_manager.execute(action, &self.twin_car);
        self.deliver(action, outcome, effects);
        assert(effect_views(effects@) =~= before + (match manager.command_for(action@) {
            Some(command) => seq![EffectView::Command(command)],
            None => Seq::empty(),
        }));
    }

    /// Passes on what the manager made of an action: its report and its command, or else the
    /// failure.
    fn deliver(
        &self,
        action: &DomainAction,
        outcome: Result<ActuationPlan, ActuationError>,
        effects: &mut Vec<BrainEffect>,
    )
        ensures
            effect_views(final(effects)@) == effect_views(old(effects)@) + delivered(
                self@.name,
                action@,
                outcome,
            ),
    {
        let ghost before = effect_views(effects@);
        match outcome {
            Ok(plan) => {
                if let Some(diagnostic) = plan.diagnostic {
                    push_effect(effects, BrainEffect::Diagnose(diagnostic));
                }
                if let Some(command) = plan.command {
                    push_effect(effects, BrainEffect::Command(command));
                }
            },
            Err(error) => {
                let what = action.render();
                let why = error.render();
                push_effect(
                    effects,
                    BrainEffect::Diagnose(
                        diag_actuation_failure(
                            self.twin_car.identity(),
                            what.as_str(),
                            why.as_str(),
                        ),
                    ),
                );
            },
        }
        assert(effect_views(effects@) =~= before + delivered(self@.name, action@, outcome));
    }

    /// Orders each managed assembly to start or to stop.
    fn order_assemblies(
        &mut self,
        message: HeadlampMessage,
        now: Instant,
        effects: &mut Vec<BrainEffect>,
    )
        ensures
            leads(
                final(self)@,
                old(effects)@,
                final(effects)@,
                old(self)@.tell_for(
                    FsmEvent::AssemblyZoneReady(ZoneId::Headlamp),
                    ZoneId::Headlamp,
                    message,
                    now,
                ),
            ),
    {
        if managed_assemblies().contains(ZoneId::Headlamp) {
            self.tell_headlamp_for(
                FsmEvent::AssemblyZoneReady(ZoneId::Headlamp),
                ZoneId::Headlamp,
                message,
                now,
                effects,
            );
        }
    }

    /// The twin as of the last published row.
    pub fn snapshot(&self) -> (snapshot: CarSnapshot)
        ensures
            snapshot.twin().name() == self@.name,
            snapshot.twin().mode() == self@.mode,
            snapshot.twin().ctx() == self@.ctx,
            snapshot.seq() == self@.as_of_seq(),
    {
        CarSnapshot::new(self.twin_car.clone(), self.next_record_seq.saturating_sub(1))
    }

    /// Handles one message, read at `now`; what the brain asks for comes back in order.
    pub fn handle(&mut self, message: DigitalTwinCarVocabulary, now: Instant) -> (effects: Vec<
        BrainEffect,
    >)
        requires
            old(self)@.well_formed(),
        ensures
            final(self)@ == old(self)@.handled(message, now).brain,
            effect_views(effects@) == old(self)@.handled(message, now).effects,
            final(self)@.well_formed(),
    {
        let ghost brain = self@;
        let ghost goal = brain.handled(message, now);
        let mut effects: Vec<BrainEffect> = Vec::new();
        let ghost none = effect_views(effects@);
        proof {
            reveal(effect_views);
            assert(none =~= Seq::<EffectView>::empty());
            brain_laws::receiving_keeps_well_formed(brain, message, now);
        }
        match message {
            DigitalTwinCarVocabulary::Fsm(event) => {
                if event == FsmEvent::TimerTick && self.log_timer_tick {
                    push_effect(
                        &mut effects,
                        BrainEffect::Diagnose(diag_timer_tick(self.twin_car.identity())),
                    );
                }
                assert(effect_views(effects@) =~= brain.heard(event).effects);
                self.begin_fsm_turn(event, now, &mut effects);
            },
            DigitalTwinCarVocabulary::ZoneReady { zone_id, turn_id, tell_attempt, reply } => {
                self.on_zone_ready(zone_id, turn_id, tell_attempt, reply, &mut effects);
            },
            DigitalTwinCarVocabulary::ZoneTellBackTimeout { zone_id, turn_id, tell_attempt } => {
                self.on_zone_timeout(zone_id, turn_id, tell_attempt, &mut effects);
            },
            DigitalTwinCarVocabulary::ZoneSpontaneous { zone_id: _, event } => {
                self.on_zone_spontaneous(event, now, &mut effects);
            },
            DigitalTwinCarVocabulary::GetStatus => {
                push_effect(&mut effects, BrainEffect::ReplyStatus(self.snapshot()));
                assert(effect_views(effects@) =~= goal.effects);
                return effects;
            },
        }
        proof {
            let step = brain.received(message, now);
            assert(none + step.effects =~= step.effects);
            assert(self@ == step.brain);
            assert(effect_views(effects@) == step.effects);
        }
        self.try_drain_barrier_queue(now, &mut effects);
        effects
    }

    /// Stops the brain: nothing stays in flight, and the timers that were running come back to be
    /// aborted.
    pub fn stop(&mut self) -> (aborted: Vec<TellBackTimer>)
        ensures
            final(self)@ == (BrainView { queue: Seq::empty(), ..old(self)@ }),
            aborted@ == all_timers(old(self)@.queue),
    {
        let ghost brain = self@;
        let mut aborted: Vec<TellBackTimer> = Vec::new();
        assert(brain.queue.take(brain.queue.len() - self.barrier_queue.len()) =~= Seq::empty());
        while self.barrier_queue.len() > 0
            invariant
                self.barrier_queue.len() <= brain.queue.len(),
                self@ == (BrainView {
                    queue: brain.queue.skip(brain.queue.len() - self.barrier_queue.len()),
                    ..brain
                }),
                aborted@ == all_timers(
                    brain.queue.take(brain.queue.len() - self.barrier_queue.len()),
                ),
            decreases self.barrier_queue.len(),
        {
            let ghost done = (brain.queue.len() - self.barrier_queue.len()) as int;
            let ghost before = self@.queue;
            assert(before[0] == self.barrier_queue[0]@);
            assert(before =~= brain.queue.skip(done));
            let mut entry = self.barrier_queue.remove(0);
            let ghost slot = entry@;
            let mut timers = entry.abort_all_timers();
            aborted.append(&mut timers);
            proof {
                assert(slot == brain.queue[done]);
                assert(self@.queue =~= before.skip(1));
                assert(before.skip(1) =~= brain.queue.skip(done + 1));
                assert(brain.queue.take(done + 1).drop_last() =~= brain.queue.take(done));
                assert(brain.queue.take(done + 1).last() == slot);
            }
        }
        proof {
            assert(brain.queue.take(brain.queue.len() as int) =~= brain.queue);
            assert(self@.queue =~= Seq::empty());
        }
        aborted
    }
}

/// The running timers of all slots, slot by slot.
pub open spec fn all_timers(queue: Seq<EntryView>) -> Seq<TellBackTimer>
    decreases queue.len(),
{
    if queue.len() == 0 {
        Seq::empty()
    } else {
        all_timers(queue.drop_last()) + queue.last().timers()
    }
}

} // verus!
