//! What the brain does with events, answers and silence.
use vstd::prelude::*;

use super::turns;
use super::zones;
use crate::clock::Instant;
use crate::diagnostic;
use crate::diagnostic::{DiagnosticLevel, DiagnosticView};
use crate::digital_twin::vocabulary::{
    DigitalTwinCarVocabulary, ZoneReply, ZoneReplyView, ZoneSpontaneousEvent,
};
use crate::fsm::machineries::{DomainActionView, FsmEvent, FsmState};
use crate::twin_runtime::controller::actuation_contract::{CommandView, CorrelationView};
use crate::twin_runtime::controller::actuation_manager;
use crate::twin_runtime::controller::actuation_manager::ManagerView;
use crate::twin_runtime::controller::brain_laws;
use crate::twin_runtime::controller::brain_model;
use crate::twin_runtime::controller::brain_model::{BrainStep, BrainView, EffectView};
use crate::twin_runtime::controller::virtual_car_actor;
use crate::twin_runtime::controller::virtual_car_actor::{
    VehicleControllerRuntimeOptions, VirtualCarActorArgs,
};
use crate::twin_runtime::turn_barrier::{BarrierView, EntryView};
use crate::twin_runtime::twin_turn;
use crate::twin_runtime::twin_turn::HopView;
use crate::twin_runtime::zone_tell_back::{TellBackTimer, TellBackWait};
use crate::vehicle_state::front_headlamp::{
    FrontHeadlampSwitchDirection, HeadlampMessage, HeadlampReplyView, HeadlampState,
};
use crate::zones::ZoneId;

verus! {

/// A lamp request becomes a command in its direction, under the manager's source, session and next
/// number, which it uses up. No other action becomes a command, and none does without a source.
pub proof fn lamp_requests_become_commands(manager: ManagerView, action: DomainActionView)
    ensures
        ({
            let command = manager.command_for(action);
            let after = manager.after(action);
            let on = action is RequestFrontHeadlampOn;
            let off = action is RequestFrontHeadlampOff;
            &&& command is Some <==> manager.source_id is Some && (on || off)
            &&& command is None ==> after == manager
            &&& command is Some ==> {
                let numbers = CorrelationView {
                    source_id: manager.source_id->0,
                    session_id: manager.session_id,
                    sequence_no: manager.next_sequence_no,
                };
                &&& on ==> command->0 == CommandView::SwitchFrontHeadlampOn {
                    correlation_id: numbers,
                }
                &&& off ==> command->0 == CommandView::SwitchFrontHeadlampOff {
                    correlation_id: numbers,
                }
                &&& after.source_id == manager.source_id
                &&& after.session_id == manager.session_id
                &&& after.reports == manager.reports
                &&& manager.next_sequence_no < u64::MAX ==> after.next_sequence_no
                    == manager.next_sequence_no + 1
                &&& manager.next_sequence_no == u64::MAX ==> after.next_sequence_no == 0
            }
        }),
{
}

/// A switch is confirmed exactly where an ON request is followed by a burning lamp, or an OFF
/// request by a dark one.
pub proof fn settled_requests_are_confirmed(before: HeadlampState, after: HeadlampState)
    ensures
        ({
            let confirmed = brain_model::confirmed(before, after);
            &&& confirmed == Some(FrontHeadlampSwitchDirection::On) <==> before
                == HeadlampState::OnRequested && after == HeadlampState::On
            &&& confirmed == Some(FrontHeadlampSwitchDirection::Off) <==> before
                == HeadlampState::OffRequested && (after == HeadlampState::Off || after
                == HeadlampState::Ready)
        }),
{
}

/// The event is one that the headlamp is told of.
pub open spec fn concerns_the_lamp(event: FsmEvent, mode: FsmState) -> bool {
    &&& mode != FsmState::PreparingToStart && mode != FsmState::PreparingToStop
    &&& event is UpdateAmbientLux || event is FrontHeadlampOnAck || event is FrontHeadlampOffAck
        || event is FrontHeadlampActuationIncomplete
}

/// What the headlamp is told of an event.
pub open spec fn lamp_message(event: FsmEvent) -> HeadlampMessage {
    match event {
        FsmEvent::UpdateAmbientLux(lux) => HeadlampMessage::AmbientLux(lux),
        FsmEvent::FrontHeadlampActuationIncomplete { direction, cause } => {
            HeadlampMessage::ActuationIncomplete { direction, cause }
        },
        FsmEvent::FrontHeadlampOnAck => HeadlampMessage::AckOn,
        _ => HeadlampMessage::AckOff,
    }
}

/// Every event takes the slot behind those in flight, under the next number. One that concerns the
/// headlamp is told to it, with a timer on the answer, and waits; any other asks for nothing and is
/// ready at once.
pub proof fn events_take_the_next_slot(brain: BrainView, event: FsmEvent, now: Instant)
    ensures
        ({
            let step = brain.begun(event, now);
            let turn_id = brain.next_turn_id;
            let slot = step.brain.queue.last();
            &&& step.brain.queue.len() == brain.queue.len() + 1
            &&& step.brain.queue.drop_last() == brain.queue
            &&& slot.turn_id() == turn_id
            &&& slot.event() == event
            &&& slot.now() == now
            &&& slot.complete() <==> !concerns_the_lamp(event, brain.mode)
            &&& slot.replies() == Map::<ZoneId, ZoneReplyView>::empty()
            &&& turn_id < u64::MAX ==> step.brain.next_turn_id == turn_id + 1
            &&& step.brain.mode == brain.mode
            &&& step.brain.ctx == brain.ctx
            &&& step.brain.next_record_seq == brain.next_record_seq
            &&& step.brain.manager == brain.manager
            &&& !concerns_the_lamp(event, brain.mode) ==> step.effects.len() == 0
            &&& concerns_the_lamp(event, brain.mode) ==> step.effects == seq![
                EffectView::TellHeadlamp {
                    turn_id,
                    tell_attempt: 0,
                    message: lamp_message(event),
                    now,
                },
                EffectView::ArmTellBackTimer(
                    TellBackTimer { zone_id: ZoneId::Headlamp, turn_id, tell_attempt: 0 },
                ),
            ]
        }),
{
    zones::zones_are_told_what_concerns_them(event, brain.mode);
    let step = brain.begun(event, now);
    assert(step.brain.queue.drop_last() =~= brain.queue);
    if concerns_the_lamp(event, brain.mode) {
        let slot = step.brain.queue.last();
        assert(slot->Waiting_0.pending.contains(ZoneId::Headlamp));
    }
}

/// A turn is read off the brain's own cut, and the brain shows the cut in which it ends.
pub proof fn committing_shows_the_end_of_the_turn(
    brain: BrainView,
    event: FsmEvent,
    arrived: Instant,
    replies: Map<ZoneId, ZoneReplyView>,
    now: Instant,
)
    ensures
        ({
            let last = twin_turn::turn(
                brain.mode,
                brain.ctx,
                event,
                arrived,
                replies,
            ).last().result;
            let after = brain.commits(event, arrived, replies, now).brain;
            &&& after.mode == last.next_state
            &&& after.ctx == last.modified_ctx
            &&& after.name == brain.name
            &&& brain.queue.len() == 0 ==> after.drained(now) == BrainStep::rest(after)
        }),
{
    let hops = twin_turn::turn(brain.mode, brain.ctx, event, arrived, replies);
    brain_laws::committing_moves_to_the_last_cut(brain, hops, now);
    let after = brain.commits(event, arrived, replies, now).brain;
    if brain.queue.len() == 0 && after.queue.len() > 0 {
        assert(brain_laws::awaits_assembly(after.queue[0]));
    }
}

/// With nothing in flight, an event that does not concern the headlamp is committed at once: the
/// brain then shows the cut in which the event's turn ends. So no such event leaves it showing a
/// car that drives in the dark without a lit lamp.
pub proof fn other_events_are_committed_at_once(brain: BrainView, event: FsmEvent, now: Instant)
    requires
        brain.queue.len() == 0,
        !concerns_the_lamp(event, brain.mode),
    ensures
        ({
            let after = brain.handled(DigitalTwinCarVocabulary::Fsm(event), now).brain;
            let last = twin_turn::turn(
                brain.mode,
                brain.ctx,
                event,
                now,
                Map::empty(),
            ).last().result;
            &&& after.mode == last.next_state
            &&& after.ctx == last.modified_ctx
            &&& !(after.mode == FsmState::Driving && after.ctx.visibility.ambient_lux <= 840
                && after.ctx.headlamp.state != HeadlampState::On)
        }),
{
    events_take_the_next_slot(brain, event, now);
    let begun = brain.begun(event, now).brain;
    let slot = begun.queue.last();
    assert(begun.queue[0] == slot);
    let rest = begun.without_front();
    assert(rest.queue =~= Seq::empty());
    committing_shows_the_end_of_the_turn(rest, event, now, Map::empty(), now);
    brain_laws::commits_add_no_complete_slot(rest, slot, now);
    turns::no_turn_leaves_a_car_driving_in_the_dark(
        brain.mode,
        brain.ctx,
        event,
        now,
        Map::empty(),
    );
    assert(brain.received(DigitalTwinCarVocabulary::Fsm(event), now).brain == begun);
}

/// With nothing in flight, an event that concerns the headlamp leaves the cut as it is until the
/// headlamp answers; its answer to the attempt that counts commits the turn, read off the cut that
/// the event met, with the event's own time and the answer given.
pub proof fn lamp_events_wait_for_the_answer(
    brain: BrainView,
    event: FsmEvent,
    reply: ZoneReply,
    now: Instant,
    later: Instant,
)
    requires
        brain.queue.len() == 0,
        concerns_the_lamp(event, brain.mode),
    ensures
        ({
            let told = brain.handled(DigitalTwinCarVocabulary::Fsm(event), now).brain;
            let answer = DigitalTwinCarVocabulary::ZoneReady {
                zone_id: ZoneId::Headlamp,
                turn_id: brain.next_turn_id,
                tell_attempt: 0,
                reply,
            };
            let done = told.handled(answer, later).brain;
            let last = twin_turn::turn(
                brain.mode,
                brain.ctx,
                event,
                now,
                Map::empty().insert(ZoneId::Headlamp, reply@),
            ).last().result;
            &&& told.mode == brain.mode
            &&& told.ctx == brain.ctx
            &&& done.mode == last.next_state
            &&& done.ctx == last.modified_ctx
        }),
{
    let told = told_of(brain, event, now);
    let turn_id = brain.next_turn_id;
    let barrier = first_wait(turn_id, event, now);
    let answered = barrier.answered(ZoneId::Headlamp, reply@);
    assert(brain_model::position(told.queue, turn_id) == 0);
    assert(answered.pending =~= Set::<ZoneId>::empty());
    let ready = told.zone_answered(ZoneId::Headlamp, turn_id, 0, reply@).brain;
    assert(ready.queue =~= seq![EntryView::Waiting(answered)]);
    finishing(ready, answered, later);
}

/// The barrier of an event that the headlamp has been told of once.
pub open spec fn first_wait(turn_id: u64, event: FsmEvent, now: Instant) -> BarrierView {
    BarrierView {
        turn_id,
        event,
        now,
        pending: Set::empty().insert(ZoneId::Headlamp),
        waits: Map::empty().insert(
            ZoneId::Headlamp,
            TellBackWait { turn_id, tell_attempt: 0, retries_remaining: 2 },
        ),
        timers: Map::empty().insert(
            ZoneId::Headlamp,
            TellBackTimer { zone_id: ZoneId::Headlamp, turn_id, tell_attempt: 0 },
        ),
        replies: Map::empty(),
        messages: Map::empty().insert(ZoneId::Headlamp, lamp_message(event)),
    }
}

proof fn told_of(brain: BrainView, event: FsmEvent, now: Instant) -> (told: BrainView)
    requires
        brain.queue.len() == 0,
        concerns_the_lamp(event, brain.mode),
    ensures
        told == brain.handled(DigitalTwinCarVocabulary::Fsm(event), now).brain,
        told == (BrainView {
            queue: seq![EntryView::Waiting(first_wait(brain.next_turn_id, event, now))],
            next_turn_id: told.next_turn_id,
            ..brain
        }),
{
    events_take_the_next_slot(brain, event, now);
    zones::zones_are_told_what_concerns_them(event, brain.mode);
    let begun = brain.begun(event, now).brain;
    let barrier = first_wait(brain.next_turn_id, event, now);
    let slot = begun.queue.last();
    assert(slot->Waiting_0 =~= barrier);
    assert(begun.queue =~= seq![EntryView::Waiting(barrier)]);
    assert(begun.queue[0] == slot);
    assert(begun.drained(now) == BrainStep::rest(begun));
    assert(brain.received(DigitalTwinCarVocabulary::Fsm(event), now).brain == begun);
    begun
}

proof fn finishing(ready: BrainView, barrier: BarrierView, now: Instant)
    requires
        ready.queue == seq![EntryView::Waiting(barrier)],
        barrier.pending == Set::<ZoneId>::empty(),
    ensures
        ({
            let after = ready.drained(now).brain;
            let last = twin_turn::turn(
                ready.mode,
                ready.ctx,
                barrier.event,
                barrier.now,
                barrier.replies,
            ).last().result;
            &&& after.mode == last.next_state
            &&& after.ctx == last.modified_ctx
        }),
{
    let slot = EntryView::Waiting(barrier);
    assert(ready.queue[0] == slot);
    let rest = ready.without_front();
    assert(rest.queue =~= Seq::empty());
    brain_laws::commits_add_no_complete_slot(rest, slot, now);
    committing_shows_the_end_of_the_turn(rest, barrier.event, barrier.now, barrier.replies, now);
}

/// The timeout of an attempt.
pub open spec fn silence(turn_id: u64, tell_attempt: u32) -> DigitalTwinCarVocabulary {
    DigitalTwinCarVocabulary::ZoneTellBackTimeout {
        zone_id: ZoneId::Headlamp,
        turn_id,
        tell_attempt,
    }
}

/// What is asked for when the headlamp is told again.
pub open spec fn told_again(
    turn_id: u64,
    tell_attempt: u32,
    event: FsmEvent,
    now: Instant,
) -> Seq<EffectView> {
    seq![
        EffectView::TellHeadlamp { turn_id, tell_attempt, message: lamp_message(event), now },
        EffectView::ArmTellBackTimer(
            TellBackTimer { zone_id: ZoneId::Headlamp, turn_id, tell_attempt },
        ),
    ]
}

/// A silent headlamp is told three times in all, each time the same with a timer of its own, and
/// meanwhile the cut stays as it is. After the third silence the turn is committed with the lamp
/// taken to be as it was.
pub proof fn a_silent_headlamp_is_told_three_times(
    brain: BrainView,
    event: FsmEvent,
    now: Instant,
    later: Instant,
)
    requires
        brain.queue.len() == 0,
        concerns_the_lamp(event, brain.mode),
    ensures
        ({
            let turn_id = brain.next_turn_id;
            let told = brain.handled(DigitalTwinCarVocabulary::Fsm(event), now);
            let second = told.brain.handled(silence(turn_id, 0), later);
            let third = second.brain.handled(silence(turn_id, 1), later);
            let done = third.brain.handled(silence(turn_id, 2), later).brain;
            let unchanged = ZoneReplyView::Headlamp(
                HeadlampReplyView { ctx: brain.ctx.headlamp, outcomes: Seq::empty() },
            );
            let last = twin_turn::turn(
                brain.mode,
                brain.ctx,
                event,
                now,
                Map::empty().insert(ZoneId::Headlamp, unchanged),
            ).last().result;
            &&& second.effects == told_again(turn_id, 1, event, now)
            &&& third.effects == told_again(turn_id, 2, event, now)
            &&& third.brain.mode == brain.mode
            &&& third.brain.ctx == brain.ctx
            &&& done.mode == last.next_state
            &&& done.ctx == last.modified_ctx
        }),
{
    let turn_id = brain.next_turn_id;
    let told = told_of(brain, event, now);
    let first = first_wait(turn_id, event, now);
    let second = told_once_more(told, first, event, 0, 2, later);
    let again = told.handled(silence(turn_id, 0), later).brain;
    let third = told_once_more(again, second, event, 1, 1, later);
    let waiting = again.handled(silence(turn_id, 1), later).brain;
    let unchanged = ZoneReplyView::Headlamp(
        HeadlampReplyView { ctx: brain.ctx.headlamp, outcomes: Seq::empty() },
    );
    assert(brain_model::position(waiting.queue, turn_id) == 0);
    assert(waiting.queue[0] == EntryView::Waiting(third));
    let given_up = third.timed_out(ZoneId::Headlamp, 2).answered(ZoneId::Headlamp, unchanged);
    assert(given_up.pending =~= Set::<ZoneId>::empty());
    assert(given_up.replies =~= Map::empty().insert(ZoneId::Headlamp, unchanged));
    let ready = waiting.zone_timed_out(ZoneId::Headlamp, turn_id, 2).brain;
    assert(ready.queue =~= seq![EntryView::Waiting(given_up)]);
    finishing(ready, given_up, later);
}

proof fn told_once_more(
    brain: BrainView,
    barrier: BarrierView,
    event: FsmEvent,
    attempt: u32,
    retries: u32,
    later: Instant,
) -> (after: BarrierView)
    requires
        brain.queue == seq![EntryView::Waiting(barrier)],
        barrier.pending == Set::<ZoneId>::empty().insert(ZoneId::Headlamp),
        barrier.messages.dom().contains(ZoneId::Headlamp),
        barrier.messages[ZoneId::Headlamp] == lamp_message(event),
        barrier.waits.dom().contains(ZoneId::Headlamp),
        barrier.waits[ZoneId::Headlamp].tell_attempt == attempt,
        barrier.waits[ZoneId::Headlamp].retries_remaining == retries,
        0 < retries,
        attempt < 2,
    ensures
        ({
            let step = brain.handled(silence(barrier.turn_id, attempt), later);
            &&& step.brain == (BrainView { queue: seq![EntryView::Waiting(after)], ..brain })
            &&& step.effects == told_again(
                barrier.turn_id,
                (attempt + 1) as u32,
                event,
                barrier.now,
            )
            &&& after.turn_id == barrier.turn_id
            &&& after.event == barrier.event
            &&& after.now == barrier.now
            &&& after.pending == barrier.pending
            &&& after.messages == barrier.messages
            &&& after.replies == barrier.replies
            &&& after.waits.dom().contains(ZoneId::Headlamp)
            &&& after.waits[ZoneId::Headlamp].tell_attempt == attempt + 1
            &&& after.waits[ZoneId::Headlamp].retries_remaining == retries - 1
        }),
{
    assert(brain.queue[0] == EntryView::Waiting(barrier));
    assert(brain_model::position(brain.queue, barrier.turn_id) == 0);
    let step = brain.zone_timed_out(ZoneId::Headlamp, barrier.turn_id, attempt);
    let after = step.brain.queue[0]->Waiting_0;
    assert(step.brain.queue =~= seq![EntryView::Waiting(after)]);
    assert(after.pending.contains(ZoneId::Headlamp));
    assert(step.brain.drained(later) == BrainStep::rest(step.brain));
    let whole = brain.handled(silence(barrier.turn_id, attempt), later);
    assert(whole.effects =~= step.effects);
    assert(whole.brain =~= (BrainView { queue: seq![EntryView::Waiting(after)], ..brain }));
    after
}

/// A first tell counts as attempt zero and may be repeated twice.
pub proof fn a_wait_begins_with_two_retries(turn_id: u64)
    ensures
        TellBackWait::first(turn_id) == (TellBackWait {
            turn_id,
            tell_attempt: 0,
            retries_remaining: 2,
        }),
{
}

/// An answer to the attempt that counts is taken over by the slot of its turn and by no other: the
/// zone owes nothing any more, its running timer is stopped, and everything else of the slot and of
/// the brain stays. Any other answer changes nothing.
pub proof fn answers_go_to_their_slot(
    brain: BrainView,
    i: int,
    zone: ZoneId,
    attempt: u32,
    reply: ZoneReplyView,
)
    requires
        0 <= i < brain.queue.len(),
        brain.queue[i] is Waiting,
        forall|k: int| 0 <= k < i ==> (#[trigger] brain.queue[k]).turn_id()
            != brain.queue[i].turn_id(),
    ensures
        ({
            let before = brain.queue[i]->Waiting_0;
            let step = brain.zone_answered(zone, before.turn_id, attempt, reply);
            let counts = before.waits.dom().contains(zone) && before.waits[zone].tell_attempt
                == attempt;
            &&& !counts ==> step.brain == brain && step.effects.len() == 0
            &&& counts ==> {
                let after = step.brain.queue[i];
                &&& step.brain == (BrainView { queue: brain.queue.update(i, after), ..brain })
                &&& after is Waiting
                &&& after->Waiting_0.pending == before.pending.remove(zone)
                &&& after->Waiting_0.replies == before.replies.insert(zone, reply)
                &&& after->Waiting_0.timers == before.timers.remove(zone)
                &&& after->Waiting_0.waits == before.waits
                &&& after->Waiting_0.messages == before.messages
                &&& after.turn_id() == before.turn_id
                &&& after.event() == before.event
                &&& after.now() == before.now
                &&& before.timers.dom().contains(zone) ==> step.effects == seq![
                    EffectView::AbortTellBackTimer(before.timers[zone]),
                ]
                &&& !before.timers.dom().contains(zone) ==> step.effects.len() == 0
            }
        }),
{
    the_first_of_its_number(brain.queue, i);
}

proof fn the_first_of_its_number(queue: Seq<EntryView>, i: int)
    requires
        0 <= i < queue.len(),
        forall|k: int| 0 <= k < i ==> (#[trigger] queue[k]).turn_id() != queue[i].turn_id(),
    ensures
        brain_model::position(queue, queue[i].turn_id()) == i,
    decreases i,
{
    if i > 0 {
        let rest = queue.skip(1);
        assert(queue[0].turn_id() != queue[i].turn_id());
        assert(rest[i - 1] == queue[i]);
        assert forall|k: int| 0 <= k < i - 1 implies (#[trigger] rest[k]).turn_id()
            != rest[i - 1].turn_id() by {
            assert(rest[k] == queue[k + 1]);
        }
        the_first_of_its_number(rest, i - 1);
    }
}

/// Starting and stopping the assemblies tells the headlamp so under the next turn number, with a
/// timer on the answer, and takes the slot behind those in flight. A warning is shown, a hint is
/// passed over, and a lamp request becomes its command; the buzzer and the state are for others to
/// carry out.
pub proof fn actions_are_carried_out(brain: BrainView, action: DomainActionView, now: Instant)
    ensures
        ({
            let step = brain.acts(action, now);
            let orders = action is StartAssemblies || action is StopAssemblies;
            let turn_id = brain.next_turn_id;
            &&& orders ==> {
                &&& step.effects == seq![
                    EffectView::TellHeadlamp {
                        turn_id,
                        tell_attempt: 0,
                        message: if action is StartAssemblies {
                            HeadlampMessage::BecomeOn
                        } else {
                            HeadlampMessage::BecomeOff
                        },
                        now,
                    },
                    EffectView::ArmTellBackTimer(
                        TellBackTimer { zone_id: ZoneId::Headlamp, turn_id, tell_attempt: 0 },
                    ),
                ]
                &&& step.brain.queue.drop_last() == brain.queue
                &&& step.brain.queue.last().event() == FsmEvent::AssemblyZoneReady(
                    ZoneId::Headlamp,
                )
                &&& step.brain.queue.last().turn_id() == turn_id
                &&& !step.brain.queue.last().complete()
            }
            &&& !orders ==> step.brain.queue == brain.queue && step.brain.next_turn_id
                == brain.next_turn_id
            &&& action is EnterMode ==> step.effects.len() == 0
            &&& action matches DomainActionView::LogWarning(warning) ==> {
                &&& step.effects.len() == 1
                &&& step.effects[0] is Diagnose
                &&& step.effects[0]->Diagnose_0.level == DiagnosticLevel::Warning
                &&& step.effects[0]->Diagnose_0.message == "["@ + brain.name + "]: "@ + warning
            }
            &&& action is RequestFrontHeadlampOn || action is RequestFrontHeadlampOff ==> {
                &&& step.effects.len() == 1 <==> brain.manager.source_id is Some
                &&& step.effects.len() <= 1
                &&& step.effects.len() == 1 ==> step.effects[0] is Command && (
                step.effects[0]->Command_0 is SwitchFrontHeadlampOn
                    <==> action is RequestFrontHeadlampOn)
            }
            &&& action is StartBuzzer || action is StopBuzzer || action is PublishStateSync
                ==> step.effects.len() == 0 && step.brain == brain
            &&& step.brain.mode == brain.mode
            &&& step.brain.ctx == brain.ctx
            &&& step.brain.next_record_seq == brain.next_record_seq
        }),
{
    let step = brain.acts(action, now);
    if action is StartAssemblies || action is StopAssemblies {
        assert(step.brain.queue.drop_last() =~= brain.queue);
        assert(step.brain.queue.last()->Waiting_0.pending.contains(ZoneId::Headlamp));
    } else {
        assert(step.brain.queue =~= brain.queue);
    }
}

/// A new mode is announced once, an unchanged one is not; a positive settlement of a request is
/// reported once, and nothing else of the lamp is.
pub proof fn changes_are_announced(
    brain: BrainView,
    mode_before: FsmState,
    lamp_before: HeadlampState,
    lamp_after: HeadlampState,
)
    ensures
        brain.announces(mode_before).brain == brain,
        brain.announces(mode_before).effects == if brain.mode == mode_before {
            Seq::empty()
        } else {
            seq![
                EffectView::Diagnose(
                    DiagnosticView {
                        level: DiagnosticLevel::Info,
                        source: "VirtualCarActor"@,
                        message: "["@ + brain.name + "]: "@ + diagnostic::transition_text(
                            brain.mode,
                            brain.ctx,
                        ),
                    },
                ),
            ]
        },
        brain.confirms(lamp_before, lamp_after).brain == brain,
        brain.confirms(lamp_before, lamp_after).effects.len() == if (lamp_before
            == HeadlampState::OnRequested && lamp_after == HeadlampState::On) || (lamp_before
            == HeadlampState::OffRequested && (lamp_after == HeadlampState::Off || lamp_after
            == HeadlampState::Ready)) {
            1nat
        } else {
            0
        },
{
}

/// A heartbeat is reported exactly where that was asked for, and no other event is.
pub proof fn heartbeats_are_reported_on_demand(brain: BrainView, event: FsmEvent)
    ensures
        brain.heard(event).brain == brain,
        brain.heard(event).effects.len() == if event is TimerTick && brain.log_timer_tick {
            1nat
        } else {
            0
        },
{
}

/// A snapshot accounts for one row less than the number of the next one, and for none before the
/// first.
pub proof fn snapshots_account_for_the_rows_so_far(brain: BrainView)
    ensures
        brain.next_record_seq >= 1 ==> brain.as_of_seq() == brain.next_record_seq - 1,
        brain.next_record_seq == 0 ==> brain.as_of_seq() == 0,
{
}

/// Stopping the brain gives back every timer that is still running, and nothing else.
pub proof fn stopping_gives_back_the_running_timers(queue: Seq<EntryView>, timer: TellBackTimer)
    ensures
        virtual_car_actor::all_timers(queue).contains(timer) <==> exists|i: int, zone: ZoneId|
            0 <= i < queue.len() && (#[trigger] queue[i]) is Waiting
                && queue[i]->Waiting_0.timers.dom().contains(zone)
                && #[trigger] queue[i]->Waiting_0.timers[zone] == timer,
    decreases queue.len(),
{
    let all = virtual_car_actor::all_timers(queue);
    if queue.len() > 0 {
        let before = queue.drop_last();
        let own = queue.last().timers();
        let earlier = virtual_car_actor::all_timers(before);
        stopping_gives_back_the_running_timers(before, timer);
        assert(all == earlier + own);
        if all.contains(timer) {
            let k = choose|k: int| 0 <= k < all.len() && all[k] == timer;
            if k < earlier.len() {
                assert(earlier[k] == timer);
                let (i, zone) = choose|i: int, zone: ZoneId|
                    0 <= i < before.len() && (#[trigger] before[i]) is Waiting
                        && before[i]->Waiting_0.timers.dom().contains(zone)
                        && #[trigger] before[i]->Waiting_0.timers[zone] == timer;
                assert(queue[i] == before[i]);
                assert(queue[i]->Waiting_0.timers[zone] == timer);
            } else {
                assert(own[k - earlier.len()] == timer);
                let slot = queue[queue.len() - 1];
                assert(slot is Waiting);
                let zone = if slot->Waiting_0.timers.dom().contains(ZoneId::Headlamp)
                    && slot->Waiting_0.timers[ZoneId::Headlamp] == timer {
                    ZoneId::Headlamp
                } else {
                    ZoneId::Wiper
                };
                assert(slot->Waiting_0.timers[zone] == timer);
            }
        }
        if exists|i: int, zone: ZoneId|
            0 <= i < queue.len() && (#[trigger] queue[i]) is Waiting
                && queue[i]->Waiting_0.timers.dom().contains(zone)
                && #[trigger] queue[i]->Waiting_0.timers[zone] == timer {
            let (i, zone) = choose|i: int, zone: ZoneId|
                0 <= i < queue.len() && (#[trigger] queue[i]) is Waiting
                    && queue[i]->Waiting_0.timers.dom().contains(zone)
                    && #[trigger] queue[i]->Waiting_0.timers[zone] == timer;
            if i < before.len() {
                assert(before[i] == queue[i]);
                assert(before[i]->Waiting_0.timers[zone] == timer);
                let k = choose|k: int| 0 <= k < earlier.len() && earlier[k] == timer;
                assert(all[k] == timer);
            } else {
                let timers = queue[i]->Waiting_0.timers;
                let k: int = if zone == ZoneId::Headlamp || !timers.dom().contains(
                    ZoneId::Headlamp,
                ) {
                    0
                } else {
                    1
                };
                assert(own[k] == timer);
                assert(all[earlier.len() + k] == timer);
            }
        }
    }
}

/// Unless told otherwise, the brain reports no heartbeats, commands no actuators and starts with
/// the headlamp's own default.
pub proof fn plain_options_ask_for_nothing()
    ensures
        ({
            let plain = VehicleControllerRuntimeOptions::plain();
            &&& !plain.log_timer_tick
            &&& !plain.commands_actuators
            &&& plain.initial_headlamp_ctx is None
        }),
{
}

/// A commit asks for things in this order: the rows of the hops, what the actions of all hops ask
/// for in the cut in which the turn ended, the announcement of that cut where the mode is not the
/// one before the turn, and the confirmation of a request that the turn settled.
pub proof fn a_commit_asks_in_order(brain: BrainView, hops: Seq<HopView>, now: Instant)
    requires
        hops.len() > 0,
    ensures
        ({
            let all = brain.applied(hops, now);
            let last = hops.last().result;
            let published = brain.publishes_all(hops);
            let moved = BrainView {
                mode: last.next_state,
                ctx: last.modified_ctx,
                ..published.brain
            };
            let acted = moved.acts_all(twin_turn::merged(hops), now);
            let before = (published.effects + acted.effects).len() as int;
            let changed = last.next_state != brain.mode;
            let on = brain.ctx.headlamp.state == HeadlampState::OnRequested
                && last.modified_ctx.headlamp.state == HeadlampState::On;
            let off = brain.ctx.headlamp.state == HeadlampState::OffRequested && (
            last.modified_ctx.headlamp.state == HeadlampState::Off
                || last.modified_ctx.headlamp.state == HeadlampState::Ready);
            &&& all.brain == acted.brain
            &&& all.effects.take(before) == published.effects + acted.effects
            &&& all.effects.len() == before + (if changed {
                1int
            } else {
                0
            }) + (if on || off {
                1int
            } else {
                0
            })
            &&& changed ==> all.effects[before] == EffectView::Diagnose(
                DiagnosticView {
                    level: DiagnosticLevel::Info,
                    source: "VirtualCarActor"@,
                    message: "["@ + brain.name + "]: "@ + diagnostic::transition_text(
                        last.next_state,
                        last.modified_ctx,
                    ),
                },
            )
            &&& on || off ==> all.effects.last() == EffectView::Diagnose(
                DiagnosticView {
                    level: DiagnosticLevel::Info,
                    source: "VirtualCarActor"@,
                    message: "["@ + brain.name + "]: "@ + diagnostic::confirmation_text(
                        if on {
                            FrontHeadlampSwitchDirection::On
                        } else {
                            FrontHeadlampSwitchDirection::Off
                        },
                    ),
                },
            )
        }),
{
    reveal(BrainView::applied);
    let last = hops.last().result;
    let published = brain.publishes_all(hops);
    brain_laws::publishing_counts_rows(brain, hops);
    let moved = published.brain.at_cut(last.next_state, last.modified_ctx);
    brain_laws::acting_all_keeps_the_cut(moved, twin_turn::merged(hops), now);
    let acted = moved.acts_all(twin_turn::merged(hops), now);
    let before = published.effects + acted.effects;
    assert(brain.applied(hops, now).effects.take(before.len() as int) =~= before);
}

/// A run of actions is carried out one after the other, in its order.
pub proof fn actions_are_carried_out_in_order(
    brain: BrainView,
    actions: Seq<DomainActionView>,
    next: DomainActionView,
    now: Instant,
)
    ensures
        brain.acts_all(Seq::empty(), now) == BrainStep::rest(brain),
        ({
            let before = brain.acts_all(actions, now);
            let one = before.brain.acts(next, now);
            let all = brain.acts_all(actions.push(next), now);
            &&& all.brain == one.brain
            &&& all.effects == before.effects + one.effects
        }),
{
    assert(actions.push(next).drop_last() =~= actions);
}

/// What the headlamp reports of its own accord is committed at once, past the turns in flight: as
/// a failure of the direction and cause that it reports, with the answer that it gives.
pub proof fn reports_of_the_lamp_are_committed_at_once(
    brain: BrainView,
    zone_id: ZoneId,
    event: ZoneSpontaneousEvent,
    now: Instant,
)
    ensures
        ({
            let message = DigitalTwinCarVocabulary::ZoneSpontaneous { zone_id, event };
            let after = brain.received(message, now).brain;
            match event {
                ZoneSpontaneousEvent::Headlamp { direction, cause, reply } => {
                    let last = twin_turn::turn(
                        brain.mode,
                        brain.ctx,
                        FsmEvent::FrontHeadlampActuationIncomplete { direction, cause },
                        now,
                        Map::empty().insert(ZoneId::Headlamp, ZoneReplyView::Headlamp(reply@)),
                    ).last().result;
                    &&& after.mode == last.next_state
                    &&& after.ctx == last.modified_ctx
                    &&& after.queue.take(brain.queue.len() as int) == brain.queue
                },
            }
        }),
{
    match event {
        ZoneSpontaneousEvent::Headlamp { direction, cause, reply } => {
            let told = FsmEvent::FrontHeadlampActuationIncomplete { direction, cause };
            let replies = Map::<ZoneId, ZoneReplyView>::empty().insert(
                ZoneId::Headlamp,
                ZoneReplyView::Headlamp(reply@),
            );
            committing_shows_the_end_of_the_turn(brain, told, now, replies, now);
            brain_laws::committing_moves_to_the_last_cut(
                brain,
                twin_turn::turn(brain.mode, brain.ctx, told, now, replies),
                now,
            );
        },
    }
}

/// A timeout for a turn that is not in flight, for an attempt that no longer counts, or for a zone
/// that owes nothing changes nothing and asks for nothing; neither does an answer for a turn that
/// is not in flight.
pub proof fn stale_timeouts_change_nothing(
    brain: BrainView,
    zone: ZoneId,
    turn_id: u64,
    attempt: u32,
    reply: ZoneReplyView,
)
    ensures
        ({
            let gone = forall|i: int|
                0 <= i < brain.queue.len() ==> (#[trigger] brain.queue[i]).turn_id() != turn_id;
            let settled = forall|i: int|
                0 <= i < brain.queue.len() && (#[trigger] brain.queue[i]).turn_id() == turn_id && (
                brain.queue[i] is Waiting) ==> !(brain.queue[i]->Waiting_0.pending.contains(zone))
                    || brain.queue[i]->Waiting_0.waits[zone].tell_attempt != attempt;
            &&& gone || settled ==> brain.zone_timed_out(zone, turn_id, attempt)
                == BrainStep::rest(brain)
            &&& gone ==> brain.zone_answered(zone, turn_id, attempt, reply) == BrainStep::rest(
                brain,
            )
        }),
{
    found_under_its_number(brain.queue, turn_id);
}

proof fn found_under_its_number(queue: Seq<EntryView>, turn_id: u64)
    ensures
        0 <= brain_model::position(queue, turn_id) <= queue.len(),
        brain_model::position(queue, turn_id) < queue.len() ==> queue[brain_model::position(
            queue,
            turn_id,
        )].turn_id() == turn_id,
    decreases queue.len(),
{
    if queue.len() > 0 && queue[0].turn_id() != turn_id {
        found_under_its_number(queue.skip(1), turn_id);
    }
}

/// The manager reports every action but hints and orders to assemblies: warnings as such, the state
/// as information, and anything else as an action.
pub proof fn the_manager_reports_what_it_does(
    action: DomainActionView,
    mode: FsmState,
    stamp: Seq<char>,
)
    ensures
        ({
            let report = actuation_manager::report_of(action, mode, stamp);
            &&& report is None <==> action is EnterMode || action is StartAssemblies
                || action is StopAssemblies
            &&& report is Some ==> {
                &&& report->0.source == "DefaultActuationManager"@
                &&& report->0.level == DiagnosticLevel::Warning <==> action is LogWarning
                &&& report->0.level == DiagnosticLevel::Info <==> action is PublishStateSync
                &&& report->0.level == DiagnosticLevel::Action <==> !(action is LogWarning) && !(
                action is PublishStateSync)
            }
            &&& action matches DomainActionView::LogWarning(warning) ==> report->0.message
                == "[ALERT @ "@ + stamp + "]: "@ + warning
            &&& action is StartBuzzer ==> report->0.message == "[ACTION @ "@ + stamp + "]: "@
                + "🔊 BUZZER ON - High Stress Detected!"@
            &&& action is StopBuzzer ==> report->0.message == "[ACTION @ "@ + stamp + "]: "@
                + "🔇 BUZZER OFF - System Normal."@
            &&& action is PublishStateSync ==> report->0.message == "[ACTION @ "@ + stamp + "]: "@
                + ("📡 Publishing to Cloud: "@ + mode.public_state().label())
            &&& action is RequestFrontHeadlampOn ==> report->0.message == "[ACTION @ "@ + stamp
                + "]: "@ + ("📤🔆"@ + " "@ + "Requesting front headlamp ON."@)
            &&& action is RequestFrontHeadlampOff ==> report->0.message == "[ACTION @ "@ + stamp
                + "]: "@ + ("📤🌑"@ + " "@ + "Requesting front headlamp OFF."@)
        }),
{
}

/// An event is put into the mailbox as it is, and a name alone starts a brain with plain options.
pub proof fn conversions_keep_their_content(event: FsmEvent, identity: String)
    ensures
        <DigitalTwinCarVocabulary as vstd::std_specs::convert::FromSpec<FsmEvent>>::from_spec(event)
            == DigitalTwinCarVocabulary::Fsm(event),
        ({
            let args =
                <VirtualCarActorArgs as vstd::std_specs::convert::FromSpec<String>>::from_spec(
                identity,
            );
            &&& args.identity == identity
            &&& !args.runtime_options.log_timer_tick
            &&& !args.runtime_options.commands_actuators
            &&& args.runtime_options.initial_headlamp_ctx is None
        }),
{
}

/// Events are committed in the order of their arrival: one that comes in while an earlier one
/// waits for the headlamp changes nothing until the headlamp has answered, and is then read off the
/// cut in which the earlier one ended.
pub proof fn later_events_wait_for_earlier_ones(
    brain: BrainView,
    event: FsmEvent,
    next: FsmEvent,
    reply: ZoneReply,
    first: Instant,
    second: Instant,
    third: Instant,
)
    requires
        brain.queue.len() == 0,
        concerns_the_lamp(event, brain.mode),
        !concerns_the_lamp(next, brain.mode),
    ensures
        ({
            let told = brain.handled(DigitalTwinCarVocabulary::Fsm(event), first).brain;
            let behind = told.handled(DigitalTwinCarVocabulary::Fsm(next), second).brain;
            let answer = DigitalTwinCarVocabulary::ZoneReady {
                zone_id: ZoneId::Headlamp,
                turn_id: brain.next_turn_id,
                tell_attempt: 0,
                reply,
            };
            let done = behind.handled(answer, third).brain;
            let earlier = twin_turn::turn(
                brain.mode,
                brain.ctx,
                event,
                first,
                Map::empty().insert(ZoneId::Headlamp, reply@),
            ).last().result;
            let later = twin_turn::turn(
                earlier.next_state,
                earlier.modified_ctx,
                next,
                second,
                Map::empty(),
            ).last().result;
            &&& behind.mode == brain.mode
            &&& behind.ctx == brain.ctx
            &&& done.mode == later.next_state
            &&& done.ctx == later.modified_ctx
        }),
{
    let turn_id = brain.next_turn_id;
    let told = told_of(brain, event, first);
    let barrier = first_wait(turn_id, event, first);
    let front = EntryView::Waiting(barrier);
    assert(told.queue[0] == front);
    assert(barrier.pending.contains(ZoneId::Headlamp));
    events_take_the_next_slot(told, next, second);
    let behind = told.begun(next, second).brain;
    let slot = behind.queue.last();
    assert(behind.queue =~= seq![front, slot]);
    assert(behind.drained(second) == BrainStep::rest(behind));
    assert(told.handled(DigitalTwinCarVocabulary::Fsm(next), second).brain == behind);
    assert(brain_model::position(behind.queue, turn_id) == 0);
    let answered = EntryView::Waiting(barrier.answered(ZoneId::Headlamp, reply@));
    assert(answered->Waiting_0.pending =~= Set::<ZoneId>::empty());
    let ready = behind.zone_answered(ZoneId::Headlamp, turn_id, 0, reply@).brain;
    assert(ready.queue =~= seq![answered, slot]);
    let rest = ready.without_front();
    assert(rest.queue =~= seq![slot]);
    committing_shows_the_end_of_the_turn(rest, event, first, answered.replies(), third);
    brain_laws::commits_add_no_complete_slot(rest, answered, third);
    let hops = twin_turn::turn(rest.mode, rest.ctx, event, first, answered.replies());
    brain_laws::committing_moves_to_the_last_cut(rest, hops, third);
    let between = rest.commits_slot(answered, third).brain;
    assert(between.queue.take(1)[0] == slot);
    assert(between.queue[0] == slot);
    let left = between.without_front();
    committing_shows_the_end_of_the_turn(left, next, second, Map::empty(), third);
    brain_laws::commits_add_no_complete_slot(left, slot, third);
    let more = twin_turn::turn(left.mode, left.ctx, next, second, Map::empty());
    brain_laws::committing_moves_to_the_last_cut(left, more, third);
    let after = left.commits_slot(slot, third).brain;
    if after.queue.len() > 0 {
        if left.queue.len() > 0 {
            assert(after.queue.take(left.queue.len() as int)[0] == left.queue[0]);
            assert(left.queue[0] == between.queue[1]);
            assert(brain_laws::awaits_assembly(between.queue[1]));
        } else {
            assert(brain_laws::awaits_assembly(after.queue[0]));
        }
    }
    assert(after.drained(third) == BrainStep::rest(after));
}

} // verus!
