//! Journeys of the brain: how it gets on and off the road, and what it keeps on the way.
use vstd::prelude::*;

use super::brain_laws;
use super::brain_model;
use super::brain_model::{BrainStep, BrainView, EffectView};
use crate::clock::Instant;
use crate::digital_twin::state_laws;
use crate::digital_twin::vocabulary::{
    DigitalTwinCarVocabulary, ZoneReply, ZoneReplyView, ZoneSpontaneousEvent,
};
use crate::fsm::machineries::{ActorModeHintFromDomain, DomainActionView, FsmEvent, FsmState};
use crate::fsm::step;
use crate::fsm::transition_map;
use crate::twin_runtime::outcome_map;
use crate::twin_runtime::turn_barrier::{BarrierView, EntryView};
use crate::twin_runtime::twin_turn;
use crate::twin_runtime::twin_turn::HopView;
use crate::twin_runtime::zone_replies;
use crate::twin_runtime::zone_tell_back::{TellBackTimer, TellBackWait};
use crate::twin_runtime::zone_turn;
use crate::twin_runtime::zone_turn::ZoneOutcomeView;
use crate::vehicle_state::front_headlamp::{HeadlampContext, HeadlampMessage, HeadlampState};
use crate::zones::ZoneId;

verus! {

/// The brain shows a lawful cut whose engine reading fits its mode, and no turn in flight reads
/// the car to crawl.
pub open spec fn lawful(brain: BrainView) -> bool {
    &&& state_laws::lawful(brain.mode, brain.ctx)
    &&& twin_turn::reading_fits(brain.mode, brain.ctx)
    &&& forall|i: int|
        0 <= i < brain.queue.len() ==> !twin_turn::crawls((#[trigger] brain.queue[i]).event())
}

proof fn committing_keeps_laws(
    brain: BrainView,
    event: FsmEvent,
    arrived: Instant,
    replies: Map<ZoneId, ZoneReplyView>,
    now: Instant,
)
    requires
        lawful(brain),
        !twin_turn::crawls(event),
    ensures
        lawful(brain.commits(event, arrived, replies, now).brain),
{
    let hops = twin_turn::turn(brain.mode, brain.ctx, event, arrived, replies);
    let after = brain.commits(event, arrived, replies, now).brain;
    brain_laws::committing_moves_to_the_last_cut(brain, hops, now);
    twin_turn::turns_quiesce(brain.mode, brain.ctx, event, arrived, replies);
    twin_turn::turns_keep_the_state_laws(
        brain.mode,
        brain.ctx,
        event,
        arrived,
        replies,
        hops.len() - 1,
    );
    assert forall|i: int| 0 <= i < after.queue.len() implies !twin_turn::crawls(
        (#[trigger] after.queue[i]).event(),
    ) by {
        if i < brain.queue.len() {
            assert(after.queue.take(brain.queue.len() as int)[i] == brain.queue[i]);
        }
    }
}

proof fn draining_keeps_laws(brain: BrainView, now: Instant)
    requires
        lawful(brain),
    ensures
        lawful(brain.drained(now).brain),
    decreases brain_model::complete_count(brain.queue),
{
    if brain.queue.len() > 0 && brain.queue[0].complete() {
        let front = brain.queue[0];
        let rest = brain.without_front();
        assert forall|i: int| 0 <= i < rest.queue.len() implies !twin_turn::crawls(
            (#[trigger] rest.queue[i]).event(),
        ) by {
            assert(rest.queue[i] == brain.queue[i + 1]);
        }
        brain_laws::commits_add_no_complete_slot(rest, front, now);
        committing_keeps_laws(rest, front.event(), front.now(), front.replies(), now);
        draining_keeps_laws(rest.commits_slot(front, now).brain, now);
    }
}

/// The brain keeps the whole catalog of state laws through every message, in whatever order
/// messages come, as long as the car is never read to crawl.
pub proof fn messages_keep_the_state_laws(
    brain: BrainView,
    message: DigitalTwinCarVocabulary,
    now: Instant,
)
    requires
        lawful(brain),
        message matches DigitalTwinCarVocabulary::Fsm(event) ==> !twin_turn::crawls(event),
    ensures
        lawful(brain.handled(message, now).brain),
{
    let step = brain.received(message, now);
    match message {
        DigitalTwinCarVocabulary::ZoneSpontaneous { zone_id, event } => match event {
            ZoneSpontaneousEvent::Headlamp { direction, cause, reply } => {
                committing_keeps_laws(
                    brain,
                    FsmEvent::FrontHeadlampActuationIncomplete { direction, cause },
                    now,
                    Map::empty().insert(ZoneId::Headlamp, ZoneReplyView::Headlamp(reply@)),
                    now,
                );
            },
        },
        DigitalTwinCarVocabulary::Fsm(event) => {
            assert forall|i: int| 0 <= i < step.brain.queue.len() implies !twin_turn::crawls(
                (#[trigger] step.brain.queue[i]).event(),
            ) by {
                if i < brain.queue.len() {
                    assert(step.brain.queue[i] == brain.queue[i]);
                }
            }
        },
        DigitalTwinCarVocabulary::ZoneReady { zone_id, turn_id, tell_attempt, reply } => {
            brain_laws::position_is_in_range(brain.queue, turn_id);
        },
        DigitalTwinCarVocabulary::ZoneTellBackTimeout { zone_id, turn_id, tell_attempt } => {
            brain_laws::position_is_in_range(brain.queue, turn_id);
        },
        DigitalTwinCarVocabulary::GetStatus => {},
    }
    if !(message is GetStatus) {
        draining_keeps_laws(step.brain, now);
    }
}

/// The slot that awaits the headlamp's answer to an order.
pub open spec fn order_slot(turn_id: u64, message: HeadlampMessage, now: Instant) -> EntryView {
    EntryView::Waiting(
        BarrierView::fresh(turn_id, FsmEvent::AssemblyZoneReady(ZoneId::Headlamp), now).awaiting(
            ZoneId::Headlamp,
            message,
            TellBackWait::first(turn_id),
            TellBackTimer { zone_id: ZoneId::Headlamp, turn_id, tell_attempt: 0 },
        ),
    )
}

/// The order that an action gives the headlamp.
pub open spec fn order_of(action: DomainActionView) -> HeadlampMessage {
    if action is StartAssemblies {
        HeadlampMessage::BecomeOn
    } else {
        HeadlampMessage::BecomeOff
    }
}

proof fn committing_an_order(
    brain: BrainView,
    hops: Seq<HopView>,
    order: DomainActionView,
    now: Instant,
)
    requires
        hops.len() == 1,
        hops[0].result.actions == seq![
            order,
            DomainActionView::EnterMode(ActorModeHintFromDomain::Normal),
        ],
        order is StartAssemblies || order is StopAssemblies,
    ensures
        ({
            let step = brain.applied(hops, now);
            let turn_id = brain.next_turn_id;
            &&& step.brain.queue == brain.queue.push(order_slot(turn_id, order_of(order), now))
            &&& step.brain.next_turn_id == brain_model::counted(turn_id)
            &&& step.effects.contains(
                EffectView::TellHeadlamp {
                    turn_id,
                    tell_attempt: 0,
                    message: order_of(order),
                    now,
                },
            )
        }),
{
    reveal(BrainView::applied);
    reveal_with_fuel(twin_turn::merged, 2);
    reveal_with_fuel(BrainView::acts_all, 3);
    let last = hops.last().result;
    brain_laws::publishing_counts_rows(brain, hops);
    let published = brain.publishes_all(hops);
    let moved = published.brain.at_cut(last.next_state, last.modified_ctx);
    let actions = hops[0].result.actions;
    assert(twin_turn::merged(hops) =~= actions);
    assert(actions.drop_last() =~= seq![order]);
    assert(actions.drop_last().drop_last() =~= Seq::empty());
    let told = moved.acts(order, now);
    let acted = moved.acts_all(actions, now);
    assert(acted.brain == told.brain);
    assert(acted.effects =~= told.effects);
    let announced = acted.brain.announces(brain.mode);
    let settled = announced.brain.confirms(
        brain.ctx.headlamp.state,
        last.modified_ctx.headlamp.state,
    );
    let all = brain.applied(hops, now).effects;
    assert(all =~= published.effects + told.effects + announced.effects + settled.effects);
    assert(all[published.effects.len() as int] == told.effects[0]);
}

/// What committing the event that gives an order comes to.
proof fn ordering(brain: BrainView, event: FsmEvent, arrived: Instant, now: Instant)
    requires
        (brain.mode == FsmState::Off && event == FsmEvent::PowerOn && brain.ctx.health.healthy())
            || (brain.mode == FsmState::Idle && event == FsmEvent::PowerOff),
    ensures
        ({
            let step = brain.commits(event, arrived, Map::empty(), now);
            let message = if event == FsmEvent::PowerOn {
                HeadlampMessage::BecomeOn
            } else {
                HeadlampMessage::BecomeOff
            };
            let turn_id = brain.next_turn_id;
            &&& step.brain.mode == if event == FsmEvent::PowerOn {
                FsmState::PreparingToStart
            } else {
                FsmState::PreparingToStop
            }
            &&& step.brain.ctx.pending_assemblies == step::managed()
            &&& step.brain.queue == brain.queue.push(order_slot(turn_id, message, now))
            &&& step.brain.next_turn_id == brain_model::counted(turn_id)
            &&& step.effects.contains(
                EffectView::TellHeadlamp { turn_id, tell_attempt: 0, message, now },
            )
        }),
{
    let replies = Map::<ZoneId, ZoneReplyView>::empty();
    let hops = twin_turn::turn(brain.mode, brain.ctx, event, arrived, replies);
    twin_turn::turns_quiesce(brain.mode, brain.ctx, event, arrived, replies);
    let result = twin_turn::single_hop(brain.mode, brain.ctx, event, arrived, replies);
    let order = if event == FsmEvent::PowerOn {
        DomainActionView::StartAssemblies
    } else {
        DomainActionView::StopAssemblies
    };
    reveal_with_fuel(step::domain_actions_of, 2);
    let changed = transition_map::mode_change_actions(brain.mode, result.next_state, brain.ctx);
    assert(changed.drop_last() =~= Seq::empty());
    assert(step::domain_actions_of(changed) =~= seq![order]);
    let zone = zone_turn::zone_effect(brain.ctx, event, brain.mode, arrived, replies);
    assert(outcome_map::actions_of(zone.outcomes) =~= Seq::empty());
    assert(result.actions =~= seq![
        order,
        DomainActionView::EnterMode(ActorModeHintFromDomain::Normal),
    ]);
    brain_laws::committing_moves_to_the_last_cut(brain, hops, now);
    committing_an_order(brain, hops, order, now);
}

/// The message that switches the car on or off.
pub open spec fn switch(on: bool) -> DigitalTwinCarVocabulary {
    DigitalTwinCarVocabulary::Fsm(
        if on {
            FsmEvent::PowerOn
        } else {
            FsmEvent::PowerOff
        },
    )
}

/// Nothing is in flight, and the switch is legal: an idle car may be switched off, and a healthy
/// one that is off may be switched on.
pub open spec fn switchable(brain: BrainView, on: bool) -> bool {
    &&& brain.queue.len() == 0
    &&& brain.next_turn_id < u64::MAX - 1
    &&& if on {
        brain.mode == FsmState::Off && brain.ctx.health.healthy()
    } else {
        brain.mode == FsmState::Idle
    }
}

/// Switching orders the headlamp to start or to stop, and nothing else is left in flight.
pub proof fn switching_orders_the_headlamp(brain: BrainView, on: bool, now: Instant)
    requires
        switchable(brain, on),
    ensures
        ({
            let step = brain.handled(switch(on), now);
            let message = if on {
                HeadlampMessage::BecomeOn
            } else {
                HeadlampMessage::BecomeOff
            };
            let turn_id = (brain.next_turn_id + 1) as u64;
            &&& step.brain.mode == if on {
                FsmState::PreparingToStart
            } else {
                FsmState::PreparingToStop
            }
            &&& step.brain.ctx.pending_assemblies == step::managed()
            &&& step.brain.queue == seq![order_slot(turn_id, message, now)]
            &&& step.effects.contains(
                EffectView::TellHeadlamp { turn_id, tell_attempt: 0, message, now },
            )
        }),
{
    let event = if on {
        FsmEvent::PowerOn
    } else {
        FsmEvent::PowerOff
    };
    let begun = brain.begun(event, now).brain;
    let slot = EntryView::Passthrough { turn_id: brain.next_turn_id, event, now };
    assert(begun.queue =~= seq![slot]);
    let rest = begun.without_front();
    assert(rest.queue =~= Seq::empty());
    ordering(rest, event, now, now);
    let committed = rest.commits_slot(slot, now);
    brain_laws::commits_add_no_complete_slot(rest, slot, now);
    let message = if on {
        HeadlampMessage::BecomeOn
    } else {
        HeadlampMessage::BecomeOff
    };
    let turn_id = (brain.next_turn_id + 1) as u64;
    let order = order_slot(turn_id, message, now);
    assert(committed.brain.queue =~= seq![order]);
    assert(order->Waiting_0.pending.contains(ZoneId::Headlamp));
    assert(!order.complete());
    assert(committed.brain.drained(now) == BrainStep::rest(committed.brain));
    let step = brain.handled(switch(on), now);
    assert(step.effects =~= committed.effects);
    assert(step.brain == committed.brain);
}

/// A car is switched on in two messages: the switch, and the headlamp's answer to its start order,
/// whatever it is. Then the car is idle with nothing in flight, and shows the headlamp as the
/// headlamp answered. Switching off goes the same way, and ends with a car that is off and at rest.
pub proof fn a_switch_and_an_answer_complete_the_change(
    brain: BrainView,
    on: bool,
    reply: ZoneReply,
    now: Instant,
    later: Instant,
)
    requires
        switchable(brain, on),
    ensures
        ({
            let switched = brain.handled(switch(on), now).brain;
            let answer = DigitalTwinCarVocabulary::ZoneReady {
                zone_id: ZoneId::Headlamp,
                turn_id: (brain.next_turn_id + 1) as u64,
                tell_attempt: 0,
                reply,
            };
            let done = switched.handled(answer, later).brain;
            &&& done.queue.len() == 0
            &&& on ==> done.mode == FsmState::Idle
            &&& on && reply@ is Headlamp ==> done.ctx.headlamp == reply@->Headlamp_0.ctx
            &&& !on ==> done.mode == FsmState::Off && done.ctx.powertrain.stationary()
                && done.ctx.headlamp == HeadlampContext::settled(HeadlampState::Off)
        }),
{
    switching_orders_the_headlamp(brain, on, now);
    let switched = brain.handled(switch(on), now).brain;
    let message = if on {
        HeadlampMessage::BecomeOn
    } else {
        HeadlampMessage::BecomeOff
    };
    let turn_id = (brain.next_turn_id + 1) as u64;
    let slot = order_slot(turn_id, message, now);
    assert(switched.queue[0] == slot);
    assert(brain_model::position(switched.queue, turn_id) == 0);
    let barrier = slot->Waiting_0;
    let answered = barrier.answered(ZoneId::Headlamp, reply@);
    assert(answered.pending =~= Set::<ZoneId>::empty());
    let step = switched.zone_answered(ZoneId::Headlamp, turn_id, 0, reply@);
    let ready = step.brain;
    assert(ready.queue =~= seq![EntryView::Waiting(answered)]);
    let front = ready.queue[0];
    let rest = ready.without_front();
    assert(rest.queue =~= Seq::empty());
    brain_laws::commits_add_no_complete_slot(rest, front, later);
    finishing(rest, now, front.replies(), later);
    let committed = rest.commits_slot(front, later).brain;
    assert(committed.drained(later) == BrainStep::rest(committed));
}

/// The action orders no assembly to start or to stop.
pub open spec fn orders_nothing(action: DomainActionView) -> bool {
    !(action is StartAssemblies) && !(action is StopAssemblies)
}

proof fn acting_without_orders(brain: BrainView, actions: Seq<DomainActionView>, now: Instant)
    requires
        forall|i: int| 0 <= i < actions.len() ==> orders_nothing(#[trigger] actions[i]),
    ensures
        brain.acts_all(actions, now).brain.queue == brain.queue,
    decreases actions.len(),
{
    if actions.len() > 0 {
        assert forall|i: int| 0 <= i < actions.drop_last().len() implies orders_nothing(
            #[trigger] actions.drop_last()[i],
        ) by {
            assert(actions.drop_last()[i] == actions[i]);
        }
        acting_without_orders(brain, actions.drop_last(), now);
        assert(orders_nothing(actions[actions.len() - 1]));
    }
}

proof fn zones_order_nothing(outcomes: Seq<ZoneOutcomeView>)
    ensures
        forall|i: int|
            0 <= i < outcome_map::actions_of(outcomes).len() ==> orders_nothing(
                #[trigger] outcome_map::actions_of(outcomes)[i],
            ),
    decreases outcomes.len(),
{
    if outcomes.len() > 0 {
        let before = outcome_map::actions_of(outcomes.drop_last());
        let all = outcome_map::actions_of(outcomes);
        zones_order_nothing(outcomes.drop_last());
        assert forall|i: int| 0 <= i < all.len() implies orders_nothing(#[trigger] all[i]) by {
            if i < before.len() {
                assert(all[i] == before[i]);
            }
        }
    }
}

/// Committing the headlamp's answer to an order ends the preparation and leaves nothing behind.
proof fn finishing(
    brain: BrainView,
    arrived: Instant,
    replies: Map<ZoneId, ZoneReplyView>,
    now: Instant,
)
    requires
        brain.queue.len() == 0,
        brain.ctx.pending_assemblies == step::managed(),
        brain.mode == FsmState::PreparingToStart || brain.mode == FsmState::PreparingToStop,
    ensures
        ({
            let event = FsmEvent::AssemblyZoneReady(ZoneId::Headlamp);
            let after = brain.commits(event, arrived, replies, now).brain;
            let answer = zone_replies::headlamp_answer(replies);
            &&& after.queue.len() == 0
            &&& brain.mode == FsmState::PreparingToStart ==> after.mode == FsmState::Idle && (
            answer is Some ==> after.ctx.headlamp == answer->0.ctx)
            &&& brain.mode == FsmState::PreparingToStop ==> after.mode == FsmState::Off
                && after.ctx.powertrain.stationary() && after.ctx.headlamp
                == HeadlampContext::settled(HeadlampState::Off)
        }),
{
    let event = FsmEvent::AssemblyZoneReady(ZoneId::Headlamp);
    let hops = twin_turn::turn(brain.mode, brain.ctx, event, arrived, replies);
    twin_turn::turns_quiesce(brain.mode, brain.ctx, event, arrived, replies);
    let result = twin_turn::single_hop(brain.mode, brain.ctx, event, arrived, replies);
    let zone = zone_turn::zone_effect(brain.ctx, event, brain.mode, arrived, replies);
    assert(zone.ctx.pending_assemblies@.remove(ZoneId::Headlamp) =~= Set::<ZoneId>::empty());
    brain_laws::committing_moves_to_the_last_cut(brain, hops, now);
    reveal(BrainView::applied);
    reveal_with_fuel(twin_turn::merged, 2);
    reveal_with_fuel(step::domain_actions_of, 2);
    zones_order_nothing(zone.outcomes);
    let changed = transition_map::mode_change_actions(brain.mode, result.next_state, zone.ctx);
    assert(changed.drop_last() =~= Seq::empty());
    assert(step::domain_actions_of(changed) =~= seq![DomainActionView::PublishStateSync]);
    assert(twin_turn::merged(hops) =~= result.actions);
    let moved = brain.publishes_all(hops).brain.at_cut(
        hops.last().result.next_state,
        hops.last().result.modified_ctx,
    );
    acting_without_orders(moved, result.actions, now);
    brain_laws::publishing_counts_rows(brain, hops);
}

} // verus!
