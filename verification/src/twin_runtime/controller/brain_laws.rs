//! What holds of the brain over all messages.
use vstd::prelude::*;

use super::brain_model;
use super::brain_model::BrainView;
use crate::clock::Instant;
use crate::digital_twin::state_laws::StateLaw;
use crate::digital_twin::vocabulary::{
    DigitalTwinCarVocabulary, ZoneReplyView, ZoneSpontaneousEvent,
};
use crate::fsm::machineries::{DomainActionView, FsmEvent};
use crate::twin_runtime::detectors;
use crate::twin_runtime::turn_barrier::EntryView;
use crate::twin_runtime::twin_turn;
use crate::twin_runtime::twin_turn::HopView;
use crate::zones::ZoneId;

verus! {

/// Counting complete slots goes slot by slot from the back as well.
pub proof fn complete_count_of_push(queue: Seq<EntryView>, slot: EntryView)
    ensures
        brain_model::complete_count(queue.push(slot)) == brain_model::complete_count(queue) + (
        if slot.complete() {
            1nat
        } else {
            0
        }),
    decreases queue.len(),
{
    if queue.len() == 0 {
        assert(queue.push(slot).skip(1) =~= queue);
    } else {
        complete_count_of_push(queue.skip(1), slot);
        assert(queue.push(slot).skip(1) =~= queue.skip(1).push(slot));
    }
}

/// The slot awaits an assembly's answer to its start or stop order.
pub open spec fn awaits_assembly(slot: EntryView) -> bool {
    !slot.complete() && slot.consistent() && slot.event() is AssemblyZoneReady
}

/// The buffer `after` is `before` with further slots behind it, each awaiting an assembly.
pub open spec fn extends(before: Seq<EntryView>, after: Seq<EntryView>) -> bool {
    &&& before.len() <= after.len()
    &&& after.take(before.len() as int) == before
    &&& forall|i: int|
        before.len() <= i < after.len() ==> awaits_assembly(#[trigger] after[i])
}

pub proof fn extends_is_transitive(a: Seq<EntryView>, b: Seq<EntryView>, c: Seq<EntryView>)
    requires
        extends(a, b),
        extends(b, c),
    ensures
        extends(a, c),
{
    assert forall|i: int| a.len() <= i < c.len() implies awaits_assembly(#[trigger] c[i]) by {
        if i < b.len() {
            assert(c.take(b.len() as int)[i] == b[i]);
        }
    }
    assert(c.take(a.len() as int) =~= c.take(b.len() as int).take(a.len() as int));
}

pub proof fn extension_keeps_complete_count(before: Seq<EntryView>, after: Seq<EntryView>)
    requires
        extends(before, after),
    ensures
        brain_model::complete_count(after) == brain_model::complete_count(before),
    decreases after.len(),
{
    if after.len() == before.len() {
        assert(after =~= after.take(before.len() as int));
    } else {
        let shorter = after.drop_last();
        assert(shorter.take(before.len() as int) =~= after.take(before.len() as int));
        assert(extends(before, shorter)) by {
            assert forall|i: int| before.len() <= i < shorter.len() implies awaits_assembly(
                #[trigger] shorter[i],
            ) by {
                assert(shorter[i] == after[i]);
            }
        }
        extension_keeps_complete_count(before, shorter);
        complete_count_of_push(shorter, after.last());
        assert(shorter.push(after.last()) =~= after);
        assert(!after[after.len() - 1].complete());
    }
}

/// What carrying actions out may change: more slots behind the buffer, the manager's numbering
/// and the turn numbering. Identity, cut and ledger numbering stay.
pub open spec fn acted_upon(before: BrainView, after: BrainView) -> bool {
    &&& extends(before.queue, after.queue)
    &&& after.name == before.name
    &&& after.mode == before.mode
    &&& after.ctx == before.ctx
    &&& after.next_record_seq == before.next_record_seq
    &&& after.log_timer_tick == before.log_timer_tick
    &&& after.manager.reports == before.manager.reports
    &&& after.next_turn_id >= before.next_turn_id
}

/// Carrying one action out publishes no row and puts nothing but an incomplete slot behind the
/// buffer.
pub proof fn acting_keeps_the_cut(brain: BrainView, action: DomainActionView, now: Instant)
    ensures
        acted_upon(brain, brain.acts(action, now).brain),
{
    let after = brain.acts(action, now).brain;
    if action is StartAssemblies || action is StopAssemblies {
        let slot = after.queue.last();
        assert(after.queue.take(brain.queue.len() as int) =~= brain.queue);
        assert(slot matches EntryView::Waiting(b) && b.pending.contains(
            ZoneId::Headlamp,
        ));
        assert(!slot.complete());
    } else {
        assert(after.queue =~= brain.queue);
        assert(after.queue.take(brain.queue.len() as int) =~= brain.queue);
    }
}

pub proof fn acting_all_keeps_the_cut(
    brain: BrainView,
    actions: Seq<DomainActionView>,
    now: Instant,
)
    ensures
        acted_upon(brain, brain.acts_all(actions, now).brain),
    decreases actions.len(),
{
    if actions.len() == 0 {
        assert(brain.queue.take(brain.queue.len() as int) =~= brain.queue);
    } else {
        acting_all_keeps_the_cut(brain, actions.drop_last(), now);
        let before = brain.acts_all(actions.drop_last(), now).brain;
        acting_keeps_the_cut(before, actions.last(), now);
        extends_is_transitive(
            brain.queue,
            before.queue,
            brain.acts_all(actions, now).brain.queue,
        );
    }
}

/// Publishing rows counts them and changes nothing else.
pub proof fn publishing_counts_rows(brain: BrainView, hops: Seq<HopView>)
    ensures
        ({
            let after = brain.publishes_all(hops).brain;
            &&& after == (BrainView { next_record_seq: after.next_record_seq, ..brain })
            &&& brain.next_record_seq + hops.len() <= u64::MAX ==> after.next_record_seq
                == brain.next_record_seq + hops.len()
            &&& after.next_record_seq >= brain.next_record_seq
        }),
    decreases hops.len(),
{
    if hops.len() > 0 {
        publishing_counts_rows(brain, hops.drop_last());
    }
}

/// Committing a turn leaves the car's identity, moves it to the last cut of the turn, and puts
/// nothing but incomplete slots behind the buffer.
pub proof fn committing_moves_to_the_last_cut(brain: BrainView, hops: Seq<HopView>, now: Instant)
    ensures
        ({
            let after = brain.applied(hops, now).brain;
            &&& after.name == brain.name
            &&& after.mode == hops.last().result.next_state
            &&& after.ctx == hops.last().result.modified_ctx
            &&& after.log_timer_tick == brain.log_timer_tick
            &&& after.manager.reports == brain.manager.reports
            &&& after.next_turn_id >= brain.next_turn_id
            &&& after.next_record_seq == brain.publishes_all(hops).brain.next_record_seq
            &&& extends(brain.queue, after.queue)
        }),
{
    reveal(BrainView::applied);
    publishing_counts_rows(brain, hops);
    let last = hops.last().result;
    let moved = brain.publishes_all(hops).brain.at_cut(last.next_state, last.modified_ctx);
    acting_all_keeps_the_cut(moved, twin_turn::merged(hops), now);
}

/// A committed slot adds no complete slot to the buffer it has left.
pub proof fn commits_add_no_complete_slot(brain: BrainView, slot: EntryView, now: Instant)
    ensures
        brain_model::complete_count(brain.commits_slot(slot, now).brain.queue)
            == brain_model::complete_count(brain.queue),
{
    let hops = twin_turn::turn(brain.mode, brain.ctx, slot.event(), slot.now(), slot.replies());
    committing_moves_to_the_last_cut(brain, hops, now);
    extension_keeps_complete_count(brain.queue, brain.commits_slot(slot, now).brain.queue);
}

/// A buffer that only gained consistent slots is consistent.
pub proof fn extension_keeps_consistency(before: BrainView, after: BrainView)
    requires
        before.well_formed(),
        extends(before.queue, after.queue),
        after.manager.reports == before.manager.reports,
    ensures
        after.well_formed(),
{
    assert forall|i: int| 0 <= i < after.queue.len() implies (#[trigger] after.queue[i]).consistent() by {
        if i < before.queue.len() {
            assert(after.queue.take(before.queue.len() as int)[i] == before.queue[i]);
        }
    }
}

/// Committing a slot keeps the brain well-formed.
pub proof fn committing_keeps_well_formed(brain: BrainView, slot: EntryView, now: Instant)
    requires
        brain.well_formed(),
    ensures
        brain.commits_slot(slot, now).brain.well_formed(),
{
    let hops = twin_turn::turn(brain.mode, brain.ctx, slot.event(), slot.now(), slot.replies());
    committing_moves_to_the_last_cut(brain, hops, now);
    extension_keeps_consistency(brain, brain.commits_slot(slot, now).brain);
}

/// No message takes the brain out of its invariant.
pub proof fn receiving_keeps_well_formed(
    brain: BrainView,
    message: DigitalTwinCarVocabulary,
    now: Instant,
)
    requires
        brain.well_formed(),
    ensures
        brain.received(message, now).brain.well_formed(),
{
    let after = brain.received(message, now).brain;
    match message {
        DigitalTwinCarVocabulary::ZoneSpontaneous { zone_id, event } => match event {
            ZoneSpontaneousEvent::Headlamp { direction, cause, reply } => {
                let hops = twin_turn::turn(
                    brain.mode,
                    brain.ctx,
                    FsmEvent::FrontHeadlampActuationIncomplete {
                        direction,
                        cause,
                    },
                    now,
                    Map::empty().insert(
                        ZoneId::Headlamp,
                        ZoneReplyView::Headlamp(reply@),
                    ),
                );
                committing_moves_to_the_last_cut(brain, hops, now);
                extension_keeps_consistency(brain, after);
            },
        },
        DigitalTwinCarVocabulary::Fsm(event) => {
            assert forall|i: int| 0 <= i < after.queue.len() implies (
            #[trigger] after.queue[i]).consistent() by {
                if i < brain.queue.len() {
                    assert(after.queue[i] == brain.queue[i]);
                }
            }
        },
        DigitalTwinCarVocabulary::ZoneReady { zone_id, turn_id, tell_attempt, reply } => {
            position_is_in_range(brain.queue, turn_id);
            slot_change_keeps_consistency(brain, after, turn_id);
        },
        DigitalTwinCarVocabulary::ZoneTellBackTimeout { zone_id, turn_id, tell_attempt } => {
            position_is_in_range(brain.queue, turn_id);
            slot_change_keeps_consistency(brain, after, turn_id);
        },
        DigitalTwinCarVocabulary::GetStatus => {},
    }
}

proof fn slot_change_keeps_consistency(brain: BrainView, after: BrainView, turn_id: u64)
    requires
        brain.well_formed(),
        after.manager == brain.manager,
        after == brain || ({
            let i = brain_model::position(brain.queue, turn_id);
            &&& 0 <= i < brain.queue.len()
            &&& after.queue == brain.queue.update(i, after.queue[i])
            &&& brain.queue[i].consistent() ==> after.queue[i].consistent()
        }),
    ensures
        after.well_formed(),
{
    assert forall|i: int| 0 <= i < after.queue.len() implies (
    #[trigger] after.queue[i]).consistent() by {
        if after != brain && i != brain_model::position(brain.queue, turn_id) {
            assert(after.queue[i] == brain.queue[i]);
        }
    }
}

/// The place of a slot is a place in the buffer, or just behind it.
pub proof fn position_is_in_range(queue: Seq<EntryView>, turn_id: u64)
    ensures
        0 <= brain_model::position(queue, turn_id) <= queue.len(),
    decreases queue.len(),
{
    if queue.len() > 0 {
        position_is_in_range(queue.skip(1), turn_id);
    }
}

/// The cut of the brain is sound: a car that is off stands still, and no car drives unlit in the
/// dark without being known to drive dangerously.
pub open spec fn sound(brain: BrainView) -> bool {
    &&& StateLaw::StandstillWhenOff.holds(brain.mode, brain.ctx)
    &&& !detectors::lighting_unsafe(brain.mode, brain.ctx)
}

proof fn committing_keeps_soundness(
    brain: BrainView,
    event: FsmEvent,
    arrived: Instant,
    replies: Map<ZoneId, ZoneReplyView>,
    now: Instant,
)
    requires
        sound(brain),
    ensures
        sound(brain.commits(event, arrived, replies, now).brain),
{
    let hops = twin_turn::turn(brain.mode, brain.ctx, event, arrived, replies);
    committing_moves_to_the_last_cut(brain, hops, now);
    twin_turn::no_turn_ends_driving_unlit(brain.mode, brain.ctx, event, arrived, replies);
    twin_turn::turns_keep_standstill_when_off(brain.mode, brain.ctx, event, arrived, replies);
}

proof fn draining_keeps_soundness(brain: BrainView, now: Instant)
    requires
        sound(brain),
    ensures
        sound(brain.drained(now).brain),
    decreases brain_model::complete_count(brain.queue),
{
    if brain.queue.len() > 0 && brain.queue[0].complete() {
        let front = brain.queue[0];
        let rest = brain.without_front();
        commits_add_no_complete_slot(rest, front, now);
        committing_keeps_soundness(rest, front.event(), front.now(), front.replies(), now);
        draining_keeps_soundness(rest.commits_slot(front, now).brain, now);
    }
}

/// The brain never shows an unsound cut: from a sound one, no message leads to another.
pub proof fn messages_keep_the_cut_sound(
    brain: BrainView,
    message: DigitalTwinCarVocabulary,
    now: Instant,
)
    requires
        sound(brain),
    ensures
        sound(brain.handled(message, now).brain),
{
    let step = brain.received(message, now);
    if let DigitalTwinCarVocabulary::ZoneSpontaneous { zone_id, event } = message {
        match event {
            ZoneSpontaneousEvent::Headlamp { direction, cause, reply } => {
                committing_keeps_soundness(
                    brain,
                    FsmEvent::FrontHeadlampActuationIncomplete { direction, cause },
                    now,
                    Map::empty().insert(ZoneId::Headlamp, ZoneReplyView::Headlamp(reply@)),
                    now,
                );
            },
        }
    }
    draining_keeps_soundness(step.brain, now);
}

} // verus!
