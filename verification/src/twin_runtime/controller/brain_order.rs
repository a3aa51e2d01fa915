//! Order and numbering: turns are committed in the order of arrival, whatever the order in which
//! zones answer, and the ledger counts every row.
use vstd::prelude::*;

use super::brain_laws;
use super::brain_model;
use super::brain_model::{BrainStep, BrainView, EffectView};
use crate::clock::Instant;
use crate::digital_twin::vocabulary::{
    DigitalTwinCarVocabulary, ZoneReply, ZoneReplyView, ZoneSpontaneousEvent,
};
use crate::fsm::machineries::{DomainActionView, FsmEvent};
use crate::transition_sink::PublishedView;
use crate::twin_runtime::turn_barrier::EntryView;
use crate::twin_runtime::twin_turn;
use crate::twin_runtime::twin_turn::HopView;
use crate::zones::ZoneId;

verus! {

/// The brain waits: the buffer is empty, or its front is incomplete.
pub open spec fn waits(brain: BrainView) -> bool {
    brain.queue.len() > 0 ==> !brain.queue[0].complete()
}

/// Draining ends with a brain that waits.
pub proof fn draining_ends_waiting(brain: BrainView, now: Instant)
    ensures
        waits(brain.drained(now).brain),
    decreases brain_model::complete_count(brain.queue),
{
    if brain.queue.len() > 0 && brain.queue[0].complete() {
        let committed = brain.without_front().commits_slot(brain.queue[0], now);
        brain_laws::commits_add_no_complete_slot(brain.without_front(), brain.queue[0], now);
        draining_ends_waiting(committed.brain, now);
    }
}

/// No message leaves a complete turn at the front of the buffer.
pub proof fn messages_leave_the_brain_waiting(
    brain: BrainView,
    message: DigitalTwinCarVocabulary,
    now: Instant,
)
    requires
        waits(brain),
    ensures
        waits(brain.handled(message, now).brain),
{
    draining_ends_waiting(brain.received(message, now).brain, now);
}

/// How many slots at the front of the buffer are complete.
pub open spec fn ready_prefix(queue: Seq<EntryView>) -> nat
    decreases queue.len(),
{
    if queue.len() > 0 && queue[0].complete() {
        1 + ready_prefix(queue.skip(1))
    } else {
        0
    }
}

proof fn ready_prefix_of_extension(before: Seq<EntryView>, after: Seq<EntryView>)
    requires
        brain_laws::extends(before, after),
    ensures
        ready_prefix(after) == ready_prefix(before),
        ready_prefix(before) <= before.len(),
    decreases before.len(),
{
    if before.len() > 0 {
        assert(after.take(before.len() as int)[0] == before[0]);
        let (b, a) = (before.skip(1), after.skip(1));
        assert(a.take(b.len() as int) =~= after.take(before.len() as int).skip(1));
        assert(brain_laws::extends(b, a)) by {
            assert forall|i: int| b.len() <= i < a.len() implies brain_laws::awaits_assembly(
                #[trigger] a[i],
            ) by {
                assert(a[i] == after[i + 1]);
            }
        }
        ready_prefix_of_extension(b, a);
    } else if after.len() > 0 {
        assert(!after[0].complete());
    }
}

/// Draining commits exactly the complete slots at the front: those behind them stay as they are,
/// in their order, and only incomplete slots are put behind them.
pub proof fn draining_commits_the_ready_prefix(brain: BrainView, now: Instant)
    ensures
        brain_laws::extends(
            brain.queue.skip(ready_prefix(brain.queue) as int),
            brain.drained(now).brain.queue,
        ),
        ready_prefix(brain.queue) <= brain.queue.len(),
    decreases brain_model::complete_count(brain.queue),
{
    let queue = brain.queue;
    if queue.len() > 0 && queue[0].complete() {
        let front = queue[0];
        let rest = brain.without_front();
        let committed = rest.commits_slot(front, now).brain;
        brain_laws::commits_add_no_complete_slot(rest, front, now);
        let hops = twin_turn::turn(rest.mode, rest.ctx, front.event(), front.now(), front.replies());
        brain_laws::committing_moves_to_the_last_cut(rest, hops, now);
        draining_commits_the_ready_prefix(committed, now);
        ready_prefix_of_extension(rest.queue, committed.queue);
        let n = ready_prefix(rest.queue);
        assert(queue.skip(n as int + 1) =~= rest.queue.skip(n as int));
        // What the commit put behind the buffer is still behind what is left of it.
        let left = rest.queue.skip(n as int);
        let grown = committed.queue.skip(n as int);
        assert(grown.take(left.len() as int) =~= committed.queue.take(
            rest.queue.len() as int,
        ).skip(n as int));
        assert(brain_laws::extends(left, grown)) by {
            assert forall|i: int| left.len() <= i < grown.len() implies brain_laws::awaits_assembly(
                #[trigger] grown[i],
            ) by {
                assert(grown[i] == committed.queue[i + n]);
            }
        }
        brain_laws::extends_is_transitive(left, grown, brain.drained(now).brain.queue);
    } else {
        assert(queue.skip(0) =~= queue);
        assert(queue.take(queue.len() as int) =~= queue);
    }
}

/// The ledger rows among effects, in order.
pub open spec fn rows(effects: Seq<EffectView>) -> Seq<PublishedView>
    decreases effects.len(),
{
    if effects.len() == 0 {
        Seq::empty()
    } else {
        let before = rows(effects.drop_last());
        match effects.last() {
            EffectView::Publish(row) => before.push(row),
            _ => before,
        }
    }
}

proof fn rows_of_both(a: Seq<EffectView>, b: Seq<EffectView>)
    ensures
        rows(a + b) == rows(a) + rows(b),
    decreases b.len(),
{
    if b.len() == 0 {
        assert(a + b =~= a);
        assert(rows(a) + rows(b) =~= rows(a));
    } else {
        rows_of_both(a, b.drop_last());
        assert((a + b).drop_last() =~= a + b.drop_last());
        assert((a + b).last() == b.last());
        assert(rows(a + b) =~= rows(a) + rows(b));
    }
}

/// The rows of a step belong to the car and carry the next numbers in a row, and the brain has
/// counted them, as long as the count has not reached its end.
pub open spec fn numbered(before: BrainView, step: BrainStep) -> bool {
    &&& step.brain.name == before.name
    &&& step.brain.next_record_seq >= before.next_record_seq
    &&& step.brain.next_record_seq < u64::MAX ==> {
        &&& step.brain.next_record_seq == before.next_record_seq + rows(step.effects).len()
        &&& forall|i: int|
            0 <= i < rows(step.effects).len() ==> (#[trigger] rows(step.effects)[i]).sequence_no
                == before.next_record_seq + i && rows(step.effects)[i].car_identity == before.name
    }
}

proof fn numbering_goes_on(before: BrainView, first: BrainStep, second: BrainStep)
    requires
        numbered(before, first),
        numbered(first.brain, second),
    ensures
        numbered(before, first.and_after(second)),
{
    rows_of_both(first.effects, second.effects);
}

proof fn without_rows(brain: BrainView, step: BrainStep)
    requires
        step.brain.name == brain.name,
        step.brain.next_record_seq == brain.next_record_seq,
        forall|i: int| 0 <= i < step.effects.len() ==> !(#[trigger] step.effects[i] is Publish),
    ensures
        numbered(brain, step),
        rows(step.effects).len() == 0,
{
    no_rows(step.effects);
}

proof fn no_rows(effects: Seq<EffectView>)
    requires
        forall|i: int| 0 <= i < effects.len() ==> !(#[trigger] effects[i] is Publish),
    ensures
        rows(effects).len() == 0,
    decreases effects.len(),
{
    if effects.len() > 0 {
        assert forall|i: int| 0 <= i < effects.drop_last().len() implies !(
        #[trigger] effects.drop_last()[i] is Publish) by {
            assert(effects.drop_last()[i] == effects[i]);
        }
        no_rows(effects.drop_last());
        assert(!(effects[effects.len() - 1] is Publish));
    }
}

proof fn publishing_is_numbered(brain: BrainView, hops: Seq<HopView>)
    ensures
        numbered(brain, brain.publishes_all(hops)),
        rows(brain.publishes_all(hops).effects).len() == hops.len(),
        forall|i: int|
            0 <= i < hops.len() ==> (#[trigger] rows(
                brain.publishes_all(hops).effects,
            )[i]).transition == hops[i].result.transition_record,
    decreases hops.len(),
{
    if hops.len() > 0 {
        let before = brain.publishes_all(hops.drop_last());
        publishing_is_numbered(brain, hops.drop_last());
        let one = before.brain.publishes(hops.last());
        assert(one.effects.drop_last() =~= Seq::empty());
        assert(rows(one.effects.drop_last()) =~= Seq::empty());
        assert(rows(one.effects) =~= seq![
            PublishedView {
                car_identity: before.brain.name,
                sequence_no: before.brain.next_record_seq,
                transition: hops.last().result.transition_record,
            },
        ]);
        assert(numbered(before.brain, one));
        numbering_goes_on(brain, before, one);
        rows_of_both(before.effects, one.effects);
    }
}

proof fn acting_publishes_nothing(
    brain: BrainView,
    actions: Seq<DomainActionView>,
    now: Instant,
)
    ensures
        numbered(brain, brain.acts_all(actions, now)),
        rows(brain.acts_all(actions, now).effects).len() == 0,
    decreases actions.len(),
{
    if actions.len() > 0 {
        let before = brain.acts_all(actions.drop_last(), now);
        acting_publishes_nothing(brain, actions.drop_last(), now);
        let one = before.brain.acts(actions.last(), now);
        without_rows(before.brain, one);
        numbering_goes_on(brain, before, one);
        rows_of_both(before.effects, one.effects);
    }
}

/// A committed turn puts exactly one row into the ledger for each of its hops, in order.
pub proof fn commits_publish_their_hops(
    brain: BrainView,
    hops: Seq<HopView>,
    now: Instant,
)
    ensures
        numbered(brain, brain.applied(hops, now)),
        rows(brain.applied(hops, now).effects).len() == hops.len(),
        forall|i: int|
            0 <= i < hops.len() ==> (#[trigger] rows(
                brain.applied(hops, now).effects,
            )[i]).transition == hops[i].result.transition_record,
{
    reveal(BrainView::applied);
    let last = hops.last().result;
    let published = brain.publishes_all(hops);
    let moved = published.brain.at_cut(last.next_state, last.modified_ctx);
    let acted = moved.acts_all(twin_turn::merged(hops), now);
    let announced = acted.brain.announces(brain.mode);
    let settled = announced.brain.confirms(
        brain.ctx.headlamp.state,
        last.modified_ctx.headlamp.state,
    );
    publishing_is_numbered(brain, hops);
    acting_publishes_nothing(moved, twin_turn::merged(hops), now);
    without_rows(acted.brain, announced);
    without_rows(announced.brain, settled);
    numbering_goes_on(brain, published, acted);
    numbering_goes_on(brain, published.and_after(acted), announced);
    numbering_goes_on(brain, published.and_after(acted).and_after(announced), settled);
    rows_of_both(published.effects, acted.effects);
    rows_of_both(published.effects + acted.effects, announced.effects);
    rows_of_both(published.effects + acted.effects + announced.effects, settled.effects);
    assert(rows(brain.applied(hops, now).effects) =~= rows(published.effects));
}

proof fn draining_is_numbered(brain: BrainView, now: Instant)
    ensures
        numbered(brain, brain.drained(now)),
    decreases brain_model::complete_count(brain.queue),
{
    if brain.queue.len() > 0 && brain.queue[0].complete() {
        let front = brain.queue[0];
        let rest = brain.without_front();
        let committed = rest.commits_slot(front, now);
        brain_laws::commits_add_no_complete_slot(rest, front, now);
        let hops = twin_turn::turn(rest.mode, rest.ctx, front.event(), front.now(), front.replies());
        commits_publish_their_hops(rest, hops, now);
        draining_is_numbered(committed.brain, now);
        numbering_goes_on(brain, committed, committed.brain.drained(now));
    }
}

/// Whatever the brain is told, the rows it publishes belong to its car and are numbered without a
/// gap, and `as_of_seq` of a snapshot is the number of the last row. The count goes up to the
/// largest number and stays there.
pub proof fn ledger_is_numbered_without_gaps(
    brain: BrainView,
    message: DigitalTwinCarVocabulary,
    now: Instant,
)
    ensures
        numbered(brain, brain.handled(message, now)),
        brain.handled(message, now).brain.next_record_seq < u64::MAX && brain.next_record_seq > 0
            ==> brain.handled(message, now).brain.as_of_seq() == brain.as_of_seq() + rows(
            brain.handled(message, now).effects,
        ).len(),
{
    let step = brain.received(message, now);
    match message {
        DigitalTwinCarVocabulary::ZoneSpontaneous { zone_id, event } => match event {
            ZoneSpontaneousEvent::Headlamp {
                direction,
                cause,
                reply,
            } => {
                let hops = twin_turn::turn(
                    brain.mode,
                    brain.ctx,
                    FsmEvent::FrontHeadlampActuationIncomplete {
                        direction,
                        cause,
                    },
                    now,
                    Map::empty().insert(ZoneId::Headlamp, ZoneReplyView::Headlamp(reply@)),
                );
                commits_publish_their_hops(brain, hops, now);
            },
        },
        DigitalTwinCarVocabulary::Fsm(event) => {
            let told = brain.heard(event);
            without_rows(brain, told);
            without_rows(told.brain, told.brain.begun(event, now));
            numbering_goes_on(brain, told, told.brain.begun(event, now));
        },
        _ => {
            without_rows(brain, step);
        },
    }
    draining_is_numbered(step.brain, now);
    numbering_goes_on(brain, step, step.brain.drained(now));
}

/// A query changes nothing, and its answer is the brain's cut as of its last row.
pub proof fn queries_change_nothing(brain: BrainView, now: Instant)
    ensures
        brain.handled(DigitalTwinCarVocabulary::GetStatus, now).brain == brain,
        brain.handled(DigitalTwinCarVocabulary::GetStatus, now).effects == seq![
            EffectView::ReplyStatus {
                name: brain.name,
                mode: brain.mode,
                ctx: brain.ctx,
                as_of_seq: brain.as_of_seq(),
            },
        ],
{
}

/// A stale answer or timeout, for a turn that is gone or an attempt that no longer counts, has no
/// effect at all on a brain that waits.
pub proof fn stale_messages_change_nothing(
    brain: BrainView,
    zone_id: ZoneId,
    turn_id: u64,
    tell_attempt: u32,
    reply: ZoneReply,
    now: Instant,
)
    requires
        waits(brain),
        brain.waiting(turn_id) matches Some(barrier) ==> !barrier.attempt_counts(
            zone_id,
            tell_attempt,
        ),
    ensures
        brain.handled(
            DigitalTwinCarVocabulary::ZoneReady { zone_id, turn_id, tell_attempt, reply },
            now,
        ) == BrainStep::rest(brain),
        brain.handled(
            DigitalTwinCarVocabulary::ZoneTellBackTimeout { zone_id, turn_id, tell_attempt },
            now,
        ) == BrainStep::rest(brain),
{
    assert(brain.drained(now) == BrainStep::rest(brain));
    assert(Seq::<EffectView>::empty() + Seq::<EffectView>::empty() =~= Seq::<EffectView>::empty());
}

/// The turns in flight carry increasing numbers below the next one.
pub open spec fn ordered(brain: BrainView) -> bool {
    &&& forall|i: int, j: int|
        0 <= i < j < brain.queue.len() ==> (#[trigger] brain.queue[i]).turn_id() < (
        #[trigger] brain.queue[j]).turn_id()
    &&& forall|i: int|
        0 <= i < brain.queue.len() ==> (#[trigger] brain.queue[i]).turn_id() < brain.next_turn_id
}

proof fn acting_keeps_order(brain: BrainView, actions: Seq<DomainActionView>, now: Instant)
    requires
        ordered(brain),
        brain.acts_all(actions, now).brain.next_turn_id < u64::MAX,
    ensures
        ordered(brain.acts_all(actions, now).brain),
    decreases actions.len(),
{
    if actions.len() > 0 {
        let before = brain.acts_all(actions.drop_last(), now).brain;
        brain_laws::acting_keeps_the_cut(before, actions.last(), now);
        acting_keeps_order(brain, actions.drop_last(), now);
    }
}

proof fn committing_keeps_order(brain: BrainView, hops: Seq<HopView>, now: Instant)
    requires
        ordered(brain),
        brain.applied(hops, now).brain.next_turn_id < u64::MAX,
    ensures
        ordered(brain.applied(hops, now).brain),
{
    reveal(BrainView::applied);
    brain_laws::publishing_counts_rows(brain, hops);
    let last = hops.last().result;
    let moved = brain.publishes_all(hops).brain.at_cut(last.next_state, last.modified_ctx);
    acting_keeps_order(moved, twin_turn::merged(hops), now);
}

proof fn draining_keeps_order(brain: BrainView, now: Instant)
    requires
        ordered(brain),
        brain.drained(now).brain.next_turn_id < u64::MAX,
    ensures
        ordered(brain.drained(now).brain),
    decreases brain_model::complete_count(brain.queue),
{
    if brain.queue.len() > 0 && brain.queue[0].complete() {
        let front = brain.queue[0];
        let rest = brain.without_front();
        assert(ordered(rest)) by {
            assert forall|i: int, j: int| 0 <= i < j < rest.queue.len() implies (
            #[trigger] rest.queue[i]).turn_id() < (#[trigger] rest.queue[j]).turn_id() by {
                assert(rest.queue[i] == brain.queue[i + 1]);
                assert(rest.queue[j] == brain.queue[j + 1]);
            }
            assert forall|i: int| 0 <= i < rest.queue.len() implies (
            #[trigger] rest.queue[i]).turn_id() < rest.next_turn_id by {
                assert(rest.queue[i] == brain.queue[i + 1]);
            }
        }
        let committed = rest.commits_slot(front, now).brain;
        brain_laws::commits_add_no_complete_slot(rest, front, now);
        let hops = twin_turn::turn(rest.mode, rest.ctx, front.event(), front.now(), front.replies());
        turn_numbers_only_grow(committed, now);
        committing_keeps_order(rest, hops, now);
        draining_keeps_order(committed, now);
    }
}

proof fn turn_numbers_only_grow(brain: BrainView, now: Instant)
    ensures
        brain.drained(now).brain.next_turn_id >= brain.next_turn_id,
    decreases brain_model::complete_count(brain.queue),
{
    if brain.queue.len() > 0 && brain.queue[0].complete() {
        let front = brain.queue[0];
        let rest = brain.without_front();
        let committed = rest.commits_slot(front, now).brain;
        brain_laws::commits_add_no_complete_slot(rest, front, now);
        let hops = twin_turn::turn(rest.mode, rest.ctx, front.event(), front.now(), front.replies());
        brain_laws::committing_moves_to_the_last_cut(rest, hops, now);
        turn_numbers_only_grow(committed, now);
    }
}

/// Turn numbers are monotonic: whatever the brain is told, the turns in flight stay numbered in
/// the order of the buffer, each number once, as long as the count has not reached its end.
pub proof fn turns_are_numbered_in_order(
    brain: BrainView,
    message: DigitalTwinCarVocabulary,
    now: Instant,
)
    requires
        ordered(brain),
        brain.handled(message, now).brain.next_turn_id < u64::MAX,
    ensures
        ordered(brain.handled(message, now).brain),
        brain.handled(message, now).brain.next_turn_id >= brain.next_turn_id,
{
    let step = brain.received(message, now);
    turn_numbers_only_grow(step.brain, now);
    match message {
        DigitalTwinCarVocabulary::ZoneSpontaneous { zone_id, event } => match event {
            ZoneSpontaneousEvent::Headlamp {
                direction,
                cause,
                reply,
            } => {
                let hops = twin_turn::turn(
                    brain.mode,
                    brain.ctx,
                    FsmEvent::FrontHeadlampActuationIncomplete {
                        direction,
                        cause,
                    },
                    now,
                    Map::empty().insert(ZoneId::Headlamp, ZoneReplyView::Headlamp(reply@)),
                );
                brain_laws::committing_moves_to_the_last_cut(brain, hops, now);
                committing_keeps_order(brain, hops, now);
            },
        },
        DigitalTwinCarVocabulary::ZoneReady { zone_id, turn_id, tell_attempt, reply } => {
            first_slot_has_the_number(brain.queue, turn_id);
            same_numbers_keep_order(brain, step.brain);
        },
        DigitalTwinCarVocabulary::ZoneTellBackTimeout { zone_id, turn_id, tell_attempt } => {
            first_slot_has_the_number(brain.queue, turn_id);
            same_numbers_keep_order(brain, step.brain);
        },
        _ => {},
    }
    if !(message is GetStatus) {
        draining_keeps_order(step.brain, now);
    }
}

proof fn same_numbers_keep_order(before: BrainView, after: BrainView)
    requires
        ordered(before),
        after.next_turn_id == before.next_turn_id,
        after.queue.len() == before.queue.len(),
        forall|i: int|
            0 <= i < before.queue.len() ==> (#[trigger] after.queue[i]).turn_id()
                == before.queue[i].turn_id(),
    ensures
        ordered(after),
{
}

proof fn first_slot_has_the_number(queue: Seq<EntryView>, turn_id: u64)
    ensures
        0 <= brain_model::position(queue, turn_id) <= queue.len(),
        brain_model::position(queue, turn_id) < queue.len() ==> queue[brain_model::position(
            queue,
            turn_id,
        )].turn_id() == turn_id,
    decreases queue.len(),
{
    if queue.len() > 0 && queue[0].turn_id() != turn_id {
        first_slot_has_the_number(queue.skip(1), turn_id);
    }
}

/// The brain with another slot in one place of its buffer.
pub open spec fn patched(brain: BrainView, i: int, slot: EntryView) -> BrainView {
    BrainView { queue: brain.queue.update(i, slot), ..brain }
}

pub open spec fn patched_step(step: BrainStep, i: int, slot: EntryView) -> BrainStep {
    BrainStep { brain: patched(step.brain, i, slot), effects: step.effects }
}

proof fn publishing_ignores_slots(brain: BrainView, hops: Seq<HopView>, i: int, slot: EntryView)
    requires
        0 <= i < brain.queue.len(),
    ensures
        patched(brain, i, slot).publishes_all(hops) == patched_step(
            brain.publishes_all(hops),
            i,
            slot,
        ),
    decreases hops.len(),
{
    if hops.len() > 0 {
        publishing_ignores_slots(brain, hops.drop_last(), i, slot);
        brain_laws::publishing_counts_rows(brain, hops.drop_last());
    }
}

proof fn acting_ignores_slots(
    brain: BrainView,
    actions: Seq<DomainActionView>,
    now: Instant,
    i: int,
    slot: EntryView,
)
    requires
        0 <= i < brain.queue.len(),
    ensures
        patched(brain, i, slot).acts_all(actions, now) == patched_step(
            brain.acts_all(actions, now),
            i,
            slot,
        ),
    decreases actions.len(),
{
    if actions.len() > 0 {
        acting_ignores_slots(brain, actions.drop_last(), now, i, slot);
        brain_laws::acting_all_keeps_the_cut(brain, actions.drop_last(), now);
        let before = brain.acts_all(actions.drop_last(), now).brain;
        let action = actions.last();
        let with = patched(before, i, slot).acts(action, now);
        let without = before.acts(action, now);
        if action is StartAssemblies || action is StopAssemblies {
            assert(with.brain.queue =~= without.brain.queue.update(i, slot));
        }
        assert(with == patched_step(without, i, slot));
    }
}

/// What a commit does depends on no slot of the buffer, and changes none.
pub proof fn commits_ignore_slots(
    brain: BrainView,
    hops: Seq<HopView>,
    now: Instant,
    i: int,
    slot: EntryView,
)
    requires
        0 <= i < brain.queue.len(),
    ensures
        patched(brain, i, slot).applied(hops, now) == patched_step(
            brain.applied(hops, now),
            i,
            slot,
        ),
        brain.applied(hops, now).brain.queue.len() >= brain.queue.len(),
{
    reveal(BrainView::applied);
    let last = hops.last().result;
    publishing_ignores_slots(brain, hops, i, slot);
    brain_laws::publishing_counts_rows(brain, hops);
    let moved = brain.publishes_all(hops).brain.at_cut(last.next_state, last.modified_ctx);
    acting_ignores_slots(moved, twin_turn::merged(hops), now, i, slot);
    brain_laws::committing_moves_to_the_last_cut(brain, hops, now);
}

proof fn position_in_extension(before: Seq<EntryView>, after: Seq<EntryView>, turn_id: u64)
    requires
        before.len() <= after.len(),
        after.take(before.len() as int) == before,
        brain_model::position(before, turn_id) < before.len(),
    ensures
        brain_model::position(after, turn_id) == brain_model::position(before, turn_id),
    decreases before.len(),
{
    assert(after.take(before.len() as int)[0] == before[0]);
    if before[0].turn_id() != turn_id {
        assert(after.skip(1).take(before.len() - 1) =~= after.take(before.len() as int).skip(1));
        position_in_extension(before.skip(1), after.skip(1), turn_id);
    }
}

proof fn position_after_patch(queue: Seq<EntryView>, i: int, slot: EntryView, turn_id: u64)
    requires
        0 <= i < queue.len(),
        slot.turn_id() == queue[i].turn_id(),
    ensures
        brain_model::position(queue.update(i, slot), turn_id) == brain_model::position(
            queue,
            turn_id,
        ),
    decreases queue.len(),
{
    let after = queue.update(i, slot);
    if queue[0].turn_id() != turn_id {
        if i == 0 {
            assert(after.skip(1) =~= queue.skip(1));
        } else {
            assert(after.skip(1) =~= queue.skip(1).update(i - 1, slot));
            position_after_patch(queue.skip(1), i - 1, slot, turn_id);
        }
    }
}

/// A slot that is filled while the buffer is drained makes no difference to filling it before:
/// draining, filling an incomplete slot and draining again comes to the same as filling it first.
pub proof fn filling_a_slot_may_wait(
    brain: BrainView,
    turn_id: u64,
    slot: EntryView,
    now: Instant,
)
    requires
        brain_model::position(brain.queue, turn_id) < brain.queue.len(),
        !brain.queue[brain_model::position(brain.queue, turn_id)].complete(),
        slot.turn_id() == turn_id,
    ensures
        ({
            let i = brain_model::position(brain.queue, turn_id);
            let first = brain.drained(now);
            let j = brain_model::position(first.brain.queue, turn_id);
            let at_once = patched(brain, i, slot).drained(now);
            let later = patched(first.brain, j, slot).drained(now);
            &&& 0 <= j < first.brain.queue.len()
            &&& first.brain.queue[j] == brain.queue[i]
            &&& at_once.brain == later.brain
            &&& at_once.effects == first.effects + later.effects
        }),
    decreases brain_model::complete_count(brain.queue),
{
    let queue = brain.queue;
    let i = brain_model::position(queue, turn_id);
    first_slot_has_the_number(queue, turn_id);
    let before = patched(brain, i, slot);
    if queue[0].complete() {
        let front = queue[0];
        let rest = brain.without_front();
        assert(i > 0);
        assert(before.queue[0] == front);
        assert(before.without_front().queue =~= rest.queue.update(i - 1, slot));
        assert(before.without_front() == patched(rest, i - 1, slot));
        let hops = twin_turn::turn(rest.mode, rest.ctx, front.event(), front.now(), front.replies());
        commits_ignore_slots(rest, hops, now, i - 1, slot);
        brain_laws::committing_moves_to_the_last_cut(rest, hops, now);
        brain_laws::commits_add_no_complete_slot(rest, front, now);
        brain_laws::commits_add_no_complete_slot(before.without_front(), front, now);
        let committed = rest.commits_slot(front, now);
        position_in_extension(rest.queue, committed.brain.queue, turn_id);
        assert(committed.brain.queue.take(rest.queue.len() as int)[i - 1] == rest.queue[i - 1]);
        assert(before.without_front().commits_slot(front, now) == patched_step(
            committed,
            i - 1,
            slot,
        ));
        filling_a_slot_may_wait(committed.brain, turn_id, slot, now);
        let first = brain.drained(now);
        let inner = committed.brain.drained(now);
        let j = brain_model::position(inner.brain.queue, turn_id);
        let later = patched(inner.brain, j, slot).drained(now);
        assert(committed.effects + (inner.effects + later.effects) =~= first.effects
            + later.effects);
    } else {
        assert(brain.drained(now) == BrainStep::rest(brain));
        let later = before.drained(now);
        assert(Seq::<EffectView>::empty() + later.effects =~= later.effects);
    }
}

/// Everything that is asked for but the stopping of timers.
pub open spec fn but_aborts(effects: Seq<EffectView>) -> Seq<EffectView> {
    effects.filter(|e: EffectView| !(e is AbortTellBackTimer))
}

/// Two messages, one after the other, read at the same time.
#[verifier::opaque]
pub open spec fn told_both(
    brain: BrainView,
    first: DigitalTwinCarVocabulary,
    second: DigitalTwinCarVocabulary,
    now: Instant,
) -> BrainStep {
    let step = brain.handled(first, now);
    step.and_after(step.brain.handled(second, now))
}

/// Zones may answer in any order: the answers for two turns in flight lead to the same brain,
/// with the same turns committed in the same order, whichever comes first. What is asked of the
/// world is the same as well, apart from when the two timers are stopped.
pub proof fn answers_may_come_in_any_order(
    brain: BrainView,
    a_zone: ZoneId,
    a_turn: u64,
    a_attempt: u32,
    a_reply: ZoneReply,
    b_zone: ZoneId,
    b_turn: u64,
    b_attempt: u32,
    b_reply: ZoneReply,
    now: Instant,
)
    requires
        a_turn != b_turn,
        brain.waiting(a_turn) matches Some(a) && !a.complete() && a.attempt_counts(
            a_zone,
            a_attempt,
        ),
        brain.waiting(b_turn) matches Some(b) && !b.complete() && b.attempt_counts(
            b_zone,
            b_attempt,
        ),
    ensures
        ({
            let a = DigitalTwinCarVocabulary::ZoneReady {
                zone_id: a_zone,
                turn_id: a_turn,
                tell_attempt: a_attempt,
                reply: a_reply,
            };
            let b = DigitalTwinCarVocabulary::ZoneReady {
                zone_id: b_zone,
                turn_id: b_turn,
                tell_attempt: b_attempt,
                reply: b_reply,
            };
            let a_then_b = told_both(brain, a, b, now);
            let b_then_a = told_both(brain, b, a, now);
            &&& a_then_b.brain == b_then_a.brain
            &&& but_aborts(a_then_b.effects) == but_aborts(b_then_a.effects)
            &&& rows(a_then_b.effects) == rows(b_then_a.effects)
        }),
{
    one_answer_after_another(
        brain,
        a_zone,
        a_turn,
        a_attempt,
        a_reply,
        b_zone,
        b_turn,
        b_attempt,
        b_reply,
        now,
    );
    one_answer_after_another(
        brain,
        b_zone,
        b_turn,
        b_attempt,
        b_reply,
        a_zone,
        a_turn,
        a_attempt,
        a_reply,
        now,
    );
    let i = brain_model::position(brain.queue, a_turn);
    let j = brain_model::position(brain.queue, b_turn);
    first_slot_has_the_number(brain.queue, a_turn);
    first_slot_has_the_number(brain.queue, b_turn);
    let a_slot = EntryView::Waiting(brain.waiting(a_turn)->0.answered(a_zone, a_reply@));
    let b_slot = EntryView::Waiting(brain.waiting(b_turn)->0.answered(b_zone, b_reply@));
    assert(brain.queue.update(i, a_slot).update(j, b_slot) =~= brain.queue.update(j, b_slot).update(
        i,
        a_slot,
    ));
    assert(patched(patched(brain, i, a_slot), j, b_slot) == patched(
        patched(brain, j, b_slot),
        i,
        a_slot,
    ));
}

/// Both answers, one after the other, come to draining the buffer with both slots filled.
proof fn one_answer_after_another(
    brain: BrainView,
    a_zone: ZoneId,
    a_turn: u64,
    a_attempt: u32,
    a_reply: ZoneReply,
    b_zone: ZoneId,
    b_turn: u64,
    b_attempt: u32,
    b_reply: ZoneReply,
    now: Instant,
)
    requires
        a_turn != b_turn,
        brain.waiting(a_turn) matches Some(a) && !a.complete() && a.attempt_counts(
            a_zone,
            a_attempt,
        ),
        brain.waiting(b_turn) matches Some(b) && !b.complete() && b.attempt_counts(
            b_zone,
            b_attempt,
        ),
    ensures
        ({
            let a = DigitalTwinCarVocabulary::ZoneReady {
                zone_id: a_zone,
                turn_id: a_turn,
                tell_attempt: a_attempt,
                reply: a_reply,
            };
            let b = DigitalTwinCarVocabulary::ZoneReady {
                zone_id: b_zone,
                turn_id: b_turn,
                tell_attempt: b_attempt,
                reply: b_reply,
            };
            let i = brain_model::position(brain.queue, a_turn);
            let j = brain_model::position(brain.queue, b_turn);
            let a_slot = EntryView::Waiting(brain.waiting(a_turn)->0.answered(a_zone, a_reply@));
            let b_slot = EntryView::Waiting(brain.waiting(b_turn)->0.answered(b_zone, b_reply@));
            let both = patched(patched(brain, i, a_slot), j, b_slot).drained(now);
            let a_then_b = told_both(brain, a, b, now);
            &&& a_then_b.brain == both.brain
            &&& but_aborts(a_then_b.effects) == but_aborts(both.effects)
            &&& rows(a_then_b.effects) == rows(both.effects)
        }),
{
    reveal(told_both);
    let i = brain_model::position(brain.queue, a_turn);
    let j = brain_model::position(brain.queue, b_turn);
    first_slot_has_the_number(brain.queue, a_turn);
    first_slot_has_the_number(brain.queue, b_turn);
    let a_slot = EntryView::Waiting(brain.waiting(a_turn)->0.answered(a_zone, a_reply@));
    let b_slot = EntryView::Waiting(brain.waiting(b_turn)->0.answered(b_zone, b_reply@));
    let with_a = patched(brain, i, a_slot);
    position_after_patch(brain.queue, i, a_slot, b_turn);
    assert(with_a.queue[j] == brain.queue[j]);
    filling_a_slot_may_wait(with_a, b_turn, b_slot, now);
    let a_step = brain.zone_answered(a_zone, a_turn, a_attempt, a_reply@);
    assert(a_step.brain == with_a);
    let first = with_a.drained(now);
    let k = brain_model::position(first.brain.queue, b_turn);
    let b_step = first.brain.zone_answered(b_zone, b_turn, b_attempt, b_reply@);
    assert(first.brain.waiting(b_turn) == brain.waiting(b_turn));
    assert(b_step.brain == patched(first.brain, k, b_slot));
    let later = b_step.brain.drained(now);
    let both = patched(with_a, j, b_slot).drained(now);
    let all = (a_step.effects + first.effects) + (b_step.effects + later.effects);
    aborts_do_not_count(a_step.effects);
    aborts_do_not_count(b_step.effects);
    let keep = |e: EffectView| !(e is AbortTellBackTimer);
    Seq::filter_distributes_over_add(a_step.effects, first.effects, keep);
    Seq::filter_distributes_over_add(b_step.effects, later.effects, keep);
    Seq::filter_distributes_over_add(
        a_step.effects + first.effects,
        b_step.effects + later.effects,
        keep,
    );
    Seq::filter_distributes_over_add(first.effects, later.effects, keep);
    assert(but_aborts(all) =~= but_aborts(both.effects));
    rows_of_both(a_step.effects, first.effects);
    rows_of_both(b_step.effects, later.effects);
    rows_of_both(a_step.effects + first.effects, b_step.effects + later.effects);
    rows_of_both(first.effects, later.effects);
    assert(rows(all) =~= rows(both.effects));
}

proof fn aborts_do_not_count(effects: Seq<EffectView>)
    requires
        effects.len() <= 1,
        effects.len() == 1 ==> effects[0] is AbortTellBackTimer,
    ensures
        but_aborts(effects) == Seq::<EffectView>::empty(),
        rows(effects) == Seq::<PublishedView>::empty(),
{
    reveal(Seq::filter);
    if effects.len() == 1 {
        assert(effects.drop_last() =~= Seq::empty());
        let keep = |e: EffectView| !(e is AbortTellBackTimer);
        assert(effects.drop_last().filter(keep) =~= Seq::empty());
        assert(rows(effects.drop_last()) =~= Seq::empty());
    } else {
        assert(effects =~= Seq::empty());
    }
}

/// Row `i` begins in the cut in which the row before it ended.
pub open spec fn continues(rows: Seq<PublishedView>, i: int) -> bool {
    &&& rows[i].transition.old_state == rows[i - 1].transition.next_state
    &&& rows[i].transition.old_ctx == rows[i - 1].transition.current_ctx
}

/// The rows of a step lead without a gap from the cut before the step to the cut after it; a step
/// without rows leaves the cut as it was.
pub open spec fn chained(before: BrainView, step: BrainStep) -> bool {
    let shown = rows(step.effects);
    if shown.len() == 0 {
        step.brain.mode == before.mode && step.brain.ctx == before.ctx
    } else {
        &&& shown[0].transition.old_state == before.mode
        &&& shown[0].transition.old_ctx == before.ctx
        &&& shown.last().transition.next_state == step.brain.mode
        &&& shown.last().transition.current_ctx == step.brain.ctx
        &&& forall|i: int| 0 < i < shown.len() ==> #[trigger] continues(shown, i)
    }
}

proof fn chains_join(before: BrainView, first: BrainStep, second: BrainStep)
    requires
        chained(before, first),
        chained(first.brain, second),
    ensures
        chained(before, first.and_after(second)),
{
    rows_of_both(first.effects, second.effects);
    let (a, b) = (rows(first.effects), rows(second.effects));
    let all = a + b;
    assert forall|i: int| 0 < i < all.len() implies #[trigger] continues(all, i) by {
        if i < a.len() {
            assert(continues(a, i));
        } else if i > a.len() {
            assert(continues(b, i - a.len()));
        }
    }
}

proof fn committing_is_chained(
    brain: BrainView,
    event: FsmEvent,
    arrived: Instant,
    replies: Map<ZoneId, ZoneReplyView>,
    now: Instant,
)
    ensures
        chained(brain, brain.commits(event, arrived, replies, now)),
{
    let hops = twin_turn::turn(brain.mode, brain.ctx, event, arrived, replies);
    let step = brain.commits(event, arrived, replies, now);
    let shown = rows(step.effects);
    twin_turn::turns_quiesce(brain.mode, brain.ctx, event, arrived, replies);
    commits_publish_their_hops(brain, hops, now);
    brain_laws::committing_moves_to_the_last_cut(brain, hops, now);
    twin_turn::hop_rows_mirror_hops(brain.mode, brain.ctx, event, arrived, replies, 0);
    twin_turn::hop_rows_mirror_hops(
        brain.mode,
        brain.ctx,
        event,
        arrived,
        replies,
        hops.len() - 1,
    );
    assert(shown[0].transition == hops[0].result.transition_record);
    assert(shown[shown.len() - 1].transition == hops.last().result.transition_record);
}

proof fn draining_is_chained(brain: BrainView, now: Instant)
    ensures
        chained(brain, brain.drained(now)),
    decreases brain_model::complete_count(brain.queue),
{
    if brain.queue.len() > 0 && brain.queue[0].complete() {
        let front = brain.queue[0];
        let rest = brain.without_front();
        let committed = rest.commits_slot(front, now);
        brain_laws::commits_add_no_complete_slot(rest, front, now);
        committing_is_chained(rest, front.event(), front.now(), front.replies(), now);
        draining_is_chained(committed.brain, now);
        chains_join(brain, committed, committed.brain.drained(now));
    }
}

/// The ledger is a chain of cuts: whatever the brain is told, its first row begins in the cut that
/// the brain showed, each further row where the row before it ended, and the last one ends in the
/// cut that the brain shows then. The cut never changes without a row.
pub proof fn ledger_is_a_chain_of_cuts(
    brain: BrainView,
    message: DigitalTwinCarVocabulary,
    now: Instant,
)
    ensures
        chained(brain, brain.handled(message, now)),
{
    let step = brain.received(message, now);
    match message {
        DigitalTwinCarVocabulary::ZoneSpontaneous { zone_id, event } => match event {
            ZoneSpontaneousEvent::Headlamp { direction, cause, reply } => {
                committing_is_chained(
                    brain,
                    FsmEvent::FrontHeadlampActuationIncomplete { direction, cause },
                    now,
                    Map::empty().insert(ZoneId::Headlamp, ZoneReplyView::Headlamp(reply@)),
                    now,
                );
            },
        },
        _ => {
            without_rows(brain, step);
        },
    }
    if !(message is GetStatus) {
        draining_is_chained(step.brain, now);
        chains_join(brain, step, step.brain.drained(now));
    }
}

/// A run of messages, each with the time at which it is read, one after the other.
pub open spec fn told(brain: BrainView, messages: Seq<(DigitalTwinCarVocabulary, Instant)>) -> BrainStep
    decreases messages.len(),
{
    if messages.len() == 0 {
        BrainStep::rest(brain)
    } else {
        let before = told(brain, messages.drop_last());
        let (message, now) = messages.last();
        before.and_after(before.brain.handled(message, now))
    }
}

proof fn runs_are_numbered(brain: BrainView, messages: Seq<(DigitalTwinCarVocabulary, Instant)>)
    ensures
        numbered(brain, told(brain, messages)),
    decreases messages.len(),
{
    if messages.len() == 0 {
        assert(rows(Seq::empty()) =~= Seq::empty());
    } else {
        let before = told(brain, messages.drop_last());
        let (message, now) = messages.last();
        runs_are_numbered(brain, messages.drop_last());
        ledger_is_numbered_without_gaps(before.brain, message, now);
        numbering_goes_on(brain, before, before.brain.handled(message, now));
    }
}

/// A query counts the ledger: after any run of messages from birth, it is answered with the number
/// of rows that the run has published and with the current cut. It changes nothing, so a second
/// query right after it is answered in the same way. The count goes up to the largest number and
/// stays there.
pub proof fn status_counts_the_rows(
    brain: BrainView,
    messages: Seq<(DigitalTwinCarVocabulary, Instant)>,
    now: Instant,
    later: Instant,
)
    requires
        brain.next_record_seq == 1,
        told(brain, messages).brain.next_record_seq < u64::MAX,
    ensures
        ({
            let after = told(brain, messages);
            let asked = after.brain.handled(DigitalTwinCarVocabulary::GetStatus, now);
            &&& after.brain.as_of_seq() == rows(after.effects).len()
            &&& asked.brain == after.brain
            &&& asked.effects == seq![
                EffectView::ReplyStatus {
                    name: brain.name,
                    mode: after.brain.mode,
                    ctx: after.brain.ctx,
                    as_of_seq: rows(after.effects).len() as u64,
                },
            ]
            &&& asked.brain.handled(DigitalTwinCarVocabulary::GetStatus, later) == asked
        }),
{
    runs_are_numbered(brain, messages);
    queries_change_nothing(told(brain, messages).brain, now);
    queries_change_nothing(told(brain, messages).brain, later);
}

/// An order to an assembly to start or to stop. Telling a zone again is no new order.
pub open spec fn is_order(effect: EffectView) -> bool {
    effect matches EffectView::TellHeadlamp { tell_attempt, message, .. } && tell_attempt == 0 && (
    message is BecomeOn || message is BecomeOff)
}

/// How many orders to assemblies are among effects.
pub open spec fn orders(effects: Seq<EffectView>) -> nat
    decreases effects.len(),
{
    if effects.len() == 0 {
        0
    } else if is_order(effects.last()) {
        orders(effects.drop_last()) + 1
    } else {
        orders(effects.drop_last())
    }
}

proof fn orders_of_both(a: Seq<EffectView>, b: Seq<EffectView>)
    ensures
        orders(a + b) == orders(a) + orders(b),
    decreases b.len(),
{
    if b.len() == 0 {
        assert(a + b =~= a);
    } else {
        orders_of_both(a, b.drop_last());
        assert((a + b).drop_last() =~= a + b.drop_last());
    }
}

proof fn no_orders(effects: Seq<EffectView>)
    requires
        forall|i: int| 0 <= i < effects.len() ==> !is_order(#[trigger] effects[i]),
    ensures
        orders(effects) == 0,
    decreases effects.len(),
{
    if effects.len() > 0 {
        assert forall|i: int| 0 <= i < effects.drop_last().len() implies !is_order(
            #[trigger] effects.drop_last()[i],
        ) by {
            assert(effects.drop_last()[i] == effects[i]);
        }
        no_orders(effects.drop_last());
        assert(!is_order(effects[effects.len() - 1]));
    }
}

/// Each event that has entered and each order to an assembly is in the ledger, as one row, or in
/// flight.
pub open spec fn balanced(before: BrainView, step: BrainStep, entered: nat) -> bool {
    rows(step.effects).len() + step.brain.queue.len() == before.queue.len() + entered + orders(
        step.effects,
    )
}

proof fn balances_add_up(
    before: BrainView,
    first: BrainStep,
    entered_first: nat,
    second: BrainStep,
    entered_second: nat,
)
    requires
        balanced(before, first, entered_first),
        balanced(first.brain, second, entered_second),
    ensures
        balanced(before, first.and_after(second), entered_first + entered_second),
{
    rows_of_both(first.effects, second.effects);
    orders_of_both(first.effects, second.effects);
}

proof fn acting_opens_a_slot_for_each_order(
    brain: BrainView,
    actions: Seq<DomainActionView>,
    now: Instant,
)
    ensures
        brain.acts_all(actions, now).brain.queue.len() == brain.queue.len() + orders(
            brain.acts_all(actions, now).effects,
        ),
    decreases actions.len(),
{
    if actions.len() > 0 {
        let before = brain.acts_all(actions.drop_last(), now);
        let action = actions.last();
        let one = before.brain.acts(action, now);
        acting_opens_a_slot_for_each_order(brain, actions.drop_last(), now);
        orders_of_both(before.effects, one.effects);
        if action is StartAssemblies || action is StopAssemblies {
            let tell = one.effects.drop_last();
            no_orders(tell.drop_last());
            assert(is_order(tell.last()));
            assert(!is_order(one.effects.last()));
            assert(orders(tell) == 1);
            assert(orders(one.effects) == 1);
        } else {
            no_orders(one.effects);
        }
    }
}

proof fn committing_opens_a_slot_for_each_order(
    brain: BrainView,
    hops: Seq<HopView>,
    now: Instant,
)
    ensures
        brain.applied(hops, now).brain.queue.len() == brain.queue.len() + orders(
            brain.applied(hops, now).effects,
        ),
{
    reveal(BrainView::applied);
    let last = hops.last().result;
    let published = brain.publishes_all(hops);
    let moved = published.brain.at_cut(last.next_state, last.modified_ctx);
    let acted = moved.acts_all(twin_turn::merged(hops), now);
    let announced = acted.brain.announces(brain.mode);
    let settled = announced.brain.confirms(
        brain.ctx.headlamp.state,
        last.modified_ctx.headlamp.state,
    );
    brain_laws::publishing_counts_rows(brain, hops);
    publishing_orders_nothing(brain, hops);
    acting_opens_a_slot_for_each_order(moved, twin_turn::merged(hops), now);
    no_orders(announced.effects);
    no_orders(settled.effects);
    orders_of_both(published.effects, acted.effects);
    orders_of_both(published.effects + acted.effects, announced.effects);
    orders_of_both(published.effects + acted.effects + announced.effects, settled.effects);
}

proof fn publishing_orders_nothing(brain: BrainView, hops: Seq<HopView>)
    ensures
        orders(brain.publishes_all(hops).effects) == 0,
    decreases hops.len(),
{
    if hops.len() > 0 {
        let before = brain.publishes_all(hops.drop_last());
        publishing_orders_nothing(brain, hops.drop_last());
        no_orders(before.brain.publishes(hops.last()).effects);
        orders_of_both(before.effects, before.brain.publishes(hops.last()).effects);
    }
}

/// Every turn that draining commits takes one hop.
pub open spec fn drains_singly(brain: BrainView, now: Instant) -> bool
    decreases brain_model::complete_count(brain.queue),
{
    if brain.queue.len() > 0 && brain.queue[0].complete() {
        let front = brain.queue[0];
        let rest = brain.without_front();
        proof {
            brain_laws::commits_add_no_complete_slot(brain.without_front(), brain.queue[0], now);
        }
        &&& twin_turn::turn(
            rest.mode,
            rest.ctx,
            front.event(),
            front.now(),
            front.replies(),
        ).len() == 1
        &&& drains_singly(rest.commits_slot(front, now).brain, now)
    } else {
        true
    }
}

/// Every turn that a message commits takes one hop.
pub open spec fn handled_singly(
    brain: BrainView,
    message: DigitalTwinCarVocabulary,
    now: Instant,
) -> bool {
    &&& match message {
        DigitalTwinCarVocabulary::ZoneSpontaneous { zone_id, event } => match event {
            ZoneSpontaneousEvent::Headlamp { direction, cause, reply } => twin_turn::turn(
                brain.mode,
                brain.ctx,
                FsmEvent::FrontHeadlampActuationIncomplete { direction, cause },
                now,
                Map::empty().insert(ZoneId::Headlamp, ZoneReplyView::Headlamp(reply@)),
            ).len() == 1,
        },
        _ => true,
    }
    &&& message is GetStatus || drains_singly(brain.received(message, now).brain, now)
}

/// Every turn that a run of messages commits takes one hop.
pub open spec fn told_singly(
    brain: BrainView,
    messages: Seq<(DigitalTwinCarVocabulary, Instant)>,
) -> bool
    decreases messages.len(),
{
    messages.len() > 0 ==> {
        let (message, now) = messages.last();
        &&& told_singly(brain, messages.drop_last())
        &&& handled_singly(told(brain, messages.drop_last()).brain, message, now)
    }
}

/// The message carries an event: one from outside, or one that a zone reports of its own accord.
pub open spec fn carries_event(message: DigitalTwinCarVocabulary) -> bool {
    message is Fsm || message is ZoneSpontaneous
}

/// How many messages of a run carry an event.
pub open spec fn events_in(messages: Seq<(DigitalTwinCarVocabulary, Instant)>) -> nat
    decreases messages.len(),
{
    if messages.len() == 0 {
        0
    } else if carries_event(messages.last().0) {
        events_in(messages.drop_last()) + 1
    } else {
        events_in(messages.drop_last())
    }
}

proof fn draining_balances(brain: BrainView, now: Instant)
    requires
        drains_singly(brain, now),
    ensures
        balanced(brain, brain.drained(now), 0),
    decreases brain_model::complete_count(brain.queue),
{
    if brain.queue.len() > 0 && brain.queue[0].complete() {
        let front = brain.queue[0];
        let rest = brain.without_front();
        let committed = rest.commits_slot(front, now);
        brain_laws::commits_add_no_complete_slot(rest, front, now);
        let hops = twin_turn::turn(rest.mode, rest.ctx, front.event(), front.now(), front.replies());
        commits_publish_their_hops(rest, hops, now);
        committing_opens_a_slot_for_each_order(rest, hops, now);
        draining_balances(committed.brain, now);
        balances_add_up(brain, committed, 0, committed.brain.drained(now), 0);
    } else {
        assert(rows(Seq::empty()) =~= Seq::empty());
    }
}

proof fn messages_balance(brain: BrainView, message: DigitalTwinCarVocabulary, now: Instant)
    requires
        handled_singly(brain, message, now),
    ensures
        balanced(
            brain,
            brain.handled(message, now),
            if carries_event(message) {
                1
            } else {
                0
            },
        ),
{
    let step = brain.received(message, now);
    let entered: nat = if carries_event(message) {
        1
    } else {
        0
    };
    match message {
        DigitalTwinCarVocabulary::ZoneSpontaneous { zone_id, event } => match event {
            ZoneSpontaneousEvent::Headlamp { direction, cause, reply } => {
                let hops = twin_turn::turn(
                    brain.mode,
                    brain.ctx,
                    FsmEvent::FrontHeadlampActuationIncomplete { direction, cause },
                    now,
                    Map::empty().insert(ZoneId::Headlamp, ZoneReplyView::Headlamp(reply@)),
                );
                commits_publish_their_hops(brain, hops, now);
                committing_opens_a_slot_for_each_order(brain, hops, now);
            },
        },
        DigitalTwinCarVocabulary::ZoneReady { zone_id, turn_id, tell_attempt, reply } => {
            brain_laws::position_is_in_range(brain.queue, turn_id);
            no_rows(step.effects);
            no_orders(step.effects);
        },
        DigitalTwinCarVocabulary::ZoneTellBackTimeout { zone_id, turn_id, tell_attempt } => {
            brain_laws::position_is_in_range(brain.queue, turn_id);
            no_rows(step.effects);
            no_orders(step.effects);
        },
        _ => {
            no_rows(step.effects);
            no_orders(step.effects);
        },
    }
    if !(message is GetStatus) {
        draining_balances(step.brain, now);
        balances_add_up(brain, step, entered, step.brain.drained(now), 0);
    }
}

proof fn runs_balance(brain: BrainView, messages: Seq<(DigitalTwinCarVocabulary, Instant)>)
    requires
        told_singly(brain, messages),
    ensures
        balanced(brain, told(brain, messages), events_in(messages)),
    decreases messages.len(),
{
    if messages.len() == 0 {
        assert(rows(Seq::empty()) =~= Seq::empty());
    } else {
        let before = told(brain, messages.drop_last());
        let (message, now) = messages.last();
        runs_balance(brain, messages.drop_last());
        messages_balance(before.brain, message, now);
        balances_add_up(
            brain,
            before,
            events_in(messages.drop_last()),
            before.brain.handled(message, now),
            if carries_event(message) {
                1
            } else {
                0
            },
        );
    }
}

/// A query counts the events: after any run of messages from birth whose turns each take one hop,
/// the number that it is answered with and the turns in flight come to the events of the run and
/// the orders to assemblies that it gave. So where no assembly was ordered and nothing is in
/// flight, the answer to `k` events is `k`.
pub proof fn status_counts_the_events(
    brain: BrainView,
    messages: Seq<(DigitalTwinCarVocabulary, Instant)>,
    now: Instant,
)
    requires
        brain.next_record_seq == 1,
        brain.queue.len() == 0,
        told_singly(brain, messages),
        told(brain, messages).brain.next_record_seq < u64::MAX,
    ensures
        ({
            let after = told(brain, messages);
            &&& after.brain.as_of_seq() + after.brain.queue.len() == events_in(messages) + orders(
                after.effects,
            )
            &&& orders(after.effects) == 0 && after.brain.queue.len() == 0
                ==> after.brain.handled(DigitalTwinCarVocabulary::GetStatus, now).effects == seq![
                EffectView::ReplyStatus {
                    name: brain.name,
                    mode: after.brain.mode,
                    ctx: after.brain.ctx,
                    as_of_seq: events_in(messages) as u64,
                },
            ]
        }),
{
    runs_balance(brain, messages);
    status_counts_the_rows(brain, messages, now, now);
}

} // verus!
