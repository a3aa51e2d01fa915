//! From zone outcomes to the domain actions that carry them out.
use vstd::prelude::*;

use super::zone_turn;
use super::zone_turn::{ZoneOutcome, ZoneOutcomeView};
use crate::fsm::machineries;
use crate::fsm::machineries::{DomainAction, DomainActionView};
use crate::vehicle_state::front_headlamp;
use crate::vehicle_state::front_headlamp::headlamp_outcome_to_domain_action;

verus! {

/// The domain action of an outcome; the wiper's outcomes have no actuation path.
pub open spec fn action_of(outcome: ZoneOutcomeView) -> Option<DomainActionView> {
    match outcome {
        ZoneOutcomeView::Headlamp(o) => Some(front_headlamp::outcome_action(o)),
        ZoneOutcomeView::Wiper(_) => None,
    }
}

/// The domain actions of a run of outcomes, in order.
pub open spec fn actions_of(outcomes: Seq<ZoneOutcomeView>) -> Seq<DomainActionView>
    decreases outcomes.len(),
{
    if outcomes.len() == 0 {
        Seq::empty()
    } else {
        let head = actions_of(outcomes.drop_last());
        match action_of(outcomes.last()) {
            Some(action) => head.push(action),
            None => head,
        }
    }
}

/// Maps zone outcomes to domain actions, in order.
pub fn zone_outcomes_to_domain_actions(outcomes: Vec<ZoneOutcome>) -> (actions: Vec<DomainAction>)
    ensures
        machineries::action_views(actions@) == actions_of(
            zone_turn::zone_outcome_views(outcomes@),
        ),
{
    let ghost given = zone_turn::zone_outcome_views(outcomes@);
    let ghost all = outcomes@;
    let mut actions: Vec<DomainAction> = Vec::new();
    let mut rest = outcomes;
    assert(machineries::action_views(actions@) =~= actions_of(given.take(0)));
    while rest.len() > 0
        invariant
            given == zone_turn::zone_outcome_views(all),
            rest.len() <= all.len(),
            rest@ == all.skip(all.len() - rest.len()),
            machineries::action_views(actions@) == actions_of(
                given.take(all.len() - rest.len()),
            ),
        decreases rest.len(),
    {
        let ghost done = (all.len() - rest.len()) as int;
        let ghost before = actions@;
        let outcome = rest.remove(0);
        proof {
            assert(outcome == all[done]);
            assert(rest@ =~= all.skip(done + 1));
            assert(given.take(done + 1).drop_last() =~= given.take(done));
            assert(given.take(done + 1).last() == outcome@);
        }
        match outcome {
            ZoneOutcome::Headlamp(o) => {
                let action = headlamp_outcome_to_domain_action(o);
                actions.push(action);
                assert(machineries::action_views(actions@) =~= machineries::action_views(
                    before,
                ).push(action@));
            },
            ZoneOutcome::Wiper(_) => {},
        }
    }
    assert(given.take(all.len() as int) =~= given);
    actions
}

/// Mapping a run of outcomes is mapping its parts one after the other, so the order of zones is
/// the order of their actions.
pub proof fn mapping_keeps_order(a: Seq<ZoneOutcomeView>, b: Seq<ZoneOutcomeView>)
    ensures
        actions_of(a + b) == actions_of(a) + actions_of(b),
    decreases b.len(),
{
    if b.len() == 0 {
        assert(a + b =~= a);
        assert(actions_of(a) + actions_of(b) =~= actions_of(a));
    } else {
        mapping_keeps_order(a, b.drop_last());
        assert((a + b).drop_last() =~= a + b.drop_last());
        assert((a + b).last() == b.last());
        assert(actions_of(a + b) =~= actions_of(a) + actions_of(b));
    }
}

} // verus!
