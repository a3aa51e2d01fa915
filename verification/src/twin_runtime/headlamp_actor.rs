//! The headlamp zone as a partner of the brain: it answers what it is told, and reports of its own
//! accord when the actuator leaves a request unanswered.
use vstd::prelude::*;

use crate::clock::Instant;
use crate::digital_twin::vocabulary::{
    DigitalTwinCarVocabulary, ZoneReply, ZoneReplyView, ZoneSpontaneousEvent,
};
use crate::vehicle_state::front_headlamp::{
    FrontHeadlampIncompleteCause, FrontHeadlampSwitchDirection, HeadlampContext, HeadlampMessage,
    HeadlampState,
};
use crate::zones::ZoneId;

verus! {

/// What the brain tells the headlamp for one attempt of one turn.
#[derive(Clone, Copy, Debug, PartialEq, Eq, Structural)]
pub struct HeadlampActorVocabulary {
    pub message: HeadlampMessage,
    pub now: Instant,
    pub turn_id: u64,
    pub tell_attempt: u32,
}

/// A deadline that the zone sets itself for the actuator's answer.
#[derive(Clone, Copy, Debug, PartialEq, Eq, Structural)]
pub struct AckDeadline {
    pub direction: FrontHeadlampSwitchDirection,
    pub since: Instant,
}

/// What the zone does when it is told something.
#[derive(Debug)]
pub struct HeadlampTold {
    /// The answer to the brain.
    pub answer: DigitalTwinCarVocabulary,
    /// The deadline to watch, where a request was made.
    pub deadline: Option<AckDeadline>,
}

/// The actor that the headlamp zone lives in; its state is a [`HeadlampContext`].
#[derive(Debug)]
pub struct HeadlampActor;

impl Default for HeadlampActor {
    fn default() -> (actor: Self)
        ensures
            actor == HeadlampActor,
    {
        HeadlampActor
    }
}

/// The deadline that a change of context calls for: one for each new request.
pub open spec fn deadline_of(before: HeadlampContext, after: HeadlampContext) -> Option<
    AckDeadline,
> {
    match (after.requested(), after.ack_pending_since) {
        (Some(direction), Some(since)) => if after != before {
            Some(AckDeadline { direction, since })
        } else {
            None
        },
        _ => None,
    }
}

impl HeadlampActor {
    /// Applies what the brain tells and answers it, under the brain's own turn and attempt.
    pub fn apply(state: &mut HeadlampContext, told: HeadlampActorVocabulary) -> (done: HeadlampTold)
        ensures
            *final(state) == old(state).received(told.message, told.now).ctx,
            done.answer matches DigitalTwinCarVocabulary::ZoneReady {
                zone_id,
                turn_id,
                tell_attempt,
                reply,
            } && zone_id == ZoneId::Headlamp && turn_id == told.turn_id && tell_attempt
                == told.tell_attempt && reply@ == ZoneReplyView::Headlamp(
                old(state).received(told.message, told.now).reply(),
            ),
            done.deadline == deadline_of(*old(state), *final(state)),
    {
        let before = *state;
        let reply = before.on_receiving_message(told.message, told.now);
        let after = reply.ctx;
        *state = after;
        let deadline = match (after.state, after.ack_pending_since) {
            (HeadlampState::OnRequested, Some(since)) if after != before => Some(
                AckDeadline { direction: FrontHeadlampSwitchDirection::On, since },
            ),
            (HeadlampState::OffRequested, Some(since)) if after != before => Some(
                AckDeadline { direction: FrontHeadlampSwitchDirection::Off, since },
            ),
            _ => None,
        };
        HeadlampTold {
            answer: DigitalTwinCarVocabulary::ZoneReady {
                zone_id: ZoneId::Headlamp,
                turn_id: told.turn_id,
                tell_attempt: told.tell_attempt,
                reply: ZoneReply::Headlamp(reply),
            },
            deadline,
        }
    }

    /// A deadline passes: the request that it was set for, if it is still unanswered, is undone
    /// and reported to the brain. A deadline of an earlier request is stale.
    pub fn on_ack_deadline(state: &mut HeadlampContext, deadline: AckDeadline, now: Instant) -> (
        report: Option<DigitalTwinCarVocabulary>)
        ensures
            report is Some <==> old(state).requested() == Some(deadline.direction) && old(
                state,
            ).ack_pending_since == Some(deadline.since),
            report is None ==> *final(state) == *old(state),
            report is Some ==> *final(state) == old(state).on_incompletion(
                deadline.direction,
                FrontHeadlampIncompleteCause::TimedOut,
            ).ctx,
            report matches Some(message) ==> (message matches
                DigitalTwinCarVocabulary::ZoneSpontaneous {
                zone_id,
                event: ZoneSpontaneousEvent::Headlamp { direction, cause, reply },
            } && zone_id == ZoneId::Headlamp && direction == deadline.direction && cause
                == FrontHeadlampIncompleteCause::TimedOut && reply@ == old(state).on_incompletion(
                deadline.direction,
                FrontHeadlampIncompleteCause::TimedOut,
            ).reply()),
    {
        let requested = match state.state {
            HeadlampState::OnRequested => Some(FrontHeadlampSwitchDirection::On),
            HeadlampState::OffRequested => Some(FrontHeadlampSwitchDirection::Off),
            _ => None,
        };
        let open = match (requested, state.ack_pending_since) {
            (Some(direction), Some(since)) => direction == deadline.direction && since
                == deadline.since,
            _ => false,
        };
        if !open {
            return None;
        }
        let cause = FrontHeadlampIncompleteCause::TimedOut;
        let reply = state.on_receiving_message(
            HeadlampMessage::ActuationIncomplete { direction: deadline.direction, cause },
            now,
        );
        *state = reply.ctx;
        Some(
            DigitalTwinCarVocabulary::ZoneSpontaneous {
                zone_id: ZoneId::Headlamp,
                event: ZoneSpontaneousEvent::Headlamp {
                    direction: deadline.direction,
                    cause,
                    reply,
                },
            },
        )
    }
}

} // verus!
