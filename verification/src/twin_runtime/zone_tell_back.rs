//! The brain's wait for a zone's answer.
use vstd::prelude::*;

use super::constants::ZONE_TELL_RETRIES;
use crate::vehicle_state::front_headlamp::{
    HeadlampContext, HeadlampOutcome, HeadlampOutcomeView, HeadlampReplyView, HeadlampZoneReply,
};
use crate::zones::ZoneId;

verus! {

/// The wait for one zone: which attempt counts, and how many more there may be.
#[derive(Clone, Copy, Debug, PartialEq, Eq, Structural)]
pub struct TellBackWait {
    pub turn_id: u64,
    pub tell_attempt: u32,
    pub retries_remaining: u32,
}

impl TellBackWait {
    pub open spec fn first(turn_id: u64) -> TellBackWait {
        TellBackWait { turn_id, tell_attempt: 0, retries_remaining: ZONE_TELL_RETRIES }
    }

    /// The wait that begins with the first tell of a turn.
    pub fn new(turn_id: u64) -> (wait: TellBackWait)
        ensures
            wait == TellBackWait::first(turn_id),
    {
        TellBackWait { turn_id, tell_attempt: 0, retries_remaining: ZONE_TELL_RETRIES }
    }
}

/// The timer that reports a zone's silence for one attempt of one turn.
#[derive(Clone, Copy, Debug, PartialEq, Eq, Structural)]
pub struct TellBackTimer {
    pub zone_id: ZoneId,
    pub turn_id: u64,
    pub tell_attempt: u32,
}

/// What stands in for the answer of a silent headlamp: nothing has changed.
pub open spec fn unresponsive_answer(ctx: HeadlampContext) -> HeadlampReplyView {
    HeadlampReplyView { ctx, outcomes: Seq::empty() }
}

/// What stands in for the answer of a silent headlamp: nothing has changed.
pub fn synthetic_unresponsive_headlamp_reply(ctx: &HeadlampContext) -> (reply: HeadlampZoneReply)
    ensures
        reply@ == unresponsive_answer(*ctx),
{
    let outcomes: Vec<HeadlampOutcome> = Vec::new();
    let reply = HeadlampZoneReply { ctx: *ctx, outcomes };
    assert(reply@.outcomes =~= Seq::<HeadlampOutcomeView>::empty());
    reply
}

} // verus!
