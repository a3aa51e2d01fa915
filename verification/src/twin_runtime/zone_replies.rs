//! The zone answers collected for one turn.
use vstd::prelude::*;

use crate::digital_twin::vocabulary::{ZoneReply, ZoneReplyView};
use crate::vehicle_state::front_headlamp::HeadlampReplyView;
use crate::vehicle_state::wiper::WiperReplyView;
use crate::zones::{ZoneId, ZoneTable};

verus! {

/// At most one answer for each zone.
#[derive(Debug, PartialEq)]
pub struct ZoneReplies {
    pub replies: ZoneTable<ZoneReply>,
}

impl View for ZoneReplies {
    type V = Map<ZoneId, ZoneReplyView>;

    open spec fn view(&self) -> Map<ZoneId, ZoneReplyView> {
        self.replies@.map_values(|r: ZoneReply| r@)
    }
}

/// The headlamp's answer among the collected ones.
pub open spec fn headlamp_answer(replies: Map<ZoneId, ZoneReplyView>) -> Option<HeadlampReplyView> {
    if replies.dom().contains(ZoneId::Headlamp) {
        match replies[ZoneId::Headlamp] {
            ZoneReplyView::Headlamp(reply) => Some(reply),
            ZoneReplyView::Wiper(_) => None,
        }
    } else {
        None
    }
}

/// The wiper's answer among the collected ones.
pub open spec fn wiper_answer(replies: Map<ZoneId, ZoneReplyView>) -> Option<WiperReplyView> {
    if replies.dom().contains(ZoneId::Wiper) {
        match replies[ZoneId::Wiper] {
            ZoneReplyView::Wiper(reply) => Some(reply),
            ZoneReplyView::Headlamp(_) => None,
        }
    } else {
        None
    }
}

impl ZoneReplies {
    /// No answers: the zones run in process.
    pub fn simulate_locally() -> (replies: ZoneReplies)
        ensures
            replies@ == Map::<ZoneId, ZoneReplyView>::empty(),
    {
        let replies = ZoneReplies { replies: ZoneTable::empty() };
        assert(replies@ =~= Map::<ZoneId, ZoneReplyView>::empty());
        replies
    }

    /// The answer of just one zone.
    pub fn with_reply(zone_id: ZoneId, reply: ZoneReply) -> (replies: ZoneReplies)
        ensures
            replies@ == Map::<ZoneId, ZoneReplyView>::empty().insert(zone_id, reply@),
    {
        let mut table: ZoneTable<ZoneReply> = ZoneTable::empty();
        table.insert(zone_id, reply);
        let replies = ZoneReplies { replies: table };
        assert(replies@ =~= Map::<ZoneId, ZoneReplyView>::empty().insert(zone_id, reply@));
        replies
    }

    /// The answer of a zone.
    pub fn get(&self, id: &ZoneId) -> (reply: Option<&ZoneReply>)
        ensures
            reply is Some <==> self@.dom().contains(*id),
            reply matches Some(r) ==> r@ == self@[*id],
    {
        self.replies.get(*id)
    }
}

impl Default for ZoneReplies {
    fn default() -> (replies: Self)
        ensures
            replies@ == Map::<ZoneId, ZoneReplyView>::empty(),
    {
        ZoneReplies::simulate_locally()
    }
}

} // verus!
