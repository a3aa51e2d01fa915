//! What the brain of the twin is told, and what it tells its zones.
use vstd::prelude::*;

use crate::fsm::machineries::FsmEvent;
use crate::vehicle_state::front_headlamp::{
    FrontHeadlampIncompleteCause, FrontHeadlampSwitchDirection, HeadlampMessage, HeadlampReplyView,
    HeadlampZoneReply,
};
use crate::vehicle_state::wiper::{WiperMessage, WiperReplyView, WiperZoneReply};
use crate::zones::ZoneId;

verus! {

/// A message to one of the zones.
#[derive(Clone, Copy, Debug, PartialEq, Eq, Structural)]
pub enum ZoneMessage {
    Headlamp(HeadlampMessage),
    Wiper(WiperMessage),
}

/// The answer of one of the zones.
#[derive(Debug, PartialEq)]
pub enum ZoneReply {
    Headlamp(HeadlampZoneReply),
    Wiper(WiperZoneReply),
}

#[verifier::ext_equal]
pub enum ZoneReplyView {
    Headlamp(HeadlampReplyView),
    Wiper(WiperReplyView),
}

impl View for ZoneReply {
    type V = ZoneReplyView;

    open spec fn view(&self) -> ZoneReplyView {
        match *self {
            ZoneReply::Headlamp(reply) => ZoneReplyView::Headlamp(reply@),
            ZoneReply::Wiper(reply) => ZoneReplyView::Wiper(reply@),
        }
    }
}

impl Clone for ZoneReply {
    fn clone(&self) -> (r: Self)
        ensures
            r@ == self@,
    {
        match self {
            ZoneReply::Headlamp(reply) => ZoneReply::Headlamp(reply.clone()),
            ZoneReply::Wiper(reply) => ZoneReply::Wiper(reply.clone()),
        }
    }
}

impl ZoneReply {
    /// The reply, where it comes from the headlamp.
    pub fn as_headlamp(&self) -> (reply: Option<&HeadlampZoneReply>)
        ensures
            (match reply {
                Some(r) => self@ == ZoneReplyView::Headlamp(r@),
                None => !(self@ is Headlamp),
            }),
    {
        match self {
            ZoneReply::Headlamp(reply) => Some(reply),
            ZoneReply::Wiper(_) => None,
        }
    }

    /// The reply, where it comes from the wiper.
    pub fn as_wiper(&self) -> (reply: Option<&WiperZoneReply>)
        ensures
            (match reply {
                Some(r) => self@ == ZoneReplyView::Wiper(r@),
                None => !(self@ is Wiper),
            }),
    {
        match self {
            ZoneReply::Headlamp(_) => None,
            ZoneReply::Wiper(reply) => Some(reply),
        }
    }
}

/// What a zone reports of its own accord, without having been told anything.
#[derive(Debug, PartialEq)]
pub enum ZoneSpontaneousEvent {
    /// The acknowledgement deadline of the headlamp passed.
    Headlamp {
        direction: FrontHeadlampSwitchDirection,
        cause: FrontHeadlampIncompleteCause,
        reply: HeadlampZoneReply,
    },
}

/// The brain's mailbox.
#[derive(Debug, PartialEq)]
pub enum DigitalTwinCarVocabulary {
    /// An event for the operational state machine.
    Fsm(FsmEvent),
    /// A zone answers what it was told for a turn.
    ZoneReady { zone_id: ZoneId, turn_id: u64, tell_attempt: u32, reply: ZoneReply },
    /// A zone has not answered in time.
    ZoneTellBackTimeout { zone_id: ZoneId, turn_id: u64, tell_attempt: u32 },
    /// A zone reports of its own accord.
    ZoneSpontaneous { zone_id: ZoneId, event: ZoneSpontaneousEvent },
    /// A reader asks for a snapshot.
    GetStatus,
}

impl From<FsmEvent> for DigitalTwinCarVocabulary {
    fn from(event: FsmEvent) -> (message: DigitalTwinCarVocabulary) {
        DigitalTwinCarVocabulary::Fsm(event)
    }
}

impl vstd::std_specs::convert::FromSpecImpl<FsmEvent> for DigitalTwinCarVocabulary {
    open spec fn obeys_from_spec() -> bool {
        true
    }

    open spec fn from_spec(event: FsmEvent) -> DigitalTwinCarVocabulary {
        DigitalTwinCarVocabulary::Fsm(event)
    }
}

} // verus!
