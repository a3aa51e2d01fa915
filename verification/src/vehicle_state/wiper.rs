//! Wiper assembly zone.
use vstd::prelude::*;

verus! {

/// What the wiper zone is doing.
#[derive(Clone, Copy, Debug, PartialEq, Eq, Structural)]
pub enum WiperState {
    Parked,
    Wiping,
}

/// What the wiper zone is told.
#[derive(Clone, Copy, Debug, PartialEq, Eq, Structural)]
pub enum WiperMessage {
    Start,
    Stop,
}

/// What the wiper zone reports back.
#[derive(Clone, Copy, Debug, PartialEq, Eq, Structural)]
pub enum WiperOutcome {
    Started,
    Stopped,
}

#[derive(Clone, Copy, Debug, PartialEq, Eq, Structural)]
pub struct WiperContext {
    pub state: WiperState,
}

impl Default for WiperContext {
    fn default() -> (ctx: Self)
        ensures
            ctx.state == WiperState::Parked,
    {
        WiperContext { state: WiperState::Parked }
    }
}

/// The wiper zone after a message, with what it reports.
#[derive(Debug, PartialEq)]
pub struct WiperZoneReply {
    pub ctx: WiperContext,
    pub outcomes: Vec<WiperOutcome>,
}

#[verifier::ext_equal]
pub struct WiperReplyView {
    pub ctx: WiperContext,
    pub outcomes: Seq<WiperOutcome>,
}

impl View for WiperZoneReply {
    type V = WiperReplyView;

    open spec fn view(&self) -> WiperReplyView {
        WiperReplyView { ctx: self.ctx, outcomes: self.outcomes@ }
    }
}

impl Clone for WiperZoneReply {
    fn clone(&self) -> (r: Self)
        ensures
            r@ == self@,
    {
        let outcomes = self.outcomes.clone();
        assert(outcomes@ =~= self.outcomes@);
        WiperZoneReply { ctx: self.ctx, outcomes }
    }
}

impl WiperContext {
    /// The wiper follows each message; it reports only a change.
    pub open spec fn received(self, message: WiperMessage) -> WiperReplyView {
        match (message, self.state) {
            (WiperMessage::Start, WiperState::Parked) => WiperReplyView {
                ctx: WiperContext { state: WiperState::Wiping },
                outcomes: seq![WiperOutcome::Started],
            },
            (WiperMessage::Stop, WiperState::Wiping) => WiperReplyView {
                ctx: WiperContext { state: WiperState::Parked },
                outcomes: seq![WiperOutcome::Stopped],
            },
            _ => WiperReplyView { ctx: self, outcomes: Seq::empty() },
        }
    }

    /// Applies a message to the zone.
    pub fn on_receiving_message(&self, message: WiperMessage) -> (reply: WiperZoneReply)
        ensures
            reply@ == self.received(message),
    {
        let mut outcomes: Vec<WiperOutcome> = Vec::new();
        let state = match message {
            WiperMessage::Start => {
                if self.state == WiperState::Parked {
                    outcomes.push(WiperOutcome::Started);
                }
                WiperState::Wiping
            },
            WiperMessage::Stop => {
                if self.state == WiperState::Wiping {
                    outcomes.push(WiperOutcome::Stopped);
                }
                WiperState::Parked
            },
        };
        let reply = WiperZoneReply { ctx: WiperContext { state }, outcomes };
        assert(reply@.outcomes =~= self.received(message).outcomes);
        reply
    }
}

} // verus!
