//! Which of the answers on the bus the gateway lets through to the twin.
use vstd::prelude::*;

use super::can;
use super::can::{wire_form, WireCommand};
use super::codec::{payload_to_physical, FrontHeadlampPayload};
use crate::domain_types::PhysicalCarVocabulary;
use crate::twin_runtime::controller::actuation_contract::ActuationCommand;

verus! {

pub const NOT_AN_ANSWER: &'static str = "not_an_answer";

pub const NO_PENDING_COMMAND: &'static str = "no_pending_command";

pub const CORRELATION_MISMATCH: &'static str = "correlation_mismatch";

/// The last command that was sent and has not been answered.
#[derive(Clone, Copy, Debug, PartialEq, Eq, Structural)]
pub struct FrontHeadlampPolicy {
    pending: Option<WireCommand>,
}

/// What is done with an answer.
#[derive(Clone, Copy, Debug, PartialEq, Eq)]
pub enum FrontHeadlampPolicyDecision {
    Accept { physical: PhysicalCarVocabulary, session: u16, sequence: u32 },
    Ignore(&'static str),
}

impl Default for FrontHeadlampPolicy {
    fn default() -> (policy: Self)
        ensures
            policy.awaited() is None,
    {
        FrontHeadlampPolicy { pending: None }
    }
}

pub open spec fn direction_of(physical: PhysicalCarVocabulary) -> Option<bool> {
    match physical {
        PhysicalCarVocabulary::FrontHeadlampCommandConfirmed { on_command } => Some(on_command),
        PhysicalCarVocabulary::FrontHeadlampCommandRejected { on_command } => Some(on_command),
        _ => None,
    }
}

/// The payload answers the command: it is an answer, to the same direction, under the same
/// session and sequence number.
pub open spec fn answers(payload: FrontHeadlampPayload, wire: WireCommand) -> bool {
    &&& payload.physical() is Some
    &&& direction_of(payload.physical()->0) == Some(wire.on_command)
    &&& payload.session_id == wire.session_id
    &&& payload.sequence_no == wire.sequence_no
}

impl FrontHeadlampPolicy {
    /// The command whose answer is awaited.
    pub closed spec fn awaited(self) -> Option<WireCommand> {
        self.pending
    }

    /// A command goes out: from now on its answer is awaited. Wiper commands are not answered.
    pub fn on_command_sent(&mut self, cmd: &ActuationCommand)
        ensures
            final(self).awaited() == (match can::wire_command(cmd@) {
                Some(wire) => Some(wire),
                None => old(self).awaited(),
            }),
    {
        if let Some(wire) = wire_form(cmd) {
            self.pending = Some(wire);
        }
    }

    /// An answer comes in. It is let through exactly when it answers the awaited command, which
    /// then is awaited no longer; otherwise the reason for ignoring it comes back.
    pub fn on_response(&mut self, payload: FrontHeadlampPayload) -> (decision:
        FrontHeadlampPolicyDecision)
        ensures
            match old(self).awaited() {
                Some(wire) => if answers(payload, wire) {
                    &&& decision == FrontHeadlampPolicyDecision::Accept {
                        physical: payload.physical()->0,
                        session: payload.session_id,
                        sequence: payload.sequence_no,
                    }
                    &&& final(self).awaited() is None
                } else {
                    &&& decision matches FrontHeadlampPolicyDecision::Ignore(why)
                    &&& why@ == (if payload.physical() is None {
                        NOT_AN_ANSWER@
                    } else {
                        CORRELATION_MISMATCH@
                    })
                    &&& final(self).awaited() == old(self).awaited()
                },
                None => {
                    &&& decision matches FrontHeadlampPolicyDecision::Ignore(why)
                    &&& why@ == (if payload.physical() is None {
                        NOT_AN_ANSWER@
                    } else {
                        NO_PENDING_COMMAND@
                    })
                    &&& final(self).awaited() is None
                },
            },
    {
        let physical = match payload_to_physical(payload) {
            Some(physical) => physical,
            None => {
                return FrontHeadlampPolicyDecision::Ignore(NOT_AN_ANSWER);
            },
        };
        let wire = match self.pending {
            Some(wire) => wire,
            None => {
                return FrontHeadlampPolicyDecision::Ignore(NO_PENDING_COMMAND);
            },
        };
        let on_command = match physical {
            PhysicalCarVocabulary::FrontHeadlampCommandConfirmed { on_command } => on_command,
            PhysicalCarVocabulary::FrontHeadlampCommandRejected { on_command } => on_command,
            _ => {
                return FrontHeadlampPolicyDecision::Ignore(CORRELATION_MISMATCH);
            },
        };
        if on_command == wire.on_command && payload.session_id == wire.session_id
            && payload.sequence_no == wire.sequence_no {
            self.pending = None;
            FrontHeadlampPolicyDecision::Accept {
                physical,
                session: payload.session_id,
                sequence: payload.sequence_no,
            }
        } else {
            FrontHeadlampPolicyDecision::Ignore(CORRELATION_MISMATCH)
        }
    }
}

/// The actuator's answer to a sent command, positive or negative, answers that command.
pub proof fn answers_to_a_command_correlate(wire: WireCommand)
    ensures
        answers(can::payload_for(can::Purpose::Ack, wire), wire),
        answers(can::payload_for(can::Purpose::Nack, wire), wire),
        !answers(can::payload_for(can::Purpose::Command, wire), wire),
{
}

} // verus!
