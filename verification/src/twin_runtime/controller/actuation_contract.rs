//! Commands to the actuators.
use vstd::prelude::*;

verus! {

/// What ties an actuator's answer to the command it answers.
#[derive(Debug, PartialEq, Eq)]
pub struct CorrelationId {
    pub source_id: String,
    pub session_id: u64,
    pub sequence_no: u64,
}

#[verifier::ext_equal]
pub struct CorrelationView {
    pub source_id: Seq<char>,
    pub session_id: u64,
    pub sequence_no: u64,
}

impl View for CorrelationId {
    type V = CorrelationView;

    open spec fn view(&self) -> CorrelationView {
        CorrelationView {
            source_id: self.source_id@,
            session_id: self.session_id,
            sequence_no: self.sequence_no,
        }
    }
}

impl Clone for CorrelationId {
    fn clone(&self) -> (r: Self)
        ensures
            r@ == self@,
    {
        CorrelationId {
            source_id: self.source_id.clone(),
            session_id: self.session_id,
            sequence_no: self.sequence_no,
        }
    }
}

/// A command to an actuator. The wiper's commands are fire-and-forget.
#[derive(Debug, PartialEq, Eq)]
pub enum ActuationCommand {
    SwitchFrontHeadlampOn { correlation_id: CorrelationId },
    SwitchFrontHeadlampOff { correlation_id: CorrelationId },
    StartWiper,
    StopWiper,
}

#[verifier::ext_equal]
pub enum CommandView {
    SwitchFrontHeadlampOn { correlation_id: CorrelationView },
    SwitchFrontHeadlampOff { correlation_id: CorrelationView },
    StartWiper,
    StopWiper,
}

impl View for ActuationCommand {
    type V = CommandView;

    open spec fn view(&self) -> CommandView {
        match *self {
            ActuationCommand::SwitchFrontHeadlampOn { correlation_id } => {
                CommandView::SwitchFrontHeadlampOn { correlation_id: correlation_id@ }
            },
            ActuationCommand::SwitchFrontHeadlampOff { correlation_id } => {
                CommandView::SwitchFrontHeadlampOff { correlation_id: correlation_id@ }
            },
            ActuationCommand::StartWiper => CommandView::StartWiper,
            ActuationCommand::StopWiper => CommandView::StopWiper,
        }
    }
}

impl Clone for ActuationCommand {
    fn clone(&self) -> (r: Self)
        ensures
            r@ == self@,
    {
        match self {
            ActuationCommand::SwitchFrontHeadlampOn { correlation_id } => {
                ActuationCommand::SwitchFrontHeadlampOn { correlation_id: correlation_id.clone() }
            },
            ActuationCommand::SwitchFrontHeadlampOff { correlation_id } => {
                ActuationCommand::SwitchFrontHeadlampOff { correlation_id: correlation_id.clone() }
            },
            ActuationCommand::StartWiper => ActuationCommand::StartWiper,
            ActuationCommand::StopWiper => ActuationCommand::StopWiper,
        }
    }
}

} // verus!
