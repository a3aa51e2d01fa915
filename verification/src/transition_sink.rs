//! Where ledger rows go.
use vstd::prelude::*;

use crate::fsm::step::{RawTransitionRecord, RecordView};

verus! {

/// A ledger row as it is published: which car, which row, what happened.
#[derive(Debug, PartialEq)]
pub struct PublishedTransitionRecord {
    pub car_identity: String,
    pub sequence_no: u64,
    pub transition: RawTransitionRecord,
}

#[verifier::ext_equal]
pub struct PublishedView {
    pub car_identity: Seq<char>,
    pub sequence_no: u64,
    pub transition: RecordView,
}

impl View for PublishedTransitionRecord {
    type V = PublishedView;

    open spec fn view(&self) -> PublishedView {
        PublishedView {
            car_identity: self.car_identity@,
            sequence_no: self.sequence_no,
            transition: self.transition@,
        }
    }
}

impl Clone for PublishedTransitionRecord {
    fn clone(&self) -> (r: Self)
        ensures
            r@ == self@,
    {
        PublishedTransitionRecord {
            car_identity: self.car_identity.clone(),
            sequence_no: self.sequence_no,
            transition: self.transition.clone(),
        }
    }
}

#[derive(Clone, Copy, Debug, PartialEq, Eq, Structural)]
pub enum TransitionSinkError {
    Full,
    Closed,
}

/// Takes ledger rows without blocking the twin.
pub trait TransitionRecordSink: Send + Sync {
    fn try_emit(&self, record: PublishedTransitionRecord) -> Result<(), TransitionSinkError>;
}

} // verus!
