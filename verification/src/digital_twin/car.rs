//! The twin of one car: correct by construction, moved by steps alone.
use vstd::prelude::*;

use super::state_laws;
use super::state_laws::{verify_state_laws, LawViolation};
use crate::fsm::machineries::FsmState;
use crate::text;
use crate::vehicle_state::VehicleContext;

verus! {

#[derive(Clone, Copy, Debug, PartialEq, Eq, Structural)]
pub enum DigitalTwinCarError {
    /// The identity holds nothing but white space.
    BlankIdentity,
}

/// The twin: an identity that is never blank, a mode and the context of its assemblies.
#[derive(Debug)]
pub struct DigitalTwinCar {
    identity: String,
    current_state: FsmState,
    context: VehicleContext,
}

impl DigitalTwinCar {
    #[verifier::type_invariant]
    spec fn well_formed(self) -> bool {
        self.identity@.len() > 0 && text::trimmed(self.identity@) == self.identity@
    }

    pub closed spec fn name(&self) -> Seq<char> {
        self.identity@
    }

    pub closed spec fn mode(&self) -> FsmState {
        self.current_state
    }

    pub closed spec fn ctx(&self) -> VehicleContext {
        self.context
    }

    /// A twin under the trimmed identity; a blank one is refused.
    pub fn new(identity: &str, current_state: FsmState, context: VehicleContext) -> (car: Result<
        DigitalTwinCar,
        DigitalTwinCarError,
    >)
        ensures
            car is Err <==> text::is_blank(identity@),
            car matches Err(e) ==> e == DigitalTwinCarError::BlankIdentity,
            car matches Ok(c) ==> c.name() == text::trimmed(identity@) && c.mode()
                == current_state && c.ctx() == context,
    {
        let trimmed = text::trim(identity);
        if trimmed.is_empty() {
            return Err(DigitalTwinCarError::BlankIdentity);
        }
        proof {
            text::trimming_settles(identity@);
        }
        Ok(DigitalTwinCar { identity: trimmed.to_owned(), current_state, context })
    }

    /// The identity: not blank, and without white space at its ends.
    pub fn identity(&self) -> (identity: &str)
        ensures
            identity@ == self.name(),
            identity@.len() > 0,
            text::trimmed(identity@) == identity@,
    {
        proof {
            use_type_invariant(self);
        }
        self.identity.as_str()
    }

    pub fn current_state(&self) -> (state: &FsmState)
        ensures
            *state == self.mode(),
    {
        &self.current_state
    }

    pub fn context(&self) -> (context: &VehicleContext)
        ensures
            *context == self.ctx(),
    {
        &self.context
    }

    /// Moves the twin to the cut that a step led to. Nothing else changes a twin.
    pub fn apply_step(&mut self, next_state: FsmState, modified_ctx: VehicleContext)
        ensures
            final(self).mode() == next_state,
            final(self).ctx() == modified_ctx,
            final(self).name() == old(self).name(),
    {
        proof {
            use_type_invariant(&*self);
        }
        self.current_state = next_state;
        self.context = modified_ctx;
    }

    /// Judges the current cut by the state laws.
    pub fn verify_all_invariants(&self) -> (verdict: Result<(), Vec<LawViolation>>)
        ensures
            verdict is Ok <==> state_laws::lawful(self.mode(), self.ctx()),
            verdict matches Err(violations) ==> state_laws::law_names(violations@)
                == state_laws::breaches(self.mode(), self.ctx(), state_laws::catalog().len()),
    {
        verify_state_laws(&self.current_state, &self.context)
    }
}

impl Clone for DigitalTwinCar {
    fn clone(&self) -> (copy: Self)
        ensures
            copy.name() == self.name(),
            copy.mode() == self.mode(),
            copy.ctx() == self.ctx(),
    {
        proof {
            use_type_invariant(self);
        }
        DigitalTwinCar {
            identity: self.identity.clone(),
            current_state: self.current_state,
            context: self.context,
        }
    }
}

/// A copy of the twin as of a ledger sequence number.
#[derive(Debug)]
pub struct CarSnapshot {
    car: DigitalTwinCar,
    as_of_seq: u64,
}

impl CarSnapshot {
    pub closed spec fn twin(&self) -> DigitalTwinCar {
        self.car
    }

    pub closed spec fn seq(&self) -> u64 {
        self.as_of_seq
    }

    pub fn new(car: DigitalTwinCar, as_of_seq: u64) -> (snapshot: CarSnapshot)
        ensures
            snapshot.twin() == car,
            snapshot.seq() == as_of_seq,
    {
        CarSnapshot { car, as_of_seq }
    }

    /// The number of ledger rows that the snapshot accounts for.
    pub fn as_of_seq(&self) -> (seq: u64)
        ensures
            seq == self.seq(),
    {
        self.as_of_seq
    }

    pub fn identity(&self) -> (identity: &str)
        ensures
            identity@ == self.twin().name(),
    {
        self.car.identity()
    }

    pub fn current_state(&self) -> (state: &FsmState)
        ensures
            *state == self.twin().mode(),
    {
        self.car.current_state()
    }

    pub fn context(&self) -> (context: &VehicleContext)
        ensures
            *context == self.twin().ctx(),
    {
        self.car.context()
    }

    /// Judges the snapshot by the state laws.
    pub fn verify_all_invariants(&self) -> (verdict: Result<(), Vec<LawViolation>>)
        ensures
            verdict is Ok <==> state_laws::lawful(self.twin().mode(), self.twin().ctx()),
            verdict matches Err(violations) ==> state_laws::law_names(violations@)
                == state_laws::breaches(
                self.twin().mode(),
                self.twin().ctx(),
                state_laws::catalog().len(),
            ),
    {
        self.car.verify_all_invariants()
    }
}

} // verus!
