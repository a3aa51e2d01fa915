//! Laws that every cut of a legal journey obeys, as an oracle for observers.
//!
//! The laws are judged after the fact; the state machine never waits for them.
use vstd::prelude::*;

use crate::fsm::machineries::FsmState;
use crate::vehicle_physics::constants::RPM_DRIVING_THRESHOLD;
use crate::vehicle_state::VehicleContext;

verus! {

/// A named law over one cut.
#[derive(Clone, Copy, Debug, PartialEq, Eq, Structural)]
pub enum StateLaw {
    /// A car that is off stands still.
    StandstillWhenOff,
    /// The engine of a driving car turns above the driving threshold.
    RpmAboveThreshold,
}

/// A law that a cut breaches.
#[derive(Clone, Copy, Debug, PartialEq, Eq)]
pub struct LawViolation {
    pub law: &'static str,
}

impl StateLaw {
    pub open spec fn label(self) -> Seq<char> {
        match self {
            StateLaw::StandstillWhenOff => "standstill_when_off"@,
            StateLaw::RpmAboveThreshold => "rpm_above_threshold"@,
        }
    }

    /// What the law says of a cut.
    pub open spec fn holds(self, state: FsmState, ctx: VehicleContext) -> bool {
        match self {
            StateLaw::StandstillWhenOff => state == FsmState::Off ==> ctx.powertrain.speed_kph == 0,
            StateLaw::RpmAboveThreshold => state == FsmState::Driving ==> ctx.powertrain.rpm()
                > RPM_DRIVING_THRESHOLD,
        }
    }

    /// The name of the law.
    pub fn name(&self) -> (name: &'static str)
        ensures
            name@ == self.label(),
    {
        match self {
            StateLaw::StandstillWhenOff => "standstill_when_off",
            StateLaw::RpmAboveThreshold => "rpm_above_threshold",
        }
    }

    /// Whether a cut obeys the law.
    pub fn check(&self, state: &FsmState, ctx: &VehicleContext) -> (r: bool)
        ensures
            r == self.holds(*state, *ctx),
    {
        match self {
            StateLaw::StandstillWhenOff => *state != FsmState::Off || ctx.powertrain.speed_kph == 0,
            StateLaw::RpmAboveThreshold => *state != FsmState::Driving
                || ctx.powertrain.primary_rpm() > RPM_DRIVING_THRESHOLD,
        }
    }
}

/// The catalog of laws.
pub open spec fn catalog() -> Seq<StateLaw> {
    seq![StateLaw::StandstillWhenOff, StateLaw::RpmAboveThreshold]
}

/// The catalog of laws.
pub fn state_laws() -> (laws: Vec<StateLaw>)
    ensures
        laws@ == catalog(),
{
    let mut laws: Vec<StateLaw> = Vec::new();
    laws.push(StateLaw::StandstillWhenOff);
    laws.push(StateLaw::RpmAboveThreshold);
    assert(laws@ =~= catalog());
    laws
}

/// The names of the laws that a cut breaches, among the first `n` of the catalog.
pub open spec fn breaches(state: FsmState, ctx: VehicleContext, n: nat) -> Seq<Seq<char>>
    decreases n,
{
    if n == 0 {
        Seq::empty()
    } else {
        let before = breaches(state, ctx, (n - 1) as nat);
        let law = catalog()[n - 1];
        if law.holds(state, ctx) {
            before
        } else {
            before.push(law.label())
        }
    }
}

pub open spec fn law_names(violations: Seq<LawViolation>) -> Seq<Seq<char>> {
    violations.map_values(|v: LawViolation| v.law@)
}

/// A cut is lawful when every law of the catalog holds of it.
pub open spec fn lawful(state: FsmState, ctx: VehicleContext) -> bool {
    forall|i: int| 0 <= i < catalog().len() ==> (#[trigger] catalog()[i]).holds(state, ctx)
}

/// Judges a cut by every law of the catalog; the error names the breached ones in catalog order.
pub fn verify_state_laws(state: &FsmState, ctx: &VehicleContext) -> (verdict: Result<
    (),
    Vec<LawViolation>,
>)
    ensures
        verdict is Ok <==> lawful(*state, *ctx),
        verdict matches Err(violations) ==> law_names(violations@) == breaches(
            *state,
            *ctx,
            catalog().len(),
        ),
{
    let laws = state_laws();
    let mut violations: Vec<LawViolation> = Vec::new();
    let mut i: usize = 0;
    assert(law_names(violations@) =~= breaches(*state, *ctx, 0));
    while i < laws.len()
        invariant
            laws@ == catalog(),
            i <= laws.len(),
            law_names(violations@) == breaches(*state, *ctx, i as nat),
            violations.len() == 0 <==> (forall|k: int|
                0 <= k < i ==> (#[trigger] catalog()[k]).holds(*state, *ctx)),
        decreases laws.len() - i,
    {
        let ghost before = violations@;
        if !laws[i].check(state, ctx) {
            violations.push(LawViolation { law: laws[i].name() });
            assert(law_names(violations@) =~= law_names(before).push(catalog()[i as int].label()));
        }
        i = i + 1;
    }
    if violations.len() == 0 {
        Ok(())
    } else {
        Err(violations)
    }
}

} // verus!
