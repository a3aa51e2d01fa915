//! Facts that the brain reads off a cut.
use vstd::prelude::*;

use crate::fsm::machineries::{FsmEvent, FsmState, Operational};
use crate::vehicle_physics::constants::LUX_ON_THRESHOLD;
use crate::vehicle_state::front_headlamp::HeadlampState;
use crate::vehicle_state::VehicleContext;

verus! {

/// Driving in the dark without confirmed lighting.
pub open spec fn lighting_unsafe(state: FsmState, ctx: VehicleContext) -> bool {
    state == FsmState::Driving && ctx.visibility.ambient_lux <= LUX_ON_THRESHOLD
        && ctx.headlamp.state != HeadlampState::On
}

/// The event that a cut gives rise to by itself.
pub open spec fn internal_event(state: FsmState, ctx: VehicleContext) -> Option<FsmEvent> {
    if lighting_unsafe(state, ctx) {
        Some(FsmEvent::Internal(Operational::LightingUnsafe))
    } else {
        None
    }
}

/// The event that a cut gives rise to by itself, if any.
pub fn detect_internal_after_hop(state: &FsmState, ctx: &VehicleContext) -> (event: Option<
    FsmEvent,
>)
    ensures
        event == internal_event(*state, *ctx),
{
    if *state == FsmState::Driving && ctx.visibility.ambient_lux <= LUX_ON_THRESHOLD
        && ctx.headlamp.state != HeadlampState::On {
        Some(FsmEvent::Internal(Operational::LightingUnsafe))
    } else {
        None
    }
}

} // verus!
