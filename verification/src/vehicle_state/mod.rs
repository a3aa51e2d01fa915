//! Vehicle state by assembly: each zone's alphabet and context, and their aggregate.
use vstd::prelude::*;

use crate::zones::ZoneSet;
use self::front_headlamp::{HeadlampContext, HeadlampState};
use self::health::VehicleHealthContext;
use self::powertrain::{PowertrainContext, WheelRpm};
use self::visibility::VisibilityContext;
use self::wiper::{WiperContext, WiperState};

pub mod front_headlamp;
pub mod health;
pub mod powertrain;
pub mod visibility;
pub mod wiper;

verus! {

/// All assemblies of the car, as the twin holds them.
///
/// `pending_assemblies` is bookkeeping of the operational state machine rather than assembly
/// state: the zones that still owe their answer while the car prepares to start or to stop.
#[derive(Clone, Copy, Debug, PartialEq, Eq, Structural)]
pub struct VehicleContext {
    pub powertrain: PowertrainContext,
    pub health: VehicleHealthContext,
    pub visibility: VisibilityContext,
    pub headlamp: HeadlampContext,
    pub wiper: WiperContext,
    pub pending_assemblies: ZoneSet,
}

impl Default for VehicleContext {
    fn default() -> (ctx: Self)
        ensures
            ctx.powertrain == (PowertrainContext { wheel_rpm: WheelRpm::all(0), speed_kph: 0 }),
            ctx.health == (VehicleHealthContext {
                fuel_level: 85,
                oil_pressure: 30,
                tyre_pressure_ok: true,
            }),
            ctx.visibility == (VisibilityContext { ambient_lux: 100 }),
            ctx.headlamp == HeadlampContext::settled(HeadlampState::Off),
            ctx.wiper == (WiperContext { state: WiperState::Parked }),
            ctx.pending_assemblies@ == Set::<crate::zones::ZoneId>::empty(),
    {
        VehicleContext {
            powertrain: PowertrainContext::default(),
            health: VehicleHealthContext::default(),
            visibility: VisibilityContext::default(),
            headlamp: HeadlampContext::default(),
            wiper: WiperContext::default(),
            pending_assemblies: ZoneSet::empty(),
        }
    }
}

impl VehicleContext {
    pub fn is_healthy(&self) -> (r: bool)
        ensures
            r == self.health.healthy(),
    {
        self.health.is_healthy()
    }
}

} // verus!
