//! Health assembly: fuel, oil and tyres.
use vstd::prelude::*;

verus! {

#[derive(Clone, Copy, Debug, PartialEq, Eq, Structural)]
pub struct VehicleHealthContext {
    pub fuel_level: u8,
    pub oil_pressure: u8,
    pub tyre_pressure_ok: bool,
}

impl Default for VehicleHealthContext {
    fn default() -> (ctx: Self)
        ensures
            ctx == (VehicleHealthContext {
                fuel_level: 85,
                oil_pressure: 30,
                tyre_pressure_ok: true,
            }),
    {
        VehicleHealthContext { fuel_level: 85, oil_pressure: 30, tyre_pressure_ok: true }
    }
}

impl VehicleHealthContext {
    pub open spec fn healthy(self) -> bool {
        self.fuel_level > 0 && self.oil_pressure > 0 && self.tyre_pressure_ok
    }

    /// Fuel in the tank, oil under pressure and sound tyres.
    pub fn is_healthy(&self) -> (r: bool)
        ensures
            r == self.healthy(),
    {
        self.fuel_level > 0 && self.oil_pressure > 0 && self.tyre_pressure_ok
    }
}

} // verus!
