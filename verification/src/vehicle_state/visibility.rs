//! Visibility assembly: the latest ambient light reading.
//!
//! The headlamp assembly owns the hysteresis from light to request; this one only holds the value.
use vstd::prelude::*;

verus! {

#[derive(Clone, Copy, Debug, PartialEq, Eq, Structural)]
pub struct VisibilityContext {
    pub ambient_lux: u16,
}

impl Default for VisibilityContext {
    fn default() -> (ctx: Self)
        ensures
            ctx.ambient_lux == 100,
    {
        VisibilityContext { ambient_lux: 100 }
    }
}

impl VisibilityContext {
    /// Stores a reading.
    pub fn apply_lux(&mut self, lux: u16)
        ensures
            *final(self) == (VisibilityContext { ambient_lux: lux }),
    {
        self.ambient_lux = lux;
    }
}

} // verus!
