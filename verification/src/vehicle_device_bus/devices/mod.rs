//! The devices on the bus.
pub mod front_headlamp;
pub mod wiper;
