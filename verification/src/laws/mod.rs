//! What the twin promises its driver, written out over the readings and fields of the car.
pub mod brain;
pub mod lamp;
pub mod modes;
pub mod steps;
pub mod texts;
pub mod turns;
pub mod wire;
pub mod zones;
