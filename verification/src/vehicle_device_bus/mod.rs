//! CAN wire protocols of the vehicle's actuators, one module per device.
pub mod can;
pub mod devices;
