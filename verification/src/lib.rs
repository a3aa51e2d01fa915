//! A digital twin of a small car: an operational state machine over assembly zones, the brain
//! that orders their turns, and the CAN codecs that feed and obey it.
pub mod clock;
pub mod text;
pub mod zones;
pub mod vehicle_physics;
pub mod vehicle_state;
pub mod front_headlamp_log;
pub mod can_frame;
pub mod signals;
pub mod domain_types;
pub mod fsm;
pub mod digital_twin;
pub mod twin_runtime;
pub mod diagnostic;
pub mod transition_sink;
pub mod vehicle_device_bus;
pub mod gateway;
pub mod engine;
pub mod laws;
pub mod facade;
