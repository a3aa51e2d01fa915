//! The runtime of the twin: zones, turns and the brain that orders them.
pub mod connectors;
pub mod constants;
pub mod controller;
pub mod detectors;
pub mod headlamp_actor;
pub mod outcome_map;
pub mod turn_barrier;
pub mod twin_turn;
pub mod zone_replies;
pub mod zone_tell_back;
pub mod zone_turn;
