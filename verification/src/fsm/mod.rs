//! The operational state machine.
//!
//! A cut is one snapshot of state and context; a hop leads from one cut to the next.
pub mod machineries;
pub mod transition_map;
pub mod step;
