//! The operating strategy without assembly preparation.
pub mod transition_map;
