//! The operating strategy without assembly preparation.
pub mod op_strategy;
