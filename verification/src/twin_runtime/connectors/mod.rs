//! From the physical vocabulary to the twin's.
pub mod physical_to_digital;
pub mod projection;
