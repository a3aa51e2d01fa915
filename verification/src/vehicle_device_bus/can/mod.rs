//! What the devices share on the wire.
pub mod wire_kinds;
