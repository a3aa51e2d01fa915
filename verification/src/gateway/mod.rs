//! The gateway's decisions between the bus and the twin.
pub mod ingress;
pub mod launch;
