//! The front headlamp actuator: commands that are acknowledged or rejected.
pub mod can;
pub mod codec;
pub mod policy;
