//! The wiper actuator: a command protocol without acknowledgements.
pub mod can;
pub mod codec;
