//! Vehicle calibration constants and the kinematic formulas over them.
pub mod constants;
pub mod kinematics;
