//! The brain of the twin and the manager of its actuators.
pub mod actuation_contract;
pub mod actuation_manager;
pub mod brain_journeys;
pub mod brain_laws;
pub mod brain_model;
pub mod virtual_car_actor;
pub mod brain_order;
pub mod vehicle_controller;
