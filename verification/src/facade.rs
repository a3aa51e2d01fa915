//! What processes around the twin need of it.
pub use crate::digital_twin::car::CarSnapshot;
pub use crate::domain_types::{PhysicalCarVocabulary, VehicleEvent, VehicleState};
pub use crate::front_headlamp_log::{
    ACK_OFF, ACK_ON, CMD_OFF, CMD_ON, MSG_ACK_OFF, MSG_ACK_ON, MSG_NACK_OFF, MSG_NACK_ON,
    MSG_REQUEST_OFF, MSG_REQUEST_ON, MSG_TIMEOUT_OFF, MSG_TIMEOUT_ON, NACK_OFF, NACK_ON,
    TIMEOUT_OFF, TIMEOUT_ON,
};
pub use crate::signals::VssSignal;
pub use crate::transition_sink::PublishedTransitionRecord;
pub use crate::twin_runtime::controller::actuation_contract::{ActuationCommand, CorrelationId};
pub use crate::twin_runtime::controller::vehicle_controller::VehicleControllerError;
pub use crate::twin_runtime::controller::virtual_car_actor::VehicleControllerRuntimeOptions;
pub use crate::vehicle_state::front_headlamp::LightingState;
