//! Front-headlamp log icons and message text.
//!
//! A log line pairs an icon with a message, as in `"[ACTION]: {CMD_ON} {MSG_REQUEST_ON}"`.
use vstd::prelude::*;

use crate::vehicle_state::front_headlamp::{
    FrontHeadlampIncompleteCause, FrontHeadlampSwitchDirection,
};

verus! {

pub const CMD_ON: &'static str = "📤🔆";

pub const CMD_OFF: &'static str = "📤🌑";

pub const ACK_ON: &'static str = "✅💡";

pub const ACK_OFF: &'static str = "✅🌑";

pub const NACK_ON: &'static str = "❌🔆";

pub const NACK_OFF: &'static str = "❌🌑";

pub const TIMEOUT_ON: &'static str = "⏱️💡";

pub const TIMEOUT_OFF: &'static str = "⏱️🌑";

pub const MSG_REQUEST_ON: &'static str = "Requesting front headlamp ON.";

pub const MSG_REQUEST_OFF: &'static str = "Requesting front headlamp OFF.";

pub const MSG_ACK_ON: &'static str = "Front headlamp ON confirmed.";

pub const MSG_ACK_OFF: &'static str = "Front headlamp OFF confirmed.";

pub const MSG_NACK_ON: &'static str = "Front headlamp ON rejected (NACK).";

pub const MSG_NACK_OFF: &'static str = "Front headlamp OFF rejected (NACK).";

pub const MSG_TIMEOUT_ON: &'static str =
    "Front headlamp ON request — no actuator response (timed out).";

pub const MSG_TIMEOUT_OFF: &'static str =
    "Front headlamp OFF request — no actuator response (timed out).";

/// An icon, a blank and a message.
pub open spec fn log_line(icon: Seq<char>, message: Seq<char>) -> Seq<char> {
    icon + " "@ + message
}

/// Joins an icon and a message.
pub fn join_log_line(icon: &str, message: &str) -> (line: String)
    ensures
        line@ == log_line(icon@, message@),
{
    let mut line = String::new();
    line.append(icon);
    line.append(" ");
    line.append(message);
    assert(line@ =~= log_line(icon@, message@));
    line
}

/// The alert text of a command that was not completed.
pub open spec fn incomplete_text(
    direction: FrontHeadlampSwitchDirection,
    cause: FrontHeadlampIncompleteCause,
) -> Seq<char> {
    match (direction, cause) {
        (FrontHeadlampSwitchDirection::On, FrontHeadlampIncompleteCause::TimedOut) => log_line(
            TIMEOUT_ON@,
            MSG_TIMEOUT_ON@,
        ),
        (FrontHeadlampSwitchDirection::Off, FrontHeadlampIncompleteCause::TimedOut) => log_line(
            TIMEOUT_OFF@,
            MSG_TIMEOUT_OFF@,
        ),
        (FrontHeadlampSwitchDirection::On, FrontHeadlampIncompleteCause::NegativeAck) => log_line(
            NACK_ON@,
            MSG_NACK_ON@,
        ),
        (FrontHeadlampSwitchDirection::Off, FrontHeadlampIncompleteCause::NegativeAck) => log_line(
            NACK_OFF@,
            MSG_NACK_OFF@,
        ),
    }
}

/// Full alert line for an incomplete actuation (timeout or negative acknowledgement).
pub fn alert_incomplete(
    direction: FrontHeadlampSwitchDirection,
    cause: FrontHeadlampIncompleteCause,
) -> (line: String)
    ensures
        line@ == incomplete_text(direction, cause),
{
    match (direction, cause) {
        (FrontHeadlampSwitchDirection::On, FrontHeadlampIncompleteCause::TimedOut) => {
            join_log_line(TIMEOUT_ON, MSG_TIMEOUT_ON)
        },
        (FrontHeadlampSwitchDirection::Off, FrontHeadlampIncompleteCause::TimedOut) => {
            join_log_line(TIMEOUT_OFF, MSG_TIMEOUT_OFF)
        },
        (FrontHeadlampSwitchDirection::On, FrontHeadlampIncompleteCause::NegativeAck) => {
            join_log_line(NACK_ON, MSG_NACK_ON)
        },
        (FrontHeadlampSwitchDirection::Off, FrontHeadlampIncompleteCause::NegativeAck) => {
            join_log_line(NACK_OFF, MSG_NACK_OFF)
        },
    }
}

} // verus!
