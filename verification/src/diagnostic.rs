//! Diagnostic messages that the twin emits for its operators.
//!
//! The twin hands each message out; the process around it decides who reads them and how they are
//! shown.
use vstd::prelude::*;

use crate::front_headlamp_log;
use crate::front_headlamp_log::{ACK_OFF, ACK_ON, MSG_ACK_OFF, MSG_ACK_ON};
use crate::fsm::machineries::FsmState;
use crate::text;
use crate::vehicle_physics::constants;
use crate::vehicle_physics::constants::{
    extreme_operation_active, speed_threshold_exceeded, SPEED_EXTREME_OPERATION_THRESHOLD_KPH,
};
use crate::vehicle_state::front_headlamp::FrontHeadlampSwitchDirection;
use crate::vehicle_state::VehicleContext;

verus! {

/// Severity of a diagnostic message.
#[derive(Clone, Copy, Debug, PartialEq, Eq, Structural)]
pub enum DiagnosticLevel {
    Info,
    Action,
    Alert,
    Warning,
    Error,
}

impl DiagnosticLevel {
    pub open spec fn icon_text(self) -> Seq<char> {
        match self {
            DiagnosticLevel::Info => "ℹ️"@,
            DiagnosticLevel::Action => "⚡"@,
            DiagnosticLevel::Alert => "🚨"@,
            DiagnosticLevel::Warning => "⚠️"@,
            DiagnosticLevel::Error => "❌"@,
        }
    }

    /// The icon of the severity.
    pub fn icon(&self) -> (icon: &'static str)
        ensures
            icon@ == self.icon_text(),
    {
        match self {
            DiagnosticLevel::Info => "ℹ️",
            DiagnosticLevel::Action => "⚡",
            DiagnosticLevel::Alert => "🚨",
            DiagnosticLevel::Warning => "⚠️",
            DiagnosticLevel::Error => "❌",
        }
    }
}

/// One diagnostic event.
#[derive(Debug, PartialEq)]
pub struct DiagnosticMessage {
    pub level: DiagnosticLevel,
    pub source: &'static str,
    pub message: String,
    pub timestamp_utc_nanos: u128,
}

/// A diagnostic event apart from its time stamp.
#[verifier::ext_equal]
pub struct DiagnosticView {
    pub level: DiagnosticLevel,
    pub source: Seq<char>,
    pub message: Seq<char>,
}

impl View for DiagnosticMessage {
    type V = DiagnosticView;

    open spec fn view(&self) -> DiagnosticView {
        DiagnosticView { level: self.level, source: self.source@, message: self.message@ }
    }
}

/// Reads the wall clock through `std::time::SystemTime::elapsed`, asked of the Unix epoch: the
/// nanoseconds since then, or `None` where the clock stands before it. Nothing is claimed of the
/// reading.
#[verifier::external_body]
fn nanos_since_unix_epoch() -> (nanos: Option<u128>)
{
    std::time::UNIX_EPOCH.elapsed().ok().map(|d| d.as_nanos())
}

impl DiagnosticMessage {
    /// A message stamped with a given clock reading; a clock before the Unix epoch counts as it.
    pub fn stamped(
        level: DiagnosticLevel,
        source: &'static str,
        message: String,
        clock: Option<u128>,
    ) -> (diagnostic: DiagnosticMessage)
        ensures
            diagnostic.level == level,
            diagnostic.source == source,
            diagnostic.message == message,
            diagnostic.timestamp_utc_nanos == (match clock {
                Some(nanos) => nanos,
                None => 0u128,
            }),
    {
        let timestamp_utc_nanos: u128 = match clock {
            Some(nanos) => nanos,
            None => 0,
        };
        DiagnosticMessage { level, source, message, timestamp_utc_nanos }
    }

    /// A message stamped with the time of the call.
    pub fn new(level: DiagnosticLevel, source: &'static str, message: String) -> (diagnostic:
        DiagnosticMessage)
        ensures
            diagnostic.level == level,
            diagnostic.source == source,
            diagnostic.message == message,
    {
        DiagnosticMessage::stamped(level, source, message, nanos_since_unix_epoch())
    }

    pub fn info(source: &'static str, msg: String) -> (diagnostic: DiagnosticMessage)
        ensures
            diagnostic.level == DiagnosticLevel::Info,
            diagnostic.source == source,
            diagnostic.message == msg,
    {
        DiagnosticMessage::new(DiagnosticLevel::Info, source, msg)
    }

    pub fn action(source: &'static str, msg: String) -> (diagnostic: DiagnosticMessage)
        ensures
            diagnostic.level == DiagnosticLevel::Action,
            diagnostic.source == source,
            diagnostic.message == msg,
    {
        DiagnosticMessage::new(DiagnosticLevel::Action, source, msg)
    }

    pub fn alert(source: &'static str, msg: String) -> (diagnostic: DiagnosticMessage)
        ensures
            diagnostic.level == DiagnosticLevel::Alert,
            diagnostic.source == source,
            diagnostic.message == msg,
    {
        DiagnosticMessage::new(DiagnosticLevel::Alert, source, msg)
    }

    pub fn warning(source: &'static str, msg: String) -> (diagnostic: DiagnosticMessage)
        ensures
            diagnostic.level == DiagnosticLevel::Warning,
            diagnostic.source == source,
            diagnostic.message == msg,
    {
        DiagnosticMessage::new(DiagnosticLevel::Warning, source, msg)
    }

    pub fn error(source: &'static str, msg: String) -> (diagnostic: DiagnosticMessage)
        ensures
            diagnostic.level == DiagnosticLevel::Error,
            diagnostic.source == source,
            diagnostic.message == msg,
    {
        DiagnosticMessage::new(DiagnosticLevel::Error, source, msg)
    }

    /// The message as one line: icon, source and text.
    pub fn render(&self) -> (line: String)
        ensures
            line@ == "["@ + self.level.icon_text() + "]["@ + self.source@ + "] "@ + self.message@,
    {
        let mut line = String::new();
        line.append("[");
        line.append(self.level.icon());
        line.append("][");
        line.append(self.source);
        line.append("] ");
        line.append(self.message.as_str());
        assert(line@ =~= "["@ + self.level.icon_text() + "]["@ + self.source@ + "] "@
            + self.message@);
        line
    }
}

/// Where diagnostic messages go.
pub trait DiagnosticSink: Send + Sync {
    fn try_emit(&self, msg: DiagnosticMessage) -> Result<(), DiagnosticSinkError>;
}

#[derive(Clone, Copy, Debug, PartialEq, Eq, Structural)]
pub enum DiagnosticSinkError {
    Full,
    Closed,
}

/// The name under which the brain emits.
pub const BRAIN: &'static str = "VirtualCarActor";

/// A text of the brain about one car.
pub open spec fn about(identity: Seq<char>, what: Seq<char>) -> Seq<char> {
    "["@ + identity + "]: "@ + what
}

/// A diagnostic of the brain about one car.
pub open spec fn brain_diagnostic(
    level: DiagnosticLevel,
    identity: Seq<char>,
    what: Seq<char>,
) -> DiagnosticView {
    DiagnosticView { level, source: BRAIN@, message: about(identity, what) }
}

fn text_about(identity: &str, what: &str) -> (message: String)
    ensures
        message@ == about(identity@, what@),
{
    let mut message = String::new();
    message.append("[");
    message.append(identity);
    message.append("]: ");
    message.append(what);
    assert(message@ =~= about(identity@, what@));
    message
}

/// The readings shown for a powered car.
pub open spec fn readings_text(speed: u16, rpm: u16) -> Seq<char> {
    ", speed = "@ + text::decimal(speed as nat) + " km/h, RPM = "@ + text::decimal(rpm as nat)
}

/// The announcement of a mode: its name, the readings of a powered car, and how safe they are.
pub open spec fn transition_text(state: FsmState, ctx: VehicleContext) -> Seq<char> {
    let speed = ctx.powertrain.speed_kph;
    let rpm = ctx.powertrain.rpm();
    "Transitioned to "@ + (match state {
        FsmState::Off => "Off"@,
        FsmState::PreparingToStart => "PreparingToStart"@,
        FsmState::PreparingToStop => "PreparingToStop"@,
        FsmState::Idle => "Idle"@ + readings_text(speed, rpm),
        FsmState::Driving => "Driving"@ + readings_text(speed, rpm) + (if constants::over_speed(
            speed,
        ) {
            " (over the "@ + text::decimal(SPEED_EXTREME_OPERATION_THRESHOLD_KPH as nat)
                + " km/h limit)"@
        } else {
            " (within safe limit)"@
        }),
        FsmState::DrivingDangerously => "DrivingDangerously"@ + readings_text(speed, rpm)
            + ", lighting unsafe"@,
        FsmState::ExtremeOperationWarning(_) => "ExtremeOperationWarning"@ + readings_text(
            speed,
            rpm,
        ) + (if constants::extreme(rpm, speed) {
            " (EXCEEDS safe limit — speed & RPM both extreme)"@
        } else {
            " (EXCEEDS safe limit — speed over limit)"@
        }),
    })
}

fn append_readings(out: &mut String, speed: u16, rpm: u16)
    ensures
        final(out)@ == old(out)@ + readings_text(speed, rpm),
{
    out.append(", speed = ");
    text::append_decimal(out, speed as u64);
    out.append(" km/h, RPM = ");
    text::append_decimal(out, rpm as u64);
    assert(out@ =~= old(out)@ + readings_text(speed, rpm));
}

/// Announces the mode that the car has entered.
pub fn diag_state_transition(identity: &str, new_state: &FsmState, ctx: &VehicleContext) -> (
    diagnostic: DiagnosticMessage)
    ensures
        diagnostic@ == brain_diagnostic(
            DiagnosticLevel::Info,
            identity@,
            transition_text(*new_state, *ctx),
        ),
{
    let speed: u16 = ctx.powertrain.speed_kph;
    let rpm: u16 = ctx.powertrain.primary_rpm();
    let mut what = String::new();
    what.append("Transitioned to ");
    match new_state {
        FsmState::Off => what.append("Off"),
        FsmState::PreparingToStart => what.append("PreparingToStart"),
        FsmState::PreparingToStop => what.append("PreparingToStop"),
        FsmState::Idle => {
            what.append("Idle");
            append_readings(&mut what, speed, rpm);
        },
        FsmState::Driving => {
            what.append("Driving");
            append_readings(&mut what, speed, rpm);
            if speed_threshold_exceeded(speed) {
                what.append(" (over the ");
                text::append_decimal(&mut what, SPEED_EXTREME_OPERATION_THRESHOLD_KPH as u64);
                what.append(" km/h limit)");
            } else {
                what.append(" (within safe limit)");
            }
        },
        FsmState::DrivingDangerously => {
            what.append("DrivingDangerously");
            append_readings(&mut what, speed, rpm);
            what.append(", lighting unsafe");
        },
        FsmState::ExtremeOperationWarning(_) => {
            what.append("ExtremeOperationWarning");
            append_readings(&mut what, speed, rpm);
            if extreme_operation_active(rpm, speed) {
                what.append(" (EXCEEDS safe limit — speed & RPM both extreme)");
            } else {
                what.append(" (EXCEEDS safe limit — speed over limit)");
            }
        },
    }
    assert(what@ =~= transition_text(*new_state, *ctx));
    DiagnosticMessage::info(BRAIN, text_about(identity, what.as_str()))
}

/// Announces that the twin of a car is being set up.
pub fn diag_initializing(identity: &str) -> (diagnostic: DiagnosticMessage)
    ensures
        diagnostic@ == (DiagnosticView {
            level: DiagnosticLevel::Info,
            source: BRAIN@,
            message: "Physical Car name: "@ + identity@ + ", initializing its Digital Twin ..."@,
        }),
{
    let mut message = String::new();
    message.append("Physical Car name: ");
    message.append(identity);
    message.append(", initializing its Digital Twin ...");
    assert(message@ =~= "Physical Car name: "@ + identity@
        + ", initializing its Digital Twin ..."@);
    DiagnosticMessage::info(BRAIN, message)
}

/// Reports a heartbeat.
pub fn diag_timer_tick(identity: &str) -> (diagnostic: DiagnosticMessage)
    ensures
        diagnostic@ == brain_diagnostic(
            DiagnosticLevel::Info,
            identity@,
            "received heartbeat TimerTick"@,
        ),
{
    DiagnosticMessage::info(BRAIN, text_about(identity, "received heartbeat TimerTick"))
}

/// The text for an action that could not be carried out.
pub open spec fn failure_text(action: Seq<char>, err: Seq<char>) -> Seq<char> {
    "actuation failure for "@ + action + ": "@ + err
}

/// Reports an action that could not be carried out.
pub fn diag_actuation_failure(identity: &str, action: &str, err: &str) -> (diagnostic:
    DiagnosticMessage)
    ensures
        diagnostic@ == brain_diagnostic(
            DiagnosticLevel::Error,
            identity@,
            failure_text(action@, err@),
        ),
{
    let mut what = String::new();
    what.append("actuation failure for ");
    what.append(action);
    what.append(": ");
    what.append(err);
    assert(what@ =~= failure_text(action@, err@));
    DiagnosticMessage::error(BRAIN, text_about(identity, what.as_str()))
}

/// Reports a warning that a step intends.
pub fn diag_warning(identity: &str, message: &str) -> (diagnostic: DiagnosticMessage)
    ensures
        diagnostic@ == brain_diagnostic(DiagnosticLevel::Warning, identity@, message@),
{
    DiagnosticMessage::warning(BRAIN, text_about(identity, message))
}

/// The text for a positively acknowledged headlamp command.
pub open spec fn confirmation_text(direction: FrontHeadlampSwitchDirection) -> Seq<char> {
    match direction {
        FrontHeadlampSwitchDirection::On => front_headlamp_log::log_line(ACK_ON@, MSG_ACK_ON@),
        FrontHeadlampSwitchDirection::Off => front_headlamp_log::log_line(ACK_OFF@, MSG_ACK_OFF@),
    }
}

/// Reports a positively acknowledged headlamp command.
pub fn diag_front_headlamp_confirmed(
    identity: &str,
    direction: FrontHeadlampSwitchDirection,
) -> (diagnostic: DiagnosticMessage)
    ensures
        diagnostic@ == brain_diagnostic(
            DiagnosticLevel::Info,
            identity@,
            confirmation_text(direction),
        ),
{
    let line = match direction {
        FrontHeadlampSwitchDirection::On => front_headlamp_log::join_log_line(ACK_ON, MSG_ACK_ON),
        FrontHeadlampSwitchDirection::Off => front_headlamp_log::join_log_line(
            ACK_OFF,
            MSG_ACK_OFF,
        ),
    };
    DiagnosticMessage::info(BRAIN, text_about(identity, line.as_str()))
}

/// Reports a ledger row that was dropped because the ledger is full.
pub fn diag_transition_sink_full(identity: &str) -> (diagnostic: DiagnosticMessage)
    ensures
        diagnostic@ == brain_diagnostic(
            DiagnosticLevel::Warning,
            identity@,
            "dropping transition record: sink full"@,
        ),
{
    DiagnosticMessage::warning(
        BRAIN,
        text_about(identity, "dropping transition record: sink full"),
    )
}

/// Reports a ledger row that was dropped because the ledger is closed.
pub fn diag_transition_sink_closed(identity: &str) -> (diagnostic: DiagnosticMessage)
    ensures
        diagnostic@ == brain_diagnostic(
            DiagnosticLevel::Warning,
            identity@,
            "dropping transition record: sink closed"@,
        ),
{
    DiagnosticMessage::warning(
        BRAIN,
        text_about(identity, "dropping transition record: sink closed"),
    )
}

} // verus!
