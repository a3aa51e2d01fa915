//! Carries domain actions out: what is reported and what the actuators are commanded.
use vstd::prelude::*;

use super::actuation_contract::{ActuationCommand, CommandView, CorrelationId, CorrelationView};
use crate::diagnostic::{DiagnosticLevel, DiagnosticMessage, DiagnosticView};
use crate::digital_twin::car::DigitalTwinCar;
use crate::domain_types::VehicleState;
use crate::front_headlamp_log;
use crate::front_headlamp_log::{CMD_OFF, CMD_ON, MSG_REQUEST_OFF, MSG_REQUEST_ON};
use crate::fsm::machineries::{DomainAction, DomainActionView, FsmState};
use crate::text;

verus! {

#[derive(Clone, Copy, Debug, PartialEq, Eq)]
pub enum ActuationError {
    UnsupportedAction(&'static str),
}

impl ActuationError {
    /// The error as text.
    pub open spec fn text(self) -> Seq<char> {
        match self {
            ActuationError::UnsupportedAction(why) => text::bracketed_text(
                "UnsupportedAction"@,
                text::debug_text(why@),
            ),
        }
    }

    /// The error as text.
    pub fn render(&self) -> (line: String)
        ensures
            line@ == self.text(),
    {
        match self {
            ActuationError::UnsupportedAction(why) => text::bracketed(
                "UnsupportedAction",
                text::quoted(why).as_str(),
            ),
        }
    }
}

/// What carrying an action out amounts to.
#[derive(Debug, PartialEq)]
pub struct ActuationPlan {
    /// What is reported, where someone listens.
    pub diagnostic: Option<DiagnosticMessage>,
    /// What an actuator is commanded.
    pub command: Option<ActuationCommand>,
}

impl ActuationPlan {
    pub open spec fn diagnostic_view(&self) -> Option<DiagnosticView> {
        match self.diagnostic {
            Some(d) => Some(d@),
            None => None,
        }
    }

    pub open spec fn command_view(&self) -> Option<CommandView> {
        match self.command {
            Some(c) => Some(c@),
            None => None,
        }
    }
}

/// Carries domain actions out.
pub trait ActuationManager {
    fn execute(&mut self, action: &DomainAction, twin: &DigitalTwinCar) -> (plan: Result<
        ActuationPlan,
        ActuationError,
    >);
}

/// Commands the actuators under a source and a session, numbering the commands; without a
/// source it commands nothing.
#[derive(Debug)]
pub struct DefaultActuationManager {
    source_id: Option<String>,
    session_id: u64,
    next_sequence_no: u64,
    reports: bool,
}

#[verifier::ext_equal]
pub struct ManagerView {
    pub source_id: Option<Seq<char>>,
    pub session_id: u64,
    pub next_sequence_no: u64,
    /// Someone listens to what is reported.
    pub reports: bool,
}

impl View for DefaultActuationManager {
    type V = ManagerView;

    closed spec fn view(&self) -> ManagerView {
        ManagerView {
            source_id: match self.source_id {
                Some(s) => Some(s@),
                None => None,
            },
            session_id: self.session_id,
            next_sequence_no: self.next_sequence_no,
            reports: self.reports,
        }
    }
}

pub const MANAGER: &'static str = "DefaultActuationManager";

/// The manager's report of an action, at a time written as `stamp`, on a car in `state`.
pub open spec fn report_of(action: DomainActionView, state: FsmState, stamp: Seq<char>) -> Option<
    DiagnosticView,
> {
    let acted = "[ACTION @ "@ + stamp + "]: "@;
    match action {
        DomainActionView::StartBuzzer => Some(
            DiagnosticView {
                level: DiagnosticLevel::Action,
                source: MANAGER@,
                message: acted + "🔊 BUZZER ON - High Stress Detected!"@,
            },
        ),
        DomainActionView::StopBuzzer => Some(
            DiagnosticView {
                level: DiagnosticLevel::Action,
                source: MANAGER@,
                message: acted + "🔇 BUZZER OFF - System Normal."@,
            },
        ),
        DomainActionView::PublishStateSync => Some(
            DiagnosticView {
                level: DiagnosticLevel::Info,
                source: MANAGER@,
                message: acted + ("📡 Publishing to Cloud: "@ + state.public_state().label()),
            },
        ),
        DomainActionView::LogWarning(message) => Some(
            DiagnosticView {
                level: DiagnosticLevel::Warning,
                source: MANAGER@,
                message: "[ALERT @ "@ + stamp + "]: "@ + message,
            },
        ),
        DomainActionView::RequestFrontHeadlampOn => Some(
            DiagnosticView {
                level: DiagnosticLevel::Action,
                source: MANAGER@,
                message: acted + front_headlamp_log::log_line(CMD_ON@, MSG_REQUEST_ON@),
            },
        ),
        DomainActionView::RequestFrontHeadlampOff => Some(
            DiagnosticView {
                level: DiagnosticLevel::Action,
                source: MANAGER@,
                message: acted + front_headlamp_log::log_line(CMD_OFF@, MSG_REQUEST_OFF@),
            },
        ),
        DomainActionView::StartAssemblies
        | DomainActionView::StopAssemblies
        | DomainActionView::EnterMode(_) => None,
    }
}

impl ManagerView {
    /// The next correlation, where the manager commands at all.
    pub open spec fn next_correlation(self) -> Option<CorrelationView> {
        match self.source_id {
            Some(source_id) => Some(
                CorrelationView {
                    source_id,
                    session_id: self.session_id,
                    sequence_no: self.next_sequence_no,
                },
            ),
            None => None,
        }
    }

    /// The command that an action leads to.
    pub open spec fn command_for(self, action: DomainActionView) -> Option<CommandView> {
        match (action, self.next_correlation()) {
            (DomainActionView::RequestFrontHeadlampOn, Some(correlation_id)) => Some(
                CommandView::SwitchFrontHeadlampOn { correlation_id },
            ),
            (DomainActionView::RequestFrontHeadlampOff, Some(correlation_id)) => Some(
                CommandView::SwitchFrontHeadlampOff { correlation_id },
            ),
            _ => None,
        }
    }

    /// The manager after an action: a command uses up its number. The count starts over past the
    /// largest number.
    pub open spec fn after(self, action: DomainActionView) -> ManagerView {
        if self.command_for(action) is Some {
            ManagerView {
                next_sequence_no: if self.next_sequence_no < u64::MAX {
                    (self.next_sequence_no + 1) as u64
                } else {
                    0
                },
                ..self
            }
        } else {
            self
        }
    }
}

impl DefaultActuationManager {
    /// A manager that commands actuators on behalf of `source_id`, numbering from one.
    pub fn with_command_channel(source_id: String, session_id: u64) -> (manager:
        DefaultActuationManager)
        ensures
            manager@ == (ManagerView {
                source_id: Some(source_id@),
                session_id,
                next_sequence_no: 1,
                reports: false,
            }),
    {
        DefaultActuationManager {
            source_id: Some(source_id),
            session_id,
            next_sequence_no: 1,
            reports: false,
        }
    }

    /// Says whether someone listens to what the manager reports.
    pub fn set_diagnostic_sink(&mut self, attached: bool)
        ensures
            final(self)@ == (ManagerView { reports: attached, ..old(self)@ }),
    {
        self.reports = attached;
    }

    fn next_correlation_id(&mut self) -> (id: Option<CorrelationId>)
        ensures
            (match id {
                Some(i) => Some(i@),
                None => None,
            }) == old(self)@.next_correlation(),
            final(self)@ == (if old(self)@.source_id is Some {
                ManagerView {
                    next_sequence_no: if old(self)@.next_sequence_no < u64::MAX {
                        (old(self)@.next_sequence_no + 1) as u64
                    } else {
                        0
                    },
                    ..old(self)@
                }
            } else {
                old(self)@
            }),
    {
        let source_id = match &self.source_id {
            Some(source_id) => source_id.clone(),
            None => {
                return None;
            },
        };
        let sequence_no: u64 = self.next_sequence_no;
        self.next_sequence_no = if sequence_no < u64::MAX {
            sequence_no + 1
        } else {
            0
        };
        Some(CorrelationId { source_id, session_id: self.session_id, sequence_no })
    }

    /// What carrying an action out amounts to at the time written as `stamp`.
    pub fn plan(&mut self, action: &DomainAction, twin: &DigitalTwinCar, stamp: &str) -> (plan:
        ActuationPlan)
        ensures
            final(self)@ == old(self)@.after(action@),
            plan.command_view() == old(self)@.command_for(action@),
            plan.diagnostic_view() == (if old(self)@.reports {
                report_of(action@, twin.mode(), stamp@)
            } else {
                None
            }),
    {
        let diagnostic = if self.reports {
            report(action, twin.current_state(), stamp)
        } else {
            None
        };
        let command = match action {
            DomainAction::RequestFrontHeadlampOn => match self.next_correlation_id() {
                Some(correlation_id) => Some(
                    ActuationCommand::SwitchFrontHeadlampOn { correlation_id },
                ),
                None => None,
            },
            DomainAction::RequestFrontHeadlampOff => match self.next_correlation_id() {
                Some(correlation_id) => Some(
                    ActuationCommand::SwitchFrontHeadlampOff { correlation_id },
                ),
                None => None,
            },
            _ => None,
        };
        ActuationPlan { diagnostic, command }
    }
}

impl Default for DefaultActuationManager {
    fn default() -> (manager: Self)
        ensures
            manager@ == (ManagerView {
                source_id: None,
                session_id: 0,
                next_sequence_no: 1,
                reports: false,
            }),
    {
        DefaultActuationManager {
            source_id: None,
            session_id: 0,
            next_sequence_no: 1,
            reports: false,
        }
    }
}

impl ActuationManager for DefaultActuationManager {
    /// Carries an action out now. No action is refused.
    fn execute(&mut self, action: &DomainAction, twin: &DigitalTwinCar) -> (plan: Result<
        ActuationPlan,
        ActuationError,
    >)
        ensures
            plan is Ok,
            final(self)@ == old(self)@.after(action@),
            plan->Ok_0.command_view() == old(self)@.command_for(action@),
            plan->Ok_0.diagnostic_view() is Some <==> old(self)@.reports && report_of(
                action@,
                twin.mode(),
                Seq::empty(),
            ) is Some,
            old(self)@.reports ==> exists|hour: u8, minute: u8, second: u8, nanos: u32|
                hour < 24 && minute < 60 && second < 60 && nanos < 1_000_000_000
                    && plan->Ok_0.diagnostic_view() == report_of(
                    action@,
                    twin.mode(),
                    #[trigger] stamp_text(hour, minute, second, nanos),
                ),
    {
        let stamp = action_timestamp();
        proof {
            let (hour, minute, second, nanos) = choose|hour: u8, minute: u8, second: u8, nanos: u32|
                hour < 24 && minute < 60 && second < 60 && nanos < 1_000_000_000 && stamp@
                    == #[trigger] stamp_text(hour, minute, second, nanos);
            assert(stamp@ == stamp_text(hour, minute, second, nanos));
        }
        Ok(self.plan(action, twin, stamp.as_str()))
    }
}

fn stamped_line(tag: &str, stamp: &str, what: &str) -> (line: String)
    ensures
        line@ == tag@ + stamp@ + "]: "@ + what@,
{
    let mut line = String::new();
    line.append(tag);
    line.append(stamp);
    line.append("]: ");
    line.append(what);
    assert(line@ =~= tag@ + stamp@ + "]: "@ + what@);
    line
}

fn report(action: &DomainAction, state: &FsmState, stamp: &str) -> (diagnostic: Option<
    DiagnosticMessage,
>)
    ensures
        (match diagnostic {
            Some(d) => Some(d@),
            None => None,
        }) == report_of(action@, *state, stamp@),
{
    match action {
        DomainAction::StartBuzzer => Some(
            DiagnosticMessage::action(
                MANAGER,
                stamped_line("[ACTION @ ", stamp, "🔊 BUZZER ON - High Stress Detected!"),
            ),
        ),
        DomainAction::StopBuzzer => Some(
            DiagnosticMessage::action(
                MANAGER,
                stamped_line("[ACTION @ ", stamp, "🔇 BUZZER OFF - System Normal."),
            ),
        ),
        DomainAction::PublishStateSync => {
            let public_state = VehicleState::from(state);
            let mut what = String::new();
            what.append("📡 Publishing to Cloud: ");
            what.append(public_state.name());
            assert(what@ =~= "📡 Publishing to Cloud: "@ + state.public_state().label());
            Some(
                DiagnosticMessage::info(
                    MANAGER,
                    stamped_line("[ACTION @ ", stamp, what.as_str()),
                ),
            )
        },
        DomainAction::LogWarning(message) => Some(
            DiagnosticMessage::warning(
                MANAGER,
                stamped_line("[ALERT @ ", stamp, message.as_str()),
            ),
        ),
        DomainAction::RequestFrontHeadlampOn => {
            let what = front_headlamp_log::join_log_line(CMD_ON, MSG_REQUEST_ON);
            Some(
                DiagnosticMessage::action(
                    MANAGER,
                    stamped_line("[ACTION @ ", stamp, what.as_str()),
                ),
            )
        },
        DomainAction::RequestFrontHeadlampOff => {
            let what = front_headlamp_log::join_log_line(CMD_OFF, MSG_REQUEST_OFF);
            Some(
                DiagnosticMessage::action(
                    MANAGER,
                    stamped_line("[ACTION @ ", stamp, what.as_str()),
                ),
            )
        },
        DomainAction::StartAssemblies
        | DomainAction::StopAssemblies
        | DomainAction::EnterMode(_) => None,
    }
}

/// A time of day: hours, minutes and seconds in two digits each, then nanoseconds in nine.
pub open spec fn stamp_text(hour: u8, minute: u8, second: u8, nanos: u32) -> Seq<char> {
    text::padded(hour as nat, 2) + ":"@ + text::padded(minute as nat, 2) + ":"@ + text::padded(
        second as nat,
        2,
    ) + " "@ + text::padded(nanos as nat, 9)
}

/// Writes a time of day.
pub fn format_timestamp(hour: u8, minute: u8, second: u8, nanos: u32) -> (stamp: String)
    ensures
        stamp@ == stamp_text(hour, minute, second, nanos),
{
    let mut stamp = String::new();
    text::append_padded(&mut stamp, hour as u64, 2);
    stamp.append(":");
    text::append_padded(&mut stamp, minute as u64, 2);
    stamp.append(":");
    text::append_padded(&mut stamp, second as u64, 2);
    stamp.append(" ");
    text::append_padded(&mut stamp, nanos as u64, 9);
    assert(stamp@ =~= stamp_text(hour, minute, second, nanos));
    stamp
}

/// Reads the time of day in UTC with `time::OffsetDateTime::now_utc`: hour, minute, second and
/// nanosecond, each within its range on the clock. Nothing else is claimed of the reading.
#[verifier::external_body]
fn utc_time_of_day() -> (t: (u8, u8, u8, u32))
    ensures
        t.0 < 24,
        t.1 < 60,
        t.2 < 60,
        t.3 < 1_000_000_000,
{
    time::OffsetDateTime::now_utc().to_hms_nano()
}

fn action_timestamp() -> (stamp: String)
    ensures
        exists|hour: u8, minute: u8, second: u8, nanos: u32|
            hour < 24 && minute < 60 && second < 60 && nanos < 1_000_000_000 && stamp@
                == #[trigger] stamp_text(hour, minute, second, nanos),
{
    let (hour, minute, second, nanos) = utc_time_of_day();
    let stamp = format_timestamp(hour, minute, second, nanos);
    assert(stamp@ == stamp_text(hour, minute, second, nanos));
    stamp
}

/// Commands are numbered one after the other: two requests in a row carry consecutive numbers of
/// one session and source, whatever their directions.
pub proof fn commands_are_numbered_in_order(
    manager: ManagerView,
    first: DomainActionView,
    second: DomainActionView,
)
    requires
        manager.source_id is Some,
        manager.next_sequence_no < u64::MAX,
        first is RequestFrontHeadlampOn || first is RequestFrontHeadlampOff,
        second is RequestFrontHeadlampOn || second is RequestFrontHeadlampOff,
    ensures
        manager.command_for(first) is Some,
        manager.after(first).command_for(second) is Some,
        manager.after(first).next_correlation()->0 == (CorrelationView {
            sequence_no: (manager.next_correlation()->0.sequence_no + 1) as u64,
            ..manager.next_correlation()->0
        }),
{
}

} // verus!
