//! Operational vocabulary: modes, events and domain actions.
use vstd::prelude::*;

use crate::clock::Instant;
use crate::domain_types::VehicleState;
use crate::text;
use crate::vehicle_state::front_headlamp::{
    FrontHeadlampIncompleteCause, FrontHeadlampSwitchDirection,
};
use crate::zones::ZoneId;

verus! {

/// The car's operational mode.
#[derive(Clone, Copy, Debug, PartialEq, Eq, Structural)]
pub enum FsmState {
    Off,
    /// Assemblies are being started; no zone is told of outside events meanwhile.
    PreparingToStart,
    Idle,
    Driving,
    /// Driving in the dark without confirmed lighting.
    DrivingDangerously,
    /// Road speed above the limit, since the given instant.
    ExtremeOperationWarning(Instant),
    /// Assemblies are being stopped; no zone is told of outside events meanwhile.
    PreparingToStop,
}

/// Facts that the brain itself establishes.
#[derive(Clone, Copy, Debug, PartialEq, Eq, Structural)]
pub enum Operational {
    LightingUnsafe,
    AssembliesReady,
    AssembliesStopped,
}

/// What the operational state machine reacts to.
#[derive(Clone, Copy, Debug, PartialEq, Eq, Structural)]
pub enum FsmEvent {
    PowerOn,
    PowerOff,
    UpdateRpm(u16),
    UpdateAmbientLux(u16),
    FrontHeadlampOnAck,
    FrontHeadlampOffAck,
    FrontHeadlampActuationIncomplete {
        direction: FrontHeadlampSwitchDirection,
        cause: FrontHeadlampIncompleteCause,
    },
    RainsStarted,
    RainsStopped,
    TimerTick,
    /// A managed assembly has answered its start or stop order.
    AssemblyZoneReady(ZoneId),
    /// A hop of the brain alone: zones take no part in it.
    Internal(Operational),
}

/// What a change of mode calls for.
#[derive(Debug, PartialEq)]
pub enum FsmAction {
    StartBuzzer,
    StopBuzzer,
    LogWarning(String),
    PublishStateSync,
    /// Start all managed assemblies.
    StartAssemblies,
    /// Stop all managed assemblies.
    StopAssemblies,
    NoAction,
}

#[verifier::ext_equal]
pub enum FsmActionView {
    StartBuzzer,
    StopBuzzer,
    LogWarning(Seq<char>),
    PublishStateSync,
    StartAssemblies,
    StopAssemblies,
    NoAction,
}

impl View for FsmAction {
    type V = FsmActionView;

    open spec fn view(&self) -> FsmActionView {
        match *self {
            FsmAction::StartBuzzer => FsmActionView::StartBuzzer,
            FsmAction::StopBuzzer => FsmActionView::StopBuzzer,
            FsmAction::LogWarning(text) => FsmActionView::LogWarning(text@),
            FsmAction::PublishStateSync => FsmActionView::PublishStateSync,
            FsmAction::StartAssemblies => FsmActionView::StartAssemblies,
            FsmAction::StopAssemblies => FsmActionView::StopAssemblies,
            FsmAction::NoAction => FsmActionView::NoAction,
        }
    }
}

/// The views of a run of mode-change actions.
pub open spec fn fsm_action_views(actions: Seq<FsmAction>) -> Seq<FsmActionView> {
    actions.map_values(|a: FsmAction| a@)
}

#[derive(Clone, Copy, Debug, PartialEq, Eq, Structural)]
pub enum ActorModeHintFromDomain {
    Normal,
    Transitioning,
}

/// What a step asks of the runtime.
#[derive(Debug, PartialEq)]
pub enum DomainAction {
    StartBuzzer,
    StopBuzzer,
    PublishStateSync,
    LogWarning(String),
    RequestFrontHeadlampOn,
    RequestFrontHeadlampOff,
    /// Start all managed assemblies.
    StartAssemblies,
    /// Stop all managed assemblies.
    StopAssemblies,
    EnterMode(ActorModeHintFromDomain),
}

#[verifier::ext_equal]
pub enum DomainActionView {
    StartBuzzer,
    StopBuzzer,
    PublishStateSync,
    LogWarning(Seq<char>),
    RequestFrontHeadlampOn,
    RequestFrontHeadlampOff,
    StartAssemblies,
    StopAssemblies,
    EnterMode(ActorModeHintFromDomain),
}

impl View for DomainAction {
    type V = DomainActionView;

    open spec fn view(&self) -> DomainActionView {
        match *self {
            DomainAction::StartBuzzer => DomainActionView::StartBuzzer,
            DomainAction::StopBuzzer => DomainActionView::StopBuzzer,
            DomainAction::PublishStateSync => DomainActionView::PublishStateSync,
            DomainAction::LogWarning(text) => DomainActionView::LogWarning(text@),
            DomainAction::RequestFrontHeadlampOn => DomainActionView::RequestFrontHeadlampOn,
            DomainAction::RequestFrontHeadlampOff => DomainActionView::RequestFrontHeadlampOff,
            DomainAction::StartAssemblies => DomainActionView::StartAssemblies,
            DomainAction::StopAssemblies => DomainActionView::StopAssemblies,
            DomainAction::EnterMode(hint) => DomainActionView::EnterMode(hint),
        }
    }
}

impl Clone for DomainAction {
    fn clone(&self) -> (r: Self)
        ensures
            r@ == self@,
    {
        match self {
            DomainAction::StartBuzzer => DomainAction::StartBuzzer,
            DomainAction::StopBuzzer => DomainAction::StopBuzzer,
            DomainAction::PublishStateSync => DomainAction::PublishStateSync,
            DomainAction::LogWarning(text) => DomainAction::LogWarning(text.clone()),
            DomainAction::RequestFrontHeadlampOn => DomainAction::RequestFrontHeadlampOn,
            DomainAction::RequestFrontHeadlampOff => DomainAction::RequestFrontHeadlampOff,
            DomainAction::StartAssemblies => DomainAction::StartAssemblies,
            DomainAction::StopAssemblies => DomainAction::StopAssemblies,
            DomainAction::EnterMode(hint) => DomainAction::EnterMode(*hint),
        }
    }
}

impl DomainActionView {
    /// The action as text.
    pub open spec fn text(self) -> Seq<char> {
        match self {
            DomainActionView::StartBuzzer => "StartBuzzer"@,
            DomainActionView::StopBuzzer => "StopBuzzer"@,
            DomainActionView::PublishStateSync => "PublishStateSync"@,
            DomainActionView::LogWarning(message) => text::bracketed_text(
                "LogWarning"@,
                text::debug_text(message),
            ),
            DomainActionView::RequestFrontHeadlampOn => "RequestFrontHeadlampOn"@,
            DomainActionView::RequestFrontHeadlampOff => "RequestFrontHeadlampOff"@,
            DomainActionView::StartAssemblies => "StartAssemblies"@,
            DomainActionView::StopAssemblies => "StopAssemblies"@,
            DomainActionView::EnterMode(ActorModeHintFromDomain::Normal) => "EnterMode(Normal)"@,
            DomainActionView::EnterMode(ActorModeHintFromDomain::Transitioning) => {
                "EnterMode(Transitioning)"@
            },
        }
    }
}

impl DomainAction {
    /// The action as text.
    pub fn render(&self) -> (line: String)
        ensures
            line@ == self@.text(),
    {
        let name = match self {
            DomainAction::StartBuzzer => "StartBuzzer",
            DomainAction::StopBuzzer => "StopBuzzer",
            DomainAction::PublishStateSync => "PublishStateSync",
            DomainAction::LogWarning(message) => {
                return text::bracketed("LogWarning", text::quoted(message.as_str()).as_str());
            },
            DomainAction::RequestFrontHeadlampOn => "RequestFrontHeadlampOn",
            DomainAction::RequestFrontHeadlampOff => "RequestFrontHeadlampOff",
            DomainAction::StartAssemblies => "StartAssemblies",
            DomainAction::StopAssemblies => "StopAssemblies",
            DomainAction::EnterMode(ActorModeHintFromDomain::Normal) => "EnterMode(Normal)",
            DomainAction::EnterMode(ActorModeHintFromDomain::Transitioning) => {
                "EnterMode(Transitioning)"
            },
        };
        name.to_owned()
    }
}

/// The views of a run of domain actions.
pub open spec fn action_views(actions: Seq<DomainAction>) -> Seq<DomainActionView> {
    actions.map_values(|a: DomainAction| a@)
}

/// Copies a run of domain actions.
pub fn clone_actions(actions: &Vec<DomainAction>) -> (copy: Vec<DomainAction>)
    ensures
        action_views(copy@) == action_views(actions@),
{
    let mut copy: Vec<DomainAction> = Vec::new();
    let mut i: usize = 0;
    while i < actions.len()
        invariant
            i <= actions.len(),
            copy.len() == i,
            forall|k: int| 0 <= k < i ==> #[trigger] copy[k]@ == actions[k]@,
        decreases actions.len() - i,
    {
        copy.push(actions[i].clone());
        i = i + 1;
    }
    assert(action_views(copy@) =~= action_views(actions@));
    copy
}

impl FsmState {
    /// What the outside world is told of a mode.
    pub open spec fn public_state(self) -> VehicleState {
        match self {
            FsmState::Off => VehicleState::Off,
            FsmState::PreparingToStart => VehicleState::PreparingToStart,
            FsmState::Idle => VehicleState::Idle,
            FsmState::Driving => VehicleState::Driving,
            FsmState::DrivingDangerously => VehicleState::Critical,
            FsmState::ExtremeOperationWarning(_) => VehicleState::ExtremeOperationWarning,
            FsmState::PreparingToStop => VehicleState::PreparingToStop,
        }
    }
}

impl From<&FsmState> for VehicleState {
    fn from(fsm: &FsmState) -> (state: VehicleState) {
        match fsm {
            FsmState::Off => VehicleState::Off,
            FsmState::PreparingToStart => VehicleState::PreparingToStart,
            FsmState::Idle => VehicleState::Idle,
            FsmState::Driving => VehicleState::Driving,
            FsmState::DrivingDangerously => VehicleState::Critical,
            FsmState::ExtremeOperationWarning(_) => VehicleState::ExtremeOperationWarning,
            FsmState::PreparingToStop => VehicleState::PreparingToStop,
        }
    }
}

impl vstd::std_specs::convert::FromSpecImpl<&FsmState> for VehicleState {
    open spec fn obeys_from_spec() -> bool {
        true
    }

    open spec fn from_spec(fsm: &FsmState) -> VehicleState {
        fsm.public_state()
    }
}

} // verus!
