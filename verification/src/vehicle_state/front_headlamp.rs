//! Front-headlamp zone: its alphabet, its context and how it reacts.
//!
//! A lamp is switched by request: crossing a light threshold moves the zone to a requested state,
//! and only the actuator's positive acknowledgement moves it on. A request that is rejected, or
//! that stays unanswered past its deadline, falls back to where the lamp was.
use vstd::prelude::*;

use crate::clock::{Duration, Instant};
use crate::front_headlamp_log;
use crate::fsm::machineries::{DomainAction, DomainActionView};
use crate::vehicle_physics::constants::{
    FRONT_HEADLAMP_OFF_ACK_WAIT_MILLIS, FRONT_HEADLAMP_ON_ACK_WAIT_MILLIS, LUX_OFF_THRESHOLD,
    LUX_ON_THRESHOLD,
};

verus! {

/// What the headlamp zone is.
#[derive(Clone, Copy, Debug, PartialEq, Eq, Structural)]
pub enum HeadlampState {
    Off,
    /// The assembly is started; the lamp is dark.
    Ready,
    OnRequested,
    On,
    OffRequested,
}

/// The lighting sub-state as readers of a snapshot call it.
pub type LightingState = HeadlampState;

/// What the headlamp zone is told.
#[derive(Clone, Copy, Debug, PartialEq, Eq, Structural)]
pub enum HeadlampMessage {
    AmbientLux(u16),
    AckOn,
    AckOff,
    ActuationIncomplete {
        direction: FrontHeadlampSwitchDirection,
        cause: FrontHeadlampIncompleteCause,
    },
    TimerTick,
    ResetForIgnitionOff,
    /// Start the assembly.
    BecomeOn,
    /// Stop the assembly.
    BecomeOff,
}

/// What the headlamp zone reports back.
#[derive(Debug, PartialEq)]
pub enum HeadlampOutcome {
    RequestOn,
    RequestOff,
    LogWarning(String),
}

/// Which switch path an incomplete command belongs to.
#[derive(Clone, Copy, Debug, PartialEq, Eq, Structural, Hash)]
pub enum FrontHeadlampSwitchDirection {
    On,
    Off,
}

/// Why a command did not complete with a positive acknowledgement.
#[derive(Clone, Copy, Debug, PartialEq, Eq, Structural, Hash)]
#[non_exhaustive]
pub enum FrontHeadlampIncompleteCause {
    TimedOut,
    NegativeAck,
}

#[verifier::ext_equal]
pub enum HeadlampOutcomeView {
    RequestOn,
    RequestOff,
    LogWarning(Seq<char>),
}

impl View for HeadlampOutcome {
    type V = HeadlampOutcomeView;

    open spec fn view(&self) -> HeadlampOutcomeView {
        match *self {
            HeadlampOutcome::RequestOn => HeadlampOutcomeView::RequestOn,
            HeadlampOutcome::RequestOff => HeadlampOutcomeView::RequestOff,
            HeadlampOutcome::LogWarning(text) => HeadlampOutcomeView::LogWarning(text@),
        }
    }
}

impl Clone for HeadlampOutcome {
    fn clone(&self) -> (r: Self)
        ensures
            r@ == self@,
    {
        match self {
            HeadlampOutcome::RequestOn => HeadlampOutcome::RequestOn,
            HeadlampOutcome::RequestOff => HeadlampOutcome::RequestOff,
            HeadlampOutcome::LogWarning(text) => HeadlampOutcome::LogWarning(text.clone()),
        }
    }
}

/// The views of a run of outcomes.
pub open spec fn outcome_views(outcomes: Seq<HeadlampOutcome>) -> Seq<HeadlampOutcomeView> {
    outcomes.map_values(|o: HeadlampOutcome| o@)
}

/// State of the zone together with its wait for the actuator.
#[derive(Clone, Copy, Debug, PartialEq, Eq, Structural)]
pub struct HeadlampContext {
    pub state: HeadlampState,
    /// Since when the zone waits for the actuator's acknowledgement of its request.
    pub ack_pending_since: Option<Instant>,
}

impl Default for HeadlampContext {
    fn default() -> (ctx: Self)
        ensures
            ctx == HeadlampContext::settled(HeadlampState::Off),
    {
        HeadlampContext { state: HeadlampState::Off, ack_pending_since: None }
    }
}

/// The headlamp zone after a message, with what it reports.
#[derive(Debug, PartialEq)]
pub struct HeadlampZoneReply {
    pub ctx: HeadlampContext,
    pub outcomes: Vec<HeadlampOutcome>,
}

#[verifier::ext_equal]
pub struct HeadlampReplyView {
    pub ctx: HeadlampContext,
    pub outcomes: Seq<HeadlampOutcomeView>,
}

impl View for HeadlampZoneReply {
    type V = HeadlampReplyView;

    open spec fn view(&self) -> HeadlampReplyView {
        HeadlampReplyView { ctx: self.ctx, outcomes: outcome_views(self.outcomes@) }
    }
}

/// Copies a run of outcomes.
pub fn clone_outcomes(outcomes: &Vec<HeadlampOutcome>) -> (copy: Vec<HeadlampOutcome>)
    ensures
        outcome_views(copy@) == outcome_views(outcomes@),
{
    let mut copy: Vec<HeadlampOutcome> = Vec::new();
    let mut i: usize = 0;
    while i < outcomes.len()
        invariant
            i <= outcomes.len(),
            copy.len() == i,
            forall|k: int| 0 <= k < i ==> #[trigger] copy[k]@ == outcomes[k]@,
        decreases outcomes.len() - i,
    {
        copy.push(outcomes[i].clone());
        i = i + 1;
    }
    assert(outcome_views(copy@) =~= outcome_views(outcomes@));
    copy
}

impl Clone for HeadlampZoneReply {
    fn clone(&self) -> (r: Self)
        ensures
            r@ == self@,
    {
        HeadlampZoneReply { ctx: self.ctx, outcomes: clone_outcomes(&self.outcomes) }
    }
}

/// The domain action that carries an outcome out of the zone.
pub open spec fn outcome_action(outcome: HeadlampOutcomeView) -> DomainActionView {
    match outcome {
        HeadlampOutcomeView::RequestOn => DomainActionView::RequestFrontHeadlampOn,
        HeadlampOutcomeView::RequestOff => DomainActionView::RequestFrontHeadlampOff,
        HeadlampOutcomeView::LogWarning(text) => DomainActionView::LogWarning(text),
    }
}

/// The domain action that carries an outcome out of the zone.
pub fn headlamp_outcome_to_domain_action(outcome: HeadlampOutcome) -> (action: DomainAction)
    ensures
        action@ == outcome_action(outcome@),
{
    match outcome {
        HeadlampOutcome::RequestOn => DomainAction::RequestFrontHeadlampOn,
        HeadlampOutcome::RequestOff => DomainAction::RequestFrontHeadlampOff,
        HeadlampOutcome::LogWarning(text) => DomainAction::LogWarning(text),
    }
}

/// What one message makes of the zone: its next context and at most one outcome.
#[verifier::ext_equal]
pub struct HeadlampReaction {
    pub ctx: HeadlampContext,
    pub outcome: Option<HeadlampOutcomeView>,
}

impl HeadlampReaction {
    pub open spec fn outcomes(self) -> Seq<HeadlampOutcomeView> {
        match self.outcome {
            Some(outcome) => seq![outcome],
            None => Seq::empty(),
        }
    }

    pub open spec fn reply(self) -> HeadlampReplyView {
        HeadlampReplyView { ctx: self.ctx, outcomes: self.outcomes() }
    }

    /// The domain actions of the reaction.
    pub open spec fn actions(self) -> Seq<DomainActionView> {
        self.outcomes().map_values(|o: HeadlampOutcomeView| outcome_action(o))
    }
}

/// How long a request of this direction may stay unanswered, in nanoseconds.
pub open spec fn ack_wait_nanos(direction: FrontHeadlampSwitchDirection) -> nat {
    match direction {
        FrontHeadlampSwitchDirection::On => (FRONT_HEADLAMP_ON_ACK_WAIT_MILLIS * 1_000_000) as nat,
        FrontHeadlampSwitchDirection::Off => (FRONT_HEADLAMP_OFF_ACK_WAIT_MILLIS * 1_000_000) as nat,
    }
}

/// How long a request of this direction may stay unanswered.
pub fn front_headlamp_ack_wait(direction: FrontHeadlampSwitchDirection) -> (wait: Duration)
    ensures
        wait.nanos == ack_wait_nanos(direction),
{
    match direction {
        FrontHeadlampSwitchDirection::On => Duration::from_millis(
            FRONT_HEADLAMP_ON_ACK_WAIT_MILLIS,
        ),
        FrontHeadlampSwitchDirection::Off => Duration::from_millis(
            FRONT_HEADLAMP_OFF_ACK_WAIT_MILLIS,
        ),
    }
}

fn ack_wait_elapsed(since: Instant, now: Instant, wait: Duration) -> (r: bool)
    ensures
        r == (now.since(since) >= wait.nanos),
{
    now.saturating_duration_since(since).nanos >= wait.nanos
}

impl HeadlampContext {
    /// A context that waits for nothing.
    pub open spec fn settled(state: HeadlampState) -> HeadlampContext {
        HeadlampContext { state, ack_pending_since: None }
    }

    /// The direction of the request in flight, if there is one.
    pub open spec fn requested(self) -> Option<FrontHeadlampSwitchDirection> {
        match self.state {
            HeadlampState::OnRequested => Some(FrontHeadlampSwitchDirection::On),
            HeadlampState::OffRequested => Some(FrontHeadlampSwitchDirection::Off),
            _ => None,
        }
    }

    pub open spec fn unmoved(self) -> HeadlampReaction {
        HeadlampReaction { ctx: self, outcome: None }
    }

    /// Light against the state `prev`: a dark lamp is requested on at the lower threshold, a
    /// burning one off at the upper threshold, and nothing else happens.
    pub open spec fn on_lux(self, prev: HeadlampState, lux: u16, now: Instant) -> HeadlampReaction {
        if (prev == HeadlampState::Off || prev == HeadlampState::Ready) && lux <= LUX_ON_THRESHOLD {
            HeadlampReaction {
                ctx: HeadlampContext {
                    state: HeadlampState::OnRequested,
                    ack_pending_since: Some(now),
                },
                outcome: Some(HeadlampOutcomeView::RequestOn),
            }
        } else if prev == HeadlampState::On && lux >= LUX_OFF_THRESHOLD {
            HeadlampReaction {
                ctx: HeadlampContext {
                    state: HeadlampState::OffRequested,
                    ack_pending_since: Some(now),
                },
                outcome: Some(HeadlampOutcomeView::RequestOff),
            }
        } else {
            self.unmoved()
        }
    }

    /// An incomplete command that answers the request in flight undoes it and warns; any other
    /// is without effect.
    pub open spec fn on_incompletion(
        self,
        direction: FrontHeadlampSwitchDirection,
        cause: FrontHeadlampIncompleteCause,
    ) -> HeadlampReaction {
        if self.requested() == Some(direction) {
            HeadlampReaction {
                ctx: HeadlampContext::settled(
                    match direction {
                        FrontHeadlampSwitchDirection::On => HeadlampState::Off,
                        FrontHeadlampSwitchDirection::Off => HeadlampState::On,
                    },
                ),
                outcome: Some(
                    HeadlampOutcomeView::LogWarning(
                        front_headlamp_log::incomplete_text(direction, cause),
                    ),
                ),
            }
        } else {
            self.unmoved()
        }
    }

    /// The deadline of the request in flight has passed.
    pub open spec fn overdue(self, now: Instant) -> bool {
        match (self.requested(), self.ack_pending_since) {
            (Some(direction), Some(since)) => now.since(since) >= ack_wait_nanos(direction),
            _ => false,
        }
    }

    /// A heartbeat times out the request in flight once its deadline has passed.
    pub open spec fn on_tick(self, now: Instant) -> HeadlampReaction {
        if self.overdue(now) {
            self.on_incompletion(self.requested()->0, FrontHeadlampIncompleteCause::TimedOut)
        } else {
            self.unmoved()
        }
    }

    /// What a message makes of the zone.
    pub open spec fn received(self, message: HeadlampMessage, now: Instant) -> HeadlampReaction {
        match message {
            HeadlampMessage::AmbientLux(lux) => self.on_lux(self.state, lux, now),
            HeadlampMessage::AckOn => HeadlampContext::settled(HeadlampState::On).unmoved(),
            HeadlampMessage::AckOff => HeadlampContext::settled(HeadlampState::Off).unmoved(),
            HeadlampMessage::ActuationIncomplete { direction, cause } => self.on_incompletion(
                direction,
                cause,
            ),
            HeadlampMessage::TimerTick => self.on_tick(now),
            HeadlampMessage::ResetForIgnitionOff => HeadlampContext::settled(
                HeadlampState::Off,
            ).unmoved(),
            HeadlampMessage::BecomeOn => HeadlampContext::settled(HeadlampState::Ready).unmoved(),
            HeadlampMessage::BecomeOff => HeadlampContext::settled(HeadlampState::Off).unmoved(),
        }
    }

    /// Positive acknowledgement of an ON command: the lamp burns, the wait is over.
    pub fn apply_on_ack(&mut self)
        ensures
            *final(self) == HeadlampContext::settled(HeadlampState::On),
    {
        self.state = HeadlampState::On;
        self.ack_pending_since = None;
    }

    /// Positive acknowledgement of an OFF command: the lamp is dark, the wait is over.
    pub fn apply_off_ack(&mut self)
        ensures
            *final(self) == HeadlampContext::settled(HeadlampState::Off),
    {
        self.state = HeadlampState::Off;
        self.ack_pending_since = None;
    }

    /// Requests a switch where the light crosses a threshold, judged against `prev_state`.
    pub fn evaluate_lux(
        &mut self,
        prev_state: HeadlampState,
        lux: u16,
        now: Instant,
        actions: &mut Vec<DomainAction>,
    )
        ensures
            *final(self) == old(self).on_lux(prev_state, lux, now).ctx,
            crate::fsm::machineries::action_views(final(actions)@)
                == crate::fsm::machineries::action_views(old(actions)@) + old(self).on_lux(
                prev_state,
                lux,
                now,
            ).actions(),
    {
        let outcome = self.react_to_lux(prev_state, lux, now);
        push_outcome(outcome, actions);
    }

    /// On a heartbeat, times out a request whose deadline has passed.
    pub fn on_timer_tick(&mut self, now: Instant, actions: &mut Vec<DomainAction>)
        ensures
            *final(self) == old(self).on_tick(now).ctx,
            crate::fsm::machineries::action_views(final(actions)@)
                == crate::fsm::machineries::action_views(old(actions)@) + old(self).on_tick(
                now,
            ).actions(),
    {
        let outcome = self.react_to_tick(now);
        push_outcome(outcome, actions);
    }

    /// An explicit signal that a command was not completed.
    pub fn on_incomplete(
        &mut self,
        direction: FrontHeadlampSwitchDirection,
        cause: FrontHeadlampIncompleteCause,
        actions: &mut Vec<DomainAction>,
    )
        ensures
            *final(self) == old(self).on_incompletion(direction, cause).ctx,
            crate::fsm::machineries::action_views(final(actions)@)
                == crate::fsm::machineries::action_views(old(actions)@) + old(
                self,
            ).on_incompletion(direction, cause).actions(),
    {
        let outcome = self.recover_incomplete(direction, cause);
        push_outcome(outcome, actions);
    }

    /// Ignition off: the lighting context is cleared.
    pub fn reset_for_ignition_off(&mut self)
        ensures
            *final(self) == HeadlampContext::settled(HeadlampState::Off),
    {
        self.state = HeadlampState::Off;
        self.ack_pending_since = None;
    }

    fn react_to_lux(&mut self, prev_state: HeadlampState, lux: u16, now: Instant) -> (outcome:
        Option<HeadlampOutcome>)
        ensures
            *final(self) == old(self).on_lux(prev_state, lux, now).ctx,
            outcome_view(outcome) == old(self).on_lux(prev_state, lux, now).outcome,
    {
        let dark = prev_state == HeadlampState::Off || prev_state == HeadlampState::Ready;
        if dark && lux <= LUX_ON_THRESHOLD {
            self.state = HeadlampState::OnRequested;
            self.ack_pending_since = Some(now);
            Some(HeadlampOutcome::RequestOn)
        } else if prev_state == HeadlampState::On && lux >= LUX_OFF_THRESHOLD {
            self.state = HeadlampState::OffRequested;
            self.ack_pending_since = Some(now);
            Some(HeadlampOutcome::RequestOff)
        } else {
            None
        }
    }

    fn react_to_tick(&mut self, now: Instant) -> (outcome: Option<HeadlampOutcome>)
        ensures
            *final(self) == old(self).on_tick(now).ctx,
            outcome_view(outcome) == old(self).on_tick(now).outcome,
    {
        let since = match self.ack_pending_since {
            Some(since) => since,
            None => {
                return None;
            },
        };
        let direction = match self.state {
            HeadlampState::OnRequested => FrontHeadlampSwitchDirection::On,
            HeadlampState::OffRequested => FrontHeadlampSwitchDirection::Off,
            _ => {
                return None;
            },
        };
        if ack_wait_elapsed(since, now, front_headlamp_ack_wait(direction)) {
            self.recover_incomplete(direction, FrontHeadlampIncompleteCause::TimedOut)
        } else {
            None
        }
    }

    fn recover_incomplete(
        &mut self,
        direction: FrontHeadlampSwitchDirection,
        cause: FrontHeadlampIncompleteCause,
    ) -> (outcome: Option<HeadlampOutcome>)
        ensures
            *final(self) == old(self).on_incompletion(direction, cause).ctx,
            outcome_view(outcome) == old(self).on_incompletion(direction, cause).outcome,
    {
        let matches_pending = match (self.state, direction) {
            (HeadlampState::OnRequested, FrontHeadlampSwitchDirection::On) => true,
            (HeadlampState::OffRequested, FrontHeadlampSwitchDirection::Off) => true,
            _ => false,
        };
        if !matches_pending {
            return None;
        }
        self.ack_pending_since = None;
        let warning = front_headlamp_log::alert_incomplete(direction, cause);
        self.state = match direction {
            FrontHeadlampSwitchDirection::On => HeadlampState::Off,
            FrontHeadlampSwitchDirection::Off => HeadlampState::On,
        };
        Some(HeadlampOutcome::LogWarning(warning))
    }

    /// Applies a message to the zone; the reply holds the next context and what is reported.
    pub fn on_receiving_message(&self, message: HeadlampMessage, now: Instant) -> (reply:
        HeadlampZoneReply)
        ensures
            reply@ == self.received(message, now).reply(),
    {
        let mut ctx = *self;
        let outcome = match message {
            HeadlampMessage::AmbientLux(lux) => ctx.react_to_lux(self.state, lux, now),
            HeadlampMessage::AckOn => {
                ctx.apply_on_ack();
                None
            },
            HeadlampMessage::AckOff => {
                ctx.apply_off_ack();
                None
            },
            HeadlampMessage::ActuationIncomplete { direction, cause } => ctx.recover_incomplete(
                direction,
                cause,
            ),
            HeadlampMessage::TimerTick => ctx.react_to_tick(now),
            HeadlampMessage::ResetForIgnitionOff => {
                ctx.reset_for_ignition_off();
                None
            },
            HeadlampMessage::BecomeOn => {
                ctx = HeadlampContext { state: HeadlampState::Ready, ack_pending_since: None };
                None
            },
            HeadlampMessage::BecomeOff => {
                ctx = HeadlampContext { state: HeadlampState::Off, ack_pending_since: None };
                None
            },
        };
        let mut outcomes: Vec<HeadlampOutcome> = Vec::new();
        let ghost shown = outcome_view(outcome);
        if let Some(o) = outcome {
            outcomes.push(o);
        }
        let reply = HeadlampZoneReply { ctx, outcomes };
        proof {
            assert(shown == self.received(message, now).outcome);
            assert(reply@.outcomes =~= self.received(message, now).outcomes());
        }
        reply
    }
}

/// The view of an optional outcome.
pub open spec fn outcome_view(outcome: Option<HeadlampOutcome>) -> Option<HeadlampOutcomeView> {
    match outcome {
        Some(o) => Some(o@),
        None => None,
    }
}

fn push_outcome(outcome: Option<HeadlampOutcome>, actions: &mut Vec<DomainAction>)
    ensures
        crate::fsm::machineries::action_views(final(actions)@)
            == crate::fsm::machineries::action_views(old(actions)@) + (match outcome {
            Some(o) => seq![outcome_action(o@)],
            None => Seq::empty(),
        }),
{
    let ghost before = actions@;
    if let Some(o) = outcome {
        actions.push(headlamp_outcome_to_domain_action(o));
    }
    assert(crate::fsm::machineries::action_views(actions@)
        =~= crate::fsm::machineries::action_views(before) + (match outcome {
        Some(o) => seq![outcome_action(o@)],
        None => Seq::empty(),
    }));
}

impl HeadlampContext {
    /// A zone waits for the actuator exactly while a request is in flight.
    pub open spec fn coherent(self) -> bool {
        self.ack_pending_since is Some <==> self.requested() is Some
    }
}

/// Every message keeps the wait for the actuator coherent with the request in flight.
pub proof fn messages_keep_the_wait_coherent(
    ctx: HeadlampContext,
    message: HeadlampMessage,
    now: Instant,
)
    requires
        ctx.coherent(),
    ensures
        ctx.received(message, now).ctx.coherent(),
{
}

/// Light is judged with a dead band: between the two thresholds nothing is requested, whatever
/// the lamp does.
pub proof fn light_in_the_dead_band_requests_nothing(
    ctx: HeadlampContext,
    prev: HeadlampState,
    lux: u16,
    now: Instant,
)
    requires
        LUX_ON_THRESHOLD < lux < LUX_OFF_THRESHOLD,
    ensures
        ctx.on_lux(prev, lux, now) == ctx.unmoved(),
{
}

/// A request in flight is not repeated: light makes no difference until it is settled.
pub proof fn requests_are_not_repeated(ctx: HeadlampContext, lux: u16, now: Instant)
    requires
        ctx.requested() is Some,
    ensures
        ctx.received(HeadlampMessage::AmbientLux(lux), now) == ctx.unmoved(),
{
}

/// Asking is not switching: a request leaves the lamp requested, and the lamp comes to burn only
/// by the actuator's acknowledgement, or because switching it off did not succeed.
pub proof fn a_request_does_not_switch_the_lamp(
    ctx: HeadlampContext,
    message: HeadlampMessage,
    now: Instant,
)
    ensures
        ({
            let after = ctx.received(message, now);
            &&& after.outcome == Some(HeadlampOutcomeView::RequestOn) ==> after.ctx.state
                == HeadlampState::OnRequested
            &&& after.outcome == Some(HeadlampOutcomeView::RequestOff) ==> after.ctx.state
                == HeadlampState::OffRequested
            &&& after.ctx.state == HeadlampState::On && ctx.state != HeadlampState::On ==> message
                == HeadlampMessage::AckOn || (ctx.state == HeadlampState::OffRequested
                && after.outcome is Some && after.outcome->0 is LogWarning)
        }),
{
}

/// A request that times out is warned of once: afterwards no heartbeat, however late, says or
/// changes anything.
pub proof fn a_timeout_warns_once(ctx: HeadlampContext, now: Instant, later: Instant)
    requires
        ctx.overdue(now),
    ensures
        ctx.on_tick(now).outcome is Some,
        ctx.on_tick(now).outcome->0 is LogWarning,
        ctx.on_tick(now).ctx.on_tick(later) == ctx.on_tick(now).ctx.unmoved(),
{
}

/// An incomplete command undoes exactly the request of its direction: the lamp is taken to be
/// where it was before the request, and the wait is over.
pub proof fn an_incomplete_command_undoes_its_request(
    ctx: HeadlampContext,
    lux: u16,
    now: Instant,
    cause: FrontHeadlampIncompleteCause,
)
    requires
        ctx.state == HeadlampState::On || ctx.state == HeadlampState::Off,
        ctx.ack_pending_since is None,
        ctx.received(HeadlampMessage::AmbientLux(lux), now).outcome is Some,
    ensures
        ({
            let requested = ctx.received(HeadlampMessage::AmbientLux(lux), now).ctx;
            requested.on_incompletion(requested.requested()->0, cause).ctx == ctx
        }),
{
}

} // verus!
