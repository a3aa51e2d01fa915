//! The brain as a mathematical state machine: what each message makes of it, and what it asks of
//! the world.
use vstd::prelude::*;

use super::actuation_contract::CommandView;
use super::actuation_manager::ManagerView;
use crate::clock::Instant;
use crate::diagnostic;
use crate::diagnostic::{DiagnosticLevel, DiagnosticView};
use crate::digital_twin::vocabulary::{
    DigitalTwinCarVocabulary, ZoneMessage, ZoneReplyView, ZoneSpontaneousEvent,
};
use crate::fsm::machineries::{DomainActionView, FsmEvent, FsmState};
use crate::transition_sink::PublishedView;
use crate::twin_runtime::turn_barrier::{BarrierView, EntryView};
use crate::twin_runtime::twin_turn;
use crate::twin_runtime::twin_turn::HopView;
use crate::twin_runtime::zone_tell_back;
use crate::twin_runtime::zone_tell_back::{TellBackTimer, TellBackWait};
use crate::twin_runtime::zone_turn;
use crate::vehicle_state::front_headlamp::{
    FrontHeadlampSwitchDirection, HeadlampMessage, HeadlampState,
};
use crate::vehicle_state::VehicleContext;
use crate::zones::ZoneId;

verus! {

/// The state of the brain.
#[verifier::ext_equal]
pub struct BrainView {
    pub name: Seq<char>,
    pub mode: FsmState,
    pub ctx: VehicleContext,
    pub next_turn_id: u64,
    /// The reorder buffer: every turn in flight, in the order of arrival.
    pub queue: Seq<EntryView>,
    pub next_record_seq: u64,
    pub log_timer_tick: bool,
    pub manager: ManagerView,
}

/// What the brain asks of the world.
#[verifier::ext_equal]
pub enum EffectView {
    TellHeadlamp { turn_id: u64, tell_attempt: u32, message: HeadlampMessage, now: Instant },
    ArmTellBackTimer(TellBackTimer),
    AbortTellBackTimer(TellBackTimer),
    Publish(PublishedView),
    Diagnose(DiagnosticView),
    Command(CommandView),
    ReplyStatus { name: Seq<char>, mode: FsmState, ctx: VehicleContext, as_of_seq: u64 },
}

/// The brain after something happened, with what it asked for on the way.
#[verifier::ext_equal]
pub struct BrainStep {
    pub brain: BrainView,
    pub effects: Seq<EffectView>,
}

impl BrainStep {
    /// Nothing happened.
    pub open spec fn rest(brain: BrainView) -> BrainStep {
        BrainStep { brain, effects: Seq::empty() }
    }

    /// This, and after it `next`.
    pub open spec fn and_after(self, next: BrainStep) -> BrainStep {
        BrainStep { brain: next.brain, effects: self.effects + next.effects }
    }
}

/// One more, but never past the largest number.
pub open spec fn counted(n: u64) -> u64 {
    if n < u64::MAX {
        (n + 1) as u64
    } else {
        n
    }
}

/// The place of the first slot of a turn in the buffer, or the buffer's length if it holds none.
pub open spec fn position(queue: Seq<EntryView>, turn_id: u64) -> int
    decreases queue.len(),
{
    if queue.len() == 0 || queue[0].turn_id() == turn_id {
        0
    } else {
        1 + position(queue.skip(1), turn_id)
    }
}

/// How many slots of the buffer are complete.
pub open spec fn complete_count(queue: Seq<EntryView>) -> nat
    decreases queue.len(),
{
    if queue.len() == 0 {
        0
    } else {
        (if queue[0].complete() {
            1nat
        } else {
            0
        }) + complete_count(queue.skip(1))
    }
}

/// Where a headlamp change settles a request positively.
pub open spec fn confirmed(before: HeadlampState, after: HeadlampState) -> Option<
    FrontHeadlampSwitchDirection,
> {
    match (before, after) {
        (HeadlampState::OnRequested, HeadlampState::On) => Some(FrontHeadlampSwitchDirection::On),
        (HeadlampState::OffRequested, HeadlampState::Ready) => Some(
            FrontHeadlampSwitchDirection::Off,
        ),
        (HeadlampState::OffRequested, HeadlampState::Off) => Some(
            FrontHeadlampSwitchDirection::Off,
        ),
        _ => None,
    }
}

impl BrainView {
    /// Nothing the manager does is reported, and every slot is consistent.
    pub open spec fn well_formed(self) -> bool {
        &&& !self.manager.reports
        &&& forall|i: int| 0 <= i < self.queue.len() ==> (#[trigger] self.queue[i]).consistent()
    }

    pub open spec fn diagnoses(self, level: DiagnosticLevel, what: Seq<char>) -> BrainStep {
        BrainStep {
            brain: self,
            effects: seq![
                EffectView::Diagnose(diagnostic::brain_diagnostic(level, self.name, what)),
            ],
        }
    }

    /// Takes a new slot at the back of the buffer under the next turn number; the headlamp is told
    /// `message` for it, and a timer watches over the answer.
    pub open spec fn tell_for(
        self,
        event: FsmEvent,
        zone: ZoneId,
        message: HeadlampMessage,
        now: Instant,
    ) -> BrainStep {
        let turn_id = self.next_turn_id;
        let timer = TellBackTimer { zone_id: zone, turn_id, tell_attempt: 0 };
        BrainStep {
            brain: BrainView {
                next_turn_id: counted(turn_id),
                queue: self.queue.push(
                    EntryView::Waiting(
                        BarrierView::fresh(turn_id, event, now).awaiting(
                            zone,
                            message,
                            TellBackWait::first(turn_id),
                            timer,
                        ),
                    ),
                ),
                ..self
            },
            effects: seq![
                EffectView::TellHeadlamp { turn_id, tell_attempt: 0, message, now },
                EffectView::ArmTellBackTimer(timer),
            ],
        }
    }

    /// An event arrives: it takes a slot at once. One that concerns the headlamp awaits the
    /// headlamp's answer; any other is complete from the start.
    pub open spec fn begun(self, event: FsmEvent, now: Instant) -> BrainStep {
        match zone_turn::zone_tell_in(event, self.mode) {
            Some((zone, ZoneMessage::Headlamp(message))) => self.tell_for(
                event,
                zone,
                message,
                now,
            ),
            _ => BrainStep::rest(
                BrainView {
                    next_turn_id: counted(self.next_turn_id),
                    queue: self.queue.push(
                        EntryView::Passthrough { turn_id: self.next_turn_id, event, now },
                    ),
                    ..self
                },
            ),
        }
    }

    pub open spec fn with_slot(self, i: int, barrier: BarrierView) -> BrainView {
        BrainView { queue: self.queue.update(i, EntryView::Waiting(barrier)), ..self }
    }

    /// The waiting turn of that number, if the buffer holds it.
    pub open spec fn waiting(self, turn_id: u64) -> Option<BarrierView> {
        let i = position(self.queue, turn_id);
        if i < self.queue.len() {
            match self.queue[i] {
                EntryView::Waiting(barrier) => Some(barrier),
                EntryView::Passthrough { .. } => None,
            }
        } else {
            None
        }
    }

    /// A zone answers: the answer to the attempt that counts is taken over, any other is stale.
    pub open spec fn zone_answered(
        self,
        zone: ZoneId,
        turn_id: u64,
        attempt: u32,
        reply: ZoneReplyView,
    ) -> BrainStep {
        match self.waiting(turn_id) {
            Some(barrier) => if barrier.attempt_counts(zone, attempt) {
                BrainStep {
                    brain: self.with_slot(
                        position(self.queue, turn_id),
                        barrier.answered(zone, reply),
                    ),
                    effects: if barrier.timers.dom().contains(zone) {
                        seq![EffectView::AbortTellBackTimer(barrier.timers[zone])]
                    } else {
                        Seq::empty()
                    },
                }
            } else {
                BrainStep::rest(self)
            },
            None => BrainStep::rest(self),
        }
    }

    /// A timer fires for a zone that still owes the answer to that attempt: the zone is told
    /// again, or else an unchanged headlamp stands in for its answer. Any other timeout is stale.
    pub open spec fn zone_timed_out(self, zone: ZoneId, turn_id: u64, attempt: u32) -> BrainStep {
        match self.waiting(turn_id) {
            Some(barrier) => if barrier.pending.contains(zone) && barrier.attempt_counts(
                zone,
                attempt,
            ) {
                let after = barrier.timed_out(zone, attempt);
                let i = position(self.queue, turn_id);
                if barrier.may_retry(zone, attempt) {
                    let next_attempt = barrier.next_wait(zone).tell_attempt;
                    let timer = TellBackTimer { zone_id: zone, turn_id, tell_attempt: next_attempt };
                    BrainStep {
                        brain: self.with_slot(
                            i,
                            BarrierView { timers: after.timers.insert(zone, timer), ..after },
                        ),
                        effects: seq![
                            EffectView::TellHeadlamp {
                                turn_id,
                                tell_attempt: next_attempt,
                                message: barrier.messages[zone],
                                now: barrier.now,
                            },
                            EffectView::ArmTellBackTimer(timer),
                        ],
                    }
                } else {
                    BrainStep::rest(
                        self.with_slot(
                            i,
                            after.answered(
                                zone,
                                ZoneReplyView::Headlamp(
                                    zone_tell_back::unresponsive_answer(self.ctx.headlamp),
                                ),
                            ),
                        ),
                    )
                }
            } else {
                BrainStep::rest(self)
            },
            None => BrainStep::rest(self),
        }
    }

    /// One ledger row for a hop.
    pub open spec fn publishes(self, hop: HopView) -> BrainStep {
        BrainStep {
            brain: BrainView { next_record_seq: counted(self.next_record_seq), ..self },
            effects: seq![
                EffectView::Publish(
                    PublishedView {
                        car_identity: self.name,
                        sequence_no: self.next_record_seq,
                        transition: hop.result.transition_record,
                    },
                ),
            ],
        }
    }

    /// One ledger row for each hop, in order.
    pub open spec fn publishes_all(self, hops: Seq<HopView>) -> BrainStep
        decreases hops.len(),
    {
        if hops.len() == 0 {
            BrainStep::rest(self)
        } else {
            let before = self.publishes_all(hops.drop_last());
            before.and_after(before.brain.publishes(hops.last()))
        }
    }

    /// Carries one action out.
    pub open spec fn acts(self, action: DomainActionView, now: Instant) -> BrainStep {
        match action {
            DomainActionView::EnterMode(_) => BrainStep::rest(self),
            DomainActionView::LogWarning(message) => self.diagnoses(
                DiagnosticLevel::Warning,
                message,
            ),
            DomainActionView::StartAssemblies => self.tell_for(
                FsmEvent::AssemblyZoneReady(ZoneId::Headlamp),
                ZoneId::Headlamp,
                HeadlampMessage::BecomeOn,
                now,
            ),
            DomainActionView::StopAssemblies => self.tell_for(
                FsmEvent::AssemblyZoneReady(ZoneId::Headlamp),
                ZoneId::Headlamp,
                HeadlampMessage::BecomeOff,
                now,
            ),
            _ => BrainStep {
                brain: BrainView { manager: self.manager.after(action), ..self },
                effects: match self.manager.command_for(action) {
                    Some(command) => seq![EffectView::Command(command)],
                    None => Seq::empty(),
                },
            },
        }
    }

    /// Carries actions out in order.
    pub open spec fn acts_all(self, actions: Seq<DomainActionView>, now: Instant) -> BrainStep
        decreases actions.len(),
    {
        if actions.len() == 0 {
            BrainStep::rest(self)
        } else {
            let before = self.acts_all(actions.drop_last(), now);
            before.and_after(before.brain.acts(actions.last(), now))
        }
    }

    /// Announces the mode, where it is not the one before.
    pub open spec fn announces(self, mode_before: FsmState) -> BrainStep {
        if self.mode != mode_before {
            self.diagnoses(
                DiagnosticLevel::Info,
                diagnostic::transition_text(self.mode, self.ctx),
            )
        } else {
            BrainStep::rest(self)
        }
    }

    /// Reports a positively acknowledged headlamp request.
    pub open spec fn confirms(self, headlamp_before: HeadlampState, headlamp_after: HeadlampState) -> BrainStep {
        match confirmed(headlamp_before, headlamp_after) {
            Some(direction) => self.diagnoses(
                DiagnosticLevel::Info,
                diagnostic::confirmation_text(direction),
            ),
            None => BrainStep::rest(self),
        }
    }

    pub open spec fn at_cut(self, mode: FsmState, ctx: VehicleContext) -> BrainView {
        BrainView { mode, ctx, ..self }
    }

    /// Takes over the hops of a turn: their ledger rows, the last cut, their actions, and then
    /// what is to be said about the change.
    #[verifier::opaque]
    pub open spec fn applied(self, hops: Seq<HopView>, now: Instant) -> BrainStep {
        let last = hops.last().result;
        let published = self.publishes_all(hops);
        let moved = published.brain.at_cut(last.next_state, last.modified_ctx);
        let acted = moved.acts_all(twin_turn::merged(hops), now);
        let announced = acted.brain.announces(self.mode);
        let confirmed_after = announced.brain.confirms(
            self.ctx.headlamp.state,
            last.modified_ctx.headlamp.state,
        );
        published.and_after(acted).and_after(announced).and_after(confirmed_after)
    }

    /// Commits a turn.
    pub open spec fn commits(
        self,
        event: FsmEvent,
        arrived: Instant,
        replies: Map<ZoneId, ZoneReplyView>,
        now: Instant,
    ) -> BrainStep {
        self.applied(twin_turn::turn(self.mode, self.ctx, event, arrived, replies), now)
    }

    /// Commits the turn of a slot that has left the buffer.
    pub open spec fn commits_slot(self, slot: EntryView, now: Instant) -> BrainStep {
        self.commits(slot.event(), slot.now(), slot.replies(), now)
    }

    pub open spec fn without_front(self) -> BrainView {
        BrainView { queue: self.queue.skip(1), ..self }
    }

    /// Commits complete slots from the front of the buffer, no further than the first incomplete
    /// one.
    pub open spec fn drained(self, now: Instant) -> BrainStep
        decreases complete_count(self.queue),
    {
        if self.queue.len() > 0 && self.queue[0].complete() {
            let committed = self.without_front().commits_slot(self.queue[0], now);
            proof {
                super::brain_laws::commits_add_no_complete_slot(
                    self.without_front(),
                    self.queue[0],
                    now,
                );
            }
            committed.and_after(committed.brain.drained(now))
        } else {
            BrainStep::rest(self)
        }
    }

    /// A heartbeat is reported where that is asked for.
    pub open spec fn heard(self, event: FsmEvent) -> BrainStep {
        if event == FsmEvent::TimerTick && self.log_timer_tick {
            self.diagnoses(DiagnosticLevel::Info, "received heartbeat TimerTick"@)
        } else {
            BrainStep::rest(self)
        }
    }

    /// The number of rows in the ledger.
    pub open spec fn as_of_seq(self) -> u64 {
        if self.next_record_seq > 0 {
            (self.next_record_seq - 1) as u64
        } else {
            0
        }
    }

    /// What a message makes of the brain before the buffer is drained.
    pub open spec fn received(self, message: DigitalTwinCarVocabulary, now: Instant) -> BrainStep {
        match message {
            DigitalTwinCarVocabulary::Fsm(event) => {
                let told = self.heard(event);
                told.and_after(told.brain.begun(event, now))
            },
            DigitalTwinCarVocabulary::ZoneReady { zone_id, turn_id, tell_attempt, reply } => {
                self.zone_answered(zone_id, turn_id, tell_attempt, reply@)
            },
            DigitalTwinCarVocabulary::ZoneTellBackTimeout { zone_id, turn_id, tell_attempt } => {
                self.zone_timed_out(zone_id, turn_id, tell_attempt)
            },
            DigitalTwinCarVocabulary::ZoneSpontaneous { zone_id, event } => match event {
                ZoneSpontaneousEvent::Headlamp { direction, cause, reply } => self.commits(
                    FsmEvent::FrontHeadlampActuationIncomplete { direction, cause },
                    now,
                    Map::empty().insert(ZoneId::Headlamp, ZoneReplyView::Headlamp(reply@)),
                    now,
                ),
            },
            DigitalTwinCarVocabulary::GetStatus => BrainStep {
                brain: self,
                effects: seq![
                    EffectView::ReplyStatus {
                        name: self.name,
                        mode: self.mode,
                        ctx: self.ctx,
                        as_of_seq: self.as_of_seq(),
                    },
                ],
            },
        }
    }

    /// What a message makes of the brain. A query is answered and nothing else.
    pub open spec fn handled(self, message: DigitalTwinCarVocabulary, now: Instant) -> BrainStep {
        let step = self.received(message, now);
        if message is GetStatus {
            step
        } else {
            step.and_after(step.brain.drained(now))
        }
    }
}

} // verus!
