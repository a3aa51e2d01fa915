//! One turn in flight, as a slot of the brain's reorder buffer.
//!
//! Each event takes a slot at the back of the buffer at once. A slot whose zones still owe an
//! answer is incomplete; the buffer is drained from the front and no further than the first
//! incomplete slot, so turns are committed in the order of arrival.
use vstd::prelude::*;

use super::twin_turn::ResolvedTurn;
use super::zone_replies::ZoneReplies;
use super::zone_tell_back::{TellBackTimer, TellBackWait};
use crate::clock::Instant;
use crate::digital_twin::vocabulary::{ZoneReply, ZoneReplyView};
use crate::fsm::machineries::FsmEvent;
use crate::vehicle_state::front_headlamp::HeadlampMessage;
use crate::zones::{ZoneId, ZoneSet, ZoneTable};

verus! {

/// What a fired timer leads to.
#[derive(Clone, Copy, Debug, PartialEq, Eq, Structural)]
pub enum TimeoutOutcome {
    /// The zone is to be told again, under the next attempt number.
    Retry { next_attempt: u32 },
    /// No retries are left, or the timeout is stale.
    GaveUp,
}

/// A turn that waits for zone answers.
#[derive(Debug)]
pub struct TurnBarrier {
    turn_id: u64,
    event: FsmEvent,
    now: Instant,
    pending: ZoneSet,
    zone_waits: ZoneTable<TellBackWait>,
    zone_timers: ZoneTable<TellBackTimer>,
    zone_replies: ZoneTable<ZoneReply>,
    zone_messages: ZoneTable<HeadlampMessage>,
}

#[verifier::ext_equal]
pub struct BarrierView {
    pub turn_id: u64,
    pub event: FsmEvent,
    pub now: Instant,
    /// The zones that owe an answer.
    pub pending: Set<ZoneId>,
    pub waits: Map<ZoneId, TellBackWait>,
    /// The timers that are still running.
    pub timers: Map<ZoneId, TellBackTimer>,
    pub replies: Map<ZoneId, ZoneReplyView>,
    /// What the zones were told, for telling them again.
    pub messages: Map<ZoneId, HeadlampMessage>,
}

impl BarrierView {
    /// A turn that no zone has been told of yet.
    pub open spec fn fresh(turn_id: u64, event: FsmEvent, now: Instant) -> BarrierView {
        BarrierView {
            turn_id,
            event,
            now,
            pending: Set::empty(),
            waits: Map::empty(),
            timers: Map::empty(),
            replies: Map::empty(),
            messages: Map::empty(),
        }
    }

    /// The turn with one more zone that owes an answer.
    pub open spec fn awaiting(
        self,
        zone: ZoneId,
        message: HeadlampMessage,
        wait: TellBackWait,
        timer: TellBackTimer,
    ) -> BarrierView {
        BarrierView {
            pending: self.pending.insert(zone),
            messages: self.messages.insert(zone, message),
            waits: self.waits.insert(zone, wait),
            timers: self.timers.insert(zone, timer),
            ..self
        }
    }

    /// The turn after a zone's answer: the zone owes nothing, its timer is gone.
    pub open spec fn answered(self, zone: ZoneId, reply: ZoneReplyView) -> BarrierView {
        BarrierView {
            pending: self.pending.remove(zone),
            replies: self.replies.insert(zone, reply),
            timers: self.timers.remove(zone),
            ..self
        }
    }

    pub open spec fn complete(self) -> bool {
        self.pending == Set::<ZoneId>::empty()
    }

    /// The attempt is the one that counts for the zone.
    pub open spec fn attempt_counts(self, zone: ZoneId, attempt: u32) -> bool {
        self.waits.dom().contains(zone) && self.waits[zone].tell_attempt == attempt
    }

    /// The attempt counts and the zone may be told again.
    pub open spec fn may_retry(self, zone: ZoneId, attempt: u32) -> bool {
        self.attempt_counts(zone, attempt) && self.waits[zone].retries_remaining > 0
    }

    /// The wait of a zone that is told again.
    pub open spec fn next_wait(self, zone: ZoneId) -> TellBackWait {
        let wait = self.waits[zone];
        TellBackWait {
            turn_id: wait.turn_id,
            tell_attempt: if wait.tell_attempt < u32::MAX {
                (wait.tell_attempt + 1) as u32
            } else {
                u32::MAX
            },
            retries_remaining: (wait.retries_remaining - 1) as u32,
        }
    }

    /// The turn after a timer fired: the timer is spent, and a retry that is left is taken.
    pub open spec fn timed_out(self, zone: ZoneId, attempt: u32) -> BarrierView {
        BarrierView {
            timers: self.timers.remove(zone),
            waits: if self.may_retry(zone, attempt) {
                self.waits.insert(zone, self.next_wait(zone))
            } else {
                self.waits
            },
            ..self
        }
    }

    pub open spec fn timeout_outcome(self, zone: ZoneId, attempt: u32) -> TimeoutOutcome {
        if self.may_retry(zone, attempt) {
            TimeoutOutcome::Retry { next_attempt: self.next_wait(zone).tell_attempt }
        } else {
            TimeoutOutcome::GaveUp
        }
    }

    /// A zone that owes an answer has been told something and is waited for, no timer runs for
    /// any other zone, and a zone that was told something owes its answer or has given it.
    pub open spec fn consistent(self) -> bool {
        &&& forall|z: ZoneId| #[trigger]
            self.pending.contains(z) ==> self.messages.dom().contains(z) && self.waits.dom().contains(z)
        &&& forall|z: ZoneId| #[trigger]
            self.timers.dom().contains(z) ==> self.pending.contains(z)
        &&& forall|z: ZoneId| #[trigger]
            self.messages.dom().contains(z) ==> self.pending.contains(z)
                || self.replies.dom().contains(z)
    }
}

impl View for TurnBarrier {
    type V = BarrierView;

    closed spec fn view(&self) -> BarrierView {
        BarrierView {
            turn_id: self.turn_id,
            event: self.event,
            now: self.now,
            pending: self.pending@,
            waits: self.zone_waits@,
            timers: self.zone_timers@,
            replies: self.zone_replies@.map_values(|r: ZoneReply| r@),
            messages: self.zone_messages@,
        }
    }
}

impl TurnBarrier {
    /// A turn that no zone has been told of yet.
    pub fn new(turn_id: u64, event: FsmEvent, now: Instant) -> (barrier: TurnBarrier)
        ensures
            barrier@ == BarrierView::fresh(turn_id, event, now),
    {
        let barrier = TurnBarrier {
            turn_id,
            event,
            now,
            pending: ZoneSet::empty(),
            zone_waits: ZoneTable::empty(),
            zone_timers: ZoneTable::empty(),
            zone_replies: ZoneTable::empty(),
            zone_messages: ZoneTable::empty(),
        };
        assert(barrier@.replies =~= Map::<ZoneId, ZoneReplyView>::empty());
        barrier
    }

    /// The turn of an assembly's start or stop order: it awaits the zone and commits the zone's
    /// answer.
    pub fn new_for_assembly_zone(
        turn_id: u64,
        zone_id: ZoneId,
        message: HeadlampMessage,
        wait: TellBackWait,
        timer: TellBackTimer,
        now: Instant,
    ) -> (barrier: TurnBarrier)
        ensures
            barrier@ == BarrierView::fresh(
                turn_id,
                FsmEvent::AssemblyZoneReady(zone_id),
                now,
            ).awaiting(zone_id, message, wait, timer),
    {
        let mut barrier = TurnBarrier::new(turn_id, FsmEvent::AssemblyZoneReady(zone_id), now);
        barrier.add_pending_zone(zone_id, message, wait, timer);
        barrier
    }

    pub fn turn_id(&self) -> (turn_id: u64)
        ensures
            turn_id == self@.turn_id,
    {
        self.turn_id
    }

    /// When the event of the turn arrived.
    pub fn now(&self) -> (now: Instant)
        ensures
            now == self@.now,
    {
        self.now
    }

    /// No zone owes an answer.
    pub fn is_complete(&self) -> (r: bool)
        ensures
            r == self@.complete(),
    {
        self.pending.is_empty()
    }

    /// Whether the zone owes an answer.
    pub fn is_pending(&self, zone_id: ZoneId) -> (r: bool)
        ensures
            r == self@.pending.contains(zone_id),
    {
        self.pending.contains(zone_id)
    }

    /// Whether an attempt number is the one that counts for the zone.
    pub fn tell_attempt_matches(&self, zone_id: ZoneId, tell_attempt: u32) -> (r: bool)
        ensures
            r == self@.attempt_counts(zone_id, tell_attempt),
    {
        match self.zone_waits.get(zone_id) {
            Some(wait) => wait.tell_attempt == tell_attempt,
            None => false,
        }
    }

    /// What the zone was told.
    pub fn zone_message(&self, zone_id: ZoneId) -> (message: Option<HeadlampMessage>)
        ensures
            message is Some <==> self@.messages.dom().contains(zone_id),
            message matches Some(m) ==> m == self@.messages[zone_id],
    {
        match self.zone_messages.get(zone_id) {
            Some(message) => Some(*message),
            None => None,
        }
    }

    /// Registers a zone as owing an answer.
    pub fn add_pending_zone(
        &mut self,
        zone_id: ZoneId,
        message: HeadlampMessage,
        wait: TellBackWait,
        timer: TellBackTimer,
    )
        ensures
            final(self)@ == old(self)@.awaiting(zone_id, message, wait, timer),
    {
        self.pending = self.pending.with(zone_id);
        self.zone_messages.insert(zone_id, message);
        self.zone_waits.insert(zone_id, wait);
        self.zone_timers.insert(zone_id, timer);
    }

    /// Stores the timer of a retry.
    pub fn store_retry_timer(&mut self, zone_id: ZoneId, timer: TellBackTimer)
        ensures
            final(self)@ == (BarrierView {
                timers: old(self)@.timers.insert(zone_id, timer),
                ..old(self)@
            }),
    {
        self.zone_timers.insert(zone_id, timer);
    }

    /// Takes a zone's answer over. The timer that was still running for the zone comes back: it
    /// has to be aborted, or it would report a silence that is over.
    pub fn act_on_zone_reply(&mut self, zone_id: ZoneId, reply: ZoneReply) -> (abort: Option<
        TellBackTimer,
    >)
        ensures
            final(self)@ == old(self)@.answered(zone_id, reply@),
            abort is Some <==> old(self)@.timers.dom().contains(zone_id),
            abort matches Some(timer) ==> timer == old(self)@.timers[zone_id],
    {
        let ghost before = self@;
        self.pending = self.pending.without(zone_id);
        self.zone_replies.insert(zone_id, reply);
        let abort = self.zone_timers.remove(zone_id);
        assert(self@.replies =~= before.answered(zone_id, reply@).replies);
        abort
    }

    /// Takes a fired timer over and decides whether the zone is told again. The timer is spent.
    pub fn act_on_zone_timeout(&mut self, zone_id: ZoneId, tell_attempt: u32) -> (outcome:
        TimeoutOutcome)
        ensures
            final(self)@ == old(self)@.timed_out(zone_id, tell_attempt),
            outcome == old(self)@.timeout_outcome(zone_id, tell_attempt),
    {
        let _ = self.zone_timers.remove(zone_id);
        let mut wait = match self.zone_waits.get(zone_id) {
            Some(wait) => *wait,
            None => {
                return TimeoutOutcome::GaveUp;
            },
        };
        if wait.tell_attempt == tell_attempt && wait.retries_remaining > 0 {
            wait.tell_attempt = wait.tell_attempt.saturating_add(1);
            wait.retries_remaining = wait.retries_remaining - 1;
            self.zone_waits.insert(zone_id, wait);
            TimeoutOutcome::Retry { next_attempt: wait.tell_attempt }
        } else {
            TimeoutOutcome::GaveUp
        }
    }

    /// Gives up all running timers; they come back to be aborted.
    pub fn abort_all_timers(&mut self) -> (aborted: Vec<TellBackTimer>)
        ensures
            final(self)@ == (BarrierView { timers: Map::empty(), ..old(self)@ }),
            aborted@ == running_timers(old(self)@.timers),
    {
        let ghost before = self@.timers;
        let mut aborted: Vec<TellBackTimer> = Vec::new();
        if let Some(timer) = self.zone_timers.remove(ZoneId::Headlamp) {
            aborted.push(timer);
        }
        if let Some(timer) = self.zone_timers.remove(ZoneId::Wiper) {
            aborted.push(timer);
        }
        proof {
            assert(self@.timers =~= Map::<ZoneId, TellBackTimer>::empty());
            assert(aborted@ =~= running_timers(before));
        }
        aborted
    }

    /// The turn with the answers collected for it.
    pub fn into_resolved_turn(self) -> (resolved: ResolvedTurn)
        ensures
            resolved.ingress == self@.event,
            resolved.now == self@.now,
            resolved.zone_replies@ == self@.replies,
    {
        ResolvedTurn {
            ingress: self.event,
            now: self.now,
            zone_replies: ZoneReplies { replies: self.zone_replies },
        }
    }
}

/// The running timers in the order of the zones.
pub open spec fn running_timers(timers: Map<ZoneId, TellBackTimer>) -> Seq<TellBackTimer> {
    (if timers.dom().contains(ZoneId::Headlamp) {
        seq![timers[ZoneId::Headlamp]]
    } else {
        Seq::empty()
    }) + (if timers.dom().contains(ZoneId::Wiper) {
        seq![timers[ZoneId::Wiper]]
    } else {
        Seq::empty()
    })
}

/// A turn that no zone takes part in: complete from the start.
#[derive(Clone, Copy, Debug, PartialEq, Eq, Structural)]
pub struct PassthroughBarrier {
    turn_id: u64,
    event: FsmEvent,
    now: Instant,
}

impl PassthroughBarrier {
    pub closed spec fn id(&self) -> u64 {
        self.turn_id
    }

    pub closed spec fn ingress(&self) -> FsmEvent {
        self.event
    }

    pub closed spec fn arrived(&self) -> Instant {
        self.now
    }

    pub fn new(turn_id: u64, event: FsmEvent, now: Instant) -> (barrier: PassthroughBarrier)
        ensures
            barrier.id() == turn_id,
            barrier.ingress() == event,
            barrier.arrived() == now,
    {
        PassthroughBarrier { turn_id, event, now }
    }

    pub fn turn_id(&self) -> (turn_id: u64)
        ensures
            turn_id == self.id(),
    {
        self.turn_id
    }

    /// Always complete.
    pub fn is_complete(&self) -> (r: bool)
        ensures
            r,
    {
        true
    }

    /// The turn, without answers.
    pub fn into_resolved_turn(self) -> (resolved: ResolvedTurn)
        ensures
            resolved.ingress == self.ingress(),
            resolved.now == self.arrived(),
            resolved.zone_replies@ == Map::<ZoneId, ZoneReplyView>::empty(),
    {
        ResolvedTurn { ingress: self.event, now: self.now, zone_replies: ZoneReplies::default() }
    }
}

/// A slot of the reorder buffer.
#[derive(Debug)]
pub enum BarrierEntry {
    Waiting(TurnBarrier),
    Passthrough(PassthroughBarrier),
}

#[verifier::ext_equal]
pub enum EntryView {
    Waiting(BarrierView),
    Passthrough { turn_id: u64, event: FsmEvent, now: Instant },
}

impl EntryView {
    pub open spec fn turn_id(self) -> u64 {
        match self {
            EntryView::Waiting(b) => b.turn_id,
            EntryView::Passthrough { turn_id, .. } => turn_id,
        }
    }

    pub open spec fn complete(self) -> bool {
        match self {
            EntryView::Waiting(b) => b.complete(),
            EntryView::Passthrough { .. } => true,
        }
    }

    pub open spec fn event(self) -> FsmEvent {
        match self {
            EntryView::Waiting(b) => b.event,
            EntryView::Passthrough { event, .. } => event,
        }
    }

    pub open spec fn now(self) -> Instant {
        match self {
            EntryView::Waiting(b) => b.now,
            EntryView::Passthrough { now, .. } => now,
        }
    }

    pub open spec fn replies(self) -> Map<ZoneId, ZoneReplyView> {
        match self {
            EntryView::Waiting(b) => b.replies,
            EntryView::Passthrough { .. } => Map::empty(),
        }
    }

    pub open spec fn consistent(self) -> bool {
        self matches EntryView::Waiting(b) ==> b.consistent()
    }

    /// The slot without running timers.
    pub open spec fn silenced(self) -> EntryView {
        match self {
            EntryView::Waiting(b) => EntryView::Waiting(BarrierView { timers: Map::empty(), ..b }),
            EntryView::Passthrough { .. } => self,
        }
    }

    pub open spec fn timers(self) -> Seq<TellBackTimer> {
        match self {
            EntryView::Waiting(b) => running_timers(b.timers),
            EntryView::Passthrough { .. } => Seq::empty(),
        }
    }
}

impl View for BarrierEntry {
    type V = EntryView;

    open spec fn view(&self) -> EntryView {
        match *self {
            BarrierEntry::Waiting(b) => EntryView::Waiting(b@),
            BarrierEntry::Passthrough(b) => EntryView::Passthrough {
                turn_id: b.id(),
                event: b.ingress(),
                now: b.arrived(),
            },
        }
    }
}

impl BarrierEntry {
    pub fn turn_id(&self) -> (turn_id: u64)
        ensures
            turn_id == self@.turn_id(),
    {
        match self {
            BarrierEntry::Waiting(b) => b.turn_id(),
            BarrierEntry::Passthrough(b) => b.turn_id(),
        }
    }

    pub fn is_complete(&self) -> (r: bool)
        ensures
            r == self@.complete(),
    {
        match self {
            BarrierEntry::Waiting(b) => b.is_complete(),
            BarrierEntry::Passthrough(b) => b.is_complete(),
        }
    }

    pub fn into_resolved_turn(self) -> (resolved: ResolvedTurn)
        ensures
            resolved.ingress == self@.event(),
            resolved.now == self@.now(),
            resolved.zone_replies@ == self@.replies(),
    {
        match self {
            BarrierEntry::Waiting(b) => b.into_resolved_turn(),
            BarrierEntry::Passthrough(b) => b.into_resolved_turn(),
        }
    }

    /// The waiting turn, where the slot holds one.
    pub fn as_waiting_mut(&mut self) -> (barrier: Option<&mut TurnBarrier>)
        ensures
            match barrier {
                Some(b) => *old(self) == BarrierEntry::Waiting(*b) && *final(self)
                    == BarrierEntry::Waiting(*final(b)),
                None => *old(self) is Passthrough && *final(self) == *old(self),
            },
    {
        match self {
            BarrierEntry::Waiting(b) => Some(b),
            BarrierEntry::Passthrough(_) => None,
        }
    }

    /// The waiting turn, where the slot holds one.
    pub fn as_waiting(&self) -> (barrier: Option<&TurnBarrier>)
        ensures
            match barrier {
                Some(b) => *self == BarrierEntry::Waiting(*b),
                None => self is Passthrough,
            },
    {
        match self {
            BarrierEntry::Waiting(b) => Some(b),
            BarrierEntry::Passthrough(_) => None,
        }
    }

    /// Gives up the slot's running timers; they come back to be aborted.
    pub fn abort_all_timers(&mut self) -> (aborted: Vec<TellBackTimer>)
        ensures
            final(self)@ == old(self)@.silenced(),
            aborted@ == old(self)@.timers(),
    {
        match self {
            BarrierEntry::Waiting(b) => b.abort_all_timers(),
            BarrierEntry::Passthrough(_) => Vec::new(),
        }
    }
}

/// A late answer to a superseded attempt is stale: once a zone is told again, the earlier attempt
/// no longer counts.
pub proof fn superseded_attempts_are_stale(barrier: BarrierView, zone: ZoneId, attempt: u32)
    requires
        barrier.may_retry(zone, attempt),
        attempt < u32::MAX,
    ensures
        !barrier.timed_out(zone, attempt).attempt_counts(zone, attempt),
        barrier.timed_out(zone, attempt).attempt_counts(zone, (attempt + 1) as u32),
{
}

/// Retries are bounded: each one uses one up, and without any left the brain gives up.
pub proof fn retries_are_bounded(barrier: BarrierView, zone: ZoneId, attempt: u32)
    requires
        barrier.attempt_counts(zone, attempt),
    ensures
        ({
            let after = barrier.timed_out(zone, attempt);
            match barrier.timeout_outcome(zone, attempt) {
                TimeoutOutcome::Retry { next_attempt } => {
                    &&& after.waits[zone].retries_remaining == barrier.waits[zone].retries_remaining
                        - 1
                    &&& after.attempt_counts(zone, next_attempt)
                },
                TimeoutOutcome::GaveUp => barrier.waits[zone].retries_remaining == 0,
            }
        }),
{
}

/// Every operation keeps a turn consistent: a zone that owes an answer can be told again, and no
/// timer runs for a zone that has answered.
pub proof fn operations_keep_consistency(
    barrier: BarrierView,
    zone: ZoneId,
    message: HeadlampMessage,
    wait: TellBackWait,
    timer: TellBackTimer,
    reply: ZoneReplyView,
    attempt: u32,
)
    requires
        barrier.consistent(),
    ensures
        barrier.awaiting(zone, message, wait, timer).consistent(),
        barrier.answered(zone, reply).consistent(),
        barrier.timed_out(zone, attempt).consistent(),
{
}

/// A complete turn carries an answer for every zone that was told of it, the zone's own or the one
/// that stands in for a silent zone.
pub proof fn complete_turns_carry_their_answers(barrier: BarrierView, zone: ZoneId)
    requires
        barrier.consistent(),
        barrier.complete(),
        barrier.messages.dom().contains(zone),
    ensures
        barrier.replies.dom().contains(zone),
{
}

} // verus!
