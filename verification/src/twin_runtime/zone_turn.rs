//! Ingress demux: which zone an event concerns, and what the zones make of it.
use vstd::prelude::*;

use super::zone_replies;
use super::zone_replies::ZoneReplies;
use crate::clock::Instant;
use crate::digital_twin::vocabulary::{ZoneMessage, ZoneReplyView};
use crate::fsm::machineries::{FsmEvent, FsmState};
use crate::vehicle_state::front_headlamp::{
    HeadlampContext, HeadlampMessage, HeadlampOutcome, HeadlampOutcomeView, HeadlampReplyView, HeadlampZoneReply,
};
use crate::vehicle_state::powertrain::PowertrainContext;
use crate::vehicle_state::wiper::{WiperMessage, WiperOutcome, WiperReplyView, WiperZoneReply};
use crate::vehicle_state::VehicleContext;
use crate::zones::ZoneId;

verus! {

/// What a zone reports, tagged with the zone.
#[derive(Debug, PartialEq)]
pub enum ZoneOutcome {
    Headlamp(HeadlampOutcome),
    Wiper(WiperOutcome),
}

#[verifier::ext_equal]
pub enum ZoneOutcomeView {
    Headlamp(HeadlampOutcomeView),
    Wiper(WiperOutcome),
}

impl View for ZoneOutcome {
    type V = ZoneOutcomeView;

    open spec fn view(&self) -> ZoneOutcomeView {
        match *self {
            ZoneOutcome::Headlamp(outcome) => ZoneOutcomeView::Headlamp(outcome@),
            ZoneOutcome::Wiper(outcome) => ZoneOutcomeView::Wiper(outcome),
        }
    }
}

pub open spec fn zone_outcome_views(outcomes: Seq<ZoneOutcome>) -> Seq<ZoneOutcomeView> {
    outcomes.map_values(|o: ZoneOutcome| o@)
}

/// What the zones make of one event.
#[derive(Debug)]
pub struct ZoneTurnResult {
    pub ctx: VehicleContext,
    pub outcomes: Vec<ZoneOutcome>,
}

#[verifier::ext_equal]
pub struct ZoneTurnView {
    pub ctx: VehicleContext,
    pub outcomes: Seq<ZoneOutcomeView>,
}

impl View for ZoneTurnResult {
    type V = ZoneTurnView;

    open spec fn view(&self) -> ZoneTurnView {
        ZoneTurnView { ctx: self.ctx, outcomes: zone_outcome_views(self.outcomes@) }
    }
}

/// The headlamp message that an outside event stands for, where it concerns the lamp and the
/// zone is told of it.
pub open spec fn headlamp_tell(event: FsmEvent) -> Option<HeadlampMessage> {
    match event {
        FsmEvent::UpdateAmbientLux(lux) => Some(HeadlampMessage::AmbientLux(lux)),
        FsmEvent::FrontHeadlampOnAck => Some(HeadlampMessage::AckOn),
        FsmEvent::FrontHeadlampOffAck => Some(HeadlampMessage::AckOff),
        FsmEvent::FrontHeadlampActuationIncomplete { direction, cause } => Some(
            HeadlampMessage::ActuationIncomplete { direction, cause },
        ),
        _ => None,
    }
}

/// The wiper message that an outside event stands for.
pub open spec fn wiper_tell(event: FsmEvent) -> Option<WiperMessage> {
    match event {
        FsmEvent::RainsStarted => Some(WiperMessage::Start),
        FsmEvent::RainsStopped => Some(WiperMessage::Stop),
        _ => None,
    }
}

/// Which zone is told what of an outside event.
pub open spec fn zone_tell(event: FsmEvent) -> Option<(ZoneId, ZoneMessage)> {
    match (headlamp_tell(event), wiper_tell(event)) {
        (Some(message), _) => Some((ZoneId::Headlamp, ZoneMessage::Headlamp(message))),
        (None, Some(message)) => Some((ZoneId::Wiper, ZoneMessage::Wiper(message))),
        (None, None) => None,
    }
}

/// Which zone is told what, in a given mode: none while assemblies are started or stopped.
pub open spec fn zone_tell_in(event: FsmEvent, state: FsmState) -> Option<(ZoneId, ZoneMessage)> {
    if state == FsmState::PreparingToStart || state == FsmState::PreparingToStop {
        None
    } else {
        zone_tell(event)
    }
}

/// Which zone is told what of an outside event, given the mode.
pub fn zone_message_for_event(event: &FsmEvent, state: &FsmState) -> (tell: Option<
    (ZoneId, ZoneMessage),
>)
    ensures
        tell == zone_tell_in(*event, *state),
{
    match state {
        FsmState::PreparingToStart | FsmState::PreparingToStop => None,
        _ => user_event_to_zone_tell(event),
    }
}

fn user_event_to_zone_tell(event: &FsmEvent) -> (tell: Option<(ZoneId, ZoneMessage)>)
    ensures
        tell == zone_tell(*event),
{
    match event {
        FsmEvent::UpdateAmbientLux(lux) => Some(
            (ZoneId::Headlamp, ZoneMessage::Headlamp(HeadlampMessage::AmbientLux(*lux))),
        ),
        FsmEvent::FrontHeadlampOnAck => Some(
            (ZoneId::Headlamp, ZoneMessage::Headlamp(HeadlampMessage::AckOn)),
        ),
        FsmEvent::FrontHeadlampOffAck => Some(
            (ZoneId::Headlamp, ZoneMessage::Headlamp(HeadlampMessage::AckOff)),
        ),
        FsmEvent::FrontHeadlampActuationIncomplete { direction, cause } => Some(
            (
                ZoneId::Headlamp,
                ZoneMessage::Headlamp(
                    HeadlampMessage::ActuationIncomplete { direction: *direction, cause: *cause },
                ),
            ),
        ),
        FsmEvent::RainsStarted => Some((ZoneId::Wiper, ZoneMessage::Wiper(WiperMessage::Start))),
        FsmEvent::RainsStopped => Some((ZoneId::Wiper, ZoneMessage::Wiper(WiperMessage::Stop))),
        FsmEvent::UpdateRpm(_)
        | FsmEvent::PowerOn
        | FsmEvent::PowerOff
        | FsmEvent::TimerTick
        | FsmEvent::Internal(_)
        | FsmEvent::AssemblyZoneReady(_) => None,
    }
}

/// The headlamp's answer: the one it gave, or else what it would answer now.
pub open spec fn merged_headlamp(
    ctx: VehicleContext,
    message: HeadlampMessage,
    now: Instant,
    answer: Option<HeadlampReplyView>,
) -> HeadlampReplyView {
    match answer {
        Some(reply) => reply,
        None => ctx.headlamp.received(message, now).reply(),
    }
}

fn merge_headlamp_for_message(
    ctx: &VehicleContext,
    message: HeadlampMessage,
    now: Instant,
    tell_back: Option<&HeadlampZoneReply>,
) -> (reply: HeadlampZoneReply)
    ensures
        reply@ == merged_headlamp(
            *ctx,
            message,
            now,
            (match tell_back {
                Some(r) => Some(r@),
                None => None,
            }),
        ),
{
    match tell_back {
        Some(reply) => reply.clone(),
        None => ctx.headlamp.on_receiving_message(message, now),
    }
}

/// The wiper's answer: the one it gave, or else what it would answer now.
pub open spec fn merged_wiper(
    ctx: VehicleContext,
    message: WiperMessage,
    answer: Option<WiperReplyView>,
) -> WiperReplyView {
    match answer {
        Some(reply) => reply,
        None => ctx.wiper.received(message),
    }
}

fn merge_wiper_for_message(
    ctx: &VehicleContext,
    message: WiperMessage,
    tell_back: Option<&WiperZoneReply>,
) -> (reply: WiperZoneReply)
    ensures
        reply@ == merged_wiper(
            *ctx,
            message,
            (match tell_back {
                Some(r) => Some(r@),
                None => None,
            }),
        ),
{
    match tell_back {
        Some(reply) => reply.clone(),
        None => ctx.wiper.on_receiving_message(message),
    }
}

/// A headlamp answer merged into the context.
pub open spec fn with_headlamp(ctx: VehicleContext, reply: HeadlampReplyView) -> ZoneTurnView {
    ZoneTurnView {
        ctx: VehicleContext { headlamp: reply.ctx, ..ctx },
        outcomes: reply.outcomes.map_values(
            |o: HeadlampOutcomeView| ZoneOutcomeView::Headlamp(o),
        ),
    }
}

/// A wiper answer merged into the context.
pub open spec fn with_wiper(ctx: VehicleContext, reply: WiperReplyView) -> ZoneTurnView {
    ZoneTurnView {
        ctx: VehicleContext { wiper: reply.ctx, ..ctx },
        outcomes: reply.outcomes.map_values(|o: WiperOutcome| ZoneOutcomeView::Wiper(o)),
    }
}

pub open spec fn untouched(ctx: VehicleContext) -> ZoneTurnView {
    ZoneTurnView { ctx, outcomes: Seq::empty() }
}

/// What the zones make of one event, given their answers.
///
/// An engine reading refreshes the powertrain (at a forced standstill while the car is off); an
/// event that concerns a zone is answered by that zone; an assembly's answer to its start or stop
/// order is taken over; everything else leaves the zones alone.
pub open spec fn zone_effect(
    ctx: VehicleContext,
    event: FsmEvent,
    state: FsmState,
    now: Instant,
    replies: Map<ZoneId, ZoneReplyView>,
) -> ZoneTurnView {
    let headlamp = zone_replies::headlamp_answer(replies);
    let wiper = zone_replies::wiper_answer(replies);
    match event {
        FsmEvent::UpdateRpm(rpm) => untouched(
            VehicleContext {
                powertrain: if state == FsmState::Off {
                    PowertrainContext::at_rpm(rpm).at_standstill()
                } else {
                    PowertrainContext::at_rpm(rpm)
                },
                ..ctx
            },
        ),
        FsmEvent::UpdateAmbientLux(lux) => with_headlamp(
            VehicleContext {
                visibility: crate::vehicle_state::visibility::VisibilityContext {
                    ambient_lux: lux,
                },
                ..ctx
            },
            merged_headlamp(ctx, HeadlampMessage::AmbientLux(lux), now, headlamp),
        ),
        FsmEvent::FrontHeadlampOnAck
        | FsmEvent::FrontHeadlampOffAck
        | FsmEvent::FrontHeadlampActuationIncomplete { .. } => with_headlamp(
            ctx,
            merged_headlamp(ctx, headlamp_tell(event)->0, now, headlamp),
        ),
        FsmEvent::TimerTick => with_headlamp(
            ctx,
            merged_headlamp(ctx, HeadlampMessage::TimerTick, now, headlamp),
        ),
        FsmEvent::RainsStarted | FsmEvent::RainsStopped => with_wiper(
            ctx,
            merged_wiper(ctx, wiper_tell(event)->0, wiper),
        ),
        FsmEvent::AssemblyZoneReady(ZoneId::Headlamp) => match headlamp {
            Some(reply) => with_headlamp(ctx, reply),
            None => untouched(ctx),
        },
        FsmEvent::AssemblyZoneReady(ZoneId::Wiper) => match wiper {
            Some(reply) => with_wiper(ctx, reply),
            None => untouched(ctx),
        },
        FsmEvent::PowerOn | FsmEvent::PowerOff | FsmEvent::Internal(_) => untouched(ctx),
    }
}

fn take_headlamp_reply(ctx: &VehicleContext, reply: HeadlampZoneReply) -> (result: ZoneTurnResult)
    ensures
        result@ == with_headlamp(*ctx, reply@),
{
    let ghost given = reply@;
    let mut next = *ctx;
    next.headlamp = reply.ctx;
    let mut outcomes: Vec<ZoneOutcome> = Vec::new();
    let mut rest = reply.outcomes;
    let ghost all = rest@;
    while rest.len() > 0
        invariant
            rest.len() <= all.len(),
            rest@ == all.skip(all.len() - rest.len()),
            outcomes.len() == all.len() - rest.len(),
            forall|k: int|
                0 <= k < outcomes.len() ==> #[trigger] outcomes[k]@ == ZoneOutcomeView::Headlamp(
                    all[k]@,
                ),
        decreases rest.len(),
    {
        let ghost done = (all.len() - rest.len()) as int;
        let outcome = rest.remove(0);
        proof {
            assert(outcome == all[done]);
            assert(rest@ =~= all.skip(done + 1));
        }
        outcomes.push(ZoneOutcome::Headlamp(outcome));
    }
    let result = ZoneTurnResult { ctx: next, outcomes };
    assert(result@.outcomes =~= with_headlamp(*ctx, given).outcomes);
    result
}

fn take_wiper_reply(ctx: &VehicleContext, reply: WiperZoneReply) -> (result: ZoneTurnResult)
    ensures
        result@ == with_wiper(*ctx, reply@),
{
    let ghost given = reply@;
    let mut next = *ctx;
    next.wiper = reply.ctx;
    let mut outcomes: Vec<ZoneOutcome> = Vec::new();
    let mut i: usize = 0;
    while i < reply.outcomes.len()
        invariant
            i <= reply.outcomes.len(),
            outcomes.len() == i,
            forall|k: int|
                0 <= k < i ==> #[trigger] outcomes[k]@ == ZoneOutcomeView::Wiper(
                    reply.outcomes[k],
                ),
        decreases reply.outcomes.len() - i,
    {
        outcomes.push(ZoneOutcome::Wiper(reply.outcomes[i]));
        i = i + 1;
    }
    let result = ZoneTurnResult { ctx: next, outcomes };
    assert(result@.outcomes =~= with_wiper(*ctx, given).outcomes);
    result
}

fn no_zone(ctx: VehicleContext) -> (result: ZoneTurnResult)
    ensures
        result@ == untouched(ctx),
{
    let result = ZoneTurnResult { ctx, outcomes: Vec::new() };
    assert(result@.outcomes =~= untouched(ctx).outcomes);
    result
}

/// Applies an event to the zones. The operational state machine takes no part in it.
pub fn zone_turn(
    ctx: &VehicleContext,
    event: &FsmEvent,
    current_state: &FsmState,
    now: Instant,
    zone_replies: &ZoneReplies,
) -> (result: ZoneTurnResult)
    ensures
        result@ == zone_effect(*ctx, *event, *current_state, now, zone_replies@),
{
    let headlamp_ingress = match zone_replies.get(&ZoneId::Headlamp) {
        Some(reply) => reply.as_headlamp(),
        None => None,
    };
    let wiper_ingress = match zone_replies.get(&ZoneId::Wiper) {
        Some(reply) => reply.as_wiper(),
        None => None,
    };
    assert((match headlamp_ingress {
        Some(r) => Some(r@),
        None => None,
    }) == crate::twin_runtime::zone_replies::headlamp_answer(zone_replies@));
    assert((match wiper_ingress {
        Some(r) => Some(r@),
        None => None,
    }) == crate::twin_runtime::zone_replies::wiper_answer(zone_replies@));
    match event {
        FsmEvent::UpdateRpm(rpm) => {
            let mut next = *ctx;
            next.powertrain.apply_rpm(*rpm);
            next.powertrain.refresh_speed();
            if *current_state == FsmState::Off {
                next.powertrain.freeze_standstill();
            }
            no_zone(next)
        },
        FsmEvent::UpdateAmbientLux(lux) => {
            let mut next = *ctx;
            next.visibility.apply_lux(*lux);
            take_headlamp_reply(
                &next,
                merge_headlamp_for_message(
                    ctx,
                    HeadlampMessage::AmbientLux(*lux),
                    now,
                    headlamp_ingress,
                ),
            )
        },
        FsmEvent::FrontHeadlampOnAck => take_headlamp_reply(
            ctx,
            merge_headlamp_for_message(ctx, HeadlampMessage::AckOn, now, headlamp_ingress),
        ),
        FsmEvent::FrontHeadlampOffAck => take_headlamp_reply(
            ctx,
            merge_headlamp_for_message(ctx, HeadlampMessage::AckOff, now, headlamp_ingress),
        ),
        FsmEvent::FrontHeadlampActuationIncomplete { direction, cause } => take_headlamp_reply(
            ctx,
            merge_headlamp_for_message(
                ctx,
                HeadlampMessage::ActuationIncomplete { direction: *direction, cause: *cause },
                now,
                headlamp_ingress,
            ),
        ),
        FsmEvent::TimerTick => take_headlamp_reply(
            ctx,
            merge_headlamp_for_message(ctx, HeadlampMessage::TimerTick, now, headlamp_ingress),
        ),
        FsmEvent::RainsStarted => take_wiper_reply(
            ctx,
            merge_wiper_for_message(ctx, WiperMessage::Start, wiper_ingress),
        ),
        FsmEvent::RainsStopped => take_wiper_reply(
            ctx,
            merge_wiper_for_message(ctx, WiperMessage::Stop, wiper_ingress),
        ),
        FsmEvent::PowerOn | FsmEvent::PowerOff | FsmEvent::Internal(_) => no_zone(*ctx),
        FsmEvent::AssemblyZoneReady(zone_id) => match zone_id {
            ZoneId::Headlamp => match headlamp_ingress {
                Some(reply) => take_headlamp_reply(ctx, reply.clone()),
                None => no_zone(*ctx),
            },
            ZoneId::Wiper => match wiper_ingress {
                Some(reply) => take_wiper_reply(ctx, reply.clone()),
                None => no_zone(*ctx),
            },
        },
    }
}

/// No zone is told of an outside event while assemblies are started or stopped.
pub proof fn no_zone_is_told_during_preparation(event: FsmEvent, state: FsmState)
    requires
        state == FsmState::PreparingToStart || state == FsmState::PreparingToStop,
    ensures
        zone_tell_in(event, state) is None,
{
}

/// A zone that was told of an event answers what it would have answered in process: merging the
/// answer that the headlamp gives to the told message is the same as having no answer at all.
pub proof fn told_zone_agrees_with_local(
    ctx: VehicleContext,
    event: FsmEvent,
    state: FsmState,
    now: Instant,
)
    requires
        headlamp_tell(event) is Some,
    ensures
        ({
            let answer = ctx.headlamp.received(headlamp_tell(event)->0, now).reply();
            let replies = Map::<ZoneId, ZoneReplyView>::empty().insert(
                ZoneId::Headlamp,
                ZoneReplyView::Headlamp(answer),
            );
            zone_effect(ctx, event, state, now, replies) == zone_effect(
                ctx,
                event,
                state,
                now,
                Map::empty(),
            )
        }),
{
}

/// The event is one that the headlamp answers.
pub open spec fn concerns_headlamp(event: FsmEvent) -> bool {
    headlamp_tell(event) is Some || event == FsmEvent::TimerTick || event
        == FsmEvent::AssemblyZoneReady(ZoneId::Headlamp)
}

/// The headlamp's own logic runs in its zone alone: where the zone has answered, what comes of an
/// event is the same whatever the brain held of the lamp before. Only an event without an answer,
/// such as a heartbeat or light that arrives while assemblies are prepared, is judged in process.
pub proof fn an_answer_leaves_the_lamp_to_its_zone(
    ctx: VehicleContext,
    other: HeadlampContext,
    event: FsmEvent,
    state: FsmState,
    now: Instant,
    replies: Map<ZoneId, ZoneReplyView>,
)
    requires
        concerns_headlamp(event),
        zone_replies::headlamp_answer(replies) is Some,
    ensures
        zone_effect(ctx, event, state, now, replies) == zone_effect(
            VehicleContext { headlamp: other, ..ctx },
            event,
            state,
            now,
            replies,
        ),
{
}

} // verus!
