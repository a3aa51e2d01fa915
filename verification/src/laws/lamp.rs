//! When the headlamp and the wiper are switched.
use vstd::prelude::*;

use crate::clock::Instant;
use crate::front_headlamp_log;
use crate::fsm::machineries::DomainActionView;
use crate::twin_runtime::headlamp_actor;
use crate::vehicle_state::front_headlamp;
use crate::vehicle_state::front_headlamp::{
    FrontHeadlampIncompleteCause, FrontHeadlampSwitchDirection, HeadlampContext, HeadlampMessage,
    HeadlampOutcomeView, HeadlampState,
};
use crate::vehicle_state::wiper::{WiperContext, WiperMessage, WiperOutcome, WiperState};

verus! {

/// Light switches the lamp with hysteresis: at 840 lux and below a dark lamp is requested on, at
/// 860 lux and above a burning one off, each with its wait beginning now. Any other reading, and
/// any reading while a request is in flight, changes nothing and reports nothing.
pub proof fn light_requests_a_switch(ctx: HeadlampContext, lux: u16, now: Instant)
    ensures
        ({
            let reply = ctx.received(HeadlampMessage::AmbientLux(lux), now).reply();
            let dark = ctx.state == HeadlampState::Off || ctx.state == HeadlampState::Ready;
            if dark && lux <= 840 {
                &&& reply.ctx.state == HeadlampState::OnRequested
                &&& reply.ctx.ack_pending_since == Some(now)
                &&& reply.outcomes == seq![HeadlampOutcomeView::RequestOn]
            } else if ctx.state == HeadlampState::On && lux >= 860 {
                &&& reply.ctx.state == HeadlampState::OffRequested
                &&& reply.ctx.ack_pending_since == Some(now)
                &&& reply.outcomes == seq![HeadlampOutcomeView::RequestOff]
            } else {
                &&& reply.ctx == ctx
                &&& reply.outcomes.len() == 0
            }
        }),
{
}

/// Requests are monotonic in the light: where a reading requests the lamp off, every brighter one
/// does, and where a reading requests it on, every darker one does. Full darkness requests every
/// dark lamp on and full light every burning one off.
pub proof fn requests_are_monotonic_in_the_light(
    ctx: HeadlampContext,
    darker: u16,
    brighter: u16,
    now: Instant,
)
    requires
        darker <= brighter,
    ensures
        ({
            let dim = ctx.received(HeadlampMessage::AmbientLux(darker), now).reply().outcomes;
            let bright = ctx.received(HeadlampMessage::AmbientLux(brighter), now).reply().outcomes;
            &&& dim.contains(HeadlampOutcomeView::RequestOff) ==> bright.contains(
                HeadlampOutcomeView::RequestOff,
            )
            &&& bright.contains(HeadlampOutcomeView::RequestOn) ==> dim.contains(
                HeadlampOutcomeView::RequestOn,
            )
            &&& darker == 0 && (ctx.state == HeadlampState::Off || ctx.state
                == HeadlampState::Ready) ==> dim.contains(HeadlampOutcomeView::RequestOn)
            &&& brighter == u16::MAX && ctx.state == HeadlampState::On ==> bright.contains(
                HeadlampOutcomeView::RequestOff,
            )
        }),
{
    light_requests_a_switch(ctx, darker, now);
    light_requests_a_switch(ctx, brighter, now);
    let dim = ctx.received(HeadlampMessage::AmbientLux(darker), now).reply().outcomes;
    let bright = ctx.received(HeadlampMessage::AmbientLux(brighter), now).reply().outcomes;
    if dim.len() > 0 {
        assert(dim.contains(dim[0]));
    }
    if bright.len() > 0 {
        assert(bright.contains(bright[0]));
    }
}

/// Light that is judged against a given earlier state requests what it would request of a lamp in
/// that state, and otherwise leaves the lamp as it is.
pub proof fn light_is_judged_against_the_state_before(
    ctx: HeadlampContext,
    prev: HeadlampState,
    lux: u16,
    now: Instant,
)
    ensures
        ({
            let after = ctx.on_lux(prev, lux, now);
            let dark = prev == HeadlampState::Off || prev == HeadlampState::Ready;
            &&& after.actions().len() == 1 <==> (dark && lux <= 840) || (prev == HeadlampState::On
                && lux >= 860)
            &&& after.actions().len() == 0 ==> after.ctx == ctx
            &&& after.actions().len() == 1 ==> after.ctx.ack_pending_since == Some(now)
            &&& after.actions().len() == 1 && dark ==> after.ctx.state == HeadlampState::OnRequested
                && after.actions()[0] == DomainActionView::RequestFrontHeadlampOn
            &&& after.actions().len() == 1 && !dark ==> after.ctx.state
                == HeadlampState::OffRequested && after.actions()[0]
                == DomainActionView::RequestFrontHeadlampOff
            &&& after.actions().len() <= 1
        }),
{
}

/// A positive acknowledgement settles the lamp as commanded, starting the assembly makes it ready,
/// stopping it and switching the ignition off make it dark. The wait is over in each case, and
/// nothing is reported.
pub proof fn acknowledgements_and_orders_settle_the_lamp(
    ctx: HeadlampContext,
    message: HeadlampMessage,
    now: Instant,
)
    requires
        !(message is AmbientLux),
        !(message is ActuationIncomplete),
        !(message is TimerTick),
    ensures
        ({
            let reply = ctx.received(message, now).reply();
            &&& reply.outcomes.len() == 0
            &&& reply.ctx.ack_pending_since is None
            &&& reply.ctx.state == HeadlampState::On <==> message is AckOn
            &&& reply.ctx.state == HeadlampState::Ready <==> message is BecomeOn
            &&& reply.ctx.state == HeadlampState::Off <==> message is AckOff || message is BecomeOff
                || message is ResetForIgnitionOff
        }),
{
}

/// The lamp is taken to be where it was before the request, the wait is over, and there is exactly
/// one warning.
pub open spec fn undone(
    ctx: HeadlampContext,
    message: HeadlampMessage,
    now: Instant,
    on: bool,
) -> bool {
    let reply = ctx.received(message, now).reply();
    &&& reply.ctx.state == if on {
        HeadlampState::Off
    } else {
        HeadlampState::On
    }
    &&& reply.ctx.ack_pending_since is None
    &&& reply.outcomes.len() == 1
    &&& reply.outcomes[0] is LogWarning
}

/// A command that was not completed undoes the request of its own direction, if that is in flight,
/// and is otherwise passed over.
pub proof fn incomplete_commands_undo_their_own_request(
    ctx: HeadlampContext,
    direction: FrontHeadlampSwitchDirection,
    cause: FrontHeadlampIncompleteCause,
    now: Instant,
)
    ensures
        ({
            let message = HeadlampMessage::ActuationIncomplete { direction, cause };
            let reply = ctx.received(message, now).reply();
            if ctx.state == HeadlampState::OnRequested && direction
                == FrontHeadlampSwitchDirection::On {
                undone(ctx, message, now, true)
            } else if ctx.state == HeadlampState::OffRequested && direction
                == FrontHeadlampSwitchDirection::Off {
                undone(ctx, message, now, false)
            } else {
                &&& reply.ctx == ctx
                &&& reply.outcomes.len() == 0
            }
        }),
{
}

/// A heartbeat undoes a request that has been waiting for half a second or longer, and is otherwise
/// passed over.
pub proof fn heartbeats_time_requests_out(ctx: HeadlampContext, now: Instant)
    ensures
        ({
            let reply = ctx.received(HeadlampMessage::TimerTick, now).reply();
            let late = ctx.ack_pending_since matches Some(since) && now.nanos - since.nanos
                >= 500_000_000;
            if late && ctx.state == HeadlampState::OnRequested {
                undone(ctx, HeadlampMessage::TimerTick, now, true)
            } else if late && ctx.state == HeadlampState::OffRequested {
                undone(ctx, HeadlampMessage::TimerTick, now, false)
            } else {
                &&& reply.ctx == ctx
                &&& reply.outcomes.len() == 0
            }
        }),
{
}

/// The warning for a command that was not completed tells the direction and the cause.
pub proof fn warnings_tell_direction_and_cause(
    direction: FrontHeadlampSwitchDirection,
    cause: FrontHeadlampIncompleteCause,
)
    ensures
        ({
            let on = direction == FrontHeadlampSwitchDirection::On;
            let timed_out = cause == FrontHeadlampIncompleteCause::TimedOut;
            let warning = front_headlamp_log::incomplete_text(direction, cause);
            &&& on && timed_out ==> warning == "⏱️💡"@ + " "@
                + "Front headlamp ON request — no actuator response (timed out)."@
            &&& !on && timed_out ==> warning == "⏱️🌑"@ + " "@
                + "Front headlamp OFF request — no actuator response (timed out)."@
            &&& on && !timed_out ==> warning == "❌🔆"@ + " "@
                + "Front headlamp ON rejected (NACK)."@
            &&& !on && !timed_out ==> warning == "❌🌑"@ + " "@
                + "Front headlamp OFF rejected (NACK)."@
        }),
{
}

/// What undoes a request warns with the text of its direction and cause; a heartbeat warns of a
/// timeout.
pub proof fn undoing_warns_of_the_cause(
    ctx: HeadlampContext,
    direction: FrontHeadlampSwitchDirection,
    cause: FrontHeadlampIncompleteCause,
    now: Instant,
)
    ensures
        ({
            let told = HeadlampMessage::ActuationIncomplete { direction, cause };
            let rejected = ctx.received(told, now).reply().outcomes;
            let late = ctx.received(HeadlampMessage::TimerTick, now).reply().outcomes;
            &&& rejected.len() > 0 ==> rejected[0] == HeadlampOutcomeView::LogWarning(
                front_headlamp_log::incomplete_text(direction, cause),
            )
            &&& late.len() > 0 ==> late[0] == HeadlampOutcomeView::LogWarning(
                front_headlamp_log::incomplete_text(
                    if ctx.state == HeadlampState::OnRequested {
                        FrontHeadlampSwitchDirection::On
                    } else {
                        FrontHeadlampSwitchDirection::Off
                    },
                    FrontHeadlampIncompleteCause::TimedOut,
                ),
            )
        }),
{
}

/// Each outcome of the lamp becomes the action of the same meaning.
pub proof fn outcomes_become_actions_of_the_same_meaning(warning: Seq<char>)
    ensures
        front_headlamp::outcome_action(HeadlampOutcomeView::RequestOn)
            == DomainActionView::RequestFrontHeadlampOn,
        front_headlamp::outcome_action(HeadlampOutcomeView::RequestOff)
            == DomainActionView::RequestFrontHeadlampOff,
        front_headlamp::outcome_action(HeadlampOutcomeView::LogWarning(warning))
            == DomainActionView::LogWarning(warning),
{
}

/// The lamp is given a deadline exactly when what it is told leaves it with a request that it did
/// not have before, and the deadline is the request's own. So light that crosses a threshold sets
/// one, and nothing else that a settled lamp is told does.
pub proof fn new_requests_get_a_deadline(
    before: HeadlampContext,
    message: HeadlampMessage,
    now: Instant,
)
    requires
        before.state == HeadlampState::OnRequested || before.state == HeadlampState::OffRequested
            <==> before.ack_pending_since is Some,
    ensures
        ({
            let after = before.received(message, now).ctx;
            let deadline = headlamp_actor::deadline_of(before, after);
            &&& deadline is Some <==> after != before && (after.state == HeadlampState::OnRequested
                || after.state == HeadlampState::OffRequested)
            &&& deadline is Some ==> {
                &&& message is AmbientLux
                &&& deadline->0.since == now
                &&& deadline->0.direction == FrontHeadlampSwitchDirection::On <==> after.state
                    == HeadlampState::OnRequested
            }
        }),
{
}

/// A deadline is set exactly for a request with a wait that differs from what was before, whatever
/// led to it.
pub proof fn deadlines_belong_to_requests(before: HeadlampContext, after: HeadlampContext)
    ensures
        ({
            let deadline = headlamp_actor::deadline_of(before, after);
            &&& deadline is Some <==> (after.state == HeadlampState::OnRequested || after.state
                == HeadlampState::OffRequested) && after.ack_pending_since is Some && (after.state
                != before.state || after.ack_pending_since != before.ack_pending_since)
            &&& deadline is Some ==> Some(deadline->0.since) == after.ack_pending_since
            &&& deadline is Some ==> (deadline->0.direction == FrontHeadlampSwitchDirection::On
                <==> after.state == HeadlampState::OnRequested)
        }),
{
}

/// The wiper does as it is told, whatever it did before, and reports exactly a change.
pub proof fn the_wiper_does_as_told(ctx: WiperContext, message: WiperMessage)
    ensures
        ({
            let reply = ctx.received(message);
            &&& reply.ctx.state == WiperState::Wiping <==> message == WiperMessage::Start
            &&& reply.ctx.state == ctx.state ==> reply.outcomes.len() == 0
            &&& reply.ctx.state != ctx.state ==> reply.outcomes == seq![
                if message == WiperMessage::Start {
                    WiperOutcome::Started
                } else {
                    WiperOutcome::Stopped
                },
            ]
        }),
{
}

} // verus!
