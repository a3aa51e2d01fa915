//! The smaller pieces: text, clock, zones, diagnostics, barriers, zones' reactions, quiescence.

use sdv_twin::clock::{Duration, Instant};
use sdv_twin::diagnostic::{
    diag_actuation_failure, diag_front_headlamp_confirmed, diag_initializing,
    diag_state_transition, diag_transition_sink_closed, diag_transition_sink_full, diag_warning,
    DiagnosticLevel, DiagnosticMessage,
};
use sdv_twin::digital_twin::car::DigitalTwinCar;
use sdv_twin::digital_twin::state_laws::{state_laws, verify_state_laws};
use sdv_twin::digital_twin::vocabulary::ZoneReply;
use sdv_twin::domain_types::VehicleState;
use sdv_twin::front_headlamp_log::alert_incomplete;
use sdv_twin::fsm::machineries::{
    ActorModeHintFromDomain, DomainAction, FsmAction, FsmEvent, FsmState, Operational,
};
use sdv_twin::fsm::step::step;
use sdv_twin::fsm::transition_map::{output, transition, TransitionNote};
use sdv_twin::text::{append_decimal, append_padded, bracketed, trim};
use sdv_twin::twin_runtime::controller::actuation_contract::ActuationCommand;
use sdv_twin::twin_runtime::controller::actuation_manager::{
    format_timestamp, ActuationError, ActuationManager, DefaultActuationManager,
};
use sdv_twin::twin_runtime::outcome_map::zone_outcomes_to_domain_actions;
use sdv_twin::twin_runtime::turn_barrier::{
    BarrierEntry, PassthroughBarrier, TimeoutOutcome, TurnBarrier,
};
use sdv_twin::twin_runtime::twin_turn::{
    commit_resolved_turn, fsm_step_lands_off, run_to_quiescence, twin_turn, ResolvedTurn,
};
use sdv_twin::twin_runtime::zone_replies::ZoneReplies;
use sdv_twin::twin_runtime::zone_tell_back::{
    synthetic_unresponsive_headlamp_reply, TellBackTimer, TellBackWait,
};
use sdv_twin::twin_runtime::zone_turn::{zone_turn, ZoneOutcome};
use sdv_twin::vehicle_state::front_headlamp::{
    FrontHeadlampIncompleteCause, FrontHeadlampSwitchDirection, HeadlampContext, HeadlampMessage,
    HeadlampOutcome, HeadlampState, HeadlampZoneReply,
};
use sdv_twin::vehicle_state::wiper::{
    WiperContext, WiperMessage, WiperOutcome, WiperState, WiperZoneReply,
};
use sdv_twin::vehicle_state::VehicleContext;
use sdv_twin::zones::{ZoneId, ZoneSet};

fn at(nanos: u64) -> Instant {
    Instant::from_nanos(nanos)
}

fn rpm_ctx(rpm: u16) -> VehicleContext {
    let mut ctx = VehicleContext::default();
    ctx.powertrain.apply_rpm(rpm);
    ctx.powertrain.refresh_speed();
    ctx
}

#[test]
fn decimals_have_no_leading_zeros_and_padding_has() {
    let mut out = String::from("n=");
    append_decimal(&mut out, 0);
    out.push(' ');
    append_decimal(&mut out, u64::MAX);
    out.push(' ');
    append_padded(&mut out, 42, 5);
    out.push(' ');
    append_padded(&mut out, 123_456, 3);
    assert_eq!(out, "n=0 18446744073709551615 00042 456");
}

#[test]
fn trimming_agrees_with_the_standard_library() {
    for s in [
        "", " ", "a", " a", "a ", "  a b  ", "\t\n\u{b}\u{c}\r x\u{85}", "\u{a0}\u{1680}y\u{2028}",
        "\u{2003}\u{200a}z\u{202f}\u{205f}\u{3000}", "\u{200b}k\u{feff}", "é ",
    ] {
        assert_eq!(trim(s), s.trim(), "{s:?}");
        assert_eq!(trim(trim(s)), trim(s));
    }
}

#[test]
fn white_space_is_judged_as_the_standard_library_judges_it() {
    let mut code: u32 = 0;
    while code <= 0x10ffff {
        if let Some(c) = char::from_u32(code) {
            let s = c.to_string();
            assert_eq!(trim(&s).is_empty(), c.is_whitespace(), "U+{code:04X}");
        }
        code += 1;
    }
}

#[test]
fn instants_measure_spans_without_going_negative() {
    let base = at(100);
    assert_eq!(base.plus(Duration { nanos: 5 }), at(105));
    assert_eq!(at(105).saturating_duration_since(base), Duration { nanos: 5 });
    assert_eq!(base.saturating_duration_since(at(105)), Duration { nanos: 0 });
    assert_eq!(at(105).checked_duration_since(base), Some(Duration { nanos: 5 }));
    assert_eq!(base.checked_duration_since(at(105)), None);
    assert_eq!(Duration::from_secs(2).nanos, 2_000_000_000);
    assert_eq!(Duration::from_millis(3).nanos, 3_000_000);
}

#[test]
fn zone_sets_hold_their_members() {
    let both = ZoneSet::only(ZoneId::Headlamp).with(ZoneId::Wiper);
    assert!(both.contains(ZoneId::Headlamp) && both.contains(ZoneId::Wiper));
    let one = both.without(ZoneId::Headlamp);
    assert!(!one.contains(ZoneId::Headlamp) && !one.is_empty());
    assert_eq!(one.without(ZoneId::Wiper), ZoneSet::empty());
    assert!(ZoneSet::empty().is_empty());
}

#[test]
fn public_states_follow_the_modes() {
    assert_eq!(VehicleState::from(&FsmState::DrivingDangerously), VehicleState::Critical);
    assert_eq!(
        VehicleState::from(&FsmState::ExtremeOperationWarning(at(1))),
        VehicleState::ExtremeOperationWarning
    );
    assert_eq!(VehicleState::from(&FsmState::PreparingToStop).name(), "PreparingToStop");
    assert_eq!(VehicleState::default(), VehicleState::Off);
}

#[test]
fn alerts_pair_icon_and_message() {
    use_alert(FrontHeadlampSwitchDirection::On, FrontHeadlampIncompleteCause::TimedOut,
        "⏱️💡 Front headlamp ON request — no actuator response (timed out).");
    use_alert(FrontHeadlampSwitchDirection::Off, FrontHeadlampIncompleteCause::TimedOut,
        "⏱️🌑 Front headlamp OFF request — no actuator response (timed out).");
    use_alert(FrontHeadlampSwitchDirection::On, FrontHeadlampIncompleteCause::NegativeAck,
        "❌🔆 Front headlamp ON rejected (NACK).");
    use_alert(FrontHeadlampSwitchDirection::Off, FrontHeadlampIncompleteCause::NegativeAck,
        "❌🌑 Front headlamp OFF rejected (NACK).");
}

fn use_alert(
    direction: FrontHeadlampSwitchDirection,
    cause: FrontHeadlampIncompleteCause,
    text: &str,
) {
    assert_eq!(alert_incomplete(direction, cause), text);
}

#[test]
fn power_off_is_refused_with_the_mode_in_the_text() {
    for (state, text) in [
        (FsmState::Off, "Off"),
        (FsmState::Driving, "Driving"),
        (FsmState::DrivingDangerously, "DrivingDangerously"),
        (
            FsmState::ExtremeOperationWarning(at(17)),
            "ExtremeOperationWarning(Instant { nanos: 17 })",
        ),
    ] {
        let decided = transition(&state, &FsmEvent::PowerOff, &rpm_ctx(1200), at(20));
        assert_eq!(decided.next_state, state);
        assert_eq!(decided.note, Some(TransitionNote::RejectedPowerOff));
        let result = step(&state, &rpm_ctx(1200), &FsmEvent::PowerOff, at(20));
        assert_eq!(format!("{state:?}"), text);
        assert!(result.actions.contains(&DomainAction::LogWarning(format!(
            "[REJECTED]: PowerOff is invalid while in state {text}"
        ))));
    }
    for state in [FsmState::PreparingToStart, FsmState::PreparingToStop] {
        let decided = transition(&state, &FsmEvent::PowerOff, &rpm_ctx(0), at(20));
        assert_eq!(decided.next_state, state);
        assert!(decided.note.is_none());
    }
}

#[test]
fn an_unhealthy_car_does_not_start() {
    let mut ctx = VehicleContext::default();
    assert!(ctx.is_healthy());
    ctx.health.tyre_pressure_ok = false;
    assert!(!ctx.is_healthy());
    let decided = transition(&FsmState::Off, &FsmEvent::PowerOn, &ctx, at(1));
    assert_eq!(decided.next_state, FsmState::Off);
    assert!(decided.note.is_none());
}

#[test]
fn preparation_needs_every_pending_assembly() {
    let mut ctx = VehicleContext::default();
    ctx.pending_assemblies = ZoneSet::only(ZoneId::Headlamp).with(ZoneId::Wiper);
    let first = step(
        &FsmState::PreparingToStart,
        &ctx,
        &FsmEvent::AssemblyZoneReady(ZoneId::Wiper),
        at(1),
    );
    assert_eq!(first.next_state, FsmState::PreparingToStart);
    assert_eq!(first.modified_ctx.pending_assemblies, ZoneSet::only(ZoneId::Headlamp));
    let second = step(
        &first.next_state,
        &first.modified_ctx,
        &FsmEvent::AssemblyZoneReady(ZoneId::Headlamp),
        at(2),
    );
    assert_eq!(second.next_state, FsmState::Idle);
    assert!(second.modified_ctx.pending_assemblies.is_empty());
    assert_eq!(second.transition_record.actions, vec![DomainAction::PublishStateSync]);
}

#[test]
fn the_warning_is_left_on_a_heartbeat_after_the_cooldown_alone() {
    let began = at(1_000);
    let warned = FsmState::ExtremeOperationWarning(began);
    let calm = rpm_ctx(1200);
    let almost = Instant::from_nanos(1_000 + 4_999_999_999);
    let ripe = began.plus(Duration::from_secs(5));
    let next = |event: &FsmEvent, ctx: &VehicleContext, now: Instant| {
        transition(&warned, event, ctx, now).next_state
    };
    assert_eq!(next(&FsmEvent::TimerTick, &calm, almost), warned);
    assert_eq!(next(&FsmEvent::TimerTick, &calm, ripe), FsmState::Driving);
    assert_eq!(next(&FsmEvent::TimerTick, &rpm_ctx(0), ripe), FsmState::Idle);
    assert_eq!(next(&FsmEvent::TimerTick, &rpm_ctx(1500), ripe), warned);
    assert_eq!(next(&FsmEvent::UpdateRpm(0), &rpm_ctx(0), ripe), warned);
    assert_eq!(next(&FsmEvent::TimerTick, &calm, at(0)), warned);
}

#[test]
fn mode_changes_call_for_their_actions() {
    let ctx = rpm_ctx(1500);
    let buzz = |old: FsmState, new: FsmState| output(&old, &new, &ctx);
    assert_eq!(buzz(FsmState::Driving, FsmState::DrivingDangerously), vec![FsmAction::StartBuzzer]);
    assert_eq!(buzz(FsmState::DrivingDangerously, FsmState::Idle), vec![FsmAction::StopBuzzer]);
    assert_eq!(buzz(FsmState::Idle, FsmState::Driving), vec![FsmAction::PublishStateSync]);
    assert!(buzz(FsmState::Idle, FsmState::Idle).is_empty());
    assert_eq!(buzz(FsmState::Driving, FsmState::ExtremeOperationWarning(at(1))).len(), 2);
}

#[test]
fn steps_hint_at_the_runtime_mode_but_rows_do_not_show_it() {
    let result = step(&FsmState::Driving, &rpm_ctx(1500), &FsmEvent::TimerTick, at(3));
    assert_eq!(
        result.actions.last(),
        Some(&DomainAction::EnterMode(ActorModeHintFromDomain::Transitioning))
    );
    assert_eq!(result.transition_record.actions.len(), result.actions.len() - 1);
    let calm = step(&FsmState::Idle, &rpm_ctx(0), &FsmEvent::TimerTick, at(3));
    assert_eq!(calm.actions, vec![DomainAction::EnterMode(ActorModeHintFromDomain::Normal)]);
    assert!(calm.transition_record.actions.is_empty());
}

#[test]
fn turns_quiesce_after_one_hop_or_two() {
    let dark = VehicleContext::default();
    let two = run_to_quiescence(
        &FsmState::Idle,
        &dark,
        &FsmEvent::UpdateRpm(1200),
        at(5),
        &ZoneReplies::simulate_locally(),
    );
    assert_eq!(two.hops.len(), 2);
    assert_eq!(two.hops[0].result.next_state, FsmState::Driving);
    assert_eq!(two.hops[1].event, FsmEvent::Internal(Operational::LightingUnsafe));
    assert_eq!(two.final_step().next_state, FsmState::DrivingDangerously);
    assert_eq!(two.hops[1].result.transition_record.old_state, FsmState::Driving);
    assert_eq!(
        two.merged_actions(),
        vec![
            DomainAction::PublishStateSync,
            DomainAction::EnterMode(ActorModeHintFromDomain::Normal),
            DomainAction::StartBuzzer,
            DomainAction::EnterMode(ActorModeHintFromDomain::Transitioning),
        ]
    );

    let mut bright = VehicleContext::default();
    bright.visibility.apply_lux(900);
    let one = commit_resolved_turn(
        &FsmState::Idle,
        &bright,
        ResolvedTurn {
            ingress: FsmEvent::UpdateRpm(1200),
            now: at(5),
            zone_replies: ZoneReplies::default(),
        },
    );
    assert_eq!(one.hops.len(), 1);
    assert_eq!(one.final_step().next_state, FsmState::Driving);
}

#[test]
fn a_car_that_reaches_off_is_at_rest() {
    let mut ctx = rpm_ctx(900);
    assert_eq!(ctx.powertrain.speed_kph, 103);
    ctx.pending_assemblies = ZoneSet::only(ZoneId::Headlamp);
    ctx.headlamp =
        HeadlampContext { state: HeadlampState::OffRequested, ack_pending_since: Some(at(1)) };
    let result = twin_turn(
        &FsmState::PreparingToStop,
        &ctx,
        &FsmEvent::AssemblyZoneReady(ZoneId::Headlamp),
        at(9),
    );
    assert_eq!(result.next_state, FsmState::Off);
    assert_eq!(result.modified_ctx.powertrain.speed_kph, 0);
    assert_eq!(result.modified_ctx.headlamp, HeadlampContext::default());
    assert_eq!(result.transition_record.current_ctx, result.modified_ctx);
    assert!(verify_state_laws(&result.next_state, &result.modified_ctx).is_ok());
}

#[test]
fn nothing_but_an_assembly_leads_straight_to_off() {
    let ctx = rpm_ctx(0);
    for state in [FsmState::Idle, FsmState::Driving, FsmState::PreparingToStop, FsmState::Off] {
        for event in [
            FsmEvent::PowerOff,
            FsmEvent::UpdateRpm(0),
            FsmEvent::Internal(Operational::AssembliesStopped),
            FsmEvent::AssemblyZoneReady(ZoneId::Headlamp),
        ] {
            assert!(!fsm_step_lands_off(&state, &ctx, &event, at(4), &ZoneReplies::default()));
        }
    }
}

#[test]
fn state_laws_are_judged_in_catalog_order() {
    assert_eq!(state_laws().len(), 2);
    let moving = rpm_ctx(2000);
    let off = verify_state_laws(&FsmState::Off, &moving).expect_err("moving while off");
    assert_eq!(off.len(), 1);
    assert_eq!(off[0].law, "standstill_when_off");
    assert!(verify_state_laws(&FsmState::Driving, &moving).is_ok());
    assert!(verify_state_laws(&FsmState::Driving, &rpm_ctx(1000)).is_err());
}

#[test]
fn light_is_judged_with_a_dead_band() {
    let mut actions = Vec::new();
    let mut ctx = HeadlampContext::default();
    for lux in 841..=u16::MAX {
        ctx.evaluate_lux(HeadlampState::Off, lux, at(1), &mut actions);
    }
    assert!(actions.is_empty());
    ctx.evaluate_lux(HeadlampState::Ready, 840, at(7), &mut actions);
    assert_eq!(actions, vec![DomainAction::RequestFrontHeadlampOn]);
    assert_eq!(
        ctx,
        HeadlampContext { state: HeadlampState::OnRequested, ack_pending_since: Some(at(7)) }
    );
    ctx.evaluate_lux(ctx.state, 0, at(8), &mut actions);
    assert_eq!(actions.len(), 1);
    ctx.apply_on_ack();
    ctx.evaluate_lux(ctx.state, 859, at(9), &mut actions);
    assert_eq!(ctx.state, HeadlampState::On);
    ctx.evaluate_lux(ctx.state, 860, at(9), &mut actions);
    assert_eq!(actions[1], DomainAction::RequestFrontHeadlampOff);
    ctx.apply_off_ack();
    assert_eq!(ctx, HeadlampContext::default());
}

#[test]
fn a_timeout_warns_once_and_undoes_the_request() {
    let mut actions = Vec::new();
    let mut ctx =
        HeadlampContext { state: HeadlampState::OffRequested, ack_pending_since: Some(at(0)) };
    ctx.on_timer_tick(at(499_999_999), &mut actions);
    assert!(actions.is_empty());
    ctx.on_timer_tick(at(500_000_000), &mut actions);
    ctx.on_timer_tick(at(900_000_000), &mut actions);
    assert_eq!(actions.len(), 1);
    assert_eq!(ctx.state, HeadlampState::On);
    ctx.on_incomplete(
        FrontHeadlampSwitchDirection::Off,
        FrontHeadlampIncompleteCause::NegativeAck,
        &mut actions,
    );
    assert_eq!(actions.len(), 1);
    ctx.reset_for_ignition_off();
    assert_eq!(ctx, HeadlampContext::default());
}

#[test]
fn the_headlamp_is_started_and_stopped() {
    let on = HeadlampContext { state: HeadlampState::On, ack_pending_since: None };
    assert_eq!(
        on.on_receiving_message(HeadlampMessage::BecomeOn, at(1)).ctx.state,
        HeadlampState::Ready
    );
    let stopped = on.on_receiving_message(HeadlampMessage::BecomeOff, at(1));
    assert_eq!(stopped.ctx.state, HeadlampState::Off);
    assert!(stopped.outcomes.is_empty());
}

#[test]
fn the_wiper_reports_changes_only() {
    let parked = WiperContext::default();
    let started = parked.on_receiving_message(WiperMessage::Start);
    assert_eq!(started.ctx.state, WiperState::Wiping);
    assert_eq!(started.outcomes, vec![WiperOutcome::Started]);
    let again = started.ctx.on_receiving_message(WiperMessage::Start);
    assert!(again.outcomes.is_empty());
    let stopped = started.ctx.on_receiving_message(WiperMessage::Stop);
    assert_eq!(stopped.outcomes, vec![WiperOutcome::Stopped]);
    assert_eq!(stopped.ctx, parked);
}

#[test]
fn zones_take_their_own_answers_over() {
    let ctx = VehicleContext::default();
    let answered = HeadlampZoneReply {
        ctx: HeadlampContext { state: HeadlampState::On, ack_pending_since: None },
        outcomes: vec![HeadlampOutcome::RequestOff, HeadlampOutcome::LogWarning("w".to_string())],
    };
    let replies = ZoneReplies::with_reply(ZoneId::Headlamp, ZoneReply::Headlamp(answered));
    assert!(replies.get(&ZoneId::Wiper).is_none());
    let turned = zone_turn(&ctx, &FsmEvent::UpdateAmbientLux(5), &FsmState::Idle, at(1), &replies);
    assert_eq!(turned.ctx.headlamp.state, HeadlampState::On);
    assert_eq!(turned.ctx.visibility.ambient_lux, 5);
    assert_eq!(turned.outcomes.len(), 2);
    assert_eq!(
        zone_outcomes_to_domain_actions(turned.outcomes),
        vec![DomainAction::RequestFrontHeadlampOff, DomainAction::LogWarning("w".to_string())]
    );

    let wrong = ZoneReplies::with_reply(
        ZoneId::Headlamp,
        ZoneReply::Wiper(WiperZoneReply { ctx: WiperContext::default(), outcomes: Vec::new() }),
    );
    let ready = FsmEvent::AssemblyZoneReady(ZoneId::Headlamp);
    let ignored = zone_turn(&ctx, &ready, &FsmState::PreparingToStart, at(1), &wrong);
    assert_eq!(ignored.ctx, ctx);

    let rain = zone_turn(&ctx, &FsmEvent::RainsStarted, &FsmState::Idle, at(1), &replies);
    assert_eq!(rain.ctx.wiper.state, WiperState::Wiping);
    assert_eq!(rain.outcomes, vec![ZoneOutcome::Wiper(WiperOutcome::Started)]);
    assert!(zone_outcomes_to_domain_actions(rain.outcomes).is_empty());
}

#[test]
fn barriers_track_who_owes_an_answer() {
    let timer = TellBackTimer { zone_id: ZoneId::Headlamp, turn_id: 4, tell_attempt: 0 };
    let mut barrier = TurnBarrier::new_for_assembly_zone(
        4,
        ZoneId::Headlamp,
        HeadlampMessage::BecomeOn,
        TellBackWait::new(4),
        timer,
        at(8),
    );
    assert_eq!((barrier.turn_id(), barrier.now()), (4, at(8)));
    assert!(!barrier.is_complete() && barrier.is_pending(ZoneId::Headlamp));
    assert_eq!(barrier.zone_message(ZoneId::Headlamp), Some(HeadlampMessage::BecomeOn));
    assert_eq!(barrier.zone_message(ZoneId::Wiper), None);
    assert!(barrier.tell_attempt_matches(ZoneId::Headlamp, 0));
    assert!(!barrier.tell_attempt_matches(ZoneId::Wiper, 0));

    assert_eq!(
        barrier.act_on_zone_timeout(ZoneId::Headlamp, 0),
        TimeoutOutcome::Retry { next_attempt: 1 }
    );
    assert!(!barrier.tell_attempt_matches(ZoneId::Headlamp, 0));
    assert_eq!(barrier.act_on_zone_timeout(ZoneId::Headlamp, 0), TimeoutOutcome::GaveUp);
    assert_eq!(barrier.act_on_zone_timeout(ZoneId::Wiper, 0), TimeoutOutcome::GaveUp);
    let again = TellBackTimer { tell_attempt: 1, ..timer };
    barrier.store_retry_timer(ZoneId::Headlamp, again);

    let reply = synthetic_unresponsive_headlamp_reply(&HeadlampContext::default());
    assert_eq!(
        barrier.act_on_zone_reply(ZoneId::Headlamp, ZoneReply::Headlamp(reply)),
        Some(again)
    );
    assert!(barrier.is_complete());
    assert!(barrier.abort_all_timers().is_empty());
    let resolved = barrier.into_resolved_turn();
    assert_eq!(resolved.ingress, FsmEvent::AssemblyZoneReady(ZoneId::Headlamp));
    assert!(resolved.zone_replies.get(&ZoneId::Headlamp).is_some());
}

#[test]
fn passthrough_slots_are_complete_from_the_start() {
    let mut entry =
        BarrierEntry::Passthrough(PassthroughBarrier::new(6, FsmEvent::PowerOn, at(3)));
    assert_eq!(entry.turn_id(), 6);
    assert!(entry.is_complete());
    assert!(entry.as_waiting().is_none() && entry.as_waiting_mut().is_none());
    assert!(entry.abort_all_timers().is_empty());
    assert_eq!(
        entry.into_resolved_turn(),
        ResolvedTurn {
            ingress: FsmEvent::PowerOn,
            now: at(3),
            zone_replies: ZoneReplies::simulate_locally(),
        }
    );
}

#[test]
fn diagnostics_render_as_one_line() {
    let warning = diag_warning("VC-1", "watch out");
    assert_eq!(warning.level, DiagnosticLevel::Warning);
    assert_eq!(warning.render(), "[⚠️][VirtualCarActor] [VC-1]: watch out");
    let failed = diag_actuation_failure("VC-1", "StartBuzzer", "UnsupportedAction(\"x\")");
    assert_eq!(
        failed.render(),
        "[❌][VirtualCarActor] [VC-1]: actuation failure for StartBuzzer: UnsupportedAction(\"x\")"
    );
    assert_eq!(
        diag_front_headlamp_confirmed("VC-1", FrontHeadlampSwitchDirection::Off).render(),
        "[ℹ️][VirtualCarActor] [VC-1]: ✅🌑 Front headlamp OFF confirmed."
    );
    assert_eq!(
        diag_transition_sink_full("VC-1").message,
        "[VC-1]: dropping transition record: sink full"
    );
    assert_eq!(
        diag_transition_sink_closed("VC-1").message,
        "[VC-1]: dropping transition record: sink closed"
    );
    assert_eq!(
        diag_initializing(" VC ").message,
        "Physical Car name:  VC , initializing its Digital Twin ..."
    );
    assert_eq!(DiagnosticMessage::action("x", "y".to_string()).render(), "[⚡][x] y");
    assert_eq!(DiagnosticMessage::alert("x", "y".to_string()).render(), "[🚨][x] y");
}

#[test]
fn diagnostics_carry_the_time_of_their_making() {
    let before = std::time::UNIX_EPOCH.elapsed().expect("clock").as_nanos();
    let made = DiagnosticMessage::info("clock", "tick".to_string());
    let after = std::time::UNIX_EPOCH.elapsed().expect("clock").as_nanos();
    assert!(before <= made.timestamp_utc_nanos && made.timestamp_utc_nanos <= after);
    let stamped =
        DiagnosticMessage::stamped(DiagnosticLevel::Info, "clock", "tick".to_string(), Some(7));
    assert_eq!(stamped.timestamp_utc_nanos, 7);
    let unset = DiagnosticMessage::stamped(DiagnosticLevel::Info, "clock", String::new(), None);
    assert_eq!(unset.timestamp_utc_nanos, 0);
}

#[test]
fn transitions_are_announced_with_their_readings() {
    let text = |state: FsmState, rpm: u16| {
        diag_state_transition("VC", &state, &rpm_ctx(rpm)).message
    };
    assert_eq!(text(FsmState::Off, 0), "[VC]: Transitioned to Off");
    assert_eq!(text(FsmState::PreparingToStart, 0), "[VC]: Transitioned to PreparingToStart");
    assert_eq!(text(FsmState::Idle, 900), "[VC]: Transitioned to Idle, speed = 103 km/h, RPM = 900");
    assert_eq!(
        text(FsmState::Driving, 1200),
        "[VC]: Transitioned to Driving, speed = 137 km/h, RPM = 1200 (within safe limit)"
    );
    assert_eq!(
        text(FsmState::Driving, 1500),
        "[VC]: Transitioned to Driving, speed = 171 km/h, RPM = 1500 (over the 160 km/h limit)"
    );
    assert_eq!(
        text(FsmState::DrivingDangerously, 1200),
        "[VC]: Transitioned to DrivingDangerously, speed = 137 km/h, RPM = 1200, lighting unsafe"
    );
    assert_eq!(
        text(FsmState::ExtremeOperationWarning(at(1)), 1500),
        "[VC]: Transitioned to ExtremeOperationWarning, speed = 171 km/h, RPM = 1500 \
         (EXCEEDS safe limit — speed over limit)"
    );
}

#[test]
fn the_manager_reports_with_a_time_stamp() {
    let twin = DigitalTwinCar::new("VC", FsmState::Idle, rpm_ctx(0)).expect("twin");
    let mut manager = DefaultActuationManager::with_command_channel("src".to_string(), 3);
    let silent = manager.plan(&DomainAction::StartBuzzer, &twin, "t");
    assert!(silent.diagnostic.is_none() && silent.command.is_none());

    manager.set_diagnostic_sink(true);
    let line = |action: &DomainAction, manager: &mut DefaultActuationManager| {
        manager.plan(action, &twin, "12:34:56 000000007").diagnostic.expect("report").render()
    };
    assert_eq!(
        line(&DomainAction::StartBuzzer, &mut manager),
        "[⚡][DefaultActuationManager] [ACTION @ 12:34:56 000000007]: \
         🔊 BUZZER ON - High Stress Detected!"
    );
    assert_eq!(
        line(&DomainAction::StopBuzzer, &mut manager),
        "[⚡][DefaultActuationManager] [ACTION @ 12:34:56 000000007]: \
         🔇 BUZZER OFF - System Normal."
    );
    assert_eq!(
        line(&DomainAction::PublishStateSync, &mut manager),
        "[ℹ️][DefaultActuationManager] [ACTION @ 12:34:56 000000007]: \
         📡 Publishing to Cloud: Idle"
    );
    assert_eq!(
        line(&DomainAction::LogWarning("hm".to_string()), &mut manager),
        "[⚠️][DefaultActuationManager] [ALERT @ 12:34:56 000000007]: hm"
    );
    assert_eq!(
        line(&DomainAction::RequestFrontHeadlampOff, &mut manager),
        "[⚡][DefaultActuationManager] [ACTION @ 12:34:56 000000007]: \
         📤🌑 Requesting front headlamp OFF."
    );
    let next = manager
        .execute(&DomainAction::RequestFrontHeadlampOn, &twin)
        .expect("never refused");
    match next.command {
        Some(ActuationCommand::SwitchFrontHeadlampOn { correlation_id }) => {
            assert_eq!(correlation_id.sequence_no, 2)
        }
        other => panic!("unexpected command {other:?}"),
    }
}

#[test]
fn the_time_of_day_is_written_in_full() {
    assert_eq!(format_timestamp(1, 2, 3, 4), "01:02:03 000000004");
    assert_eq!(format_timestamp(23, 59, 59, 999_999_999), "23:59:59 999999999");

    let twin = DigitalTwinCar::new("VC", FsmState::Idle, rpm_ctx(0)).expect("twin");
    let mut manager = DefaultActuationManager::default();
    manager.set_diagnostic_sink(true);
    let day_nanos: u128 = 86_400_000_000_000;
    let before = std::time::UNIX_EPOCH.elapsed().expect("clock").as_nanos();
    let report = manager
        .execute(&DomainAction::StopBuzzer, &twin)
        .expect("never refused")
        .diagnostic
        .expect("report");
    let after = std::time::UNIX_EPOCH.elapsed().expect("clock").as_nanos();
    let stamp = &report.message["[ACTION @ ".len().."[ACTION @ ".len() + 18];
    let part = |from: usize, to: usize| stamp[from..to].parse::<u128>().expect("digits");
    let shown = ((part(0, 2) * 60 + part(3, 5)) * 60 + part(6, 8)) * 1_000_000_000 + part(9, 18);
    if before / day_nanos == after / day_nanos {
        assert!(before % day_nanos <= shown && shown <= after % day_nanos);
    }
}

#[test]
fn a_manager_without_a_source_commands_nothing() {
    let twin = DigitalTwinCar::new("VC", FsmState::Idle, rpm_ctx(0)).expect("twin");
    let mut manager = DefaultActuationManager::default();
    let plan = manager.plan(&DomainAction::RequestFrontHeadlampOn, &twin, "t");
    assert!(plan.command.is_none() && plan.diagnostic.is_none());
}

#[test]
fn journeys_keep_the_state_laws_unless_the_car_crawls() {
    let mut ctx = VehicleContext::default();
    ctx.visibility.apply_lux(900);
    let mut state = FsmState::Idle;
    for (i, rpm) in [1001, 1400, 1500, 3, 1200, 0].into_iter().enumerate() {
        let now = at(1 + i as u64);
        let replies = ZoneReplies::simulate_locally();
        let quiescent = run_to_quiescence(&state, &ctx, &FsmEvent::UpdateRpm(rpm), now, &replies);
        for hop in &quiescent.hops {
            let cut = &hop.result;
            assert!(verify_state_laws(&cut.next_state, &cut.modified_ctx).is_ok(), "rpm {rpm}");
        }
        state = quiescent.final_step().next_state;
        ctx = quiescent.final_step().modified_ctx;
    }
    assert!(matches!(state, FsmState::ExtremeOperationWarning(_)));

    let crawling = twin_turn(&FsmState::Driving, &rpm_ctx(1200), &FsmEvent::UpdateRpm(500), at(1));
    assert_eq!(crawling.next_state, FsmState::Driving);
    let violations = verify_state_laws(&crawling.next_state, &crawling.modified_ctx)
        .expect_err("a crawling car breaches a law");
    assert_eq!(violations[0].law, "rpm_above_threshold");
}

#[test]
fn the_buzzer_is_started_and_stopped_once() {
    let over = rpm_ctx(1500);
    let warned = FsmState::ExtremeOperationWarning(at(1));
    assert!(output(&FsmState::Driving, &warned, &over).contains(&FsmAction::StartBuzzer));
    assert!(output(&warned, &warned, &over).is_empty());
    assert_eq!(output(&warned, &FsmState::Idle, &rpm_ctx(0)), vec![FsmAction::StopBuzzer]);
}

#[test]
fn only_rain_that_starts_on_an_idle_car_carries_no_hint() {
    let hint = |state: FsmState, event: FsmEvent| {
        let mut ctx = rpm_ctx(1200);
        ctx.powertrain.speed_kph = 50;
        step(&state, &ctx, &event, at(1)).actions
    };
    let normal = vec![DomainAction::EnterMode(ActorModeHintFromDomain::Normal)];
    assert!(hint(FsmState::Idle, FsmEvent::RainsStarted).is_empty());
    assert_eq!(hint(FsmState::Idle, FsmEvent::RainsStopped), normal);
    assert_eq!(hint(FsmState::Driving, FsmEvent::RainsStarted), normal);
    assert_eq!(hint(FsmState::Driving, FsmEvent::RainsStopped), normal);
}

#[test]
fn actions_and_errors_have_names() {
    for action in [
        DomainAction::StartBuzzer,
        DomainAction::StopBuzzer,
        DomainAction::PublishStateSync,
        DomainAction::RequestFrontHeadlampOn,
        DomainAction::RequestFrontHeadlampOff,
        DomainAction::StartAssemblies,
        DomainAction::StopAssemblies,
        DomainAction::EnterMode(ActorModeHintFromDomain::Normal),
        DomainAction::EnterMode(ActorModeHintFromDomain::Transitioning),
    ] {
        assert_eq!(action.render(), format!("{action:?}"));
    }
    let warning = DomainAction::LogWarning("too fast".to_string());
    assert_eq!(warning.render(), "LogWarning(\"too fast\")");
    assert_eq!(warning.render(), format!("{warning:?}"));
    let error = ActuationError::UnsupportedAction("no buzzer");
    assert_eq!(error.render(), "UnsupportedAction(\"no buzzer\")");
    assert_eq!(error.render(), format!("{error:?}"));
}

#[test]
fn quotes_and_control_characters_are_escaped() {
    let payload = "a \"b\" \\ c\n\u{7}\u{e9}";
    let error = ActuationError::UnsupportedAction(payload);
    assert_eq!(
        error.render(),
        "UnsupportedAction(\"a \\\"b\\\" \\\\ c\\n\\u{7}\u{e9}\")"
    );
    assert_eq!(error.render(), format!("{error:?}"));
    let warning = DomainAction::LogWarning(payload.to_string());
    assert_eq!(warning.render(), format!("{warning:?}"));
}

#[test]
fn a_name_takes_its_content_in_brackets() {
    assert_eq!(bracketed("Some", "\"x\""), "Some(\"x\")");
    assert_eq!(bracketed("", ""), "()");
}
