//! The brain with its headlamp zone, driven message by message.

use sdv_twin::clock::{Duration, Instant};
use sdv_twin::diagnostic::DiagnosticLevel;
use sdv_twin::digital_twin::car::{CarSnapshot, DigitalTwinCarError};
use sdv_twin::digital_twin::vocabulary::{DigitalTwinCarVocabulary, ZoneReply};
use sdv_twin::domain_types::PhysicalCarVocabulary;
use sdv_twin::front_headlamp_log::MSG_ACK_ON;
use sdv_twin::fsm::machineries::{DomainAction, FsmEvent, FsmState, Operational};
use sdv_twin::signals::VssSignal;
use sdv_twin::transition_sink::{
    PublishedTransitionRecord, TransitionRecordSink, TransitionSinkError,
};
use sdv_twin::twin_runtime::constants::ZONE_TELL_RETRIES;
use sdv_twin::twin_runtime::controller::actuation_contract::ActuationCommand;
use sdv_twin::twin_runtime::controller::vehicle_controller::{
    physical_message, power_off_message, power_on_message, VehicleControllerError,
};
use sdv_twin::twin_runtime::controller::virtual_car_actor::{
    front_headlamp_confirmed_direction, BrainEffect, VehicleControllerRuntimeOptions,
    VirtualCarActor, VirtualCarActorArgs, VirtualCarRuntimeState,
};
use sdv_twin::twin_runtime::headlamp_actor::{
    AckDeadline, HeadlampActor, HeadlampActorVocabulary,
};
use sdv_twin::twin_runtime::zone_tell_back::TellBackTimer;
use sdv_twin::vehicle_physics::constants::{
    FRONT_HEADLAMP_ON_ACK_WAIT_MILLIS, SPEED_THRESHOLD_WARNING_MESSAGE,
};
use sdv_twin::vehicle_state::front_headlamp::{
    FrontHeadlampIncompleteCause, FrontHeadlampSwitchDirection, HeadlampContext, HeadlampMessage,
    HeadlampState, HeadlampZoneReply,
};
use sdv_twin::vehicle_state::health::VehicleHealthContext;
use sdv_twin::zones::ZoneId;

/// A brain, its headlamp zone and everything the brain has asked for.
struct Rig {
    brain: VirtualCarRuntimeState,
    headlamp: HeadlampContext,
    now: Instant,
    tells: Vec<HeadlampActorVocabulary>,
    armed: Vec<TellBackTimer>,
    aborted: Vec<TellBackTimer>,
    rows: Vec<PublishedTransitionRecord>,
    diagnostics: Vec<(DiagnosticLevel, String)>,
    commands: Vec<ActuationCommand>,
    snapshots: Vec<CarSnapshot>,
    deadlines: Vec<AckDeadline>,
}

impl Rig {
    fn new(identity: &str) -> Rig {
        Rig::with_options(
            identity,
            VehicleControllerRuntimeOptions {
                log_timer_tick: false,
                commands_actuators: true,
                initial_headlamp_ctx: None,
            },
        )
    }

    fn with_options(identity: &str, runtime_options: VehicleControllerRuntimeOptions) -> Rig {
        let brain = VirtualCarRuntimeState::start(
            VirtualCarActorArgs { identity: identity.to_string(), runtime_options },
            77,
        )
        .expect("brain");
        let headlamp = brain.twin_car().context().headlamp;
        Rig {
            brain,
            headlamp,
            now: Instant::from_nanos(1_000_000),
            tells: Vec::new(),
            armed: Vec::new(),
            aborted: Vec::new(),
            rows: Vec::new(),
            diagnostics: Vec::new(),
            commands: Vec::new(),
            snapshots: Vec::new(),
            deadlines: Vec::new(),
        }
    }

    /// Hands a message to the brain; the zone is told nothing yet.
    fn tell_brain(&mut self, message: DigitalTwinCarVocabulary) {
        self.now = self.now.plus(Duration::from_millis(1));
        for effect in self.brain.handle(message, self.now) {
            match effect {
                BrainEffect::TellHeadlamp { turn_id, tell_attempt, message, now } => {
                    self.tells.push(HeadlampActorVocabulary { message, now, turn_id, tell_attempt })
                }
                BrainEffect::ArmTellBackTimer(timer) => self.armed.push(timer),
                BrainEffect::AbortTellBackTimer(timer) => self.aborted.push(timer),
                BrainEffect::Publish(row) => self.rows.push(row),
                BrainEffect::Diagnose(d) => {
                    assert_eq!(d.source, "VirtualCarActor");
                    self.diagnostics.push((d.level, d.message))
                }
                BrainEffect::Command(command) => self.commands.push(command),
                BrainEffect::ReplyStatus(snapshot) => self.snapshots.push(snapshot),
            }
        }
    }

    /// Lets the zone handle its oldest tell; the answer is not delivered yet.
    fn answer(&mut self) -> DigitalTwinCarVocabulary {
        let told = self.tells.remove(0);
        let done = HeadlampActor::apply(&mut self.headlamp, told);
        if let Some(deadline) = done.deadline {
            self.deadlines.push(deadline);
        }
        done.answer
    }

    /// Hands a message to the brain and lets the zone answer until nothing is left to do.
    fn send(&mut self, message: DigitalTwinCarVocabulary) {
        self.tell_brain(message);
        while !self.tells.is_empty() {
            let answer = self.answer();
            self.tell_brain(answer);
        }
    }

    fn fsm(&mut self, event: FsmEvent) {
        self.send(DigitalTwinCarVocabulary::from(event));
    }

    fn state(&self) -> FsmState {
        *self.brain.twin_car().current_state()
    }

    fn lamp(&self) -> HeadlampState {
        self.brain.twin_car().context().headlamp.state
    }

    fn events(&self) -> Vec<FsmEvent> {
        self.rows.iter().map(|row| row.transition.event).collect()
    }

    fn lit_idle() -> Rig {
        let mut rig = Rig::new("ACT-ACK-01");
        rig.send(power_on_message());
        rig.fsm(FsmEvent::UpdateAmbientLux(20));
        rig.fsm(FsmEvent::FrontHeadlampOnAck);
        rig
    }
}

#[test]
fn scenario_cold_start_get_status_shows_off() {
    let mut rig = Rig::new("QUICK");
    rig.send(DigitalTwinCarVocabulary::GetStatus);
    let snapshot = rig.snapshots.remove(0);
    assert_eq!(snapshot.identity(), "QUICK");
    assert_eq!(*snapshot.current_state(), FsmState::Off);
    assert_eq!(snapshot.as_of_seq(), 0);
    assert!(snapshot.verify_all_invariants().is_ok());
    assert!(rig.rows.is_empty());
}

#[test]
fn a_blank_identity_starts_no_brain() {
    let blank = VirtualCarRuntimeState::start(VirtualCarActorArgs::named(" \t\u{3000}"), 0);
    assert_eq!(blank.unwrap_err(), DigitalTwinCarError::BlankIdentity);
    let named = VirtualCarRuntimeState::start(VirtualCarActorArgs::named(" a b "), 0);
    assert_eq!(named.expect("brain").twin_car().identity(), "a b");
}

#[test]
fn power_on_prepares_the_headlamp_before_idle() {
    let mut rig = Rig::new("WARMUP");
    rig.tell_brain(power_on_message());
    assert_eq!(rig.state(), FsmState::PreparingToStart);
    assert_eq!(rig.tells.len(), 1);
    assert_eq!(rig.tells[0].message, HeadlampMessage::BecomeOn);
    assert_eq!(rig.tells[0].turn_id, 2);
    assert_eq!(
        rig.armed,
        vec![TellBackTimer { zone_id: ZoneId::Headlamp, turn_id: 2, tell_attempt: 0 }]
    );

    let answer = rig.answer();
    rig.tell_brain(answer);
    assert_eq!(rig.state(), FsmState::Idle);
    assert_eq!(rig.lamp(), HeadlampState::Ready);
    assert_eq!(rig.aborted, rig.armed);
    assert_eq!(
        rig.events(),
        vec![FsmEvent::PowerOn, FsmEvent::AssemblyZoneReady(ZoneId::Headlamp)]
    );
    assert_eq!(rig.rows[0].sequence_no, 1);
    assert_eq!(rig.rows[1].sequence_no, 2);
    assert_eq!(rig.rows[0].car_identity, "WARMUP");
    assert!(rig.rows[0].transition.actions.is_empty());
}

#[test]
fn power_off_stops_the_headlamp_before_off() {
    let mut rig = Rig::lit_idle();
    assert_eq!(rig.lamp(), HeadlampState::On);
    rig.tell_brain(power_off_message());
    assert_eq!(rig.state(), FsmState::PreparingToStop);
    assert_eq!(rig.tells[0].message, HeadlampMessage::BecomeOff);
    let answer = rig.answer();
    rig.tell_brain(answer);
    assert_eq!(rig.state(), FsmState::Off);
    assert_eq!(rig.lamp(), HeadlampState::Off);
}

#[test]
fn events_wait_behind_the_preparation_and_keep_their_order() {
    let mut rig = Rig::new("ORDER");
    rig.tell_brain(power_on_message());
    rig.tell_brain(FsmEvent::UpdateRpm(1200).into());
    rig.tell_brain(FsmEvent::UpdateRpm(0).into());
    assert_eq!(rig.state(), FsmState::PreparingToStart);
    assert_eq!(rig.rows.len(), 1);

    let answer = rig.answer();
    rig.tell_brain(answer);
    assert_eq!(rig.state(), FsmState::Idle);
    assert_eq!(
        rig.events(),
        vec![
            FsmEvent::PowerOn,
            FsmEvent::AssemblyZoneReady(ZoneId::Headlamp),
            FsmEvent::UpdateRpm(1200),
            FsmEvent::Internal(Operational::LightingUnsafe),
            FsmEvent::UpdateRpm(0),
        ]
    );
    let numbers: Vec<u64> = rig.rows.iter().map(|row| row.sequence_no).collect();
    assert_eq!(numbers, vec![1, 2, 3, 4, 5]);
}

#[test]
fn answers_in_either_order_lead_to_the_same_ledger() {
    let mut ledgers = Vec::new();
    for reversed in [false, true] {
        let mut rig = Rig::new("ANY-ORDER");
        rig.send(power_on_message());
        rig.tell_brain(FsmEvent::UpdateAmbientLux(20).into());
        rig.tell_brain(FsmEvent::FrontHeadlampOnAck.into());
        assert_eq!(rig.rows.len(), 2);
        let first = rig.answer();
        let second = rig.answer();
        if reversed {
            rig.tell_brain(second);
            assert_eq!(rig.rows.len(), 2, "the later turn waits for the earlier one");
            rig.tell_brain(first);
        } else {
            rig.tell_brain(first);
            assert_eq!(rig.rows.len(), 3);
            rig.tell_brain(second);
        }
        assert_eq!(rig.lamp(), HeadlampState::On);
        ledgers.push((rig.events(), rig.commands.clone(), rig.state()));
    }
    assert_eq!(ledgers[0], ledgers[1]);
}

#[test]
fn the_count_of_a_snapshot_follows_the_ledger_and_queries_do_not_count() {
    let mut rig = Rig::new("CTRL-API-04");
    rig.send(power_on_message());
    rig.send(physical_message(PhysicalCarVocabulary::TelemetryUpdate(VssSignal::RainDetected(true)))
        .expect("rain"));
    rig.send(DigitalTwinCarVocabulary::GetStatus);
    rig.send(DigitalTwinCarVocabulary::GetStatus);
    assert_eq!(rig.rows.len(), 3);
    assert_eq!(rig.snapshots[0].as_of_seq(), 3);
    assert_eq!(rig.snapshots[1].as_of_seq(), 3);
}

#[test]
fn a_query_after_events_of_one_hop_counts_the_events() {
    let mut rig = Rig::new("COUNT-01");
    for k in 0..5 {
        rig.send(DigitalTwinCarVocabulary::GetStatus);
        rig.send(DigitalTwinCarVocabulary::GetStatus);
        let second = rig.snapshots.remove(1);
        let first = rig.snapshots.remove(0);
        assert_eq!(first.as_of_seq(), k);
        assert_eq!(second.as_of_seq(), k);
        assert_eq!(first.current_state(), second.current_state());
        assert_eq!(rig.rows.len() as u64, k);
        rig.fsm(FsmEvent::TimerTick);
    }
}

#[test]
fn an_order_to_an_assembly_counts_like_an_event() {
    let mut rig = Rig::new("COUNT-02");
    rig.tell_brain(power_on_message());
    rig.tell_brain(DigitalTwinCarVocabulary::GetStatus);
    assert_eq!(rig.snapshots.remove(0).as_of_seq(), 1);
    let ready = rig.answer();
    rig.tell_brain(ready);
    rig.tell_brain(DigitalTwinCarVocabulary::GetStatus);
    assert_eq!(rig.snapshots.remove(0).as_of_seq(), 2);
}

#[test]
fn low_light_commands_the_lamp_and_the_acknowledgement_lights_it() {
    let mut rig = Rig::new("ACT-ACK-01");
    rig.send(power_on_message());
    rig.fsm(FsmEvent::UpdateAmbientLux(20));
    assert_eq!(rig.lamp(), HeadlampState::OnRequested);
    assert_eq!(rig.commands.len(), 1);
    match &rig.commands[0] {
        ActuationCommand::SwitchFrontHeadlampOn { correlation_id } => {
            assert_eq!(correlation_id.source_id, "ACT-ACK-01");
            assert_eq!(correlation_id.session_id, 77);
            assert_eq!(correlation_id.sequence_no, 1);
        }
        other => panic!("unexpected command {other:?}"),
    }

    rig.fsm(FsmEvent::FrontHeadlampOnAck);
    assert_eq!(rig.lamp(), HeadlampState::On);
    assert!(rig.brain.twin_car().context().headlamp.ack_pending_since.is_none());
    let (level, text) = rig.diagnostics.last().expect("diagnostic");
    assert_eq!(*level, DiagnosticLevel::Info);
    assert_eq!(text, "[ACT-ACK-01]: ✅💡 Front headlamp ON confirmed.");

    rig.fsm(FsmEvent::UpdateAmbientLux(860));
    match &rig.commands[1] {
        ActuationCommand::SwitchFrontHeadlampOff { correlation_id } => {
            assert_eq!(correlation_id.sequence_no, 2)
        }
        other => panic!("unexpected command {other:?}"),
    }
}

#[test]
fn a_rejection_leaves_the_lamp_off_and_warns() {
    let mut rig = Rig::new("ACT-NACK-01");
    rig.send(power_on_message());
    rig.fsm(FsmEvent::UpdateAmbientLux(20));
    rig.send(
        physical_message(PhysicalCarVocabulary::FrontHeadlampCommandRejected { on_command: true })
            .expect("nack"),
    );
    assert_eq!(rig.lamp(), HeadlampState::Off);
    assert!(rig.diagnostics.contains(&(
        DiagnosticLevel::Warning,
        "[ACT-NACK-01]: ❌🔆 Front headlamp ON rejected (NACK).".to_string()
    )));
}

#[test]
fn without_actuators_nothing_is_commanded() {
    let mut rig = Rig::with_options("PASSIVE", VehicleControllerRuntimeOptions::default());
    rig.send(power_on_message());
    rig.fsm(FsmEvent::UpdateAmbientLux(20));
    assert_eq!(rig.lamp(), HeadlampState::OnRequested);
    assert!(rig.commands.is_empty());
}

#[test]
fn over_speed_from_driving_warns_on_the_diagnostic_stream() {
    let mut rig = Rig::lit_idle();
    rig.fsm(FsmEvent::UpdateRpm(1200));
    assert_eq!(rig.state(), FsmState::Driving);
    rig.fsm(FsmEvent::UpdateRpm(7500));
    assert!(matches!(rig.state(), FsmState::ExtremeOperationWarning(_)));
    assert!(rig.diagnostics.contains(&(
        DiagnosticLevel::Warning,
        format!("[ACT-ACK-01]: {SPEED_THRESHOLD_WARNING_MESSAGE}")
    )));
    assert!(rig.diagnostics.contains(&(
        DiagnosticLevel::Info,
        "[ACT-ACK-01]: Transitioned to ExtremeOperationWarning, speed = 855 km/h, RPM = 7500 \
         (EXCEEDS safe limit — speed & RPM both extreme)"
            .to_string()
    )));
}

#[test]
fn driving_unlit_in_the_dark_is_driving_dangerously() {
    let mut rig = Rig::new("DARK");
    rig.send(power_on_message());
    rig.fsm(FsmEvent::UpdateRpm(1200));
    assert_eq!(rig.state(), FsmState::DrivingDangerously);
    assert!(rig.rows[3].transition.actions.contains(&DomainAction::StartBuzzer));
    rig.fsm(FsmEvent::UpdateAmbientLux(900));
    assert_eq!(rig.state(), FsmState::Driving);
    assert!(rig.rows[4].transition.actions.contains(&DomainAction::StopBuzzer));
}

#[test]
fn scenario_rpm_input_ignored_when_ignition_off() {
    let mut rig = Rig::new("INVALID");
    rig.fsm(FsmEvent::UpdateRpm(3000));
    assert_eq!(rig.state(), FsmState::Off);
    let ctx = rig.brain.twin_car().context();
    assert_eq!(ctx.powertrain.wheel_rpm.front_left, 3000);
    assert_eq!(ctx.powertrain.speed_kph, 0);
    assert!(rig.brain.twin_car().verify_all_invariants().is_ok());
}

#[test]
fn heartbeats_are_reported_only_on_request() {
    let mut silent = Rig::new("TICK");
    silent.fsm(FsmEvent::TimerTick);
    assert!(silent.diagnostics.is_empty());

    let mut loud = Rig::with_options(
        "TICK",
        VehicleControllerRuntimeOptions {
            log_timer_tick: true,
            commands_actuators: false,
            initial_headlamp_ctx: None,
        },
    );
    loud.fsm(FsmEvent::TimerTick);
    assert_eq!(
        loud.diagnostics,
        vec![(DiagnosticLevel::Info, "[TICK]: received heartbeat TimerTick".to_string())]
    );
}

#[test]
fn a_silent_zone_is_told_again_and_then_given_up() {
    let mut rig = Rig::new("SILENT");
    rig.tell_brain(power_on_message());
    let told_first = rig.tells.remove(0);
    for attempt in 0..ZONE_TELL_RETRIES {
        rig.tell_brain(DigitalTwinCarVocabulary::ZoneTellBackTimeout {
            zone_id: ZoneId::Headlamp,
            turn_id: 2,
            tell_attempt: attempt,
        });
        let again = rig.tells.remove(0);
        assert_eq!(again.message, HeadlampMessage::BecomeOn);
        assert_eq!(again.tell_attempt, attempt + 1);
        assert_eq!(again.now, told_first.now);
    }
    assert_eq!(rig.armed.len(), 1 + ZONE_TELL_RETRIES as usize);
    assert_eq!(rig.state(), FsmState::PreparingToStart);

    rig.tell_brain(DigitalTwinCarVocabulary::ZoneTellBackTimeout {
        zone_id: ZoneId::Headlamp,
        turn_id: 2,
        tell_attempt: ZONE_TELL_RETRIES,
    });
    assert!(rig.tells.is_empty());
    assert_eq!(rig.state(), FsmState::Idle);
    assert_eq!(rig.lamp(), HeadlampState::Off);
}

#[test]
fn stale_answers_and_timeouts_change_nothing() {
    let mut rig = Rig::new("STALE");
    rig.tell_brain(power_on_message());
    rig.tell_brain(DigitalTwinCarVocabulary::ZoneTellBackTimeout {
        zone_id: ZoneId::Headlamp,
        turn_id: 2,
        tell_attempt: 0,
    });
    let late = rig.answer();
    let effects_before = (rig.rows.len(), rig.armed.len(), rig.aborted.len());
    rig.tell_brain(late);
    rig.tell_brain(DigitalTwinCarVocabulary::ZoneTellBackTimeout {
        zone_id: ZoneId::Headlamp,
        turn_id: 2,
        tell_attempt: 0,
    });
    rig.tell_brain(DigitalTwinCarVocabulary::ZoneTellBackTimeout {
        zone_id: ZoneId::Headlamp,
        turn_id: 99,
        tell_attempt: 0,
    });
    rig.tell_brain(DigitalTwinCarVocabulary::ZoneReady {
        zone_id: ZoneId::Headlamp,
        turn_id: 1,
        tell_attempt: 0,
        reply: ZoneReply::Headlamp(HeadlampZoneReply {
            ctx: HeadlampContext::default(),
            outcomes: Vec::new(),
        }),
    });
    assert_eq!(effects_before, (rig.rows.len(), rig.armed.len(), rig.aborted.len()));
    assert_eq!(rig.state(), FsmState::PreparingToStart);

    let answer = rig.answer();
    rig.tell_brain(answer);
    assert_eq!(rig.state(), FsmState::Idle);
}

#[test]
fn an_unanswered_request_is_reported_by_the_zone_itself() {
    let mut rig = Rig::new("DEADLINE");
    rig.send(power_on_message());
    rig.fsm(FsmEvent::UpdateAmbientLux(20));
    assert_eq!(rig.deadlines.len(), 1);
    let deadline = rig.deadlines[0];
    assert_eq!(deadline.direction, FrontHeadlampSwitchDirection::On);

    let report = HeadlampActor::on_ack_deadline(&mut rig.headlamp, deadline, rig.now)
        .expect("the request is still open");
    assert_eq!(rig.headlamp.state, HeadlampState::Off);
    assert!(HeadlampActor::on_ack_deadline(&mut rig.headlamp, deadline, rig.now).is_none());

    rig.send(report);
    assert_eq!(rig.lamp(), HeadlampState::Off);
    assert_eq!(
        rig.events().last(),
        Some(&FsmEvent::FrontHeadlampActuationIncomplete {
            direction: FrontHeadlampSwitchDirection::On,
            cause: FrontHeadlampIncompleteCause::TimedOut,
        })
    );
    assert!(rig.diagnostics.contains(&(
        DiagnosticLevel::Warning,
        "[DEADLINE]: ⏱️💡 Front headlamp ON request — no actuator response (timed out)."
            .to_string()
    )));
}

#[test]
fn an_acknowledged_request_outlives_its_deadline() {
    let mut rig = Rig::lit_idle();
    let deadline = rig.deadlines[0];
    assert!(HeadlampActor::on_ack_deadline(&mut rig.headlamp, deadline, rig.now).is_none());
    assert_eq!(rig.headlamp.state, HeadlampState::On);
}

#[test]
fn a_refused_power_off_is_warned_of() {
    let mut rig = Rig::lit_idle();
    rig.fsm(FsmEvent::UpdateRpm(1200));
    rig.send(power_off_message());
    assert_eq!(rig.state(), FsmState::Driving);
    assert_eq!(
        rig.diagnostics.last(),
        Some(&(
            DiagnosticLevel::Warning,
            "[ACT-ACK-01]: [REJECTED]: PowerOff is invalid while in state Driving".to_string()
        ))
    );
}

#[test]
fn stopping_the_brain_gives_all_timers_back() {
    let mut rig = Rig::new("STOP");
    rig.send(power_on_message());
    rig.tell_brain(FsmEvent::UpdateAmbientLux(20).into());
    rig.tell_brain(FsmEvent::UpdateRpm(10).into());
    rig.tell_brain(FsmEvent::FrontHeadlampOnAck.into());
    let timers = rig.brain.stop();
    assert_eq!(
        timers,
        vec![
            TellBackTimer { zone_id: ZoneId::Headlamp, turn_id: 3, tell_attempt: 0 },
            TellBackTimer { zone_id: ZoneId::Headlamp, turn_id: 5, tell_attempt: 0 },
        ]
    );
    assert!(rig.brain.stop().is_empty());
}

#[test]
fn a_given_headlamp_context_is_taken_over() {
    let ready = HeadlampContext { state: HeadlampState::Ready, ack_pending_since: None };
    let mut rig = Rig::with_options(
        "HL-REPLY-01",
        VehicleControllerRuntimeOptions {
            log_timer_tick: false,
            commands_actuators: false,
            initial_headlamp_ctx: Some(ready),
        },
    );
    assert_eq!(rig.lamp(), HeadlampState::Ready);
    rig.send(power_on_message());
    rig.fsm(FsmEvent::UpdateAmbientLux(20));
    let row = rig.rows.last().expect("row");
    assert_eq!(row.transition.current_ctx.headlamp.state, HeadlampState::OnRequested);
    assert!(row.transition.current_ctx.headlamp.ack_pending_since.is_some());
    rig.fsm(FsmEvent::FrontHeadlampOnAck);
    let row = rig.rows.last().expect("row");
    assert_eq!(row.transition.current_ctx.headlamp, rig.brain.twin_car().context().headlamp);
    assert_eq!(rig.lamp(), HeadlampState::On);
}

#[test]
fn confirmations_are_positive_settlements_only() {
    use_direction(HeadlampState::OnRequested, HeadlampState::On, Some(true));
    use_direction(HeadlampState::OffRequested, HeadlampState::Off, Some(false));
    use_direction(HeadlampState::OffRequested, HeadlampState::Ready, Some(false));
    use_direction(HeadlampState::OnRequested, HeadlampState::Off, None);
    use_direction(HeadlampState::OffRequested, HeadlampState::On, None);
    use_direction(HeadlampState::On, HeadlampState::On, None);
}

fn use_direction(before: HeadlampState, after: HeadlampState, on: Option<bool>) {
    let expected = on.map(|on| {
        if on {
            FrontHeadlampSwitchDirection::On
        } else {
            FrontHeadlampSwitchDirection::Off
        }
    });
    assert_eq!(front_headlamp_confirmed_direction(before, after), expected);
}

#[test]
fn an_observed_speed_is_refused_at_the_door() {
    let refused = physical_message(PhysicalCarVocabulary::TelemetryUpdate(
        VssSignal::VehicleSpeed(5000),
    ));
    assert_eq!(
        refused,
        Err(VehicleControllerError::Projection(
            "InvalidPayload(\"observed VehicleSpeed not wired yet; twin derives speed from \
             EngineRpm\")"
                .to_string()
        ))
    );
}

struct FullLedger;

impl TransitionRecordSink for FullLedger {
    fn try_emit(&self, _record: PublishedTransitionRecord) -> Result<(), TransitionSinkError> {
        Err(TransitionSinkError::Full)
    }
}

#[test]
fn an_actor_is_made_for_a_ledger() {
    let _actor = VirtualCarActor::with_transition_sink(std::sync::Arc::new(FullLedger));
    let _plain = VirtualCarActor::default();
}

/// The physical event, projected and handed to the brain.
fn submit(rig: &mut Rig, event: PhysicalCarVocabulary) {
    rig.send(physical_message(event).expect("projected"));
}

fn low_lux(rig: &mut Rig) {
    submit(rig, PhysicalCarVocabulary::TelemetryUpdate(VssSignal::AmbientLux(20)));
}

fn snapshot(rig: &mut Rig) -> CarSnapshot {
    rig.send(DigitalTwinCarVocabulary::GetStatus);
    rig.snapshots.pop().expect("a status reply")
}

fn assert_settled(rig: &mut Rig, state: HeadlampState) {
    let car = snapshot(rig);
    assert_eq!(car.context().headlamp.state, state);
    assert!(car.context().headlamp.ack_pending_since.is_none());
}

#[test]
fn scenario_get_status_after_power_on_reports_idle() {
    let mut rig = Rig::new("SCENARIO-TEST-01");
    rig.fsm(FsmEvent::PowerOn);
    let twin_snapshot = snapshot(&mut rig);
    assert_eq!(*twin_snapshot.current_state(), FsmState::Idle);
    assert!(twin_snapshot.verify_all_invariants().is_ok());
}

#[test]
fn given_controller_when_get_snapshot_called_then_returns_readonly_snapshot() {
    let mut rig = Rig::new("CTRL-API-02");
    rig.fsm(FsmEvent::PowerOn);
    let direct = snapshot(&mut rig);
    let via_api = snapshot(&mut rig);
    assert_eq!(direct.current_state(), via_api.current_state());
    assert_eq!(direct.context(), via_api.context());
}

#[test]
fn given_power_on_then_power_off_facade_when_idle_then_state_is_off() {
    let mut rig = Rig::new("CTRL-API-03");
    rig.tell_brain(power_on_message());
    rig.tell_brain(power_off_message());
    while !rig.tells.is_empty() {
        let answer = rig.answer();
        rig.tell_brain(answer);
    }
    assert_eq!(*snapshot(&mut rig).current_state(), FsmState::Off);
}

#[test]
fn scenario_actuation_ack_round_trip_via_helper() {
    let mut rig = Rig::new("ACT-ACK-01");
    rig.send(power_on_message());
    low_lux(&mut rig);
    assert!(matches!(rig.commands[0], ActuationCommand::SwitchFrontHeadlampOn { .. }));
    submit(&mut rig, PhysicalCarVocabulary::FrontHeadlampCommandConfirmed { on_command: true });
    assert_settled(&mut rig, HeadlampState::On);
}

#[test]
fn scenario_actuation_ack_surfaces_confirmation_on_diagnostic_sink() {
    let mut rig = Rig::new("ACT-ACK-DIAG-01");
    rig.send(power_on_message());
    low_lux(&mut rig);
    submit(&mut rig, PhysicalCarVocabulary::FrontHeadlampCommandConfirmed { on_command: true });
    assert!(rig
        .diagnostics
        .iter()
        .any(|(level, text)| *level == DiagnosticLevel::Info && text.contains(MSG_ACK_ON)));
}

#[test]
fn scenario_actuation_nack_round_trip_via_helper() {
    let mut rig = Rig::new("ACT-NACK-01");
    rig.send(power_on_message());
    low_lux(&mut rig);
    assert!(matches!(rig.commands[0], ActuationCommand::SwitchFrontHeadlampOn { .. }));
    submit(&mut rig, PhysicalCarVocabulary::FrontHeadlampCommandRejected { on_command: true });
    assert_settled(&mut rig, HeadlampState::Off);
}

#[test]
fn controller_fsm_front_headlamp_ack_path() {
    let mut rig = Rig::with_options(
        "E2E-FRONT-HEADLAMP-ACK-01",
        VehicleControllerRuntimeOptions::default(),
    );
    rig.send(power_on_message());
    low_lux(&mut rig);
    submit(&mut rig, PhysicalCarVocabulary::FrontHeadlampCommandConfirmed { on_command: true });
    assert_settled(&mut rig, HeadlampState::On);
}

#[test]
fn controller_fsm_front_headlamp_nack_path() {
    let mut rig = Rig::with_options(
        "E2E-FRONT-HEADLAMP-NACK-01",
        VehicleControllerRuntimeOptions::default(),
    );
    rig.send(power_on_message());
    low_lux(&mut rig);
    submit(&mut rig, PhysicalCarVocabulary::FrontHeadlampCommandRejected { on_command: true });
    assert_settled(&mut rig, HeadlampState::Off);
}

#[test]
fn controller_fsm_front_headlamp_no_response_timeout_path() {
    let mut rig = Rig::with_options(
        "E2E-FRONT-HEADLAMP-TIMEOUT-01",
        VehicleControllerRuntimeOptions::default(),
    );
    rig.send(power_on_message());
    low_lux(&mut rig);
    rig.now = rig.now.plus(Duration::from_millis(FRONT_HEADLAMP_ON_ACK_WAIT_MILLIS + 25));
    submit(&mut rig, PhysicalCarVocabulary::TimerTick);
    assert_settled(&mut rig, HeadlampState::Off);
}

#[test]
fn given_low_lux_and_on_ack_when_get_status_then_ledger_headlamp_matches_embed() {
    let ready = HeadlampContext { state: HeadlampState::Ready, ack_pending_since: None };
    let mut rig = Rig::with_options(
        "HL-REPLY-01",
        VehicleControllerRuntimeOptions {
            log_timer_tick: false,
            commands_actuators: true,
            initial_headlamp_ctx: Some(ready),
        },
    );
    rig.send(power_on_message());
    rig.fsm(FsmEvent::Internal(Operational::AssembliesReady));
    low_lux(&mut rig);

    let lux_record = rig.rows.last().expect("row").clone();
    assert_eq!(lux_record.transition.event, FsmEvent::UpdateAmbientLux(20));
    assert_eq!(lux_record.transition.current_ctx.headlamp.state, HeadlampState::OnRequested);
    assert!(lux_record.transition.current_ctx.headlamp.ack_pending_since.is_some());

    assert!(matches!(rig.commands[0], ActuationCommand::SwitchFrontHeadlampOn { .. }));
    submit(&mut rig, PhysicalCarVocabulary::FrontHeadlampCommandConfirmed { on_command: true });
    let ack_record = rig.rows.last().expect("row").clone();
    assert_eq!(ack_record.transition.event, FsmEvent::FrontHeadlampOnAck);
    assert_eq!(ack_record.transition.current_ctx.headlamp.state, HeadlampState::On);
    assert!(ack_record.transition.current_ctx.headlamp.ack_pending_since.is_none());

    let car = snapshot(&mut rig);
    assert_eq!(ack_record.transition.current_ctx.headlamp, car.context().headlamp);
    let after_lux = ready.on_receiving_message(HeadlampMessage::AmbientLux(20), rig.now).ctx;
    let expected = after_lux.on_receiving_message(HeadlampMessage::AckOn, rig.now).ctx;
    assert_eq!(car.context().headlamp, expected);
}

#[test]
fn given_power_on_only_when_get_status_then_ledger_headlamp_matches_embed() {
    let mut rig = Rig::new("HL-REPLY-02");
    rig.tell_brain(power_on_message());
    assert_eq!(rig.rows[0].transition.event, FsmEvent::PowerOn);
    let car = snapshot_of_brain(&mut rig);
    assert_eq!(rig.rows[0].transition.current_ctx.headlamp, car.context().headlamp);
}

/// A status reply while the zone still owes its answer.
fn snapshot_of_brain(rig: &mut Rig) -> CarSnapshot {
    rig.tell_brain(DigitalTwinCarVocabulary::GetStatus);
    rig.snapshots.pop().expect("a status reply")
}

#[test]
fn the_ledger_is_a_chain_of_cuts() {
    let mut rig = Rig::new("CHAIN");
    let born = *rig.brain.twin_car().context();
    assert_eq!(born.health, VehicleHealthContext::default());
    rig.send(power_on_message());
    rig.fsm(FsmEvent::UpdateRpm(1200));
    low_lux(&mut rig);
    rig.fsm(FsmEvent::FrontHeadlampOnAck);
    rig.fsm(FsmEvent::UpdateRpm(0));
    rig.send(power_off_message());

    let rows = &rig.rows;
    assert_eq!(rows[0].transition.old_state, FsmState::Off);
    assert_eq!(rows[0].transition.old_ctx, born);
    for pair in rows.windows(2) {
        assert_eq!(pair[1].transition.old_state, pair[0].transition.next_state);
        assert_eq!(pair[1].transition.old_ctx, pair[0].transition.current_ctx);
    }
    let last = &rows[rows.len() - 1].transition;
    assert_eq!(last.next_state, rig.state());
    assert_eq!(last.current_ctx, *rig.brain.twin_car().context());
    assert!(rows.iter().any(|row| row.transition.event == FsmEvent::FrontHeadlampOnAck
        && row.transition.old_ctx.headlamp.state == HeadlampState::OnRequested
        && row.transition.current_ctx.headlamp.state == HeadlampState::On));
}
