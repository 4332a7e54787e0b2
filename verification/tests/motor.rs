use cell_spinner::enums::{Direction, StepMode128, StepperState};
use cell_spinner::graph::{Axis, Graph, MotionPoint, ProfileSampler, StepOutcome};
use cell_spinner::handshake::{ConnectError, Handshake, LinkReport, LinkRequest};
use cell_spinner::limits::{MAX_ACCELERATION, MAX_DURATION_MS};
use cell_spinner::motor::Motor;
use cell_spinner::protocols::{Protocol, Rotation, StepgenSetup, ValidationError};
use cell_spinner::serial::{
    available_ports, choose_port, is_port_listed, release_port, ListenerAction, Poll, Serial,
};
use cell_spinner::structs::{MessageKind, StepsCycle, TimersAndPhases};

fn connected_handshake() -> Handshake {
    let (mut handshake, mut request) = Handshake::start();
    while request != LinkRequest::Finished {
        let report = if request == LinkRequest::ReadReply {
            LinkReport::Reply(*b"ok!")
        } else {
            LinkReport::Done
        };
        request = handshake.advance(report);
    }
    handshake
}

fn valid_protocol() -> Protocol {
    Protocol {
        rotation: Rotation {
            rpm: 120,
            acceleration: 400,
            step_mode: StepMode128::M4,
            duration_of_one_direction_cycle_ms: 2_000,
            steps_for_one_direction_cycle: 0,
            direction: Direction::Backward,
            pause_before_direction_change_ms: 100,
        },
        rotation_duration_ms: 10_000,
        pause_pre_agitation_ms: 500,
        agitation: Rotation {
            rpm: 60,
            acceleration: 800,
            step_mode: StepMode128::M2,
            duration_of_one_direction_cycle_ms: 300,
            steps_for_one_direction_cycle: 0,
            direction: Direction::Forward,
            pause_before_direction_change_ms: 0,
        },
        agitation_duration_ms: 5_000,
        pause_post_agitation_ms: 700,
        global_duration_ms: 3_600_000,
    }
}

fn connected_motor(ports: &mut Vec<String>) -> Motor {
    Motor::new("COM7".to_string(), "Motor 1".to_string(), ports, &connected_handshake())
        .expect("the port is free and the board answered")
}

#[test]
fn validate_accepts_a_protocol_within_limits() {
    assert_eq!(valid_protocol().validate(), Ok(()));
    assert_eq!(Protocol::default().validate(), Ok(()));
    let motor = Motor::default();
    assert_eq!(motor.validate(&valid_protocol()), Ok(()));
}

#[test]
fn validate_rejects_zero_acceleration() {
    let mut p = valid_protocol();
    p.rotation.acceleration = 0;
    assert_eq!(p.validate(), Err(ValidationError::ZeroAcceleration));
    let mut p = valid_protocol();
    p.agitation.acceleration = 0;
    assert_eq!(p.validate(), Err(ValidationError::ZeroAcceleration));
}

#[test]
fn validate_rejects_acceleration_above_the_maximum() {
    let mut p = valid_protocol();
    p.rotation.acceleration = MAX_ACCELERATION;
    assert_eq!(p.validate(), Ok(()));
    p.rotation.acceleration = MAX_ACCELERATION + 1;
    assert_eq!(p.validate(), Err(ValidationError::AccelerationTooHigh));
    let mut p = valid_protocol();
    p.agitation.acceleration = u32::MAX;
    assert_eq!(p.validate(), Err(ValidationError::AccelerationTooHigh));
}

#[test]
fn validate_rejects_rpm_above_the_maximum_of_the_mode() {
    let mut p = valid_protocol();
    p.rotation.rpm = 1_250; // 5000 / 4
    assert_eq!(p.validate(), Ok(()));
    p.rotation.rpm = 1_251;
    assert_eq!(p.validate(), Err(ValidationError::RpmTooHigh));
    let mut p = valid_protocol();
    p.agitation.step_mode = StepMode128::M128;
    p.agitation.rpm = 40;
    assert_eq!(p.validate(), Err(ValidationError::RpmTooHigh));
    p.agitation.rpm = 39;
    assert_eq!(p.validate(), Ok(()));
}

#[test]
fn validate_rejects_any_duration_above_one_year() {
    let setters: [fn(&mut Protocol, u64); 9] = [
        |p, v| p.rotation.duration_of_one_direction_cycle_ms = v,
        |p, v| p.agitation.duration_of_one_direction_cycle_ms = v,
        |p, v| p.rotation.pause_before_direction_change_ms = v,
        |p, v| p.agitation.pause_before_direction_change_ms = v,
        |p, v| p.global_duration_ms = v,
        |p, v| p.rotation_duration_ms = v,
        |p, v| p.agitation_duration_ms = v,
        |p, v| p.pause_pre_agitation_ms = v,
        |p, v| p.pause_post_agitation_ms = v,
    ];
    for set in setters.iter() {
        let mut p = valid_protocol();
        set(&mut p, MAX_DURATION_MS);
        assert_eq!(p.validate(), Ok(()));
        set(&mut p, MAX_DURATION_MS + 1);
        assert_eq!(p.validate(), Err(ValidationError::DurationTooHigh));
    }
}

#[test]
fn validate_names_the_first_rule_broken() {
    let mut p = valid_protocol();
    p.global_duration_ms = u64::MAX;
    p.rotation.rpm = u32::MAX;
    assert_eq!(p.validate(), Err(ValidationError::RpmTooHigh));
    p.agitation.acceleration = MAX_ACCELERATION + 1;
    assert_eq!(p.validate(), Err(ValidationError::AccelerationTooHigh));
    p.rotation.acceleration = 0;
    assert_eq!(p.validate(), Err(ValidationError::ZeroAcceleration));
}

#[test]
fn validation_errors_have_distinct_messages() {
    let all = [
        ValidationError::ZeroAcceleration,
        ValidationError::AccelerationTooHigh,
        ValidationError::RpmTooHigh,
        ValidationError::DurationTooHigh,
    ];
    for (i, a) in all.iter().enumerate() {
        for (j, b) in all.iter().enumerate() {
            assert_eq!(a == b, i == j);
            assert_eq!(a.message() == b.message(), i == j);
        }
    }
    assert_eq!(ValidationError::DurationTooHigh.message(), "Some duration is too high");
}

#[test]
fn normalization_zeroes_what_cannot_take_place() {
    let mut p = valid_protocol();
    p.rotation.duration_of_one_direction_cycle_ms = 0;
    p.rotation.pause_before_direction_change_ms = 0;
    p.normalize();
    assert_eq!(p.rotation_duration_ms, 0);
    assert_eq!(p.pause_pre_agitation_ms, 0);
    assert_eq!(p.agitation_duration_ms, 5_000);
    assert_eq!(p.pause_post_agitation_ms, 700);
    assert_eq!(p.global_duration_ms, 3_600_000);

    let mut p = valid_protocol();
    p.agitation_duration_ms = 0;
    p.normalize();
    assert_eq!(p.pause_post_agitation_ms, 0);
    assert_eq!(p.rotation_duration_ms, 10_000);
    assert_eq!(p.pause_pre_agitation_ms, 500);

    let mut p = valid_protocol();
    let before = p;
    p.normalize();
    assert_eq!(p, before);
}

#[test]
fn durations_are_summed_without_overflow() {
    let mut p = valid_protocol();
    assert_eq!(p.get_duration_without_pause(), 15_000);
    assert_eq!(p.rotation.get_min_duration(), 2_100);
    p.rotation_duration_ms = u64::MAX;
    assert_eq!(p.get_duration_without_pause(), u64::MAX);
    p.rotation.duration_of_one_direction_cycle_ms = u64::MAX - 99;
    assert_eq!(p.rotation.get_min_duration(), u64::MAX);
}

#[test]
fn stepgen_setup_is_in_microsteps() {
    let p = valid_protocol();
    assert_eq!(
        p.rotation.create_stepgen(),
        Some(StepgenSetup {
            target_rpm: 480,
            target_accel: 1_600,
            target_step: 0,
            target_duration_ms: 2_000,
        })
    );
    let huge = Rotation { rpm: u32::MAX, step_mode: StepMode128::M2, ..Rotation::default() };
    assert_eq!(huge.create_stepgen(), None);
    let huge = Rotation { acceleration: 1 << 31, step_mode: StepMode128::M2, ..Rotation::default() };
    assert_eq!(huge.create_stepgen(), None);
}

#[test]
fn new_motor_takes_the_port() {
    let mut ports = vec!["COM1".to_string()];
    let motor = connected_motor(&mut ports);
    assert_eq!(motor.name, "Motor 1");
    assert!(motor.get_is_connected());
    assert!(!motor.get_is_running());
    assert_eq!(motor.serial.port_name, "COM7");
    assert_eq!(motor.protocol, Protocol::default());
    assert_eq!(motor.timers_and_phases, TimersAndPhases::default());
    assert_eq!(ports, vec!["COM1".to_string(), "COM7".to_string()]);
}

#[test]
fn second_motor_on_the_same_port_is_refused() {
    let mut ports = Vec::new();
    let _first = connected_motor(&mut ports);
    let second = Motor::new("COM7".to_string(), "Motor 2".to_string(), &mut ports, &connected_handshake());
    assert_eq!(second.err(), Some(ConnectError::PortInUse));
    assert_eq!(ports, vec!["COM7".to_string()]);
}

#[test]
fn motor_needs_a_finished_handshake() {
    let mut ports = Vec::new();
    let (unfinished, _) = Handshake::start();
    let made = Motor::new("COM7".to_string(), "Motor 1".to_string(), &mut ports, &unfinished);
    assert_eq!(made.err(), Some(ConnectError::Unfinished));
    let mut failed = unfinished;
    failed.advance(LinkReport::Failed);
    let made = Motor::new("COM7".to_string(), "Motor 1".to_string(), &mut ports, &failed);
    assert_eq!(made.err(), Some(ConnectError::LinkFailed));
    assert!(ports.is_empty());
    let made = Serial::new("COM7", &mut ports, &failed);
    assert_eq!(made.err(), Some(ConnectError::LinkFailed));
}

#[test]
fn motor_takes_over_a_loaded_protocol() {
    let mut ports = Vec::new();
    let mut graph = Graph::new();
    let generation = graph.rotation.regenerate();
    let mut worker = ProfileSampler::new(generation, &valid_protocol().rotation);
    graph.rotation.record(&mut worker, 321);
    let steps = StepsCycle { steps_per_direction_cycle_rotation: 11, steps_per_direction_cycle_agitation: 22 };
    let motor = Motor::new_with_already_loaded_protocol(
        "COM3".to_string(),
        "Shaker".to_string(),
        &mut ports,
        &connected_handshake(),
        valid_protocol(),
        graph,
        steps,
    )
    .expect("connected");
    assert_eq!(motor.protocol, valid_protocol());
    assert_eq!(motor.steps_per_cycle, steps);
    assert_eq!(motor.graph.rotation.points(), &vec![MotionPoint { elapsed_us: 0, delay_us: 321 }]);
    assert_eq!(motor.name, "Shaker");
    assert_eq!(ports, vec!["COM3".to_string()]);
}

#[test]
fn start_runs_the_protocol() {
    let mut ports = Vec::new();
    let mut motor = connected_motor(&mut ports);
    motor.protocol = valid_protocol();
    motor.timers_and_phases.main_phase = StepperState::OverHeat;
    motor.timers_and_phases.sub_phase = StepperState::OverHeat;
    motor.timers_and_phases.global_stop_time_ms = Some(99);
    let frame = motor.start_motor(5_000).expect("the protocol has phases");
    assert_eq!(frame, valid_protocol().protocol_as_bytes());
    assert!(motor.get_is_running());
    assert_eq!(
        motor.timers_and_phases,
        TimersAndPhases {
            global_start_time: Some(5_000),
            global_stop_time_ms: None,
            sub_phase: StepperState::Finished,
            sub_phase_start_time: None,
            main_phase: StepperState::Finished,
            main_phase_start_time: None,
            rotation_direction: Direction::Backward,
            agitation_direction: Direction::Forward,
        }
    );
}

#[test]
fn start_sends_the_normalized_protocol() {
    let mut ports = Vec::new();
    let mut motor = connected_motor(&mut ports);
    let mut p = valid_protocol();
    p.agitation.duration_of_one_direction_cycle_ms = 0;
    p.agitation.pause_before_direction_change_ms = 0;
    motor.protocol = p;
    let frame = motor.start_motor(1).expect("the rotation phase is left");
    let mut expected = p;
    expected.agitation_duration_ms = 0;
    expected.pause_post_agitation_ms = 0;
    assert_eq!(motor.protocol, expected);
    assert_eq!(frame, expected.protocol_as_bytes());
    assert_eq!(Protocol::from_bytes(&frame), Some(expected));
}

#[test]
fn start_without_any_phase_is_refused() {
    let mut ports = Vec::new();
    let mut motor = connected_motor(&mut ports);
    let mut p = valid_protocol();
    p.rotation_duration_ms = 0;
    p.agitation_duration_ms = 0;
    motor.protocol = p;
    let timers = motor.timers_and_phases;
    let message = motor.start_motor(5_000).expect_err("nothing to run");
    assert!(!motor.get_is_running());
    assert_eq!(motor.timers_and_phases, timers);
    assert_eq!(message.kind, MessageKind::Error);
    assert_eq!(message.message, "The duration of the protocol is 0. Please check the durations.");
    assert_eq!(message.error.as_deref(), Some("0 duration"));
    assert_eq!(message.origin.as_deref(), Some("Motor 1"));
    assert_eq!(message.duration, 3);
    assert_eq!(motor.protocol.global_duration_ms, 3_600_000);
    assert_eq!(motor.protocol, {
        let mut normalized = p;
        normalized.normalize();
        normalized
    });
    assert_eq!(motor.protocol.pause_pre_agitation_ms, 0);
    assert_eq!(motor.protocol.pause_post_agitation_ms, 0);
}

#[test]
fn start_of_the_default_protocol_is_refused() {
    let mut motor = Motor::default();
    assert!(motor.start_motor(0).is_err());
    assert!(!motor.get_is_running());
}

#[test]
fn start_is_refused_when_the_axes_cannot_move() {
    let mut ports = Vec::new();
    let mut motor = connected_motor(&mut ports);
    let mut p = valid_protocol();
    p.rotation.duration_of_one_direction_cycle_ms = 0;
    p.rotation.pause_before_direction_change_ms = 0;
    p.agitation.duration_of_one_direction_cycle_ms = 0;
    p.agitation.pause_before_direction_change_ms = 0;
    motor.protocol = p;
    assert!(motor.start_motor(5_000).is_err());
    assert!(!motor.get_is_running());
    assert_eq!(motor.protocol.rotation_duration_ms, 0);
    assert_eq!(motor.protocol.agitation_duration_ms, 0);
}

#[test]
fn stop_freezes_the_motor() {
    let mut ports = Vec::new();
    let mut motor = connected_motor(&mut ports);
    motor.protocol = valid_protocol();
    motor.start_motor(1_000).expect("started");
    motor.listen(Poll::Code(*b"str"), 1_100);
    motor.listen(Poll::Code(*b"osr"), 1_200);
    let order = motor.stop_motor(4_500);
    assert_eq!(&order.command, b"stop");
    assert_eq!(order.message.kind, MessageKind::Info);
    assert_eq!(order.message.message, "Motor 1 has been stopped.");
    assert_eq!(order.message.error, None);
    assert_eq!(order.message.origin, None);
    assert_eq!(order.message.duration, 3);
    assert!(!motor.get_is_running());
    assert_eq!(motor.timers_and_phases.main_phase, StepperState::Finished);
    assert_eq!(motor.timers_and_phases.sub_phase, StepperState::Finished);
    assert_eq!(motor.timers_and_phases.main_phase_start_time, None);
    assert_eq!(motor.timers_and_phases.sub_phase_start_time, None);
    assert_eq!(motor.timers_and_phases.global_stop_time_ms, Some(3_500));
    assert_eq!(motor.timers_and_phases.rotation_direction, Direction::Forward);
    assert!(motor.get_is_connected());
}

#[test]
fn listener_turns_through_the_motor() {
    let mut ports = Vec::new();
    let mut motor = connected_motor(&mut ports);
    motor.protocol = valid_protocol();
    motor.start_motor(1_000).expect("started");
    let turn = motor.listen(Poll::Code(*b"sta"), 1_300);
    assert_eq!(turn.action, ListenerAction::Continue);
    assert_eq!(motor.timers_and_phases.main_phase, StepperState::StartAgitation);
    let turn = motor.listen(Poll::Code(*b"er2"), 1_400);
    assert_eq!(turn.action, ListenerAction::Stop);
    assert!(!motor.get_is_running());
    let turn = motor.listen(Poll::Code(*b"str"), 1_500);
    assert_eq!(turn.action, ListenerAction::Stop);
    assert_eq!(motor.timers_and_phases.main_phase, StepperState::OverCurrent);
}

#[test]
fn disconnect_stops_a_running_motor_first() {
    let mut ports = vec!["COM1".to_string()];
    let mut motor = connected_motor(&mut ports);
    motor.protocol = valid_protocol();
    motor.start_motor(1_000).expect("started");
    let closed = motor.disconnect(&mut ports, 2_000);
    let stop = closed.stop.expect("the motor ran");
    assert_eq!(&stop.command, b"stop");
    assert_eq!(stop.message.message, "Motor 1 has been stopped.");
    assert_eq!(closed.last_words, Some(*b"bye!"));
    assert_eq!(closed.message.kind, MessageKind::Info);
    assert_eq!(closed.message.message, "Disconnected from COM7");
    assert_eq!(closed.message.origin.as_deref(), Some("Motor 1"));
    assert!(!motor.get_is_running());
    assert!(!motor.get_is_connected());
    assert_eq!(motor.serial.port_name, "");
    assert_eq!(motor.timers_and_phases.global_stop_time_ms, Some(1_000));
    assert_eq!(motor.protocol, valid_protocol());
    assert_eq!(ports, vec!["COM1".to_string()]);
}

#[test]
fn disconnect_of_a_motor_at_rest_or_without_link() {
    let mut ports = Vec::new();
    let mut motor = connected_motor(&mut ports);
    let closed = motor.disconnect(&mut ports, 10);
    assert!(closed.stop.is_none());
    assert_eq!(closed.last_words, Some(*b"bye!"));
    assert!(ports.is_empty());
    // a second time there is no link to close
    ports.push("".to_string());
    let closed = motor.disconnect(&mut ports, 20);
    assert!(closed.stop.is_none());
    assert_eq!(closed.last_words, None);
    assert_eq!(closed.message.message, "Disconnected from ");
    assert_eq!(ports, vec!["".to_string()]);
}

#[test]
fn import_replaces_the_protocol_and_asks_for_both_curves() {
    let mut motor = Motor::default();
    let before_rotation = motor.graph.rotation.generation();
    let before_agitation = motor.graph.agitation.generation();
    let (rotation, agitation) = motor.import_protocol(valid_protocol()).expect("valid");
    assert_eq!(motor.protocol, valid_protocol());
    assert_eq!(motor.graph.rotation.generation(), before_rotation + 1);
    assert_eq!(motor.graph.agitation.generation(), before_agitation + 1);
    assert!(motor.graph.rotation.is_generating());
    assert!(motor.graph.agitation.is_generating());
    assert_eq!(rotation.worker, ProfileSampler::new(before_rotation + 1, &valid_protocol().rotation));
    assert_eq!(agitation.worker, ProfileSampler::new(before_agitation + 1, &valid_protocol().agitation));
    assert_eq!(rotation.worker.threshold_us, 20_000);
    assert_eq!(agitation.worker.threshold_us, 3_000);
    assert_eq!(Some(rotation.setup), valid_protocol().rotation.create_stepgen());
    assert_eq!(agitation.setup.target_rpm, 120);
    assert_eq!(agitation.setup.target_accel, 1_600);
}

#[test]
fn import_of_a_bad_protocol_changes_nothing() {
    let mut motor = Motor::default();
    motor.protocol = valid_protocol();
    let generation = motor.graph.rotation.regenerate();
    let mut worker = ProfileSampler::new(generation, &motor.protocol.rotation);
    motor.record_step(Axis::Rotation, &mut worker, 50, 1);
    let mut bad = valid_protocol();
    bad.pause_post_agitation_ms = MAX_DURATION_MS + 1;
    assert_eq!(motor.import_protocol(bad).err(), Some(ValidationError::DurationTooHigh));
    assert_eq!(motor.protocol, valid_protocol());
    assert_eq!(motor.graph.rotation.generation(), generation);
    assert_eq!(motor.graph.rotation.len(), 1);
    // a bad protocol whose phases are zero leaves the global duration alone too
    let mut bad = valid_protocol();
    bad.rotation_duration_ms = 0;
    bad.agitation_duration_ms = 0;
    bad.rotation.acceleration = 0;
    assert_eq!(motor.import_protocol(bad).err(), Some(ValidationError::ZeroAcceleration));
    assert_eq!(motor.protocol.global_duration_ms, 3_600_000);
}

#[test]
fn curves_of_the_two_axes_are_apart() {
    let mut motor = Motor::default();
    motor.protocol = valid_protocol();
    let rotation = motor.generate_graph_rotation().expect("the axis is within limits");
    let agitation = motor.generate_graph_agitation().expect("the axis is within limits");
    let mut rotation_worker = rotation.worker;
    let mut agitation_worker = agitation.worker;
    assert_eq!(motor.record_step(Axis::Rotation, &mut rotation_worker, 700, 1), StepOutcome::Sampled);
    assert_eq!(motor.record_step(Axis::Rotation, &mut rotation_worker, 650, 2), StepOutcome::Sampled);
    assert_eq!(motor.record_step(Axis::Agitation, &mut agitation_worker, 90, 1), StepOutcome::Sampled);
    assert_eq!(motor.graph.rotation.len(), 2);
    assert_eq!(motor.graph.agitation.len(), 1);
    assert_eq!(motor.steps_per_cycle.steps_per_direction_cycle_rotation, 2);
    assert_eq!(motor.steps_per_cycle.steps_per_direction_cycle_agitation, 1);

    // a new request for the rotation curve shuts its old worker out
    let newer = motor.generate_graph(Axis::Rotation).expect("still within limits");
    assert_eq!(motor.record_step(Axis::Rotation, &mut rotation_worker, 600, 3), StepOutcome::Stale);
    assert_eq!(motor.steps_per_cycle.steps_per_direction_cycle_rotation, 2);
    assert_eq!(motor.graph.rotation.len(), 0);
    assert_eq!(motor.graph.agitation.len(), 1);
    let mut newer_worker = newer.worker;
    assert_eq!(motor.record_step(Axis::Rotation, &mut newer_worker, 10, 7), StepOutcome::Sampled);
    assert_eq!(motor.steps_per_cycle.steps_per_direction_cycle_rotation, 7);
    motor.finish_graph(Axis::Rotation, &rotation_worker);
    assert!(motor.graph.rotation.is_generating());
    motor.finish_graph(Axis::Rotation, &newer_worker);
    assert!(!motor.graph.rotation.is_generating());
    assert!(motor.graph.agitation.is_generating());
}

#[test]
fn curve_of_an_axis_out_of_range_stays_empty() {
    let mut motor = Motor::default();
    motor.protocol.rotation.rpm = u32::MAX;
    motor.protocol.rotation.step_mode = StepMode128::M128;
    assert!(motor.generate_graph_rotation().is_none());
    assert!(!motor.graph.rotation.is_generating());
    assert_eq!(motor.graph.rotation.generation(), 1);
}

#[test]
fn copy_of_a_motor() {
    let mut ports = Vec::new();
    let mut motor = connected_motor(&mut ports);
    motor.protocol = valid_protocol();
    motor.start_motor(77).expect("started");
    let job = motor.generate_graph_agitation().expect("within limits");
    let mut worker = job.worker;
    motor.record_step(Axis::Agitation, &mut worker, 5, 9);
    let copy = motor.duplicate();
    assert_eq!(copy.name, motor.name);
    assert_eq!(copy.is_running, motor.is_running);
    assert_eq!(copy.protocol, motor.protocol);
    assert_eq!(copy.serial.port_name, motor.serial.port_name);
    assert_eq!(copy.serial.connected, motor.serial.connected);
    assert_eq!(copy.timers_and_phases, motor.timers_and_phases);
    assert_eq!(copy.steps_per_cycle, motor.steps_per_cycle);
    assert_eq!(copy.graph.agitation.points(), motor.graph.agitation.points());
    assert_eq!(copy.graph.agitation.generation(), motor.graph.agitation.generation());
}

#[test]
fn port_lists() {
    let mut ports = vec!["COM1".to_string(), "COM2".to_string(), "COM1".to_string(), "COM3".to_string()];
    assert!(is_port_listed(&ports, "COM2"));
    assert!(!is_port_listed(&ports, "COM4"));
    assert!(!is_port_listed(&ports, "com2"));
    release_port(&mut ports, "COM1");
    assert_eq!(ports, vec!["COM2".to_string(), "COM3".to_string()]);
    release_port(&mut ports, "COM9");
    assert_eq!(ports, vec!["COM2".to_string(), "COM3".to_string()]);
    let candidates = vec!["COM3".to_string(), "COM4".to_string(), "COM2".to_string(), "COM5".to_string()];
    assert_eq!(available_ports(&candidates, &ports), vec!["COM4".to_string(), "COM5".to_string()]);
    assert_eq!(available_ports(&candidates, &Vec::new()), candidates);
    assert!(available_ports(&Vec::new(), &ports).is_empty());
}

#[test]
fn chosen_port_follows_the_free_ports() {
    let free = vec!["COM4".to_string(), "COM5".to_string()];
    assert_eq!(choose_port("COM5", &free), "COM5");
    assert_eq!(choose_port("COM9", &free), "COM4");
    assert_eq!(choose_port("", &free), "COM4");
    assert_eq!(choose_port("COM9", &Vec::new()), "");
}
