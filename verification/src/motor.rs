//! One motor: its protocol, its link, its phases and its speed curves, and
//! what starting, stopping and disconnecting it change.
//!
//! A motor writes nothing itself. Each operation returns the bytes that the
//! caller is to write on the port and the message that it is to show.

use vstd::prelude::*;
use vstd::string::StringExecFns;
use crate::enums::StepperState;
use crate::graph::{Axis, Graph, ProfileSampler, ProfileView, StepOutcome};
use crate::handshake::{
    farewell_bytes, stop_bytes, stop_command, ConnectError, Handshake, HandshakeStage,
};
use crate::limits::BYTES;
use crate::protocols::{Protocol, Rotation, StepgenSetup, ValidationError};
use crate::serial::{
    is_other_port, port_listed, release_port, ListenerAction, ListenerTurn, Poll, Serial,
};
use crate::structs::{Message, MessageKind, MessageView, StepsCycle, TimersAndPhases};

verus! {

/// Seconds for which a message of a motor stays on screen.
pub const MOTOR_MESSAGE_SECONDS: u64 = 3;

/// What the caller does to end a run: the bytes to write and the message to
/// show.
#[derive(Debug, Clone)]
pub struct StopOrder {
    pub command: [u8; 4],
    pub message: Message,
}

/// What the caller does to close a link.
#[derive(Debug, Clone)]
pub struct Disconnection {
    /// Set where the motor was running and had to be stopped first.
    pub stop: Option<StopOrder>,
    /// `bye!`, to be written before the port is closed, where a link was
    /// open.
    pub last_words: Option<[u8; 4]>,
    pub message: Message,
}

/// The work handed to the worker that computes one speed curve.
#[derive(Debug, Copy, Clone, PartialEq, Eq, Structural)]
pub struct GraphJob {
    /// What the step generator is set up with.
    pub setup: StepgenSetup,
    /// The state that the worker starts from; it carries the generation of
    /// the curve.
    pub worker: ProfileSampler,
}

/// One motor.
#[derive(Debug, Clone)]
pub struct Motor {
    pub name: String,
    pub is_running: bool,
    pub protocol: Protocol,
    pub serial: Serial,
    pub graph: Graph,
    pub timers_and_phases: TimersAndPhases,
    pub steps_per_cycle: StepsCycle,
}

impl Motor {
    /// The text of the message raised when a motor was stopped.
    pub open spec fn stopped_text(name: Seq<char>) -> Seq<char> {
        name + " has been stopped."@
    }

    /// The message raised when a protocol without any phase is started.
    pub open spec fn zero_duration_message(name: Seq<char>) -> MessageView {
        MessageView {
            kind: MessageKind::Error,
            message: "The duration of the protocol is 0. Please check the durations."@,
            error: Some("0 duration"@),
            origin: Some(name),
            duration: MOTOR_MESSAGE_SECONDS,
            is_waiting: false,
        }
    }

    /// The message raised when a motor was stopped.
    pub open spec fn stopped_message(name: Seq<char>) -> MessageView {
        MessageView {
            kind: MessageKind::Info,
            message: Motor::stopped_text(name),
            error: None,
            origin: None,
            duration: MOTOR_MESSAGE_SECONDS,
            is_waiting: false,
        }
    }

    /// The message raised when the link of a motor was closed.
    pub open spec fn disconnected_message(name: Seq<char>, port_name: Seq<char>) -> MessageView {
        MessageView {
            kind: MessageKind::Info,
            message: Serial::disconnected_text(port_name),
            error: None,
            origin: Some(name),
            duration: MOTOR_MESSAGE_SECONDS,
            is_waiting: false,
        }
    }

    /// The motor after it was stopped at `now`: at rest, phases idle without
    /// timers, the length of the run kept.
    pub open spec fn stopped(self, now: u64) -> Motor {
        Motor {
            is_running: false,
            timers_and_phases: self.timers_and_phases.frozen(StepperState::Finished, now),
            ..self
        }
    }

    /// A start of the motor would be refused: its protocol has no phase left
    /// once normalized.
    pub open spec fn has_nothing_to_run(self) -> bool {
        self.protocol.normalized().duration_without_pause() == 0
    }

    /// The motor after a start at `now`. Its protocol is normalized in any
    /// case. Where it has nothing to run nothing else changes; else it runs.
    pub open spec fn started(self, now: u64) -> Motor {
        if self.has_nothing_to_run() {
            Motor { protocol: self.protocol.normalized(), ..self }
        } else {
            Motor {
                protocol: self.protocol.normalized(),
                is_running: true,
                timers_and_phases: self.timers_and_phases.started(
                    self.protocol.rotation.direction,
                    self.protocol.agitation.direction,
                    now,
                ),
                ..self
            }
        }
    }

    /// The motor is `before` with its link closed at `now`: stopped first
    /// where it ran, and left with a closed link of no name.
    pub open spec fn is_disconnected_from(self, before: Motor, now: u64) -> bool {
        &&& !self.is_running
        &&& !self.serial.connected
        &&& self.serial.port_name@ == Seq::<char>::empty()
        &&& self.serial.invalid_codes == 0
        &&& self.serial.invalid_since == 0
        &&& self.name == before.name
        &&& self.protocol == before.protocol
        &&& self.graph == before.graph
        &&& self.steps_per_cycle == before.steps_per_cycle
        &&& self.timers_and_phases == if before.is_running {
            before.timers_and_phases.frozen(StepperState::Finished, now)
        } else {
            before.timers_and_phases
        }
    }

    /// The motor after one turn of its listener at `now`: as it was where it
    /// does not run, and else changed as `Serial::heard` says.
    pub open spec fn after_poll(self, poll: Poll, now: u64) -> Motor {
        if !self.is_running {
            self
        } else {
            let heard = self.serial.heard(self.name@, self.timers_and_phases, poll, now);
            Motor {
                is_running: heard.is_running,
                timers_and_phases: heard.timers_and_phases,
                serial: Serial {
                    invalid_codes: heard.invalid_codes,
                    invalid_since: heard.invalid_since,
                    ..self.serial
                },
                ..self
            }
        }
    }

    /// What the listener of the motor is to do after a turn at `now`.
    pub open spec fn poll_action(self, poll: Poll, now: u64) -> ListenerAction {
        if !self.is_running {
            ListenerAction::Stop
        } else {
            self.serial.heard(self.name@, self.timers_and_phases, poll, now).action
        }
    }

    /// What a turn of the listener at `now` has to tell the operator.
    pub open spec fn poll_message(self, poll: Poll, now: u64) -> Option<MessageView> {
        if !self.is_running {
            None
        } else {
            self.serial.heard(self.name@, self.timers_and_phases, poll, now).message
        }
    }

    /// The motor is `before` with `protocol` taken over and both curves
    /// asked for anew.
    pub open spec fn has_imported(self, before: Motor, protocol: Protocol) -> bool {
        &&& self.protocol == protocol
        &&& self.name == before.name
        &&& self.is_running == before.is_running
        &&& self.serial == before.serial
        &&& self.timers_and_phases == before.timers_and_phases
        &&& self.steps_per_cycle == before.steps_per_cycle
        &&& self.graph.rotation@ == before.graph.rotation@.regenerated()
        &&& self.graph.agitation@ == before.graph.agitation@.regenerated()
    }

    /// The motor is as every motor begins: at rest, with the protocol that
    /// every motor begins with, empty curves, no step counted, idle phases,
    /// and a link that is fresh and either open or closed.
    pub open spec fn is_new(self) -> bool {
        &&& !self.is_running
        &&& self.protocol == Protocol::default_value()
        &&& self.serial.invalid_codes == 0
        &&& self.serial.invalid_since == 0
        &&& self.graph.rotation@ == ProfileView::empty()
        &&& self.graph.agitation@ == ProfileView::empty()
        &&& self.timers_and_phases == TimersAndPhases::idle()
        &&& self.steps_per_cycle == StepsCycle::none()
    }

    /// The motor shows all that `shown` shows: the same texts, the same
    /// state and the same curves.
    pub open spec fn mirrors(self, shown: Motor) -> bool {
        &&& self.name@ == shown.name@
        &&& self.is_running == shown.is_running
        &&& self.protocol == shown.protocol
        &&& self.serial.port_name@ == shown.serial.port_name@
        &&& self.serial.connected == shown.serial.connected
        &&& self.serial.invalid_codes == shown.serial.invalid_codes
        &&& self.serial.invalid_since == shown.serial.invalid_since
        &&& self.graph.rotation@ == shown.graph.rotation@
        &&& self.graph.agitation@ == shown.graph.agitation@
        &&& self.timers_and_phases == shown.timers_and_phases
        &&& self.steps_per_cycle == shown.steps_per_cycle
    }

    /// The motor is `before` but for the curve of one axis and for the
    /// step counts.
    pub open spec fn is_same_but_curve(self, before: Motor, axis: Axis) -> bool {
        &&& self.name == before.name
        &&& self.is_running == before.is_running
        &&& self.protocol == before.protocol
        &&& self.serial == before.serial
        &&& self.timers_and_phases == before.timers_and_phases
        &&& self.graph.curve(axis.other()) == before.graph.curve(axis.other())
    }

    /// The job of the worker that computes the curve of an axis at a
    /// generation, where the step generator can be set up for the axis.
    pub open spec fn job_plan(self, axis: Axis, generation: u64) -> Option<GraphJob> {
        match self.protocol.axis(axis).stepgen_plan() {
            Some(setup) => Some(
                GraphJob {
                    setup,
                    worker: ProfileSampler::fresh(
                        generation,
                        self.protocol.axis(axis).duration_of_one_direction_cycle_ms,
                    ),
                },
            ),
            None => None,
        }
    }

    /// The two jobs are those of the workers that compute the curves of the
    /// motor for its protocol.
    pub open spec fn jobs_match(self, jobs: (GraphJob, GraphJob)) -> bool {
        &&& Some(jobs.0) == self.job_plan(Axis::Rotation, self.graph.rotation@.generation)
        &&& Some(jobs.1) == self.job_plan(Axis::Agitation, self.graph.agitation@.generation)
    }

    /// The list of ports that are taken after the link of a motor was
    /// closed: without the port of the motor where it had a link, and as
    /// before where it had none.
    pub open spec fn ports_after_disconnect(before: Motor, ports: Seq<String>) -> Seq<String> {
        if before.serial.connected {
            ports.filter(is_other_port(before.serial.port_name@))
        } else {
            ports
        }
    }

    /// A motor that is connected through a finished handshake, at rest, with
    /// the protocol that every motor begins with.
    pub fn new(
        serial_port: String,
        motor_name: String,
        already_connected_ports: &mut Vec<String>,
        handshake: &Handshake,
    ) -> (made: Result<Motor, ConnectError>)
        ensures
            port_listed(old(already_connected_ports)@, serial_port@) ==> made matches Err(
                ConnectError::PortInUse,
            ),
            !port_listed(old(already_connected_ports)@, serial_port@) ==> match handshake.stage {
                HandshakeStage::Connected => made is Ok,
                HandshakeStage::Failed(e) => made matches Err(r) && r == e,
                _ => made matches Err(ConnectError::Unfinished),
            },
            made matches Ok(motor) ==> {
                &&& motor.is_new()
                &&& motor.name == motor_name
                &&& motor.serial.port_name@ == serial_port@
                &&& motor.serial.connected
                &&& final(already_connected_ports)@ == old(already_connected_ports)@.push(
                    motor.serial.port_name,
                )
                &&& port_listed(final(already_connected_ports)@, serial_port@)
            },
            made is Err ==> final(already_connected_ports)@ == old(already_connected_ports)@,
    {
        match Serial::new(serial_port.as_str(), already_connected_ports, handshake) {
            Err(reason) => Err(reason),
            Ok(serial) => Ok(
                Motor {
                    name: motor_name,
                    is_running: false,
                    protocol: Protocol::default(),
                    serial,
                    graph: Graph::new(),
                    timers_and_phases: TimersAndPhases::default(),
                    steps_per_cycle: StepsCycle::default(),
                },
            ),
        }
    }

    /// A motor that is connected through a finished handshake and takes over
    /// a protocol, its curves and its step counts.
    pub fn new_with_already_loaded_protocol(
        serial_port: String,
        motor_name: String,
        already_connected_ports: &mut Vec<String>,
        handshake: &Handshake,
        protocol: Protocol,
        graph: Graph,
        steps_per_cycle: StepsCycle,
    ) -> (made: Result<Motor, ConnectError>)
        ensures
            port_listed(old(already_connected_ports)@, serial_port@) ==> made matches Err(
                ConnectError::PortInUse,
            ),
            !port_listed(old(already_connected_ports)@, serial_port@) ==> match handshake.stage {
                HandshakeStage::Connected => made is Ok,
                HandshakeStage::Failed(e) => made matches Err(r) && r == e,
                _ => made matches Err(ConnectError::Unfinished),
            },
            made matches Ok(motor) ==> {
                &&& motor.name == motor_name
                &&& !motor.is_running
                &&& motor.protocol == protocol
                &&& motor.graph == graph
                &&& motor.steps_per_cycle == steps_per_cycle
                &&& motor.serial.port_name@ == serial_port@
                &&& motor.serial.connected
                &&& motor.serial.invalid_codes == 0
                &&& motor.serial.invalid_since == 0
                &&& motor.timers_and_phases == TimersAndPhases::idle()
                &&& final(already_connected_ports)@ == old(already_connected_ports)@.push(
                    motor.serial.port_name,
                )
                &&& port_listed(final(already_connected_ports)@, serial_port@)
            },
            made is Err ==> final(already_connected_ports)@ == old(already_connected_ports)@,
    {
        match Motor::new(serial_port, motor_name, already_connected_ports, handshake) {
            Err(reason) => Err(reason),
            Ok(motor) => {
                let mut motor = motor;
                motor.protocol = protocol;
                motor.graph = graph;
                motor.steps_per_cycle = steps_per_cycle;
                Ok(motor)
            },
        }
    }

    /// A copy of the motor, for reading.
    pub fn duplicate(&self) -> (copy: Motor)
        ensures
            copy.mirrors(*self),
    {
        Motor {
            name: self.name.clone(),
            is_running: self.is_running,
            protocol: self.protocol,
            serial: Serial {
                port_name: self.serial.port_name.clone(),
                connected: self.serial.connected,
                invalid_codes: self.serial.invalid_codes,
                invalid_since: self.serial.invalid_since,
            },
            graph: Graph {
                rotation: self.graph.rotation.duplicate(),
                agitation: self.graph.agitation.duplicate(),
            },
            timers_and_phases: self.timers_and_phases,
            steps_per_cycle: self.steps_per_cycle,
        }
    }

    /// Tells whether the link of the motor is open.
    pub fn get_is_connected(&self) -> (connected: bool)
        ensures
            connected == self.serial.connected,
    {
        self.serial.get_is_connected()
    }

    /// Tells whether the motor runs its protocol.
    pub fn get_is_running(&self) -> (running: bool)
        ensures
            running == self.is_running,
    {
        self.is_running
    }

    /// Checks a protocol against the limits.
    pub fn validate(&self, protocol: &Protocol) -> (checked: Result<(), ValidationError>)
        ensures
            checked is Ok <==> protocol.valid(),
            checked matches Err(e) ==> protocol.first_violation() == Some(e),
    {
        protocol.validate()
    }

    /// Starts the protocol of the motor at `now_ms`.
    ///
    /// The protocol is normalized first. Where no phase is left the motor
    /// stays as it is, but for its protocol, which stays normalized, and the
    /// message to show is returned. Otherwise the motor runs: its directions are those of the
    /// protocol, its phases are idle, the run timer is on, and the command
    /// frame to write is returned. The caller then starts the listener.
    pub fn start_motor(&mut self, now_ms: u64) -> (started: Result<[u8; BYTES], Message>)
        ensures
            *final(self) == old(self).started(now_ms),
            started is Err <==> old(self).has_nothing_to_run(),
            started matches Err(message) ==> message@ == Motor::zero_duration_message(
                old(self).name@,
            ),
            started matches Ok(frame) ==> frame@ == old(self).protocol.normalized().wire(),
    {
        self.protocol.normalize();
        if self.protocol.get_duration_without_pause() == 0 {
            return Err(
                Message::new(
                    MessageKind::Error,
                    "The duration of the protocol is 0. Please check the durations.",
                    Some("0 duration".to_owned()),
                    Some(self.name.clone()),
                    MOTOR_MESSAGE_SECONDS,
                    false,
                ),
            );
        }
        self.is_running = true;
        self.timers_and_phases = TimersAndPhases {
            global_start_time: Some(now_ms),
            global_stop_time_ms: None,
            sub_phase: StepperState::Finished,
            sub_phase_start_time: None,
            main_phase: StepperState::Finished,
            main_phase_start_time: None,
            rotation_direction: self.protocol.rotation.direction,
            agitation_direction: self.protocol.agitation.direction,
        };
        Ok(self.protocol.protocol_as_bytes())
    }

    /// Stops the motor at `now_ms`: it no longer runs, its phases are idle
    /// without timers and the length of the run is kept. Returns `stop` for
    /// the board and the message to show.
    pub fn stop_motor(&mut self, now_ms: u64) -> (order: StopOrder)
        ensures
            *final(self) == old(self).stopped(now_ms),
            order.command@ == stop_bytes(),
            order.message@ == Motor::stopped_message(old(self).name@),
    {
        self.is_running = false;
        self.timers_and_phases.freeze(StepperState::Finished, now_ms);
        let text = self.name.clone().concat(" has been stopped.");
        StopOrder {
            command: stop_command(),
            message: Message::new(
                MessageKind::Info,
                text.as_str(),
                None,
                None,
                MOTOR_MESSAGE_SECONDS,
                false,
            ),
        }
    }

    /// Closes the link of the motor at `now_ms`.
    ///
    /// A motor that runs is stopped first. The port of a motor that had a
    /// link is taken off the list of ports that are taken. The motor is left
    /// with a link of no name that is closed; its protocol and curves stay.
    pub fn disconnect(&mut self, already_connected_ports: &mut Vec<String>, now_ms: u64) -> (closed:
        Disconnection)
        ensures
            final(self).is_disconnected_from(*old(self), now_ms),
            closed.stop is Some <==> old(self).is_running,
            closed.stop matches Some(order) ==> order.command@ == stop_bytes() && order.message@
                == Motor::stopped_message(old(self).name@),
            closed.last_words is Some <==> old(self).serial.connected,
            closed.last_words matches Some(bytes) ==> bytes@ == farewell_bytes(),
            closed.message@ == Motor::disconnected_message(
                old(self).name@,
                old(self).serial.port_name@,
            ),
            final(already_connected_ports)@ == Motor::ports_after_disconnect(
                *old(self),
                old(already_connected_ports)@,
            ),
            old(self).serial.connected ==> !port_listed(
                final(already_connected_ports)@,
                old(self).serial.port_name@,
            ),
    {
        let stop = if self.is_running {
            Some(self.stop_motor(now_ms))
        } else {
            None
        };
        let last_words = self.serial.disconnect();
        if last_words.is_some() {
            release_port(already_connected_ports, self.serial.port_name.as_str());
        }
        let text = "Disconnected from ".to_owned().concat(self.serial.port_name.as_str());
        let message = Message::new(
            MessageKind::Info,
            text.as_str(),
            None,
            Some(self.name.clone()),
            MOTOR_MESSAGE_SECONDS,
            false,
        );
        self.serial = Serial::default();
        Disconnection { stop, last_words, message }
    }

    /// One turn of the status listener of the motor: see
    /// `Serial::listen_to_serial_port`.
    pub fn listen(&mut self, poll: Poll, now_ms: u64) -> (turn: ListenerTurn)
        ensures
            *final(self) == old(self).after_poll(poll, now_ms),
            turn.action == old(self).poll_action(poll, now_ms),
            Serial::message_view(turn.message) == old(self).poll_message(poll, now_ms),
    {
        self.serial.listen_to_serial_port(
            &self.name,
            &mut self.is_running,
            &mut self.timers_and_phases,
            poll,
            now_ms,
        )
    }

    /// Takes over a protocol that passes the check, and asks for both speed
    /// curves anew. A protocol that does not pass leaves the motor as it is.
    pub fn import_protocol(&mut self, protocol: Protocol) -> (imported: Result<
        (GraphJob, GraphJob),
        ValidationError,
    >)
        ensures
            imported is Ok <==> protocol.valid(),
            imported matches Err(e) ==> protocol.first_violation() == Some(e) && *final(self)
                == *old(self),
            imported matches Ok(jobs) ==> {
                &&& final(self).has_imported(*old(self), protocol)
                &&& final(self).jobs_match(jobs)
            },
    {
        match protocol.validate() {
            Err(e) => { return Err(e); },
            Ok(()) => {},
        }
        let rotation_setup = match protocol.rotation.create_stepgen() {
            Some(setup) => setup,
            None => { return Err(ValidationError::RpmTooHigh); },
        };
        let agitation_setup = match protocol.agitation.create_stepgen() {
            Some(setup) => setup,
            None => { return Err(ValidationError::RpmTooHigh); },
        };
        self.protocol = protocol;
        let rotation_generation = self.graph.rotation.regenerate();
        let agitation_generation = self.graph.agitation.regenerate();
        Ok(
            (
                GraphJob {
                    setup: rotation_setup,
                    worker: ProfileSampler::new(rotation_generation, &protocol.rotation),
                },
                GraphJob {
                    setup: agitation_setup,
                    worker: ProfileSampler::new(agitation_generation, &protocol.agitation),
                },
            ),
        )
    }

    /// Asks for the speed curve of an axis anew.
    ///
    /// The curve is emptied and moves to its next generation, which shuts
    /// out the worker of the generation before. The job for the new worker
    /// is returned, unless the speed or the acceleration of the axis in
    /// microsteps does not fit in 32 bits: the curve then stays empty with
    /// nobody at work.
    pub fn generate_graph(&mut self, axis: Axis) -> (job: Option<GraphJob>)
        ensures
            final(self).is_same_but_curve(*old(self), axis),
            final(self).steps_per_cycle == old(self).steps_per_cycle,
            final(self).graph.curve(axis)@ == (ProfileView {
                generating: job is Some,
                ..old(self).graph.curve(axis)@.regenerated()
            }),
            final(self).graph.curve(axis)@.within_ceiling(),
            job == old(self).job_plan(axis, final(self).graph.curve(axis)@.generation),
    {
        match axis {
            Axis::Rotation => {
                let generation = self.graph.rotation.regenerate();
                let worker = ProfileSampler::new(generation, &self.protocol.rotation);
                match self.protocol.rotation.create_stepgen() {
                    Some(setup) => Some(GraphJob { setup, worker }),
                    None => {
                        self.graph.rotation.finish(&worker);
                        None
                    },
                }
            },
            Axis::Agitation => {
                let generation = self.graph.agitation.regenerate();
                let worker = ProfileSampler::new(generation, &self.protocol.agitation);
                match self.protocol.agitation.create_stepgen() {
                    Some(setup) => Some(GraphJob { setup, worker }),
                    None => {
                        self.graph.agitation.finish(&worker);
                        None
                    },
                }
            },
        }
    }

    /// Asks for the speed curve of the rotation axis anew: see
    /// `generate_graph`.
    pub fn generate_graph_rotation(&mut self) -> (job: Option<GraphJob>)
        ensures
            final(self).is_same_but_curve(*old(self), Axis::Rotation),
            final(self).steps_per_cycle == old(self).steps_per_cycle,
            final(self).graph.rotation@ == (ProfileView {
                generating: job is Some,
                ..old(self).graph.rotation@.regenerated()
            }),
            final(self).graph.rotation@.within_ceiling(),
            job == old(self).job_plan(Axis::Rotation, final(self).graph.rotation@.generation),
    {
        self.generate_graph(Axis::Rotation)
    }

    /// Asks for the speed curve of the agitation axis anew: see
    /// `generate_graph`.
    pub fn generate_graph_agitation(&mut self) -> (job: Option<GraphJob>)
        ensures
            final(self).is_same_but_curve(*old(self), Axis::Agitation),
            final(self).steps_per_cycle == old(self).steps_per_cycle,
            final(self).graph.agitation@ == (ProfileView {
                generating: job is Some,
                ..old(self).graph.agitation@.regenerated()
            }),
            final(self).graph.agitation@.within_ceiling(),
            job == old(self).job_plan(Axis::Agitation, final(self).graph.agitation@.generation),
    {
        self.generate_graph(Axis::Agitation)
    }

    /// Offers the next step of a worker to the curve of its axis.
    ///
    /// `delay_us` is the time to the following step and `current_step` the
    /// number of steps that the generator has made. The curve and the
    /// worker change as `ProfileBuffer::record` says. A worker that is not
    /// turned away also leaves its step count with the motor.
    pub fn record_step(
        &mut self,
        axis: Axis,
        worker: &mut ProfileSampler,
        delay_us: u64,
        current_step: u64,
    ) -> (outcome: StepOutcome)
        ensures
            final(self).is_same_but_curve(*old(self), axis),
            outcome == old(self).graph.curve(axis)@.outcome(*old(worker), delay_us),
            final(self).graph.curve(axis)@ == old(self).graph.curve(axis)@.after_step(
                *old(worker),
                delay_us,
            ),
            *final(worker) == old(self).graph.curve(axis)@.worker_after_step(
                *old(worker),
                delay_us,
            ),
            final(self).steps_per_cycle == if outcome == StepOutcome::Stale {
                old(self).steps_per_cycle
            } else {
                old(self).steps_per_cycle.with_steps(axis, current_step)
            },
            old(self).graph.curve(axis)@.within_ceiling() ==> final(self).graph.curve(
                axis,
            )@.within_ceiling(),
    {
        match axis {
            Axis::Rotation => {
                let outcome = self.graph.rotation.record(worker, delay_us);
                match outcome {
                    StepOutcome::Stale => {},
                    _ => {
                        self.steps_per_cycle.steps_per_direction_cycle_rotation = current_step;
                    },
                }
                outcome
            },
            Axis::Agitation => {
                let outcome = self.graph.agitation.record(worker, delay_us);
                match outcome {
                    StepOutcome::Stale => {},
                    _ => {
                        self.steps_per_cycle.steps_per_direction_cycle_agitation = current_step;
                    },
                }
                outcome
            },
        }
    }

    /// Takes note that the worker of an axis is done: see
    /// `ProfileBuffer::finish`.
    pub fn finish_graph(&mut self, axis: Axis, worker: &ProfileSampler)
        ensures
            final(self).is_same_but_curve(*old(self), axis),
            final(self).steps_per_cycle == old(self).steps_per_cycle,
            final(self).graph.curve(axis)@ == old(self).graph.curve(axis)@.finished(*worker),
    {
        match axis {
            Axis::Rotation => self.graph.rotation.finish(worker),
            Axis::Agitation => self.graph.agitation.finish(worker),
        }
    }
}

impl Default for Motor {
    fn default() -> (motor: Self)
        ensures
            motor.is_new(),
            motor.name@ == Seq::<char>::empty(),
            !motor.serial.connected,
            motor.serial.port_name@ == Seq::<char>::empty(),
    {
        Motor {
            name: String::new(),
            is_running: false,
            protocol: Protocol::default(),
            serial: Serial::default(),
            graph: Graph::default(),
            timers_and_phases: TimersAndPhases::default(),
            steps_per_cycle: StepsCycle::default(),
        }
    }
}

/// A motor whose two phases have length zero has nothing to run: a start
/// is refused and leaves it running or at rest as it was, with its timers
/// and phases untouched. A motor stopped at any time is at rest.
pub proof fn lemma_nothing_to_run(motor: Motor, now: u64)
    requires
        motor.protocol.rotation_duration_ms == 0,
        motor.protocol.agitation_duration_ms == 0,
    ensures
        motor.has_nothing_to_run(),
        motor.started(now).is_running == motor.is_running,
        motor.started(now).timers_and_phases == motor.timers_and_phases,
        motor.started(now) == (Motor { protocol: motor.protocol.normalized(), ..motor }),
        motor.started(now).protocol.global_duration_ms == motor.protocol.global_duration_ms,
        !motor.stopped(now).is_running,
{
}

/// A start either is refused or leaves the motor running with idle phases,
/// the run timer on and the directions of its protocol.
pub proof fn lemma_start_runs_or_refuses(motor: Motor, now: u64)
    ensures
        motor.has_nothing_to_run() <==> motor.started(now).protocol.duration_without_pause() == 0,
        !motor.has_nothing_to_run() ==> {
            &&& motor.started(now).is_running
            &&& motor.started(now).timers_and_phases.global_start_time == Some(now)
            &&& motor.started(now).timers_and_phases.main_phase == StepperState::Finished
            &&& motor.started(now).timers_and_phases.rotation_direction
                == motor.protocol.rotation.direction
            &&& motor.started(now).timers_and_phases.agitation_direction
                == motor.protocol.agitation.direction
            &&& motor.started(now).protocol == motor.protocol.normalized()
        },
        motor.started(now).protocol.normalized() == motor.started(now).protocol,
{
}

} // verus!
