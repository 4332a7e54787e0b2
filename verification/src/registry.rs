//! The motors of one installation, each under its own number, and the list
//! of the ports that they hold.
//!
//! The motors are kept in a `DashMap`. What the map does is not proved here
//! but taken from its source: see `registered` and the functions `motors_*`.

use vstd::prelude::*;
use dashmap::DashMap;
use crate::graph::{Axis, ProfileSampler, ProfileView, StepOutcome};
use crate::handshake::{farewell_bytes, stop_bytes, ConnectError, Handshake, HandshakeStage};
use crate::limits::BYTES;
use crate::motor::{Disconnection, GraphJob, Motor, StopOrder, MOTOR_MESSAGE_SECONDS};
use crate::protocols::{Protocol, ValidationError};
use crate::serial::{
    available_ports, is_free_port, is_port_listed, lemma_release_listing,
    lemma_unlisted_port_is_not_missed, port_listed, ListenerTurn, Poll, Serial,
};
use crate::structs::{text_of, Message, MessageKind, MessageView, TimersAndPhases};

verus! {

/// `dashmap::DashMap`, taken as it stands: nothing of its inside is seen here.
/// What it holds is spoken of through `registered`.
#[verifier::external_type_specification]
#[verifier::external_body]
#[verifier::reject_recursive_types(K)]
#[verifier::reject_recursive_types(V)]
#[verifier::reject_recursive_types(S)]
pub struct ExDashMap<K, V, S>(DashMap<K, V, S>);

/// The motors that a map holds, each under its number.
pub uninterp spec fn registered(map: DashMap<usize, Motor>) -> Map<usize, Motor>;

/// No motor under any number.
pub open spec fn no_motors() -> Map<usize, Motor> {
    Map::empty()
}

/// The motor under a number, if there is one.
pub open spec fn motor_at(motors: Map<usize, Motor>, id: usize) -> Option<Motor> {
    if motors.contains_key(id) {
        Some(motors[id])
    } else {
        None
    }
}

/// `DashMap::new`: a map that holds nothing.
#[verifier::external_body]
fn motors_new() -> (made: DashMap<usize, Motor>)
    ensures
        registered(made) == no_motors(),
{
    DashMap::new()
}

/// `DashMap::insert`: the motor stands under the number afterwards, in place
/// of the one that stood there, which is returned; the rest of the map is as
/// before.
#[verifier::external_body]
fn motors_insert(map: &mut DashMap<usize, Motor>, id: usize, motor: Motor) -> (before: Option<
    Motor,
>)
    ensures
        registered(*final(map)) == registered(*old(map)).insert(id, motor),
        before == motor_at(registered(*old(map)), id),
{
    map.insert(id, motor)
}

/// `DashMap::remove`: nothing stands under the number afterwards; the motor
/// that stood there is returned; the rest of the map is as before.
#[verifier::external_body]
fn motors_remove(map: &mut DashMap<usize, Motor>, id: usize) -> (removed: Option<Motor>)
    ensures
        registered(*final(map)) == registered(*old(map)).remove(id),
        removed == motor_at(registered(*old(map)), id),
{
    map.remove(&id).map(|entry| entry.1)
}

/// `DashMap::contains_key`: whether a motor stands under the number.
#[verifier::external_body]
fn motors_contains(map: &DashMap<usize, Motor>, id: usize) -> (held: bool)
    ensures
        held == registered(*map).contains_key(id),
{
    map.contains_key(&id)
}

/// `DashMap::view`: what `Motor::duplicate` makes of the motor that stands
/// under the number, and nothing where none stands there.
#[verifier::external_body]
fn motors_peek(map: &DashMap<usize, Motor>, id: usize) -> (copy: Option<Motor>)
    ensures
        copy is Some <==> registered(*map).contains_key(id),
        copy matches Some(motor) ==> motor.mirrors(registered(*map)[id]),
{
    map.view(&id, |_, motor| motor.duplicate())
}

/// `DashMap::iter`, of each entry its key: every number under which a motor
/// stands, once, in no order that could be told beforehand.
#[verifier::external_body]
fn motors_ids(map: &DashMap<usize, Motor>) -> (ids: Vec<usize>)
    ensures
        ids@.no_duplicates(),
        forall|id: usize| ids@.contains(id) <==> registered(*map).contains_key(id),
{
    map.iter().map(|entry| *entry.key()).collect()
}

/// Every motor with a link has its port on the list, and no two motors with
/// a link have the same port.
pub open spec fn links_agree(motors: Map<usize, Motor>, ports: Seq<String>) -> bool {
    &&& forall|id: usize| #[trigger]
        motors.contains_key(id) && motors[id].serial.connected ==> port_listed(
            ports,
            motors[id].serial.port_name@,
        )
    &&& forall|a: usize, b: usize|
        #![trigger motors[a], motors[b]]
        motors.contains_key(a) && motors.contains_key(b) && a != b && motors[a].serial.connected
            && motors[b].serial.connected ==> motors[a].serial.port_name@
            != motors[b].serial.port_name@
}

/// A motor with a link holds the port of this name.
pub open spec fn held_by_some(motors: Map<usize, Motor>, name: Seq<char>) -> bool {
    exists|id: usize| #[trigger]
        motors.contains_key(id) && motors[id].serial.connected && motors[id].serial.port_name@
            == name
}

/// A motor that changes while its link stays as it is leaves ports and
/// motors in agreement.
pub proof fn lemma_same_link_keeps_agreement(
    motors: Map<usize, Motor>,
    ports: Seq<String>,
    id: usize,
    changed: Motor,
)
    requires
        links_agree(motors, ports),
        motors.contains_key(id),
        changed.serial.connected == motors[id].serial.connected,
        changed.serial.port_name == motors[id].serial.port_name,
    ensures
        links_agree(motors.insert(id, changed), ports),
{
    let after = motors.insert(id, changed);
    assert forall|other: usize| #[trigger]
        after.contains_key(other) && after[other].serial.connected implies port_listed(
        ports,
        after[other].serial.port_name@,
    ) by {
        assert(motors.contains_key(other));
    }
    assert forall|a: usize, b: usize|
        #![trigger after[a], after[b]]
        after.contains_key(a) && after.contains_key(b) && a != b && after[a].serial.connected
            && after[b].serial.connected implies after[a].serial.port_name@
        != after[b].serial.port_name@ by {
        assert(motors.contains_key(a) && motors.contains_key(b));
        assert(motors[a].serial.port_name@ != motors[b].serial.port_name@);
    }
}

/// A motor whose link is closed, and whose port is taken off the list where
/// it had a link, leaves ports and motors in agreement, whether the motor
/// stays or goes.
pub proof fn lemma_closed_link_keeps_agreement(
    motors: Map<usize, Motor>,
    ports: Seq<String>,
    id: usize,
    changed: Motor,
)
    requires
        links_agree(motors, ports),
        motors.contains_key(id),
        !changed.serial.connected,
    ensures
        links_agree(motors.insert(id, changed), Motor::ports_after_disconnect(motors[id], ports)),
        links_agree(motors.remove(id), Motor::ports_after_disconnect(motors[id], ports)),
{
    let gone = motors[id];
    let left = Motor::ports_after_disconnect(gone, ports);
    let after = motors.insert(id, changed);
    assert forall|other: usize| #[trigger]
        after.contains_key(other) && after[other].serial.connected implies port_listed(
        left,
        after[other].serial.port_name@,
    ) by {
        assert(motors.contains_key(other));
        if gone.serial.connected {
            assert(motors[other].serial.port_name@ != motors[id].serial.port_name@);
            lemma_unlisted_port_is_not_missed(
                ports,
                gone.serial.port_name@,
                motors[other].serial.port_name@,
            );
        }
    }
    assert forall|a: usize, b: usize|
        #![trigger after[a], after[b]]
        after.contains_key(a) && after.contains_key(b) && a != b && after[a].serial.connected
            && after[b].serial.connected implies after[a].serial.port_name@
        != after[b].serial.port_name@ by {
        assert(motors.contains_key(a) && motors.contains_key(b));
        assert(motors[a].serial.port_name@ != motors[b].serial.port_name@);
    }
    let fewer = motors.remove(id);
    assert forall|other: usize| #[trigger]
        fewer.contains_key(other) && fewer[other].serial.connected implies port_listed(
        left,
        fewer[other].serial.port_name@,
    ) by {
        assert(after.contains_key(other));
        assert(after[other] == fewer[other]);
    }
    assert forall|a: usize, b: usize|
        #![trigger fewer[a], fewer[b]]
        fewer.contains_key(a) && fewer.contains_key(b) && a != b && fewer[a].serial.connected
            && fewer[b].serial.connected implies fewer[a].serial.port_name@
        != fewer[b].serial.port_name@ by {
        assert(motors.contains_key(a) && motors.contains_key(b));
        assert(motors[a].serial.port_name@ != motors[b].serial.port_name@);
    }
}

/// A motor with a fresh link on a port that was on no list, put under a
/// number that held no link, leaves ports and motors in agreement.
pub proof fn lemma_fresh_link_keeps_agreement(
    motors: Map<usize, Motor>,
    ports: Seq<String>,
    id: usize,
    added: Motor,
)
    requires
        links_agree(motors, ports),
        !(motors.contains_key(id) && motors[id].serial.connected),
        !port_listed(ports, added.serial.port_name@),
    ensures
        links_agree(motors.insert(id, added), ports.push(added.serial.port_name)),
{
    let after = motors.insert(id, added);
    let longer = ports.push(added.serial.port_name);
    assert(longer[ports.len() as int]@ == added.serial.port_name@);
    assert forall|other: usize| #[trigger]
        after.contains_key(other) && after[other].serial.connected implies port_listed(
        longer,
        after[other].serial.port_name@,
    ) by {
        if other != id {
            assert(motors.contains_key(other));
            let k = choose|k: int|
                0 <= k < ports.len() && (#[trigger] ports[k])@ == motors[other].serial.port_name@;
            assert(longer[k] == ports[k]);
        }
    }
    assert forall|a: usize, b: usize|
        #![trigger after[a], after[b]]
        after.contains_key(a) && after.contains_key(b) && a != b && after[a].serial.connected
            && after[b].serial.connected implies after[a].serial.port_name@
        != after[b].serial.port_name@ by {
        if a == id {
            assert(motors.contains_key(b));
        } else if b == id {
            assert(motors.contains_key(a));
        } else {
            assert(motors.contains_key(a) && motors.contains_key(b));
        }
    }
}

/// Why the registry refused.
#[derive(Debug, Copy, Clone, PartialEq, Eq, Structural)]
pub enum RegistryError {
    /// No motor stands under the number.
    UnknownMotor,
    /// The motor is running and has to be stopped first.
    StillRunning,
    /// The motor under the number holds a link already.
    AlreadyConnected,
    /// No link came about.
    Link(ConnectError),
}

impl RegistryError {
    /// The sentence shown for the error.
    pub open spec fn text(self) -> Seq<char> {
        match self {
            RegistryError::UnknownMotor => "There is no such motor"@,
            RegistryError::StillRunning => "The motor is running: stop it first"@,
            RegistryError::AlreadyConnected => "The motor is already connected"@,
            RegistryError::Link(reason) => reason.text(),
        }
    }

    /// A motor that still runs is a warning to the operator; everything
    /// else is an error.
    pub open spec fn kind(self) -> MessageKind {
        match self {
            RegistryError::StillRunning => MessageKind::Warning,
            _ => MessageKind::Error,
        }
    }

    /// What the refusal was about, as the first words of the message for an
    /// error.
    pub open spec fn headline(self) -> Seq<char> {
        match self {
            RegistryError::UnknownMotor => "Error while reaching the motor"@,
            RegistryError::StillRunning => "The motor is running: stop it first"@,
            RegistryError::AlreadyConnected => "Error while connecting to the serial port"@,
            RegistryError::Link(_) => "Error while connecting to the serial port"@,
        }
    }

    /// The message that tells the operator of the refusal: a warning with
    /// the sentence of the error for a motor that still runs, else an error
    /// with the headline and, as its cause, the sentence of the error.
    pub open spec fn notice_view(self, origin: Option<Seq<char>>) -> MessageView {
        MessageView {
            kind: self.kind(),
            message: self.headline(),
            error: if self == RegistryError::StillRunning {
                None
            } else {
                Some(self.text())
            },
            origin,
            duration: MOTOR_MESSAGE_SECONDS,
            is_waiting: false,
        }
    }

    /// The sentence shown for the error.
    pub fn message(&self) -> (text: String)
        ensures
            text@ == self.text(),
    {
        match self {
            RegistryError::UnknownMotor => "There is no such motor".to_owned(),
            RegistryError::StillRunning => "The motor is running: stop it first".to_owned(),
            RegistryError::AlreadyConnected => "The motor is already connected".to_owned(),
            RegistryError::Link(reason) => reason.message(),
        }
    }

    /// The message that tells the operator of the refusal, about the motor
    /// of the given name where it has one.
    pub fn notice(&self, origin: Option<String>) -> (message: Message)
        ensures
            message@ == self.notice_view(text_of(origin)),
    {
        match self {
            RegistryError::StillRunning => Message::new(
                MessageKind::Warning,
                "The motor is running: stop it first",
                None,
                origin,
                MOTOR_MESSAGE_SECONDS,
                false,
            ),
            RegistryError::UnknownMotor => Message::new(
                MessageKind::Error,
                "Error while reaching the motor",
                Some(self.message()),
                origin,
                MOTOR_MESSAGE_SECONDS,
                false,
            ),
            _ => Message::new(
                MessageKind::Error,
                "Error while connecting to the serial port",
                Some(self.message()),
                origin,
                MOTOR_MESSAGE_SECONDS,
                false,
            ),
        }
    }
}

/// What is done to all motors at once.
#[derive(Debug, Copy, Clone, PartialEq, Eq, Structural)]
pub enum Sweep {
    /// Start every motor that has a link and is at rest.
    Start,
    /// Stop every motor that runs.
    Stop,
    /// Stop every motor, running or not, and close every link.
    Emergency,
}

/// What the caller is to carry out for one motor after a sweep.
#[derive(Debug)]
pub enum SweepAnswer {
    /// The motor was started: the command frame to write, or the message
    /// to show where the motor had nothing to run.
    Started(Result<[u8; BYTES], Message>),
    /// The motor was stopped.
    Stopped(StopOrder),
    /// The motor was stopped and its link was closed.
    Halted(StopOrder, Disconnection),
}

/// The motors of one installation and the ports that they hold.
pub struct MotorRegistry {
    motors: DashMap<usize, Motor>,
    already_connected_ports: Vec<String>,
}

impl MotorRegistry {
    /// The motors, each under its number.
    pub closed spec fn motors(&self) -> Map<usize, Motor> {
        registered(self.motors)
    }

    /// The names of the ports that are taken.
    pub closed spec fn ports(&self) -> Seq<String> {
        self.already_connected_ports@
    }

    /// The motor under a number, if there is one.
    pub open spec fn lookup(&self, id: usize) -> Option<Motor> {
        motor_at(self.motors(), id)
    }

    /// Every motor with a link has its port on the list of ports that are
    /// taken, and no two motors with a link have the same port. This is
    /// true of an empty registry and stays true whatever is done to a
    /// registry.
    pub open spec fn ports_match_motors(&self) -> bool {
        links_agree(self.motors(), self.ports())
    }

    /// The registry is as `before` but for the motor under one number,
    /// which may have come, changed or stayed.
    pub open spec fn differs_at(&self, before: &MotorRegistry, id: usize) -> bool {
        self.motors().contains_key(id) && self.motors() == before.motors().insert(
            id,
            self.motors()[id],
        )
    }

    /// Motors and ports of the registry are those of `before`.
    pub open spec fn same_as(&self, before: &MotorRegistry) -> bool {
        self.motors() == before.motors() && self.ports() == before.ports()
    }

    /// The motor is freshly connected on the port under the name, at rest;
    /// it has the protocol, the curves and the step counts of `base` where
    /// there is one, and is else as every motor begins.
    pub open spec fn is_fresh_link(
        motor: Motor,
        port_name: Seq<char>,
        name: String,
        base: Option<Motor>,
    ) -> bool {
        &&& motor.name == name
        &&& !motor.is_running
        &&& motor.serial.connected
        &&& motor.serial.port_name@ == port_name
        &&& motor.serial.invalid_codes == 0
        &&& motor.serial.invalid_since == 0
        &&& motor.timers_and_phases == TimersAndPhases::idle()
        &&& match base {
            Some(b) => {
                &&& motor.protocol == b.protocol
                &&& motor.graph == b.graph
                &&& motor.steps_per_cycle == b.steps_per_cycle
            },
            None => motor.is_new(),
        }
    }

    /// What `create` answers for the motor that stands under the number,
    /// the ports that are taken, the port asked for and the handshake run
    /// on it.
    pub open spec fn create_verdict(
        standing: Option<Motor>,
        ports: Seq<String>,
        port_name: Seq<char>,
        handshake: Handshake,
    ) -> Result<(), RegistryError> {
        if standing matches Some(m) && m.serial.connected {
            Err(RegistryError::AlreadyConnected)
        } else if port_listed(ports, port_name) {
            Err(RegistryError::Link(ConnectError::PortInUse))
        } else {
            match handshake.stage {
                HandshakeStage::Connected => Ok(()),
                HandshakeStage::Failed(e) => Err(RegistryError::Link(e)),
                _ => Err(RegistryError::Link(ConnectError::Unfinished)),
            }
        }
    }

    /// Whether `remove` takes out the motor that stands under the number.
    pub open spec fn remove_verdict(standing: Option<Motor>) -> Result<(), RegistryError> {
        match standing {
            None => Err(RegistryError::UnknownMotor),
            Some(m) => if m.is_running {
                Err(RegistryError::StillRunning)
            } else {
                Ok(())
            },
        }
    }

    /// The orders are those that close the link of the motor, with the
    /// motor stopped first where it runs.
    pub open spec fn is_disconnection(motor: Motor, closed: Disconnection) -> bool {
        &&& closed.stop is Some <==> motor.is_running
        &&& closed.stop matches Some(order) ==> MotorRegistry::is_stop_order(motor, order)
        &&& closed.last_words is Some <==> motor.serial.connected
        &&& closed.last_words matches Some(bytes) ==> bytes@ == farewell_bytes()
        &&& closed.message@ == Motor::disconnected_message(motor.name@, motor.serial.port_name@)
    }

    /// The order is the one that stops the motor.
    pub open spec fn is_stop_order(motor: Motor, order: StopOrder) -> bool {
        order.command@ == stop_bytes() && order.message@ == Motor::stopped_message(motor.name@)
    }

    /// The answer is the one that a start gives for the motor.
    pub open spec fn is_start_answer(motor: Motor, answer: Result<[u8; BYTES], Message>) -> bool {
        &&& answer is Err <==> motor.has_nothing_to_run()
        &&& answer matches Err(message) ==> message@ == Motor::zero_duration_message(motor.name@)
        &&& answer matches Ok(frame) ==> frame@ == motor.protocol.normalized().wire()
    }

    /// A registry without motors and without ports.
    pub fn new() -> (registry: Self)
        ensures
            registry.motors() == no_motors(),
            registry.ports() == Seq::<String>::empty(),
            registry.ports_match_motors(),
    {
        MotorRegistry { motors: motors_new(), already_connected_ports: Vec::new() }
    }

    /// Tells whether a motor stands under the number.
    pub fn contains(&self, id: usize) -> (held: bool)
        ensures
            held == self.motors().contains_key(id),
    {
        motors_contains(&self.motors, id)
    }

    /// The numbers under which motors stand, each once, in no order that
    /// could be told beforehand.
    pub fn ids(&self) -> (ids: Vec<usize>)
        ensures
            ids@.no_duplicates(),
            forall|id: usize| ids@.contains(id) <==> self.motors().contains_key(id),
    {
        motors_ids(&self.motors)
    }

    /// A copy of the motor under a number, for reading.
    pub fn get(&self, id: usize) -> (copy: Option<Motor>)
        ensures
            copy is Some <==> self.motors().contains_key(id),
            copy matches Some(motor) ==> motor.mirrors(self.motors()[id]),
    {
        motors_peek(&self.motors, id)
    }

    /// Tells whether any motor has a link, as has to be known before the
    /// program may end.
    pub fn is_any_connected(&self) -> (any: bool)
        ensures
            any == exists|id: usize| #[trigger]
                self.motors().contains_key(id) && self.motors()[id].serial.connected,
    {
        let ids = motors_ids(&self.motors);
        let mut i: usize = 0;
        while i < ids.len()
            invariant
                i <= ids.len(),
                forall|id: usize| ids@.contains(id) <==> self.motors().contains_key(id),
                forall|k: int| 0 <= k < i ==> !(#[trigger] self.motors()[ids@[k]]).serial.connected,
            decreases ids.len() - i,
        {
            assert(ids@.contains(ids@[i as int]));
            match motors_peek(&self.motors, ids[i]) {
                Some(motor) => {
                    if motor.serial.connected {
                        return true;
                    }
                },
                None => {},
            }
            i = i + 1;
        }
        proof {
            assert forall|id: usize| #[trigger]
                self.motors().contains_key(id) implies !self.motors()[id].serial.connected by {
                assert(ids@.contains(id));
                let k = choose|k: int| 0 <= k < ids@.len() && ids@[k] == id;
                assert(!self.motors()[ids@[k]].serial.connected);
            }
        }
        false
    }

    /// Tells whether a port is held by a motor.
    pub fn is_port_taken(&self, port_name: &str) -> (taken: bool)
        ensures
            taken == port_listed(self.ports(), port_name@),
    {
        is_port_listed(&self.already_connected_ports, port_name)
    }

    /// The ports among `candidates` that no motor holds, in the order of
    /// `candidates`.
    pub fn free_ports(&self, candidates: &Vec<String>) -> (free: Vec<String>)
        ensures
            free@ == candidates@.filter(is_free_port(self.ports())),
    {
        available_ports(candidates, &self.already_connected_ports)
    }

    /// Takes the motor under a number out of the map for a moment.
    fn take(&mut self, id: usize) -> (motor: Option<Motor>)
        ensures
            motor == old(self).lookup(id),
            final(self).motors() == old(self).motors().remove(id),
            final(self).ports() == old(self).ports(),
            motor is None ==> final(self).motors() == old(self).motors(),
    {
        let motor = motors_remove(&mut self.motors, id);
        proof {
            if motor is None {
                assert(self.motors() =~= old(self).motors());
            }
        }
        motor
    }

    /// Puts a motor under a number.
    fn put(&mut self, id: usize, motor: Motor)
        ensures
            final(self).motors() == old(self).motors().insert(id, motor),
            final(self).ports() == old(self).ports(),
    {
        motors_insert(&mut self.motors, id, motor);
    }

    /// Puts back a motor that was taken out and has changed, its link left
    /// as it was.
    fn put_back(&mut self, id: usize, motor: Motor, Ghost(before): Ghost<MotorRegistry>)
        requires
            before.motors().contains_key(id),
            old(self).motors() == before.motors().remove(id),
            old(self).ports() == before.ports(),
            motor.serial.connected == before.motors()[id].serial.connected,
            motor.serial.port_name == before.motors()[id].serial.port_name,
        ensures
            final(self).motors() == before.motors().insert(id, motor),
            final(self).differs_at(&before, id),
            final(self).ports() == before.ports(),
            before.ports_match_motors() ==> final(self).ports_match_motors(),
    {
        motors_insert(&mut self.motors, id, motor);
        proof {
            assert(self.motors() =~= before.motors().insert(id, motor));
            if before.ports_match_motors() {
                lemma_same_link_keeps_agreement(before.motors(), before.ports(), id, motor);
            }
        }
    }

    /// Puts a motor without a link under a number, in place of whatever
    /// stood there. A motor with a link that stood there stays, and the new
    /// one is refused.
    pub fn add(&mut self, id: usize, name: String) -> (added: Result<(), RegistryError>)
        ensures
            added is Err <==> (old(self).lookup(id) matches Some(m) && m.serial.connected),
            added matches Err(e) ==> e == RegistryError::AlreadyConnected && final(self).same_as(
                &*old(self),
            ),
            added is Ok ==> {
                &&& final(self).differs_at(&*old(self), id)
                &&& final(self).ports() == old(self).ports()
                &&& final(self).motors()[id].is_new()
                &&& final(self).motors()[id].name == name
                &&& !final(self).motors()[id].serial.connected
                &&& final(self).motors()[id].serial.port_name@ == Seq::<char>::empty()
            },
            old(self).ports_match_motors() ==> final(self).ports_match_motors(),
    {
        let ghost before = *self;
        match self.take(id) {
            Some(standing) => {
                if standing.serial.connected {
                    self.put_back(id, standing, Ghost(before));
                    assert(self.motors() =~= before.motors());
                    return Err(RegistryError::AlreadyConnected);
                }
            },
            None => {},
        }
        let mut motor = Motor::default();
        motor.name = name;
        self.put(id, motor);
        proof {
            assert(self.motors() =~= before.motors().insert(id, motor));
            if before.ports_match_motors() {
                assert forall|other: usize| #[trigger]
                    self.motors().contains_key(other)
                        && self.motors()[other].serial.connected implies port_listed(
                    self.ports(),
                    self.motors()[other].serial.port_name@,
                ) by {
                    assert(before.motors().contains_key(other));
                }
                assert forall|a: usize, b: usize|
                    #![trigger self.motors()[a], self.motors()[b]]
                    self.motors().contains_key(a) && self.motors().contains_key(b) && a != b
                        && self.motors()[a].serial.connected
                        && self.motors()[b].serial.connected implies self.motors()[a].serial.port_name@
                    != self.motors()[b].serial.port_name@ by {
                    assert(before.motors().contains_key(a) && before.motors().contains_key(b));
                }
            }
        }
        Ok(())
    }

    /// Puts a freshly connected motor under a number.
    ///
    /// The caller has run the handshake on the port. The motor is refused,
    /// and nothing changes, where a motor with a link stands under the
    /// number (`AlreadyConnected`), else where the port is held by a motor
    /// (`Link(PortInUse)`), else where the handshake did not end with the
    /// answer of the board (`Link` of the error that ended it, or of
    /// `Unfinished`). Otherwise the motor stands under the number, with the
    /// protocol, curves and step counts of the motor without a link that
    /// stood there, if one did, and its port is on the list of ports that
    /// are taken.
    pub fn create(
        &mut self,
        id: usize,
        port_name: String,
        name: String,
        handshake: &Handshake,
    ) -> (made: Result<(), RegistryError>)
        ensures
            made == MotorRegistry::create_verdict(
                old(self).lookup(id),
                old(self).ports(),
                port_name@,
                *handshake,
            ),
            made is Err ==> final(self).same_as(&*old(self)),
            made is Ok ==> {
                &&& final(self).differs_at(&*old(self), id)
                &&& MotorRegistry::is_fresh_link(
                    final(self).motors()[id],
                    port_name@,
                    name,
                    old(self).lookup(id),
                )
                &&& final(self).ports() == old(self).ports().push(
                    final(self).motors()[id].serial.port_name,
                )
                &&& port_listed(final(self).ports(), port_name@)
            },
            old(self).ports_match_motors() ==> final(self).ports_match_motors(),
    {
        let ghost before = *self;
        let standing = self.take(id);
        let refusal = match &standing {
            Some(motor) if motor.serial.connected => Some(RegistryError::AlreadyConnected),
            _ => if is_port_listed(&self.already_connected_ports, port_name.as_str()) {
                Some(RegistryError::Link(ConnectError::PortInUse))
            } else {
                match handshake.error() {
                    Some(reason) => Some(RegistryError::Link(reason)),
                    None => None,
                }
            },
        };
        match refusal {
            Some(reason) => {
                match standing {
                    Some(motor) => {
                        self.put_back(id, motor, Ghost(before));
                        assert(self.motors() =~= before.motors());
                    },
                    None => {},
                }
                Err(reason)
            },
            None => {
                let made = match standing {
                    Some(base) => Motor::new_with_already_loaded_protocol(
                        port_name,
                        name,
                        &mut self.already_connected_ports,
                        handshake,
                        base.protocol,
                        base.graph,
                        base.steps_per_cycle,
                    ),
                    None => Motor::new(
                        port_name,
                        name,
                        &mut self.already_connected_ports,
                        handshake,
                    ),
                };
                match made {
                    Ok(motor) => {
                        self.put(id, motor);
                        proof {
                            assert(self.motors() =~= before.motors().insert(id, motor));
                            if before.ports_match_motors() {
                                lemma_fresh_link_keeps_agreement(
                                    before.motors(),
                                    before.ports(),
                                    id,
                                    motor,
                                );
                            }
                        }
                        Ok(())
                    },
                    Err(reason) => {
                        assert(false);
                        Err(RegistryError::Link(reason))
                    },
                }
            },
        }
    }

    /// Takes a motor out of the registry at `now_ms`.
    ///
    /// A motor that is running is not to be left alone: it stays, nothing
    /// changes, and the answer is `StillRunning`. A motor at rest has its
    /// link closed and its port given back, and is gone from the registry;
    /// what the caller is to write and to show is returned.
    pub fn remove(&mut self, id: usize, now_ms: u64) -> (removed: Result<
        Disconnection,
        RegistryError,
    >)
        ensures
            removed is Ok <==> MotorRegistry::remove_verdict(old(self).lookup(id)) is Ok,
            removed matches Err(e) ==> {
                &&& MotorRegistry::remove_verdict(old(self).lookup(id)) == Err::<
                    (),
                    RegistryError,
                >(e)
                &&& final(self).same_as(&*old(self))
            },
            removed matches Ok(closed) ==> {
                &&& final(self).motors() == old(self).motors().remove(id)
                &&& final(self).ports() == Motor::ports_after_disconnect(
                    old(self).motors()[id],
                    old(self).ports(),
                )
                &&& old(self).motors()[id].serial.connected ==> !port_listed(
                    final(self).ports(),
                    old(self).motors()[id].serial.port_name@,
                )
                &&& MotorRegistry::is_disconnection(old(self).motors()[id], closed)
            },
            old(self).ports_match_motors() ==> final(self).ports_match_motors(),
    {
        let ghost before = *self;
        match self.take(id) {
            None => Err(RegistryError::UnknownMotor),
            Some(motor) => {
                if motor.is_running {
                    self.put_back(id, motor, Ghost(before));
                    assert(self.motors() =~= before.motors());
                    Err(RegistryError::StillRunning)
                } else {
                    let mut motor = motor;
                    let closed = motor.disconnect(&mut self.already_connected_ports, now_ms);
                    proof {
                        if before.ports_match_motors() {
                            lemma_closed_link_keeps_agreement(
                                before.motors(),
                                before.ports(),
                                id,
                                motor,
                            );
                        }
                    }
                    Ok(closed)
                }
            },
        }
    }

    /// Closes the link of the motor under a number at `now_ms`; the motor
    /// stays in the registry. See `Motor::disconnect`. Without a motor
    /// under the number nothing happens.
    pub fn disconnect(&mut self, id: usize, now_ms: u64) -> (closed: Option<Disconnection>)
        ensures
            closed is Some <==> old(self).motors().contains_key(id),
            closed is None ==> final(self).same_as(&*old(self)),
            closed matches Some(c) ==> {
                &&& final(self).differs_at(&*old(self), id)
                &&& final(self).motors()[id].is_disconnected_from(old(self).motors()[id], now_ms)
                &&& final(self).ports() == Motor::ports_after_disconnect(
                    old(self).motors()[id],
                    old(self).ports(),
                )
                &&& MotorRegistry::is_disconnection(old(self).motors()[id], c)
            },
            old(self).ports_match_motors() ==> final(self).ports_match_motors(),
    {
        let ghost before = *self;
        match self.take(id) {
            None => None,
            Some(motor) => {
                let mut motor = motor;
                let closed = motor.disconnect(&mut self.already_connected_ports, now_ms);
                self.put(id, motor);
                proof {
                    assert(self.motors() =~= before.motors().insert(id, motor));
                    if before.ports_match_motors() {
                        lemma_closed_link_keeps_agreement(
                            before.motors(),
                            before.ports(),
                            id,
                            motor,
                        );
                    }
                }
                Some(closed)
            },
        }
    }

    /// Starts the motor under a number at `now_ms`: see
    /// `Motor::start_motor`. Without a motor under the number nothing
    /// happens.
    pub fn start(&mut self, id: usize, now_ms: u64) -> (started: Option<
        Result<[u8; BYTES], Message>,
    >)
        ensures
            final(self).motors() == match old(self).lookup(id) {
                Some(m) => old(self).motors().insert(id, m.started(now_ms)),
                None => old(self).motors(),
            },
            final(self).ports() == old(self).ports(),
            started is Some <==> old(self).motors().contains_key(id),
            started matches Some(answer) ==> MotorRegistry::is_start_answer(
                old(self).motors()[id],
                answer,
            ),
            old(self).ports_match_motors() ==> final(self).ports_match_motors(),
    {
        let ghost before = *self;
        match self.take(id) {
            None => None,
            Some(motor) => {
                let mut motor = motor;
                let answer = motor.start_motor(now_ms);
                self.put_back(id, motor, Ghost(before));
                Some(answer)
            },
        }
    }

    /// Stops the motor under a number at `now_ms`: see `Motor::stop_motor`.
    /// Without a motor under the number nothing happens.
    pub fn stop(&mut self, id: usize, now_ms: u64) -> (order: Option<StopOrder>)
        ensures
            final(self).motors() == match old(self).lookup(id) {
                Some(m) => old(self).motors().insert(id, m.stopped(now_ms)),
                None => old(self).motors(),
            },
            final(self).ports() == old(self).ports(),
            order is Some <==> old(self).motors().contains_key(id),
            order matches Some(o) ==> MotorRegistry::is_stop_order(old(self).motors()[id], o),
            old(self).ports_match_motors() ==> final(self).ports_match_motors(),
    {
        let ghost before = *self;
        match self.take(id) {
            None => None,
            Some(motor) => {
                let mut motor = motor;
                let order = motor.stop_motor(now_ms);
                self.put_back(id, motor, Ghost(before));
                Some(order)
            },
        }
    }

    /// One turn of the listener of the motor under a number: see
    /// `Motor::listen`. Without a motor under the number nothing happens.
    pub fn listen(&mut self, id: usize, poll: Poll, now_ms: u64) -> (turn: Option<ListenerTurn>)
        ensures
            final(self).motors() == match old(self).lookup(id) {
                Some(m) => old(self).motors().insert(id, m.after_poll(poll, now_ms)),
                None => old(self).motors(),
            },
            final(self).ports() == old(self).ports(),
            turn is Some <==> old(self).motors().contains_key(id),
            turn matches Some(t) ==> {
                &&& t.action == old(self).motors()[id].poll_action(poll, now_ms)
                &&& Serial::message_view(t.message) == old(self).motors()[id].poll_message(
                    poll,
                    now_ms,
                )
            },
            old(self).ports_match_motors() ==> final(self).ports_match_motors(),
    {
        let ghost before = *self;
        match self.take(id) {
            None => None,
            Some(motor) => {
                let mut motor = motor;
                let turn = motor.listen(poll, now_ms);
                self.put_back(id, motor, Ghost(before));
                Some(turn)
            },
        }
    }

    /// Hands a protocol to the motor under a number: see
    /// `Motor::import_protocol`. Without a motor under the number nothing
    /// happens.
    pub fn import_protocol(&mut self, id: usize, protocol: Protocol) -> (imported: Option<
        Result<(GraphJob, GraphJob), ValidationError>,
    >)
        ensures
            final(self).ports() == old(self).ports(),
            imported is Some <==> old(self).motors().contains_key(id),
            imported is None ==> final(self).same_as(&*old(self)),
            imported matches Some(answer) ==> {
                &&& answer is Ok <==> protocol.valid()
                &&& answer matches Err(e) ==> {
                    &&& protocol.first_violation() == Some(e)
                    &&& final(self).same_as(&*old(self))
                }
                &&& answer matches Ok(jobs) ==> {
                    &&& final(self).differs_at(&*old(self), id)
                    &&& final(self).motors()[id].has_imported(old(self).motors()[id], protocol)
                    &&& final(self).motors()[id].jobs_match(jobs)
                }
            },
            old(self).ports_match_motors() ==> final(self).ports_match_motors(),
    {
        let ghost before = *self;
        match self.take(id) {
            None => None,
            Some(motor) => {
                let mut motor = motor;
                let answer = motor.import_protocol(protocol);
                self.put_back(id, motor, Ghost(before));
                proof {
                    if answer is Err {
                        assert(self.motors() =~= before.motors());
                    }
                }
                Some(answer)
            },
        }
    }

    /// Asks for the speed curve of an axis of the motor under a number
    /// anew: see `Motor::generate_graph`. Without a motor under the number
    /// nothing happens.
    pub fn generate_graph(&mut self, id: usize, axis: Axis) -> (job: Option<GraphJob>)
        ensures
            final(self).ports() == old(self).ports(),
            !old(self).motors().contains_key(id) ==> job is None && final(self).same_as(
                &*old(self),
            ),
            old(self).motors().contains_key(id) ==> {
                &&& final(self).differs_at(&*old(self), id)
                &&& final(self).motors()[id].is_same_but_curve(old(self).motors()[id], axis)
                &&& final(self).motors()[id].steps_per_cycle
                    == old(self).motors()[id].steps_per_cycle
                &&& final(self).motors()[id].graph.curve(axis)@ == (ProfileView {
                    generating: job is Some,
                    ..old(self).motors()[id].graph.curve(axis)@.regenerated()
                })
                &&& job == old(self).motors()[id].job_plan(
                    axis,
                    final(self).motors()[id].graph.curve(axis)@.generation,
                )
            },
            old(self).ports_match_motors() ==> final(self).ports_match_motors(),
    {
        let ghost before = *self;
        match self.take(id) {
            None => None,
            Some(motor) => {
                let mut motor = motor;
                let job = motor.generate_graph(axis);
                self.put_back(id, motor, Ghost(before));
                job
            },
        }
    }

    /// Offers the next step of a worker to the curve of an axis of the
    /// motor under a number: see `Motor::record_step`. Without a motor under
    /// the number the worker is turned away.
    pub fn record_step(
        &mut self,
        id: usize,
        axis: Axis,
        worker: &mut ProfileSampler,
        delay_us: u64,
        current_step: u64,
    ) -> (outcome: StepOutcome)
        ensures
            final(self).ports() == old(self).ports(),
            !old(self).motors().contains_key(id) ==> {
                &&& outcome == StepOutcome::Stale
                &&& *final(worker) == *old(worker)
                &&& final(self).same_as(&*old(self))
            },
            old(self).motors().contains_key(id) ==> {
                &&& final(self).differs_at(&*old(self), id)
                &&& final(self).motors()[id].is_same_but_curve(old(self).motors()[id], axis)
                &&& outcome == old(self).motors()[id].graph.curve(axis)@.outcome(
                    *old(worker),
                    delay_us,
                )
                &&& final(self).motors()[id].graph.curve(axis)@
                    == old(self).motors()[id].graph.curve(axis)@.after_step(*old(worker), delay_us)
                &&& *final(worker) == old(self).motors()[id].graph.curve(axis)@.worker_after_step(
                    *old(worker),
                    delay_us,
                )
                &&& final(self).motors()[id].steps_per_cycle == if outcome == StepOutcome::Stale {
                    old(self).motors()[id].steps_per_cycle
                } else {
                    old(self).motors()[id].steps_per_cycle.with_steps(axis, current_step)
                }
            },
            old(self).ports_match_motors() ==> final(self).ports_match_motors(),
    {
        let ghost before = *self;
        match self.take(id) {
            None => StepOutcome::Stale,
            Some(motor) => {
                let mut motor = motor;
                let outcome = motor.record_step(axis, worker, delay_us, current_step);
                self.put_back(id, motor, Ghost(before));
                outcome
            },
        }
    }

    /// Takes note that the worker of an axis of the motor under a number is
    /// done: see `Motor::finish_graph`.
    pub fn finish_graph(&mut self, id: usize, axis: Axis, worker: &ProfileSampler)
        ensures
            final(self).ports() == old(self).ports(),
            !old(self).motors().contains_key(id) ==> final(self).same_as(&*old(self)),
            old(self).motors().contains_key(id) ==> {
                &&& final(self).differs_at(&*old(self), id)
                &&& final(self).motors()[id].is_same_but_curve(old(self).motors()[id], axis)
                &&& final(self).motors()[id].steps_per_cycle
                    == old(self).motors()[id].steps_per_cycle
                &&& final(self).motors()[id].graph.curve(axis)@
                    == old(self).motors()[id].graph.curve(axis)@.finished(*worker)
            },
            old(self).ports_match_motors() ==> final(self).ports_match_motors(),
    {
        let ghost before = *self;
        match self.take(id) {
            None => {},
            Some(motor) => {
                let mut motor = motor;
                motor.finish_graph(axis, worker);
                self.put_back(id, motor, Ghost(before));
            },
        }
    }

    /// A sweep has something to do for the motor.
    pub open spec fn concerns(sweep: Sweep, motor: Motor) -> bool {
        match sweep {
            Sweep::Start => motor.serial.connected && !motor.is_running,
            Sweep::Stop => motor.is_running,
            Sweep::Emergency => true,
        }
    }

    /// The motor `after` is what a sweep at `now` leaves of `before`: the
    /// motor as it was where the sweep does not concern it; else the motor
    /// started, or stopped, or stopped and left without a link.
    pub open spec fn is_swept(sweep: Sweep, before: Motor, after: Motor, now: u64) -> bool {
        if !MotorRegistry::concerns(sweep, before) {
            after == before
        } else {
            match sweep {
                Sweep::Start => after == before.started(now),
                Sweep::Stop => after == before.stopped(now),
                Sweep::Emergency => after.is_disconnected_from(before.stopped(now), now),
            }
        }
    }

    /// The answer is the one that a sweep gives for a motor that it
    /// concerns.
    pub open spec fn is_sweep_answer(sweep: Sweep, motor: Motor, answer: SweepAnswer) -> bool {
        match sweep {
            Sweep::Start => answer matches SweepAnswer::Started(a)
                && MotorRegistry::is_start_answer(motor, a),
            Sweep::Stop => answer matches SweepAnswer::Stopped(order)
                && MotorRegistry::is_stop_order(motor, order),
            Sweep::Emergency => answer matches SweepAnswer::Halted(order, closed) && {
                &&& MotorRegistry::is_stop_order(motor, order)
                &&& MotorRegistry::is_disconnection(Motor { is_running: false, ..motor }, closed)
            },
        }
    }

    /// One of the first `count` motors on the list `ids` has a link and
    /// holds the port of this name.
    pub open spec fn held_among(
        motors: Map<usize, Motor>,
        ids: Seq<usize>,
        count: int,
        name: Seq<char>,
    ) -> bool {
        exists|k: int|
            0 <= k < count && (#[trigger] motors[ids[k]]).serial.connected
                && motors[ids[k]].serial.port_name@ == name
    }

    /// Does to one motor what a sweep does.
    fn sweep_one(
        motor: &mut Motor,
        ports: &mut Vec<String>,
        sweep: Sweep,
        now_ms: u64,
    ) -> (answer: Option<SweepAnswer>)
        ensures
            MotorRegistry::is_swept(sweep, *old(motor), *final(motor), now_ms),
            answer is Some <==> MotorRegistry::concerns(sweep, *old(motor)),
            answer matches Some(a) ==> MotorRegistry::is_sweep_answer(sweep, *old(motor), a),
            final(ports)@ == if sweep == Sweep::Emergency {
                Motor::ports_after_disconnect(*old(motor), old(ports)@)
            } else {
                old(ports)@
            },
            sweep != Sweep::Emergency ==> final(motor).serial == old(motor).serial,
    {
        match sweep {
            Sweep::Start => {
                if motor.serial.connected && !motor.is_running {
                    Some(SweepAnswer::Started(motor.start_motor(now_ms)))
                } else {
                    None
                }
            },
            Sweep::Stop => {
                if motor.is_running {
                    Some(SweepAnswer::Stopped(motor.stop_motor(now_ms)))
                } else {
                    None
                }
            },
            Sweep::Emergency => {
                let order = motor.stop_motor(now_ms);
                let closed = motor.disconnect(ports, now_ms);
                Some(SweepAnswer::Halted(order, closed))
            },
        }
    }

    /// Does to the motor under a number what a sweep does to each motor, at
    /// `now_ms`, and returns what the caller is to carry out for it where
    /// the sweep concerns it. Without a motor under the number nothing
    /// happens.
    ///
    /// A caller that shares the registry can sweep it motor by motor with
    /// this, over the numbers that `ids` gives, and let go of the registry
    /// between two motors.
    pub fn sweep_at(&mut self, id: usize, sweep: Sweep, now_ms: u64) -> (answer: Option<
        SweepAnswer,
    >)
        ensures
            !old(self).motors().contains_key(id) ==> answer is None && final(self).same_as(
                &*old(self),
            ),
            old(self).motors().contains_key(id) ==> {
                &&& final(self).differs_at(&*old(self), id)
                &&& MotorRegistry::is_swept(
                    sweep,
                    old(self).motors()[id],
                    final(self).motors()[id],
                    now_ms,
                )
                &&& answer is Some <==> MotorRegistry::concerns(sweep, old(self).motors()[id])
                &&& answer matches Some(a) ==> MotorRegistry::is_sweep_answer(
                    sweep,
                    old(self).motors()[id],
                    a,
                )
                &&& final(self).ports() == if sweep == Sweep::Emergency {
                    Motor::ports_after_disconnect(old(self).motors()[id], old(self).ports())
                } else {
                    old(self).ports()
                }
            },
            old(self).ports_match_motors() ==> final(self).ports_match_motors(),
    {
        let ghost before = *self;
        match self.take(id) {
            None => None,
            Some(motor) => {
                let mut motor = motor;
                let answer = MotorRegistry::sweep_one(
                    &mut motor,
                    &mut self.already_connected_ports,
                    sweep,
                    now_ms,
                );
                self.put(id, motor);
                proof {
                    assert(self.motors() =~= before.motors().insert(id, motor));
                    if before.ports_match_motors() {
                        if sweep == Sweep::Emergency {
                            lemma_closed_link_keeps_agreement(
                                before.motors(),
                                before.ports(),
                                id,
                                motor,
                            );
                        } else {
                            lemma_same_link_keeps_agreement(
                                before.motors(),
                                before.ports(),
                                id,
                                motor,
                            );
                        }
                    }
                }
                answer
            },
        }
    }

    /// Does to every motor what the sweep asks for, at `now_ms`, and
    /// returns for each motor concerned its number with what the caller is
    /// to carry out for it, each number once.
    ///
    /// The motors that the sweep does not concern stay as they are. The
    /// ports stay as they are but in an emergency, which takes the port of
    /// every motor with a link off the list.
    pub fn sweep(&mut self, sweep: Sweep, now_ms: u64) -> (answers: Vec<(usize, SweepAnswer)>)
        ensures
            final(self).motors().dom() == old(self).motors().dom(),
            forall|id: usize| #[trigger]
                old(self).motors().contains_key(id) ==> MotorRegistry::is_swept(
                    sweep,
                    old(self).motors()[id],
                    final(self).motors()[id],
                    now_ms,
                ),
            sweep != Sweep::Emergency ==> final(self).ports() == old(self).ports(),
            forall|name: Seq<char>| #[trigger]
                port_listed(final(self).ports(), name) <==> port_listed(old(self).ports(), name)
                    && !(sweep == Sweep::Emergency && held_by_some(old(self).motors(), name)),
            forall|k: int|
                0 <= k < answers@.len() ==> {
                    &&& old(self).motors().contains_key((#[trigger] answers@[k]).0)
                    &&& MotorRegistry::concerns(sweep, old(self).motors()[answers@[k].0])
                    &&& MotorRegistry::is_sweep_answer(
                        sweep,
                        old(self).motors()[answers@[k].0],
                        answers@[k].1,
                    )
                },
            forall|id: usize| #[trigger]
                old(self).motors().contains_key(id) && MotorRegistry::concerns(
                    sweep,
                    old(self).motors()[id],
                ) ==> exists|k: int| 0 <= k < answers@.len() && (#[trigger] answers@[k]).0 == id,
            forall|j: int, k: int|
                0 <= j < k < answers@.len() ==> (#[trigger] answers@[j]).0 != (
                #[trigger] answers@[k]).0,
            sweep == Sweep::Emergency || old(self).ports_match_motors()
                ==> final(self).ports_match_motors(),
    {
        let ghost before = *self;
        let ids = motors_ids(&self.motors);
        let mut answers: Vec<(usize, SweepAnswer)> = Vec::new();
        // For each answer, the place on `ids` of the motor that it is for.
        let ghost mut at: Seq<int> = Seq::empty();
        let mut i: usize = 0;
        while i < ids.len()
            invariant
                i <= ids.len(),
                ids@.no_duplicates(),
                forall|id: usize| ids@.contains(id) <==> before.motors().contains_key(id),
                self.motors().dom() == before.motors().dom(),
                forall|k: int|
                    0 <= k < i ==> MotorRegistry::is_swept(
                        sweep,
                        before.motors()[ids@[k]],
                        #[trigger] self.motors()[ids@[k]],
                        now_ms,
                    ),
                forall|k: int|
                    i <= k < ids@.len() ==> #[trigger] self.motors()[ids@[k]]
                        == before.motors()[ids@[k]],
                sweep != Sweep::Emergency ==> self.ports() == before.ports(),
                forall|name: Seq<char>| #[trigger]
                    port_listed(self.ports(), name) <==> port_listed(before.ports(), name) && !(
                    sweep == Sweep::Emergency && MotorRegistry::held_among(
                        before.motors(),
                        ids@,
                        i as int,
                        name,
                    )),
                at.len() == answers@.len(),
                forall|j: int|
                    0 <= j < at.len() ==> {
                        &&& 0 <= (#[trigger] at[j]) < i
                        &&& answers@[j].0 == ids@[at[j]]
                        &&& MotorRegistry::concerns(sweep, before.motors()[ids@[at[j]]])
                        &&& MotorRegistry::is_sweep_answer(
                            sweep,
                            before.motors()[ids@[at[j]]],
                            answers@[j].1,
                        )
                    },
                forall|j: int, k: int|
                    0 <= j < k < at.len() ==> (#[trigger] at[j]) < (#[trigger] at[k]),
                forall|k: int|
                    0 <= k < i && MotorRegistry::concerns(sweep, #[trigger] before.motors()[ids@[k]])
                        ==> exists|j: int| 0 <= j < at.len() && #[trigger] at[j] == k,
                sweep != Sweep::Emergency && before.ports_match_motors() ==> links_agree(
                    self.motors(),
                    self.ports(),
                ),
            decreases ids.len() - i,
        {
            let id = ids[i];
            let ghost reached = *self;
            assert(ids@.contains(ids@[i as int]));
            match self.take(id) {
                None => {
                    assert(false);
                },
                Some(motor) => {
                    let mut motor = motor;
                    let ghost was = motor;
                    let answer = MotorRegistry::sweep_one(
                        &mut motor,
                        &mut self.already_connected_ports,
                        sweep,
                        now_ms,
                    );
                    match answer {
                        Some(answer) => {
                            answers.push((id, answer));
                            proof {
                                let earlier = at;
                                at = at.push(i as int);
                                assert forall|k: int|
                                    0 <= k < i + 1 && MotorRegistry::concerns(
                                        sweep,
                                        #[trigger] before.motors()[ids@[k]],
                                    ) implies exists|j: int|
                                    0 <= j < at.len() && #[trigger] at[j] == k by {
                                    if k < i {
                                        let j = choose|j: int|
                                            0 <= j < earlier.len() && #[trigger] earlier[j] == k;
                                        assert(at[j] == k);
                                    } else {
                                        assert(at[at.len() - 1] == k);
                                    }
                                }
                            }
                        },
                        None => {},
                    }
                    self.put(id, motor);
                    proof {
                        assert(self.motors() =~= reached.motors().insert(id, motor));
                        assert(self.motors().dom() =~= before.motors().dom());
                        assert forall|k: int| 0 <= k < i + 1 implies MotorRegistry::is_swept(
                            sweep,
                            before.motors()[ids@[k]],
                            #[trigger] self.motors()[ids@[k]],
                            now_ms,
                        ) by {
                            if k < i {
                                assert(ids@[k] != ids@[i as int]);
                                assert(self.motors()[ids@[k]] == reached.motors()[ids@[k]]);
                            }
                        }
                        assert forall|k: int| i + 1 <= k < ids@.len() implies #[trigger] self.motors()[ids@[k]]
                            == before.motors()[ids@[k]] by {
                            assert(ids@[k] != ids@[i as int]);
                        }
                        if sweep != Sweep::Emergency && before.ports_match_motors() {
                            lemma_same_link_keeps_agreement(
                                reached.motors(),
                                reached.ports(),
                                id,
                                motor,
                            );
                        }
                        assert forall|name: Seq<char>| #[trigger]
                            port_listed(self.ports(), name) <==> port_listed(before.ports(), name)
                                && !(sweep == Sweep::Emergency && MotorRegistry::held_among(
                                before.motors(),
                                ids@,
                                i + 1,
                                name,
                            )) by {
                            MotorRegistry::lemma_one_more_port_released(
                                before.motors(),
                                ids@,
                                i as int,
                                name,
                            );
                            if sweep == Sweep::Emergency && was.serial.connected {
                                lemma_release_listing(reached.ports(), was.serial.port_name@, name);
                            }
                        }
                    }
                },
            }
            i = i + 1;
        }
        proof {
            assert forall|id: usize| #[trigger]
                before.motors().contains_key(id) implies MotorRegistry::is_swept(
                sweep,
                before.motors()[id],
                self.motors()[id],
                now_ms,
            ) by {
                assert(ids@.contains(id));
                let k = choose|k: int| 0 <= k < ids@.len() && ids@[k] == id;
                assert(MotorRegistry::is_swept(
                    sweep,
                    before.motors()[ids@[k]],
                    self.motors()[ids@[k]],
                    now_ms,
                ));
            }
            assert forall|name: Seq<char>| #[trigger]
                port_listed(self.ports(), name) <==> port_listed(before.ports(), name) && !(sweep
                    == Sweep::Emergency && held_by_some(before.motors(), name)) by {
                MotorRegistry::lemma_held_among_all(before.motors(), ids@, name);
            }
            assert forall|k: int| 0 <= k < answers@.len() implies {
                &&& before.motors().contains_key((#[trigger] answers@[k]).0)
                &&& MotorRegistry::concerns(sweep, before.motors()[answers@[k].0])
                &&& MotorRegistry::is_sweep_answer(
                    sweep,
                    before.motors()[answers@[k].0],
                    answers@[k].1,
                )
            } by {
                assert(0 <= at[k] < i);
                assert(ids@.contains(ids@[at[k]]));
            }
            assert forall|id: usize| #[trigger]
                before.motors().contains_key(id) && MotorRegistry::concerns(
                    sweep,
                    before.motors()[id],
                ) implies exists|k: int| 0 <= k < answers@.len() && (#[trigger] answers@[k]).0
                == id by {
                assert(ids@.contains(id));
                let k = choose|k: int| 0 <= k < ids@.len() && ids@[k] == id;
                assert(MotorRegistry::concerns(sweep, before.motors()[ids@[k]]));
                let j = choose|j: int| 0 <= j < at.len() && #[trigger] at[j] == k;
                assert(answers@[j].0 == id);
            }
            assert forall|j: int, k: int| 0 <= j < k < answers@.len() implies (
            #[trigger] answers@[j]).0 != (#[trigger] answers@[k]).0 by {
                assert(at[j] < at[k]);
            }
            if sweep == Sweep::Emergency {
                assert forall|id: usize| #[trigger]
                    self.motors().contains_key(id) implies !self.motors()[id].serial.connected by {
                    assert(before.motors().contains_key(id));
                }
            }
        }
        answers
    }

    /// A port is held by one of the first `count + 1` motors of a list if
    /// it is held by one of the first `count` or by the one after them.
    proof fn lemma_one_more_port_released(
        motors: Map<usize, Motor>,
        ids: Seq<usize>,
        count: int,
        name: Seq<char>,
    )
        requires
            0 <= count < ids.len(),
        ensures
            MotorRegistry::held_among(motors, ids, count + 1, name) <==> MotorRegistry::held_among(
                motors,
                ids,
                count,
                name,
            ) || (motors[ids[count]].serial.connected && motors[ids[count]].serial.port_name@
                == name),
    {
        if MotorRegistry::held_among(motors, ids, count + 1, name) {
            let k = choose|k: int|
                0 <= k < count + 1 && (#[trigger] motors[ids[k]]).serial.connected
                    && motors[ids[k]].serial.port_name@ == name;
            if k < count {
                assert(MotorRegistry::held_among(motors, ids, count, name));
            }
        }
        if MotorRegistry::held_among(motors, ids, count, name) {
            let k = choose|k: int|
                0 <= k < count && (#[trigger] motors[ids[k]]).serial.connected
                    && motors[ids[k]].serial.port_name@ == name;
            assert(0 <= k < count + 1);
        }
        if motors[ids[count]].serial.connected && motors[ids[count]].serial.port_name@ == name {
            assert(MotorRegistry::held_among(motors, ids, count + 1, name));
        }
    }

    /// A port is held by some motor exactly if it is held by one on a list
    /// of all the numbers under which motors stand.
    proof fn lemma_held_among_all(motors: Map<usize, Motor>, ids: Seq<usize>, name: Seq<char>)
        requires
            forall|id: usize| ids.contains(id) <==> motors.contains_key(id),
        ensures
            MotorRegistry::held_among(motors, ids, ids.len() as int, name) <==> held_by_some(
                motors,
                name,
            ),
    {
        if held_by_some(motors, name) {
            let id = choose|id: usize| #[trigger]
                motors.contains_key(id) && motors[id].serial.connected
                    && motors[id].serial.port_name@ == name;
            assert(ids.contains(id));
            let k = choose|k: int| 0 <= k < ids.len() && ids[k] == id;
            assert(motors[ids[k]].serial.connected);
        }
        if MotorRegistry::held_among(motors, ids, ids.len() as int, name) {
            let k = choose|k: int|
                0 <= k < ids.len() && (#[trigger] motors[ids[k]]).serial.connected
                    && motors[ids[k]].serial.port_name@ == name;
            assert(ids.contains(ids[k]));
            assert(motors.contains_key(ids[k]));
        }
    }

    /// Starts every motor that has a link and is at rest: the sweep
    /// `Sweep::Start`.
    pub fn start_all(&mut self, now_ms: u64) -> (answers: Vec<(usize, SweepAnswer)>)
        ensures
            final(self).motors() == old(self).motors().map_values(
                |m: Motor|
                    if MotorRegistry::concerns(Sweep::Start, m) {
                        m.started(now_ms)
                    } else {
                        m
                    },
            ),
            final(self).ports() == old(self).ports(),
            MotorRegistry::answers_each_once(Sweep::Start, old(self).motors(), answers@),
            old(self).ports_match_motors() ==> final(self).ports_match_motors(),
    {
        let answers = self.sweep(Sweep::Start, now_ms);
        proof {
            assert(self.motors() =~= old(self).motors().map_values(
                |m: Motor|
                    if MotorRegistry::concerns(Sweep::Start, m) {
                        m.started(now_ms)
                    } else {
                        m
                    },
            ));
        }
        answers
    }

    /// Stops every motor that runs: the sweep `Sweep::Stop`.
    pub fn stop_all(&mut self, now_ms: u64) -> (answers: Vec<(usize, SweepAnswer)>)
        ensures
            final(self).motors() == old(self).motors().map_values(
                |m: Motor|
                    if MotorRegistry::concerns(Sweep::Stop, m) {
                        m.stopped(now_ms)
                    } else {
                        m
                    },
            ),
            final(self).ports() == old(self).ports(),
            MotorRegistry::answers_each_once(Sweep::Stop, old(self).motors(), answers@),
            old(self).ports_match_motors() ==> final(self).ports_match_motors(),
    {
        let answers = self.sweep(Sweep::Stop, now_ms);
        proof {
            assert(self.motors() =~= old(self).motors().map_values(
                |m: Motor|
                    if MotorRegistry::concerns(Sweep::Stop, m) {
                        m.stopped(now_ms)
                    } else {
                        m
                    },
            ));
        }
        answers
    }

    /// Stops every motor, whether or not it is known to run, and closes
    /// every link: the sweep `Sweep::Emergency`. Afterwards no motor runs,
    /// no motor has a link, and no port that a motor held is taken.
    pub fn emergency_stop_all(&mut self, now_ms: u64) -> (answers: Vec<(usize, SweepAnswer)>)
        ensures
            final(self).motors().dom() == old(self).motors().dom(),
            forall|id: usize| #[trigger]
                old(self).motors().contains_key(id)
                    ==> final(self).motors()[id].is_disconnected_from(
                    old(self).motors()[id].stopped(now_ms),
                    now_ms,
                ),
            forall|name: Seq<char>| #[trigger]
                port_listed(final(self).ports(), name) <==> port_listed(old(self).ports(), name)
                    && !held_by_some(old(self).motors(), name),
            MotorRegistry::answers_each_once(Sweep::Emergency, old(self).motors(), answers@),
            final(self).ports_match_motors(),
    {
        self.sweep(Sweep::Emergency, now_ms)
    }

    /// The answers are those of a sweep over the motors: one for each motor
    /// that the sweep concerns, under its number, and no other.
    pub open spec fn answers_each_once(
        sweep: Sweep,
        motors: Map<usize, Motor>,
        answers: Seq<(usize, SweepAnswer)>,
    ) -> bool {
        &&& forall|k: int|
            0 <= k < answers.len() ==> {
                &&& motors.contains_key((#[trigger] answers[k]).0)
                &&& MotorRegistry::concerns(sweep, motors[answers[k].0])
                &&& MotorRegistry::is_sweep_answer(sweep, motors[answers[k].0], answers[k].1)
            }
        &&& forall|id: usize| #[trigger]
            motors.contains_key(id) && MotorRegistry::concerns(sweep, motors[id]) ==> exists|
                k: int,
            |
                0 <= k < answers.len() && (#[trigger] answers[k]).0 == id
        &&& forall|j: int, k: int|
            0 <= j < k < answers.len() ==> (#[trigger] answers[j]).0 != (#[trigger] answers[k]).0
    }
}

/// A port serves one motor at a time: once a motor was connected on a
/// port, whoever asks for the same port next is refused, with `PortInUse`
/// unless the number asked for is that of a motor with a link.
pub proof fn lemma_port_serves_one_motor(
    standing: Option<Motor>,
    next_standing: Option<Motor>,
    ports: Seq<String>,
    taken: String,
    handshake: Handshake,
    next_handshake: Handshake,
)
    requires
        MotorRegistry::create_verdict(standing, ports, taken@, handshake) is Ok,
    ensures
        !port_listed(ports, taken@),
        port_listed(ports.push(taken), taken@),
        MotorRegistry::create_verdict(next_standing, ports.push(taken), taken@, next_handshake)
            is Err,
        !(next_standing matches Some(m) && m.serial.connected) ==> MotorRegistry::create_verdict(
            next_standing,
            ports.push(taken),
            taken@,
            next_handshake,
        ) == Err::<(), RegistryError>(RegistryError::Link(ConnectError::PortInUse)),
{
    assert(ports.push(taken)[ports.len() as int]@ == taken@);
}

/// A motor that runs cannot be taken out of the registry; once stopped it
/// can.
pub proof fn lemma_running_motor_stays(motor: Motor, now: u64)
    ensures
        motor.is_running ==> MotorRegistry::remove_verdict(Some(motor)) == Err::<
            (),
            RegistryError,
        >(RegistryError::StillRunning),
        MotorRegistry::remove_verdict(Some(motor.stopped(now))) is Ok,
        MotorRegistry::remove_verdict(None) == Err::<(), RegistryError>(
            RegistryError::UnknownMotor,
        ),
{
}

} // verus!
