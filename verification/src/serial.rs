//! The link to one controller board as the library sees it: the list of
//! ports that are taken, the state of one link, and what the status listener
//! does with each thing it finds on the port.

use vstd::prelude::*;
use vstd::string::StringExecFns;
use crate::enums::StepperState;
use crate::handshake::{farewell, farewell_bytes, ConnectError, Handshake, HandshakeStage};
use crate::limits::THREAD_SLEEP;
use crate::structs::{Message, MessageKind, MessageView, TimersAndPhases};

verus! {

/// Unknown codes in a row, within one pause of the listener, after which the
/// link counts as out of step.
pub const MAX_INVALID_CODES: u8 = 3;

/// Seconds for which a message of the listener stays on screen.
pub const LISTENER_MESSAGE_SECONDS: u64 = 5;

/// What `name` is not: used to take a port off a list.
pub open spec fn is_other_port(name: Seq<char>) -> spec_fn(String) -> bool {
    |port: String| port@ != name
}

/// What is not on the list `taken`: used to find the ports that are free.
pub open spec fn is_free_port(taken: Seq<String>) -> spec_fn(String) -> bool {
    |port: String| !port_listed(taken, port@)
}

/// The list holds a port of this name.
pub open spec fn port_listed(ports: Seq<String>, name: Seq<char>) -> bool {
    exists|i: int| 0 <= i < ports.len() && (#[trigger] ports[i])@ == name
}

/// Tells whether a port is on a list of ports.
pub fn is_port_listed(ports: &Vec<String>, name: &str) -> (listed: bool)
    ensures
        listed == port_listed(ports@, name@),
{
    let wanted = name.to_owned();
    let mut i: usize = 0;
    while i < ports.len()
        invariant
            i <= ports.len(),
            wanted@ == name@,
            forall|k: int| 0 <= k < i ==> (#[trigger] ports@[k])@ != name@,
        decreases ports.len() - i,
    {
        if ports[i] == wanted {
            return true;
        }
        i = i + 1;
    }
    false
}

/// Takes a port off a list of ports, wherever it stands on it; the others
/// keep their order.
pub fn release_port(ports: &mut Vec<String>, name: &str)
    ensures
        final(ports)@ == old(ports)@.filter(is_other_port(name@)),
        !port_listed(final(ports)@, name@),
        forall|other: Seq<char>|
            other != name@ ==> (port_listed(final(ports)@, other) <==> port_listed(
                old(ports)@,
                other,
            )),
{
    let wanted = name.to_owned();
    let mut kept: Vec<String> = Vec::new();
    let mut i: usize = 0;
    let ghost keep = is_other_port(name@);
    while i < ports.len()
        invariant
            i <= ports.len(),
            wanted@ == name@,
            keep == is_other_port(name@),
            ports@ == old(ports)@,
            kept@ == ports@.subrange(0, i as int).filter(keep),
        decreases ports.len() - i,
    {
        proof {
            lemma_filter_next(ports@, i as int, keep);
        }
        if !(ports[i] == wanted) {
            kept.push(ports[i].clone());
        }
        i = i + 1;
    }
    assert(ports@.subrange(0, i as int) =~= ports@);
    proof {
        lemma_filter_members(ports@, keep);
        assert forall|other: Seq<char>| other != name@ implies (port_listed(kept@, other)
            <==> port_listed(ports@, other)) by {
            if port_listed(ports@, other) {
                let k = choose|k: int| 0 <= k < ports@.len() && (#[trigger] ports@[k])@ == other;
                assert(keep(ports@[k]));
                assert(kept@.contains(ports@[k]));
                let j = choose|j: int| 0 <= j < kept@.len() && kept@[j] == ports@[k];
                assert(kept@[j]@ == other);
            }
            if port_listed(kept@, other) {
                let j = choose|j: int| 0 <= j < kept@.len() && (#[trigger] kept@[j])@ == other;
                assert(kept@.contains(kept@[j]));
                assert(ports@.contains(kept@[j]));
                let k = choose|k: int| 0 <= k < ports@.len() && ports@[k] == kept@[j];
                assert(ports@[k]@ == other);
            }
        }
        if port_listed(kept@, name@) {
            let j = choose|j: int| 0 <= j < kept@.len() && (#[trigger] kept@[j])@ == name@;
            assert(kept@.contains(kept@[j]));
            assert(keep(kept@[j]));
        }
    }
    *ports = kept;
}

/// The ports among `candidates` that are not on the list `taken`, in the
/// order of `candidates`.
pub fn available_ports(candidates: &Vec<String>, taken: &Vec<String>) -> (free: Vec<String>)
    ensures
        free@ == candidates@.filter(is_free_port(taken@)),
{
    let mut free: Vec<String> = Vec::new();
    let mut i: usize = 0;
    let ghost keep = is_free_port(taken@);
    while i < candidates.len()
        invariant
            i <= candidates.len(),
            keep == is_free_port(taken@),
            free@ == candidates@.subrange(0, i as int).filter(keep),
        decreases candidates.len() - i,
    {
        proof {
            lemma_filter_next(candidates@, i as int, keep);
        }
        if !is_port_listed(taken, candidates[i].as_str()) {
            free.push(candidates[i].clone());
        }
        i = i + 1;
    }
    assert(candidates@.subrange(0, i as int) =~= candidates@);
    free
}

/// Taking a port off a list leaves every other port that was on the list
/// on the list, whether or not the port itself was on it.
pub proof fn lemma_unlisted_port_is_not_missed(
    ports: Seq<String>,
    released: Seq<char>,
    other: Seq<char>,
)
    requires
        port_listed(ports, other),
        other != released || !port_listed(ports, released),
    ensures
        port_listed(ports.filter(is_other_port(released)), other),
{
    let keep = is_other_port(released);
    lemma_filter_members(ports, keep);
    let k = choose|k: int| 0 <= k < ports.len() && (#[trigger] ports[k])@ == other;
    if other == released {
        assert(port_listed(ports, released));
    }
    assert(keep(ports[k]));
    assert(ports.contains(ports[k]));
    assert(ports.filter(keep).contains(ports[k]));
    let j = choose|j: int| 0 <= j < ports.filter(keep).len() && ports.filter(keep)[j] == ports[k];
    assert(ports.filter(keep)[j]@ == other);
}

/// After a port was taken off a list, the list holds the ports that it held
/// before but for that one.
pub proof fn lemma_release_listing(ports: Seq<String>, released: Seq<char>, other: Seq<char>)
    ensures
        port_listed(ports.filter(is_other_port(released)), other) <==> port_listed(ports, other)
            && other != released,
{
    let keep = is_other_port(released);
    let left = ports.filter(keep);
    lemma_filter_members(ports, keep);
    if port_listed(left, other) {
        let j = choose|j: int| 0 <= j < left.len() && (#[trigger] left[j])@ == other;
        assert(left.contains(left[j]));
        assert(ports.contains(left[j]) && keep(left[j]));
        let k = choose|k: int| 0 <= k < ports.len() && ports[k] == left[j];
        assert(ports[k]@ == other);
    }
    if port_listed(ports, other) && other != released {
        lemma_unlisted_port_is_not_missed(ports, released, other);
    }
}

/// The port to show as chosen after the list of free ports was read anew:
/// the one that was chosen where it is still free, else the first free one,
/// else none, written as the empty name.
pub fn choose_port(chosen: &str, free: &Vec<String>) -> (port: String)
    ensures
        port_listed(free@, chosen@) ==> port@ == chosen@,
        !port_listed(free@, chosen@) && free@.len() > 0 ==> port == free@[0],
        !port_listed(free@, chosen@) && free@.len() == 0 ==> port@ == Seq::<char>::empty(),
{
    if is_port_listed(free, chosen) {
        chosen.to_owned()
    } else if free.len() > 0 {
        free[0].clone()
    } else {
        String::new()
    }
}

/// Filtering one element more of a list adds that element to the result
/// where it passes, and nothing where it does not.
proof fn lemma_filter_next(list: Seq<String>, i: int, keep: spec_fn(String) -> bool)
    requires
        0 <= i < list.len(),
    ensures
        list.subrange(0, i + 1).filter(keep) == if keep(list[i]) {
            list.subrange(0, i).filter(keep).push(list[i])
        } else {
            list.subrange(0, i).filter(keep)
        },
{
    reveal(Seq::filter);
    assert(list.subrange(0, i + 1).drop_last() =~= list.subrange(0, i));
}

/// What passes a filter is in the result, and what is in the result has
/// passed and comes from the list.
proof fn lemma_filter_members(list: Seq<String>, keep: spec_fn(String) -> bool)
    ensures
        forall|x: String| #[trigger] list.filter(keep).contains(x) <==> list.contains(x) && keep(x),
    decreases list.len(),
{
    reveal(Seq::filter);
    if list.len() > 0 {
        lemma_filter_members(list.drop_last(), keep);
        let rest = list.drop_last();
        let last = list.last();
        assert forall|x: String| #[trigger]
            list.filter(keep).contains(x) <==> list.contains(x) && keep(x) by {
            if list.contains(x) {
                let k = choose|k: int| 0 <= k < list.len() && list[k] == x;
                if k < list.len() - 1 {
                    assert(rest[k] == x);
                    assert(rest.contains(x));
                }
            }
            if rest.contains(x) {
                let k = choose|k: int| 0 <= k < rest.len() && rest[k] == x;
                assert(list[k] == x);
            }
            if keep(last) {
                let f = rest.filter(keep).push(last);
                assert(list.filter(keep) == f);
                if f.contains(x) {
                    let k = choose|k: int| 0 <= k < f.len() && f[k] == x;
                    if k < f.len() - 1 {
                        assert(rest.filter(keep)[k] == x);
                        assert(rest.filter(keep).contains(x));
                    } else {
                        assert(list[list.len() - 1] == x);
                    }
                }
                if rest.filter(keep).contains(x) {
                    let k = choose|k: int| 0 <= k < rest.filter(keep).len() && rest.filter(keep)[k]
                        == x;
                    assert(f[k] == x);
                }
                if x == last {
                    assert(f[f.len() - 1] == x);
                    assert(list[list.len() - 1] == x);
                }
            }
        }
    }
}

/// What the listener found on the port.
#[derive(Debug, Clone)]
pub enum Poll {
    /// Fewer than three bytes are waiting.
    Quiet,
    /// Three bytes were read.
    Code([u8; 3]),
    /// The port gave an error, described by the text.
    Failed(String),
}

/// What the listener is to do after a turn.
#[derive(Debug, Copy, Clone, PartialEq, Eq, Structural)]
pub enum ListenerAction {
    /// Pause for `THREAD_SLEEP` milliseconds where nothing is waiting, then
    /// look again.
    Continue,
    /// Throw away what has been received and not yet read, then look again.
    DiscardInput,
    /// End: the run is over.
    Stop,
}

/// Outcome of one turn of the listener.
#[derive(Debug, Clone)]
pub struct ListenerTurn {
    pub action: ListenerAction,
    /// What to tell the operator, if anything.
    pub message: Option<Message>,
}

/// The link of one motor.
#[derive(Debug, Clone)]
pub struct Serial {
    pub port_name: String,
    /// The port is open and the board has answered the handshake.
    pub connected: bool,
    /// Unknown codes received in a row.
    pub invalid_codes: u8,
    /// When the first unknown code of the row was received.
    pub invalid_since: u64,
}

/// All that one turn of the listener decides.
pub struct ListenerOutcome {
    pub invalid_codes: u8,
    pub invalid_since: u64,
    pub is_running: bool,
    pub timers_and_phases: TimersAndPhases,
    pub action: ListenerAction,
    pub message: Option<MessageView>,
}

impl Serial {
    /// The text of the message raised when the port gives an error.
    pub open spec fn read_error_text(port_name: Seq<char>) -> Seq<char> {
        "Error while reading serial port "@ + port_name
    }

    /// The text of the message raised when a link is closed.
    pub open spec fn disconnected_text(port_name: Seq<char>) -> Seq<char> {
        "Disconnected from "@ + port_name
    }

    /// An unknown code received at `now` is the last straw: it is the
    /// `MAX_INVALID_CODES`-th in a row and the row began less than one pause
    /// of the listener ago.
    pub open spec fn out_of_step(invalid_codes: u8, invalid_since: u64, now: u64) -> bool {
        invalid_codes + 1 >= MAX_INVALID_CODES && invalid_since <= now && now - invalid_since
            < THREAD_SLEEP
    }

    /// The run ended by a failure of the link at `now`: the motor is stopped,
    /// both phases show `Invalid` and the operator is told why.
    pub open spec fn link_lost(
        self,
        motor_name: Seq<char>,
        timers_and_phases: TimersAndPhases,
        detail: Seq<char>,
        now: u64,
    ) -> ListenerOutcome {
        ListenerOutcome {
            invalid_codes: 0,
            invalid_since: 0,
            is_running: false,
            timers_and_phases: timers_and_phases.frozen(StepperState::Invalid, now),
            action: ListenerAction::Stop,
            message: Some(
                MessageView {
                    kind: MessageKind::Error,
                    message: Serial::read_error_text(self.port_name@),
                    error: Some(detail),
                    origin: Some(motor_name),
                    duration: LISTENER_MESSAGE_SECONDS,
                    is_waiting: false,
                },
            ),
        }
    }

    /// What one turn of the listener decides for a motor that is running.
    ///
    /// Nothing waiting changes nothing. An error of the port ends the run.
    /// An unknown code has the input thrown away and changes neither phase
    /// nor timer, unless it is the last of `MAX_INVALID_CODES` in a row
    /// within one pause of the listener, which ends the run like an error of
    /// the port. A fault ends the run with an error message, the end of the
    /// protocol with a success message; both freeze the phases. Every other
    /// code moves phases, directions and timers as
    /// `TimersAndPhases::after_event` says.
    pub open spec fn heard(
        self,
        motor_name: Seq<char>,
        timers_and_phases: TimersAndPhases,
        poll: Poll,
        now: u64,
    ) -> ListenerOutcome {
        let unchanged = ListenerOutcome {
            invalid_codes: self.invalid_codes,
            invalid_since: self.invalid_since,
            is_running: true,
            timers_and_phases,
            action: ListenerAction::Continue,
            message: None,
        };
        match poll {
            Poll::Quiet => unchanged,
            Poll::Failed(detail) => self.link_lost(motor_name, timers_and_phases, detail@, now),
            Poll::Code(bytes) => {
                let event = StepperState::decode(bytes@);
                if event == StepperState::Invalid {
                    if Serial::out_of_step(self.invalid_codes, self.invalid_since, now) {
                        self.link_lost(
                            motor_name,
                            timers_and_phases,
                            "Too many unknown codes in a row"@,
                            now,
                        )
                    } else if self.invalid_codes > 0 && self.invalid_since <= now && now
                        - self.invalid_since < THREAD_SLEEP {
                        ListenerOutcome {
                            invalid_codes: (self.invalid_codes + 1) as u8,
                            action: ListenerAction::DiscardInput,
                            ..unchanged
                        }
                    } else {
                        ListenerOutcome {
                            invalid_codes: 1,
                            invalid_since: now,
                            action: ListenerAction::DiscardInput,
                            ..unchanged
                        }
                    }
                } else {
                    let ended = event.is_fault() || event == StepperState::Finished;
                    ListenerOutcome {
                        invalid_codes: 0,
                        invalid_since: 0,
                        is_running: !ended,
                        timers_and_phases: timers_and_phases.after_event(event, now),
                        action: if ended {
                            ListenerAction::Stop
                        } else {
                            ListenerAction::Continue
                        },
                        message: if event.is_fault() {
                            Some(
                                MessageView {
                                    kind: MessageKind::Error,
                                    message: event.label_text(),
                                    error: Some("Motor stopped !"@),
                                    origin: Some(motor_name),
                                    duration: LISTENER_MESSAGE_SECONDS,
                                    is_waiting: false,
                                },
                            )
                        } else if event == StepperState::Finished {
                            Some(
                                MessageView {
                                    kind: MessageKind::Success,
                                    message: event.label_text(),
                                    error: None,
                                    origin: Some(motor_name),
                                    duration: LISTENER_MESSAGE_SECONDS,
                                    is_waiting: false,
                                },
                            )
                        } else {
                            None
                        },
                    }
                }
            },
        }
    }

    /// The message of a turn, as contracts see it.
    pub open spec fn message_view(message: Option<Message>) -> Option<MessageView> {
        match message {
            Some(m) => Some(m@),
            None => None,
        }
    }

    /// The link that a finished handshake gives on a port that nobody holds.
    /// The port is put on the list of ports that are taken.
    ///
    /// No link comes about, and the list stays as it is, where the port is on
    /// the list already (`PortInUse`) or where the handshake did not end with
    /// the answer of the board (the error that ended it, or `Unfinished`).
    pub fn new(
        port_name: &str,
        already_connected_ports: &mut Vec<String>,
        handshake: &Handshake,
    ) -> (link: Result<Serial, ConnectError>)
        ensures
            port_listed(old(already_connected_ports)@, port_name@) ==> link == Err::<
                Serial,
                ConnectError,
            >(ConnectError::PortInUse),
            !port_listed(old(already_connected_ports)@, port_name@) ==> match handshake.stage {
                HandshakeStage::Connected => link is Ok,
                HandshakeStage::Failed(e) => link == Err::<Serial, ConnectError>(e),
                _ => link == Err::<Serial, ConnectError>(ConnectError::Unfinished),
            },
            link matches Ok(serial) ==> {
                &&& serial.port_name@ == port_name@
                &&& serial.connected
                &&& serial.invalid_codes == 0
                &&& serial.invalid_since == 0
                &&& final(already_connected_ports)@ == old(already_connected_ports)@.push(
                    serial.port_name,
                )
                &&& port_listed(final(already_connected_ports)@, port_name@)
            },
            link is Err ==> final(already_connected_ports)@ == old(already_connected_ports)@,
    {
        if is_port_listed(already_connected_ports, port_name) {
            return Err(ConnectError::PortInUse);
        }
        match handshake.error() {
            Some(reason) => Err(reason),
            None => {
                let name = port_name.to_owned();
                already_connected_ports.push(name.clone());
                assert(already_connected_ports@[already_connected_ports@.len() - 1]@
                    == port_name@);
                Ok(Serial { port_name: name, connected: true, invalid_codes: 0, invalid_since: 0 })
            },
        }
    }

    /// Tells whether the link is open.
    pub fn get_is_connected(&self) -> (connected: bool)
        ensures
            connected == self.connected,
    {
        self.connected
    }

    /// Closes the link. Where it was open, `bye!` is returned for a last
    /// write, whose failure does not matter.
    pub fn disconnect(&mut self) -> (last_words: Option<[u8; 4]>)
        ensures
            !final(self).connected,
            final(self).port_name == old(self).port_name,
            final(self).invalid_codes == old(self).invalid_codes,
            final(self).invalid_since == old(self).invalid_since,
            old(self).connected ==> (last_words matches Some(bytes) && bytes@ == farewell_bytes()),
            !old(self).connected ==> last_words is None,
    {
        if self.connected {
            self.connected = false;
            Some(farewell())
        } else {
            None
        }
    }

    fn lose_link(
        &mut self,
        motor_name: &String,
        is_running: &mut bool,
        timers_and_phases: &mut TimersAndPhases,
        detail: String,
        now_ms: u64,
    ) -> (turn: ListenerTurn)
        ensures
            final(self).port_name == old(self).port_name,
            final(self).connected == old(self).connected,
            (ListenerOutcome {
                invalid_codes: final(self).invalid_codes,
                invalid_since: final(self).invalid_since,
                is_running: *final(is_running),
                timers_and_phases: *final(timers_and_phases),
                action: turn.action,
                message: Serial::message_view(turn.message),
            }) == old(self).link_lost(motor_name@, *old(timers_and_phases), detail@, now_ms),
    {
        *is_running = false;
        timers_and_phases.freeze(StepperState::Invalid, now_ms);
        self.invalid_codes = 0;
        self.invalid_since = 0;
        let text = "Error while reading serial port ".to_owned().concat(self.port_name.as_str());
        let message = Message::new(
            MessageKind::Error,
            text.as_str(),
            Some(detail),
            Some(motor_name.clone()),
            LISTENER_MESSAGE_SECONDS,
            false,
        );
        ListenerTurn { action: ListenerAction::Stop, message: Some(message) }
    }

    /// One turn of the status listener of a motor.
    ///
    /// The caller looks at the port, reads three bytes where at least three
    /// are waiting, and hands in what it found together with the time. For a
    /// motor that is not running the answer is `Stop` and nothing changes.
    /// For one that is running, `heard` says what changes; the caller then
    /// acts as the answer says.
    pub fn listen_to_serial_port(
        &mut self,
        motor_name: &String,
        is_running: &mut bool,
        timers_and_phases: &mut TimersAndPhases,
        poll: Poll,
        now_ms: u64,
    ) -> (turn: ListenerTurn)
        ensures
            final(self).port_name == old(self).port_name,
            final(self).connected == old(self).connected,
            !*old(is_running) ==> {
                &&& *final(self) == *old(self)
                &&& !*final(is_running)
                &&& *final(timers_and_phases) == *old(timers_and_phases)
                &&& turn.action == ListenerAction::Stop
                &&& turn.message is None
            },
            *old(is_running) ==> (ListenerOutcome {
                invalid_codes: final(self).invalid_codes,
                invalid_since: final(self).invalid_since,
                is_running: *final(is_running),
                timers_and_phases: *final(timers_and_phases),
                action: turn.action,
                message: Serial::message_view(turn.message),
            }) == old(self).heard(motor_name@, *old(timers_and_phases), poll, now_ms),
    {
        if !*is_running {
            return ListenerTurn { action: ListenerAction::Stop, message: None };
        }
        match poll {
            Poll::Quiet => ListenerTurn { action: ListenerAction::Continue, message: None },
            Poll::Failed(detail) => self.lose_link(
                motor_name,
                is_running,
                timers_and_phases,
                detail,
                now_ms,
            ),
            Poll::Code(bytes) => {
                let event = StepperState::from(&bytes);
                match event {
                    StepperState::Invalid => {
                        let in_window = self.invalid_since <= now_ms && now_ms - self.invalid_since
                            < THREAD_SLEEP;
                        if in_window && self.invalid_codes >= MAX_INVALID_CODES - 1 {
                            self.lose_link(
                                motor_name,
                                is_running,
                                timers_and_phases,
                                "Too many unknown codes in a row".to_owned(),
                                now_ms,
                            )
                        } else {
                            if in_window && self.invalid_codes > 0 {
                                self.invalid_codes = self.invalid_codes + 1;
                            } else {
                                self.invalid_codes = 1;
                                self.invalid_since = now_ms;
                            }
                            ListenerTurn { action: ListenerAction::DiscardInput, message: None }
                        }
                    },
                    _ => {
                        self.invalid_codes = 0;
                        self.invalid_since = 0;
                        timers_and_phases.apply(event, now_ms);
                        if event.get_is_fault() {
                            *is_running = false;
                            let label = event.label();
                            let message = Message::new(
                                MessageKind::Error,
                                label.as_str(),
                                Some("Motor stopped !".to_owned()),
                                Some(motor_name.clone()),
                                LISTENER_MESSAGE_SECONDS,
                                false,
                            );
                            ListenerTurn { action: ListenerAction::Stop, message: Some(message) }
                        } else if event == StepperState::Finished {
                            *is_running = false;
                            let label = event.label();
                            let message = Message::new(
                                MessageKind::Success,
                                label.as_str(),
                                None,
                                Some(motor_name.clone()),
                                LISTENER_MESSAGE_SECONDS,
                                false,
                            );
                            ListenerTurn { action: ListenerAction::Stop, message: Some(message) }
                        } else {
                            ListenerTurn { action: ListenerAction::Continue, message: None }
                        }
                    },
                }
            },
        }
    }
}

impl Default for Serial {
    fn default() -> (serial: Self)
        ensures
            serial.port_name@ == Seq::<char>::empty(),
            !serial.connected,
            serial.invalid_codes == 0,
            serial.invalid_since == 0,
    {
        Serial { port_name: String::new(), connected: false, invalid_codes: 0, invalid_since: 0 }
    }
}

/// An unknown code that is not the last straw neither stops the motor nor
/// changes its phases, directions or timers; nor does an acknowledgement or
/// a turn on which nothing was waiting.
pub proof fn lemma_unknown_code_changes_nothing(
    serial: Serial,
    motor_name: Seq<char>,
    timers_and_phases: TimersAndPhases,
    bytes: [u8; 3],
    now: u64,
)
    requires
        StepperState::decode(bytes@) == StepperState::Invalid,
        !Serial::out_of_step(serial.invalid_codes, serial.invalid_since, now),
    ensures
        serial.heard(motor_name, timers_and_phases, Poll::Code(bytes), now).is_running,
        serial.heard(motor_name, timers_and_phases, Poll::Code(bytes), now).timers_and_phases
            == timers_and_phases,
        serial.heard(motor_name, timers_and_phases, Poll::Code(bytes), now).action
            == ListenerAction::DiscardInput,
        serial.heard(motor_name, timers_and_phases, Poll::Code(bytes), now).message is None,
        serial.heard(motor_name, timers_and_phases, Poll::Quiet, now).timers_and_phases
            == timers_and_phases,
        serial.heard(motor_name, timers_and_phases, Poll::Quiet, now).is_running,
{
}

/// A turn ends the run exactly when it tells the listener to stop, and it
/// then has a message for the operator.
pub proof fn lemma_listener_stops_with_the_run(
    serial: Serial,
    motor_name: Seq<char>,
    timers_and_phases: TimersAndPhases,
    poll: Poll,
    now: u64,
)
    ensures
        serial.heard(motor_name, timers_and_phases, poll, now).is_running <==> serial.heard(
            motor_name,
            timers_and_phases,
            poll,
            now,
        ).action != ListenerAction::Stop,
        !serial.heard(motor_name, timers_and_phases, poll, now).is_running ==> {
            &&& serial.heard(motor_name, timers_and_phases, poll, now).message is Some
            &&& serial.heard(
                motor_name,
                timers_and_phases,
                poll,
                now,
            ).timers_and_phases.main_phase_start_time is None
            &&& serial.heard(
                motor_name,
                timers_and_phases,
                poll,
                now,
            ).timers_and_phases.global_stop_time_ms == Some(
                TimersAndPhases::elapsed(timers_and_phases.global_start_time, now),
            )
        },
{
}

} // verus!
