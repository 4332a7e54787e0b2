//! The exchange that opens a link to a controller board.
//!
//! The board may still be busy with an earlier session, so it is first told
//! `bye!`. After a short wait and with the input emptied it is asked `hi?`
//! and has to answer `ok!`. A wrong answer is followed by a longer wait and
//! another `hi?`, up to `MAX_PROBES` times in all.
//!
//! The handshake itself touches no port: it says what is to be done next and
//! is told how that went.

use vstd::prelude::*;
use crate::enums::ascii3;

verus! {

/// How often the board is asked before the handshake gives up.
pub const MAX_PROBES: u8 = 10;

/// Wait after `bye!`, in milliseconds.
pub const SETTLE_MS: u64 = 200;

/// Wait after a wrong answer, in milliseconds.
pub const BACKOFF_MS: u64 = 500;

/// Speed of the link in bits per second; it runs with eight data bits, no
/// parity, one stop bit and no flow control.
pub const BAUD_RATE: u32 = 500_000;

/// Time after which a read or write on the link gives up, in milliseconds.
pub const LINK_TIMEOUT_MS: u64 = 2_000;

/// The bytes of `bye!`.
pub open spec fn farewell_bytes() -> Seq<u8> {
    seq!['b' as u8, 'y' as u8, 'e' as u8, '!' as u8]
}

/// The bytes of `hi?`.
pub open spec fn greeting_bytes() -> Seq<u8> {
    ascii3('h', 'i', '?')
}

/// The bytes of `ok!`.
pub open spec fn welcome_bytes() -> Seq<u8> {
    ascii3('o', 'k', '!')
}

/// The bytes of `stop`.
pub open spec fn stop_bytes() -> Seq<u8> {
    seq!['s' as u8, 't' as u8, 'o' as u8, 'p' as u8]
}

/// `bye!`, which sends the board back to rest.
pub fn farewell() -> (bytes: [u8; 4])
    ensures
        bytes@ == farewell_bytes(),
{
    let bytes: [u8; 4] = ['b' as u8, 'y' as u8, 'e' as u8, '!' as u8];
    assert(bytes@ =~= farewell_bytes());
    bytes
}

/// `hi?`, which asks the board whether it is there.
pub fn greeting() -> (bytes: [u8; 3])
    ensures
        bytes@ == greeting_bytes(),
{
    let bytes: [u8; 3] = ['h' as u8, 'i' as u8, '?' as u8];
    assert(bytes@ =~= greeting_bytes());
    bytes
}

/// `stop`, which ends a run.
pub fn stop_command() -> (bytes: [u8; 4])
    ensures
        bytes@ == stop_bytes(),
{
    let bytes: [u8; 4] = ['s' as u8, 't' as u8, 'o' as u8, 'p' as u8];
    assert(bytes@ =~= stop_bytes());
    bytes
}

/// Why no link came about.
#[derive(Debug, Copy, Clone, PartialEq, Eq, Structural)]
pub enum ConnectError {
    /// Another motor holds the port.
    PortInUse,
    /// The board gave `MAX_PROBES` wrong answers.
    NoResponse,
    /// Opening, reading or writing the port failed.
    LinkFailed,
    /// The handshake was told of something it had not asked for.
    OutOfTurn,
    /// The handshake has not come to its end.
    Unfinished,
}

impl ConnectError {
    /// The sentence shown for the error.
    pub open spec fn text(self) -> Seq<char> {
        match self {
            ConnectError::PortInUse => "The port is already in use"@,
            ConnectError::NoResponse => "The device did not respond"@,
            ConnectError::LinkFailed => "The serial link failed"@,
            ConnectError::OutOfTurn => "The handshake was not followed"@,
            ConnectError::Unfinished => "The handshake is not finished"@,
        }
    }

    /// The sentence shown for the error.
    pub fn message(&self) -> (text: String)
        ensures
            text@ == self.text(),
    {
        match self {
            ConnectError::PortInUse => "The port is already in use".to_owned(),
            ConnectError::NoResponse => "The device did not respond".to_owned(),
            ConnectError::LinkFailed => "The serial link failed".to_owned(),
            ConnectError::OutOfTurn => "The handshake was not followed".to_owned(),
            ConnectError::Unfinished => "The handshake is not finished".to_owned(),
        }
    }
}

/// Where a handshake stands: what was last asked of the caller.
#[derive(Debug, Copy, Clone, PartialEq, Eq, Structural)]
pub enum HandshakeStage {
    /// `bye!` is being sent.
    Parting,
    /// The wait after `bye!` is on.
    Settling,
    /// The input is being emptied.
    Clearing,
    /// `hi?` is being sent.
    Greeting,
    /// The answer is being read.
    Listening,
    /// The wait after a wrong answer is on.
    Resting,
    /// The board answered `ok!`.
    Connected,
    /// The handshake was given up.
    Failed(ConnectError),
}

/// What the caller is to do next on the port.
#[derive(Debug, Copy, Clone, PartialEq, Eq, Structural)]
pub enum LinkRequest {
    /// Write `bye!`.
    SendFarewell,
    /// Write `hi?`.
    SendGreeting,
    /// Wait for the given number of milliseconds.
    Sleep(u64),
    /// Throw away what has been received and not yet read.
    DiscardInput,
    /// Read exactly three bytes.
    ReadReply,
    /// Nothing more: the link stands.
    Finished,
    /// Nothing more: close the port.
    Abandon(ConnectError),
}

/// How the last request went.
#[derive(Debug, Copy, Clone, PartialEq, Eq)]
pub enum LinkReport {
    /// The write, the wait or the emptying was carried out.
    Done,
    /// Three bytes were read.
    Reply([u8; 3]),
    /// The port gave an error.
    Failed,
}

/// A handshake in progress.
#[derive(Debug, Copy, Clone, PartialEq, Eq, Structural)]
pub struct Handshake {
    pub stage: HandshakeStage,
    /// Wrong answers so far.
    pub failures: u8,
}

impl Handshake {
    /// A handshake that has just asked for `bye!` to be sent.
    pub open spec fn begun() -> Handshake {
        Handshake { stage: HandshakeStage::Parting, failures: 0 }
    }

    /// The handshake has come to its end, well or badly.
    pub open spec fn is_over(self) -> bool {
        self.stage == HandshakeStage::Connected || self.stage is Failed
    }

    /// The handshake after a failure for the given reason.
    pub open spec fn given_up(self, reason: ConnectError) -> (Handshake, LinkRequest) {
        (
            Handshake { stage: HandshakeStage::Failed(reason), ..self },
            LinkRequest::Abandon(reason),
        )
    }

    /// The handshake moved on to a stage, with the request that goes with
    /// the stage.
    pub open spec fn moved(self, stage: HandshakeStage, request: LinkRequest) -> (
        Handshake,
        LinkRequest,
    ) {
        (Handshake { stage, ..self }, request)
    }

    /// The handshake after an answer of the board: connected on `ok!`, else
    /// one failure more, which is the end at `MAX_PROBES` failures and a
    /// longer wait before.
    pub open spec fn answered(self, reply: Seq<u8>) -> (Handshake, LinkRequest) {
        if reply == welcome_bytes() {
            self.moved(HandshakeStage::Connected, LinkRequest::Finished)
        } else if self.failures + 1 >= MAX_PROBES {
            (
                Handshake {
                    stage: HandshakeStage::Failed(ConnectError::NoResponse),
                    failures: MAX_PROBES,
                },
                LinkRequest::Abandon(ConnectError::NoResponse),
            )
        } else {
            (
                Handshake { stage: HandshakeStage::Resting, failures: (self.failures + 1) as u8 },
                LinkRequest::Sleep(BACKOFF_MS),
            )
        }
    }

    /// The handshake and the next request after the caller reported how the
    /// last request went.
    pub open spec fn step(self, report: LinkReport) -> (Handshake, LinkRequest) {
        match self.stage {
            HandshakeStage::Connected => (self, LinkRequest::Finished),
            HandshakeStage::Failed(reason) => (self, LinkRequest::Abandon(reason)),
            HandshakeStage::Listening => match report {
                LinkReport::Reply(bytes) => self.answered(bytes@),
                LinkReport::Done => self.given_up(ConnectError::OutOfTurn),
                LinkReport::Failed => self.given_up(ConnectError::LinkFailed),
            },
            _ => match report {
                LinkReport::Failed => self.given_up(ConnectError::LinkFailed),
                LinkReport::Reply(_) => self.given_up(ConnectError::OutOfTurn),
                LinkReport::Done => match self.stage {
                    HandshakeStage::Parting => self.moved(
                        HandshakeStage::Settling,
                        LinkRequest::Sleep(SETTLE_MS),
                    ),
                    HandshakeStage::Settling => self.moved(
                        HandshakeStage::Clearing,
                        LinkRequest::DiscardInput,
                    ),
                    HandshakeStage::Clearing => self.moved(
                        HandshakeStage::Greeting,
                        LinkRequest::SendGreeting,
                    ),
                    HandshakeStage::Greeting => self.moved(
                        HandshakeStage::Listening,
                        LinkRequest::ReadReply,
                    ),
                    _ => self.moved(HandshakeStage::Clearing, LinkRequest::DiscardInput),
                },
            },
        }
    }

    /// An upper bound on the requests that the handshake will still make
    /// before it is over.
    pub open spec fn requests_left(self) -> nat {
        let probes_left = if self.failures < MAX_PROBES {
            (MAX_PROBES - self.failures) as nat
        } else {
            0
        };
        match self.stage {
            HandshakeStage::Parting => 7 + 5 * probes_left,
            HandshakeStage::Settling => 6 + 5 * probes_left,
            HandshakeStage::Resting => 5 + 5 * probes_left,
            HandshakeStage::Clearing => 4 + 5 * probes_left,
            HandshakeStage::Greeting => 3 + 5 * probes_left,
            HandshakeStage::Listening => 2 + 5 * probes_left,
            HandshakeStage::Connected => 0,
            HandshakeStage::Failed(_) => 0,
        }
    }

    /// Begins a handshake. The first thing to do is to send `bye!`.
    pub fn start() -> (begun: (Handshake, LinkRequest))
        ensures
            begun.0 == Handshake::begun(),
            begun.1 == LinkRequest::SendFarewell,
    {
        (Handshake { stage: HandshakeStage::Parting, failures: 0 }, LinkRequest::SendFarewell)
    }

    /// Tells whether the board answered `ok!`.
    pub fn is_connected(&self) -> (connected: bool)
        ensures
            connected == (self.stage == HandshakeStage::Connected),
    {
        match self.stage {
            HandshakeStage::Connected => true,
            _ => false,
        }
    }

    /// The reason why the handshake has not led to a link: the error that
    /// ended it, `Unfinished` while it is under way, nothing once connected.
    pub fn error(&self) -> (reason: Option<ConnectError>)
        ensures
            reason == match self.stage {
                HandshakeStage::Connected => None,
                HandshakeStage::Failed(e) => Some(e),
                _ => Some(ConnectError::Unfinished),
            },
    {
        match self.stage {
            HandshakeStage::Connected => None,
            HandshakeStage::Failed(e) => Some(e),
            _ => Some(ConnectError::Unfinished),
        }
    }

    fn give_up(&mut self, reason: ConnectError) -> (request: LinkRequest)
        ensures
            (*final(self), request) == old(self).given_up(reason),
    {
        self.stage = HandshakeStage::Failed(reason);
        LinkRequest::Abandon(reason)
    }

    fn move_to(&mut self, stage: HandshakeStage, request: LinkRequest) -> (next: LinkRequest)
        ensures
            (*final(self), next) == old(self).moved(stage, request),
    {
        self.stage = stage;
        request
    }

    fn answer(&mut self, reply: &[u8; 3]) -> (request: LinkRequest)
        ensures
            (*final(self), request) == old(self).answered(reply@),
    {
        if reply[0] == 'o' as u8 && reply[1] == 'k' as u8 && reply[2] == '!' as u8 {
            assert(reply@ =~= welcome_bytes());
            self.stage = HandshakeStage::Connected;
            LinkRequest::Finished
        } else if self.failures >= MAX_PROBES - 1 {
            self.stage = HandshakeStage::Failed(ConnectError::NoResponse);
            self.failures = MAX_PROBES;
            LinkRequest::Abandon(ConnectError::NoResponse)
        } else {
            self.stage = HandshakeStage::Resting;
            self.failures = self.failures + 1;
            LinkRequest::Sleep(BACKOFF_MS)
        }
    }

    /// Takes the report on the last request and says what to do next.
    pub fn advance(&mut self, report: LinkReport) -> (request: LinkRequest)
        ensures
            (*final(self), request) == old(self).step(report),
    {
        match self.stage {
            HandshakeStage::Connected => LinkRequest::Finished,
            HandshakeStage::Failed(reason) => LinkRequest::Abandon(reason),
            HandshakeStage::Listening => match report {
                LinkReport::Reply(bytes) => self.answer(&bytes),
                LinkReport::Done => self.give_up(ConnectError::OutOfTurn),
                LinkReport::Failed => self.give_up(ConnectError::LinkFailed),
            },
            _ => match report {
                LinkReport::Failed => self.give_up(ConnectError::LinkFailed),
                LinkReport::Reply(_) => self.give_up(ConnectError::OutOfTurn),
                LinkReport::Done => match self.stage {
                    HandshakeStage::Parting => self.move_to(
                        HandshakeStage::Settling,
                        LinkRequest::Sleep(SETTLE_MS),
                    ),
                    HandshakeStage::Settling => self.move_to(
                        HandshakeStage::Clearing,
                        LinkRequest::DiscardInput,
                    ),
                    HandshakeStage::Clearing => self.move_to(
                        HandshakeStage::Greeting,
                        LinkRequest::SendGreeting,
                    ),
                    HandshakeStage::Greeting => self.move_to(
                        HandshakeStage::Listening,
                        LinkRequest::ReadReply,
                    ),
                    _ => self.move_to(HandshakeStage::Clearing, LinkRequest::DiscardInput),
                },
            },
        }
    }
}

/// Every report brings a handshake that is under way closer to its end, so
/// it is over after at most `7 + 5 * MAX_PROBES` requests, and it asks the
/// board at most `MAX_PROBES` times.
pub proof fn lemma_handshake_ends(handshake: Handshake, report: LinkReport)
    requires
        !handshake.is_over(),
        handshake.failures < MAX_PROBES,
    ensures
        handshake.step(report).0.requests_left() < handshake.requests_left(),
        handshake.step(report).0.failures <= MAX_PROBES,
        !handshake.step(report).0.is_over() ==> handshake.step(report).0.failures < MAX_PROBES,
        Handshake::begun().requests_left() == 7 + 5 * MAX_PROBES,
        handshake.step(report).1 is Finished <==> handshake.step(report).0.stage
            == HandshakeStage::Connected,
        handshake.step(report).1 is Abandon <==> handshake.step(report).0.stage is Failed,
{
}

/// A handshake ends connected only on the answer `ok!`, and an answer other
/// than `ok!` never connects.
pub proof fn lemma_only_welcome_connects(handshake: Handshake, report: LinkReport)
    requires
        !handshake.is_over(),
    ensures
        handshake.step(report).0.stage == HandshakeStage::Connected <==> handshake.stage
            == HandshakeStage::Listening && (report matches LinkReport::Reply(bytes) && bytes@
            == welcome_bytes()),
{
}

} // verus!
